//! Error types: the envelope failure taxonomy and the application error.

use vstd::prelude::*;

verus! {

/// Why sealing or opening an envelope failed.
#[derive(Debug, Clone, Copy, PartialEq, Eq, Structural)]
pub enum EnvelopeError {
    /// Key text that does not decode, or decodes to the wrong number of bytes.
    InvalidKey,
    /// A KEM ciphertext whose length is not the fixed ciphertext size.
    InvalidCiphertext,
    /// No wrapped key is addressed to the requesting identity.
    NotARecipient,
    /// The wrapped content key failed authentication.
    UnwrapFailed,
    /// The recovered content key is not 32 bytes long.
    InvalidKeyMaterial,
    /// The payload failed authentication.
    DecryptFailed,
    /// A stored field is not valid base64, or a nonce has the wrong length.
    EncodingError,
    /// Encryption or key derivation failed while sealing.
    InternalCryptoFailure,
}

impl EnvelopeError {
    /// True for the two failures that mean "authentication failed" and
    /// nothing more specific.
    pub open spec fn is_authentication_failure(self) -> bool {
        self == EnvelopeError::UnwrapFailed || self == EnvelopeError::DecryptFailed
    }

    /// A short description; authentication failures do not say which check failed.
    pub fn message(&self) -> (s: String)
        ensures
            s@ == match *self {
                EnvelopeError::InvalidKey => "invalid key"@,
                EnvelopeError::InvalidCiphertext => "invalid KEM ciphertext length"@,
                EnvelopeError::NotARecipient => "no wrapped key for this identity"@,
                EnvelopeError::UnwrapFailed => "authentication failed"@,
                EnvelopeError::InvalidKeyMaterial => "invalid content key length"@,
                EnvelopeError::DecryptFailed => "authentication failed"@,
                EnvelopeError::EncodingError => "stored field does not decode"@,
                EnvelopeError::InternalCryptoFailure => "internal crypto failure"@,
            },
    {
        match self {
            EnvelopeError::InvalidKey => "invalid key".to_owned(),
            EnvelopeError::InvalidCiphertext => "invalid KEM ciphertext length".to_owned(),
            EnvelopeError::NotARecipient => "no wrapped key for this identity".to_owned(),
            EnvelopeError::UnwrapFailed => "authentication failed".to_owned(),
            EnvelopeError::InvalidKeyMaterial => "invalid content key length".to_owned(),
            EnvelopeError::DecryptFailed => "authentication failed".to_owned(),
            EnvelopeError::EncodingError => "stored field does not decode".to_owned(),
            EnvelopeError::InternalCryptoFailure => "internal crypto failure".to_owned(),
        }
    }
}

/// The application-level error, each variant with its message.
#[derive(Debug)]
pub enum AppError {
    BadRequest(String),
    Forbidden(String),
    Auth(String),
    Internal(String),
    Crypto(String),
    Io(String),
    SerdeJson(String),
}

/// The kind of an [`AppError`], without its message.
#[derive(Debug, Clone, Copy, PartialEq, Eq, Structural)]
pub enum AppErrorKind {
    BadRequest,
    Forbidden,
    Auth,
    Internal,
    Crypto,
    Io,
    SerdeJson,
}

pub type AppResult<T> = Result<T, AppError>;

impl AppError {
    pub open spec fn kind_of(self) -> AppErrorKind {
        match self {
            AppError::BadRequest(_) => AppErrorKind::BadRequest,
            AppError::Forbidden(_) => AppErrorKind::Forbidden,
            AppError::Auth(_) => AppErrorKind::Auth,
            AppError::Internal(_) => AppErrorKind::Internal,
            AppError::Crypto(_) => AppErrorKind::Crypto,
            AppError::Io(_) => AppErrorKind::Io,
            AppError::SerdeJson(_) => AppErrorKind::SerdeJson,
        }
    }

    /// The text carried by the error.
    pub open spec fn detail(self) -> Seq<char> {
        match self {
            AppError::BadRequest(m) => m@,
            AppError::Forbidden(m) => m@,
            AppError::Auth(m) => m@,
            AppError::Internal(m) => m@,
            AppError::Crypto(m) => m@,
            AppError::Io(m) => m@,
            AppError::SerdeJson(m) => m@,
        }
    }

    /// The HTTP status a kind is answered with.
    pub open spec fn status_of(kind: AppErrorKind) -> u16 {
        match kind {
            AppErrorKind::BadRequest => 400,
            AppErrorKind::Forbidden => 403,
            AppErrorKind::Auth => 401,
            _ => 500,
        }
    }

    pub fn kind(&self) -> (k: AppErrorKind)
        ensures
            k == self.kind_of(),
    {
        match self {
            AppError::BadRequest(_) => AppErrorKind::BadRequest,
            AppError::Forbidden(_) => AppErrorKind::Forbidden,
            AppError::Auth(_) => AppErrorKind::Auth,
            AppError::Internal(_) => AppErrorKind::Internal,
            AppError::Crypto(_) => AppErrorKind::Crypto,
            AppError::Io(_) => AppErrorKind::Io,
            AppError::SerdeJson(_) => AppErrorKind::SerdeJson,
        }
    }

    /// The HTTP status this error is answered with: 400, 403 and 401 for the
    /// caller's mistakes, 500 for everything else.
    pub fn status_code(&self) -> (code: u16)
        ensures
            code == Self::status_of(self.kind_of()),
    {
        match self {
            AppError::BadRequest(_) => 400,
            AppError::Forbidden(_) => 403,
            AppError::Auth(_) => 401,
            AppError::Crypto(_) => 500,
            AppError::Internal(_) => 500,
            AppError::Io(_) => 500,
            AppError::SerdeJson(_) => 500,
        }
    }
}

} // verus!
