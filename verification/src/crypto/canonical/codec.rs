//! Text encodings of byte strings: URL-safe base64 without padding, and
//! lowercase hexadecimal.

use base64::Engine;
use vstd::prelude::*;

verus! {

/// The URL-safe, unpadded base64 text of a byte string.
pub uninterp spec fn base64url_text(bytes: Seq<u8>) -> Seq<char>;

/// The bytes that a URL-safe, unpadded base64 text decodes to, if it decodes.
pub uninterp spec fn base64url_bytes(text: Seq<char>) -> Option<Seq<u8>>;

/// The lowercase hexadecimal digit for a value below 16.
pub open spec fn hex_digit(n: int) -> char {
    if n == 0 { '0' } else if n == 1 { '1' } else if n == 2 { '2' } else if n == 3 { '3' }
    else if n == 4 { '4' } else if n == 5 { '5' } else if n == 6 { '6' } else if n == 7 { '7' }
    else if n == 8 { '8' } else if n == 9 { '9' } else if n == 10 { 'a' } else if n == 11 { 'b' }
    else if n == 12 { 'c' } else if n == 13 { 'd' } else if n == 14 { 'e' } else { 'f' }
}

/// Lowercase hexadecimal text: two digits per byte, high nibble first.
pub open spec fn hex_text(bytes: Seq<u8>) -> Seq<char> {
    Seq::new(
        2 * bytes.len(),
        |i: int| if i % 2 == 0 { hex_digit(bytes[i / 2] as int / 16) } else { hex_digit(bytes[i / 2] as int % 16) },
    )
}

/// Calls `Engine::encode` on `base64::engine::general_purpose::URL_SAFE_NO_PAD`.
/// The text depends on the bytes alone, and decoding it with the same
/// engine gives the bytes back.
#[verifier::external_body]
pub(crate) fn base64url_encode(bytes: &[u8]) -> (text: String)
    ensures
        text@ == base64url_text(bytes@),
        base64url_bytes(text@) == Some(bytes@),
{
    base64::engine::general_purpose::URL_SAFE_NO_PAD.encode(bytes)
}

/// Calls `Engine::decode` on `base64::engine::general_purpose::URL_SAFE_NO_PAD`.
/// Whether the text decodes, and to which bytes, depends on the text alone.
#[verifier::external_body]
pub(crate) fn base64url_decode(text: &str) -> (bytes: Option<Vec<u8>>)
    ensures
        match bytes {
            Some(b) => base64url_bytes(text@) == Some(b@),
            None => base64url_bytes(text@) is None,
        },
{
    match base64::engine::general_purpose::URL_SAFE_NO_PAD.decode(text) {
        Ok(b) => Some(b),
        Err(_) => None,
    }
}

/// Calls `hex::encode`: two lowercase hexadecimal digits per byte.
#[verifier::external_body]
pub(crate) fn hex_encode(bytes: &[u8]) -> (text: String)
    ensures
        text@ == hex_text(bytes@),
{
    hex::encode(bytes)
}

} // verus!
