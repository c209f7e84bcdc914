//! The commands of the command line.

use vstd::prelude::*;

verus! {

/// The command line.
pub struct Cli {
    pub command: Commands,
}

/// The top-level commands.
#[allow(inconsistent_fields)]
pub enum Commands {
    /// Manage the local wallet.
    Wallet { action: WalletCommands },
    /// Manage documents.
    Doc { action: DocCommands },
    /// Chain of custody.
    C2c { action: C2cCommands },
    /// Run the HTTP server.
    Server,
}

/// The wallet commands.
#[derive(Debug)]
pub enum WalletCommands {
    /// Make the local wallet.
    Init,
    /// Show the wallet's identity.
    Show,
}

/// The document commands.
#[derive(Debug)]
pub enum DocCommands {
    Upload { path: String, label: Option<String>, store: String },
    Download { id: Option<String>, hash: Option<String>, out: String },
    Sign { id: Option<String>, hash: Option<String> },
    History { id: Option<String>, hash: Option<String> },
    /// Create an encrypted envelope from a file.
    EnvelopeCreate { input: String },
    /// Decrypt an envelope for its owner.
    EnvelopeDecrypt { envelope_id: String, out: String },
}

/// The chain-of-custody commands.
pub enum C2cCommands {
    /// List all events.
    List,
    /// Show one event.
    Show { id: String },
    /// Anchor the hash of an event.
    Anchor { id: String },
}

/// The store a document goes to when none is named.
pub const DEFAULT_STORE: &'static str = "local";

} // verus!
