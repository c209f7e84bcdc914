//! Wallet login over the web: nonces, sessions and the login message.

pub mod evm;
pub mod session;
pub mod sol;
pub mod state;
