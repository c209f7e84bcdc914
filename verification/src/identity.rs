//! Identities: the local wallet, signature checks and login by address.

pub mod local_wallet;
pub mod wallet_verify;
pub mod web;
