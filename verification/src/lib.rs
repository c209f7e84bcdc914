//! Hybrid post-quantum document envelopes: canonical encoding, content
//! addressing, ML-KEM-768 key handling and the seal/open protocol.

pub mod arweave;
pub mod c2c;
pub mod cli;
pub mod config;
pub mod crypto;
pub mod error;
pub mod identity;
pub mod identity_web;
pub mod models;
pub mod pqc;
pub mod sanitizer;
pub mod server;
pub mod system;
pub mod text;
pub mod text_map;
