//! Cryptographic building blocks.

pub mod aes_gcm;
pub mod canonical;
pub mod keywrap;
