//! Post-quantum and hashing primitives.

pub mod dilithium;
pub mod kyber;
pub mod sha3;
