//! The document envelope: canonical form, content address, key
//! encapsulation and the seal/open protocol.

pub mod canonicalize;
pub mod codec;
pub mod document;
pub mod envelope;
pub mod hash;
pub mod json;
pub mod kem;
pub mod keystore;
pub mod metadata;
pub mod primitives;
