//! What the commands decide.

pub mod decrypt;
pub mod doc;
pub mod upload;
pub mod wallet;
