//! Checks on what comes in.

pub mod ipinfo;
