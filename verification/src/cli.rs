//! The command line: its commands and what they decide.

pub mod commands;
pub mod keys;
pub mod parser;
