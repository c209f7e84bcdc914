//! Key files of the command line.

pub mod mlkem;
