//! A git merge driver that runs `rustfmt` over the three versions of a file
//! before delegating the actual three-way merge to `git merge-file`.
//!
//! The crate holds the driver's decision logic: parsing the command line,
//! building the exact argument vectors handed to the two external tools,
//! classifying how each tool invocation ended, and deriving the process's
//! final exit code. Launching the tools themselves is left to the binary
//! around the library.

pub mod args;
pub mod command;
pub mod num;
pub mod outcome;
