//! A small command-line greeter: a verified command grammar with two
//! subcommands, `greet` (print a greeting, localized or read from a file)
//! and `completion` (describe the grammar to a shell-completion generator).
//!
//! The library holds the whole command dispatch surface: parsing the
//! argument list into a validated [`command::Command`], choosing the
//! greeting text, trimming trailing whitespace from file contents, and the
//! grammar description handed to the completion collaborator. Reading the
//! argument list, the file system and the standard streams stay outside.

pub mod command;
pub mod grammar;
pub mod greet;
pub mod parse;
