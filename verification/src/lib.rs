//! A configuration-resolution engine for a batch-processing command-line
//! tool.
//!
//! The library builds one fully populated [`schema::Config`] from two
//! competing sources — the command line and a TOML configuration file —
//! under an absolute precedence policy (command line first, file second),
//! and aggregates the failures of all attempted sources into one structured
//! diagnosis when neither source yields a complete candidate.

pub mod cli;
pub mod errors;
pub mod file;
pub mod resolver;
pub mod schema;
