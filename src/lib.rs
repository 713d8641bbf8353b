//! Preflight checks for a developer machine: which command-line tools are on
//! the search path, which environment variables are set, and how the outcome
//! of each probe is reported.

pub mod text;
pub mod checks;
pub mod env;
pub mod binary;
pub mod config;
pub mod document;
