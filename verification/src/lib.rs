//! Configuration resolution and command planning for a CMake-style build
//! front end: a layered argument resolver, a fuzzy value matcher, a project
//! quirks detector, a per-subcommand command planner, and an incremental
//! test-selection engine over a persisted result database.

pub mod args;
pub mod cli;
pub mod cm;
pub mod fuzzy;
pub mod quoting;
pub mod resultdb;
pub mod strutil;
