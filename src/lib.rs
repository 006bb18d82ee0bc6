//! Reusable command-line flag groups for cargo subcommands, and the logic
//! that turns them into a selection of workspace packages.

pub mod command;
pub mod features;
pub mod manifest;
pub mod workspace;
