//! The command line: the texts of its prompts and the routing of a
//! subcommand path to what the tool does.
pub mod prompt;
pub mod runner;
