//! Verified core of `zana`, a command-line helper around AWS: configuration and
//! credentials files, SSO session handling, access-token caching and the
//! record types the CLI prints.
pub mod text;
pub mod utils;
pub mod aws;
pub mod ini;
pub mod browser;
pub mod cli;
