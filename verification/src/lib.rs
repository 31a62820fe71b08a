//! Alias dispatch library: a configuration file maps short alias names to
//! shell command lines. The library loads such a configuration, resolves an
//! invocation string against it (first match in sequence order wins), renders
//! help text, and decides what an `init` run and a finished subprocess mean.

pub mod cli;
pub mod config;
pub mod dispatch;
pub mod errors;
pub mod help;
pub mod init;
pub mod resolve;
