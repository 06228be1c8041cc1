//! The commands of the command line, and the decisions they make.
use vstd::prelude::*;

pub mod config;
pub mod review;

verus! {

/// The parsed command line.
#[derive(Debug)]
pub struct Cli {
    pub command: Commands,
}

/// The commands.
#[derive(Debug)]
pub enum Commands {
    /// Start the watcher daemon
    Daemon,
    /// Review pending actions; with `apply`, execute them
    Review { apply: bool },
    /// Show current triage status
    Status,
    /// Manage configuration
    Config { subcommand: ConfigSubcommand },
    /// Clean up processed files from registry
    Clean,
}

/// The subcommands of `config`.
#[derive(Debug)]
pub enum ConfigSubcommand {
    /// Show current configuration
    Show,
    /// Edit configuration file
    Edit,
    /// Reset to default configuration
    Reset,
    /// Set LLM API key
    SetApiKey { key: String },
    /// Delete LLM API key
    DeleteApiKey,
}

} // verus!
