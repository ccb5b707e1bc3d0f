//! The command line as a whole.

use vstd::prelude::*;
use crate::cli::commands::{
    CompletionCommand, ConfigCommand, DaemonCommand, PackCommand, ThemeCommand,
};

verus! {

/// What the command line asks for.
#[derive(Debug, Clone)]
pub struct Cli {
    /// Top-level subcommand.
    pub command: Command,
    /// Enable verbose operational logging.
    pub verbose: bool,
    /// Enable debug-level tracing output.
    pub debug: bool,
}

/// Top-level commands.
#[derive(Debug, Clone)]
pub enum Command {
    /// Manage wallpaper themes.
    Theme { sub: ThemeCommand },
    /// Control the background daemon.
    Daemon { sub: DaemonCommand },
    /// Manage the configuration.
    Config { sub: ConfigCommand },
    /// Build or inspect pack files.
    Pack { sub: PackCommand },
    /// Generate shell completion scripts.
    Completion { sub: CompletionCommand },
}

/// The log filter for the given verbosity: debug goes before verbose.
pub open spec fn filter_for(verbose: bool, debug: bool) -> Seq<char> {
    if debug {
        "wallman=debug,warn"@
    } else if verbose {
        "wallman=info,warn"@
    } else {
        "warn"@
    }
}

impl Cli {
    /// The filter that logging is set up with.
    pub fn log_filter(&self) -> (filter: &'static str)
        ensures
            filter@ == filter_for(self.verbose, self.debug),
    {
        if self.debug {
            "wallman=debug,warn"
        } else if self.verbose {
            "wallman=info,warn"
        } else {
            "warn"
        }
    }
}

} // verus!
