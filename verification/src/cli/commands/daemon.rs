use vstd::prelude::*;

verus! {

/// Subcommands for `wallman daemon`.
#[derive(Debug, Clone, Copy, PartialEq, Eq, Structural)]
pub enum DaemonCommand {
    /// Start the background daemon.
    Start {
        /// Run in the foreground instead of detaching.
        foreground: bool,
    },
    /// Stop the running daemon.
    Stop,
    /// Restart the daemon.
    Restart,
    /// Show the daemon's status.
    Status,
}

} // verus!
