use vstd::prelude::*;

verus! {

/// Subcommands for `wallman config`.
#[derive(Debug, Clone, Copy, PartialEq, Eq, Structural)]
pub enum ConfigCommand {
    /// Create a default config file if none exists.
    Init,
    /// Open the config file in the editor.
    Edit,
    /// Parse and validate the current config file.
    Validate,
    /// Print the path to the active config file.
    Path,
}

} // verus!
