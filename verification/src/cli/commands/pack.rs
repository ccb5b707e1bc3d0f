use vstd::prelude::*;

verus! {

/// Subcommands for `wallman pack`.
#[derive(Debug, Clone)]
pub enum PackCommand {
    /// Build a pack from the given theme directory.
    Build {
        /// Source theme directory.
        path: String,
        /// Output file path.
        output: Option<String>,
    },
    /// Inspect the contents of a pack without installing it.
    Inspect {
        /// The pack file to inspect.
        file: String,
    },
}

} // verus!
