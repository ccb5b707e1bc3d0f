use vstd::prelude::*;

verus! {

/// Subcommands for `wallman theme`.
#[derive(Debug, Clone)]
pub enum ThemeCommand {
    /// Scaffold a new theme directory.
    Create {
        /// Target directory for the new theme.
        path: String,
        /// Optional theme name (defaults to the directory name).
        name: Option<String>,
    },
    /// Package a theme directory into a pack file.
    Pack {
        /// Source theme directory.
        path: String,
        /// Output pack file path.
        output: Option<String>,
    },
    /// Install a pack file.
    Install {
        /// Path to the pack file.
        file: String,
    },
    /// List all installed themes.
    List,
    /// Activate a theme by name.
    Activate {
        /// Theme name as the list shows it.
        name: String,
    },
    /// Remove an installed theme.
    Remove {
        /// Theme name to remove.
        name: String,
    },
}

} // verus!
