//! The subcommands.

pub mod completion;
pub mod config;
pub mod daemon;
pub mod pack;
pub mod theme;

pub use completion::CompletionCommand;
pub use config::ConfigCommand;
pub use daemon::DaemonCommand;
pub use pack::PackCommand;
pub use theme::ThemeCommand;
