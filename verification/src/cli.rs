//! The command line as the library sees it: the commands, where each is
//! routed, and how a failure is reported.

pub mod app;
pub mod commands;
pub mod dispatcher;

pub use app::Cli;
pub use dispatcher::dispatch;
