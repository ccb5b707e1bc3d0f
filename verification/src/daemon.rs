//! The daemon's life as a process: started, stopped, restarted, asked for
//! its status.

pub mod manager;

pub use manager::{DaemonExitCode, DaemonManager};
