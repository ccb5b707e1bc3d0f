//! Display outputs: which are active, and how per-output tables are resolved
//! against them.

pub mod resolver;

pub use resolver::OutputResolver;
