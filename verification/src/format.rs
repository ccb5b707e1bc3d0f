//! Theme packs: what is decided when one is built or installed.

pub mod install;
pub mod pack;
