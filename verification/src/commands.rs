//! Command handlers that the dispatcher hands work to.

pub mod project;
pub mod toolchain;
