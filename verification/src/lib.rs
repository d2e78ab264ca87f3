//! An incrementally updated accessibility tree with verified consistency.

pub mod consumer;
pub mod platform;
pub mod schema;
