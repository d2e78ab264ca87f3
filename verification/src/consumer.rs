//! The tree consistency engine: it owns the nodes of one tree, applies
//! updates to them one at a time, and reports what each update changed.

pub mod change;
pub mod laws;
pub mod model;
pub mod reach;
pub mod rules;
pub mod sound;
pub mod store;
pub mod tree;

pub use change::{TreeChange, TreeChangeView, UpdateError};
pub use model::TreeModel;
pub use tree::{Reader, Tree};
