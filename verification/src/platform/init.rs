//! Where the first state of a tree comes from.

use crate::schema::{TreeUpdate, TreeUpdateView};
use vstd::prelude::*;

verus! {

/// A value from which the first update of a tree can be had, once, when the
/// tree is built.
pub trait InitTree: Sized {
    /// Whether `update` is an update that this value may give.
    spec fn gives(&self, update: TreeUpdateView) -> bool;

    /// The first update of the tree.
    fn init_accesskit_tree(self) -> (update: TreeUpdate)
        ensures
            self.gives(update@),
    ;
}

impl InitTree for TreeUpdate {
    open spec fn gives(&self, update: TreeUpdateView) -> bool {
        update == self@
    }

    fn init_accesskit_tree(self) -> (update: TreeUpdate) {
        self
    }
}

} // verus!
