//! Node identifiers.

use super::content::Content;
use vstd::prelude::*;

verus! {

/// The identifier of a node: a non-zero number, unique within one tree.
#[derive(Clone, Copy, Debug, PartialEq, Eq, Hash, Structural)]
pub struct NodeId {
    pub(crate) value: u64,
}

impl View for NodeId {
    type V = u64;

    open(crate) spec fn view(&self) -> u64 {
        self.value
    }
}

impl NodeId {
    #[verifier::type_invariant]
    pub closed spec fn is_nonzero(self) -> bool {
        self.value != 0
    }

    /// The identifier with the given number, unless the number is zero.
    pub fn new(value: u64) -> (id: Option<NodeId>)
        ensures
            value == 0 ==> id is None,
            value != 0 ==> id is Some && id.unwrap()@ == value,
    {
        if value == 0 {
            None
        } else {
            Some(NodeId { value })
        }
    }

    /// The number that this identifier holds.
    pub fn get(self) -> (value: u64)
        ensures
            value == self@,
            value != 0,
    {
        proof {
            use_type_invariant(&self);
        }
        self.value
    }
}

impl Content for NodeId {
    type Model = u64;

    open spec fn model(&self) -> u64 {
        self@
    }

    fn same(&self, other: &Self) -> (r: bool) {
        self.value == other.value
    }

    fn duplicate(&self) -> (r: Self) {
        *self
    }
}

} // verus!
