//! Where a node lies: stored, never computed with.

use super::content::Content;
use super::id::NodeId;
use vstd::prelude::*;
use vstd::std_specs::cmp::PartialEqSpecImpl;

verus! {

/// A single-precision number held by its IEEE 754 bit pattern. Two numbers
/// are the same when their bits are.
#[derive(Clone, Copy, Debug, PartialEq, Eq, Hash, Structural)]
pub struct FloatBits {
    pub bits: u32,
}

impl Content for FloatBits {
    type Model = FloatBits;

    open spec fn model(&self) -> FloatBits {
        *self
    }

    fn same(&self, other: &Self) -> (r: bool) {
        self.bits == other.bits
    }

    fn duplicate(&self) -> (r: Self) {
        *self
    }
}

#[derive(Clone, Copy, Debug, PartialEq, Eq, Structural)]
pub struct Rect {
    pub left: FloatBits,
    pub top: FloatBits,
    pub width: FloatBits,
    pub height: FloatBits,
}

impl Content for Rect {
    type Model = Rect;

    open spec fn model(&self) -> Rect {
        *self
    }

    fn same(&self, other: &Self) -> (r: bool) {
        *self == *other
    }

    fn duplicate(&self) -> (r: Self) {
        *self
    }
}

/// 4x4 transformation matrix.
#[derive(Clone, Copy, Debug)]
pub struct Transform {
    /// Column major order.
    pub matrix: [FloatBits; 16],
}

impl Content for Transform {
    type Model = Seq<FloatBits>;

    open spec fn model(&self) -> Seq<FloatBits> {
        self.matrix@
    }

    fn same(&self, other: &Self) -> (r: bool) {
        let mut i: usize = 0;
        while i < 16
            invariant
                i <= 16,
                forall|j: int| 0 <= j < i ==> self.matrix@[j] == other.matrix@[j],
            decreases 16 - i,
        {
            if self.matrix[i].bits != other.matrix[i].bits {
                assert(self.matrix@[i as int] != other.matrix@[i as int]);
                return false;
            }
            i += 1;
        }
        assert(self.matrix@ =~= other.matrix@);
        true
    }

    fn duplicate(&self) -> (r: Self) {
        *self
    }
}

/// The relative bounding box of a node.
///
/// If `offset_container_id` is present, the bounds are relative to the node
/// with that identifier. Otherwise, for a node other than the root, the bounds
/// are relative to the root of the tree, and for the root of a tree, the
/// bounds are relative to its immediate containing node.
#[derive(Debug)]
pub struct RelativeBounds {
    /// An ancestor in the same tree that this bounding box is relative to.
    pub offset_container_id: Option<NodeId>,
    /// The relative bounding box of this node.
    pub bounds: Rect,
    /// An additional transform to apply to position this node and its
    /// subtree. Rarely used: omit it where it would be the identity.
    pub transform: Option<Box<Transform>>,
}

pub struct RelativeBoundsView {
    pub offset_container_id: Option<u64>,
    pub bounds: Rect,
    pub transform: Option<Seq<FloatBits>>,
}

impl View for RelativeBounds {
    type V = RelativeBoundsView;

    open spec fn view(&self) -> RelativeBoundsView {
        RelativeBoundsView {
            offset_container_id: self.offset_container_id.model(),
            bounds: self.bounds,
            transform: self.transform.model(),
        }
    }
}

impl Content for RelativeBounds {
    type Model = RelativeBoundsView;

    open spec fn model(&self) -> RelativeBoundsView {
        self@
    }

    fn same(&self, other: &Self) -> (r: bool) {
        self.offset_container_id.same(&other.offset_container_id) && self.bounds == other.bounds
            && self.transform.same(&other.transform)
    }

    fn duplicate(&self) -> (r: Self) {
        RelativeBounds {
            offset_container_id: self.offset_container_id,
            bounds: self.bounds,
            transform: self.transform.duplicate(),
        }
    }
}

impl Clone for RelativeBounds {
    fn clone(&self) -> (r: Self)
        ensures
            r@ == self@,
    {
        self.duplicate()
    }
}

impl PartialEq for RelativeBounds {
    fn eq(&self, other: &Self) -> (r: bool) {
        self.same(other)
    }
}

impl PartialEqSpecImpl for RelativeBounds {
    open spec fn obeys_eq_spec() -> bool {
        true
    }

    open spec fn eq_spec(&self, other: &Self) -> bool {
        self@ == other@
    }
}

impl PartialEq for Transform {
    fn eq(&self, other: &Self) -> (r: bool) {
        self.same(other)
    }
}

impl PartialEqSpecImpl for Transform {
    open spec fn obeys_eq_spec() -> bool {
        true
    }

    open spec fn eq_spec(&self, other: &Self) -> bool {
        self.matrix@ == other.matrix@
    }
}

} // verus!
