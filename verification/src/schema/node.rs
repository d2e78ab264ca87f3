//! A single accessible object.

use super::attribute::{NodeAttribute, NodeAttributeView};
use super::content::Content;
use super::geometry::{RelativeBounds, RelativeBoundsView};
use super::id::NodeId;
use super::role::{Action, Role};
use super::state::NodeState;
use vstd::prelude::*;
use vstd::std_specs::cmp::PartialEqSpecImpl;

verus! {

/// A single accessible object. A complete UI is represented as a tree of these.
#[derive(Debug)]
pub struct Node {
    pub id: NodeId,
    pub role: Role,
    pub bounds: Option<RelativeBounds>,
    pub child_ids: Vec<NodeId>,
    pub state: NodeState,
    /// Unordered set of actions supported by this node.
    pub actions: Vec<Action>,
    /// Unordered list of the attributes of a node. Each kind of attribute
    /// should appear at most once.
    pub attributes: Vec<NodeAttribute>,
}

/// What a `Node` stands for: its fields as mathematical values.
pub struct NodeView {
    pub id: u64,
    pub role: Role,
    pub bounds: Option<RelativeBoundsView>,
    pub child_ids: Seq<u64>,
    pub state: NodeState,
    pub actions: Seq<Action>,
    pub attributes: Seq<NodeAttributeView>,
}

impl View for Node {
    type V = NodeView;

    open spec fn view(&self) -> NodeView {
        NodeView {
            id: self.id@,
            role: self.role,
            bounds: self.bounds.model(),
            child_ids: self.child_ids.model(),
            state: self.state,
            actions: self.actions.model(),
            attributes: self.attributes.model(),
        }
    }
}

impl Content for Node {
    type Model = NodeView;

    open spec fn model(&self) -> NodeView {
        self@
    }

    fn same(&self, other: &Self) -> (r: bool) {
        self.id.same(&other.id) && self.role == other.role && self.bounds.same(&other.bounds)
            && self.child_ids.same(&other.child_ids) && self.state == other.state
            && self.actions.same(&other.actions) && self.attributes.same(&other.attributes)
    }

    fn duplicate(&self) -> (r: Self) {
        Node {
            id: self.id,
            role: self.role,
            bounds: self.bounds.duplicate(),
            child_ids: self.child_ids.duplicate(),
            state: self.state,
            actions: self.actions.duplicate(),
            attributes: self.attributes.duplicate(),
        }
    }
}

impl Clone for Node {
    fn clone(&self) -> (r: Self)
        ensures
            r@ == self@,
    {
        self.duplicate()
    }
}

impl PartialEq for Node {
    fn eq(&self, other: &Self) -> (r: bool) {
        self.same(other)
    }
}

impl PartialEqSpecImpl for Node {
    open spec fn obeys_eq_spec() -> bool {
        true
    }

    open spec fn eq_spec(&self, other: &Self) -> bool {
        self@ == other@
    }
}

} // verus!
