//! What an update changed, and why an update is refused.

use crate::schema::{Content, Node, NodeView};
use vstd::prelude::*;
use vstd::std_specs::cmp::PartialEqSpecImpl;

verus! {

/// One change that an update made to a tree.
#[derive(Debug)]
#[allow(inconsistent_fields)]
pub enum TreeChange {
    /// A node came into the tree.
    NodeAdded(Node),
    /// A node is still in the tree, and some field of it is no longer what
    /// it was.
    NodeUpdated { old_node: Node, new_node: Node },
    /// A node left the tree.
    NodeRemoved(Node),
    /// The focus went from one node to another. A side is absent where the
    /// focus is not on a node of this tree.
    FocusMoved { old_node: Option<Node>, new_node: Option<Node> },
}

/// What a `TreeChange` stands for.
#[allow(inconsistent_fields)]
pub enum TreeChangeView {
    NodeAdded(NodeView),
    NodeUpdated { old_node: NodeView, new_node: NodeView },
    NodeRemoved(NodeView),
    FocusMoved { old_node: Option<NodeView>, new_node: Option<NodeView> },
}

impl View for TreeChange {
    type V = TreeChangeView;

    open spec fn view(&self) -> TreeChangeView {
        match self {
            TreeChange::NodeAdded(node) => TreeChangeView::NodeAdded(node@),
            TreeChange::NodeUpdated { old_node, new_node } => TreeChangeView::NodeUpdated {
                old_node: old_node@,
                new_node: new_node@,
            },
            TreeChange::NodeRemoved(node) => TreeChangeView::NodeRemoved(node@),
            TreeChange::FocusMoved { old_node, new_node } => TreeChangeView::FocusMoved {
                old_node: old_node.model(),
                new_node: new_node.model(),
            },
        }
    }
}

impl Content for TreeChange {
    type Model = TreeChangeView;

    open spec fn model(&self) -> TreeChangeView {
        self@
    }

    fn same(&self, other: &Self) -> (r: bool) {
        match self {
            TreeChange::NodeAdded(a) => match other {
                TreeChange::NodeAdded(b) => a.same(b),
                _ => false,
            },
            TreeChange::NodeUpdated { old_node: a, new_node: c } => match other {
                TreeChange::NodeUpdated { old_node: b, new_node: d } => a.same(b) && c.same(d),
                _ => false,
            },
            TreeChange::NodeRemoved(a) => match other {
                TreeChange::NodeRemoved(b) => a.same(b),
                _ => false,
            },
            TreeChange::FocusMoved { old_node: a, new_node: c } => match other {
                TreeChange::FocusMoved { old_node: b, new_node: d } => a.same(b) && c.same(d),
                _ => false,
            },
        }
    }

    fn duplicate(&self) -> (r: Self) {
        match self {
            TreeChange::NodeAdded(node) => TreeChange::NodeAdded(node.duplicate()),
            TreeChange::NodeUpdated { old_node, new_node } => TreeChange::NodeUpdated {
                old_node: old_node.duplicate(),
                new_node: new_node.duplicate(),
            },
            TreeChange::NodeRemoved(node) => TreeChange::NodeRemoved(node.duplicate()),
            TreeChange::FocusMoved { old_node, new_node } => TreeChange::FocusMoved {
                old_node: old_node.duplicate(),
                new_node: new_node.duplicate(),
            },
        }
    }
}

impl Clone for TreeChange {
    fn clone(&self) -> (r: Self)
        ensures
            r@ == self@,
    {
        self.duplicate()
    }
}

impl PartialEq for TreeChange {
    fn eq(&self, other: &Self) -> (r: bool) {
        self.same(other)
    }
}

impl PartialEqSpecImpl for TreeChange {
    open spec fn obeys_eq_spec() -> bool {
        true
    }

    open spec fn eq_spec(&self, other: &Self) -> bool {
        self@ == other@
    }
}

/// Why an update was refused. A refused update leaves the tree as it was.
#[derive(Clone, Copy, Debug, PartialEq, Eq, Hash, Structural)]
pub enum UpdateError {
    /// The tree would have no root: it is empty and the update names none,
    /// or the root it names is never defined.
    MissingRoot,
    /// The update asks to clear a node that the tree does not have.
    ClearedNodeNotInTree,
    /// The update clears a node and does not define it again.
    ClearedNodeNotUpdated,
    /// The update defines a node that is neither in the tree, nor listed
    /// before as a new child, nor the root of a tree that was empty.
    UnknownNode,
    /// A node lists the same child twice.
    DuplicateChild,
    /// A node lists as its child a node that the tree already has elsewhere.
    ReparentedChild,
    /// A node lists a new child that the update never defines.
    DanglingChild,
}

} // verus!
