//! The data of a tree as a whole, and the batch that changes a tree.

use super::content::Content;
use super::id::NodeId;
use super::node::{Node, NodeView};
use vstd::prelude::*;
use vstd::std_specs::cmp::PartialEqSpecImpl;

verus! {

/// The data associated with an accessibility tree that's global to the tree
/// and not associated with any particular node.
#[derive(Debug)]
pub struct Tree {
    /// The globally unique ID of this tree. The format of this ID is up to
    /// the implementer. A UUID v4 is a safe choice.
    pub id: String,
    /// The ID of the tree that this tree is contained in, if any.
    pub parent_tree_id: Option<String>,
    /// The ID of the tree that has focus, if it's not this tree but a
    /// descendant of it.
    pub focused_tree_id: Option<String>,
    /// The node with keyboard focus within this tree, if any.
    pub focused_node_id: Option<NodeId>,
    /// The node that's used as the root scroller, if any. On some platforms
    /// accessibility scroll offsets are ignored for that node and taken from
    /// the viewport instead.
    pub root_scroller_id: Option<NodeId>,
}

/// What a `Tree` stands for.
pub struct TreeView {
    pub id: Seq<char>,
    pub parent_tree_id: Option<Seq<char>>,
    pub focused_tree_id: Option<Seq<char>>,
    pub focused_node_id: Option<u64>,
    pub root_scroller_id: Option<u64>,
}

impl View for Tree {
    type V = TreeView;

    open spec fn view(&self) -> TreeView {
        TreeView {
            id: self.id@,
            parent_tree_id: self.parent_tree_id.model(),
            focused_tree_id: self.focused_tree_id.model(),
            focused_node_id: self.focused_node_id.model(),
            root_scroller_id: self.root_scroller_id.model(),
        }
    }
}

impl Content for Tree {
    type Model = TreeView;

    open spec fn model(&self) -> TreeView {
        self@
    }

    fn same(&self, other: &Self) -> (r: bool) {
        self.id.same(&other.id) && self.parent_tree_id.same(&other.parent_tree_id)
            && self.focused_tree_id.same(&other.focused_tree_id) && self.focused_node_id.same(
            &other.focused_node_id,
        ) && self.root_scroller_id.same(&other.root_scroller_id)
    }

    fn duplicate(&self) -> (r: Self) {
        Tree {
            id: self.id.duplicate(),
            parent_tree_id: self.parent_tree_id.duplicate(),
            focused_tree_id: self.focused_tree_id.duplicate(),
            focused_node_id: self.focused_node_id,
            root_scroller_id: self.root_scroller_id,
        }
    }
}

impl Clone for Tree {
    fn clone(&self) -> (r: Self)
        ensures
            r@ == self@,
    {
        self.duplicate()
    }
}

impl PartialEq for Tree {
    fn eq(&self, other: &Self) -> (r: bool) {
        self.same(other)
    }
}

impl PartialEqSpecImpl for Tree {
    open spec fn obeys_eq_spec() -> bool {
        true
    }

    open spec fn eq_spec(&self, other: &Self) -> bool {
        self@ == other@
    }
}

/// An atomic change to a tree. The sender and receiver must be in sync: the
/// update is only meant to bring the tree from a specific previous state into
/// its next state.
#[derive(Debug)]
pub struct TreeUpdate {
    /// The optional ID of a node to clear, before applying any updates.
    /// Clearing a node means deleting all of its children and their
    /// descendants, but leaving that node in the tree. It's an error to clear
    /// a node but not subsequently update it as part of the same `TreeUpdate`.
    pub node_id_to_clear: Option<NodeId>,
    /// An ordered list of zero or more node updates to apply to the tree.
    ///
    /// Suppose that the next `Node` to be applied is `node`. The following
    /// invariants must hold:
    ///
    /// * Either `node.id` is already in the tree, or the tree is empty and
    ///   `node` is the new root of the tree.
    /// * Every child ID in `node.child_ids` must either be already a child of
    ///   this node, or a new ID not previously in the tree. It is not allowed
    ///   to "reparent" a child to this node without first removing that child
    ///   from its previous parent.
    /// * When a new ID appears in `node.child_ids`, the tree creates a
    ///   placeholder for it. That placeholder must be updated within the same
    ///   `TreeUpdate`, otherwise it's a fatal error. This guarantees the tree
    ///   is always complete before or after a `TreeUpdate`.
    pub nodes: Vec<Node>,
    /// Updated information about the tree as a whole. This may be omitted if
    /// it has not changed since the previous update, but providing the same
    /// information again is also allowed. This is required when initializing
    /// a tree.
    pub tree: Option<Tree>,
    /// The ID of the tree's root node. This is required when the tree is
    /// being initialized or if the root is changing.
    pub root_id: Option<NodeId>,
}

/// What a `TreeUpdate` stands for.
pub struct TreeUpdateView {
    pub node_id_to_clear: Option<u64>,
    pub nodes: Seq<NodeView>,
    pub tree: Option<TreeView>,
    pub root_id: Option<u64>,
}

impl View for TreeUpdate {
    type V = TreeUpdateView;

    open spec fn view(&self) -> TreeUpdateView {
        TreeUpdateView {
            node_id_to_clear: self.node_id_to_clear.model(),
            nodes: self.nodes.model(),
            tree: self.tree.model(),
            root_id: self.root_id.model(),
        }
    }
}

impl Content for TreeUpdate {
    type Model = TreeUpdateView;

    open spec fn model(&self) -> TreeUpdateView {
        self@
    }

    fn same(&self, other: &Self) -> (r: bool) {
        self.node_id_to_clear.same(&other.node_id_to_clear) && self.nodes.same(&other.nodes)
            && self.tree.same(&other.tree) && self.root_id.same(&other.root_id)
    }

    fn duplicate(&self) -> (r: Self) {
        TreeUpdate {
            node_id_to_clear: self.node_id_to_clear,
            nodes: self.nodes.duplicate(),
            tree: self.tree.duplicate(),
            root_id: self.root_id,
        }
    }
}

impl Clone for TreeUpdate {
    fn clone(&self) -> (r: Self)
        ensures
            r@ == self@,
    {
        self.duplicate()
    }
}

impl PartialEq for TreeUpdate {
    fn eq(&self, other: &Self) -> (r: bool) {
        self.same(other)
    }
}

impl PartialEqSpecImpl for TreeUpdate {
    open spec fn obeys_eq_spec() -> bool {
        true
    }

    open spec fn eq_spec(&self, other: &Self) -> bool {
        self@ == other@
    }
}

} // verus!
