//! The mathematical model of a tree, and what it means for it to be well
//! formed.

use crate::schema::{NodeView, TreeView};
use vstd::prelude::*;

verus! {

/// Nodes by identifier.
pub type Nodes = Map<u64, NodeView>;

/// Whether `child` is listed among the children of `parent`.
pub open spec fn is_child(nodes: Nodes, parent: u64, child: u64) -> bool {
    nodes.contains_key(parent) && nodes[parent].child_ids.contains(child)
}

/// Whether `path` walks down child links through nodes that all exist.
pub open spec fn is_path(nodes: Nodes, path: Seq<u64>) -> bool {
    &&& path.len() > 0
    &&& forall|i: int| 0 <= i < path.len() ==> nodes.contains_key(#[trigger] path[i])
    &&& forall|i: int|
        0 <= i < path.len() - 1 ==> (#[trigger] nodes[path[i]]).child_ids.contains(path[i + 1])
}

/// Whether `to` can be reached from `from` by following child links.
pub open spec fn reachable(nodes: Nodes, from: u64, to: u64) -> bool {
    exists|path: Seq<u64>| #[trigger] is_path(nodes, path) && path.first() == from && path.last() == to
}

/// Everything that can be reached from `from`, `from` itself included.
pub open spec fn reachable_set(nodes: Nodes, from: u64) -> Set<u64> {
    Set::new(|id: u64| reachable(nodes, from, id))
}

/// Every node is filed under its own identifier.
pub open spec fn keyed_by_id(nodes: Nodes) -> bool {
    forall|id: u64| nodes.contains_key(id) ==> (#[trigger] nodes[id]).id == id
}

/// No node is listed as a child without being a node.
pub open spec fn no_dangling_children(nodes: Nodes) -> bool {
    forall|parent: u64, child: u64| #[trigger]
        is_child(nodes, parent, child) ==> nodes.contains_key(child)
}

/// No node lists the same child twice.
pub open spec fn no_repeated_children(nodes: Nodes) -> bool {
    forall|id: u64| nodes.contains_key(id) ==> (#[trigger] nodes[id]).child_ids.no_duplicates()
}

/// No node is the child of two nodes.
pub open spec fn single_parents(nodes: Nodes) -> bool {
    forall|a: u64, b: u64, child: u64|
        #[trigger] is_child(nodes, a, child) && #[trigger] is_child(nodes, b, child) ==> a == b
}

/// Whether `rank` grows along every child link, which leaves no room for a
/// cycle.
pub open spec fn ranked(nodes: Nodes, rank: spec_fn(u64) -> nat) -> bool {
    forall|parent: u64, child: u64| #[trigger]
        is_child(nodes, parent, child) ==> rank(parent) < rank(child)
}

/// No chain of child links leads back to where it started.
pub open spec fn acyclic(nodes: Nodes) -> bool {
    exists|rank: spec_fn(u64) -> nat| ranked(nodes, rank)
}

/// The state of a tree: its nodes, which of them is the root, and the data
/// of the tree as a whole.
pub struct TreeModel {
    pub nodes: Nodes,
    pub root: Option<u64>,
    pub data: Option<TreeView>,
}

impl TreeModel {
    /// The tree before its first update.
    pub open spec fn empty() -> TreeModel {
        TreeModel { nodes: Map::empty(), root: None, data: None }
    }

    /// A single rooted structure: the root exists, every node hangs below it,
    /// every listed child exists, and no node has two parents or is its own
    /// ancestor.
    pub open spec fn wf(self) -> bool {
        &&& self.nodes.dom().finite()
        &&& keyed_by_id(self.nodes)
        &&& no_dangling_children(self.nodes)
        &&& no_repeated_children(self.nodes)
        &&& single_parents(self.nodes)
        &&& acyclic(self.nodes)
        &&& match self.root {
            Some(root) => self.nodes.contains_key(root) && self.nodes.dom() =~= reachable_set(
                self.nodes,
                root,
            ),
            None => self.nodes.dom() =~= Set::empty(),
        }
    }

    /// The node with the given identifier, if the tree has one.
    pub open spec fn node(self, id: Option<u64>) -> Option<NodeView> {
        match id {
            Some(id) if self.nodes.contains_key(id) => Some(self.nodes[id]),
            _ => None,
        }
    }
}

} // verus!
