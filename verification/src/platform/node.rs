//! The identity of an accessible object.

use crate::consumer::Reader;
use crate::schema::{Node, NodeId};
use vstd::prelude::*;

verus! {

/// The identity of an accessible object: a window and a node of its tree. It
/// holds no data of the node, so it may outlive any update: each question
/// about the node is answered from the tree as it is then.
#[derive(Clone, Copy, Debug, PartialEq, Eq, Hash, Structural)]
pub struct PlatformNode {
    pub hwnd: isize,
    pub node_id: NodeId,
}

/// What a `PlatformNode` stands for.
pub struct PlatformNodeView {
    pub hwnd: isize,
    pub node_id: u64,
}

impl View for PlatformNode {
    type V = PlatformNodeView;

    open spec fn view(&self) -> PlatformNodeView {
        PlatformNodeView { hwnd: self.hwnd, node_id: self.node_id@ }
    }
}

impl PlatformNode {
    /// The identity of `node` in the window `hwnd`.
    pub fn new(node: &Node, hwnd: isize) -> (platform_node: PlatformNode)
        ensures
            platform_node@ == (PlatformNodeView { hwnd, node_id: node@.id }),
    {
        PlatformNode { hwnd, node_id: node.id }
    }

    /// The node as the tree holds it now, or nothing if the tree no longer
    /// has it.
    pub fn resolve<'a>(&self, reader: &Reader<'a>) -> (node: Option<&'a Node>)
        ensures
            match node {
                Some(node) => reader@.node(Some(self@.node_id)) == Some(node@),
                None => reader@.node(Some(self@.node_id)) is None,
            },
    {
        reader.node_by_id(self.node_id)
    }
}

} // verus!
