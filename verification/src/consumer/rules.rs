//! What applying an update means, as mathematics: which updates are
//! accepted, which tree results, and which changes are reported.

use super::change::{TreeChangeView, UpdateError};
use super::model::{is_child, reachable_set, Nodes, TreeModel};
use crate::schema::{NodeView, TreeUpdateView, TreeView};
use vstd::prelude::*;

verus! {

/// A tree in the middle of an update.
pub struct Draft {
    /// The nodes that are defined.
    pub nodes: Nodes,
    /// The identifiers listed as new children whose definition is yet to come.
    pub pending: Set<u64>,
    /// The nodes that the clearing took out, as they were. One leaves this
    /// map when the update defines it again exactly as it was.
    pub cleared: Nodes,
    /// The cleared node as it was, until the update defines it again.
    pub awaiting: Option<NodeView>,
    /// The changes so far.
    pub changes: Seq<TreeChangeView>,
}

/// The root that the tree is to have after the update.
pub open spec fn root_after(before: TreeModel, update: TreeUpdateView) -> Option<u64> {
    match update.root_id {
        Some(root) => Some(root),
        None => before.root,
    }
}

/// The data that the tree is to have after the update.
pub open spec fn data_after(before: TreeModel, update: TreeUpdateView) -> Option<TreeView> {
    match update.tree {
        Some(data) => Some(data),
        None => before.data,
    }
}

/// A node with its list of children emptied.
pub open spec fn without_children(node: NodeView) -> NodeView {
    NodeView { child_ids: Seq::empty(), ..node }
}

/// Everything below `id`, `id` itself left out.
pub open spec fn below(nodes: Nodes, id: u64) -> Set<u64> {
    reachable_set(nodes, id).remove(id)
}

/// The first part of an update: the clearing.
pub open spec fn begin(before: TreeModel, update: TreeUpdateView) -> Result<Draft, UpdateError> {
    if root_after(before, update) is None {
        Err(UpdateError::MissingRoot)
    } else {
        match update.node_id_to_clear {
            None => Ok(
                Draft {
                    nodes: before.nodes,
                    pending: Set::empty(),
                    cleared: Map::empty(),
                    awaiting: None,
                    changes: Seq::empty(),
                },
            ),
            Some(id) => if !before.nodes.contains_key(id) {
                Err(UpdateError::ClearedNodeNotInTree)
            } else {
                Ok(
                    Draft {
                        nodes: before.nodes.remove_keys(below(before.nodes, id)).insert(
                            id,
                            without_children(before.nodes[id]),
                        ),
                        pending: Set::empty(),
                        cleared: before.nodes.restrict(below(before.nodes, id)),
                        awaiting: Some(before.nodes[id]),
                        changes: Seq::empty(),
                    },
                )
            },
        }
    }
}

/// Whether the identifier `id` is in use while `parent` is being defined.
pub open spec fn taken(draft: Draft, parent: u64, id: u64) -> bool {
    draft.nodes.contains_key(id) || draft.pending.contains(id) || id == parent
}

/// Whether `node` may be defined now: it is in the tree, or awaited as a new
/// child, or the root of a tree that has nothing yet.
pub open spec fn expected(draft: Draft, root: u64, node: NodeView) -> bool {
    ||| draft.nodes.contains_key(node.id)
    ||| draft.pending.contains(node.id)
    ||| (draft.nodes.dom().is_empty() && draft.pending.is_empty() && node.id == root)
}

/// Whether `node` lists a child that is in use and not a child of it already.
pub open spec fn takes_over(draft: Draft, node: NodeView) -> bool {
    exists|i: int|
        0 <= i < node.child_ids.len() && taken(draft, node.id, #[trigger] node.child_ids[i])
            && !is_child(draft.nodes, node.id, node.child_ids[i])
}

/// The children that `node` lists and that are new.
pub open spec fn new_children(draft: Draft, node: NodeView) -> Set<u64> {
    Set::new(|id: u64| node.child_ids.contains(id) && !taken(draft, node.id, id))
}

/// What `node` is compared with: the cleared node as it was, for the first
/// definition of a cleared node, else the node of the same identifier in the
/// tree.
pub open spec fn baseline(draft: Draft, node: NodeView) -> Option<NodeView> {
    match draft.awaiting {
        Some(was) if was.id == node.id => Some(was),
        _ => if draft.nodes.contains_key(node.id) {
            Some(draft.nodes[node.id])
        } else {
            None
        },
    }
}

/// Whether `node` brings back, exactly as it was, a node that the clearing
/// took out.
pub open spec fn restores(draft: Draft, node: NodeView) -> bool {
    baseline(draft, node) is None && draft.cleared.contains_key(node.id) && draft.cleared[node.id]
        == node
}

/// The changes that defining `node` makes.
pub open spec fn changes_of(draft: Draft, node: NodeView) -> Seq<TreeChangeView> {
    match baseline(draft, node) {
        Some(was) => if was == node {
            Seq::empty()
        } else {
            seq![TreeChangeView::NodeUpdated { old_node: was, new_node: node }]
        },
        None => if restores(draft, node) {
            Seq::empty()
        } else {
            seq![TreeChangeView::NodeAdded(node)]
        },
    }
}

/// The middle part of an update, once for each node that it defines.
pub open spec fn step(draft: Draft, root: u64, node: NodeView) -> Result<Draft, UpdateError> {
    if !expected(draft, root, node) {
        Err(UpdateError::UnknownNode)
    } else if !node.child_ids.no_duplicates() {
        Err(UpdateError::DuplicateChild)
    } else if takes_over(draft, node) {
        Err(UpdateError::ReparentedChild)
    } else {
        Ok(
            Draft {
                nodes: draft.nodes.insert(node.id, node),
                pending: draft.pending.remove(node.id).union(new_children(draft, node)),
                cleared: if restores(draft, node) {
                    draft.cleared.remove(node.id)
                } else {
                    draft.cleared
                },
                awaiting: match draft.awaiting {
                    Some(was) if was.id == node.id => None,
                    _ => draft.awaiting,
                },
                changes: draft.changes + changes_of(draft, node),
            },
        )
    }
}

/// The middle part of an update: the nodes that it defines, in order.
pub open spec fn run(draft: Draft, root: u64, nodes: Seq<NodeView>) -> Result<Draft, UpdateError>
    decreases nodes.len(),
{
    if nodes.len() == 0 {
        Ok(draft)
    } else {
        match run(draft, root, nodes.drop_last()) {
            Ok(so_far) => step(so_far, root, nodes.last()),
            Err(error) => Err(error),
        }
    }
}

/// Whether `list` holds exactly the members of `set`, each once, from the
/// smallest to the largest.
pub open spec fn lists_ascending(list: Seq<u64>, set: Set<u64>) -> bool {
    &&& forall|i: int, j: int| 0 <= i < j < list.len() ==> list[i] < list[j]
    &&& forall|id: u64| set.contains(id) <==> list.contains(id)
}

/// The members of `set` from the smallest to the largest.
pub open spec fn ascending(set: Set<u64>) -> Seq<u64> {
    choose|list: Seq<u64>| lists_ascending(list, set)
}

/// The removal of each node of `nodes`, by ascending identifier.
pub open spec fn removals(nodes: Nodes) -> Seq<TreeChangeView> {
    ascending(nodes.dom()).map_values(|id: u64| TreeChangeView::NodeRemoved(nodes[id]))
}

/// The node that has the focus, if the data names one.
pub open spec fn focus_of(data: Option<TreeView>) -> Option<u64> {
    match data {
        Some(data) => data.focused_node_id,
        None => None,
    }
}

/// The tree that has the focus, if it is another than the tree itself.
pub open spec fn focused_tree_of(data: Option<TreeView>) -> Option<Seq<char>> {
    match data {
        Some(data) => data.focused_tree_id,
        None => None,
    }
}

/// What became of the focus between two states of a tree: nothing, or one
/// change. Where the focus went to another tree or came from one, the new
/// side is absent.
pub open spec fn focus_change(before: TreeModel, after: TreeModel) -> Seq<TreeChangeView> {
    if focused_tree_of(before.data) != focused_tree_of(after.data) {
        seq![
            TreeChangeView::FocusMoved {
                old_node: before.node(focus_of(before.data)),
                new_node: None,
            },
        ]
    } else if focus_of(before.data) != focus_of(after.data) {
        seq![
            TreeChangeView::FocusMoved {
                old_node: before.node(focus_of(before.data)),
                new_node: after.node(focus_of(after.data)),
            },
        ]
    } else {
        Seq::empty()
    }
}

/// The tree that a draft leaves: what hangs below the root.
pub open spec fn tree_of(before: TreeModel, update: TreeUpdateView, draft: Draft, root: u64) -> TreeModel {
    TreeModel {
        nodes: draft.nodes.restrict(reachable_set(draft.nodes, root)),
        root: Some(root),
        data: data_after(before, update),
    }
}

/// The last part of an update: nothing may be left open, and what no longer
/// hangs below the root goes.
pub open spec fn finish(before: TreeModel, update: TreeUpdateView, draft: Draft, root: u64) -> Result<
    (TreeModel, Seq<TreeChangeView>),
    UpdateError,
> {
    if draft.awaiting is Some {
        Err(UpdateError::ClearedNodeNotUpdated)
    } else if !draft.pending.is_empty() {
        Err(UpdateError::DanglingChild)
    } else if !draft.nodes.contains_key(root) {
        Err(UpdateError::MissingRoot)
    } else {
        let after = tree_of(before, update, draft, root);
        Ok(
            (
                after,
                draft.changes + removals(draft.cleared) + removals(
                    draft.nodes.remove_keys(reachable_set(draft.nodes, root)),
                ) + focus_change(before, after),
            ),
        )
    }
}

/// What applying `update` to the tree `before` gives: the tree after it and
/// the changes, or the reason why the update is refused.
///
/// The changes come in this order: for each node that the update defines, in
/// the update's order, its addition or its change of content, if any; then
/// the removal of each node that the clearing took out and that did not come
/// back as it was, by ascending identifier; then the removal of each node
/// that no longer hangs below the root, by ascending identifier; then the
/// move of the focus, if any.
pub open spec fn apply(before: TreeModel, update: TreeUpdateView) -> Result<
    (TreeModel, Seq<TreeChangeView>),
    UpdateError,
> {
    match begin(before, update) {
        Err(error) => Err(error),
        Ok(draft) => match run(draft, root_after(before, update).unwrap(), update.nodes) {
            Err(error) => Err(error),
            Ok(draft) => finish(before, update, draft, root_after(before, update).unwrap()),
        },
    }
}

} // verus!
