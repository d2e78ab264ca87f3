//! What holds of every update, proved from the rules.

use super::change::{TreeChangeView, UpdateError};
use super::model::{is_child, is_path, ranked, reachable, reachable_set, Nodes, TreeModel};
use super::rules::{
    apply, baseline, begin, below, changes_of, data_after, finish, focus_of, focused_tree_of,
    lists_ascending, new_children, removals, root_after, run, step, taken, takes_over,
    without_children, Draft,
};
use super::sound::{
    lemma_apply_sound, lemma_begin_sound, lemma_run_fails_on, lemma_run_sound, sound,
};
use super::store::lemma_is_ascending;
use crate::schema::{NodeView, TreeUpdateView};
use vstd::prelude::*;

verus! {

/// The tree that `updates` make of `tree`, applied one after the other, or
/// nothing if one of them is refused.
pub open spec fn after_all(tree: TreeModel, updates: Seq<TreeUpdateView>) -> Option<TreeModel>
    decreases updates.len(),
{
    if updates.len() == 0 {
        Some(tree)
    } else {
        match after_all(tree, updates.drop_last()) {
            Some(so_far) => match apply(so_far, updates.last()) {
                Ok((after, _)) => Some(after),
                Err(_) => None,
            },
            None => None,
        }
    }
}

/// The empty tree is well formed.
pub proof fn lemma_empty_is_well_formed()
    ensures
        TreeModel::empty().wf(),
{
    let rank = |id: u64| 0nat;
    assert(ranked(TreeModel::empty().nodes, rank));
}

/// Whatever updates a well-formed tree takes, it stays well formed.
pub proof fn lemma_updates_keep_well_formed(tree: TreeModel, updates: Seq<TreeUpdateView>)
    requires
        tree.wf(),
        after_all(tree, updates) is Some,
    ensures
        after_all(tree, updates).unwrap().wf(),
    decreases updates.len(),
{
    if updates.len() > 0 {
        lemma_updates_keep_well_formed(tree, updates.drop_last());
        lemma_apply_sound(after_all(tree, updates.drop_last()).unwrap(), updates.last());
    }
}

/// After each of any sequence of updates that are all accepted, the root is
/// a node of the tree, and every node of the tree can be reached from the
/// root by child links.
pub proof fn lemma_every_node_is_reachable(updates: Seq<TreeUpdateView>, id: u64)
    requires
        updates.len() > 0,
        after_all(TreeModel::empty(), updates) is Some,
    ensures
        after_all(TreeModel::empty(), updates).unwrap().root matches Some(root) && after_all(
            TreeModel::empty(),
            updates,
        ).unwrap().nodes.contains_key(root) && (after_all(
            TreeModel::empty(),
            updates,
        ).unwrap().nodes.contains_key(id) ==> reachable(
            after_all(TreeModel::empty(), updates).unwrap().nodes,
            root,
            id,
        )),
{
    lemma_empty_is_well_formed();
    lemma_updates_keep_well_formed(TreeModel::empty(), updates.drop_last());
    let so_far = after_all(TreeModel::empty(), updates.drop_last()).unwrap();
    lemma_apply_sound(so_far, updates.last());
    let tree = after_all(TreeModel::empty(), updates).unwrap();
    if tree.nodes.contains_key(id) {
        assert(reachable_set(tree.nodes, tree.root.unwrap()).contains(id));
    }
}

/// Whether `update` says again of each node that it defines what the tree
/// holds of it, names no other root and leaves the focus where it is.
pub open spec fn restates(tree: TreeModel, update: TreeUpdateView) -> bool {
    &&& forall|i: int|
        0 <= i < update.nodes.len() ==> tree.nodes.contains_key((#[trigger] update.nodes[i]).id)
            && tree.nodes[update.nodes[i].id] == update.nodes[i]
    &&& update.root_id matches Some(root) ==> tree.root == Some(root)
    &&& update.tree matches Some(data) ==> data.focused_node_id == focus_of(tree.data)
        && data.focused_tree_id == focused_tree_of(tree.data)
}

/// The nodes that the clearing of `update` takes out of `tree`.
spec fn taken_out(tree: TreeModel, update: TreeUpdateView) -> Set<u64> {
    match update.node_id_to_clear {
        Some(id) => below(tree.nodes, id),
        None => Set::empty(),
    }
}

/// What holds of a draft while an update says again what `tree` holds:
/// nothing is reported, each node is as in `tree`, but that the cleared node
/// has no children until it is defined again, and of the nodes that the
/// clearing took out those are still counted as cleared that did not come
/// back.
spec fn as_before(tree: TreeModel, update: TreeUpdateView, draft: Draft) -> bool {
    &&& draft.changes.len() == 0
    &&& forall|id: u64|
        draft.nodes.contains_key(id) ==> tree.nodes.contains_key(id) && #[trigger] draft.nodes[id]
            == (if draft.awaiting is Some && update.node_id_to_clear == Some(id) {
            without_children(tree.nodes[id])
        } else {
            tree.nodes[id]
        })
    &&& draft.awaiting matches Some(was) ==> update.node_id_to_clear == Some(was.id) && was
        == tree.nodes[was.id]
    &&& forall|id: u64| #[trigger]
        draft.cleared.contains_key(id) <==> taken_out(tree, update).contains(id)
            && !draft.nodes.contains_key(id)
    &&& forall|id: u64|
        draft.cleared.contains_key(id) ==> #[trigger] draft.cleared[id] == tree.nodes[id]
    &&& forall|id: u64|
        tree.nodes.contains_key(id) && !taken_out(tree, update).contains(id) ==> #[trigger]
            draft.nodes.contains_key(id)
}

proof fn lemma_restating_run(tree: TreeModel, update: TreeUpdateView, upto: int)
    requires
        tree.wf(),
        restates(tree, update),
        begin(tree, update) is Ok,
        0 <= upto <= update.nodes.len(),
        run(
            begin(tree, update).unwrap(),
            root_after(tree, update).unwrap(),
            update.nodes.take(upto),
        ) is Ok,
    ensures
        as_before(
            tree,
            update,
            run(
                begin(tree, update).unwrap(),
                root_after(tree, update).unwrap(),
                update.nodes.take(upto),
            ).unwrap(),
        ),
    decreases upto,
{
    let first = begin(tree, update).unwrap();
    let root = root_after(tree, update).unwrap();
    if upto == 0 {
        assert(update.nodes.take(0).len() == 0);
        assert(as_before(tree, update, first));
    } else {
        assert(update.nodes.take(upto).drop_last() =~= update.nodes.take(upto - 1));
        lemma_restating_run(tree, update, upto - 1);
        let draft = run(first, root, update.nodes.take(upto - 1)).unwrap();
        let node = update.nodes.take(upto).last();
        assert(node == update.nodes[upto - 1]);
        let next = step(draft, root, node).unwrap();
        assert(changes_of(draft, node).len() == 0) by {
            if baseline(draft, node) is None {
                assert(taken_out(tree, update).contains(node.id));
                assert(draft.cleared.contains_key(node.id));
            }
        }
        assert(as_before(tree, update, next));
    }
}

/// An update that clears nothing and only says again what a tree holds is
/// accepted.
pub proof fn lemma_restating_is_accepted(tree: TreeModel, update: TreeUpdateView)
    requires
        tree.wf(),
        tree.root is Some,
        update.node_id_to_clear is None,
        restates(tree, update),
    ensures
        apply(tree, update) is Ok,
{
    let root = root_after(tree, update).unwrap();
    lemma_restating_keeps_draft(tree, root, update.nodes);
}

proof fn lemma_restating_keeps_draft(tree: TreeModel, root: u64, nodes: Seq<NodeView>)
    requires
        tree.wf(),
        tree.root == Some(root),
        forall|i: int|
            0 <= i < nodes.len() ==> tree.nodes.contains_key((#[trigger] nodes[i]).id)
                && tree.nodes[nodes[i].id] == nodes[i],
    ensures
        run(unchanged(tree), root, nodes) == Ok::<Draft, UpdateError>(unchanged(tree)),
    decreases nodes.len(),
{
    let draft = unchanged(tree);
    if nodes.len() > 0 {
        lemma_restating_keeps_draft(tree, root, nodes.drop_last());
        let node = nodes.last();
        assert(node == nodes[nodes.len() - 1]);
        assert forall|i: int| 0 <= i < node.child_ids.len() implies is_child(
            draft.nodes,
            node.id,
            #[trigger] node.child_ids[i],
        ) by {}
        assert(!takes_over(draft, node));
        let next = step(draft, root, node).unwrap();
        assert(next.nodes =~= draft.nodes);
        assert(new_children(draft, node) =~= Set::empty()) by {
            assert forall|id: u64| !new_children(draft, node).contains(id) by {
                if node.child_ids.contains(id) {
                    assert(is_child(draft.nodes, node.id, id));
                }
            }
        }
        assert(next.pending =~= draft.pending);
        assert(next.changes =~= draft.changes);
    }
}

/// The draft of a tree that nothing was done to.
spec fn unchanged(tree: TreeModel) -> Draft {
    Draft {
        nodes: tree.nodes,
        pending: Set::empty(),
        cleared: Map::empty(),
        awaiting: None,
        changes: Seq::empty(),
    }
}

/// In a sound draft that awaits nothing, what hangs below a node that is as
/// in `tree` is in the draft too.
proof fn lemma_restored_below(tree: TreeModel, draft: Draft, path: Seq<u64>, upto: int)
    requires
        sound(draft),
        draft.pending.is_empty(),
        is_path(tree.nodes, path),
        draft.nodes.contains_key(path.first()),
        forall|id: u64| draft.nodes.contains_key(id) ==> #[trigger] draft.nodes[id] == tree.nodes[id],
        0 <= upto < path.len(),
    ensures
        draft.nodes.contains_key(path[upto]),
    decreases upto,
{
    if upto > 0 {
        lemma_restored_below(tree, draft, path, upto - 1);
        assert(tree.nodes[path[upto - 1]].child_ids.contains(path[upto - 1 + 1]));
        assert(is_child(draft.nodes, path[upto - 1], path[upto]));
        assert(!draft.pending.contains(path[upto]));
    }
}

/// An update that only says again what a tree holds changes nothing and
/// reports no change, if it is accepted. It is accepted where it clears
/// nothing; where it clears a node, it is accepted only if it says again all
/// that was below that node.
pub proof fn lemma_restating_changes_nothing(tree: TreeModel, update: TreeUpdateView)
    requires
        tree.wf(),
        restates(tree, update),
        apply(tree, update) is Ok,
    ensures
        apply(tree, update) matches Ok((after, changes)) && changes == Seq::<
            TreeChangeView,
        >::empty() && after.nodes == tree.nodes && after.root == tree.root && after.data
            == data_after(tree, update),
{
    let root = root_after(tree, update).unwrap();
    let first = begin(tree, update).unwrap();
    assert(tree.root == Some(root));
    assert(update.nodes.take(update.nodes.len() as int) =~= update.nodes);
    lemma_restating_run(tree, update, update.nodes.len() as int);
    lemma_begin_sound(tree, update);
    lemma_run_sound(first, root, update.nodes);
    let draft = run(first, root, update.nodes).unwrap();
    let (after, changes) = finish(tree, update, draft, root).unwrap();
    assert forall|id: u64| #[trigger] tree.nodes.contains_key(id) implies draft.nodes.contains_key(
        id,
    ) by {
        if taken_out(tree, update).contains(id) {
            let cleared = update.node_id_to_clear.unwrap();
            let path = choose|path: Seq<u64>| #[trigger]
                is_path(tree.nodes, path) && path.first() == cleared && path.last() == id;
            lemma_restored_below(tree, draft, path, path.len() - 1);
        }
    }
    assert forall|id: u64| #[trigger] draft.nodes.contains_key(id) implies tree.nodes.contains_key(
        id,
    ) && draft.nodes[id] == tree.nodes[id] by {
        assert(draft.nodes[id] == tree.nodes[id]);
    }
    assert(draft.nodes =~= tree.nodes);
    assert(draft.nodes.dom() =~= reachable_set(draft.nodes, root));
    assert(after.nodes =~= tree.nodes);
    assert(draft.cleared.dom() =~= Set::empty());
    lemma_nothing_to_remove(draft, root);
    assert(changes =~= Seq::empty());
}

/// Nothing is removed from a tree whose nodes all hang below the root.
proof fn lemma_nothing_to_remove(draft: Draft, root: u64)
    requires
        draft.nodes.dom() =~= reachable_set(draft.nodes, root),
        draft.cleared.dom() =~= Set::empty(),
    ensures
        removals(draft.cleared) == Seq::<TreeChangeView>::empty(),
        removals(draft.nodes.remove_keys(reachable_set(draft.nodes, root))) == Seq::<
            TreeChangeView,
        >::empty(),
        draft.nodes.restrict(reachable_set(draft.nodes, root)) == draft.nodes,
{
    let lost = draft.nodes.remove_keys(reachable_set(draft.nodes, root));
    assert(lost.dom() =~= Set::empty());
    assert(lists_ascending(Seq::empty(), Set::empty()));
    lemma_is_ascending(Seq::empty(), Set::empty());
    assert(removals(lost) =~= Seq::empty());
    assert(removals(draft.cleared) =~= Seq::empty());
    assert(draft.nodes.restrict(reachable_set(draft.nodes, root)) =~= draft.nodes);
}

/// An update that only names another node of the tree as the one that has
/// the focus is accepted, leaves the nodes as they are, and reports one
/// change: the move of the focus from the one node to the other.
pub proof fn lemma_focus_move_alone(tree: TreeModel, update: TreeUpdateView)
    requires
        tree.wf(),
        tree.root is Some,
        update.node_id_to_clear is None,
        update.nodes.len() == 0,
        update.root_id is None,
        update.tree matches Some(data) && data.focused_tree_id == focused_tree_of(tree.data)
            && data.focused_node_id != focus_of(tree.data),
    ensures
        apply(tree, update) matches Ok((after, changes)) && after.nodes == tree.nodes
            && after.root == tree.root && after.data == update.tree && changes == seq![
            TreeChangeView::FocusMoved {
                old_node: tree.node(focus_of(tree.data)),
                new_node: tree.node(focus_of(update.tree)),
            },
        ],
{
    let root = tree.root.unwrap();
    let draft = begin(tree, update).unwrap();
    assert(run(draft, root, update.nodes) == Ok::<Draft, UpdateError>(draft));
    lemma_nothing_to_remove(draft, root);
    let (after, changes) = finish(tree, update, draft, root).unwrap();
    assert(changes =~= seq![
        TreeChangeView::FocusMoved {
            old_node: tree.node(focus_of(tree.data)),
            new_node: tree.node(focus_of(update.tree)),
        },
    ]);
}

/// Links are the same in two trees in which each node has the same children.
proof fn lemma_same_links(a: Nodes, b: Nodes, from: u64, to: u64)
    requires
        a.dom() =~= b.dom(),
        forall|id: u64| a.contains_key(id) ==> (#[trigger] a[id]).child_ids == b[id].child_ids,
        reachable(a, from, to),
    ensures
        reachable(b, from, to),
{
    let path = choose|path: Seq<u64>| #[trigger]
        is_path(a, path) && path.first() == from && path.last() == to;
    assert forall|i: int| 0 <= i < path.len() implies b.contains_key(#[trigger] path[i]) by {
        assert(a.contains_key(path[i]));
    }
    assert forall|i: int| 0 <= i < path.len() - 1 implies (#[trigger] b[path[i]]).child_ids.contains(
        path[i + 1],
    ) by {
        assert(a.contains_key(path[i]));
        assert(a[path[i]].child_ids.contains(path[i + 1]));
    }
    assert(is_path(b, path));
}

/// An update that only defines one node of the tree again, with the children
/// that it has and with some other content, is accepted and reports one
/// change: that of the node's content, from what the tree held to what the
/// update holds. No other node changes.
pub proof fn lemma_content_change_alone(tree: TreeModel, update: TreeUpdateView)
    requires
        tree.wf(),
        tree.root is Some,
        update.node_id_to_clear is None,
        update.root_id is None,
        update.tree is None,
        update.nodes.len() == 1,
        tree.nodes.contains_key(update.nodes[0].id),
        tree.nodes[update.nodes[0].id].child_ids == update.nodes[0].child_ids,
        tree.nodes[update.nodes[0].id] != update.nodes[0],
    ensures
        apply(tree, update) matches Ok((after, changes)) && after.nodes == tree.nodes.insert(
            update.nodes[0].id,
            update.nodes[0],
        ) && after.root == tree.root && after.data == tree.data && changes == seq![
            TreeChangeView::NodeUpdated {
                old_node: tree.nodes[update.nodes[0].id],
                new_node: update.nodes[0],
            },
        ],
{
    let root = tree.root.unwrap();
    let first = begin(tree, update).unwrap();
    let node = update.nodes[0];
    assert(update.nodes.drop_last().len() == 0);
    assert(update.nodes.last() == node);
    assert(run(first, root, update.nodes.drop_last()) == Ok::<Draft, UpdateError>(first));
    assert forall|i: int| 0 <= i < node.child_ids.len() implies is_child(
        first.nodes,
        node.id,
        #[trigger] node.child_ids[i],
    ) by {}
    assert(!takes_over(first, node));
    assert(new_children(first, node) =~= Set::empty()) by {
        assert forall|id: u64| !new_children(first, node).contains(id) by {
            if node.child_ids.contains(id) {
                assert(is_child(first.nodes, node.id, id));
            }
        }
    }
    let draft = step(first, root, node).unwrap();
    assert(run(first, root, update.nodes) == Ok::<Draft, UpdateError>(draft));
    assert(draft.pending =~= Set::empty());
    assert forall|id: u64| draft.nodes.contains_key(id) implies reachable(
        draft.nodes,
        root,
        id,
    ) by {
        assert(reachable_set(tree.nodes, root).contains(id));
        lemma_same_links(tree.nodes, draft.nodes, root, id);
    }
    assert forall|id: u64| reachable(draft.nodes, root, id) implies draft.nodes.contains_key(
        id,
    ) by {
        let path = choose|path: Seq<u64>| #[trigger]
            is_path(draft.nodes, path) && path.first() == root && path.last() == id;
        assert(draft.nodes.contains_key(path[path.len() - 1]));
    }
    assert(draft.nodes.dom() =~= reachable_set(draft.nodes, root));
    lemma_nothing_to_remove(draft, root);
    let (after, changes) = finish(tree, update, draft, root).unwrap();
    assert(changes =~= seq![
        TreeChangeView::NodeUpdated { old_node: tree.nodes[node.id], new_node: node },
    ]);
}

/// While an update defines nodes, a node of the tree stays a node of the
/// tree, and no node becomes its parent that was not.
proof fn lemma_run_keeps_parent(draft: Draft, root: u64, nodes: Seq<NodeView>, child: u64)
    requires
        run(draft, root, nodes) is Ok,
        draft.nodes.contains_key(child),
    ensures
        run(draft, root, nodes).unwrap().nodes.contains_key(child),
        forall|parent: u64|
            is_child(run(draft, root, nodes).unwrap().nodes, parent, child) ==> is_child(
                draft.nodes,
                parent,
                child,
            ),
    decreases nodes.len(),
{
    if nodes.len() > 0 {
        lemma_run_keeps_parent(draft, root, nodes.drop_last(), child);
        let so_far = run(draft, root, nodes.drop_last()).unwrap();
        let node = nodes.last();
        let next = step(so_far, root, node).unwrap();
        assert forall|parent: u64| is_child(next.nodes, parent, child) implies is_child(
            draft.nodes,
            parent,
            child,
        ) by {
            if parent == node.id {
                let i = choose|i: int| 0 <= i < node.child_ids.len() && node.child_ids[i] == child;
                assert(taken(so_far, node.id, node.child_ids[i]));
                assert(is_child(so_far.nodes, parent, child));
            } else {
                assert(is_child(so_far.nodes, parent, child));
            }
        }
    }
}

/// An update is refused if a node that it defines lists as its child a node
/// of the tree that is not its child in the tree, unless the update took
/// that child out of the tree first, by clearing a node above it.
pub proof fn lemma_reparenting_is_refused(
    tree: TreeModel,
    update: TreeUpdateView,
    i: int,
    child: u64,
)
    requires
        tree.wf(),
        0 <= i < update.nodes.len(),
        update.nodes[i].child_ids.contains(child),
        tree.nodes.contains_key(child),
        !is_child(tree.nodes, update.nodes[i].id, child),
        update.node_id_to_clear matches Some(cleared) ==> !below(tree.nodes, cleared).contains(
            child,
        ),
    ensures
        apply(tree, update) is Err,
{
    if begin(tree, update) is Ok {
        let root = root_after(tree, update).unwrap();
        let first = begin(tree, update).unwrap();
        let node = update.nodes[i];
        assert(first.nodes.contains_key(child));
        assert forall|parent: u64| is_child(first.nodes, parent, child) implies is_child(
            tree.nodes,
            parent,
            child,
        ) by {
            if update.node_id_to_clear == Some(parent) {
                assert(first.nodes[parent].child_ids.len() == 0);
            }
        }
        if run(first, root, update.nodes.take(i)) is Ok {
            lemma_run_keeps_parent(first, root, update.nodes.take(i), child);
            let so_far = run(first, root, update.nodes.take(i)).unwrap();
            let k = choose|k: int| 0 <= k < node.child_ids.len() && node.child_ids[k] == child;
            assert(taken(so_far, node.id, node.child_ids[k]) && !is_child(
                so_far.nodes,
                node.id,
                node.child_ids[k],
            ));
            assert(takes_over(so_far, node));
            assert(step(so_far, root, node) is Err);
            assert(update.nodes.take(i + 1).drop_last() =~= update.nodes.take(i));
            assert(update.nodes.take(i + 1).last() == node);
            assert(run(first, root, update.nodes.take(i + 1)) is Err);
            lemma_run_fails_on(first, root, update.nodes, i + 1);
        } else {
            lemma_run_fails_on(first, root, update.nodes, i);
        }
    }
}

/// While an update defines nodes, an identifier that it never defines does
/// not become a node, and stays awaited once it is listed as a child.
proof fn lemma_run_keeps_awaiting(draft: Draft, root: u64, nodes: Seq<NodeView>, child: u64)
    requires
        run(draft, root, nodes) is Ok,
        !draft.nodes.contains_key(child),
        forall|j: int| 0 <= j < nodes.len() ==> (#[trigger] nodes[j]).id != child,
    ensures
        !run(draft, root, nodes).unwrap().nodes.contains_key(child),
        draft.pending.contains(child) ==> run(draft, root, nodes).unwrap().pending.contains(
            child,
        ),
        (exists|j: int| 0 <= j < nodes.len() && (#[trigger] nodes[j]).child_ids.contains(child))
            ==> run(draft, root, nodes).unwrap().pending.contains(child),
    decreases nodes.len(),
{
    if nodes.len() > 0 {
        let rest = nodes.drop_last();
        assert forall|j: int| 0 <= j < rest.len() implies (#[trigger] rest[j]).id != child by {
            assert(rest[j] == nodes[j]);
        }
        lemma_run_keeps_awaiting(draft, root, rest, child);
        let so_far = run(draft, root, rest).unwrap();
        let node = nodes.last();
        assert(node == nodes[nodes.len() - 1]);
        let next = step(so_far, root, node).unwrap();
        if exists|j: int| 0 <= j < nodes.len() && (#[trigger] nodes[j]).child_ids.contains(child) {
            let j = choose|j: int|
                0 <= j < nodes.len() && (#[trigger] nodes[j]).child_ids.contains(child);
            if j < rest.len() {
                assert(rest[j].child_ids.contains(child));
            } else {
                if !so_far.pending.contains(child) {
                    assert(new_children(so_far, node).contains(child));
                }
            }
        }
    }
}

/// An update is refused if a node that it defines lists a child that the
/// tree does not have and that the update does not define.
pub proof fn lemma_dangling_child_is_refused(
    tree: TreeModel,
    update: TreeUpdateView,
    i: int,
    child: u64,
)
    requires
        0 <= i < update.nodes.len(),
        update.nodes[i].child_ids.contains(child),
        !tree.nodes.contains_key(child),
        forall|j: int| 0 <= j < update.nodes.len() ==> (#[trigger] update.nodes[j]).id != child,
    ensures
        apply(tree, update) is Err,
{
    if begin(tree, update) is Ok {
        let root = root_after(tree, update).unwrap();
        let first = begin(tree, update).unwrap();
        if run(first, root, update.nodes) is Ok {
            lemma_run_keeps_awaiting(first, root, update.nodes, child);
            let last = run(first, root, update.nodes).unwrap();
            assert(last.pending.contains(child));
            assert(!last.pending.is_empty());
        }
    }
}

} // verus!
