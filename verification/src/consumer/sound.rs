//! Why applying an update to a well-formed tree leaves a well-formed tree.

use super::model::{
    acyclic, is_child, is_path, keyed_by_id, no_dangling_children, no_repeated_children, ranked,
    reachable, reachable_set, single_parents, Nodes, TreeModel,
};
use super::reach::{lemma_path_extends, lemma_reaches_itself};
use super::rules::{
    apply, begin, below, new_children, root_after, run, step, taken, tree_of, Draft,
};
use crate::schema::{NodeView, TreeUpdateView};
use vstd::prelude::*;

verus! {

/// What holds of a tree in the middle of an update: as of a well-formed
/// tree, but that a child may be awaited, and that not every node need hang
/// below the root.
pub open spec fn sound(draft: Draft) -> bool {
    &&& draft.nodes.dom().finite()
    &&& draft.pending.finite()
    &&& draft.pending.disjoint(draft.nodes.dom())
    &&& keyed_by_id(draft.nodes)
    &&& no_repeated_children(draft.nodes)
    &&& single_parents(draft.nodes)
    &&& acyclic(draft.nodes)
    &&& forall|parent: u64, child: u64| #[trigger]
        is_child(draft.nodes, parent, child) ==> draft.nodes.contains_key(child)
            || draft.pending.contains(child)
    &&& match draft.awaiting {
        Some(was) => draft.nodes.contains_key(was.id),
        None => true,
    }
}

/// Every node on a path can be reached from the path's first node.
pub proof fn lemma_path_nodes_reachable(nodes: Nodes, path: Seq<u64>, i: int)
    requires
        is_path(nodes, path),
        0 <= i < path.len(),
    ensures
        reachable(nodes, path.first(), path[i]),
{
    let part = path.take(i + 1);
    assert forall|k: int| 0 <= k < part.len() - 1 implies (#[trigger] nodes[part[k]]).child_ids.contains(
        part[k + 1],
    ) by {
        assert(part[k] == path[k]);
        assert(part[k + 1] == path[k + 1]);
    }
    assert(is_path(nodes, part) && part.first() == path.first() && part.last() == path[i]);
}

/// What can be reached from a node, and is not that node, is the child of
/// something that can be reached from it.
pub proof fn lemma_reached_through_parent(nodes: Nodes, from: u64, to: u64) -> (parent: u64)
    requires
        reachable(nodes, from, to),
        to != from,
    ensures
        reachable(nodes, from, parent),
        is_child(nodes, parent, to),
{
    let path = choose|path: Seq<u64>| #[trigger]
        is_path(nodes, path) && path.first() == from && path.last() == to;
    let n = path.len() - 2;
    lemma_path_nodes_reachable(nodes, path, n);
    assert(nodes[path[n]].child_ids.contains(path[n + 1]));
    path[n]
}

/// The clearing leaves a sound draft.
pub proof fn lemma_begin_sound(before: TreeModel, update: TreeUpdateView)
    requires
        before.wf(),
        begin(before, update) is Ok,
    ensures
        sound(begin(before, update).unwrap()),
{
    let draft = begin(before, update).unwrap();
    match update.node_id_to_clear {
        None => {
            assert(draft.pending.disjoint(draft.nodes.dom()));
        },
        Some(id) => {
            let gone = below(before.nodes, id);
            assert(draft.nodes.dom() =~= before.nodes.dom().difference(gone).insert(id));
            assert(draft.pending.disjoint(draft.nodes.dom()));
            assert forall|parent: u64, child: u64| #[trigger]
                is_child(draft.nodes, parent, child) implies is_child(before.nodes, parent, child)
                && parent != id && !gone.contains(parent) by {
                if parent == id {
                    assert(draft.nodes[id].child_ids.len() == 0);
                }
            }
            assert forall|parent: u64, child: u64| #[trigger]
                is_child(draft.nodes, parent, child) implies draft.nodes.contains_key(child) by {
                assert(is_child(before.nodes, parent, child));
                if gone.contains(child) {
                    let via = lemma_reached_through_parent(before.nodes, id, child);
                    assert(via == parent);
                }
            }
            let rank = choose|rank: spec_fn(u64) -> nat| ranked(before.nodes, rank);
            assert(ranked(draft.nodes, rank));
            assert(keyed_by_id(draft.nodes));
            assert(no_repeated_children(draft.nodes));
        },
    }
}

/// Defining one node keeps a draft sound.
pub proof fn lemma_step_sound(draft: Draft, root: u64, node: NodeView)
    requires
        sound(draft),
        step(draft, root, node) is Ok,
    ensures
        sound(step(draft, root, node).unwrap()),
{
    let next = step(draft, root, node).unwrap();
    let fresh = new_children(draft, node);
    assert(fresh.subset_of(node.child_ids.to_set()));
    vstd::seq_lib::seq_to_set_is_finite(node.child_ids);
    vstd::set_lib::lemma_len_subset(fresh, node.child_ids.to_set());
    assert(next.nodes.dom() =~= draft.nodes.dom().insert(node.id));
    assert(next.pending.disjoint(next.nodes.dom()));
    // What a link of the new tree is: a link that was there, or one of `node`.
    assert forall|parent: u64, child: u64| #[trigger]
        is_child(next.nodes, parent, child) implies (parent != node.id && is_child(
        draft.nodes,
        parent,
        child,
    )) || (parent == node.id && node.child_ids.contains(child) && (fresh.contains(child)
        || is_child(draft.nodes, parent, child))) by {
        if parent == node.id {
            let i = choose|i: int| 0 <= i < node.child_ids.len() && node.child_ids[i] == child;
            assert(taken(draft, node.id, node.child_ids[i]) ==> is_child(
                draft.nodes,
                node.id,
                node.child_ids[i],
            ));
        }
    }
    assert forall|parent: u64, child: u64| #[trigger]
        is_child(next.nodes, parent, child) implies next.nodes.contains_key(child)
        || next.pending.contains(child) by {
        if parent != node.id || !fresh.contains(child) {
            assert(is_child(draft.nodes, parent, child));
        }
    }
    assert forall|a: u64, b: u64, child: u64|
        #[trigger] is_child(next.nodes, a, child) && #[trigger] is_child(
            next.nodes,
            b,
            child,
        ) implies a == b by {
        if a != b {
            if a == node.id {
                assert(is_child(draft.nodes, b, child));
                assert(is_child(draft.nodes, a, child));
            } else if b == node.id {
                assert(is_child(draft.nodes, a, child));
                assert(is_child(draft.nodes, b, child));
            } else {
                assert(is_child(draft.nodes, a, child));
                assert(is_child(draft.nodes, b, child));
            }
        }
    }
    let rank = choose|rank: spec_fn(u64) -> nat| ranked(draft.nodes, rank);
    let next_rank = |id: u64|
        if fresh.contains(id) {
            (rank(node.id) + 1) as nat
        } else {
            rank(id)
        };
    assert forall|parent: u64, child: u64| #[trigger]
        is_child(next.nodes, parent, child) implies next_rank(parent) < next_rank(child) by {
        if parent == node.id {
            if !fresh.contains(child) {
                assert(is_child(draft.nodes, parent, child));
            }
        } else {
            assert(is_child(draft.nodes, parent, child));
        }
    }
    assert(ranked(next.nodes, next_rank));
    assert(keyed_by_id(next.nodes));
    assert(no_repeated_children(next.nodes));
}

/// A failing prefix of an update makes the update fail in the same way.
pub proof fn lemma_run_fails_on(draft: Draft, root: u64, nodes: Seq<NodeView>, upto: int)
    requires
        0 <= upto <= nodes.len(),
        run(draft, root, nodes.take(upto)) is Err,
    ensures
        run(draft, root, nodes) == run(draft, root, nodes.take(upto)),
    decreases nodes.len() - upto,
{
    if upto == nodes.len() {
        assert(nodes.take(upto) =~= nodes);
    } else {
        assert(nodes.drop_last().take(upto) =~= nodes.take(upto));
        lemma_run_fails_on(draft, root, nodes.drop_last(), upto);
    }
}

/// Defining node after node keeps a draft sound.
pub proof fn lemma_run_sound(draft: Draft, root: u64, nodes: Seq<NodeView>)
    requires
        sound(draft),
        run(draft, root, nodes) is Ok,
    ensures
        sound(run(draft, root, nodes).unwrap()),
    decreases nodes.len(),
{
    if nodes.len() > 0 {
        lemma_run_sound(draft, root, nodes.drop_last());
        lemma_step_sound(run(draft, root, nodes.drop_last()).unwrap(), root, nodes.last());
    }
}

/// What hangs below the root of a sound draft with nothing awaited is a
/// well-formed tree.
pub proof fn lemma_tree_of_draft(
    before: TreeModel,
    update: TreeUpdateView,
    draft: Draft,
    root: u64,
)
    requires
        sound(draft),
        draft.pending.is_empty(),
        draft.nodes.contains_key(root),
    ensures
        tree_of(before, update, draft, root).wf(),
{
    let after = tree_of(before, update, draft, root);
    let kept = reachable_set(draft.nodes, root);
    lemma_reaches_itself(draft.nodes, root);
    assert forall|parent: u64, child: u64| #[trigger]
        is_child(after.nodes, parent, child) implies is_child(draft.nodes, parent, child)
        && after.nodes.contains_key(child) by {
        assert(is_child(draft.nodes, parent, child));
        assert(draft.nodes.contains_key(child));
        lemma_path_extends(draft.nodes, root, parent, child);
    }
    let rank = choose|rank: spec_fn(u64) -> nat| ranked(draft.nodes, rank);
    assert(ranked(after.nodes, rank));
    assert forall|id: u64| after.nodes.contains_key(id) implies reachable(
        after.nodes,
        root,
        id,
    ) by {
        let path = choose|path: Seq<u64>| #[trigger]
            is_path(draft.nodes, path) && path.first() == root && path.last() == id;
        assert forall|i: int| 0 <= i < path.len() implies after.nodes.contains_key(
            #[trigger] path[i],
        ) by {
            lemma_path_nodes_reachable(draft.nodes, path, i);
        }
        assert(is_path(after.nodes, path));
    }
    assert forall|id: u64| reachable(after.nodes, root, id) implies after.nodes.contains_key(
        id,
    ) by {
        let path = choose|path: Seq<u64>| #[trigger]
            is_path(after.nodes, path) && path.first() == root && path.last() == id;
        assert(after.nodes.contains_key(path[path.len() - 1]));
    }
    assert(after.nodes.dom() =~= reachable_set(after.nodes, root));
    assert(after.nodes.dom().subset_of(draft.nodes.dom()));
    vstd::set_lib::lemma_len_subset(after.nodes.dom(), draft.nodes.dom());
    assert(acyclic(after.nodes));
    assert(keyed_by_id(after.nodes));
    assert(no_repeated_children(after.nodes));
    assert(single_parents(after.nodes));
    assert(no_dangling_children(after.nodes));
}

/// An update that is accepted leaves a well-formed tree, with a root.
pub proof fn lemma_apply_sound(before: TreeModel, update: TreeUpdateView)
    requires
        before.wf(),
        apply(before, update) is Ok,
    ensures
        apply(before, update).unwrap().0.wf(),
        apply(before, update).unwrap().0.root is Some,
{
    let root = root_after(before, update).unwrap();
    let first = begin(before, update).unwrap();
    lemma_begin_sound(before, update);
    lemma_run_sound(first, root, update.nodes);
    let last = run(first, root, update.nodes).unwrap();
    lemma_tree_of_draft(before, update, last, root);
}

} // verus!
