//! Walking a tree down from one node.

use super::model::{is_child, is_path, no_dangling_children, reachable, reachable_set, Nodes};
use super::store::{store_model, Store};
use std::collections::BTreeSet;
use vstd::prelude::*;

verus! {

broadcast use {vstd::laws_cmp::group_laws_cmp, vstd::std_specs::btree::group_btree_axioms};

/// A path can be followed one child link further.
pub proof fn lemma_path_extends(nodes: Nodes, from: u64, via: u64, to: u64)
    requires
        reachable(nodes, from, via),
        is_child(nodes, via, to),
        nodes.contains_key(to),
    ensures
        reachable(nodes, from, to),
{
    let path = choose|path: Seq<u64>| #[trigger]
        is_path(nodes, path) && path.first() == from && path.last() == via;
    let longer = path.push(to);
    assert forall|i: int| 0 <= i < longer.len() - 1 implies (#[trigger] nodes[longer[i]]).child_ids.contains(
        longer[i + 1],
    ) by {
        if i < path.len() - 1 {
            assert(longer[i] == path[i]);
            assert(longer[i + 1] == path[i + 1]);
        }
    }
    assert(is_path(nodes, longer) && longer.first() == from && longer.last() == to);
}

/// Every node can be reached from itself.
pub proof fn lemma_reaches_itself(nodes: Nodes, id: u64)
    requires
        nodes.contains_key(id),
    ensures
        reachable(nodes, id, id),
{
    let path = seq![id];
    assert(is_path(nodes, path) && path.first() == id && path.last() == id);
}

/// A set that holds `from` and the children of each of its members holds
/// everything that can be reached from `from`.
pub proof fn lemma_closed_set_holds_reachable(nodes: Nodes, from: u64, set: Set<u64>, to: u64)
    requires
        set.contains(from),
        forall|parent: u64, child: u64|
            set.contains(parent) && #[trigger] is_child(nodes, parent, child) ==> set.contains(
                child,
            ),
        reachable(nodes, from, to),
    ensures
        set.contains(to),
{
    let path = choose|path: Seq<u64>| #[trigger]
        is_path(nodes, path) && path.first() == from && path.last() == to;
    lemma_path_stays_in_closed_set(nodes, set, path, path.len() - 1);
}

proof fn lemma_path_stays_in_closed_set(nodes: Nodes, set: Set<u64>, path: Seq<u64>, upto: int)
    requires
        is_path(nodes, path),
        set.contains(path.first()),
        forall|parent: u64, child: u64|
            set.contains(parent) && #[trigger] is_child(nodes, parent, child) ==> set.contains(
                child,
            ),
        0 <= upto < path.len(),
    ensures
        set.contains(path[upto]),
    decreases upto,
{
    if upto > 0 {
        lemma_path_stays_in_closed_set(nodes, set, path, upto - 1);
        assert(nodes[path[upto - 1]].child_ids.contains(path[upto - 1 + 1]));
        assert(is_child(nodes, path[upto - 1], path[upto]));
    }
}

/// The identifiers of the nodes that can be reached from `from`.
pub(crate) fn reach(store: &Store, from: u64) -> (seen: BTreeSet<u64>)
    requires
        store@.contains_key(from),
        no_dangling_children(store_model(store@)),
    ensures
        seen@ == reachable_set(store_model(store@), from),
{
    let ghost nodes = store_model(store@);
    let mut seen: BTreeSet<u64> = BTreeSet::new();
    let mut stack: Vec<u64> = Vec::new();
    seen.insert(from);
    stack.push(from);
    proof {
        lemma_reaches_itself(nodes, from);
        assert(stack@[0] == from);
        assert(nodes.dom() =~= store@.dom());
    }
    while stack.len() > 0
        invariant
            nodes == store_model(store@),
            nodes.dom().finite(),
            no_dangling_children(nodes),
            seen@.contains(from),
            seen@.finite(),
            forall|id: u64| seen@.contains(id) ==> nodes.contains_key(id) && reachable(nodes, from, id),
            forall|i: int| 0 <= i < stack.len() ==> seen@.contains(#[trigger] stack[i]),
            forall|parent: u64, child: u64|
                seen@.contains(parent) && #[trigger] is_child(nodes, parent, child)
                    ==> seen@.contains(child) || stack@.contains(parent),
        decreases nodes.dom().len() - seen@.len(), stack.len(),
    {
        let ghost seen_before = seen@;
        let ghost stack_before = stack@;
        let id = stack.pop().unwrap();
        assert(seen@.contains(id)) by {
            assert(id == stack_before[stack_before.len() - 1]);
        }
        let node = store.get(&id).unwrap();
        assert(node@ == nodes[id]);
        proof {
            assert(seen@.subset_of(nodes.dom()));
            vstd::set_lib::lemma_len_subset(seen@, nodes.dom());
            assert(stack@ == stack_before.take(stack_before.len() - 1));
            assert forall|parent: u64, child: u64|
                seen@.contains(parent) && #[trigger] is_child(nodes, parent, child)
                    implies seen@.contains(child) || stack@.contains(parent) || parent == id by {
                if !seen@.contains(child) && parent != id {
                    let k = choose|k: int| 0 <= k < stack_before.len() && stack_before[k] == parent;
                    assert(stack@[k] == parent);
                }
            }
        }
        let mut i: usize = 0;
        while i < node.child_ids.len()
            invariant
                nodes == store_model(store@),
                nodes.dom().finite(),
                no_dangling_children(nodes),
                node@ == nodes[id],
                nodes.contains_key(id),
                i <= node.child_ids.len(),
                seen@.contains(from),
                seen@.contains(id),
                seen@.finite(),
                seen_before.subset_of(seen@),
                seen_before.finite(),
                seen_before.len() <= seen@.len(),
                seen@ != seen_before ==> seen_before.len() < seen@.len(),
                stack_before == stack@.take(stack_before.len() - 1).push(id),
                stack_before.len() - 1 <= stack.len(),
                seen@ == seen_before ==> stack@.len() == stack_before.len() - 1,
                forall|id: u64|
                    seen@.contains(id) ==> nodes.contains_key(id) && reachable(nodes, from, id),
                forall|i: int| 0 <= i < stack.len() ==> seen@.contains(#[trigger] stack[i]),
                forall|j: int| 0 <= j < i ==> seen@.contains(#[trigger] node@.child_ids[j]),
                forall|parent: u64, child: u64|
                    seen@.contains(parent) && #[trigger] is_child(nodes, parent, child)
                        ==> seen@.contains(child) || stack@.contains(parent) || parent == id,
            decreases node.child_ids.len() - i,
        {
            let child = node.child_ids[i].get();
            let ghost seen_then = seen@;
            let ghost stack_then = stack@;
            assert(node@.child_ids[i as int] == child);
            assert(is_child(nodes, id, child));
            if seen.insert(child) {
                stack.push(child);
                proof {
                    lemma_path_extends(nodes, from, id, child);
                    vstd::set::axiom_set_insert_len(seen_then, child);
                    assert(stack@.take(stack_before.len() - 1) == stack_then.take(stack_before.len() - 1));
                    assert forall|parent: u64, other: u64|
                        seen@.contains(parent) && #[trigger] is_child(nodes, parent, other)
                            implies seen@.contains(other) || stack@.contains(parent) || parent == id by {
                        if parent == child {
                            assert(stack@[stack@.len() - 1] == child);
                        } else if !seen@.contains(other) && parent != id {
                            let k = choose|k: int| 0 <= k < stack_then.len() && stack_then[k] == parent;
                            assert(stack@[k] == parent);
                        }
                    }
                }
            } else {
                assert(seen@ =~= seen_then);
            }
            i += 1;
        }
        proof {
            assert forall|parent: u64, child: u64|
                seen@.contains(parent) && #[trigger] is_child(nodes, parent, child)
                    implies seen@.contains(child) || stack@.contains(parent) by {
                if parent == id {
                    let j = choose|j: int| 0 <= j < node@.child_ids.len() && node@.child_ids[j] == child;
                    assert(seen@.contains(node@.child_ids[j]));
                }
            }
            assert(seen@.subset_of(nodes.dom()));
            vstd::set_lib::lemma_len_subset(seen@, nodes.dom());
        }
    }
    proof {
        assert forall|id: u64| reachable(nodes, from, id) implies seen@.contains(id) by {
            lemma_closed_set_holds_reachable(nodes, from, seen@, id);
        }
        assert(seen@ =~= reachable_set(nodes, from));
    }
    seen
}

} // verus!
