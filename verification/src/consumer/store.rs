//! The nodes as the engine holds them, and a few ways to take them apart.

use super::model::Nodes;
use super::rules::{ascending, lists_ascending};
use crate::schema::content::models;
use crate::schema::{Node, NodeId};
use std::collections::{BTreeMap, BTreeSet};
use std::sync::Arc;
use vstd::prelude::*;
use vstd::std_specs::cmp::OrdSpec;
use vstd::std_specs::iter::IteratorSpec;

verus! {

broadcast use {vstd::laws_cmp::group_laws_cmp, vstd::std_specs::btree::group_btree_axioms};

/// Nodes by identifier. They are shared, so that a working copy costs one
/// pointer per node.
pub type Store = BTreeMap<u64, Arc<Node>>;

/// What a store stands for.
pub open spec fn store_model(store: Map<u64, Arc<Node>>) -> Nodes {
    store.map_values(|node: Arc<Node>| node@)
}

/// What the first `i + 1` items of a list hold: what the first `i` hold, and
/// the item after them.
pub proof fn lemma_take_next_contains<T>(list: Seq<T>, i: int, x: T)
    requires
        0 <= i < list.len(),
    ensures
        list.take(i + 1) == list.take(i).push(list[i]),
        list.take(i + 1).contains(x) <==> list.take(i).contains(x) || x == list[i],
{
    let done = list.take(i);
    let next = list.take(i + 1);
    assert(next =~= done.push(list[i]));
    if next.contains(x) {
        let k = choose|k: int| 0 <= k < next.len() && next[k] == x;
        if k < done.len() {
            assert(done[k] == x);
        }
    }
    if done.contains(x) {
        let k = choose|k: int| 0 <= k < done.len() && done[k] == x;
        assert(next[k] == x);
    }
    assert(next[i] == list[i]);
}

/// What a list holds after a push: what it held, and the item pushed.
pub proof fn lemma_push_contains<T>(list: Seq<T>, last: T, x: T)
    ensures
        list.push(last).contains(x) <==> list.contains(x) || x == last,
{
    let longer = list.push(last);
    if longer.contains(x) {
        let k = choose|k: int| 0 <= k < longer.len() && longer[k] == x;
        if k < list.len() {
            assert(list[k] == x);
        }
    }
    if list.contains(x) {
        let k = choose|k: int| 0 <= k < list.len() && list[k] == x;
        assert(longer[k] == x);
    }
    assert(longer[list.len() as int] == last);
}

/// There is one way only to list a set in ascending order.
pub proof fn lemma_ascending_unique(a: Seq<u64>, b: Seq<u64>, set: Set<u64>)
    requires
        lists_ascending(a, set),
        lists_ascending(b, set),
    ensures
        a == b,
    decreases a.len(),
{
    if a.len() == 0 {
        if b.len() > 0 {
            assert(b.contains(b[0]));
            assert(a.contains(b[0]));
        }
        assert(a =~= b);
    } else {
        let x = a.last();
        assert(a.contains(x));
        assert(b.contains(x));
        let y = b.last();
        assert(b.contains(y));
        assert(a.contains(y));
        let i = choose|i: int| 0 <= i < a.len() && a[i] == y;
        let j = choose|j: int| 0 <= j < b.len() && b[j] == x;
        assert(x == y);
        let rest = set.remove(x);
        assert forall|id: u64| rest.contains(id) <==> a.drop_last().contains(id) by {
            if rest.contains(id) {
                assert(a.contains(id));
                let k = choose|k: int| 0 <= k < a.len() && a[k] == id;
                assert(a.drop_last()[k] == id);
            }
            if a.drop_last().contains(id) {
                let k = choose|k: int| 0 <= k < a.len() - 1 && a.drop_last()[k] == id;
                assert(a[k] == id);
                assert(a.contains(id));
            }
        }
        assert forall|id: u64| rest.contains(id) <==> b.drop_last().contains(id) by {
            if rest.contains(id) {
                assert(b.contains(id));
                let k = choose|k: int| 0 <= k < b.len() && b[k] == id;
                assert(b.drop_last()[k] == id);
            }
            if b.drop_last().contains(id) {
                let k = choose|k: int| 0 <= k < b.len() - 1 && b.drop_last()[k] == id;
                assert(b[k] == id);
                assert(b.contains(id));
            }
        }
        lemma_ascending_unique(a.drop_last(), b.drop_last(), rest);
        assert(a =~= a.drop_last().push(x));
        assert(b =~= b.drop_last().push(y));
    }
}

/// A list that holds a set in ascending order is the ascending list of it.
pub proof fn lemma_is_ascending(list: Seq<u64>, set: Set<u64>)
    requires
        lists_ascending(list, set),
    ensures
        ascending(set) == list,
{
    lemma_ascending_unique(ascending(set), list, set);
}

/// The identifiers of a store, from the smallest to the largest.
pub(crate) fn keys_of(store: &Store) -> (keys: Vec<u64>)
    ensures
        keys@ == ascending(store@.dom()),
        lists_ascending(keys@, store@.dom()),
{
    let mut keys: Vec<u64> = Vec::new();
    for key in it: store.keys()
        invariant
            it.seq() == vstd::std_specs::btree::spec_keys_iter(store).remaining(),
            keys.len() == it.index(),
            forall|i: int| 0 <= i < keys.len() ==> keys[i] == *it.seq()[i],
    {
        keys.push(*key);
    }
    proof {
        let all = vstd::std_specs::btree::spec_keys_iter(store).remaining();
        vstd::std_specs::btree::axiom_spec_keys_iter(store);
        assert(keys@ =~= all.unref());
        assert forall|id: u64| store@.dom().contains(id) <==> keys@.contains(id) by {
            assert(all.unref().to_set().contains(id) <==> all.unref().contains(id));
        }
        lemma_keys_increase(all, keys@);
        lemma_is_ascending(keys@, store@.dom());
    }
    keys
}

proof fn lemma_keys_increase(all: Seq<&u64>, keys: Seq<u64>)
    requires
        vstd::std_specs::btree::increasing_seq(all),
        keys == all.unref(),
    ensures
        forall|i: int, j: int| 0 <= i < j < keys.len() ==> keys[i] < keys[j],
{
    vstd::std_specs::btree::axiom_increasing_seq_meaning(all);
    assert forall|i: int, j: int| 0 <= i < j < keys.len() implies keys[i] < keys[j] by {
        assert(OrdSpec::cmp_spec(&all[i], &all[j]) is Less);
    }
}

/// The part of a store that lies in `keys`, and the part that does not.
pub(crate) fn split(store: &Store, keys: &BTreeSet<u64>) -> (parts: (Store, Store))
    ensures
        parts.0@ == store@.restrict(keys@),
        parts.1@ == store@.remove_keys(keys@),
{
    let mut inside = store.clone();
    let mut outside = store.clone();
    let all = keys_of(store);
    let mut i: usize = 0;
    while i < all.len()
        invariant
            i <= all.len(),
            lists_ascending(all@, store@.dom()),
            forall|id: u64| #[trigger]
                inside@.contains_key(id) <==> store@.contains_key(id) && (keys@.contains(id) || !all@.take(
                    i as int,
                ).contains(id)),
            forall|id: u64| #[trigger]
                outside@.contains_key(id) <==> store@.contains_key(id) && (!keys@.contains(id)
                    || !all@.take(i as int).contains(id)),
            forall|id: u64| inside@.contains_key(id) ==> #[trigger] inside@[id] == store@[id],
            forall|id: u64| outside@.contains_key(id) ==> #[trigger] outside@[id] == store@[id],
        decreases all.len() - i,
    {
        let key = all[i];
        if keys.contains(&key) {
            outside.remove(&key);
        } else {
            inside.remove(&key);
        }
        proof {
            assert forall|id: u64|
                all@.take(i + 1).contains(id) <==> all@.take(i as int).contains(id) || id
                    == key by {
                lemma_take_next_contains(all@, i as int, id);
            }
        }
        i += 1;
    }
    proof {
        assert(all@.take(all.len() as int) =~= all@);
        assert(inside@ =~= store@.restrict(keys@));
        assert(outside@ =~= store@.remove_keys(keys@));
    }
    (inside, outside)
}

/// The identifiers of a list, as a set, and whether each stands once only.
pub(crate) fn id_set(ids: &Vec<NodeId>) -> (r: (BTreeSet<u64>, bool))
    ensures
        r.0@ == models(ids@).to_set(),
        r.1 == models(ids@).no_duplicates(),
{
    let ghost list = models(ids@);
    let mut set: BTreeSet<u64> = BTreeSet::new();
    let mut unique = true;
    let mut i: usize = 0;
    while i < ids.len()
        invariant
            i <= ids.len(),
            list == models(ids@),
            set@ =~= list.take(i as int).to_set(),
            unique == list.take(i as int).no_duplicates(),
        decreases ids.len() - i,
    {
        let id = ids[i].get();
        let ghost done = list.take(i as int);
        let fresh = set.insert(id);
        proof {
            let next = list.take(i + 1);
            assert(next =~= done.push(id));
            assert(next.to_set() =~= done.to_set().insert(id)) by {
                assert forall|x: u64| next.to_set().contains(x) <==> done.to_set().insert(
                    id,
                ).contains(x) by {
                    lemma_take_next_contains(list, i as int, x);
                }
            }
            if fresh && done.no_duplicates() {
                assert forall|a: int, b: int|
                    0 <= a < next.len() && 0 <= b < next.len() && a != b implies next[a]
                    != next[b] by {
                    if a == i {
                        assert(done[b] == next[b]);
                        assert(done.contains(next[b]));
                    } else if b == i {
                        assert(done[a] == next[a]);
                        assert(done.contains(next[a]));
                    } else {
                        assert(done[a] == next[a] && done[b] == next[b]);
                    }
                }
            } else if !fresh {
                let k = choose|k: int| 0 <= k < done.len() && done[k] == id;
                assert(next[k] == id && next[i as int] == id);
            } else {
                let (a, b) = choose|a: int, b: int|
                    0 <= a < done.len() && 0 <= b < done.len() && a != b && done[a] == done[b];
                assert(next[a] == done[a] && next[b] == done[b]);
            }
        }
        unique = unique && fresh;
        i += 1;
    }
    proof {
        assert(list.take(ids.len() as int) =~= list);
    }
    (set, unique)
}

} // verus!
