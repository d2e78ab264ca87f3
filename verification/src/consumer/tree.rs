//! The engine itself: the tree, and the application of an update to it.

use super::change::{TreeChange, TreeChangeView, UpdateError};
use super::laws::lemma_empty_is_well_formed;
use super::model::{is_child, no_dangling_children, reachable_set, TreeModel};
use super::reach::reach;
use super::rules;
use super::rules::{ascending, lists_ascending, Draft};
use super::sound::{
    lemma_begin_sound, lemma_run_fails_on, lemma_step_sound, lemma_tree_of_draft, sound,
};
use super::store::{
    id_set, keys_of, lemma_push_contains, lemma_take_next_contains, split, store_model, Store,
};
use crate::schema::content::models;
use crate::schema::{Content, Node, NodeId, TreeUpdate};
use std::collections::{BTreeMap, BTreeSet};
use std::sync::Arc;
use vstd::prelude::*;

verus! {

broadcast use {vstd::laws_cmp::group_laws_cmp, vstd::std_specs::btree::group_btree_axioms};

/// An accessibility tree: the nodes, which of them is the root, and the data
/// of the tree as a whole. It is always well formed, whatever updates it has
/// taken or refused.
pub struct Tree {
    nodes: Store,
    root: Option<NodeId>,
    data: Option<crate::schema::Tree>,
}

impl View for Tree {
    type V = TreeModel;

    closed spec fn view(&self) -> TreeModel {
        TreeModel {
            nodes: store_model(self.nodes@),
            root: self.root.model(),
            data: self.data.model(),
        }
    }
}

/// A tree in the middle of an update. The tree itself is not touched before
/// the update is known to be good.
struct Work {
    nodes: Store,
    pending: BTreeSet<u64>,
    cleared: Store,
    awaiting: Option<Node>,
    changes: Vec<TreeChange>,
}

impl Work {
    spec fn draft(&self) -> Draft {
        Draft {
            nodes: store_model(self.nodes@),
            pending: self.pending@,
            cleared: store_model(self.cleared@),
            awaiting: self.awaiting.model(),
            changes: self.changes.model(),
        }
    }

    /// The clearing, on a working copy of the tree's nodes.
    fn begin(tree: &Tree, update: &TreeUpdate) -> (result: Result<Work, UpdateError>)
        ensures
            match rules::begin(tree@, update@) {
                Ok(draft) => result matches Ok(work) && work.draft() == draft && sound(draft),
                Err(error) => result matches Err(e) && e == error,
            },
    {
        proof {
            use_type_invariant(tree);
        }
        if update.root_id.is_none() && tree.root.is_none() {
            return Err(UpdateError::MissingRoot);
        }
        let work = match update.node_id_to_clear {
            None => Work {
                nodes: tree.nodes.clone(),
                pending: BTreeSet::new(),
                cleared: BTreeMap::new(),
                awaiting: None,
                changes: Vec::new(),
            },
            Some(id) => {
                let key = id.get();
                match tree.nodes.get(&key) {
                    None => {
                        return Err(UpdateError::ClearedNodeNotInTree);
                    },
                    Some(node) => {
                        let mut gone = reach(&tree.nodes, key);
                        gone.remove(&key);
                        let (cleared, mut nodes) = split(&tree.nodes, &gone);
                        let was = node.duplicate();
                        let mut bare = node.duplicate();
                        bare.child_ids = Vec::new();
                        proof {
                            assert(bare@.child_ids =~= Seq::empty());
                            assert(bare@ == rules::without_children(node@));
                        }
                        nodes.insert(key, Arc::new(bare));
                        Work {
                            nodes,
                            pending: BTreeSet::new(),
                            cleared,
                            awaiting: Some(was),
                            changes: Vec::new(),
                        }
                    },
                }
            },
        };
        proof {
            let draft = rules::begin(tree@, update@).unwrap();
            assert(work.draft().nodes =~= draft.nodes);
            assert(work.draft().cleared =~= draft.cleared);
            assert(work.draft().changes =~= draft.changes);
            lemma_begin_sound(tree@, update@);
        }
        Ok(work)
    }

    /// Whether `node` may be defined now with the children that it lists, and
    /// which of these children are new.
    fn new_children(&self, root: u64, node: &Node) -> (result: Result<Vec<u64>, UpdateError>)
        ensures
            match rules::step(self.draft(), root, node@) {
                Ok(_) => result matches Ok(fresh) && fresh@.to_set() == rules::new_children(
                    self.draft(),
                    node@,
                ),
                Err(error) => result matches Err(e) && e == error,
            },
    {
        let ghost draft = self.draft();
        let ghost kids = node@.child_ids;
        let id = node.id.get();
        proof {
            assert(draft.nodes.dom() =~= self.nodes@.dom());
        }
        let known = self.nodes.contains_key(&id);
        if !known && !self.pending.contains(&id) && !(self.nodes.is_empty()
            && self.pending.is_empty() && id == root) {
            return Err(UpdateError::UnknownNode);
        }
        assert(rules::expected(draft, root, node@));
        let (_, unique) = id_set(&node.child_ids);
        if !unique {
            return Err(UpdateError::DuplicateChild);
        }
        let mine = match self.nodes.get(&id) {
            Some(old) => id_set(&old.child_ids).0,
            None => BTreeSet::new(),
        };
        proof {
            assert forall|child: u64| mine@.contains(child) <==> is_child(
                draft.nodes,
                id,
                child,
            ) by {
                if known {
                    assert(draft.nodes[id].child_ids.to_set().contains(child)
                        <==> draft.nodes[id].child_ids.contains(child));
                }
            }
        }
        let mut fresh: Vec<u64> = Vec::new();
        let mut i: usize = 0;
        while i < node.child_ids.len()
            invariant
                i <= node.child_ids.len(),
                kids == node@.child_ids,
                id == node@.id,
                draft == self.draft(),
                rules::expected(draft, root, node@),
                kids.no_duplicates(),
                forall|child: u64| mine@.contains(child) <==> is_child(draft.nodes, id, child),
                forall|j: int|
                    0 <= j < i ==> !(rules::taken(draft, id, #[trigger] kids[j]) && !is_child(
                        draft.nodes,
                        id,
                        kids[j],
                    )),
                forall|child: u64|
                    fresh@.contains(child) <==> kids.take(i as int).contains(child)
                        && !rules::taken(draft, id, child),
            decreases node.child_ids.len() - i,
        {
            let child = node.child_ids[i].get();
            let ghost found = fresh@;
            assert(child == kids[i as int]);
            proof {
                assert(draft.nodes.dom() =~= self.nodes@.dom());
            }
            let taken = child == id || self.nodes.contains_key(&child) || self.pending.contains(
                &child,
            );
            assert(taken == rules::taken(draft, id, child));
            if taken {
                if !mine.contains(&child) {
                    assert(rules::takes_over(draft, node@)) by {
                        assert(rules::taken(draft, id, kids[i as int]) && !is_child(
                            draft.nodes,
                            id,
                            kids[i as int],
                        ));
                    }
                    return Err(UpdateError::ReparentedChild);
                }
            } else {
                fresh.push(child);
            }
            proof {
                assert forall|other: u64|
                    fresh@.contains(other) <==> kids.take(i + 1).contains(other) && !rules::taken(
                        draft,
                        id,
                        other,
                    ) by {
                    lemma_take_next_contains(kids, i as int, other);
                    if !taken {
                        lemma_push_contains(found, child, other);
                    }
                }
            }
            i += 1;
        }
        proof {
            assert(kids.take(kids.len() as int) =~= kids);
            assert(!rules::takes_over(draft, node@));
            assert(fresh@.to_set() =~= rules::new_children(draft, node@));
        }
        Ok(fresh)
    }

    /// The change that defining `node` makes, if any. A node that comes back
    /// as the clearing took it is no longer counted as cleared.
    fn change_of(&mut self, node: &Node) -> (change: Option<TreeChange>)
        ensures
            rules::changes_of(old(self).draft(), node@) == (match change {
                Some(change) => seq![change@],
                None => Seq::empty(),
            }),
            final(self).nodes == old(self).nodes,
            final(self).pending == old(self).pending,
            final(self).changes == old(self).changes,
            final(self).draft().cleared == (if rules::restores(old(self).draft(), node@) {
                old(self).draft().cleared.remove(node@.id)
            } else {
                old(self).draft().cleared
            }),
            final(self).draft().awaiting == (match old(self).draft().awaiting {
                Some(was) if was.id == node@.id => None,
                _ => old(self).draft().awaiting,
            }),
    {
        let ghost draft = self.draft();
        let id = node.id.get();
        let awaited = match &self.awaiting {
            Some(was) => was.id.get() == id,
            None => false,
        };
        if awaited {
            let was = self.awaiting.take().unwrap();
            if was.same(node) {
                None
            } else {
                Some(TreeChange::NodeUpdated { old_node: was, new_node: node.duplicate() })
            }
        } else {
            match self.nodes.get(&id) {
                Some(old) => if old.same(node) {
                    None
                } else {
                    Some(
                        TreeChange::NodeUpdated {
                            old_node: old.duplicate(),
                            new_node: node.duplicate(),
                        },
                    )
                },
                None => {
                    let restores = match self.cleared.get(&id) {
                        Some(was) => was.same(node),
                        None => false,
                    };
                    assert(restores == rules::restores(draft, node@));
                    if restores {
                        self.cleared.remove(&id);
                        assert(self.draft().cleared =~= draft.cleared.remove(id));
                        None
                    } else {
                        Some(TreeChange::NodeAdded(node.duplicate()))
                    }
                },
            }
        }
    }

    /// The definition of one node.
    fn step(&mut self, root: u64, node: Node) -> (result: Result<(), UpdateError>)
        requires
            sound(old(self).draft()),
        ensures
            match rules::step(old(self).draft(), root, node@) {
                Ok(draft) => result is Ok && final(self).draft() == draft && sound(draft),
                Err(error) => result matches Err(e) && e == error,
            },
    {
        let ghost draft = self.draft();
        let id = node.id.get();
        let fresh = match self.new_children(root, &node) {
            Ok(fresh) => fresh,
            Err(error) => {
                return Err(error);
            },
        };
        let change = self.change_of(&node);
        let ghost entry = node@;
        self.nodes.insert(id, Arc::new(node));
        self.pending.remove(&id);
        let ghost middle = *self;
        let mut j: usize = 0;
        while j < fresh.len()
            invariant
                j <= fresh.len(),
                self.pending@ =~= draft.pending.remove(id).union(fresh@.take(j as int).to_set()),
                self.nodes == middle.nodes,
                self.cleared == middle.cleared,
                self.awaiting == middle.awaiting,
                self.changes == middle.changes,
            decreases fresh.len() - j,
        {
            self.pending.insert(fresh[j]);
            proof {
                assert forall|other: u64|
                    fresh@.take(j + 1).contains(other) <==> fresh@.take(j as int).contains(other)
                        || other == fresh@[j as int] by {
                    lemma_take_next_contains(fresh@, j as int, other);
                }
            }
            j += 1;
        }
        match change {
            Some(change) => {
                let ghost reported = self.changes.model();
                self.changes.push(change);
                assert(self.changes.model() =~= reported + seq![change@]);
            },
            None => {
                assert(self.changes.model() =~= self.changes.model() + Seq::empty());
            },
        }
        proof {
            let next = rules::step(draft, root, entry).unwrap();
            assert(fresh@.take(fresh.len() as int) =~= fresh@);
            assert(self.draft().nodes =~= next.nodes);
            assert(self.draft().pending =~= next.pending);
            lemma_step_sound(draft, root, entry);
        }
        Ok(())
    }
}

/// Reports the removal of each node of `store`, by ascending identifier.
fn report_removed(store: &Store, changes: &mut Vec<TreeChange>)
    ensures
        final(changes).model() == old(changes).model() + rules::removals(store_model(store@)),
{
    let ghost nodes = store_model(store@);
    let keys = keys_of(store);
    proof {
        assert(nodes.dom() =~= store@.dom());
    }
    let mut i: usize = 0;
    while i < keys.len()
        invariant
            i <= keys.len(),
            nodes == store_model(store@),
            keys@ == ascending(nodes.dom()),
            lists_ascending(keys@, store@.dom()),
            changes.model() == old(changes).model() + rules::removals(nodes).take(i as int),
        decreases keys.len() - i,
    {
        let key = keys[i];
        assert(keys@.contains(key));
        let node = store.get(&key).unwrap();
        let ghost before = changes.model();
        changes.push(TreeChange::NodeRemoved(node.duplicate()));
        proof {
            let all = rules::removals(nodes);
            assert(all[i as int] == TreeChangeView::NodeRemoved(nodes[key]));
            assert(changes.model() =~= before.push(all[i as int]));
            assert(all.take(i + 1) =~= all.take(i as int).push(all[i as int]));
            assert(changes.model() =~= old(changes).model() + all.take(i + 1));
        }
        i += 1;
    }
    proof {
        let all = rules::removals(nodes);
        assert(all.take(keys.len() as int) =~= all);
    }
}

/// A copy of the node with the given identifier, if the store has one.
fn lookup(store: &Store, id: &Option<NodeId>) -> (node: Option<Node>)
    ensures
        node.model() == (TreeModel { nodes: store_model(store@), root: None, data: None }).node(
            id.model(),
        ),
{
    match id {
        Some(id) => match store.get(&id.get()) {
            Some(node) => Some(node.duplicate()),
            None => None,
        },
        None => None,
    }
}

impl Tree {
    /// What holds of every tree: it is well formed.
    #[verifier::type_invariant]
    pub open spec fn well_formed(self) -> bool {
        self@.wf()
    }

    /// The tree before its first update: no nodes, no root, no data.
    pub fn empty() -> (tree: Tree)
        ensures
            tree@ == TreeModel::empty(),
            tree@.wf(),
    {
        let nodes: Store = BTreeMap::new();
        proof {
            assert(store_model(nodes@) =~= Map::empty());
            lemma_empty_is_well_formed();
        }
        Tree { nodes, root: None, data: None }
    }

    /// The tree that one update makes of the empty tree.
    pub fn new(initial: TreeUpdate) -> (result: Result<Tree, UpdateError>)
        ensures
            match rules::apply(TreeModel::empty(), initial@) {
                Ok((after, _)) => result matches Ok(tree) && tree@ == after && after.wf(),
                Err(error) => result matches Err(e) && e == error,
            },
    {
        let mut tree = Tree::empty();
        match tree.apply(initial) {
            Ok(_) => Ok(tree),
            Err(error) => Err(error),
        }
    }

    /// Applies `update`. Either the whole update is applied, and the changes
    /// that it made are returned, or the update is refused and the tree is as
    /// before.
    #[verifier::loop_isolation(false)]
    pub fn apply(&mut self, update: TreeUpdate) -> (result: Result<Vec<TreeChange>, UpdateError>)
        ensures
            match rules::apply(old(self)@, update@) {
                Ok((after, changes)) => result matches Ok(reported) && reported.model() == changes
                    && final(self)@ == after,
                Err(error) => result matches Err(e) && e == error && final(self)@ == old(self)@,
            },
            final(self)@.wf(),
    {
        proof {
            use_type_invariant(&*self);
        }
        let ghost before = self@;
        let ghost given = update@;
        let mut work = match Work::begin(self, &update) {
            Ok(work) => work,
            Err(error) => {
                return Err(error);
            },
        };
        let root = match update.root_id {
            Some(root) => root,
            None => self.root.unwrap(),
        };
        assert(Some(root@) == rules::root_after(before, given));
        let ghost first = work.draft();
        let TreeUpdate { node_id_to_clear: _, nodes, tree: data, root_id: _ } = update;
        let ghost items = nodes@;
        let ghost entries = models(items);
        assert(entries == given.nodes);
        assert(rules::run(first, root@, entries.take(0)) == Ok::<Draft, UpdateError>(first));
        for node in it: nodes.into_iter()
            invariant
                it.seq() == items,
                entries == models(items),
                entries == given.nodes,
                before == self@,
                self@.wf(),
                sound(work.draft()),
                rules::begin(before, given) == Ok::<Draft, UpdateError>(first),
                Some(root@) == rules::root_after(before, given),
                rules::run(first, root@, entries.take(it.index())) == Ok::<Draft, UpdateError>(
                    work.draft(),
                ),
        {
            let ghost i = it.index();
            let ghost so_far = work.draft();
            let ghost entry = node@;
            proof {
                assert(0 <= i < entries.len());
                assert(entries.take(i + 1).drop_last() =~= entries.take(i));
                assert(entries.take(i + 1).last() == entry);
                assert(rules::run(first, root@, entries.take(i + 1)) == rules::step(
                    so_far,
                    root@,
                    entry,
                ));
            }
            match work.step(root.get(), node) {
                Ok(()) => {},
                Err(error) => {
                    proof {
                        lemma_run_fails_on(first, root@, entries, i + 1);
                        assert(rules::apply(before, given) == Err::<
                            (TreeModel, Seq<TreeChangeView>),
                            UpdateError,
                        >(error));
                    }
                    return Err(error);
                },
            }
        }
        proof {
            assert(entries.take(entries.len() as int) =~= entries);
        }
        let ghost last = work.draft();
        if work.awaiting.is_some() {
            return Err(UpdateError::ClearedNodeNotUpdated);
        }
        if !work.pending.is_empty() {
            return Err(UpdateError::DanglingChild);
        }
        proof {
            assert(last.nodes.dom() =~= work.nodes@.dom());
        }
        if !work.nodes.contains_key(&root.get()) {
            return Err(UpdateError::MissingRoot);
        }
        proof {
            assert(no_dangling_children(last.nodes)) by {
                assert forall|parent: u64, child: u64| #[trigger]
                    is_child(last.nodes, parent, child) implies last.nodes.contains_key(child) by {
                    assert(!last.pending.contains(child));
                }
            }
        }
        let kept = reach(&work.nodes, root.get());
        let (nodes, lost) = split(&work.nodes, &kept);
        let Work { nodes: _, pending: _, cleared, awaiting: _, changes } = work;
        let mut changes = changes;
        report_removed(&cleared, &mut changes);
        report_removed(&lost, &mut changes);
        let data = match data {
            Some(data) => Some(data),
            None => self.data.duplicate(),
        };
        proof {
            let after = rules::tree_of(before, given, last, root@);
            lemma_tree_of_draft(before, given, last, root@);
            assert(store_model(nodes@) =~= after.nodes);
            assert(store_model(lost@) =~= last.nodes.remove_keys(reachable_set(last.nodes, root@)));
        }
        let after = Tree { nodes, root: Some(root), data };
        report_focus(self, &after, &mut changes);
        *self = after;
        Ok(changes)
    }

    /// A view of the tree for reading.
    pub fn read(&self) -> (reader: Reader<'_>)
        ensures
            reader@ == self@,
            self@.wf(),
    {
        proof {
            use_type_invariant(self);
        }
        Reader { tree: self }
    }
}

/// Reports what became of the focus between two states of a tree.
fn report_focus(before: &Tree, after: &Tree, changes: &mut Vec<TreeChange>)
    ensures
        final(changes).model() == old(changes).model() + rules::focus_change(before@, after@),
{
    let none: Option<NodeId> = None;
    let old_focus = match &before.data {
        Some(data) => &data.focused_node_id,
        None => &none,
    };
    let new_focus = match &after.data {
        Some(data) => &data.focused_node_id,
        None => &none,
    };
    let same_tree = match &before.data {
        Some(old) => match &after.data {
            Some(new) => old.focused_tree_id.same(&new.focused_tree_id),
            None => old.focused_tree_id.is_none(),
        },
        None => match &after.data {
            Some(new) => new.focused_tree_id.is_none(),
            None => true,
        },
    };
    let ghost reported = changes.model();
    if !same_tree {
        changes.push(
            TreeChange::FocusMoved { old_node: lookup(&before.nodes, old_focus), new_node: None },
        );
        assert(changes.model() =~= reported + rules::focus_change(before@, after@));
    } else if !old_focus.same(new_focus) {
        changes.push(
            TreeChange::FocusMoved {
                old_node: lookup(&before.nodes, old_focus),
                new_node: lookup(&after.nodes, new_focus),
            },
        );
        assert(changes.model() =~= reported + rules::focus_change(before@, after@));
    } else {
        assert(changes.model() =~= reported + rules::focus_change(before@, after@));
    }
}

/// A view of a tree for reading. While it lives the tree cannot change, so
/// that all it shows belongs to one state of the tree.
pub struct Reader<'a> {
    tree: &'a Tree,
}

impl<'a> View for Reader<'a> {
    type V = TreeModel;

    closed spec fn view(&self) -> TreeModel {
        self.tree@
    }
}

impl<'a> Reader<'a> {
    /// The root, unless the tree is empty.
    pub fn root(&self) -> (node: Option<&'a Node>)
        ensures
            self@.wf(),
            match node {
                Some(node) => self@.node(self@.root) == Some(node@),
                None => self@.root is None,
            },
    {
        proof {
            use_type_invariant(self.tree);
        }
        match self.tree.root {
            Some(id) => self.node_by_id(id),
            None => None,
        }
    }

    /// The node with the given identifier, if the tree has one.
    pub fn node_by_id(&self, id: NodeId) -> (node: Option<&'a Node>)
        ensures
            match node {
                Some(node) => self@.node(Some(id@)) == Some(node@),
                None => self@.node(Some(id@)) is None,
            },
    {
        match self.tree.nodes.get(&id.get()) {
            Some(node) => Some(&**node),
            None => None,
        }
    }
}

} // verus!
