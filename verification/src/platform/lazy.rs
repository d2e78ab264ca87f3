//! A tree that is built when it is first asked for.

use super::init::InitTree;
use crate::consumer::rules::apply;
use crate::consumer::{Tree, TreeChange, TreeChangeView, TreeModel, UpdateError};
use crate::schema::{Content, TreeUpdate, TreeUpdateView};
use vstd::prelude::*;

verus! {

enum State<Init> {
    Uninitialized(Init),
    Constructed(Tree),
}

/// Either the seed of a tree that nobody has asked for yet, or the tree. The
/// seed is used once: a tree that is built stays.
pub struct LazyTree<Init> {
    state: State<Init>,
}

/// What a `LazyTree` stands for.
pub enum LazyModel<Init> {
    Uninitialized(Init),
    Constructed(TreeModel),
}

/// The tree that the first update `seed` makes: the empty tree where the
/// update is refused.
pub open spec fn built(seed: TreeUpdateView) -> TreeModel {
    match apply(TreeModel::empty(), seed) {
        Ok((tree, _)) => tree,
        Err(_) => TreeModel::empty(),
    }
}

/// What building a tree from the update `seed` returns.
pub open spec fn build_result(seed: TreeUpdateView) -> Result<(), UpdateError> {
    match apply(TreeModel::empty(), seed) {
        Ok(_) => Ok(()),
        Err(error) => Err(error),
    }
}

/// Whether applying `update` to `tree` leaves `after` and returns `result`:
/// what the rules give where the update is accepted, and `tree` itself with
/// the reason where it is refused.
pub open spec fn applied(
    tree: TreeModel,
    update: TreeUpdateView,
    after: TreeModel,
    result: Result<Seq<TreeChangeView>, UpdateError>,
) -> bool {
    match apply(tree, update) {
        Ok((next, changes)) => after == next && result == Ok::<Seq<TreeChangeView>, UpdateError>(
            changes,
        ),
        Err(error) => after == tree && result == Err::<Seq<TreeChangeView>, UpdateError>(error),
    }
}

/// What a list of changes, or the refusal in place of it, stands for.
pub open spec fn changes_model(result: Result<Vec<TreeChange>, UpdateError>) -> Result<
    Seq<TreeChangeView>,
    UpdateError,
> {
    match result {
        Ok(changes) => Ok(changes.model()),
        Err(error) => Err(error),
    }
}

impl<Init> View for LazyTree<Init> {
    type V = LazyModel<Init>;

    closed spec fn view(&self) -> LazyModel<Init> {
        match self.state {
            State::Uninitialized(seed) => LazyModel::Uninitialized(seed),
            State::Constructed(tree) => LazyModel::Constructed(tree@),
        }
    }
}

impl<Init: InitTree> LazyTree<Init> {
    /// A tree that is not built yet.
    pub fn new(seed: Init) -> (lazy: Self)
        ensures
            lazy@ == LazyModel::Uninitialized(seed),
    {
        LazyTree { state: State::Uninitialized(seed) }
    }

    /// The tree, if it is built. Nothing is built on this account.
    pub fn get(&self) -> (tree: Option<&Tree>)
        ensures
            match tree {
                Some(tree) => self@ == LazyModel::<Init>::Constructed(tree@) && tree@.wf(),
                None => self@ is Uninitialized,
            },
    {
        match &self.state {
            State::Uninitialized(_) => None,
            State::Constructed(tree) => {
                proof {
                    use_type_invariant(tree);
                }
                Some(tree)
            },
        }
    }

    /// Applies `update` to the tree, if it is built. Nothing is built on this
    /// account.
    pub fn apply(&mut self, update: TreeUpdate) -> (result: Option<
        Result<Vec<TreeChange>, UpdateError>,
    >)
        ensures
            match old(self)@ {
                LazyModel::Uninitialized(_) => final(self)@ == old(self)@ && result is None,
                LazyModel::Constructed(tree) => {
                    &&& result matches Some(result)
                    &&& final(self)@ matches LazyModel::Constructed(after)
                    &&& after.wf()
                    &&& applied(tree, update@, after, changes_model(result))
                },
            },
    {
        match &mut self.state {
            State::Uninitialized(_) => None,
            State::Constructed(tree) => Some(tree.apply(update)),
        }
    }

    /// Builds the tree from the seed, unless it is built. Where the seed's
    /// update is refused, the tree is built empty, and the refusal is
    /// returned, this once.
    pub fn get_or_create(&mut self) -> (result: Result<(), UpdateError>)
        ensures
            match old(self)@ {
                LazyModel::Uninitialized(seed) => exists|update: TreeUpdateView|
                    seed.gives(update) && final(self)@ == LazyModel::<Init>::Constructed(
                        built(update),
                    ) && result == build_result(update),
                LazyModel::Constructed(_) => final(self)@ == old(self)@ && result is Ok,
            },
            final(self)@ matches LazyModel::Constructed(tree) && tree.wf(),
    {
        let mut taken = LazyTree { state: State::Constructed(Tree::empty()) };
        std::mem::swap(self, &mut taken);
        match taken.state {
            State::Uninitialized(seed) => {
                let update = seed.init_accesskit_tree();
                let ghost given = update@;
                let mut tree = Tree::empty();
                let applied = tree.apply(update);
                *self = LazyTree { state: State::Constructed(tree) };
                let result = match applied {
                    Ok(_) => Ok(()),
                    Err(error) => Err(error),
                };
                assert(seed.gives(given) && self@ == LazyModel::<Init>::Constructed(built(given))
                    && result == build_result(given));
                result
            },
            State::Constructed(tree) => {
                proof {
                    use_type_invariant(&tree);
                }
                *self = LazyTree { state: State::Constructed(tree) };
                Ok(())
            },
        }
    }
}

} // verus!
