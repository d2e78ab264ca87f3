//! The bridge of one window.

use super::init::InitTree;
use super::lazy::{build_result, built, LazyModel, LazyTree};
use super::node::{PlatformNode, PlatformNodeView};
use super::notify::{announce, announced, Announcement, AnnouncementView};
use super::query::{asks_for_root, wants_root};
use crate::consumer::rules::apply;
use crate::consumer::{TreeModel, UpdateError};
use crate::schema::{Content, TreeUpdate, TreeUpdateView};
use vstd::prelude::*;

verus! {

/// The bridge of one window: the window's handle and its tree, which is
/// built when the first query for it arrives, or with the first update that
/// is not to wait for one.
pub struct Manager<Init: InitTree = TreeUpdate> {
    hwnd: isize,
    tree: LazyTree<Init>,
}

/// What a `Manager` stands for.
pub struct ManagerModel<Init> {
    pub hwnd: isize,
    pub tree: LazyModel<Init>,
}

impl<Init: InitTree> View for Manager<Init> {
    type V = ManagerModel<Init>;

    closed spec fn view(&self) -> ManagerModel<Init> {
        ManagerModel { hwnd: self.hwnd, tree: self.tree@ }
    }
}

/// What a list of announcements, or the refusal in place of it, stands for.
pub open spec fn announcements_model(result: Result<Vec<Announcement>, UpdateError>) -> Result<
    Seq<AnnouncementView>,
    UpdateError,
> {
    match result {
        Ok(announcements) => Ok(announcements.model()),
        Err(error) => Err(error),
    }
}

/// What the answer to a query stands for.
pub open spec fn answer_model(result: Result<Option<PlatformNode>, UpdateError>) -> Result<
    Option<PlatformNodeView>,
    UpdateError,
> {
    match result {
        Ok(Some(node)) => Ok(Some(node@)),
        Ok(None) => Ok(None),
        Err(error) => Err(error),
    }
}

/// Whether an update of the built tree `tree` leaves `after` and returns
/// `result`: the tree and the changes that the rules give, each change with
/// its native calls, or `tree` itself and the reason of the refusal.
pub open spec fn updated<Init>(
    hwnd: isize,
    tree: TreeModel,
    update: TreeUpdateView,
    after: LazyModel<Init>,
    result: Result<Seq<AnnouncementView>, UpdateError>,
) -> bool {
    match apply(tree, update) {
        Ok((next, changes)) => after == LazyModel::<Init>::Constructed(next) && result == Ok::<
            Seq<AnnouncementView>,
            UpdateError,
        >(announced(hwnd, changes)),
        Err(error) => after == LazyModel::<Init>::Constructed(tree) && result == Err::<
            Seq<AnnouncementView>,
            UpdateError,
        >(error),
    }
}

/// Whether an update that first builds the tree from the update `seed`
/// leaves `after` and returns `result`. Where `seed` is refused the tree is
/// built empty, the refusal is returned, and the update is not applied.
pub open spec fn built_and_updated<Init>(
    hwnd: isize,
    seed: TreeUpdateView,
    update: TreeUpdateView,
    after: LazyModel<Init>,
    result: Result<Seq<AnnouncementView>, UpdateError>,
) -> bool {
    match apply(TreeModel::empty(), seed) {
        Ok((tree, _)) => updated(hwnd, tree, update, after, result),
        Err(error) => after == LazyModel::<Init>::Constructed(TreeModel::empty()) && result
            == Err::<Seq<AnnouncementView>, UpdateError>(error),
    }
}

/// The identity of the root of `tree` in the window `hwnd`, unless the tree
/// is empty.
pub open spec fn root_of(hwnd: isize, tree: TreeModel) -> Option<PlatformNodeView> {
    match tree.root {
        Some(root) => Some(PlatformNodeView { hwnd, node_id: root }),
        None => None,
    }
}

/// The answer to a query that first builds the tree from the update `seed`.
pub open spec fn first_answer(hwnd: isize, seed: TreeUpdateView) -> Result<
    Option<PlatformNodeView>,
    UpdateError,
> {
    match build_result(seed) {
        Ok(_) => Ok(root_of(hwnd, built(seed))),
        Err(error) => Err(error),
    }
}

impl<Init: InitTree> Manager<Init> {
    /// The bridge of the window `hwnd`. The tree is not built yet: `init`
    /// is kept for the moment when it is.
    pub fn new(hwnd: isize, init: Init) -> (manager: Self)
        ensures
            manager@ == (ManagerModel { hwnd, tree: LazyModel::Uninitialized(init) }),
    {
        Manager { hwnd, tree: LazyTree::new(init) }
    }

    /// Applies `update`, building the tree first if it is not built, and
    /// returns each change with the native calls that it asks for. A refused
    /// update leaves the tree as it was.
    pub fn update(&mut self, update: TreeUpdate) -> (result: Result<Vec<Announcement>, UpdateError>)
        ensures
            final(self)@.hwnd == old(self)@.hwnd,
            match old(self)@.tree {
                LazyModel::Constructed(tree) => updated(
                    old(self)@.hwnd,
                    tree,
                    update@,
                    final(self)@.tree,
                    announcements_model(result),
                ),
                LazyModel::Uninitialized(init) => exists|seed: TreeUpdateView|
                    init.gives(seed) && built_and_updated(
                        old(self)@.hwnd,
                        seed,
                        update@,
                        final(self)@.tree,
                        announcements_model(result),
                    ),
            },
    {
        let ghost before = self@;
        match self.tree.get_or_create() {
            Ok(()) => {},
            Err(error) => {
                return Err(error);
            },
        }
        let ghost middle = self@;
        let result = self.update_internal(update);
        proof {
            if let LazyModel::Uninitialized(init) = before.tree {
                let seed = choose|seed: TreeUpdateView|
                    init.gives(seed) && middle.tree == LazyModel::<Init>::Constructed(built(seed))
                        && Ok::<(), UpdateError>(()) == build_result(seed);
                assert(init.gives(seed) && built_and_updated(
                    before.hwnd,
                    seed,
                    update@,
                    self@.tree,
                    announcements_model(result),
                ));
            }
        }
        result
    }

    /// Applies the update that `updater` gives, if the tree is built. If it
    /// is not, no client has asked for it: then nothing is done, and
    /// `updater` is not called.
    pub fn update_if_active<F: FnOnce() -> TreeUpdate>(&mut self, updater: F) -> (result: Result<
        Vec<Announcement>,
        UpdateError,
    >)
        requires
            old(self)@.tree is Constructed ==> updater.requires(()),
        ensures
            final(self)@.hwnd == old(self)@.hwnd,
            match old(self)@.tree {
                LazyModel::Uninitialized(_) => final(self)@ == old(self)@ && announcements_model(
                    result,
                ) == Ok::<Seq<AnnouncementView>, UpdateError>(Seq::empty()),
                LazyModel::Constructed(tree) => exists|update: TreeUpdate|
                    updater.ensures((), update) && updated(
                        old(self)@.hwnd,
                        tree,
                        update@,
                        final(self)@.tree,
                        announcements_model(result),
                    ),
            },
    {
        if self.tree.get().is_none() {
            let nothing: Vec<Announcement> = Vec::new();
            assert(nothing.model() =~= Seq::empty());
            return Ok(nothing);
        }
        let update = updater();
        let ghost given = update;
        let result = self.update_internal(update);
        assert(updater.ensures((), given) && updated(
            old(self)@.hwnd,
            old(self)@.tree->Constructed_0,
            given@,
            self@.tree,
            announcements_model(result),
        ));
        result
    }

    /// Applies `update` to the tree, which is built.
    fn update_internal(&mut self, update: TreeUpdate) -> (result: Result<
        Vec<Announcement>,
        UpdateError,
    >)
        requires
            old(self)@.tree is Constructed,
        ensures
            final(self)@.hwnd == old(self)@.hwnd,
            updated(
                old(self)@.hwnd,
                old(self)@.tree->Constructed_0,
                update@,
                final(self)@.tree,
                announcements_model(result),
            ),
    {
        match self.tree.apply(update) {
            Some(Ok(changes)) => Ok(announce(self.hwnd, changes)),
            Some(Err(error)) => Err(error),
            None => Ok(Vec::new()),
        }
    }

    /// The identity of the root, if the tree is built and not empty.
    fn root_platform_node(&self) -> (root: Option<PlatformNode>)
        ensures
            match self@.tree {
                LazyModel::Constructed(tree) => answer_model(Ok(root)) == Ok::<
                    Option<PlatformNodeView>,
                    UpdateError,
                >(root_of(self@.hwnd, tree)),
                LazyModel::Uninitialized(_) => root is None,
            },
    {
        match self.tree.get() {
            Some(tree) => match tree.read().root() {
                Some(node) => Some(PlatformNode::new(node, self.hwnd)),
                None => None,
            },
            None => None,
        }
    }

    /// Answers the query that a window receives for its accessible object.
    /// A query for anything but the client area or the root accessible
    /// object gets no answer, and builds nothing: it is left to the window's
    /// default handling. Any other query builds the tree if it is not built,
    /// and is answered with the identity of the root, for which the caller
    /// returns the native provider. `wparam` takes no part in the answer; it
    /// goes to that native call with `lparam`.
    pub fn handle_wm_getobject(&mut self, wparam: usize, lparam: isize) -> (result: Result<
        Option<PlatformNode>,
        UpdateError,
    >)
        ensures
            final(self)@.hwnd == old(self)@.hwnd,
            !asks_for_root(lparam) ==> final(self)@ == old(self)@ && answer_model(result) == Ok::<
                Option<PlatformNodeView>,
                UpdateError,
            >(None),
            asks_for_root(lparam) ==> match old(self)@.tree {
                LazyModel::Constructed(tree) => final(self)@ == old(self)@ && answer_model(result)
                    == Ok::<Option<PlatformNodeView>, UpdateError>(root_of(old(self)@.hwnd, tree)),
                LazyModel::Uninitialized(init) => exists|seed: TreeUpdateView|
                    init.gives(seed) && final(self)@.tree == LazyModel::<Init>::Constructed(
                        built(seed),
                    ) && answer_model(result) == first_answer(old(self)@.hwnd, seed),
            },
    {
        if !wants_root(lparam) {
            return Ok(None);
        }
        let ghost before = self@;
        let built = self.tree.get_or_create();
        let result = match built {
            Ok(()) => Ok(self.root_platform_node()),
            Err(error) => Err(error),
        };
        proof {
            if let LazyModel::Uninitialized(init) = before.tree {
                let seed = choose|seed: TreeUpdateView|
                    init.gives(seed) && self@.tree == LazyModel::<Init>::Constructed(
                        super::lazy::built(seed),
                    ) && built == build_result(seed);
                assert(init.gives(seed) && answer_model(result) == first_answer(before.hwnd, seed));
            }
        }
        result
    }
}

} // verus!
