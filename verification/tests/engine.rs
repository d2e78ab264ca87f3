use accesskit::consumer::{Tree, TreeChange, UpdateError};
use accesskit::schema::{Node, NodeAttribute, NodeId, NodeState, Role, TreeUpdate};

fn id(value: u64) -> NodeId {
    NodeId::new(value).unwrap()
}

fn state() -> NodeState {
    NodeState {
        autofill_available: false,
        collapsed: false,
        expanded: false,
        default: false,
        editable: false,
        focusable: false,
        horizontal: false,
        vertical: false,
        hovered: false,
        ignored: false,
        invisible: false,
        linked: false,
        multiline: false,
        multiselectable: false,
        protected: false,
        required: false,
        richly_editable: false,
        visited: false,
        read_only: false,
        disabled: false,
    }
}

fn node(value: u64, children: &[u64]) -> Node {
    Node {
        id: id(value),
        role: Role::Group,
        bounds: None,
        child_ids: children.iter().map(|child| id(*child)).collect(),
        state: state(),
        actions: vec![],
        attributes: vec![],
    }
}

fn named(value: u64, children: &[u64], name: &str) -> Node {
    let mut node = node(value, children);
    node.attributes.push(NodeAttribute::Name(name.to_string()));
    node
}

fn data(focus: Option<u64>) -> accesskit::schema::Tree {
    accesskit::schema::Tree {
        id: "main".to_string(),
        parent_tree_id: None,
        focused_tree_id: None,
        focused_node_id: focus.map(id),
        root_scroller_id: None,
    }
}

fn update(nodes: Vec<Node>) -> TreeUpdate {
    TreeUpdate { node_id_to_clear: None, nodes, tree: None, root_id: None }
}

/// Root 1 with children 2 and 3, and 4 below 2; the focus on 2.
fn sample() -> Tree {
    Tree::new(TreeUpdate {
        node_id_to_clear: None,
        nodes: vec![node(1, &[2, 3]), named(2, &[4], "Foo"), node(3, &[]), node(4, &[])],
        tree: Some(data(Some(2))),
        root_id: Some(id(1)),
    })
    .unwrap()
}

fn ids(tree: &Tree, range: std::ops::RangeInclusive<u64>) -> Vec<u64> {
    range.filter(|value| tree.read().node_by_id(id(*value)).is_some()).collect()
}

#[test]
fn empty_tree_has_no_root() {
    let tree = Tree::empty();
    assert!(tree.read().root().is_none());
    assert!(tree.read().node_by_id(id(1)).is_none());
}

#[test]
fn first_update_builds_the_tree() {
    let mut tree = Tree::empty();
    let changes = tree
        .apply(TreeUpdate {
            node_id_to_clear: None,
            nodes: vec![node(1, &[2, 3]), node(2, &[]), node(3, &[])],
            tree: Some(data(Some(3))),
            root_id: Some(id(1)),
        })
        .unwrap();
    assert_eq!(
        changes,
        vec![
            TreeChange::NodeAdded(node(1, &[2, 3])),
            TreeChange::NodeAdded(node(2, &[])),
            TreeChange::NodeAdded(node(3, &[])),
            TreeChange::FocusMoved { old_node: None, new_node: Some(node(3, &[])) },
        ]
    );
    assert_eq!(tree.read().root(), Some(&node(1, &[2, 3])));
    assert_eq!(tree.read().node_by_id(id(3)), Some(&node(3, &[])));
    assert_eq!(tree.read().node_by_id(id(4)), None);
}

#[test]
fn restating_nodes_changes_nothing() {
    let mut tree = sample();
    let changes = tree
        .apply(TreeUpdate {
            node_id_to_clear: None,
            nodes: vec![named(2, &[4], "Foo"), node(1, &[2, 3]), node(4, &[])],
            tree: Some(data(Some(2))),
            root_id: Some(id(1)),
        })
        .unwrap();
    assert_eq!(changes, vec![]);
    assert_eq!(ids(&tree, 1..=9), vec![1, 2, 3, 4]);
    assert_eq!(tree.apply(update(vec![])).unwrap(), vec![]);
}

#[test]
fn every_node_hangs_below_the_root_after_each_update() {
    let mut tree = sample();
    // 2 leaves the root's list: 2 and 4 below it go.
    let changes = tree.apply(update(vec![node(1, &[3])])).unwrap();
    assert_eq!(
        changes,
        vec![
            TreeChange::NodeUpdated { old_node: node(1, &[2, 3]), new_node: node(1, &[3]) },
            TreeChange::NodeRemoved(named(2, &[4], "Foo")),
            TreeChange::NodeRemoved(node(4, &[])),
        ]
    );
    assert_eq!(ids(&tree, 1..=9), vec![1, 3]);
    assert_eq!(tree.read().root(), Some(&node(1, &[3])));
    // What left is new again.
    let changes = tree.apply(update(vec![node(3, &[4]), node(4, &[2]), node(2, &[])])).unwrap();
    assert_eq!(changes.len(), 3);
    assert_eq!(ids(&tree, 1..=9), vec![1, 2, 3, 4]);
}

#[test]
fn reparenting_is_refused() {
    let mut tree = sample();
    let before = ids(&tree, 1..=9);
    assert_eq!(tree.apply(update(vec![node(3, &[4])])), Err(UpdateError::ReparentedChild));
    assert_eq!(tree.apply(update(vec![node(3, &[1])])), Err(UpdateError::ReparentedChild));
    assert_eq!(tree.apply(update(vec![node(3, &[3])])), Err(UpdateError::ReparentedChild));
    // Dropping it from the old parent in the same update does not help.
    assert_eq!(
        tree.apply(update(vec![named(2, &[], "Foo"), node(3, &[4])])),
        Err(UpdateError::ReparentedChild)
    );
    assert_eq!(ids(&tree, 1..=9), before);
    assert_eq!(tree.read().node_by_id(id(2)), Some(&named(2, &[4], "Foo")));
}

#[test]
fn dangling_child_is_refused() {
    let mut tree = sample();
    assert_eq!(tree.apply(update(vec![node(3, &[7])])), Err(UpdateError::DanglingChild));
    assert_eq!(tree.read().node_by_id(id(3)), Some(&node(3, &[])));
    assert_eq!(
        tree.apply(update(vec![node(3, &[7, 8]), node(7, &[])])),
        Err(UpdateError::DanglingChild)
    );
    assert_eq!(ids(&tree, 1..=9), vec![1, 2, 3, 4]);
}

#[test]
fn a_refused_update_leaves_the_tree_as_it_was() {
    let mut tree = sample();
    assert_eq!(
        tree.apply(TreeUpdate {
            node_id_to_clear: None,
            nodes: vec![named(2, &[4], "Bar"), node(3, &[5]), node(5, &[]), node(9, &[])],
            tree: Some(data(Some(3))),
            root_id: None,
        }),
        Err(UpdateError::UnknownNode)
    );
    assert_eq!(tree.read().node_by_id(id(2)), Some(&named(2, &[4], "Foo")));
    assert_eq!(ids(&tree, 1..=9), vec![1, 2, 3, 4]);
    // The focus is where it was: the same data again moves nothing.
    let changes = tree
        .apply(TreeUpdate { node_id_to_clear: None, nodes: vec![], tree: Some(data(Some(2))), root_id: None })
        .unwrap();
    assert_eq!(changes, vec![]);
}

#[test]
fn each_violation_has_its_error() {
    assert_eq!(Tree::new(update(vec![node(1, &[])])).err(), Some(UpdateError::MissingRoot));
    assert_eq!(
        Tree::new(TreeUpdate {
            node_id_to_clear: None,
            nodes: vec![],
            tree: None,
            root_id: Some(id(1)),
        })
        .err(),
        Some(UpdateError::MissingRoot)
    );
    assert_eq!(
        Tree::new(TreeUpdate {
            node_id_to_clear: None,
            nodes: vec![node(2, &[])],
            tree: None,
            root_id: Some(id(1)),
        })
        .err(),
        Some(UpdateError::UnknownNode)
    );
    let mut tree = sample();
    assert_eq!(tree.apply(update(vec![node(9, &[])])), Err(UpdateError::UnknownNode));
    assert_eq!(tree.apply(update(vec![node(3, &[5, 5]), node(5, &[])])), Err(UpdateError::DuplicateChild));
    assert_eq!(tree.apply(update(vec![node(1, &[2, 3, 2])])), Err(UpdateError::DuplicateChild));
    assert_eq!(
        tree.apply(TreeUpdate { node_id_to_clear: Some(id(9)), nodes: vec![], tree: None, root_id: None }),
        Err(UpdateError::ClearedNodeNotInTree)
    );
    assert_eq!(
        tree.apply(TreeUpdate { node_id_to_clear: Some(id(2)), nodes: vec![], tree: None, root_id: None }),
        Err(UpdateError::ClearedNodeNotUpdated)
    );
    assert_eq!(
        tree.apply(TreeUpdate {
            node_id_to_clear: None,
            nodes: vec![],
            tree: None,
            root_id: Some(id(9)),
        }),
        Err(UpdateError::MissingRoot)
    );
    assert_eq!(ids(&tree, 1..=9), vec![1, 2, 3, 4]);
}

#[test]
fn focus_move_alone_is_one_change() {
    let mut tree = sample();
    let changes = tree
        .apply(TreeUpdate { node_id_to_clear: None, nodes: vec![], tree: Some(data(Some(3))), root_id: None })
        .unwrap();
    assert_eq!(
        changes,
        vec![TreeChange::FocusMoved {
            old_node: Some(named(2, &[4], "Foo")),
            new_node: Some(node(3, &[])),
        }]
    );
}

#[test]
fn focus_on_a_missing_node_resolves_to_absent() {
    let mut tree = sample();
    let changes = tree
        .apply(TreeUpdate { node_id_to_clear: None, nodes: vec![], tree: Some(data(Some(9))), root_id: None })
        .unwrap();
    assert_eq!(
        changes,
        vec![TreeChange::FocusMoved { old_node: Some(named(2, &[4], "Foo")), new_node: None }]
    );
    let changes = tree
        .apply(TreeUpdate { node_id_to_clear: None, nodes: vec![], tree: Some(data(None)), root_id: None })
        .unwrap();
    assert_eq!(changes, vec![TreeChange::FocusMoved { old_node: None, new_node: None }]);
}

#[test]
fn focus_leaving_for_another_tree_has_no_new_node() {
    let mut tree = sample();
    let mut elsewhere = data(Some(3));
    elsewhere.focused_tree_id = Some("frame".to_string());
    let changes = tree
        .apply(TreeUpdate { node_id_to_clear: None, nodes: vec![], tree: Some(elsewhere), root_id: None })
        .unwrap();
    assert_eq!(
        changes,
        vec![TreeChange::FocusMoved { old_node: Some(named(2, &[4], "Foo")), new_node: None }]
    );
}

#[test]
fn renaming_a_node_is_one_content_change() {
    let mut tree = sample();
    let changes = tree.apply(update(vec![named(2, &[4], "Bar")])).unwrap();
    assert_eq!(
        changes,
        vec![TreeChange::NodeUpdated {
            old_node: named(2, &[4], "Foo"),
            new_node: named(2, &[4], "Bar"),
        }]
    );
    assert_eq!(tree.read().node_by_id(id(2)), Some(&named(2, &[4], "Bar")));
}

#[test]
fn clearing_removes_what_is_not_restated() {
    // Root 1 with children 2 and 3.
    let mut tree = Tree::new(TreeUpdate {
        node_id_to_clear: None,
        nodes: vec![node(1, &[2, 3]), node(2, &[]), node(3, &[])],
        tree: None,
        root_id: Some(id(1)),
    })
    .unwrap();
    let changes = tree
        .apply(TreeUpdate {
            node_id_to_clear: Some(id(1)),
            nodes: vec![node(1, &[3]), node(3, &[])],
            tree: None,
            root_id: None,
        })
        .unwrap();
    let removed: Vec<&TreeChange> =
        changes.iter().filter(|change| matches!(change, TreeChange::NodeRemoved(_))).collect();
    assert_eq!(removed, vec![&TreeChange::NodeRemoved(node(2, &[]))]);
    assert_eq!(
        changes,
        vec![
            TreeChange::NodeUpdated { old_node: node(1, &[2, 3]), new_node: node(1, &[3]) },
            TreeChange::NodeRemoved(node(2, &[])),
        ]
    );
    assert_eq!(ids(&tree, 1..=9), vec![1, 3]);
}

#[test]
fn clearing_and_restating_everything_changes_nothing() {
    let mut tree = sample();
    let changes = tree
        .apply(TreeUpdate {
            node_id_to_clear: Some(id(1)),
            nodes: vec![node(1, &[2, 3]), named(2, &[4], "Foo"), node(3, &[]), node(4, &[])],
            tree: None,
            root_id: None,
        })
        .unwrap();
    assert_eq!(changes, vec![]);
    assert_eq!(ids(&tree, 1..=9), vec![1, 2, 3, 4]);
}

#[test]
fn cleared_children_must_be_restated() {
    let mut tree = sample();
    assert_eq!(
        tree.apply(TreeUpdate {
            node_id_to_clear: Some(id(1)),
            nodes: vec![node(1, &[2, 3]), node(3, &[])],
            tree: None,
            root_id: None,
        }),
        Err(UpdateError::DanglingChild)
    );
}

#[test]
fn a_cleared_node_may_come_back_elsewhere_or_changed() {
    let mut tree = sample();
    // 4 was below 2; after the clearing of 1 it may hang below 3.
    let changes = tree
        .apply(TreeUpdate {
            node_id_to_clear: Some(id(1)),
            nodes: vec![node(1, &[3]), node(3, &[4]), named(4, &[], "Moved")],
            tree: None,
            root_id: None,
        })
        .unwrap();
    assert_eq!(
        changes,
        vec![
            TreeChange::NodeUpdated { old_node: node(1, &[2, 3]), new_node: node(1, &[3]) },
            TreeChange::NodeAdded(node(3, &[4])),
            TreeChange::NodeAdded(named(4, &[], "Moved")),
            TreeChange::NodeRemoved(named(2, &[4], "Foo")),
            TreeChange::NodeRemoved(node(3, &[])),
            TreeChange::NodeRemoved(node(4, &[])),
        ]
    );
    assert_eq!(ids(&tree, 1..=9), vec![1, 3, 4]);
}

#[test]
fn removals_come_by_ascending_identifier() {
    let mut tree = Tree::new(TreeUpdate {
        node_id_to_clear: None,
        nodes: vec![node(10, &[7, 3, 9]), node(7, &[2]), node(3, &[]), node(9, &[]), node(2, &[])],
        tree: None,
        root_id: Some(id(10)),
    })
    .unwrap();
    let changes = tree.apply(update(vec![node(10, &[])])).unwrap();
    assert_eq!(
        changes,
        vec![
            TreeChange::NodeUpdated { old_node: node(10, &[7, 3, 9]), new_node: node(10, &[]) },
            TreeChange::NodeRemoved(node(2, &[])),
            TreeChange::NodeRemoved(node(3, &[])),
            TreeChange::NodeRemoved(node(7, &[2])),
            TreeChange::NodeRemoved(node(9, &[])),
        ]
    );
}

#[test]
fn the_root_may_change_to_a_node_of_the_tree() {
    let mut tree = sample();
    let changes = tree
        .apply(TreeUpdate { node_id_to_clear: None, nodes: vec![], tree: None, root_id: Some(id(2)) })
        .unwrap();
    assert_eq!(
        changes,
        vec![TreeChange::NodeRemoved(node(1, &[2, 3])), TreeChange::NodeRemoved(node(3, &[]))]
    );
    assert_eq!(tree.read().root(), Some(&named(2, &[4], "Foo")));
    assert_eq!(ids(&tree, 1..=9), vec![2, 4]);
}

#[test]
fn a_node_defined_twice_is_compared_each_time() {
    let mut tree = sample();
    let changes = tree.apply(update(vec![named(3, &[], "a"), named(3, &[], "b"), node(3, &[])])).unwrap();
    assert_eq!(
        changes,
        vec![
            TreeChange::NodeUpdated { old_node: node(3, &[]), new_node: named(3, &[], "a") },
            TreeChange::NodeUpdated { old_node: named(3, &[], "a"), new_node: named(3, &[], "b") },
            TreeChange::NodeUpdated { old_node: named(3, &[], "b"), new_node: node(3, &[]) },
        ]
    );
}
