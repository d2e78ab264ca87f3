use accesskit::consumer::{Tree, TreeChange, UpdateError};
use accesskit::platform::notify::{find_attribute, notify, properties_changed};
use accesskit::platform::query::{object_id, wants_root, OBJID_CLIENT, UIA_ROOT_OBJECT_ID};
use accesskit::platform::{
    Announcement, InitTree, LazyTree, Manager, Notification, PlatformNode, Property,
};
use accesskit::schema::{
    Action, AttributeKind, FloatBits, Node, NodeAttribute, NodeId, NodeState, Rect,
    RelativeBounds, Role, TreeUpdate,
};
use std::cell::Cell;

const HWND: isize = 0x0004_06a2;

fn id(value: u64) -> NodeId {
    NodeId::new(value).unwrap()
}

fn state() -> NodeState {
    NodeState {
        autofill_available: false,
        collapsed: false,
        expanded: false,
        default: false,
        editable: false,
        focusable: false,
        horizontal: false,
        vertical: false,
        hovered: false,
        ignored: false,
        invisible: false,
        linked: false,
        multiline: false,
        multiselectable: false,
        protected: false,
        required: false,
        richly_editable: false,
        visited: false,
        read_only: false,
        disabled: false,
    }
}

fn node(value: u64, children: &[u64]) -> Node {
    Node {
        id: id(value),
        role: Role::Group,
        bounds: None,
        child_ids: children.iter().map(|child| id(*child)).collect(),
        state: state(),
        actions: vec![],
        attributes: vec![],
    }
}

fn named(value: u64, children: &[u64], name: &str) -> Node {
    let mut node = node(value, children);
    node.attributes.push(NodeAttribute::Name(name.to_string()));
    node
}

fn data(focus: Option<u64>) -> accesskit::schema::Tree {
    accesskit::schema::Tree {
        id: "main".to_string(),
        parent_tree_id: None,
        focused_tree_id: None,
        focused_node_id: focus.map(id),
        root_scroller_id: None,
    }
}

fn update(nodes: Vec<Node>) -> TreeUpdate {
    TreeUpdate { node_id_to_clear: None, nodes, tree: None, root_id: None }
}

/// Root 1 with the children 2, named Foo, and 3; the focus on 2.
fn seed() -> TreeUpdate {
    TreeUpdate {
        node_id_to_clear: None,
        nodes: vec![node(1, &[2, 3]), named(2, &[], "Foo"), node(3, &[])],
        tree: Some(data(Some(2))),
        root_id: Some(id(1)),
    }
}

fn target(value: u64) -> PlatformNode {
    PlatformNode { hwnd: HWND, node_id: id(value) }
}

#[test]
fn renaming_announces_the_name_and_nothing_else() {
    let mut manager = Manager::new(HWND, seed());
    let announcements = manager.update(update(vec![named(2, &[], "Bar")])).unwrap();
    assert_eq!(
        announcements,
        vec![Announcement {
            change: TreeChange::NodeUpdated {
                old_node: named(2, &[], "Foo"),
                new_node: named(2, &[], "Bar"),
            },
            notifications: vec![Notification::PropertyChanged {
                target: target(2),
                property: Property::Attribute(AttributeKind::Name),
            }],
        }]
    );
}

#[test]
fn update_if_active_does_nothing_before_the_first_query() {
    let mut manager = Manager::new(HWND, seed());
    let called = Cell::new(false);
    let result = manager.update_if_active(|| {
        called.set(true);
        update(vec![named(2, &[], "Bar")])
    });
    assert_eq!(result, Ok(vec![]));
    assert!(!called.get());
    // The tree is still to be built: the next query builds it from the seed.
    assert_eq!(manager.handle_wm_getobject(0, OBJID_CLIENT as isize), Ok(Some(target(1))));
    let result = manager.update_if_active(|| {
        called.set(true);
        update(vec![named(2, &[], "Bar")])
    });
    assert!(called.get());
    let announcements = result.unwrap();
    assert_eq!(announcements.len(), 1);
    assert_eq!(
        announcements[0].change,
        TreeChange::NodeUpdated { old_node: named(2, &[], "Foo"), new_node: named(2, &[], "Bar") }
    );
}

#[test]
fn update_builds_the_tree_from_the_seed_first() {
    let mut manager = Manager::new(HWND, seed());
    let announcements = manager
        .update(TreeUpdate {
            node_id_to_clear: None,
            nodes: vec![],
            tree: Some(data(Some(3))),
            root_id: None,
        })
        .unwrap();
    assert_eq!(
        announcements,
        vec![Announcement {
            change: TreeChange::FocusMoved {
                old_node: Some(named(2, &[], "Foo")),
                new_node: Some(node(3, &[])),
            },
            notifications: vec![Notification::FocusChanged { target: target(3) }],
        }]
    );
}

#[test]
fn a_refused_seed_is_reported_once_and_leaves_an_empty_tree() {
    let mut manager = Manager::new(HWND, update(vec![node(1, &[])]));
    assert_eq!(manager.update(update(vec![])), Err(UpdateError::MissingRoot));
    // The tree is built, and empty: the next update may give it a root.
    assert_eq!(manager.handle_wm_getobject(0, UIA_ROOT_OBJECT_ID as isize), Ok(None));
    let announcements = manager
        .update(TreeUpdate {
            node_id_to_clear: None,
            nodes: vec![node(5, &[])],
            tree: None,
            root_id: Some(id(5)),
        })
        .unwrap();
    assert_eq!(
        announcements,
        vec![Announcement { change: TreeChange::NodeAdded(node(5, &[])), notifications: vec![] }]
    );
    assert_eq!(manager.handle_wm_getobject(0, UIA_ROOT_OBJECT_ID as isize), Ok(Some(target(5))));
}

#[test]
fn a_refused_update_is_reported_and_changes_nothing() {
    let mut manager = Manager::new(HWND, seed());
    assert_eq!(manager.update(update(vec![node(3, &[2])])), Err(UpdateError::ReparentedChild));
    assert_eq!(manager.update(update(vec![node(3, &[8])])), Err(UpdateError::DanglingChild));
    assert_eq!(manager.update(update(vec![named(2, &[], "Foo")])), Ok(vec![]));
}

#[test]
fn only_queries_for_the_root_are_answered() {
    let mut manager = Manager::new(HWND, seed());
    let called = Cell::new(false);
    // OBJID_WINDOW, OBJID_CARET, a child identifier: not for the tree.
    for lparam in [0isize, -8, 1, -1, 25, 4] {
        assert_eq!(manager.handle_wm_getobject(7, lparam), Ok(None));
    }
    // None of them built the tree.
    let result = manager.update_if_active(|| {
        called.set(true);
        update(vec![])
    });
    assert_eq!(result, Ok(vec![]));
    assert!(!called.get());
    assert_eq!(manager.handle_wm_getobject(7, -25), Ok(Some(target(1))));
    assert_eq!(manager.handle_wm_getobject(7, -4), Ok(Some(target(1))));
    assert_eq!(manager.handle_wm_getobject(7, 1), Ok(None));
}

#[test]
fn object_id_is_the_low_half_of_lparam() {
    assert_eq!(OBJID_CLIENT, -4);
    assert_eq!(UIA_ROOT_OBJECT_ID, -25);
    assert_eq!(object_id(-4), -4);
    assert_eq!(object_id(0), 0);
    assert_eq!(object_id(0x7fff_ffff), i32::MAX);
    if isize::BITS == 64 {
        // Senders that widen without the sign.
        let unsigned = 0xffff_fffc_u64 as isize;
        assert_eq!(object_id(unsigned), -4);
        assert!(wants_root(unsigned));
        assert_eq!(object_id(0x8000_0000_u64 as isize), i32::MIN);
        assert_eq!(object_id(0x0000_0001_ffff_ffe7_u64 as isize), -25);
        assert!(wants_root(0x0000_0001_ffff_ffe7_u64 as isize));
        assert_eq!(object_id(0x0000_0005_0000_0000_u64 as isize), 0);
        assert_eq!(object_id(isize::MIN), 0);
        assert_eq!(object_id(isize::MAX), -1);
    }
    assert!(wants_root(-4));
    assert!(wants_root(-25));
    assert!(!wants_root(-5));
    assert!(!wants_root(-24));
    assert!(!wants_root(0));
}

#[test]
fn each_changed_field_is_a_property() {
    let old = named(2, &[4], "Foo");
    let mut new = named(2, &[4, 5], "Foo");
    assert_eq!(properties_changed(&old, &old), vec![]);
    assert_eq!(properties_changed(&old, &new), vec![Property::ChildIds]);
    new.role = Role::Button;
    new.state.focusable = true;
    new.actions.push(Action::Focus);
    let zero = FloatBits { bits: 0 };
    new.bounds = Some(RelativeBounds {
        offset_container_id: None,
        bounds: Rect { left: zero, top: zero, width: zero, height: zero },
        transform: None,
    });
    assert_eq!(
        properties_changed(&old, &new),
        vec![Property::Role, Property::Bounds, Property::ChildIds, Property::State, Property::Actions]
    );
}

#[test]
fn attributes_are_compared_kind_by_kind() {
    let mut old = node(2, &[]);
    old.attributes = vec![
        NodeAttribute::Name("Foo".to_string()),
        NodeAttribute::Busy(true),
        NodeAttribute::Value("1".to_string()),
        NodeAttribute::Modal(false),
    ];
    let mut new = node(2, &[]);
    new.attributes = vec![
        NodeAttribute::Value("2".to_string()),
        NodeAttribute::Selected(true),
        NodeAttribute::Name("Foo".to_string()),
        NodeAttribute::Modal(false),
    ];
    // In the order of the new attributes, then what only the old node has.
    assert_eq!(
        properties_changed(&old, &new),
        vec![
            Property::Attribute(AttributeKind::Value),
            Property::Attribute(AttributeKind::Selected),
            Property::Attribute(AttributeKind::Busy),
        ]
    );
    // Of two attributes of a kind the first counts, and the kind is named once.
    new.attributes.push(NodeAttribute::Value("1".to_string()));
    old.attributes.push(NodeAttribute::Busy(false));
    assert_eq!(properties_changed(&old, &new).len(), 3);
    assert_eq!(find_attribute(&new.attributes, AttributeKind::Value), Some(&NodeAttribute::Value("2".to_string())));
    assert_eq!(find_attribute(&new.attributes, AttributeKind::Busy), None);
}

#[test]
fn nodes_that_come_and_go_ask_for_no_native_call() {
    assert_eq!(notify(HWND, &TreeChange::NodeAdded(node(2, &[]))), vec![]);
    assert_eq!(notify(HWND, &TreeChange::NodeRemoved(node(2, &[]))), vec![]);
    assert_eq!(
        notify(HWND, &TreeChange::FocusMoved { old_node: Some(node(2, &[])), new_node: None }),
        vec![]
    );
    assert_eq!(
        notify(HWND, &TreeChange::FocusMoved { old_node: None, new_node: Some(node(3, &[])) }),
        vec![Notification::FocusChanged { target: target(3) }]
    );
}

#[test]
fn lazy_tree_is_built_once() {
    let mut lazy = LazyTree::new(seed());
    assert!(lazy.get().is_none());
    assert!(lazy.apply(update(vec![])).is_none());
    assert!(lazy.get().is_none());
    assert_eq!(lazy.get_or_create(), Ok(()));
    assert_eq!(lazy.get().unwrap().read().root(), Some(&node(1, &[2, 3])));
    assert_eq!(
        lazy.apply(update(vec![named(2, &[], "Bar")])).unwrap().unwrap(),
        vec![TreeChange::NodeUpdated { old_node: named(2, &[], "Foo"), new_node: named(2, &[], "Bar") }]
    );
    // The seed is gone: asking again keeps the tree with what was done to it.
    assert_eq!(lazy.get_or_create(), Ok(()));
    assert_eq!(lazy.get().unwrap().read().node_by_id(id(2)), Some(&named(2, &[], "Bar")));
}

#[test]
fn a_platform_node_is_resolved_against_the_tree_as_it_is() {
    let mut tree = Tree::new(seed()).unwrap();
    let object = PlatformNode::new(&named(2, &[], "Foo"), HWND);
    assert_eq!(object, target(2));
    assert_eq!(object.resolve(&tree.read()), Some(&named(2, &[], "Foo")));
    tree.apply(update(vec![named(2, &[], "Bar")])).unwrap();
    assert_eq!(object.resolve(&tree.read()), Some(&named(2, &[], "Bar")));
    tree.apply(update(vec![node(1, &[3])])).unwrap();
    assert_eq!(object.resolve(&tree.read()), None);
}

#[test]
fn a_tree_update_is_its_own_seed() {
    assert_eq!(seed().init_accesskit_tree(), seed());
}
