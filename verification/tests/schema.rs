use accesskit::schema::{
    Action, Content, FloatBits, InvalidState, Node, NodeAttribute, NodeId, NodeState, Rect,
    RelativeBounds, Role, Transform,
};

fn id(value: u64) -> NodeId {
    NodeId::new(value).unwrap()
}

fn state() -> NodeState {
    NodeState {
        autofill_available: false,
        collapsed: false,
        expanded: false,
        default: false,
        editable: false,
        focusable: false,
        horizontal: false,
        vertical: false,
        hovered: false,
        ignored: false,
        invisible: false,
        linked: false,
        multiline: false,
        multiselectable: false,
        protected: false,
        required: false,
        richly_editable: false,
        visited: false,
        read_only: false,
        disabled: false,
    }
}

fn node(value: u64, children: Vec<u64>, name: &str) -> Node {
    Node {
        id: id(value),
        role: Role::Button,
        bounds: None,
        child_ids: children.into_iter().map(id).collect(),
        state: state(),
        actions: vec![Action::Focus],
        attributes: vec![NodeAttribute::Name(name.to_string())],
    }
}

#[test]
fn node_id_is_never_zero() {
    assert!(NodeId::new(0).is_none());
    assert_eq!(NodeId::new(7).unwrap().get(), 7);
    assert_eq!(NodeId::new(u64::MAX).unwrap().get(), u64::MAX);
}

#[test]
fn nodes_compare_field_by_field() {
    let a = node(1, vec![2, 3], "Foo");
    assert_eq!(a, a.clone());
    assert!(a.same(&a.duplicate()));
    assert_ne!(a, node(1, vec![2, 3], "Bar"));
    assert_ne!(a, node(1, vec![3, 2], "Foo"));
    assert_ne!(a, node(2, vec![2, 3], "Foo"));
    let mut b = a.clone();
    b.state.focusable = true;
    assert_ne!(a, b);
}

#[test]
fn attributes_compare_by_kind_and_value() {
    assert_eq!(NodeAttribute::Name("x".to_string()), NodeAttribute::Name("x".to_string()));
    assert_ne!(NodeAttribute::Name("x".to_string()), NodeAttribute::Value("x".to_string()));
    assert_ne!(NodeAttribute::Busy(true), NodeAttribute::Modal(true));
    assert_ne!(NodeAttribute::ScrollX(FloatBits { bits: 1.0f32.to_bits() }),
        NodeAttribute::ScrollX(FloatBits { bits: 2.0f32.to_bits() }));
    assert_eq!(NodeAttribute::Words(vec![0..3, 4..9]), NodeAttribute::Words(vec![0..3, 4..9]));
    assert_ne!(NodeAttribute::Words(vec![0..3, 4..9]), NodeAttribute::Words(vec![0..3]));
    assert_eq!(
        NodeAttribute::InvalidState(InvalidState::Other("spelling".to_string())),
        NodeAttribute::InvalidState(InvalidState::Other("spelling".to_string()))
    );
    assert_ne!(
        NodeAttribute::InvalidState(InvalidState::Other("spelling".to_string())),
        NodeAttribute::InvalidState(InvalidState::True)
    );
}

#[test]
fn bounds_compare_by_bits() {
    let unit = FloatBits { bits: 1.0f32.to_bits() };
    let zero = FloatBits { bits: 0.0f32.to_bits() };
    let rect = Rect { left: zero, top: zero, width: unit, height: unit };
    let mut matrix = [zero; 16];
    matrix[0] = unit;
    let a = RelativeBounds {
        offset_container_id: Some(id(4)),
        bounds: rect,
        transform: Some(Box::new(Transform { matrix })),
    };
    assert_eq!(a, a.clone());
    let mut other = matrix;
    other[15] = unit;
    let b = RelativeBounds {
        offset_container_id: Some(id(4)),
        bounds: rect,
        transform: Some(Box::new(Transform { matrix: other })),
    };
    assert_ne!(a, b);
    let c = RelativeBounds { offset_container_id: None, bounds: rect, transform: None };
    assert_ne!(a, c);
}
