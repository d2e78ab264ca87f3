//! Which native notifications a change of the tree asks for.

use super::node::{PlatformNode, PlatformNodeView};
use crate::consumer::{TreeChange, TreeChangeView};
use crate::schema::content::models;
use crate::schema::{AttributeKind, Content, Node, NodeAttribute, NodeAttributeView, NodeView};
use vstd::prelude::*;
use vstd::std_specs::cmp::PartialEqSpecImpl;

verus! {

/// A property of an accessible object that clients can be told to read
/// again: one of the fixed fields of a node, or one kind of attribute.
#[derive(Clone, Copy, Debug, PartialEq, Eq, Hash, Structural)]
pub enum Property {
    Role,
    Bounds,
    ChildIds,
    State,
    Actions,
    Attribute(AttributeKind),
}

impl Content for Property {
    type Model = Property;

    open spec fn model(&self) -> Property {
        *self
    }

    fn same(&self, other: &Self) -> (r: bool) {
        *self == *other
    }

    fn duplicate(&self) -> (r: Self) {
        *self
    }
}

/// A native call that the window's adapter is to make.
#[derive(Clone, Copy, Debug, PartialEq, Eq, Hash, Structural)]
#[allow(inconsistent_fields)]
pub enum Notification {
    /// Raise the event that the focus is now on `target`.
    FocusChanged { target: PlatformNode },
    /// Raise the event that `property` of `target` is no longer what it was.
    PropertyChanged { target: PlatformNode, property: Property },
}

/// What a `Notification` stands for.
#[allow(inconsistent_fields)]
pub enum NotificationView {
    FocusChanged { target: PlatformNodeView },
    PropertyChanged { target: PlatformNodeView, property: Property },
}

impl View for Notification {
    type V = NotificationView;

    open spec fn view(&self) -> NotificationView {
        match self {
            Notification::FocusChanged { target } => NotificationView::FocusChanged {
                target: target@,
            },
            Notification::PropertyChanged { target, property } => NotificationView::PropertyChanged {
                target: target@,
                property: *property,
            },
        }
    }
}

impl Content for Notification {
    type Model = NotificationView;

    open spec fn model(&self) -> NotificationView {
        self@
    }

    fn same(&self, other: &Self) -> (r: bool) {
        *self == *other
    }

    fn duplicate(&self) -> (r: Self) {
        *self
    }
}

/// A change of the tree with the native calls that it asks for.
#[derive(Debug)]
pub struct Announcement {
    pub change: TreeChange,
    pub notifications: Vec<Notification>,
}

/// What an `Announcement` stands for.
pub struct AnnouncementView {
    pub change: TreeChangeView,
    pub notifications: Seq<NotificationView>,
}

impl View for Announcement {
    type V = AnnouncementView;

    open spec fn view(&self) -> AnnouncementView {
        AnnouncementView { change: self.change@, notifications: self.notifications.model() }
    }
}

impl Content for Announcement {
    type Model = AnnouncementView;

    open spec fn model(&self) -> AnnouncementView {
        self@
    }

    fn same(&self, other: &Self) -> (r: bool) {
        self.change.same(&other.change) && self.notifications.same(&other.notifications)
    }

    fn duplicate(&self) -> (r: Self) {
        Announcement {
            change: self.change.duplicate(),
            notifications: self.notifications.duplicate(),
        }
    }
}

impl Clone for Announcement {
    fn clone(&self) -> (r: Self)
        ensures
            r@ == self@,
    {
        self.duplicate()
    }
}

impl PartialEq for Announcement {
    fn eq(&self, other: &Self) -> (r: bool) {
        self.same(other)
    }
}

impl PartialEqSpecImpl for Announcement {
    open spec fn obeys_eq_spec() -> bool {
        true
    }

    open spec fn eq_spec(&self, other: &Self) -> bool {
        self@ == other@
    }
}

/// The attribute of the given kind: the first, where a list holds more than
/// one of a kind.
pub open spec fn attribute_of(attributes: Seq<NodeAttributeView>, kind: AttributeKind) -> Option<
    NodeAttributeView,
>
    decreases attributes.len(),
{
    if attributes.len() == 0 {
        None
    } else if attributes.first().kind == kind {
        Some(attributes.first())
    } else {
        attribute_of(attributes.drop_first(), kind)
    }
}

/// The kind of each attribute of a list.
pub open spec fn kinds_of(attributes: Seq<NodeAttributeView>) -> Seq<AttributeKind> {
    attributes.map_values(|attribute: NodeAttributeView| attribute.kind)
}

/// Whether two nodes differ in their attribute of the given kind: one has it
/// and the other has not, or it holds another value.
pub open spec fn differ_in(old_node: NodeView, new_node: NodeView, kind: AttributeKind) -> bool {
    attribute_of(old_node.attributes, kind) != attribute_of(new_node.attributes, kind)
}

/// The kinds of `kinds` in which two nodes differ, each once, in the order
/// in which `kinds` first names them.
pub open spec fn changed_kinds(
    kinds: Seq<AttributeKind>,
    old_node: NodeView,
    new_node: NodeView,
) -> Seq<AttributeKind>
    decreases kinds.len(),
{
    if kinds.len() == 0 {
        Seq::empty()
    } else {
        let before = changed_kinds(kinds.drop_last(), old_node, new_node);
        if !kinds.drop_last().contains(kinds.last()) && differ_in(
            old_node,
            new_node,
            kinds.last(),
        ) {
            before.push(kinds.last())
        } else {
            before
        }
    }
}

/// `property`, if `changed`.
pub open spec fn when(changed: bool, property: Property) -> Seq<Property> {
    if changed {
        seq![property]
    } else {
        Seq::empty()
    }
}

/// The fixed fields in which two states of a node differ.
pub open spec fn changed_fields(old_node: NodeView, new_node: NodeView) -> Seq<Property> {
    when(old_node.role != new_node.role, Property::Role) + when(
        old_node.bounds != new_node.bounds,
        Property::Bounds,
    ) + when(old_node.child_ids != new_node.child_ids, Property::ChildIds) + when(
        old_node.state != new_node.state,
        Property::State,
    ) + when(old_node.actions != new_node.actions, Property::Actions)
}

/// The kinds of attribute in which two states of a node differ, in the
/// order of the new node's attributes, followed by the kinds that only the
/// old node has.
pub open spec fn changed_attributes(old_node: NodeView, new_node: NodeView) -> Seq<
    AttributeKind,
> {
    changed_kinds(
        kinds_of(new_node.attributes) + kinds_of(old_node.attributes),
        old_node,
        new_node,
    )
}

/// The properties in which two states of a node differ: first the fixed
/// fields, then the kinds of attribute.
pub open spec fn changed_properties(old_node: NodeView, new_node: NodeView) -> Seq<Property> {
    changed_fields(old_node, new_node) + changed_attributes(old_node, new_node).map_values(
        |kind: AttributeKind| Property::Attribute(kind),
    )
}

/// The native calls that a change asks for: one for each property in which
/// a node's content changed, one for the focus where it is now on a node of
/// the tree, and none for a node that came or went.
pub open spec fn notifications_of(hwnd: isize, change: TreeChangeView) -> Seq<NotificationView> {
    match change {
        TreeChangeView::NodeUpdated { old_node, new_node } => changed_properties(
            old_node,
            new_node,
        ).map_values(
            |property: Property|
                NotificationView::PropertyChanged {
                    target: PlatformNodeView { hwnd, node_id: new_node.id },
                    property,
                },
        ),
        TreeChangeView::FocusMoved { old_node: _, new_node: Some(node) } => seq![
            NotificationView::FocusChanged { target: PlatformNodeView { hwnd, node_id: node.id } },
        ],
        _ => Seq::empty(),
    }
}

/// Each change with the native calls that it asks for.
pub open spec fn announced(hwnd: isize, changes: Seq<TreeChangeView>) -> Seq<AnnouncementView> {
    changes.map_values(
        |change: TreeChangeView|
            AnnouncementView { change, notifications: notifications_of(hwnd, change) },
    )
}

/// The attribute of the given kind, if the list has one.
pub fn find_attribute(attributes: &Vec<NodeAttribute>, kind: AttributeKind) -> (found: Option<
    &NodeAttribute,
>)
    ensures
        match found {
            Some(attribute) => attribute_of(attributes.model(), kind) == Some(attribute@),
            None => attribute_of(attributes.model(), kind) is None,
        },
{
    let ghost all = attributes.model();
    let mut i: usize = 0;
    assert(all.skip(0) =~= all);
    while i < attributes.len()
        invariant
            i <= attributes.len(),
            all == attributes.model(),
            attribute_of(all, kind) == attribute_of(all.skip(i as int), kind),
        decreases attributes.len() - i,
    {
        assert(all.skip(i as int).first() == attributes[i as int]@);
        if attributes[i].kind() == kind {
            return Some(&attributes[i]);
        }
        assert(all.skip(i as int).drop_first() =~= all.skip(i + 1));
        i += 1;
    }
    assert(all.skip(i as int).len() == 0);
    None
}

/// Whether the kind at `at` stands in the list before `at` too.
fn named_before(kinds: &Vec<AttributeKind>, at: usize) -> (r: bool)
    requires
        at < kinds.len(),
    ensures
        r == kinds@.take(at as int).contains(kinds@[at as int]),
{
    let mut i: usize = 0;
    while i < at
        invariant
            i <= at < kinds.len(),
            !kinds@.take(i as int).contains(kinds@[at as int]),
        decreases at - i,
    {
        if kinds[i] == kinds[at] {
            assert(kinds@.take(at as int)[i as int] == kinds@[at as int]);
            return true;
        }
        proof {
            crate::consumer::store::lemma_take_next_contains(kinds@, i as int, kinds@[at as int]);
        }
        i += 1;
    }
    false
}

/// Adds the kind of each attribute of `attributes` to `kinds`.
fn add_kinds(kinds: &mut Vec<AttributeKind>, attributes: &Vec<NodeAttribute>)
    ensures
        final(kinds)@ == old(kinds)@ + kinds_of(attributes.model()),
{
    let mut i: usize = 0;
    while i < attributes.len()
        invariant
            i <= attributes.len(),
            kinds@ == old(kinds)@ + kinds_of(attributes.model()).take(i as int),
        decreases attributes.len() - i,
    {
        let ghost before = kinds@;
        kinds.push(attributes[i].kind());
        proof {
            let all = kinds_of(attributes.model());
            assert(all.take(i + 1) =~= all.take(i as int).push(all[i as int]));
            assert(kinds@ =~= old(kinds)@ + all.take(i + 1));
        }
        i += 1;
    }
    proof {
        let all = kinds_of(attributes.model());
        assert(all.take(attributes.len() as int) =~= all);
    }
}

/// The fixed fields in which two states of a node differ.
fn fields_changed(old_node: &Node, new_node: &Node) -> (properties: Vec<Property>)
    ensures
        properties@ == changed_fields(old_node@, new_node@),
{
    let mut properties: Vec<Property> = Vec::new();
    if old_node.role != new_node.role {
        properties.push(Property::Role);
    }
    if !old_node.bounds.same(&new_node.bounds) {
        properties.push(Property::Bounds);
    }
    if !old_node.child_ids.same(&new_node.child_ids) {
        properties.push(Property::ChildIds);
    }
    if old_node.state != new_node.state {
        properties.push(Property::State);
    }
    if !old_node.actions.same(&new_node.actions) {
        properties.push(Property::Actions);
    }
    assert(properties@ =~= changed_fields(old_node@, new_node@));
    properties
}

/// Whether two nodes differ in their attribute of the given kind.
fn differ(old_node: &Node, new_node: &Node, kind: AttributeKind) -> (r: bool)
    ensures
        r == differ_in(old_node@, new_node@, kind),
{
    match find_attribute(&old_node.attributes, kind) {
        Some(old) => match find_attribute(&new_node.attributes, kind) {
            Some(new) => !old.same(new),
            None => true,
        },
        None => find_attribute(&new_node.attributes, kind).is_some(),
    }
}

/// The kinds of attribute in which two states of a node differ.
fn attributes_changed(old_node: &Node, new_node: &Node) -> (changed: Vec<AttributeKind>)
    ensures
        changed@ == changed_attributes(old_node@, new_node@),
{
    let mut kinds: Vec<AttributeKind> = Vec::new();
    add_kinds(&mut kinds, &new_node.attributes);
    add_kinds(&mut kinds, &old_node.attributes);
    assert(kinds@ =~= kinds_of(new_node@.attributes) + kinds_of(old_node@.attributes));
    let mut changed: Vec<AttributeKind> = Vec::new();
    let mut i: usize = 0;
    while i < kinds.len()
        invariant
            i <= kinds.len(),
            changed@ == changed_kinds(kinds@.take(i as int), old_node@, new_node@),
        decreases kinds.len() - i,
    {
        let kind = kinds[i];
        proof {
            assert(kinds@.take(i + 1).drop_last() =~= kinds@.take(i as int));
            assert(kinds@.take(i + 1).last() == kind);
        }
        if !named_before(&kinds, i) && differ(old_node, new_node, kind) {
            changed.push(kind);
        }
        i += 1;
    }
    assert(kinds@.take(kinds.len() as int) =~= kinds@);
    changed
}

/// The properties in which two states of a node differ.
pub fn properties_changed(old_node: &Node, new_node: &Node) -> (properties: Vec<Property>)
    ensures
        properties@ == changed_properties(old_node@, new_node@),
{
    let mut properties = fields_changed(old_node, new_node);
    let kinds = attributes_changed(old_node, new_node);
    let ghost fixed = properties@;
    let ghost wrap = |kind: AttributeKind| Property::Attribute(kind);
    let mut i: usize = 0;
    while i < kinds.len()
        invariant
            i <= kinds.len(),
            wrap == |kind: AttributeKind| Property::Attribute(kind),
            properties@ =~= fixed + kinds@.take(i as int).map_values(wrap),
        decreases kinds.len() - i,
    {
        properties.push(Property::Attribute(kinds[i]));
        i += 1;
    }
    assert(kinds@.take(kinds.len() as int) =~= kinds@);
    properties
}

/// The native calls that a change asks for.
pub fn notify(hwnd: isize, change: &TreeChange) -> (notifications: Vec<Notification>)
    ensures
        notifications.model() == notifications_of(hwnd, change@),
{
    match change {
        TreeChange::NodeUpdated { old_node, new_node } => {
            let properties = properties_changed(old_node, new_node);
            let target = PlatformNode::new(new_node, hwnd);
            let mut notifications: Vec<Notification> = Vec::new();
            let mut i: usize = 0;
            while i < properties.len()
                invariant
                    i <= properties.len(),
                    target@ == (PlatformNodeView { hwnd, node_id: new_node@.id }),
                    notifications.len() == i,
                    forall|j: int|
                        0 <= j < i ==> (#[trigger] notifications@[j])@
                            == (NotificationView::PropertyChanged {
                            target: target@,
                            property: properties@[j],
                        }),
                decreases properties.len() - i,
            {
                notifications.push(Notification::PropertyChanged { target, property: properties[i] });
                i += 1;
            }
            assert(notifications.model() =~= notifications_of(hwnd, change@));
            notifications
        },
        TreeChange::FocusMoved { old_node: _, new_node: Some(node) } => {
            let mut notifications: Vec<Notification> = Vec::new();
            notifications.push(Notification::FocusChanged { target: PlatformNode::new(node, hwnd) });
            assert(notifications.model() =~= notifications_of(hwnd, change@));
            notifications
        },
        _ => {
            let notifications: Vec<Notification> = Vec::new();
            assert(notifications.model() =~= notifications_of(hwnd, change@));
            notifications
        },
    }
}

/// Each change with the native calls that it asks for.
pub fn announce(hwnd: isize, changes: Vec<TreeChange>) -> (announcements: Vec<Announcement>)
    ensures
        announcements.model() == announced(hwnd, changes.model()),
{
    let ghost items = changes@;
    let mut announcements: Vec<Announcement> = Vec::new();
    for change in it: changes.into_iter()
        invariant
            it.seq() == items,
            announcements.len() == it.index(),
            forall|j: int|
                0 <= j < it.index() ==> (#[trigger] announcements@[j])@ == (AnnouncementView {
                    change: items[j]@,
                    notifications: notifications_of(hwnd, items[j]@),
                }),
    {
        let notifications = notify(hwnd, &change);
        announcements.push(Announcement { change, notifications });
    }
    assert(announcements.model() =~= announced(hwnd, models(items)));
    announcements
}

} // verus!
