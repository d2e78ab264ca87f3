//! The boolean flags of a node, and the small records that attributes hold.

use super::content::Content;
use super::kinds::{MarkerType, TextDecoration};
use std::ops::Range;
use vstd::prelude::*;
use vstd::std_specs::cmp::PartialEqSpecImpl;

verus! {

/// The boolean state flags of a node.
#[derive(Clone, Copy, Debug, PartialEq, Eq, Structural)]
pub struct NodeState {
    pub autofill_available: bool,
    pub collapsed: bool,
    pub expanded: bool,
    pub default: bool,
    pub editable: bool,
    pub focusable: bool,
    /// Grows horizontally, e.g. most toolbars and separators.
    pub horizontal: bool,
    /// Grows vertically, e.g. menu or combo box.
    pub vertical: bool,
    pub hovered: bool,
    /// Skip over this node in the accessibility tree, but keep its subtree.
    pub ignored: bool,
    pub invisible: bool,
    pub linked: bool,
    pub multiline: bool,
    pub multiselectable: bool,
    pub protected: bool,
    pub required: bool,
    pub richly_editable: bool,
    pub visited: bool,
    /// Use for a textbox that allows focus/selection but not input.
    pub read_only: bool,
    /// Use for a control or group of controls that disallows input.
    pub disabled: bool,
}

impl Content for NodeState {
    type Model = NodeState;

    open spec fn model(&self) -> NodeState {
        *self
    }

    fn same(&self, other: &Self) -> (r: bool) {
        *self == *other
    }

    fn duplicate(&self) -> (r: Self) {
        *self
    }
}

/// Indicates what functions can be performed when a dragged object
/// is released on the drop target.
/// Note: aria-dropeffect is deprecated in WAI-ARIA 1.1.
#[derive(Clone, Copy, Debug, PartialEq, Eq, Structural)]
pub struct DropEffects {
    pub copy: bool,
    pub execute: bool,
    pub link: bool,
    pub move_: bool,
    pub popup: bool,
}

impl Content for DropEffects {
    type Model = DropEffects;

    open spec fn model(&self) -> DropEffects {
        *self
    }

    fn same(&self, other: &Self) -> (r: bool) {
        *self == *other
    }

    fn duplicate(&self) -> (r: Self) {
        *self
    }
}

/// How the text of a node is drawn.
#[derive(Clone, Copy, Debug, PartialEq, Eq, Structural)]
pub struct TextStyle {
    pub bold: bool,
    pub italic: bool,
    pub overline: Option<TextDecoration>,
    pub strikethrough: Option<TextDecoration>,
    pub underline: Option<TextDecoration>,
}

impl Content for TextStyle {
    type Model = TextStyle;

    open spec fn model(&self) -> TextStyle {
        *self
    }

    fn same(&self, other: &Self) -> (r: bool) {
        *self == *other
    }

    fn duplicate(&self) -> (r: Self) {
        *self
    }
}

/// A marker spanning a range within text.
#[derive(Debug)]
pub struct TextMarker {
    pub marker_type: MarkerType,
    /// Indices are in UTF-8 code units.
    pub range: Range<usize>,
}

pub struct TextMarkerView {
    pub marker_type: MarkerType,
    pub range: (usize, usize),
}

impl View for TextMarker {
    type V = TextMarkerView;

    open spec fn view(&self) -> TextMarkerView {
        TextMarkerView { marker_type: self.marker_type, range: self.range.model() }
    }
}

impl Content for TextMarker {
    type Model = TextMarkerView;

    open spec fn model(&self) -> TextMarkerView {
        self@
    }

    fn same(&self, other: &Self) -> (r: bool) {
        self.marker_type == other.marker_type && self.range.same(&other.range)
    }

    fn duplicate(&self) -> (r: Self) {
        TextMarker { marker_type: self.marker_type, range: self.range.duplicate() }
    }
}

impl Clone for TextMarker {
    fn clone(&self) -> (r: Self)
        ensures
            r@ == self@,
    {
        self.duplicate()
    }
}

impl PartialEq for TextMarker {
    fn eq(&self, other: &Self) -> (r: bool) {
        self.same(other)
    }
}

impl PartialEqSpecImpl for TextMarker {
    open spec fn obeys_eq_spec() -> bool {
        true
    }

    open spec fn eq_spec(&self, other: &Self) -> bool {
        self@ == other@
    }
}

/// Defines a custom action for a UI element. For example, a list UI can allow
/// a user to reorder items in the list by dragging the items.
#[derive(Debug)]
pub struct CustomAction {
    pub id: i32,
    pub description: String,
}

pub struct CustomActionView {
    pub id: i32,
    pub description: Seq<char>,
}

impl View for CustomAction {
    type V = CustomActionView;

    open spec fn view(&self) -> CustomActionView {
        CustomActionView { id: self.id, description: self.description@ }
    }
}

impl Content for CustomAction {
    type Model = CustomActionView;

    open spec fn model(&self) -> CustomActionView {
        self@
    }

    fn same(&self, other: &Self) -> (r: bool) {
        self.id == other.id && self.description.same(&other.description)
    }

    fn duplicate(&self) -> (r: Self) {
        CustomAction { id: self.id, description: self.description.duplicate() }
    }
}

impl Clone for CustomAction {
    fn clone(&self) -> (r: Self)
        ensures
            r@ == self@,
    {
        self.duplicate()
    }
}

impl PartialEq for CustomAction {
    fn eq(&self, other: &Self) -> (r: bool) {
        self.same(other)
    }
}

impl PartialEqSpecImpl for CustomAction {
    open spec fn obeys_eq_spec() -> bool {
        true
    }

    open spec fn eq_spec(&self, other: &Self) -> bool {
        self@ == other@
    }
}

} // verus!
