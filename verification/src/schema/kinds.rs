//! The small enumerations that attributes hold.

use super::content::Content;
use vstd::prelude::*;
use vstd::std_specs::cmp::PartialEqSpecImpl;

verus! {

#[derive(Clone, Copy, Debug, PartialEq, Eq, Hash, Structural)]
pub enum NameFrom {
    /// E.g. `aria-label`.
    Attribute,
    AttributeExplicitlyEmpty,
    /// E.g. in the case of a table, from a `caption` element.
    Caption,
    Contents,
    /// E.g. from an HTML placeholder attribute on a text field.
    Placeholder,
    /// E.g. from a `figcaption` element in a figure.
    RelatedElement,
    /// E.g. `<input type="text" title="title">`.
    Title,
    /// E.g. `<input type="button" value="Button's name">`.
    Value,
}

impl Content for NameFrom {
    type Model = NameFrom;

    open spec fn model(&self) -> NameFrom {
        *self
    }

    fn same(&self, other: &Self) -> (r: bool) {
        *self == *other
    }

    fn duplicate(&self) -> (r: Self) {
        *self
    }
}

#[derive(Clone, Copy, Debug, PartialEq, Eq, Hash, Structural)]
pub enum DescriptionFrom {
    AriaDescription,
    /// HTML-AAM 5.2.2
    ButtonLabel,
    RelatedElement,
    RubyAnnotation,
    /// HTML-AAM 5.8.2
    Summary,
    /// HTML-AAM 5.9.2
    TableCaption,
    Title,
}

impl Content for DescriptionFrom {
    type Model = DescriptionFrom;

    open spec fn model(&self) -> DescriptionFrom {
        *self
    }

    fn same(&self, other: &Self) -> (r: bool) {
        *self == *other
    }

    fn duplicate(&self) -> (r: Self) {
        *self
    }
}

#[derive(Clone, Copy, Debug, PartialEq, Eq, Hash, Structural)]
pub enum MarkerType {
    SpellingError,
    GrammarError,
    SearchMatch,
    ActiveSuggestion,
    Suggestion,
}

impl Content for MarkerType {
    type Model = MarkerType;

    open spec fn model(&self) -> MarkerType {
        *self
    }

    fn same(&self, other: &Self) -> (r: bool) {
        *self == *other
    }

    fn duplicate(&self) -> (r: Self) {
        *self
    }
}

#[derive(Clone, Copy, Debug, PartialEq, Eq, Hash, Structural)]
pub enum TextDirection {
    LeftToRight,
    RightToLeft,
    TopToBottom,
    BottomToTop,
}

impl Content for TextDirection {
    type Model = TextDirection;

    open spec fn model(&self) -> TextDirection {
        *self
    }

    fn same(&self, other: &Self) -> (r: bool) {
        *self == *other
    }

    fn duplicate(&self) -> (r: Self) {
        *self
    }
}

/// Indicates if a form control has invalid input or if a web DOM element has
/// an aria-invalid attribute.
#[derive(Debug)]
pub enum InvalidState {
    False,
    True,
    Other(String),
}

pub enum InvalidStateView {
    False,
    True,
    Other(Seq<char>),
}

impl View for InvalidState {
    type V = InvalidStateView;

    open spec fn view(&self) -> InvalidStateView {
        match self {
            InvalidState::False => InvalidStateView::False,
            InvalidState::True => InvalidStateView::True,
            InvalidState::Other(s) => InvalidStateView::Other(s@),
        }
    }
}

impl Content for InvalidState {
    type Model = InvalidStateView;

    open spec fn model(&self) -> InvalidStateView {
        self@
    }

    fn same(&self, other: &Self) -> (r: bool) {
        match (self, other) {
            (InvalidState::False, InvalidState::False) => true,
            (InvalidState::True, InvalidState::True) => true,
            (InvalidState::Other(a), InvalidState::Other(b)) => a.same(b),
            _ => false,
        }
    }

    fn duplicate(&self) -> (r: Self) {
        match self {
            InvalidState::False => InvalidState::False,
            InvalidState::True => InvalidState::True,
            InvalidState::Other(s) => InvalidState::Other(s.duplicate()),
        }
    }
}

impl Clone for InvalidState {
    fn clone(&self) -> (r: Self)
        ensures
            r@ == self@,
    {
        self.duplicate()
    }
}

impl PartialEq for InvalidState {
    fn eq(&self, other: &Self) -> (r: bool) {
        self.same(other)
    }
}

impl PartialEqSpecImpl for InvalidState {
    open spec fn obeys_eq_spec() -> bool {
        true
    }

    open spec fn eq_spec(&self, other: &Self) -> bool {
        self@ == other@
    }
}

#[derive(Clone, Copy, Debug, PartialEq, Eq, Hash, Structural)]
pub enum CheckedState {
    False,
    True,
    Mixed,
}

impl Content for CheckedState {
    type Model = CheckedState;

    open spec fn model(&self) -> CheckedState {
        *self
    }

    fn same(&self, other: &Self) -> (r: bool) {
        *self == *other
    }

    fn duplicate(&self) -> (r: Self) {
        *self
    }
}

/// Describes the action that will be performed on a given node when
/// executing the default action, which is a click. In contrast to `Action`,
/// these describe what the user can do on the object, e.g. "press", not what
/// happens to the object as a result. Only one verb can be used at a time to
/// describe the default action.
#[derive(Clone, Copy, Debug, PartialEq, Eq, Hash, Structural)]
pub enum DefaultActionVerb {
    Activate,
    Check,
    Uncheck,
    Click,
    /// A click will be performed on one of the node's ancestors.
    /// This happens when the node itself is not clickable, but one of its
    /// ancestors has click handlers attached which are able to capture the click
    /// as it bubbles up.
    ClickAncestor,
    Jump,
    Open,
    Press,
    Select,
}

impl Content for DefaultActionVerb {
    type Model = DefaultActionVerb;

    open spec fn model(&self) -> DefaultActionVerb {
        *self
    }

    fn same(&self, other: &Self) -> (r: bool) {
        *self == *other
    }

    fn duplicate(&self) -> (r: Self) {
        *self
    }
}

#[derive(Clone, Copy, Debug, PartialEq, Eq, Hash, Structural)]
pub enum SortDirection {
    Unsorted,
    Ascending,
    Descending,
    Other,
}

impl Content for SortDirection {
    type Model = SortDirection;

    open spec fn model(&self) -> SortDirection {
        *self
    }

    fn same(&self, other: &Self) -> (r: bool) {
        *self == *other
    }

    fn duplicate(&self) -> (r: Self) {
        *self
    }
}

#[derive(Clone, Copy, Debug, PartialEq, Eq, Hash, Structural)]
pub enum AriaCurrent {
    False,
    True,
    Page,
    Step,
    Location,
    Date,
    Time,
}

impl Content for AriaCurrent {
    type Model = AriaCurrent;

    open spec fn model(&self) -> AriaCurrent {
        *self
    }

    fn same(&self, other: &Self) -> (r: bool) {
        *self == *other
    }

    fn duplicate(&self) -> (r: Self) {
        *self
    }
}

#[derive(Clone, Copy, Debug, PartialEq, Eq, Hash, Structural)]
pub enum HasPopup {
    True,
    Menu,
    Listbox,
    Tree,
    Grid,
    Dialog,
}

impl Content for HasPopup {
    type Model = HasPopup;

    open spec fn model(&self) -> HasPopup {
        *self
    }

    fn same(&self, other: &Self) -> (r: bool) {
        *self == *other
    }

    fn duplicate(&self) -> (r: Self) {
        *self
    }
}

#[derive(Clone, Copy, Debug, PartialEq, Eq, Hash, Structural)]
pub enum ListStyle {
    Circle,
    Disc,
    Image,
    Numeric,
    Square,
    /// Language specific ordering (alpha, roman, cjk-ideographic, etc...)
    Other,
}

impl Content for ListStyle {
    type Model = ListStyle;

    open spec fn model(&self) -> ListStyle {
        *self
    }

    fn same(&self, other: &Self) -> (r: bool) {
        *self == *other
    }

    fn duplicate(&self) -> (r: Self) {
        *self
    }
}

#[derive(Clone, Copy, Debug, PartialEq, Eq, Hash, Structural)]
pub enum TextAlign {
    Left,
    Right,
    Center,
    Justify,
}

impl Content for TextAlign {
    type Model = TextAlign;

    open spec fn model(&self) -> TextAlign {
        *self
    }

    fn same(&self, other: &Self) -> (r: bool) {
        *self == *other
    }

    fn duplicate(&self) -> (r: Self) {
        *self
    }
}

#[derive(Clone, Copy, Debug, PartialEq, Eq, Hash, Structural)]
pub enum VerticalOffset {
    Subscript,
    Superscript,
}

impl Content for VerticalOffset {
    type Model = VerticalOffset;

    open spec fn model(&self) -> VerticalOffset {
        *self
    }

    fn same(&self, other: &Self) -> (r: bool) {
        *self == *other
    }

    fn duplicate(&self) -> (r: Self) {
        *self
    }
}

#[derive(Clone, Copy, Debug, PartialEq, Eq, Hash, Structural)]
pub enum TextDecoration {
    Solid,
    Dotted,
    Dashed,
    Double,
    Wavy,
}

impl Content for TextDecoration {
    type Model = TextDecoration;

    open spec fn model(&self) -> TextDecoration {
        *self
    }

    fn same(&self, other: &Self) -> (r: bool) {
        *self == *other
    }

    fn duplicate(&self) -> (r: Self) {
        *self
    }
}

} // verus!
