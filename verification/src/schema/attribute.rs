//! The typed attributes of a node.

use super::content::Content;
use super::geometry::FloatBits;
use super::id::NodeId;
use super::kinds::{
    AriaCurrent, CheckedState, DefaultActionVerb, DescriptionFrom, HasPopup, InvalidState,
    InvalidStateView, ListStyle, NameFrom, SortDirection, TextAlign, TextDirection,
    VerticalOffset,
};
use super::state::{
    CustomAction, CustomActionView, DropEffects, TextMarker, TextMarkerView, TextStyle,
};
use std::ops::Range;
use vstd::prelude::*;
use vstd::std_specs::cmp::PartialEqSpecImpl;

verus! {

/// One attribute of a node. Each kind should appear at most once per node.
#[derive(Debug)]
pub enum NodeAttribute {
    Name(String),
    /// What information was used to compute the object's name.
    NameFrom(NameFrom),
    Description(String),
    /// What information was used to compute the object's description.
    DescriptionFrom(DescriptionFrom),
    Value(String),
    Busy(bool),
    /// The object functions as a text field which exposes its descendants.
    /// Use cases include the root of a content-editable region, an ARIA
    /// textbox which isn't currently editable and which has interactive
    /// descendants, and a <body> element that has "design-mode" set to "on".
    NonatomicTextFieldRoot(bool),
    ContainerLiveAtomic(bool),
    ContainerLiveBusy(bool),
    LiveAtomic(bool),
    /// If a dialog box is marked as explicitly modal
    Modal(bool),
    /// Set on a canvas element if it has fallback content.
    CanvasHasFallback(bool),
    /// Indicates this node is user-scrollable, e.g. overflow:scroll|auto, as
    /// opposed to only programmatically scrollable, like overflow:hidden, or
    /// not scrollable at all, e.g. overflow:visible.
    Scrollable(bool),
    /// A hint to clients that the node is clickable.
    Clickable(bool),
    /// Indicates that this node clips its children, i.e. may have
    /// overflow: hidden or clip children by default.
    ClipsChildren(bool),
    /// Indicates that this node is not selectable because the style has
    /// user-select: none. Note that there may be other reasons why a node is
    /// not selectable - for example, bullets in a list. However, this attribute
    /// is only set on user-select: none.
    NotUserSelectableStyle(bool),
    /// Indicates whether this node is selected or unselected.
    /// The absence of this flag (as opposed to a false setting)
    /// means that the concept of "selected" doesn't apply.
    /// When deciding whether to set the flag to false or omit it,
    /// consider whether it would be appropriate for a screen reader
    /// to announce "not selected". The ambiguity of this flag
    /// in platform accessibility APIs has made extraneous
    /// "not selected" announcements a common annoyance.
    Selected(bool),
    /// Indicates whether this node is selected due to selection follows focus.
    SelectedFromFocus(bool),
    /// Indicates whether this node can be grabbed for drag-and-drop operation.
    /// Setting this flag to false rather than omitting it means that
    /// this node is not currently grabbed but it can be.
    /// Note: aria-grabbed is deprecated in WAI-ARIA 1.1.
    Grabbed(bool),
    DropEffects(DropEffects),
    /// Indicates whether this node causes a hard line-break
    /// (e.g. block level elements, or <br>)
    IsLineBreakingObject(bool),
    /// Indicates whether this node causes a page break
    IsPageBreakingObject(bool),
    /// True if the node has any ARIA attributes set.
    HasAriaAttribute(bool),
    /// This element allows touches to be passed through when a screen reader
    /// is in touch exploration mode, e.g. a virtual keyboard normally
    /// behaves this way.
    TouchPassThrough(bool),
    /// Ids of nodes that are children of this node logically, but are
    /// not children of this node in the tree structure. As an example,
    /// a table cell is a child of a row, and an 'indirect' child of a
    /// column.
    IndirectChildIds(Vec<NodeId>),
    ActiveDescendantId(NodeId),
    ErrorMessageId(NodeId),
    InPageLinkTargetId(NodeId),
    MemberOfId(NodeId),
    NextOnLineId(NodeId),
    PreviousOnLineId(NodeId),
    PopupForId(NodeId),
    ControlsIds(Vec<NodeId>),
    DetailsIds(Vec<NodeId>),
    DescribedByIds(Vec<NodeId>),
    FlowToIds(Vec<NodeId>),
    LabelledByIds(Vec<NodeId>),
    RadioGroupIds(Vec<NodeId>),
    Markers(Vec<TextMarker>),
    TextDirection(TextDirection),
    CharacterOffsets(Vec<FloatBits>),
    /// For inline text. The UTF-8 code unit indices of each word.
    Words(Vec<Range<usize>>),
    CustomActions(Vec<CustomAction>),
    AccessKey(String),
    InvalidState(InvalidState),
    AutoComplete(String),
    CheckedState(CheckedState),
    CheckedStateDescription(String),
    ChildTreeId(String),
    ClassName(String),
    ContainerLiveRelevant(String),
    ContainerLiveStatus(String),
    CssDisplay(String),
    /// Only present when different from parent.
    FontFamily(String),
    HtmlTag(String),
    InnerHtml(String),
    InputType(String),
    KeyShortcuts(String),
    /// Only present when different from parent.
    Language(String),
    LiveRelevant(String),
    LiveStatus(String),
    Placeholder(String),
    CustomRole(String),
    RoleDescription(String),
    Tooltip(String),
    Url(String),
    DefaultActionVerb(DefaultActionVerb),
    ScrollX(FloatBits),
    ScrollXMin(FloatBits),
    ScrollXMax(FloatBits),
    ScrollY(FloatBits),
    ScrollYMin(FloatBits),
    ScrollYMax(FloatBits),
    /// The endpoints of a text selection, in UTF-8 code units.
    TextSelection(Range<usize>),
    AriaColumnCount(usize),
    AriaCellColumnIndex(usize),
    AriaCellColumnSpan(usize),
    AriaRowCount(usize),
    AriaCellRowIndex(usize),
    AriaCellRowSpan(usize),
    TableRowCount(usize),
    TableColumnCount(usize),
    TableHeaderId(NodeId),
    TableRowIndex(usize),
    TableRowHeaderId(NodeId),
    TableColumnIndex(usize),
    TableColumnHeaderId(NodeId),
    TableCellColumnIndex(usize),
    TableCellColumnSpan(usize),
    TableCellRowIndex(usize),
    TableCellRowSpan(usize),
    SortDirection(SortDirection),
    /// Tree control attributes.
    HierarchicalLevel(usize),
    SetSize(usize),
    PosInSet(usize),
    ColorValue(u32),
    AriaCurrent(AriaCurrent),
    /// Background color in RGBA.
    BackgroundColor(u32),
    /// Foreground color in RGBA.
    ForegroundColor(u32),
    HasPopup(HasPopup),
    /// The list style type. Only available on list items.
    ListStyle(ListStyle),
    TextAlign(TextAlign),
    VerticalOffset(VerticalOffset),
    TextStyle(TextStyle),
    PreviousFocusId(NodeId),
    NextFocusId(NodeId),
    ValueForRange(FloatBits),
    MinValueForRange(FloatBits),
    MaxValueForRange(FloatBits),
    StepValueForRange(FloatBits),
    /// Font size is in pixels.
    FontSize(FloatBits),
    /// Font weight can take on any arbitrary numeric value. Increments of 100 in
    /// range [0, 900] represent keywords such as light, normal, bold, etc.
    FontWeight(FloatBits),
    /// The text indent of the text, in mm.
    TextIndent(FloatBits),
}

/// Which attribute a `NodeAttribute` is, whatever it holds.
#[derive(Clone, Copy, Debug, PartialEq, Eq, Hash, Structural)]
pub enum AttributeKind {
    Name,
    NameFrom,
    Description,
    DescriptionFrom,
    Value,
    Busy,
    NonatomicTextFieldRoot,
    ContainerLiveAtomic,
    ContainerLiveBusy,
    LiveAtomic,
    Modal,
    CanvasHasFallback,
    Scrollable,
    Clickable,
    ClipsChildren,
    NotUserSelectableStyle,
    Selected,
    SelectedFromFocus,
    Grabbed,
    DropEffects,
    IsLineBreakingObject,
    IsPageBreakingObject,
    HasAriaAttribute,
    TouchPassThrough,
    IndirectChildIds,
    ActiveDescendantId,
    ErrorMessageId,
    InPageLinkTargetId,
    MemberOfId,
    NextOnLineId,
    PreviousOnLineId,
    PopupForId,
    ControlsIds,
    DetailsIds,
    DescribedByIds,
    FlowToIds,
    LabelledByIds,
    RadioGroupIds,
    Markers,
    TextDirection,
    CharacterOffsets,
    Words,
    CustomActions,
    AccessKey,
    InvalidState,
    AutoComplete,
    CheckedState,
    CheckedStateDescription,
    ChildTreeId,
    ClassName,
    ContainerLiveRelevant,
    ContainerLiveStatus,
    CssDisplay,
    FontFamily,
    HtmlTag,
    InnerHtml,
    InputType,
    KeyShortcuts,
    Language,
    LiveRelevant,
    LiveStatus,
    Placeholder,
    CustomRole,
    RoleDescription,
    Tooltip,
    Url,
    DefaultActionVerb,
    ScrollX,
    ScrollXMin,
    ScrollXMax,
    ScrollY,
    ScrollYMin,
    ScrollYMax,
    TextSelection,
    AriaColumnCount,
    AriaCellColumnIndex,
    AriaCellColumnSpan,
    AriaRowCount,
    AriaCellRowIndex,
    AriaCellRowSpan,
    TableRowCount,
    TableColumnCount,
    TableHeaderId,
    TableRowIndex,
    TableRowHeaderId,
    TableColumnIndex,
    TableColumnHeaderId,
    TableCellColumnIndex,
    TableCellColumnSpan,
    TableCellRowIndex,
    TableCellRowSpan,
    SortDirection,
    HierarchicalLevel,
    SetSize,
    PosInSet,
    ColorValue,
    AriaCurrent,
    BackgroundColor,
    ForegroundColor,
    HasPopup,
    ListStyle,
    TextAlign,
    VerticalOffset,
    TextStyle,
    PreviousFocusId,
    NextFocusId,
    ValueForRange,
    MinValueForRange,
    MaxValueForRange,
    StepValueForRange,
    FontSize,
    FontWeight,
    TextIndent,
}

impl Content for AttributeKind {
    type Model = AttributeKind;

    open spec fn model(&self) -> AttributeKind {
        *self
    }

    fn same(&self, other: &Self) -> (r: bool) {
        *self == *other
    }

    fn duplicate(&self) -> (r: Self) {
        *self
    }
}

/// What an attribute holds, whatever its kind.
pub enum AttributeValue {
    Text(Seq<char>),
    NameFrom(NameFrom),
    DescriptionFrom(DescriptionFrom),
    Flag(bool),
    DropEffects(DropEffects),
    Nodes(Seq<u64>),
    Node(u64),
    Markers(Seq<TextMarkerView>),
    TextDirection(TextDirection),
    Numbers(Seq<FloatBits>),
    Spans(Seq<(usize, usize)>),
    CustomActions(Seq<CustomActionView>),
    InvalidState(InvalidStateView),
    CheckedState(CheckedState),
    DefaultActionVerb(DefaultActionVerb),
    Number(FloatBits),
    Span((usize, usize)),
    Size(usize),
    SortDirection(SortDirection),
    Color(u32),
    AriaCurrent(AriaCurrent),
    HasPopup(HasPopup),
    ListStyle(ListStyle),
    TextAlign(TextAlign),
    VerticalOffset(VerticalOffset),
    TextStyle(TextStyle),
}

/// What a `NodeAttribute` stands for: its kind and the value it holds.
pub struct NodeAttributeView {
    pub kind: AttributeKind,
    pub value: AttributeValue,
}

/// The value of an attribute, borrowed from it.
enum Payload<'a> {
    Text(&'a String),
    NameFrom(NameFrom),
    DescriptionFrom(DescriptionFrom),
    Flag(bool),
    DropEffects(DropEffects),
    Nodes(&'a Vec<NodeId>),
    Node(NodeId),
    Markers(&'a Vec<TextMarker>),
    TextDirection(TextDirection),
    Numbers(&'a Vec<FloatBits>),
    Spans(&'a Vec<Range<usize>>),
    CustomActions(&'a Vec<CustomAction>),
    InvalidState(&'a InvalidState),
    CheckedState(CheckedState),
    DefaultActionVerb(DefaultActionVerb),
    Number(FloatBits),
    Span(&'a Range<usize>),
    Size(usize),
    SortDirection(SortDirection),
    Color(u32),
    AriaCurrent(AriaCurrent),
    HasPopup(HasPopup),
    ListStyle(ListStyle),
    TextAlign(TextAlign),
    VerticalOffset(VerticalOffset),
    TextStyle(TextStyle),
}

impl<'a> Payload<'a> {
    spec fn value(self) -> AttributeValue {
        match self {
            Payload::Text(x) => AttributeValue::Text(x.model()),
            Payload::NameFrom(x) => AttributeValue::NameFrom(x.model()),
            Payload::DescriptionFrom(x) => AttributeValue::DescriptionFrom(x.model()),
            Payload::Flag(x) => AttributeValue::Flag(x.model()),
            Payload::DropEffects(x) => AttributeValue::DropEffects(x.model()),
            Payload::Nodes(x) => AttributeValue::Nodes(x.model()),
            Payload::Node(x) => AttributeValue::Node(x.model()),
            Payload::Markers(x) => AttributeValue::Markers(x.model()),
            Payload::TextDirection(x) => AttributeValue::TextDirection(x.model()),
            Payload::Numbers(x) => AttributeValue::Numbers(x.model()),
            Payload::Spans(x) => AttributeValue::Spans(x.model()),
            Payload::CustomActions(x) => AttributeValue::CustomActions(x.model()),
            Payload::InvalidState(x) => AttributeValue::InvalidState(x.model()),
            Payload::CheckedState(x) => AttributeValue::CheckedState(x.model()),
            Payload::DefaultActionVerb(x) => AttributeValue::DefaultActionVerb(x.model()),
            Payload::Number(x) => AttributeValue::Number(x.model()),
            Payload::Span(x) => AttributeValue::Span(x.model()),
            Payload::Size(x) => AttributeValue::Size(x.model()),
            Payload::SortDirection(x) => AttributeValue::SortDirection(x.model()),
            Payload::Color(x) => AttributeValue::Color(x.model()),
            Payload::AriaCurrent(x) => AttributeValue::AriaCurrent(x.model()),
            Payload::HasPopup(x) => AttributeValue::HasPopup(x.model()),
            Payload::ListStyle(x) => AttributeValue::ListStyle(x.model()),
            Payload::TextAlign(x) => AttributeValue::TextAlign(x.model()),
            Payload::VerticalOffset(x) => AttributeValue::VerticalOffset(x.model()),
            Payload::TextStyle(x) => AttributeValue::TextStyle(x.model()),
        }
    }

    #[verifier::rlimit(30)]
    fn same(&self, other: &Self) -> (r: bool)
        ensures
            r == (self.value() == other.value()),
    {
        match self {
            Payload::Text(a) => match other {
                Payload::Text(b) => a.same(b),
                _ => false,
            },
            Payload::NameFrom(a) => match other {
                Payload::NameFrom(b) => a.same(b),
                _ => false,
            },
            Payload::DescriptionFrom(a) => match other {
                Payload::DescriptionFrom(b) => a.same(b),
                _ => false,
            },
            Payload::Flag(a) => match other {
                Payload::Flag(b) => a.same(b),
                _ => false,
            },
            Payload::DropEffects(a) => match other {
                Payload::DropEffects(b) => a.same(b),
                _ => false,
            },
            Payload::Nodes(a) => match other {
                Payload::Nodes(b) => a.same(b),
                _ => false,
            },
            Payload::Node(a) => match other {
                Payload::Node(b) => a.same(b),
                _ => false,
            },
            Payload::Markers(a) => match other {
                Payload::Markers(b) => a.same(b),
                _ => false,
            },
            Payload::TextDirection(a) => match other {
                Payload::TextDirection(b) => a.same(b),
                _ => false,
            },
            Payload::Numbers(a) => match other {
                Payload::Numbers(b) => a.same(b),
                _ => false,
            },
            Payload::Spans(a) => match other {
                Payload::Spans(b) => a.same(b),
                _ => false,
            },
            Payload::CustomActions(a) => match other {
                Payload::CustomActions(b) => a.same(b),
                _ => false,
            },
            Payload::InvalidState(a) => match other {
                Payload::InvalidState(b) => a.same(b),
                _ => false,
            },
            Payload::CheckedState(a) => match other {
                Payload::CheckedState(b) => a.same(b),
                _ => false,
            },
            Payload::DefaultActionVerb(a) => match other {
                Payload::DefaultActionVerb(b) => a.same(b),
                _ => false,
            },
            Payload::Number(a) => match other {
                Payload::Number(b) => a.same(b),
                _ => false,
            },
            Payload::Span(a) => match other {
                Payload::Span(b) => a.same(b),
                _ => false,
            },
            Payload::Size(a) => match other {
                Payload::Size(b) => a.same(b),
                _ => false,
            },
            Payload::SortDirection(a) => match other {
                Payload::SortDirection(b) => a.same(b),
                _ => false,
            },
            Payload::Color(a) => match other {
                Payload::Color(b) => a.same(b),
                _ => false,
            },
            Payload::AriaCurrent(a) => match other {
                Payload::AriaCurrent(b) => a.same(b),
                _ => false,
            },
            Payload::HasPopup(a) => match other {
                Payload::HasPopup(b) => a.same(b),
                _ => false,
            },
            Payload::ListStyle(a) => match other {
                Payload::ListStyle(b) => a.same(b),
                _ => false,
            },
            Payload::TextAlign(a) => match other {
                Payload::TextAlign(b) => a.same(b),
                _ => false,
            },
            Payload::VerticalOffset(a) => match other {
                Payload::VerticalOffset(b) => a.same(b),
                _ => false,
            },
            Payload::TextStyle(a) => match other {
                Payload::TextStyle(b) => a.same(b),
                _ => false,
            },
        }
    }
}

impl View for NodeAttribute {
    type V = NodeAttributeView;

    open spec fn view(&self) -> NodeAttributeView {
        NodeAttributeView { kind: self.kind_of(), value: self.value_of() }
    }
}

impl NodeAttribute {
    /// Which attribute this is.
    pub open spec fn kind_of(&self) -> AttributeKind {
        match self {
            NodeAttribute::Name(_) => AttributeKind::Name,
            NodeAttribute::NameFrom(_) => AttributeKind::NameFrom,
            NodeAttribute::Description(_) => AttributeKind::Description,
            NodeAttribute::DescriptionFrom(_) => AttributeKind::DescriptionFrom,
            NodeAttribute::Value(_) => AttributeKind::Value,
            NodeAttribute::Busy(_) => AttributeKind::Busy,
            NodeAttribute::NonatomicTextFieldRoot(_) => AttributeKind::NonatomicTextFieldRoot,
            NodeAttribute::ContainerLiveAtomic(_) => AttributeKind::ContainerLiveAtomic,
            NodeAttribute::ContainerLiveBusy(_) => AttributeKind::ContainerLiveBusy,
            NodeAttribute::LiveAtomic(_) => AttributeKind::LiveAtomic,
            NodeAttribute::Modal(_) => AttributeKind::Modal,
            NodeAttribute::CanvasHasFallback(_) => AttributeKind::CanvasHasFallback,
            NodeAttribute::Scrollable(_) => AttributeKind::Scrollable,
            NodeAttribute::Clickable(_) => AttributeKind::Clickable,
            NodeAttribute::ClipsChildren(_) => AttributeKind::ClipsChildren,
            NodeAttribute::NotUserSelectableStyle(_) => AttributeKind::NotUserSelectableStyle,
            NodeAttribute::Selected(_) => AttributeKind::Selected,
            NodeAttribute::SelectedFromFocus(_) => AttributeKind::SelectedFromFocus,
            NodeAttribute::Grabbed(_) => AttributeKind::Grabbed,
            NodeAttribute::DropEffects(_) => AttributeKind::DropEffects,
            NodeAttribute::IsLineBreakingObject(_) => AttributeKind::IsLineBreakingObject,
            NodeAttribute::IsPageBreakingObject(_) => AttributeKind::IsPageBreakingObject,
            NodeAttribute::HasAriaAttribute(_) => AttributeKind::HasAriaAttribute,
            NodeAttribute::TouchPassThrough(_) => AttributeKind::TouchPassThrough,
            NodeAttribute::IndirectChildIds(_) => AttributeKind::IndirectChildIds,
            NodeAttribute::ActiveDescendantId(_) => AttributeKind::ActiveDescendantId,
            NodeAttribute::ErrorMessageId(_) => AttributeKind::ErrorMessageId,
            NodeAttribute::InPageLinkTargetId(_) => AttributeKind::InPageLinkTargetId,
            NodeAttribute::MemberOfId(_) => AttributeKind::MemberOfId,
            NodeAttribute::NextOnLineId(_) => AttributeKind::NextOnLineId,
            NodeAttribute::PreviousOnLineId(_) => AttributeKind::PreviousOnLineId,
            NodeAttribute::PopupForId(_) => AttributeKind::PopupForId,
            NodeAttribute::ControlsIds(_) => AttributeKind::ControlsIds,
            NodeAttribute::DetailsIds(_) => AttributeKind::DetailsIds,
            NodeAttribute::DescribedByIds(_) => AttributeKind::DescribedByIds,
            NodeAttribute::FlowToIds(_) => AttributeKind::FlowToIds,
            NodeAttribute::LabelledByIds(_) => AttributeKind::LabelledByIds,
            NodeAttribute::RadioGroupIds(_) => AttributeKind::RadioGroupIds,
            NodeAttribute::Markers(_) => AttributeKind::Markers,
            NodeAttribute::TextDirection(_) => AttributeKind::TextDirection,
            NodeAttribute::CharacterOffsets(_) => AttributeKind::CharacterOffsets,
            NodeAttribute::Words(_) => AttributeKind::Words,
            NodeAttribute::CustomActions(_) => AttributeKind::CustomActions,
            NodeAttribute::AccessKey(_) => AttributeKind::AccessKey,
            NodeAttribute::InvalidState(_) => AttributeKind::InvalidState,
            NodeAttribute::AutoComplete(_) => AttributeKind::AutoComplete,
            NodeAttribute::CheckedState(_) => AttributeKind::CheckedState,
            NodeAttribute::CheckedStateDescription(_) => AttributeKind::CheckedStateDescription,
            NodeAttribute::ChildTreeId(_) => AttributeKind::ChildTreeId,
            NodeAttribute::ClassName(_) => AttributeKind::ClassName,
            NodeAttribute::ContainerLiveRelevant(_) => AttributeKind::ContainerLiveRelevant,
            NodeAttribute::ContainerLiveStatus(_) => AttributeKind::ContainerLiveStatus,
            NodeAttribute::CssDisplay(_) => AttributeKind::CssDisplay,
            NodeAttribute::FontFamily(_) => AttributeKind::FontFamily,
            NodeAttribute::HtmlTag(_) => AttributeKind::HtmlTag,
            NodeAttribute::InnerHtml(_) => AttributeKind::InnerHtml,
            NodeAttribute::InputType(_) => AttributeKind::InputType,
            NodeAttribute::KeyShortcuts(_) => AttributeKind::KeyShortcuts,
            NodeAttribute::Language(_) => AttributeKind::Language,
            NodeAttribute::LiveRelevant(_) => AttributeKind::LiveRelevant,
            NodeAttribute::LiveStatus(_) => AttributeKind::LiveStatus,
            NodeAttribute::Placeholder(_) => AttributeKind::Placeholder,
            NodeAttribute::CustomRole(_) => AttributeKind::CustomRole,
            NodeAttribute::RoleDescription(_) => AttributeKind::RoleDescription,
            NodeAttribute::Tooltip(_) => AttributeKind::Tooltip,
            NodeAttribute::Url(_) => AttributeKind::Url,
            NodeAttribute::DefaultActionVerb(_) => AttributeKind::DefaultActionVerb,
            NodeAttribute::ScrollX(_) => AttributeKind::ScrollX,
            NodeAttribute::ScrollXMin(_) => AttributeKind::ScrollXMin,
            NodeAttribute::ScrollXMax(_) => AttributeKind::ScrollXMax,
            NodeAttribute::ScrollY(_) => AttributeKind::ScrollY,
            NodeAttribute::ScrollYMin(_) => AttributeKind::ScrollYMin,
            NodeAttribute::ScrollYMax(_) => AttributeKind::ScrollYMax,
            NodeAttribute::TextSelection(_) => AttributeKind::TextSelection,
            NodeAttribute::AriaColumnCount(_) => AttributeKind::AriaColumnCount,
            NodeAttribute::AriaCellColumnIndex(_) => AttributeKind::AriaCellColumnIndex,
            NodeAttribute::AriaCellColumnSpan(_) => AttributeKind::AriaCellColumnSpan,
            NodeAttribute::AriaRowCount(_) => AttributeKind::AriaRowCount,
            NodeAttribute::AriaCellRowIndex(_) => AttributeKind::AriaCellRowIndex,
            NodeAttribute::AriaCellRowSpan(_) => AttributeKind::AriaCellRowSpan,
            NodeAttribute::TableRowCount(_) => AttributeKind::TableRowCount,
            NodeAttribute::TableColumnCount(_) => AttributeKind::TableColumnCount,
            NodeAttribute::TableHeaderId(_) => AttributeKind::TableHeaderId,
            NodeAttribute::TableRowIndex(_) => AttributeKind::TableRowIndex,
            NodeAttribute::TableRowHeaderId(_) => AttributeKind::TableRowHeaderId,
            NodeAttribute::TableColumnIndex(_) => AttributeKind::TableColumnIndex,
            NodeAttribute::TableColumnHeaderId(_) => AttributeKind::TableColumnHeaderId,
            NodeAttribute::TableCellColumnIndex(_) => AttributeKind::TableCellColumnIndex,
            NodeAttribute::TableCellColumnSpan(_) => AttributeKind::TableCellColumnSpan,
            NodeAttribute::TableCellRowIndex(_) => AttributeKind::TableCellRowIndex,
            NodeAttribute::TableCellRowSpan(_) => AttributeKind::TableCellRowSpan,
            NodeAttribute::SortDirection(_) => AttributeKind::SortDirection,
            NodeAttribute::HierarchicalLevel(_) => AttributeKind::HierarchicalLevel,
            NodeAttribute::SetSize(_) => AttributeKind::SetSize,
            NodeAttribute::PosInSet(_) => AttributeKind::PosInSet,
            NodeAttribute::ColorValue(_) => AttributeKind::ColorValue,
            NodeAttribute::AriaCurrent(_) => AttributeKind::AriaCurrent,
            NodeAttribute::BackgroundColor(_) => AttributeKind::BackgroundColor,
            NodeAttribute::ForegroundColor(_) => AttributeKind::ForegroundColor,
            NodeAttribute::HasPopup(_) => AttributeKind::HasPopup,
            NodeAttribute::ListStyle(_) => AttributeKind::ListStyle,
            NodeAttribute::TextAlign(_) => AttributeKind::TextAlign,
            NodeAttribute::VerticalOffset(_) => AttributeKind::VerticalOffset,
            NodeAttribute::TextStyle(_) => AttributeKind::TextStyle,
            NodeAttribute::PreviousFocusId(_) => AttributeKind::PreviousFocusId,
            NodeAttribute::NextFocusId(_) => AttributeKind::NextFocusId,
            NodeAttribute::ValueForRange(_) => AttributeKind::ValueForRange,
            NodeAttribute::MinValueForRange(_) => AttributeKind::MinValueForRange,
            NodeAttribute::MaxValueForRange(_) => AttributeKind::MaxValueForRange,
            NodeAttribute::StepValueForRange(_) => AttributeKind::StepValueForRange,
            NodeAttribute::FontSize(_) => AttributeKind::FontSize,
            NodeAttribute::FontWeight(_) => AttributeKind::FontWeight,
            NodeAttribute::TextIndent(_) => AttributeKind::TextIndent,
        }
    }

    /// What this attribute holds.
    pub open spec fn value_of(&self) -> AttributeValue {
        match self {
            NodeAttribute::Name(x) => AttributeValue::Text(x.model()),
            NodeAttribute::NameFrom(x) => AttributeValue::NameFrom(x.model()),
            NodeAttribute::Description(x) => AttributeValue::Text(x.model()),
            NodeAttribute::DescriptionFrom(x) => AttributeValue::DescriptionFrom(x.model()),
            NodeAttribute::Value(x) => AttributeValue::Text(x.model()),
            NodeAttribute::Busy(x) => AttributeValue::Flag(x.model()),
            NodeAttribute::NonatomicTextFieldRoot(x) => AttributeValue::Flag(x.model()),
            NodeAttribute::ContainerLiveAtomic(x) => AttributeValue::Flag(x.model()),
            NodeAttribute::ContainerLiveBusy(x) => AttributeValue::Flag(x.model()),
            NodeAttribute::LiveAtomic(x) => AttributeValue::Flag(x.model()),
            NodeAttribute::Modal(x) => AttributeValue::Flag(x.model()),
            NodeAttribute::CanvasHasFallback(x) => AttributeValue::Flag(x.model()),
            NodeAttribute::Scrollable(x) => AttributeValue::Flag(x.model()),
            NodeAttribute::Clickable(x) => AttributeValue::Flag(x.model()),
            NodeAttribute::ClipsChildren(x) => AttributeValue::Flag(x.model()),
            NodeAttribute::NotUserSelectableStyle(x) => AttributeValue::Flag(x.model()),
            NodeAttribute::Selected(x) => AttributeValue::Flag(x.model()),
            NodeAttribute::SelectedFromFocus(x) => AttributeValue::Flag(x.model()),
            NodeAttribute::Grabbed(x) => AttributeValue::Flag(x.model()),
            NodeAttribute::DropEffects(x) => AttributeValue::DropEffects(x.model()),
            NodeAttribute::IsLineBreakingObject(x) => AttributeValue::Flag(x.model()),
            NodeAttribute::IsPageBreakingObject(x) => AttributeValue::Flag(x.model()),
            NodeAttribute::HasAriaAttribute(x) => AttributeValue::Flag(x.model()),
            NodeAttribute::TouchPassThrough(x) => AttributeValue::Flag(x.model()),
            NodeAttribute::IndirectChildIds(x) => AttributeValue::Nodes(x.model()),
            NodeAttribute::ActiveDescendantId(x) => AttributeValue::Node(x.model()),
            NodeAttribute::ErrorMessageId(x) => AttributeValue::Node(x.model()),
            NodeAttribute::InPageLinkTargetId(x) => AttributeValue::Node(x.model()),
            NodeAttribute::MemberOfId(x) => AttributeValue::Node(x.model()),
            NodeAttribute::NextOnLineId(x) => AttributeValue::Node(x.model()),
            NodeAttribute::PreviousOnLineId(x) => AttributeValue::Node(x.model()),
            NodeAttribute::PopupForId(x) => AttributeValue::Node(x.model()),
            NodeAttribute::ControlsIds(x) => AttributeValue::Nodes(x.model()),
            NodeAttribute::DetailsIds(x) => AttributeValue::Nodes(x.model()),
            NodeAttribute::DescribedByIds(x) => AttributeValue::Nodes(x.model()),
            NodeAttribute::FlowToIds(x) => AttributeValue::Nodes(x.model()),
            NodeAttribute::LabelledByIds(x) => AttributeValue::Nodes(x.model()),
            NodeAttribute::RadioGroupIds(x) => AttributeValue::Nodes(x.model()),
            NodeAttribute::Markers(x) => AttributeValue::Markers(x.model()),
            NodeAttribute::TextDirection(x) => AttributeValue::TextDirection(x.model()),
            NodeAttribute::CharacterOffsets(x) => AttributeValue::Numbers(x.model()),
            NodeAttribute::Words(x) => AttributeValue::Spans(x.model()),
            NodeAttribute::CustomActions(x) => AttributeValue::CustomActions(x.model()),
            NodeAttribute::AccessKey(x) => AttributeValue::Text(x.model()),
            NodeAttribute::InvalidState(x) => AttributeValue::InvalidState(x.model()),
            NodeAttribute::AutoComplete(x) => AttributeValue::Text(x.model()),
            NodeAttribute::CheckedState(x) => AttributeValue::CheckedState(x.model()),
            NodeAttribute::CheckedStateDescription(x) => AttributeValue::Text(x.model()),
            NodeAttribute::ChildTreeId(x) => AttributeValue::Text(x.model()),
            NodeAttribute::ClassName(x) => AttributeValue::Text(x.model()),
            NodeAttribute::ContainerLiveRelevant(x) => AttributeValue::Text(x.model()),
            NodeAttribute::ContainerLiveStatus(x) => AttributeValue::Text(x.model()),
            NodeAttribute::CssDisplay(x) => AttributeValue::Text(x.model()),
            NodeAttribute::FontFamily(x) => AttributeValue::Text(x.model()),
            NodeAttribute::HtmlTag(x) => AttributeValue::Text(x.model()),
            NodeAttribute::InnerHtml(x) => AttributeValue::Text(x.model()),
            NodeAttribute::InputType(x) => AttributeValue::Text(x.model()),
            NodeAttribute::KeyShortcuts(x) => AttributeValue::Text(x.model()),
            NodeAttribute::Language(x) => AttributeValue::Text(x.model()),
            NodeAttribute::LiveRelevant(x) => AttributeValue::Text(x.model()),
            NodeAttribute::LiveStatus(x) => AttributeValue::Text(x.model()),
            NodeAttribute::Placeholder(x) => AttributeValue::Text(x.model()),
            NodeAttribute::CustomRole(x) => AttributeValue::Text(x.model()),
            NodeAttribute::RoleDescription(x) => AttributeValue::Text(x.model()),
            NodeAttribute::Tooltip(x) => AttributeValue::Text(x.model()),
            NodeAttribute::Url(x) => AttributeValue::Text(x.model()),
            NodeAttribute::DefaultActionVerb(x) => AttributeValue::DefaultActionVerb(x.model()),
            NodeAttribute::ScrollX(x) => AttributeValue::Number(x.model()),
            NodeAttribute::ScrollXMin(x) => AttributeValue::Number(x.model()),
            NodeAttribute::ScrollXMax(x) => AttributeValue::Number(x.model()),
            NodeAttribute::ScrollY(x) => AttributeValue::Number(x.model()),
            NodeAttribute::ScrollYMin(x) => AttributeValue::Number(x.model()),
            NodeAttribute::ScrollYMax(x) => AttributeValue::Number(x.model()),
            NodeAttribute::TextSelection(x) => AttributeValue::Span(x.model()),
            NodeAttribute::AriaColumnCount(x) => AttributeValue::Size(x.model()),
            NodeAttribute::AriaCellColumnIndex(x) => AttributeValue::Size(x.model()),
            NodeAttribute::AriaCellColumnSpan(x) => AttributeValue::Size(x.model()),
            NodeAttribute::AriaRowCount(x) => AttributeValue::Size(x.model()),
            NodeAttribute::AriaCellRowIndex(x) => AttributeValue::Size(x.model()),
            NodeAttribute::AriaCellRowSpan(x) => AttributeValue::Size(x.model()),
            NodeAttribute::TableRowCount(x) => AttributeValue::Size(x.model()),
            NodeAttribute::TableColumnCount(x) => AttributeValue::Size(x.model()),
            NodeAttribute::TableHeaderId(x) => AttributeValue::Node(x.model()),
            NodeAttribute::TableRowIndex(x) => AttributeValue::Size(x.model()),
            NodeAttribute::TableRowHeaderId(x) => AttributeValue::Node(x.model()),
            NodeAttribute::TableColumnIndex(x) => AttributeValue::Size(x.model()),
            NodeAttribute::TableColumnHeaderId(x) => AttributeValue::Node(x.model()),
            NodeAttribute::TableCellColumnIndex(x) => AttributeValue::Size(x.model()),
            NodeAttribute::TableCellColumnSpan(x) => AttributeValue::Size(x.model()),
            NodeAttribute::TableCellRowIndex(x) => AttributeValue::Size(x.model()),
            NodeAttribute::TableCellRowSpan(x) => AttributeValue::Size(x.model()),
            NodeAttribute::SortDirection(x) => AttributeValue::SortDirection(x.model()),
            NodeAttribute::HierarchicalLevel(x) => AttributeValue::Size(x.model()),
            NodeAttribute::SetSize(x) => AttributeValue::Size(x.model()),
            NodeAttribute::PosInSet(x) => AttributeValue::Size(x.model()),
            NodeAttribute::ColorValue(x) => AttributeValue::Color(x.model()),
            NodeAttribute::AriaCurrent(x) => AttributeValue::AriaCurrent(x.model()),
            NodeAttribute::BackgroundColor(x) => AttributeValue::Color(x.model()),
            NodeAttribute::ForegroundColor(x) => AttributeValue::Color(x.model()),
            NodeAttribute::HasPopup(x) => AttributeValue::HasPopup(x.model()),
            NodeAttribute::ListStyle(x) => AttributeValue::ListStyle(x.model()),
            NodeAttribute::TextAlign(x) => AttributeValue::TextAlign(x.model()),
            NodeAttribute::VerticalOffset(x) => AttributeValue::VerticalOffset(x.model()),
            NodeAttribute::TextStyle(x) => AttributeValue::TextStyle(x.model()),
            NodeAttribute::PreviousFocusId(x) => AttributeValue::Node(x.model()),
            NodeAttribute::NextFocusId(x) => AttributeValue::Node(x.model()),
            NodeAttribute::ValueForRange(x) => AttributeValue::Number(x.model()),
            NodeAttribute::MinValueForRange(x) => AttributeValue::Number(x.model()),
            NodeAttribute::MaxValueForRange(x) => AttributeValue::Number(x.model()),
            NodeAttribute::StepValueForRange(x) => AttributeValue::Number(x.model()),
            NodeAttribute::FontSize(x) => AttributeValue::Number(x.model()),
            NodeAttribute::FontWeight(x) => AttributeValue::Number(x.model()),
            NodeAttribute::TextIndent(x) => AttributeValue::Number(x.model()),
        }
    }

    /// Which attribute this is.
    pub fn kind(&self) -> (k: AttributeKind)
        ensures
            k == self@.kind,
    {
        match self {
            NodeAttribute::Name(_) => AttributeKind::Name,
            NodeAttribute::NameFrom(_) => AttributeKind::NameFrom,
            NodeAttribute::Description(_) => AttributeKind::Description,
            NodeAttribute::DescriptionFrom(_) => AttributeKind::DescriptionFrom,
            NodeAttribute::Value(_) => AttributeKind::Value,
            NodeAttribute::Busy(_) => AttributeKind::Busy,
            NodeAttribute::NonatomicTextFieldRoot(_) => AttributeKind::NonatomicTextFieldRoot,
            NodeAttribute::ContainerLiveAtomic(_) => AttributeKind::ContainerLiveAtomic,
            NodeAttribute::ContainerLiveBusy(_) => AttributeKind::ContainerLiveBusy,
            NodeAttribute::LiveAtomic(_) => AttributeKind::LiveAtomic,
            NodeAttribute::Modal(_) => AttributeKind::Modal,
            NodeAttribute::CanvasHasFallback(_) => AttributeKind::CanvasHasFallback,
            NodeAttribute::Scrollable(_) => AttributeKind::Scrollable,
            NodeAttribute::Clickable(_) => AttributeKind::Clickable,
            NodeAttribute::ClipsChildren(_) => AttributeKind::ClipsChildren,
            NodeAttribute::NotUserSelectableStyle(_) => AttributeKind::NotUserSelectableStyle,
            NodeAttribute::Selected(_) => AttributeKind::Selected,
            NodeAttribute::SelectedFromFocus(_) => AttributeKind::SelectedFromFocus,
            NodeAttribute::Grabbed(_) => AttributeKind::Grabbed,
            NodeAttribute::DropEffects(_) => AttributeKind::DropEffects,
            NodeAttribute::IsLineBreakingObject(_) => AttributeKind::IsLineBreakingObject,
            NodeAttribute::IsPageBreakingObject(_) => AttributeKind::IsPageBreakingObject,
            NodeAttribute::HasAriaAttribute(_) => AttributeKind::HasAriaAttribute,
            NodeAttribute::TouchPassThrough(_) => AttributeKind::TouchPassThrough,
            NodeAttribute::IndirectChildIds(_) => AttributeKind::IndirectChildIds,
            NodeAttribute::ActiveDescendantId(_) => AttributeKind::ActiveDescendantId,
            NodeAttribute::ErrorMessageId(_) => AttributeKind::ErrorMessageId,
            NodeAttribute::InPageLinkTargetId(_) => AttributeKind::InPageLinkTargetId,
            NodeAttribute::MemberOfId(_) => AttributeKind::MemberOfId,
            NodeAttribute::NextOnLineId(_) => AttributeKind::NextOnLineId,
            NodeAttribute::PreviousOnLineId(_) => AttributeKind::PreviousOnLineId,
            NodeAttribute::PopupForId(_) => AttributeKind::PopupForId,
            NodeAttribute::ControlsIds(_) => AttributeKind::ControlsIds,
            NodeAttribute::DetailsIds(_) => AttributeKind::DetailsIds,
            NodeAttribute::DescribedByIds(_) => AttributeKind::DescribedByIds,
            NodeAttribute::FlowToIds(_) => AttributeKind::FlowToIds,
            NodeAttribute::LabelledByIds(_) => AttributeKind::LabelledByIds,
            NodeAttribute::RadioGroupIds(_) => AttributeKind::RadioGroupIds,
            NodeAttribute::Markers(_) => AttributeKind::Markers,
            NodeAttribute::TextDirection(_) => AttributeKind::TextDirection,
            NodeAttribute::CharacterOffsets(_) => AttributeKind::CharacterOffsets,
            NodeAttribute::Words(_) => AttributeKind::Words,
            NodeAttribute::CustomActions(_) => AttributeKind::CustomActions,
            NodeAttribute::AccessKey(_) => AttributeKind::AccessKey,
            NodeAttribute::InvalidState(_) => AttributeKind::InvalidState,
            NodeAttribute::AutoComplete(_) => AttributeKind::AutoComplete,
            NodeAttribute::CheckedState(_) => AttributeKind::CheckedState,
            NodeAttribute::CheckedStateDescription(_) => AttributeKind::CheckedStateDescription,
            NodeAttribute::ChildTreeId(_) => AttributeKind::ChildTreeId,
            NodeAttribute::ClassName(_) => AttributeKind::ClassName,
            NodeAttribute::ContainerLiveRelevant(_) => AttributeKind::ContainerLiveRelevant,
            NodeAttribute::ContainerLiveStatus(_) => AttributeKind::ContainerLiveStatus,
            NodeAttribute::CssDisplay(_) => AttributeKind::CssDisplay,
            NodeAttribute::FontFamily(_) => AttributeKind::FontFamily,
            NodeAttribute::HtmlTag(_) => AttributeKind::HtmlTag,
            NodeAttribute::InnerHtml(_) => AttributeKind::InnerHtml,
            NodeAttribute::InputType(_) => AttributeKind::InputType,
            NodeAttribute::KeyShortcuts(_) => AttributeKind::KeyShortcuts,
            NodeAttribute::Language(_) => AttributeKind::Language,
            NodeAttribute::LiveRelevant(_) => AttributeKind::LiveRelevant,
            NodeAttribute::LiveStatus(_) => AttributeKind::LiveStatus,
            NodeAttribute::Placeholder(_) => AttributeKind::Placeholder,
            NodeAttribute::CustomRole(_) => AttributeKind::CustomRole,
            NodeAttribute::RoleDescription(_) => AttributeKind::RoleDescription,
            NodeAttribute::Tooltip(_) => AttributeKind::Tooltip,
            NodeAttribute::Url(_) => AttributeKind::Url,
            NodeAttribute::DefaultActionVerb(_) => AttributeKind::DefaultActionVerb,
            NodeAttribute::ScrollX(_) => AttributeKind::ScrollX,
            NodeAttribute::ScrollXMin(_) => AttributeKind::ScrollXMin,
            NodeAttribute::ScrollXMax(_) => AttributeKind::ScrollXMax,
            NodeAttribute::ScrollY(_) => AttributeKind::ScrollY,
            NodeAttribute::ScrollYMin(_) => AttributeKind::ScrollYMin,
            NodeAttribute::ScrollYMax(_) => AttributeKind::ScrollYMax,
            NodeAttribute::TextSelection(_) => AttributeKind::TextSelection,
            NodeAttribute::AriaColumnCount(_) => AttributeKind::AriaColumnCount,
            NodeAttribute::AriaCellColumnIndex(_) => AttributeKind::AriaCellColumnIndex,
            NodeAttribute::AriaCellColumnSpan(_) => AttributeKind::AriaCellColumnSpan,
            NodeAttribute::AriaRowCount(_) => AttributeKind::AriaRowCount,
            NodeAttribute::AriaCellRowIndex(_) => AttributeKind::AriaCellRowIndex,
            NodeAttribute::AriaCellRowSpan(_) => AttributeKind::AriaCellRowSpan,
            NodeAttribute::TableRowCount(_) => AttributeKind::TableRowCount,
            NodeAttribute::TableColumnCount(_) => AttributeKind::TableColumnCount,
            NodeAttribute::TableHeaderId(_) => AttributeKind::TableHeaderId,
            NodeAttribute::TableRowIndex(_) => AttributeKind::TableRowIndex,
            NodeAttribute::TableRowHeaderId(_) => AttributeKind::TableRowHeaderId,
            NodeAttribute::TableColumnIndex(_) => AttributeKind::TableColumnIndex,
            NodeAttribute::TableColumnHeaderId(_) => AttributeKind::TableColumnHeaderId,
            NodeAttribute::TableCellColumnIndex(_) => AttributeKind::TableCellColumnIndex,
            NodeAttribute::TableCellColumnSpan(_) => AttributeKind::TableCellColumnSpan,
            NodeAttribute::TableCellRowIndex(_) => AttributeKind::TableCellRowIndex,
            NodeAttribute::TableCellRowSpan(_) => AttributeKind::TableCellRowSpan,
            NodeAttribute::SortDirection(_) => AttributeKind::SortDirection,
            NodeAttribute::HierarchicalLevel(_) => AttributeKind::HierarchicalLevel,
            NodeAttribute::SetSize(_) => AttributeKind::SetSize,
            NodeAttribute::PosInSet(_) => AttributeKind::PosInSet,
            NodeAttribute::ColorValue(_) => AttributeKind::ColorValue,
            NodeAttribute::AriaCurrent(_) => AttributeKind::AriaCurrent,
            NodeAttribute::BackgroundColor(_) => AttributeKind::BackgroundColor,
            NodeAttribute::ForegroundColor(_) => AttributeKind::ForegroundColor,
            NodeAttribute::HasPopup(_) => AttributeKind::HasPopup,
            NodeAttribute::ListStyle(_) => AttributeKind::ListStyle,
            NodeAttribute::TextAlign(_) => AttributeKind::TextAlign,
            NodeAttribute::VerticalOffset(_) => AttributeKind::VerticalOffset,
            NodeAttribute::TextStyle(_) => AttributeKind::TextStyle,
            NodeAttribute::PreviousFocusId(_) => AttributeKind::PreviousFocusId,
            NodeAttribute::NextFocusId(_) => AttributeKind::NextFocusId,
            NodeAttribute::ValueForRange(_) => AttributeKind::ValueForRange,
            NodeAttribute::MinValueForRange(_) => AttributeKind::MinValueForRange,
            NodeAttribute::MaxValueForRange(_) => AttributeKind::MaxValueForRange,
            NodeAttribute::StepValueForRange(_) => AttributeKind::StepValueForRange,
            NodeAttribute::FontSize(_) => AttributeKind::FontSize,
            NodeAttribute::FontWeight(_) => AttributeKind::FontWeight,
            NodeAttribute::TextIndent(_) => AttributeKind::TextIndent,
        }
    }

    fn payload(&self) -> (p: Payload<'_>)
        ensures
            p.value() == self@.value,
    {
        match self {
            NodeAttribute::Name(x) => Payload::Text(x),
            NodeAttribute::NameFrom(x) => Payload::NameFrom(*x),
            NodeAttribute::Description(x) => Payload::Text(x),
            NodeAttribute::DescriptionFrom(x) => Payload::DescriptionFrom(*x),
            NodeAttribute::Value(x) => Payload::Text(x),
            NodeAttribute::Busy(x) => Payload::Flag(*x),
            NodeAttribute::NonatomicTextFieldRoot(x) => Payload::Flag(*x),
            NodeAttribute::ContainerLiveAtomic(x) => Payload::Flag(*x),
            NodeAttribute::ContainerLiveBusy(x) => Payload::Flag(*x),
            NodeAttribute::LiveAtomic(x) => Payload::Flag(*x),
            NodeAttribute::Modal(x) => Payload::Flag(*x),
            NodeAttribute::CanvasHasFallback(x) => Payload::Flag(*x),
            NodeAttribute::Scrollable(x) => Payload::Flag(*x),
            NodeAttribute::Clickable(x) => Payload::Flag(*x),
            NodeAttribute::ClipsChildren(x) => Payload::Flag(*x),
            NodeAttribute::NotUserSelectableStyle(x) => Payload::Flag(*x),
            NodeAttribute::Selected(x) => Payload::Flag(*x),
            NodeAttribute::SelectedFromFocus(x) => Payload::Flag(*x),
            NodeAttribute::Grabbed(x) => Payload::Flag(*x),
            NodeAttribute::DropEffects(x) => Payload::DropEffects(*x),
            NodeAttribute::IsLineBreakingObject(x) => Payload::Flag(*x),
            NodeAttribute::IsPageBreakingObject(x) => Payload::Flag(*x),
            NodeAttribute::HasAriaAttribute(x) => Payload::Flag(*x),
            NodeAttribute::TouchPassThrough(x) => Payload::Flag(*x),
            NodeAttribute::IndirectChildIds(x) => Payload::Nodes(x),
            NodeAttribute::ActiveDescendantId(x) => Payload::Node(*x),
            NodeAttribute::ErrorMessageId(x) => Payload::Node(*x),
            NodeAttribute::InPageLinkTargetId(x) => Payload::Node(*x),
            NodeAttribute::MemberOfId(x) => Payload::Node(*x),
            NodeAttribute::NextOnLineId(x) => Payload::Node(*x),
            NodeAttribute::PreviousOnLineId(x) => Payload::Node(*x),
            NodeAttribute::PopupForId(x) => Payload::Node(*x),
            NodeAttribute::ControlsIds(x) => Payload::Nodes(x),
            NodeAttribute::DetailsIds(x) => Payload::Nodes(x),
            NodeAttribute::DescribedByIds(x) => Payload::Nodes(x),
            NodeAttribute::FlowToIds(x) => Payload::Nodes(x),
            NodeAttribute::LabelledByIds(x) => Payload::Nodes(x),
            NodeAttribute::RadioGroupIds(x) => Payload::Nodes(x),
            NodeAttribute::Markers(x) => Payload::Markers(x),
            NodeAttribute::TextDirection(x) => Payload::TextDirection(*x),
            NodeAttribute::CharacterOffsets(x) => Payload::Numbers(x),
            NodeAttribute::Words(x) => Payload::Spans(x),
            NodeAttribute::CustomActions(x) => Payload::CustomActions(x),
            NodeAttribute::AccessKey(x) => Payload::Text(x),
            NodeAttribute::InvalidState(x) => Payload::InvalidState(x),
            NodeAttribute::AutoComplete(x) => Payload::Text(x),
            NodeAttribute::CheckedState(x) => Payload::CheckedState(*x),
            NodeAttribute::CheckedStateDescription(x) => Payload::Text(x),
            NodeAttribute::ChildTreeId(x) => Payload::Text(x),
            NodeAttribute::ClassName(x) => Payload::Text(x),
            NodeAttribute::ContainerLiveRelevant(x) => Payload::Text(x),
            NodeAttribute::ContainerLiveStatus(x) => Payload::Text(x),
            NodeAttribute::CssDisplay(x) => Payload::Text(x),
            NodeAttribute::FontFamily(x) => Payload::Text(x),
            NodeAttribute::HtmlTag(x) => Payload::Text(x),
            NodeAttribute::InnerHtml(x) => Payload::Text(x),
            NodeAttribute::InputType(x) => Payload::Text(x),
            NodeAttribute::KeyShortcuts(x) => Payload::Text(x),
            NodeAttribute::Language(x) => Payload::Text(x),
            NodeAttribute::LiveRelevant(x) => Payload::Text(x),
            NodeAttribute::LiveStatus(x) => Payload::Text(x),
            NodeAttribute::Placeholder(x) => Payload::Text(x),
            NodeAttribute::CustomRole(x) => Payload::Text(x),
            NodeAttribute::RoleDescription(x) => Payload::Text(x),
            NodeAttribute::Tooltip(x) => Payload::Text(x),
            NodeAttribute::Url(x) => Payload::Text(x),
            NodeAttribute::DefaultActionVerb(x) => Payload::DefaultActionVerb(*x),
            NodeAttribute::ScrollX(x) => Payload::Number(*x),
            NodeAttribute::ScrollXMin(x) => Payload::Number(*x),
            NodeAttribute::ScrollXMax(x) => Payload::Number(*x),
            NodeAttribute::ScrollY(x) => Payload::Number(*x),
            NodeAttribute::ScrollYMin(x) => Payload::Number(*x),
            NodeAttribute::ScrollYMax(x) => Payload::Number(*x),
            NodeAttribute::TextSelection(x) => Payload::Span(x),
            NodeAttribute::AriaColumnCount(x) => Payload::Size(*x),
            NodeAttribute::AriaCellColumnIndex(x) => Payload::Size(*x),
            NodeAttribute::AriaCellColumnSpan(x) => Payload::Size(*x),
            NodeAttribute::AriaRowCount(x) => Payload::Size(*x),
            NodeAttribute::AriaCellRowIndex(x) => Payload::Size(*x),
            NodeAttribute::AriaCellRowSpan(x) => Payload::Size(*x),
            NodeAttribute::TableRowCount(x) => Payload::Size(*x),
            NodeAttribute::TableColumnCount(x) => Payload::Size(*x),
            NodeAttribute::TableHeaderId(x) => Payload::Node(*x),
            NodeAttribute::TableRowIndex(x) => Payload::Size(*x),
            NodeAttribute::TableRowHeaderId(x) => Payload::Node(*x),
            NodeAttribute::TableColumnIndex(x) => Payload::Size(*x),
            NodeAttribute::TableColumnHeaderId(x) => Payload::Node(*x),
            NodeAttribute::TableCellColumnIndex(x) => Payload::Size(*x),
            NodeAttribute::TableCellColumnSpan(x) => Payload::Size(*x),
            NodeAttribute::TableCellRowIndex(x) => Payload::Size(*x),
            NodeAttribute::TableCellRowSpan(x) => Payload::Size(*x),
            NodeAttribute::SortDirection(x) => Payload::SortDirection(*x),
            NodeAttribute::HierarchicalLevel(x) => Payload::Size(*x),
            NodeAttribute::SetSize(x) => Payload::Size(*x),
            NodeAttribute::PosInSet(x) => Payload::Size(*x),
            NodeAttribute::ColorValue(x) => Payload::Color(*x),
            NodeAttribute::AriaCurrent(x) => Payload::AriaCurrent(*x),
            NodeAttribute::BackgroundColor(x) => Payload::Color(*x),
            NodeAttribute::ForegroundColor(x) => Payload::Color(*x),
            NodeAttribute::HasPopup(x) => Payload::HasPopup(*x),
            NodeAttribute::ListStyle(x) => Payload::ListStyle(*x),
            NodeAttribute::TextAlign(x) => Payload::TextAlign(*x),
            NodeAttribute::VerticalOffset(x) => Payload::VerticalOffset(*x),
            NodeAttribute::TextStyle(x) => Payload::TextStyle(*x),
            NodeAttribute::PreviousFocusId(x) => Payload::Node(*x),
            NodeAttribute::NextFocusId(x) => Payload::Node(*x),
            NodeAttribute::ValueForRange(x) => Payload::Number(*x),
            NodeAttribute::MinValueForRange(x) => Payload::Number(*x),
            NodeAttribute::MaxValueForRange(x) => Payload::Number(*x),
            NodeAttribute::StepValueForRange(x) => Payload::Number(*x),
            NodeAttribute::FontSize(x) => Payload::Number(*x),
            NodeAttribute::FontWeight(x) => Payload::Number(*x),
            NodeAttribute::TextIndent(x) => Payload::Number(*x),
        }
    }
}

impl Content for NodeAttribute {
    type Model = NodeAttributeView;

    open spec fn model(&self) -> NodeAttributeView {
        self@
    }

    fn same(&self, other: &Self) -> (r: bool) {
        self.kind() == other.kind() && self.payload().same(&other.payload())
    }

    fn duplicate(&self) -> (r: Self) {
        match self {
            NodeAttribute::Name(x) => NodeAttribute::Name(x.duplicate()),
            NodeAttribute::NameFrom(x) => NodeAttribute::NameFrom(x.duplicate()),
            NodeAttribute::Description(x) => NodeAttribute::Description(x.duplicate()),
            NodeAttribute::DescriptionFrom(x) => NodeAttribute::DescriptionFrom(x.duplicate()),
            NodeAttribute::Value(x) => NodeAttribute::Value(x.duplicate()),
            NodeAttribute::Busy(x) => NodeAttribute::Busy(x.duplicate()),
            NodeAttribute::NonatomicTextFieldRoot(x) => NodeAttribute::NonatomicTextFieldRoot(x.duplicate()),
            NodeAttribute::ContainerLiveAtomic(x) => NodeAttribute::ContainerLiveAtomic(x.duplicate()),
            NodeAttribute::ContainerLiveBusy(x) => NodeAttribute::ContainerLiveBusy(x.duplicate()),
            NodeAttribute::LiveAtomic(x) => NodeAttribute::LiveAtomic(x.duplicate()),
            NodeAttribute::Modal(x) => NodeAttribute::Modal(x.duplicate()),
            NodeAttribute::CanvasHasFallback(x) => NodeAttribute::CanvasHasFallback(x.duplicate()),
            NodeAttribute::Scrollable(x) => NodeAttribute::Scrollable(x.duplicate()),
            NodeAttribute::Clickable(x) => NodeAttribute::Clickable(x.duplicate()),
            NodeAttribute::ClipsChildren(x) => NodeAttribute::ClipsChildren(x.duplicate()),
            NodeAttribute::NotUserSelectableStyle(x) => NodeAttribute::NotUserSelectableStyle(x.duplicate()),
            NodeAttribute::Selected(x) => NodeAttribute::Selected(x.duplicate()),
            NodeAttribute::SelectedFromFocus(x) => NodeAttribute::SelectedFromFocus(x.duplicate()),
            NodeAttribute::Grabbed(x) => NodeAttribute::Grabbed(x.duplicate()),
            NodeAttribute::DropEffects(x) => NodeAttribute::DropEffects(x.duplicate()),
            NodeAttribute::IsLineBreakingObject(x) => NodeAttribute::IsLineBreakingObject(x.duplicate()),
            NodeAttribute::IsPageBreakingObject(x) => NodeAttribute::IsPageBreakingObject(x.duplicate()),
            NodeAttribute::HasAriaAttribute(x) => NodeAttribute::HasAriaAttribute(x.duplicate()),
            NodeAttribute::TouchPassThrough(x) => NodeAttribute::TouchPassThrough(x.duplicate()),
            NodeAttribute::IndirectChildIds(x) => NodeAttribute::IndirectChildIds(x.duplicate()),
            NodeAttribute::ActiveDescendantId(x) => NodeAttribute::ActiveDescendantId(x.duplicate()),
            NodeAttribute::ErrorMessageId(x) => NodeAttribute::ErrorMessageId(x.duplicate()),
            NodeAttribute::InPageLinkTargetId(x) => NodeAttribute::InPageLinkTargetId(x.duplicate()),
            NodeAttribute::MemberOfId(x) => NodeAttribute::MemberOfId(x.duplicate()),
            NodeAttribute::NextOnLineId(x) => NodeAttribute::NextOnLineId(x.duplicate()),
            NodeAttribute::PreviousOnLineId(x) => NodeAttribute::PreviousOnLineId(x.duplicate()),
            NodeAttribute::PopupForId(x) => NodeAttribute::PopupForId(x.duplicate()),
            NodeAttribute::ControlsIds(x) => NodeAttribute::ControlsIds(x.duplicate()),
            NodeAttribute::DetailsIds(x) => NodeAttribute::DetailsIds(x.duplicate()),
            NodeAttribute::DescribedByIds(x) => NodeAttribute::DescribedByIds(x.duplicate()),
            NodeAttribute::FlowToIds(x) => NodeAttribute::FlowToIds(x.duplicate()),
            NodeAttribute::LabelledByIds(x) => NodeAttribute::LabelledByIds(x.duplicate()),
            NodeAttribute::RadioGroupIds(x) => NodeAttribute::RadioGroupIds(x.duplicate()),
            NodeAttribute::Markers(x) => NodeAttribute::Markers(x.duplicate()),
            NodeAttribute::TextDirection(x) => NodeAttribute::TextDirection(x.duplicate()),
            NodeAttribute::CharacterOffsets(x) => NodeAttribute::CharacterOffsets(x.duplicate()),
            NodeAttribute::Words(x) => NodeAttribute::Words(x.duplicate()),
            NodeAttribute::CustomActions(x) => NodeAttribute::CustomActions(x.duplicate()),
            NodeAttribute::AccessKey(x) => NodeAttribute::AccessKey(x.duplicate()),
            NodeAttribute::InvalidState(x) => NodeAttribute::InvalidState(x.duplicate()),
            NodeAttribute::AutoComplete(x) => NodeAttribute::AutoComplete(x.duplicate()),
            NodeAttribute::CheckedState(x) => NodeAttribute::CheckedState(x.duplicate()),
            NodeAttribute::CheckedStateDescription(x) => NodeAttribute::CheckedStateDescription(x.duplicate()),
            NodeAttribute::ChildTreeId(x) => NodeAttribute::ChildTreeId(x.duplicate()),
            NodeAttribute::ClassName(x) => NodeAttribute::ClassName(x.duplicate()),
            NodeAttribute::ContainerLiveRelevant(x) => NodeAttribute::ContainerLiveRelevant(x.duplicate()),
            NodeAttribute::ContainerLiveStatus(x) => NodeAttribute::ContainerLiveStatus(x.duplicate()),
            NodeAttribute::CssDisplay(x) => NodeAttribute::CssDisplay(x.duplicate()),
            NodeAttribute::FontFamily(x) => NodeAttribute::FontFamily(x.duplicate()),
            NodeAttribute::HtmlTag(x) => NodeAttribute::HtmlTag(x.duplicate()),
            NodeAttribute::InnerHtml(x) => NodeAttribute::InnerHtml(x.duplicate()),
            NodeAttribute::InputType(x) => NodeAttribute::InputType(x.duplicate()),
            NodeAttribute::KeyShortcuts(x) => NodeAttribute::KeyShortcuts(x.duplicate()),
            NodeAttribute::Language(x) => NodeAttribute::Language(x.duplicate()),
            NodeAttribute::LiveRelevant(x) => NodeAttribute::LiveRelevant(x.duplicate()),
            NodeAttribute::LiveStatus(x) => NodeAttribute::LiveStatus(x.duplicate()),
            NodeAttribute::Placeholder(x) => NodeAttribute::Placeholder(x.duplicate()),
            NodeAttribute::CustomRole(x) => NodeAttribute::CustomRole(x.duplicate()),
            NodeAttribute::RoleDescription(x) => NodeAttribute::RoleDescription(x.duplicate()),
            NodeAttribute::Tooltip(x) => NodeAttribute::Tooltip(x.duplicate()),
            NodeAttribute::Url(x) => NodeAttribute::Url(x.duplicate()),
            NodeAttribute::DefaultActionVerb(x) => NodeAttribute::DefaultActionVerb(x.duplicate()),
            NodeAttribute::ScrollX(x) => NodeAttribute::ScrollX(x.duplicate()),
            NodeAttribute::ScrollXMin(x) => NodeAttribute::ScrollXMin(x.duplicate()),
            NodeAttribute::ScrollXMax(x) => NodeAttribute::ScrollXMax(x.duplicate()),
            NodeAttribute::ScrollY(x) => NodeAttribute::ScrollY(x.duplicate()),
            NodeAttribute::ScrollYMin(x) => NodeAttribute::ScrollYMin(x.duplicate()),
            NodeAttribute::ScrollYMax(x) => NodeAttribute::ScrollYMax(x.duplicate()),
            NodeAttribute::TextSelection(x) => NodeAttribute::TextSelection(x.duplicate()),
            NodeAttribute::AriaColumnCount(x) => NodeAttribute::AriaColumnCount(x.duplicate()),
            NodeAttribute::AriaCellColumnIndex(x) => NodeAttribute::AriaCellColumnIndex(x.duplicate()),
            NodeAttribute::AriaCellColumnSpan(x) => NodeAttribute::AriaCellColumnSpan(x.duplicate()),
            NodeAttribute::AriaRowCount(x) => NodeAttribute::AriaRowCount(x.duplicate()),
            NodeAttribute::AriaCellRowIndex(x) => NodeAttribute::AriaCellRowIndex(x.duplicate()),
            NodeAttribute::AriaCellRowSpan(x) => NodeAttribute::AriaCellRowSpan(x.duplicate()),
            NodeAttribute::TableRowCount(x) => NodeAttribute::TableRowCount(x.duplicate()),
            NodeAttribute::TableColumnCount(x) => NodeAttribute::TableColumnCount(x.duplicate()),
            NodeAttribute::TableHeaderId(x) => NodeAttribute::TableHeaderId(x.duplicate()),
            NodeAttribute::TableRowIndex(x) => NodeAttribute::TableRowIndex(x.duplicate()),
            NodeAttribute::TableRowHeaderId(x) => NodeAttribute::TableRowHeaderId(x.duplicate()),
            NodeAttribute::TableColumnIndex(x) => NodeAttribute::TableColumnIndex(x.duplicate()),
            NodeAttribute::TableColumnHeaderId(x) => NodeAttribute::TableColumnHeaderId(x.duplicate()),
            NodeAttribute::TableCellColumnIndex(x) => NodeAttribute::TableCellColumnIndex(x.duplicate()),
            NodeAttribute::TableCellColumnSpan(x) => NodeAttribute::TableCellColumnSpan(x.duplicate()),
            NodeAttribute::TableCellRowIndex(x) => NodeAttribute::TableCellRowIndex(x.duplicate()),
            NodeAttribute::TableCellRowSpan(x) => NodeAttribute::TableCellRowSpan(x.duplicate()),
            NodeAttribute::SortDirection(x) => NodeAttribute::SortDirection(x.duplicate()),
            NodeAttribute::HierarchicalLevel(x) => NodeAttribute::HierarchicalLevel(x.duplicate()),
            NodeAttribute::SetSize(x) => NodeAttribute::SetSize(x.duplicate()),
            NodeAttribute::PosInSet(x) => NodeAttribute::PosInSet(x.duplicate()),
            NodeAttribute::ColorValue(x) => NodeAttribute::ColorValue(x.duplicate()),
            NodeAttribute::AriaCurrent(x) => NodeAttribute::AriaCurrent(x.duplicate()),
            NodeAttribute::BackgroundColor(x) => NodeAttribute::BackgroundColor(x.duplicate()),
            NodeAttribute::ForegroundColor(x) => NodeAttribute::ForegroundColor(x.duplicate()),
            NodeAttribute::HasPopup(x) => NodeAttribute::HasPopup(x.duplicate()),
            NodeAttribute::ListStyle(x) => NodeAttribute::ListStyle(x.duplicate()),
            NodeAttribute::TextAlign(x) => NodeAttribute::TextAlign(x.duplicate()),
            NodeAttribute::VerticalOffset(x) => NodeAttribute::VerticalOffset(x.duplicate()),
            NodeAttribute::TextStyle(x) => NodeAttribute::TextStyle(x.duplicate()),
            NodeAttribute::PreviousFocusId(x) => NodeAttribute::PreviousFocusId(x.duplicate()),
            NodeAttribute::NextFocusId(x) => NodeAttribute::NextFocusId(x.duplicate()),
            NodeAttribute::ValueForRange(x) => NodeAttribute::ValueForRange(x.duplicate()),
            NodeAttribute::MinValueForRange(x) => NodeAttribute::MinValueForRange(x.duplicate()),
            NodeAttribute::MaxValueForRange(x) => NodeAttribute::MaxValueForRange(x.duplicate()),
            NodeAttribute::StepValueForRange(x) => NodeAttribute::StepValueForRange(x.duplicate()),
            NodeAttribute::FontSize(x) => NodeAttribute::FontSize(x.duplicate()),
            NodeAttribute::FontWeight(x) => NodeAttribute::FontWeight(x.duplicate()),
            NodeAttribute::TextIndent(x) => NodeAttribute::TextIndent(x.duplicate()),
        }
    }
}

impl Clone for NodeAttribute {
    fn clone(&self) -> (r: Self)
        ensures
            r@ == self@,
    {
        self.duplicate()
    }
}

impl PartialEq for NodeAttribute {
    fn eq(&self, other: &Self) -> (r: bool) {
        self.same(other)
    }
}

impl PartialEqSpecImpl for NodeAttribute {
    open spec fn obeys_eq_spec() -> bool {
        true
    }

    open spec fn eq_spec(&self, other: &Self) -> bool {
        self@ == other@
    }
}

} // verus!
