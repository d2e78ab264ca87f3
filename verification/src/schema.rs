//! The data model of the accessibility tree: pure values, with no validation.

pub mod attribute;
pub mod content;
pub mod geometry;
pub mod id;
pub mod kinds;
pub mod node;
pub mod role;
pub mod state;
pub mod tree;

pub use attribute::{AttributeKind, AttributeValue, NodeAttribute, NodeAttributeView};
pub use content::Content;
pub use geometry::{FloatBits, Rect, RelativeBounds, RelativeBoundsView, Transform};
pub use id::NodeId;
pub use kinds::{
    AriaCurrent, CheckedState, DefaultActionVerb, DescriptionFrom, HasPopup, InvalidState,
    InvalidStateView, ListStyle, MarkerType, NameFrom, SortDirection, TextAlign, TextDecoration,
    TextDirection, VerticalOffset,
};
pub use node::{Node, NodeView};
pub use role::{Action, Role};
pub use state::{
    CustomAction, CustomActionView, DropEffects, NodeState, TextMarker, TextMarkerView, TextStyle,
};
pub use tree::{Tree, TreeUpdate, TreeUpdateView, TreeView};
