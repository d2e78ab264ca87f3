//! The bridge between a tree and the accessibility interface of a window:
//! it builds the tree when the first query arrives, and says which native
//! calls an update asks for.

pub mod init;
pub mod laws;
pub mod lazy;
pub mod manager;
pub mod node;
pub mod notify;
pub mod query;

pub use init::InitTree;
pub use lazy::{LazyModel, LazyTree};
pub use manager::{Manager, ManagerModel};
pub use node::{PlatformNode, PlatformNodeView};
pub use notify::{Announcement, AnnouncementView, Notification, NotificationView, Property};
