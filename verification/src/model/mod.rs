//! The window manager tree: monitor, workspace, container, window.
//!
//! Every level is a [`Ring`]: an ordered list that remembers which element is
//! focused. A [`State`] holds a ring of [`Monitor`]s, each monitor a ring of
//! [`Workspace`]s, each workspace a ring of [`Container`]s, and each container
//! a ring of [`Window`]s of which only the focused one is visible.
//!
//! Nothing here touches the operating system. A [`Window`] is an opaque
//! [`WindowId`] plus the metadata the daemon caches for it, and every mutating
//! operation reports what it changed through [`Changes`].

pub mod areas;
pub mod census;
pub mod changes;
pub mod container;
pub mod holding;
pub mod laws;
pub mod merging;
pub mod monitor;
pub mod ring;
pub mod rotation;
pub mod scale;
pub mod single;
pub mod state;
pub mod window;
pub mod workspace;

pub use changes::{Changes, WorkspaceRef};
pub use container::Container;
pub use monitor::Monitor;
pub use ring::{CycleDirection, Ring};
pub use scale::{scale_padding, Scale, DEFAULT_DPI};
pub use state::{
    FocusFollowsMouseImplementation, HidingBehaviour, MoveBehaviour, OperationBehaviour, State,
    WindowContainerBehaviour, WindowManager,
};
pub use window::{Window, WindowId};
pub use workspace::Workspace;
