//! Pure window-management logic for Mochi.
//!
//! Everything in this crate is platform independent. There is no Win32 here, no
//! threads and no IO: the daemon owns one [`State`], feeds events into it, and
//! gets a [`Changes`] back telling it which windows to move, show, hide or
//! focus.

use vstd::prelude::*;

pub mod animation;
pub mod client;
pub mod config;
pub mod error;
pub mod geometry;
pub mod layout;
pub mod model;
pub mod names;
pub mod neighbours;
pub mod ops;
pub mod rules;
pub mod rulings;
pub mod seqs;
pub mod shapes;
pub mod spelling;
pub mod text;

pub use error::{Error, Result};
pub use geometry::{Axis, Direction, Offset, Rect};
pub use layout::{Flip, Layout, Sizing};
pub use model::{Changes, Container, CycleDirection, Monitor, State, Window, WindowId, Workspace};
pub use rules::{MatchingRule, RuleSets, WindowInfo};

verus! {

/// The highest workspace index the manager will create on demand.
///
/// Nine is what the hotkeys go up to, and a workspace that cannot be reached
/// from the keyboard is a place for windows to get lost in.
pub const MAX_WORKSPACES: usize = 9;

} // verus!
