//! Wire types and the client side of the Mochi daemon.
//!
//! # Protocol
//!
//! The daemon listens on the named pipe `\\.\pipe\mochi` ([`PIPE_NAME`]) in byte
//! mode. The framing is newline delimited JSON: one JSON value per line, `\n`
//! terminated, UTF-8. See [`protocol`] for the reader and writer.
//!
//! A command exchange is one round trip:
//!
//! 1. the client connects to `\\.\pipe\mochi`,
//! 2. writes exactly one [`Command`] line,
//! 3. reads exactly one [`Response`] line,
//! 4. closes the connection.
//!
//! Subscriptions go the other way round. The subscriber creates its own pipe,
//! sends [`Command::SubscribePipe`], and the daemon connects to that pipe and
//! writes [`Notification`] lines until the pipe breaks. See [`subscribe`].

pub mod cli;
pub mod command;
pub mod notification;
pub mod pipe;
pub mod protocol;
pub mod response;
pub mod security;
pub mod subscribe;
pub mod wire;

pub use command::Command;
pub use notification::{Notification, NotificationEvent, SessionChangeKind, WindowRef};
pub use pipe::{is_running, Error, Result, PIPE_NAME, PIPE_PREFIX};
pub use response::Response;
pub use subscribe::{validate_pipe_name, Subscription};
pub use wire::{
    AnimationStyle, Axis, BooleanState, BorderStyle, ContainerBehaviour, CycleDirection, Direction,
    HidingBehaviour, Layout, MatchingStrategy, MoveBehaviour, OperationBehaviour, ParseEnumError,
    QueryTarget, RuleIdentifier, Sizing, WindowKind,
};
