//! What the daemon writes back for every command it receives.

use serde_json::Value as JsonValue;
use vstd::prelude::*;

use crate::text::owned;

verus! {

/// A JSON document, carried without looking inside.
#[verifier::external_type_specification]
#[verifier::external_body]
pub struct ExJsonValue(JsonValue);

/// The `clone` of `serde_json::Value` gives the same document.
pub assume_specification[ <JsonValue as Clone>::clone ](value: &JsonValue) -> (r: JsonValue)
    ensures
        r == *value,
;

/// The daemon's answer to a [`Command`](crate::client::Command).
///
/// Exactly one response is written per command, on its own line.
#[derive(Debug, Clone, PartialEq)]
pub enum Response {
    /// The command was accepted and carried out. Nothing to report. Travels as
    /// `{"response":"ok"}`.
    Done,
    /// The command failed. `message` is meant to be shown to a human.
    Error {
        /// Human readable failure reason.
        message: String,
    },
    /// The full daemon state, as produced by `{"cmd":"state"}`.
    State {
        /// Opaque state document. Its shape is owned by the daemon.
        state: JsonValue,
    },
    /// The answer to a `{"cmd":"query"}`.
    Query {
        /// A single JSON scalar: number, string or boolean.
        answer: JsonValue,
    },
    /// What Mochi makes of one window, as produced by `{"cmd":"why"}`.
    Why {
        /// Opaque explanation document. Its shape is owned by the daemon; the
        /// paragraph `mochic why` prints is only a rendering of it.
        why: JsonValue,
    },
    /// The bindings the hotkey daemon holds, as produced by `{"cmd":"hotkeys"}`.
    Hotkeys {
        /// Opaque bindings document. Its shape is owned by the daemon; the
        /// table `mochic hotkeys` prints is only a rendering of it.
        hotkeys: JsonValue,
    },
}

impl Response {
    /// Builds a [`Response::Error`] from a message.
    #[must_use]
    pub fn error(message: &str) -> (r: Self)
        ensures
            r matches Response::Error { message: held } && held@ == message@,
    {
        Response::Error { message: owned(message) }
    }

    /// True for everything but [`Response::Error`].
    #[must_use]
    pub fn is_ok(&self) -> (r: bool)
        ensures
            r == !(self is Error),
    {
        !matches!(self, Response::Error { .. })
    }

    /// The error message, if this is an error.
    #[must_use]
    pub fn error_message(&self) -> (r: Option<&str>)
        ensures
            match r {
                Some(text) => self matches Response::Error { message } && text@ == message@,
                None => !(self is Error),
            },
    {
        match self {
            Response::Error { message } => Some(message.as_str()),
            _ => None,
        }
    }
}

} // verus!
