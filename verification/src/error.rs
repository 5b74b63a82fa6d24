//! The error type every fallible operation in this crate returns.

use serde_json::Error as JsonError;
use vstd::prelude::*;

use crate::model::window::WindowId;
use crate::rules::ApplicationIdentifier;
use crate::text::{append, decimal, decimal_of, owned};
use crate::MAX_WORKSPACES;

verus! {

/// Everything that can go wrong in pure window-management logic.
///
/// The variants are cheap to clone and compare so they can travel over the IPC
/// wire without losing information.
#[derive(Debug, Clone, PartialEq, Eq)]
#[non_exhaustive]
#[allow(inconsistent_fields)]
pub enum Error {
    /// There are no monitors, or the focused index points past the end.
    NoFocusedMonitor,
    /// The focused monitor has no workspaces.
    NoFocusedWorkspace(usize),
    /// An operation needed a focused window and there was none.
    NoFocusedWindow,
    /// An operation needed a focused container and there was none.
    NoFocusedContainer,
    /// The monitor index does not exist.
    MonitorNotFound(usize),
    /// The workspace index does not exist on that monitor.
    WorkspaceNotFound {
        /// The monitor that was searched.
        monitor: usize,
        /// The workspace index that was asked for.
        workspace: usize,
    },
    /// No workspace carries this name.
    WorkspaceNameNotFound(String),
    /// The window is not managed by any workspace.
    WindowNotFound(WindowId),
    /// Workspaces are created on demand, but only up to
    /// [`MAX_WORKSPACES`](crate::MAX_WORKSPACES).
    WorkspaceIndexOutOfRange(usize),
    /// The operation only makes sense with more than one of something.
    NothingToDo(&'static str),
    /// A string could not be parsed into one of the small enums.
    Parse {
        /// The kind of value that was expected, for example `direction`.
        kind: &'static str,
        /// The string that could not be parsed.
        value: String,
    },
    /// A rule carried a pattern that is not a valid regular expression.
    InvalidRegex {
        /// The pattern as written in the config.
        pattern: String,
        /// The compiler's complaint.
        message: String,
    },
    /// A rule carried an empty identifier, which names no window and would be
    /// a wildcard for the substring strategies.
    EmptyRuleId {
        /// The piece of window metadata the rule looks at.
        kind: ApplicationIdentifier,
    },
    /// JSON could not be turned into a config or a rule set.
    Json(String),
}

/// A [`Result`](std::result::Result) with this crate's [`Error`].
pub type Result<T> = std::result::Result<T, Error>;

/// What an [`Error`] holds.
#[allow(inconsistent_fields)]
pub ghost enum ErrorView {
    /// There are no monitors.
    NoFocusedMonitor,
    /// The focused monitor has no workspaces.
    NoFocusedWorkspace(int),
    /// There is no focused window.
    NoFocusedWindow,
    /// There is no focused container.
    NoFocusedContainer,
    /// The monitor index does not exist.
    MonitorNotFound(int),
    /// The workspace index does not exist on that monitor.
    WorkspaceNotFound {
        /// The monitor that was searched.
        monitor: int,
        /// The workspace index that was asked for.
        workspace: int,
    },
    /// No workspace carries this name.
    WorkspaceNameNotFound(Seq<char>),
    /// The window is not managed by any workspace.
    WindowNotFound(WindowId),
    /// The workspace index is out of range.
    WorkspaceIndexOutOfRange(int),
    /// There is nothing to do.
    NothingToDo(Seq<char>),
    /// A string could not be parsed.
    Parse {
        /// The kind of value that was expected.
        kind: Seq<char>,
        /// The string that could not be parsed.
        value: Seq<char>,
    },
    /// A pattern is not a valid regular expression.
    InvalidRegex {
        /// The pattern as written in the config.
        pattern: Seq<char>,
        /// The compiler's complaint.
        message: Seq<char>,
    },
    /// A rule carried an empty identifier.
    EmptyRuleId {
        /// The piece of window metadata the rule looks at.
        kind: ApplicationIdentifier,
    },
    /// JSON could not be read.
    Json(Seq<char>),
}

/// A text in double quotes, with the characters that would not print escaped,
/// as the standard library's debug formatting writes it.
pub uninterp spec fn quoted(text: Seq<char>) -> Seq<char>;

/// Formats a text with the standard library's `{:?}`.
///
/// Claimed: the result is fixed by the text. Which characters are escaped, and
/// how, is left to the standard library.
#[verifier::external_body]
fn quote(text: &str) -> (r: String)
    ensures
        r@ == quoted(text@),
{
    format!("{text:?}")
}

impl ErrorView {
    /// The message of the error.
    pub open spec fn message(self) -> Seq<char> {
        match self {
            ErrorView::NoFocusedMonitor => "no monitor is focused"@,
            ErrorView::NoFocusedWorkspace(monitor) => "monitor "@ + decimal_of(monitor as nat)
                + " has no focused workspace"@,
            ErrorView::NoFocusedWindow => "no window is focused"@,
            ErrorView::NoFocusedContainer => "no container is focused"@,
            ErrorView::MonitorNotFound(monitor) => "monitor "@ + decimal_of(monitor as nat)
                + " does not exist"@,
            ErrorView::WorkspaceNotFound { monitor, workspace } => "workspace "@ + decimal_of(
                workspace as nat,
            ) + " does not exist on monitor "@ + decimal_of(monitor as nat),
            ErrorView::WorkspaceNameNotFound(name) => "no workspace is named "@ + quoted(name),
            ErrorView::WindowNotFound(id) => "window "@ + id.name() + " is not managed"@,
            ErrorView::WorkspaceIndexOutOfRange(idx) => "workspace index "@ + decimal_of(
                idx as nat,
            ) + " is out of range, at most "@ + decimal_of(MAX_WORKSPACES as nat)
                + " workspaces are supported"@,
            ErrorView::NothingToDo(reason) => reason,
            ErrorView::Parse { kind, value } => quoted(value) + " is not a valid "@ + kind,
            ErrorView::InvalidRegex { pattern, message } => "invalid regular expression "@ + quoted(
                pattern,
            ) + ": "@ + message,
            ErrorView::EmptyRuleId { kind } => "a "@ + kind.name()
                + " rule has an empty id, which would match every window"@,
            ErrorView::Json(message) => "invalid json: "@ + message,
        }
    }
}

impl View for Error {
    type V = ErrorView;

    open spec fn view(&self) -> ErrorView {
        match self {
            Error::NoFocusedMonitor => ErrorView::NoFocusedMonitor,
            Error::NoFocusedWorkspace(monitor) => ErrorView::NoFocusedWorkspace(*monitor as int),
            Error::NoFocusedWindow => ErrorView::NoFocusedWindow,
            Error::NoFocusedContainer => ErrorView::NoFocusedContainer,
            Error::MonitorNotFound(monitor) => ErrorView::MonitorNotFound(*monitor as int),
            Error::WorkspaceNotFound { monitor, workspace } => ErrorView::WorkspaceNotFound {
                monitor: *monitor as int,
                workspace: *workspace as int,
            },
            Error::WorkspaceNameNotFound(name) => ErrorView::WorkspaceNameNotFound(name@),
            Error::WindowNotFound(id) => ErrorView::WindowNotFound(*id),
            Error::WorkspaceIndexOutOfRange(idx) => ErrorView::WorkspaceIndexOutOfRange(
                *idx as int,
            ),
            Error::NothingToDo(reason) => ErrorView::NothingToDo(reason@),
            Error::Parse { kind, value } => ErrorView::Parse { kind: kind@, value: value@ },
            Error::InvalidRegex { pattern, message } => ErrorView::InvalidRegex {
                pattern: pattern@,
                message: message@,
            },
            Error::EmptyRuleId { kind } => ErrorView::EmptyRuleId { kind: *kind },
            Error::Json(message) => ErrorView::Json(message@),
        }
    }
}

/// The views of some errors.
pub open spec fn error_views(errors: Seq<Error>) -> Seq<ErrorView> {
    errors.map_values(|error: Error| error@)
}

/// The parts of a message, one after the other.
fn joined(a: &str, b: &str, c: &str) -> (r: String)
    ensures
        r@ == a@ + b@ + c@,
{
    let mut text = owned(a);
    append(&mut text, b);
    append(&mut text, c);
    text
}

impl Error {
    /// `true` for the parse error about `value` as a `kind`.
    pub open spec fn is_parse(self, kind: Seq<char>, value: Seq<char>) -> bool {
        self@ == (ErrorView::Parse { kind, value })
    }

    /// The message of the error.
    pub fn to_string(&self) -> (r: String)
        ensures
            r@ == self@.message(),
    {
        match self {
            Error::NoFocusedMonitor => owned("no monitor is focused"),
            Error::NoFocusedWorkspace(monitor) => joined(
                "monitor ",
                decimal(*monitor as u64).as_str(),
                " has no focused workspace",
            ),
            Error::NoFocusedWindow => owned("no window is focused"),
            Error::NoFocusedContainer => owned("no container is focused"),
            Error::MonitorNotFound(monitor) => joined(
                "monitor ",
                decimal(*monitor as u64).as_str(),
                " does not exist",
            ),
            Error::WorkspaceNotFound { monitor, workspace } => {
                let mut text = joined(
                    "workspace ",
                    decimal(*workspace as u64).as_str(),
                    " does not exist on monitor ",
                );
                append(&mut text, decimal(*monitor as u64).as_str());
                text
            },
            Error::WorkspaceNameNotFound(name) => {
                let mut text = owned("no workspace is named ");
                append(&mut text, quote(name.as_str()).as_str());
                text
            },
            Error::WindowNotFound(id) => joined("window ", id.to_string().as_str(), " is not managed"),
            Error::WorkspaceIndexOutOfRange(idx) => {
                let mut text = joined(
                    "workspace index ",
                    decimal(*idx as u64).as_str(),
                    " is out of range, at most ",
                );
                append(&mut text, decimal(MAX_WORKSPACES as u64).as_str());
                append(&mut text, " workspaces are supported");
                text
            },
            Error::NothingToDo(reason) => owned(reason),
            Error::Parse { kind, value } => joined(
                quote(value.as_str()).as_str(),
                " is not a valid ",
                kind,
            ),
            Error::InvalidRegex { pattern, message } => {
                let mut text = joined(
                    "invalid regular expression ",
                    quote(pattern.as_str()).as_str(),
                    ": ",
                );
                append(&mut text, message.as_str());
                text
            },
            Error::EmptyRuleId { kind } => joined(
                "a ",
                kind.to_string().as_str(),
                " rule has an empty id, which would match every window",
            ),
            Error::Json(message) => {
                let mut text = owned("invalid json: ");
                append(&mut text, message.as_str());
                text
            },
        }
    }
}

/// An error of the JSON reader.
#[verifier::external_type_specification]
#[verifier::external_body]
pub struct ExJsonError(JsonError);

impl From<JsonError> for Error {
    fn from(error: JsonError) -> (r: Self)
        ensures
            r matches Error::Json(message)
                && vstd::string::to_string_from_display_ensures(&error, message),
    {
        Error::Json(error.to_string())
    }
}

impl vstd::std_specs::convert::FromSpecImpl<JsonError> for Error {
    open spec fn obeys_from_spec() -> bool {
        false
    }

    open spec fn from_spec(error: JsonError) -> Self {
        arbitrary()
    }
}

} // verus!
