//! What a client of the daemon's command pipe makes of what happens on it.
//!
//! Opening the pipe, writing to it and reading from it is somebody else's work.
//! What to do with each outcome is decided here.

use vstd::prelude::*;

use crate::client::response::Response;
use crate::text::{append, owned};

verus! {

/// Full path of the pipe the daemon listens on.
pub const PIPE_NAME: &'static str = "\\\\.\\pipe\\mochi";

/// Prefix every Mochi pipe shares. Subscriber pipes are `PIPE_PREFIX` + name.
pub const PIPE_PREFIX: &'static str = "\\\\.\\pipe\\";

/// The daemon's own pipe name, without the prefix.
///
/// A subscriber may not claim it: writing the notification stream into the
/// command channel makes the daemon talk to itself.
pub const PIPE_SUFFIX: &'static str = "mochi";

/// How long to keep retrying while the pipe exists but every instance is busy, in
/// milliseconds.
pub const BUSY_RETRY_MS: u64 = 2000;

/// How long to wait before the next try, in milliseconds.
pub const BUSY_PAUSE_MS: u64 = 20;

/// What sort of I/O error it is.
#[derive(Debug, Clone, Copy, PartialEq, Eq, Hash, Structural)]
pub enum FaultKind {
    /// An argument that cannot be used.
    InvalidInput,
    /// Data that is not what it should be.
    InvalidData,
    /// Anything else.
    Other,
}

/// An I/O error.
#[derive(Debug, Clone, PartialEq, Eq)]
pub struct IoFault {
    /// What sort of error it is.
    pub kind: FaultKind,
    /// The code of the error, if the operating system gave one.
    pub code: Option<i32>,
    /// What the error says.
    pub message: String,
}

/// Everything that can go wrong while talking to the daemon.
#[derive(Debug, Clone, PartialEq, Eq)]
pub enum Error {
    /// No pipe at [`PIPE_NAME`]: the daemon is not running.
    NotRunning,
    /// The daemon accepted the connection but never answered.
    NoResponse,
    /// The daemon answered with [`Response::Error`].
    Daemon(String),
    /// Anything the operating system reported.
    Io(IoFault),
}

/// `Result` alias for this module.
pub type Result<T> = std::result::Result<T, Error>;

impl Error {
    /// What the error says.
    pub open spec fn message(self) -> Seq<char> {
        match self {
            Error::NotRunning => "mochi is not running (no pipe at "@ + PIPE_NAME@ + ")"@,
            Error::NoResponse => "mochi accepted the connection but closed it without answering"@,
            Error::Daemon(message) => message@,
            Error::Io(fault) => "pipe I/O failed: "@ + fault.message@,
        }
    }

    /// What the error says.
    #[must_use]
    pub fn to_string(&self) -> (r: String)
        ensures
            r@ == self.message(),
    {
        match self {
            Error::NotRunning => {
                let mut r = owned("mochi is not running (no pipe at ");
                append(&mut r, PIPE_NAME);
                append(&mut r, ")");
                r
            },
            Error::NoResponse => owned(
                "mochi accepted the connection but closed it without answering",
            ),
            Error::Daemon(message) => owned(message.as_str()),
            Error::Io(fault) => {
                let mut r = owned("pipe I/O failed: ");
                append(&mut r, fault.message.as_str());
                r
            },
        }
    }
}

/// What to do after an attempt to open the pipe has failed.
#[derive(Debug, Clone, Copy, PartialEq, Eq, Structural)]
pub enum Retry {
    /// Nobody is listening.
    NotRunning,
    /// Every instance is taken, try again shortly.
    Again,
    /// Give up and report the error.
    GiveUp,
}

/// What to do after an attempt to open the pipe has failed with this code, before
/// the deadline or after it.
///
/// `ERROR_FILE_NOT_FOUND` and `ERROR_PATH_NOT_FOUND` mean that nobody is
/// listening, `ERROR_PIPE_BUSY` that every instance is taken.
#[must_use]
pub fn after_failed_open(code: Option<i32>, before_deadline: bool) -> (r: Retry)
    ensures
        r == if code == Some(2i32) || code == Some(3i32) {
            Retry::NotRunning
        } else if code == Some(231i32) && before_deadline {
            Retry::Again
        } else {
            Retry::GiveUp
        },
{
    match code {
        Some(code) => if code == 2 || code == 3 {
            Retry::NotRunning
        } else if code == 231 && before_deadline {
            Retry::Again
        } else {
            Retry::GiveUp
        },
        None => Retry::GiveUp,
    }
}

/// What one exchange with the daemon comes to, given the line it answered with,
/// if it answered at all.
///
/// # Errors
///
/// Returns [`Error::NoResponse`] when there was no answer, and [`Error::Daemon`]
/// when the answer is an error.
pub fn outcome(answer: Option<Response>) -> (r: Result<Response>)
    ensures
        match answer {
            None => r == Err::<Response, Error>(Error::NoResponse),
            Some(Response::Error { message }) => r == Err::<Response, Error>(
                Error::Daemon(message),
            ),
            Some(other) => r == Ok::<Response, Error>(other),
        },
{
    match answer {
        None => Err(Error::NoResponse),
        Some(Response::Error { message }) => Err(Error::Daemon(message)),
        Some(other) => Ok(other),
    }
}

/// True when the daemon's pipe exists and accepts connections, given what an
/// attempt to connect to it came to.
///
/// Busy or permission denied still means something is listening.
#[must_use]
pub fn is_running(attempt: &Result<()>) -> (r: bool)
    ensures
        r == !(attempt matches Err(error) && error is NotRunning),
{
    match attempt {
        Err(Error::NotRunning) => false,
        _ => true,
    }
}

/// The daemon's pipe is the one every pipe of Mochi would have under its name.
pub proof fn the_pipe_name_has_the_prefix()
    ensures
        PIPE_NAME@ == PIPE_PREFIX@ + PIPE_SUFFIX@,
{
    reveal_strlit("\\\\.\\pipe\\mochi");
    reveal_strlit("\\\\.\\pipe\\");
    reveal_strlit("mochi");
    assert(PIPE_NAME@ =~= PIPE_PREFIX@ + PIPE_SUFFIX@);
}

} // verus!
