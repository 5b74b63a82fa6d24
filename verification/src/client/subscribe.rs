//! Subscriber side of the notification protocol.
//!
//! The subscriber owns the pipe. It creates `\\.\pipe\<name>`, tells the daemon
//! about it with [`Command::SubscribePipe`], and the daemon connects as a
//! client and writes one JSON notification per line. That way a bar can be
//! started before or after the daemon and neither has to guess.

use vstd::prelude::*;
use vstd::utf8::encode_utf8;

use crate::client::command::Command;
use crate::client::pipe::{
    the_pipe_name_has_the_prefix, Error, FaultKind, IoFault, Result, PIPE_NAME, PIPE_PREFIX,
    PIPE_SUFFIX,
};
use crate::text::{append, chars_of, owned, same};

verus! {

/// Buffer size of a subscriber pipe, in bytes.
pub const PIPE_BUFFER_BYTES: u32 = 64 * 1024;

/// `true` for the control characters of Unicode.
pub open spec fn is_control(c: char) -> bool {
    c <= '\u{1f}' || ('\u{7f}' <= c && c <= '\u{9f}')
}

/// `true` for a character that has no place in a pipe name.
pub open spec fn is_unfit(c: char) -> bool {
    c == '\\' || c == '/' || c == ':' || is_control(c)
}

/// `true` for a name that stays in the pipe namespace and is not the daemon's own:
/// not empty, not a dot or two, at most 200 bytes long, and without a separator or
/// a control character.
pub open spec fn is_pipe_name(name: Seq<char>) -> bool {
    &&& name.len() > 0
    &&& name != "."@
    &&& name != ".."@
    &&& name != PIPE_SUFFIX@
    &&& encode_utf8(name).len() <= 200
    &&& forall|i: int| 0 <= i < name.len() ==> !is_unfit(#[trigger] name[i])
}

/// `fault` is the refusal of a name that cannot be used: invalid input, not from
/// the operating system, with the name in its message.
pub open spec fn refuses(fault: IoFault, name: Seq<char>) -> bool {
    &&& fault.kind == FaultKind::InvalidInput
    &&& fault.code is None
    &&& fault.message@ == "`"@ + name + "` is not a usable pipe name"@
}

fn has_unfit(name: &str) -> (r: bool)
    ensures
        r == exists|i: int| 0 <= i < name@.len() && is_unfit(#[trigger] name@[i]),
{
    let chars = chars_of(name);
    for i in 0..chars.len()
        invariant
            chars@ == name@,
            forall|j: int| 0 <= j < i ==> !is_unfit(#[trigger] name@[j]),
    {
        let c = chars[i];
        if c == '\\' || c == '/' || c == ':' || c <= '\u{1f}' || ('\u{7f}' <= c && c
            <= '\u{9f}') {
            assert(is_unfit(name@[i as int]));
            return true;
        }
    }
    false
}

/// Rejects pipe names that would escape the `\\.\pipe\` namespace, and the name of
/// the daemon's own pipe.
///
/// The daemon calls this on the name a client sends it, not just the subscriber
/// on its own name. `\\.\pipe\` is a device namespace, so a name containing a
/// separator turns into a path to something that is not a pipe at all, and the
/// daemon would write its notification stream straight into it.
///
/// # Errors
///
/// Returns [`Error::Io`] of kind [`FaultKind::InvalidInput`] for a name that
/// cannot be used.
pub fn validate_pipe_name(name: &str) -> (r: Result<()>)
    ensures
        match r {
            Ok(()) => is_pipe_name(name@),
            Err(error) => {
                &&& !is_pipe_name(name@)
                &&& error matches Error::Io(fault) && refuses(fault, name@)
            },
        },
{
    let bad = name.is_empty() || same(name, ".") || same(name, "..") || same(name, PIPE_SUFFIX)
        || name.as_bytes().len() > 200 || has_unfit(name);
    if bad {
        let mut message = owned("`");
        append(&mut message, name);
        append(&mut message, "` is not a usable pipe name");
        return Err(Error::Io(IoFault { kind: FaultKind::InvalidInput, code: None, message }));
    }
    Ok(())
}

/// What came of reading one notification from the pipe.
#[derive(Debug, Clone, Copy, PartialEq, Eq, Structural)]
pub enum Read {
    /// A notification arrived.
    Notification,
    /// The other end is gone.
    End,
    /// A line arrived that is not a notification.
    BadLine,
    /// The operating system reported an error with this code.
    Failed(Option<i32>),
}

/// What to do next.
#[derive(Debug, Clone, Copy, PartialEq, Eq, Structural)]
pub enum Step {
    /// Hand the notification over.
    Deliver,
    /// Read the next line.
    Skip,
    /// Disconnect, report it if that fails, and wait for the daemon again.
    Recycle,
    /// Disconnect, whatever comes of it, and wait for the daemon again.
    Drop,
    /// Report the error.
    Report,
}

/// A live subscription.
#[derive(Debug, Clone, PartialEq, Eq)]
pub struct Subscription {
    name: String,
    connected: bool,
}

impl Subscription {
    /// The pipe name without the `\\.\pipe\` prefix.
    pub closed spec fn pipe(self) -> Seq<char> {
        self.name@
    }

    /// `true` while the daemon is on the other end.
    pub closed spec fn is_live(self) -> bool {
        self.connected
    }

    /// A subscription on a pipe of this name, with nobody on the other end yet.
    ///
    /// # Errors
    ///
    /// Returns [`Error::Io`] of kind [`FaultKind::InvalidInput`] for a name that
    /// cannot be used.
    pub fn new(name: &str) -> (r: Result<Self>)
        ensures
            match r {
                Ok(subscription) => {
                    &&& is_pipe_name(name@)
                    &&& subscription.pipe() == name@
                    &&& !subscription.is_live()
                },
                Err(error) => {
                    &&& !is_pipe_name(name@)
                    &&& error matches Error::Io(fault) && refuses(fault, name@)
                },
            },
    {
        match validate_pipe_name(name) {
            Ok(()) => Ok(Subscription { name: owned(name), connected: false }),
            Err(error) => Err(error),
        }
    }

    /// The pipe name without the `\\.\pipe\` prefix.
    #[must_use]
    pub fn name(&self) -> (r: &str)
        ensures
            r@ == self.pipe(),
    {
        self.name.as_str()
    }

    /// The full path of the pipe.
    #[must_use]
    pub fn path(&self) -> (r: String)
        ensures
            r@ == PIPE_PREFIX@ + self.pipe(),
    {
        let mut r = owned(PIPE_PREFIX);
        append(&mut r, self.name.as_str());
        r
    }

    /// The command that tells the daemon to write to this pipe.
    #[must_use]
    pub fn subscribe(&self) -> (r: Command)
        ensures
            r matches Command::SubscribePipe { name } && name@ == self.pipe(),
    {
        Command::SubscribePipe { name: owned(self.name.as_str()) }
    }

    /// The command that tells the daemon to stop writing to this pipe.
    #[must_use]
    pub fn unsubscribe(&self) -> (r: Command)
        ensures
            r matches Command::UnsubscribePipe { name } && name@ == self.pipe(),
    {
        Command::UnsubscribePipe { name: owned(self.name.as_str()) }
    }

    /// `true` when the daemon has to be waited for before anything can be read.
    #[must_use]
    pub fn must_wait(&self) -> (r: bool)
        ensures
            r == !self.is_live(),
    {
        !self.connected
    }

    /// Waiting for the daemon came to an end. `arrived` is also true when the
    /// daemon was there before the wait began. Returns whether the wait succeeded.
    pub fn waited(&mut self, arrived: bool) -> (r: bool)
        ensures
            r == arrived,
            final(self).pipe() == old(self).pipe(),
            final(self).is_live() == (arrived || old(self).is_live()),
    {
        if arrived {
            self.connected = true;
        }
        arrived
    }

    /// Decides what to do with what came of reading one notification.
    ///
    /// A daemon restart is handled transparently: the pipe is recycled and waited
    /// on again, and `ERROR_BROKEN_PIPE` is the same thing as a clean end. One bad
    /// line should not kill a bar, so it is skipped.
    pub fn after_read(&mut self, read: Read) -> (r: Step)
        ensures
            final(self).pipe() == old(self).pipe(),
            final(self).is_live() == (old(self).is_live() && !(r is Recycle || r is Drop)),
            r == match read {
                Read::Notification => Step::Deliver,
                Read::End => Step::Recycle,
                Read::BadLine => Step::Skip,
                Read::Failed(code) => if code == Some(109i32) {
                    Step::Drop
                } else {
                    Step::Report
                },
            },
    {
        match read {
            Read::Notification => Step::Deliver,
            Read::End => {
                self.connected = false;
                Step::Recycle
            },
            Read::BadLine => Step::Skip,
            Read::Failed(code) => {
                let broken = match code {
                    Some(code) => code == 109,
                    None => false,
                };
                if broken {
                    self.connected = false;
                    Step::Drop
                } else {
                    Step::Report
                }
            },
        }
    }
}

/// No subscriber pipe is the pipe the daemon takes its commands from.
pub proof fn no_subscriber_claims_the_command_pipe(name: Seq<char>)
    requires
        is_pipe_name(name),
    ensures
        PIPE_PREFIX@ + name != PIPE_NAME@,
{
    the_pipe_name_has_the_prefix();
    if PIPE_PREFIX@ + name == PIPE_NAME@ {
        let skip = PIPE_PREFIX@.len() as int;
        assert(name =~= (PIPE_PREFIX@ + name).skip(skip));
        assert(PIPE_SUFFIX@ =~= (PIPE_PREFIX@ + PIPE_SUFFIX@).skip(skip));
    }
}

} // verus!
