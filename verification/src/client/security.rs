//! A per-user security descriptor for Mochi's named pipes.
//!
//! A pipe created without one gets the default security descriptor: full control
//! for `LocalSystem`, administrators and the creator owner, plus **read access
//! for the `Everyone` group and the anonymous account**.
//!
//! Mochi is a per-user daemon. Another interactive session on the same machine
//! has no business reading the notification stream, occupying command pipe
//! instances, or making the daemon spawn a connection thread per handle it
//! opens. So every pipe is created with an explicit descriptor instead:
//!
//! ```text
//! D:P(A;;GA;;;SY)(A;;GA;;;BA)(A;;GA;;;<the SID this process runs as>)
//! ```
//!
//! `D:P` is a protected DACL, so nothing is inherited on top of those three
//! entries. Only `SYSTEM`, the local administrators group and the account the
//! daemon runs as get access; every other account, including a second user
//! logged into the same machine, is denied by the absence of an entry.
//!
//! Administrators are on the list because they can take ownership of the object
//! anyway; leaving them out buys nothing and breaks tooling.

use vstd::prelude::*;

use crate::text::{append, owned};

verus! {

/// The text of the descriptor that grants access to this account only, next to
/// `SYSTEM` and the administrators.
///
/// See the module documentation for the exact DACL.
#[must_use]
pub fn current_user_only(sid: &str) -> (r: String)
    ensures
        r@ == "D:P(A;;GA;;;SY)(A;;GA;;;BA)(A;;GA;;;"@ + sid@ + ")"@,
{
    let mut r = owned("D:P(A;;GA;;;SY)(A;;GA;;;BA)(A;;GA;;;");
    append(&mut r, sid);
    append(&mut r, ")");
    r
}

} // verus!
