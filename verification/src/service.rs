//! What the transfer service answers once a section has been left.

use crate::section::Exit;
use vstd::prelude::*;

verus! {

/// The status of an answer to a transfer that completed.
pub const STATUS_OK: u16 = 200;

/// The status of an answer to a transfer that did not complete.
pub const STATUS_SERVER_ERROR: u16 = 500;

/// An answer to a request: a status and a body.
#[derive(Clone, Debug)]
pub struct Reply {
    /// The HTTP status.
    pub status: u16,
    /// The text of the body.
    pub body: String,
}

/// The status owed for a section that was left for this reason.
pub open spec fn status_for(exit: Exit) -> u16 {
    if exit == Exit::Completed {
        STATUS_OK
    } else {
        STATUS_SERVER_ERROR
    }
}

/// The body owed for a section that was left for this reason.
pub open spec fn body_for(exit: Exit) -> Seq<char> {
    if exit == Exit::Completed {
        "Transfer completed"@
    } else {
        "Transfer failed"@
    }
}

/// The answer to a transfer: the confirmation where the operation
/// completed, a server error where it failed or was cancelled.
pub fn reply(exit: Exit) -> (answer: Reply)
    ensures
        answer.status == status_for(exit),
        answer.body@ == body_for(exit),
{
    match exit {
        Exit::Completed => Reply { status: STATUS_OK, body: "Transfer completed".to_owned() },
        Exit::Failed | Exit::Cancelled => Reply {
            status: STATUS_SERVER_ERROR,
            body: "Transfer failed".to_owned(),
        },
    }
}

} // verus!
