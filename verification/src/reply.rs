//! What the gateway answers to its caller.

use vstd::prelude::*;

verus! {

/// The status of a reply that carries what was asked for.
pub const STATUS_OK: u16 = 200;

/// The status of every reply that reports a failure.
pub const STATUS_INTERNAL_SERVER_ERROR: u16 = 500;

/// An HTTP reply: a status and an HTML body.
#[derive(Debug, Clone, PartialEq, Eq)]
pub struct Reply {
    pub status: u16,
    pub body: String,
}

/// A reply as a mathematical value.
pub struct ReplyView {
    pub status: int,
    pub body: Seq<char>,
}

impl View for Reply {
    type V = ReplyView;

    open spec fn view(&self) -> ReplyView {
        ReplyView { status: self.status as int, body: self.body@ }
    }
}

/// The successful reply that carries `body`.
pub open spec fn success_with(body: Seq<char>) -> ReplyView {
    ReplyView { status: 200, body }
}

/// The one reply that reports a failure: its body is empty, so nothing of the
/// failure's detail reaches the caller.
pub open spec fn server_error() -> ReplyView {
    ReplyView { status: 500, body: Seq::empty() }
}

impl Reply {
    /// Answers with `body` and a success status.
    pub fn success(body: String) -> (reply: Reply)
        ensures
            reply@ == success_with(body@),
    {
        Reply { status: STATUS_OK, body }
    }

    /// Answers with the generic server error.
    pub fn failure() -> (reply: Reply)
        ensures
            reply@ == server_error(),
    {
        Reply { status: STATUS_INTERNAL_SERVER_ERROR, body: String::new() }
    }

    /// Tells whether this reply reports success.
    pub fn is_success(&self) -> (yes: bool)
        ensures
            yes == (self@.status == 200),
    {
        self.status == STATUS_OK
    }
}

} // verus!
