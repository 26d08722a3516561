//! What a request is answered with: a status, a content type and a text body.

use vstd::prelude::*;

verus! {

/// Status of a reply that carries the cached or freshly fetched payload.
pub const STATUS_OK: u16 = 200;

/// Status of a reply that reports a failed upstream fetch.
pub const STATUS_INTERNAL_SERVER_ERROR: u16 = 500;

/// The content type of every reply: the payload is passed on as text, and so
/// is an error message.
pub const TEXT_PLAIN: &'static str = "text/plain; charset=utf-8";

/// The answer to one inbound request.
#[derive(Clone, Debug, PartialEq, Eq)]
pub struct Reply {
    pub status: u16,
    pub content_type: &'static str,
    pub body: String,
}

/// What a `Reply` stands for.
pub struct ReplyView {
    pub status: nat,
    pub content_type: Seq<char>,
    pub body: Seq<char>,
}

impl View for Reply {
    type V = ReplyView;

    open spec fn view(&self) -> ReplyView {
        ReplyView {
            status: self.status as nat,
            content_type: self.content_type@,
            body: self.body@,
        }
    }
}

/// The reply that hands out `payload`.
pub open spec fn payload_reply(payload: Seq<char>) -> ReplyView {
    ReplyView { status: STATUS_OK as nat, content_type: TEXT_PLAIN@, body: payload }
}

/// The reply that reports a failure in the words of `message`.
pub open spec fn failure_reply(message: Seq<char>) -> ReplyView {
    ReplyView {
        status: STATUS_INTERNAL_SERVER_ERROR as nat,
        content_type: TEXT_PLAIN@,
        body: message,
    }
}

impl Reply {
    /// A `200` reply whose body is `payload`.
    pub fn ok(payload: String) -> (reply: Reply)
        ensures
            reply@ == payload_reply(payload@),
    {
        Reply { status: STATUS_OK, content_type: TEXT_PLAIN, body: payload }
    }

    /// A `500` reply whose body is `message`.
    pub fn internal_server_error(message: String) -> (reply: Reply)
        ensures
            reply@ == failure_reply(message@),
    {
        Reply { status: STATUS_INTERNAL_SERVER_ERROR, content_type: TEXT_PLAIN, body: message }
    }
}

} // verus!
