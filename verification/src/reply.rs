//! What the server sends back: a status, header lines and a body, as plain
//! values that the surrounding server copies into its own response type.

use vstd::prelude::*;
use crate::cors::{headers, policy_headers};

verus! {

/// One header line of a reply.
#[derive(Debug, PartialEq, Eq)]
pub struct Header {
    pub name: String,
    pub value: String,
}

/// A header line as a pair of texts.
pub ghost struct HeaderView {
    pub name: Seq<char>,
    pub value: Seq<char>,
}

impl View for Header {
    type V = HeaderView;

    open spec fn view(&self) -> HeaderView {
        HeaderView { name: self.name@, value: self.value@ }
    }
}

/// The header lines of a vector, in order.
pub open spec fn header_views(headers: Seq<Header>) -> Seq<HeaderView> {
    Seq::new(headers.len(), |i: int| headers[i]@)
}

/// A complete reply.
#[derive(Debug, PartialEq, Eq)]
pub struct Reply {
    pub status: u16,
    pub headers: Vec<Header>,
    pub body: Vec<u8>,
}

/// A reply as mathematical data.
pub ghost struct ReplyView {
    pub status: u16,
    pub headers: Seq<HeaderView>,
    pub body: Seq<u8>,
}

impl View for Reply {
    type V = ReplyView;

    open spec fn view(&self) -> ReplyView {
        ReplyView { status: self.status, headers: header_views(self.headers@), body: self.body@ }
    }
}

/// The status of a successful reply.
pub const STATUS_OK: u16 = 200;

/// The status of a reply that has nothing to send.
pub const STATUS_NOT_FOUND: u16 = 404;

/// The successful reply that carries `body` as a document of the given
/// content type: the content type first, then the cross-origin policy.
pub open spec fn ok_reply(content_type: Seq<char>, body: Seq<u8>) -> ReplyView {
    ReplyView {
        status: STATUS_OK,
        headers: seq![HeaderView { name: "content-type"@, value: content_type }]
            + policy_headers(),
        body,
    }
}

/// The reply that has nothing to send: no content type and an empty body,
/// under the same cross-origin policy.
pub open spec fn not_found_reply() -> ReplyView {
    ReplyView { status: STATUS_NOT_FOUND, headers: policy_headers(), body: Seq::empty() }
}

impl Reply {
    /// A successful reply with the given content type and body.
    pub fn ok(content_type: &str, body: Vec<u8>) -> (reply: Reply)
        ensures
            reply@ == ok_reply(content_type@, body@),
    {
        let mut lines = headers();
        lines.insert(0, header("content-type", content_type));
        let reply = Reply { status: STATUS_OK, headers: lines, body };
        assert(reply@.headers =~= ok_reply(content_type@, body@).headers);
        reply
    }

    /// The reply for a request that nothing can be sent for.
    pub fn not_found() -> (reply: Reply)
        ensures
            reply@ == not_found_reply(),
    {
        Reply { status: STATUS_NOT_FOUND, headers: headers(), body: Vec::new() }
    }
}

/// Builds one header line from two texts.
pub fn header(name: &str, value: &str) -> (line: Header)
    ensures
        line@ == (HeaderView { name: name@, value: value@ }),
{
    Header { name: name.to_owned(), value: value.to_owned() }
}

} // verus!
