//! The one payload type of the service and its rendering into an HTTP reply.

use vstd::prelude::*;

verus! {

/// The message body carried by every successful response.
pub open spec fn hello_message() -> Seq<char> {
    "Hello from MyResponse!"@
}

/// The `Content-Type` header value set on every successful response.
pub open spec fn hello_content_type() -> Seq<char> {
    "vmlx/data; charset=utf-8"@
}

/// The service's single transient value type: a response payload wrapping
/// one text field. Created fresh per request and discarded after rendering.
pub struct MyResponse {
    pub message: String,
}

/// Builds the payload that the root route's handler returns: a fresh
/// `MyResponse` holding the fixed greeting text.
pub fn index() -> (r: MyResponse)
    ensures
        r.message@ == hello_message(),
{
    MyResponse { message: "Hello from MyResponse!".to_owned() }
}

/// The spec-level value of a rendered reply: status code, content type and
/// body as mathematical values.
pub ghost struct ReplyModel {
    pub status: int,
    pub content_type: Seq<char>,
    pub body: Seq<char>,
}

/// A rendered HTTP reply: everything a listener must write back for a
/// matched request, held as plain values.
pub struct HttpReply {
    pub status: u16,
    pub content_type: String,
    pub body: String,
}

impl View for HttpReply {
    type V = ReplyModel;

    open spec fn view(&self) -> ReplyModel {
        ReplyModel {
            status: self.status as int,
            content_type: self.content_type@,
            body: self.body@,
        }
    }
}

/// The reply rendered for a payload whose message is `msg`: status 200, the
/// fixed content type, and `msg` as the body.
pub open spec fn rendered(msg: Seq<char>) -> ReplyModel {
    ReplyModel { status: 200, content_type: hello_content_type(), body: msg }
}

impl MyResponse {
    /// Renders the payload into an HTTP reply: status 200, the fixed
    /// `Content-Type` header value, and the message as the body, unchanged.
    pub fn respond_to(self) -> (r: HttpReply)
        ensures
            r@ == rendered(self.message@),
    {
        HttpReply {
            status: 200,
            content_type: "vmlx/data; charset=utf-8".to_owned(),
            body: self.message,
        }
    }
}

} // verus!
