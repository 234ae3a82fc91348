//! Route matching and the request-to-reply contract of the service.

use vstd::prelude::*;
use crate::response::HttpReply;
use crate::response::ReplyModel;
use crate::response::hello_content_type;
use crate::response::hello_message;
use crate::response::index;
use crate::response::rendered;
use crate::text::str_eq;

verus! {

/// The one route the service exposes: `POST` on the root path. Every other
/// method/path combination is left to the listener's default handling.
pub open spec fn route_matches(method: Seq<char>, path: Seq<char>) -> bool {
    method == "POST"@ && path == "/"@
}

/// What the service answers to a request: `Some` rendered reply when the
/// request matches the one route, `None` when the listener's default applies.
/// The request body is a parameter only to record that it is ignored: the
/// answer is a function of the method and the path alone.
pub open spec fn handler_model(method: Seq<char>, path: Seq<char>, body: Seq<u8>) -> Option<
    ReplyModel,
> {
    if route_matches(method, path) {
        Some(rendered(hello_message()))
    } else {
        None
    }
}

/// The spec-level value of an optional reply.
pub open spec fn reply_view(r: Option<HttpReply>) -> Option<ReplyModel> {
    match r {
        Some(rep) => Some(rep@),
        None => None,
    }
}

/// Dispatches one request. For `POST` on `/` — whatever the body holds — the
/// result is the fixed 200 reply; for every other request it is `None`, and
/// the caller falls back to its default (non-200) response.
pub fn handle_request(method: &str, path: &str, body: &[u8]) -> (r: Option<HttpReply>)
    ensures
        reply_view(r) == handler_model(method@, path@, body@),
        r is Some <==> route_matches(method@, path@),
{
    if str_eq(method, "POST") && str_eq(path, "/") {
        let payload = index();
        Some(payload.respond_to())
    } else {
        None
    }
}

/// Idempotence: the reply is a function of the request alone, so issuing the
/// same request any number of times yields the identical reply every time.
pub proof fn lemma_idempotent(
    method: Seq<char>,
    path: Seq<char>,
    body: Seq<u8>,
    r1: Option<ReplyModel>,
    r2: Option<ReplyModel>,
)
    requires
        r1 == handler_model(method, path, body),
        r2 == handler_model(method, path, body),
    ensures
        r1 == r2,
{
}

/// The request body is never inspected: two requests that differ only in
/// their bodies get the same answer.
pub proof fn lemma_body_ignored(
    method: Seq<char>,
    path: Seq<char>,
    body1: Seq<u8>,
    body2: Seq<u8>,
)
    ensures
        handler_model(method, path, body1) == handler_model(method, path, body2),
{
}

/// Every `POST` to the root path — whatever its body — is answered with
/// status 200, the fixed content type, and exactly the greeting body.
pub proof fn lemma_post_root_answered(method: Seq<char>, path: Seq<char>, body: Seq<u8>)
    requires
        route_matches(method, path),
    ensures
        handler_model(method, path, body) == Some(rendered(hello_message())),
        rendered(hello_message()).status == 200,
        rendered(hello_message()).content_type == hello_content_type(),
        rendered(hello_message()).body == hello_message(),
{
}

/// A request that is not `POST` on the root path is not answered by the
/// handler at all: the listener's default (non-200) response applies.
pub proof fn lemma_other_requests_unanswered(method: Seq<char>, path: Seq<char>, body: Seq<u8>)
    requires
        !route_matches(method, path),
    ensures
        handler_model(method, path, body) is None,
{
}

} // verus!
