use vstd::prelude::*;

use crate::text::{decimal, decimal_string};

verus! {

/// The body of a reply: `content` on success, `error` on failure.
pub struct ScrapeResponse {
    pub content: Option<String>,
    pub error: Option<String>,
}

/// A reply: an HTTP status code and the body sent with it.
pub struct Reply {
    pub status: u16,
    pub response: ScrapeResponse,
}

/// What a reply means: its status, its content and its error, as text.
pub struct ReplyView {
    pub status: u16,
    pub content: Option<Seq<char>>,
    pub error: Option<Seq<char>>,
}

/// The text held by an optional string.
pub open spec fn opt_text(o: Option<String>) -> Option<Seq<char>> {
    match o {
        Some(s) => Some(s@),
        None => None,
    }
}

impl View for Reply {
    type V = ReplyView;

    open spec fn view(&self) -> ReplyView {
        ReplyView {
            status: self.status,
            content: opt_text(self.response.content),
            error: opt_text(self.response.error),
        }
    }
}

/// A failure with the given status and message, and no content.
pub open spec fn failure_view(status: u16, message: Seq<char>) -> ReplyView {
    ReplyView { status, content: None, error: Some(message) }
}

pub open spec fn invalid_proxy_message(addr: Seq<char>) -> Seq<char> {
    "Invalid proxy URL: "@ + addr
}

pub open spec fn client_failure_message(detail: Seq<char>) -> Seq<char> {
    "Failed to initialize HTTP client: "@ + detail
}

pub open spec fn transport_failure_message(detail: Seq<char>) -> Seq<char> {
    "Failed to make HTTP request: "@ + detail
}

pub open spec fn body_failure_message(detail: Seq<char>) -> Seq<char> {
    "Failed to read response body: "@ + detail
}

/// The message for an upstream status outside 2xx: the code, then its reason
/// phrase, or "Unknown Status" for a code that has none.
pub open spec fn status_failure_message(status: u16, reason: Option<Seq<char>>) -> Seq<char> {
    "HTTP request failed with status: "@ + decimal(status as nat) + " "@ + match reason {
        Some(r) => r,
        None => "Unknown Status"@,
    }
}

pub open spec fn invalid_proxy_view(addr: Seq<char>) -> ReplyView {
    failure_view(400, invalid_proxy_message(addr))
}

pub open spec fn client_failure_view(detail: Seq<char>) -> ReplyView {
    failure_view(500, client_failure_message(detail))
}

pub open spec fn transport_failure_view(detail: Seq<char>) -> ReplyView {
    failure_view(500, transport_failure_message(detail))
}

pub open spec fn body_failure_view(detail: Seq<char>) -> ReplyView {
    failure_view(500, body_failure_message(detail))
}

/// An upstream status outside 2xx is passed through as the reply's status.
pub open spec fn status_failure_view(status: u16, reason: Option<Seq<char>>) -> ReplyView {
    failure_view(status, status_failure_message(status, reason))
}

/// The body fetched on success, under status 200.
pub open spec fn content_view(body: Seq<char>) -> ReplyView {
    ReplyView { status: 200, content: Some(body), error: None }
}

fn prefixed(prefix: &str, rest: &str) -> (r: String)
    ensures
        r@ == prefix@ + rest@,
{
    let mut s = String::from_str(prefix);
    s.append(rest);
    s
}

fn failure(status: u16, message: String) -> (r: Reply)
    ensures
        r@ == failure_view(status, message@),
{
    Reply { status, response: ScrapeResponse { content: None, error: Some(message) } }
}

/// The reply to a proxy address that does not parse: 400.
pub fn invalid_proxy_reply(addr: &str) -> (r: Reply)
    ensures
        r@ == invalid_proxy_view(addr@),
{
    failure(400, prefixed("Invalid proxy URL: ", addr))
}

/// The reply when the HTTP client cannot be built: 500.
pub fn client_failure_reply(detail: &str) -> (r: Reply)
    ensures
        r@ == client_failure_view(detail@),
{
    failure(500, prefixed("Failed to initialize HTTP client: ", detail))
}

/// The reply when the request could not be made or completed (DNS, connect,
/// TLS, timeout): 500.
pub fn transport_failure_reply(detail: &str) -> (r: Reply)
    ensures
        r@ == transport_failure_view(detail@),
{
    failure(500, prefixed("Failed to make HTTP request: ", detail))
}

/// The reply when the body of a 2xx response cannot be read as text: 500.
pub fn body_failure_reply(detail: &str) -> (r: Reply)
    ensures
        r@ == body_failure_view(detail@),
{
    failure(500, prefixed("Failed to read response body: ", detail))
}

/// The reply to an upstream status outside 2xx, with the code's reason phrase
/// if it has one.
pub fn status_failure_reply(status: u16, reason: Option<String>) -> (r: Reply)
    ensures
        r@ == status_failure_view(status, opt_text(reason)),
{
    let mut m = String::from_str("HTTP request failed with status: ");
    let code = decimal_string(status);
    m.append(code.as_str());
    m.append(" ");
    match reason {
        Some(t) => m.append(t.as_str()),
        None => m.append("Unknown Status"),
    }
    failure(status, m)
}

/// The reply that relays a fetched body: 200.
pub fn content_reply(body: String) -> (r: Reply)
    ensures
        r@ == content_view(body@),
{
    Reply { status: 200, response: ScrapeResponse { content: Some(body), error: None } }
}

} // verus!
