use vstd::prelude::*;

use crate::outside::{
    build_client, canonical_reason, error_text, new_client_builder, parse_proxy,
    proxy_uri_accepted, reason_phrase, with_proxy, with_timeout, without_proxy, HttpClient,
};
use crate::reply::{
    body_failure_reply, body_failure_view, client_failure_reply, client_failure_view,
    content_reply, content_view, invalid_proxy_reply, invalid_proxy_view, opt_text,
    status_failure_reply, status_failure_view, transport_failure_reply, transport_failure_view,
    Reply, ReplyView,
};
use crate::request::{client_settings, effective_proxy, effective_timeout, ScrapeRequest};

verus! {

/// The outcome of setting up the client for one request: a client to fetch
/// with, or the reply to send at once.
pub enum Setup {
    Ready(HttpClient),
    Rejected(Reply),
}

/// What to do once the upstream status is known: read the body, or reply now.
pub enum StatusStep {
    ReadBody,
    Finished(Reply),
}

/// The reply owed once the upstream status is known: none for a 2xx status,
/// whose body is read next; else the status passed through with its message.
pub open spec fn status_outcome(status: u16) -> Option<ReplyView> {
    if is_success_status(status) {
        None
    } else {
        Some(status_failure_view(status, reason_phrase(status)))
    }
}

/// The view of a step: `None` to read the body, else the reply.
pub open spec fn step_view(step: StatusStep) -> Option<ReplyView> {
    match step {
        StatusStep::ReadBody => None,
        StatusStep::Finished(r) => Some(r@),
    }
}

/// A 2xx status.
pub open spec fn is_success_status(status: u16) -> bool {
    200 <= status < 300
}

/// The proxy in effect is given and does not parse as a proxy address.
pub open spec fn proxy_refused(proxy: Option<Seq<char>>) -> bool {
    proxy is Some && !proxy_uri_accepted(proxy->Some_0)
}

/// The reply is a client construction failure, whatever its detail.
pub open spec fn is_client_failure(v: ReplyView) -> bool {
    exists|d: Seq<char>| v == #[trigger] client_failure_view(d)
}

/// Builds the client for `req`: the timeout in effect, and the proxy in effect
/// (the override before the request's own) if there is one. A proxy address
/// that does not parse is refused with 400; a client that cannot be built,
/// with 500. A client that is built carries exactly those settings, and with
/// no proxy in effect it goes direct, whatever the system's proxy settings.
pub fn prepare(req: &ScrapeRequest, override_proxy: Option<String>) -> (r: Setup)
    ensures
        ({
            let p = effective_proxy(opt_text(override_proxy), opt_text(req.proxy));
            &&& proxy_refused(p) ==> r is Rejected && r->Rejected_0@ == invalid_proxy_view(p->Some_0)
            &&& !proxy_refused(p) ==> r is Ready || (r is Rejected && is_client_failure(r->Rejected_0@))
            &&& r matches Setup::Ready(c) ==> c.timeout() == Some(effective_timeout(req.timeout_seconds))
                && c.proxy() == p && !c.system_proxy()
        }),
{
    let settings = client_settings(req, override_proxy);
    let mut builder = with_timeout(new_client_builder(), settings.timeout_seconds);
    match settings.proxy {
        Some(addr) => match parse_proxy(addr.as_str()) {
            Ok(proxy) => {
                builder = with_proxy(builder, proxy);
            },
            Err(_) => {
                return Setup::Rejected(invalid_proxy_reply(addr.as_str()));
            },
        },
        None => {
            builder = without_proxy(builder);
        },
    }
    match build_client(builder) {
        Ok(client) => Setup::Ready(client),
        Err(e) => {
            let detail = error_text(&e);
            let reply = client_failure_reply(detail.as_str());
            assert(client_failure_view(detail@) == reply@);
            Setup::Rejected(reply)
        },
    }
}

/// Decides on the upstream status: a 2xx body is read; any other status is
/// passed through with a message that names it.
pub fn on_status(status: u16) -> (r: StatusStep)
    ensures
        step_view(r) == status_outcome(status),
{
    if 200 <= status && status < 300 {
        StatusStep::ReadBody
    } else {
        StatusStep::Finished(status_failure_reply(status, canonical_reason(status)))
    }
}

/// Decides on the outcome of sending the request: a failure to send or to
/// receive (a timeout among them) is replied to with 500; a response goes on
/// to its status.
pub fn on_response(sent: Result<u16, String>) -> (r: StatusStep)
    ensures
        sent matches Err(d) ==> step_view(r) == Some(transport_failure_view(d@)),
        sent matches Ok(status) ==> step_view(r) == status_outcome(status),
{
    match sent {
        Ok(status) => on_status(status),
        Err(d) => StatusStep::Finished(transport_failure_reply(d.as_str())),
    }
}

/// The reply once the body of a 2xx response has been read: the text under
/// 200, or 500 with the detail of the failure.
pub fn on_body(body: Result<String, String>) -> (r: Reply)
    ensures
        body matches Ok(t) ==> r@ == content_view(t@),
        body matches Err(d) ==> r@ == body_failure_view(d@),
{
    match body {
        Ok(t) => content_reply(t),
        Err(d) => body_failure_reply(d.as_str()),
    }
}

} // verus!
