use vstd::prelude::*;

use crate::outside::reason_phrase;
use crate::relay::{is_success_status, status_outcome};
use crate::reply::{
    content_view, invalid_proxy_message, invalid_proxy_view, status_failure_message,
    status_failure_view, transport_failure_message, transport_failure_view,
};
use crate::request::{effective_proxy, effective_timeout};
use crate::text::decimal;

verus! {

/// Whether `part` occurs in `whole` as a contiguous run.
pub open spec fn occurs_in(part: Seq<char>, whole: Seq<char>) -> bool {
    exists|i: int| 0 <= i && i + part.len() <= whole.len() && #[trigger] whole.subrange(i, i + part.len()) == part
}

/// A 2xx upstream status leads to reading the body, and a body read as text is
/// relayed under 200 as the content, with no error.
pub proof fn success_relays_body(status: u16, body: Seq<char>)
    requires
        is_success_status(status),
    ensures
        status_outcome(status) is None,
        content_view(body).status == 200,
        content_view(body).content == Some(body),
        content_view(body).error is None,
{
}

/// A proxy address that does not parse is refused with 400, with no content,
/// and the error names the address.
pub proof fn invalid_proxy_names_address(addr: Seq<char>)
    ensures
        invalid_proxy_view(addr).status == 400,
        invalid_proxy_view(addr).content is None,
        invalid_proxy_view(addr).error is Some,
        occurs_in(addr, invalid_proxy_view(addr).error->Some_0),
{
    let e = invalid_proxy_message(addr);
    let k = "Invalid proxy URL: "@.len() as int;
    assert(e.subrange(k, k + addr.len()) =~= addr);
}

/// An override proxy is used whatever the request's own proxy field holds.
pub proof fn override_takes_precedence(override_proxy: Seq<char>, request_proxy: Option<Seq<char>>)
    ensures
        effective_proxy(Some(override_proxy), request_proxy) == Some(override_proxy),
{
}

/// A request that fails in transport (a timeout among them) gets 500, no
/// content, and a transport-failure message.
pub proof fn transport_failure_is_server_error(detail: Seq<char>)
    ensures
        transport_failure_view(detail).status == 500,
        transport_failure_view(detail).content is None,
        transport_failure_view(detail).error == Some(transport_failure_message(detail)),
        transport_failure_message(detail).subrange(0, "Failed to make HTTP request: "@.len() as int)
            == "Failed to make HTTP request: "@,
{
    assert(transport_failure_message(detail).subrange(0, "Failed to make HTTP request: "@.len() as int)
        =~= "Failed to make HTTP request: "@);
}

/// An upstream status outside 2xx is passed through as the reply's status,
/// with no content, and the error states the code.
pub proof fn upstream_status_passed_through(status: u16)
    requires
        !is_success_status(status),
    ensures
        status_outcome(status) == Some(status_failure_view(status, reason_phrase(status))),
        status_failure_view(status, reason_phrase(status)).status == status,
        status_failure_view(status, reason_phrase(status)).content is None,
        occurs_in(decimal(status as nat), status_failure_message(status, reason_phrase(status))),
{
    let m = status_failure_message(status, reason_phrase(status));
    let d = decimal(status as nat);
    let k = "HTTP request failed with status: "@.len() as int;
    assert(m.subrange(k, k + d.len()) =~= d);
}

/// A request without a timeout gets 30 seconds; one with a timeout gets its own.
pub proof fn default_timeout_is_thirty(timeout_seconds: Option<u64>)
    ensures
        effective_timeout(None) == 30,
        timeout_seconds is Some ==> effective_timeout(timeout_seconds) == timeout_seconds->Some_0,
{
}

} // verus!
