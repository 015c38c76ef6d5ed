use vstd::prelude::*;

use crate::reply::opt_text;

verus! {

/// The timeout applied when a request names none.
pub const DEFAULT_TIMEOUT_SECONDS: u64 = 30;

/// A fetch request: the URL to fetch, an optional proxy address and an
/// optional timeout in seconds.
pub struct ScrapeRequest {
    pub url: String,
    pub proxy: Option<String>,
    pub timeout_seconds: Option<u64>,
}

/// How the client for one request is configured.
pub struct ClientSettings {
    pub timeout_seconds: u64,
    pub proxy: Option<String>,
}

/// The proxy in effect: the deployment's override where there is one, else the
/// request's own; none if neither is given.
pub open spec fn effective_proxy(
    override_proxy: Option<Seq<char>>,
    request_proxy: Option<Seq<char>>,
) -> Option<Seq<char>> {
    match override_proxy {
        Some(p) => Some(p),
        None => request_proxy,
    }
}

/// The timeout in effect: the request's own, else the default.
pub open spec fn effective_timeout(timeout_seconds: Option<u64>) -> u64 {
    match timeout_seconds {
        Some(t) => t,
        None => DEFAULT_TIMEOUT_SECONDS,
    }
}

fn copy_text(o: &Option<String>) -> (r: Option<String>)
    ensures
        opt_text(r) == opt_text(*o),
{
    match o {
        Some(s) => Some(s.clone()),
        None => None,
    }
}

/// Picks the proxy to use: `override_proxy` takes precedence over the request's.
pub fn resolve_proxy(override_proxy: Option<String>, request_proxy: Option<String>) -> (r: Option<String>)
    ensures
        opt_text(r) == effective_proxy(opt_text(override_proxy), opt_text(request_proxy)),
{
    match override_proxy {
        Some(p) => Some(p),
        None => request_proxy,
    }
}

/// Picks the timeout to use, 30 seconds when none is given.
pub fn resolve_timeout(timeout_seconds: Option<u64>) -> (r: u64)
    ensures
        r == effective_timeout(timeout_seconds),
{
    match timeout_seconds {
        Some(t) => t,
        None => DEFAULT_TIMEOUT_SECONDS,
    }
}

/// The client settings for `req`, given the deployment's proxy override.
pub fn client_settings(req: &ScrapeRequest, override_proxy: Option<String>) -> (r: ClientSettings)
    ensures
        r.timeout_seconds == effective_timeout(req.timeout_seconds),
        opt_text(r.proxy) == effective_proxy(opt_text(override_proxy), opt_text(req.proxy)),
{
    ClientSettings {
        timeout_seconds: resolve_timeout(req.timeout_seconds),
        proxy: resolve_proxy(override_proxy, copy_text(&req.proxy)),
    }
}

} // verus!
