use vstd::prelude::*;

use crate::reply::opt_text;

verus! {

#[verifier::external_type_specification]
#[verifier::external_body]
pub struct ExClient(reqwest::Client);

#[verifier::external_type_specification]
#[verifier::external_body]
pub struct ExClientBuilder(reqwest::ClientBuilder);

#[verifier::external_type_specification]
#[verifier::external_body]
pub struct ExProxy(reqwest::Proxy);

#[verifier::external_type_specification]
#[verifier::external_body]
pub struct ExError(reqwest::Error);

/// Whether reqwest accepts `s` as the address of a proxy for all traffic.
pub uninterp spec fn proxy_uri_accepted(s: Seq<char>) -> bool;

/// The standard reason phrase of a status code, where it has one.
pub uninterp spec fn reason_phrase(code: u16) -> Option<Seq<char>>;

/// A client builder, with the settings given to it so far: the timeout in
/// seconds, the proxy that traffic goes through (the first one added, if any),
/// and whether the system's proxy settings are still picked up.
pub struct ClientSetup {
    inner: reqwest::ClientBuilder,
    timeout: Ghost<Option<u64>>,
    proxy: Ghost<Option<Seq<char>>>,
    system_proxy: Ghost<bool>,
}

/// A proxy parsed from an address.
pub struct ProxyAddr {
    inner: reqwest::Proxy,
    addr: Ghost<Seq<char>>,
}

/// A client, with the settings it was built with: the timeout in seconds, the
/// proxy that traffic goes through, and whether the system's proxy settings
/// (HTTP_PROXY and the like) are picked up where no proxy was added.
pub struct HttpClient {
    inner: reqwest::Client,
    timeout: Ghost<Option<u64>>,
    proxy: Ghost<Option<Seq<char>>>,
    system_proxy: Ghost<bool>,
}

impl ClientSetup {
    pub closed spec fn timeout(&self) -> Option<u64> {
        self.timeout@
    }

    pub closed spec fn proxy(&self) -> Option<Seq<char>> {
        self.proxy@
    }

    pub closed spec fn system_proxy(&self) -> bool {
        self.system_proxy@
    }
}

impl ProxyAddr {
    pub closed spec fn addr(&self) -> Seq<char> {
        self.addr@
    }
}

impl HttpClient {
    pub closed spec fn timeout(&self) -> Option<u64> {
        self.timeout@
    }

    pub closed spec fn proxy(&self) -> Option<Seq<char>> {
        self.proxy@
    }

    pub closed spec fn system_proxy(&self) -> bool {
        self.system_proxy@
    }

    /// The reqwest client, to send requests with.
    pub fn client(&self) -> &reqwest::Client {
        &self.inner
    }
}

/// Relies on reqwest::Client::builder: a builder with no timeout and no proxy
/// added, which picks up the system's proxy settings.
#[verifier::external_body]
pub(crate) fn new_client_builder() -> (r: ClientSetup)
    ensures
        r.timeout() is None,
        r.proxy() is None,
        r.system_proxy(),
{
    ClientSetup {
        inner: reqwest::Client::builder(),
        timeout: Ghost(None),
        proxy: Ghost(None),
        system_proxy: Ghost(true),
    }
}

/// Relies on reqwest::ClientBuilder::timeout: the whole request is bounded by
/// `secs` seconds; the proxy settings are kept.
#[verifier::external_body]
pub(crate) fn with_timeout(b: ClientSetup, secs: u64) -> (r: ClientSetup)
    ensures
        r.timeout() == Some(secs),
        r.proxy() == b.proxy(),
        r.system_proxy() == b.system_proxy(),
{
    ClientSetup {
        inner: b.inner.timeout(std::time::Duration::from_secs(secs)),
        timeout: Ghost(Some(secs)),
        proxy: b.proxy,
        system_proxy: b.system_proxy,
    }
}

/// Relies on reqwest::ClientBuilder::proxy: `p` is added after any proxy added
/// before, the first of them being the one in use, and the system's proxy
/// settings are no longer picked up; the timeout is kept.
#[verifier::external_body]
pub(crate) fn with_proxy(b: ClientSetup, p: ProxyAddr) -> (r: ClientSetup)
    ensures
        r.timeout() == b.timeout(),
        r.proxy() == (if b.proxy() is None { Some(p.addr()) } else { b.proxy() }),
        !r.system_proxy(),
{
    ClientSetup {
        inner: b.inner.proxy(p.inner),
        timeout: b.timeout,
        proxy: Ghost(if b.proxy@ is None { Some(p.addr@) } else { b.proxy@ }),
        system_proxy: Ghost(false),
    }
}

/// Relies on reqwest::ClientBuilder::no_proxy: every proxy added is dropped and
/// the system's proxy settings are no longer picked up; the timeout is kept.
#[verifier::external_body]
pub(crate) fn without_proxy(b: ClientSetup) -> (r: ClientSetup)
    ensures
        r.timeout() == b.timeout(),
        r.proxy() is None,
        !r.system_proxy(),
{
    ClientSetup { inner: b.inner.no_proxy(), timeout: b.timeout, proxy: Ghost(None), system_proxy: Ghost(false) }
}

/// Relies on reqwest::ClientBuilder::build, which may fail (a TLS backend that
/// cannot be set up, for one); a client it builds has the builder's settings.
#[verifier::external_body]
pub(crate) fn build_client(b: ClientSetup) -> (r: Result<HttpClient, reqwest::Error>)
    ensures
        r matches Ok(c) ==> c.timeout() == b.timeout() && c.proxy() == b.proxy() && c.system_proxy()
            == b.system_proxy(),
{
    match b.inner.build() {
        Ok(c) => Ok(HttpClient { inner: c, timeout: b.timeout, proxy: b.proxy, system_proxy: b.system_proxy }),
        Err(e) => Err(e),
    }
}

/// Relies on reqwest::Proxy::all: it parses the address, and its outcome depends
/// on the text alone.
#[verifier::external_body]
pub(crate) fn parse_proxy(addr: &str) -> (r: Result<ProxyAddr, reqwest::Error>)
    ensures
        r is Ok <==> proxy_uri_accepted(addr@),
        r matches Ok(p) ==> p.addr() == addr@,
{
    match reqwest::Proxy::all(addr) {
        Ok(p) => Ok(ProxyAddr { inner: p, addr: Ghost(addr@) }),
        Err(e) => Err(e),
    }
}

/// Relies on the `Display` impl of reqwest::Error, for the detail of a message.
#[verifier::external_body]
pub(crate) fn error_text(e: &reqwest::Error) -> String {
    e.to_string()
}

/// Relies on http's StatusCode::canonical_reason (reached through reqwest): the
/// reason phrase is a function of the code alone. A code that StatusCode::from_u16
/// refuses has none.
#[verifier::external_body]
pub(crate) fn canonical_reason(code: u16) -> (r: Option<String>)
    ensures
        opt_text(r) == reason_phrase(code),
{
    reqwest::StatusCode::from_u16(code).ok().and_then(|s| s.canonical_reason()).map(|t| t.to_string())
}

} // verus!
