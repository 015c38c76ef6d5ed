use scrape_relay::relay::{on_body, on_response, on_status, prepare, Setup, StatusStep};
use scrape_relay::reply::{
    body_failure_reply, client_failure_reply, content_reply, invalid_proxy_reply,
    status_failure_reply, transport_failure_reply, Reply,
};
use scrape_relay::request::{
    client_settings, resolve_proxy, resolve_timeout, ScrapeRequest, DEFAULT_TIMEOUT_SECONDS,
};
use scrape_relay::text::decimal_string;

fn request(url: &str, proxy: Option<&str>, timeout_seconds: Option<u64>) -> ScrapeRequest {
    ScrapeRequest {
        url: url.to_string(),
        proxy: proxy.map(|p| p.to_string()),
        timeout_seconds,
    }
}

fn assert_failure(r: &Reply, status: u16, message: &str) {
    assert_eq!(r.status, status);
    assert_eq!(r.response.content, None);
    assert_eq!(r.response.error.as_deref(), Some(message));
}

const BAD_PROXY: &str = "http://[::1";

#[test]
fn decimal_of_small_and_large_codes() {
    assert_eq!(decimal_string(0), "0");
    assert_eq!(decimal_string(7), "7");
    assert_eq!(decimal_string(404), "404");
    assert_eq!(decimal_string(1000), "1000");
    assert_eq!(decimal_string(65535), "65535");
}

#[test]
fn timeout_defaults_to_thirty_seconds() {
    assert_eq!(DEFAULT_TIMEOUT_SECONDS, 30);
    assert_eq!(resolve_timeout(None), 30);
    assert_eq!(resolve_timeout(Some(5)), 5);
    assert_eq!(resolve_timeout(Some(0)), 0);
}

#[test]
fn override_proxy_wins_over_request_proxy() {
    let p = resolve_proxy(Some("socks5://a:1".to_string()), Some("socks5://b:2".to_string()));
    assert_eq!(p.as_deref(), Some("socks5://a:1"));
    let p = resolve_proxy(Some("socks5://a:1".to_string()), None);
    assert_eq!(p.as_deref(), Some("socks5://a:1"));
    let p = resolve_proxy(None, Some("socks5://b:2".to_string()));
    assert_eq!(p.as_deref(), Some("socks5://b:2"));
    assert_eq!(resolve_proxy(None, None), None);
}

#[test]
fn settings_follow_request_and_override() {
    let req = request("http://example.com", Some("socks5://b:2"), None);
    let s = client_settings(&req, None);
    assert_eq!(s.timeout_seconds, 30);
    assert_eq!(s.proxy.as_deref(), Some("socks5://b:2"));
    let req = request("http://example.com", Some("socks5://b:2"), Some(12));
    let s = client_settings(&req, Some("socks5://a:1".to_string()));
    assert_eq!(s.timeout_seconds, 12);
    assert_eq!(s.proxy.as_deref(), Some("socks5://a:1"));
}

#[test]
fn failure_messages() {
    assert_failure(&invalid_proxy_reply("nope"), 400, "Invalid proxy URL: nope");
    assert_failure(&client_failure_reply("tls"), 500, "Failed to initialize HTTP client: tls");
    assert_failure(
        &transport_failure_reply("operation timed out"),
        500,
        "Failed to make HTTP request: operation timed out",
    );
    assert_failure(&body_failure_reply("eof"), 500, "Failed to read response body: eof");
    assert_failure(
        &status_failure_reply(404, Some("Not Found".to_string())),
        404,
        "HTTP request failed with status: 404 Not Found",
    );
    assert_failure(
        &status_failure_reply(599, None),
        599,
        "HTTP request failed with status: 599 Unknown Status",
    );
}

#[test]
fn content_is_relayed_under_200() {
    let r = content_reply("<html></html>".to_string());
    assert_eq!(r.status, 200);
    assert_eq!(r.response.content.as_deref(), Some("<html></html>"));
    assert_eq!(r.response.error, None);
}

#[test]
fn invalid_request_proxy_is_refused_with_400() {
    let req = request("http://example.com", Some(BAD_PROXY), None);
    match prepare(&req, None) {
        Setup::Rejected(r) => {
            assert_failure(&r, 400, &format!("Invalid proxy URL: {}", BAD_PROXY));
            assert!(r.response.error.unwrap().contains(BAD_PROXY));
        }
        Setup::Ready(_) => panic!("an invalid proxy was accepted"),
    }
}

#[test]
fn invalid_override_is_refused_even_with_good_request_proxy() {
    let req = request("http://example.com", Some("socks5://127.0.0.1:9050"), None);
    match prepare(&req, Some(BAD_PROXY.to_string())) {
        Setup::Rejected(r) => assert_failure(&r, 400, &format!("Invalid proxy URL: {}", BAD_PROXY)),
        Setup::Ready(_) => panic!("an invalid override was accepted"),
    }
}

#[test]
fn valid_override_hides_invalid_request_proxy() {
    let req = request("http://example.com", Some(BAD_PROXY), Some(5));
    assert!(matches!(prepare(&req, Some("socks5://127.0.0.1:9050".to_string())), Setup::Ready(_)));
}

#[test]
fn client_without_proxy_is_built() {
    let req = request("http://example.com", None, None);
    assert!(matches!(prepare(&req, None), Setup::Ready(_)));
}

#[test]
fn success_status_leads_to_reading_the_body() {
    assert!(matches!(on_status(200), StatusStep::ReadBody));
    assert!(matches!(on_status(204), StatusStep::ReadBody));
    assert!(matches!(on_status(299), StatusStep::ReadBody));
    let r = on_body(Ok("hello".to_string()));
    assert_eq!(r.status, 200);
    assert_eq!(r.response.content.as_deref(), Some("hello"));
    assert_eq!(r.response.error, None);
}

#[test]
fn unreadable_body_is_a_server_error() {
    let r = on_body(Err("connection reset".to_string()));
    assert_failure(&r, 500, "Failed to read response body: connection reset");
}

#[test]
fn non_success_status_is_passed_through() {
    match on_status(404) {
        StatusStep::Finished(r) => {
            assert_failure(&r, 404, "HTTP request failed with status: 404 Not Found")
        }
        StatusStep::ReadBody => panic!("404 read as success"),
    }
    match on_status(302) {
        StatusStep::Finished(r) => assert_failure(&r, 302, "HTTP request failed with status: 302 Found"),
        StatusStep::ReadBody => panic!("302 read as success"),
    }
    match on_status(503) {
        StatusStep::Finished(r) => {
            assert_failure(&r, 503, "HTTP request failed with status: 503 Service Unavailable")
        }
        StatusStep::ReadBody => panic!("503 read as success"),
    }
    match on_status(199) {
        StatusStep::Finished(r) => assert_eq!(r.status, 199),
        StatusStep::ReadBody => panic!("199 read as success"),
    }
}

#[test]
fn status_without_reason_phrase_is_unknown() {
    match on_status(599) {
        StatusStep::Finished(r) => {
            assert_failure(&r, 599, "HTTP request failed with status: 599 Unknown Status")
        }
        StatusStep::ReadBody => panic!("599 read as success"),
    }
}

#[test]
fn failed_send_is_a_transport_failure() {
    match on_response(Err("operation timed out".to_string())) {
        StatusStep::Finished(r) => {
            assert_failure(&r, 500, "Failed to make HTTP request: operation timed out")
        }
        StatusStep::ReadBody => panic!("a failed send read as success"),
    }
}

#[test]
fn received_status_goes_on_to_the_status_step() {
    assert!(matches!(on_response(Ok(200)), StatusStep::ReadBody));
    match on_response(Ok(404)) {
        StatusStep::Finished(r) => {
            assert_failure(&r, 404, "HTTP request failed with status: 404 Not Found")
        }
        StatusStep::ReadBody => panic!("404 read as success"),
    }
}
