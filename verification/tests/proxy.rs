use local_gateway::config::ConfigStore;
use local_gateway::proxy::{
    conclude, plan, target_url, Header, ProxyPlan, ProxyReply, RequestHead, UpstreamOutcome,
    UpstreamRequest, BODY_UNREADABLE_STATUS, DEFAULT_UPSTREAM, UPSTREAM_UNREACHABLE_STATUS,
};

fn header(name: &str, value: &[u8]) -> Header {
    Header { name: name.to_string(), value: value.to_vec() }
}

fn head(method: &str, path: &str, query: &str) -> RequestHead {
    RequestHead {
        method: method.to_string(),
        path: path.to_string(),
        query: query.to_string(),
        headers: vec![
            header("content-type", b"application/json"),
            header("x-raw", &[0xffu8, 0x00u8, 0x7fu8]),
            header("accept", b"*/*"),
            header("accept", b"text/plain"),
        ],
    }
}

#[test]
fn proxy_constants() {
    assert_eq!(DEFAULT_UPSTREAM, "http://127.0.0.1:11434");
    assert_eq!(BODY_UNREADABLE_STATUS, 500u16);
    assert_eq!(UPSTREAM_UNREACHABLE_STATUS, 502u16);
}

#[test]
fn a_new_store_holds_no_address() {
    let store = ConfigStore::new();
    assert_eq!(store.get_upstream(), None);
}

#[test]
fn get_returns_the_last_value_set() {
    let mut store = ConfigStore::new();
    store.set_upstream(Some("http://host:1234".to_string()));
    assert_eq!(store.get_upstream(), Some("http://host:1234".to_string()));
    assert_eq!(store.get_upstream(), Some("http://host:1234".to_string()));
    store.set_upstream(Some("http://other:1".to_string()));
    assert_eq!(store.get_upstream(), Some("http://other:1".to_string()));
    store.set_upstream(None);
    assert_eq!(store.get_upstream(), None);
    store.set_upstream(Some(String::new()));
    assert_eq!(store.get_upstream(), Some(String::new()));
}

#[test]
fn the_store_does_not_look_at_the_address() {
    let mut store = ConfigStore::new();
    store.set_upstream(Some("not a url at all ;|&".to_string()));
    assert_eq!(store.get_upstream(), Some("not a url at all ;|&".to_string()));
}

#[test]
fn get_substitutes_no_default() {
    let mut store = ConfigStore::new();
    store.set_upstream(Some("http://host:1234".to_string()));
    store.set_upstream(None);
    assert_eq!(store.get_upstream(), None);
    assert_ne!(store.get_upstream(), Some(DEFAULT_UPSTREAM.to_string()));
}

#[test]
fn target_goes_to_the_default_where_nothing_is_configured() {
    assert_eq!(target_url(None, "/api/tags", ""), "http://127.0.0.1:11434/api/tags?");
    assert_eq!(target_url(None, "/api/tags", "a=1&b=2"), "http://127.0.0.1:11434/api/tags?a=1&b=2");
    assert_eq!(target_url(None, "/v1/models", "x"), "http://127.0.0.1:11434/v1/models?x");
}

#[test]
fn target_follows_the_configured_address() {
    let mut store = ConfigStore::new();
    let before = store.get_upstream();
    assert_eq!(target_url(before.as_deref(), "/api/tags", "verbose=1"), "http://127.0.0.1:11434/api/tags?verbose=1");
    store.set_upstream(Some("http://host:1234".to_string()));
    let after = store.get_upstream();
    assert_eq!(target_url(after.as_deref(), "/api/tags", "verbose=1"), "http://host:1234/api/tags?verbose=1");
    store.set_upstream(None);
    let cleared = store.get_upstream();
    assert_eq!(target_url(cleared.as_deref(), "/api/tags", "verbose=1"), "http://127.0.0.1:11434/api/tags?verbose=1");
}

#[test]
fn target_is_plain_concatenation() {
    assert_eq!(target_url(Some("http://host:1234/"), "/api/tags", ""), "http://host:1234//api/tags?");
    assert_eq!(target_url(Some(""), "", ""), "?");
    assert_eq!(target_url(Some("h"), "p", "q"), "hp?q");
}

#[test]
fn plan_forwards_method_headers_and_body_unchanged() {
    let body: Vec<u8> = vec![0u8, 1u8, 2u8, 255u8];
    let planned = plan(Some("http://host:1234"), head("POST", "/api/generate", "stream=true"), Some(body.clone()));
    assert_eq!(
        planned,
        ProxyPlan::Forward(UpstreamRequest {
            method: "POST".to_string(),
            url: "http://host:1234/api/generate?stream=true".to_string(),
            headers: head("POST", "", "").headers,
            body,
        })
    );
}

#[test]
fn plan_uses_the_default_address() {
    let planned = plan(None, head("GET", "/api/tags", ""), Some(Vec::new()));
    match planned {
        ProxyPlan::Forward(request) => {
            assert_eq!(request.url, "http://127.0.0.1:11434/api/tags?");
            assert_eq!(request.method, "GET");
            assert_eq!(request.body, Vec::<u8>::new());
            assert_eq!(request.headers.len(), 4);
        }
        ProxyPlan::Fail(status) => panic!("failed with {}", status),
    }
}

#[test]
fn unreadable_body_fails_without_an_upstream_call() {
    assert_eq!(plan(None, head("POST", "/api/generate", ""), None), ProxyPlan::Fail(500u16));
    assert_eq!(
        plan(Some("http://host:1234"), head("PUT", "/v1/x", "q"), None),
        ProxyPlan::Fail(BODY_UNREADABLE_STATUS)
    );
}

#[test]
fn unreachable_upstream_is_a_gateway_error() {
    assert_eq!(conclude(UpstreamOutcome::Unreachable), ProxyReply::Fail(502u16));
    assert_ne!(conclude(UpstreamOutcome::Unreachable), ProxyReply::Fail(BODY_UNREADABLE_STATUS));
}

#[test]
fn upstream_response_is_relayed_as_it_came() {
    let headers = vec![header("content-type", b"application/x-ndjson"), header("x-b", &[200u8])];
    let statuses: Vec<u16> = vec![200u16, 201u16, 204u16, 301u16, 404u16, 500u16, 502u16, 599u16];
    for status in statuses {
        assert_eq!(
            conclude(UpstreamOutcome::Responded { status, headers: headers.clone() }),
            ProxyReply::Relay { status, headers: headers.clone() }
        );
    }
}
