//! The decisions of the reverse proxy: where a request goes, what is sent
//! there, and what the caller gets back.
//!
//! The proxy keeps nothing between requests. The caller reads the configured
//! address once per request, reads the inbound body, performs the upstream
//! call and streams the response; the functions here decide each step.

use vstd::prelude::*;
use crate::config::after_set;

verus! {

/// The upstream base address where none is configured.
pub const DEFAULT_UPSTREAM: &'static str = "http://127.0.0.1:11434";

/// The status for a request whose body could not be read.
pub const BODY_UNREADABLE_STATUS: u16 = 500;

/// The status for a request whose upstream call could not be completed.
pub const UPSTREAM_UNREACHABLE_STATUS: u16 = 502;

/// One header line: a name and the bytes of its value.
#[derive(PartialEq, Eq, Clone, Debug)]
pub struct Header {
    pub name: String,
    pub value: Vec<u8>,
}

/// What is known of an inbound request before its body is read.
#[derive(PartialEq, Eq, Clone, Debug)]
pub struct RequestHead {
    pub method: String,
    pub path: String,
    /// The query string without its `?`; empty where the request has none.
    pub query: String,
    pub headers: Vec<Header>,
}

/// The request to send upstream.
#[derive(PartialEq, Eq, Clone, Debug)]
pub struct UpstreamRequest {
    pub method: String,
    pub url: String,
    pub headers: Vec<Header>,
    pub body: Vec<u8>,
}

/// What to do with an inbound request once its body was read, or could not be.
#[derive(PartialEq, Eq, Clone, Debug)]
pub enum ProxyPlan {
    /// Send this request upstream.
    Forward(UpstreamRequest),
    /// Answer with this status and make no upstream call.
    Fail(u16),
}

/// How the upstream call ended.
#[derive(PartialEq, Eq, Clone, Debug)]
pub enum UpstreamOutcome {
    /// Upstream answered. Its body is streamed by the caller.
    Responded { status: u16, headers: Vec<Header> },
    /// The call could not be completed: connection refused, timeout, name
    /// resolution and the like.
    Unreachable,
}

/// What the caller of the proxy gets back.
#[derive(PartialEq, Eq, Clone, Debug)]
pub enum ProxyReply {
    /// The upstream status and headers as they came, followed by the upstream
    /// body as it arrives.
    Relay { status: u16, headers: Vec<Header> },
    /// This status and nothing else.
    Fail(u16),
}

/// The base address that requests go to: the configured one, or the default.
pub open spec fn base_address(configured: Option<Seq<char>>) -> Seq<char> {
    match configured {
        Some(address) => address,
        None => DEFAULT_UPSTREAM@,
    }
}

/// The URL that a request for `path` with `query` goes to: the base address,
/// the path, a `?`, and the query string.
pub open spec fn target_url_spec(
    configured: Option<Seq<char>>,
    path: Seq<char>,
    query: Seq<char>,
) -> Seq<char> {
    base_address(configured) + path + "?"@ + query
}

/// The URL that a request for `path` with `query` goes to.
pub fn target_url(configured: Option<&str>, path: &str, query: &str) -> (url: String)
    ensures
        url@ == target_url_spec(configured.deep_view(), path@, query@),
{
    let mut url = match configured {
        Some(address) => String::from_str(address),
        None => String::from_str(DEFAULT_UPSTREAM),
    };
    url.append(path);
    url.append("?");
    url.append(query);
    url
}

/// Decides what to do with an inbound request: with its body read, it is
/// forwarded with the same method, headers and body to its target; with its
/// body unreadable, it fails and nothing is sent upstream.
pub fn plan(configured: Option<&str>, head: RequestHead, body: Option<Vec<u8>>) -> (planned:
    ProxyPlan)
    ensures
        match body {
            Some(bytes) => planned matches ProxyPlan::Forward(request) && {
                &&& request.url@ == target_url_spec(
                    configured.deep_view(),
                    head.path@,
                    head.query@,
                )
                &&& request.method == head.method
                &&& request.headers == head.headers
                &&& request.body == bytes
            },
            None => planned == ProxyPlan::Fail(BODY_UNREADABLE_STATUS),
        },
{
    match body {
        Some(bytes) => {
            let url = target_url(configured, head.path.as_str(), head.query.as_str());
            ProxyPlan::Forward(
                UpstreamRequest { method: head.method, url, headers: head.headers, body: bytes },
            )
        },
        None => ProxyPlan::Fail(BODY_UNREADABLE_STATUS),
    }
}

/// Decides what the caller gets back: the upstream status and headers as they
/// came, or the gateway error where upstream could not be reached.
pub fn conclude(outcome: UpstreamOutcome) -> (reply: ProxyReply)
    ensures
        match outcome {
            UpstreamOutcome::Responded { status, headers } => reply == (ProxyReply::Relay {
                status,
                headers,
            }),
            UpstreamOutcome::Unreachable => reply == ProxyReply::Fail(UPSTREAM_UNREACHABLE_STATUS),
        },
{
    match outcome {
        UpstreamOutcome::Responded { status, headers } => ProxyReply::Relay { status, headers },
        UpstreamOutcome::Unreachable => ProxyReply::Fail(UPSTREAM_UNREACHABLE_STATUS),
    }
}

/// With no address configured a request goes to the default address.
pub proof fn lemma_default_target(path: Seq<char>, query: Seq<char>)
    ensures
        target_url_spec(None, path, query) == DEFAULT_UPSTREAM@ + path + "?"@ + query,
{
}

/// Once an address is set, a request goes to that address, with its own path
/// and query string, whatever was configured before.
pub proof fn lemma_target_follows_store(
    before: Option<Seq<char>>,
    address: Seq<char>,
    path: Seq<char>,
    query: Seq<char>,
)
    ensures
        target_url_spec(after_set(before, Some(address)), path, query) == address + path + "?"@
            + query,
{
}

} // verus!
