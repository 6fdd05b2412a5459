//! The API gateway's forwarding rules: which runtime address each route reaches, which
//! headers go along, and how its WebSocket relay treats frames.
use vstd::prelude::*;
use crate::outside::{form_urlencoded, urlencode_pairs};
use crate::text::{str_equal, trim_end_char, trim_end_matches_char};

verus! {

/// The method of a forwarded request.
#[derive(Debug, Clone, Copy, PartialEq, Eq)]
pub enum HttpMethod {
    Get,
    Post,
    Delete,
}

/// The routes that the gateway forwards to the runtime service.
#[derive(Debug, Clone)]
pub enum GatewayRoute {
    Execute,
    ExecuteAsync,
    Status(String),
    JobLogs(String),
    ListJobs,
    CancelJob(String),
    PublicSummary,
}

/// The method and runtime path of each route.
pub open spec fn route_target(r: GatewayRoute) -> (HttpMethod, Seq<char>) {
    match r {
        GatewayRoute::Execute => (HttpMethod::Post, "/execute"@),
        GatewayRoute::ExecuteAsync => (HttpMethod::Post, "/execute_async"@),
        GatewayRoute::Status(id) => (HttpMethod::Get, "/status/"@ + id@),
        GatewayRoute::JobLogs(id) => (HttpMethod::Get, "/jobs/"@ + id@ + "/logs"@),
        GatewayRoute::ListJobs => (HttpMethod::Get, "/jobs"@),
        GatewayRoute::CancelJob(id) => (HttpMethod::Delete, "/jobs/"@ + id@),
        GatewayRoute::PublicSummary => (HttpMethod::Get, "/public/summary"@),
    }
}

fn joined(a: &str, b: &str) -> (s: String)
    ensures
        s@ == a@ + b@,
{
    let mut s = String::from_str(a);
    s.append(b);
    s
}

pub fn route_method(r: &GatewayRoute) -> (m: HttpMethod)
    ensures
        m == route_target(*r).0,
        m == client_request(*r).1,
{
    match r {
        GatewayRoute::Execute | GatewayRoute::ExecuteAsync => HttpMethod::Post,
        GatewayRoute::CancelJob(_) => HttpMethod::Delete,
        _ => HttpMethod::Get,
    }
}

pub fn route_path(r: &GatewayRoute) -> (p: String)
    ensures
        p@ == route_target(*r).1,
        p@ == client_request(*r).0,
{
    match r {
        GatewayRoute::Execute => String::from_str("/execute"),
        GatewayRoute::ExecuteAsync => String::from_str("/execute_async"),
        GatewayRoute::Status(id) => joined("/status/", id.as_str()),
        GatewayRoute::JobLogs(id) => {
            let mut p = joined("/jobs/", id.as_str());
            p.append("/logs");
            p
        },
        GatewayRoute::ListJobs => String::from_str("/jobs"),
        GatewayRoute::CancelJob(id) => joined("/jobs/", id.as_str()),
        GatewayRoute::PublicSummary => String::from_str("/public/summary"),
    }
}

/// The path and method of the client request that the gateway matched as route `r`, by the
/// gateway's own route table (`/execute`, `/execute_async`, `/status/:id`, `/jobs`,
/// `/jobs/:id/logs`, `/jobs/:id`, `/public/summary`).
pub open spec fn client_request(r: GatewayRoute) -> (Seq<char>, HttpMethod) {
    match r {
        GatewayRoute::Execute => ("/execute"@, HttpMethod::Post),
        GatewayRoute::ExecuteAsync => ("/execute_async"@, HttpMethod::Post),
        GatewayRoute::Status(id) => ("/status/"@ + id@, HttpMethod::Get),
        GatewayRoute::ListJobs => ("/jobs"@, HttpMethod::Get),
        GatewayRoute::JobLogs(id) => ("/jobs/"@ + id@ + "/logs"@, HttpMethod::Get),
        GatewayRoute::CancelJob(id) => ("/jobs/"@ + id@, HttpMethod::Delete),
        GatewayRoute::PublicSummary => ("/public/summary"@, HttpMethod::Get),
    }
}

/// The gateway forwards every request to the runtime route of the same name: with the
/// method and the path that the client used.
pub proof fn routes_forward_to_same_path(r: GatewayRoute)
    ensures
        route_target(r).0 == client_request(r).1,
        route_target(r).1 == client_request(r).0,
{
}

/// Which route a value is, and the id it carries (empty for routes without one).
pub open spec fn route_key(r: GatewayRoute) -> (int, Seq<char>) {
    match r {
        GatewayRoute::Execute => (0, Seq::empty()),
        GatewayRoute::ExecuteAsync => (1, Seq::empty()),
        GatewayRoute::Status(id) => (2, id@),
        GatewayRoute::JobLogs(id) => (3, id@),
        GatewayRoute::ListJobs => (4, Seq::empty()),
        GatewayRoute::CancelJob(id) => (5, id@),
        GatewayRoute::PublicSummary => (6, Seq::empty()),
    }
}

/// Distinct routes, or one route with distinct ids, reach distinct runtime requests: no
/// two of them are forwarded with the same method and path.
pub proof fn distinct_routes_reach_distinct_targets(a: GatewayRoute, b: GatewayRoute)
    ensures
        route_target(a) == route_target(b) ==> route_key(a) == route_key(b),
{
    reveal_strlit("/execute");
    reveal_strlit("/execute_async");
    reveal_strlit("/status/");
    reveal_strlit("/jobs/");
    reveal_strlit("/logs");
    reveal_strlit("/jobs");
    reveal_strlit("/public/summary");
    let (ma, pa) = route_target(a);
    let (mb, pb) = route_target(b);
    if ma == mb && pa == pb {
        match (a, b) {
            (GatewayRoute::Status(x), GatewayRoute::Status(y)) => {
                assert(x@ == pa.skip(8));
                assert(y@ == pb.skip(8));
            },
            (GatewayRoute::CancelJob(x), GatewayRoute::CancelJob(y)) => {
                assert(x@ == pa.skip(6));
                assert(y@ == pb.skip(6));
            },
            (GatewayRoute::JobLogs(x), GatewayRoute::JobLogs(y)) => {
                assert(x@ == pa.skip(6).take(pa.len() - 11));
                assert(y@ == pb.skip(6).take(pb.len() - 11));
            },
            (GatewayRoute::Status(_), _) | (_, GatewayRoute::Status(_)) => {
                assert(pa[1] == pb[1]);
            },
            (GatewayRoute::JobLogs(x), GatewayRoute::ListJobs) => {
                assert(pa.len() >= 11);
            },
            (GatewayRoute::ListJobs, GatewayRoute::JobLogs(y)) => {
                assert(pb.len() >= 11);
            },
            _ => {
                assert(pa.len() == pb.len());
                assert(pa[1] == pb[1]);
            },
        }
    }
}

/// The query string forwarded for the given query parameters: none when there are none,
/// else their form encoding.
pub open spec fn query_string_spec(pairs: Seq<(Seq<char>, Seq<char>)>) -> Option<Seq<char>> {
    if pairs.len() == 0 {
        None
    } else {
        Some(form_urlencoded(pairs))
    }
}

pub fn query_string(pairs: &Vec<(String, String)>) -> (q: Option<String>)
    ensures
        match q {
            Some(t) => query_string_spec(pairs@.map_values(|p: (String, String)| (p.0@, p.1@))) == Some(t@),
            None => query_string_spec(pairs@.map_values(|p: (String, String)| (p.0@, p.1@))) is None,
        },
{
    if pairs.len() == 0 {
        return None;
    }
    Some(encoded_or_empty(urlencode_pairs(pairs)))
}

/// The query text for an encoder outcome: the encoding, or empty when it was refused.
pub fn encoded_or_empty(encoded: Option<String>) -> (t: String)
    ensures
        match encoded {
            Some(e) => t@ == e@,
            None => t@.len() == 0,
        },
{
    match encoded {
        Some(t) => t,
        None => String::new(),
    }
}

/// The runtime address a request is forwarded to: the runtime base, the path, and `?` with
/// the query string when there is a non-empty one.
pub open spec fn upstream_url_spec(base: Seq<char>, path: Seq<char>, query: Option<Seq<char>>) -> Seq<char> {
    match query {
        Some(q) => if q.len() > 0 {
            base + path + "?"@ + q
        } else {
            base + path
        },
        None => base + path,
    }
}

pub fn upstream_url(base: &str, path: &str, query: &Option<String>) -> (u: String)
    ensures
        u@ == upstream_url_spec(base@, path@, match query { Some(q) => Some(q@), None => None }),
{
    let mut u = joined(base, path);
    match query {
        Some(q) => {
            if q.as_str().is_empty() {
                u
            } else {
                u.append("?");
                u.append(q.as_str());
                u
            }
        },
        None => u,
    }
}

/// Whether an incoming header (by its lowercase name) is passed on: all but `host` and
/// `authorization`.
pub fn forwards_header(name: &str) -> (b: bool)
    ensures
        b == (name@ != "host"@ && name@ != "authorization"@),
{
    !str_equal(name, "host") && !str_equal(name, "authorization")
}

/// The `Authorization` value that the gateway adds for the runtime: `Bearer <key>` when a
/// key is configured.
pub fn runtime_authorization(api_key: &str) -> (h: Option<String>)
    ensures
        api_key@.len() == 0 ==> h is None,
        api_key@.len() > 0 ==> (h matches Some(v) && v@ == "Bearer "@ + api_key@),
{
    if api_key.is_empty() {
        None
    } else {
        Some(joined("Bearer ", api_key))
    }
}

/// The runtime's WebSocket address for job `id`: the base without trailing slashes, then
/// `/ws/` and the id.
pub fn runtime_ws_url(base: &str, id: &str) -> (u: String)
    ensures
        u@ == trim_end_char(base@, '/') + "/ws/"@ + id@,
{
    let mut u = trim_end_matches_char(base, '/');
    u.append("/ws/");
    u.append(id);
    u
}

/// A WebSocket message as the relay sees it.
#[derive(Debug, Clone)]
pub enum WsMessage {
    Text(String),
    Binary(Vec<u8>),
    Ping(Vec<u8>),
    Pong(Vec<u8>),
    Close(Option<(u16, String)>),
    /// A raw frame, which only the runtime side can produce.
    Frame,
}

/// What the relay passes on to the client of a message from the runtime: every message but
/// a raw frame, unchanged.
pub fn relay_from_runtime(m: WsMessage) -> (r: Option<WsMessage>)
    ensures
        m is Frame ==> r is None,
        !(m is Frame) ==> r == Some(m),
{
    match m {
        WsMessage::Frame => None,
        other => Some(other),
    }
}

/// Trailing slashes on the configured base do not change the WebSocket address.
pub proof fn ws_url_ignores_trailing_slash(base: Seq<char>)
    ensures
        trim_end_char(base.push('/'), '/') == trim_end_char(base, '/'),
{
    assert(base.push('/').drop_last() == base);
}

} // verus!
