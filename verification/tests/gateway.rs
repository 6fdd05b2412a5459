use runtime_service::auth::{authorize, parse_api_keys};
use runtime_service::gateway::{
    encoded_or_empty, forwards_header, query_string, relay_from_runtime, route_method, route_path,
    runtime_authorization, runtime_ws_url, upstream_url, GatewayRoute, HttpMethod, WsMessage,
};

#[test]
fn routes() {
    assert_eq!(route_path(&GatewayRoute::Status("7".into())), "/status/7");
    assert_eq!(route_path(&GatewayRoute::JobLogs("7".into())), "/jobs/7/logs");
    assert_eq!(route_path(&GatewayRoute::CancelJob("7".into())), "/jobs/7");
    assert_eq!(route_path(&GatewayRoute::PublicSummary), "/public/summary");
    assert_eq!(route_method(&GatewayRoute::CancelJob("7".into())), HttpMethod::Delete);
    assert_eq!(route_method(&GatewayRoute::ExecuteAsync), HttpMethod::Post);
    assert_eq!(route_method(&GatewayRoute::ListJobs), HttpMethod::Get);
}

#[test]
fn query_strings() {
    assert_eq!(query_string(&vec![]), None);
    assert_eq!(query_string(&vec![("tail".into(), "5".into())]), Some("tail=5".to_string()));
    assert_eq!(query_string(&vec![("a b".into(), "c&d".into())]), Some("a+b=c%26d".to_string()));
    assert_eq!(upstream_url("http://h:1", "/jobs", &Some("status=running".into())), "http://h:1/jobs?status=running");
    assert_eq!(upstream_url("http://h:1", "/jobs", &Some(String::new())), "http://h:1/jobs");
    assert_eq!(upstream_url("http://h:1", "/execute", &None), "http://h:1/execute");
}

#[test]
fn headers_and_auth() {
    assert!(!forwards_header("host"));
    assert!(!forwards_header("authorization"));
    assert!(forwards_header("content-type"));
    assert_eq!(runtime_authorization(""), None);
    assert_eq!(runtime_authorization("k"), Some("Bearer k".to_string()));
}

#[test]
fn websocket_relay() {
    assert_eq!(runtime_ws_url("ws://127.0.0.1:8081//", "id1"), "ws://127.0.0.1:8081/ws/id1");
    assert!(relay_from_runtime(WsMessage::Frame).is_none());
    assert!(matches!(relay_from_runtime(WsMessage::Text("t".into())), Some(WsMessage::Text(t)) if t == "t"));
}

#[test]
fn api_keys() {
    assert_eq!(parse_api_keys(" k1 , ,k2,"), vec!["k1".to_string(), "k2".to_string()]);
    assert!(parse_api_keys("").is_empty());
    let keys = parse_api_keys("secret");
    assert!(authorize("/status/1", None, None));
    assert!(authorize("/execute", Some("Bearer  secret "), Some(&keys)));
    assert!(!authorize("/execute", Some("Bearer other"), Some(&keys)));
    assert!(!authorize("/execute", Some("Basic secret"), Some(&keys)));
    assert!(!authorize("/execute", None, Some(&keys)));
    assert!(!authorize("/execute", Some("Bearer secret"), None));
}

#[test]
fn refused_encoding_gives_empty_query() {
    assert_eq!(encoded_or_empty(None), "");
    assert_eq!(encoded_or_empty(Some("a=1".into())), "a=1");
}

#[test]
fn query_encoding_by_bytes() {
    assert_eq!(query_string(&vec![("q".into(), "é~*-._".into())]), Some("q=%C3%A9%7E*-._".to_string()));
    assert_eq!(
        query_string(&vec![("a".into(), "1".into()), ("".into(), "".into()), ("b c".into(), "+".into())]),
        Some("a=1&=&b+c=%2B".to_string())
    );
}
