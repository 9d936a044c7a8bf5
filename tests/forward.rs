use jwt_gateway::forward::{
    forward, header_is_content_type, limit_body, relay_headers, rewrite_url, ForwardError,
    ForwardTarget,
};

fn target(port: Option<u16>) -> ForwardTarget {
    ForwardTarget { scheme: "http".to_string(), host: "backend".to_string(), port }
}

fn pairs(v: &[(&str, &str)]) -> Vec<(String, Vec<u8>)> {
    v.iter().map(|(a, b)| (a.to_string(), b.as_bytes().to_vec())).collect()
}

#[test]
fn url_rewrite_keeps_path_and_query() {
    assert_eq!(
        rewrite_url(&target(Some(9000)), "/foo/bar", Some("x=1")),
        "http://backend:9000/foo/bar?x=1"
    );
}

#[test]
fn url_rewrite_without_query_or_port() {
    assert_eq!(rewrite_url(&target(Some(9000)), "/foo", None), "http://backend:9000/foo");
    assert_eq!(rewrite_url(&target(None), "/", None), "http://backend/");
    assert_eq!(rewrite_url(&target(Some(0)), "/", Some("")), "http://backend:0/?");
    assert_eq!(rewrite_url(&target(Some(65535)), "/a", None), "http://backend:65535/a");
}

#[test]
fn content_type_name_in_any_case() {
    assert!(header_is_content_type("content-type"));
    assert!(header_is_content_type("Content-Type"));
    assert!(header_is_content_type("CONTENT-TYPE"));
    assert!(!header_is_content_type("content-length"));
    assert!(!header_is_content_type("content_type"));
    assert!(!header_is_content_type(""));
}

#[test]
fn forwarder_round_trip() {
    let backend = pairs(&[("x", "1"), ("x", "2"), ("content-type", "text/plain")]);
    let body = b"{\"a\":1}".to_vec();
    let resp = forward(200, &backend, body.clone(), 2_048_000).unwrap();
    assert_eq!(resp.status, 200);
    assert_eq!(resp.body, body);
    assert_eq!(
        resp.headers,
        pairs(&[("x", "1"), ("x", "2"), ("content-type", "application/json")])
    );
}

#[test]
fn relay_replaces_every_content_type() {
    let backend = pairs(&[
        ("Content-Type", "text/html"),
        ("etag", "\"v1\""),
        ("CONTENT-TYPE", "text/plain"),
        ("set-cookie", "a=1"),
        ("set-cookie", "b=2"),
    ]);
    assert_eq!(
        relay_headers(&backend),
        pairs(&[
            ("etag", "\"v1\""),
            ("set-cookie", "a=1"),
            ("set-cookie", "b=2"),
            ("content-type", "application/json"),
        ])
    );
    assert_eq!(relay_headers(&Vec::new()), pairs(&[("content-type", "application/json")]));
}

#[test]
fn oversized_body_fails_explicitly() {
    let body = vec![7u8; 11];
    assert_eq!(limit_body(body.clone(), 10).err(), Some(ForwardError::PayloadTooLarge));
    assert!(matches!(forward(200, &Vec::new(), body, 10), Err(ForwardError::PayloadTooLarge)));
}

#[test]
fn body_at_the_limit_is_relayed() {
    let body = vec![7u8; 10];
    assert_eq!(limit_body(body.clone(), 10).ok(), Some(body));
    assert_eq!(limit_body(Vec::new(), 0).ok(), Some(Vec::new()));
}

#[test]
fn forwarding_errors_are_gateway_errors() {
    assert_eq!(ForwardError::Upstream.status(), 502);
    assert_eq!(ForwardError::PayloadTooLarge.status(), 502);
}

#[test]
fn header_value_bytes_are_relayed_verbatim() {
    let backend = vec![("x-raw".to_string(), vec![0xffu8, 0x80, b'a'])];
    let relayed = relay_headers(&backend);
    assert_eq!(relayed[0], ("x-raw".to_string(), vec![0xffu8, 0x80, b'a']));
    assert_eq!(relayed[1], ("content-type".to_string(), b"application/json".to_vec()));
}
