use doodleiq::http::{
    forwarded_request_headers, header_text, json_error, response_headers,
    should_forward_request_header, should_forward_response_header, status_text, Call,
    GatewayAnswer, Header, Method,
};
use doodleiq::json::Json;
use serde_json::Value;

fn headers(list: &[(&str, &str)]) -> Vec<Header> {
    list.iter().map(|(name, value)| (name.to_string(), value.as_bytes().to_vec())).collect()
}

#[test]
fn statuses_are_written_with_their_reason() {
    assert_eq!(status_text(404), "404 Not Found");
    assert_eq!(status_text(429), "429 Too Many Requests");
    assert_eq!(status_text(599), "599 <unknown status code>");
    assert_eq!(status_text(511), "511 Network Authentication Required");
}

#[test]
fn calls_are_put_together() {
    let call = Call::get("http://x".to_string()).with_header("A", "b").with_header("A", "c");
    assert_eq!(call.method, Method::Get);
    assert_eq!(
        call.headers,
        vec![("A".to_string(), "b".to_string()), ("A".to_string(), "c".to_string())]
    );
    assert_eq!(call.body, None);
    let call = Call::post("http://x".to_string(), Json::text("t"));
    assert_eq!(call.method, Method::Post);
    assert_eq!(
        call.headers,
        vec![("Content-Type".to_string(), "application/json".to_string())]
    );
    assert_eq!(call.body, Some(b"\"t\"".to_vec()));
}

#[test]
fn credentials_and_connection_headers_stay_here() {
    for name in ["authorization", "host", "content-length", "connection", "transfer-encoding"] {
        assert!(!should_forward_request_header(name));
    }
    assert!(should_forward_request_header("content-type"));
    assert!(should_forward_request_header("content-encoding"));
    for name in ["content-length", "connection", "transfer-encoding", "content-encoding"] {
        assert!(!should_forward_response_header(name));
    }
    assert!(should_forward_response_header("authorization"));
    for name in
        ["keep-alive", "proxy-authenticate", "proxy-authorization", "te", "trailer", "upgrade"]
    {
        assert!(!should_forward_request_header(name));
        assert!(!should_forward_response_header(name));
    }
    let all = headers(&[("a", "1"), ("host", "h"), ("a", "2"), ("authorization", "x"), ("b", "")]);
    assert_eq!(
        forwarded_request_headers(&all),
        headers(&[("a", "1"), ("a", "2"), ("b", "")])
    );
}

#[test]
fn responses_keep_every_value_and_do_not_sniff() {
    let all = headers(&[
        ("set-cookie", "a=1"),
        ("content-length", "3"),
        ("x-content-type-options", "other"),
        ("content-type", "text/plain"),
        ("set-cookie", "b=2"),
        ("keep-alive", "timeout=5"),
    ]);
    assert_eq!(
        response_headers(&all),
        headers(&[
            ("set-cookie", "a=1"),
            ("content-type", "text/plain"),
            ("set-cookie", "b=2"),
            ("x-content-type-options", "nosniff"),
        ])
    );
    assert_eq!(response_headers(&Vec::new()), headers(&[("x-content-type-options", "nosniff")]));
}

#[test]
fn header_values_are_read_as_text() {
    let all = vec![
        ("a".to_string(), b"one".to_vec()),
        ("a".to_string(), b"two".to_vec()),
        ("b".to_string(), vec![0x80]),
        ("t".to_string(), b"x\ty".to_vec()),
    ];
    assert_eq!(header_text(&all, "a"), Some("one"));
    assert_eq!(header_text(&all, "b"), None);
    assert_eq!(header_text(&all, "c"), None);
    assert_eq!(header_text(&all, "t"), Some("x\ty"));
}

#[test]
fn errors_are_documents() {
    let answer = json_error(401, "no \"grant\"");
    assert_eq!(answer.status, 401);
    assert_eq!(GatewayAnswer::content_type(), "application/json");
    let document: Value = serde_json::from_slice(&answer.body).unwrap();
    assert_eq!(document["error"]["message"], "no \"grant\"");
    assert_eq!(document["error"]["type"], "gateway_error");
    assert_eq!(
        answer.body,
        br#"{"error":{"message":"no \"grant\"","type":"gateway_error"}}"#.to_vec()
    );
}
