use doodleiq::config::RuntimeConfig;
use doodleiq::http::Header;
use doodleiq::upstream::{upstream_request, upstream_url};
use serde_json::Value;

fn config(url: &str, api_key: &str) -> RuntimeConfig {
    RuntimeConfig {
        url: url.to_string(),
        api_key: api_key.to_string(),
        ..RuntimeConfig::default()
    }
}

#[test]
fn a_request_keeps_the_configured_host() {
    let base = "http://user@127.0.0.1:8001/v1/models/status?x=1";
    assert_eq!(
        upstream_url(base, "/v1/chat/completions", Some("a=b")).unwrap().url,
        "http://user@127.0.0.1:8001/v1/chat/completions?a=b"
    );
    assert_eq!(
        upstream_url(base, "/v1/models", None).unwrap().url,
        "http://user@127.0.0.1:8001/v1/models"
    );
    // A path that looks like another host stays a path.
    assert_eq!(
        upstream_url("http://127.0.0.1:8001/", "//other.example/v1", None).unwrap().url,
        "http://127.0.0.1:8001//other.example/v1"
    );
    assert_eq!(
        upstream_url("http://127.0.0.1/", "/v1/a b", Some("q=a b")).unwrap().url,
        "http://127.0.0.1/v1/a%20b?q=a%20b"
    );
}

#[test]
fn a_target_shows_scheme_host_and_port() {
    let target = upstream_url("https://[::1]:8443/v1/models", "//other.example:1/", None).unwrap();
    assert_eq!(target.scheme, "https");
    assert_eq!(target.host.as_deref(), Some("[::1]"));
    assert_eq!(target.port, Some(8443));
    let target = upstream_url("http://Example.COM:80/", "/v1", Some("x")).unwrap();
    assert_eq!(target.url, "http://example.com/v1?x");
    assert_eq!(target.host.as_deref(), Some("example.com"));
    assert_eq!(target.port, None);
    let target = upstream_url("mailto:x", "/v1", None).unwrap();
    assert_eq!((target.scheme.as_str(), target.host), ("mailto", None));
}

#[test]
fn a_url_that_is_none_is_an_error() {
    assert_eq!(
        upstream_url("127.0.0.1", "/v1", None).unwrap_err(),
        "invalid model runtime URL"
    );
    assert_eq!(upstream_url("", "/v1", None).unwrap_err(), "invalid model runtime URL");
}

#[test]
fn the_runtime_gets_its_own_credential() {
    let headers: Vec<Header> = vec![
        ("authorization".to_string(), b"Bearer consumer".to_vec()),
        ("content-type".to_string(), b"application/json".to_vec()),
        ("host".to_string(), b"x.doodleiq.com".to_vec()),
    ];
    let request = upstream_request(
        &config("http://127.0.0.1:1/", "key"),
        "/v1/chat/completions",
        None,
        &headers,
        br#"{"stream":true}"#.to_vec(),
    )
    .unwrap();
    assert_eq!(request.target.url, "http://127.0.0.1:1/v1/chat/completions");
    assert_eq!(
        request.headers,
        vec![
            ("content-type".to_string(), b"application/json".to_vec()),
            ("authorization".to_string(), b"Bearer key".to_vec()),
        ]
    );
    let body: Value = serde_json::from_slice(&request.body.unwrap()).unwrap();
    assert_eq!(body["stream_options"]["include_usage"], true);
    let request = upstream_request(
        &config("http://127.0.0.1:1/", " "),
        "/v1/models",
        Some("limit=2"),
        &headers,
        Vec::new(),
    )
    .unwrap();
    assert_eq!(request.target.url, "http://127.0.0.1:1/v1/models?limit=2");
    assert_eq!(request.headers.len(), 1);
    assert_eq!(request.body, None);
}

#[test]
fn an_unusable_url_is_a_bad_gateway() {
    let answer =
        upstream_request(&config("nonsense", ""), "/v1/models", None, &Vec::new(), Vec::new())
            .unwrap_err();
    assert_eq!(answer.status, 502);
    let document: Value = serde_json::from_slice(&answer.body).unwrap();
    assert_eq!(document["error"]["message"], "invalid model runtime URL");
}
