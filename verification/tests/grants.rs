use doodleiq::config::RuntimeConfig;
use doodleiq::grants::{
    connect_consumer_session, disconnect_answer, disconnect_consumer_session, inference_grant,
    provider_revenue, session_status_call, validate_inference_grant, validation_call,
    GrantValidation, InferenceGrant,
};
use doodleiq::http::{GatewayAnswer, Header, Method, Reply};
use doodleiq::json::{Json, JsonNumber};
use doodleiq::meter::UsageMeter;
use serde_json::Value;

const TOKEN: &str = "12345678901234567890";

fn shown(value: &str) -> Option<(String, String)> {
    let headers: Vec<Header> = vec![("authorization".to_string(), value.as_bytes().to_vec())];
    inference_grant(&headers).map(|grant| (grant.grant_id, grant.request_token))
}

fn paired() -> RuntimeConfig {
    RuntimeConfig {
        device_id: "dev".to_string(),
        pairing_token: "secret".to_string(),
        ..RuntimeConfig::default()
    }
}

fn message(answer: &GatewayAnswer) -> String {
    let document: Value = serde_json::from_slice(&answer.body).unwrap();
    document["error"]["message"].as_str().unwrap().to_string()
}

fn answered(text: &str) -> Reply<Json> {
    Reply::Answered(Json::parse(text.as_bytes()).unwrap())
}

#[test]
fn a_grant_is_an_id_and_a_token() {
    assert_eq!(
        shown("Bearer g.12345678901234567890"),
        Some(("g".to_string(), TOKEN.to_string()))
    );
    assert_eq!(
        shown("Bearer g.a.3456789012345678901"),
        Some(("g".to_string(), "a.3456789012345678901".to_string()))
    );
    assert_eq!(shown("Bearer g.1234567890123456789"), None);
    assert_eq!(shown("Bearer .12345678901234567890"), None);
    assert_eq!(shown("Bearer g12345678901234567890"), None);
    assert_eq!(shown("bearer g.12345678901234567890"), None);
    assert_eq!(shown("Basic g.12345678901234567890"), None);
    assert!(inference_grant(&Vec::new()).is_none());
}

#[test]
fn the_first_authorization_counts() {
    let headers: Vec<Header> = vec![
        ("authorization".to_string(), b"Basic x".to_vec()),
        ("authorization".to_string(), b"Bearer g.12345678901234567890".to_vec()),
    ];
    assert!(inference_grant(&headers).is_none());
}

#[test]
fn validation_is_asked_of_the_control_plane() {
    let grant = InferenceGrant { grant_id: "g".to_string(), request_token: TOKEN.to_string() };
    let call = validation_call(&paired(), "https://cp", &grant).unwrap();
    assert_eq!(call.method, Method::Post);
    assert_eq!(call.url, "https://cp/v1/devices/dev/inference-grants/validate");
    assert_eq!(
        call.headers[1],
        ("X-DoodleIQ-Pairing-Token".to_string(), "secret".to_string())
    );
    assert_eq!(
        call.body.unwrap(),
        br#"{"grant_id":"g","request_token":"12345678901234567890"}"#.to_vec()
    );
    assert_eq!(
        validation_call(&RuntimeConfig::default(), "https://cp", &grant).unwrap_err(),
        "the provider device is not paired"
    );
}

#[test]
fn validation_tells_its_failures_apart() {
    let failed = |reply| validate_inference_grant(reply).unwrap_err();
    assert_eq!(
        failed(Reply::Unreachable("down".to_string())),
        "unable to validate inference grant: down"
    );
    assert_eq!(
        failed(Reply::Rejected { status: 403, detail: Some("expired".to_string()) }),
        "DoodleIQ API key validation failed (403 Forbidden): expired"
    );
    assert_eq!(
        failed(Reply::Rejected { status: 500, detail: None }),
        "DoodleIQ API key validation failed (500 Internal Server Error): unable to read validation response"
    );
    assert_eq!(
        failed(Reply::Malformed("eof".to_string())),
        "invalid grant validation response: eof"
    );
    let valid = validate_inference_grant(Reply::Answered(GrantValidation {
        model_id: "m".to_string(),
        max_tokens: 1,
        expires_at: "then".to_string(),
        expires_at_epoch: 20,
        started_at_epoch: 10,
    }))
    .unwrap();
    assert_eq!((valid.expires_at_epoch, valid.started_at_epoch), (20, 10));
}

#[test]
fn a_session_is_verified_before_it_connects() {
    let call = session_status_call(&paired(), "https://cp", "g").unwrap();
    assert_eq!(call.method, Method::Get);
    assert_eq!(call.url, "https://cp/v1/devices/dev/inference-grants/g/status");
    assert_eq!(
        call.headers,
        vec![("X-DoodleIQ-Pairing-Token".to_string(), "secret".to_string())]
    );
    let answer = session_status_call(&RuntimeConfig::default(), "https://cp", "g").unwrap_err();
    assert_eq!((answer.status, message(&answer).as_str()), (401, "the provider device is not paired"));
}

#[test]
fn only_an_active_session_connects() {
    let cases: Vec<(Reply<Json>, u16, &str)> = vec![
        (Reply::Unreachable("x".to_string()), 502, "unable to verify consumer session"),
        (
            Reply::Rejected { status: 404, detail: None },
            401,
            "consumer session was not verified",
        ),
        (Reply::Malformed("x".to_string()), 409, "consumer session is not active"),
        (
            answered(r#"{"status":"completed","expires_at_epoch":2,"started_at_epoch":1}"#),
            409,
            "consumer session is not active",
        ),
        (
            answered(r#"{"status":"issued","expires_at_epoch":2}"#),
            409,
            "consumer session is not active",
        ),
        (
            answered(r#"{"status":"issued","expires_at_epoch":"2","started_at_epoch":1}"#),
            409,
            "consumer session is not active",
        ),
    ];
    for (reply, status, text) in cases {
        let mut meter = UsageMeter::default();
        let answer = connect_consumer_session(&mut meter, "g", reply, 100);
        assert_eq!((answer.status, message(&answer).as_str()), (status, text));
        assert!(!meter.is_connected("g"));
    }
    let mut meter = UsageMeter::default();
    let reply = answered(r#"{"status":"issued","expires_at_epoch":200,"started_at_epoch":50}"#);
    let answer = connect_consumer_session(&mut meter, "g", reply, 100);
    assert_eq!(answer.status, 200);
    assert_eq!(answer.body, br#"{"connected":true}"#.to_vec());
    assert!(meter.is_connected("g"));
    assert_eq!(
        (meter.consumer_expires_at, meter.consumer_connected_at, meter.last_consumer_activity),
        (200, 50, 100)
    );
}

#[test]
fn a_session_disconnects_before_the_marketplace_is_asked() {
    let mut meter = UsageMeter::default();
    meter.note_consumer_activity_at("g", 200, 50, 100);
    let (disconnected, call) =
        disconnect_consumer_session(&paired(), "https://cp", &mut meter, "g").unwrap();
    assert!(disconnected);
    assert!(!meter.is_connected("g"));
    assert_eq!(call.url, "https://cp/v1/devices/dev/inference-grants/g/status");
    let (disconnected, _) =
        disconnect_consumer_session(&paired(), "https://cp", &mut meter, "g").unwrap();
    assert!(!disconnected);
    meter.note_consumer_activity_at("g", 200, 50, 100);
    let answer =
        disconnect_consumer_session(&RuntimeConfig::default(), "https://cp", &mut meter, "g")
            .unwrap_err();
    assert_eq!(answer.status, 401);
    assert!(meter.is_connected("g"));
}

#[test]
fn the_revenue_is_reported() {
    let revenue = |reply: &Reply<Json>| match provider_revenue(reply) {
        Some(JsonNumber::Unsigned(n)) => Some(*n as f64),
        Some(JsonNumber::Carried(n)) => n.as_f64(),
        None => None,
    };
    assert_eq!(revenue(&answered(r#"{"provider_revenue":0.9}"#)), Some(0.9));
    assert_eq!(revenue(&answered(r#"{"provider_revenue":3}"#)), Some(3.0));
    assert_eq!(revenue(&answered(r#"{"provider_revenue":"3"}"#)), None);
    assert_eq!(revenue(&answered("{}")), None);
    assert_eq!(revenue(&Reply::Unreachable("x".to_string())), None);
    let number = serde_json::Number::from_f64(0.9).unwrap();
    let answer = disconnect_answer(true, number);
    assert_eq!(answer.status, 200);
    assert_eq!(answer.body, br#"{"disconnected":true,"provider_revenue":0.9}"#.to_vec());
    let answer = disconnect_answer(false, serde_json::Number::from_f64(0.0).unwrap());
    assert_eq!(answer.body, br#"{"disconnected":false,"provider_revenue":0.0}"#.to_vec());
}
