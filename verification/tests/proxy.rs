use doodleiq::config::RuntimeConfig;
use doodleiq::grants::GrantValidation;
use doodleiq::http::{GatewayAnswer, Header};
use doodleiq::meter::UsageMeter;
use doodleiq::proxy::{ProxyAction, ProxyEvent, ProxyRequest, ProxyStage, MAX_REQUEST_BYTES};
use doodleiq::receipts::RequestStatus;
use doodleiq::usage::TokenUsage;
use serde_json::Value;

const GRANT: &str = "Bearer g.12345678901234567890";

fn config() -> RuntimeConfig {
    RuntimeConfig {
        url: "http://127.0.0.1:8001/v1/models".to_string(),
        device_id: "dev".to_string(),
        pairing_token: "secret".to_string(),
        ..RuntimeConfig::default()
    }
}

fn request(authorization: &str) -> ProxyRequest {
    ProxyRequest {
        path: "/v1/chat/completions".to_string(),
        query: None,
        headers: vec![("authorization".to_string(), authorization.as_bytes().to_vec())],
    }
}

fn valid() -> Result<GrantValidation, String> {
    Ok(GrantValidation {
        model_id: "m".to_string(),
        max_tokens: 1,
        expires_at: "then".to_string(),
        expires_at_epoch: 2000,
        started_at_epoch: 1000,
    })
}

fn refusal(action: ProxyAction) -> (u16, String) {
    match action {
        ProxyAction::Answer(answer) => (answer.status, message(&answer)),
        _ => panic!("an answer was due"),
    }
}

fn message(answer: &GatewayAnswer) -> String {
    let document: Value = serde_json::from_slice(&answer.body).unwrap();
    document["error"]["message"].as_str().unwrap().to_string()
}

fn step(stage: ProxyStage, event: ProxyEvent, meter: &mut UsageMeter) -> (ProxyStage, ProxyAction) {
    stage.proxy(&config(), &request(GRANT), event, meter, 1500)
}

fn validating(meter: &mut UsageMeter) -> ProxyStage {
    step(ProxyStage::Arrived, ProxyEvent::Received, meter).0
}

fn forwarding(meter: &mut UsageMeter) -> ProxyStage {
    let stage = validating(meter);
    let (stage, action) = step(stage, ProxyEvent::Validated(valid()), meter);
    assert!(matches!(action, ProxyAction::ReadBody));
    let (stage, action) = step(stage, ProxyEvent::BodyRead(Some(b"{}".to_vec())), meter);
    assert!(matches!(action, ProxyAction::Forward(_)));
    stage
}

fn answered(status: u16, content_type: &str) -> ProxyEvent {
    let headers: Vec<Header> = vec![
        ("content-type".to_string(), content_type.as_bytes().to_vec()),
        ("content-length".to_string(), b"9".to_vec()),
    ];
    ProxyEvent::Answered { status, headers }
}

fn usage(input_tokens: u64, output_tokens: u64, total_tokens: u64) -> TokenUsage {
    TokenUsage { input_tokens, output_tokens, total_tokens }
}

#[test]
fn a_runtime_has_to_be_configured() {
    let mut meter = UsageMeter::default();
    let unconfigured = RuntimeConfig { url: " ".to_string(), ..config() };
    let (stage, action) = ProxyStage::Arrived.proxy(
        &unconfigured,
        &request(GRANT),
        ProxyEvent::Received,
        &mut meter,
        1500,
    );
    assert!(matches!(stage, ProxyStage::Finished));
    assert_eq!(
        refusal(action),
        (503, "the local model runtime is not configured; run `doodleiq configure`".to_string())
    );
}

#[test]
fn a_request_needs_a_grant() {
    let mut meter = UsageMeter::default();
    let (_, action) = ProxyStage::Arrived.proxy(
        &config(),
        &request("Bearer short"),
        ProxyEvent::Received,
        &mut meter,
        1500,
    );
    assert_eq!(refusal(action), (401, "a DoodleIQ inference grant is required".to_string()));
    let (stage, action) = step(ProxyStage::Arrived, ProxyEvent::Received, &mut meter);
    assert!(matches!(stage, ProxyStage::Validating(_)));
    match action {
        ProxyAction::Validate(grant) => {
            assert_eq!(grant.grant_id, "g");
            assert_eq!(grant.request_token, "12345678901234567890");
        }
        _ => panic!("the grant was to be validated"),
    }
}

#[test]
fn an_invalid_grant_ends_its_session() {
    let mut meter = UsageMeter::default();
    meter.note_consumer_activity_at("g", 2000, 1000, 1400);
    let stage = validating(&mut meter);
    let (stage, action) = step(stage, ProxyEvent::Validated(Err("expired".to_string())), &mut meter);
    assert!(matches!(stage, ProxyStage::Finished));
    assert_eq!(refusal(action), (401, "expired".to_string()));
    assert!(!meter.is_connected("g"));
    meter.note_consumer_activity_at("other", 2000, 1000, 1400);
    let stage = validating(&mut meter);
    step(stage, ProxyEvent::Validated(Err("expired".to_string())), &mut meter);
    assert!(meter.is_connected("other"));
}

#[test]
fn a_valid_grant_is_activity() {
    let mut meter = UsageMeter::default();
    let stage = validating(&mut meter);
    step(stage, ProxyEvent::Validated(valid()), &mut meter);
    assert!(meter.is_connected("g"));
    assert_eq!(
        (meter.consumer_expires_at, meter.consumer_connected_at, meter.last_consumer_activity),
        (2000, 1000, 1500)
    );
}

#[test]
fn a_body_has_its_limit() {
    assert_eq!(MAX_REQUEST_BYTES, 32 * 1024 * 1024);
    let mut meter = UsageMeter::default();
    let stage = validating(&mut meter);
    let (stage, _) = step(stage, ProxyEvent::Validated(valid()), &mut meter);
    let (stage, action) = step(stage, ProxyEvent::BodyRead(None), &mut meter);
    assert!(matches!(stage, ProxyStage::Finished));
    assert_eq!(refusal(action), (413, "request body is too large".to_string()));
    for (size, forwarded) in [(MAX_REQUEST_BYTES, true), (MAX_REQUEST_BYTES + 1, false)] {
        let stage = validating(&mut meter);
        let (stage, _) = step(stage, ProxyEvent::Validated(valid()), &mut meter);
        let (stage, action) = step(stage, ProxyEvent::BodyRead(Some(vec![b' '; size])), &mut meter);
        if forwarded {
            assert!(matches!(action, ProxyAction::Forward(_)));
        } else {
            assert!(matches!(stage, ProxyStage::Finished));
            assert_eq!(refusal(action), (413, "request body is too large".to_string()));
        }
    }
}

#[test]
fn every_cookie_goes_back() {
    let mut meter = UsageMeter::default();
    let stage = forwarding(&mut meter);
    let cookies: Vec<Header> = vec![
        ("set-cookie".to_string(), b"a=1".to_vec()),
        ("set-cookie".to_string(), b"b=2".to_vec()),
    ];
    let event = ProxyEvent::Answered { status: 200, headers: cookies.clone() };
    let (stage, _) = step(stage, event, &mut meter);
    let (_, action) = step(stage, ProxyEvent::ResponseRead(Some(Vec::new())), &mut meter);
    match action {
        ProxyAction::Deliver { headers, .. } => assert_eq!(headers[..2], cookies[..]),
        _ => panic!("the answer was to be delivered"),
    }
}

#[test]
fn a_streaming_chat_is_forwarded_asking_for_usage() {
    let mut meter = UsageMeter::default();
    let stage = validating(&mut meter);
    let (stage, _) = step(stage, ProxyEvent::Validated(valid()), &mut meter);
    let body = br#"{"stream":true}"#.to_vec();
    let (_, action) = step(stage, ProxyEvent::BodyRead(Some(body)), &mut meter);
    match action {
        ProxyAction::Forward(upstream) => {
            assert_eq!(upstream.target.url, "http://127.0.0.1:8001/v1/chat/completions");
            assert!(upstream.headers.is_empty());
            let body: Value = serde_json::from_slice(&upstream.body.unwrap()).unwrap();
            assert_eq!(body["stream_options"]["include_usage"], true);
        }
        _ => panic!("the request was to be forwarded"),
    }
}

#[test]
fn an_unusable_runtime_url_is_a_bad_gateway() {
    let mut meter = UsageMeter::default();
    let broken = RuntimeConfig { url: "nonsense".to_string(), ..config() };
    let mut stage = ProxyStage::Arrived;
    let mut last = ProxyAction::Ignore;
    for event in [
        ProxyEvent::Received,
        ProxyEvent::Validated(valid()),
        ProxyEvent::BodyRead(Some(Vec::new())),
    ] {
        (stage, last) = stage.proxy(&broken, &request(GRANT), event, &mut meter, 1500);
    }
    assert!(matches!(stage, ProxyStage::Finished));
    assert_eq!(refusal(last), (502, "invalid model runtime URL".to_string()));
}

#[test]
fn an_unreachable_runtime_is_a_bad_gateway() {
    let mut meter = UsageMeter::default();
    let stage = forwarding(&mut meter);
    let (_, action) = step(stage, ProxyEvent::Unreachable, &mut meter);
    assert_eq!(refusal(action), (502, "unable to reach the model runtime".to_string()));
}

#[test]
fn a_stream_passes_untouched_and_is_reported_once() {
    let mut meter = UsageMeter::default();
    let stage = forwarding(&mut meter);
    let (mut stage, action) = step(stage, answered(200, "text/event-stream; charset=utf-8"), &mut meter);
    match action {
        ProxyAction::Stream { status, headers } => {
            assert_eq!(status, 200);
            assert_eq!(headers.len(), 2);
            assert_eq!(headers[0].0, "content-type");
            assert_eq!(headers[1], ("x-content-type-options".to_string(), b"nosniff".to_vec()));
        }
        _ => panic!("the answer was to be streamed"),
    }
    let pieces: [&[u8]; 4] = [
        b"data: {\"choices\":[]}\n\n",
        b"data: {\"usage\":{\"prompt_tokens\":1,",
        b"\"completion_tokens\":2}}\n\n",
        b"data: {\"usage\":{\"prompt_tokens\":1,\"completion_tokens\":2}}\n\n",
    ];
    let mut receipts = Vec::new();
    for piece in pieces {
        let (next, action) = step(stage, ProxyEvent::Chunk(piece.to_vec()), &mut meter);
        stage = next;
        match action {
            ProxyAction::Relay { chunk, receipt } => {
                assert_eq!(chunk, piece);
                receipts.extend(receipt);
            }
            _ => panic!("the piece was to be passed on"),
        }
    }
    assert_eq!(receipts.len(), 1);
    assert_eq!(receipts[0].grant.grant_id, "g");
    assert_eq!(receipts[0].usage, usage(1, 2, 3));
    assert_eq!(receipts[0].status, RequestStatus::Completed);
}

#[test]
fn another_answer_is_delivered_whole() {
    for (status, ending) in [
        (200, RequestStatus::Completed),
        (299, RequestStatus::Completed),
        (300, RequestStatus::Failed),
        (500, RequestStatus::Failed),
    ] {
        let mut meter = UsageMeter::default();
        let stage = forwarding(&mut meter);
        let (stage, action) = step(stage, answered(status, "application/json"), &mut meter);
        assert!(matches!(action, ProxyAction::Collect));
        let answer = br#"{"usage":{"prompt_tokens":12,"completion_tokens":5}}"#.to_vec();
        let (stage, action) = step(stage, ProxyEvent::ResponseRead(Some(answer.clone())), &mut meter);
        match action {
            ProxyAction::Deliver { status: given, headers, body, receipt } => {
                assert_eq!(given, status);
                assert_eq!(headers.len(), 2);
                assert_eq!(body, answer);
                let receipt = receipt.unwrap();
                assert_eq!(receipt.usage, usage(12, 5, 17));
                assert_eq!(receipt.status, ending);
            }
            _ => panic!("the answer was to be delivered"),
        }
        let (stage, action) = step(stage, ProxyEvent::ResponseRead(Some(answer)), &mut meter);
        assert!(matches!(stage, ProxyStage::Finished));
        assert!(matches!(action, ProxyAction::Ignore));
    }
}

#[test]
fn an_answer_without_usage_is_not_reported() {
    let mut meter = UsageMeter::default();
    let stage = forwarding(&mut meter);
    let (stage, _) = step(stage, answered(200, "text/plain"), &mut meter);
    let (_, action) = step(stage, ProxyEvent::ResponseRead(Some(b"hello".to_vec())), &mut meter);
    assert!(matches!(action, ProxyAction::Deliver { receipt: None, .. }));
    let stage = forwarding(&mut meter);
    let (stage, _) = step(stage, answered(200, "text/plain"), &mut meter);
    let (_, action) = step(stage, ProxyEvent::ResponseRead(None), &mut meter);
    assert_eq!(refusal(action), (502, "unable to read the model runtime response".to_string()));
}

#[test]
fn nothing_is_forwarded_before_the_grant_is_valid() {
    let mut meter = UsageMeter::default();
    let stage = validating(&mut meter);
    let (stage, action) = step(stage, ProxyEvent::BodyRead(Some(b"{}".to_vec())), &mut meter);
    assert!(matches!(action, ProxyAction::Ignore));
    let (stage, action) = step(stage, answered(200, "text/plain"), &mut meter);
    assert!(matches!(action, ProxyAction::Ignore));
    assert!(matches!(stage, ProxyStage::Validating(_)));
    assert!(!meter.is_connected("g"));
}
