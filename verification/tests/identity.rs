use base64::engine::general_purpose::URL_SAFE_NO_PAD;
use base64::Engine;
use doodleiq::config::RuntimeConfig;
use doodleiq::grants::InferenceGrant;
use doodleiq::http::Reply;
use doodleiq::identity::{device_signing_key, DeviceKey};
use doodleiq::meter::UsageMeter;
use doodleiq::receipts::{
    record_submitted, submit_usage_receipt, usage_receipt_call, usage_receipt_call_at,
    usage_receipt_call_from, RequestStatus,
};
use doodleiq::usage::TokenUsage;
use ed25519_dalek::{Signature, SigningKey, Verifier};
use serde_json::Value;

fn known_key() -> (DeviceKey, SigningKey) {
    let secret: [u8; 32] = [7; 32];
    let text = URL_SAFE_NO_PAD.encode(secret);
    (device_signing_key(&text).unwrap(), SigningKey::from_bytes(&secret))
}

fn grant() -> InferenceGrant {
    InferenceGrant { grant_id: "g-1".to_string(), request_token: "token".to_string() }
}

fn usage() -> TokenUsage {
    TokenUsage { input_tokens: 812, output_tokens: 240, total_tokens: 1052 }
}

fn paired() -> RuntimeConfig {
    RuntimeConfig {
        device_id: "dev".to_string(),
        pairing_token: "secret".to_string(),
        ..RuntimeConfig::default()
    }
}

#[test]
fn a_kept_key_reads_back() {
    let key = DeviceKey::generate().unwrap();
    let text = key.encoded();
    assert_eq!(text.len(), 43);
    let back = device_signing_key(&format!("  {text}\n")).unwrap();
    assert_eq!(back.encoded(), text);
    assert_eq!(back.public_key(), key.public_key());
    assert_ne!(DeviceKey::generate().unwrap().encoded(), text);
    assert_ne!(text, "A".repeat(43));
}

#[test]
fn a_key_needs_random_numbers() {
    let key = DeviceKey::from_random(Ok([7; 32])).unwrap();
    assert_eq!(key.encoded(), known_key().0.encoded());
    let error = DeviceKey::from_random(Err("no entropy".to_string())).err().unwrap();
    assert_eq!(error, "Unable to generate device identity: no entropy");
}

#[test]
fn the_public_key_belongs_to_the_secret() {
    let (key, reference) = known_key();
    assert_eq!(key.public_key(), URL_SAFE_NO_PAD.encode(reference.verifying_key().to_bytes()));
    assert_ne!(key.public_key(), key.encoded());
}

#[test]
fn texts_that_are_no_key_are_refused() {
    let refused = |text: &str| device_signing_key(text).err().unwrap();
    assert_eq!(refused("not base64!"), "Device identity is invalid");
    assert_eq!(refused("AB=="), "Device identity is invalid");
    assert_eq!(refused("AB"), "Device identity is invalid");
    assert_eq!(refused("A"), "Device identity is invalid");
    assert_eq!(refused("AA"), "Device identity has an invalid length");
    assert_eq!(refused(""), "Device identity has an invalid length");
    assert_eq!(
        refused(&URL_SAFE_NO_PAD.encode([1u8; 33])),
        "Device identity has an invalid length"
    );
}

#[test]
fn signatures_verify() {
    let (key, reference) = known_key();
    let text = key.sign(b"message");
    let bytes = URL_SAFE_NO_PAD.decode(text).unwrap();
    let signature = Signature::from_slice(&bytes).unwrap();
    assert!(reference.verifying_key().verify(b"message", &signature).is_ok());
    assert!(reference.verifying_key().verify(b"massage", &signature).is_err());
}

#[test]
fn a_receipt_is_signed_over_its_bytes() {
    let (key, reference) = known_key();
    let call = usage_receipt_call_at(
        &key,
        &paired(),
        "https://cp",
        &grant(),
        usage(),
        3400,
        RequestStatus::Completed,
        1_700_000_000_000_000_001,
    );
    assert_eq!(call.url, "https://cp/v1/usage-receipts");
    let body = call.body.unwrap();
    let document: Value = serde_json::from_slice(&body).unwrap();
    assert_eq!(document["grant_id"], "g-1");
    assert_eq!(document["request_token"], "token");
    assert_eq!(document["request_id"], "g-1-1700000000000000001");
    assert_eq!(document["input_tokens"], 812);
    assert_eq!(document["output_tokens"], 240);
    assert_eq!(document["total_tokens"], 1052);
    assert_eq!(document["duration_ms"], 3400);
    assert_eq!(document["status"], "completed");
    assert_eq!(document.as_object().unwrap().len(), 8);
    assert_eq!(
        call.headers[..2],
        [
            ("Content-Type".to_string(), "application/json".to_string()),
            ("X-DoodleIQ-Device".to_string(), "dev".to_string()),
        ]
    );
    assert_eq!(call.headers.len(), 3);
    assert_eq!(call.headers[2].0, "X-DoodleIQ-Signature");
    let signature = URL_SAFE_NO_PAD.decode(&call.headers[2].1).unwrap();
    let signature = Signature::from_slice(&signature).unwrap();
    assert!(reference.verifying_key().verify(&body, &signature).is_ok());
}

#[test]
fn requests_have_different_ids() {
    let (key, _) = known_key();
    let id = |nanos: u128| {
        let call = usage_receipt_call_at(
            &key,
            &paired(),
            "",
            &grant(),
            usage(),
            1,
            RequestStatus::Failed,
            nanos,
        );
        let document: Value = serde_json::from_slice(&call.body.unwrap()).unwrap();
        assert_eq!(document["status"], "failed");
        document["request_id"].as_str().unwrap().to_string()
    };
    assert_eq!(id(5), "g-1-5");
    assert_ne!(id(5), id(51));
}

#[test]
fn a_receipt_is_dated_by_the_clock() {
    let (key, _) = known_key();
    let call = usage_receipt_call(
        &key,
        &paired(),
        "https://cp",
        &grant(),
        usage(),
        1,
        RequestStatus::Completed,
    )
    .unwrap();
    let document: Value = serde_json::from_slice(&call.body.unwrap()).unwrap();
    let id = document["request_id"].as_str().unwrap();
    let nanos: u128 = id.strip_prefix("g-1-").unwrap().parse().unwrap();
    assert!(nanos > 1_000_000_000_000_000_000);
}

#[test]
fn a_receipt_needs_a_clock_reading() {
    let (key, _) = known_key();
    let from = |reading| {
        usage_receipt_call_from(
            &key,
            &paired(),
            "https://cp",
            &grant(),
            usage(),
            1,
            RequestStatus::Completed,
            reading,
        )
    };
    assert_eq!(from(Err("before the epoch".to_string())).unwrap_err(), "before the epoch");
    let call = from(Ok(5)).unwrap();
    let document: Value = serde_json::from_slice(&call.body.unwrap()).unwrap();
    assert_eq!(document["request_id"], "g-1-5");
}

#[test]
fn submissions_tell_their_failures_apart() {
    let failed = |reply| submit_usage_receipt(reply).unwrap_err();
    assert_eq!(
        failed(Reply::Unreachable("down".to_string())),
        "usage receipt service is unavailable: down"
    );
    assert_eq!(
        failed(Reply::Rejected {
            status: 401,
            detail: Some("{\"detail\":\"Invalid device signature\"}".to_string()),
        }),
        "the local device key no longer matches this pairing; run `doodleiq reset`, then `doodleiq pair`"
    );
    assert_eq!(
        failed(Reply::Rejected {
            status: 403,
            detail: Some("Invalid device signature".to_string()),
        }),
        "usage receipt service returned 403 Forbidden: Invalid device signature"
    );
    assert_eq!(
        failed(Reply::Rejected { status: 401, detail: None }),
        "usage receipt service returned 401 Unauthorized: unable to read error response"
    );
    assert_eq!(submit_usage_receipt(Reply::Answered(())), Ok(()));
}

#[test]
fn only_a_submitted_request_is_counted() {
    let mut meter = UsageMeter::default();
    record_submitted(&mut meter, &Err("down".to_string()), usage(), 10);
    assert_eq!(meter.requests, 0);
    record_submitted(&mut meter, &Ok(()), usage(), 10);
    assert_eq!((meter.requests, meter.total_tokens, meter.duration_ms), (1, 1052, 10));
}
