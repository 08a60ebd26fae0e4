use doodleiq::config::RuntimeConfig;
use doodleiq::heartbeat::{
    heartbeat_call, heartbeat_outcome, is_retryable_heartbeat_error, settle_attempt,
    HeartbeatHealth, HeartbeatOutcome, HeartbeatPost, Reason, PROVIDER_HEARTBEAT_INTERVAL_SECONDS,
};
use doodleiq::http::{Method, Reply};
use doodleiq::json::Json;
use doodleiq::machine::MachineIdentity;
use serde_json::Value;

fn config() -> RuntimeConfig {
    RuntimeConfig {
        provider_id: "prov".to_string(),
        device_id: "dev".to_string(),
        pairing_token: "secret".to_string(),
        ..RuntimeConfig::default()
    }
}

fn machine() -> MachineIdentity {
    MachineIdentity {
        name: "name".to_string(),
        model: "model".to_string(),
        location: "Europe/Vienna".to_string(),
    }
}

fn post(available: bool, reason: Option<Reason>) -> HeartbeatPost {
    HeartbeatPost { model_id: "m".to_string(), available, model_loaded: available, reason }
}

fn rejected(status: u16) -> Reply<Json> {
    Reply::Rejected { status, detail: None }
}

#[test]
fn health_counts_and_forgets_failures() {
    let mut health = HeartbeatHealth::default();
    assert_eq!((health.next_seq(), health.next_seq()), (1, 2));
    health.record_failure("one");
    health.record_failure("two");
    assert_eq!(
        health.snapshot_at(50).into_value().to_string(),
        r#"{"consecutive_failures":2,"last_error":"two","last_ok_unix":null,"ok":false,"seconds_since_last_ok":null}"#
    );
    health.record_success_at(40);
    assert_eq!(
        health.snapshot_at(50).into_value().to_string(),
        r#"{"consecutive_failures":0,"last_error":null,"last_ok_unix":40,"ok":true,"seconds_since_last_ok":10}"#
    );
    assert_eq!(health.seq, 2);
    health.record_success();
    assert!(health.last_ok_unix > 1_000_000_000);
    let since = health.snapshot().get("seconds_since_last_ok").unwrap().as_u64().unwrap();
    assert!(since < 60);
}

#[test]
fn transient_errors_are_retried() {
    assert!(is_retryable_heartbeat_error("Unable to update provider availability: refused"));
    assert!(is_retryable_heartbeat_error("Heartbeat service returned 503 Service Unavailable"));
    assert!(is_retryable_heartbeat_error("Heartbeat service returned 429 Too Many Requests"));
    assert!(!is_retryable_heartbeat_error("Heartbeat service returned 400 Bad Request"));
    assert!(!is_retryable_heartbeat_error("The managed Cloudflare tunnel is not running"));
}

#[test]
fn a_heartbeat_waits_three_and_seven_seconds() {
    let mut health = HeartbeatHealth::default();
    let failed = HeartbeatOutcome::Failed("Heartbeat service returned 503 x".to_string());
    assert_eq!(settle_attempt(&mut health, 0, &failed, 9), Some(3));
    assert_eq!(settle_attempt(&mut health, 1, &failed, 9), Some(7));
    assert_eq!(health.consecutive_failures, 0);
    assert_eq!(settle_attempt(&mut health, 2, &failed, 9), None);
    assert_eq!(health.consecutive_failures, 1);
    assert!(2 * (3 + 7) < PROVIDER_HEARTBEAT_INTERVAL_SECONDS);
    let refused = HeartbeatOutcome::Failed("Heartbeat service returned 400 x".to_string());
    assert_eq!(settle_attempt(&mut health, 0, &refused, 9), None);
    assert_eq!(health.consecutive_failures, 2);
    let delisted = HeartbeatOutcome::Delisted("Heartbeat service returned 410 Gone".to_string());
    assert_eq!(settle_attempt(&mut health, 0, &delisted, 9), None);
    assert_eq!(health.consecutive_failures, 3);
    let delivered = HeartbeatOutcome::Delivered("host".to_string());
    assert_eq!(settle_attempt(&mut health, 1, &delivered, 9), None);
    assert_eq!((health.consecutive_failures, health.last_ok_unix), (0, 9));
}

#[test]
fn a_heartbeat_says_what_the_machine_is() {
    let mut health = HeartbeatHealth::default();
    health.seq = 41;
    let call = heartbeat_call(
        &config(),
        "https://cp",
        &post(true, None),
        true,
        "0.1.3",
        &machine(),
        &mut health,
    )
    .unwrap();
    assert_eq!(call.method, Method::Post);
    assert_eq!(call.url, "https://cp/v1/devices/dev/heartbeat");
    assert_eq!(call.headers[1], ("X-DoodleIQ-Pairing-Token".to_string(), "secret".to_string()));
    let document: Value = serde_json::from_slice(&call.body.unwrap()).unwrap();
    let expected: Value = serde_json::from_str(
        r#"{"model_id":"m","available":true,"model_loaded":true,"tunnel_healthy":true,"seq":42,
            "agent_version":"0.1.3","reason":null,"machine_name":"name","machine_model":"model",
            "machine_location":"Europe/Vienna"}"#,
    )
    .unwrap();
    assert_eq!(document, expected);
    assert_eq!(health.seq, 42);
}

#[test]
fn reasons_have_their_codes() {
    for (reason, code) in [
        (Reason::Shutdown, "shutdown"),
        (Reason::ModelSwitch, "model_switch"),
        (Reason::ModelReloading, "model_reloading"),
        (Reason::ModelUnloaded, "model_unloaded"),
    ] {
        assert_eq!(reason.text(), code);
        let mut health = HeartbeatHealth::default();
        let call = heartbeat_call(
            &config(),
            "",
            &post(false, Some(reason)),
            false,
            "",
            &machine(),
            &mut health,
        )
        .unwrap();
        let document: Value = serde_json::from_slice(&call.body.unwrap()).unwrap();
        assert_eq!(document["reason"], code);
    }
    let farewell = HeartbeatPost::shutdown("m");
    assert!(!farewell.available && !farewell.model_loaded);
    assert_eq!(farewell.reason, Some(Reason::Shutdown));
}

#[test]
fn a_machine_is_not_available_without_pairing_or_tunnel() {
    let mut health = HeartbeatHealth::default();
    let unpaired = RuntimeConfig::default();
    let refused =
        heartbeat_call(&unpaired, "", &post(true, None), true, "", &machine(), &mut health);
    assert_eq!(
        refused.unwrap_err(),
        "This desktop is not paired with a provider account"
    );
    let refused =
        heartbeat_call(&config(), "", &post(true, None), false, "", &machine(), &mut health);
    assert_eq!(refused.unwrap_err(), "The managed Cloudflare tunnel is not running");
    assert_eq!(health.seq, 0);
    let sent = heartbeat_call(&config(), "", &post(false, None), false, "", &machine(), &mut health);
    assert!(sent.is_ok());
}

#[test]
fn a_delivered_heartbeat_names_the_host() {
    let host = |reply| match heartbeat_outcome(&config(), reply) {
        HeartbeatOutcome::Delivered(host) => host,
        _ => panic!("the heartbeat arrived"),
    };
    let answer = Json::parse(br#"{"status":"active","hostname":"dev.doodleiq.com"}"#).unwrap();
    assert_eq!(host(Reply::Answered(answer)), "dev.doodleiq.com");
    assert_eq!(host(Reply::Answered(Json::Null)), "prov.doodleiq.com");
    assert_eq!(host(Reply::Malformed("eof".to_string())), "prov.doodleiq.com");
}

#[test]
fn refused_heartbeats_are_told_apart() {
    for status in [401, 404, 410] {
        assert!(matches!(
            heartbeat_outcome(&config(), rejected(status)),
            HeartbeatOutcome::Delisted(_)
        ));
    }
    for (status, retried) in [(400, false), (403, false), (429, true), (500, true), (503, true)] {
        match heartbeat_outcome(&config(), rejected(status)) {
            HeartbeatOutcome::Failed(error) => {
                assert_eq!(is_retryable_heartbeat_error(&error), retried);
                assert!(error.starts_with("Heartbeat service returned "));
            }
            _ => panic!("the heartbeat failed"),
        }
    }
    match heartbeat_outcome(&config(), Reply::Unreachable("refused".to_string())) {
        HeartbeatOutcome::Failed(error) => {
            assert_eq!(error, "Unable to update provider availability: refused");
        }
        _ => panic!("the heartbeat failed"),
    }
}
