use doodleiq::availability::TunnelState;
use doodleiq::config::RuntimeConfig;
use doodleiq::http::{Method, Reply};
use doodleiq::identity::DeviceKey;
use doodleiq::pairing::{
    await_pairing, begin_provider_pairing, pairing_call, pairing_status_call,
    poll_provider_pairing, resume_provider_tunnel, resume_step, tunnel_offer, OfferStep,
    PairingEvent, PairingPoll, PairingStart, PairingStep, ProviderIdentity, ResumeStep,
    TunnelOffer, TunnelResult,
};
use serde_json::Value;

fn poll(status: &str) -> PairingPoll {
    PairingPoll {
        status: status.to_string(),
        user_id: Some("user".to_string()),
        device_id: Some("dev".to_string()),
        hostname: Some("dev.doodleiq.com".to_string()),
        tunnel_token: Some("token".to_string()),
        tunnel_ready: true,
    }
}

fn rejected<T>(status: u16) -> Reply<T> {
    Reply::Rejected { status, detail: None }
}

fn polled(reply: Reply<PairingPoll>) -> (RuntimeConfig, Result<Option<ProviderIdentity>, String>) {
    let mut config = RuntimeConfig {
        url: "http://x".to_string(),
        api_key: "key".to_string(),
        ..RuntimeConfig::default()
    };
    let result = poll_provider_pairing(&mut config, "pair", "secret", reply);
    (config, result)
}

#[test]
fn pairing_begins_with_the_public_key() {
    let key = DeviceKey::generate().unwrap();
    let call = pairing_call("https://cp", "my \"box\"", &key);
    assert_eq!(call.method, Method::Post);
    assert_eq!(call.url, "https://cp/v1/device-pairings");
    assert_eq!(call.headers.len(), 1);
    let document: Value = serde_json::from_slice(&call.body.unwrap()).unwrap();
    assert_eq!(document["device_name"], "my \"box\"");
    assert_eq!(document["public_key"], key.public_key().as_str());
    assert_eq!(document.as_object().unwrap().len(), 2);
    assert_ne!(document["public_key"], key.encoded().as_str());
}

#[test]
fn beginning_tells_its_failures_apart() {
    let failed = |reply| begin_provider_pairing(reply).unwrap_err();
    assert_eq!(
        failed(Reply::Unreachable("x".to_string())),
        "Unable to start device pairing: x"
    );
    assert_eq!(failed(rejected(500)), "Pairing service returned 500 Internal Server Error");
    assert_eq!(failed(Reply::Malformed("x".to_string())), "Invalid pairing response: x");
    let start = begin_provider_pairing(Reply::Answered(PairingStart {
        id: "id".to_string(),
        code: "A1".to_string(),
        pairing_token: "t".to_string(),
        verification_url: "https://v".to_string(),
    }));
    assert_eq!(start.unwrap().code, "A1");
}

#[test]
fn the_state_of_a_pairing_is_asked_for() {
    let call = pairing_status_call("https://cp", "pair", "secret");
    assert_eq!(call.url, "https://cp/v1/device-pairings/pair");
    assert_eq!(
        call.headers,
        vec![("X-DoodleIQ-Pairing-Token".to_string(), "secret".to_string())]
    );
}

#[test]
fn a_pending_pairing_changes_nothing() {
    let (config, result) = polled(Reply::Answered(poll("pending")));
    assert!(result.unwrap().is_none());
    assert!(!config.is_paired());
    assert_eq!(config.pairing_id, "");
}

#[test]
fn a_complete_pairing_goes_into_the_configuration() {
    let (config, result) = polled(Reply::Answered(poll("complete")));
    let identity = result.unwrap().unwrap();
    assert_eq!(
        (identity.provider_id.as_str(), identity.device_id.as_str(), identity.hostname.as_str()),
        ("user", "dev", "dev.doodleiq.com")
    );
    assert!(config.is_paired());
    assert_eq!(config.url, "http://x");
    assert_eq!(config.api_key, "key");
    assert_eq!(config.provider_id, "user");
    assert_eq!(config.pairing_id, "pair");
    assert_eq!(config.device_id, "dev");
    assert_eq!(config.pairing_token, "secret");
}

#[test]
fn an_incomplete_answer_is_an_error() {
    let failed = |change: fn(&mut PairingPoll)| {
        let mut answer = poll("complete");
        change(&mut answer);
        let (config, result) = polled(Reply::Answered(answer));
        assert!(!config.is_paired());
        result.unwrap_err()
    };
    assert_eq!(failed(|p| p.user_id = None), "Pairing has no user ID");
    assert_eq!(failed(|p| p.device_id = None), "Pairing has no device ID");
    assert_eq!(failed(|p| p.hostname = None), "Pairing has no hostname");
    let (_, result) = polled(Reply::Unreachable("x".to_string()));
    assert_eq!(result.unwrap_err(), "Unable to check pairing: x");
    let (_, result) = polled(rejected(500));
    assert_eq!(result.unwrap_err(), "Pairing service returned 500 Internal Server Error");
    let (_, result) = polled(Reply::Malformed("x".to_string()));
    assert_eq!(result.unwrap_err(), "Invalid pairing response: x");
}

#[test]
fn a_removed_pairing_says_how_to_pair_again() {
    for (status, text) in [(404, "404 Not Found"), (410, "410 Gone")] {
        let expected = format!(
            "Pairing service returned {text}: this machine was delisted; run `doodleiq reset`, then `doodleiq pair`"
        );
        let (_, result) = polled(rejected(status));
        assert_eq!(result.unwrap_err(), expected);
        match tunnel_offer(rejected(status)) {
            TunnelOffer::Delisted(error) => assert_eq!(error, expected),
            _ => panic!("the machine was delisted"),
        }
    }
}

#[test]
fn waiting_has_its_turns() {
    assert!(matches!(await_pairing(PairingEvent::Clock { expired: false }), PairingStep::Poll));
    match await_pairing(PairingEvent::Clock { expired: true }) {
        PairingStep::GiveUp(error) => {
            assert_eq!(error, "pairing timed out; run `doodleiq pair` again");
        }
        _ => panic!("the time was up"),
    }
    assert!(matches!(await_pairing(PairingEvent::Polled(Ok(None))), PairingStep::Wait(2)));
    let identity = polled(Reply::Answered(poll("complete"))).1;
    assert!(matches!(await_pairing(PairingEvent::Polled(identity)), PairingStep::Paired(_)));
    match await_pairing(PairingEvent::Polled(Err("x".to_string()))) {
        PairingStep::GiveUp(error) => assert_eq!(error, "x"),
        _ => panic!("the poll failed"),
    }
}

#[test]
fn a_tunnel_is_asked_for_once_paired() {
    let mut config = RuntimeConfig::default();
    assert!(matches!(resume_step(true, &config, "https://cp"), ResumeStep::Running));
    assert!(matches!(resume_step(false, &config, "https://cp"), ResumeStep::Unpaired));
    config.pairing_id = "pair".to_string();
    assert!(matches!(resume_step(false, &config, "https://cp"), ResumeStep::Unpaired));
    config.pairing_token = "secret".to_string();
    match resume_step(false, &config, "https://cp") {
        ResumeStep::Ask(call) => {
            assert_eq!(call.url, "https://cp/v1/device-pairings/pair");
            assert_eq!(call.headers[0].1, "secret");
        }
        _ => panic!("the pairing was to be asked for"),
    }
}

#[test]
fn a_tunnel_is_launched_where_there_is_a_token() {
    match resume_provider_tunnel(tunnel_offer(Reply::Answered(poll("complete")))) {
        OfferStep::Launch(token) => assert_eq!(token, "token"),
        _ => panic!("there was a token"),
    }
    let mut answer = poll("complete");
    answer.tunnel_token = None;
    assert!(matches!(
        resume_provider_tunnel(tunnel_offer(Reply::Answered(answer))),
        OfferStep::Settled(TunnelResult::NoToken)
    ));
    let failed = |reply| match resume_provider_tunnel(tunnel_offer(reply)) {
        OfferStep::Settled(TunnelResult::Failed(error)) => error,
        _ => panic!("the call failed"),
    };
    assert_eq!(
        failed(Reply::Unreachable("x".to_string())),
        "Unable to restore provider tunnel: x"
    );
    assert_eq!(failed(rejected(503)), "Pairing service returned 503 Service Unavailable");
    assert_eq!(failed(Reply::Malformed("x".to_string())), "Invalid pairing response: x");
}

#[test]
fn only_a_running_connector_is_healthy() {
    assert_eq!(TunnelResult::Up.ensure_tunnel_healthy(), TunnelState::Up);
    assert_eq!(TunnelResult::NoToken.ensure_tunnel_healthy(), TunnelState::Down);
    assert_eq!(TunnelResult::Failed("x".to_string()).ensure_tunnel_healthy(), TunnelState::Down);
    assert_eq!(
        TunnelResult::Delisted("x".to_string()).ensure_tunnel_healthy(),
        TunnelState::Delisted
    );
}
