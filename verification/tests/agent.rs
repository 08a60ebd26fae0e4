use doodleiq::agent::{
    check_ready, online_line, shutdown_reason, AgentAction, AgentEvent, AgentStage, Ending,
    GATEWAY_ADDRESS,
};
use doodleiq::config::RuntimeConfig;
use doodleiq::heartbeat::{HeartbeatHealth, HeartbeatOutcome, Reason};
use doodleiq::meter::UsageMeter;
use doodleiq::pairing::TunnelResult;
use doodleiq::report::{
    health, print_status, reset_line, status_call, warn_on_heartbeat_health, Notice,
};
use doodleiq::tunnel::CloudflaredStatus;
use serde_json::Value;

fn config() -> RuntimeConfig {
    RuntimeConfig {
        url: "http://127.0.0.1:1/v1/models".to_string(),
        device_id: "dev".to_string(),
        pairing_token: "secret".to_string(),
        ..RuntimeConfig::default()
    }
}

fn run(events: Vec<AgentEvent>) -> (AgentStage, AgentAction) {
    let mut stage = AgentStage::Idle;
    let mut action = AgentAction::Ignore;
    for event in events {
        (stage, action) = stage.run_agent(&config(), event);
    }
    (stage, action)
}

fn starting() -> Vec<AgentEvent> {
    vec![
        AgentEvent::Started,
        AgentEvent::Discovered(Ok("m".to_string())),
        AgentEvent::Bound(Ok(())),
        AgentEvent::Tunnel(TunnelResult::Up),
        AgentEvent::Announced(HeartbeatOutcome::Delivered("dev.doodleiq.com".to_string())),
    ]
}

fn error_of(action: AgentAction) -> String {
    match action {
        AgentAction::Exit(Err(error)) => error,
        _ => panic!("an exit with an error was due"),
    }
}

fn failing(first: usize, event: AgentEvent) -> String {
    let mut events = starting();
    events.truncate(first);
    events.push(event);
    let (stage, action) = run(events);
    assert!(matches!(stage, AgentStage::Exited));
    error_of(action)
}

fn ended(ending: Ending) -> AgentAction {
    let mut events = starting();
    events.push(AgentEvent::Ended(ending));
    events.push(AgentEvent::TakenOff);
    events.push(AgentEvent::Stopped(Ok(())));
    run(events).1
}

#[test]
fn an_agent_needs_configuration_and_pairing() {
    assert_eq!(check_ready(&config()), Ok(()));
    let blank = RuntimeConfig { url: " ".to_string(), ..config() };
    assert_eq!(check_ready(&blank), Err("run `doodleiq configure` first".to_string()));
    let unpaired = RuntimeConfig { device_id: String::new(), ..config() };
    assert_eq!(check_ready(&unpaired), Err("run `doodleiq pair` first".to_string()));
    let (stage, action) = AgentStage::Idle.run_agent(&unpaired, AgentEvent::Started);
    assert!(matches!(stage, AgentStage::Exited));
    assert_eq!(error_of(action), "run `doodleiq pair` first");
}

#[test]
fn an_agent_starts_step_by_step() {
    assert_eq!(GATEWAY_ADDRESS, "127.0.0.1:47100");
    let mut events = starting();
    let (stage, action) = run(starting());
    assert!(matches!(stage, AgentStage::Serving(_)));
    match action {
        AgentAction::Serve { host, model } => {
            assert_eq!((host.as_str(), model.as_str()), ("dev.doodleiq.com", "m"));
            assert_eq!(
                online_line(&host),
                "DoodleIQ provider online at https://dev.doodleiq.com/v1"
            );
        }
        _ => panic!("the agent was to serve"),
    }
    events.truncate(4);
    match run(events).1 {
        AgentAction::Announce(model) => assert_eq!(model, "m"),
        _ => panic!("the model was to be announced"),
    }
    assert!(matches!(run(vec![AgentEvent::Started]).1, AgentAction::Discover));
}

#[test]
fn a_start_fails_where_a_step_fails() {
    assert_eq!(failing(1, AgentEvent::Discovered(Err("no model".to_string()))), "no model");
    assert_eq!(
        failing(2, AgentEvent::Bound(Err("in use".to_string()))),
        "unable to bind local gateway at 127.0.0.1:47100: in use"
    );
    assert_eq!(
        failing(3, AgentEvent::Tunnel(TunnelResult::NoToken)),
        "the control plane did not return a Cloudflare tunnel token"
    );
    assert_eq!(
        failing(3, AgentEvent::Tunnel(TunnelResult::Failed("x".to_string()))),
        "x"
    );
    assert_eq!(
        failing(4, AgentEvent::Announced(HeartbeatOutcome::Failed("x".to_string()))),
        "x"
    );
    assert_eq!(
        failing(5, AgentEvent::SignalLost("x".to_string())),
        "unable to wait for Ctrl+C: x"
    );
}

#[test]
fn an_ending_takes_the_model_off_and_stops_the_connector() {
    let mut events = starting();
    events.push(AgentEvent::Ended(Ending::Interrupted));
    match run(events).1 {
        AgentAction::TakeOff(post) => {
            assert_eq!((post.model_id.as_str(), post.available), ("m", false));
            assert_eq!(post.reason, Some(Reason::Shutdown));
        }
        _ => panic!("the model was to be taken off"),
    }
    let mut events = starting();
    events.push(AgentEvent::Ended(Ending::Interrupted));
    events.push(AgentEvent::TakenOff);
    assert!(matches!(run(events).1, AgentAction::StopConnector { notice: None }));
    let mut events = starting();
    events.push(AgentEvent::Ended(Ending::Interrupted));
    events.push(AgentEvent::TakenOff);
    events.push(AgentEvent::Stopped(Err("Unable to stop cloudflared: x".to_string())));
    assert_eq!(error_of(run(events).1), "Unable to stop cloudflared: x");
}

#[test]
fn a_delisted_machine_stops_cleanly() {
    let notice = "this machine was delisted; run `doodleiq reset`, then `doodleiq pair`";
    let told = |events: Vec<AgentEvent>| match run(events).1 {
        AgentAction::StopConnector { notice } => notice,
        _ => panic!("the connector was to be stopped"),
    };
    let announcing = || {
        let mut events = starting();
        events.truncate(4);
        events.push(AgentEvent::Announced(HeartbeatOutcome::Delisted("x".to_string())));
        events
    };
    assert_eq!(told(announcing()), Some(notice));
    let mut events = announcing();
    events.push(AgentEvent::Stopped(Ok(())));
    let (stage, action) = run(events);
    assert!(matches!(stage, AgentStage::Exited));
    assert!(matches!(action, AgentAction::Exit(Ok(()))));
    let mut events = announcing();
    events.push(AgentEvent::Stopped(Err("Unable to stop cloudflared: x".to_string())));
    assert_eq!(error_of(run(events).1), "Unable to stop cloudflared: x");
    let mut events = starting();
    events.push(AgentEvent::Ended(Ending::Delisted));
    events.push(AgentEvent::TakenOff);
    assert_eq!(told(events), Some(notice));
    assert!(matches!(ended(Ending::Delisted), AgentAction::Exit(Ok(()))));
}

#[test]
fn an_unexpected_end_is_an_error() {
    assert!(matches!(ended(Ending::Interrupted), AgentAction::Exit(Ok(()))));
    assert_eq!(shutdown_reason(&Ending::Interrupted), None);
    for (ending, reason) in [
        (Ending::HeartbeatEnded(None), "heartbeat loop ended unexpectedly"),
        (Ending::HeartbeatEnded(Some("x".to_string())), "heartbeat loop panicked: x"),
        (Ending::GatewayEnded(None), "local gateway ended unexpectedly"),
        (Ending::GatewayEnded(Some("x".to_string())), "local gateway panicked: x"),
    ] {
        assert_eq!(shutdown_reason(&ending).as_deref(), Some(reason));
        assert_eq!(
            error_of(ended(ending)),
            format!("{reason}: the provider agent is stopping so a supervisor can restart it")
        );
    }
}

#[test]
fn failing_heartbeats_are_told_once() {
    let mut health = HeartbeatHealth::default();
    health.record_failure("x");
    let (notice, warned) = warn_on_heartbeat_health(&health, false, 100);
    assert!(notice.is_none() && !warned);
    health.record_failure("x");
    let (notice, warned) = warn_on_heartbeat_health(&health, false, 100);
    match notice {
        Some(Notice::Failing(text)) => assert_eq!(
            text,
            "control-plane heartbeat failing (2 in a row; last ok never). The marketplace listing may drop if this continues."
        ),
        _ => panic!("a warning was due"),
    }
    assert!(warned);
    let (notice, warned) = warn_on_heartbeat_health(&health, true, 100);
    assert!(notice.is_none() && warned);
    health.record_success_at(90);
    let (notice, warned) = warn_on_heartbeat_health(&health, true, 100);
    assert!(matches!(notice, Some(Notice::Recovered)) && !warned);
    health.record_failure("x");
    health.record_failure("x");
    match warn_on_heartbeat_health(&health, false, 100).0 {
        Some(Notice::Failing(text)) => assert!(text.contains("last ok 10s ago)")),
        _ => panic!("a warning was due"),
    }
}

#[test]
fn health_reports_the_whole_state() {
    let meter = UsageMeter::default();
    let rate = serde_json::Number::from_f64(1.5).unwrap();
    let answer =
        health(&config(), &meter.snapshot_at(7), rate, &HeartbeatHealth::default(), 7);
    assert_eq!(answer.status, 200);
    let document: Value = serde_json::from_slice(&answer.body).unwrap();
    let expected: Value = serde_json::from_str(
        r#"{"status":"ok","configured":true,"paired":true,
            "usage":{"requests":0,"input_tokens":0,"output_tokens":0,"total_tokens":0,
                     "consumer_connected":false,"consumer_connected_seconds":7,
                     "last_consumer_activity":0,"tokens_per_second":1.5},
            "heartbeat":{"ok":true,"consecutive_failures":0,"last_ok_unix":null,
                         "seconds_since_last_ok":null,"last_error":null}}"#,
    )
    .unwrap();
    assert_eq!(document, expected);
}

#[test]
fn status_shows_no_secrets() {
    let tunnel = |installed: bool, version: Option<&str>| CloudflaredStatus {
        installed,
        running: false,
        version: version.map(str::to_string),
        path: None,
    };
    let keyed = RuntimeConfig { api_key: "hidden".to_string(), ..config() };
    let lines = print_status(
        "https://cp",
        "/c/config.json",
        &keyed,
        Some(Ok("m".to_string())),
        &tunnel(true, Some("cloudflared version 1")),
    );
    assert_eq!(
        lines,
        vec![
            "control_plane: https://cp",
            "config: /c/config.json",
            "runtime_url: http://127.0.0.1:1/v1/models",
            "loaded_model: m",
            "runtime_key: configured",
            "paired: true",
            "cloudflared: cloudflared version 1",
        ]
    );
    let lines = print_status(
        "https://cp",
        "/c/config.json",
        &RuntimeConfig::default(),
        None,
        &tunnel(false, None),
    );
    assert_eq!(lines[3], "loaded_model: unavailable (run `doodleiq configure`)");
    assert_eq!(lines[4], "runtime_key: none (unauthenticated runtime)");
    assert_eq!(lines[5], "paired: false");
    assert_eq!(lines[6], "cloudflared: missing");
    let lines = print_status("", "", &config(), Some(Err("x".to_string())), &tunnel(true, None));
    assert_eq!(lines[3], "loaded_model: unavailable (x)");
    assert_eq!(lines[6], "cloudflared: installed");
}

#[test]
fn status_asks_a_configured_runtime() {
    let call = status_call(&config()).unwrap();
    assert_eq!(call.url, "http://127.0.0.1:1/v1/models");
    assert!(status_call(&RuntimeConfig::default()).is_none());
}

#[test]
fn a_reset_says_what_it_did() {
    assert_eq!(reset_line(true), "Reset all local state");
    assert_eq!(reset_line(false), "Reset pairing state");
}
