use doodleiq::availability::{
    Delivery, LoopAction, LoopEvent, Phase, ProviderHeartbeatState, TunnelState,
};
use doodleiq::heartbeat::{HeartbeatOutcome, HeartbeatPost, Reason};
use doodleiq::models::NO_LOADED_MODEL;

fn serving(model: &str) -> ProviderHeartbeatState {
    let mut state = ProviderHeartbeatState::default();
    let post = state.send_provider_heartbeat(model, true);
    assert!(post.available && post.model_loaded && post.reason.is_none());
    state
}

fn step(state: ProviderHeartbeatState, event: LoopEvent) -> (ProviderHeartbeatState, LoopAction) {
    state.run_provider_heartbeat(event)
}

fn found(model: &str) -> LoopEvent {
    LoopEvent::Discovered(Ok(model.to_string()))
}

fn none_found() -> LoopEvent {
    LoopEvent::Discovered(Err(NO_LOADED_MODEL.to_string()))
}

fn posted(action: LoopAction) -> HeartbeatPost {
    match action {
        LoopAction::Post(post) => post,
        _ => panic!("a heartbeat was due"),
    }
}

#[test]
fn a_served_model_is_published_with_the_tunnel_up() {
    let (state, action) = step(serving("a"), found("a"));
    assert!(matches!(action, LoopAction::HealTunnel));
    let (state, action) = step(state, LoopEvent::Tunnel(TunnelState::Up));
    let post = posted(action);
    assert_eq!(post.model_id, "a");
    assert!(post.available && post.model_loaded);
    assert_eq!(post.reason, None);
    let (state, action) = step(state, LoopEvent::Posted(Delivery::Delivered));
    assert!(matches!(action, LoopAction::Wait));
    assert_eq!(state.target.as_deref(), Some("a"));
}

#[test]
fn nothing_is_published_with_the_tunnel_down() {
    let (state, _) = step(serving("a"), found("a"));
    let (state, action) = step(state, LoopEvent::Tunnel(TunnelState::Down));
    assert!(matches!(action, LoopAction::Wait));
    assert!(matches!(state.phase, Phase::Waiting));
}

#[test]
fn a_switch_unpublishes_first() {
    let (state, _) = step(serving("old"), found("new"));
    let (state, action) = step(state, LoopEvent::Tunnel(TunnelState::Up));
    let post = posted(action);
    assert_eq!((post.model_id.as_str(), post.available), ("old", false));
    assert_eq!(post.reason, Some(Reason::ModelSwitch));
    let (state, action) = step(state, LoopEvent::Posted(Delivery::Delivered));
    assert_eq!(state.target.as_deref(), Some("old"));
    let post = posted(action);
    assert_eq!((post.model_id.as_str(), post.available), ("new", true));
    let (state, _) = step(state, LoopEvent::Posted(Delivery::Delivered));
    assert_eq!(state.target.as_deref(), Some("new"));

    let (state, _) = step(serving("old"), found("new"));
    let (state, _) = step(state, LoopEvent::Tunnel(TunnelState::Up));
    let (state, action) = step(state, LoopEvent::Posted(Delivery::Failed));
    assert!(matches!(action, LoopAction::Wait));
    assert_eq!(state.target.as_deref(), Some("old"));
}

#[test]
fn a_reload_is_waited_out() {
    let mut state = serving("a");
    for streak in 1..4 {
        let (next, action) = step(state, none_found());
        let post = posted(action);
        assert!(post.available && !post.model_loaded);
        assert_eq!(post.reason, Some(Reason::ModelReloading));
        assert_eq!(next.model_gone_streak, streak);
        let (next, _) = step(next, LoopEvent::Posted(Delivery::Delivered));
        assert_eq!(next.target.as_deref(), Some("a"));
        state = next;
    }
    let (state, action) = step(state, none_found());
    let post = posted(action);
    assert!(!post.available);
    assert_eq!(post.reason, Some(Reason::ModelUnloaded));
    let (state, _) = step(state, LoopEvent::Posted(Delivery::Delivered));
    assert_eq!(state.target, None);
    let (state, action) = step(state, none_found());
    assert!(matches!(action, LoopAction::Wait));
    assert_eq!(state.model_gone_streak, 5);
}

#[test]
fn a_failed_unload_is_tried_again() {
    let mut state = serving("a");
    state.model_gone_streak = 3;
    let (state, _) = step(state, none_found());
    let (state, _) = step(state, LoopEvent::Posted(Delivery::Failed));
    assert_eq!(state.target.as_deref(), Some("a"));
    let (_, action) = step(state, none_found());
    assert_eq!(posted(action).reason, Some(Reason::ModelUnloaded));
}

#[test]
fn a_runtime_that_cannot_be_asked_keeps_the_listing() {
    let mut state = serving("a");
    state.model_gone_streak = 3;
    let error = LoopEvent::Discovered(Err("unable to reach the model runtime: x".to_string()));
    let (state, action) = step(state, error);
    assert!(matches!(action, LoopAction::HealTunnel));
    assert_eq!(state.model_gone_streak, 0);
    let (_, action) = step(state, LoopEvent::Tunnel(TunnelState::Up));
    let post = posted(action);
    assert_eq!((post.model_id.as_str(), post.available), ("a", true));

    // Without a published model there is nothing to keep.
    let error = LoopEvent::Discovered(Err("unable to reach the model runtime: x".to_string()));
    let (state, action) = step(ProviderHeartbeatState::default(), error);
    assert!(matches!(action, LoopAction::Wait));
    assert_eq!(state.model_gone_streak, 1);
}

#[test]
fn a_delisted_machine_stops() {
    let (state, _) = step(serving("a"), found("a"));
    let (state, action) = step(state, LoopEvent::Tunnel(TunnelState::Delisted));
    assert!(matches!(action, LoopAction::Stop));
    let (state, action) = step(state, found("a"));
    assert!(matches!(action, LoopAction::Wait));
    assert!(matches!(state.phase, Phase::Stopped));
    let (state, _) = step(serving("a"), none_found());
    let (_, action) = step(state, LoopEvent::Posted(Delivery::Delisted));
    assert!(matches!(action, LoopAction::Stop));
}

#[test]
fn events_out_of_turn_change_nothing() {
    let (state, action) = step(serving("a"), LoopEvent::Posted(Delivery::Delivered));
    assert!(matches!(action, LoopAction::Wait));
    let (state, action) = step(state, LoopEvent::Tunnel(TunnelState::Up));
    assert!(matches!(action, LoopAction::Wait));
    assert_eq!(state.target.as_deref(), Some("a"));
    assert!(matches!(state.phase, Phase::Waiting));
}

#[test]
fn outcomes_are_deliveries() {
    assert_eq!(HeartbeatOutcome::Delivered("h".to_string()).delivery(), Delivery::Delivered);
    assert_eq!(HeartbeatOutcome::Failed("e".to_string()).delivery(), Delivery::Failed);
    assert_eq!(HeartbeatOutcome::Delisted("e".to_string()).delivery(), Delivery::Delisted);
    let mut state = serving("a");
    let post = state.send_provider_heartbeat("a", false);
    assert!(!post.available && !post.model_loaded);
    assert_eq!(state.target, None);
}
