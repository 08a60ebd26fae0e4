//! The agent's life, from its start to its exit: what it does next, given what came of what it
//! did before.

use vstd::prelude::*;
use crate::config::{ConfigView, RuntimeConfig};
use crate::heartbeat::{HeartbeatOutcome, HeartbeatPost, OutcomeView, PostView, Reason};
use crate::models::texts;
use crate::pairing::{result_view, TunnelResult, TunnelView};
use crate::text::{held, is_white, law_blank};
use crate::upstream::borrowed;

verus! {

/// Where the gateway listens.
pub const GATEWAY_ADDRESS: &'static str = "127.0.0.1:47100";

/// Why the agent ends.
#[derive(Debug)]
pub enum Ending {
    /// It was interrupted.
    Interrupted,
    /// The machine was delisted.
    Delisted,
    /// The heartbeat loop ended, in a panic where there is a text.
    HeartbeatEnded(Option<String>),
    /// The gateway ended, in a panic where there is a text.
    GatewayEnded(Option<String>),
}

/// What an [`Ending`] is.
pub enum EndingView {
    Interrupted,
    Delisted,
    HeartbeatEnded(Option<Seq<char>>),
    GatewayEnded(Option<Seq<char>>),
}

/// What the agent is waiting for.
#[derive(Debug)]
pub enum AgentStage {
    /// To be started.
    Idle,
    /// To learn which model the runtime serves.
    Discovering,
    /// To listen, in order to serve this model.
    Binding(String),
    /// For the tunnel.
    Resuming(String),
    /// For the heartbeat that publishes the model.
    Announcing(String),
    /// For the end: it is serving this model.
    Serving(String),
    /// For the heartbeat that takes the model off.
    TakingOff(Ending),
    /// For the connector to stop.
    Stopping(Ending),
    /// Nothing.
    Exited,
}

/// What an [`AgentStage`] is.
pub enum StageView {
    Idle,
    Discovering,
    Binding(Seq<char>),
    Resuming(Seq<char>),
    Announcing(Seq<char>),
    Serving(Seq<char>),
    TakingOff(EndingView),
    Stopping(EndingView),
    Exited,
}

/// What happens to the agent.
#[derive(Debug)]
pub enum AgentEvent {
    /// It is started.
    Started,
    /// The runtime was asked which model it serves.
    Discovered(Result<String, String>),
    /// The gateway listens, or cannot, for this error.
    Bound(Result<(), String>),
    /// The tunnel was seen to.
    Tunnel(TunnelResult),
    /// The heartbeat that publishes the model was sent.
    Announced(HeartbeatOutcome),
    /// Its work has ended.
    Ended(Ending),
    /// It cannot learn whether it is interrupted, for this error.
    SignalLost(String),
    /// The heartbeat that takes the model off was sent, whatever came of it.
    TakenOff,
    /// The connector was stopped, or could not be, for this error.
    Stopped(Result<(), String>),
}

/// What an [`AgentEvent`] says.
pub enum EventView {
    Started,
    Discovered(Result<Seq<char>, Seq<char>>),
    Bound(Result<(), Seq<char>>),
    Tunnel(TunnelView),
    Announced(OutcomeView),
    Ended(EndingView),
    SignalLost(Seq<char>),
    TakenOff,
    Stopped(Result<(), Seq<char>>),
}

/// What the agent does next.
#[derive(Debug)]
pub enum AgentAction {
    /// Ask the runtime which model it serves.
    Discover,
    /// Listen at [`GATEWAY_ADDRESS`].
    Bind,
    /// Get the tunnel up.
    ResumeTunnel,
    /// Send the heartbeat that publishes this model.
    Announce(String),
    /// Say that it is served under this host name with this model, and serve.
    Serve { host: String, model: String },
    /// Send this heartbeat.
    TakeOff(HeartbeatPost),
    /// Tell the operator this, where there is something to tell, and stop the connector.
    StopConnector { notice: Option<&'static str> },
    /// Exit with this result.
    Exit(Result<(), String>),
    /// Nothing.
    Ignore,
}

/// What an [`AgentAction`] is.
pub enum ActionView {
    Discover,
    Bind,
    ResumeTunnel,
    Announce(Seq<char>),
    Serve { host: Seq<char>, model: Seq<char> },
    TakeOff(PostView),
    StopConnector { notice: Option<Seq<char>> },
    Exit(Result<(), Seq<char>>),
    Ignore,
}

impl Ending {
    /// What this ending is.
    pub open spec fn view(&self) -> EndingView {
        match *self {
            Ending::Interrupted => EndingView::Interrupted,
            Ending::Delisted => EndingView::Delisted,
            Ending::HeartbeatEnded(panic) => EndingView::HeartbeatEnded(held(panic)),
            Ending::GatewayEnded(panic) => EndingView::GatewayEnded(held(panic)),
        }
    }
}

impl AgentStage {
    /// What this stage is.
    pub open spec fn view(&self) -> StageView {
        match *self {
            AgentStage::Idle => StageView::Idle,
            AgentStage::Discovering => StageView::Discovering,
            AgentStage::Binding(model) => StageView::Binding(model@),
            AgentStage::Resuming(model) => StageView::Resuming(model@),
            AgentStage::Announcing(model) => StageView::Announcing(model@),
            AgentStage::Serving(model) => StageView::Serving(model@),
            AgentStage::TakingOff(ending) => StageView::TakingOff(ending@),
            AgentStage::Stopping(ending) => StageView::Stopping(ending@),
            AgentStage::Exited => StageView::Exited,
        }
    }
}

impl AgentEvent {
    /// What this event says.
    pub open spec fn view(&self) -> EventView {
        match *self {
            AgentEvent::Started => EventView::Started,
            AgentEvent::Discovered(found) => EventView::Discovered(texts(found)),
            AgentEvent::Bound(bound) => EventView::Bound(result_view(bound)),
            AgentEvent::Tunnel(tunnel) => EventView::Tunnel(tunnel@),
            AgentEvent::Announced(outcome) => EventView::Announced(outcome@),
            AgentEvent::Ended(ending) => EventView::Ended(ending@),
            AgentEvent::SignalLost(error) => EventView::SignalLost(error@),
            AgentEvent::TakenOff => EventView::TakenOff,
            AgentEvent::Stopped(stopped) => EventView::Stopped(result_view(stopped)),
        }
    }
}

impl AgentAction {
    /// What this action is.
    pub open spec fn view(&self) -> ActionView {
        match *self {
            AgentAction::Discover => ActionView::Discover,
            AgentAction::Bind => ActionView::Bind,
            AgentAction::ResumeTunnel => ActionView::ResumeTunnel,
            AgentAction::Announce(model) => ActionView::Announce(model@),
            AgentAction::Serve { host, model } => ActionView::Serve {
                host: host@,
                model: model@,
            },
            AgentAction::TakeOff(post) => ActionView::TakeOff(post@),
            AgentAction::StopConnector { notice } => ActionView::StopConnector {
                notice: borrowed(notice),
            },
            AgentAction::Exit(result) => ActionView::Exit(result_view(result)),
            AgentAction::Ignore => ActionView::Ignore,
        }
    }
}

/// Whether the agent can start: it needs a configured runtime, and a pairing.
pub open spec fn readiness(config: ConfigView) -> Result<(), Seq<char>> {
    if !config.configured() {
        Err("run `doodleiq configure` first"@)
    } else if !config.paired() {
        Err("run `doodleiq pair` first"@)
    } else {
        Ok(())
    }
}

/// The tunnel that the agent needs, or the error without it.
pub open spec fn tunnel_needed(tunnel: TunnelView) -> Result<(), Seq<char>> {
    match tunnel {
        TunnelView::Up => Ok(()),
        TunnelView::NoToken => Err("the control plane did not return a Cloudflare tunnel token"@),
        TunnelView::Failed(error) => Err(error),
        TunnelView::Delisted(error) => Err(error),
    }
}

/// What a delisted machine is told to do.
pub open spec fn delisted_text() -> Seq<char> {
    "this machine was delisted; run `doodleiq reset`, then `doodleiq pair`"@
}

/// What the operator is told at an ending.
pub open spec fn parting_notice(ending: EndingView) -> Option<Seq<char>> {
    if ending is Delisted {
        Some(delisted_text())
    } else {
        None
    }
}

/// The connector is stopped, for this ending.
pub open spec fn stopping(ending: EndingView) -> (StageView, ActionView) {
    (
        StageView::Stopping(ending),
        ActionView::StopConnector { notice: parting_notice(ending) },
    )
}

/// What the agent does once the heartbeat that publishes the model was sent: it serves where that
/// arrived, exits where it failed, and ends where the machine was delisted.
pub open spec fn on_announced(model: Seq<char>, outcome: OutcomeView) -> (StageView, ActionView) {
    match outcome {
        OutcomeView::Delivered(host) => (
            StageView::Serving(model),
            ActionView::Serve { host, model },
        ),
        OutcomeView::Failed(error) => failing(error),
        OutcomeView::Delisted(_) => stopping(EndingView::Delisted),
    }
}

/// The reason of an ending that should not be.
pub open spec fn failure_of(ending: EndingView) -> Option<Seq<char>> {
    match ending {
        EndingView::Interrupted => None,
        EndingView::Delisted => None,
        EndingView::HeartbeatEnded(Some(panic)) => Some("heartbeat loop panicked: "@ + panic),
        EndingView::HeartbeatEnded(None) => Some("heartbeat loop ended unexpectedly"@),
        EndingView::GatewayEnded(Some(panic)) => Some("local gateway panicked: "@ + panic),
        EndingView::GatewayEnded(None) => Some("local gateway ended unexpectedly"@),
    }
}

/// How the agent exits: cleanly where it was meant to end, and else with an error, so that a
/// supervisor starts it again.
pub open spec fn exit_of(ending: EndingView) -> Result<(), Seq<char>> {
    match failure_of(ending) {
        None => Ok(()),
        Some(reason) => Err(
            reason + ": the provider agent is stopping so a supervisor can restart it"@,
        ),
    }
}

/// The heartbeat with which the agent takes its model off as it ends.
pub open spec fn farewell(model_id: Seq<char>) -> PostView {
    PostView {
        model_id,
        available: false,
        model_loaded: false,
        reason: Some(Reason::Shutdown),
    }
}

/// An exit with an error.
pub open spec fn failing(error: Seq<char>) -> (StageView, ActionView) {
    (StageView::Exited, ActionView::Exit(Err(error)))
}

/// What the agent does next. An event that it is not waiting for changes nothing.
pub open spec fn agent_next(config: ConfigView, stage: StageView, event: EventView) -> (
    StageView,
    ActionView,
) {
    match (stage, event) {
        (StageView::Idle, EventView::Started) => match readiness(config) {
            Ok(_) => (StageView::Discovering, ActionView::Discover),
            Err(error) => failing(error),
        },
        (StageView::Discovering, EventView::Discovered(found)) => match found {
            Ok(model) => (StageView::Binding(model), ActionView::Bind),
            Err(error) => failing(error),
        },
        (StageView::Binding(model), EventView::Bound(bound)) => match bound {
            Ok(_) => (StageView::Resuming(model), ActionView::ResumeTunnel),
            Err(error) => failing(
                "unable to bind local gateway at "@ + GATEWAY_ADDRESS@ + ": "@ + error,
            ),
        },
        (StageView::Resuming(model), EventView::Tunnel(tunnel)) => match tunnel_needed(tunnel) {
            Ok(_) => (StageView::Announcing(model), ActionView::Announce(model)),
            Err(error) => failing(error),
        },
        (StageView::Announcing(model), EventView::Announced(outcome)) => on_announced(
            model,
            outcome,
        ),
        (StageView::Serving(model), EventView::Ended(ending)) => (
            StageView::TakingOff(ending),
            ActionView::TakeOff(farewell(model)),
        ),
        (StageView::Serving(_), EventView::SignalLost(error)) => failing(
            "unable to wait for Ctrl+C: "@ + error,
        ),
        (StageView::TakingOff(ending), EventView::TakenOff) => stopping(ending),
        (StageView::Stopping(ending), EventView::Stopped(stopped)) => match stopped {
            Ok(_) => (StageView::Exited, ActionView::Exit(exit_of(ending))),
            Err(error) => failing(error),
        },
        _ => (stage, ActionView::Ignore),
    }
}

/// An exit with an error.
fn fail(error: String) -> (next: (AgentStage, AgentAction))
    ensures
        (next.0@, next.1@) == failing(error@),
{
    (AgentStage::Exited, AgentAction::Exit(Err(error)))
}

/// An exit with an error, under a heading.
fn fail_with(heading: &str, error: &str) -> (next: (AgentStage, AgentAction))
    ensures
        (next.0@, next.1@) == failing(heading@ + error@),
{
    let mut text: String = heading.to_owned();
    text.append(error);
    fail(text)
}

/// Whether the agent can start.
pub fn check_ready(config: &RuntimeConfig) -> (ready: Result<(), String>)
    ensures
        result_view(ready) == readiness(config@),
{
    if !config.is_configured() {
        Err("run `doodleiq configure` first".to_owned())
    } else if !config.is_paired() {
        Err("run `doodleiq pair` first".to_owned())
    } else {
        Ok(())
    }
}

/// The tunnel that the agent needs, or the error without it.
fn require_tunnel(tunnel: TunnelResult) -> (up: Result<(), String>)
    ensures
        result_view(up) == tunnel_needed(tunnel@),
{
    match tunnel {
        TunnelResult::Up => Ok(()),
        TunnelResult::NoToken => Err(
            "the control plane did not return a Cloudflare tunnel token".to_owned(),
        ),
        TunnelResult::Failed(error) => Err(error),
        TunnelResult::Delisted(error) => Err(error),
    }
}

/// The connector is stopped, for this ending.
fn stop(ending: Ending) -> (next: (AgentStage, AgentAction))
    ensures
        (next.0@, next.1@) == stopping(ending@),
{
    let notice: Option<&'static str> = match &ending {
        Ending::Delisted => Some(
            "this machine was delisted; run `doodleiq reset`, then `doodleiq pair`",
        ),
        _ => None,
    };
    (AgentStage::Stopping(ending), AgentAction::StopConnector { notice })
}

/// The reason of an ending that should not be.
pub fn shutdown_reason(ending: &Ending) -> (reason: Option<String>)
    ensures
        held(reason) == failure_of(ending@),
{
    match ending {
        Ending::Interrupted => None,
        Ending::Delisted => None,
        Ending::HeartbeatEnded(panic) => match panic {
            Some(panic) => {
                let mut text: String = "heartbeat loop panicked: ".to_owned();
                text.append(panic.as_str());
                Some(text)
            },
            None => Some("heartbeat loop ended unexpectedly".to_owned()),
        },
        Ending::GatewayEnded(panic) => match panic {
            Some(panic) => {
                let mut text: String = "local gateway panicked: ".to_owned();
                text.append(panic.as_str());
                Some(text)
            },
            None => Some("local gateway ended unexpectedly".to_owned()),
        },
    }
}

/// How the agent exits.
fn exit_result(ending: &Ending) -> (exit: Result<(), String>)
    ensures
        result_view(exit) == exit_of(ending@),
{
    match shutdown_reason(ending) {
        None => Ok(()),
        Some(reason) => {
            let mut text: String = reason;
            text.append(": the provider agent is stopping so a supervisor can restart it");
            Err(text)
        },
    }
}

impl AgentStage {
    /// What the agent does next. An event that it is not waiting for changes nothing.
    pub fn run_agent(self, config: &RuntimeConfig, event: AgentEvent) -> (next: (
        AgentStage,
        AgentAction,
    ))
        ensures
            (next.0@, next.1@) == agent_next(config@, self@, event@),
    {
        match self {
            AgentStage::Idle => match event {
                AgentEvent::Started => match check_ready(config) {
                    Ok(_) => (AgentStage::Discovering, AgentAction::Discover),
                    Err(error) => fail(error),
                },
                _ => (AgentStage::Idle, AgentAction::Ignore),
            },
            AgentStage::Discovering => match event {
                AgentEvent::Discovered(found) => match found {
                    Ok(model) => (AgentStage::Binding(model), AgentAction::Bind),
                    Err(error) => fail(error),
                },
                _ => (AgentStage::Discovering, AgentAction::Ignore),
            },
            AgentStage::Binding(model) => match event {
                AgentEvent::Bound(bound) => match bound {
                    Ok(_) => (AgentStage::Resuming(model), AgentAction::ResumeTunnel),
                    Err(error) => {
                        let mut heading: String = "unable to bind local gateway at ".to_owned();
                        heading.append(GATEWAY_ADDRESS);
                        heading.append(": ");
                        fail_with(heading.as_str(), error.as_str())
                    },
                },
                _ => (AgentStage::Binding(model), AgentAction::Ignore),
            },
            AgentStage::Resuming(model) => match event {
                AgentEvent::Tunnel(tunnel) => match require_tunnel(tunnel) {
                    Ok(_) => (
                        AgentStage::Announcing(model.clone()),
                        AgentAction::Announce(model),
                    ),
                    Err(error) => fail(error),
                },
                _ => (AgentStage::Resuming(model), AgentAction::Ignore),
            },
            AgentStage::Announcing(model) => match event {
                AgentEvent::Announced(outcome) => match outcome {
                    HeartbeatOutcome::Delivered(host) => (
                        AgentStage::Serving(model.clone()),
                        AgentAction::Serve { host, model },
                    ),
                    HeartbeatOutcome::Failed(error) => fail(error),
                    HeartbeatOutcome::Delisted(_) => stop(Ending::Delisted),
                },
                _ => (AgentStage::Announcing(model), AgentAction::Ignore),
            },
            AgentStage::Serving(model) => match event {
                AgentEvent::Ended(ending) => (
                    AgentStage::TakingOff(ending),
                    AgentAction::TakeOff(HeartbeatPost::shutdown(model.as_str())),
                ),
                AgentEvent::SignalLost(error) => fail_with(
                    "unable to wait for Ctrl+C: ",
                    error.as_str(),
                ),
                _ => (AgentStage::Serving(model), AgentAction::Ignore),
            },
            AgentStage::TakingOff(ending) => match event {
                AgentEvent::TakenOff => stop(ending),
                _ => (AgentStage::TakingOff(ending), AgentAction::Ignore),
            },
            AgentStage::Stopping(ending) => match event {
                AgentEvent::Stopped(stopped) => match stopped {
                    Ok(_) => (AgentStage::Exited, AgentAction::Exit(exit_result(&ending))),
                    Err(error) => fail(error),
                },
                _ => (AgentStage::Stopping(ending), AgentAction::Ignore),
            },
            AgentStage::Exited => (AgentStage::Exited, AgentAction::Ignore),
        }
    }
}

/// What a started agent says of where it is served.
pub fn online_line(host: &str) -> (line: String)
    ensures
        line@ == "DoodleIQ provider online at https://"@ + host@ + "/v1"@,
{
    let mut line: String = "DoodleIQ provider online at https://".to_owned();
    line.append(host);
    line.append("/v1");
    line
}

// ---------------------------------------------------------------------------------------------
// What holds of every life
// ---------------------------------------------------------------------------------------------

/// The agent after a run of events.
pub open spec fn stage_after(config: ConfigView, events: Seq<EventView>) -> StageView
    decreases events.len(),
{
    if events.len() == 0 {
        StageView::Idle
    } else {
        agent_next(config, stage_after(config, events.drop_last()), events.last()).0
    }
}

/// What the agent does on the last of a run of events.
pub open spec fn action_on(config: ConfigView, events: Seq<EventView>) -> ActionView
    recommends
        events.len() > 0,
{
    agent_next(config, stage_after(config, events.drop_last()), events.last()).1
}

/// Whether the agent did `action` on any of a run of events.
pub open spec fn has_done(config: ConfigView, events: Seq<EventView>, action: ActionView) -> bool
    decreases events.len(),
{
    events.len() > 0 && (action_on(config, events) == action || has_done(
        config,
        events.drop_last(),
        action,
    ))
}

/// Whether the agent has begun to serve this model in a run of events.
pub open spec fn has_served(config: ConfigView, events: Seq<EventView>, model: Seq<char>) -> bool
    decreases events.len(),
{
    events.len() > 0 && (has_served(config, events.drop_last(), model) || (action_on(
        config,
        events,
    ) matches ActionView::Serve { model: served, .. } && served == model))
}

/// Whether the agent has stopped the connector in a run of events.
pub open spec fn has_stopped(config: ConfigView, events: Seq<EventView>) -> bool
    decreases events.len(),
{
    events.len() > 0 && (action_on(config, events) is StopConnector || has_stopped(
        config,
        events.drop_last(),
    ))
}

proof fn lemma_life(config: ConfigView, events: Seq<EventView>, model: Seq<char>)
    ensures
        ({
            let stage = stage_after(config, events);
            &&& stage is Serving && has_served(config, events, model) ==> stage
                == StageView::Serving(model)
            &&& (stage is Idle || stage is Discovering || stage is Binding || stage is Resuming
                || stage is Announcing) ==> !has_served(config, events, model)
            &&& (stage is TakingOff || stage is Stopping) && has_served(config, events, model)
                ==> has_done(config, events, ActionView::TakeOff(farewell(model)))
            &&& stage is Stopping ==> has_stopped(config, events)
            &&& !(stage is Idle) && !(stage is Exited) ==> readiness(config) is Ok
        }),
    decreases events.len(),
{
    if events.len() > 0 {
        lemma_life(config, events.drop_last(), model);
    }
}

/// An agent that has served a model exits only after it has taken the model off the market and
/// stopped the connector, unless it has lost track of the interrupts.
pub proof fn law_exit_takes_the_model_off(
    config: ConfigView,
    events: Seq<EventView>,
    model: Seq<char>,
)
    requires
        events.len() > 0,
        action_on(config, events) is Exit,
        has_served(config, events, model),
        !(events.last() is SignalLost),
    ensures
        has_done(config, events, ActionView::TakeOff(farewell(model))),
        has_stopped(config, events),
{
    lemma_life(config, events.drop_last(), model);
}

/// An agent without a configured runtime or without a pairing does nothing but exit with the
/// advice to configure or to pair.
pub proof fn law_nothing_without_configuration(config: ConfigView, events: Seq<EventView>)
    requires
        events.len() > 0,
        readiness(config) is Err,
    ensures
        action_on(config, events) is Ignore || action_on(config, events) == ActionView::Exit(
            readiness(config),
        ),
{
    lemma_life(config, events.drop_last(), Seq::empty());
}

/// A machine that turns out to be delisted stops cleanly, be it on its first heartbeat or while it
/// serves: it is told how to pair again, the connector is stopped, and the exit is no error.
pub proof fn law_delisted_stops_cleanly(config: ConfigView, model: Seq<char>, error: Seq<char>)
    ensures
        ({
            let stopped = (
                StageView::Stopping(EndingView::Delisted),
                ActionView::StopConnector { notice: Some(delisted_text()) },
            );
            let (taking_off, _) = agent_next(
                config,
                StageView::Serving(model),
                EventView::Ended(EndingView::Delisted),
            );
            &&& agent_next(
                config,
                StageView::Announcing(model),
                EventView::Announced(OutcomeView::Delisted(error)),
            ) == stopped
            &&& agent_next(config, taking_off, EventView::TakenOff) == stopped
            &&& agent_next(config, stopped.0, EventView::Stopped(Ok(()))) == (
                StageView::Exited,
                ActionView::Exit(Ok(())),
            )
        }),
{
}

/// An agent whose work ended on its own exits with an error once the connector is stopped, so
/// that a supervisor starts it again; one that was interrupted or delisted exits cleanly.
pub proof fn law_unexpected_end_is_an_error(config: ConfigView, ending: EndingView)
    ensures
        agent_next(config, StageView::Stopping(ending), EventView::Stopped(Ok(()))) == (
            StageView::Exited,
            ActionView::Exit(exit_of(ending)),
        ),
        exit_of(ending) is Ok <==> ending is Interrupted || ending is Delisted,
{
}

// ---------------------------------------------------------------------------------------------
// The agent's life, step by step
// ---------------------------------------------------------------------------------------------

/// An agent that is started with a configured runtime and a pairing asks which model is served;
/// without them it exits with what to do first.
pub proof fn law_start(config: ConfigView)
    ensures
        ({
            let started = agent_next(config, StageView::Idle, EventView::Started);
            let configured = exists|i: int|
                0 <= i < config.url.len() && !is_white(#[trigger] config.url[i]);
            let paired = config.device_id.len() > 0 && config.pairing_token.len() > 0;
            &&& configured && paired ==> started == (StageView::Discovering, ActionView::Discover)
            &&& !configured ==> started == (
                StageView::Exited,
                ActionView::Exit(Err("run `doodleiq configure` first"@)),
            )
            &&& configured && !paired ==> started == (
                StageView::Exited,
                ActionView::Exit(Err("run `doodleiq pair` first"@)),
            )
        }),
{
    law_blank(config.url);
}

/// An agent that finds a model served, can listen, gets its tunnel up and has its first heartbeat
/// arrive serves that model under the host name that it was given, one step after the other.
pub proof fn law_agent_comes_online(config: ConfigView, model: Seq<char>, host: Seq<char>)
    ensures
        agent_next(config, StageView::Discovering, EventView::Discovered(Ok(model))) == (
            StageView::Binding(model),
            ActionView::Bind,
        ),
        agent_next(config, StageView::Binding(model), EventView::Bound(Ok(()))) == (
            StageView::Resuming(model),
            ActionView::ResumeTunnel,
        ),
        agent_next(config, StageView::Resuming(model), EventView::Tunnel(TunnelView::Up)) == (
            StageView::Announcing(model),
            ActionView::Announce(model),
        ),
        agent_next(
            config,
            StageView::Announcing(model),
            EventView::Announced(OutcomeView::Delivered(host)),
        ) == (StageView::Serving(model), ActionView::Serve { host, model }),
{
}

/// An agent whose start fails exits with the error of the step that failed.
pub proof fn law_failed_start(config: ConfigView, model: Seq<char>, error: Seq<char>)
    ensures
        agent_next(config, StageView::Discovering, EventView::Discovered(Err(error))) == (
            StageView::Exited,
            ActionView::Exit(Err(error)),
        ),
        agent_next(config, StageView::Binding(model), EventView::Bound(Err(error))) == (
            StageView::Exited,
            ActionView::Exit(
                Err("unable to bind local gateway at "@ + "127.0.0.1:47100"@ + ": "@ + error),
            ),
        ),
        agent_next(config, StageView::Resuming(model), EventView::Tunnel(TunnelView::NoToken)) == (
            StageView::Exited,
            ActionView::Exit(Err("the control plane did not return a Cloudflare tunnel token"@)),
        ),
        agent_next(
            config,
            StageView::Resuming(model),
            EventView::Tunnel(TunnelView::Failed(error)),
        ) == (StageView::Exited, ActionView::Exit(Err(error))),
        agent_next(
            config,
            StageView::Resuming(model),
            EventView::Tunnel(TunnelView::Delisted(error)),
        ) == (StageView::Exited, ActionView::Exit(Err(error))),
        agent_next(
            config,
            StageView::Announcing(model),
            EventView::Announced(OutcomeView::Failed(error)),
        ) == (StageView::Exited, ActionView::Exit(Err(error))),
        agent_next(config, StageView::Serving(model), EventView::SignalLost(error)) == (
            StageView::Exited,
            ActionView::Exit(Err("unable to wait for Ctrl+C: "@ + error)),
        ),
{
}

/// An agent that ends says first that its model is no longer available, for the shutdown, then
/// stops the connector, and then exits: cleanly where it was interrupted or delisted, and with what
/// ended otherwise, so that a supervisor starts it again. Only a delisting is told to the operator
/// as it stops.
pub proof fn law_end(
    config: ConfigView,
    model: Seq<char>,
    ending: EndingView,
    panic: Seq<char>,
    error: Seq<char>,
)
    ensures
        ({
            let (taking_off, said) = agent_next(
                config,
                StageView::Serving(model),
                EventView::Ended(ending),
            );
            let (stopping, stopped) = agent_next(config, taking_off, EventView::TakenOff);
            let (done, exit) = agent_next(config, stopping, EventView::Stopped(Ok(())));
            let restart = ": the provider agent is stopping so a supervisor can restart it"@;
            &&& said matches ActionView::TakeOff(post)
            &&& post.model_id == model
            &&& !post.available
            &&& !post.model_loaded
            &&& post.reason == Some(Reason::Shutdown)
            &&& stopped matches ActionView::StopConnector { notice }
            &&& ending is Delisted ==> notice == Some(
                "this machine was delisted; run `doodleiq reset`, then `doodleiq pair`"@,
            )
            &&& !(ending is Delisted) ==> notice is None
            &&& done == StageView::Exited
            &&& ending is Interrupted || ending is Delisted ==> exit == ActionView::Exit(Ok(()))
            &&& ending == EndingView::HeartbeatEnded(None) ==> exit == ActionView::Exit(
                Err("heartbeat loop ended unexpectedly"@ + restart),
            )
            &&& ending == EndingView::HeartbeatEnded(Some(panic)) ==> exit == ActionView::Exit(
                Err("heartbeat loop panicked: "@ + panic + restart),
            )
            &&& ending == EndingView::GatewayEnded(None) ==> exit == ActionView::Exit(
                Err("local gateway ended unexpectedly"@ + restart),
            )
            &&& ending == EndingView::GatewayEnded(Some(panic)) ==> exit == ActionView::Exit(
                Err("local gateway panicked: "@ + panic + restart),
            )
            &&& agent_next(config, stopping, EventView::Stopped(Err(error))) == (
                StageView::Exited,
                ActionView::Exit(Err(error)),
            )
        }),
{
}

/// What the agent is not waiting for changes nothing.
pub proof fn law_unawaited_events_are_ignored(
    config: ConfigView,
    stage: StageView,
    event: EventView,
)
    requires
        !(stage is Idle && event is Started),
        !(stage is Discovering && event is Discovered),
        !(stage is Binding && event is Bound),
        !(stage is Resuming && event is Tunnel),
        !(stage is Announcing && event is Announced),
        !(stage is Serving && (event is Ended || event is SignalLost)),
        !(stage is TakingOff && event is TakenOff),
        !(stage is Stopping && event is Stopped),
    ensures
        agent_next(config, stage, event) == (stage, ActionView::Ignore),
{
}

/// Endings, stages, events and actions are taken for what they hold.
pub proof fn law_agent_values(
    ending: Ending,
    text: String,
    host: String,
    tunnel: TunnelResult,
    outcome: HeartbeatOutcome,
    post: HeartbeatPost,
    notice: &'static str,
)
    ensures
        Ending::Interrupted@ == EndingView::Interrupted,
        Ending::Delisted@ == EndingView::Delisted,
        Ending::HeartbeatEnded(Some(text))@ == EndingView::HeartbeatEnded(Some(text@)),
        Ending::HeartbeatEnded(None)@ == EndingView::HeartbeatEnded(None),
        Ending::GatewayEnded(Some(text))@ == EndingView::GatewayEnded(Some(text@)),
        Ending::GatewayEnded(None)@ == EndingView::GatewayEnded(None),
        AgentStage::Idle@ == StageView::Idle,
        AgentStage::Discovering@ == StageView::Discovering,
        AgentStage::Binding(text)@ == StageView::Binding(text@),
        AgentStage::Resuming(text)@ == StageView::Resuming(text@),
        AgentStage::Announcing(text)@ == StageView::Announcing(text@),
        AgentStage::Serving(text)@ == StageView::Serving(text@),
        AgentStage::TakingOff(ending)@ == StageView::TakingOff(ending@),
        AgentStage::Stopping(ending)@ == StageView::Stopping(ending@),
        AgentStage::Exited@ == StageView::Exited,
        AgentEvent::Started@ == EventView::Started,
        AgentEvent::Discovered(Ok(text))@ == EventView::Discovered(Ok(text@)),
        AgentEvent::Discovered(Err(text))@ == EventView::Discovered(Err(text@)),
        AgentEvent::Bound(Ok(()))@ == EventView::Bound(Ok(())),
        AgentEvent::Bound(Err(text))@ == EventView::Bound(Err(text@)),
        AgentEvent::Tunnel(tunnel)@ == EventView::Tunnel(tunnel@),
        AgentEvent::Announced(outcome)@ == EventView::Announced(outcome@),
        AgentEvent::Ended(ending)@ == EventView::Ended(ending@),
        AgentEvent::SignalLost(text)@ == EventView::SignalLost(text@),
        AgentEvent::TakenOff@ == EventView::TakenOff,
        AgentEvent::Stopped(Ok(()))@ == EventView::Stopped(Ok(())),
        AgentEvent::Stopped(Err(text))@ == EventView::Stopped(Err(text@)),
        AgentAction::Discover@ == ActionView::Discover,
        AgentAction::Bind@ == ActionView::Bind,
        AgentAction::ResumeTunnel@ == ActionView::ResumeTunnel,
        AgentAction::Announce(text)@ == ActionView::Announce(text@),
        (AgentAction::Serve { host, model: text })@ == (ActionView::Serve {
            host: host@,
            model: text@,
        }),
        AgentAction::TakeOff(post)@ == ActionView::TakeOff(post@),
        (AgentAction::StopConnector { notice: Some(notice) })@ == (ActionView::StopConnector {
            notice: Some(notice@),
        }),
        (AgentAction::StopConnector { notice: None })@ == (ActionView::StopConnector {
            notice: None,
        }),
        AgentAction::Exit(Ok(()))@ == ActionView::Exit(Ok(())),
        AgentAction::Exit(Err(text))@ == ActionView::Exit(Err(text@)),
        AgentAction::Ignore@ == ActionView::Ignore,
{
}

} // verus!
