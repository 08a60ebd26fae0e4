//! Keeping the listing true: what each tick of the heartbeat loop sends, given which model the
//! runtime serves, whether the tunnel is up, and whether the heartbeats arrive.

use vstd::prelude::*;
use crate::heartbeat::{
    HeartbeatOutcome, HeartbeatPost, OutcomeView, PostView, Reason, PROVIDER_MODEL_GONE_DEBOUNCE,
};
use crate::models::{texts, NO_LOADED_MODEL};
use crate::text::{held, same_text};

verus! {

/// What a tick of the loop is waiting for.
#[derive(Debug)]
pub enum Phase {
    /// The next tick, and what it finds the runtime to serve.
    Waiting,
    /// The tunnel, before this model is published.
    Healing(String),
    /// The heartbeat that takes the replaced model off, before this model is published.
    Unpublishing(String),
    /// The heartbeat that publishes this model.
    Publishing(String),
    /// The heartbeat that says that the model is reloading.
    Reloading,
    /// The heartbeat that takes the unloaded model off.
    Unloading,
    /// Nothing: the machine was delisted.
    Stopped,
}

/// What a [`Phase`] is.
pub enum PhaseView {
    Waiting,
    Healing(Seq<char>),
    Unpublishing(Seq<char>),
    Publishing(Seq<char>),
    Reloading,
    Unloading,
    Stopped,
}

/// The state of the heartbeat loop.
#[derive(Debug)]
pub struct ProviderHeartbeatState {
    /// The model that is published.
    pub target: Option<String>,
    /// How many observations in a row have found no loaded model.
    pub model_gone_streak: u32,
    pub phase: Phase,
}

/// What a [`ProviderHeartbeatState`] is.
pub struct LoopView {
    pub target: Option<Seq<char>>,
    pub model_gone_streak: u32,
    pub phase: PhaseView,
}

/// Whether the tunnel carries requests.
#[derive(Debug, Clone, Copy, PartialEq, Eq, Structural)]
pub enum TunnelState {
    Up,
    Down,
    /// The control plane no longer knows this machine.
    Delisted,
}

/// What became of a heartbeat.
#[derive(Debug, Clone, Copy, PartialEq, Eq, Structural)]
pub enum Delivery {
    Delivered,
    Failed,
    /// The control plane no longer knows this machine.
    Delisted,
}

/// What happens to the loop.
#[derive(Debug)]
pub enum LoopEvent {
    /// A tick has asked the runtime which model it serves.
    Discovered(Result<String, String>),
    /// The tunnel was looked after.
    Tunnel(TunnelState),
    /// A heartbeat was sent.
    Posted(Delivery),
}

/// What a [`LoopEvent`] says.
pub enum EventView {
    Discovered(Result<Seq<char>, Seq<char>>),
    Tunnel(TunnelState),
    Posted(Delivery),
}

/// What the loop does next.
#[derive(Debug)]
pub enum LoopAction {
    /// Wait for the next tick.
    Wait,
    /// Make sure that the tunnel is up.
    HealTunnel,
    /// Send a heartbeat.
    Post(HeartbeatPost),
    /// Stop: the machine was delisted.
    Stop,
}

/// What a [`LoopAction`] is.
pub enum ActionView {
    Wait,
    HealTunnel,
    Post(PostView),
    Stop,
}

impl Phase {
    /// What this phase is.
    pub open spec fn view(&self) -> PhaseView {
        match *self {
            Phase::Waiting => PhaseView::Waiting,
            Phase::Healing(model) => PhaseView::Healing(model@),
            Phase::Unpublishing(model) => PhaseView::Unpublishing(model@),
            Phase::Publishing(model) => PhaseView::Publishing(model@),
            Phase::Reloading => PhaseView::Reloading,
            Phase::Unloading => PhaseView::Unloading,
            Phase::Stopped => PhaseView::Stopped,
        }
    }
}

impl LoopEvent {
    /// What this event says.
    pub open spec fn view(&self) -> EventView {
        match *self {
            LoopEvent::Discovered(found) => EventView::Discovered(texts(found)),
            LoopEvent::Tunnel(state) => EventView::Tunnel(state),
            LoopEvent::Posted(delivery) => EventView::Posted(delivery),
        }
    }
}

impl LoopAction {
    /// What this action is.
    pub open spec fn view(&self) -> ActionView {
        match *self {
            LoopAction::Wait => ActionView::Wait,
            LoopAction::HealTunnel => ActionView::HealTunnel,
            LoopAction::Post(post) => ActionView::Post(post@),
            LoopAction::Stop => ActionView::Stop,
        }
    }
}

/// The model that an observation finds served. A runtime that could not be asked still serves the
/// model that is published.
pub open spec fn observed(
    found: Result<Seq<char>, Seq<char>>,
    target: Option<Seq<char>>,
) -> Option<Seq<char>> {
    match found {
        Ok(model) => Some(model),
        Err(error) => if error == NO_LOADED_MODEL@ {
            None
        } else {
            target
        },
    }
}

/// The heartbeat that publishes a model.
pub open spec fn publish(model_id: Seq<char>) -> PostView {
    PostView { model_id, available: true, model_loaded: true, reason: None }
}

/// The heartbeat that takes a model off.
pub open spec fn take_off(model_id: Seq<char>, reason: Reason) -> PostView {
    PostView { model_id, available: false, model_loaded: false, reason: Some(reason) }
}

/// The heartbeat that says that the model is reloading.
pub open spec fn reloading(model_id: Seq<char>) -> PostView {
    PostView {
        model_id,
        available: true,
        model_loaded: false,
        reason: Some(Reason::ModelReloading),
    }
}

/// What the loop does when a tick has asked the runtime.
pub open spec fn on_discovered(
    state: LoopView,
    found: Result<Seq<char>, Seq<char>>,
) -> (LoopView, ActionView) {
    match observed(found, state.target) {
        Some(model) => (
            LoopView { model_gone_streak: 0, phase: PhaseView::Healing(model), ..state },
            ActionView::HealTunnel,
        ),
        None => {
            let streak = state.model_gone_streak.wrapping_add(1);
            match state.target {
                Some(target) => if streak < PROVIDER_MODEL_GONE_DEBOUNCE {
                    (
                        LoopView {
                            model_gone_streak: streak,
                            phase: PhaseView::Reloading,
                            ..state
                        },
                        ActionView::Post(reloading(target)),
                    )
                } else {
                    (
                        LoopView {
                            model_gone_streak: streak,
                            phase: PhaseView::Unloading,
                            ..state
                        },
                        ActionView::Post(take_off(target, Reason::ModelUnloaded)),
                    )
                },
                None => (LoopView { model_gone_streak: streak, ..state }, ActionView::Wait),
            }
        },
    }
}

/// What the loop does when the tunnel was looked after before publishing `model`.
pub open spec fn on_tunnel(
    state: LoopView,
    model: Seq<char>,
    tunnel: TunnelState,
) -> (LoopView, ActionView) {
    match tunnel {
        TunnelState::Up => if state.target is Some && state.target != Some(model) {
            (
                LoopView { phase: PhaseView::Unpublishing(model), ..state },
                ActionView::Post(take_off(state.target->Some_0, Reason::ModelSwitch)),
            )
        } else {
            (
                LoopView { phase: PhaseView::Publishing(model), ..state },
                ActionView::Post(publish(model)),
            )
        },
        TunnelState::Down => (LoopView { phase: PhaseView::Waiting, ..state }, ActionView::Wait),
        TunnelState::Delisted => (
            LoopView { phase: PhaseView::Stopped, ..state },
            ActionView::Stop,
        ),
    }
}

/// What the loop does when a heartbeat was sent.
pub open spec fn on_posted(state: LoopView, delivery: Delivery) -> (LoopView, ActionView) {
    let waiting = LoopView { phase: PhaseView::Waiting, ..state };
    match delivery {
        Delivery::Delisted => (
            LoopView { phase: PhaseView::Stopped, ..state },
            ActionView::Stop,
        ),
        Delivery::Failed => (waiting, ActionView::Wait),
        Delivery::Delivered => match state.phase {
            PhaseView::Unpublishing(model) => (
                LoopView { phase: PhaseView::Publishing(model), ..state },
                ActionView::Post(publish(model)),
            ),
            PhaseView::Publishing(model) => (
                LoopView { target: Some(model), ..waiting },
                ActionView::Wait,
            ),
            PhaseView::Unloading => (LoopView { target: None, ..waiting }, ActionView::Wait),
            _ => (waiting, ActionView::Wait),
        },
    }
}

/// Whether a phase waits for a heartbeat to be sent.
pub open spec fn awaits_delivery(phase: PhaseView) -> bool {
    ||| phase is Unpublishing
    ||| phase is Publishing
    ||| phase is Reloading
    ||| phase is Unloading
}

/// What the loop does next. An event that it is not waiting for changes nothing.
pub open spec fn loop_next(state: LoopView, event: EventView) -> (LoopView, ActionView) {
    match event {
        EventView::Discovered(found) => if state.phase is Waiting {
            on_discovered(state, found)
        } else {
            (state, ActionView::Wait)
        },
        EventView::Tunnel(tunnel) => match state.phase {
            PhaseView::Healing(model) => on_tunnel(state, model, tunnel),
            _ => (state, ActionView::Wait),
        },
        EventView::Posted(delivery) => if awaits_delivery(state.phase) {
            on_posted(state, delivery)
        } else {
            (state, ActionView::Wait)
        },
    }
}

/// The loop before anything was published.
pub open spec fn initial_loop() -> LoopView {
    LoopView { target: None, model_gone_streak: 0, phase: PhaseView::Waiting }
}

/// What became of a heartbeat with this outcome.
pub open spec fn delivery_of(outcome: OutcomeView) -> Delivery {
    match outcome {
        OutcomeView::Delivered(_) => Delivery::Delivered,
        OutcomeView::Failed(_) => Delivery::Failed,
        OutcomeView::Delisted(_) => Delivery::Delisted,
    }
}

/// The heartbeat that says whether a model is available, without a reason.
pub open spec fn announcement(model_id: Seq<char>, available: bool) -> PostView {
    PostView { model_id, available, model_loaded: available, reason: None }
}

/// The loop once a model counts as published, or none.
pub open spec fn with_target(state: LoopView, model_id: Seq<char>, available: bool) -> LoopView {
    LoopView {
        target: if available {
            Some(model_id)
        } else {
            None
        },
        ..state
    }
}

impl HeartbeatOutcome {
    /// What became of the heartbeat.
    pub fn delivery(&self) -> (delivery: Delivery)
        ensures
            delivery == delivery_of(self@),
    {
        match self {
            HeartbeatOutcome::Delivered(_) => Delivery::Delivered,
            HeartbeatOutcome::Failed(_) => Delivery::Failed,
            HeartbeatOutcome::Delisted(_) => Delivery::Delisted,
        }
    }
}

impl Default for ProviderHeartbeatState {
    /// The loop before anything was published.
    fn default() -> (state: Self)
        ensures
            state@ == initial_loop(),
    {
        ProviderHeartbeatState { target: None, model_gone_streak: 0, phase: Phase::Waiting }
    }
}

impl ProviderHeartbeatState {
    /// What this state is.
    pub open spec fn view(&self) -> LoopView {
        LoopView {
            target: held(self.target),
            model_gone_streak: self.model_gone_streak,
            phase: self.phase@,
        }
    }

    /// Sets the model that counts as published, or none, and gives the heartbeat that says so.
    pub fn send_provider_heartbeat(&mut self, model_id: &str, available: bool) -> (post:
        HeartbeatPost)
        ensures
            post@ == announcement(model_id@, available),
            final(self)@ == with_target(old(self)@, model_id@, available),
    {
        self.target = if available {
            Some(model_id.to_owned())
        } else {
            None
        };
        HeartbeatPost {
            model_id: model_id.to_owned(),
            available,
            model_loaded: available,
            reason: None,
        }
    }

    /// What the loop does when a tick has asked the runtime.
    fn discovered(self, found: Result<String, String>) -> (next: (Self, LoopAction))
        ensures
            (next.0@, next.1@) == on_discovered(self@, texts(found)),
    {
        let target: Option<String> = self.target;
        let streak: u32 = self.model_gone_streak.wrapping_add(1);
        let model: Option<String> = match found {
            Ok(model) => Some(model),
            Err(error) => if same_text(error.as_str(), NO_LOADED_MODEL) {
                None
            } else {
                target.clone()
            },
        };
        match model {
            Some(model) => (
                ProviderHeartbeatState {
                    target,
                    model_gone_streak: 0,
                    phase: Phase::Healing(model),
                },
                LoopAction::HealTunnel,
            ),
            None => match target {
                Some(target) => {
                    let model_id: String = target.clone();
                    if streak < PROVIDER_MODEL_GONE_DEBOUNCE {
                        (
                            ProviderHeartbeatState {
                                target: Some(target),
                                model_gone_streak: streak,
                                phase: Phase::Reloading,
                            },
                            LoopAction::Post(
                                HeartbeatPost {
                                    model_id,
                                    available: true,
                                    model_loaded: false,
                                    reason: Some(Reason::ModelReloading),
                                },
                            ),
                        )
                    } else {
                        (
                            ProviderHeartbeatState {
                                target: Some(target),
                                model_gone_streak: streak,
                                phase: Phase::Unloading,
                            },
                            LoopAction::Post(
                                HeartbeatPost {
                                    model_id,
                                    available: false,
                                    model_loaded: false,
                                    reason: Some(Reason::ModelUnloaded),
                                },
                            ),
                        )
                    }
                },
                None => (
                    ProviderHeartbeatState {
                        target: None,
                        model_gone_streak: streak,
                        phase: self.phase,
                    },
                    LoopAction::Wait,
                ),
            },
        }
    }

    /// The loop that publishes `model`, and the heartbeat that does so.
    fn publishing(target: Option<String>, streak: u32, model: String) -> (next: (Self, LoopAction))
        ensures
            next.0@ == (LoopView {
                target: held(target),
                model_gone_streak: streak,
                phase: PhaseView::Publishing(model@),
            }),
            next.1@ == ActionView::Post(publish(model@)),
    {
        let model_id: String = model.clone();
        (
            ProviderHeartbeatState {
                target,
                model_gone_streak: streak,
                phase: Phase::Publishing(model),
            },
            LoopAction::Post(
                HeartbeatPost { model_id, available: true, model_loaded: true, reason: None },
            ),
        )
    }

    /// What the loop does when the tunnel was looked after before publishing `model`.
    fn tunnel_checked(
        target: Option<String>,
        streak: u32,
        model: String,
        tunnel: TunnelState,
        Ghost(state): Ghost<LoopView>,
    ) -> (next: (Self, LoopAction))
        requires
            state == (LoopView {
                target: held(target),
                model_gone_streak: streak,
                phase: PhaseView::Healing(model@),
            }),
        ensures
            (next.0@, next.1@) == on_tunnel(state, model@, tunnel),
    {
        match tunnel {
            TunnelState::Up => match target {
                Some(target) => if same_text(target.as_str(), model.as_str()) {
                    Self::publishing(Some(target), streak, model)
                } else {
                    let model_id: String = target.clone();
                    (
                        ProviderHeartbeatState {
                            target: Some(target),
                            model_gone_streak: streak,
                            phase: Phase::Unpublishing(model),
                        },
                        LoopAction::Post(
                            HeartbeatPost {
                                model_id,
                                available: false,
                                model_loaded: false,
                                reason: Some(Reason::ModelSwitch),
                            },
                        ),
                    )
                },
                None => Self::publishing(None, streak, model),
            },
            TunnelState::Down => (
                ProviderHeartbeatState { target, model_gone_streak: streak, phase: Phase::Waiting },
                LoopAction::Wait,
            ),
            TunnelState::Delisted => (
                ProviderHeartbeatState { target, model_gone_streak: streak, phase: Phase::Stopped },
                LoopAction::Stop,
            ),
        }
    }

    /// What the loop does when a heartbeat was sent.
    fn posted(self, delivery: Delivery) -> (next: (Self, LoopAction))
        requires
            awaits_delivery(self@.phase),
        ensures
            (next.0@, next.1@) == on_posted(self@, delivery),
    {
        let streak: u32 = self.model_gone_streak;
        match delivery {
            Delivery::Delisted => (
                ProviderHeartbeatState {
                    target: self.target,
                    model_gone_streak: streak,
                    phase: Phase::Stopped,
                },
                LoopAction::Stop,
            ),
            Delivery::Failed => (
                ProviderHeartbeatState {
                    target: self.target,
                    model_gone_streak: streak,
                    phase: Phase::Waiting,
                },
                LoopAction::Wait,
            ),
            Delivery::Delivered => match self.phase {
                Phase::Unpublishing(model) => Self::publishing(self.target, streak, model),
                Phase::Publishing(model) => (
                    ProviderHeartbeatState {
                        target: Some(model),
                        model_gone_streak: streak,
                        phase: Phase::Waiting,
                    },
                    LoopAction::Wait,
                ),
                Phase::Unloading => (
                    ProviderHeartbeatState {
                        target: None,
                        model_gone_streak: streak,
                        phase: Phase::Waiting,
                    },
                    LoopAction::Wait,
                ),
                _ => (
                    ProviderHeartbeatState {
                        target: self.target,
                        model_gone_streak: streak,
                        phase: Phase::Waiting,
                    },
                    LoopAction::Wait,
                ),
            },
        }
    }

    /// What the loop does next. An event that it is not waiting for changes nothing.
    pub fn run_provider_heartbeat(self, event: LoopEvent) -> (next: (Self, LoopAction))
        ensures
            (next.0@, next.1@) == loop_next(self@, event@),
    {
        let ghost state = self@;
        match event {
            LoopEvent::Discovered(found) => match self.phase {
                Phase::Waiting => self.discovered(found),
                _ => (self, LoopAction::Wait),
            },
            LoopEvent::Tunnel(tunnel) => match self.phase {
                Phase::Healing(model) => Self::tunnel_checked(
                    self.target,
                    self.model_gone_streak,
                    model,
                    tunnel,
                    Ghost(state),
                ),
                phase => (
                    ProviderHeartbeatState {
                        target: self.target,
                        model_gone_streak: self.model_gone_streak,
                        phase,
                    },
                    LoopAction::Wait,
                ),
            },
            LoopEvent::Posted(delivery) => {
                let awaited: bool = match &self.phase {
                    Phase::Unpublishing(_) => true,
                    Phase::Publishing(_) => true,
                    Phase::Reloading => true,
                    Phase::Unloading => true,
                    _ => false,
                };
                if awaited {
                    self.posted(delivery)
                } else {
                    (self, LoopAction::Wait)
                }
            },
        }
    }
}

// ---------------------------------------------------------------------------------------------
// What holds of every run of the loop
// ---------------------------------------------------------------------------------------------

/// The loop after a run of events.
pub open spec fn after(state: LoopView, events: Seq<EventView>) -> LoopView
    decreases events.len(),
{
    if events.len() == 0 {
        state
    } else {
        loop_next(after(state, events.drop_last()), events.last()).0
    }
}

/// What the loop does on the last of a run of events.
pub open spec fn last_action(state: LoopView, events: Seq<EventView>) -> ActionView
    recommends
        events.len() > 0,
{
    loop_next(after(state, events.drop_last()), events.last()).1
}

/// How many of the loop's observations, counted back from the last, found no model served.
pub open spec fn empty_run(state: LoopView, events: Seq<EventView>) -> nat
    decreases events.len(),
{
    if events.len() == 0 {
        0
    } else {
        let before = after(state, events.drop_last());
        let so_far = empty_run(state, events.drop_last());
        match events.last() {
            EventView::Discovered(found) => if !(before.phase is Waiting) {
                so_far
            } else if observed(found, before.target) is None {
                so_far + 1
            } else {
                0
            },
            _ => so_far,
        }
    }
}

/// The streak counts the observations in a row that found no model.
proof fn lemma_streak_counts(state: LoopView, events: Seq<EventView>)
    requires
        state.model_gone_streak == 0,
        events.len() <= u32::MAX,
    ensures
        after(state, events).model_gone_streak == empty_run(state, events),
        empty_run(state, events) <= events.len(),
    decreases events.len(),
{
    if events.len() > 0 {
        lemma_streak_counts(state, events.drop_last());
    }
}

/// A reload does not take the provider off the market: in any run of events, a model is reported
/// as unloaded only once at least four observations in a row have found none served.
pub proof fn law_unload_is_debounced(state: LoopView, events: Seq<EventView>)
    requires
        state.model_gone_streak == 0,
        0 < events.len() <= u32::MAX,
        last_action(state, events) matches ActionView::Post(post) && post.reason == Some(
            Reason::ModelUnloaded,
        ),
    ensures
        empty_run(state, events) >= PROVIDER_MODEL_GONE_DEBOUNCE,
{
    lemma_streak_counts(state, events.drop_last());
}

/// The provider is reported unavailable for two reasons only: another model takes the place of
/// the published one, or the published one is gone; and it is the published one that is reported.
pub proof fn law_only_the_published_model_is_taken_off(state: LoopView, event: EventView)
    requires
        loop_next(state, event).1 matches ActionView::Post(post) && !post.available,
    ensures
        loop_next(state, event).1 matches ActionView::Post(post) && {
            &&& state.target == Some(post.model_id)
            &&& post.reason == Some(Reason::ModelSwitch) || post.reason == Some(
                Reason::ModelUnloaded,
            )
        },
{
}

/// A runtime that cannot be asked does not take the provider offline: the published model counts
/// as served, no heartbeat of the tick takes it off, and the next one to be sent publishes it
/// again, once the tunnel is up.
pub proof fn law_transient_error_keeps_online(
    state: LoopView,
    model: Seq<char>,
    error: Seq<char>,
)
    requires
        state.phase is Waiting,
        state.target == Some(model),
        error != NO_LOADED_MODEL@,
    ensures
        ({
            let (healing, asked) = loop_next(state, EventView::Discovered(Err(error)));
            let (publishing, sent) = loop_next(healing, EventView::Tunnel(TunnelState::Up));
            &&& asked is HealTunnel
            &&& healing.model_gone_streak == 0
            &&& sent == ActionView::Post(publish(model))
            &&& forall|delivery: Delivery|
                (#[trigger] loop_next(publishing, EventView::Posted(delivery))).0.target == Some(
                    model,
                )
        }),
{
}

/// The loop publishes a model only where it has just found the tunnel up: in any run from a
/// waiting loop, a heartbeat that says the model is loaded follows on news that the tunnel is up,
/// or on the delivery of the heartbeat that took the replaced model off, which itself followed on
/// that news.
pub proof fn law_published_only_with_tunnel_up(state: LoopView, events: Seq<EventView>)
    requires
        state.phase is Waiting,
        events.len() > 0,
        last_action(state, events) matches ActionView::Post(post) && post.model_loaded,
    ensures
        events.last() == EventView::Tunnel(TunnelState::Up) || (events.last()
            == EventView::Posted(Delivery::Delivered) && tunnel_found_up(
            state,
            events.drop_last(),
        )),
{
    lemma_unpublishing_after_tunnel_up(state, events.drop_last());
}

/// Whether the last event of a run that changed the loop was the news that the tunnel is up.
pub open spec fn tunnel_found_up(state: LoopView, events: Seq<EventView>) -> bool
    decreases events.len(),
{
    if events.len() == 0 {
        false
    } else {
        let before = after(state, events.drop_last());
        if loop_next(before, events.last()).0 == before {
            tunnel_found_up(state, events.drop_last())
        } else {
            events.last() == EventView::Tunnel(TunnelState::Up)
        }
    }
}

proof fn lemma_unpublishing_after_tunnel_up(state: LoopView, events: Seq<EventView>)
    requires
        state.phase is Waiting,
    ensures
        after(state, events).phase is Unpublishing ==> tunnel_found_up(state, events),
    decreases events.len(),
{
    if events.len() > 0 {
        lemma_unpublishing_after_tunnel_up(state, events.drop_last());
    }
}

/// A model switch unpublishes first: with the tunnel up, the loop takes the old model off, and
/// publishes the new one only once that has arrived; where it has not, the old model stays the
/// published one and the next tick starts over.
pub proof fn law_switch_unpublishes_first(state: LoopView, old_model: Seq<char>, new_model: Seq<char>)
    requires
        state.phase is Waiting,
        state.target == Some(old_model),
        old_model != new_model,
    ensures
        ({
            let (healing, asked) = loop_next(state, EventView::Discovered(Ok(new_model)));
            let (unpublishing, first) = loop_next(healing, EventView::Tunnel(TunnelState::Up));
            let (publishing, second) = loop_next(
                unpublishing,
                EventView::Posted(Delivery::Delivered),
            );
            let failed = loop_next(unpublishing, EventView::Posted(Delivery::Failed));
            let done = loop_next(publishing, EventView::Posted(Delivery::Delivered));
            &&& asked is HealTunnel
            &&& first == ActionView::Post(take_off(old_model, Reason::ModelSwitch))
            &&& second == ActionView::Post(publish(new_model))
            &&& failed.1 is Wait
            &&& failed.0.target == Some(old_model)
            &&& failed.0.phase is Waiting
            &&& done.0.target == Some(new_model)
            &&& done.0.phase is Waiting
        }),
{
}

/// A delisted machine stops: the loop answers any news that the control plane no longer knows the
/// machine by stopping, and does nothing afterwards.
pub proof fn law_delisted_stops(state: LoopView, event: EventView)
    ensures
        awaits_delivery(state.phase) ==> loop_next(
            state,
            EventView::Posted(Delivery::Delisted),
        ).1 is Stop,
        state.phase is Healing ==> loop_next(
            state,
            EventView::Tunnel(TunnelState::Delisted),
        ).1 is Stop,
        loop_next(state, event).1 is Stop ==> loop_next(state, event).0.phase is Stopped,
        state.phase is Stopped ==> loop_next(state, event) == (state, ActionView::Wait),
{
}

/// A served model is published: where no model is published, or this very one, a tick that finds
/// it served has the tunnel looked after, and with the tunnel up sends the heartbeat that says
/// that the model is available and loaded; once that has arrived, the model is the published one
/// and the loop waits for the next tick. Where it has not arrived, the loop waits as well, and
/// what was published stays.
pub proof fn law_served_model_is_published(state: LoopView, model: Seq<char>)
    requires
        state.phase is Waiting,
        state.target is None || state.target == Some(model),
    ensures
        ({
            let (healing, asked) = loop_next(state, EventView::Discovered(Ok(model)));
            let (publishing, sent) = loop_next(healing, EventView::Tunnel(TunnelState::Up));
            let (done, rested) = loop_next(publishing, EventView::Posted(Delivery::Delivered));
            let (missed, waited) = loop_next(publishing, EventView::Posted(Delivery::Failed));
            &&& asked == ActionView::HealTunnel
            &&& sent matches ActionView::Post(post)
            &&& post.model_id == model
            &&& post.available
            &&& post.model_loaded
            &&& post.reason is None
            &&& rested == ActionView::Wait
            &&& done.target == Some(model)
            &&& done.phase is Waiting
            &&& done.model_gone_streak == 0
            &&& waited == ActionView::Wait
            &&& missed.target == state.target
            &&& missed.phase is Waiting
        }),
{
}

/// A model that takes the place of the published one is published after that one was taken off:
/// first a heartbeat that says that the published model is no longer available, for the switch,
/// and once that has arrived, one that says that the new model is available and loaded.
pub proof fn law_replacement_is_published(state: LoopView, published: Seq<char>, model: Seq<char>)
    requires
        state.phase is Waiting,
        state.target == Some(published),
        published != model,
    ensures
        ({
            let (healing, asked) = loop_next(state, EventView::Discovered(Ok(model)));
            let (unpublishing, first) = loop_next(healing, EventView::Tunnel(TunnelState::Up));
            let (publishing, second) = loop_next(
                unpublishing,
                EventView::Posted(Delivery::Delivered),
            );
            let (done, rested) = loop_next(publishing, EventView::Posted(Delivery::Delivered));
            &&& asked == ActionView::HealTunnel
            &&& first matches ActionView::Post(off)
            &&& off.model_id == published
            &&& !off.available
            &&& !off.model_loaded
            &&& off.reason == Some(Reason::ModelSwitch)
            &&& second matches ActionView::Post(on)
            &&& on.model_id == model
            &&& on.available
            &&& on.model_loaded
            &&& on.reason is None
            &&& rested == ActionView::Wait
            &&& done.target == Some(model)
            &&& done.phase is Waiting
        }),
{
}

/// A published model that the runtime no longer serves is reported as reloading on the first three
/// ticks in a row that find none, and as unloaded from the fourth on; once that has arrived, no
/// model is published. It stays the published one as long as that has not arrived.
pub proof fn law_missing_model_is_reported(state: LoopView, published: Seq<char>)
    requires
        state.phase is Waiting,
        state.target == Some(published),
        state.model_gone_streak < u32::MAX,
    ensures
        ({
            let (told, said) = loop_next(
                state,
                EventView::Discovered(Err("the model runtime has no loaded model"@)),
            );
            let (done, rested) = loop_next(told, EventView::Posted(Delivery::Delivered));
            let (missed, waited) = loop_next(told, EventView::Posted(Delivery::Failed));
            &&& said matches ActionView::Post(post)
            &&& post.model_id == published
            &&& !post.model_loaded
            &&& state.model_gone_streak < 3 ==> {
                &&& post.available
                &&& post.reason == Some(Reason::ModelReloading)
                &&& done.target == Some(published)
            }
            &&& state.model_gone_streak >= 3 ==> {
                &&& !post.available
                &&& post.reason == Some(Reason::ModelUnloaded)
                &&& done.target is None
            }
            &&& done.model_gone_streak == state.model_gone_streak + 1
            &&& done.phase is Waiting
            &&& rested == ActionView::Wait
            &&& missed.target == Some(published)
            &&& missed.model_gone_streak == state.model_gone_streak + 1
            &&& missed.phase is Waiting
            &&& waited == ActionView::Wait
        }),
{
}

/// Where no model is published and the runtime serves none, or cannot be asked, nothing is said:
/// the tick is counted and the loop waits for the next.
pub proof fn law_nothing_to_report(state: LoopView, error: Seq<char>)
    requires
        state.phase is Waiting,
        state.target is None,
        state.model_gone_streak < u32::MAX,
    ensures
        ({
            let (next, action) = loop_next(state, EventView::Discovered(Err(error)));
            &&& action == ActionView::Wait
            &&& next.target is None
            &&& next.phase is Waiting
            &&& next.model_gone_streak == state.model_gone_streak + 1
        }),
{
}

/// A runtime that cannot be asked serves what is published: the tick goes on as though it had
/// found the published model.
pub proof fn law_unasked_runtime_serves_what_is_published(
    state: LoopView,
    published: Seq<char>,
    error: Seq<char>,
)
    requires
        state.target == Some(published),
        error != "the model runtime has no loaded model"@,
    ensures
        loop_next(state, EventView::Discovered(Err(error))) == loop_next(
            state,
            EventView::Discovered(Ok(published)),
        ),
{
}

/// Nothing is published over a tunnel that is down: the loop waits for the next tick, and what is
/// published stays.
pub proof fn law_tunnel_down_waits(state: LoopView)
    requires
        state.phase is Healing,
    ensures
        ({
            let (next, action) = loop_next(state, EventView::Tunnel(TunnelState::Down));
            &&& action == ActionView::Wait
            &&& next.target == state.target
            &&& next.model_gone_streak == state.model_gone_streak
            &&& next.phase is Waiting
        }),
{
}

/// What the loop is not waiting for changes nothing: a tick while another is under way, news of
/// the tunnel where none was asked for, and news of a heartbeat where none was sent.
pub proof fn law_unawaited_news_changes_nothing(
    state: LoopView,
    found: Result<Seq<char>, Seq<char>>,
    tunnel: TunnelState,
    delivery: Delivery,
)
    ensures
        !(state.phase is Waiting) ==> loop_next(state, EventView::Discovered(found)) == (
            state,
            ActionView::Wait,
        ),
        !(state.phase is Healing) ==> loop_next(state, EventView::Tunnel(tunnel)) == (
            state,
            ActionView::Wait,
        ),
        state.phase is Waiting || state.phase is Healing || state.phase is Stopped ==> loop_next(
            state,
            EventView::Posted(delivery),
        ) == (state, ActionView::Wait),
        initial_loop().target is None,
        initial_loop().model_gone_streak == 0,
        initial_loop().phase is Waiting,
{
}

/// The loop, its events and its actions are taken for what they hold.
pub proof fn law_loop_values(
    state: ProviderHeartbeatState,
    model: String,
    error: String,
    tunnel: TunnelState,
    delivery: Delivery,
    post: HeartbeatPost,
)
    ensures
        state@.target == (match state.target {
            Some(target) => Some(target@),
            None => None,
        }),
        state@.model_gone_streak == state.model_gone_streak,
        state@.phase == state.phase@,
        Phase::Waiting@ == PhaseView::Waiting,
        Phase::Healing(model)@ == PhaseView::Healing(model@),
        Phase::Unpublishing(model)@ == PhaseView::Unpublishing(model@),
        Phase::Publishing(model)@ == PhaseView::Publishing(model@),
        Phase::Reloading@ == PhaseView::Reloading,
        Phase::Unloading@ == PhaseView::Unloading,
        Phase::Stopped@ == PhaseView::Stopped,
        LoopEvent::Discovered(Ok(model))@ == EventView::Discovered(Ok(model@)),
        LoopEvent::Discovered(Err(error))@ == EventView::Discovered(Err(error@)),
        LoopEvent::Tunnel(tunnel)@ == EventView::Tunnel(tunnel),
        LoopEvent::Posted(delivery)@ == EventView::Posted(delivery),
        LoopAction::Wait@ == ActionView::Wait,
        LoopAction::HealTunnel@ == ActionView::HealTunnel,
        LoopAction::Post(post)@ == ActionView::Post(post@),
        LoopAction::Stop@ == ActionView::Stop,
{
}

/// An announced model counts as published, and the heartbeat that announces it says that it is
/// available and loaded; one that is taken back leaves none published. A heartbeat that arrived was
/// delivered, one that failed was not, and one that was answered by a delisting says so.
pub proof fn law_announcing(state: LoopView, model: Seq<char>, text: Seq<char>)
    ensures
        announcement(model, true).model_id == model,
        announcement(model, true).available,
        announcement(model, true).model_loaded,
        announcement(model, true).reason is None,
        announcement(model, false).model_id == model,
        !announcement(model, false).available,
        !announcement(model, false).model_loaded,
        announcement(model, false).reason is None,
        with_target(state, model, true).target == Some(model),
        with_target(state, model, false).target is None,
        with_target(state, model, true).phase == state.phase,
        with_target(state, model, false).phase == state.phase,
        with_target(state, model, true).model_gone_streak == state.model_gone_streak,
        with_target(state, model, false).model_gone_streak == state.model_gone_streak,
        delivery_of(OutcomeView::Delivered(text)) == Delivery::Delivered,
        delivery_of(OutcomeView::Failed(text)) == Delivery::Failed,
        delivery_of(OutcomeView::Delisted(text)) == Delivery::Delisted,
{
}

} // verus!
