//! Heartbeats: what they say, how their delivery is watched, and when which is sent.

use vstd::prelude::*;
use crate::clock::unix_timestamp;
use crate::config::{ConfigView, RuntimeConfig};
use crate::http::{
    is_phrase, post_call, status_line, status_reason, status_text, with_header, Call, CallView,
    Method, Reply,
};
use crate::json::{
    field, is_exact, json_parsed, json_text, lemma_raw_key_length, raw_key, set_field, text_of,
    unsigned_or_null, Json, JsonNumber, JsonView,
};
use crate::machine::{MachineIdentity, MachineView};
use crate::text::{contains, contains_text, decimal_text, digit, held, law_containing, occurs_at};

verus! {

/// Seconds between two heartbeats.
pub const PROVIDER_HEARTBEAT_INTERVAL_SECONDS: u64 = 30;

/// How many observations in a row must find no loaded model before the provider reports itself
/// offline.
pub const PROVIDER_MODEL_GONE_DEBOUNCE: u32 = 4;

// ---------------------------------------------------------------------------------------------
// Delivery
// ---------------------------------------------------------------------------------------------

/// Whether heartbeats reach the control plane.
#[derive(Debug)]
pub struct HeartbeatHealth {
    /// Unix seconds of the last heartbeat that did; 0 where none has.
    pub last_ok_unix: u64,
    pub consecutive_failures: u32,
    /// The number of the last heartbeat that was sent.
    pub seq: u64,
    pub last_error: Option<String>,
}

/// What a [`HeartbeatHealth`] shows.
pub struct HealthView {
    pub last_ok_unix: u64,
    pub consecutive_failures: u32,
    pub seq: u64,
    pub last_error: Option<Seq<char>>,
}

/// The health before the first heartbeat.
pub open spec fn initial_health() -> HealthView {
    HealthView { last_ok_unix: 0, consecutive_failures: 0, seq: 0, last_error: None }
}

/// The health with one more number given out.
pub open spec fn with_next_seq(health: HealthView) -> HealthView {
    HealthView { seq: health.seq.wrapping_add(1), ..health }
}

/// The health after a heartbeat that reached the control plane at the time `now`.
pub open spec fn with_success(health: HealthView, now: u64) -> HealthView {
    HealthView { last_ok_unix: now, consecutive_failures: 0, last_error: None, ..health }
}

/// The health after a heartbeat that failed.
pub open spec fn with_failure(health: HealthView, error: Seq<char>) -> HealthView {
    HealthView {
        consecutive_failures: health.consecutive_failures.wrapping_add(1),
        last_error: Some(error),
        ..health
    }
}

/// A JSON text, or null.
pub open spec fn text_or_null(text: Option<Seq<char>>) -> JsonView {
    match text {
        Some(text) => JsonView::Text(text),
        None => JsonView::Null,
    }
}

/// An unsigned JSON number.
pub open spec fn number(n: u64) -> JsonView {
    JsonView::Number(JsonNumber::Unsigned(n))
}

/// `a - b`, or 0 where `b` is larger.
pub open spec fn seconds_since(now: u64, then: u64) -> u64 {
    if now >= then {
        (now - then) as u64
    } else {
        0
    }
}

/// The document that reports the health at the time `now`.
pub open spec fn health_document(health: HealthView, now: u64) -> JsonView {
    let heard = health.last_ok_unix != 0;
    JsonView::Object(
        Map::empty().insert("ok"@, JsonView::Bool(health.consecutive_failures == 0)).insert(
            "consecutive_failures"@,
            number(health.consecutive_failures as u64),
        ).insert(
            "last_ok_unix"@,
            unsigned_or_null(
                if heard {
                    Some(health.last_ok_unix)
                } else {
                    None
                },
            ),
        ).insert(
            "seconds_since_last_ok"@,
            unsigned_or_null(
                if heard {
                    Some(seconds_since(now, health.last_ok_unix))
                } else {
                    None
                },
            ),
        ).insert("last_error"@, text_or_null(health.last_error)),
    )
}

impl Default for HeartbeatHealth {
    /// The health before the first heartbeat.
    fn default() -> (health: Self)
        ensures
            health@ == initial_health(),
    {
        HeartbeatHealth { last_ok_unix: 0, consecutive_failures: 0, seq: 0, last_error: None }
    }
}

impl HeartbeatHealth {
    /// What this health shows.
    pub open spec fn view(&self) -> HealthView {
        HealthView {
            last_ok_unix: self.last_ok_unix,
            consecutive_failures: self.consecutive_failures,
            seq: self.seq,
            last_error: held(self.last_error),
        }
    }

    /// The number for the next heartbeat.
    pub fn next_seq(&mut self) -> (seq: u64)
        ensures
            seq == old(self)@.seq.wrapping_add(1),
            final(self)@ == with_next_seq(old(self)@),
    {
        self.seq = self.seq.wrapping_add(1);
        self.seq
    }

    /// Notes a heartbeat that reached the control plane at the time `now`.
    pub fn record_success_at(&mut self, now: u64)
        ensures
            final(self)@ == with_success(old(self)@, now),
    {
        self.last_ok_unix = now;
        self.consecutive_failures = 0;
        self.last_error = None;
    }

    /// Notes a heartbeat that has reached the control plane, at the time that the clock gives.
    pub fn record_success(&mut self)
        ensures
            exists|now: u64| final(self)@ == #[trigger] with_success(old(self)@, now),
    {
        let now: u64 = unix_timestamp();
        self.record_success_at(now);
    }

    /// Notes a heartbeat that failed.
    pub fn record_failure(&mut self, error: &str)
        ensures
            final(self)@ == with_failure(old(self)@, error@),
    {
        self.consecutive_failures = self.consecutive_failures.wrapping_add(1);
        self.last_error = Some(error.to_owned());
    }

    /// The document that reports the health at the time `now`.
    pub fn snapshot_at(&self, now: u64) -> (document: Json)
        ensures
            document.tree() == health_document(self@, now),
    {
        let heard: bool = self.last_ok_unix != 0;
        let last_ok: Option<u64> = if heard {
            Some(self.last_ok_unix)
        } else {
            None
        };
        let since: Option<u64> = if heard {
            Some(now.saturating_sub(self.last_ok_unix))
        } else {
            None
        };
        let last_error: Json = match &self.last_error {
            Some(error) => Json::text(error.as_str()),
            None => Json::Null,
        };
        let mut entries: Vec<(String, Json)> = Vec::new();
        set_field(&mut entries, "ok", Json::Bool(self.consecutive_failures == 0));
        set_field(
            &mut entries,
            "consecutive_failures",
            Json::unsigned(self.consecutive_failures as u64),
        );
        set_field(&mut entries, "last_ok_unix", Json::unsigned_or_null(last_ok));
        set_field(&mut entries, "seconds_since_last_ok", Json::unsigned_or_null(since));
        set_field(&mut entries, "last_error", last_error);
        Json::Object(entries)
    }

    /// The document that reports the health at the time that the clock gives.
    pub fn snapshot(&self) -> (document: Json)
        ensures
            exists|now: u64| document.tree() == #[trigger] health_document(self@, now),
    {
        let now: u64 = unix_timestamp();
        self.snapshot_at(now)
    }
}

/// Whether a failed heartbeat is worth another try right away: the control plane could not be
/// reached, is failing, or asks to slow down.
pub open spec fn is_transient(error: Seq<char>) -> bool {
    ||| contains_text(error, "Unable to update provider availability"@)
    ||| contains_text(error, "returned 5"@)
    ||| contains_text(error, "returned 429"@)
}

/// Whether a failed heartbeat is worth another try right away.
pub fn is_retryable_heartbeat_error(error: &str) -> (retryable: bool)
    ensures
        retryable == is_transient(error@),
{
    contains(error, "Unable to update provider availability") || contains(error, "returned 5")
        || contains(error, "returned 429")
}

/// The seconds to wait after the failed try number `attempt`, counted from 0, where another
/// follows.
pub open spec fn backoff(attempt: nat) -> Option<u64> {
    if attempt == 0 {
        Some(3)
    } else if attempt == 1 {
        Some(7)
    } else {
        None
    }
}

/// What came of a heartbeat.
#[derive(Debug)]
pub enum HeartbeatOutcome {
    /// It reached the control plane, which serves this machine under the host name.
    Delivered(String),
    /// It failed. The text says why.
    Failed(String),
    /// The control plane no longer knows this machine. The text says how it put that.
    Delisted(String),
}

/// What a [`HeartbeatOutcome`] says.
pub enum OutcomeView {
    Delivered(Seq<char>),
    Failed(Seq<char>),
    Delisted(Seq<char>),
}

impl HeartbeatOutcome {
    /// What this outcome says.
    pub open spec fn view(&self) -> OutcomeView {
        match *self {
            HeartbeatOutcome::Delivered(host) => OutcomeView::Delivered(host@),
            HeartbeatOutcome::Failed(error) => OutcomeView::Failed(error@),
            HeartbeatOutcome::Delisted(error) => OutcomeView::Delisted(error@),
        }
    }
}

/// Whether another try follows the try number `attempt` with this outcome.
pub open spec fn tries_again(attempt: nat, outcome: OutcomeView) -> bool {
    outcome matches OutcomeView::Failed(error) && is_transient(error) && backoff(attempt) is Some
}

/// The health after a heartbeat whose last try had this outcome.
pub open spec fn with_outcome(health: HealthView, outcome: OutcomeView, now: u64) -> HealthView {
    match outcome {
        OutcomeView::Delivered(_) => with_success(health, now),
        OutcomeView::Failed(error) => with_failure(health, error),
        OutcomeView::Delisted(error) => with_failure(health, error),
    }
}

/// The seconds to wait where another try follows the try number `attempt`, counted from 0, and the
/// health afterwards, which notes the outcome where none does.
pub open spec fn settled(
    health: HealthView,
    attempt: nat,
    outcome: OutcomeView,
    now: u64,
) -> (Option<u64>, HealthView) {
    if tries_again(attempt, outcome) {
        (backoff(attempt), health)
    } else {
        (None, with_outcome(health, outcome, now))
    }
}

/// Settles the try number `attempt`, counted from 0: gives the seconds to wait where another try
/// follows, and notes the outcome where none does.
pub fn settle_attempt(
    health: &mut HeartbeatHealth,
    attempt: usize,
    outcome: &HeartbeatOutcome,
    now: u64,
) -> (delay: Option<u64>)
    ensures
        (delay, final(health)@) == settled(old(health)@, attempt as nat, outcome@, now),
{
    match outcome {
        HeartbeatOutcome::Delivered(_) => {
            health.record_success_at(now);
            None
        },
        HeartbeatOutcome::Failed(error) => {
            let delay: Option<u64> = if !is_retryable_heartbeat_error(error.as_str()) {
                None
            } else if attempt == 0 {
                Some(3)
            } else if attempt == 1 {
                Some(7)
            } else {
                None
            };
            if delay.is_none() {
                health.record_failure(error.as_str());
            }
            delay
        },
        HeartbeatOutcome::Delisted(error) => {
            health.record_failure(error.as_str());
            None
        },
    }
}

/// How many tries a heartbeat takes, and how long they wait, when the try number `attempt` is
/// the first and the tries have these outcomes.
pub open spec fn tries(attempt: nat, outcomes: Seq<OutcomeView>) -> (nat, nat)
    decreases outcomes.len(),
{
    if outcomes.len() == 0 {
        (0, 0)
    } else if tries_again(attempt, outcomes[0]) {
        let rest = tries(attempt + 1, outcomes.drop_first());
        (1 + rest.0, backoff(attempt)->Some_0 as nat + rest.1)
    } else {
        (1, 0)
    }
}

/// Whatever the control plane answers, a heartbeat takes at most three tries, and the waits
/// between them stay well under the time to the next one.
pub proof fn law_retries_fit_in_the_interval(outcomes: Seq<OutcomeView>)
    ensures
        tries(0, outcomes).0 <= 3,
        tries(0, outcomes).1 <= 10,
        2 * tries(0, outcomes).1 < PROVIDER_HEARTBEAT_INTERVAL_SECONDS,
{
    reveal_with_fuel(tries, 4);
}

/// What is noted of the heartbeats.
pub enum HealthEvent {
    /// One was numbered.
    Numbered,
    /// One arrived, at this time.
    Arrived(u64),
    /// One failed.
    Failed(Seq<char>),
}

/// The health after a run of what is noted.
pub open spec fn health_after(health: HealthView, events: Seq<HealthEvent>) -> HealthView
    decreases events.len(),
{
    if events.len() == 0 {
        health
    } else {
        let before = health_after(health, events.drop_last());
        match events.last() {
            HealthEvent::Numbered => with_next_seq(before),
            HealthEvent::Arrived(now) => with_success(before, now),
            HealthEvent::Failed(error) => with_failure(before, error),
        }
    }
}

/// How many heartbeats a run numbers.
pub open spec fn numbered(events: Seq<HealthEvent>) -> nat
    decreases events.len(),
{
    if events.len() == 0 {
        0
    } else {
        numbered(events.drop_last()) + if events.last() is Numbered {
            1nat
        } else {
            0nat
        }
    }
}

/// How many heartbeats have failed since the last that arrived.
pub open spec fn failing(events: Seq<HealthEvent>) -> nat
    decreases events.len(),
{
    if events.len() == 0 {
        0
    } else {
        match events.last() {
            HealthEvent::Numbered => failing(events.drop_last()),
            HealthEvent::Arrived(_) => 0,
            HealthEvent::Failed(_) => failing(events.drop_last()) + 1,
        }
    }
}

/// The heartbeats of a process are numbered one after the other from one, as long as the numbers
/// fit in 64 bits.
pub proof fn law_heartbeats_are_numbered(events: Seq<HealthEvent>)
    requires
        numbered(events) <= u64::MAX,
    ensures
        health_after(initial_health(), events).seq == numbered(events),
    decreases events.len(),
{
    if events.len() > 0 {
        law_heartbeats_are_numbered(events.drop_last());
    }
}

/// The failures are those since the last heartbeat that arrived, as long as they fit in 32 bits,
/// and an error is known exactly where there are any.
pub proof fn law_failures_are_counted(events: Seq<HealthEvent>)
    ensures
        failing(events) <= u32::MAX ==> health_after(initial_health(), events).consecutive_failures
            == failing(events),
        health_after(initial_health(), events).last_error is Some <==> failing(events) > 0,
    decreases events.len(),
{
    if events.len() > 0 {
        law_failures_are_counted(events.drop_last());
    }
}

// ---------------------------------------------------------------------------------------------
// What a heartbeat says
// ---------------------------------------------------------------------------------------------

/// Why a heartbeat says what it says.
#[derive(Debug, Clone, Copy, PartialEq, Eq, Structural)]
pub enum Reason {
    Shutdown,
    ModelSwitch,
    ModelReloading,
    ModelUnloaded,
}

impl Reason {
    /// The reason as the control plane knows it.
    pub open spec fn code(self) -> Seq<char> {
        match self {
            Reason::Shutdown => "shutdown"@,
            Reason::ModelSwitch => "model_switch"@,
            Reason::ModelReloading => "model_reloading"@,
            Reason::ModelUnloaded => "model_unloaded"@,
        }
    }

    /// The reason as the control plane knows it.
    pub fn text(&self) -> (text: &'static str)
        ensures
            text@ == self.code(),
    {
        match self {
            Reason::Shutdown => "shutdown",
            Reason::ModelSwitch => "model_switch",
            Reason::ModelReloading => "model_reloading",
            Reason::ModelUnloaded => "model_unloaded",
        }
    }
}

/// What a heartbeat says of the model.
#[derive(Debug)]
pub struct HeartbeatPost {
    pub model_id: String,
    pub available: bool,
    pub model_loaded: bool,
    pub reason: Option<Reason>,
}

/// What a [`HeartbeatPost`] says.
pub struct PostView {
    pub model_id: Seq<char>,
    pub available: bool,
    pub model_loaded: bool,
    pub reason: Option<Reason>,
}

impl HeartbeatPost {
    /// What this post says.
    pub open spec fn view(&self) -> PostView {
        PostView {
            model_id: self.model_id@,
            available: self.available,
            model_loaded: self.model_loaded,
            reason: self.reason,
        }
    }

    /// The post with which the agent takes its model off the market as it stops.
    pub fn shutdown(model_id: &str) -> (post: HeartbeatPost)
        ensures
            post@ == (PostView {
                model_id: model_id@,
                available: false,
                model_loaded: false,
                reason: Some(Reason::Shutdown),
            }),
    {
        HeartbeatPost {
            model_id: model_id.to_owned(),
            available: false,
            model_loaded: false,
            reason: Some(Reason::Shutdown),
        }
    }
}

/// The document that a heartbeat sends.
pub open spec fn heartbeat_document(
    post: PostView,
    tunnel_healthy: bool,
    seq: u64,
    agent_version: Seq<char>,
    machine: MachineView,
) -> JsonView {
    JsonView::Object(
        Map::empty().insert("model_id"@, JsonView::Text(post.model_id)).insert(
            "available"@,
            JsonView::Bool(post.available),
        ).insert("model_loaded"@, JsonView::Bool(post.model_loaded)).insert(
            "tunnel_healthy"@,
            JsonView::Bool(tunnel_healthy),
        ).insert("seq"@, number(seq)).insert("agent_version"@, JsonView::Text(agent_version)).insert(
            "reason"@,
            text_or_null(
                match post.reason {
                    Some(reason) => Some(reason.code()),
                    None => None,
                },
            ),
        ).insert("machine_name"@, JsonView::Text(machine.name)).insert(
            "machine_model"@,
            JsonView::Text(machine.model),
        ).insert("machine_location"@, JsonView::Text(machine.location)),
    )
}

/// The call that sends a heartbeat.
pub open spec fn heartbeat_call_of(
    base: Seq<char>,
    config: ConfigView,
    document: JsonView,
) -> CallView {
    with_header(
        post_call(base + "/v1/devices/"@ + config.device_id + "/heartbeat"@, document),
        "X-DoodleIQ-Pairing-Token"@,
        config.pairing_token,
    )
}

/// A heartbeat reads back as it was written.
proof fn lemma_heartbeat_document_exact(
    post: PostView,
    tunnel_healthy: bool,
    seq: u64,
    agent_version: Seq<char>,
    machine: MachineView,
)
    ensures
        is_exact(heartbeat_document(post, tunnel_healthy, seq, agent_version, machine), 127),
{
    lemma_raw_key_length();
    reveal_strlit("model_id");
    reveal_strlit("available");
    reveal_strlit("model_loaded");
    reveal_strlit("tunnel_healthy");
    reveal_strlit("seq");
    reveal_strlit("agent_version");
    reveal_strlit("reason");
    reveal_strlit("machine_name");
    reveal_strlit("machine_model");
    reveal_strlit("machine_location");
    assert("model_id"@.len() < 30);
    assert("available"@.len() < 30);
    assert("model_loaded"@.len() < 30);
    assert("tunnel_healthy"@.len() < 30);
    assert("seq"@.len() < 30);
    assert("agent_version"@.len() < 30);
    assert("reason"@.len() < 30);
    assert("machine_name"@.len() < 30);
    assert("machine_model"@.len() < 30);
    assert("machine_location"@.len() < 30);
    let map = heartbeat_document(post, tunnel_healthy, seq, agent_version, machine)->Object_0;
    assert(!map.contains_key(raw_key()));
    assert forall|k: Seq<char>| #[trigger] map.contains_key(k) implies is_exact(map[k], 126) by {}
}

/// Why a heartbeat is not sent, where it is not: an unpaired machine sends none, and one whose
/// tunnel is down does not say that it is available.
pub open spec fn withheld(config: ConfigView, post: PostView, tunnel_running: bool) -> Option<
    Seq<char>,
> {
    if !config.paired() {
        Some("This desktop is not paired with a provider account"@)
    } else if post.available && !tunnel_running {
        Some("The managed Cloudflare tunnel is not running"@)
    } else {
        None
    }
}

/// The call that sends a heartbeat, numbered with the next number. One that is not sent takes no
/// number.
pub fn heartbeat_call(
    config: &RuntimeConfig,
    base: &str,
    post: &HeartbeatPost,
    tunnel_running: bool,
    agent_version: &str,
    machine: &MachineIdentity,
    health: &mut HeartbeatHealth,
) -> (call: Result<Call, String>)
    ensures
        match call {
            Ok(call) => {
                let document = heartbeat_document(
                    post@,
                    tunnel_running,
                    old(health)@.seq.wrapping_add(1),
                    agent_version@,
                    machine@,
                );
                &&& withheld(config@, post@, tunnel_running) is None
                &&& call@ == heartbeat_call_of(base@, config@, document)
                &&& json_parsed(call@.body->Some_0) == Some(document)
                &&& final(health)@ == with_next_seq(old(health)@)
            },
            Err(error) => {
                &&& withheld(config@, post@, tunnel_running) == Some(error@)
                &&& final(health)@ == old(health)@
            },
        },
{
    if !config.is_paired() {
        return Err("This desktop is not paired with a provider account".to_owned());
    }
    if post.available && !tunnel_running {
        return Err("The managed Cloudflare tunnel is not running".to_owned());
    }
    let seq: u64 = health.next_seq();
    let reason: Json = match &post.reason {
        Some(reason) => Json::text(reason.text()),
        None => Json::Null,
    };
    let mut entries: Vec<(String, Json)> = Vec::new();
    set_field(&mut entries, "model_id", Json::text(post.model_id.as_str()));
    set_field(&mut entries, "available", Json::Bool(post.available));
    set_field(&mut entries, "model_loaded", Json::Bool(post.model_loaded));
    set_field(&mut entries, "tunnel_healthy", Json::Bool(tunnel_running));
    set_field(&mut entries, "seq", Json::unsigned(seq));
    set_field(&mut entries, "agent_version", Json::text(agent_version));
    set_field(&mut entries, "reason", reason);
    set_field(&mut entries, "machine_name", Json::text(machine.name.as_str()));
    set_field(&mut entries, "machine_model", Json::text(machine.model.as_str()));
    set_field(&mut entries, "machine_location", Json::text(machine.location.as_str()));
    let mut url: String = base.to_owned();
    url.append("/v1/devices/");
    url.append(config.device_id.as_str());
    url.append("/heartbeat");
    proof {
        lemma_heartbeat_document_exact(post@, tunnel_running, seq, agent_version@, machine@);
    }
    let call: Call = Call::post(url, Json::Object(entries));
    Ok(call.with_header("X-DoodleIQ-Pairing-Token", config.pairing_token.as_str()))
}

/// Whether a status says that the control plane no longer knows the device.
pub open spec fn says_delisted(status: u16) -> bool {
    status == 401 || status == 404 || status == 410
}

/// The text of a heartbeat that the control plane refused.
pub open spec fn refusal_text(status: u16) -> Seq<char> {
    "Heartbeat service returned "@ + status_line(status)
}

/// The host name under which the control plane serves this machine: the one in its answer, or
/// the provider's own where the answer has none.
pub open spec fn serving_host(config: ConfigView, answer: Option<JsonView>) -> Seq<char> {
    let named = match answer {
        Some(answer) => match field(answer, "hostname"@) {
            Some(host) => text_of(host),
            None => None,
        },
        None => None,
    };
    match named {
        Some(host) => host,
        None => config.provider_id + ".doodleiq.com"@,
    }
}

/// What came of a heartbeat, given what came of its call. A heartbeat that was accepted is
/// delivered, whatever the answer says.
pub open spec fn outcome_of(config: ConfigView, reply: Reply<Json>) -> OutcomeView {
    match reply {
        Reply::Unreachable(err) => OutcomeView::Failed(
            "Unable to update provider availability: "@ + err@,
        ),
        Reply::Rejected { status, .. } => if says_delisted(status) {
            OutcomeView::Delisted(refusal_text(status))
        } else {
            OutcomeView::Failed(refusal_text(status))
        },
        Reply::Malformed(_) => OutcomeView::Delivered(serving_host(config, None)),
        Reply::Answered(answer) => OutcomeView::Delivered(
            serving_host(config, Some(answer.tree())),
        ),
    }
}

/// The host name of a provider whose answer names none.
fn provider_host(config: &RuntimeConfig) -> (host: String)
    ensures
        host@ == config@.provider_id + ".doodleiq.com"@,
{
    let mut host: String = config.provider_id.clone();
    host.append(".doodleiq.com");
    host
}

/// The digits of a number of three digits.
proof fn lemma_three_digits(n: nat)
    requires
        100 <= n <= 999,
    ensures
        decimal_text(n) == seq![
            digit((n / 100) as int),
            digit((n / 10 % 10) as int),
            digit((n % 10) as int),
        ],
{
    reveal_with_fuel(decimal_text, 4);
    assert(n / 10 / 10 == n / 100);
    assert(decimal_text(n) =~= seq![
        digit((n / 100) as int),
        digit((n / 10 % 10) as int),
        digit((n % 10) as int),
    ]);
}

/// A refused heartbeat is worth another try exactly where the status is one of a failing server
/// or asks to slow down.
proof fn lemma_transient_refusals(status: u16)
    requires
        100 <= status <= 999,
        status_reason(status) matches Some(reason) ==> is_phrase(reason),
    ensures
        is_transient(refusal_text(status)) <==> (status / 100 == 5 || status == 429),
{
    let text = refusal_text(status);
    let reason = match status_reason(status) {
        Some(reason) => reason,
        None => "<unknown status code>"@,
    };
    reveal_strlit("Heartbeat service returned ");
    reveal_strlit("<unknown status code>");
    reveal_strlit("Unable to update provider availability");
    reveal_strlit("returned 5");
    reveal_strlit("returned 429");
    reveal_strlit(" ");
    lemma_three_digits(status as nat);
    let prefix = "Heartbeat service returned "@;
    assert(prefix.len() == 27);
    assert(text.len() == 31 + reason.len());
    assert(reason.len() <= 31);
    assert(text[27] == digit((status / 100) as int));
    assert(text[28] == digit((status / 10 % 10) as int));
    assert(text[29] == digit((status % 10) as int));
    assert(forall|i: int| 0 <= i < 27 ==> #[trigger] text[i] == prefix[i]);
    assert(forall|i: int| 0 <= i < 27 ==> !('0' <= #[trigger] prefix[i] <= '9'));
    assert(forall|i: int| 31 <= i < text.len() ==> #[trigger] text[i] == reason[i - 31]);
    assert(forall|i: int| 0 <= i < reason.len() ==> !('0' <= #[trigger] reason[i] <= '9'));
    assert(text[30] == ' ');
    assert forall|i: int| 0 <= i < text.len() && !(27 <= i < 30) implies !('0' <= #[trigger] text[i]
        <= '9') by {
        if i >= 31 {
            assert(text[i] == reason[i - 31]);
        }
    }
    let unreachable = "Unable to update provider availability"@;
    assert(!contains_text(text, unreachable)) by {
        assert forall|at: int| !#[trigger] occurs_at(text, unreachable, at) by {
            if occurs_at(text, unreachable, at) {
                let part = text.subrange(at, at + unreachable.len());
                let i: int = if at <= 27 {
                    27
                } else {
                    at
                };
                assert(unreachable.len() == 38);
                assert(at < 30);
                assert(part[i - at] == text[i]);
                assert('0' <= text[i] <= '9');
                assert(forall|k: int|
                    0 <= k < 38 ==> !('0' <= #[trigger] unreachable[k] <= '9'));
            }
        }
    }
    let failing = "returned 5"@;
    assert forall|at: int| #[trigger] occurs_at(text, failing, at) implies status / 100 == 5 by {
        let part = text.subrange(at, at + failing.len());
        assert(part[9] == text[at + 9]);
        assert(part[8] == text[at + 8]);
        assert(failing[9] == '5' && failing[8] == ' ');
        assert(at + 9 == 27);
    }
    let slow_down = "returned 429"@;
    assert forall|at: int| #[trigger] occurs_at(text, slow_down, at) implies status == 429 by {
        let part = text.subrange(at, at + slow_down.len());
        assert(part[8] == text[at + 8]);
        assert(part[9] == text[at + 9]);
        assert(part[10] == text[at + 10]);
        assert(part[11] == text[at + 11]);
        assert(at + 9 == 27);
    }
    if status / 100 == 5 {
        assert(text.subrange(18, 28) =~= failing);
        assert(occurs_at(text, failing, 18));
    }
    if status == 429 {
        assert(text.subrange(18, 30) =~= slow_down);
        assert(occurs_at(text, slow_down, 18));
    }
}

/// What came of a heartbeat, given what came of its call.
///
/// One that did not reach the control plane is worth another try, and so is one that was refused
/// with a status of a failing server or the status that asks to slow down, and no other.
pub fn heartbeat_outcome(config: &RuntimeConfig, reply: Reply<Json>) -> (outcome: HeartbeatOutcome)
    ensures
        outcome@ == outcome_of(config@, reply),
        reply is Unreachable ==> is_transient(outcome@->Failed_0),
        reply matches Reply::Rejected { status, .. } ==> 100 <= status <= 999 ==> (is_transient(
            refusal_text(status),
        ) <==> (status / 100 == 5 || status == 429)),
{
    match reply {
        Reply::Unreachable(err) => {
            let mut text: String = "Unable to update provider availability: ".to_owned();
            text.append(err.as_str());
            proof {
                reveal_strlit("Unable to update provider availability: ");
                reveal_strlit("Unable to update provider availability");
                let sign = "Unable to update provider availability"@;
                assert(text@.subrange(0, sign.len() as int) =~= sign);
                assert(occurs_at(text@, sign, 0));
            }
            HeartbeatOutcome::Failed(text)
        },
        Reply::Rejected { status, detail: _ } => {
            let mut text: String = "Heartbeat service returned ".to_owned();
            text.append(status_text(status).as_str());
            proof {
                if 100 <= status <= 999 {
                    lemma_transient_refusals(status);
                }
            }
            if status == 401 || status == 404 || status == 410 {
                HeartbeatOutcome::Delisted(text)
            } else {
                HeartbeatOutcome::Failed(text)
            }
        },
        Reply::Malformed(_) => HeartbeatOutcome::Delivered(provider_host(config)),
        Reply::Answered(answer) => {
            let named: Option<&str> = match answer.get("hostname") {
                Some(host) => host.as_str(),
                None => None,
            };
            match named {
                Some(host) => HeartbeatOutcome::Delivered(host.to_owned()),
                None => HeartbeatOutcome::Delivered(provider_host(config)),
            }
        },
    }
}

// ---------------------------------------------------------------------------------------------
// What a heartbeat is for
// ---------------------------------------------------------------------------------------------

/// A heartbeat says what it was given: the model, whether it is available and loaded, whether the
/// tunnel is up, its number, the agent's version, the reason by its name or null, and the
/// machine's labels; and nothing else.
pub proof fn law_heartbeat_says_what_it_was_given(
    post: PostView,
    tunnel_healthy: bool,
    seq: u64,
    agent_version: Seq<char>,
    machine: MachineView,
)
    ensures
        heartbeat_document(post, tunnel_healthy, seq, agent_version, machine)
            matches JsonView::Object(map) && {
            &&& map.dom() == set![
                "model_id"@,
                "available"@,
                "model_loaded"@,
                "tunnel_healthy"@,
                "seq"@,
                "agent_version"@,
                "reason"@,
                "machine_name"@,
                "machine_model"@,
                "machine_location"@,
            ]
            &&& map["model_id"@] == JsonView::Text(post.model_id)
            &&& map["available"@] == JsonView::Bool(post.available)
            &&& map["model_loaded"@] == JsonView::Bool(post.model_loaded)
            &&& map["tunnel_healthy"@] == JsonView::Bool(tunnel_healthy)
            &&& map["seq"@] == JsonView::Number(JsonNumber::Unsigned(seq))
            &&& map["agent_version"@] == JsonView::Text(agent_version)
            &&& map["machine_name"@] == JsonView::Text(machine.name)
            &&& map["machine_model"@] == JsonView::Text(machine.model)
            &&& map["machine_location"@] == JsonView::Text(machine.location)
            &&& map["reason"@] == (match post.reason {
                None => JsonView::Null,
                Some(Reason::Shutdown) => JsonView::Text("shutdown"@),
                Some(Reason::ModelSwitch) => JsonView::Text("model_switch"@),
                Some(Reason::ModelReloading) => JsonView::Text("model_reloading"@),
                Some(Reason::ModelUnloaded) => JsonView::Text("model_unloaded"@),
            })
        },
{
    reveal_strlit("model_id");
    reveal_strlit("available");
    reveal_strlit("model_loaded");
    reveal_strlit("tunnel_healthy");
    reveal_strlit("seq");
    reveal_strlit("agent_version");
    reveal_strlit("reason");
    reveal_strlit("machine_name");
    reveal_strlit("machine_model");
    reveal_strlit("machine_location");
    assert("model_id"@.len() == 8);
    assert("available"@.len() == 9);
    assert("model_loaded"@.len() == 12 && "machine_name"@.len() == 12);
    assert("model_loaded"@[1] != "machine_name"@[1]);
    assert("tunnel_healthy"@.len() == 14);
    assert("seq"@.len() == 3);
    assert("agent_version"@.len() == 13 && "machine_model"@.len() == 13);
    assert("agent_version"@[0] != "machine_model"@[0]);
    assert("reason"@.len() == 6);
    assert("machine_location"@.len() == 16);
    assert(heartbeat_document(
        post,
        tunnel_healthy,
        seq,
        agent_version,
        machine,
    )->Object_0.dom() =~= set![
        "model_id"@,
        "available"@,
        "model_loaded"@,
        "tunnel_healthy"@,
        "seq"@,
        "agent_version"@,
        "reason"@,
        "machine_name"@,
        "machine_model"@,
        "machine_location"@,
    ]);
}

/// A heartbeat goes to this device's heartbeats, as a POST, with the pairing token.
pub proof fn law_heartbeat_call(base: Seq<char>, config: ConfigView, document: JsonView)
    ensures
        ({
            let call = heartbeat_call_of(base, config, document);
            &&& call.method == Method::Post
            &&& call.url == base + "/v1/devices/"@ + config.device_id + "/heartbeat"@
            &&& call.body == Some(json_text(document))
            &&& call.headers.len() == 2
            &&& call.headers[1] == ("X-DoodleIQ-Pairing-Token"@, config.pairing_token)
        }),
{
}

/// A heartbeat has arrived exactly where the control plane answered with a status of success; its
/// host name is the one that the answer names, or the provider's own. The machine is delisted
/// exactly where the status is 401, 404 or 410, and every other failure says what it was.
pub proof fn law_heartbeat_outcomes(
    config: ConfigView,
    payload: Json,
    map: Map<Seq<char>, JsonView>,
    host: Seq<char>,
    err: String,
    status: u16,
    detail: Option<String>,
)
    ensures
        payload.tree() == JsonView::Object(map) && map.contains_key("hostname"@)
            && map["hostname"@] == JsonView::Text(host) ==> outcome_of(
            config,
            Reply::Answered(payload),
        ) == OutcomeView::Delivered(host),
        !(payload.tree() is Object) || (payload.tree() == JsonView::Object(map) && (
        !map.contains_key("hostname"@) || !(map["hostname"@] is Text))) ==> outcome_of(
            config,
            Reply::Answered(payload),
        ) == OutcomeView::Delivered(config.provider_id + ".doodleiq.com"@),
        outcome_of(config, Reply::Malformed(err)) == OutcomeView::Delivered(
            config.provider_id + ".doodleiq.com"@,
        ),
        outcome_of(config, Reply::Unreachable(err)) == OutcomeView::Failed(
            "Unable to update provider availability: "@ + err@,
        ),
        status == 401 || status == 404 || status == 410 ==> outcome_of(
            config,
            Reply::Rejected { status, detail },
        ) == OutcomeView::Delisted("Heartbeat service returned "@ + status_line(status)),
        status != 401 && status != 404 && status != 410 ==> outcome_of(
            config,
            Reply::Rejected { status, detail },
        ) == OutcomeView::Failed("Heartbeat service returned "@ + status_line(status)),
{
}

/// A failed heartbeat is tried again where its error says that the control plane was not reached,
/// is failing or asks to slow down, and where it says none of these it is not.
pub proof fn law_transient_errors(head: Seq<char>, tail: Seq<char>, error: Seq<char>)
    ensures
        is_transient(head + "Unable to update provider availability"@ + tail),
        is_transient(head + "returned 5"@ + tail),
        is_transient(head + "returned 429"@ + tail),
        (forall|a: Seq<char>, b: Seq<char>|
            error != #[trigger] (a + "Unable to update provider availability"@ + b)) && (forall|
            a: Seq<char>,
            b: Seq<char>,
        |
            error != #[trigger] (a + "returned 5"@ + b)) && (forall|a: Seq<char>, b: Seq<char>|
            error != #[trigger] (a + "returned 429"@ + b)) ==> !is_transient(error),
{
    law_containing(head, "Unable to update provider availability"@, tail, error);
    law_containing(head, "returned 5"@, tail, error);
    law_containing(head, "returned 429"@, tail, error);
}

/// A failed heartbeat that is worth it is tried again after three seconds, and once more after
/// seven; nothing else is tried again.
pub proof fn law_retries(attempt: nat, error: Seq<char>, host: Seq<char>)
    ensures
        backoff(0) == Some(3u64),
        backoff(1) == Some(7u64),
        attempt >= 2 ==> backoff(attempt) is None,
        attempt < 2 && is_transient(error) ==> tries_again(attempt, OutcomeView::Failed(error)),
        !is_transient(error) ==> !tries_again(attempt, OutcomeView::Failed(error)),
        attempt >= 2 ==> !tries_again(attempt, OutcomeView::Failed(error)),
        !tries_again(attempt, OutcomeView::Delivered(host)),
        !tries_again(attempt, OutcomeView::Delisted(error)),
{
}

/// What is noted of a heartbeat: one that has arrived ends the failures and sets the time, one that
/// has failed or was answered by a delisting is one more failure with its error, and numbering one
/// changes nothing but the number.
pub proof fn law_noted_heartbeats(
    health: HealthView,
    now: u64,
    error: Seq<char>,
    host: Seq<char>,
)
    ensures
        ({
            let after = with_outcome(health, OutcomeView::Delivered(host), now);
            &&& after.last_ok_unix == now
            &&& after.consecutive_failures == 0
            &&& after.last_error is None
            &&& after.seq == health.seq
        }),
        with_outcome(health, OutcomeView::Delisted(error), now) == with_outcome(
            health,
            OutcomeView::Failed(error),
            now,
        ),
        ({
            let after = with_outcome(health, OutcomeView::Failed(error), now);
            &&& after.last_ok_unix == health.last_ok_unix
            &&& health.consecutive_failures < u32::MAX ==> after.consecutive_failures
                == health.consecutive_failures + 1
            &&& after.last_error == Some(error)
            &&& after.seq == health.seq
        }),
        ({
            let after = with_next_seq(health);
            &&& after.last_ok_unix == health.last_ok_unix
            &&& after.consecutive_failures == health.consecutive_failures
            &&& after.last_error == health.last_error
            &&& health.seq < u64::MAX ==> after.seq == health.seq + 1
        }),
        with_success(health, now) == with_outcome(health, OutcomeView::Delivered(host), now),
        with_failure(health, error) == with_outcome(health, OutcomeView::Failed(error), now),
        initial_health().last_ok_unix == 0,
        initial_health().consecutive_failures == 0,
        initial_health().seq == 0,
        initial_health().last_error is None,
{
}

/// The health is reported as it is: well where no heartbeat has failed since the last that
/// arrived, with the failures, the time of the last that arrived and the seconds since then, or
/// null where none has, and the last error or null.
pub proof fn law_health_is_reported(health: HealthView, now: u64)
    ensures
        health_document(health, now) matches JsonView::Object(map) && {
            &&& map.dom() == set![
                "ok"@,
                "consecutive_failures"@,
                "last_ok_unix"@,
                "seconds_since_last_ok"@,
                "last_error"@,
            ]
            &&& map["ok"@] == JsonView::Bool(health.consecutive_failures == 0)
            &&& map["consecutive_failures"@] == JsonView::Number(
                JsonNumber::Unsigned(health.consecutive_failures as u64),
            )
            &&& health.last_ok_unix == 0 ==> map["last_ok_unix"@] == JsonView::Null
                && map["seconds_since_last_ok"@] == JsonView::Null
            &&& health.last_ok_unix != 0 ==> map["last_ok_unix"@] == JsonView::Number(
                JsonNumber::Unsigned(health.last_ok_unix),
            )
            &&& health.last_ok_unix != 0 && now >= health.last_ok_unix
                ==> map["seconds_since_last_ok"@] == JsonView::Number(
                JsonNumber::Unsigned((now - health.last_ok_unix) as u64),
            )
            &&& health.last_ok_unix > now ==> map["seconds_since_last_ok"@] == JsonView::Number(
                JsonNumber::Unsigned(0),
            )
            &&& health.last_error matches Some(error) ==> map["last_error"@] == JsonView::Text(
                error,
            )
            &&& health.last_error is None ==> map["last_error"@] == JsonView::Null
        },
{
    reveal_strlit("ok");
    reveal_strlit("consecutive_failures");
    reveal_strlit("last_ok_unix");
    reveal_strlit("seconds_since_last_ok");
    reveal_strlit("last_error");
    assert("ok"@.len() == 2);
    assert("consecutive_failures"@.len() == 20);
    assert("last_ok_unix"@.len() == 12);
    assert("seconds_since_last_ok"@.len() == 21);
    assert("last_error"@.len() == 10);
    assert(health_document(health, now)->Object_0.dom() =~= set![
        "ok"@,
        "consecutive_failures"@,
        "last_ok_unix"@,
        "seconds_since_last_ok"@,
        "last_error"@,
    ]);
}

/// A number, a text that may be missing, and the seconds between two times are what they say.
pub proof fn law_small_values(n: u64, text: Seq<char>, now: u64, then: u64)
    ensures
        number(n) == JsonView::Number(JsonNumber::Unsigned(n)),
        text_or_null(Some(text)) == JsonView::Text(text),
        text_or_null(None) == JsonView::Null,
        now >= then ==> seconds_since(now, then) + then == now,
        now < then ==> seconds_since(now, then) == 0,
        PROVIDER_HEARTBEAT_INTERVAL_SECONDS == 30,
{
}

/// A heartbeat, its outcome and the health are taken for what they hold.
pub proof fn law_heartbeat_values(post: HeartbeatPost, health: HeartbeatHealth, text: String)
    ensures
        post@.model_id == post.model_id@,
        post@.available == post.available,
        post@.model_loaded == post.model_loaded,
        post@.reason == post.reason,
        health@.last_ok_unix == health.last_ok_unix,
        health@.consecutive_failures == health.consecutive_failures,
        health@.seq == health.seq,
        health.last_error matches Some(error) ==> health@.last_error == Some(error@),
        health.last_error is None ==> health@.last_error is None,
        HeartbeatOutcome::Delivered(text)@ == OutcomeView::Delivered(text@),
        HeartbeatOutcome::Failed(text)@ == OutcomeView::Failed(text@),
        HeartbeatOutcome::Delisted(text)@ == OutcomeView::Delisted(text@),
{
}

/// A heartbeat that failed in a way worth another try is tried again after three seconds, and then
/// after seven, and the health stays as it is meanwhile; any other, and the third failure, is
/// noted.
pub proof fn law_settling(
    health: HealthView,
    attempt: nat,
    error: Seq<char>,
    host: Seq<char>,
    now: u64,
)
    ensures
        is_transient(error) ==> settled(health, 0, OutcomeView::Failed(error), now) == (
            Some(3u64),
            health,
        ),
        is_transient(error) ==> settled(health, 1, OutcomeView::Failed(error), now) == (
            Some(7u64),
            health,
        ),
        !is_transient(error) || attempt >= 2 ==> settled(
            health,
            attempt,
            OutcomeView::Failed(error),
            now,
        ) == (None::<u64>, with_failure(health, error)),
        settled(health, attempt, OutcomeView::Delivered(host), now) == (
            None::<u64>,
            with_success(health, now),
        ),
        settled(health, attempt, OutcomeView::Delisted(error), now) == (
            None::<u64>,
            with_failure(health, error),
        ),
{
}

/// A heartbeat is sent wherever the machine is paired, unless it says that the machine is available
/// while its tunnel is down.
pub proof fn law_withheld_heartbeats(config: ConfigView, post: PostView, tunnel_running: bool)
    ensures
        ({
            let paired = config.device_id.len() > 0 && config.pairing_token.len() > 0;
            &&& !paired ==> withheld(config, post, tunnel_running) == Some(
                "This desktop is not paired with a provider account"@,
            )
            &&& paired && post.available && !tunnel_running ==> withheld(
                config,
                post,
                tunnel_running,
            ) == Some("The managed Cloudflare tunnel is not running"@)
            &&& paired && (tunnel_running || !post.available) ==> withheld(
                config,
                post,
                tunnel_running,
            ) is None
        }),
{
}

} // verus!
