//! The usage meter: what the consumer session at hand has cost, and whether there is one.

use vstd::prelude::*;
use crate::clock::unix_timestamp;
use crate::text::{held, same_text};
use crate::usage::TokenUsage;

verus! {

/// Counts the usage of the consumer session at hand. The counters wrap around at 64 bits.
pub struct UsageMeter {
    pub requests: u64,
    pub input_tokens: u64,
    pub output_tokens: u64,
    pub total_tokens: u64,
    pub last_consumer_activity: u64,
    pub consumer_expires_at: u64,
    pub consumer_connected_at: u64,
    pub active_grant_id: Option<String>,
    pub duration_ms: u64,
}

/// What a [`UsageMeter`] shows.
pub struct MeterView {
    pub requests: u64,
    pub input_tokens: u64,
    pub output_tokens: u64,
    pub total_tokens: u64,
    pub last_consumer_activity: u64,
    pub consumer_expires_at: u64,
    pub consumer_connected_at: u64,
    pub active_grant_id: Option<Seq<char>>,
    pub duration_ms: u64,
}

/// A reading of the meter.
#[derive(Debug, Clone, Copy, PartialEq, Eq, Structural)]
pub struct UsageSnapshot {
    pub requests: u64,
    pub input_tokens: u64,
    pub output_tokens: u64,
    pub total_tokens: u64,
    pub consumer_connected: bool,
    pub consumer_connected_seconds: u64,
    pub last_consumer_activity: u64,
    pub duration_ms: u64,
}

/// A meter that has counted nothing and knows no session.
pub open spec fn idle_meter() -> MeterView {
    MeterView {
        requests: 0,
        input_tokens: 0,
        output_tokens: 0,
        total_tokens: 0,
        last_consumer_activity: 0,
        consumer_expires_at: 0,
        consumer_connected_at: 0,
        active_grant_id: None,
        duration_ms: 0,
    }
}

/// A meter with its counters at zero.
pub open spec fn with_counters_reset(meter: MeterView) -> MeterView {
    MeterView {
        requests: 0,
        input_tokens: 0,
        output_tokens: 0,
        total_tokens: 0,
        duration_ms: 0,
        ..meter
    }
}

/// A meter that has counted one more request.
pub open spec fn with_recorded(meter: MeterView, usage: TokenUsage, duration_ms: u64) -> MeterView {
    MeterView {
        requests: meter.requests.wrapping_add(1),
        input_tokens: meter.input_tokens.wrapping_add(usage.input_tokens),
        output_tokens: meter.output_tokens.wrapping_add(usage.output_tokens),
        total_tokens: meter.total_tokens.wrapping_add(usage.total_tokens),
        duration_ms: meter.duration_ms.wrapping_add(duration_ms),
        ..meter
    }
}

/// A meter that has seen the consumer of `grant_id` at the time `now`. A grant that is not the
/// active one starts a new session, whose counters start at zero.
pub open spec fn with_activity(
    meter: MeterView,
    grant_id: Seq<char>,
    expires_at: u64,
    started_at: u64,
    now: u64,
) -> MeterView {
    let session = if meter.active_grant_id == Some(grant_id) {
        meter
    } else {
        with_counters_reset(meter)
    };
    MeterView {
        active_grant_id: Some(grant_id),
        last_consumer_activity: now,
        consumer_expires_at: expires_at,
        consumer_connected_at: started_at,
        ..session
    }
}

/// A meter after the consumer of `grant_id` has left. Where that grant is not the active one,
/// nothing changes; the counters never do.
pub open spec fn with_disconnect(meter: MeterView, grant_id: Seq<char>) -> MeterView {
    if meter.active_grant_id == Some(grant_id) {
        MeterView {
            active_grant_id: None,
            last_consumer_activity: 0,
            consumer_expires_at: 0,
            consumer_connected_at: 0,
            ..meter
        }
    } else {
        meter
    }
}

/// What the meter reads at the time `now`: a consumer is connected until its grant expires.
pub open spec fn snapshot_of(meter: MeterView, now: u64) -> UsageSnapshot {
    UsageSnapshot {
        requests: meter.requests,
        input_tokens: meter.input_tokens,
        output_tokens: meter.output_tokens,
        total_tokens: meter.total_tokens,
        consumer_connected: meter.consumer_expires_at > now,
        consumer_connected_seconds: if now >= meter.consumer_connected_at {
            (now - meter.consumer_connected_at) as u64
        } else {
            0
        },
        last_consumer_activity: meter.last_consumer_activity,
        duration_ms: meter.duration_ms,
    }
}

impl Default for UsageMeter {
    /// A meter that has counted nothing and knows no session.
    fn default() -> (meter: Self)
        ensures
            meter@ == idle_meter(),
    {
        UsageMeter {
            requests: 0,
            input_tokens: 0,
            output_tokens: 0,
            total_tokens: 0,
            last_consumer_activity: 0,
            consumer_expires_at: 0,
            consumer_connected_at: 0,
            active_grant_id: None,
            duration_ms: 0,
        }
    }
}

impl UsageMeter {
    /// What this meter shows.
    pub open spec fn view(&self) -> MeterView {
        MeterView {
            requests: self.requests,
            input_tokens: self.input_tokens,
            output_tokens: self.output_tokens,
            total_tokens: self.total_tokens,
            last_consumer_activity: self.last_consumer_activity,
            consumer_expires_at: self.consumer_expires_at,
            consumer_connected_at: self.consumer_connected_at,
            active_grant_id: held(self.active_grant_id),
            duration_ms: self.duration_ms,
        }
    }

    /// Sets the counters to zero and leaves the session as it is.
    pub fn reset_counters(&mut self)
        ensures
            final(self)@ == with_counters_reset(old(self)@),
    {
        self.requests = 0;
        self.input_tokens = 0;
        self.output_tokens = 0;
        self.total_tokens = 0;
        self.duration_ms = 0;
    }

    /// Counts one request, its tokens and its duration.
    pub fn record(&mut self, usage: TokenUsage, duration_ms: u64)
        ensures
            final(self)@ == with_recorded(old(self)@, usage, duration_ms),
    {
        self.requests = self.requests.wrapping_add(1);
        self.input_tokens = self.input_tokens.wrapping_add(usage.input_tokens);
        self.output_tokens = self.output_tokens.wrapping_add(usage.output_tokens);
        self.total_tokens = self.total_tokens.wrapping_add(usage.total_tokens);
        self.duration_ms = self.duration_ms.wrapping_add(duration_ms);
    }

    /// The meter's reading at the time `now`.
    pub fn snapshot_at(&self, now: u64) -> (snapshot: UsageSnapshot)
        ensures
            snapshot == snapshot_of(self@, now),
    {
        UsageSnapshot {
            requests: self.requests,
            input_tokens: self.input_tokens,
            output_tokens: self.output_tokens,
            total_tokens: self.total_tokens,
            consumer_connected: self.consumer_expires_at > now,
            consumer_connected_seconds: now.saturating_sub(self.consumer_connected_at),
            last_consumer_activity: self.last_consumer_activity,
            duration_ms: self.duration_ms,
        }
    }

    /// The meter's reading at the time that the clock gives.
    pub fn snapshot(&self) -> (snapshot: UsageSnapshot)
        ensures
            exists|now: u64| snapshot == #[trigger] snapshot_of(self@, now),
    {
        let now: u64 = unix_timestamp();
        self.snapshot_at(now)
    }

    /// Whether `grant_id` is the grant of the active session.
    pub fn is_connected(&self, grant_id: &str) -> (connected: bool)
        ensures
            connected == (self@.active_grant_id == Some(grant_id@)),
    {
        match &self.active_grant_id {
            Some(active) => same_text(active.as_str(), grant_id),
            None => false,
        }
    }

    /// Notes that the consumer of `grant_id` was active at the time `now`.
    pub fn note_consumer_activity_at(
        &mut self,
        grant_id: &str,
        expires_at: u64,
        started_at: u64,
        now: u64,
    )
        ensures
            final(self)@ == with_activity(old(self)@, grant_id@, expires_at, started_at, now),
    {
        if !self.is_connected(grant_id) {
            self.reset_counters();
        }
        self.active_grant_id = Some(grant_id.to_owned());
        self.last_consumer_activity = now;
        self.consumer_expires_at = expires_at;
        self.consumer_connected_at = started_at;
    }

    /// Notes that the consumer of `grant_id` is active at the time that the clock gives.
    pub fn note_consumer_activity(&mut self, grant_id: &str, expires_at: u64, started_at: u64)
        ensures
            exists|now: u64|
                final(self)@ == #[trigger] with_activity(
                    old(self)@,
                    grant_id@,
                    expires_at,
                    started_at,
                    now,
                ),
    {
        let now: u64 = unix_timestamp();
        self.note_consumer_activity_at(grant_id, expires_at, started_at, now);
    }

    /// Ends the session of `grant_id`, when it is the active one, and says whether it was.
    pub fn disconnect(&mut self, grant_id: &str) -> (disconnected: bool)
        ensures
            disconnected == (old(self)@.active_grant_id == Some(grant_id@)),
            final(self)@ == with_disconnect(old(self)@, grant_id@),
    {
        if !self.is_connected(grant_id) {
            return false;
        }
        self.active_grant_id = None;
        self.last_consumer_activity = 0;
        self.consumer_expires_at = 0;
        self.consumer_connected_at = 0;
        true
    }
}

/// The output tokens of a reading and the milliseconds that they took, when any time was counted.
pub open spec fn rate_terms(reading: UsageSnapshot) -> Option<(u64, u64)> {
    if reading.duration_ms > 0 {
        Some((reading.output_tokens, reading.duration_ms))
    } else {
        None
    }
}

impl UsageSnapshot {
    /// The output tokens and the milliseconds that they took, when any time was counted.
    pub fn throughput(&self) -> (terms: Option<(u64, u64)>)
        ensures
            terms == rate_terms(*self),
    {
        if self.duration_ms > 0 {
            Some((self.output_tokens, self.duration_ms))
        } else {
            None
        }
    }
}

// ---------------------------------------------------------------------------------------------
// What holds of every meter
// ---------------------------------------------------------------------------------------------

/// A meter after a run of requests.
pub open spec fn with_all_recorded(meter: MeterView, costs: Seq<(TokenUsage, u64)>) -> MeterView
    decreases costs.len(),
{
    if costs.len() == 0 {
        meter
    } else {
        with_recorded(with_all_recorded(meter, costs.drop_last()), costs.last().0, costs.last().1)
    }
}

/// The sum of a count over a run of requests.
pub open spec fn sum_of(costs: Seq<(TokenUsage, u64)>, count: spec_fn((TokenUsage, u64)) -> u64) -> nat
    decreases costs.len(),
{
    if costs.len() == 0 {
        0
    } else {
        sum_of(costs.drop_last(), count) + count(costs.last()) as nat
    }
}

/// A meter shows the session that it last saw active: the grant is connected, and every other
/// grant is not.
pub proof fn law_activity_connects(
    meter: MeterView,
    grant_id: Seq<char>,
    expires_at: u64,
    started_at: u64,
    now: u64,
)
    ensures
        ({
            let after = with_activity(meter, grant_id, expires_at, started_at, now);
            &&& after.active_grant_id == Some(grant_id)
            &&& forall|at: u64|
                #[trigger] snapshot_of(after, at).consumer_connected == (expires_at > at)
            &&& snapshot_of(after, now).last_consumer_activity == now
        }),
{
}

/// A session's counters start at zero with its first activity, and further activity of the same
/// grant keeps them.
pub proof fn law_session_counters(
    meter: MeterView,
    grant_id: Seq<char>,
    expires_at: u64,
    started_at: u64,
    now: u64,
)
    ensures
        ({
            let after = with_activity(meter, grant_id, expires_at, started_at, now);
            if meter.active_grant_id == Some(grant_id) {
                &&& after.requests == meter.requests
                &&& after.input_tokens == meter.input_tokens
                &&& after.output_tokens == meter.output_tokens
                &&& after.total_tokens == meter.total_tokens
                &&& after.duration_ms == meter.duration_ms
            } else {
                &&& after.requests == 0
                &&& after.input_tokens == 0
                &&& after.output_tokens == 0
                &&& after.total_tokens == 0
                &&& after.duration_ms == 0
            }
        }),
{
}

/// Disconnecting a grant touches the session of that grant alone: another session stays as it
/// is, the session itself shows as disconnected from then on, and its counters stay readable.
pub proof fn law_disconnect_is_selective(meter: MeterView, grant_id: Seq<char>)
    ensures
        meter.active_grant_id != Some(grant_id) ==> with_disconnect(meter, grant_id) == meter,
        meter.active_grant_id == Some(grant_id) ==> {
            let after = with_disconnect(meter, grant_id);
            &&& after.active_grant_id is None
            &&& forall|at: u64| !(#[trigger] snapshot_of(after, at)).consumer_connected
            &&& with_counters_reset(after) == with_counters_reset(
                MeterView {
                    active_grant_id: None,
                    last_consumer_activity: 0,
                    consumer_expires_at: 0,
                    consumer_connected_at: 0,
                    ..meter
                },
            )
            &&& after.requests == meter.requests
            &&& after.input_tokens == meter.input_tokens
            &&& after.output_tokens == meter.output_tokens
            &&& after.total_tokens == meter.total_tokens
            &&& after.duration_ms == meter.duration_ms
        },
        with_disconnect(with_disconnect(meter, grant_id), grant_id) == with_disconnect(
            meter,
            grant_id,
        ),
{
}

/// Over a run of requests a meter counts the requests and the sums of their tokens and durations,
/// as long as the sums fit in 64 bits, and leaves the session as it is.
pub proof fn law_meter_sums(meter: MeterView, costs: Seq<(TokenUsage, u64)>)
    requires
        meter.requests + costs.len() <= u64::MAX,
        meter.input_tokens + sum_of(costs, |c: (TokenUsage, u64)| c.0.input_tokens) <= u64::MAX,
        meter.output_tokens + sum_of(costs, |c: (TokenUsage, u64)| c.0.output_tokens) <= u64::MAX,
        meter.total_tokens + sum_of(costs, |c: (TokenUsage, u64)| c.0.total_tokens) <= u64::MAX,
        meter.duration_ms + sum_of(costs, |c: (TokenUsage, u64)| c.1) <= u64::MAX,
    ensures
        ({
            let after = with_all_recorded(meter, costs);
            &&& after.requests == meter.requests + costs.len()
            &&& after.input_tokens == meter.input_tokens + sum_of(
                costs,
                |c: (TokenUsage, u64)| c.0.input_tokens,
            )
            &&& after.output_tokens == meter.output_tokens + sum_of(
                costs,
                |c: (TokenUsage, u64)| c.0.output_tokens,
            )
            &&& after.total_tokens == meter.total_tokens + sum_of(
                costs,
                |c: (TokenUsage, u64)| c.0.total_tokens,
            )
            &&& after.duration_ms == meter.duration_ms + sum_of(costs, |c: (TokenUsage, u64)| c.1)
            &&& after.active_grant_id == meter.active_grant_id
            &&& after.consumer_expires_at == meter.consumer_expires_at
            &&& after.consumer_connected_at == meter.consumer_connected_at
            &&& after.last_consumer_activity == meter.last_consumer_activity
        }),
    decreases costs.len(),
{
    if costs.len() > 0 {
        law_meter_sums(meter, costs.drop_last());
    }
}

// ---------------------------------------------------------------------------------------------
// The terminal's usage line
// ---------------------------------------------------------------------------------------------

/// What the terminal shows next.
#[derive(Debug, Clone, Copy, PartialEq, Eq, Structural)]
pub enum TerminalUpdate {
    /// Repaint the usage line.
    ShowUsage,
    /// Say that the consumer has left.
    AnnounceDisconnect,
    /// Nothing.
    Nothing,
}

/// What the terminal shows next, given whether it last showed a consumer and whether one is
/// connected now.
pub fn terminal_update(was_connected: bool, connected: bool) -> (update: TerminalUpdate)
    ensures
        update is ShowUsage <==> connected,
        update is AnnounceDisconnect <==> (was_connected && !connected),
{
    if connected {
        TerminalUpdate::ShowUsage
    } else if was_connected {
        TerminalUpdate::AnnounceDisconnect
    } else {
        TerminalUpdate::Nothing
    }
}

// ---------------------------------------------------------------------------------------------
// What the meter shows
// ---------------------------------------------------------------------------------------------

/// A reading shows the counters as they are, the consumer as connected until its grant expires,
/// and the seconds since its session started.
pub proof fn law_reading(meter: MeterView, now: u64)
    ensures
        ({
            let read = snapshot_of(meter, now);
            &&& read.requests == meter.requests
            &&& read.input_tokens == meter.input_tokens
            &&& read.output_tokens == meter.output_tokens
            &&& read.total_tokens == meter.total_tokens
            &&& read.duration_ms == meter.duration_ms
            &&& read.last_consumer_activity == meter.last_consumer_activity
            &&& read.consumer_connected <==> now < meter.consumer_expires_at
            &&& now >= meter.consumer_connected_at ==> read.consumer_connected_seconds
                + meter.consumer_connected_at == now
            &&& now < meter.consumer_connected_at ==> read.consumer_connected_seconds == 0
        }),
{
}

/// A request adds one to the requests, its tokens to the tokens and its duration to the duration,
/// around the end of 64 bits, and changes nothing of the session.
pub proof fn law_counting(meter: MeterView, usage: TokenUsage, duration_ms: u64)
    ensures
        ({
            let after = with_recorded(meter, usage, duration_ms);
            let end = u64::MAX + 1;
            &&& after.requests == (meter.requests + 1) % end
            &&& after.input_tokens == (meter.input_tokens + usage.input_tokens) % end
            &&& after.output_tokens == (meter.output_tokens + usage.output_tokens) % end
            &&& after.total_tokens == (meter.total_tokens + usage.total_tokens) % end
            &&& after.duration_ms == (meter.duration_ms + duration_ms) % end
            &&& after.active_grant_id == meter.active_grant_id
            &&& after.consumer_expires_at == meter.consumer_expires_at
            &&& after.consumer_connected_at == meter.consumer_connected_at
            &&& after.last_consumer_activity == meter.last_consumer_activity
        }),
{
}

/// Activity is noted with the grant and the times that it is given, and leaving forgets them all;
/// where another grant is the active one, leaving changes nothing.
pub proof fn law_sessions(
    meter: MeterView,
    grant_id: Seq<char>,
    expires_at: u64,
    started_at: u64,
    now: u64,
)
    ensures
        ({
            let after = with_activity(meter, grant_id, expires_at, started_at, now);
            &&& after.active_grant_id == Some(grant_id)
            &&& after.consumer_expires_at == expires_at
            &&& after.consumer_connected_at == started_at
            &&& after.last_consumer_activity == now
        }),
        meter.active_grant_id == Some(grant_id) ==> {
            let after = with_disconnect(meter, grant_id);
            &&& after.active_grant_id is None
            &&& after.consumer_expires_at == 0
            &&& after.consumer_connected_at == 0
            &&& after.last_consumer_activity == 0
        },
        meter.active_grant_id != Some(grant_id) ==> with_disconnect(meter, grant_id) == meter,
{
}

/// Setting the counters to zero leaves the session as it is, and a new meter has counted nothing
/// and knows no session.
pub proof fn law_zeroes(meter: MeterView)
    ensures
        ({
            let after = with_counters_reset(meter);
            &&& after.requests == 0
            &&& after.input_tokens == 0
            &&& after.output_tokens == 0
            &&& after.total_tokens == 0
            &&& after.duration_ms == 0
            &&& after.active_grant_id == meter.active_grant_id
            &&& after.consumer_expires_at == meter.consumer_expires_at
            &&& after.consumer_connected_at == meter.consumer_connected_at
            &&& after.last_consumer_activity == meter.last_consumer_activity
        }),
        with_counters_reset(idle_meter()) == idle_meter(),
        idle_meter().active_grant_id is None,
        idle_meter().consumer_expires_at == 0,
        idle_meter().consumer_connected_at == 0,
        idle_meter().last_consumer_activity == 0,
{
}

/// A meter is taken for what it holds.
pub proof fn law_meters(meter: UsageMeter)
    ensures
        meter@.requests == meter.requests,
        meter@.input_tokens == meter.input_tokens,
        meter@.output_tokens == meter.output_tokens,
        meter@.total_tokens == meter.total_tokens,
        meter@.duration_ms == meter.duration_ms,
        meter@.last_consumer_activity == meter.last_consumer_activity,
        meter@.consumer_expires_at == meter.consumer_expires_at,
        meter@.consumer_connected_at == meter.consumer_connected_at,
        meter.active_grant_id matches Some(grant_id) ==> meter@.active_grant_id == Some(grant_id@),
        meter.active_grant_id is None ==> meter@.active_grant_id is None,
{
}

/// The rate is that of the output tokens over the milliseconds counted, where any were.
pub proof fn law_rate(reading: UsageSnapshot)
    ensures
        reading.duration_ms > 0 ==> rate_terms(reading) == Some(
            (reading.output_tokens, reading.duration_ms),
        ),
        reading.duration_ms == 0 ==> rate_terms(reading) is None,
{
}

} // verus!
