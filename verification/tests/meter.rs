use doodleiq::clock::{seconds_of, unix_timestamp};
use doodleiq::meter::{terminal_update, TerminalUpdate, UsageMeter, UsageSnapshot};
use doodleiq::usage::TokenUsage;

fn tokens_per_second(snapshot: &UsageSnapshot) -> f64 {
    match snapshot.throughput() {
        Some((tokens, milliseconds)) => tokens as f64 * 1000.0 / milliseconds as f64,
        None => 0.0,
    }
}

fn usage(input_tokens: u64, output_tokens: u64, total_tokens: u64) -> TokenUsage {
    TokenUsage { input_tokens, output_tokens, total_tokens }
}

#[test]
fn disconnects_only_the_matching_consumer_session() {
    let mut meter = UsageMeter::default();
    meter.note_consumer_activity("current-grant", unix_timestamp() + 300, unix_timestamp());
    meter.record(
        TokenUsage {
            input_tokens: 10,
            output_tokens: 5,
            total_tokens: 15,
        },
        100,
    );

    assert!(!meter.disconnect("different-grant"));
    let connected = meter.snapshot();
    assert!(connected.consumer_connected);
    assert_eq!(connected.total_tokens, 15);
    assert!(meter.disconnect("current-grant"));
    let disconnected = meter.snapshot();
    assert!(!disconnected.consumer_connected);
    assert_eq!(disconnected.requests, 1);
    assert_eq!(disconnected.input_tokens, 10);
    assert_eq!(disconnected.output_tokens, 5);
    assert_eq!(disconnected.total_tokens, 15);
    assert_eq!(disconnected.last_consumer_activity, 0);
    assert_eq!(tokens_per_second(&disconnected), 50.0);

    meter.note_consumer_activity("next-grant", unix_timestamp() + 300, unix_timestamp());
    let next_session = meter.snapshot();
    assert!(next_session.consumer_connected);
    assert_eq!(next_session.requests, 0);
    assert_eq!(next_session.total_tokens, 0);
}

#[test]
fn a_new_meter_is_idle() {
    let meter = UsageMeter::default();
    let snapshot = meter.snapshot_at(1000);
    assert_eq!(
        snapshot,
        UsageSnapshot {
            requests: 0,
            input_tokens: 0,
            output_tokens: 0,
            total_tokens: 0,
            consumer_connected: false,
            consumer_connected_seconds: 1000,
            last_consumer_activity: 0,
            duration_ms: 0,
        }
    );
    assert_eq!(snapshot.throughput(), None);
    assert_eq!(tokens_per_second(&snapshot), 0.0);
}

#[test]
fn a_session_lasts_until_its_grant_expires() {
    let mut meter = UsageMeter::default();
    meter.note_consumer_activity_at("g", 2000, 1000, 1500);
    assert!(meter.is_connected("g"));
    assert!(!meter.is_connected("h"));
    assert!(meter.snapshot_at(1999).consumer_connected);
    assert!(!meter.snapshot_at(2000).consumer_connected);
    assert_eq!(meter.snapshot_at(1600).consumer_connected_seconds, 600);
    assert_eq!(meter.snapshot_at(900).consumer_connected_seconds, 0);
    assert_eq!(meter.snapshot_at(1600).last_consumer_activity, 1500);
}

#[test]
fn a_session_keeps_its_counters_and_a_new_one_starts_over() {
    let mut meter = UsageMeter::default();
    meter.note_consumer_activity_at("g", 2000, 1000, 1500);
    meter.record(usage(1, 2, 3), 10);
    meter.note_consumer_activity_at("g", 2500, 1000, 1600);
    assert_eq!(meter.requests, 1);
    assert_eq!(meter.consumer_expires_at, 2500);
    meter.note_consumer_activity_at("h", 3000, 1700, 1700);
    assert_eq!(meter.requests, 0);
    assert_eq!(meter.duration_ms, 0);
    assert!(meter.is_connected("h"));
    assert!(!meter.is_connected("g"));
}

#[test]
fn a_meter_sums() {
    let mut meter = UsageMeter::default();
    meter.record(usage(1, 2, 3), 10);
    meter.record(usage(10, 20, 30), 100);
    meter.record(usage(100, 200, 300), 1000);
    let snapshot = meter.snapshot_at(0);
    assert_eq!(
        (snapshot.requests, snapshot.input_tokens, snapshot.output_tokens, snapshot.total_tokens),
        (3, 111, 222, 333)
    );
    assert_eq!(snapshot.throughput(), Some((222, 1110)));
    assert_eq!(tokens_per_second(&snapshot), 200.0);
    meter.reset_counters();
    assert_eq!(meter.snapshot_at(0).throughput(), None);
}

#[test]
fn counters_wrap_around() {
    let mut meter = UsageMeter::default();
    meter.record(usage(u64::MAX, 1, 1), 1);
    meter.record(usage(2, 1, 1), 1);
    assert_eq!(meter.input_tokens, 1);
}

#[test]
fn disconnecting_twice_changes_nothing_more() {
    let mut meter = UsageMeter::default();
    meter.note_consumer_activity_at("g", 2000, 1000, 1500);
    assert!(meter.disconnect("g"));
    assert!(!meter.disconnect("g"));
    assert!(!meter.snapshot_at(0).consumer_connected);
}

#[test]
fn the_terminal_follows_the_session() {
    assert_eq!(terminal_update(false, true), TerminalUpdate::ShowUsage);
    assert_eq!(terminal_update(true, true), TerminalUpdate::ShowUsage);
    assert_eq!(terminal_update(true, false), TerminalUpdate::AnnounceDisconnect);
    assert_eq!(terminal_update(false, false), TerminalUpdate::Nothing);
}

#[test]
fn the_clock_counts_seconds() {
    assert_eq!(seconds_of(&Ok(1_999_999_999)), 1);
    assert_eq!(seconds_of(&Err("before the epoch".to_string())), 0);
    // Later than the year 2001, and two readings are in order.
    let first = unix_timestamp();
    assert!(first > 1_000_000_000);
    assert!(unix_timestamp() >= first);
}
