//! What the agent reports of itself: to the operator, and to whoever asks the gateway.

use vstd::prelude::*;
use crate::config::{ConfigView, RuntimeConfig};
use crate::heartbeat::{health_document, number, seconds_since, HealthView, HeartbeatHealth};
use crate::http::{AnswerView, Call, GatewayAnswer};
use crate::json::{json_text, number_content, set_field, Json, JsonNumber, JsonView};
use crate::meter::UsageSnapshot;
use crate::models::{discovery_call, models_call, texts};
use crate::text::{decimal, decimal_text, held};
use crate::tunnel::CloudflaredStatus;

verus! {

/// What is told to the operator about the heartbeats.
#[derive(Debug)]
pub enum Notice {
    /// They are failing.
    Failing(String),
    /// They arrive again.
    Recovered,
}

/// What a [`Notice`] says.
pub enum NoticeView {
    Failing(Seq<char>),
    Recovered,
}

/// How a warning says when the last heartbeat arrived.
pub open spec fn last_heard(health: HealthView, now: u64) -> Seq<char> {
    if health.last_ok_unix == 0 {
        "never"@
    } else {
        decimal_text(seconds_since(now, health.last_ok_unix) as nat) + "s ago"@
    }
}

/// The warning that heartbeats are failing.
pub open spec fn warning_of(health: HealthView, now: u64) -> Seq<char> {
    "control-plane heartbeat failing ("@ + decimal_text(health.consecutive_failures as nat)
        + " in a row; last ok "@ + last_heard(health, now)
        + "). The marketplace listing may drop if this continues."@
}

/// What is told to the operator at the time `now`, given whether there was a warning: a warning
/// after two failures in a row, once, and that the heartbeats arrive again after a warning.
pub open spec fn notice_of(health: HealthView, warned: bool, now: u64) -> Option<NoticeView> {
    if health.consecutive_failures >= 2 && !warned {
        Some(NoticeView::Failing(warning_of(health, now)))
    } else if health.consecutive_failures == 0 && warned {
        Some(NoticeView::Recovered)
    } else {
        None
    }
}

/// Whether there was a warning that still stands, after a notice.
pub open spec fn warned_after(warned: bool, notice: Option<NoticeView>) -> bool {
    match notice {
        Some(NoticeView::Failing(_)) => true,
        Some(NoticeView::Recovered) => false,
        None => warned,
    }
}

/// What a notice that may be given says.
pub open spec fn noticed(notice: Option<Notice>) -> Option<NoticeView> {
    match notice {
        Some(Notice::Failing(text)) => Some(NoticeView::Failing(text@)),
        Some(Notice::Recovered) => Some(NoticeView::Recovered),
        None => None,
    }
}

/// What is told to the operator at the time `now`, and whether a warning stands afterwards.
pub fn warn_on_heartbeat_health(health: &HeartbeatHealth, warned: bool, now: u64) -> (next: (
    Option<Notice>,
    bool,
))
    ensures
        noticed(next.0) == notice_of(health@, warned, now),
        next.1 == warned_after(warned, notice_of(health@, warned, now)),
{
    let failures: u32 = health.consecutive_failures;
    if failures >= 2 && !warned {
        let mut text: String = "control-plane heartbeat failing (".to_owned();
        text.append(decimal(failures as u128).as_str());
        text.append(" in a row; last ok ");
        if health.last_ok_unix == 0 {
            text.append("never");
        } else {
            text.append(decimal(now.saturating_sub(health.last_ok_unix) as u128).as_str());
            text.append("s ago");
        }
        text.append("). The marketplace listing may drop if this continues.");
        proof {
            assert(text@ =~= warning_of(health@, now));
        }
        (Some(Notice::Failing(text)), true)
    } else if failures == 0 && warned {
        (Some(Notice::Recovered), false)
    } else {
        (None, warned)
    }
}

/// Warnings and their ends take turns: after a warning the next notice is that the heartbeats
/// arrive again, and after that the next is a warning.
pub proof fn law_notices_alternate(health: HealthView, warned: bool, now: u64)
    ensures
        notice_of(health, warned, now) matches Some(NoticeView::Failing(_)) ==> !warned
            && warned_after(warned, notice_of(health, warned, now)),
        notice_of(health, warned, now) == Some(NoticeView::Recovered) ==> warned && !warned_after(
            warned,
            notice_of(health, warned, now),
        ),
{
}

/// The document that reports the usage, with a rate of tokens.
pub open spec fn usage_document(usage: UsageSnapshot, rate: serde_json::Number) -> JsonView {
    JsonView::Object(
        Map::empty().insert("requests"@, number(usage.requests)).insert(
            "input_tokens"@,
            number(usage.input_tokens),
        ).insert("output_tokens"@, number(usage.output_tokens)).insert(
            "total_tokens"@,
            number(usage.total_tokens),
        ).insert("consumer_connected"@, JsonView::Bool(usage.consumer_connected)).insert(
            "consumer_connected_seconds"@,
            number(usage.consumer_connected_seconds),
        ).insert("last_consumer_activity"@, number(usage.last_consumer_activity)).insert(
            "tokens_per_second"@,
            JsonView::Number(number_content(rate)),
        ),
    )
}

/// The document that reports the agent's state.
pub open spec fn state_document(
    config: ConfigView,
    usage: UsageSnapshot,
    rate: serde_json::Number,
    health: HealthView,
    now: u64,
) -> JsonView {
    JsonView::Object(
        Map::empty().insert("status"@, JsonView::Text("ok"@)).insert(
            "configured"@,
            JsonView::Bool(config.configured()),
        ).insert("paired"@, JsonView::Bool(config.paired())).insert(
            "usage"@,
            usage_document(usage, rate),
        ).insert("heartbeat"@, health_document(health, now)),
    )
}

/// The answer that reports the agent's state at the time `now`.
pub fn health(
    config: &RuntimeConfig,
    usage: &UsageSnapshot,
    rate: serde_json::Number,
    heartbeat: &HeartbeatHealth,
    now: u64,
) -> (answer: GatewayAnswer)
    ensures
        answer@ == (AnswerView {
            status: 200,
            body: json_text(state_document(config@, *usage, rate, heartbeat@, now)),
        }),
{
    let mut counts: Vec<(String, Json)> = Vec::new();
    set_field(&mut counts, "requests", Json::unsigned(usage.requests));
    set_field(&mut counts, "input_tokens", Json::unsigned(usage.input_tokens));
    set_field(&mut counts, "output_tokens", Json::unsigned(usage.output_tokens));
    set_field(&mut counts, "total_tokens", Json::unsigned(usage.total_tokens));
    set_field(&mut counts, "consumer_connected", Json::Bool(usage.consumer_connected));
    set_field(
        &mut counts,
        "consumer_connected_seconds",
        Json::unsigned(usage.consumer_connected_seconds),
    );
    set_field(
        &mut counts,
        "last_consumer_activity",
        Json::unsigned(usage.last_consumer_activity),
    );
    set_field(&mut counts, "tokens_per_second", Json::Number(JsonNumber::Carried(rate)));
    let mut entries: Vec<(String, Json)> = Vec::new();
    set_field(&mut entries, "status", Json::text("ok"));
    set_field(&mut entries, "configured", Json::Bool(config.is_configured()));
    set_field(&mut entries, "paired", Json::Bool(config.is_paired()));
    set_field(&mut entries, "usage", Json::Object(counts));
    set_field(&mut entries, "heartbeat", heartbeat.snapshot_at(now));
    GatewayAnswer { status: 200, body: Json::Object(entries).into_bytes() }
}

/// The call with which the status asks the runtime for its model, where one is configured.
pub fn status_call(config: &RuntimeConfig) -> (call: Option<Call>)
    ensures
        match call {
            Some(call) => config@.configured() && call@ == models_call(config@),
            None => !config@.configured(),
        },
{
    if config.is_configured() {
        Some(discovery_call(config))
    } else {
        None
    }
}

/// The model as the status shows it, given what discovery found where the runtime could be asked.
pub open spec fn model_shown(found: Option<Result<Seq<char>, Seq<char>>>) -> Seq<char> {
    match found {
        None => "unavailable (run `doodleiq configure`)"@,
        Some(Ok(model)) => model,
        Some(Err(error)) => "unavailable ("@ + error + ")"@,
    }
}

/// The connector as the status shows it.
pub open spec fn connector_shown(tunnel: CloudflaredStatus) -> Seq<char> {
    if !tunnel.installed {
        "missing"@
    } else {
        match held(tunnel.version) {
            Some(version) => version,
            None => "installed"@,
        }
    }
}

/// What the status shows. Of the runtime's key and of the pairing it shows only whether there is
/// one.
pub open spec fn status_of(
    control_plane: Seq<char>,
    config_file: Seq<char>,
    config: ConfigView,
    found: Option<Result<Seq<char>, Seq<char>>>,
    tunnel: CloudflaredStatus,
) -> Seq<Seq<char>> {
    seq![
        "control_plane: "@ + control_plane,
        "config: "@ + config_file,
        "runtime_url: "@ + config.url,
        "loaded_model: "@ + model_shown(found),
        "runtime_key: "@ + if config.api_key.len() == 0 {
            "none (unauthenticated runtime)"@
        } else {
            "configured"@
        },
        "paired: "@ + if config.paired() {
            "true"@
        } else {
            "false"@
        },
        "cloudflared: "@ + connector_shown(tunnel),
    ]
}

/// What discovery found, where the runtime could be asked.
pub open spec fn found_view(found: Option<Result<String, String>>) -> Option<
    Result<Seq<char>, Seq<char>>,
> {
    match found {
        Some(found) => Some(texts(found)),
        None => None,
    }
}

/// The texts of lines.
pub open spec fn line_texts(lines: Seq<String>) -> Seq<Seq<char>> {
    lines.map_values(|line: String| line@)
}

/// A line with a label and a text.
fn labelled(label: &str, text: &str) -> (line: String)
    ensures
        line@ == label@ + text@,
{
    let mut line: String = label.to_owned();
    line.append(text);
    line
}

/// The lines of the status, given what came of [`status_call`].
pub fn print_status(
    control_plane: &str,
    config_file: &str,
    config: &RuntimeConfig,
    found: Option<Result<String, String>>,
    tunnel: &CloudflaredStatus,
) -> (lines: Vec<String>)
    ensures
        line_texts(lines@) == status_of(
            control_plane@,
            config_file@,
            config@,
            found_view(found),
            *tunnel,
        ),
{
    let mut lines: Vec<String> = Vec::new();
    lines.push(labelled("control_plane: ", control_plane));
    lines.push(labelled("config: ", config_file));
    lines.push(labelled("runtime_url: ", config.url.as_str()));
    let model: String = match found {
        None => "unavailable (run `doodleiq configure`)".to_owned(),
        Some(Ok(model)) => model,
        Some(Err(error)) => {
            let mut text: String = "unavailable (".to_owned();
            text.append(error.as_str());
            text.append(")");
            text
        },
    };
    lines.push(labelled("loaded_model: ", model.as_str()));
    lines.push(
        labelled(
            "runtime_key: ",
            if config.api_key.as_str().is_empty() {
                "none (unauthenticated runtime)"
            } else {
                "configured"
            },
        ),
    );
    lines.push(
        labelled(
            "paired: ",
            if config.is_paired() {
                "true"
            } else {
                "false"
            },
        ),
    );
    let connector: &str = if !tunnel.installed {
        "missing"
    } else {
        match &tunnel.version {
            Some(version) => version.as_str(),
            None => "installed",
        }
    };
    lines.push(labelled("cloudflared: ", connector));
    assert(line_texts(lines@) =~= status_of(
        control_plane@,
        config_file@,
        config@,
        found_view(found),
        *tunnel,
    ));
    lines
}

/// The status redacts secrets: it is the same for any two runtime keys, as long as there is one,
/// and for any two pairings.
pub proof fn law_status_redacts_secrets(
    control_plane: Seq<char>,
    config_file: Seq<char>,
    a: ConfigView,
    b: ConfigView,
    found: Option<Result<Seq<char>, Seq<char>>>,
    tunnel: CloudflaredStatus,
)
    requires
        a.url == b.url,
        a.api_key.len() == 0 <==> b.api_key.len() == 0,
        a.paired() == b.paired(),
    ensures
        status_of(control_plane, config_file, a, found, tunnel) == status_of(
            control_plane,
            config_file,
            b,
            found,
            tunnel,
        ),
{
}

/// What `reset` says when it is done.
pub fn reset_line(all: bool) -> (line: &'static str)
    ensures
        line@ == (if all {
            "Reset all local state"@
        } else {
            "Reset pairing state"@
        }),
{
    if all {
        "Reset all local state"
    } else {
        "Reset pairing state"
    }
}

/// The operator is warned once two heartbeats in a row have failed and no warning stands, and told
/// of the recovery once none has failed since the last that arrived and a warning stands; nothing
/// else is told, and a notice that is not given changes nothing of whether a warning stands.
pub proof fn law_notices(health: HealthView, warned: bool, now: u64)
    ensures
        health.consecutive_failures >= 2 && !warned ==> (notice_of(health, warned, now)
            matches Some(NoticeView::Failing(_))) && warned_after(
            warned,
            notice_of(health, warned, now),
        ),
        health.consecutive_failures == 0 && warned ==> notice_of(health, warned, now) == Some(
            NoticeView::Recovered,
        ) && !warned_after(warned, notice_of(health, warned, now)),
        health.consecutive_failures < 2 && !warned ==> notice_of(health, warned, now) is None
            && !warned_after(warned, notice_of(health, warned, now)),
        health.consecutive_failures > 0 && warned ==> notice_of(health, warned, now) is None
            && warned_after(warned, notice_of(health, warned, now)),
{
}

/// A warning names the failures in a row and the seconds since the last heartbeat that arrived, or
/// that none ever has.
pub proof fn law_warning_text(health: HealthView, now: u64)
    requires
        health.consecutive_failures >= 2,
    ensures
        health.last_ok_unix == 0 ==> notice_of(health, false, now) == Some(
            NoticeView::Failing(
                "control-plane heartbeat failing ("@ + decimal_text(
                    health.consecutive_failures as nat,
                ) + " in a row; last ok "@ + "never"@
                    + "). The marketplace listing may drop if this continues."@,
            ),
        ),
        0 < health.last_ok_unix <= now ==> notice_of(health, false, now) == Some(
            NoticeView::Failing(
                "control-plane heartbeat failing ("@ + decimal_text(
                    health.consecutive_failures as nat,
                ) + " in a row; last ok "@ + (decimal_text((now - health.last_ok_unix) as nat)
                    + "s ago"@) + "). The marketplace listing may drop if this continues."@,
            ),
        ),
        health.last_ok_unix > now ==> notice_of(health, false, now) == Some(
            NoticeView::Failing(
                "control-plane heartbeat failing ("@ + decimal_text(
                    health.consecutive_failures as nat,
                ) + " in a row; last ok "@ + (decimal_text(0) + "s ago"@)
                    + "). The marketplace listing may drop if this continues."@,
            ),
        ),
{
}

/// The state that is reported is the agent's: whether a runtime is configured and the machine is
/// paired, the reading of the meter as it is, the rate as it is given, and the health of the
/// heartbeats.
pub proof fn law_state_is_reported(
    config: ConfigView,
    usage: UsageSnapshot,
    rate: serde_json::Number,
    health: HealthView,
    now: u64,
)
    ensures
        state_document(config, usage, rate, health, now) matches JsonView::Object(map) && {
            &&& map.dom() == set!["status"@, "configured"@, "paired"@, "usage"@, "heartbeat"@]
            &&& map["status"@] == JsonView::Text("ok"@)
            &&& map["configured"@] == JsonView::Bool(config.configured())
            &&& map["paired"@] == JsonView::Bool(config.paired())
            &&& map["usage"@] == usage_document(usage, rate)
            &&& map["heartbeat"@] == health_document(health, now)
        },
        usage_document(usage, rate) matches JsonView::Object(counts) && {
            &&& counts.dom() == set![
                "requests"@,
                "input_tokens"@,
                "output_tokens"@,
                "total_tokens"@,
                "consumer_connected"@,
                "consumer_connected_seconds"@,
                "last_consumer_activity"@,
                "tokens_per_second"@,
            ]
            &&& counts["requests"@] == JsonView::Number(JsonNumber::Unsigned(usage.requests))
            &&& counts["input_tokens"@] == JsonView::Number(
                JsonNumber::Unsigned(usage.input_tokens),
            )
            &&& counts["output_tokens"@] == JsonView::Number(
                JsonNumber::Unsigned(usage.output_tokens),
            )
            &&& counts["total_tokens"@] == JsonView::Number(
                JsonNumber::Unsigned(usage.total_tokens),
            )
            &&& counts["consumer_connected"@] == JsonView::Bool(usage.consumer_connected)
            &&& counts["consumer_connected_seconds"@] == JsonView::Number(
                JsonNumber::Unsigned(usage.consumer_connected_seconds),
            )
            &&& counts["last_consumer_activity"@] == JsonView::Number(
                JsonNumber::Unsigned(usage.last_consumer_activity),
            )
            &&& counts["tokens_per_second"@] == JsonView::Number(number_content(rate))
        },
{
    reveal_strlit("status");
    reveal_strlit("configured");
    reveal_strlit("paired");
    reveal_strlit("usage");
    reveal_strlit("heartbeat");
    assert("status"@.len() == 6 && "paired"@.len() == 6);
    assert("status"@[0] != "paired"@[0]);
    assert("configured"@.len() == 10);
    assert("usage"@.len() == 5);
    assert("heartbeat"@.len() == 9);
    assert(state_document(config, usage, rate, health, now)->Object_0.dom() =~= set![
        "status"@,
        "configured"@,
        "paired"@,
        "usage"@,
        "heartbeat"@,
    ]);
    reveal_strlit("requests");
    reveal_strlit("input_tokens");
    reveal_strlit("output_tokens");
    reveal_strlit("total_tokens");
    reveal_strlit("consumer_connected");
    reveal_strlit("consumer_connected_seconds");
    reveal_strlit("last_consumer_activity");
    reveal_strlit("tokens_per_second");
    assert("requests"@.len() == 8);
    assert("input_tokens"@.len() == 12 && "total_tokens"@.len() == 12);
    assert("input_tokens"@[0] != "total_tokens"@[0]);
    assert("output_tokens"@.len() == 13);
    assert("consumer_connected"@.len() == 18);
    assert("consumer_connected_seconds"@.len() == 26);
    assert("last_consumer_activity"@.len() == 22);
    assert("tokens_per_second"@.len() == 17);
    assert(usage_document(usage, rate)->Object_0.dom() =~= set![
        "requests"@,
        "input_tokens"@,
        "output_tokens"@,
        "total_tokens"@,
        "consumer_connected"@,
        "consumer_connected_seconds"@,
        "last_consumer_activity"@,
        "tokens_per_second"@,
    ]);
}

/// The status is seven lines: the control plane, the configuration's file, the runtime's URL, the
/// model that it serves or why that is not known, whether there is a key, whether the machine is
/// paired, and the connector's version or what is known of it.
pub proof fn law_status_lines(
    control_plane: Seq<char>,
    config_file: Seq<char>,
    config: ConfigView,
    found: Option<Result<Seq<char>, Seq<char>>>,
    tunnel: CloudflaredStatus,
    text: Seq<char>,
)
    ensures
        ({
            let lines = status_of(control_plane, config_file, config, found, tunnel);
            &&& lines.len() == 7
            &&& lines[0] == "control_plane: "@ + control_plane
            &&& lines[1] == "config: "@ + config_file
            &&& lines[2] == "runtime_url: "@ + config.url
            &&& found == Some(Ok::<Seq<char>, Seq<char>>(text)) ==> lines[3] == "loaded_model: "@
                + text
            &&& found == Some(Err::<Seq<char>, Seq<char>>(text)) ==> lines[3] == "loaded_model: "@
                + ("unavailable ("@ + text + ")"@)
            &&& found is None ==> lines[3] == "loaded_model: "@
                + "unavailable (run `doodleiq configure`)"@
            &&& config.api_key.len() == 0 ==> lines[4] == "runtime_key: "@
                + "none (unauthenticated runtime)"@
            &&& config.api_key.len() > 0 ==> lines[4] == "runtime_key: "@ + "configured"@
            &&& config.paired() ==> lines[5] == "paired: "@ + "true"@
            &&& !config.paired() ==> lines[5] == "paired: "@ + "false"@
            &&& !tunnel.installed ==> lines[6] == "cloudflared: "@ + "missing"@
            &&& tunnel.installed && tunnel.version is None ==> lines[6] == "cloudflared: "@
                + "installed"@
            &&& tunnel.installed && (tunnel.version matches Some(version) && version@ == text)
                ==> lines[6] == "cloudflared: "@ + text
        }),
{
}

/// Notices, findings and lines are taken for what they hold.
pub proof fn law_report_values(text: String, lines: Seq<String>, i: int)
    ensures
        noticed(Some(Notice::Failing(text))) == Some(NoticeView::Failing(text@)),
        noticed(Some(Notice::Recovered)) == Some(NoticeView::Recovered),
        noticed(None) is None,
        found_view(Some(Ok(text))) == Some(Ok::<Seq<char>, Seq<char>>(text@)),
        found_view(Some(Err(text))) == Some(Err::<Seq<char>, Seq<char>>(text@)),
        found_view(None) is None,
        line_texts(lines).len() == lines.len(),
        0 <= i < lines.len() ==> line_texts(lines)[i] == lines[i]@,
{
}

} // verus!
