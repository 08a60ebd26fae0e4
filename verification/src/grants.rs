//! Inference grants: the consumer's credential, its validation, and the consumer sessions that
//! are told to the gateway.

use vstd::prelude::*;
use vstd::utf8::*;
use crate::config::{ConfigView, RuntimeConfig};
use crate::http::{
    error_answer, get_call, header_text, header_value, headers_view, json_error,
    law_header_is_read, law_header_text_is_read, post_call, status_line, status_text, with_header,
    AnswerView, Call, CallView, GatewayAnswer, Header, HeaderView, Method, Reply,
};
use crate::json::{
    field, is_exact, is_plain, json_parsed, json_text, lemma_raw_key_length, number_content,
    number_tree, raw_key, same_but_carried, set_field, u64_of, Json, JsonNumber, JsonView,
};
use crate::meter::{snapshot_of, with_activity, with_disconnect, MeterView, UsageMeter};
use crate::text::{
    begins_with, held, law_parting, parted, position_of, same_text, split_once, strip_prefix,
};

verus! {

/// How many bytes a request token has at least.
pub const MIN_TOKEN_BYTES: usize = 20;

/// What a consumer shows to be served.
#[derive(Debug)]
pub struct InferenceGrant {
    pub grant_id: String,
    pub request_token: String,
}

/// What an [`InferenceGrant`] says.
pub struct GrantView {
    pub grant_id: Seq<char>,
    pub request_token: Seq<char>,
}

impl InferenceGrant {
    /// What this grant says.
    pub open spec fn view(&self) -> GrantView {
        GrantView { grant_id: self.grant_id@, request_token: self.request_token@ }
    }

    /// The same grant once more.
    pub fn copy(&self) -> (grant: InferenceGrant)
        ensures
            grant@ == self@,
    {
        InferenceGrant {
            grant_id: self.grant_id.clone(),
            request_token: self.request_token.clone(),
        }
    }
}

/// The grant that a credential spells: its id, which is not empty, a full stop, and its token,
/// which is long enough.
pub open spec fn grant_in(credential: Seq<char>) -> Option<GrantView> {
    match parted(credential, '.') {
        Some((grant_id, request_token)) => if grant_id.len() > 0 && encode_utf8(
            request_token,
        ).len() >= MIN_TOKEN_BYTES {
            Some(GrantView { grant_id, request_token })
        } else {
            None
        },
        None => None,
    }
}

/// The grant that a request shows, as the bearer of its authorization.
pub open spec fn grant_of(headers: Seq<HeaderView>) -> Option<GrantView> {
    match header_value(headers, "authorization"@) {
        Some(value) => if begins_with(value, "Bearer "@) {
            grant_in(value.skip("Bearer "@.len() as int))
        } else {
            None
        },
        None => None,
    }
}

/// What a grant that may be missing says.
pub open spec fn shown(grant: Option<InferenceGrant>) -> Option<GrantView> {
    match grant {
        Some(grant) => Some(grant@),
        None => None,
    }
}

/// The grant that a request shows.
pub fn inference_grant(headers: &Vec<Header>) -> (grant: Option<InferenceGrant>)
    ensures
        shown(grant) == grant_of(headers_view(headers@)),
{
    let value: &str = match header_text(headers, "authorization") {
        Some(value) => value,
        None => return None,
    };
    let credential: &str = match strip_prefix(value, "Bearer ") {
        Some(credential) => credential,
        None => return None,
    };
    match split_once(credential, '.') {
        Some((grant_id, request_token)) => if !grant_id.is_empty() && request_token.as_bytes().len()
            >= MIN_TOKEN_BYTES {
            Some(
                InferenceGrant {
                    grant_id: grant_id.to_owned(),
                    request_token: request_token.to_owned(),
                },
            )
        } else {
            None
        },
        None => None,
    }
}

// ---------------------------------------------------------------------------------------------
// Validation
// ---------------------------------------------------------------------------------------------

/// What the control plane says of a valid grant.
#[derive(Debug)]
pub struct GrantValidation {
    pub model_id: String,
    pub max_tokens: u64,
    pub expires_at: String,
    pub expires_at_epoch: u64,
    pub started_at_epoch: u64,
}

/// The document that asks for a grant to be validated.
pub open spec fn validation_document(grant: GrantView) -> JsonView {
    JsonView::Object(
        Map::empty().insert("grant_id"@, JsonView::Text(grant.grant_id)).insert(
            "request_token"@,
            JsonView::Text(grant.request_token),
        ),
    )
}

/// The call that asks for a grant to be validated.
pub open spec fn validation_call_of(
    base: Seq<char>,
    config: ConfigView,
    grant: GrantView,
) -> CallView {
    with_header(
        post_call(
            base + "/v1/devices/"@ + config.device_id + "/inference-grants/validate"@,
            validation_document(grant),
        ),
        "X-DoodleIQ-Pairing-Token"@,
        config.pairing_token,
    )
}

proof fn lemma_validation_document_exact(grant: GrantView)
    ensures
        is_exact(validation_document(grant), 127),
{
    lemma_raw_key_length();
    reveal_strlit("grant_id");
    reveal_strlit("request_token");
    assert("grant_id"@.len() < 30);
    assert("request_token"@.len() < 30);
    let map = validation_document(grant)->Object_0;
    assert(!map.contains_key(raw_key()));
    assert forall|k: Seq<char>| #[trigger] map.contains_key(k) implies is_exact(map[k], 126) by {}
}

/// The call that asks for a grant to be validated. An unpaired machine cannot ask.
pub fn validation_call(config: &RuntimeConfig, base: &str, grant: &InferenceGrant) -> (call: Result<
    Call,
    String,
>)
    ensures
        match call {
            Ok(call) => {
                &&& config@.paired()
                &&& call@ == validation_call_of(base@, config@, grant@)
                &&& json_parsed(call@.body->Some_0) == Some(validation_document(grant@))
            },
            Err(error) => !config@.paired() && error@ == "the provider device is not paired"@,
        },
{
    if !config.is_paired() {
        return Err("the provider device is not paired".to_owned());
    }
    let mut entries: Vec<(String, Json)> = Vec::new();
    set_field(&mut entries, "grant_id", Json::text(grant.grant_id.as_str()));
    set_field(&mut entries, "request_token", Json::text(grant.request_token.as_str()));
    let mut url: String = base.to_owned();
    url.append("/v1/devices/");
    url.append(config.device_id.as_str());
    url.append("/inference-grants/validate");
    proof {
        lemma_validation_document_exact(grant@);
    }
    let call: Call = Call::post(url, Json::Object(entries));
    Ok(call.with_header("X-DoodleIQ-Pairing-Token", config.pairing_token.as_str()))
}

/// What a refusal says, with a text in the place of a detail that could not be read.
pub open spec fn detail_or(detail: Option<String>, unread: Seq<char>) -> Seq<char> {
    match held(detail) {
        Some(detail) => detail,
        None => unread,
    }
}

/// What the validation of a grant says, given what came of its call.
pub open spec fn validation_of(reply: Reply<GrantValidation>) -> Result<
    GrantValidation,
    Seq<char>,
> {
    match reply {
        Reply::Unreachable(err) => Err("unable to validate inference grant: "@ + err@),
        Reply::Rejected { status, detail } => Err(
            "DoodleIQ API key validation failed ("@ + status_line(status) + "): "@ + detail_or(
                detail,
                "unable to read validation response"@,
            ),
        ),
        Reply::Malformed(err) => Err("invalid grant validation response: "@ + err@),
        Reply::Answered(validation) => Ok(validation),
    }
}

/// What a validation or its error says.
pub open spec fn validation_view(result: Result<GrantValidation, String>) -> Result<
    GrantValidation,
    Seq<char>,
> {
    match result {
        Ok(validation) => Ok(validation),
        Err(error) => Err(error@),
    }
}

/// What the validation of a grant says, given what came of its call.
pub fn validate_inference_grant(reply: Reply<GrantValidation>) -> (validation: Result<
    GrantValidation,
    String,
>)
    ensures
        validation_view(validation) == validation_of(reply),
{
    match reply {
        Reply::Unreachable(err) => {
            let mut text: String = "unable to validate inference grant: ".to_owned();
            text.append(err.as_str());
            Err(text)
        },
        Reply::Rejected { status, detail } => {
            let mut text: String = "DoodleIQ API key validation failed (".to_owned();
            text.append(status_text(status).as_str());
            text.append("): ");
            match detail {
                Some(detail) => text.append(detail.as_str()),
                None => text.append("unable to read validation response"),
            }
            Err(text)
        },
        Reply::Malformed(err) => {
            let mut text: String = "invalid grant validation response: ".to_owned();
            text.append(err.as_str());
            Err(text)
        },
        Reply::Answered(validation) => Ok(validation),
    }
}

// ---------------------------------------------------------------------------------------------
// Consumer sessions
// ---------------------------------------------------------------------------------------------

/// The call that asks for the status of a grant.
pub open spec fn status_call_of(
    base: Seq<char>,
    config: ConfigView,
    grant_id: Seq<char>,
) -> CallView {
    with_header(
        get_call(
            base + "/v1/devices/"@ + config.device_id + "/inference-grants/"@ + grant_id
                + "/status"@,
        ),
        "X-DoodleIQ-Pairing-Token"@,
        config.pairing_token,
    )
}

/// The answer to a session on an unpaired machine.
pub open spec fn unpaired_answer() -> AnswerView {
    error_answer(401, "the provider device is not paired"@)
}

/// The call that asks for the status of a grant, or the answer on an unpaired machine.
pub fn session_status_call(config: &RuntimeConfig, base: &str, grant_id: &str) -> (call: Result<
    Call,
    GatewayAnswer,
>)
    ensures
        match call {
            Ok(call) => config@.paired() && call@ == status_call_of(base@, config@, grant_id@),
            Err(answer) => !config@.paired() && answer@ == unpaired_answer(),
        },
{
    if !config.is_paired() {
        return Err(json_error(401, "the provider device is not paired"));
    }
    let mut url: String = base.to_owned();
    url.append("/v1/devices/");
    url.append(config.device_id.as_str());
    url.append("/inference-grants/");
    url.append(grant_id);
    url.append("/status");
    let call: Call = Call::get(url);
    Ok(call.with_header("X-DoodleIQ-Pairing-Token", config.pairing_token.as_str()))
}

/// The count under `key`, when there is one.
pub open spec fn count_under(tree: JsonView, key: Seq<char>) -> Option<u64> {
    match field(tree, key) {
        Some(value) => u64_of(value),
        None => None,
    }
}

/// When an active session's grant expires and when it started, by the status of the grant: it
/// was issued, and both times are known.
pub open spec fn active_session(status: JsonView) -> Option<(u64, u64)> {
    match (
        count_under(status, "expires_at_epoch"@),
        count_under(status, "started_at_epoch"@),
    ) {
        (Some(expires_at), Some(started_at)) => if field(status, "status"@) == Some(
            JsonView::Text("issued"@),
        ) {
            Some((expires_at, started_at))
        } else {
            None
        },
        _ => None,
    }
}

/// The session that a reply shows to be active.
pub open spec fn session_in(reply: Reply<Json>) -> Option<(u64, u64)> {
    match reply {
        Reply::Answered(status) => active_session(status.tree()),
        _ => None,
    }
}

/// The meter after a consumer has connected: an active session is noted, and nothing else.
pub open spec fn with_session(
    meter: MeterView,
    grant_id: Seq<char>,
    reply: Reply<Json>,
    now: u64,
) -> MeterView {
    match session_in(reply) {
        Some((expires_at, started_at)) => with_activity(
            meter,
            grant_id,
            expires_at,
            started_at,
            now,
        ),
        None => meter,
    }
}

/// The document that says that a session is connected.
pub open spec fn connected_document() -> JsonView {
    JsonView::Object(Map::empty().insert("connected"@, JsonView::Bool(true)))
}

/// The answer to a consumer that connects, given what came of the call that asked for the status
/// of its grant.
pub open spec fn connect_answer(reply: Reply<Json>) -> AnswerView {
    match reply {
        Reply::Unreachable(_) => error_answer(502, "unable to verify consumer session"@),
        Reply::Rejected { .. } => error_answer(401, "consumer session was not verified"@),
        _ => if session_in(reply) is Some {
            AnswerView { status: 200, body: json_text(connected_document()) }
        } else {
            error_answer(409, "consumer session is not active"@)
        },
    }
}

/// The count under `key`, when there is one.
fn read_count(status: &Json, key: &str) -> (count: Option<u64>)
    ensures
        count == count_under(status.tree(), key@),
{
    match status.get(key) {
        Some(value) => value.as_u64(),
        None => None,
    }
}

/// Whether the status of a grant is that it was issued.
fn is_issued(status: &Json) -> (issued: bool)
    ensures
        issued == (field(status.tree(), "status"@) == Some(JsonView::Text("issued"@))),
{
    match status.get("status") {
        Some(value) => match value.as_str() {
            Some(text) => same_text(text, "issued"),
            None => false,
        },
        None => false,
    }
}

/// When an active session's grant expires and when it started.
fn read_session(status: &Json) -> (session: Option<(u64, u64)>)
    ensures
        session == active_session(status.tree()),
{
    match (read_count(status, "expires_at_epoch"), read_count(status, "started_at_epoch")) {
        (Some(expires_at), Some(started_at)) => if is_issued(status) {
            Some((expires_at, started_at))
        } else {
            None
        },
        _ => None,
    }
}

/// Connects a consumer, given what came of the call that asked for the status of its grant: an
/// active session is noted, and nothing else changes the meter.
pub fn connect_consumer_session(
    meter: &mut UsageMeter,
    grant_id: &str,
    reply: Reply<Json>,
    now: u64,
) -> (answer: GatewayAnswer)
    ensures
        answer@ == connect_answer(reply),
        session_in(reply) is Some ==> json_parsed(answer@.body) == Some(connected_document()),
        final(meter)@ == with_session(old(meter)@, grant_id@, reply, now),
{
    match reply {
        Reply::Unreachable(_) => json_error(502, "unable to verify consumer session"),
        Reply::Rejected { status: _, detail: _ } => json_error(
            401,
            "consumer session was not verified",
        ),
        Reply::Malformed(_) => json_error(409, "consumer session is not active"),
        Reply::Answered(status) => match read_session(&status) {
            Some((expires_at, started_at)) => {
                meter.note_consumer_activity_at(grant_id, expires_at, started_at, now);
                proof {
                    lemma_raw_key_length();
                    reveal_strlit("connected");
                    assert("connected"@.len() < 30);
                    let map = connected_document()->Object_0;
                    assert forall|k: Seq<char>| #[trigger] map.contains_key(k) implies is_exact(
                        map[k],
                        126,
                    ) by {}
                }
                let mut entries: Vec<(String, Json)> = Vec::new();
                set_field(&mut entries, "connected", Json::Bool(true));
                GatewayAnswer { status: 200, body: Json::Object(entries).into_bytes() }
            },
            None => json_error(409, "consumer session is not active"),
        },
    }
}

/// Disconnects a consumer: the meter forgets the session of this grant at once, and the status of
/// the grant is asked for afterwards, to report the revenue. On an unpaired machine nothing
/// changes.
pub fn disconnect_consumer_session(
    config: &RuntimeConfig,
    base: &str,
    meter: &mut UsageMeter,
    grant_id: &str,
) -> (asked: Result<(bool, Call), GatewayAnswer>)
    ensures
        match asked {
            Ok((disconnected, call)) => {
                &&& config@.paired()
                &&& disconnected == (old(meter)@.active_grant_id == Some(grant_id@))
                &&& final(meter)@ == with_disconnect(old(meter)@, grant_id@)
                &&& call@ == status_call_of(base@, config@, grant_id@)
            },
            Err(answer) => {
                &&& !config@.paired()
                &&& answer@ == unpaired_answer()
                &&& final(meter)@ == old(meter)@
            },
        },
{
    match session_status_call(config, base, grant_id) {
        Ok(call) => {
            let disconnected: bool = meter.disconnect(grant_id);
            Ok((disconnected, call))
        },
        Err(answer) => Err(answer),
    }
}

/// The revenue that the status of a grant reports, when it reports one.
pub open spec fn revenue_of(reply: Reply<Json>) -> Option<JsonNumber> {
    match reply {
        Reply::Answered(status) => match field(status.tree(), "provider_revenue"@) {
            Some(JsonView::Number(number)) => Some(number),
            _ => None,
        },
        _ => None,
    }
}

/// The number that a document is, when it is one.
fn read_number(json: &Json) -> (number: Option<&JsonNumber>)
    ensures
        match number {
            Some(number) => json.tree() == JsonView::Number(number_tree(*number)),
            None => !(json.tree() is Number),
        },
{
    match json {
        Json::Number(number) => Some(number),
        _ => None,
    }
}

/// The revenue that the status of a grant reports, when it reports one.
pub fn provider_revenue(reply: &Reply<Json>) -> (revenue: Option<&JsonNumber>)
    ensures
        match revenue {
            Some(number) => revenue_of(*reply) == Some(number_tree(*number)),
            None => revenue_of(*reply) is None,
        },
{
    match reply {
        Reply::Answered(status) => match status.get("provider_revenue") {
            Some(value) => read_number(value),
            None => None,
        },
        _ => None,
    }
}

/// The document that says whether a session was disconnected, and what it earned.
pub open spec fn disconnected_document(disconnected: bool, revenue: serde_json::Number) -> JsonView {
    JsonView::Object(
        Map::empty().insert("disconnected"@, JsonView::Bool(disconnected)).insert(
            "provider_revenue"@,
            JsonView::Number(number_content(revenue)),
        ),
    )
}

/// The answer to a consumer that has disconnected.
pub fn disconnect_answer(disconnected: bool, revenue: serde_json::Number) -> (answer: GatewayAnswer)
    ensures
        answer@ == (AnswerView {
            status: 200,
            body: json_text(disconnected_document(disconnected, revenue)),
        }),
        json_parsed(answer@.body) matches Some(back) ==> same_but_carried(
            back,
            disconnected_document(disconnected, revenue),
        ),
{
    proof {
        lemma_raw_key_length();
        reveal_strlit("disconnected");
        reveal_strlit("provider_revenue");
        assert("disconnected"@.len() < 30);
        assert("provider_revenue"@.len() < 30);
        let map = disconnected_document(disconnected, revenue)->Object_0;
        assert forall|k: Seq<char>| #[trigger] map.contains_key(k) implies is_plain(map[k]) by {}
        assert(!map.contains_key(raw_key()));
    }
    let mut entries: Vec<(String, Json)> = Vec::new();
    set_field(&mut entries, "disconnected", Json::Bool(disconnected));
    set_field(&mut entries, "provider_revenue", Json::Number(JsonNumber::Carried(revenue)));
    GatewayAnswer { status: 200, body: Json::Object(entries).into_bytes() }
}

/// A credential spells a grant exactly where it is an id without a full stop, a full stop, and a
/// token: put together from the two, it reads back as them.
pub proof fn law_grant_reads_back(grant_id: Seq<char>, request_token: Seq<char>)
    requires
        grant_id.len() > 0,
        !grant_id.contains('.'),
        encode_utf8(request_token).len() >= MIN_TOKEN_BYTES,
    ensures
        grant_in(grant_id + seq!['.'] + request_token) == Some(
            GrantView { grant_id, request_token },
        ),
{
    let credential = grant_id + seq!['.'] + request_token;
    lemma_position_of(grant_id, request_token);
    assert(credential.take(grant_id.len() as int) =~= grant_id);
    assert(credential.skip(grant_id.len() as int + 1) =~= request_token);
}

proof fn lemma_position_of(head: Seq<char>, tail: Seq<char>)
    requires
        !head.contains('.'),
    ensures
        position_of(head + seq!['.'] + tail, '.') == head.len(),
    decreases head.len(),
{
    let whole = head + seq!['.'] + tail;
    if head.len() > 0 {
        assert(head.contains(head[0]));
        let rest = head.drop_first();
        assert forall|i: int| 0 <= i < rest.len() implies rest[i] != '.' by {
            assert(head.contains(head[i + 1]));
        }
        lemma_position_of(rest, tail);
        assert(whole.drop_first() =~= rest + seq!['.'] + tail);
    }
}

/// A session that is connected and then disconnected leaves no consumer connected, whatever the
/// marketplace says meanwhile; and a consumer is told that it is connected exactly where its
/// session is active.
pub proof fn law_connect_then_disconnect(
    meter: MeterView,
    grant_id: Seq<char>,
    reply: Reply<Json>,
    now: u64,
    at: u64,
)
    ensures
        ({
            let after = with_disconnect(with_session(meter, grant_id, reply, now), grant_id);
            &&& after.active_grant_id != Some(grant_id)
            &&& session_in(reply) is Some ==> !snapshot_of(after, at).consumer_connected
        }),
        connect_answer(reply).status == 200 <==> session_in(reply) is Some,
{
}

/// A grant is read from the request that shows it: the first authorization header, where it says
/// `Bearer`, a space, the grant's id, a full stop and its token, shows exactly that id and that
/// token, whatever other headers there are.
pub proof fn law_shown_grant_is_read(
    before: Seq<HeaderView>,
    grant_id: Seq<char>,
    request_token: Seq<char>,
    after: Seq<HeaderView>,
)
    requires
        forall|i: int| 0 <= i < before.len() ==> (#[trigger] before[i]).0 != "authorization"@,
        forall|i: int| 0 <= i < grant_id.len() ==> ' ' <= #[trigger] grant_id[i] <= '~',
        forall|i: int| 0 <= i < request_token.len() ==> ' ' <= #[trigger] request_token[i] <= '~',
        grant_id.len() > 0,
        !grant_id.contains('.'),
        request_token.len() >= 20,
    ensures
        grant_of(
            before + seq![
                (
                    "authorization"@,
                    encode_utf8("Bearer "@ + grant_id + seq!['.'] + request_token),
                ),
            ] + after,
        ) == Some(GrantView { grant_id, request_token }),
{
    reveal_strlit("Bearer ");
    let scheme = "Bearer "@;
    let credential = grant_id + seq!['.'] + request_token;
    let text = scheme + grant_id + seq!['.'] + request_token;
    assert(scheme.len() == 7);
    assert(text =~= scheme + credential);
    assert forall|i: int| 0 <= i < text.len() implies ' ' <= #[trigger] text[i] <= '~' by {
        if i < 7 {
            assert(text[i] == scheme[i]);
        } else if i < 7 + grant_id.len() {
            assert(text[i] == grant_id[i - 7]);
        } else if i > 7 + grant_id.len() {
            assert(text[i] == request_token[i - 8 - grant_id.len()]);
        }
    }
    law_header_text_is_read(before, "authorization"@, text, after);
    assert(text.take(7) =~= scheme);
    assert(text.skip(7) =~= credential);
    assert(is_ascii_chars(request_token)) by {
        assert forall|i: int| 0 <= i < request_token.len() implies '\0' <= #[trigger] request_token[i]
            <= '\u{7f}' by {}
    }
    is_ascii_chars_encode_utf8(request_token);
    law_grant_reads_back(grant_id, request_token);
}

/// No grant is read from a request without an authorization header, nor from one whose first such
/// header says anything else than a bearer's: another scheme, no full stop, nothing before the
/// first full stop, or fewer than twenty bytes after it.
pub proof fn law_nothing_else_is_a_grant(
    before: Seq<HeaderView>,
    value: Seq<u8>,
    after: Seq<HeaderView>,
    credential: Seq<char>,
    grant_id: Seq<char>,
    request_token: Seq<char>,
)
    requires
        forall|i: int| 0 <= i < before.len() ==> (#[trigger] before[i]).0 != "authorization"@,
    ensures
        grant_of(before) is None,
        decode_utf8(value).len() < 7 || decode_utf8(value).take(7) != "Bearer "@ ==> grant_of(
            before + seq![("authorization"@, value)] + after,
        ) is None,
        !credential.contains('.') ==> grant_in(credential) is None,
        grant_in(seq!['.'] + request_token) is None,
        !grant_id.contains('.') && encode_utf8(request_token).len() < 20 ==> grant_in(
            grant_id + seq!['.'] + request_token,
        ) is None,
{
    reveal_strlit("Bearer ");
    assert("Bearer "@.len() == 7);
    law_header_is_read(before, "authorization"@, value, after);
    law_parting(grant_id, '.', request_token, credential);
    let none = Seq::<char>::empty();
    assert(!none.contains('.'));
    law_parting(none, '.', request_token, credential);
    assert(none + seq!['.'] + request_token =~= seq!['.'] + request_token);
}

/// A grant is validated by what it says: the document that asks holds its id and its token as they
/// are and nothing else, and goes to this device's validations, as a POST, with the pairing token.
pub proof fn law_validation_call(base: Seq<char>, config: ConfigView, grant: GrantView)
    ensures
        ({
            let call = validation_call_of(base, config, grant);
            &&& call.method == Method::Post
            &&& call.url == base + "/v1/devices/"@ + config.device_id
                + "/inference-grants/validate"@
            &&& call.body == Some(json_text(validation_document(grant)))
            &&& call.headers.len() == 2
            &&& call.headers[1] == ("X-DoodleIQ-Pairing-Token"@, config.pairing_token)
        }),
        validation_document(grant) matches JsonView::Object(map) && {
            &&& map.dom() == set!["grant_id"@, "request_token"@]
            &&& map["grant_id"@] == JsonView::Text(grant.grant_id)
            &&& map["request_token"@] == JsonView::Text(grant.request_token)
        },
{
    reveal_strlit("grant_id");
    reveal_strlit("request_token");
    assert("grant_id"@.len() != "request_token"@.len());
    assert(validation_document(grant)->Object_0.dom() =~= set!["grant_id"@, "request_token"@]);
}

/// A grant is valid exactly where the control plane answers that it is; anything else is an error
/// that says what it was.
pub proof fn law_validation(
    validation: GrantValidation,
    err: String,
    status: u16,
    detail: String,
)
    ensures
        validation_of(Reply::Answered(validation)) == Ok::<GrantValidation, Seq<char>>(validation),
        validation_of(Reply::Unreachable(err)) == Err::<GrantValidation, Seq<char>>(
            "unable to validate inference grant: "@ + err@,
        ),
        validation_of(Reply::Malformed(err)) == Err::<GrantValidation, Seq<char>>(
            "invalid grant validation response: "@ + err@,
        ),
        validation_of(Reply::Rejected { status, detail: Some(detail) }) == Err::<
            GrantValidation,
            Seq<char>,
        >("DoodleIQ API key validation failed ("@ + status_line(status) + "): "@ + detail@),
        validation_of(Reply::Rejected { status, detail: None }) == Err::<
            GrantValidation,
            Seq<char>,
        >(
            "DoodleIQ API key validation failed ("@ + status_line(status) + "): "@
                + "unable to read validation response"@,
        ),
{
}

/// The status of a grant is asked for by its id, at this device's grants, as a GET, with the
/// pairing token.
pub proof fn law_status_call(base: Seq<char>, config: ConfigView, grant_id: Seq<char>)
    ensures
        ({
            let call = status_call_of(base, config, grant_id);
            &&& call.method == Method::Get
            &&& call.url == base + "/v1/devices/"@ + config.device_id + "/inference-grants/"@
                + grant_id + "/status"@
            &&& call.body is None
            &&& call.headers.len() == 1
            &&& call.headers[0] == ("X-DoodleIQ-Pairing-Token"@, config.pairing_token)
        }),
{
}

/// A session is active exactly where the status of its grant is `issued` and names when it expires
/// and when it started, whatever else it says; its times are those.
pub proof fn law_active_session(
    map: Map<Seq<char>, JsonView>,
    expires_at: u64,
    started_at: u64,
    tree: JsonView,
)
    ensures
        map.contains_key("status"@) && map["status"@] == JsonView::Text("issued"@)
            && map.contains_key("expires_at_epoch"@) && map["expires_at_epoch"@]
            == JsonView::Number(JsonNumber::Unsigned(expires_at)) && map.contains_key(
            "started_at_epoch"@,
        ) && map["started_at_epoch"@] == JsonView::Number(JsonNumber::Unsigned(started_at))
            ==> active_session(JsonView::Object(map)) == Some((expires_at, started_at)),
        !map.contains_key("status"@) || map["status"@] != JsonView::Text("issued"@)
            ==> active_session(JsonView::Object(map)) is None,
        !map.contains_key("expires_at_epoch"@) || !(map["expires_at_epoch"@]
            matches JsonView::Number(JsonNumber::Unsigned(_))) ==> active_session(
            JsonView::Object(map),
        ) is None,
        !map.contains_key("started_at_epoch"@) || !(map["started_at_epoch"@]
            matches JsonView::Number(JsonNumber::Unsigned(_))) ==> active_session(
            JsonView::Object(map),
        ) is None,
        !(tree is Object) ==> active_session(tree) is None,
{
}

/// A consumer that connects is answered by what its grant's status says: 200 and that it is
/// connected where the session is active, 409 where it is not, 401 where the status was refused,
/// and 502 where it could not be asked for. The meter notes the session where it is active, with
/// its own times, and stays as it is otherwise.
pub proof fn law_connecting(
    payload: Json,
    err: String,
    status: u16,
    detail: Option<String>,
    meter: MeterView,
    grant_id: Seq<char>,
    now: u64,
    expires_at: u64,
    started_at: u64,
)
    ensures
        active_session(payload.tree()) == Some((expires_at, started_at)) ==> {
            let after = with_session(meter, grant_id, Reply::Answered(payload), now);
            &&& connect_answer(Reply::Answered(payload)).status == 200
            &&& connect_answer(Reply::Answered(payload)).body == json_text(connected_document())
            &&& after.active_grant_id == Some(grant_id)
            &&& after.consumer_expires_at == expires_at
            &&& after.consumer_connected_at == started_at
            &&& after.last_consumer_activity == now
        },
        active_session(payload.tree()) is None ==> {
            &&& connect_answer(Reply::Answered(payload)) == error_answer(
                409,
                "consumer session is not active"@,
            )
            &&& with_session(meter, grant_id, Reply::Answered(payload), now) == meter
        },
        connect_answer(Reply::Malformed(err)) == error_answer(
            409,
            "consumer session is not active"@,
        ),
        connect_answer(Reply::Rejected { status, detail }) == error_answer(
            401,
            "consumer session was not verified"@,
        ),
        connect_answer(Reply::Unreachable(err)) == error_answer(
            502,
            "unable to verify consumer session"@,
        ),
        with_session(meter, grant_id, Reply::Malformed(err), now) == meter,
        with_session(meter, grant_id, Reply::Rejected { status, detail }, now) == meter,
        with_session(meter, grant_id, Reply::Unreachable(err), now) == meter,
        connected_document() matches JsonView::Object(map) && map.dom() == set!["connected"@]
            && map["connected"@] == JsonView::Bool(true),
        unpaired_answer() == error_answer(401, "the provider device is not paired"@),
{
    assert(connected_document()->Object_0.dom() =~= set!["connected"@]);
}

/// The revenue is the number under `provider_revenue` in the status of the grant, and the answer
/// to a consumer that has disconnected holds it and whether the session was ended, and nothing
/// else.
pub proof fn law_revenue(
    payload: Json,
    map: Map<Seq<char>, JsonView>,
    number: JsonNumber,
    disconnected: bool,
    revenue: serde_json::Number,
    err: String,
    status: u16,
    detail: Option<String>,
)
    ensures
        payload.tree() == JsonView::Object(map) && map.contains_key("provider_revenue"@)
            && map["provider_revenue"@] == JsonView::Number(number) ==> revenue_of(
            Reply::Answered(payload),
        ) == Some(number),
        payload.tree() == JsonView::Object(map) && (!map.contains_key("provider_revenue"@) || !(
        map["provider_revenue"@] is Number)) ==> revenue_of(Reply::Answered(payload)) is None,
        !(payload.tree() is Object) ==> revenue_of(Reply::Answered(payload)) is None,
        revenue_of(Reply::Unreachable(err)) is None,
        revenue_of(Reply::Malformed(err)) is None,
        revenue_of(Reply::Rejected { status, detail }) is None,
        disconnected_document(disconnected, revenue) matches JsonView::Object(said) && {
            &&& said.dom() == set!["disconnected"@, "provider_revenue"@]
            &&& said["disconnected"@] == JsonView::Bool(disconnected)
            &&& said["provider_revenue"@] == JsonView::Number(number_content(revenue))
        },
{
    reveal_strlit("disconnected");
    reveal_strlit("provider_revenue");
    assert("disconnected"@.len() != "provider_revenue"@.len());
    assert(disconnected_document(disconnected, revenue)->Object_0.dom() =~= set![
        "disconnected"@,
        "provider_revenue"@,
    ]);
}

/// A grant is taken for what it holds.
pub proof fn law_grants(grant: InferenceGrant, validation: GrantValidation, error: String)
    ensures
        grant@.grant_id == grant.grant_id@,
        grant@.request_token == grant.request_token@,
        shown(Some(grant)) == Some(grant@),
        shown(None) is None,
        validation_view(Ok(validation)) == Ok::<GrantValidation, Seq<char>>(validation),
        validation_view(Err(error)) == Err::<GrantValidation, Seq<char>>(error@),
{
}

/// A bearer's authorization shows the grant that its credential spells.
pub proof fn law_bearer_credential(
    before: Seq<HeaderView>,
    credential: Seq<char>,
    after: Seq<HeaderView>,
)
    requires
        forall|i: int| 0 <= i < before.len() ==> (#[trigger] before[i]).0 != "authorization"@,
        forall|i: int| 0 <= i < credential.len() ==> ' ' <= #[trigger] credential[i] <= '~',
    ensures
        grant_of(
            before + seq![("authorization"@, encode_utf8("Bearer "@ + credential))] + after,
        ) == grant_in(credential),
{
    reveal_strlit("Bearer ");
    let scheme = "Bearer "@;
    let text = scheme + credential;
    assert(scheme.len() == 7);
    assert forall|i: int| 0 <= i < text.len() implies ' ' <= #[trigger] text[i] <= '~' by {
        if i < 7 {
            assert(text[i] == scheme[i]);
        } else {
            assert(text[i] == credential[i - 7]);
        }
    }
    law_header_text_is_read(before, "authorization"@, text, after);
    assert(text.take(7) =~= scheme);
    assert(text.skip(7) =~= credential);
}

} // verus!
