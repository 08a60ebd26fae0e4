//! Usage receipts: what is reported of a served request, signed by this device.

use vstd::prelude::*;
use crate::clock::{is_clock_time, nanos_since_epoch};
use crate::config::RuntimeConfig;
use crate::grants::{detail_or, GrantView, InferenceGrant};
use crate::heartbeat::number;
use crate::http::{
    post_call, status_line, status_text, with_header, Call, CallView, Method, Reply,
};
use crate::identity::{base64_text, ed25519_public, ed25519_signature, DeviceKey};
use crate::json::{
    is_exact, json_parsed, json_text, lemma_raw_key_length, raw_key, set_field, Json, JsonNumber,
    JsonView,
};
use crate::meter::{with_recorded, UsageMeter};
use crate::pairing::pairing_call_of;
use crate::text::{
    contains, contains_text, decimal, decimal_text, law_containing, lemma_decimal_digits,
    lemma_decimal_value,
};
use crate::usage::TokenUsage;

verus! {

/// How a request ended.
#[derive(Debug, Clone, Copy, PartialEq, Eq, Structural)]
pub enum RequestStatus {
    Completed,
    Failed,
}

impl RequestStatus {
    /// The status as the control plane knows it.
    pub open spec fn code(self) -> Seq<char> {
        match self {
            RequestStatus::Completed => "completed"@,
            RequestStatus::Failed => "failed"@,
        }
    }

    /// The status as the control plane knows it.
    pub fn text(&self) -> (text: &'static str)
        ensures
            text@ == self.code(),
    {
        match self {
            RequestStatus::Completed => "completed",
            RequestStatus::Failed => "failed",
        }
    }
}

/// The id of a request: its grant, and the nanoseconds at which it is reported.
pub open spec fn request_id(grant_id: Seq<char>, nanos: nat) -> Seq<char> {
    grant_id + "-"@ + decimal_text(nanos)
}

/// The document that reports a request: the grant, the counts, the duration and the status, and
/// nothing of what was asked or answered.
pub open spec fn receipt_document(
    grant: GrantView,
    nanos: nat,
    usage: TokenUsage,
    duration_ms: u64,
    status: RequestStatus,
) -> JsonView {
    JsonView::Object(
        Map::empty().insert("grant_id"@, JsonView::Text(grant.grant_id)).insert(
            "request_token"@,
            JsonView::Text(grant.request_token),
        ).insert("request_id"@, JsonView::Text(request_id(grant.grant_id, nanos))).insert(
            "input_tokens"@,
            number(usage.input_tokens),
        ).insert("output_tokens"@, number(usage.output_tokens)).insert(
            "total_tokens"@,
            number(usage.total_tokens),
        ).insert("duration_ms"@, number(duration_ms)).insert(
            "status"@,
            JsonView::Text(status.code()),
        ),
    )
}

/// The call that submits a receipt, signed over the exact bytes of its body.
pub open spec fn receipt_call_of(
    base: Seq<char>,
    device_id: Seq<char>,
    secret: Seq<u8>,
    document: JsonView,
) -> CallView {
    let call = post_call(base + "/v1/usage-receipts"@, document);
    with_header(
        with_header(call, "X-DoodleIQ-Device"@, device_id),
        "X-DoodleIQ-Signature"@,
        base64_text(ed25519_signature(secret, call.body->Some_0)),
    )
}

proof fn lemma_receipt_exact(
    grant: GrantView,
    nanos: nat,
    usage: TokenUsage,
    duration_ms: u64,
    status: RequestStatus,
)
    ensures
        is_exact(receipt_document(grant, nanos, usage, duration_ms, status), 127),
{
    lemma_raw_key_length();
    reveal_strlit("grant_id");
    reveal_strlit("request_token");
    reveal_strlit("request_id");
    reveal_strlit("input_tokens");
    reveal_strlit("output_tokens");
    reveal_strlit("total_tokens");
    reveal_strlit("duration_ms");
    reveal_strlit("status");
    assert("grant_id"@.len() < 30);
    assert("request_token"@.len() < 30);
    assert("request_id"@.len() < 30);
    assert("input_tokens"@.len() < 30);
    assert("output_tokens"@.len() < 30);
    assert("total_tokens"@.len() < 30);
    assert("duration_ms"@.len() < 30);
    assert("status"@.len() < 30);
    let map = receipt_document(grant, nanos, usage, duration_ms, status)->Object_0;
    assert(!map.contains_key(raw_key()));
    assert forall|k: Seq<char>| #[trigger] map.contains_key(k) implies is_exact(map[k], 126) by {}
}

/// The call that submits the receipt of a request that is reported at the time `nanos`. Its
/// signature is over the exact bytes that it sends, and whoever parses them reads the receipt.
pub fn usage_receipt_call_at(
    key: &DeviceKey,
    config: &RuntimeConfig,
    base: &str,
    grant: &InferenceGrant,
    usage: TokenUsage,
    duration_ms: u64,
    status: RequestStatus,
    nanos: u128,
) -> (call: Call)
    ensures
        ({
            let document = receipt_document(grant@, nanos as nat, usage, duration_ms, status);
            &&& call@ == receipt_call_of(base@, config@.device_id, key.secret(), document)
            &&& json_parsed(call@.body->Some_0) == Some(document)
        }),
{
    let mut id: String = grant.grant_id.clone();
    id.append("-");
    id.append(decimal(nanos).as_str());
    let mut entries: Vec<(String, Json)> = Vec::new();
    set_field(&mut entries, "grant_id", Json::text(grant.grant_id.as_str()));
    set_field(&mut entries, "request_token", Json::text(grant.request_token.as_str()));
    set_field(&mut entries, "request_id", Json::Text(id));
    set_field(&mut entries, "input_tokens", Json::unsigned(usage.input_tokens));
    set_field(&mut entries, "output_tokens", Json::unsigned(usage.output_tokens));
    set_field(&mut entries, "total_tokens", Json::unsigned(usage.total_tokens));
    set_field(&mut entries, "duration_ms", Json::unsigned(duration_ms));
    set_field(&mut entries, "status", Json::text(status.text()));
    let mut url: String = base.to_owned();
    url.append("/v1/usage-receipts");
    proof {
        lemma_receipt_exact(grant@, nanos as nat, usage, duration_ms, status);
    }
    let call: Call = Call::post(url, Json::Object(entries));
    let signature: String = match &call.body {
        Some(body) => key.sign(body.as_slice()),
        None => String::new(),
    };
    let call: Call = call.with_header("X-DoodleIQ-Device", config.device_id.as_str());
    call.with_header("X-DoodleIQ-Signature", signature.as_str())
}

/// The call that submits the receipt of a request that is reported at the time that a clock
/// reading gives. A reading that is an error leaves no id for the request, and is the error.
pub fn usage_receipt_call_from(
    key: &DeviceKey,
    config: &RuntimeConfig,
    base: &str,
    grant: &InferenceGrant,
    usage: TokenUsage,
    duration_ms: u64,
    status: RequestStatus,
    reading: Result<u128, String>,
) -> (call: Result<Call, String>)
    ensures
        match reading {
            Ok(nanos) => call matches Ok(call) && {
                let document = receipt_document(grant@, nanos as nat, usage, duration_ms, status);
                &&& call@ == receipt_call_of(base@, config@.device_id, key.secret(), document)
                &&& json_parsed(call@.body->Some_0) == Some(document)
            },
            Err(error) => call matches Err(given) && given@ == error@,
        },
{
    match reading {
        Ok(nanos) => Ok(
            usage_receipt_call_at(
                key,
                config,
                base,
                grant,
                usage,
                duration_ms,
                status,
                nanos,
            ),
        ),
        Err(error) => Err(error),
    }
}

/// The call that submits the receipt of a request that is reported now. Where the clock stands
/// before the epoch there is no id for the request, and the error is the clock's; whether it does
/// is left open.
pub fn usage_receipt_call(
    key: &DeviceKey,
    config: &RuntimeConfig,
    base: &str,
    grant: &InferenceGrant,
    usage: TokenUsage,
    duration_ms: u64,
    status: RequestStatus,
) -> (call: Result<Call, String>)
    ensures
        call matches Ok(call) ==> exists|nanos: u128|
            {
                let document = receipt_document(grant@, nanos as nat, usage, duration_ms, status);
                &&& #[trigger] is_clock_time(nanos)
                &&& call@ == receipt_call_of(base@, config@.device_id, key.secret(), document)
                &&& json_parsed(call@.body->Some_0) == Some(document)
            },
{
    let reading: Result<u128, String> = nanos_since_epoch();
    proof {
        if reading is Ok {
            assert(is_clock_time(reading->Ok_0));
        }
    }
    usage_receipt_call_from(key, config, base, grant, usage, duration_ms, status, reading)
}

/// Whether a refusal says that the device's signature is not the one that the control plane
/// expects.
pub open spec fn says_wrong_key(status: u16, detail: Seq<char>) -> bool {
    status == 401 && contains_text(detail, "Invalid device signature"@)
}

/// What came of a receipt, given what came of its call.
pub open spec fn submission_of(reply: Reply<()>) -> Result<(), Seq<char>> {
    match reply {
        Reply::Unreachable(err) => Err("usage receipt service is unavailable: "@ + err@),
        Reply::Rejected { status, detail } => {
            let detail = detail_or(detail, "unable to read error response"@);
            if says_wrong_key(status, detail) {
                Err(
                    "the local device key no longer matches this pairing; run `doodleiq reset`, then `doodleiq pair`"@,
                )
            } else {
                Err("usage receipt service returned "@ + status_line(status) + ": "@ + detail)
            }
        },
        _ => Ok(()),
    }
}

/// What a submission says.
pub open spec fn submission_view(result: Result<(), String>) -> Result<(), Seq<char>> {
    match result {
        Ok(()) => Ok(()),
        Err(error) => Err(error@),
    }
}

/// What came of a receipt, given what came of its call.
pub fn submit_usage_receipt(reply: Reply<()>) -> (submitted: Result<(), String>)
    ensures
        submission_view(submitted) == submission_of(reply),
{
    match reply {
        Reply::Unreachable(err) => {
            let mut text: String = "usage receipt service is unavailable: ".to_owned();
            text.append(err.as_str());
            Err(text)
        },
        Reply::Rejected { status, detail } => {
            let detail: String = match detail {
                Some(detail) => detail,
                None => "unable to read error response".to_owned(),
            };
            if status == 401 && contains(detail.as_str(), "Invalid device signature") {
                return Err(
                    "the local device key no longer matches this pairing; run `doodleiq reset`, then `doodleiq pair`".to_owned(),
                );
            }
            let mut text: String = "usage receipt service returned ".to_owned();
            text.append(status_text(status).as_str());
            text.append(": ");
            text.append(detail.as_str());
            Err(text)
        },
        Reply::Malformed(_) => Ok(()),
        Reply::Answered(_) => Ok(()),
    }
}

/// Counts a request whose receipt was submitted, and no other.
pub fn record_submitted(
    meter: &mut UsageMeter,
    submitted: &Result<(), String>,
    usage: TokenUsage,
    duration_ms: u64,
)
    ensures
        final(meter)@ == (if submitted is Ok {
            with_recorded(old(meter)@, usage, duration_ms)
        } else {
            old(meter)@
        }),
{
    match submitted {
        Ok(_) => meter.record(usage, duration_ms),
        Err(_) => (),
    }
}

// ---------------------------------------------------------------------------------------------
// What holds of every receipt
// ---------------------------------------------------------------------------------------------

/// Two requests have the same id only where their grants and their times are the same.
pub proof fn law_request_ids_are_unique(
    grant_a: Seq<char>,
    nanos_a: nat,
    grant_b: Seq<char>,
    nanos_b: nat,
)
    requires
        request_id(grant_a, nanos_a) == request_id(grant_b, nanos_b),
    ensures
        grant_a == grant_b,
        nanos_a == nanos_b,
{
    reveal_strlit("-");
    let id = request_id(grant_a, nanos_a);
    let digits_a = decimal_text(nanos_a);
    let digits_b = decimal_text(nanos_b);
    lemma_decimal_digits(nanos_a);
    lemma_decimal_digits(nanos_b);
    assert(id[grant_a.len() as int] == '-');
    assert(request_id(grant_b, nanos_b)[grant_b.len() as int] == '-');
    assert(forall|i: int|
        grant_a.len() < i < id.len() ==> #[trigger] id[i] == digits_a[i - grant_a.len() - 1]);
    assert(forall|i: int|
        grant_b.len() < i < id.len() ==> #[trigger] id[i] == digits_b[i - grant_b.len() - 1]);
    assert(grant_a.len() == grant_b.len());
    assert(grant_a =~= id.take(grant_a.len() as int));
    assert(grant_b =~= id.take(grant_b.len() as int));
    assert(digits_a =~= id.skip(grant_a.len() as int + 1));
    assert(digits_b =~= id.skip(grant_b.len() as int + 1));
    lemma_decimal_value(nanos_a);
    lemma_decimal_value(nanos_b);
}

/// A receipt reports the grant, the counts, the duration and the status, and nothing else.
pub proof fn law_receipt_has_no_content(
    grant: GrantView,
    nanos: nat,
    usage: TokenUsage,
    duration_ms: u64,
    status: RequestStatus,
)
    ensures
        receipt_document(grant, nanos, usage, duration_ms, status)->Object_0.dom() == set![
            "grant_id"@,
            "request_token"@,
            "request_id"@,
            "input_tokens"@,
            "output_tokens"@,
            "total_tokens"@,
            "duration_ms"@,
            "status"@,
        ],
{
    assert(receipt_document(grant, nanos, usage, duration_ms, status)->Object_0.dom() =~= set![
        "grant_id"@,
        "request_token"@,
        "request_id"@,
        "input_tokens"@,
        "output_tokens"@,
        "total_tokens"@,
        "duration_ms"@,
        "status"@,
    ]);
}

/// The device's secret stays on the machine: of the two calls that the device key goes into, the
/// one that begins a pairing is the same for any two secrets with the same public key, and the one
/// that submits a receipt for any two that sign its body alike.
pub proof fn law_secret_is_not_sent(
    secret: Seq<u8>,
    other: Seq<u8>,
    device_name: Seq<char>,
    base: Seq<char>,
    device_id: Seq<char>,
    document: JsonView,
)
    ensures
        ed25519_public(secret) == ed25519_public(other) ==> pairing_call_of(
            base,
            device_name,
            secret,
        ) == pairing_call_of(base, device_name, other),
        ed25519_signature(secret, json_text(document)) == ed25519_signature(
            other,
            json_text(document),
        ) ==> receipt_call_of(base, device_id, secret, document) == receipt_call_of(
            base,
            device_id,
            other,
            document,
        ),
{
}

/// A receipt's call carries the device and the signature of its own body, no pairing token, and
/// no other credential.
pub proof fn law_receipt_is_signed(
    base: Seq<char>,
    device_id: Seq<char>,
    secret: Seq<u8>,
    document: JsonView,
)
    ensures
        ({
            let call = receipt_call_of(base, device_id, secret, document);
            &&& call.body == Some(json_text(document))
            &&& call.headers == seq![
                ("Content-Type"@, "application/json"@),
                ("X-DoodleIQ-Device"@, device_id),
                (
                    "X-DoodleIQ-Signature"@,
                    base64_text(ed25519_signature(secret, call.body->Some_0)),
                ),
            ]
        }),
{
    let call = receipt_call_of(base, device_id, secret, document);
    assert(call.headers =~= seq![
        ("Content-Type"@, "application/json"@),
        ("X-DoodleIQ-Device"@, device_id),
        ("X-DoodleIQ-Signature"@, base64_text(ed25519_signature(secret, call.body->Some_0))),
    ]);
}

/// A receipt says what was served: the grant's id and token as they are, the three counts and the
/// duration as they were given, the status by its name, and an id of the grant's id, a hyphen and
/// the time.
pub proof fn law_receipt_says_what_was_served(
    grant: GrantView,
    nanos: nat,
    usage: TokenUsage,
    duration_ms: u64,
    status: RequestStatus,
)
    ensures
        receipt_document(grant, nanos, usage, duration_ms, status) matches JsonView::Object(map)
            && {
            &&& map["grant_id"@] == JsonView::Text(grant.grant_id)
            &&& map["request_token"@] == JsonView::Text(grant.request_token)
            &&& map["request_id"@] == JsonView::Text(grant.grant_id + "-"@ + decimal_text(nanos))
            &&& map["input_tokens"@] == JsonView::Number(JsonNumber::Unsigned(usage.input_tokens))
            &&& map["output_tokens"@] == JsonView::Number(
                JsonNumber::Unsigned(usage.output_tokens),
            )
            &&& map["total_tokens"@] == JsonView::Number(JsonNumber::Unsigned(usage.total_tokens))
            &&& map["duration_ms"@] == JsonView::Number(JsonNumber::Unsigned(duration_ms))
            &&& status is Completed ==> map["status"@] == JsonView::Text("completed"@)
            &&& status is Failed ==> map["status"@] == JsonView::Text("failed"@)
        },
{
    reveal_strlit("grant_id");
    reveal_strlit("request_token");
    reveal_strlit("request_id");
    reveal_strlit("input_tokens");
    reveal_strlit("output_tokens");
    reveal_strlit("total_tokens");
    reveal_strlit("duration_ms");
    reveal_strlit("status");
    assert("grant_id"@.len() == 8);
    assert("request_token"@.len() == 13 && "output_tokens"@.len() == 13);
    assert("request_token"@[0] != "output_tokens"@[0]);
    assert("request_id"@.len() == 10);
    assert("input_tokens"@.len() == 12 && "total_tokens"@.len() == 12);
    assert("input_tokens"@[0] != "total_tokens"@[0]);
    assert("duration_ms"@.len() == 11);
    assert("status"@.len() == 6);
}

/// A receipt goes to the control plane's receipts, as a POST, under the device's name.
pub proof fn law_receipt_call(
    base: Seq<char>,
    device_id: Seq<char>,
    secret: Seq<u8>,
    document: JsonView,
)
    ensures
        ({
            let call = receipt_call_of(base, device_id, secret, document);
            &&& call.method == Method::Post
            &&& call.url == base + "/v1/usage-receipts"@
            &&& call.body == Some(json_text(document))
            &&& call.headers.len() == 3
            &&& call.headers[1] == ("X-DoodleIQ-Device"@, device_id)
            &&& call.headers[2].0 == "X-DoodleIQ-Signature"@
            &&& call.headers[2].1 == base64_text(ed25519_signature(secret, json_text(document)))
        }),
{
}

/// A receipt was submitted exactly where the control plane answered with a status of success,
/// whatever the answer says. Otherwise the error says what it was: no answer, or the refusal with
/// its status and its words; and where the refusal is a 401 that names the device's signature, it
/// says how to pair again.
pub proof fn law_submission(
    reply: Reply<()>,
    err: String,
    status: u16,
    detail: String,
    before: Seq<char>,
    after: Seq<char>,
)
    ensures
        reply is Answered || reply is Malformed ==> submission_of(reply) is Ok,
        submission_of(Reply::Unreachable(err)) == Err::<(), Seq<char>>(
            "usage receipt service is unavailable: "@ + err@,
        ),
        status != 401 ==> submission_of(Reply::Rejected { status, detail: Some(detail) }) == Err::<
            (),
            Seq<char>,
        >("usage receipt service returned "@ + status_line(status) + ": "@ + detail@),
        status != 401 ==> submission_of(Reply::Rejected { status, detail: None }) == Err::<
            (),
            Seq<char>,
        >(
            "usage receipt service returned "@ + status_line(status) + ": "@
                + "unable to read error response"@,
        ),
        status == 401 && detail@ == before + "Invalid device signature"@ + after
            ==> submission_of(Reply::Rejected { status, detail: Some(detail) }) == Err::<
            (),
            Seq<char>,
        >(
            "the local device key no longer matches this pairing; run `doodleiq reset`, then `doodleiq pair`"@,
        ),
        (forall|head: Seq<char>, tail: Seq<char>|
            detail@ != #[trigger] (head + "Invalid device signature"@ + tail)) ==> submission_of(
            Reply::Rejected { status, detail: Some(detail) },
        ) == Err::<(), Seq<char>>(
            "usage receipt service returned "@ + status_line(status) + ": "@ + detail@,
        ),
{
    law_containing(before, "Invalid device signature"@, after, detail@);
}

} // verus!
