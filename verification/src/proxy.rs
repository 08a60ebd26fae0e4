//! The proxy: what the gateway does with a consumer's request, step by step.

use vstd::prelude::*;
use vstd::utf8::*;
use crate::config::{ConfigView, RuntimeConfig};
use crate::grants::{
    grant_of, inference_grant, validation_of, validation_view, GrantValidation, GrantView,
    InferenceGrant,
};
use crate::http::{
    error_answer, header_text, header_value, headers_view, json_error, law_header_is_read,
    law_header_text_is_read, response_headers, sent_back, AnswerView, GatewayAnswer, Header,
    HeaderView, Reply,
};
use crate::meter::{with_activity, with_disconnect, MeterView, UsageMeter};
use crate::receipts::RequestStatus;
use crate::text::{contains, contains_text, held, is_white, law_blank, law_containing};
use crate::upstream::{
    borrowed, upstream_request, upstream_request_of, url_host, url_parsed, url_port, url_scheme,
    UpstreamRequest, UpstreamView,
};
use crate::usage::{
    fresh_stream, json_usage, sse_usage, stream_next, stream_report, usage_from_json, StreamMeter,
    StreamView, TokenUsage,
};

verus! {

/// The largest body that is taken in.
pub const MAX_REQUEST_BYTES: usize = 33_554_432;

/// A consumer's request, up to its body.
#[derive(Debug)]
pub struct ProxyRequest {
    pub path: String,
    pub query: Option<String>,
    pub headers: Vec<Header>,
}

/// What a [`ProxyRequest`] says.
pub struct RequestView {
    pub path: Seq<char>,
    pub query: Option<Seq<char>>,
    pub headers: Seq<HeaderView>,
}

impl ProxyRequest {
    /// What this request says.
    pub open spec fn view(&self) -> RequestView {
        RequestView {
            path: self.path@,
            query: held(self.query),
            headers: headers_view(self.headers@),
        }
    }
}

/// A receipt that is due.
#[derive(Debug)]
pub struct DueReceipt {
    pub grant: InferenceGrant,
    pub usage: TokenUsage,
    pub status: RequestStatus,
}

/// What a [`DueReceipt`] says.
pub struct DueView {
    pub grant: GrantView,
    pub usage: TokenUsage,
    pub status: RequestStatus,
}

/// How far a request has come.
pub enum ProxyStage {
    /// It has arrived.
    Arrived,
    /// Its grant is being validated.
    Validating(InferenceGrant),
    /// Its body is being read.
    Reading(InferenceGrant),
    /// It was sent on to the model runtime.
    Forwarding(InferenceGrant),
    /// The answer is being streamed back.
    Streaming { grant: InferenceGrant, watched: StreamMeter },
    /// The answer is being collected.
    Collecting { grant: InferenceGrant, status: u16, headers: Vec<Header> },
    /// It was answered.
    Finished,
}

/// What a [`ProxyStage`] is.
pub enum StageView {
    Arrived,
    Validating(GrantView),
    Reading(GrantView),
    Forwarding(GrantView),
    Streaming { grant: GrantView, watched: StreamView },
    Collecting { grant: GrantView, status: u16, headers: Seq<HeaderView> },
    Finished,
}

/// What happens to a request.
pub enum ProxyEvent {
    /// Work on it begins.
    Received,
    /// The control plane was asked about its grant.
    Validated(Result<GrantValidation, String>),
    /// Its body was read, or is larger than [`MAX_REQUEST_BYTES`] or broken.
    BodyRead(Option<Vec<u8>>),
    /// The model runtime could not be reached.
    Unreachable,
    /// The model runtime answered, with a body to follow.
    Answered { status: u16, headers: Vec<Header> },
    /// A piece of a streamed answer.
    Chunk(Vec<u8>),
    /// The whole of another answer, or nothing where it could not be read.
    ResponseRead(Option<Vec<u8>>),
}

/// What a [`ProxyEvent`] says.
pub enum EventView {
    Received,
    Validated(Result<GrantValidation, Seq<char>>),
    BodyRead(Option<Seq<u8>>),
    Unreachable,
    Answered { status: u16, headers: Seq<HeaderView> },
    Chunk(Seq<u8>),
    ResponseRead(Option<Seq<u8>>),
}

/// What is done next with a request.
pub enum ProxyAction {
    /// Ask the control plane about this grant.
    Validate(InferenceGrant),
    /// Read the request's body, up to [`MAX_REQUEST_BYTES`].
    ReadBody,
    /// Send this to the model runtime.
    Forward(UpstreamRequest),
    /// Begin to answer the consumer, with pieces to follow.
    Stream { status: u16, headers: Vec<Header> },
    /// Pass this piece on, and submit the receipt where one is due.
    Relay { chunk: Vec<u8>, receipt: Option<DueReceipt> },
    /// Read the whole of the model runtime's answer.
    Collect,
    /// Answer the consumer with this, and submit the receipt where one is due.
    Deliver { status: u16, headers: Vec<Header>, body: Vec<u8>, receipt: Option<DueReceipt> },
    /// Answer the consumer with this.
    Answer(GatewayAnswer),
    /// Nothing.
    Ignore,
}

/// What a [`ProxyAction`] is.
pub enum ActionView {
    Validate(GrantView),
    ReadBody,
    Forward(UpstreamView),
    Stream { status: u16, headers: Seq<HeaderView> },
    Relay { chunk: Seq<u8>, receipt: Option<DueView> },
    Collect,
    Deliver {
        status: u16,
        headers: Seq<HeaderView>,
        body: Seq<u8>,
        receipt: Option<DueView>,
    },
    Answer(AnswerView),
    Ignore,
}

impl DueReceipt {
    /// What this receipt says.
    pub open spec fn view(&self) -> DueView {
        DueView { grant: self.grant@, usage: self.usage, status: self.status }
    }
}

/// What a receipt that may be due says.
pub open spec fn due(receipt: Option<DueReceipt>) -> Option<DueView> {
    match receipt {
        Some(receipt) => Some(receipt@),
        None => None,
    }
}

/// The bytes that may be there.
pub open spec fn bytes_of(bytes: Option<Vec<u8>>) -> Option<Seq<u8>> {
    match bytes {
        Some(bytes) => Some(bytes@),
        None => None,
    }
}

impl ProxyStage {
    /// What this stage is.
    pub open spec fn view(&self) -> StageView {
        match *self {
            ProxyStage::Arrived => StageView::Arrived,
            ProxyStage::Validating(grant) => StageView::Validating(grant@),
            ProxyStage::Reading(grant) => StageView::Reading(grant@),
            ProxyStage::Forwarding(grant) => StageView::Forwarding(grant@),
            ProxyStage::Streaming { grant, watched } => StageView::Streaming {
                grant: grant@,
                watched: watched@,
            },
            ProxyStage::Collecting { grant, status, headers } => StageView::Collecting {
                grant: grant@,
                status,
                headers: headers_view(headers@),
            },
            ProxyStage::Finished => StageView::Finished,
        }
    }
}

impl ProxyEvent {
    /// What this event says.
    pub open spec fn view(&self) -> EventView {
        match *self {
            ProxyEvent::Received => EventView::Received,
            ProxyEvent::Validated(validation) => EventView::Validated(validation_view(validation)),
            ProxyEvent::BodyRead(body) => EventView::BodyRead(bytes_of(body)),
            ProxyEvent::Unreachable => EventView::Unreachable,
            ProxyEvent::Answered { status, headers } => EventView::Answered {
                status,
                headers: headers_view(headers@),
            },
            ProxyEvent::Chunk(chunk) => EventView::Chunk(chunk@),
            ProxyEvent::ResponseRead(body) => EventView::ResponseRead(bytes_of(body)),
        }
    }
}

impl ProxyAction {
    /// What this action is.
    pub open spec fn view(&self) -> ActionView {
        match *self {
            ProxyAction::Validate(grant) => ActionView::Validate(grant@),
            ProxyAction::ReadBody => ActionView::ReadBody,
            ProxyAction::Forward(request) => ActionView::Forward(request@),
            ProxyAction::Stream { status, headers } => ActionView::Stream {
                status,
                headers: headers_view(headers@),
            },
            ProxyAction::Relay { chunk, receipt } => ActionView::Relay {
                chunk: chunk@,
                receipt: due(receipt),
            },
            ProxyAction::Collect => ActionView::Collect,
            ProxyAction::Deliver { status, headers, body, receipt } => ActionView::Deliver {
                status,
                headers: headers_view(headers@),
                body: body@,
                receipt: due(receipt),
            },
            ProxyAction::Answer(answer) => ActionView::Answer(answer@),
            ProxyAction::Ignore => ActionView::Ignore,
        }
    }
}

/// Whether a status is one of success.
pub open spec fn is_success(status: u16) -> bool {
    200 <= status < 300
}

/// Whether the headers announce a stream of events.
pub open spec fn announces_events(headers: Seq<HeaderView>) -> bool {
    header_value(headers, "content-type"@) matches Some(value) && contains_text(
        value,
        "text/event-stream"@,
    )
}

/// What is done with a request that has arrived: without a configured runtime, or without a
/// grant, it is refused.
pub open spec fn on_received(config: ConfigView, request: RequestView) -> (StageView, ActionView) {
    if !config.configured() {
        (
            StageView::Finished,
            ActionView::Answer(
                error_answer(
                    503,
                    "the local model runtime is not configured; run `doodleiq configure`"@,
                ),
            ),
        )
    } else {
        match grant_of(request.headers) {
            Some(grant) => (StageView::Validating(grant), ActionView::Validate(grant)),
            None => (
                StageView::Finished,
                ActionView::Answer(error_answer(401, "a DoodleIQ inference grant is required"@)),
            ),
        }
    }
}

/// What is done with a request whose body was read: one that could not be read, or is larger than
/// [`MAX_REQUEST_BYTES`], is refused.
pub open spec fn on_body(
    config: ConfigView,
    request: RequestView,
    grant: GrantView,
    body: Option<Seq<u8>>,
) -> (StageView, ActionView) {
    let too_large = (
        StageView::Finished,
        ActionView::Answer(error_answer(413, "request body is too large"@)),
    );
    match body {
        Some(body) => if body.len() > MAX_REQUEST_BYTES {
            too_large
        } else {
            match upstream_request_of(
                config,
                request.path,
                request.query,
                request.headers,
                body,
            ) {
                Ok(upstream) => (StageView::Forwarding(grant), ActionView::Forward(upstream)),
                Err(answer) => (StageView::Finished, ActionView::Answer(answer)),
            }
        },
        None => too_large,
    }
}

/// What is done with an answer of the model runtime: a stream of events is passed on piece by
/// piece, any other answer is collected first.
pub open spec fn on_answered(grant: GrantView, status: u16, headers: Seq<HeaderView>) -> (
    StageView,
    ActionView,
) {
    if announces_events(headers) {
        (
            StageView::Streaming { grant, watched: fresh_stream() },
            ActionView::Stream { status, headers: sent_back(headers) },
        )
    } else {
        (StageView::Collecting { grant, status, headers }, ActionView::Collect)
    }
}

/// The receipt that is due for a usage, where there is one.
pub open spec fn due_for(
    grant: GrantView,
    usage: Option<TokenUsage>,
    status: RequestStatus,
) -> Option<DueView> {
    match usage {
        Some(usage) => Some(DueView { grant, usage, status }),
        None => None,
    }
}

/// How a request ended whose answer has this status.
pub open spec fn ended(status: u16) -> RequestStatus {
    if is_success(status) {
        RequestStatus::Completed
    } else {
        RequestStatus::Failed
    }
}

/// What is done with a collected answer: it goes to the consumer as it is, and a receipt is due
/// where it reports usage.
pub open spec fn on_collected(
    grant: GrantView,
    status: u16,
    headers: Seq<HeaderView>,
    body: Option<Seq<u8>>,
) -> ActionView {
    match body {
        Some(body) => ActionView::Deliver {
            status,
            headers: sent_back(headers),
            body,
            receipt: due_for(grant, json_usage(body), ended(status)),
        },
        None => ActionView::Answer(error_answer(502, "unable to read the model runtime response"@)),
    }
}

/// What is done next with a request. An event that is not waited for changes nothing.
pub open spec fn proxy_next(
    config: ConfigView,
    request: RequestView,
    stage: StageView,
    event: EventView,
) -> (StageView, ActionView) {
    match (stage, event) {
        (StageView::Arrived, EventView::Received) => on_received(config, request),
        (StageView::Validating(grant), EventView::Validated(validation)) => match validation {
            Ok(_) => (StageView::Reading(grant), ActionView::ReadBody),
            Err(message) => (
                StageView::Finished,
                ActionView::Answer(error_answer(401, message)),
            ),
        },
        (StageView::Reading(grant), EventView::BodyRead(body)) => on_body(
            config,
            request,
            grant,
            body,
        ),
        (StageView::Forwarding(_), EventView::Unreachable) => (
            StageView::Finished,
            ActionView::Answer(error_answer(502, "unable to reach the model runtime"@)),
        ),
        (StageView::Forwarding(grant), EventView::Answered { status, headers }) => on_answered(
            grant,
            status,
            headers,
        ),
        (StageView::Streaming { grant, watched }, EventView::Chunk(chunk)) => (
            StageView::Streaming { grant, watched: stream_next(watched, chunk) },
            ActionView::Relay {
                chunk,
                receipt: due_for(grant, stream_report(watched, chunk), RequestStatus::Completed),
            },
        ),
        (StageView::Collecting { grant, status, headers }, EventView::ResponseRead(body)) => (
            StageView::Finished,
            on_collected(grant, status, headers, body),
        ),
        _ => (stage, ActionView::Ignore),
    }
}

/// The meter after an event: a valid grant is activity of its consumer, and a grant that is not
/// valid, or no longer, ends the session that the meter knows of it.
pub open spec fn proxy_meter(stage: StageView, event: EventView, meter: MeterView, now: u64) -> MeterView {
    match (stage, event) {
        (StageView::Validating(grant), EventView::Validated(validation)) => match validation {
            Ok(validation) => with_activity(
                meter,
                grant.grant_id,
                validation.expires_at_epoch,
                validation.started_at_epoch,
                now,
            ),
            Err(_) => with_disconnect(meter, grant.grant_id),
        },
        _ => meter,
    }
}

/// Whether the headers announce a stream of events.
fn is_event_stream(headers: &Vec<Header>) -> (stream: bool)
    ensures
        stream == announces_events(headers_view(headers@)),
{
    match header_text(headers, "content-type") {
        Some(value) => contains(value, "text/event-stream"),
        None => false,
    }
}

/// The receipt that is due for a usage, where there is one.
fn due_receipt(grant: &InferenceGrant, usage: Option<TokenUsage>, status: RequestStatus) -> (receipt:
    Option<DueReceipt>)
    ensures
        due(receipt) == due_for(grant@, usage, status),
{
    match usage {
        Some(usage) => Some(DueReceipt { grant: grant.copy(), usage, status }),
        None => None,
    }
}

/// What is done with a request that has arrived.
fn received(config: &RuntimeConfig, request: &ProxyRequest) -> (next: (ProxyStage, ProxyAction))
    ensures
        (next.0@, next.1@) == on_received(config@, request@),
{
    if !config.is_configured() {
        return (
            ProxyStage::Finished,
            ProxyAction::Answer(
                json_error(
                    503,
                    "the local model runtime is not configured; run `doodleiq configure`",
                ),
            ),
        );
    }
    match inference_grant(&request.headers) {
        Some(grant) => (
            ProxyStage::Validating(grant.copy()),
            ProxyAction::Validate(grant),
        ),
        None => (
            ProxyStage::Finished,
            ProxyAction::Answer(json_error(401, "a DoodleIQ inference grant is required")),
        ),
    }
}

/// What is done with a request whose grant the control plane was asked about.
fn validated(
    grant: InferenceGrant,
    validation: Result<GrantValidation, String>,
    meter: &mut UsageMeter,
    now: u64,
) -> (next: (ProxyStage, ProxyAction))
    ensures
        validation is Ok ==> next.0@ == StageView::Reading(grant@) && next.1@
            == ActionView::ReadBody,
        validation matches Err(message) ==> next.0@ == StageView::Finished && next.1@
            == ActionView::Answer(error_answer(401, message@)),
        final(meter)@ == proxy_meter(
            StageView::Validating(grant@),
            EventView::Validated(validation_view(validation)),
            old(meter)@,
            now,
        ),
{
    match validation {
        Ok(validation) => {
            meter.note_consumer_activity_at(
                grant.grant_id.as_str(),
                validation.expires_at_epoch,
                validation.started_at_epoch,
                now,
            );
            (ProxyStage::Reading(grant), ProxyAction::ReadBody)
        },
        Err(message) => {
            meter.disconnect(grant.grant_id.as_str());
            (ProxyStage::Finished, ProxyAction::Answer(json_error(401, message.as_str())))
        },
    }
}

/// What is done with a request whose body was read.
fn body_read(
    config: &RuntimeConfig,
    request: &ProxyRequest,
    grant: InferenceGrant,
    body: Option<Vec<u8>>,
) -> (next: (ProxyStage, ProxyAction))
    ensures
        (next.0@, next.1@) == on_body(config@, request@, grant@, bytes_of(body)),
{
    let fits: bool = match &body {
        Some(body) => body.len() <= MAX_REQUEST_BYTES,
        None => false,
    };
    let body: Vec<u8> = match body {
        Some(body) if fits => body,
        _ => {
            return (
                ProxyStage::Finished,
                ProxyAction::Answer(json_error(413, "request body is too large")),
            );
        },
    };
    let query: Option<&str> = match &request.query {
        Some(query) => Some(query.as_str()),
        None => None,
    };
    assert(borrowed(query) == request@.query);
    match upstream_request(config, request.path.as_str(), query, &request.headers, body) {
        Ok(upstream) => (ProxyStage::Forwarding(grant), ProxyAction::Forward(upstream)),
        Err(answer) => (ProxyStage::Finished, ProxyAction::Answer(answer)),
    }
}

/// What is done with an answer of the model runtime.
fn answered(grant: InferenceGrant, status: u16, headers: Vec<Header>) -> (next: (
    ProxyStage,
    ProxyAction,
))
    ensures
        (next.0@, next.1@) == on_answered(grant@, status, headers_view(headers@)),
{
    if is_event_stream(&headers) {
        let back: Vec<Header> = response_headers(&headers);
        (
            ProxyStage::Streaming { grant, watched: StreamMeter::new() },
            ProxyAction::Stream { status, headers: back },
        )
    } else {
        (ProxyStage::Collecting { grant, status, headers }, ProxyAction::Collect)
    }
}

/// What is done with a piece of a streamed answer.
fn chunk_read(grant: InferenceGrant, watched: StreamMeter, chunk: Vec<u8>) -> (next: (
    ProxyStage,
    ProxyAction,
))
    ensures
        next.0@ == (StageView::Streaming {
            grant: grant@,
            watched: stream_next(watched@, chunk@),
        }),
        next.1@ == (ActionView::Relay {
            chunk: chunk@,
            receipt: due_for(
                grant@,
                stream_report(watched@, chunk@),
                RequestStatus::Completed,
            ),
        }),
{
    let mut watched: StreamMeter = watched;
    let usage: Option<TokenUsage> = watched.observe(chunk.as_slice());
    let receipt: Option<DueReceipt> = due_receipt(&grant, usage, RequestStatus::Completed);
    (ProxyStage::Streaming { grant, watched }, ProxyAction::Relay { chunk, receipt })
}

/// What is done with a collected answer.
fn collected(grant: InferenceGrant, status: u16, headers: Vec<Header>, body: Option<Vec<u8>>) -> (action:
    ProxyAction)
    ensures
        action@ == on_collected(grant@, status, headers_view(headers@), bytes_of(body)),
{
    match body {
        Some(body) => {
            let usage: Option<TokenUsage> = usage_from_json(body.as_slice());
            let ending: RequestStatus = if 200 <= status && status < 300 {
                RequestStatus::Completed
            } else {
                RequestStatus::Failed
            };
            let receipt: Option<DueReceipt> = due_receipt(&grant, usage, ending);
            let back: Vec<Header> = response_headers(&headers);
            ProxyAction::Deliver { status, headers: back, body, receipt }
        },
        None => ProxyAction::Answer(json_error(502, "unable to read the model runtime response")),
    }
}

impl ProxyStage {
    /// What is done next with a request, at the time `now`. An event that is not waited for
    /// changes nothing.
    pub fn proxy(
        self,
        config: &RuntimeConfig,
        request: &ProxyRequest,
        event: ProxyEvent,
        meter: &mut UsageMeter,
        now: u64,
    ) -> (next: (ProxyStage, ProxyAction))
        ensures
            (next.0@, next.1@) == proxy_next(config@, request@, self@, event@),
            final(meter)@ == proxy_meter(self@, event@, old(meter)@, now),
    {
        match self {
            ProxyStage::Arrived => match event {
                ProxyEvent::Received => received(config, request),
                _ => (ProxyStage::Arrived, ProxyAction::Ignore),
            },
            ProxyStage::Validating(grant) => match event {
                ProxyEvent::Validated(validation) => validated(grant, validation, meter, now),
                _ => (ProxyStage::Validating(grant), ProxyAction::Ignore),
            },
            ProxyStage::Reading(grant) => match event {
                ProxyEvent::BodyRead(body) => body_read(config, request, grant, body),
                _ => (ProxyStage::Reading(grant), ProxyAction::Ignore),
            },
            ProxyStage::Forwarding(grant) => match event {
                ProxyEvent::Unreachable => (
                    ProxyStage::Finished,
                    ProxyAction::Answer(json_error(502, "unable to reach the model runtime")),
                ),
                ProxyEvent::Answered { status, headers } => answered(grant, status, headers),
                _ => (ProxyStage::Forwarding(grant), ProxyAction::Ignore),
            },
            ProxyStage::Streaming { grant, watched } => match event {
                ProxyEvent::Chunk(chunk) => chunk_read(grant, watched, chunk),
                _ => (ProxyStage::Streaming { grant, watched }, ProxyAction::Ignore),
            },
            ProxyStage::Collecting { grant, status, headers } => match event {
                ProxyEvent::ResponseRead(body) => (
                    ProxyStage::Finished,
                    collected(grant, status, headers, body),
                ),
                _ => (ProxyStage::Collecting { grant, status, headers }, ProxyAction::Ignore),
            },
            ProxyStage::Finished => (ProxyStage::Finished, ProxyAction::Ignore),
        }
    }
}

// ---------------------------------------------------------------------------------------------
// What holds of every request
// ---------------------------------------------------------------------------------------------

/// How far a request has come after a run of events.
pub open spec fn stage_after(
    config: ConfigView,
    request: RequestView,
    events: Seq<EventView>,
) -> StageView
    decreases events.len(),
{
    if events.len() == 0 {
        StageView::Arrived
    } else {
        proxy_next(
            config,
            request,
            stage_after(config, request, events.drop_last()),
            events.last(),
        ).0
    }
}

/// What is done on the last of a run of events.
pub open spec fn action_on(
    config: ConfigView,
    request: RequestView,
    events: Seq<EventView>,
) -> ActionView
    recommends
        events.len() > 0,
{
    proxy_next(
        config,
        request,
        stage_after(config, request, events.drop_last()),
        events.last(),
    ).1
}

/// Whether, in a run of events, the control plane was asked about `grant` for this request and
/// found it valid.
pub open spec fn found_valid(
    config: ConfigView,
    request: RequestView,
    events: Seq<EventView>,
    grant: GrantView,
) -> bool
    decreases events.len(),
{
    events.len() > 0 && (found_valid(config, request, events.drop_last(), grant) || (stage_after(
        config,
        request,
        events.drop_last(),
    ) == StageView::Validating(grant) && events.last() matches EventView::Validated(Ok(_))))
}

/// The grant that a stage after validation works for.
pub open spec fn served_grant(stage: StageView) -> Option<GrantView> {
    match stage {
        StageView::Reading(grant) => Some(grant),
        StageView::Forwarding(grant) => Some(grant),
        StageView::Streaming { grant, .. } => Some(grant),
        StageView::Collecting { grant, .. } => Some(grant),
        _ => None,
    }
}

/// The receipt that an action submits.
pub open spec fn receipt_in(action: ActionView) -> Option<DueView> {
    match action {
        ActionView::Relay { receipt, .. } => receipt,
        ActionView::Deliver { receipt, .. } => receipt,
        _ => None,
    }
}

/// Every stage after validation works for the grant that the request shows, and that grant was
/// found valid for it.
proof fn lemma_served_grant_is_valid(
    config: ConfigView,
    request: RequestView,
    events: Seq<EventView>,
)
    ensures
        stage_after(config, request, events) matches StageView::Validating(grant) ==> {
            &&& grant_of(request.headers) == Some(grant)
            &&& config.configured()
        },
        served_grant(stage_after(config, request, events)) matches Some(grant) ==> {
            &&& grant_of(request.headers) == Some(grant)
            &&& config.configured()
            &&& found_valid(config, request, events, grant)
        },
    decreases events.len(),
{
    if events.len() > 0 {
        lemma_served_grant_is_valid(config, request, events.drop_last());
    }
}

/// Nothing of a request reaches the model runtime, and no receipt is due for it, unless the
/// control plane has found the grant that the request itself shows to be valid, for this very
/// request.
pub proof fn law_served_only_with_a_valid_grant(
    config: ConfigView,
    request: RequestView,
    events: Seq<EventView>,
)
    requires
        events.len() > 0,
    ensures
        action_on(config, request, events) is Forward ==> grant_of(request.headers) is Some
            && found_valid(
            config,
            request,
            events,
            grant_of(request.headers)->Some_0,
        ),
        receipt_in(action_on(config, request, events)) matches Some(receipt) ==> grant_of(
            request.headers,
        ) == Some(receipt.grant) && found_valid(config, request, events, receipt.grant),
{
    lemma_served_grant_is_valid(config, request, events.drop_last());
}

/// What is forwarded is the request as it should be: a runtime is configured, the body is no
/// larger than [`MAX_REQUEST_BYTES`], and scheme, host and port are those of the configured URL,
/// whatever the request says.
pub proof fn law_forwarded_as_configured(
    config: ConfigView,
    request: RequestView,
    events: Seq<EventView>,
)
    requires
        events.len() > 0,
        action_on(config, request, events) is Forward,
    ensures
        config.configured(),
        events.last() matches EventView::BodyRead(Some(body)) && body.len() <= MAX_REQUEST_BYTES,
        url_parsed(config.url) matches Some(url) && {
            let target = action_on(config, request, events)->Forward_0.target;
            &&& target.scheme == url_scheme(url)
            &&& target.host == url_host(url)
            &&& target.port == url_port(url)
        },
{
    lemma_served_grant_is_valid(config, request, events.drop_last());
}

/// The checks come in one order, and the first that fails answers: 503 without a configured
/// runtime, 401 without a grant, 401 where the grant is not valid, 413 where the body is too
/// large.
pub proof fn law_first_failing_check_answers(
    config: ConfigView,
    request: RequestView,
    grant: GrantView,
    message: Seq<char>,
    body: Seq<u8>,
)
    ensures
        !config.configured() ==> answers_with(
            proxy_next(config, request, StageView::Arrived, EventView::Received),
            503,
        ),
        config.configured() && grant_of(request.headers) is None ==> answers_with(
            proxy_next(config, request, StageView::Arrived, EventView::Received),
            401,
        ),
        answers_with(
            proxy_next(
                config,
                request,
                StageView::Validating(grant),
                EventView::Validated(Err(message)),
            ),
            401,
        ),
        body.len() > MAX_REQUEST_BYTES ==> answers_with(
            proxy_next(
                config,
                request,
                StageView::Reading(grant),
                EventView::BodyRead(Some(body)),
            ),
            413,
        ),
{
}

/// Whether a request is finished with an answer of this status.
pub open spec fn answers_with(next: (StageView, ActionView), status: u16) -> bool {
    next.0 == StageView::Finished && (next.1 matches ActionView::Answer(answer) && answer.status
        == status)
}

/// A request whose grant is not valid is refused: it is answered with 401 and the reason, it is
/// finished, and the meter forgets the session of that grant and of no other.
pub proof fn law_invalid_grant_is_refused(
    config: ConfigView,
    request: RequestView,
    grant: GrantView,
    message: Seq<char>,
    meter: MeterView,
    now: u64,
)
    ensures
        ({
            let stage = StageView::Validating(grant);
            let event = EventView::Validated(Err(message));
            let (next, action) = proxy_next(config, request, stage, event);
            let after = proxy_meter(stage, event, meter, now);
            &&& next == StageView::Finished
            &&& action == ActionView::Answer(error_answer(401, message))
            &&& after.active_grant_id != Some(grant.grant_id)
            &&& meter.active_grant_id != Some(grant.grant_id) ==> after == meter
        }),
{
}

/// A grant that the control plane does not confirm, for whatever reason, gets its request
/// answered with 401.
pub proof fn law_unconfirmed_grant_gets_401(
    config: ConfigView,
    request: RequestView,
    grant: GrantView,
    reply: Reply<GrantValidation>,
)
    requires
        !(reply is Answered),
    ensures
        ({
            let (next, action) = proxy_next(
                config,
                request,
                StageView::Validating(grant),
                EventView::Validated(validation_of(reply)),
            );
            &&& next == StageView::Finished
            &&& action matches ActionView::Answer(answer) && answer.status == 401
        }),
{
}

/// A finished request stays finished: nothing more is done with it, and the meter is left alone.
pub proof fn law_finished_is_final(
    config: ConfigView,
    request: RequestView,
    event: EventView,
    meter: MeterView,
    now: u64,
)
    ensures
        proxy_next(config, request, StageView::Finished, event) == (
            StageView::Finished,
            ActionView::Ignore,
        ),
        proxy_meter(StageView::Finished, event, meter, now) == meter,
{
}

/// How many receipts a run of events makes due.
pub open spec fn receipts_due(
    config: ConfigView,
    request: RequestView,
    events: Seq<EventView>,
) -> nat
    decreases events.len(),
{
    if events.len() == 0 {
        0
    } else {
        receipts_due(config, request, events.drop_last()) + if receipt_in(
            action_on(config, request, events),
        ) is Some {
            1nat
        } else {
            0nat
        }
    }
}

proof fn lemma_receipts_due(config: ConfigView, request: RequestView, events: Seq<EventView>)
    ensures
        match stage_after(config, request, events) {
            StageView::Finished => receipts_due(config, request, events) <= 1,
            StageView::Streaming { watched, .. } => receipts_due(config, request, events) == (
            if watched.recorded {
                1nat
            } else {
                0nat
            }),
            _ => receipts_due(config, request, events) == 0,
        },
    decreases events.len(),
{
    if events.len() > 0 {
        lemma_receipts_due(config, request, events.drop_last());
    }
}

/// A request is reported at most once, however its answer arrives.
pub proof fn law_one_receipt_per_request(
    config: ConfigView,
    request: RequestView,
    events: Seq<EventView>,
)
    ensures
        receipts_due(config, request, events) <= 1,
{
    lemma_receipts_due(config, request, events);
}

/// The consumer gets what the model runtime answers: its status; its headers, but for those that
/// belong to the connection, with the instruction not to guess the content's type; and every piece
/// of a stream, or the whole of another body, as it came, whether or not a receipt is due.
pub proof fn law_answers_pass_untouched(
    config: ConfigView,
    request: RequestView,
    stage: StageView,
    event: EventView,
)
    ensures
        proxy_next(config, request, stage, event).1 matches ActionView::Stream { status, headers }
            ==> event matches EventView::Answered { status: given, headers: all } && status
            == given && headers == sent_back(all),
        proxy_next(config, request, stage, event).1 matches ActionView::Relay { chunk, .. }
            ==> event == EventView::Chunk(chunk),
        stage is Streaming && event is Chunk ==> proxy_next(
            config,
            request,
            stage,
            event,
        ).1 is Relay,
        proxy_next(config, request, stage, event).1 matches ActionView::Deliver {
            body,
            status,
            headers,
            ..
        } ==> event == EventView::ResponseRead(Some(body)) && stage->Collecting_status == status
            && headers == sent_back(stage->Collecting_headers),
        stage is Collecting && (event matches EventView::ResponseRead(Some(_))) ==> proxy_next(
            config,
            request,
            stage,
            event,
        ).1 is Deliver,
{
}

// ---------------------------------------------------------------------------------------------
// What is done with a request, step by step
// ---------------------------------------------------------------------------------------------

/// A stream of events is streamed: where the first content type of the runtime's answer names
/// `text/event-stream`, alone or with anything around it, the consumer's answer begins at once,
/// with the runtime's status and headers, and the stream is watched from its start.
pub proof fn law_event_stream_is_streamed(
    config: ConfigView,
    request: RequestView,
    grant: GrantView,
    status: u16,
    before: Seq<HeaderView>,
    head: Seq<char>,
    tail: Seq<char>,
    after: Seq<HeaderView>,
)
    requires
        forall|i: int| 0 <= i < before.len() ==> (#[trigger] before[i]).0 != "content-type"@,
        forall|i: int| 0 <= i < head.len() ==> ' ' <= #[trigger] head[i] <= '~',
        forall|i: int| 0 <= i < tail.len() ==> ' ' <= #[trigger] tail[i] <= '~',
    ensures
        ({
            let headers = before + seq![
                ("content-type"@, encode_utf8(head + "text/event-stream"@ + tail)),
            ] + after;
            let (next, action) = proxy_next(
                config,
                request,
                StageView::Forwarding(grant),
                EventView::Answered { status, headers },
            );
            &&& action matches ActionView::Stream { status: given, headers: back }
            &&& given == status
            &&& back == sent_back(headers)
            &&& next matches StageView::Streaming { grant: kept, watched }
            &&& kept == grant
            &&& watched.buffer.len() == 0
            &&& !watched.recorded
        }),
{
    reveal_strlit("text/event-stream");
    let kind = "text/event-stream"@;
    let text = head + kind + tail;
    let headers = before + seq![("content-type"@, encode_utf8(text))] + after;
    assert forall|i: int| 0 <= i < text.len() implies ' ' <= #[trigger] text[i] <= '~' by {
        if i < head.len() {
            assert(text[i] == head[i]);
        } else if i < head.len() + kind.len() {
            assert(text[i] == kind[i - head.len()]);
        } else {
            assert(text[i] == tail[i - head.len() - kind.len()]);
        }
    }
    law_header_text_is_read(before, "content-type"@, text, after);
    law_containing(head, kind, tail, text);
}

/// Any other answer is collected first: one without a content type, one whose first content type
/// does not name `text/event-stream`, and one whose first content type is no text.
pub proof fn law_other_answers_are_collected(
    config: ConfigView,
    request: RequestView,
    grant: GrantView,
    status: u16,
    before: Seq<HeaderView>,
    value: Seq<u8>,
    after: Seq<HeaderView>,
)
    requires
        forall|i: int| 0 <= i < before.len() ==> (#[trigger] before[i]).0 != "content-type"@,
        (forall|head: Seq<char>, tail: Seq<char>|
            decode_utf8(value) != #[trigger] (head + "text/event-stream"@ + tail)) || (exists|
            i: int,
        |
            0 <= i < value.len() && !(0x20 <= #[trigger] value[i] <= 0x7e || value[i] == 0x09)),
    ensures
        proxy_next(
            config,
            request,
            StageView::Forwarding(grant),
            EventView::Answered { status, headers: before },
        ) == (StageView::Collecting { grant, status, headers: before }, ActionView::Collect),
        ({
            let headers = before + seq![("content-type"@, value)] + after;
            proxy_next(
                config,
                request,
                StageView::Forwarding(grant),
                EventView::Answered { status, headers },
            ) == (StageView::Collecting { grant, status, headers }, ActionView::Collect)
        }),
{
    law_header_is_read(before, "content-type"@, value, after);
    let none = Seq::<char>::empty();
    law_containing(none, "text/event-stream"@, none, decode_utf8(value));
}

/// A request that arrives shows a grant and is validated, or is refused: with 503 where no runtime
/// is configured, and with 401 where it shows none.
pub proof fn law_arrival(config: ConfigView, request: RequestView, grant: GrantView)
    ensures
        (forall|i: int| 0 <= i < config.url.len() ==> is_white(#[trigger] config.url[i]))
            ==> proxy_next(config, request, StageView::Arrived, EventView::Received) == (
            StageView::Finished,
            ActionView::Answer(
                error_answer(
                    503,
                    "the local model runtime is not configured; run `doodleiq configure`"@,
                ),
            ),
        ),
        (exists|i: int| 0 <= i < config.url.len() && !is_white(#[trigger] config.url[i]))
            && grant_of(request.headers) is None ==> proxy_next(
            config,
            request,
            StageView::Arrived,
            EventView::Received,
        ) == (
            StageView::Finished,
            ActionView::Answer(error_answer(401, "a DoodleIQ inference grant is required"@)),
        ),
        (exists|i: int| 0 <= i < config.url.len() && !is_white(#[trigger] config.url[i]))
            && grant_of(request.headers) == Some(grant) ==> proxy_next(
            config,
            request,
            StageView::Arrived,
            EventView::Received,
        ) == (StageView::Validating(grant), ActionView::Validate(grant)),
{
    law_blank(config.url);
}

/// A request with a valid grant has its body read and goes on to the runtime; one with a grant that
/// is not valid is refused with 401 and the reason, and one whose body is larger than 33554432
/// bytes, or cannot be read, with 413.
pub proof fn law_valid_request_goes_on(
    config: ConfigView,
    request: RequestView,
    grant: GrantView,
    validation: GrantValidation,
    message: Seq<char>,
    body: Seq<u8>,
)
    ensures
        proxy_next(
            config,
            request,
            StageView::Validating(grant),
            EventView::Validated(Ok(validation)),
        ) == (StageView::Reading(grant), ActionView::ReadBody),
        proxy_next(
            config,
            request,
            StageView::Validating(grant),
            EventView::Validated(Err(message)),
        ) == (StageView::Finished, ActionView::Answer(error_answer(401, message))),
        ({
            let refused = (
                StageView::Finished,
                ActionView::Answer(error_answer(413, "request body is too large"@)),
            );
            let read = proxy_next(
                config,
                request,
                StageView::Reading(grant),
                EventView::BodyRead(Some(body)),
            );
            &&& proxy_next(config, request, StageView::Reading(grant), EventView::BodyRead(None))
                == refused
            &&& body.len() > 33_554_432 ==> read == refused
            &&& body.len() <= 33_554_432 ==> match upstream_request_of(
                config,
                request.path,
                request.query,
                request.headers,
                body,
            ) {
                Ok(upstream) => read == (
                    StageView::Forwarding(grant),
                    ActionView::Forward(upstream),
                ),
                Err(answer) => read == (StageView::Finished, ActionView::Answer(answer)),
            }
        }),
        proxy_next(config, request, StageView::Forwarding(grant), EventView::Unreachable) == (
            StageView::Finished,
            ActionView::Answer(error_answer(502, "unable to reach the model runtime"@)),
        ),
{
}

/// Every piece of a stream goes to the consumer as it came, and the receipt is due with the piece
/// that shows the usage for the first time, for this grant, with that usage, as completed.
pub proof fn law_pieces_are_relayed(
    config: ConfigView,
    request: RequestView,
    grant: GrantView,
    watched: StreamView,
    chunk: Seq<u8>,
)
    ensures
        ({
            let (next, action) = proxy_next(
                config,
                request,
                StageView::Streaming { grant, watched },
                EventView::Chunk(chunk),
            );
            &&& next == StageView::Streaming { grant, watched: stream_next(watched, chunk) }
            &&& action matches ActionView::Relay { chunk: sent, receipt }
            &&& sent == chunk
            &&& watched.recorded ==> receipt is None
            &&& !watched.recorded ==> match sse_usage(watched.buffer + chunk) {
                Some(usage) => receipt matches Some(due) && due.grant == grant && due.usage
                    == usage && due.status is Completed,
                None => receipt is None,
            }
        }),
{
}

/// A collected answer goes to the consumer as it came, with the runtime's status and headers, and
/// a receipt is due exactly where it reports its usage, for this grant, with that usage: as
/// completed where the status is one of success, and else as failed. One that could not be read is
/// answered with 502.
pub proof fn law_collected_answer_is_delivered(
    config: ConfigView,
    request: RequestView,
    grant: GrantView,
    status: u16,
    headers: Seq<HeaderView>,
    body: Seq<u8>,
)
    ensures
        ({
            let stage = StageView::Collecting { grant, status, headers };
            let (next, action) = proxy_next(
                config,
                request,
                stage,
                EventView::ResponseRead(Some(body)),
            );
            &&& proxy_next(config, request, stage, EventView::ResponseRead(None)) == (
                StageView::Finished,
                ActionView::Answer(error_answer(502, "unable to read the model runtime response"@)),
            )
            &&& next == StageView::Finished
            &&& action matches ActionView::Deliver {
                status: given,
                headers: back,
                body: sent,
                receipt,
            }
            &&& given == status
            &&& back == sent_back(headers)
            &&& sent == body
            &&& match json_usage(body) {
                Some(usage) => {
                    &&& receipt matches Some(due)
                    &&& due.grant == grant
                    &&& due.usage == usage
                    &&& 200 <= status <= 299 ==> due.status is Completed
                    &&& status < 200 || status > 299 ==> due.status is Failed
                },
                None => receipt is None,
            }
        }),
{
}

/// What a request is not waiting for changes nothing of it.
pub proof fn law_unawaited_events_are_ignored(
    config: ConfigView,
    request: RequestView,
    stage: StageView,
    event: EventView,
)
    requires
        !(stage is Arrived && event is Received),
        !(stage is Validating && event is Validated),
        !(stage is Reading && event is BodyRead),
        !(stage is Forwarding && (event is Unreachable || event is Answered)),
        !(stage is Streaming && event is Chunk),
        !(stage is Collecting && event is ResponseRead),
    ensures
        proxy_next(config, request, stage, event) == (stage, ActionView::Ignore),
{
}

/// The meter follows the validation of grants and nothing else: a valid grant is activity of its
/// consumer, with the times that the control plane gives, and a grant that is not valid ends its
/// own session.
pub proof fn law_meter_follows_validation(
    stage: StageView,
    event: EventView,
    grant: GrantView,
    validation: GrantValidation,
    message: Seq<char>,
    meter: MeterView,
    now: u64,
)
    ensures
        proxy_meter(
            StageView::Validating(grant),
            EventView::Validated(Ok(validation)),
            meter,
            now,
        ) == with_activity(
            meter,
            grant.grant_id,
            validation.expires_at_epoch,
            validation.started_at_epoch,
            now,
        ),
        proxy_meter(
            StageView::Validating(grant),
            EventView::Validated(Err(message)),
            meter,
            now,
        ) == with_disconnect(meter, grant.grant_id),
        !(stage is Validating && event is Validated) ==> proxy_meter(stage, event, meter, now)
            == meter,
{
}

/// Requests, receipts, stages, events and actions are taken for what they hold.
pub proof fn law_proxy_values(
    request: ProxyRequest,
    receipt: DueReceipt,
    grant: InferenceGrant,
    watched: StreamMeter,
    status: u16,
    headers: Vec<Header>,
    bytes: Vec<u8>,
    upstream: UpstreamRequest,
    answer: GatewayAnswer,
    maybe: Option<DueReceipt>,
    validation: GrantValidation,
    message: String,
)
    ensures
        request@.path == request.path@,
        request.query matches Some(query) ==> request@.query == Some(query@),
        request.query is None ==> request@.query is None,
        request@.headers == headers_view(request.headers@),
        receipt@.grant == receipt.grant@,
        receipt@.usage == receipt.usage,
        receipt@.status == receipt.status,
        due(Some(receipt)) == Some(receipt@),
        due(None) is None,
        ProxyStage::Arrived@ == StageView::Arrived,
        ProxyStage::Validating(grant)@ == StageView::Validating(grant@),
        ProxyStage::Reading(grant)@ == StageView::Reading(grant@),
        ProxyStage::Forwarding(grant)@ == StageView::Forwarding(grant@),
        (ProxyStage::Streaming { grant, watched })@ == (StageView::Streaming {
            grant: grant@,
            watched: watched@,
        }),
        (ProxyStage::Collecting { grant, status, headers })@ == (StageView::Collecting {
            grant: grant@,
            status,
            headers: headers_view(headers@),
        }),
        ProxyStage::Finished@ == StageView::Finished,
        ProxyEvent::Received@ == EventView::Received,
        ProxyEvent::Unreachable@ == EventView::Unreachable,
        ProxyEvent::Validated(Ok(validation))@ == EventView::Validated(Ok(validation)),
        ProxyEvent::Validated(Err(message))@ == EventView::Validated(Err(message@)),
        ProxyEvent::BodyRead(Some(bytes))@ == EventView::BodyRead(Some(bytes@)),
        ProxyEvent::BodyRead(None)@ == EventView::BodyRead(None),
        (ProxyEvent::Answered { status, headers })@ == (EventView::Answered {
            status,
            headers: headers_view(headers@),
        }),
        ProxyEvent::Chunk(bytes)@ == EventView::Chunk(bytes@),
        ProxyEvent::ResponseRead(Some(bytes))@ == EventView::ResponseRead(Some(bytes@)),
        ProxyEvent::ResponseRead(None)@ == EventView::ResponseRead(None),
        ProxyAction::Validate(grant)@ == ActionView::Validate(grant@),
        ProxyAction::ReadBody@ == ActionView::ReadBody,
        ProxyAction::Forward(upstream)@ == ActionView::Forward(upstream@),
        (ProxyAction::Stream { status, headers })@ == (ActionView::Stream {
            status,
            headers: headers_view(headers@),
        }),
        (ProxyAction::Relay { chunk: bytes, receipt: maybe })@ == (ActionView::Relay {
            chunk: bytes@,
            receipt: due(maybe),
        }),
        ProxyAction::Collect@ == ActionView::Collect,
        (ProxyAction::Deliver { status, headers, body: bytes, receipt: maybe })@ == (
        ActionView::Deliver {
            status,
            headers: headers_view(headers@),
            body: bytes@,
            receipt: due(maybe),
        }),
        ProxyAction::Answer(answer)@ == ActionView::Answer(answer@),
        ProxyAction::Ignore@ == ActionView::Ignore,
{
}

} // verus!
