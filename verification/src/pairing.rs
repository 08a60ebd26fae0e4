//! Pairing this machine with an account, and getting back the tunnel of a paired one.

use vstd::prelude::*;
use crate::availability::TunnelState;
use crate::config::{unpaired, ConfigView, RuntimeConfig};
use crate::http::{
    get_call, post_call, status_line, status_text, with_header, Call, CallView, Method, Reply,
};
use crate::identity::{base64_text, ed25519_public, DeviceKey};
use crate::json::{
    is_exact, json_parsed, json_text, lemma_raw_key_length, raw_key, set_field, Json, JsonView,
};
use crate::text::{held, same_text};

verus! {

/// A pairing that waits for approval.
#[derive(Debug)]
pub struct PairingStart {
    pub id: String,
    pub code: String,
    pub pairing_token: String,
    pub verification_url: String,
}

/// The state of a pairing.
#[derive(Debug)]
pub struct PairingPoll {
    pub status: String,
    pub user_id: Option<String>,
    pub device_id: Option<String>,
    pub hostname: Option<String>,
    pub tunnel_token: Option<String>,
    pub tunnel_ready: bool,
}

/// What a machine is to the marketplace.
#[derive(Debug)]
pub struct ProviderIdentity {
    pub provider_id: String,
    pub device_id: String,
    pub hostname: String,
}

/// What a [`ProviderIdentity`] says.
pub struct ProviderView {
    pub provider_id: Seq<char>,
    pub device_id: Seq<char>,
    pub hostname: Seq<char>,
}

impl ProviderIdentity {
    /// What this identity says.
    pub open spec fn view(&self) -> ProviderView {
        ProviderView {
            provider_id: self.provider_id@,
            device_id: self.device_id@,
            hostname: self.hostname@,
        }
    }
}

/// What a call to the pairing service gives, or its error.
pub open spec fn reply_result<T>(reply: Reply<T>, unreachable: Seq<char>) -> Result<T, Seq<char>> {
    match reply {
        Reply::Unreachable(err) => Err(unreachable + err@),
        Reply::Rejected { status, .. } => Err("Pairing service returned "@ + status_line(status)),
        Reply::Malformed(err) => Err("Invalid pairing response: "@ + err@),
        Reply::Answered(answer) => Ok(answer),
    }
}

/// What a result says.
pub open spec fn result_view<T>(result: Result<T, String>) -> Result<T, Seq<char>> {
    match result {
        Ok(value) => Ok(value),
        Err(error) => Err(error@),
    }
}

/// What a call to the pairing service gives, or its error.
fn pairing_result<T>(reply: Reply<T>, unreachable: &str) -> (result: Result<T, String>)
    ensures
        result_view(result) == reply_result(reply, unreachable@),
{
    match reply {
        Reply::Unreachable(err) => {
            let mut text: String = unreachable.to_owned();
            text.append(err.as_str());
            Err(text)
        },
        Reply::Rejected { status, detail: _ } => {
            let mut text: String = "Pairing service returned ".to_owned();
            text.append(status_text(status).as_str());
            Err(text)
        },
        Reply::Malformed(err) => {
            let mut text: String = "Invalid pairing response: ".to_owned();
            text.append(err.as_str());
            Err(text)
        },
        Reply::Answered(answer) => Ok(answer),
    }
}

// ---------------------------------------------------------------------------------------------
// Beginning
// ---------------------------------------------------------------------------------------------

/// The document that begins a pairing. Of the device key it holds the public part alone.
pub open spec fn pairing_document(device_name: Seq<char>, public: Seq<u8>) -> JsonView {
    JsonView::Object(
        Map::empty().insert("device_name"@, JsonView::Text(device_name)).insert(
            "public_key"@,
            JsonView::Text(base64_text(public)),
        ),
    )
}

proof fn lemma_pairing_document_exact(device_name: Seq<char>, public: Seq<u8>)
    ensures
        is_exact(pairing_document(device_name, public), 127),
{
    lemma_raw_key_length();
    reveal_strlit("device_name");
    reveal_strlit("public_key");
    assert("device_name"@.len() < 30);
    assert("public_key"@.len() < 30);
    let map = pairing_document(device_name, public)->Object_0;
    assert(!map.contains_key(raw_key()));
    assert forall|k: Seq<char>| #[trigger] map.contains_key(k) implies is_exact(map[k], 126) by {}
}

/// The call that begins a pairing, for the device key with this secret.
pub open spec fn pairing_call_of(
    base: Seq<char>,
    device_name: Seq<char>,
    secret: Seq<u8>,
) -> CallView {
    post_call(
        base + "/v1/device-pairings"@,
        pairing_document(device_name, ed25519_public(secret)),
    )
}

/// The call that begins a pairing.
pub fn pairing_call(base: &str, device_name: &str, key: &DeviceKey) -> (call: Call)
    ensures
        call@ == pairing_call_of(base@, device_name@, key.secret()),
        json_parsed(call@.body->Some_0) == Some(
            pairing_document(device_name@, ed25519_public(key.secret())),
        ),
{
    let mut entries: Vec<(String, Json)> = Vec::new();
    set_field(&mut entries, "device_name", Json::text(device_name));
    set_field(&mut entries, "public_key", Json::Text(key.public_key()));
    let mut url: String = base.to_owned();
    url.append("/v1/device-pairings");
    proof {
        lemma_pairing_document_exact(device_name@, ed25519_public(key.secret()));
    }
    Call::post(url, Json::Object(entries))
}

/// The pairing that was begun, given what came of the call.
pub fn begin_provider_pairing(reply: Reply<PairingStart>) -> (start: Result<PairingStart, String>)
    ensures
        result_view(start) == reply_result(reply, "Unable to start device pairing: "@),
{
    pairing_result(reply, "Unable to start device pairing: ")
}

// ---------------------------------------------------------------------------------------------
// Waiting for approval
// ---------------------------------------------------------------------------------------------

/// The call that asks for the state of a pairing.
pub open spec fn pairing_status_call_of(
    base: Seq<char>,
    pairing_id: Seq<char>,
    pairing_token: Seq<char>,
) -> CallView {
    with_header(
        get_call(base + "/v1/device-pairings/"@ + pairing_id),
        "X-DoodleIQ-Pairing-Token"@,
        pairing_token,
    )
}

/// The call that asks for the state of a pairing.
pub fn pairing_status_call(base: &str, pairing_id: &str, pairing_token: &str) -> (call: Call)
    ensures
        call@ == pairing_status_call_of(base@, pairing_id@, pairing_token@),
{
    let mut url: String = base.to_owned();
    url.append("/v1/device-pairings/");
    url.append(pairing_id);
    Call::get(url).with_header("X-DoodleIQ-Pairing-Token", pairing_token)
}

/// Whether a status of the pairing service says that the pairing was removed.
pub open spec fn says_removed(status: u16) -> bool {
    status == 404 || status == 410
}

/// What a removed pairing is told as.
pub open spec fn removed_text(status: u16) -> Seq<char> {
    "Pairing service returned "@ + status_line(status)
        + ": this machine was delisted; run `doodleiq reset`, then `doodleiq pair`"@
}

/// What a removed pairing is told as.
fn removed_error(status: u16) -> (text: String)
    ensures
        text@ == removed_text(status),
{
    let mut text: String = "Pairing service returned ".to_owned();
    text.append(status_text(status).as_str());
    text.append(": this machine was delisted; run `doodleiq reset`, then `doodleiq pair`");
    text
}

/// What the state of a pairing says: nothing yet, or who this machine is now, once the pairing is
/// complete and names all of it.
pub open spec fn completed(pairing: PairingPoll) -> Result<Option<ProviderView>, Seq<char>> {
    if pairing.status@ != "complete"@ {
        Ok(None)
    } else {
        match held(pairing.user_id) {
            None => Err("Pairing has no user ID"@),
            Some(provider_id) => match held(pairing.device_id) {
                None => Err("Pairing has no device ID"@),
                Some(device_id) => match held(pairing.hostname) {
                    None => Err("Pairing has no hostname"@),
                    Some(hostname) => Ok(Some(ProviderView { provider_id, device_id, hostname })),
                },
            },
        }
    }
}

/// What a poll says, given what came of its call.
pub open spec fn poll_of(reply: Reply<PairingPoll>) -> Result<Option<ProviderView>, Seq<char>> {
    match reply {
        Reply::Rejected { status, .. } => if says_removed(status) {
            Err(removed_text(status))
        } else {
            Err("Pairing service returned "@ + status_line(status))
        },
        _ => match reply_result(reply, "Unable to check pairing: "@) {
            Ok(pairing) => completed(pairing),
            Err(error) => Err(error),
        },
    }
}

/// What a poll says.
pub open spec fn poll_view(poll: Result<Option<ProviderIdentity>, String>) -> Result<
    Option<ProviderView>,
    Seq<char>,
> {
    match poll {
        Ok(Some(identity)) => Ok(Some(identity@)),
        Ok(None) => Ok(None),
        Err(error) => Err(error@),
    }
}

/// The configuration of a machine that was paired.
pub open spec fn paired_config(
    config: ConfigView,
    identity: ProviderView,
    pairing_id: Seq<char>,
    pairing_token: Seq<char>,
) -> ConfigView {
    ConfigView {
        provider_id: identity.provider_id,
        pairing_id,
        device_id: identity.device_id,
        pairing_token,
        ..config
    }
}

/// Who a complete pairing says that this machine is.
fn complete_pairing(pairing: PairingPoll) -> (identity: Result<Option<ProviderIdentity>, String>)
    ensures
        poll_view(identity) == completed(pairing),
{
    if !same_text(pairing.status.as_str(), "complete") {
        return Ok(None);
    }
    let provider_id: String = match pairing.user_id {
        Some(id) => id,
        None => return Err("Pairing has no user ID".to_owned()),
    };
    let device_id: String = match pairing.device_id {
        Some(id) => id,
        None => return Err("Pairing has no device ID".to_owned()),
    };
    let hostname: String = match pairing.hostname {
        Some(name) => name,
        None => return Err("Pairing has no hostname".to_owned()),
    };
    Ok(Some(ProviderIdentity { provider_id, device_id, hostname }))
}

/// What a poll says, given what came of its call. A completed pairing goes into the
/// configuration; anything else leaves it as it is.
pub fn poll_provider_pairing(
    config: &mut RuntimeConfig,
    pairing_id: &str,
    pairing_token: &str,
    reply: Reply<PairingPoll>,
) -> (poll: Result<Option<ProviderIdentity>, String>)
    ensures
        poll_view(poll) == poll_of(reply),
        final(config)@ == (match poll_of(reply) {
            Ok(Some(identity)) => paired_config(
                old(config)@,
                identity,
                pairing_id@,
                pairing_token@,
            ),
            _ => old(config)@,
        }),
{
    let pairing: PairingPoll = match reply {
        Reply::Rejected { status, detail } => {
            if status == 404 || status == 410 {
                return Err(removed_error(status));
            }
            let reply: Reply<PairingPoll> = Reply::Rejected { status, detail };
            match pairing_result(reply, "Unable to check pairing: ") {
                Ok(pairing) => pairing,
                Err(error) => return Err(error),
            }
        },
        reply => match pairing_result(reply, "Unable to check pairing: ") {
            Ok(pairing) => pairing,
            Err(error) => return Err(error),
        },
    };
    match complete_pairing(pairing) {
        Ok(Some(identity)) => {
            config.provider_id = identity.provider_id.clone();
            config.pairing_id = pairing_id.to_owned();
            config.device_id = identity.device_id.clone();
            config.pairing_token = pairing_token.to_owned();
            Ok(Some(identity))
        },
        Ok(None) => Ok(None),
        Err(error) => Err(error),
    }
}

/// Seconds between two polls.
pub const PAIRING_POLL_SECONDS: u64 = 2;

/// What happens to a machine that waits for approval.
pub enum PairingEvent {
    /// Its time is looked at.
    Clock { expired: bool },
    /// The pairing service was asked.
    Polled(Result<Option<ProviderIdentity>, String>),
}

/// What a machine that waits for approval does next.
pub enum PairingStep {
    /// Ask the pairing service.
    Poll,
    /// Wait this many seconds, and look at the time again.
    Wait(u64),
    /// Be done: the machine is paired.
    Paired(ProviderIdentity),
    /// Give up.
    GiveUp(String),
}

/// What a [`PairingStep`] is.
pub enum StepView {
    Poll,
    Wait(u64),
    Paired(ProviderView),
    GiveUp(Seq<char>),
}

impl PairingStep {
    /// What this step is.
    pub open spec fn view(&self) -> StepView {
        match *self {
            PairingStep::Poll => StepView::Poll,
            PairingStep::Wait(seconds) => StepView::Wait(seconds),
            PairingStep::Paired(identity) => StepView::Paired(identity@),
            PairingStep::GiveUp(error) => StepView::GiveUp(error@),
        }
    }
}

/// What a machine that waits for approval does next.
pub open spec fn pairing_next(event: PairingEvent) -> StepView {
    match event {
        PairingEvent::Clock { expired } => if expired {
            StepView::GiveUp("pairing timed out; run `doodleiq pair` again"@)
        } else {
            StepView::Poll
        },
        PairingEvent::Polled(poll) => match poll_view(poll) {
            Ok(Some(identity)) => StepView::Paired(identity),
            Ok(None) => StepView::Wait(PAIRING_POLL_SECONDS),
            Err(error) => StepView::GiveUp(error),
        },
    }
}

/// What a machine that waits for approval does next.
pub fn await_pairing(event: PairingEvent) -> (step: PairingStep)
    ensures
        step@ == pairing_next(event),
{
    match event {
        PairingEvent::Clock { expired } => if expired {
            PairingStep::GiveUp("pairing timed out; run `doodleiq pair` again".to_owned())
        } else {
            PairingStep::Poll
        },
        PairingEvent::Polled(poll) => match poll {
            Ok(Some(identity)) => PairingStep::Paired(identity),
            Ok(None) => PairingStep::Wait(PAIRING_POLL_SECONDS),
            Err(error) => PairingStep::GiveUp(error),
        },
    }
}

// ---------------------------------------------------------------------------------------------
// The tunnel of a paired machine
// ---------------------------------------------------------------------------------------------

/// What getting back the tunnel begins with.
pub enum ResumeStep {
    /// Nothing: the connector is running.
    Running,
    /// Nothing: there is no pairing to get a tunnel for.
    Unpaired,
    /// Ask for the state of the pairing.
    Ask(Call),
}

/// What a [`ResumeStep`] is.
pub enum ResumeView {
    Running,
    Unpaired,
    Ask(CallView),
}

impl ResumeStep {
    /// What this step is.
    pub open spec fn view(&self) -> ResumeView {
        match *self {
            ResumeStep::Running => ResumeView::Running,
            ResumeStep::Unpaired => ResumeView::Unpaired,
            ResumeStep::Ask(call) => ResumeView::Ask(call@),
        }
    }
}

/// What getting back the tunnel begins with.
pub open spec fn resume_of(running: bool, config: ConfigView, base: Seq<char>) -> ResumeView {
    if running {
        ResumeView::Running
    } else if config.pairing_id.len() == 0 || config.pairing_token.len() == 0 {
        ResumeView::Unpaired
    } else {
        ResumeView::Ask(pairing_status_call_of(base, config.pairing_id, config.pairing_token))
    }
}

/// What getting back the tunnel begins with.
pub fn resume_step(running: bool, config: &RuntimeConfig, base: &str) -> (step: ResumeStep)
    ensures
        step@ == resume_of(running, config@, base@),
{
    if running {
        ResumeStep::Running
    } else if config.pairing_id.as_str().is_empty() || config.pairing_token.as_str().is_empty() {
        ResumeStep::Unpaired
    } else {
        ResumeStep::Ask(
            pairing_status_call(base, config.pairing_id.as_str(), config.pairing_token.as_str()),
        )
    }
}

/// What the control plane offers for a tunnel.
pub enum TunnelOffer {
    /// A token to run the connector with.
    Token(String),
    /// No token.
    NoToken,
    /// Nothing, for this error.
    Failed(String),
    /// Nothing: it no longer knows this machine.
    Delisted(String),
}

/// What a [`TunnelOffer`] says.
pub enum OfferView {
    Token(Seq<char>),
    NoToken,
    Failed(Seq<char>),
    Delisted(Seq<char>),
}

impl TunnelOffer {
    /// What this offer says.
    pub open spec fn view(&self) -> OfferView {
        match *self {
            TunnelOffer::Token(token) => OfferView::Token(token@),
            TunnelOffer::NoToken => OfferView::NoToken,
            TunnelOffer::Failed(error) => OfferView::Failed(error@),
            TunnelOffer::Delisted(error) => OfferView::Delisted(error@),
        }
    }
}

/// What the control plane offers for a tunnel, given what came of the call.
pub open spec fn offer_of(reply: Reply<PairingPoll>) -> OfferView {
    match reply {
        Reply::Rejected { status, .. } => if says_removed(status) {
            OfferView::Delisted(removed_text(status))
        } else {
            OfferView::Failed("Pairing service returned "@ + status_line(status))
        },
        _ => match reply_result(reply, "Unable to restore provider tunnel: "@) {
            Ok(pairing) => match held(pairing.tunnel_token) {
                Some(token) => OfferView::Token(token),
                None => OfferView::NoToken,
            },
            Err(error) => OfferView::Failed(error),
        },
    }
}

/// What the control plane offers for a tunnel, given what came of the call.
pub fn tunnel_offer(reply: Reply<PairingPoll>) -> (offer: TunnelOffer)
    ensures
        offer@ == offer_of(reply),
{
    match reply {
        Reply::Rejected { status, detail } => if status == 404 || status == 410 {
            TunnelOffer::Delisted(removed_error(status))
        } else {
            let reply: Reply<PairingPoll> = Reply::Rejected { status, detail };
            match pairing_result(reply, "Unable to restore provider tunnel: ") {
                Ok(_) => TunnelOffer::NoToken,
                Err(error) => TunnelOffer::Failed(error),
            }
        },
        reply => match pairing_result(reply, "Unable to restore provider tunnel: ") {
            Ok(pairing) => match pairing.tunnel_token {
                Some(token) => TunnelOffer::Token(token),
                None => TunnelOffer::NoToken,
            },
            Err(error) => TunnelOffer::Failed(error),
        },
    }
}

/// What became of the tunnel.
#[derive(Debug)]
pub enum TunnelResult {
    /// The connector is running.
    Up,
    /// There was no token to run it with.
    NoToken,
    /// It is not running, for this error.
    Failed(String),
    /// The control plane no longer knows this machine.
    Delisted(String),
}

/// Whether the tunnel carries requests: it does only where the connector is running.
pub open spec fn carries(result: TunnelView) -> TunnelState {
    match result {
        TunnelView::Up => TunnelState::Up,
        TunnelView::NoToken => TunnelState::Down,
        TunnelView::Failed(_) => TunnelState::Down,
        TunnelView::Delisted(_) => TunnelState::Delisted,
    }
}

impl TunnelResult {
    /// Whether the tunnel carries requests.
    pub fn ensure_tunnel_healthy(&self) -> (state: TunnelState)
        ensures
            state == carries(self@),
    {
        match self {
            TunnelResult::Up => TunnelState::Up,
            TunnelResult::NoToken => TunnelState::Down,
            TunnelResult::Failed(_) => TunnelState::Down,
            TunnelResult::Delisted(_) => TunnelState::Delisted,
        }
    }
}

/// What a [`TunnelResult`] says.
pub enum TunnelView {
    Up,
    NoToken,
    Failed(Seq<char>),
    Delisted(Seq<char>),
}

impl TunnelResult {
    /// What this result says.
    pub open spec fn view(&self) -> TunnelView {
        match *self {
            TunnelResult::Up => TunnelView::Up,
            TunnelResult::NoToken => TunnelView::NoToken,
            TunnelResult::Failed(error) => TunnelView::Failed(error@),
            TunnelResult::Delisted(error) => TunnelView::Delisted(error@),
        }
    }
}

/// What is done on an offer for a tunnel.
pub enum OfferStep {
    /// Launch the connector with this token.
    Launch(String),
    /// Nothing: this became of the tunnel.
    Settled(TunnelResult),
}

/// What an [`OfferStep`] is.
pub enum OfferStepView {
    Launch(Seq<char>),
    Settled(TunnelView),
}

impl OfferStep {
    /// What this step is.
    pub open spec fn view(&self) -> OfferStepView {
        match *self {
            OfferStep::Launch(token) => OfferStepView::Launch(token@),
            OfferStep::Settled(result) => OfferStepView::Settled(result@),
        }
    }
}

/// What is done on an offer for a tunnel: the connector is launched exactly where there is a
/// token.
pub open spec fn taken_up(offer: OfferView) -> OfferStepView {
    match offer {
        OfferView::Token(token) => OfferStepView::Launch(token),
        OfferView::NoToken => OfferStepView::Settled(TunnelView::NoToken),
        OfferView::Failed(error) => OfferStepView::Settled(TunnelView::Failed(error)),
        OfferView::Delisted(error) => OfferStepView::Settled(TunnelView::Delisted(error)),
    }
}

/// What is done on an offer for a tunnel.
pub fn resume_provider_tunnel(offer: TunnelOffer) -> (step: OfferStep)
    ensures
        step@ == taken_up(offer@),
{
    match offer {
        TunnelOffer::Token(token) => OfferStep::Launch(token),
        TunnelOffer::NoToken => OfferStep::Settled(TunnelResult::NoToken),
        TunnelOffer::Failed(error) => OfferStep::Settled(TunnelResult::Failed(error)),
        TunnelOffer::Delisted(error) => OfferStep::Settled(TunnelResult::Delisted(error)),
    }
}

/// Pairing changes who the machine is and nothing of its runtime; a machine that was paired counts
/// as paired wherever the marketplace gave it a device and a token, and a reset undoes the
/// pairing.
pub proof fn law_pairing_keeps_the_runtime(
    config: ConfigView,
    identity: ProviderView,
    pairing_id: Seq<char>,
    pairing_token: Seq<char>,
)
    ensures
        ({
            let paired = paired_config(config, identity, pairing_id, pairing_token);
            &&& paired.url == config.url
            &&& paired.api_key == config.api_key
            &&& paired.paired() <==> identity.device_id.len() > 0 && pairing_token.len() > 0
            &&& unpaired(paired) == unpaired(config)
        }),
{
}

// ---------------------------------------------------------------------------------------------
// What pairing means
// ---------------------------------------------------------------------------------------------

/// A pairing is begun with the device's name and its public key, and nothing else, as a POST to
/// the pairings, and is asked for by its id, as a GET, with the pairing token.
pub proof fn law_pairing_calls(
    base: Seq<char>,
    device_name: Seq<char>,
    secret: Seq<u8>,
    pairing_id: Seq<char>,
    pairing_token: Seq<char>,
)
    ensures
        ({
            let call = pairing_call_of(base, device_name, secret);
            &&& call.method == Method::Post
            &&& call.url == base + "/v1/device-pairings"@
            &&& call.headers.len() == 1
            &&& call.body == Some(
                json_text(pairing_document(device_name, ed25519_public(secret))),
            )
        }),
        pairing_document(device_name, ed25519_public(secret)) matches JsonView::Object(map) && {
            &&& map.dom() == set!["device_name"@, "public_key"@]
            &&& map["device_name"@] == JsonView::Text(device_name)
            &&& map["public_key"@] == JsonView::Text(base64_text(ed25519_public(secret)))
        },
        ({
            let call = pairing_status_call_of(base, pairing_id, pairing_token);
            &&& call.method == Method::Get
            &&& call.url == base + "/v1/device-pairings/"@ + pairing_id
            &&& call.body is None
            &&& call.headers.len() == 1
            &&& call.headers[0] == ("X-DoodleIQ-Pairing-Token"@, pairing_token)
        }),
{
    reveal_strlit("device_name");
    reveal_strlit("public_key");
    assert("device_name"@.len() != "public_key"@.len());
    assert(pairing_document(device_name, ed25519_public(secret))->Object_0.dom() =~= set![
        "device_name"@,
        "public_key"@,
    ]);
}

/// A pairing is complete exactly where its status is `complete`, and then it says who this machine
/// is: the account, the device and the host name as they are given, each of which it must name.
pub proof fn law_completed_pairing(
    pairing: PairingPoll,
    user_id: String,
    device_id: String,
    hostname: String,
)
    ensures
        pairing.status@ != "complete"@ ==> completed(pairing) == Ok::<
            Option<ProviderView>,
            Seq<char>,
        >(None),
        pairing.status@ == "complete"@ && pairing.user_id == Some(user_id) && pairing.device_id
            == Some(device_id) && pairing.hostname == Some(hostname) ==> (completed(pairing)
            matches Ok(Some(identity)) && {
            &&& identity.provider_id == user_id@
            &&& identity.device_id == device_id@
            &&& identity.hostname == hostname@
        }),
        pairing.status@ == "complete"@ && pairing.user_id is None ==> completed(pairing) == Err::<
            Option<ProviderView>,
            Seq<char>,
        >("Pairing has no user ID"@),
        pairing.status@ == "complete"@ && pairing.user_id is Some && pairing.device_id is None
            ==> completed(pairing) == Err::<Option<ProviderView>, Seq<char>>(
            "Pairing has no device ID"@,
        ),
        pairing.status@ == "complete"@ && pairing.user_id is Some && pairing.device_id is Some
            && pairing.hostname is None ==> completed(pairing) == Err::<
            Option<ProviderView>,
            Seq<char>,
        >("Pairing has no hostname"@),
{
}

/// A poll says what the pairing says, or what went wrong; a pairing that was removed, with 404 or
/// 410, is told with how to pair again.
pub proof fn law_polls(pairing: PairingPoll, err: String, status: u16, detail: Option<String>)
    ensures
        poll_of(Reply::Answered(pairing)) == completed(pairing),
        poll_of(Reply::Unreachable(err)) == Err::<Option<ProviderView>, Seq<char>>(
            "Unable to check pairing: "@ + err@,
        ),
        poll_of(Reply::Malformed(err)) == Err::<Option<ProviderView>, Seq<char>>(
            "Invalid pairing response: "@ + err@,
        ),
        status != 404 && status != 410 ==> poll_of(Reply::Rejected { status, detail }) == Err::<
            Option<ProviderView>,
            Seq<char>,
        >("Pairing service returned "@ + status_line(status)),
        status == 404 || status == 410 ==> poll_of(Reply::Rejected { status, detail }) == Err::<
            Option<ProviderView>,
            Seq<char>,
        >(
            "Pairing service returned "@ + status_line(status)
                + ": this machine was delisted; run `doodleiq reset`, then `doodleiq pair`"@,
        ),
{
}

/// A pairing that is begun is the one that the answer gives, and anything else is the error that
/// it is.
pub proof fn law_begun_pairing(
    start: PairingStart,
    err: String,
    status: u16,
    detail: Option<String>,
    unreachable: Seq<char>,
)
    ensures
        reply_result(Reply::Answered(start), unreachable) == Ok::<PairingStart, Seq<char>>(start),
        reply_result::<PairingStart>(Reply::Unreachable(err), unreachable) == Err::<
            PairingStart,
            Seq<char>,
        >(unreachable + err@),
        reply_result::<PairingStart>(Reply::Malformed(err), unreachable) == Err::<
            PairingStart,
            Seq<char>,
        >("Invalid pairing response: "@ + err@),
        reply_result::<PairingStart>(Reply::Rejected { status, detail }, unreachable) == Err::<
            PairingStart,
            Seq<char>,
        >("Pairing service returned "@ + status_line(status)),
        result_view(Ok::<PairingStart, String>(start)) == Ok::<PairingStart, Seq<char>>(start),
        result_view(Err::<PairingStart, String>(err)) == Err::<PairingStart, Seq<char>>(err@),
{
}

/// A machine that is paired holds who it is: the account and the device that it was given, and the
/// pairing's id and token, beside the runtime that it had.
pub proof fn law_paired_machine(
    config: ConfigView,
    identity: ProviderView,
    pairing_id: Seq<char>,
    pairing_token: Seq<char>,
)
    ensures
        ({
            let paired = paired_config(config, identity, pairing_id, pairing_token);
            &&& paired.provider_id == identity.provider_id
            &&& paired.device_id == identity.device_id
            &&& paired.pairing_id == pairing_id
            &&& paired.pairing_token == pairing_token
            &&& paired.url == config.url
            &&& paired.api_key == config.api_key
        }),
{
}

/// A machine that waits for approval asks as long as its time is not up, every two seconds, until
/// it is paired or an error ends it.
pub proof fn law_waiting_for_approval(identity: ProviderIdentity, error: String)
    ensures
        pairing_next(PairingEvent::Clock { expired: false }) == StepView::Poll,
        pairing_next(PairingEvent::Clock { expired: true }) == StepView::GiveUp(
            "pairing timed out; run `doodleiq pair` again"@,
        ),
        pairing_next(PairingEvent::Polled(Ok(None))) == StepView::Wait(2),
        pairing_next(PairingEvent::Polled(Ok(Some(identity)))) == StepView::Paired(identity@),
        pairing_next(PairingEvent::Polled(Err(error))) == StepView::GiveUp(error@),
{
}

/// The control plane offers the tunnel's token that its answer names, and none where it names
/// none; it has delisted the machine exactly where it answers 404 or 410.
pub proof fn law_tunnel_offers(
    pairing: PairingPoll,
    token: String,
    err: String,
    status: u16,
    detail: Option<String>,
)
    ensures
        pairing.tunnel_token == Some(token) ==> offer_of(Reply::Answered(pairing))
            == OfferView::Token(token@),
        pairing.tunnel_token is None ==> offer_of(Reply::Answered(pairing)) == OfferView::NoToken,
        offer_of(Reply::Unreachable(err)) == OfferView::Failed(
            "Unable to restore provider tunnel: "@ + err@,
        ),
        offer_of(Reply::Malformed(err)) == OfferView::Failed("Invalid pairing response: "@ + err@),
        status != 404 && status != 410 ==> offer_of(Reply::Rejected { status, detail })
            == OfferView::Failed("Pairing service returned "@ + status_line(status)),
        status == 404 || status == 410 ==> offer_of(Reply::Rejected { status, detail })
            == OfferView::Delisted(
            "Pairing service returned "@ + status_line(status)
                + ": this machine was delisted; run `doodleiq reset`, then `doodleiq pair`"@,
        ),
{
}

/// Identities, polls, steps, offers and results are taken for what they hold.
pub proof fn law_pairing_values(identity: ProviderIdentity, text: String, seconds: u64)
    ensures
        identity@.provider_id == identity.provider_id@,
        identity@.device_id == identity.device_id@,
        identity@.hostname == identity.hostname@,
        poll_view(Ok(Some(identity))) == Ok::<Option<ProviderView>, Seq<char>>(Some(identity@)),
        poll_view(Ok(None)) == Ok::<Option<ProviderView>, Seq<char>>(None),
        poll_view(Err(text)) == Err::<Option<ProviderView>, Seq<char>>(text@),
        PairingStep::Poll@ == StepView::Poll,
        PairingStep::Wait(seconds)@ == StepView::Wait(seconds),
        PairingStep::Paired(identity)@ == StepView::Paired(identity@),
        PairingStep::GiveUp(text)@ == StepView::GiveUp(text@),
        TunnelOffer::Token(text)@ == OfferView::Token(text@),
        TunnelOffer::NoToken@ == OfferView::NoToken,
        TunnelOffer::Failed(text)@ == OfferView::Failed(text@),
        TunnelOffer::Delisted(text)@ == OfferView::Delisted(text@),
        TunnelResult::Up@ == TunnelView::Up,
        TunnelResult::NoToken@ == TunnelView::NoToken,
        TunnelResult::Failed(text)@ == TunnelView::Failed(text@),
        TunnelResult::Delisted(text)@ == TunnelView::Delisted(text@),
{
}

/// A tunnel is got back by asking for the state of the pairing, with its own id and token, unless
/// the connector is running, or there is no pairing to ask for.
pub proof fn law_resuming(running: bool, config: ConfigView, base: Seq<char>)
    ensures
        running ==> resume_of(running, config, base) == ResumeView::Running,
        !running && (config.pairing_id.len() == 0 || config.pairing_token.len() == 0) ==> resume_of(
            running,
            config,
            base,
        ) == ResumeView::Unpaired,
        !running && config.pairing_id.len() > 0 && config.pairing_token.len() > 0 ==> (resume_of(
            running,
            config,
            base,
        ) matches ResumeView::Ask(call) && {
            &&& call.method == Method::Get
            &&& call.url == base + "/v1/device-pairings/"@ + config.pairing_id
            &&& call.body is None
            &&& call.headers.len() == 1
            &&& call.headers[0] == ("X-DoodleIQ-Pairing-Token"@, config.pairing_token)
        }),
{
}

/// The connector is launched with the token that is offered, and not without one; and the tunnel
/// carries requests only where the connector is running.
pub proof fn law_offers_are_taken_up(text: Seq<char>)
    ensures
        taken_up(OfferView::Token(text)) == OfferStepView::Launch(text),
        taken_up(OfferView::NoToken) == OfferStepView::Settled(TunnelView::NoToken),
        taken_up(OfferView::Failed(text)) == OfferStepView::Settled(TunnelView::Failed(text)),
        taken_up(OfferView::Delisted(text)) == OfferStepView::Settled(TunnelView::Delisted(text)),
        carries(TunnelView::Up) == TunnelState::Up,
        carries(TunnelView::NoToken) == TunnelState::Down,
        carries(TunnelView::Failed(text)) == TunnelState::Down,
        carries(TunnelView::Delisted(text)) == TunnelState::Delisted,
{
}

/// Steps towards a tunnel are taken for what they hold.
pub proof fn law_tunnel_steps(call: Call, token: String, result: TunnelResult)
    ensures
        ResumeStep::Running@ == ResumeView::Running,
        ResumeStep::Unpaired@ == ResumeView::Unpaired,
        ResumeStep::Ask(call)@ == ResumeView::Ask(call@),
        OfferStep::Launch(token)@ == OfferStepView::Launch(token@),
        OfferStep::Settled(result)@ == OfferStepView::Settled(result@),
{
}

} // verus!
