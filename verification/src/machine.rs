//! Labels for this machine, chosen from what could be probed.

use vstd::prelude::*;
use vstd::utf8::*;
use crate::text::{
    held, is_blank, is_blank_text, is_white, law_blank, law_trimming, same_text, trim, trimmed,
    utf8_text,
};

verus! {

/// A machine's labels.
#[derive(Debug, Clone)]
pub struct MachineIdentity {
    pub name: String,
    pub model: String,
    pub location: String,
}

/// What the labels say.
pub struct MachineView {
    pub name: Seq<char>,
    pub model: Seq<char>,
    pub location: Seq<char>,
}

/// What could be probed of this machine. A source that this platform does not have is `None`.
#[derive(Debug)]
pub struct MachineProbes {
    /// What the platform's own tool says is the computer's name.
    pub computer_name: Option<String>,
    /// `COMPUTERNAME`, where the platform sets it.
    pub computer_name_variable: Option<String>,
    /// What `hostname` says.
    pub hostname: Option<String>,
    /// `HOSTNAME`.
    pub hostname_variable: Option<String>,
    /// What the platform's own tool says is the computer's model.
    pub model: Option<String>,
    /// The content of the firmware's product name file.
    pub product_name: Option<String>,
    /// The processor architecture.
    pub architecture: String,
    /// `TZ`.
    pub time_zone_variable: Option<String>,
    /// The system's time zone.
    pub time_zone: Option<String>,
}

/// The text, when there is one and it is not blank.
pub open spec fn not_blank(text: Option<Seq<char>>) -> Option<Seq<char>> {
    match text {
        Some(text) => if is_blank_text(text) {
            None
        } else {
            Some(text)
        },
        None => None,
    }
}

/// The first text that there is, or `last`.
pub open spec fn first_of(texts: Seq<Option<Seq<char>>>, last: Seq<char>) -> Seq<char>
    decreases texts.len(),
{
    if texts.len() == 0 {
        last
    } else {
        match texts[0] {
            Some(text) => text,
            None => first_of(texts.drop_first(), last),
        }
    }
}

/// The machine's name: that of the platform's tool, else of `COMPUTERNAME`, of `hostname`, of
/// `HOSTNAME`, else a stock name. The variables count only where they are not blank.
pub open spec fn name_of(probes: MachineProbes) -> Seq<char> {
    first_of(
        seq![
            held(probes.computer_name),
            not_blank(held(probes.computer_name_variable)),
            held(probes.hostname),
            not_blank(held(probes.hostname_variable)),
        ],
        "DoodleIQ provider"@,
    )
}

/// A product name that says something: trimmed, not empty, and not the vendor's placeholder.
pub open spec fn product_of(text: Option<Seq<char>>) -> Option<Seq<char>> {
    match text {
        Some(text) => if trimmed(text).len() > 0 && trimmed(text) != "System Product Name"@ {
            Some(trimmed(text))
        } else {
            None
        },
        None => None,
    }
}

/// The machine's model: that of the platform's tool, else the product name, else the processor
/// architecture.
pub open spec fn model_of(probes: MachineProbes) -> Seq<char> {
    first_of(
        seq![held(probes.model), product_of(held(probes.product_name))],
        probes.architecture@,
    )
}

/// The text without surrounding whitespace, when anything is left.
pub open spec fn trimmed_text(text: Option<Seq<char>>) -> Option<Seq<char>> {
    match text {
        Some(text) => if is_blank_text(text) {
            None
        } else {
            Some(trimmed(text))
        },
        None => None,
    }
}

/// The machine's location, by its time zone: that of `TZ`, else the system's, else a note that
/// there is none.
pub open spec fn location_of(probes: MachineProbes) -> Seq<char> {
    first_of(
        seq![trimmed_text(held(probes.time_zone_variable)), held(probes.time_zone)],
        "Location unavailable"@,
    )
}

/// The labels that follow from what could be probed.
pub open spec fn identity_of(probes: MachineProbes) -> MachineView {
    MachineView {
        name: name_of(probes),
        model: model_of(probes),
        location: location_of(probes),
    }
}

impl MachineIdentity {
    /// What these labels say.
    pub open spec fn view(&self) -> MachineView {
        MachineView { name: self.name@, model: self.model@, location: self.location@ }
    }

    /// The same labels again.
    pub fn copy(&self) -> (same: MachineIdentity)
        ensures
            same@ == self@,
    {
        MachineIdentity {
            name: self.name.clone(),
            model: self.model.clone(),
            location: self.location.clone(),
        }
    }
}

/// What a command printed, trimmed, when it succeeded and printed a text that is not blank.
pub fn command_output(succeeded: bool, printed: &[u8]) -> (output: Option<String>)
    ensures
        held(output) == (if succeeded && valid_utf8(printed@) {
            trimmed_text(Some(decode_utf8(printed@)))
        } else {
            None
        }),
{
    if !succeeded {
        return None;
    }
    match utf8_text(printed) {
        Some(text) => {
            proof {
                encode_utf8_decode_utf8(text@);
            }
            let value: &str = trim(text);
            if value.is_empty() {
                None
            } else {
                Some(value.to_owned())
            }
        },
        None => None,
    }
}

/// The machine's name.
pub fn machine_name(probes: &MachineProbes) -> (name: String)
    ensures
        name@ == name_of(*probes),
{
    proof {
        reveal_with_fuel(first_of, 5);
    }
    match &probes.computer_name {
        Some(name) => return name.clone(),
        None => (),
    }
    match &probes.computer_name_variable {
        Some(name) => if !is_blank(name.as_str()) {
            return name.clone();
        },
        None => (),
    }
    match &probes.hostname {
        Some(name) => return name.clone(),
        None => (),
    }
    match &probes.hostname_variable {
        Some(name) => if !is_blank(name.as_str()) {
            return name.clone();
        },
        None => (),
    }
    "DoodleIQ provider".to_owned()
}

/// The machine's model.
pub fn machine_model(probes: &MachineProbes) -> (model: String)
    ensures
        model@ == model_of(*probes),
{
    proof {
        reveal_with_fuel(first_of, 3);
    }
    match &probes.model {
        Some(model) => return model.clone(),
        None => (),
    }
    match &probes.product_name {
        Some(name) => {
            let name: &str = trim(name.as_str());
            if !name.is_empty() && !same_text(name, "System Product Name") {
                return name.to_owned();
            }
        },
        None => (),
    }
    probes.architecture.clone()
}

/// The machine's location.
pub fn machine_location(probes: &MachineProbes) -> (location: String)
    ensures
        location@ == location_of(*probes),
{
    proof {
        reveal_with_fuel(first_of, 3);
    }
    match &probes.time_zone_variable {
        Some(zone) => {
            let zone: &str = trim(zone.as_str());
            if !zone.is_empty() {
                return zone.to_owned();
            }
        },
        None => (),
    }
    match &probes.time_zone {
        Some(zone) => zone.clone(),
        None => "Location unavailable".to_owned(),
    }
}

/// The labels that follow from what could be probed.
pub fn compute_machine_identity(probes: &MachineProbes) -> (identity: MachineIdentity)
    ensures
        identity@ == identity_of(*probes),
{
    MachineIdentity {
        name: machine_name(probes),
        model: machine_model(probes),
        location: machine_location(probes),
    }
}

/// What a cache of the labels holds.
pub open spec fn cached(cache: Option<MachineIdentity>) -> Option<MachineView> {
    match cache {
        Some(identity) => Some(identity@),
        None => None,
    }
}

/// The labels of this machine: those of the cache, once it holds any, and until then those that
/// follow from `probes`, which go into the cache. From the first call on they never change.
pub fn machine_identity(cache: &mut Option<MachineIdentity>, probes: &MachineProbes) -> (identity:
    MachineIdentity)
    ensures
        identity@ == (match cached(*old(cache)) {
            Some(known) => known,
            None => identity_of(*probes),
        }),
        cached(*final(cache)) == Some(identity@),
{
    let known: Option<MachineIdentity> = match &*cache {
        Some(known) => Some(known.copy()),
        None => None,
    };
    match known {
        Some(known) => known,
        None => {
            let identity: MachineIdentity = compute_machine_identity(probes);
            *cache = Some(identity.copy());
            identity
        },
    }
}

// ---------------------------------------------------------------------------------------------
// What the labels are chosen from
// ---------------------------------------------------------------------------------------------

/// Whether a text that may be missing is there and says something.
pub open spec fn says_something(text: Option<String>) -> bool {
    text matches Some(text) && exists|i: int| 0 <= i < text@.len() && !is_white(#[trigger] text@[i])
}

/// The name is what the platform's tool says, or else the first that there is of `COMPUTERNAME`,
/// where that says something, of what `hostname` says, and of `HOSTNAME`, where that says
/// something; and where there is none, a stock name.
pub proof fn law_machine_name(probes: MachineProbes, name: String)
    ensures
        probes.computer_name == Some(name) ==> name_of(probes) == name@,
        probes.computer_name is None && probes.computer_name_variable == Some(name)
            && says_something(Some(name)) ==> name_of(probes) == name@,
        probes.computer_name is None && !says_something(probes.computer_name_variable)
            && probes.hostname == Some(name) ==> name_of(probes) == name@,
        probes.computer_name is None && !says_something(probes.computer_name_variable)
            && probes.hostname is None && probes.hostname_variable == Some(name)
            && says_something(Some(name)) ==> name_of(probes) == name@,
        probes.computer_name is None && !says_something(probes.computer_name_variable)
            && probes.hostname is None && !says_something(probes.hostname_variable) ==> name_of(
            probes,
        ) == "DoodleIQ provider"@,
{
    reveal_with_fuel(first_of, 5);
    lemma_not_blank(probes.computer_name_variable);
    lemma_not_blank(probes.hostname_variable);
}

proof fn lemma_not_blank(text: Option<String>)
    ensures
        says_something(text) ==> not_blank(held(text)) == held(text),
        !says_something(text) ==> not_blank(held(text)) is None,
{
    if let Some(text) = text {
        law_blank(text@);
    }
}

/// The model is what the platform's tool says, or else the product name without the whitespace
/// around it, where anything is left and that is not the vendor's placeholder, or else the
/// processor architecture.
pub proof fn law_machine_model(
    probes: MachineProbes,
    model: String,
    before: Seq<char>,
    product: Seq<char>,
    after: Seq<char>,
)
    requires
        forall|i: int| 0 <= i < before.len() ==> is_white(#[trigger] before[i]),
        forall|i: int| 0 <= i < after.len() ==> is_white(#[trigger] after[i]),
        product.len() > 0 ==> !is_white(product[0]) && !is_white(product[product.len() - 1]),
    ensures
        probes.model == Some(model) ==> model_of(probes) == model@,
        probes.model is None && probes.product_name is None ==> model_of(probes)
            == probes.architecture@,
        probes.model is None && (probes.product_name matches Some(name) && name@ == before + product
            + after) ==> model_of(probes) == (if product.len() == 0 || product
            == "System Product Name"@ {
            probes.architecture@
        } else {
            product
        }),
{
    reveal_with_fuel(first_of, 3);
    law_trimming(before, product, after);
}

/// The location is the time zone of `TZ` without the whitespace around it, where anything is left,
/// or else the system's, or else the note that there is none.
pub proof fn law_machine_location(
    probes: MachineProbes,
    system: String,
    before: Seq<char>,
    zone: Seq<char>,
    after: Seq<char>,
)
    requires
        forall|i: int| 0 <= i < before.len() ==> is_white(#[trigger] before[i]),
        forall|i: int| 0 <= i < after.len() ==> is_white(#[trigger] after[i]),
        zone.len() > 0,
        !is_white(zone[0]),
        !is_white(zone[zone.len() - 1]),
    ensures
        (probes.time_zone_variable matches Some(text) && text@ == before + zone + after)
            ==> location_of(probes) == zone,
        !says_something(probes.time_zone_variable) && probes.time_zone == Some(system)
            ==> location_of(probes) == system@,
        !says_something(probes.time_zone_variable) && probes.time_zone is None ==> location_of(
            probes,
        ) == "Location unavailable"@,
{
    reveal_with_fuel(first_of, 3);
    law_trimming(before, zone, after);
    let whole = before + zone + after;
    assert(whole[before.len() as int] == zone[0]);
    law_blank(whole);
    if let Some(text) = probes.time_zone_variable {
        law_blank(text@);
    }
}

/// A machine's labels are its name, its model and its location.
pub proof fn law_machine_labels(probes: MachineProbes, identity: MachineIdentity)
    ensures
        identity_of(probes).name == name_of(probes),
        identity_of(probes).model == model_of(probes),
        identity_of(probes).location == location_of(probes),
        identity@.name == identity.name@,
        identity@.model == identity.model@,
        identity@.location == identity.location@,
        cached(Some(identity)) == Some(identity@),
        cached(None) is None,
{
}

/// What is printed counts without the whitespace around it, where anything is left.
pub proof fn law_printed_text(before: Seq<char>, inner: Seq<char>, after: Seq<char>)
    requires
        forall|i: int| 0 <= i < before.len() ==> is_white(#[trigger] before[i]),
        forall|i: int| 0 <= i < after.len() ==> is_white(#[trigger] after[i]),
        inner.len() > 0 ==> !is_white(inner[0]) && !is_white(inner[inner.len() - 1]),
    ensures
        inner.len() > 0 ==> trimmed_text(Some(before + inner + after)) == Some(inner),
        inner.len() == 0 ==> trimmed_text(Some(before + inner + after)) is None,
        trimmed_text(None) is None,
{
    law_trimming(before, inner, after);
}

} // verus!
