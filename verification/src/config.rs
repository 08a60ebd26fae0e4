//! The agent's configuration: where the model runtime is, and which account this machine is
//! paired with.

use vstd::prelude::*;
use crate::json::{field, set_field, text_of, Json, JsonView};
use crate::text::{
    held, is_blank, is_blank_text, is_white, law_blank, law_without_trailing, trim_end,
    trimmed_back, trimmed_front, without_trailing,
};

verus! {

/// Where the model runtime listens unless the configuration says otherwise.
pub const DEFAULT_RUNTIME_URL: &'static str = "http://127.0.0.1:8001/v1/models/status";

/// Where the control plane is unless the environment says otherwise.
pub const DEFAULT_CONTROL_PLANE_URL: &'static str = "https://api.doodleiq.com";

/// The saved configuration.
#[derive(Debug, Clone)]
pub struct RuntimeConfig {
    pub url: String,
    pub api_key: String,
    pub provider_id: String,
    pub pairing_id: String,
    pub device_id: String,
    pub pairing_token: String,
}

/// What a [`RuntimeConfig`] says.
pub struct ConfigView {
    pub url: Seq<char>,
    pub api_key: Seq<char>,
    pub provider_id: Seq<char>,
    pub pairing_id: Seq<char>,
    pub device_id: Seq<char>,
    pub pairing_token: Seq<char>,
}

impl ConfigView {
    /// Whether the machine is paired with an account.
    pub open spec fn paired(self) -> bool {
        self.device_id.len() > 0 && self.pairing_token.len() > 0
    }

    /// Whether a model runtime is configured.
    pub open spec fn configured(self) -> bool {
        !is_blank_text(self.url)
    }
}

/// A configuration with everything empty.
pub open spec fn empty_config() -> ConfigView {
    ConfigView {
        url: Seq::empty(),
        api_key: Seq::empty(),
        provider_id: Seq::empty(),
        pairing_id: Seq::empty(),
        device_id: Seq::empty(),
        pairing_token: Seq::empty(),
    }
}

/// The URL to use for a configured one: a blank one stands for the default.
pub open spec fn effective_url(url: Seq<char>) -> Seq<char> {
    if is_blank_text(url) {
        DEFAULT_RUNTIME_URL@
    } else {
        url
    }
}

/// A configuration without its pairing.
pub open spec fn unpaired(config: ConfigView) -> ConfigView {
    ConfigView {
        provider_id: Seq::empty(),
        pairing_id: Seq::empty(),
        device_id: Seq::empty(),
        pairing_token: Seq::empty(),
        ..config
    }
}

/// What a full reset leaves.
pub open spec fn initial_config() -> ConfigView {
    ConfigView { url: DEFAULT_RUNTIME_URL@, ..empty_config() }
}

impl Default for RuntimeConfig {
    /// A configuration with everything empty.
    fn default() -> (config: Self)
        ensures
            config@ == empty_config(),
    {
        RuntimeConfig {
            url: String::new(),
            api_key: String::new(),
            provider_id: String::new(),
            pairing_id: String::new(),
            device_id: String::new(),
            pairing_token: String::new(),
        }
    }
}

impl RuntimeConfig {
    /// What this configuration says.
    pub open spec fn view(&self) -> ConfigView {
        ConfigView {
            url: self.url@,
            api_key: self.api_key@,
            provider_id: self.provider_id@,
            pairing_id: self.pairing_id@,
            device_id: self.device_id@,
            pairing_token: self.pairing_token@,
        }
    }

    /// Whether the machine is paired with an account.
    pub fn is_paired(&self) -> (paired: bool)
        ensures
            paired == self@.paired(),
    {
        !self.device_id.as_str().is_empty() && !self.pairing_token.as_str().is_empty()
    }

    /// Whether a model runtime is configured.
    pub fn is_configured(&self) -> (configured: bool)
        ensures
            configured == self@.configured(),
    {
        !is_blank(self.url.as_str())
    }
}

/// The default URL is not blank.
proof fn lemma_default_is_not_blank()
    ensures
        !is_blank_text(DEFAULT_RUNTIME_URL@),
{
    reveal_strlit("http://127.0.0.1:8001/v1/models/status");
    let url = DEFAULT_RUNTIME_URL@;
    assert(url[0] == 'h');
    assert(url.last() == 's');
    assert(trimmed_front(url) == url);
    assert(trimmed_back(url) == url);
}

/// Where the configuration is read from.
#[derive(Debug, Clone, Copy, PartialEq, Eq, Structural)]
pub enum ConfigSource {
    /// The configuration file itself.
    Current,
    /// The file of an earlier version at this place in their list. Its content is copied to the
    /// configuration file.
    Legacy(usize),
    /// There is none.
    Missing,
}

/// The place of the first file that exists, where any does.
pub open spec fn first_existing(exists: Seq<bool>) -> Option<int>
    decreases exists.len(),
{
    if exists.len() == 0 {
        None
    } else if exists[0] {
        Some(0)
    } else {
        match first_existing(exists.drop_first()) {
            Some(place) => Some(place + 1),
            None => None,
        }
    }
}

/// Where the configuration is read from, given whether its file exists, whether its directory
/// was chosen in the environment, and which files of earlier versions exist.
///
/// The file itself comes first. The files of earlier versions count only where no directory was
/// chosen, the first that exists before the others.
pub open spec fn source_of(
    current_exists: bool,
    directory_chosen: bool,
    legacy_exists: Seq<bool>,
) -> ConfigSource {
    if current_exists {
        ConfigSource::Current
    } else if directory_chosen {
        ConfigSource::Missing
    } else {
        match first_existing(legacy_exists) {
            Some(place) => ConfigSource::Legacy(place as usize),
            None => ConfigSource::Missing,
        }
    }
}

/// Where the configuration is read from.
pub fn config_source(current_exists: bool, directory_chosen: bool, legacy_exists: &[bool]) -> (source:
    ConfigSource)
    ensures
        source == source_of(current_exists, directory_chosen, legacy_exists@),
        source matches ConfigSource::Legacy(i) ==> i < legacy_exists@.len()
            && legacy_exists@[i as int],
{
    if current_exists {
        return ConfigSource::Current;
    }
    if directory_chosen {
        return ConfigSource::Missing;
    }
    let ghost all = legacy_exists@;
    let mut i: usize = 0;
    assert(all.skip(0) =~= all);
    while i < legacy_exists.len()
        invariant
            i <= legacy_exists@.len(),
            all == legacy_exists@,
            !current_exists,
            !directory_chosen,
            first_existing(all) == (match first_existing(all.skip(i as int)) {
                Some(place) => Some(place + i),
                None => None,
            }),
        decreases legacy_exists@.len() - i,
    {
        if legacy_exists[i] {
            return ConfigSource::Legacy(i);
        }
        assert(all.skip(i as int).drop_first() =~= all.skip(i + 1));
        i += 1;
    }
    ConfigSource::Missing
}

/// The configuration to start with where none was saved.
pub fn missing_config() -> (config: RuntimeConfig)
    ensures
        config@ == initial_config(),
{
    RuntimeConfig {
        url: DEFAULT_RUNTIME_URL.to_owned(),
        api_key: String::new(),
        provider_id: String::new(),
        pairing_id: String::new(),
        device_id: String::new(),
        pairing_token: String::new(),
    }
}

/// The configuration to start with, given what the file was read as: a file that could not be
/// read as one counts as empty, and a blank URL as the default.
pub open spec fn loaded_from(saved: Option<ConfigView>) -> ConfigView {
    let read = match saved {
        Some(saved) => saved,
        None => empty_config(),
    };
    ConfigView { url: effective_url(read.url), ..read }
}

/// What a configuration that may be missing says.
pub open spec fn config_held(config: Option<RuntimeConfig>) -> Option<ConfigView> {
    match config {
        Some(config) => Some(config@),
        None => None,
    }
}

/// The configuration to start with, given what the file was read as.
pub fn loaded_config(saved: Option<RuntimeConfig>) -> (config: RuntimeConfig)
    ensures
        config@ == loaded_from(config_held(saved)),
        config@.configured(),
{
    proof {
        lemma_default_is_not_blank();
    }
    let mut config: RuntimeConfig = match saved {
        Some(saved) => saved,
        None => RuntimeConfig::default(),
    };
    if is_blank(config.url.as_str()) {
        config.url = DEFAULT_RUNTIME_URL.to_owned();
    }
    config
}

// ---------------------------------------------------------------------------------------------
// The configuration as a document
// ---------------------------------------------------------------------------------------------

/// The document that a configuration is saved as.
pub open spec fn document_of(config: ConfigView) -> JsonView {
    JsonView::Object(
        Map::empty().insert("url"@, JsonView::Text(config.url)).insert(
            "api_key"@,
            JsonView::Text(config.api_key),
        ).insert("provider_id"@, JsonView::Text(config.provider_id)).insert(
            "pairing_id"@,
            JsonView::Text(config.pairing_id),
        ).insert("device_id"@, JsonView::Text(config.device_id)).insert(
            "pairing_token"@,
            JsonView::Text(config.pairing_token),
        ),
    )
}

/// The document that a configuration is saved as.
pub fn config_document(config: &RuntimeConfig) -> (document: Json)
    ensures
        document.tree() == document_of(config@),
{
    let mut entries: Vec<(String, Json)> = Vec::new();
    set_field(&mut entries, "url", Json::text(config.url.as_str()));
    set_field(&mut entries, "api_key", Json::text(config.api_key.as_str()));
    set_field(&mut entries, "provider_id", Json::text(config.provider_id.as_str()));
    set_field(&mut entries, "pairing_id", Json::text(config.pairing_id.as_str()));
    set_field(&mut entries, "device_id", Json::text(config.device_id.as_str()));
    set_field(&mut entries, "pairing_token", Json::text(config.pairing_token.as_str()));
    Json::Object(entries)
}

/// The text under `key`, or `missing` where there is nothing; none where there is something else.
pub open spec fn text_under(
    tree: JsonView,
    key: Seq<char>,
    missing: Option<Seq<char>>,
) -> Option<Seq<char>> {
    match field(tree, key) {
        Some(value) => text_of(value),
        None => missing,
    }
}

/// The configuration that a document says, where it says one: URL and key are there, what there is
/// of the pairing is text, and what there is not is empty.
pub open spec fn config_said(tree: JsonView) -> Option<ConfigView> {
    let none = Some(Seq::<char>::empty());
    match (
        text_under(tree, "url"@, None),
        text_under(tree, "api_key"@, None),
        text_under(tree, "provider_id"@, none),
        text_under(tree, "pairing_id"@, none),
        text_under(tree, "device_id"@, none),
        text_under(tree, "pairing_token"@, none),
    ) {
        (
            Some(url),
            Some(api_key),
            Some(provider_id),
            Some(pairing_id),
            Some(device_id),
            Some(pairing_token),
        ) => Some(
            ConfigView { url, api_key, provider_id, pairing_id, device_id, pairing_token },
        ),
        _ => None,
    }
}

/// The text under `key`; where there is nothing, none if it is `required` and else the empty text.
fn read_text(document: &Json, key: &str, required: bool) -> (text: Option<String>)
    ensures
        held(text) == text_under(
            document.tree(),
            key@,
            if required {
                None
            } else {
                Some(Seq::empty())
            },
        ),
{
    match document.get(key) {
        Some(value) => match value.as_str() {
            Some(text) => Some(text.to_owned()),
            None => None,
        },
        None => if required {
            None
        } else {
            Some(String::new())
        },
    }
}

/// The configuration that a document says, where it says one.
pub fn config_in(document: &Json) -> (config: Option<RuntimeConfig>)
    ensures
        config_held(config) == config_said(document.tree()),
{
    match (
        read_text(document, "url", true),
        read_text(document, "api_key", true),
        read_text(document, "provider_id", false),
        read_text(document, "pairing_id", false),
        read_text(document, "device_id", false),
        read_text(document, "pairing_token", false),
    ) {
        (
            Some(url),
            Some(api_key),
            Some(provider_id),
            Some(pairing_id),
            Some(device_id),
            Some(pairing_token),
        ) => Some(
            RuntimeConfig { url, api_key, provider_id, pairing_id, device_id, pairing_token },
        ),
        _ => None,
    }
}

/// What was saved loads again: the file itself is read, whether or not earlier versions have left
/// theirs and whatever directory was chosen, and the document that a configuration with a URL was
/// saved as gives back that configuration, in all its fields.
pub proof fn law_saved_config_loads(
    config: ConfigView,
    directory_chosen: bool,
    legacy_exists: Seq<bool>,
)
    ensures
        source_of(true, directory_chosen, legacy_exists) == ConfigSource::Current,
        config_said(document_of(config)) == Some(config),
        config.configured() ==> loaded_from(config_said(document_of(config))) == config,
{
    reveal_strlit("url");
    reveal_strlit("api_key");
    reveal_strlit("provider_id");
    reveal_strlit("pairing_id");
    reveal_strlit("device_id");
    reveal_strlit("pairing_token");
    assert("url"@.len() == 3);
    assert("api_key"@.len() == 7);
    assert("provider_id"@.len() == 11);
    assert("pairing_id"@.len() == 10);
    assert("device_id"@.len() == 9);
    assert("pairing_token"@.len() == 13);
}

/// The configuration after `configure`: a blank URL stands for the default, and the saved key and
/// pairing stay, unless a key is given.
pub open spec fn reconfigured(
    saved: ConfigView,
    url: Seq<char>,
    api_key: Option<Seq<char>>,
) -> ConfigView {
    ConfigView {
        url: effective_url(url),
        api_key: match api_key {
            Some(key) => key,
            None => saved.api_key,
        },
        ..saved
    }
}

/// The configuration after `configure`.
pub fn save_runtime_config(saved: RuntimeConfig, url: String, api_key: Option<String>) -> (config:
    RuntimeConfig)
    ensures
        config@ == reconfigured(saved@, url@, held(api_key)),
        config@.configured(),
{
    proof {
        lemma_default_is_not_blank();
    }
    RuntimeConfig {
        url: if is_blank(url.as_str()) {
            DEFAULT_RUNTIME_URL.to_owned()
        } else {
            url
        },
        api_key: match api_key {
            Some(key) => key,
            None => saved.api_key,
        },
        provider_id: saved.provider_id,
        pairing_id: saved.pairing_id,
        device_id: saved.device_id,
        pairing_token: saved.pairing_token,
    }
}

/// The configuration after `reset`: the pairing is gone, and with `all` the runtime's URL and key
/// as well.
pub open spec fn after_reset(config: ConfigView, all: bool) -> ConfigView {
    if all {
        initial_config()
    } else {
        unpaired(config)
    }
}

/// The configuration after `reset`.
pub fn reset_config(config: RuntimeConfig, all: bool) -> (reset: RuntimeConfig)
    ensures
        reset@ == after_reset(config@, all),
        !reset@.paired(),
{
    RuntimeConfig {
        url: if all {
            DEFAULT_RUNTIME_URL.to_owned()
        } else {
            config.url
        },
        api_key: if all {
            String::new()
        } else {
            config.api_key
        },
        provider_id: String::new(),
        pairing_id: String::new(),
        device_id: String::new(),
        pairing_token: String::new(),
    }
}

/// The base URL of the control plane, without trailing slashes: what the environment says, or
/// the default.
pub open spec fn control_plane_of(chosen: Option<Seq<char>>) -> Seq<char> {
    without_trailing(
        match chosen {
            Some(chosen) => chosen,
            None => DEFAULT_CONTROL_PLANE_URL@,
        },
        '/',
    )
}

/// The base URL of the control plane.
pub fn control_plane_url(chosen: Option<&str>) -> (url: String)
    ensures
        url@ == control_plane_of(
            match chosen {
                Some(chosen) => Some(chosen@),
                None => None,
            },
        ),
        url@.len() > 0 ==> url@.last() != '/',
{
    let url: &str = trim_end(
        match chosen {
            Some(chosen) => chosen,
            None => DEFAULT_CONTROL_PLANE_URL,
        },
        '/',
    );
    proof {
        lemma_without_trailing(
            match chosen {
                Some(chosen) => chosen@,
                None => DEFAULT_CONTROL_PLANE_URL@,
            },
            '/',
        );
    }
    url.to_owned()
}

/// Where a run at the end was taken off, none is left.
proof fn lemma_without_trailing(text: Seq<char>, c: char)
    ensures
        without_trailing(text, c).len() > 0 ==> without_trailing(text, c).last() != c,
    decreases text.len(),
{
    if text.len() > 0 && text.last() == c {
        lemma_without_trailing(text.drop_last(), c);
    }
}

/// Resetting twice is resetting once, and a full reset leaves nothing of what was saved.
pub proof fn law_reset(config: ConfigView)
    ensures
        unpaired(unpaired(config)) == unpaired(config),
        unpaired(initial_config()) == initial_config(),
        unpaired(config).url == config.url,
        unpaired(config).api_key == config.api_key,
{
}

/// A runtime is configured where the URL is not blank, and the machine is paired where it has both
/// a device and a token.
pub proof fn law_readiness(config: ConfigView)
    ensures
        config.configured() <==> exists|i: int|
            0 <= i < config.url.len() && !is_white(#[trigger] config.url[i]),
        config.paired() <==> config.device_id.len() > 0 && config.pairing_token.len() > 0,
{
    law_blank(config.url);
}

/// A configuration is taken for what it holds.
pub proof fn law_configurations(config: RuntimeConfig)
    ensures
        config@.url == config.url@,
        config@.api_key == config.api_key@,
        config@.provider_id == config.provider_id@,
        config@.pairing_id == config.pairing_id@,
        config@.device_id == config.device_id@,
        config@.pairing_token == config.pairing_token@,
        config_held(Some(config)) == Some(config@),
        config_held(None) is None,
{
}

/// A URL that is not blank is used as it is, and a blank one stands for the runtime's default; the
/// rest of a saved configuration is loaded as it is, and where none could be read, all but the URL
/// is empty.
pub proof fn law_loading(saved: ConfigView)
    ensures
        ({
            let loaded = loaded_from(Some(saved));
            &&& (exists|i: int| 0 <= i < saved.url.len() && !is_white(#[trigger] saved.url[i]))
                ==> loaded.url == saved.url
            &&& (forall|i: int| 0 <= i < saved.url.len() ==> is_white(#[trigger] saved.url[i]))
                ==> loaded.url == "http://127.0.0.1:8001/v1/models/status"@
            &&& loaded.api_key == saved.api_key
            &&& loaded.provider_id == saved.provider_id
            &&& loaded.pairing_id == saved.pairing_id
            &&& loaded.device_id == saved.device_id
            &&& loaded.pairing_token == saved.pairing_token
        }),
        ({
            let loaded = loaded_from(None);
            &&& loaded.url == "http://127.0.0.1:8001/v1/models/status"@
            &&& loaded.api_key.len() == 0
            &&& loaded.provider_id.len() == 0
            &&& loaded.pairing_id.len() == 0
            &&& loaded.device_id.len() == 0
            &&& loaded.pairing_token.len() == 0
        }),
        loaded_from(None) == initial_config(),
{
    law_blank(saved.url);
    law_blank(Seq::empty());
}

/// Of the files of earlier versions the first that exists counts, where the file itself does not
/// exist and no directory was chosen.
pub proof fn law_first_file_counts(chosen: bool, legacy: Seq<bool>, at: int)
    ensures
        source_of(true, chosen, legacy) == ConfigSource::Current,
        source_of(false, true, legacy) == ConfigSource::Missing,
        (forall|i: int| 0 <= i < legacy.len() ==> !#[trigger] legacy[i]) ==> source_of(
            false,
            false,
            legacy,
        ) == ConfigSource::Missing,
        0 <= at < legacy.len() && at <= usize::MAX && legacy[at] && (forall|i: int|
            0 <= i < at ==> !#[trigger] legacy[i]) ==> source_of(false, false, legacy)
            == ConfigSource::Legacy(at as usize),
{
    if forall|i: int| 0 <= i < legacy.len() ==> !#[trigger] legacy[i] {
        lemma_none_exists(legacy);
    }
    if 0 <= at < legacy.len() && legacy[at] && (forall|i: int| 0 <= i < at ==> !#[trigger] legacy[i])
    {
        lemma_first_existing(legacy, at);
    }
}

proof fn lemma_none_exists(exists: Seq<bool>)
    requires
        forall|i: int| 0 <= i < exists.len() ==> !#[trigger] exists[i],
    ensures
        first_existing(exists) is None,
    decreases exists.len(),
{
    if exists.len() > 0 {
        assert(!exists[0]);
        let rest = exists.drop_first();
        assert forall|i: int| 0 <= i < rest.len() implies !#[trigger] rest[i] by {
            assert(rest[i] == exists[i + 1]);
        }
        lemma_none_exists(rest);
    }
}

proof fn lemma_first_existing(exists: Seq<bool>, at: int)
    requires
        0 <= at < exists.len(),
        exists[at],
        forall|i: int| 0 <= i < at ==> !#[trigger] exists[i],
    ensures
        first_existing(exists) == Some(at),
    decreases at,
{
    if at > 0 {
        assert(!exists[0]);
        let rest = exists.drop_first();
        assert(rest[at - 1] == exists[at]);
        assert forall|i: int| 0 <= i < at - 1 implies !#[trigger] rest[i] by {
            assert(rest[i] == exists[i + 1]);
        }
        lemma_first_existing(rest, at - 1);
    }
}

/// A reset takes the pairing and leaves the runtime, and a full reset leaves the default URL and
/// nothing else.
pub proof fn law_what_a_reset_leaves(config: ConfigView)
    ensures
        unpaired(config).url == config.url,
        unpaired(config).api_key == config.api_key,
        unpaired(config).provider_id.len() == 0,
        unpaired(config).pairing_id.len() == 0,
        unpaired(config).device_id.len() == 0,
        unpaired(config).pairing_token.len() == 0,
        initial_config().url == "http://127.0.0.1:8001/v1/models/status"@,
        initial_config().api_key.len() == 0,
        initial_config().provider_id.len() == 0,
        initial_config().pairing_id.len() == 0,
        initial_config().device_id.len() == 0,
        initial_config().pairing_token.len() == 0,
{
}

/// A URL that is given is used as it is where it is not blank, and else stands for the default.
pub proof fn law_effective_url(url: Seq<char>)
    ensures
        (exists|i: int| 0 <= i < url.len() && !is_white(#[trigger] url[i])) ==> effective_url(url)
            == url,
        (forall|i: int| 0 <= i < url.len() ==> is_white(#[trigger] url[i])) ==> effective_url(url)
            == "http://127.0.0.1:8001/v1/models/status"@,
{
    law_blank(url);
}

/// A document that has texts under the six names says the configuration of these texts, whatever
/// else it has; one that lacks the pairing says an empty one; and one without a text for the URL or
/// the key, or with anything but a text in the place of one of the others, says none.
pub proof fn law_documents_of_configurations(
    map: Map<Seq<char>, JsonView>,
    config: ConfigView,
    tree: JsonView,
)
    ensures
        map.contains_key("url"@) && map["url"@] == JsonView::Text(config.url) && map.contains_key(
            "api_key"@,
        ) && map["api_key"@] == JsonView::Text(config.api_key) && (if map.contains_key(
            "provider_id"@,
        ) {
            map["provider_id"@] == JsonView::Text(config.provider_id)
        } else {
            config.provider_id == Seq::<char>::empty()
        }) && (if map.contains_key("pairing_id"@) {
            map["pairing_id"@] == JsonView::Text(config.pairing_id)
        } else {
            config.pairing_id == Seq::<char>::empty()
        }) && (if map.contains_key("device_id"@) {
            map["device_id"@] == JsonView::Text(config.device_id)
        } else {
            config.device_id == Seq::<char>::empty()
        }) && (if map.contains_key("pairing_token"@) {
            map["pairing_token"@] == JsonView::Text(config.pairing_token)
        } else {
            config.pairing_token == Seq::<char>::empty()
        }) ==> config_said(JsonView::Object(map)) == Some(config),
        !map.contains_key("url"@) || !map.contains_key("api_key"@) || !(map["url"@] is Text) || !(
        map["api_key"@] is Text) ==> config_said(JsonView::Object(map)) is None,
        map.contains_key("provider_id"@) && !(map["provider_id"@] is Text) || map.contains_key(
            "pairing_id"@,
        ) && !(map["pairing_id"@] is Text) || map.contains_key("device_id"@) && !(
        map["device_id"@] is Text) || map.contains_key("pairing_token"@) && !(
        map["pairing_token"@] is Text) ==> config_said(JsonView::Object(map)) is None,
        !(tree is Object) ==> config_said(tree) is None,
{
}

/// A saved configuration is its six fields, each under its own name and as it is, and nothing
/// else.
pub proof fn law_saved_document(config: ConfigView)
    ensures
        document_of(config) matches JsonView::Object(map) && {
            &&& map.dom() == set![
                "url"@,
                "api_key"@,
                "provider_id"@,
                "pairing_id"@,
                "device_id"@,
                "pairing_token"@,
            ]
            &&& map["url"@] == JsonView::Text(config.url)
            &&& map["api_key"@] == JsonView::Text(config.api_key)
            &&& map["provider_id"@] == JsonView::Text(config.provider_id)
            &&& map["pairing_id"@] == JsonView::Text(config.pairing_id)
            &&& map["device_id"@] == JsonView::Text(config.device_id)
            &&& map["pairing_token"@] == JsonView::Text(config.pairing_token)
        },
        DEFAULT_CONTROL_PLANE_URL@ == "https://api.doodleiq.com"@,
{
    reveal_strlit("url");
    reveal_strlit("api_key");
    reveal_strlit("provider_id");
    reveal_strlit("pairing_id");
    reveal_strlit("device_id");
    reveal_strlit("pairing_token");
    assert("url"@.len() == 3);
    assert("api_key"@.len() == 7);
    assert("provider_id"@.len() == 11);
    assert("pairing_id"@.len() == 10);
    assert("device_id"@.len() == 9);
    assert("pairing_token"@.len() == 13);
    assert(document_of(config)->Object_0.dom() =~= set![
        "url"@,
        "api_key"@,
        "provider_id"@,
        "pairing_id"@,
        "device_id"@,
        "pairing_token"@,
    ]);
}

/// `configure` sets the URL, or the default in the place of a blank one, and the key where one is
/// given, be it empty; the key that was saved stays where none is given, and the pairing in any
/// case.
pub proof fn law_configuring(
    saved: ConfigView,
    url: Seq<char>,
    key: Seq<char>,
    api_key: Option<Seq<char>>,
)
    ensures
        (exists|i: int| 0 <= i < url.len() && !is_white(#[trigger] url[i])) ==> reconfigured(
            saved,
            url,
            api_key,
        ).url == url,
        (forall|i: int| 0 <= i < url.len() ==> is_white(#[trigger] url[i])) ==> reconfigured(
            saved,
            url,
            api_key,
        ).url == "http://127.0.0.1:8001/v1/models/status"@,
        reconfigured(saved, url, Some(key)).api_key == key,
        reconfigured(saved, url, None).api_key == saved.api_key,
        reconfigured(saved, url, api_key).provider_id == saved.provider_id,
        reconfigured(saved, url, api_key).pairing_id == saved.pairing_id,
        reconfigured(saved, url, api_key).device_id == saved.device_id,
        reconfigured(saved, url, api_key).pairing_token == saved.pairing_token,
{
    law_blank(url);
}

/// `reset` takes the pairing and leaves the runtime's URL and key, and a full one leaves the
/// default URL alone.
pub proof fn law_resetting(config: ConfigView, all: bool)
    ensures
        after_reset(config, all).provider_id.len() == 0,
        after_reset(config, all).pairing_id.len() == 0,
        after_reset(config, all).device_id.len() == 0,
        after_reset(config, all).pairing_token.len() == 0,
        after_reset(config, false).url == config.url,
        after_reset(config, false).api_key == config.api_key,
        after_reset(config, true).url == "http://127.0.0.1:8001/v1/models/status"@,
        after_reset(config, true).api_key.len() == 0,
{
}

/// The control plane is the one that was chosen, but for slashes at its end, however many, and
/// else the default.
pub proof fn law_control_plane(base: Seq<char>, n: nat)
    requires
        base.len() > 0 ==> base[base.len() - 1] != '/',
    ensures
        control_plane_of(Some(base + Seq::new(n, |i: int| '/'))) == base,
        control_plane_of(None) == "https://api.doodleiq.com"@,
{
    law_without_trailing(base, '/', n);
    reveal_strlit("https://api.doodleiq.com");
    let default = DEFAULT_CONTROL_PLANE_URL@;
    assert(default[default.len() - 1] == 'm');
}

} // verus!
