//! Which model the runtime is serving.

use vstd::prelude::*;
use crate::config::{ConfigView, RuntimeConfig};
use crate::http::{
    get_call, status_line, status_text, with_header, Call, CallView, Method, Reply,
};
use crate::json::{array_of, field, items_tree, text_of, Json, JsonView};
use crate::text::{is_blank, is_blank_text, is_white, law_blank};

verus! {

/// What discovery says when the runtime is serving no model.
pub const NO_LOADED_MODEL: &'static str = "the model runtime has no loaded model";

/// The models that a runtime lists: a bare array, or an array under `models` or under `data`.
pub open spec fn listed_models(tree: JsonView) -> Option<Seq<JsonView>> {
    match array_of(tree) {
        Some(models) => Some(models),
        None => match array_under(tree, "models"@) {
            Some(models) => Some(models),
            None => array_under(tree, "data"@),
        },
    }
}

/// The array under `key`, when there is one.
pub open spec fn array_under(tree: JsonView, key: Seq<char>) -> Option<Seq<JsonView>> {
    match field(tree, key) {
        Some(value) => array_of(value),
        None => None,
    }
}

/// The id of a listed model, when it has one that is not blank.
pub open spec fn model_id(model: JsonView) -> Option<Seq<char>> {
    match field(model, "id"@) {
        Some(id) => match text_of(id) {
            Some(id) => if is_blank_text(id) {
                None
            } else {
                Some(id)
            },
            None => None,
        },
        None => None,
    }
}

/// Whether a runtime says of any model whether it is loaded.
pub open spec fn reports_load_state(models: Seq<JsonView>) -> bool {
    exists|i: int| 0 <= i < models.len() && field(#[trigger] models[i], "loaded"@) is Some
}

/// The first id in the list, of the loaded models alone where `loaded_only`.
pub open spec fn first_id(models: Seq<JsonView>, loaded_only: bool) -> Option<Seq<char>>
    decreases models.len(),
{
    if models.len() == 0 {
        None
    } else {
        let eligible = !loaded_only || field(models[0], "loaded"@) == Some(JsonView::Bool(true));
        if eligible && model_id(models[0]) is Some {
            model_id(models[0])
        } else {
            first_id(models.drop_first(), loaded_only)
        }
    }
}

/// The model that a runtime serves, by its list: the first loaded one where it says of any
/// whether it is loaded, else the first.
pub open spec fn served_model(tree: JsonView) -> Option<Seq<char>> {
    match listed_models(tree) {
        Some(models) => first_id(models, reports_load_state(models)),
        None => None,
    }
}

/// The models that a runtime lists.
fn models_of(payload: &Json) -> (models: Option<&Vec<Json>>)
    ensures
        match models {
            Some(models) => listed_models(payload.tree()) == Some(items_tree(models@)),
            None => listed_models(payload.tree()) is None,
        },
{
    match payload.as_array() {
        Some(models) => return Some(models),
        None => (),
    }
    match payload.get("models") {
        Some(value) => match value.as_array() {
            Some(models) => return Some(models),
            None => (),
        },
        None => (),
    }
    match payload.get("data") {
        Some(value) => value.as_array(),
        None => None,
    }
}

/// The id of a listed model, when it has one that is not blank.
fn id_of(model: &Json) -> (id: Option<&str>)
    ensures
        match id {
            Some(id) => model_id(model.tree()) == Some(id@),
            None => model_id(model.tree()) is None,
        },
{
    match model.get("id") {
        Some(id) => match id.as_str() {
            Some(id) => if is_blank(id) {
                None
            } else {
                Some(id)
            },
            None => None,
        },
        None => None,
    }
}

/// Whether a model is said to be loaded.
fn is_loaded(model: &Json) -> (loaded: bool)
    ensures
        loaded == (field(model.tree(), "loaded"@) == Some(JsonView::Bool(true))),
{
    match model.get("loaded") {
        Some(loaded) => match loaded.as_bool() {
            Some(loaded) => loaded,
            None => false,
        },
        None => false,
    }
}

/// The model that a runtime serves, by its list.
pub fn loaded_model_id(payload: &Json) -> (id: Option<String>)
    ensures
        match id {
            Some(id) => served_model(payload.tree()) == Some(id@),
            None => served_model(payload.tree()) is None,
        },
{
    let models: &Vec<Json> = match models_of(payload) {
        Some(models) => models,
        None => return None,
    };
    let ghost trees = items_tree(models@);
    let mut reports: bool = false;
    let mut i: usize = 0;
    while i < models.len()
        invariant
            i <= models@.len(),
            trees == items_tree(models@),
            reports == exists|k: int| 0 <= k < i && field(#[trigger] trees[k], "loaded"@) is Some,
        decreases models@.len() - i,
    {
        assert(trees[i as int] == models@[i as int].tree());
        if models[i].get("loaded").is_some() {
            reports = true;
        }
        i += 1;
    }
    assert(reports == reports_load_state(trees));
    let mut i: usize = 0;
    assert(trees.skip(0) =~= trees);
    while i < models.len()
        invariant
            i <= models@.len(),
            trees == items_tree(models@),
            served_model(payload.tree()) == first_id(trees.skip(i as int), reports),
        decreases models@.len() - i,
    {
        assert(trees.skip(i as int)[0] == models@[i as int].tree());
        assert(trees.skip(i as int).drop_first() =~= trees.skip(i + 1));
        if !reports || is_loaded(&models[i]) {
            match id_of(&models[i]) {
                Some(id) => return Some(id.to_owned()),
                None => (),
            }
        }
        i += 1;
    }
    assert(trees.skip(i as int) =~= Seq::empty());
    None
}

/// The call that asks the runtime for its models.
pub open spec fn models_call(config: ConfigView) -> CallView {
    if is_blank_text(config.api_key) {
        get_call(config.url)
    } else {
        with_header(get_call(config.url), "authorization"@, "Bearer "@ + config.api_key)
    }
}

/// The credential that the model runtime is shown, where one is configured.
pub fn runtime_credential(config: &RuntimeConfig) -> (credential: Option<String>)
    ensures
        match credential {
            Some(credential) => !is_blank_text(config@.api_key) && credential@ == "Bearer "@
                + config@.api_key,
            None => is_blank_text(config@.api_key),
        },
{
    if is_blank(config.api_key.as_str()) {
        None
    } else {
        let mut credential: String = "Bearer ".to_owned();
        credential.append(config.api_key.as_str());
        Some(credential)
    }
}

/// The call that asks the runtime for its models.
pub fn discovery_call(config: &RuntimeConfig) -> (call: Call)
    ensures
        call@ == models_call(config@),
{
    let call: Call = Call::get(config.url.clone());
    match runtime_credential(config) {
        Some(credential) => call.with_header("authorization", credential.as_str()),
        None => call,
    }
}

/// What discovery says, given what came of its call.
pub open spec fn discovery(reply: Reply<Json>) -> Result<Seq<char>, Seq<char>> {
    match reply {
        Reply::Unreachable(err) => Err("unable to reach the model runtime: "@ + err@),
        Reply::Rejected { status, .. } => Err("model runtime returned "@ + status_line(status)),
        Reply::Malformed(err) => Err("invalid model runtime response: "@ + err@),
        Reply::Answered(payload) => match served_model(payload.tree()) {
            Some(id) => Ok(id),
            None => Err(NO_LOADED_MODEL@),
        },
    }
}

/// The texts of a result.
pub open spec fn texts(result: Result<String, String>) -> Result<Seq<char>, Seq<char>> {
    match result {
        Ok(text) => Ok(text@),
        Err(text) => Err(text@),
    }
}

/// The model that the runtime is serving, given what came of the call that asked it.
pub fn discover_loaded_model(reply: Reply<Json>) -> (found: Result<String, String>)
    ensures
        texts(found) == discovery(reply),
{
    match reply {
        Reply::Unreachable(err) => {
            let mut text: String = "unable to reach the model runtime: ".to_owned();
            text.append(err.as_str());
            Err(text)
        },
        Reply::Rejected { status, detail: _ } => {
            let mut text: String = "model runtime returned ".to_owned();
            text.append(status_text(status).as_str());
            Err(text)
        },
        Reply::Malformed(err) => {
            let mut text: String = "invalid model runtime response: ".to_owned();
            text.append(err.as_str());
            Err(text)
        },
        Reply::Answered(payload) => match loaded_model_id(&payload) {
            Some(id) => Ok(id),
            None => Err(NO_LOADED_MODEL.to_owned()),
        },
    }
}

/// A runtime that reports load state is never taken to serve a model that it does not report as
/// loaded, and a runtime that reports none serves a model that it lists.
pub proof fn law_served_model_is_listed(tree: JsonView)
    requires
        served_model(tree) is Some,
    ensures
        listed_models(tree) matches Some(models) && exists|i: int|
            {
                &&& 0 <= i < models.len()
                &&& model_id(#[trigger] models[i]) == served_model(tree)
                &&& reports_load_state(models) ==> field(models[i], "loaded"@) == Some(
                    JsonView::Bool(true),
                )
            },
{
    let models = listed_models(tree)->Some_0;
    lemma_first_id_is_listed(models, reports_load_state(models));
}

proof fn lemma_first_id_is_listed(models: Seq<JsonView>, loaded_only: bool)
    requires
        first_id(models, loaded_only) is Some,
    ensures
        exists|i: int|
            {
                &&& 0 <= i < models.len()
                &&& model_id(#[trigger] models[i]) == first_id(models, loaded_only)
                &&& loaded_only ==> field(models[i], "loaded"@) == Some(JsonView::Bool(true))
            },
    decreases models.len(),
{
    let eligible = !loaded_only || field(models[0], "loaded"@) == Some(JsonView::Bool(true));
    if eligible && model_id(models[0]) is Some {
        assert(model_id(models[0]) == first_id(models, loaded_only));
    } else {
        let rest = models.drop_first();
        lemma_first_id_is_listed(rest, loaded_only);
        let i = choose|i: int|
            {
                &&& 0 <= i < rest.len()
                &&& model_id(#[trigger] rest[i]) == first_id(rest, loaded_only)
                &&& loaded_only ==> field(rest[i], "loaded"@) == Some(JsonView::Bool(true))
            };
        assert(models[i + 1] == rest[i]);
    }
}

/// A list of models is an array, or an object with an array under `models`, or else under `data`;
/// anything else lists none.
pub proof fn law_models_are_listed(
    models: Seq<JsonView>,
    map: Map<Seq<char>, JsonView>,
    tree: JsonView,
)
    ensures
        listed_models(JsonView::Array(models)) == Some(models),
        map.contains_key("models"@) && map["models"@] == JsonView::Array(models) ==> listed_models(
            JsonView::Object(map),
        ) == Some(models),
        !(map.contains_key("models"@) && map["models"@] is Array) && map.contains_key("data"@)
            && map["data"@] == JsonView::Array(models) ==> listed_models(JsonView::Object(map))
            == Some(models),
        !(map.contains_key("models"@) && map["models"@] is Array) && !(map.contains_key("data"@)
            && map["data"@] is Array) ==> listed_models(JsonView::Object(map)) is None,
        !(tree is Array) && !(tree is Object) ==> listed_models(tree) is None,
{
}

/// Whether an entry of a list names a model: it has a text under `id` that is not blank.
pub open spec fn names(entry: JsonView, id: Seq<char>) -> bool {
    &&& entry matches JsonView::Object(map)
    &&& map.contains_key("id"@)
    &&& map["id"@] == JsonView::Text(id)
    &&& exists|i: int| 0 <= i < id.len() && !is_white(#[trigger] id[i])
}

/// Whether an entry of a list says that its model is loaded.
pub open spec fn says_loaded(entry: JsonView) -> bool {
    &&& entry matches JsonView::Object(map)
    &&& map.contains_key("loaded"@)
    &&& map["loaded"@] == JsonView::Bool(true)
}

/// Whether an entry of a list says anything of whether its model is loaded.
pub open spec fn speaks_of_loading(entry: JsonView) -> bool {
    entry matches JsonView::Object(map) && map.contains_key("loaded"@)
}

/// The served model is a text that the runtime itself lists, as it stands there: the one under
/// `id` in the first entry that has one that is not blank, among the entries that say that they
/// are loaded where any entry speaks of that, and among all where none does.
pub proof fn law_served_model_is_the_first_listed(
    tree: JsonView,
    models: Seq<JsonView>,
    at: int,
    id: Seq<char>,
)
    requires
        listed_models(tree) == Some(models),
        0 <= at < models.len(),
        names(models[at], id),
        ({
            ||| says_loaded(models[at]) && forall|i: int|
                #![trigger models[i]]
                0 <= i < at ==> !says_loaded(models[i]) || forall|other: Seq<char>|
                    !names(models[i], other)
            ||| (forall|i: int|
                0 <= i < models.len() ==> !speaks_of_loading(#[trigger] models[i])) && (forall|
                i: int,
                other: Seq<char>,
            |
                #![trigger names(models[i], other)]
                0 <= i < at ==> !names(models[i], other))
        }),
    ensures
        served_model(tree) == Some(id),
{
    let loaded_only = reports_load_state(models);
    assert(loaded_only == says_loaded(models[at])) by {
        if says_loaded(models[at]) {
            assert(field(models[at], "loaded"@) is Some);
        } else if loaded_only {
            let k = choose|k: int|
                0 <= k < models.len() && field(#[trigger] models[k], "loaded"@) is Some;
            assert(speaks_of_loading(models[k]));
        }
    }
    assert forall|i: int| 0 <= i < at implies (loaded_only && !says_loaded(#[trigger] models[i]))
        || model_id(models[i]) is None by {
        if model_id(models[i]) is Some {
            lemma_names(models[i], model_id(models[i])->Some_0);
            assert(names(models[i], model_id(models[i])->Some_0));
        }
    }
    lemma_names(models[at], id);
    lemma_first_id_at(models, loaded_only, at);
}

/// An entry names a model exactly where it has an id.
proof fn lemma_names(entry: JsonView, id: Seq<char>)
    ensures
        names(entry, id) <==> model_id(entry) == Some(id),
{
    law_blank(id);
}

proof fn lemma_first_id_at(models: Seq<JsonView>, loaded_only: bool, at: int)
    requires
        0 <= at < models.len(),
        model_id(models[at]) is Some,
        loaded_only ==> says_loaded(models[at]),
        forall|i: int|
            0 <= i < at ==> (loaded_only && !says_loaded(#[trigger] models[i])) || model_id(
                models[i],
            ) is None,
    ensures
        first_id(models, loaded_only) == model_id(models[at]),
    decreases at,
{
    assert(says_loaded(models[0]) <==> field(models[0], "loaded"@) == Some(JsonView::Bool(true)));
    if at > 0 {
        let rest = models.drop_first();
        assert(rest[at - 1] == models[at]);
        assert forall|i: int| 0 <= i < at - 1 implies (loaded_only && !says_loaded(
            #[trigger] rest[i],
        )) || model_id(rest[i]) is None by {
            assert(rest[i] == models[i + 1]);
        }
        lemma_first_id_at(rest, loaded_only, at - 1);
    }
}

/// No model is served that is not listed by its own text, and none is served where no list is
/// given, where no entry names one, or where entries speak of loading and none that names one says
/// that it is loaded.
pub proof fn law_no_other_model_is_served(tree: JsonView, models: Seq<JsonView>)
    ensures
        listed_models(tree) is None ==> served_model(tree) is None,
        listed_models(tree) == Some(models) ==> (served_model(tree) matches Some(id) ==> exists|
            i: int,
        |
            {
                &&& 0 <= i < models.len()
                &&& names(#[trigger] models[i], id)
                &&& (exists|k: int| 0 <= k < models.len() && speaks_of_loading(#[trigger] models[k]))
                    ==> says_loaded(models[i])
            }),
{
    if listed_models(tree) == Some(models) && served_model(tree) is Some {
        law_served_model_is_listed(tree);
        let id = served_model(tree)->Some_0;
        let i = choose|i: int|
            {
                &&& 0 <= i < models.len()
                &&& model_id(#[trigger] models[i]) == served_model(tree)
                &&& reports_load_state(models) ==> field(models[i], "loaded"@) == Some(
                    JsonView::Bool(true),
                )
            };
        lemma_names(models[i], id);
        assert(names(models[i], id));
        if exists|k: int| 0 <= k < models.len() && speaks_of_loading(#[trigger] models[k]) {
            let k = choose|k: int| 0 <= k < models.len() && speaks_of_loading(#[trigger] models[k]);
            assert(field(models[k], "loaded"@) is Some);
            assert(reports_load_state(models));
        }
    }
}

/// The runtime is asked at the URL that is configured, with a GET, and is shown its key, as a
/// bearer, exactly where one is configured that is not blank.
pub proof fn law_discovery_call(config: ConfigView)
    ensures
        models_call(config).method == Method::Get,
        models_call(config).url == config.url,
        models_call(config).body is None,
        (exists|i: int| 0 <= i < config.api_key.len() && !is_white(#[trigger] config.api_key[i]))
            ==> models_call(config).headers == seq![
            ("authorization"@, "Bearer "@ + config.api_key),
        ],
        (forall|i: int| 0 <= i < config.api_key.len() ==> is_white(#[trigger] config.api_key[i]))
            ==> models_call(config).headers.len() == 0,
{
    law_blank(config.api_key);
    if !is_blank_text(config.api_key) {
        assert(models_call(config).headers =~= seq![
            ("authorization"@, "Bearer "@ + config.api_key),
        ]);
    }
}

/// Discovery finds the model that the answer says is served, and says that there is none where the
/// answer says so; an error of the call is told as what it is.
pub proof fn law_discovery(payload: Json, err: String, status: u16, detail: Option<String>)
    ensures
        served_model(payload.tree()) matches Some(id) ==> discovery(Reply::Answered(payload))
            == Ok::<Seq<char>, Seq<char>>(id),
        served_model(payload.tree()) is None ==> discovery(Reply::Answered(payload)) == Err::<
            Seq<char>,
            Seq<char>,
        >("the model runtime has no loaded model"@),
        discovery(Reply::Unreachable(err)) == Err::<Seq<char>, Seq<char>>(
            "unable to reach the model runtime: "@ + err@,
        ),
        discovery(Reply::Malformed(err)) == Err::<Seq<char>, Seq<char>>(
            "invalid model runtime response: "@ + err@,
        ),
        discovery(Reply::Rejected { status, detail }) == Err::<Seq<char>, Seq<char>>(
            "model runtime returned "@ + status_line(status),
        ),
        texts(Ok(err)) == Ok::<Seq<char>, Seq<char>>(err@),
        texts(Err(err)) == Err::<Seq<char>, Seq<char>>(err@),
{
}

} // verus!
