use doodleiq::config::RuntimeConfig;
use doodleiq::http::{Method, Reply};
use doodleiq::json::Json;
use doodleiq::models::{discover_loaded_model, discovery_call, loaded_model_id, NO_LOADED_MODEL};

fn document(text: &str) -> Json {
    Json::from_value(serde_json::from_str(text).unwrap())
}

fn found(text: &str) -> Option<String> {
    loaded_model_id(&document(text))
}

#[test]
fn selects_first_loaded_model_from_status() {
    let payload = document(
        r#"{"models": [
            {"id": "not-loaded", "loaded": false},
            {"id": "loaded-model", "loaded": true}
        ]}"#,
    );
    assert_eq!(loaded_model_id(&payload).as_deref(), Some("loaded-model"));
}

#[test]
fn falls_back_to_first_model_when_runtime_omits_load_state() {
    let payload = document(
        r#"{"object": "list", "data": [
            {"id": "llama3.2", "object": "model"},
            {"id": "qwen2.5", "object": "model"}
        ]}"#,
    );
    assert_eq!(loaded_model_id(&payload).as_deref(), Some("llama3.2"));
}

#[test]
fn reads_a_bare_array() {
    assert_eq!(found(r#"[{"id":"a"},{"id":"b"}]"#).as_deref(), Some("a"));
}

#[test]
fn models_come_before_data() {
    assert_eq!(
        found(r#"{"data":[{"id":"d"}],"models":[{"id":"m"}]}"#).as_deref(),
        Some("m")
    );
    assert_eq!(found(r#"{"data":[{"id":"d"}],"models":7}"#).as_deref(), Some("d"));
}

#[test]
fn blank_and_missing_ids_are_passed_over() {
    assert_eq!(found(r#"[{"id":" "},{"name":"x"},{"id":5},{"id":"b "}]"#).as_deref(), Some("b "));
    assert_eq!(found(r#"[{"loaded":true},{"id":"b","loaded":true}]"#).as_deref(), Some("b"));
}

#[test]
fn any_load_state_makes_it_count_for_all() {
    assert_eq!(found(r#"[{"id":"a"},{"id":"b","loaded":false}]"#), None);
    assert_eq!(found(r#"[{"id":"a"},{"id":"b","loaded":"yes"}]"#), None);
    assert_eq!(found(r#"[{"id":"a"},{"id":"b","loaded":null},{"id":"c","loaded":true}]"#).as_deref(), Some("c"));
}

#[test]
fn nothing_listed_is_nothing_served() {
    assert_eq!(found("{}"), None);
    assert_eq!(found("[]"), None);
    assert_eq!(found(r#""models""#), None);
}

#[test]
fn discovery_tells_its_failures_apart() {
    assert_eq!(
        discover_loaded_model(Reply::Unreachable("refused".to_string())),
        Err("unable to reach the model runtime: refused".to_string())
    );
    assert_eq!(
        discover_loaded_model(Reply::Rejected { status: 500, detail: None }),
        Err("model runtime returned 500 Internal Server Error".to_string())
    );
    assert_eq!(
        discover_loaded_model(Reply::Malformed("eof".to_string())),
        Err("invalid model runtime response: eof".to_string())
    );
    assert_eq!(
        discover_loaded_model(Reply::Answered(document("[]"))),
        Err(NO_LOADED_MODEL.to_string())
    );
    assert_eq!(
        discover_loaded_model(Reply::Answered(document(r#"[{"id":"a"}]"#))),
        Ok("a".to_string())
    );
}

#[test]
fn discovery_shows_the_key_where_there_is_one() {
    let mut config = RuntimeConfig {
        url: "http://127.0.0.1:1234/v1/models".to_string(),
        ..RuntimeConfig::default()
    };
    let call = discovery_call(&config);
    assert_eq!(call.method, Method::Get);
    assert_eq!(call.url, "http://127.0.0.1:1234/v1/models");
    assert!(call.headers.is_empty());
    assert!(call.body.is_none());
    config.api_key = "key".to_string();
    let call = discovery_call(&config);
    assert_eq!(call.headers, vec![("authorization".to_string(), "Bearer key".to_string())]);
    config.api_key = "  ".to_string();
    assert!(discovery_call(&config).headers.is_empty());
}
