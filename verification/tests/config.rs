use doodleiq::config::{
    config_document, config_in, config_source, control_plane_url, loaded_config, missing_config,
    reset_config, save_runtime_config, ConfigSource, RuntimeConfig, DEFAULT_RUNTIME_URL,
};
use doodleiq::json::Json;
use doodleiq::machine::{
    command_output, compute_machine_identity, machine_identity, machine_location, machine_model,
    machine_name, MachineProbes,
};
use doodleiq::paths::{
    cloudflared_binary, cloudflared_candidates, cloudflared_download_path, cloudflared_partial_path, cloudflared_pid_path,
    config_path, device_key_path, legacy_config_paths, log_file_path, ConfigDirs, Location,
};

fn saved() -> RuntimeConfig {
    RuntimeConfig {
        url: "http://x".to_string(),
        api_key: "key".to_string(),
        provider_id: "prov".to_string(),
        pairing_id: "pair".to_string(),
        device_id: "dev".to_string(),
        pairing_token: "secret".to_string(),
    }
}

fn spelt(location: &Location<&str>) -> String {
    let mut text = location.root.to_string();
    for name in &location.names {
        text.push('/');
        text.push_str(name);
    }
    text
}

fn dirs() -> ConfigDirs<&'static str> {
    ConfigDirs {
        chosen: Some("chosen"),
        app_data: Some("appdata"),
        xdg_config_home: Some("xdg"),
        home: Some("home"),
    }
}

fn probes() -> MachineProbes {
    MachineProbes {
        computer_name: Some("tool".to_string()),
        computer_name_variable: Some("variable".to_string()),
        hostname: Some("host".to_string()),
        hostname_variable: Some("hostvar".to_string()),
        model: Some("Mac17,8".to_string()),
        product_name: Some(" Box 9 \n".to_string()),
        architecture: "x86_64".to_string(),
        time_zone_variable: Some(" Europe/Vienna ".to_string()),
        time_zone: Some("America/Denver".to_string()),
    }
}

#[test]
fn a_configuration_is_read_from_the_first_place() {
    assert_eq!(config_source(true, false, &[true, true]), ConfigSource::Current);
    assert_eq!(config_source(false, true, &[true, true]), ConfigSource::Missing);
    assert_eq!(config_source(false, false, &[false, true]), ConfigSource::Legacy(1));
    assert_eq!(config_source(false, false, &[true, true]), ConfigSource::Legacy(0));
    assert_eq!(config_source(false, false, &[]), ConfigSource::Missing);
}

#[test]
fn a_blank_url_is_the_default() {
    assert_eq!(missing_config().url, DEFAULT_RUNTIME_URL);
    assert_eq!(loaded_config(None).url, DEFAULT_RUNTIME_URL);
    assert!(loaded_config(None).is_configured());
    assert!(!RuntimeConfig::default().is_configured());
    let blank = RuntimeConfig { url: " ".to_string(), ..saved() };
    let loaded = loaded_config(Some(blank));
    assert_eq!(loaded.url, DEFAULT_RUNTIME_URL);
    assert_eq!(loaded.api_key, "key");
    assert_eq!(loaded_config(Some(saved())).url, "http://x");
}

fn fields(config: &RuntimeConfig) -> [&str; 6] {
    [
        &config.url,
        &config.api_key,
        &config.provider_id,
        &config.pairing_id,
        &config.device_id,
        &config.pairing_token,
    ]
}

#[test]
fn a_saved_configuration_loads_again() {
    let bytes = config_document(&saved()).into_bytes();
    let written: serde_json::Value = serde_json::from_slice(&bytes).unwrap();
    let expected: serde_json::Value = serde_json::from_str(
        r#"{"url":"http://x","api_key":"key","provider_id":"prov","pairing_id":"pair",
            "device_id":"dev","pairing_token":"secret"}"#,
    )
    .unwrap();
    assert_eq!(written, expected);
    let read = config_in(&Json::parse(&bytes).unwrap());
    assert!(read.is_some());
    assert_eq!(fields(&loaded_config(read)), fields(&saved()));
    for legacy in [&[][..], &[true], &[true, true]] {
        assert_eq!(config_source(true, false, legacy), ConfigSource::Current);
        assert_eq!(config_source(true, true, legacy), ConfigSource::Current);
    }
}

#[test]
fn a_document_says_a_configuration_or_none() {
    let read = |text: &str| config_in(&Json::parse(text.as_bytes()).unwrap());
    let config = read(r#"{"url":"u","api_key":"","other":1}"#).unwrap();
    assert_eq!(fields(&config), ["u", "", "", "", "", ""]);
    let config = read(r#"{"url":"u","api_key":"k","device_id":"d"}"#).unwrap();
    assert_eq!(fields(&config), ["u", "k", "", "", "d", ""]);
    for text in [
        r#"{"api_key":"k"}"#,
        r#"{"url":"u"}"#,
        r#"{"url":null,"api_key":"k"}"#,
        r#"{"url":"u","api_key":"k","provider_id":null}"#,
        r#"{"url":"u","api_key":"k","pairing_token":7}"#,
        r#""u""#,
        "[]",
    ] {
        assert!(read(text).is_none());
    }
}

#[test]
fn configuring_keeps_the_key_and_the_pairing() {
    let config = save_runtime_config(saved(), "http://y".to_string(), None);
    assert_eq!((config.url.as_str(), config.api_key.as_str()), ("http://y", "key"));
    assert!(config.is_paired());
    let config = save_runtime_config(saved(), " ".to_string(), Some("new".to_string()));
    assert_eq!((config.url.as_str(), config.api_key.as_str()), (DEFAULT_RUNTIME_URL, "new"));
    assert_eq!(config.pairing_id, "pair");
}

#[test]
fn a_reset_forgets_the_pairing() {
    let config = reset_config(saved(), false);
    assert!(!config.is_paired());
    assert_eq!((config.url.as_str(), config.api_key.as_str()), ("http://x", "key"));
    assert_eq!((config.provider_id.as_str(), config.pairing_id.as_str()), ("", ""));
    let config = reset_config(saved(), true);
    assert_eq!((config.url.as_str(), config.api_key.as_str()), (DEFAULT_RUNTIME_URL, ""));
    assert!(!config.is_paired());
}

#[test]
fn the_control_plane_has_no_trailing_slash() {
    assert_eq!(control_plane_url(None), "https://api.doodleiq.com");
    assert_eq!(control_plane_url(Some("http://localhost:8000//")), "http://localhost:8000");
    assert_eq!(control_plane_url(Some("")), "");
}

#[test]
fn files_are_kept_in_the_first_directory() {
    let mut dirs = dirs();
    let config = |dirs: &ConfigDirs<&str>| config_path(dirs, "not present").map(|l| spelt(&l));
    assert_eq!(config(&dirs), Ok("chosen/config.json".to_string()));
    dirs.chosen = None;
    assert_eq!(config(&dirs), Ok("appdata/DoodleIQ/config.json".to_string()));
    dirs.app_data = None;
    assert_eq!(config(&dirs), Ok("xdg/doodleiq/config.json".to_string()));
    dirs.xdg_config_home = None;
    assert_eq!(config(&dirs), Ok("home/.config/doodleiq/config.json".to_string()));
    dirs.home = None;
    assert_eq!(
        config(&dirs),
        Err("Unable to locate the config directory: not present".to_string())
    );
    assert!(cloudflared_pid_path(&dirs).is_none());
    assert!(device_key_path(&dirs, "x").is_err());
    assert!(log_file_path(&dirs, "x").is_err());
}

#[test]
fn files_are_siblings() {
    let dirs = dirs();
    assert_eq!(spelt(&device_key_path(&dirs, "").unwrap()), "chosen/device.key");
    assert_eq!(spelt(&log_file_path(&dirs, "").unwrap()), "chosen/doodleiq.log");
    assert_eq!(spelt(&cloudflared_pid_path(&dirs).unwrap()), "chosen/cloudflared.pid");
    assert_eq!(spelt(&cloudflared_download_path(&dirs, false).unwrap()), "chosen/cloudflared");
    assert_eq!(spelt(&cloudflared_download_path(&dirs, true).unwrap()), "chosen/cloudflared.exe");
    assert_eq!(spelt(&cloudflared_partial_path(&dirs).unwrap()), "chosen/cloudflared.download");
    assert_eq!(cloudflared_binary(true), "cloudflared.exe");
    assert_eq!(cloudflared_binary(false), "cloudflared");
}

#[test]
fn a_connector_is_looked_for_in_order() {
    let found = |beside, dirs: &ConfigDirs<&'static str>, packages: &[&'static str], windows| {
        let candidates: Vec<String> = cloudflared_candidates(beside, dirs, packages, windows)
            .iter()
            .map(spelt)
            .collect();
        candidates
    };
    assert_eq!(
        found(Some("bin"), &dirs(), &["brew", "local"], false),
        vec!["bin/cloudflared", "chosen/cloudflared", "brew/cloudflared", "local/cloudflared"]
    );
    let nowhere = ConfigDirs { chosen: None, app_data: None, xdg_config_home: None, home: None };
    assert_eq!(found(Some("bin"), &nowhere, &[], true), vec!["bin/cloudflared.exe"]);
    assert!(found(None, &nowhere, &[], false).is_empty());
}

#[test]
fn earlier_versions_kept_their_files_elsewhere() {
    let files: Vec<String> = legacy_config_paths(Some("home")).iter().map(spelt).collect();
    assert_eq!(files, vec!["home/doodleiq/config.json", "home/blindfinder/config.json"]);
    assert!(legacy_config_paths(None::<&str>).is_empty());
}

#[test]
fn commands_print_labels() {
    assert_eq!(command_output(true, b" box \n").as_deref(), Some("box"));
    assert_eq!(command_output(true, b" \n"), None);
    assert_eq!(command_output(true, b"\xff"), None);
    assert_eq!(command_output(false, b"box"), None);
}

#[test]
fn a_machine_has_a_name() {
    let mut probes = probes();
    assert_eq!(machine_name(&probes), "tool");
    probes.computer_name = None;
    assert_eq!(machine_name(&probes), "variable");
    probes.computer_name_variable = Some(" ".to_string());
    assert_eq!(machine_name(&probes), "host");
    probes.hostname = None;
    assert_eq!(machine_name(&probes), "hostvar");
    probes.hostname_variable = Some(String::new());
    assert_eq!(machine_name(&probes), "DoodleIQ provider");
}

#[test]
fn a_machine_has_a_model() {
    let mut probes = probes();
    assert_eq!(machine_model(&probes), "Mac17,8");
    probes.model = None;
    assert_eq!(machine_model(&probes), "Box 9");
    probes.product_name = Some("System Product Name\n".to_string());
    assert_eq!(machine_model(&probes), "x86_64");
    probes.product_name = None;
    assert_eq!(machine_model(&probes), "x86_64");
}

#[test]
fn a_machine_has_a_location() {
    let mut probes = probes();
    assert_eq!(machine_location(&probes), "Europe/Vienna");
    probes.time_zone_variable = Some(" ".to_string());
    assert_eq!(machine_location(&probes), "America/Denver");
    probes.time_zone = None;
    assert_eq!(machine_location(&probes), "Location unavailable");
}

#[test]
fn labels_are_probed_once() {
    let mut cache = None;
    let mut probes = probes();
    assert_eq!(compute_machine_identity(&probes).name, "tool");
    assert_eq!(machine_identity(&mut cache, &probes).name, "tool");
    probes.computer_name = Some("renamed".to_string());
    assert_eq!(machine_identity(&mut cache, &probes).name, "tool");
    assert_eq!(compute_machine_identity(&probes).name, "renamed");
}
