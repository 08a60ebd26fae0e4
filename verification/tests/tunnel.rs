use doodleiq::tunnel::{
    cloudflared_asset, cloudflared_path, connector_version, ensure_cloudflared, launch_cloudflared,
    launched, pid_is_cloudflared, pid_record, recorded_pid, spawn_arguments, stale_connector,
    Connector,
};

#[test]
fn releases_are_known_by_system_and_processor() {
    for (os, arch, asset) in [
        ("linux", "x86_64", Some("cloudflared-linux-amd64")),
        ("linux", "aarch64", Some("cloudflared-linux-arm64")),
        ("linux", "arm", Some("cloudflared-linux-arm")),
        ("linux", "x86", Some("cloudflared-linux-386")),
        ("windows", "x86_64", Some("cloudflared-windows-amd64.exe")),
        ("windows", "x86", Some("cloudflared-windows-386.exe")),
        ("windows", "aarch64", None),
        ("macos", "aarch64", None),
        ("linux", "riscv64", None),
    ] {
        assert_eq!(cloudflared_asset(os, arch), asset);
    }
}

#[test]
fn a_missing_connector_is_downloaded_where_it_can_be() {
    assert_eq!(ensure_cloudflared(true, "macos", "aarch64", false), Ok(None));
    assert_eq!(
        ensure_cloudflared(false, "linux", "x86_64", true),
        Ok(Some(
            "https://github.com/cloudflare/cloudflared/releases/latest/download/cloudflared-linux-amd64"
                .to_string()
        ))
    );
    assert_eq!(
        ensure_cloudflared(false, "macos", "aarch64", true),
        Err("cloudflared was not found; install it (macOS: `brew install cloudflared`)".to_string())
    );
    assert_eq!(
        ensure_cloudflared(false, "linux", "x86_64", false),
        Err("unable to determine a cloudflared install path".to_string())
    );
}

#[test]
fn the_first_connector_that_exists_is_used() {
    assert_eq!(cloudflared_path(&[false, true, true], true), Connector::Candidate(1));
    assert_eq!(cloudflared_path(&[false], true), Connector::OnPath);
    assert_eq!(cloudflared_path(&[], false), Connector::Missing);
}

#[test]
fn the_connector_is_run_with_its_token() {
    assert_eq!(
        launch_cloudflared(" eyJ \n", true),
        Ok(vec![
            "tunnel".to_string(),
            "--no-autoupdate".to_string(),
            "run".to_string(),
            "--token".to_string(),
            "eyJ".to_string(),
        ])
    );
    assert_eq!(
        launch_cloudflared(" ", false),
        Err("A Cloudflare tunnel token is required".to_string())
    );
    assert_eq!(
        launch_cloudflared("eyJ", false),
        Err("cloudflared was not found; install it (macOS: `brew install cloudflared`)".to_string())
    );
    assert_eq!(launched(true), Ok(()));
    assert_eq!(
        launched(false),
        Err("cloudflared exited before establishing the managed tunnel".to_string())
    );
}

#[test]
fn a_recorded_process_is_recognised() {
    assert_eq!(recorded_pid(" 4711\n"), Some(4711));
    assert_eq!(recorded_pid("x"), None);
    assert_eq!(recorded_pid("99999999999"), None);
    assert!(pid_is_cloudflared(b"/usr/bin/CloudFlared\n", false));
    assert!(pid_is_cloudflared(b"\xffcloudflared", false));
    assert!(!pid_is_cloudflared(b"cloudflare", false));
    assert!(!pid_is_cloudflared(b"", false));
    assert!(pid_is_cloudflared(b"\"Cloudflared.EXE\",\"4711\"", true));
    assert!(!pid_is_cloudflared(b"cloudflared", true));
}

#[test]
fn a_record_names_its_process() {
    assert_eq!(pid_record(4711), "4711");
    for pid in [0, 7, 10, 4711, 100_000, u32::MAX] {
        assert_eq!(recorded_pid(&pid_record(pid)), Some(pid));
    }
}

#[test]
fn only_a_recorded_connector_is_stale() {
    assert_eq!(stale_connector("4711\n", Some(b"cloudflared\n"), false), Some(4711));
    assert_eq!(stale_connector("4711", Some(b"\"Cloudflared.exe\",\"4711\""), true), Some(4711));
    assert_eq!(stale_connector("4711", Some(b"cloudflared"), true), None);
    assert_eq!(stale_connector("4711", Some(b"bash\n"), false), None);
    assert_eq!(stale_connector("4711", Some(b""), false), None);
    assert_eq!(stale_connector("4711", None, false), None);
    assert_eq!(stale_connector("x", Some(b"cloudflared"), false), None);
    assert_eq!(stale_connector("", Some(b"cloudflared"), false), None);
}

#[test]
fn a_running_connector_is_kept() {
    let arguments = launch_cloudflared("eyJ", true).unwrap();
    assert_eq!(spawn_arguments(arguments.clone(), true), None);
    assert_eq!(spawn_arguments(arguments.clone(), false), Some(arguments));
}

#[test]
fn the_version_is_what_the_connector_prints() {
    assert_eq!(
        connector_version(true, b" cloudflared version 1\n").as_deref(),
        Some("cloudflared version 1")
    );
    assert_eq!(connector_version(true, b"v\xff1").as_deref(), Some("v\u{fffd}1"));
    assert_eq!(connector_version(true, b"").as_deref(), Some(""));
    assert_eq!(connector_version(false, b"v1"), None);
}
