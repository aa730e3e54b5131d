use stream_recorder::monitoring::{monitors_to_start, monitors_to_stop, resolve_token, resolve_token_checked};
use stream_recorder::platform::{PipelineStep, PlatformConfig};
use stream_recorder::startup::{
    check_monitor, config_failure_message, encoder_note, get_all_uploader_types_and_names,
    get_uploader_status, pad_name, platform_token_note, startup_line_width, startup_name_width,
    MonitorCheck, StartupItem, StartupMark, StartupSection, UploaderStatus, UploaderType,
};
use stream_recorder::stream::api::build_headers;
use stream_recorder::stream::encoding::VideoEncoding;

fn strings(v: &[&str]) -> Vec<String> {
    v.iter().map(|s| s.to_string()).collect()
}

fn platform(id: &str, token_name: Option<&str>, headers: Vec<(&str, &str)>) -> PlatformConfig {
    PlatformConfig {
        id: id.to_string(),
        name: id.to_uppercase(),
        base_url: "https://example.com/".to_string(),
        icon: None,
        token_name: token_name.map(|t| t.to_string()),
        headers: headers.into_iter().map(|(k, v)| (k.to_string(), v.to_string())).collect(),
        steps: vec![PipelineStep { endpoint: "a".to_string(), live_check: None, extract: Vec::new() }],
        source_url: None,
        version: "1.0.0".to_string(),
        stream_recorder_version: None,
        title_clean_regex: None,
    }
}

#[test]
fn reconcile_stops_unwanted_and_starts_new_monitors() {
    let active = strings(&["p:a", "p:b"]);
    let desired = strings(&["p:b", "p:c", "p:c", "p:d"]);
    assert_eq!(monitors_to_stop(&active, &desired), strings(&["p:a"]));
    assert_eq!(monitors_to_start(&active, &desired), strings(&["p:c", "p:d"]));
    assert!(monitors_to_stop(&desired, &desired).is_empty());
    assert!(monitors_to_start(&desired, &desired).is_empty());
}

#[test]
fn monitor_tokens_come_from_the_cli_then_the_store() {
    let p = platform("kick", Some("kick_token"), Vec::new());
    assert_eq!(resolve_token(Some("cli".to_string()), &p, None, None), Ok("cli".to_string()));
    assert_eq!(resolve_token(None, &p, Some("kr".to_string()), None), Ok("kr".to_string()));
    assert_eq!(resolve_token(None, &p, None, Some("# c\nKICK_TOKEN = \"q\"\n")), Ok("q".to_string()));
    assert_eq!(
        resolve_token(None, &p, None, None),
        Err("No token found for platform 'kick' (key: 'kick_token'). Save it with 'token save-platform kick <token>'.".to_string())
    );
    let free = platform("free", None, Vec::new());
    assert_eq!(resolve_token(None, &free, None, None), Ok(String::new()));
    assert_eq!(resolve_token_checked(None, &p, None, Some("KICK_TOKEN=\"\n")), None);
}

#[test]
fn test_build_headers_substitution() {
    let p = platform("p1", None, vec![("Authorization", "Bearer {token}"), ("X-User", "{username}")]);
    let vars = vec![
        ("token".to_string(), "tok-123".to_string()),
        ("username".to_string(), "alice".to_string()),
    ];
    let headers = build_headers(&p, &vars);
    let get = |k: &str| headers.iter().find(|(n, _)| n == k).map(|(_, v)| v.clone());
    assert_eq!(get("Authorization").unwrap(), "Bearer tok-123");
    assert_eq!(get("X-User").unwrap(), "alice");
}

#[test]
fn test_build_headers_unknown_placeholder_left_intact() {
    let p = platform("p2", None, vec![("X-Custom", "Value {missing}")]);
    let headers = build_headers(&p, &Vec::new());
    assert_eq!(headers, vec![("X-Custom".to_string(), "Value {missing}".to_string())]);
}

#[test]
fn invalid_headers_are_left_out() {
    let p = platform("p3", None, vec![("Bad Name", "x"), ("X-Ok", "line\nbreak"), ("X-Tab", "a\tb")]);
    let headers = build_headers(&p, &Vec::new());
    assert_eq!(headers, vec![("X-Tab".to_string(), "a\tb".to_string())]);
}

#[test]
fn startup_report_statuses() {
    let disabled = strings(&["gofile"]);
    assert!(matches!(get_uploader_status(UploaderType::GoFile, "GoFile", &disabled, true), UploaderStatus::UserDisabled));
    match get_uploader_status(UploaderType::Filester, "filester", &disabled, false) {
        UploaderStatus::Enabled(n) => assert_eq!(n, "no token, public limits"),
        other => panic!("unexpected {:?}", other),
    }
    match get_uploader_status(UploaderType::Jpg6, "jpg6", &disabled, false) {
        UploaderStatus::ConfigError(n) => assert_eq!(n, "token required"),
        other => panic!("unexpected {:?}", other),
    }
    let names: Vec<String> = get_all_uploader_types_and_names().into_iter().map(|(_, n)| n).collect();
    assert_eq!(names, strings(&["bunkr", "gofile", "fileditch", "filester", "jpg6"]));
    let platforms = vec![platform("kick", Some("t"), Vec::new())];
    assert_eq!(platform_token_note(&platforms[0], false), "no token, may not work");
    assert_eq!(check_monitor("kick:alice", &platforms), MonitorCheck::Ready);
    assert_eq!(check_monitor("twitch:alice", &platforms), MonitorCheck::UnknownPlatform);
    assert_eq!(check_monitor("alice", &platforms), MonitorCheck::Malformed);
    assert_eq!(
        encoder_note(&VideoEncoding::Quality(23), true),
        "hardware acceleration, quality 23"
    );
    assert_eq!(
        config_failure_message("bad"),
        "Configuration validation failed: bad. Please fix the configuration and try again."
    );
}

#[test]
fn startup_report_layout_pads_names_to_the_widest() {
    let item = |mark, name: &str, note: &str| StartupItem { mark, name: name.to_string(), note: note.to_string() };
    let sections = vec![
        StartupSection {
            title: "Info".to_string(),
            items: vec![item(StartupMark::Passed, "version", "up to date")],
        },
        StartupSection {
            title: "Platforms".to_string(),
            items: vec![
                item(StartupMark::Plain, "No platforms configured at all here", ""),
                item(StartupMark::Dot, "twitchy", "token configured"),
            ],
        },
    ];
    let w = startup_name_width(&sections);
    assert_eq!(w, 7);
    assert_eq!(startup_line_width(&sections, w), 2 + 35);
    assert_eq!(pad_name("ab", 5), "ab   ");
    assert_eq!(pad_name("abcdef", 3), "abcdef");
}
