use stream_recorder::cli::config::{format_array_value, parse_array_value, ArrayUpdate};
use stream_recorder::config::Config;

#[test]
fn parse_array_value_reads_none_as_empty() {
    assert!(parse_array_value("none").is_empty());
}

#[test]
fn parse_array_value_splits_and_trims() {
    assert_eq!(
        parse_array_value("alice, bob ,  carol"),
        vec!["alice".to_string(), "bob".to_string(), "carol".to_string()]
    );
}

#[test]
fn format_array_value_joins_or_says_none() {
    assert_eq!(format_array_value(&Vec::new()), "none");
    assert_eq!(
        format_array_value(&vec!["a".to_string(), "b".to_string()]),
        "a, b"
    );
}

#[test]
fn add_array_value_appends_once() {
    let mut config = Config::default();
    assert_eq!(config.add_array_value("monitors", "alice"), Ok(ArrayUpdate::Added));
    assert_eq!(config.add_array_value("monitors", "bob"), Ok(ArrayUpdate::Added));
    assert_eq!(config.add_array_value("monitors", "alice"), Ok(ArrayUpdate::AlreadyPresent));
    assert_eq!(config.get_value("monitors"), "alice, bob");
}

#[test]
fn add_array_value_refuses_other_settings() {
    let mut config = Config::default();
    assert_eq!(
        config.add_array_value("fetch_interval", "x"),
        Err("Key 'fetch_interval' is not an array setting".to_string())
    );
    assert_eq!(
        config.add_array_value("nope", "x"),
        Err("Unknown key: nope".to_string())
    );
}

#[test]
fn remove_array_value_takes_first_match_out() {
    let mut config = Config::default();
    assert_eq!(config.remove_array_value("monitors", "alice"), Ok(ArrayUpdate::Empty));
    config.set_value("monitors", "alice, bob, carol").unwrap();
    assert_eq!(config.remove_array_value("monitors", "dave"), Ok(ArrayUpdate::NotFound));
    assert_eq!(config.remove_array_value("monitors", "bob"), Ok(ArrayUpdate::Removed));
    assert_eq!(config.get_value("monitors"), "alice, carol");
    assert_eq!(config.remove_array_value("monitors", "alice"), Ok(ArrayUpdate::Removed));
    assert_eq!(config.remove_array_value("monitors", "carol"), Ok(ArrayUpdate::Removed));
    assert_eq!(config.get_value("monitors"), "none");
}

use stream_recorder::cli::platform::{
    platform_summary_line, resolve_platform_token, search_query, update_target, UpdateTarget,
};
use stream_recorder::cli::thumbnail::{handle_thumbnail_action, ThumbnailAction};
use stream_recorder::cli::token::{
    check_jpg6_cookies, get_token_info_for_platform, handle_token_command, TokenAction, TokenTask,
};
use stream_recorder::cli::upload::{
    next_upload_step, no_uploader_error, record_urls, uploader_requested, UploadDecision,
    UploadOutcome,
};
use stream_recorder::platform::{PipelineStep, PlatformConfig};

fn platform(id: &str, token_name: Option<&str>) -> PlatformConfig {
    PlatformConfig {
        id: id.to_string(),
        name: format!("{} name", id),
        base_url: "https://example.com/".to_string(),
        icon: None,
        token_name: token_name.map(|t| t.to_string()),
        headers: Vec::new(),
        steps: vec![PipelineStep { endpoint: "a".to_string(), live_check: None, extract: Vec::new() }],
        source_url: None,
        version: "1.2.0".to_string(),
        stream_recorder_version: None,
        title_clean_regex: None,
    }
}

#[test]
fn token_commands_pick_keyring_entries() {
    let platforms = vec![platform("kick", Some("kick_token")), platform("free", None)];
    match handle_token_command(TokenAction::SaveBunkr { token: "t".to_string() }, &platforms) {
        Ok(TokenTask::Save { key, token, label }) => {
            assert_eq!((key.as_str(), token.as_str(), label.as_str()), ("bunkr_token", "t", "Bunkr token"));
        }
        other => panic!("unexpected {:?}", other),
    }
    match handle_token_command(TokenAction::RemovePlatform { platform_id: "kick".to_string() }, &platforms) {
        Ok(TokenTask::Remove { key, label }) => {
            assert_eq!((key.as_str(), label.as_str()), ("kick_token", "kick name token"));
        }
        other => panic!("unexpected {:?}", other),
    }
    assert_eq!(
        get_token_info_for_platform(&platforms, "free").unwrap_err(),
        "Platform 'free' does not use a token."
    );
    assert_eq!(
        handle_token_command(TokenAction::SavePlatform { platform_id: "nope".to_string(), token: "x".to_string() }, &platforms)
            .unwrap_err(),
        "Unknown platform 'nope'. Check your platforms directory."
    );
}

#[test]
fn jpg6_cookies_need_both_session_cookies() {
    let both = vec![
        ("goonbox_session".to_string(), "a".to_string()),
        ("XSRF-TOKEN".to_string(), "b".to_string()),
    ];
    assert!(check_jpg6_cookies(&both).is_ok());
    let one = vec![("goonbox_session".to_string(), "a".to_string())];
    assert!(check_jpg6_cookies(&one).unwrap_err().contains("must contain both"));
}

#[test]
fn platform_listing_line_and_search() {
    let mut p = platform("kick", Some("kick_token"));
    assert_eq!(
        platform_summary_line(&p, false),
        "  kick (kick name) v1.2.0 — 1 steps, no token, no source URL"
    );
    p.source_url = Some("https://x".to_string());
    assert_eq!(
        platform_summary_line(&p, true),
        "  kick (kick name) v1.2.0 — 1 steps, token configured, updatable"
    );
    assert_eq!(search_query(None), "topic:stream-recorder-rs-platform");
    assert_eq!(
        search_query(Some("kick")),
        "kick topic:stream-recorder-rs-platform in:name,description"
    );
    assert!(matches!(update_target(None, true), Ok(UpdateTarget::All)));
    assert!(update_target(None, false).is_err());
}

#[test]
fn debug_token_prefers_override_then_stored() {
    let p = platform("kick", Some("kick_token"));
    assert_eq!(resolve_platform_token(&p, Some("o".to_string()), None, None), Some(Ok("o".to_string())));
    assert_eq!(
        resolve_platform_token(&p, None, None, Some("KICK_TOKEN=abc\n")),
        Some(Ok("abc".to_string()))
    );
    let missing = resolve_platform_token(&p, None, None, None).unwrap().unwrap_err();
    assert!(missing.contains("Provide --token"));
}

#[test]
fn thumbnail_defaults_come_from_the_config() {
    let config = Config::default();
    let plan = handle_thumbnail_action(
        ThumbnailAction::Generate { input: "rec/a.mp4".to_string(), output: None, size: None, grid: Some("2x2".to_string()) },
        &config,
    );
    assert_eq!(plan.output, "rec/a.jpg");
    assert_eq!(plan.size, "320x180");
    assert_eq!(plan.grid, "2x2");
}

#[test]
fn upload_retries_server_errors_with_growing_waits() {
    match next_upload_step(0, 3, UploadOutcome::Failed(Some(503))) {
        UploadDecision::Retry { attempt, wait } => {
            assert_eq!(attempt, 1);
            assert_eq!(wait.as_secs(), 300);
        }
        other => panic!("unexpected {:?}", other),
    }
    match next_upload_step(2, 3, UploadOutcome::Failed(Some(500))) {
        UploadDecision::Retry { attempt, wait } => {
            assert_eq!(attempt, 3);
            assert_eq!(wait.as_secs(), 1200);
        }
        other => panic!("unexpected {:?}", other),
    }
    assert!(matches!(next_upload_step(3, 3, UploadOutcome::Failed(Some(500))), UploadDecision::GiveUp { exhausted: true }));
    assert!(matches!(next_upload_step(0, 3, UploadOutcome::Failed(Some(404))), UploadDecision::GiveUp { exhausted: false }));
    assert!(matches!(next_upload_step(0, 3, UploadOutcome::Uploaded(Vec::new())), UploadDecision::NoUrls));
    match next_upload_step(1, 3, UploadOutcome::Uploaded(vec!["u".to_string()])) {
        UploadDecision::Record(urls) => assert_eq!(urls, vec!["u".to_string()]),
        other => panic!("unexpected {:?}", other),
    }
}

#[test]
fn upload_results_gather_per_uploader() {
    let mut results: Vec<(String, Vec<String>)> = Vec::new();
    record_urls(&mut results, "gofile", vec!["a".to_string()]);
    record_urls(&mut results, "jpg6", vec!["b".to_string()]);
    record_urls(&mut results, "gofile", vec!["c".to_string()]);
    assert_eq!(
        results,
        vec![
            ("gofile".to_string(), vec!["a".to_string(), "c".to_string()]),
            ("jpg6".to_string(), vec!["b".to_string()]),
        ]
    );
}

#[test]
fn upload_command_picks_uploaders_by_name() {
    let asked = vec!["GoFile".to_string()];
    assert!(uploader_requested("gofile", &asked));
    assert!(!uploader_requested("jpg6", &asked));
    assert!(uploader_requested("jpg6", &Vec::new()));
    assert_eq!(no_uploader_error(&Vec::new()), "No uploaders are configured");
    assert_eq!(
        no_uploader_error(&vec!["a".to_string(), "b".to_string()]),
        "No configured uploader matches: a, b"
    );
}
