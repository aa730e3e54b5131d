use stream_recorder::discord::webhook::Component;
use stream_recorder::json::JsonValue;
use stream_recorder::platform::{LiveCheck, PipelineStep, PlatformConfig, TitleRule};
use stream_recorder::stream::api::{
    apply_step, next_fetch_step, set_var, step_url, substitute_variables, FetchDecision, FetchOutcome,
};
use stream_recorder::stream::messages::{
    accessory_media_component, platform_to_identity, sanitize_avatar_url, stream_header_components,
};
use stream_recorder::stream::postprocess::storage::{
    next_space_cleanup, recording_thumbnail_path, recording_user_key, retention_age_candidates,
    retention_keep_latest_per_user, retention_plan, RecordingFile,
};
use stream_recorder::types::duration::DurationValue;
use stream_recorder::stream::types::StreamInfo;
use stream_recorder::stream::monitor::{next_session_step, start_session, SessionAction, SessionEvent};

fn test_platform() -> PlatformConfig {
    PlatformConfig {
        id: "test-platform".to_string(),
        name: "Test Platform".to_string(),
        base_url: "https://example.com/".to_string(),
        icon: None,
        token_name: None,
        headers: Vec::new(),
        steps: vec![PipelineStep {
            endpoint: "/stream".to_string(),
            live_check: Some(LiveCheck::Path("data.live".to_string())),
            extract: Vec::new(),
        }],
        source_url: None,
        version: "1.0.0".to_string(),
        stream_recorder_version: None,
        title_clean_regex: None,
    }
}

fn vars(pairs: &[(&str, &str)]) -> Vec<(String, String)> {
    pairs.iter().map(|(k, v)| (k.to_string(), v.to_string())).collect()
}

#[test]
fn refresh_from_pipeline_updates_changed_fields() {
    let initial = vars(&[
        ("playback_url", "https://example.com/live.m3u8"),
        ("stream_title", "Original Title"),
        ("avatar_url", "https://example.com/original.jpg"),
    ]);
    let mut stream_info =
        StreamInfo::from_pipeline("example_user", test_platform(), &initial).expect("stream info");
    let refreshed = vars(&[
        ("playback_url", "https://example.com/live-updated.m3u8"),
        ("stream_title", "Updated Title"),
        ("avatar_url", "https://example.com/updated.jpg"),
    ]);
    let updated_fields = stream_info.refresh_from_pipeline(&refreshed);
    assert_eq!(updated_fields, vec!["stream_title", "avatar_url"]);
    assert_eq!(stream_info.extracted.playback_url, "https://example.com/live.m3u8");
    assert_eq!(stream_info.extracted.stream_title.as_deref(), Some("Updated Title"));
    assert_eq!(
        stream_info.extracted.avatar_url.as_deref(),
        Some("https://example.com/updated.jpg")
    );
}

#[test]
fn refresh_from_pipeline_preserves_existing_optional_fields_when_missing() {
    let initial = vars(&[
        ("playback_url", "https://example.com/live.m3u8"),
        ("stream_title", "Original Title"),
        ("avatar_url", "https://example.com/original.jpg"),
    ]);
    let mut stream_info =
        StreamInfo::from_pipeline("example_user", test_platform(), &initial).expect("stream info");
    let refreshed = vars(&[("playback_url", "https://example.com/live.m3u8")]);
    let updated_fields = stream_info.refresh_from_pipeline(&refreshed);
    assert!(updated_fields.is_empty());
    assert_eq!(stream_info.extracted.stream_title.as_deref(), Some("Original Title"));
    assert_eq!(
        stream_info.extracted.avatar_url.as_deref(),
        Some("https://example.com/original.jpg")
    );
}

#[test]
fn from_pipeline_needs_a_playback_url_and_cleans_the_title() {
    assert!(StreamInfo::from_pipeline("u", test_platform(), &vars(&[("stream_title", "t")])).is_none());
    let mut platform = test_platform();
    platform.title_clean_regex = Some(vec![TitleRule::remove(r":\w+:")]);
    let info = StreamInfo::from_pipeline_checked(
        "u",
        platform,
        &vars(&[("playback_url", "p"), ("stream_title", "Hi :wave:")]),
    )
    .unwrap()
    .unwrap();
    assert_eq!(info.extracted.stream_title.as_deref(), Some("Hi "));
    assert!(info.extracted.avatar_url.is_none());
    let mut bad = test_platform();
    bad.title_clean_regex = Some(vec![TitleRule::remove("(")]);
    assert!(StreamInfo::from_pipeline_checked("u", bad, &vars(&[("playback_url", "p")])).is_err());
}

#[test]
fn stream_header_components_use_plain_text_when_avatar_missing() {
    let components = stream_header_components("alice", None, "Started");
    assert_eq!(components.len(), 2);
    assert!(matches!(components[0], Component::Text(_)));
    assert!(matches!(components[1], Component::Text(_)));
}

#[test]
fn stream_header_components_group_with_the_avatar() {
    let components =
        stream_header_components("alice", Some(" https://a.example/x.png ".to_string()), "Live");
    assert_eq!(components.len(), 1);
    match &components[0] {
        Component::Group(g) => {
            assert_eq!(g.components.len(), 2);
            match &g.components[1] {
                Component::Text(t) => assert_eq!(t.content, "**Live**"),
                _ => panic!("expected text"),
            }
            match g.accessory.as_deref() {
                Some(Component::Media(m)) => assert_eq!(m.media.url, "https://a.example/x.png"),
                _ => panic!("expected media"),
            }
        }
        _ => panic!("expected a group"),
    }
    assert!(accessory_media_component(Some("data:x".to_string())).is_none());
}

#[test]
fn sanitize_avatar_url_rejects_non_http_urls() {
    assert_eq!(sanitize_avatar_url(Some("ftp://example.com/avatar.png".into())), None);
    assert_eq!(
        sanitize_avatar_url(Some("https://example.com/avatar.png".into())),
        Some("https://example.com/avatar.png".into())
    );
}

#[test]
fn identity_uses_the_platform_name_and_icon() {
    let mut platform = test_platform();
    platform.icon = Some("http://icon.example/i.png".to_string());
    let info = StreamInfo::from_pipeline("u", platform, &vars(&[("playback_url", "p")])).unwrap();
    let identity = platform_to_identity(&info);
    assert_eq!(identity.username, "Test Platform");
    assert_eq!(identity.avatar_url.as_deref(), Some("http://icon.example/i.png"));
}

const SECOND: i128 = 1_000_000_000;

fn file(path: &str, modified_secs: i128, user: &str) -> RecordingFile {
    RecordingFile { path: path.to_string(), modified: modified_secs * SECOND, user_key: user.to_string() }
}

#[test]
fn retention_keep_latest_per_user_keeps_newest_files_for_each_user() {
    let now = 10_000;
    let files = vec![
        file("recordings/alice/older.mp4", now - 300, "alice"),
        file("recordings/alice/newer.mp4", now - 100, "alice"),
        file("recordings/bob/only.mp4", now - 200, "bob"),
    ];
    let keep = retention_keep_latest_per_user(&files, 1);
    assert!(keep.contains(&"recordings/alice/newer.mp4".to_string()));
    assert!(keep.contains(&"recordings/bob/only.mp4".to_string()));
    assert!(!keep.contains(&"recordings/alice/older.mp4".to_string()));
}

#[test]
fn retention_keeps_ties_in_listed_order_and_nothing_for_zero() {
    let files = vec![file("a1", 5, "a"), file("a2", 5, "a"), file("a3", 4, "a")];
    assert_eq!(retention_keep_latest_per_user(&files, 1), vec!["a1".to_string()]);
    assert_eq!(retention_keep_latest_per_user(&files, 2), vec!["a1".to_string(), "a2".to_string()]);
    assert!(retention_keep_latest_per_user(&files, 0).is_empty());
}

#[test]
fn retention_age_candidates_marks_files_below_cutoff() {
    let now = 10_000;
    let files = vec![
        file("recordings/old.mp4", now - 9 * 24 * 60 * 60, "old"),
        file("recordings/fresh.mp4", now - 2 * 24 * 60 * 60, "fresh"),
    ];
    let candidates = retention_age_candidates(&files, 7, now * SECOND);
    assert_eq!(candidates, vec!["recordings/old.mp4".to_string()]);
}

#[test]
fn substitution_and_urls() {
    let v = vars(&[("token", "tok-123"), ("username", "alice")]);
    assert_eq!(substitute_variables("Bearer {token}", &v), "Bearer tok-123");
    assert_eq!(substitute_variables("{username}/{username}", &v), "alice/alice");
    assert_eq!(substitute_variables("Value {missing}", &v), "Value {missing}");
    assert_eq!(step_url("https://api.example/", "users/{username}", &v), "https://api.example/users/alice");
    assert_eq!(step_url("https://api.example/", "https://cdn.example/{token}", &v), "https://cdn.example/tok-123");
}

#[test]
fn steps_check_liveness_and_extract_variables() {
    let data = JsonValue::Object(vec![(
        "data".to_string(),
        JsonValue::Object(vec![
            ("live".to_string(), JsonValue::Bool(true)),
            ("url".to_string(), JsonValue::String("http://v/1.m3u8".to_string())),
            ("id".to_string(), JsonValue::Number("42".to_string())),
        ]),
    )]);
    let step = PipelineStep {
        endpoint: "x".to_string(),
        live_check: Some(LiveCheck::Path("data.live".to_string())),
        extract: vec![
            ("playback_url".to_string(), "data.url".to_string()),
            ("user_id".to_string(), "data.id".to_string()),
            ("flag".to_string(), "data.live".to_string()),
        ],
    };
    let mut v = vars(&[("username", "alice"), ("user_id", "old")]);
    assert!(apply_step(&step, &mut v, &data));
    assert_eq!(v, vars(&[("username", "alice"), ("user_id", "42"), ("playback_url", "http://v/1.m3u8")]));
    let offline = PipelineStep { live_check: Some(LiveCheck::Path("data.gone".to_string())), ..step.clone() };
    let before = v.clone();
    assert!(!apply_step(&offline, &mut v, &data));
    assert_eq!(v, before);
    set_var(&mut v, "username", "bob".to_string());
    assert_eq!(v[0].1, "bob");
}

#[test]
fn retention_plan_joins_age_and_count_rules() {
    let day: i128 = 86_400_000_000_000;
    let now: i128 = 100 * day;
    let files = vec![
        file("r/alice/a1.mp4", 0, "alice"),
        file("r/alice/a2.mp4", 0, "alice"),
        file("r/bob/b1.mp4", 0, "bob"),
    ];
    let mut files = files;
    files[0].modified = now - 10 * day;
    files[1].modified = now - day;
    files[2].modified = now - 2 * day;
    let plan = retention_plan(&files, Some(DurationValue::from_secs(7 * 86_400)), None, now);
    assert_eq!(plan, vec!["r/alice/a1.mp4".to_string()]);
    let plan = retention_plan(&files, None, Some(1), now);
    assert_eq!(plan, vec!["r/alice/a1.mp4".to_string()]);
    let plan = retention_plan(&files, Some(DurationValue::from_secs(86_400 + 1)), Some(0), now);
    assert_eq!(plan.len(), 3);
    assert!(retention_plan(&files, None, None, now).is_empty());
}

#[test]
fn recording_paths_give_users_and_thumbnails() {
    assert_eq!(recording_user_key("recordings", "recordings/alice/x.mp4"), "alice");
    assert_eq!(recording_user_key("elsewhere", "recordings/bob/x.mp4"), "bob");
    assert_eq!(recording_user_key("elsewhere", "x.mp4"), "__root__");
    assert_eq!(recording_thumbnail_path("r/alice/x.mp4"), Some("r/alice/x_thumb.jpg".to_string()));
}

#[test]
fn pipeline_requests_are_retried_until_the_limit() {
    assert_eq!(next_fetch_step(0, 5, FetchOutcome::Succeeded), FetchDecision::Accept);
    assert_eq!(
        next_fetch_step(0, 5, FetchOutcome::RateLimited),
        FetchDecision::Retry { attempt: 1, honor_retry_after: true }
    );
    assert_eq!(
        next_fetch_step(4, 5, FetchOutcome::Unsuccessful),
        FetchDecision::Retry { attempt: 5, honor_retry_after: false }
    );
    assert_eq!(next_fetch_step(5, 5, FetchOutcome::SendFailed), FetchDecision::GiveUp);
    assert_eq!(next_fetch_step(5, 5, FetchOutcome::Succeeded), FetchDecision::Accept);
}

#[test]
fn space_cleanup_takes_the_oldest_untried_recording() {
    let files = vec![
        file("recordings/a/1.mp4", 100, "a"),
        file("recordings/b/2.mp4", 200, "b"),
        file("recordings/a/3.mp4", 300, "a"),
    ];
    let none: Vec<String> = Vec::new();
    assert_eq!(next_space_cleanup(&files, &none, 10, 5), None);
    assert_eq!(next_space_cleanup(&files, &none, 1, 5), Some(0));
    let tried = vec!["recordings/a/1.mp4".to_string(), "recordings/b/2.mp4".to_string()];
    assert_eq!(next_space_cleanup(&files, &tried, 1, 5), Some(2));
    let all: Vec<String> = files.iter().map(|f| f.path.clone()).collect();
    assert_eq!(next_space_cleanup(&files, &all, 1, 5), None);
}

fn live(url: &str) -> StreamInfo {
    StreamInfo::from_pipeline("u", test_platform(), &vars(&[("playback_url", url)])).unwrap()
}

#[test]
fn sessions_wait_for_continuations_and_end() {
    let (mut state, action) = start_session(live("first"));
    assert!(matches!(action, SessionAction::Record { ref stream, continuation: false } if stream.extracted.playback_url == "first"));
    let window = DurationValue::from_secs(300);
    let action = next_session_step(
        &mut state,
        SessionEvent::Recorded { path: "a.mp4".to_string(), info: live("first"), reconnect_delay: Some(window) },
    );
    assert!(matches!(action, SessionAction::WaitForContinuation { label: "Stream", .. }));
    let action = next_session_step(&mut state, SessionEvent::Continuation(Some(live("second"))));
    assert!(matches!(action, SessionAction::Record { continuation: true, .. }));
    assert!(state.continuation);
    let action = next_session_step(
        &mut state,
        SessionEvent::Recorded { path: "b.mp4".to_string(), info: live("second"), reconnect_delay: Some(window) },
    );
    assert!(matches!(action, SessionAction::WaitForContinuation { label: "Continuation stream", .. }));
    let action = next_session_step(&mut state, SessionEvent::Continuation(None));
    assert!(matches!(action, SessionAction::Finish { failure: None }));
    assert_eq!(state.files, vec!["a.mp4".to_string(), "b.mp4".to_string()]);
    assert_eq!(state.session.as_ref().unwrap().extracted.playback_url, "second");
}

#[test]
fn sessions_end_on_a_failed_recording_or_without_a_window() {
    let (mut state, _) = start_session(live("x"));
    let action = next_session_step(&mut state, SessionEvent::RecordFailed);
    assert!(matches!(action, SessionAction::Finish { failure: Some("stream") }));
    assert!(state.files.is_empty() && state.session.is_none());
    let action = next_session_step(
        &mut state,
        SessionEvent::Recorded { path: "c.mp4".to_string(), info: live("x"), reconnect_delay: None },
    );
    assert!(matches!(action, SessionAction::Finish { failure: None }));
    next_session_step(&mut state, SessionEvent::Continuation(Some(live("y"))));
    let action = next_session_step(&mut state, SessionEvent::RecordFailed);
    assert!(matches!(action, SessionAction::Finish { failure: Some("continuation") }));
}

#[test]
fn checked_refresh_reports_only_the_fields_that_changed() {
    let initial = vars(&[
        ("playback_url", "https://example.com/live.m3u8"),
        ("stream_title", "Same Title"),
        ("avatar_url", "https://example.com/original.jpg"),
    ]);
    let mut stream_info =
        StreamInfo::from_pipeline("example_user", test_platform(), &initial).expect("stream info");
    let refreshed = vars(&[
        ("stream_title", "Same Title"),
        ("avatar_url", "https://example.com/new.jpg"),
    ]);
    let updated_fields = stream_info.refresh_from_pipeline_checked(&refreshed).unwrap();
    assert_eq!(updated_fields, vec!["avatar_url"]);
    assert_eq!(stream_info.extracted.stream_title.as_deref(), Some("Same Title"));
    assert_eq!(stream_info.extracted.avatar_url.as_deref(), Some("https://example.com/new.jpg"));

    let mut bad_info = stream_info.clone();
    bad_info.platform.title_clean_regex = Some(vec![TitleRule::remove("(")]);
    let before = bad_info.clone();
    assert!(bad_info.refresh_from_pipeline_checked(&vars(&[("stream_title", "x")])).is_err());
    assert_eq!(bad_info.extracted.stream_title, before.extracted.stream_title);
    assert_eq!(bad_info.extracted.avatar_url, before.extracted.avatar_url);
}

#[test]
fn headers_with_invalid_names_are_left_out() {
    let mut platform = test_platform();
    platform.headers = vec![
        ("X-Token".to_string(), "{token}".to_string()),
        ("Bad Name".to_string(), "v".to_string()),
        ("".to_string(), "v".to_string()),
        ("Ünicode".to_string(), "v".to_string()),
        ("a".repeat(65535), "long".to_string()),
        ("a".repeat(65536), "too long".to_string()),
        ("Accept".to_string(), "line\nbreak".to_string()),
        ("!#$%&'*+-.^_`|~09az".to_string(), "ok".to_string()),
    ];
    let built = stream_recorder::stream::api::build_headers(&platform, &vars(&[("token", "abc")]));
    let names: Vec<usize> = built.iter().map(|(k, _)| k.len()).collect();
    assert_eq!(names, vec![7, 65535, 19]);
    assert_eq!(built[0], ("X-Token".to_string(), "abc".to_string()));
    assert_eq!(built[2].1, "ok");
}
