use stream_recorder::discord::threads::ThreadStore;
use stream_recorder::discord::webhook::{append_query_param, DiscordColor};
use stream_recorder::utils::{
    env_var_from_content, get_bunkr_token, get_token_by_name, get_token_by_name_checked,
    slugify, split_monitor_reference, SplitMonitorReferenceError,
};
use stream_recorder::uploaders::error::UploadError;
use stream_recorder::uploaders::gofile::response_handler;
use stream_recorder::uploaders::http::file_name_from_path;
use stream_recorder::uploaders::jpg6::url_decode;
use stream_recorder::uploaders::{UploaderKind, UploaderKindFilter};
use stream_recorder::cli::upload::{calculate_backoff, guess_uploader_kind, is_server_error};
use stream_recorder::json::JsonValue;
use stream_recorder::types::duration::DurationValue;

#[test]
fn split_monitor_reference_accepts_valid_value() {
    let (platform, username) = split_monitor_reference("platform:user").unwrap();
    assert_eq!(platform, "platform");
    assert_eq!(username, "user");
}

#[test]
fn split_monitor_reference_rejects_missing_separator() {
    let err = split_monitor_reference("user").unwrap_err();
    assert!(matches!(err, SplitMonitorReferenceError::InvalidFormat));
}

#[test]
fn split_monitor_reference_rejects_empty_platform() {
    let err = split_monitor_reference(":user").unwrap_err();
    assert!(matches!(err, SplitMonitorReferenceError::EmptyPlatform));
}

#[test]
fn split_monitor_reference_rejects_empty_username() {
    let err = split_monitor_reference("platform:").unwrap_err();
    assert!(matches!(err, SplitMonitorReferenceError::EmptyUsername));
}

#[test]
fn split_monitor_reference_keeps_additional_colons_in_username() {
    let (platform, username) = split_monitor_reference("myplatform:user:extra").unwrap();
    assert_eq!(platform, "myplatform");
    assert_eq!(username, "user:extra");
}

#[test]
fn slugify_makes_file_name_safe_text() {
    assert_eq!(slugify("Hello, World!"), "hello-world");
    assert_eq!(slugify("--Ünïcode__OK--"), "Ünïcode__ok");
    assert_eq!(slugify("!!!"), "");
}

#[test]
fn env_files_are_read_line_by_line() {
    let content = "# comment\n\nOTHER=1\n BUNKR_TOKEN = \"secret value\" \nBUNKR_TOKEN=second\n";
    assert_eq!(env_var_from_content(content, "BUNKR_TOKEN").as_deref(), Some("secret value"));
    assert_eq!(env_var_from_content(content, "OTHER").as_deref(), Some("1"));
    assert_eq!(env_var_from_content("K='a=b'", "K").as_deref(), Some("a=b"));
    assert_eq!(env_var_from_content("K=\"a'", "K").as_deref(), Some("\"a'"));
    assert!(env_var_from_content(content, "MISSING").is_none());
    assert_eq!(get_bunkr_token(Some("from keyring".to_string()), Some(content)).as_deref(), Some("from keyring"));
    assert_eq!(get_bunkr_token(None, Some(content)).as_deref(), Some("secret value"));
    assert_eq!(get_token_by_name("api_token", None, Some("API_TOKEN=t")).as_deref(), Some("t"));
    assert_eq!(get_token_by_name_checked("k", None, Some("K=\"")), None);
}

#[test]
fn append_query_param_appends_multiple_parameters() {
    let mut url = "https://discord.com/api/webhooks/1/2".to_string();
    append_query_param(&mut url, "wait", "true");
    append_query_param(&mut url, "with_components", "true");
    assert_eq!(url, "https://discord.com/api/webhooks/1/2?wait=true&with_components=true");
}

#[test]
fn discord_color_rgb_packs_channels() {
    assert_eq!(DiscordColor::rgb(1, 2, 3).0, 66051);
    assert_eq!(DiscordColor::rgb(255, 0, 0).0, 16711680);
}

#[test]
fn thread_store_remembers_thread_ids() {
    let mut store = ThreadStore::new("threads.json".to_string());
    assert_eq!(store.get("alice"), None);
    store.insert("alice".to_string(), 7);
    store.insert("bob".to_string(), 8);
    store.insert("alice".to_string(), 9);
    assert_eq!(store.get("alice"), Some(9));
    assert_eq!(store.get("bob"), Some(8));
    assert_eq!(store.mapping.len(), 2);
}

#[test]
fn uploader_kind_filter_matches_expected_kinds() {
    assert!(UploaderKindFilter::All.matches(UploaderKind::Video));
    assert!(UploaderKindFilter::All.matches(UploaderKind::Image));
    assert!(UploaderKindFilter::Video.matches(UploaderKind::Video));
    assert!(!UploaderKindFilter::Video.matches(UploaderKind::Image));
    assert!(UploaderKindFilter::Image.matches(UploaderKind::Image));
    assert!(!UploaderKindFilter::Image.matches(UploaderKind::Video));
}

#[test]
fn uploads_are_routed_by_extension() {
    assert_eq!(guess_uploader_kind("/tmp/a.JPG"), UploaderKindFilter::Image);
    assert_eq!(guess_uploader_kind("clip.mkv"), UploaderKindFilter::Video);
    assert_eq!(guess_uploader_kind("notes.txt"), UploaderKindFilter::All);
    assert_eq!(guess_uploader_kind(".mp4"), UploaderKindFilter::All);
    assert_eq!(file_name_from_path("/a/b/c.mp4"), "c.mp4");
    assert_eq!(file_name_from_path("/"), "");
}

#[test]
fn retries_back_off_up_to_an_hour() {
    assert!(is_server_error(Some(503)));
    assert!(!is_server_error(Some(429)));
    assert!(!is_server_error(None));
    assert_eq!(calculate_backoff(1), DurationValue::from_secs(300));
    assert_eq!(calculate_backoff(2), DurationValue::from_secs(600));
    assert_eq!(calculate_backoff(3), DurationValue::from_secs(1200));
    assert_eq!(calculate_backoff(4), DurationValue::from_secs(2400));
    assert_eq!(calculate_backoff(5), DurationValue::from_secs(3600));
    assert_eq!(calculate_backoff(55), DurationValue::from_secs(3600));
    assert_eq!(calculate_backoff(u32::MAX), DurationValue::from_secs(3600));
}

#[test]
fn upload_errors_and_gofile_answers() {
    let e = UploadError { message: "boom".to_string(), status_code: Some(502) };
    assert_eq!(e.describe(), "HTTP 502: boom");
    let ok = JsonValue::Object(vec![
        ("status".to_string(), JsonValue::String("ok".to_string())),
        ("data".to_string(), JsonValue::Number("1".to_string())),
    ]);
    assert!(matches!(response_handler(&ok), Ok(JsonValue::Number(n)) if n == "1"));
    let err = JsonValue::Object(vec![("status".to_string(), JsonValue::String("error-notFound".to_string()))]);
    assert_eq!(response_handler(&err).unwrap_err().message, "notFound");
    let odd = JsonValue::Object(vec![("status".to_string(), JsonValue::String("busy".to_string()))]);
    assert_eq!(response_handler(&odd).unwrap_err().message, "unexpected status: busy");
    assert_eq!(response_handler(&JsonValue::Null).unwrap_err().message, "invalid response");
}

#[test]
fn cookie_values_are_percent_decoded() {
    assert_eq!(url_decode("a%3Db%2c"), "a=b,");
    assert_eq!(url_decode("50%"), "50%");
    assert_eq!(url_decode("%zz!"), "%!");
}

#[test]
fn slugs_have_no_stray_dashes() {
    for text in ["--Hello,  World!--", "a - b", "***", "Already-slugged_text"] {
        let s = slugify(text);
        assert!(!s.starts_with('-') && !s.ends_with('-') && !s.contains("--"), "{s}");
    }
    assert_eq!(slugify("--Hello,  World!--"), "hello-world");
}

#[test]
fn bunkr_token_lookup_is_the_general_lookup() {
    let env = "OTHER=1\nBUNKR_TOKEN=\"abc\"\n";
    assert_eq!(get_bunkr_token(None, Some(env)), get_token_by_name("bunkr_token", None, Some(env)));
    assert_eq!(get_bunkr_token(None, Some(env)), Some("abc".to_string()));
    assert_eq!(get_bunkr_token(Some("k".to_string()), Some(env)), Some("k".to_string()));
}

#[test]
fn discord_color_rgb_and_serialize() {
    let c = DiscordColor::rgb(1, 2, 3);
    assert_eq!(c.0.to_string(), "66051");
    let red = DiscordColor::rgb(255, 0, 0);
    assert_eq!(red.0.to_string(), "16711680");
}

#[test]
fn slugs_keep_only_lowercase_word_characters_and_are_stable() {
    for text in ["Héllo, WORLD_x--y!", "ÀÉÎ 123 ½", "tab\tand\nnewline", "", "---"] {
        let s = slugify(text);
        assert!(
            s.chars().all(|c| c.is_alphanumeric() || c == '_' || c == '-'),
            "{s}"
        );
        assert!(!s.chars().any(|c| c.is_ascii_uppercase()), "{s}");
        assert_eq!(slugify(&s), s);
    }
    assert_eq!(slugify("Héllo, WORLD_x--y!"), "héllo-world_x-y");
    assert_eq!(slugify("ÀÉÎ 123 ½"), "ÀÉÎ-123-½");
    assert_eq!(slugify("---"), "");
}
