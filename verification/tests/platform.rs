use stream_recorder::json::{extract_json_value, json_value_to_string, parse_path_segments, JsonValue, PathSegment};
use stream_recorder::platform::{resolve_github_url, LiveCheck, LiveCondition, PipelineStep, PlatformConfig, TitleRule};

fn make_minimal_platform(id: &str) -> PlatformConfig {
    PlatformConfig {
        id: id.to_string(),
        name: "Test Platform".to_string(),
        base_url: "https://example.com/api/".to_string(),
        icon: None,
        token_name: None,
        headers: Vec::new(),
        steps: vec![PipelineStep {
            endpoint: "stream/{username}".to_string(),
            live_check: Some(LiveCheck::Path("live".to_string())),
            extract: Vec::new(),
        }],
        source_url: None,
        version: "1.0.0".to_string(),
        stream_recorder_version: None,
        title_clean_regex: None,
    }
}

fn s(v: &str) -> JsonValue {
    JsonValue::String(v.to_string())
}

fn obj(members: Vec<(&str, JsonValue)>) -> JsonValue {
    JsonValue::Object(members.into_iter().map(|(k, v)| (k.to_string(), v)).collect())
}

#[test]
fn test_source_url_is_none_by_default() {
    let p = make_minimal_platform("testplat");
    assert!(p.source_url.is_none());
}

#[test]
fn test_update_by_id_errors_when_no_source_url() {
    let p = make_minimal_platform("nourls");
    assert!(p.source_url.is_none());
    let result = p.update_source(&p.id);
    assert!(result.is_err());
    let msg = result.unwrap_err();
    assert!(
        msg.contains("has no source URL saved"),
        "error message must mention 'has no source URL saved', got: {}",
        msg
    );
}

#[test]
fn update_source_gives_the_saved_url() {
    let mut p = make_minimal_platform("withurl");
    p.source_url = Some("https://raw.example.com/p.json".to_string());
    assert_eq!(p.update_source("withurl").unwrap(), "https://raw.example.com/p.json");
}

#[test]
fn test_validate_rejects_empty_version() {
    let mut p = make_minimal_platform("badver");
    p.version = String::new();
    let err = p.validate("test").unwrap_err();
    assert!(err.contains("`version` must not be empty"), "got: {}", err);
}

#[test]
fn validate_checks_base_url_and_steps() {
    let mut p = make_minimal_platform("badbase");
    p.base_url = "https://example.com/api".to_string();
    assert_eq!(
        p.validate("src").unwrap_err(),
        "Platform config src: `base_url` must end with '/' (got 'https://example.com/api')"
    );
    let mut q = make_minimal_platform("nosteps");
    q.steps.clear();
    assert_eq!(
        q.validate("src").unwrap_err(),
        "Platform config src: `steps` must contain at least one step"
    );
    assert!(make_minimal_platform("ok").validate("src").is_ok());
}

#[test]
fn test_validate_rejects_bad_sr_version_req() {
    let mut p = make_minimal_platform("badreq");
    p.stream_recorder_version = Some("not a semver req!!!".to_string());
    let err = p.validate("test").unwrap_err();
    assert!(err.contains("`stream_recorder_version`"), "got: {}", err);
    assert!(err.contains("not a valid semver requirement"), "got: {}", err);
}

#[test]
fn test_validate_accepts_compatible_sr_version_req() {
    let mut p = make_minimal_platform("goodreq");
    p.stream_recorder_version = Some("^0.1".to_string());
    assert!(p.validate("test").is_ok());
}

#[test]
fn test_validate_rejects_incompatible_sr_version_req() {
    let mut p = make_minimal_platform("badcompat");
    p.stream_recorder_version = Some(">=99.0.0".to_string());
    let err = p.validate("test").unwrap_err();
    assert!(err.contains("requires stream_recorder"), "got: {}", err);
    assert!(err.contains(">=99.0.0"), "got: {}", err);
}

#[test]
fn test_clean_title_no_regex_returns_unchanged() {
    let p = make_minimal_platform("tcr_noop");
    assert_eq!(p.clean_title("Hello :world: stream"), "Hello :world: stream");
}

#[test]
fn test_clean_title_removes_emoji_shortcodes() {
    let mut p = make_minimal_platform("tcr_emoji");
    p.title_clean_regex = Some(vec![TitleRule::remove(r":\w+:")]);
    assert_eq!(p.clean_title("Hello :smile: World :tada:"), "Hello  World ");
}

#[test]
fn test_clean_title_applies_multiple_patterns_in_order() {
    let mut p = make_minimal_platform("tcr_multi");
    p.title_clean_regex = Some(vec![TitleRule::remove(r":\w+:"), TitleRule::remove(r"\[.*?\]")]);
    assert_eq!(p.clean_title(":smile: Hello [VOD] World :tada:"), " Hello  World ");
}

#[test]
fn try_clean_title_refuses_patterns_that_do_not_compile() {
    let mut p = make_minimal_platform("tcr_try");
    p.title_clean_regex = Some(vec![TitleRule::remove("[")]);
    assert_eq!(p.try_clean_title("x"), None);
    p.title_clean_regex = Some(vec![TitleRule::remove("x+")]);
    assert_eq!(p.try_clean_title("axxb"), Some("ab".to_string()));
}

#[test]
fn test_validate_rejects_invalid_title_clean_regex() {
    let mut p = make_minimal_platform("tcr_bad");
    p.title_clean_regex = Some(vec![TitleRule::remove("[invalid(")]);
    let err = p.validate("test").unwrap_err();
    assert!(err.contains("`title_clean_regex`"), "got: {}", err);
    assert!(err.contains("not a valid regex"), "got: {}", err);
}

#[test]
fn test_validate_accepts_valid_title_clean_regex() {
    let mut p = make_minimal_platform("tcr_ok");
    p.title_clean_regex = Some(vec![TitleRule::remove(r":\w+:"), TitleRule::remove(r"\[.*?\]")]);
    assert!(p.validate("test").is_ok());
}

#[test]
fn find_by_id_returns_the_first_match() {
    let platforms = vec![make_minimal_platform("a"), make_minimal_platform("b")];
    assert_eq!(PlatformConfig::find_by_id(&platforms, "b").unwrap().id, "b");
    assert!(PlatformConfig::find_by_id(&platforms, "c").is_none());
}

#[test]
fn test_resolve_github_repo_root() {
    let result = resolve_github_url("https://github.com/owner/repo");
    assert_eq!(result, "https://raw.githubusercontent.com/owner/repo/HEAD/platform.json");
}

#[test]
fn test_resolve_github_repo_root_trailing_slash() {
    let result = resolve_github_url("https://github.com/owner/repo/");
    assert_eq!(result, "https://raw.githubusercontent.com/owner/repo/HEAD/platform.json");
}

#[test]
fn test_resolve_github_tree_branch() {
    let result = resolve_github_url("https://github.com/owner/repo/tree/main");
    assert_eq!(result, "https://raw.githubusercontent.com/owner/repo/main/platform.json");
}

#[test]
fn test_resolve_github_tree_branch_subpath() {
    let result = resolve_github_url("https://github.com/owner/repo/tree/main/platforms/mypkg");
    assert_eq!(
        result,
        "https://raw.githubusercontent.com/owner/repo/main/platforms/mypkg/platform.json"
    );
}

#[test]
fn test_resolve_github_blob_unchanged() {
    let url = "https://github.com/owner/repo/blob/main/platform.json";
    assert_eq!(resolve_github_url(url), url);
}

#[test]
fn test_resolve_non_github_unchanged() {
    let url = "https://example.com/platform.json";
    assert_eq!(resolve_github_url(url), url);
}

#[test]
fn test_resolve_raw_github_unchanged() {
    let url = "https://raw.githubusercontent.com/owner/repo/main/platform.json";
    assert_eq!(resolve_github_url(url), url);
}

#[test]
fn test_extract_simple_key() {
    let v = obj(vec![("id", s("123"))]);
    let found = extract_json_value(&v, "id").and_then(json_value_to_string);
    assert_eq!(found.as_deref(), Some("123"));
}

#[test]
fn test_extract_nested_key() {
    let v = obj(vec![("response", obj(vec![("stream", obj(vec![("playbackUrl", s("http://example.com"))]))]))]);
    let found = extract_json_value(&v, "response.stream.playbackUrl").and_then(json_value_to_string);
    assert_eq!(found.as_deref(), Some("http://example.com"));
}

#[test]
fn test_extract_array_index() {
    let v = obj(vec![("response", JsonValue::Array(vec![obj(vec![("id", s("abc"))])]))]);
    let found = extract_json_value(&v, "response[0].id").and_then(json_value_to_string);
    assert_eq!(found.as_deref(), Some("abc"));
}

#[test]
fn test_extract_missing_key_returns_none() {
    let v = obj(vec![("a", s("b"))]);
    assert!(extract_json_value(&v, "missing").is_none());
}

#[test]
fn test_extract_null_returns_none() {
    let v = obj(vec![("field", JsonValue::Null)]);
    assert!(extract_json_value(&v, "field").is_none());
}

#[test]
fn path_segments_read_keys_and_positions() {
    let segs = parse_path_segments(".a.b[2][x][3].c");
    let shown: Vec<String> = segs
        .iter()
        .map(|s| match s {
            PathSegment::Key(k) => k.clone(),
            PathSegment::Index(i) => format!("#{}", i),
        })
        .collect();
    assert_eq!(shown, vec!["a", "b", "#2", "#3", "c"]);
    assert!(stream_recorder::json::path_terminates("a[0]"));
    assert!(!stream_recorder::json::path_terminates("a[0"));
}

#[test]
fn live_checks_follow_the_docs() {
    let data = obj(vec![("data", obj(vec![("status", s("live")), ("count", JsonValue::Number("3".to_string()))]))]);
    assert!(LiveCheck::Path("data.status".to_string()).matches(&data));
    assert!(!LiveCheck::Path("data.missing".to_string()).matches(&data));
    let cond = |exists, equals, not_equals| {
        LiveCheck::Condition(LiveCondition { path: "data.status".to_string(), exists, equals, not_equals })
    };
    assert!(cond(None, Some(s("live")), None).matches(&data));
    assert!(!cond(None, Some(s("offline")), None).matches(&data));
    assert!(!cond(None, None, Some(s("live"))).matches(&data));
    assert!(!cond(Some(false), None, None).matches(&data));
    assert!(cond(Some(true), None, None).matches(&data));
    assert_eq!(
        json_value_to_string(extract_json_value(&data, "data.count").unwrap()).as_deref(),
        Some("3")
    );
}

#[test]
fn title_rules_can_replace_matches() {
    let mut p = make_minimal_platform("tcr_replace");
    p.title_clean_regex = Some(vec![TitleRule::remove(r":\w+:"), TitleRule::replace(r"\s+", " ")]);
    assert_eq!(p.clean_title("Hello   :smile:  World"), "Hello World");
    p.title_clean_regex = Some(vec![TitleRule::replace("a", "$1")]);
    assert_eq!(p.clean_title("banana"), "b$1n$1n$1");
}
