use stream_recorder::json::JsonValue;
use stream_recorder::uploaders::gofile::{download_urls, pick_server, Server};
use stream_recorder::uploaders::cookies::CookieJar;
use stream_recorder::uploaders::fileditch::parse_upload_response as fileditch_response;
use stream_recorder::uploaders::filester::{folder_id_outcome, upload_outcome};
use stream_recorder::uploaders::jpg6::{parse_upload_response, session_outcome};
use stream_recorder::uploaders::{uploader_selected, UploaderKind, UploaderKindFilter};
use stream_recorder::types::duration::DurationValue;

fn strings(v: &[&str]) -> Vec<String> {
    v.iter().map(|s| s.to_string()).collect()
}

#[test]
fn parse_upload_response_uses_viewer_url() {
    let result = parse_upload_response(Ok(Some("https://goonbox.cr/img/example".to_string())), 200).unwrap();
    assert_eq!(result, vec!["https://goonbox.cr/img/example"]);
}

#[test]
fn jpg6_answers_map_to_errors() {
    let e = parse_upload_response(Ok(Some("u".to_string())), 413).unwrap_err();
    assert_eq!(e.message, "jpg6 upload failed with HTTP 413");
    assert_eq!(e.status_code, Some(413));
    let e = parse_upload_response(Ok(None), 200).unwrap_err();
    assert_eq!(e.message, "jpg6 upload succeeded but no URL was returned");
    let e = parse_upload_response(Err("missing field `image`".to_string()), 200).unwrap_err();
    assert_eq!(e.message, "invalid jpg6 response: missing field `image`");
    assert_eq!(session_outcome(Ok(true), 200).unwrap(), true);
    assert_eq!(session_outcome(Err("eof".to_string()), 500).unwrap_err().message, "invalid auth/me response: eof");
}

#[test]
fn cookie_jar_takes_in_set_cookie_headers() {
    let mut jar = CookieJar::new();
    assert_eq!(jar.header_value(), None);
    jar.merge_set_cookies(&strings(&[
        "XSRF-TOKEN=abc; Path=/; Max-Age=7200",
        "goonbox_session = s1 ; max-age= 600 ; HttpOnly",
        "broken",
        "=nameless",
        "XSRF-TOKEN=def",
    ]));
    assert_eq!(jar.get("XSRF-TOKEN"), Some("def".to_string()));
    assert_eq!(jar.get("goonbox_session"), Some("s1".to_string()));
    assert_eq!(jar.header_value(), Some("XSRF-TOKEN=def; goonbox_session=s1".to_string()));
    assert!(jar.is_ready());
    assert_eq!(jar.min_refresh_interval(), DurationValue::from_secs(300));
    assert!(jar.needs_refresh(&DurationValue::from_secs(300)));
    assert!(!jar.needs_refresh(&DurationValue::from_secs(299)));
}

#[test]
fn cookie_jar_defaults_and_imports() {
    let jar = CookieJar::new();
    assert_eq!(jar.min_refresh_interval(), DurationValue::from_secs(300));
    assert!(!jar.is_ready());
    let jar = CookieJar::from_export(&vec![
        ("goonbox_session".to_string(), "a%3Db".to_string()),
        ("XSRF-TOKEN".to_string(), "x".to_string()),
    ]);
    assert_eq!(jar.get("goonbox_session"), Some("a=b".to_string()));
    assert_eq!(jar.entries().len(), 2);
    let mut odd = CookieJar::new();
    odd.merge_set_cookies(&strings(&["a=1; Max-Age=7"]));
    assert_eq!(odd.min_refresh_interval(), DurationValue::new(3, 500_000_000));
}

#[test]
fn fileditch_answers() {
    assert_eq!(fileditch_response(None, Ok((true, "https://f/x".to_string())), 200).unwrap(), vec!["https://f/x"]);
    assert_eq!(fileditch_response(Some("too big".to_string()), Ok((true, "u".to_string())), 413).unwrap_err().message, "too big");
    assert_eq!(
        fileditch_response(None, Ok((false, "u".to_string())), 200).unwrap_err().message,
        "fileditch returned unsuccessful response"
    );
    assert_eq!(
        fileditch_response(None, Ok((true, "  ".to_string())), 200).unwrap_err().message,
        "fileditch upload succeeded but no file URL was returned"
    );
}

#[test]
fn filester_answers_and_folders() {
    assert_eq!(upload_outcome(Ok((true, "ok".to_string(), "https://u".to_string())), 200).unwrap(), vec!["https://u"]);
    assert_eq!(
        upload_outcome(Ok((false, "quota".to_string(), String::new())), 200).unwrap_err().message,
        "Filester returned unsuccessful response: quota"
    );
    let folders = Some(vec![("1".to_string(), "Other".to_string()), ("2".to_string(), "ALICE".to_string())]);
    assert_eq!(folder_id_outcome(true, folders.clone(), "alice", 200).unwrap(), Some("2".to_string()));
    let e = folder_id_outcome(true, folders, "bob", 200).unwrap_err();
    assert_eq!(e.message, "folder 'bob' not found");
    assert_eq!(e.status_code, None);
    assert!(folder_id_outcome(false, None, "bob", 503).is_err());
}

#[test]
fn disabled_uploaders_are_left_out() {
    let disabled = strings(&["GoFile"]);
    assert!(!uploader_selected("gofile", UploaderKind::Video, true, &disabled, UploaderKindFilter::All));
    assert!(uploader_selected("jpg6", UploaderKind::Image, true, &disabled, UploaderKindFilter::Image));
    assert!(!uploader_selected("jpg6", UploaderKind::Image, true, &disabled, UploaderKindFilter::Video));
    assert!(!uploader_selected("jpg6", UploaderKind::Image, false, &disabled, UploaderKindFilter::All));
}

#[test]
fn gofile_servers_and_links() {
    let servers = vec![
        Server { name: "store1".to_string(), zone: "na".to_string() },
        Server { name: "store2".to_string(), zone: "eu".to_string() },
    ];
    assert_eq!(pick_server(&servers, "eu").unwrap().name, "store2");
    assert_eq!(pick_server(&servers, "ap").unwrap().name, "store1");
    assert_eq!(pick_server(&Vec::new(), "eu").unwrap_err().message, "noServersAvailable");
    let data = JsonValue::Object(vec![("downloadPage".to_string(), JsonValue::String("https://gofile.io/d/x".to_string()))]);
    assert_eq!(download_urls(&data), vec!["https://gofile.io/d/x".to_string()]);
    assert!(download_urls(&JsonValue::Null).is_empty());
}
