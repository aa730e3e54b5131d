use stream_recorder::config::listing::SettingsSection;
use stream_recorder::config::types::file_size::FileSize as FileSizeType;
use stream_recorder::config::types::list::StringList;
use stream_recorder::config::types::number::{OptionalU32, U32};
use stream_recorder::config::types::text::{OptionalText, Text};
use stream_recorder::config::types::{
    normalize_list_value, normalize_optional_value, normalize_text_value, parse_csv_list,
    parse_number, parse_optional_text, parse_optional_value,
};
use stream_recorder::config::naming::{strip_ansi_sequences, title_case_identifier};
use stream_recorder::config::{Config, ConfigCategory, ConfigKey};
use stream_recorder::types::duration::DurationValue;
use stream_recorder::types::file_size::FileSize as FileSizeValue;

fn categorized_keys() -> Vec<ConfigKey> {
    ConfigCategory::all()
        .iter()
        .flat_map(|category| category.keys().into_iter())
        .collect()
}

#[test]
fn config_category_lists_cover_all_config_keys_in_order() {
    assert_eq!(
        categorized_keys().as_slice(),
        ConfigKey::all().as_slice(),
        "Config keys must appear in exactly one category"
    );
}

#[test]
fn mod_category_lists_cover_all_config_keys_in_order() {
    assert_eq!(
        categorized_keys().as_slice(),
        ConfigKey::all().as_slice(),
        "Config keys must appear in exactly one category"
    );
}

#[test]
fn markdown_table_contains_all_config_categories() {
    let markdown = Config::default().markdown_table();
    for category in ConfigCategory::all() {
        assert!(
            markdown.contains(&format!("#### {}", category.display_name())),
            "Markdown table is missing category {}",
            category.as_str()
        );
    }
}

#[test]
fn markdown_table_contains_all_config_keys() {
    let markdown = Config::default().markdown_table();
    for key in ConfigKey::all() {
        assert!(
            markdown.contains(&format!("`{}`", key.as_str())),
            "Markdown table is missing key {}",
            key.as_str()
        );
    }
}

#[test]
fn markdown_table_matches_the_readme_settings_section() {
    let expected = "#### Monitoring

| Setting                            | Description                                                                                            | Default |
| ---------------------------------- | ------------------------------------------------------------------------------------------------------ | ------- |
| `monitors`                         | List of usernames to monitor                                                                           | `none`  |
| `min_stream_duration`              | Minimum recorded duration required before post-processing. Accepts values like 5m, 90s, or 1h.         | `none`  |
| `stream_reconnect_delay`           | How long to wait for a stream continuation before post-processing. Accepts values like 5m, 30s, or 1h. | `none`  |
| `stream_metadata_refresh_interval` | Refresh extracted stream metadata during active recordings. Accepts values like 30s, 5m, or 1h.        | `none`  |
| `step_delay`                       | Delay between each step in a platform. Accepts values like 500ms, 2s, or 1m.                           | `500ms` |
| `fetch_interval`                   | How often monitors are fetched. Accepts values like 30s, 2m, or 1h.                                    | `2m`    |

#### Video

| Setting         | Description                                                                                                    | Default |
| --------------- | -------------------------------------------------------------------------------------------------------------- | ------- |
| `video_quality` | Quality target for variable bitrate video encoding (lower is better)                                           | `26`    |
| `video_bitrate` | Constant video bitrate for CBR encoding (e.g. 6M, 5000k). When set, uses CBR mode and overrides video_quality. | `none`  |
| `max_bitrate`   | Maximum video bitrate (e.g. 6M, 2500k). When set, adds -maxrate and -bufsize to ffmpeg                         | `none`  |
| `max_fps`       | Maximum framerate a stream will be recorded at.                                                                | `none`  |

#### Post Processing

| Setting             | Description                                                                | Default |
| ------------------- | -------------------------------------------------------------------------- | ------- |
| `title_clean_regex` | Global regular expressions used to clean stream titles for uploader naming | `none`  |

#### Uploads

| Setting              | Description                            | Default |
| -------------------- | -------------------------------------- | ------- |
| `max_upload_retries` | Maximum number of upload retries       | `3`     |
| `disabled_uploaders` | List of uploaders to skip uploading to | `none`  |

#### Thumbnails

| Setting          | Description                                                | Default   |
| ---------------- | ---------------------------------------------------------- | --------- |
| `thumbnail_size` | Size of each thumbnail in the grid, in WIDTHxHEIGHT format | `320x180` |
| `thumbnail_grid` | Grid layout for thumbnails, in COLSxROWS format            | `3x3`     |

#### Notifications

| Setting                            | Description                             | Default |
| ---------------------------------- | --------------------------------------- | ------- |
| `discord_webhook_url`              | Discord webhook URL for notifications   | `none`  |
| `upload_complete_message_template` | Template for upload completion messages | `none`  |

#### Storage

| Setting                          | Description                                                                 | Default        |
| -------------------------------- | --------------------------------------------------------------------------- | -------------- |
| `output_directory`               | Directory to save recordings                                                | `./recordings` |
| `min_free_space`                 | Minimum free disk space before cleanup (e.g. 20GB, 500MB)                   | `20GB`         |
| `retention_max_age`              | Delete recordings older than this age. Accepts values like 7d, 48h, or 14d. | `none`         |
| `retention_keep_latest_per_user` | Keep only this many of the newest recordings per user                       | `none`         |";
    assert_eq!(Config::default().markdown_table(), expected);
}

#[test]
fn set_value_accepts_valid_ffmpeg_bitrate() {
    let mut config = Config::default();
    config
        .set_value("video_bitrate", "2.5M")
        .expect("set_value should accept a valid ffmpeg bitrate");
    assert_eq!(config.get_video_bitrate(), Some("2.5M"));
}

#[test]
fn set_value_rejects_invalid_ffmpeg_bitrate() {
    let mut config = Config::default();
    let err = config
        .set_value("video_bitrate", "fast")
        .expect_err("set_value should reject an invalid ffmpeg bitrate");
    assert!(
        err.contains("Invalid value for 'video_bitrate'"),
        "unexpected error: {err}"
    );
    assert!(config.get_video_bitrate().is_none());
}

#[test]
fn set_value_rejects_out_of_range_video_quality() {
    let mut config = Config::default();
    let err = config
        .set_value("video_quality", "0")
        .expect_err("set_value should reject out-of-range video quality");
    assert!(
        err.contains("Invalid value for 'video_quality'"),
        "unexpected error: {err}"
    );
    assert!(err.contains("between 1 and 51"), "unexpected error chain: {err}");
}

#[test]
fn validate_rejects_invalid_thumbnail_size() {
    let config = Config {
        thumbnail_size: Some("320".to_string()),
        ..Config::default()
    };
    let err = config
        .validate()
        .expect_err("validate should reject malformed thumbnail size");
    assert!(
        err.contains("Invalid value for 'thumbnail_size'"),
        "unexpected error: {err}"
    );
}

#[test]
fn set_get_and_reset_round_trip() {
    let mut config = Config::default();
    assert!(config.validate().is_ok());
    assert_eq!(config.get_value("video_quality"), "26");
    config.set_value("video_quality", "30").unwrap();
    assert_eq!(config.get_value("video_quality"), "30");
    assert_eq!(config.video_quality, Some(30));
    config.set_value("video_quality", "26").unwrap();
    assert_eq!(config.video_quality, None);
    config.set_value("step_delay", "2s").unwrap();
    assert_eq!(config.get_value("step_delay"), "2s");
    assert_eq!(config.get_step_delay(), DurationValue::from_secs(2));
    assert_eq!(config.reset_key("step_delay").unwrap(), "500ms");
    assert_eq!(config.get_value("step_delay"), "500ms");
    config.set_value("monitors", "alice, bob").unwrap();
    assert_eq!(config.get_value("monitors"), "alice, bob");
    assert_eq!(config.get_monitors(), vec!["alice".to_string(), "bob".to_string()]);
    config.set_value("monitors", "NONE").unwrap();
    assert_eq!(config.get_value("monitors"), "none");
    config.set_value("min_free_space", "500MB").unwrap();
    assert_eq!(config.get_value("min_free_space"), "500MB");
    assert_eq!(config.get_min_free_space(), FileSizeValue::from_mb(500));
    config.set_value("retention_keep_latest_per_user", "3").unwrap();
    assert_eq!(config.get_value("retention_keep_latest_per_user"), "3");
    let err = config.set_value("retention_keep_latest_per_user", "0").unwrap_err();
    assert!(err.contains("retention_keep_latest_per_user"));
    assert_eq!(config.get_retention_keep_latest_per_user(), Some(3));
}

#[test]
fn unknown_keys_are_reported() {
    let mut config = Config::default();
    assert_eq!(config.set_value("nope", "1").unwrap_err(), "Unknown key: nope");
    assert_eq!(config.reset_key("nope").unwrap_err(), "Unknown key: nope");
    assert_eq!(config.get_value("nope"), "unknown key");
    assert_eq!(config.get_description("nope"), "unknown key");
    assert_eq!(
        config.get_description("max_upload_retries"),
        "Maximum number of upload retries"
    );
}

#[test]
fn defaults_are_shown_for_every_key() {
    let config = Config::default();
    assert_eq!(config.get_default_string(ConfigKey::fetch_interval), "2m");
    assert_eq!(config.get_default_string(ConfigKey::min_free_space), "20GB");
    assert_eq!(config.get_default_string(ConfigKey::thumbnail_grid), "3x3");
    assert_eq!(config.get_default_string(ConfigKey::max_fps), "none");
    assert!(ConfigKey::monitors.is_array());
    assert!(!ConfigKey::video_quality.is_array());
    assert_eq!(ConfigKey::from_key("max_fps"), Some(ConfigKey::max_fps));
    assert_eq!(ConfigKey::max_fps.category(), ConfigCategory::video);
    assert_eq!(ConfigCategory::post_processing.display_name(), "Post Processing");
}

#[test]
fn title_case_and_ansi_stripping() {
    assert_eq!(title_case_identifier("__post__processing_"), "Post Processing");
    assert_eq!(title_case_identifier(""), "");
    assert_eq!(strip_ansi_sequences("\u{1b}[32mgreen\u{1b}[0m text"), "green text");
    assert_eq!(strip_ansi_sequences("cut \u{1b}[3"), "cut ");
}

#[test]
fn file_size_type_parses_and_formats_cli_values() {
    let default = FileSizeValue::from_mib(2);
    assert_eq!(
        FileSizeType::parse_cli("5MiB", &default).expect("valid file size should parse"),
        Some(FileSizeValue::from_mib(5))
    );
    assert_eq!(
        FileSizeType::parse_cli("2MiB", &default).expect("default file size should normalize"),
        None
    );
    assert_eq!(
        FileSizeType::format_cli(&Some(FileSizeValue::from_mib(5)), &default),
        "5MiB"
    );
    assert_eq!(FileSizeType::format_default(&default), "2MiB");
    assert_eq!(
        FileSizeType::get(&Some(FileSizeValue::from_mib(5)), &default),
        FileSizeValue::from_mib(5)
    );
    assert_eq!(FileSizeType::get(&None, &default), default);
}

#[test]
fn string_list_type_parses_csv_lists_and_marks_arrays() {
    let default = vec!["alpha".to_string(), "beta".to_string()];
    assert_eq!(
        StringList::parse_cli("one, two", &default).expect("valid CSV list should parse"),
        Some(vec!["one".to_string(), "two".to_string()])
    );
    assert_eq!(
        StringList::parse_cli("alpha, beta", &default).expect("default CSV list should normalize"),
        None
    );
    assert_eq!(
        StringList::format_cli(&Some(vec!["one".to_string(), "two".to_string()]), &default),
        "one, two"
    );
    assert_eq!(StringList::format_default(&default), "alpha, beta");
    assert!(StringList::is_array());
}

#[test]
fn u32_type_parses_and_formats_cli_values() {
    let default = 26;
    assert_eq!(U32::parse("30", &default).expect("valid u32 should parse"), Some(30));
    assert_eq!(U32::parse("26", &default).expect("default u32 should normalize"), None);
    assert_eq!(U32::format(&Some(30), &default), "30");
    assert_eq!(U32::format_default(&default), "26");
    assert_eq!(U32::get(&Some(30), &default), 30);
    assert_eq!(U32::get(&None, &default), 26);
}

#[test]
fn optional_u32_type_handles_none_and_defaults() {
    let default = Some(12);
    assert_eq!(
        OptionalU32::parse("none", &default).expect("none should clear optional u32"),
        None
    );
    assert_eq!(
        OptionalU32::parse("14", &default).expect("valid optional u32 should parse"),
        Some(14)
    );
    assert_eq!(OptionalU32::format(&None, &default), "12");
    assert_eq!(OptionalU32::format_default(&default), "12");
    assert_eq!(OptionalU32::get(&None, &default), Some(12));
}

#[test]
fn text_type_normalizes_default_values() {
    let default = "alpha".to_string();
    assert_eq!(
        Text::parse("beta", &default).expect("valid text should parse"),
        Some("beta".to_string())
    );
    assert_eq!(Text::parse("alpha", &default).expect("default text should normalize"), None);
    assert_eq!(Text::format(&Some("beta".to_string()), &default), "beta");
    assert_eq!(Text::format_default(&default), "alpha");
    assert_eq!(Text::get(&Some("beta".to_string()), &default), "beta");
    assert_eq!(Text::get(&None, &default), "alpha");
}

#[test]
fn optional_text_type_handles_none_and_defaults() {
    let default = Some("alpha".to_string());
    assert_eq!(
        OptionalText::parse("none", &default).expect("none should clear optional text"),
        None
    );
    assert_eq!(
        OptionalText::parse("beta", &default).expect("valid optional text should parse"),
        Some("beta".to_string())
    );
    assert_eq!(OptionalText::format(&None, &default), "alpha");
    assert_eq!(OptionalText::format_default(&default), "alpha");
    assert_eq!(OptionalText::get(&None, &default), Some("alpha"));
}

#[test]
fn parsing_helpers() {
    assert_eq!(parse_optional_text("none"), None);
    assert_eq!(parse_optional_text("None"), None);
    assert_eq!(parse_optional_text("NONE"), None);
    assert_eq!(parse_optional_text("some value"), Some("some value".to_string()));
    assert_eq!(parse_number("42"), Ok(42));
    assert_eq!(parse_number("-1").unwrap_err(), "Invalid number");
    assert_eq!(parse_number("4294967296").unwrap_err(), "Invalid number");
    assert_eq!(parse_csv_list("NoNe"), None);
    assert_eq!(
        parse_csv_list(" a ,b,, c"),
        Some(vec!["a".to_string(), "b".to_string(), "".to_string(), "c".to_string()])
    );
    assert_eq!(parse_optional_value("none", parse_number), Ok(None));
    assert_eq!(parse_optional_value("7", parse_number), Ok(Some(7)));
    assert!(parse_optional_value("x", parse_number).is_err());
    assert_eq!(normalize_optional_value(Some(3u32), Some(3u32)), None);
    assert_eq!(normalize_optional_value(Some(4u32), Some(3u32)), Some(4));
    assert_eq!(normalize_text_value(Some("a".to_string()), "a"), None);
    assert_eq!(normalize_text_value(Some("b".to_string()), "a"), Some("b".to_string()));
    let default = vec!["x".to_string()];
    assert_eq!(normalize_list_value(Some(vec!["x".to_string()]), &default), None);
    assert_eq!(
        normalize_list_value(Some(vec!["y".to_string()]), &default),
        Some(vec!["y".to_string()])
    );
}

#[test]
fn test_stream_reconnect_delay_defaults_to_none() {
    let config = Config::default();
    assert!(
        config.get_stream_reconnect_delay().is_none(),
        "stream_reconnect_delay should default to None (disabled)"
    );
}

#[test]
fn test_stream_reconnect_delay_key_recognised_by_config() {
    assert!(
        ConfigKey::from_key("stream_reconnect_delay").is_some(),
        "stream_reconnect_delay should be a recognised config key"
    );
}

#[test]
fn test_stream_metadata_refresh_interval_key_recognised_by_config() {
    assert!(
        ConfigKey::from_key("stream_metadata_refresh_interval").is_some(),
        "stream_metadata_refresh_interval should be a recognised config key"
    );
}

#[test]
fn test_stream_reconnect_delay_set_and_get_via_config_methods() {
    let mut config = Config::default();
    config
        .set_value("stream_reconnect_delay", "3m30s")
        .expect("set_value should accept a valid duration");
    assert_eq!(
        config.get_stream_reconnect_delay(),
        Some(DurationValue::from_secs(210))
    );
}

#[test]
fn test_stream_reconnect_delay_cleared_with_none_string() {
    let mut config = Config::default();
    config
        .set_value("stream_reconnect_delay", "10m")
        .expect("set_value should accept a valid duration");
    config
        .set_value("stream_reconnect_delay", "none")
        .expect("set_value should accept clearing reconnect delay with 'none'");
    assert!(config.get_stream_reconnect_delay().is_none());
}

#[test]
fn test_stream_metadata_refresh_interval_set_and_get_via_config_methods() {
    let mut config = Config::default();
    config
        .set_value("stream_metadata_refresh_interval", "15s")
        .expect("set_value should accept a positive duration");
    assert_eq!(
        config.get_stream_metadata_refresh_interval(),
        Some(DurationValue::from_secs(15))
    );
}

#[test]
fn test_stream_metadata_refresh_interval_rejects_zero() {
    let mut config = Config::default();
    let err = config
        .set_value("stream_metadata_refresh_interval", "0s")
        .expect_err("set_value should reject non-positive intervals");

    assert!(
        err.to_string().contains("stream_metadata_refresh_interval"),
        "unexpected error: {err:#}"
    );
}

#[test]
fn filtered_settings_group_by_category() {
    let config = Config::default();
    let all: Vec<SettingsSection> = config.filtered_settings(None, false);
    let titles: Vec<String> = all.iter().map(|s| s.title.clone().unwrap()).collect();
    let expected: Vec<String> = ConfigCategory::all().iter().map(|c| c.display_name()).collect();
    assert_eq!(titles, expected);
    assert!(all.iter().all(|s| s.rows.iter().all(|r| r.description.is_none())));

    let one = config.filtered_settings(Some("VIDEO_QUALITY"), true);
    assert_eq!(one.len(), 1);
    assert!(one[0].title.is_none());
    assert_eq!(one[0].rows.len(), 1);
    assert_eq!(one[0].rows[0].key, "video_quality");
    assert_eq!(one[0].rows[0].current, "26");
    assert!(!one[0].rows[0].changed);
    assert!(one[0].rows[0].description.is_some());
    assert!(config.filtered_settings(Some(""), false).is_empty());
}

#[test]
fn bitrates_too_small_for_a_double_are_refused() {
    let tiny = |zeros: usize, last: &str| format!("0.{}{}k", "0".repeat(zeros), last);
    let mut config = Config::default();
    assert!(config.set_value("video_bitrate", &tiny(400, "1")).is_err());
    assert!(config.set_value("video_bitrate", &tiny(323, "2")).is_err());
    assert!(config.set_value("video_bitrate", "0.000").is_err());
    assert!(config.set_value("video_bitrate", &tiny(323, "3")).is_ok());
    assert!(config.set_value("video_bitrate", &tiny(322, "1")).is_ok());
    assert!(config.set_value("video_bitrate", "0.5M").is_ok());
    assert!(config.set_value("video_bitrate", "6000k").is_ok());
}

#[test]
fn set_value_accepts_retention_limits() {
    let mut config = Config::default();

    config
        .set_value("retention_keep_latest_per_user", "3")
        .expect("set_value should accept a positive retention limit");

    assert_eq!(config.get_value("retention_keep_latest_per_user"), "3");
}

#[test]
fn set_value_rejects_zero_retention_limits() {
    let mut config = Config::default();

    let keep_err = config
        .set_value("retention_keep_latest_per_user", "0")
        .expect_err("set_value should reject zero per-user retention");
    assert!(keep_err.to_string().contains("retention_keep_latest_per_user"));
}

#[test]
fn render_filtered_groups_settings_by_category() {
    let sections = Config::default().filtered_settings(None, false);
    let titles: Vec<String> = sections.iter().map(|s| s.title.clone().unwrap()).collect();
    let mut last_index = 0;
    for category in ConfigCategory::all() {
        let marker = category.display_name();
        let index = titles
            .iter()
            .position(|t| *t == marker)
            .unwrap_or_else(|| panic!("missing category heading: {}", category.as_str()));
        assert!(index >= last_index, "category {} listed out of order", category.as_str());
        last_index = index;
    }
    for key in ConfigKey::all() {
        assert!(
            sections.iter().any(|s| s.rows.iter().any(|r| r.key == key.as_str())),
            "grouped output is missing key {}",
            key.as_str()
        );
    }
}

#[test]
fn render_filtered_single_key_shows_only_matching_category() {
    let sections = Config::default().filtered_settings(Some("video_quality"), true);
    assert_eq!(sections.len(), 1);
    assert!(sections[0].title.is_none());
    assert!(sections.iter().all(|s| s.title.as_deref() != Some("Monitoring")));
    assert!(sections[0].rows.iter().any(|r| r.key == "video_quality"));
    assert!(sections[0].rows.iter().all(|r| r.key != "thumbnail_size"));
}

#[test]
fn bitrates_too_large_for_a_double_are_refused() {
    let limit = "179769313486231580793728971405303415079934132710037826936173778980444968292764750946649017977587207096330286416692887910946555547851940402630657488671505820681908902000708383676273854845817711531764475730270069855571366959622842914819860834936475292719074168444365510704342711559699508093042880177904174497792";
    let below = "179769313486231580793728971405303415079934132710037826936173778980444968292764750946649017977587207096330286416692887910946555547851940402630657488671505820681908902000708383676273854845817711531764475730270069855571366959622842914819860834936475292719074168444365510704342711559699508093042880177904174497791";
    let mut config = Config::default();
    assert!(config.set_value("video_bitrate", &format!("{}k", limit)).is_err());
    assert!(config.set_value("video_bitrate", &format!("1{}", "0".repeat(309))).is_err());
    assert!(config.set_value("video_bitrate", &format!("{}k", below)).is_ok());
    assert!(config.set_value("video_bitrate", &format!("{}.5", below)).is_ok());
    assert!(config.set_value("video_bitrate", &format!("{}0.0", limit)).is_err());
    assert!(config.set_value("video_bitrate", &format!("1{}", "0".repeat(308))).is_ok());
}
