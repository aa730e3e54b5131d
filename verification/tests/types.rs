use stream_recorder::types::duration::{parse_duration_input, DurationValue};
use stream_recorder::types::file_size::FileSize;

#[test]
fn parses_explicit_duration_strings() {
    assert_eq!(
        "1h 30m".parse::<DurationValue>().unwrap(),
        DurationValue::from_secs(5400)
    );
    assert_eq!(
        "500ms".parse::<DurationValue>().unwrap(),
        DurationValue::from_millis(500)
    );
    assert_eq!(
        "1.5d 2h".parse::<DurationValue>().unwrap(),
        DurationValue::from_secs(136_800)
    );
}

#[test]
fn formats_compact_duration_strings() {
    assert_eq!(DurationValue::from_secs(95_465).to_display_string(), "1d 2h 31m");
    assert_eq!(DurationValue::from_millis(500).to_display_string(), "500ms");
    assert_eq!(DurationValue::from_secs(90).to_display_string(), "1m 30s");
    assert_eq!(DurationValue::from_secs(0).to_display_string(), "0s");
}

#[test]
fn parses_duration_input_strings() {
    assert_eq!(
        parse_duration_input("2m30s").unwrap(),
        DurationValue::from_secs(150)
    );
}

#[test]
fn duration_parse_errors_name_the_problem() {
    assert_eq!(
        parse_duration_input("   ").unwrap_err(),
        "duration cannot be empty"
    );
    assert!(parse_duration_input("5 parsecs").is_err());
    assert!(parse_duration_input("abc").is_err());
}

#[test]
fn duration_parts_and_accessors() {
    let d = DurationValue::new(3_661, 5);
    assert_eq!(d.as_secs(), 3_661);
    assert_eq!(d.subsec_nanos(), 5);
    assert_eq!(d.as_nanos(), 3_661_000_000_005);
    assert!(!d.is_zero());
    assert!(DurationValue::zero().is_zero());
    assert_eq!(
        DurationValue::from_secs(93_784).format_parts(2),
        vec!["1d".to_string(), "2h".to_string()]
    );
}

#[test]
fn parses_human_readable_sizes() {
    assert_eq!("42".parse::<FileSize>().unwrap(), FileSize::from_bytes(42));
    assert_eq!("10KB".parse::<FileSize>().unwrap(), FileSize::from_kb(10));
    assert_eq!("5MiB".parse::<FileSize>().unwrap(), FileSize::from_mib(5));
    assert_eq!(
        "  1.5gb  ".parse::<FileSize>().unwrap(),
        FileSize::from_gb(1)
    );
}

#[test]
fn rejects_invalid_sizes() {
    assert!("10XB".parse::<FileSize>().is_err());
    assert!("not-a-size".parse::<FileSize>().is_err());
}

#[test]
fn formats_human_readable_sizes() {
    assert_eq!(FileSize::from_bytes(1_024).to_display_string(), "1KiB");
    assert_eq!(FileSize::from_bytes(1_000_000).to_display_string(), "1MB");
    assert_eq!(FileSize::from_bytes(20_000_000_000).to_display_string(), "20GB");
    assert_eq!(FileSize::from_bytes(1536).to_display_string(), "1.5KiB");
    assert_eq!(FileSize::from_bytes(4_673_595_901).to_display_string(), "4.35GiB");
}

#[test]
fn file_size_units_saturate_and_divide() {
    assert_eq!(FileSize::from_gib(u64::MAX).as_bytes(), u64::MAX);
    assert_eq!(FileSize::from_gib(2).as_gib(), 2);
    assert_eq!(FileSize::from_mb(3).as_kb(), 3_000);
    assert_eq!(FileSize::from_bytes(42).to_display_string(), "42B");
}

#[test]
fn displayed_durations_read_back() {
    for d in [
        DurationValue::from_secs(5400),
        DurationValue::from_millis(500),
        DurationValue::from_secs(0),
        DurationValue::new(86_400, 7),
    ] {
        let shown = d.to_display_string();
        assert_eq!(parse_duration_input(&shown).unwrap(), d);
    }
    let long = DurationValue::from_secs(95_465 + 5);
    assert_eq!(long.to_display_string(), "1d 2h 31m");
    assert_eq!(parse_duration_input(&long.to_display_string()).unwrap(), DurationValue::from_secs(95_460));
}

#[test]
fn duration_texts_joined_by_a_space_add_up() {
    let a = parse_duration_input("1h").unwrap();
    let b = parse_duration_input(" 30m ").unwrap();
    let joined = parse_duration_input(&format!("{} {}", "1h", " 30m ")).unwrap();
    assert_eq!(joined, DurationValue::from_secs(a.as_secs() + b.as_secs()));
    assert_eq!(joined, DurationValue::from_secs(5400));
}

#[test]
fn sizes_read_back_from_their_display() {
    for n in [0u64, 42, 999, 1000, 1024, 5 * 1024 * 1024, 20_000_000_000, 3 * 1_073_741_824] {
        let shown = FileSize::from_bytes(n).to_display_string();
        assert_eq!(shown.parse::<FileSize>().unwrap(), FileSize::from_bytes(n), "{shown}");
    }
    let shown = FileSize::from_bytes(1536).to_display_string();
    assert_eq!(shown, "1.5KiB");
    assert_eq!(shown.parse::<FileSize>().unwrap(), FileSize::from_bytes(1024));
}

#[test]
fn size_display_rounds_like_double_precision_division() {
    assert_eq!(FileSize::from_bytes(1015).to_display_string(), "1.01KB");
    assert_eq!(FileSize::from_bytes(1005).to_display_string(), "1KB");
    assert_eq!(FileSize::from_bytes(1025).to_display_string(), "1KiB");
    assert_eq!(FileSize::from_bytes(1536).to_display_string(), "1.5KiB");
    assert_eq!(FileSize::from_bytes(u64::MAX).to_display_string(), "17179869184GiB");
}
