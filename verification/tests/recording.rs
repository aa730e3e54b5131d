use stream_recorder::config::Config;
use stream_recorder::platform::{PipelineStep, PlatformConfig};
use stream_recorder::stream::encoding::{
    encoder_candidates, hw_encoder_lines, hw_probe_args, probe_failure_reason, EncoderProfile,
    VideoEncoding,
};
use stream_recorder::stream::monitor::continuation_wait;
use stream_recorder::stream::recording::{
    build_output_path, build_recording_args, recording_encoding, user_directory,
};
use stream_recorder::stream::types::{ExtractedStreamValues, StreamInfo};
use stream_recorder::types::duration::DurationValue;

fn info() -> StreamInfo {
    StreamInfo {
        username: "Alice B".to_string(),
        platform: PlatformConfig {
            id: "p".to_string(),
            name: "P".to_string(),
            base_url: "https://x/".to_string(),
            icon: None,
            token_name: None,
            headers: Vec::new(),
            steps: vec![PipelineStep { endpoint: "e".to_string(), live_check: None, extract: Vec::new() }],
            source_url: None,
            version: "1".to_string(),
            stream_recorder_version: None,
            title_clean_regex: None,
        },
        extracted: ExtractedStreamValues {
            playback_url: "https://x/live.m3u8".to_string(),
            stream_title: None,
            avatar_url: None,
        },
    }
}

#[test]
fn recording_paths_use_the_user_slug() {
    assert_eq!(user_directory("./recordings", "Alice B"), "./recordings/alice-b");
    assert_eq!(
        build_output_path("./recordings", "Alice B", "2025-01-02_03-04-05"),
        "./recordings/alice-b/alice-b_2025-01-02_03-04-05.mp4"
    );
}

#[test]
fn recording_encoding_prefers_a_set_bitrate() {
    assert!(matches!(recording_encoding(23, None), VideoEncoding::Quality(23)));
    match recording_encoding(23, Some("6M")) {
        VideoEncoding::ConstantBitrate(b) => assert_eq!(b, "6M"),
        other => panic!("unexpected {:?}", other),
    }
    let mut config = Config::default();
    assert!(matches!(config.recording_encoding(), VideoEncoding::Quality(26)));
    config.set_value("video_bitrate", "5000k").unwrap();
    assert!(matches!(config.recording_encoding(), VideoEncoding::ConstantBitrate(_)));
}

#[test]
fn recording_args_end_with_the_output() {
    let mut config = Config::default();
    config.set_value("max_bitrate", "8M").unwrap();
    let args = build_recording_args(&config, &info(), "out.mp4", &VideoEncoding::Quality(20), None);
    assert_eq!(args.last().unwrap(), "out.mp4");
    assert!(args.windows(2).any(|w| w == ["-i", "https://x/live.m3u8"]));
    assert!(args.windows(2).any(|w| w == ["-crf", "20"]));
    assert!(args.windows(2).any(|w| w == ["-maxrate", "8M"]));
}

#[test]
fn probe_reasons_name_known_failures() {
    assert_eq!(probe_failure_reason("x\nCUDA_ERROR_NO_DEVICE\n"), "no CUDA-capable device");
    assert_eq!(probe_failure_reason("Error creating a MFX session"), "intel qsv: mfx session not available");
    assert_eq!(probe_failure_reason("\n  \n  weird thing happened  \nmore"), "weird thing happened");
    assert_eq!(probe_failure_reason(" \n"), "unknown error");
}

#[test]
fn encoder_listing_is_filtered() {
    let out = " V....D h264_nvenc  NVIDIA NVENC\n V....D libx264  x264\n V....D h264_VAAPI  VAAPI\n";
    assert_eq!(
        hw_encoder_lines(out),
        vec!["V....D h264_nvenc  NVIDIA NVENC".to_string(), "V....D h264_VAAPI  VAAPI".to_string()]
    );
    let candidates = encoder_candidates(&VideoEncoding::Quality(23), out);
    let codecs: Vec<&str> = candidates.iter().map(|p| p.codec.as_str()).collect();
    assert_eq!(codecs, vec!["h264_nvenc", "h264_vaapi"]);
}

#[test]
fn probe_args_run_a_one_second_test() {
    let profile = EncoderProfile::new("h264_vaapi", vec!["-c:v".to_string(), "h264_vaapi".to_string()]);
    let args = hw_probe_args(&profile);
    assert_eq!(
        args,
        vec![
            "-hide_banner", "-loglevel", "error", "-vaapi_device", "/dev/dri/renderD128", "-f",
            "lavfi", "-i", "testsrc=duration=1:size=640x360:rate=30", "-c:v", "h264_vaapi", "-t",
            "1", "-f", "null", "-",
        ]
    );
}

#[test]
fn continuation_waits_are_cut_to_the_window() {
    assert_eq!(continuation_wait(DurationValue::from_secs(30), DurationValue::from_secs(0)), None);
    assert_eq!(
        continuation_wait(DurationValue::from_secs(30), DurationValue::from_secs(10)),
        Some(DurationValue::from_secs(10))
    );
    assert_eq!(
        continuation_wait(DurationValue::from_secs(30), DurationValue::from_secs(100)),
        Some(DurationValue::from_secs(30))
    );
}
