use stream_recorder::stream::encoding::{
    build_ffmpeg_args, build_hw_encoder_profiles, probe_input_options, runtime_input_options,
    videotoolbox_quality_percent, VideoEncoding,
};

fn has_pair(args: &[String], a: &str, b: &str) -> bool {
    args.windows(2).any(|w| w[0] == a && w[1] == b)
}

#[test]
fn videotoolbox_quality_mapping_prefers_lower_quality_values() {
    assert_eq!(videotoolbox_quality_percent(1), 100);
    assert_eq!(videotoolbox_quality_percent(23), 56);
    assert_eq!(videotoolbox_quality_percent(51), 1);
    assert_eq!(videotoolbox_quality_percent(99), 1);
}

#[test]
fn build_ffmpeg_args_software_fallback_uses_crf_quality() {
    let args = build_ffmpeg_args(
        "https://example.com/live.m3u8",
        "output.mp4",
        &VideoEncoding::Quality(19),
        None,
        None,
    );
    assert!(has_pair(&args, "-c:v", "libx264"));
    assert!(has_pair(&args, "-crf", "19"));
    assert!(!args.iter().any(|arg| arg == "-b:v"));
    assert!(!args.iter().any(|arg| arg == "-maxrate"));
}

#[test]
fn build_ffmpeg_args_with_max_bitrate() {
    let args = build_ffmpeg_args(
        "https://example.com/live.m3u8",
        "output.mp4",
        &VideoEncoding::Quality(19),
        None,
        Some("6M"),
    );
    assert!(has_pair(&args, "-maxrate", "6M"));
    assert!(has_pair(&args, "-bufsize", "6M"));
}

#[test]
fn build_ffmpeg_args_cbr_software_uses_bitrate_flags() {
    let args = build_ffmpeg_args(
        "https://example.com/live.m3u8",
        "output.mp4",
        &VideoEncoding::ConstantBitrate("6M".to_string()),
        None,
        None,
    );
    assert!(has_pair(&args, "-c:v", "libx264"));
    assert!(has_pair(&args, "-b:v", "6M"));
    assert!(has_pair(&args, "-maxrate", "6M"));
    assert!(has_pair(&args, "-bufsize", "6M"));
    assert!(!args.iter().any(|arg| arg == "-crf"));
}

#[test]
fn build_ffmpeg_args_with_hardware_encoder_puts_inputs_first() {
    let args = build_ffmpeg_args(
        "in.m3u8",
        "out.mp4",
        &VideoEncoding::Quality(23),
        Some(("h264_vaapi".to_string(), vec!["-c:v".to_string(), "h264_vaapi".to_string()])),
        None,
    );
    let expected: Vec<String> = [
        "-loglevel", "quiet", "-vaapi_device", "/dev/dri/renderD128", "-i", "in.m3u8", "-c:v",
        "h264_vaapi", "-c:a", "aac", "-b:a", "128k", "out.mp4",
    ]
    .iter()
    .map(|s| s.to_string())
    .collect();
    assert_eq!(args, expected);
}

#[test]
fn build_hw_encoder_profiles_include_backend_specific_quality_flags() {
    let profiles = build_hw_encoder_profiles(&VideoEncoding::Quality(23));
    let nvenc = profiles
        .iter()
        .find(|profile| profile.codec == "h264_nvenc")
        .expect("nvenc profile should exist");
    assert!(has_pair(&nvenc.options, "-rc", "vbr"));
    assert!(has_pair(&nvenc.options, "-cq", "23"));
    assert!(has_pair(&nvenc.options, "-b:v", "0"));
    let qsv = profiles
        .iter()
        .find(|profile| profile.codec == "h264_qsv")
        .expect("qsv profile should exist");
    assert!(has_pair(&qsv.options, "-global_quality", "23"));
    let amf = profiles
        .iter()
        .find(|profile| profile.codec == "h264_amf")
        .expect("amf profile should exist");
    assert!(has_pair(&amf.options, "-rc", "qvbr"));
    assert!(has_pair(&amf.options, "-qvbr_quality_level", "23"));
}

#[test]
fn build_cbr_hw_encoder_profiles_include_bitrate_flags() {
    let profiles = build_hw_encoder_profiles(&VideoEncoding::ConstantBitrate("6M".to_string()));
    let nvenc = profiles
        .iter()
        .find(|profile| profile.codec == "h264_nvenc")
        .expect("nvenc profile should exist");
    assert!(has_pair(&nvenc.options, "-rc", "cbr"));
    assert!(has_pair(&nvenc.options, "-b:v", "6M"));
    let vaapi = profiles
        .iter()
        .find(|profile| profile.codec == "h264_vaapi")
        .expect("vaapi profile should exist");
    assert!(has_pair(&vaapi.options, "-rc_mode", "CBR"));
    assert!(has_pair(&vaapi.options, "-b:v", "6M"));
    let amf = profiles
        .iter()
        .find(|profile| profile.codec == "h264_amf")
        .expect("amf profile should exist");
    assert!(has_pair(&amf.options, "-rc", "cbr"));
    assert!(has_pair(&amf.options, "-b:v", "6M"));
}

#[test]
fn hardware_profiles_come_in_order_of_preference() {
    let profiles = build_hw_encoder_profiles(&VideoEncoding::Quality(0));
    let codecs: Vec<&str> = profiles.iter().map(|p| p.codec.as_str()).collect();
    assert_eq!(
        codecs,
        vec![
            "h264_nvenc", "hevc_nvenc", "h264_qsv", "hevc_qsv", "h264_vaapi", "hevc_vaapi",
            "h264_amf", "hevc_amf", "h264_videotoolbox", "h264_omx"
        ]
    );
    assert!(has_pair(&profiles[0].options, "-cq", "1"));
    assert!(has_pair(&profiles[8].options, "-global_quality", "100"));
    assert_eq!(profiles[9].options, vec!["-c:v".to_string(), "h264_omx".to_string()]);
}

#[test]
fn input_options_depend_on_the_encoder_family() {
    assert_eq!(runtime_input_options("hevc_nvenc")[1], "cuda");
    assert_eq!(runtime_input_options("h264_qsv").len(), 6);
    assert!(runtime_input_options("libx264").is_empty());
    assert_eq!(probe_input_options("hevc_vaapi").len(), 2);
    assert!(probe_input_options("h264_qsv").is_empty());
}

#[test]
fn encoding_describes_itself() {
    assert_eq!(VideoEncoding::Quality(23).describe(), "quality 23");
    assert_eq!(
        VideoEncoding::ConstantBitrate("6M".to_string()).describe(),
        "constant bitrate 6M"
    );
}
