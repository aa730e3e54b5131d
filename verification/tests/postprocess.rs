use stream_recorder::stream::postprocess::thumb::{
    frame_args, grid_from_frames, thumbnail_dimensions, GridStep,
};
use stream_recorder::stream::postprocess::{
    below_minimum_duration, build_ffconcat_manifest, combined_output_path, concat_args, concat_failure_message,
    escape_ffconcat_path, segment_missing_message, template_context, thumbnail_path_for,
};
use stream_recorder::template::TemplateValue;
use stream_recorder::types::duration::DurationValue;
use stream_recorder::types::file_size::FileSize;

#[test]
fn ffconcat_paths_are_escaped() {
    assert_eq!(
        escape_ffconcat_path("/tmp/creator's archive/segment.mp4"),
        "/tmp/creator'\\''s archive/segment.mp4"
    );
    assert_eq!(escape_ffconcat_path("C:\\rec\\a.mp4"), "C:/rec/a.mp4");
}

#[test]
fn ffconcat_manifest_lists_each_segment() {
    let paths = vec!["/r/segment one.mp4".to_string(), "/r/b's.mp4".to_string()];
    assert_eq!(
        build_ffconcat_manifest(&paths),
        "ffconcat version 1.0\nfile '/r/segment one.mp4'\nfile '/r/b'\\''s.mp4'\n"
    );
    assert_eq!(build_ffconcat_manifest(&Vec::new()), "ffconcat version 1.0\n");
    assert!(segment_missing_message("missing-segment.mp4", "No such file").contains("missing-segment.mp4"));
}

#[test]
fn combined_recordings_sit_beside_the_first_segment() {
    assert_eq!(combined_output_path("/r/u/part1.mp4"), "/r/u/part1_combined.mp4");
    let args = concat_args("/r/u/m.ffconcat", "/r/u/part1_combined.mp4");
    assert_eq!(
        args,
        vec![
            "-loglevel", "error", "-f", "concat", "-safe", "0", "-i", "/r/u/m.ffconcat", "-c",
            "copy", "-y", "/r/u/part1_combined.mp4",
        ]
    );
    assert_eq!(
        concat_failure_message(2, "  bad input \n"),
        "ffmpeg concat failed for 2 segment(s): bad input"
    );
}

#[test]
fn thumbnails_replace_the_mp4_suffix() {
    assert_eq!(thumbnail_path_for("/r/a.mp4"), "/r/a_thumb.jpg");
}

#[test]
fn template_context_holds_the_recording() {
    let urls = vec![("gofile".to_string(), vec!["https://g/1".to_string()])];
    let c = template_context(
        "2025-11-09",
        "alice",
        "/r/a.mp4",
        "/r/a_thumb.jpg",
        &None,
        &DurationValue::from_secs(3725),
        FileSize(1536),
        &urls,
    );
    let keys: Vec<&str> = c.iter().map(|(k, _)| k.as_str()).collect();
    assert_eq!(
        keys,
        vec!["date", "username", "output_path", "thumbnail_path", "stream_title", "duration", "file_size", "gofile_urls"]
    );
    match &c[4].1 {
        TemplateValue::String(s) => assert_eq!(s, ""),
        _ => panic!("title should be text"),
    }
    match &c[5].1 {
        TemplateValue::String(s) => assert_eq!(s, "1h 2m 5s"),
        _ => panic!("duration should be text"),
    }
    match &c[6].1 {
        TemplateValue::String(s) => assert_eq!(s, "1.5KiB"),
        _ => panic!("size should be text"),
    }
    match &c[7].1 {
        TemplateValue::Array(a) => assert_eq!(a, &vec!["https://g/1".to_string()]),
        _ => panic!("urls should be a list"),
    }
}

#[test]
fn grid_plans_check_the_frame_count() {
    let frames: Vec<String> = (0..4).map(|i| format!("/t/frame_{:02}.jpg", i)).collect();
    match grid_from_frames(&frames, "/o.jpg", 2, 2, 320, 180).unwrap() {
        GridStep::Run(args) => {
            assert_eq!(&args[..2], &["-i".to_string(), "/t/frame_00.jpg".to_string()]);
            let filter = &args[9];
            assert_eq!(
                filter,
                "[0:v]scale=320:180[v0];[1:v]scale=320:180[v1];[2:v]scale=320:180[v2];[3:v]scale=320:180[v3];[v0][v1][v2][v3]xstack=inputs=4:layout=0_0|320_0|0_180|320_180[v]"
            );
            assert_eq!(args.last().unwrap(), "/o.jpg");
        }
        other => panic!("unexpected {:?}", other),
    }
    assert!(matches!(grid_from_frames(&frames[..1].to_vec(), "/o.jpg", 1, 1, 320, 180), Ok(GridStep::CopyFrame)));
    assert_eq!(grid_from_frames(&frames, "/o.jpg", 3, 3, 320, 180).unwrap_err(), "Expected 9 frames, got 4");
    assert_eq!(
        grid_from_frames(&frames, "/o.jpg", 0, 3, 320, 180).unwrap_err(),
        "Thumbnail grid must contain at least one frame"
    );
}

#[test]
fn thumbnail_dimensions_fall_back_to_defaults() {
    assert_eq!(thumbnail_dimensions("640x360", "2x3"), Ok((640, 360, 2, 3)));
    assert_eq!(thumbnail_dimensions("bad", "nope"), Ok((320, 180, 3, 3)));
    assert_eq!(
        thumbnail_dimensions("1x1", "70000x70000"),
        Err("Thumbnail grid is too large".to_string())
    );
}

#[test]
fn frame_args_take_one_scaled_frame() {
    assert_eq!(
        frame_args("12.500", "/in.mp4", "/f.jpg", 320, 180),
        vec!["-ss", "12.500", "-i", "/in.mp4", "-vf", "scale=320:180", "-frames:v", "1", "-q:v", "2", "/f.jpg"]
    );
}

#[test]
fn recordings_shorter_than_the_minimum_are_dropped() {
    let minimum = DurationValue::from_secs(60);
    assert!(below_minimum_duration(&DurationValue::from_millis(59_999), &minimum));
    assert!(!below_minimum_duration(&DurationValue::from_secs(60), &minimum));
    assert!(!below_minimum_duration(&DurationValue::from_secs(3600), &minimum));
}
