use stream_recorder::stream::postprocess::thumb::{build_xstack_layout, parse_thumbnail_string};

#[test]
fn thumbnail_strings_parse_into_pairs() {
    assert_eq!(parse_thumbnail_string("3x3"), Some((3, 3)));
    assert_eq!(parse_thumbnail_string(" 320 x 180 "), Some((320, 180)));
    assert_eq!(parse_thumbnail_string("320"), None);
    assert_eq!(parse_thumbnail_string("1x2x3"), None);
    assert_eq!(parse_thumbnail_string("ax2"), None);
}

#[test]
fn xstack_layout_places_frames_row_by_row() {
    assert_eq!(
        build_xstack_layout(2, 2, 320, 180).unwrap(),
        "0_0|320_0|0_180|320_180"
    );
    assert_eq!(build_xstack_layout(3, 1, 10, 5).unwrap(), "0_0|10_0|20_0");
    assert_eq!(build_xstack_layout(0, 4, 10, 5).unwrap(), "");
}
