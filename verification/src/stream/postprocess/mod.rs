use vstd::prelude::*;
use crate::paths::{file_stem_of, parent_of, path_file_stem, path_parent};
use crate::strings::{concat2, concat3, concat4, concat5, push_str, strings, svec, u64_string};
use crate::template::{context_view, TemplateValue, TemplateView};
use crate::text::{chars_of, dec, replace_all, replace_chars, string_from_chars, trim, trim_chars};
use crate::types::duration::{display, DurationValue};
use crate::types::file_size::{size_text, FileSize};

pub mod storage;
pub mod thumb;

verus! {

/// A path as an ffconcat manifest quotes it: backslashes turned into slashes and
/// each `'` written as `'\''`.
pub open spec fn ffconcat_escaped(path: Seq<char>) -> Seq<char> {
    replace_all(replace_all(path, "\\"@, "/"@), "'"@, "'\\''"@)
}

/// Escapes a path for an ffconcat manifest.
pub fn escape_ffconcat_path(path: &str) -> (s: String)
    ensures
        s@ == ffconcat_escaped(path@),
{
    let c = chars_of(path);
    proof {
        reveal_strlit("\\");
        reveal_strlit("'");
    }
    let a = replace_chars(c.as_slice(), chars_of("\\").as_slice(), chars_of("/").as_slice());
    let b = replace_chars(a.as_slice(), chars_of("'").as_slice(), chars_of("'\\''").as_slice());
    string_from_chars(b.as_slice())
}

/// The ffconcat manifest that joins the files at `paths`, in order.
pub open spec fn manifest_text(paths: Seq<Seq<char>>) -> Seq<char>
    decreases paths.len(),
{
    if paths.len() == 0 {
        "ffconcat version 1.0\n"@
    } else {
        manifest_text(paths.drop_last()) + "file '"@ + ffconcat_escaped(paths.last()) + "'\n"@
    }
}

/// Builds the ffconcat manifest for segments at the given (canonical) paths.
pub fn build_ffconcat_manifest(canonical_paths: &Vec<String>) -> (s: String)
    ensures
        s@ == manifest_text(svec(canonical_paths@)),
{
    let ghost ps = svec(canonical_paths@);
    let mut m = "ffconcat version 1.0\n".to_owned();
    let mut i: usize = 0;
    assert(ps.take(0) =~= Seq::<Seq<char>>::empty());
    while i < canonical_paths.len()
        invariant
            i <= canonical_paths@.len(),
            ps == svec(canonical_paths@),
            m@ == manifest_text(ps.take(i as int)),
        decreases canonical_paths@.len() - i,
    {
        assert(ps.take(i + 1).drop_last() =~= ps.take(i as int));
        assert(ps.take(i + 1).last() == canonical_paths@[i as int]@);
        let escaped = escape_ffconcat_path(canonical_paths[i].as_str());
        m = concat4(m.as_str(), "file '", escaped.as_str(), "'\n");
        i = i + 1;
    }
    assert(ps.take(i as int) =~= ps);
    m
}

/// The error when a segment cannot be found on disk.
pub fn segment_missing_message(file: &str, error: &str) -> (s: String)
    ensures
        s@ == "segment file missing or inaccessible '"@ + file@ + "': "@ + error@,
{
    concat4("segment file missing or inaccessible '", file, "': ", error)
}

/// Where segments starting with the file at `first` are joined: beside it, named
/// after its stem with `_combined.mp4`.
pub open spec fn combined_path(first: Seq<char>) -> Seq<char> {
    let dir = match path_parent(first) {
        Some(d) => d,
        None => "."@,
    };
    let stem = match path_file_stem(first) {
        Some(s) => s,
        None => "combined"@,
    };
    dir + "/"@ + stem + "_combined.mp4"@
}

/// The path of the combined recording for segments starting with `first`.
pub fn combined_output_path(first: &str) -> (s: String)
    ensures
        s@ == combined_path(first@),
{
    let dir = match parent_of(first) {
        Some(d) => d,
        None => ".".to_owned(),
    };
    let stem = match file_stem_of(first) {
        Some(s) => s,
        None => "combined".to_owned(),
    };
    concat4(dir.as_str(), "/", stem.as_str(), "_combined.mp4")
}

/// The ffmpeg arguments that join the segments listed in a manifest without
/// re-encoding.
pub open spec fn concat_arguments(manifest: Seq<char>, output: Seq<char>) -> Seq<Seq<char>> {
    seq![
        "-loglevel"@,
        "error"@,
        "-f"@,
        "concat"@,
        "-safe"@,
        "0"@,
        "-i"@,
        manifest,
        "-c"@,
        "copy"@,
        "-y"@,
        output,
    ]
}

/// Builds the arguments of the ffmpeg run that joins segments.
pub fn concat_args(manifest_path: &str, combined_path: &str) -> (v: Vec<String>)
    ensures
        svec(v@) == concat_arguments(manifest_path@, combined_path@),
{
    let mut v = strings(&["-loglevel", "error", "-f", "concat", "-safe", "0", "-i"]);
    push_str(&mut v, manifest_path);
    push_str(&mut v, "-c");
    push_str(&mut v, "copy");
    push_str(&mut v, "-y");
    push_str(&mut v, combined_path);
    v
}

/// The error when ffmpeg fails to join `count` segments, with its error output
/// trimmed.
pub fn concat_failure_message(count: usize, stderr: &str) -> (s: String)
    ensures
        s@ == "ffmpeg concat failed for "@ + dec(count as nat) + " segment(s): "@ + trim(stderr@),
{
    let n = u64_string(count as u64);
    let t = string_from_chars(trim_chars(chars_of(stderr).as_slice()).as_slice());
    concat4("ffmpeg concat failed for ", n.as_str(), " segment(s): ", t.as_str())
}

/// The thumbnail of a recording: its path with `.mp4` replaced by `_thumb.jpg`.
pub open spec fn thumbnail_path(output_path: Seq<char>) -> Seq<char> {
    replace_all(output_path, ".mp4"@, "_thumb.jpg"@)
}

/// The path of a recording's thumbnail.
pub fn thumbnail_path_for(output_path: &str) -> (s: String)
    ensures
        s@ == thumbnail_path(output_path@),
{
    proof {
        reveal_strlit(".mp4");
    }
    let out = replace_chars(
        chars_of(output_path).as_slice(),
        chars_of(".mp4").as_slice(),
        chars_of("_thumb.jpg").as_slice(),
    );
    string_from_chars(out.as_slice())
}

/// The values a finished recording gives its message template.
pub open spec fn template_entries(
    date: Seq<char>,
    username: Seq<char>,
    output_path: Seq<char>,
    thumbnail: Seq<char>,
    title: Option<Seq<char>>,
    duration: nat,
    size: nat,
    urls: Seq<(Seq<char>, Seq<Seq<char>>)>,
) -> Seq<(Seq<char>, TemplateView)> {
    seq![
        ("date"@, TemplateView::Text(date)),
        ("username"@, TemplateView::Text(username)),
        ("output_path"@, TemplateView::Text(output_path)),
        ("thumbnail_path"@, TemplateView::Text(thumbnail)),
        ("stream_title"@, TemplateView::Text(
            match title {
                Some(t) => t,
                None => Seq::empty(),
            },
        )),
        ("duration"@, TemplateView::Text(display(duration))),
        ("file_size"@, TemplateView::Text(size_text(size))),
    ] + urls.map_values(|u: (Seq<char>, Seq<Seq<char>>)| (u.0 + "_urls"@, TemplateView::List(u.1)))
}

/// Builds the template values of a finished recording: the date, the user, the
/// files, the title (empty when unknown), the duration and size as shown, and each
/// uploader's links under its name with `_urls` appended.
pub fn template_context(
    date: &str,
    username: &str,
    output_path: &str,
    thumbnail: &str,
    stream_title: &Option<String>,
    duration: &DurationValue,
    file_size: FileSize,
    upload_urls: &Vec<(String, Vec<String>)>,
) -> (c: Vec<(String, TemplateValue)>)
    ensures
        context_view(c@) == template_entries(
            date@,
            username@,
            output_path@,
            thumbnail@,
            match stream_title {
                Some(t) => Some(t@),
                None => None,
            },
            duration@,
            file_size.0 as nat,
            upload_urls@.map_values(|u: (String, Vec<String>)| (u.0@, svec(u.1@))),
        ),
{
    let mut c: Vec<(String, TemplateValue)> = Vec::new();
    c.push(("date".to_owned(), TemplateValue::String(date.to_owned())));
    c.push(("username".to_owned(), TemplateValue::String(username.to_owned())));
    c.push(("output_path".to_owned(), TemplateValue::String(output_path.to_owned())));
    c.push(("thumbnail_path".to_owned(), TemplateValue::String(thumbnail.to_owned())));
    let title = match stream_title {
        Some(t) => t.clone(),
        None => String::new(),
    };
    c.push(("stream_title".to_owned(), TemplateValue::String(title)));
    c.push(("duration".to_owned(), TemplateValue::String(duration.to_display_string())));
    c.push(("file_size".to_owned(), TemplateValue::String(file_size.to_display_string())));
    let ghost head = context_view(c@);
    let ghost us = upload_urls@.map_values(|u: (String, Vec<String>)| (u.0@, svec(u.1@)));
    let ghost f = |u: (Seq<char>, Seq<Seq<char>>)| (u.0 + "_urls"@, TemplateView::List(u.1));
    let mut i: usize = 0;
    while i < upload_urls.len()
        invariant
            i <= upload_urls@.len(),
            us == upload_urls@.map_values(|u: (String, Vec<String>)| (u.0@, svec(u.1@))),
            f == (|u: (Seq<char>, Seq<Seq<char>>)| (u.0 + "_urls"@, TemplateView::List(u.1))),
            context_view(c@) == head + us.take(i as int).map_values(f),
        decreases upload_urls@.len() - i,
    {
        let key = concat2(upload_urls[i].0.as_str(), "_urls");
        let mut list: Vec<String> = Vec::new();
        crate::strings::push_all(&mut list, &upload_urls[i].1);
        let ghost before = context_view(c@);
        c.push((key, TemplateValue::Array(list)));
        assert(context_view(c@) =~= before.push((key@, TemplateView::List(svec(list@)))));
        assert(us.take(i + 1).map_values(f) =~= us.take(i as int).map_values(f).push(f(us[i as int])));
        i = i + 1;
    }
    assert(us.take(i as int) =~= us);
    c
}

/// Whether a recording of `duration` is too short to keep, given the configured
/// minimum: strictly shorter than it.
pub fn below_minimum_duration(duration: &DurationValue, min_duration: &DurationValue) -> (b: bool)
    ensures
        b == (duration@ < min_duration@),
{
    duration.as_nanos() < min_duration.as_nanos()
}

} // verus!
