use vstd::prelude::*;
use crate::paths::{extension_of, path_extension};
use crate::strings::{concat2, join_strings, svec};
use crate::text::{chars_of, eq_ignore_case, eq_ignore_case_exec, eq_lit, join};
use crate::types::duration::DurationValue;
use crate::unicode::{to_lowercase, unicode_lower};
use crate::uploaders::UploaderKindFilter;
use vstd::arithmetic::power2::{lemma_pow2_strictly_increases, lemma_pow2_unfold, pow2};

verus! {

/// Extensions of image files, in lower case.
pub open spec fn image_extension(e: Seq<char>) -> bool {
    e == "jpg"@ || e == "jpeg"@ || e == "png"@ || e == "gif"@ || e == "webp"@ || e == "bmp"@ || e
        == "tiff"@ || e == "tif"@ || e == "svg"@ || e == "ico"@ || e == "heic"@ || e == "heif"@
        || e == "avif"@
}

/// Extensions of video files, in lower case.
pub open spec fn video_extension(e: Seq<char>) -> bool {
    e == "mp4"@ || e == "mkv"@ || e == "avi"@ || e == "mov"@ || e == "webm"@ || e == "flv"@ || e
        == "wmv"@ || e == "m4v"@ || e == "3gp"@ || e == "mpg"@ || e == "mpeg"@ || e == "ts"@ || e
        == "mts"@ || e == "ogv"@
}

/// The uploaders suited to a file, by its extension in lower case.
pub open spec fn kind_for_path(p: Seq<char>) -> UploaderKindFilter {
    match path_extension(p) {
        Some(e) => if image_extension(unicode_lower(e)) {
            UploaderKindFilter::Image
        } else if video_extension(unicode_lower(e)) {
            UploaderKindFilter::Video
        } else {
            UploaderKindFilter::All
        },
        None => UploaderKindFilter::All,
    }
}

/// The uploaders suited to a file: images for image extensions, videos for video
/// extensions (in any case), all otherwise.
pub fn guess_uploader_kind(file: &str) -> (f: UploaderKindFilter)
    ensures
        f == kind_for_path(file@),
{
    let ext = match extension_of(file) {
        Some(e) => e,
        None => return UploaderKindFilter::All,
    };
    let lower = to_lowercase(ext.as_str());
    let c = chars_of(lower.as_str());
    let s = c.as_slice();
    let is_image = eq_lit(s, "jpg") || eq_lit(s, "jpeg") || eq_lit(s, "png") || eq_lit(s, "gif")
        || eq_lit(s, "webp") || eq_lit(s, "bmp") || eq_lit(s, "tiff") || eq_lit(s, "tif") || eq_lit(
        s,
        "svg",
    ) || eq_lit(s, "ico") || eq_lit(s, "heic") || eq_lit(s, "heif") || eq_lit(s, "avif");
    if is_image {
        return UploaderKindFilter::Image;
    }
    let is_video = eq_lit(s, "mp4") || eq_lit(s, "mkv") || eq_lit(s, "avi") || eq_lit(s, "mov")
        || eq_lit(s, "webm") || eq_lit(s, "flv") || eq_lit(s, "wmv") || eq_lit(s, "m4v") || eq_lit(
        s,
        "3gp",
    ) || eq_lit(s, "mpg") || eq_lit(s, "mpeg") || eq_lit(s, "ts") || eq_lit(s, "mts") || eq_lit(
        s,
        "ogv",
    );
    if is_video {
        UploaderKindFilter::Video
    } else {
        UploaderKindFilter::All
    }
}

/// Whether a status is a server error (5xx).
pub fn is_server_error(status_code: Option<u16>) -> (b: bool)
    ensures
        b == (status_code matches Some(c) && 500 <= c < 600),
{
    match status_code {
        Some(code) => 500 <= code && code < 600,
        None => false,
    }
}

/// Seconds to wait before retry `attempt` after a server error: five minutes,
/// doubled for each attempt after the first, at most an hour.
pub open spec fn backoff_secs(attempt: nat) -> nat {
    let s = 300 * pow2((attempt - 1) as nat);
    if s < 3600 {
        s
    } else {
        3600
    }
}

/// The wait before retry `attempt` (counted from 1) after a server error.
pub fn calculate_backoff(attempt: u32) -> (d: DurationValue)
    requires
        1 <= attempt,
    ensures
        d@ == backoff_secs(attempt as nat) * 1_000_000_000,
{
    let mut seconds: u64 = 300;
    let mut k: u32 = 1;
    proof {
        assert(pow2(0) == 1) by {
            vstd::arithmetic::power2::lemma2_to64();
        }
    }
    while k < attempt && seconds < 3600
        invariant
            1 <= k <= attempt,
            seconds == 300 * pow2((k - 1) as nat),
            seconds <= 7200,
        decreases attempt - k,
    {
        proof {
            lemma_pow2_unfold(k as nat);
        }
        seconds = seconds * 2;
        k = k + 1;
    }
    proof {
        if k < attempt {
            lemma_pow2_strictly_increases((k - 1) as nat, (attempt - 1) as nat);
        }
    }
    if seconds > 3600 {
        seconds = 3600;
    }
    DurationValue::from_secs(seconds)
}


/// What one upload attempt came to.
#[derive(Debug)]
pub enum UploadOutcome {
    /// The uploader answered with these links.
    Uploaded(Vec<String>),
    /// The upload failed, with the HTTP status when there was one.
    Failed(Option<u16>),
}

/// What follows an upload attempt.
#[derive(Debug)]
pub enum UploadDecision {
    /// Keep these links; the upload is done.
    Record(Vec<String>),
    /// The upload went through but gave no link; it is done.
    NoUrls,
    /// Wait `wait`, then make retry `attempt`.
    Retry { attempt: u32, wait: DurationValue },
    /// Stop trying; `exhausted` when every allowed retry was spent.
    GiveUp { exhausted: bool },
}

/// Whether a failure with this status is retried after `retry_count` retries.
pub open spec fn retried(code: Option<u16>, retry_count: u32, max_retries: u32) -> bool {
    (code matches Some(c) && 500 <= c < 600) && retry_count < max_retries
}

/// Decides what follows an upload attempt made after `retry_count` retries: links
/// are kept; a server error (5xx) is retried with a growing wait until
/// `max_retries` retries were made; any other failure ends the upload.
pub fn next_upload_step(retry_count: u32, max_retries: u32, outcome: UploadOutcome) -> (d: UploadDecision)
    ensures
        match outcome {
            UploadOutcome::Uploaded(urls) => if urls@.len() > 0 {
                d matches UploadDecision::Record(u) && u@ == urls@
            } else {
                d is NoUrls
            },
            UploadOutcome::Failed(code) => if retried(code, retry_count, max_retries) {
                d matches UploadDecision::Retry { attempt, wait } && attempt == retry_count + 1
                    && wait@ == backoff_secs(attempt as nat) * 1_000_000_000
            } else {
                d matches UploadDecision::GiveUp { exhausted } && exhausted == (retry_count
                    >= max_retries)
            },
        },
{
    match outcome {
        UploadOutcome::Uploaded(urls) => {
            if urls.len() > 0 {
                UploadDecision::Record(urls)
            } else {
                UploadDecision::NoUrls
            }
        },
        UploadOutcome::Failed(code) => {
            if is_server_error(code) && retry_count < max_retries {
                let attempt = retry_count + 1;
                UploadDecision::Retry { attempt, wait: calculate_backoff(attempt) }
            } else {
                UploadDecision::GiveUp { exhausted: retry_count >= max_retries }
            }
        },
    }
}

/// The links gathered per uploader, by name.
pub open spec fn results_view(r: Seq<(String, Vec<String>)>) -> Seq<(Seq<char>, Seq<Seq<char>>)> {
    r.map_values(|p: (String, Vec<String>)| (p.0@, svec(p.1@)))
}

/// The position of the uploader named `name`, or -1.
pub open spec fn result_index(r: Seq<(Seq<char>, Seq<Seq<char>>)>, name: Seq<char>) -> int
    decreases r.len(),
{
    if r.len() == 0 {
        -1
    } else if r.last().0 == name && result_index(r.drop_last(), name) < 0 {
        r.len() - 1
    } else {
        result_index(r.drop_last(), name)
    }
}

pub proof fn lemma_result_index(r: Seq<(Seq<char>, Seq<Seq<char>>)>, name: Seq<char>)
    ensures
        -1 <= result_index(r, name) < r.len(),
        result_index(r, name) >= 0 ==> r[result_index(r, name)].0 == name,
        result_index(r, name) < 0 ==> forall|j: int| 0 <= j < r.len() ==> r[j].0 != name,
        result_index(r, name) >= 0 ==> forall|j: int|
            0 <= j < result_index(r, name) ==> r[j].0 != name,
    decreases r.len(),
{
    if r.len() > 0 {
        lemma_result_index(r.drop_last(), name);
        assert forall|j: int| 0 <= j < r.len() - 1 implies r.drop_last()[j] == r[j] by {}
    }
}

/// The gathered links once `urls` are added for `name`: appended to its entry, or
/// a new entry at the end.
pub open spec fn with_urls(
    r: Seq<(Seq<char>, Seq<Seq<char>>)>,
    name: Seq<char>,
    urls: Seq<Seq<char>>,
) -> Seq<(Seq<char>, Seq<Seq<char>>)> {
    let i = result_index(r, name);
    if i < 0 {
        r.push((name, urls))
    } else {
        r.update(i, (name, r[i].1 + urls))
    }
}

/// Adds an uploader's links to the gathered results.
pub fn record_urls(results: &mut Vec<(String, Vec<String>)>, name: &str, urls: Vec<String>)
    ensures
        results_view(final(results)@) == with_urls(results_view(old(results)@), name@, svec(urls@)),
{
    let ghost r = results_view(results@);
    proof {
        lemma_result_index(r, name@);
    }
    let mut i: usize = 0;
    while i < results.len()
        invariant
            i <= results@.len(),
            r == results_view(results@),
            r == results_view(old(results)@),
            forall|j: int| 0 <= j < i ==> r[j].0 != name@,
        decreases results@.len() - i,
    {
        if crate::strings::str_eq(results[i].0.as_str(), name) {
            proof {
                lemma_result_index(r, name@);
                assert(r[i as int].0 == name@);
                assert(result_index(r, name@) == i);
            }
            let mut entry = results.remove(i);
            let ghost old_list = svec(entry.1@);
            assert(old_list == r[i as int].1);
            crate::strings::push_all(&mut entry.1, &urls);
            results.insert(i, entry);
            assert(results_view(results@) =~= r.update(i as int, (name@, old_list + svec(urls@))));
            return;
        }
        i = i + 1;
    }
    proof {
        lemma_result_index(r, name@);
    }
    let ghost before = results_view(results@);
    results.push((name.to_owned(), urls));
    assert(results_view(results@) =~= before.push((name@, svec(urls@))));
}

/// The uploaders an `upload` command uses: all, when no names were asked for; else
/// those whose name matches an asked-for name, ignoring ASCII case.
pub open spec fn picked(name: Seq<char>, requested: Seq<Seq<char>>) -> bool {
    requested.len() == 0 || exists|j: int| 0 <= j < requested.len() && eq_ignore_case(name, #[trigger] requested[j])
}

/// Whether the uploader named `name` takes part in an `upload` command.
pub fn uploader_requested(name: &str, requested: &Vec<String>) -> (b: bool)
    ensures
        b == picked(name@, svec(requested@)),
{
    if requested.len() == 0 {
        return true;
    }
    let n = chars_of(name);
    let mut i: usize = 0;
    while i < requested.len()
        invariant
            i <= requested@.len(),
            n@ == name@,
            requested@.len() > 0,
            forall|j: int| 0 <= j < i ==> !eq_ignore_case(name@, #[trigger] svec(requested@)[j]),
        decreases requested@.len() - i,
    {
        if eq_ignore_case_exec(n.as_slice(), chars_of(requested[i].as_str()).as_slice()) {
            assert(eq_ignore_case(name@, svec(requested@)[i as int]));
            return true;
        }
        i = i + 1;
    }
    false
}

/// The error of an `upload` command that no uploader took part in.
pub fn no_uploader_error(requested: &Vec<String>) -> (s: String)
    ensures
        s@ == if requested@.len() == 0 {
            "No uploaders are configured"@
        } else {
            "No configured uploader matches: "@ + join(svec(requested@), ", "@)
        },
{
    if requested.len() == 0 {
        "No uploaders are configured".to_owned()
    } else {
        let names = join_strings(requested, ", ");
        concat2("No configured uploader matches: ", names.as_str())
    }
}

} // verus!
