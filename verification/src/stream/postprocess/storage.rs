use vstd::prelude::*;
use crate::paths::{file_name_of, file_stem_of, parent_of, path_file_name, path_file_stem, path_parent};
use crate::strings::{concat2, svec};
use crate::types::duration::{max_nanos, DurationValue};

verus! {

/// A recording found in the output directory.
#[derive(Clone, Debug)]
pub struct RecordingFile {
    /// The file's path.
    pub path: String,
    /// When it was last modified, in nanoseconds from the Unix epoch (negative
    /// before it).
    pub modified: i128,
    /// The user it belongs to: its first directory under the output directory.
    pub user_key: String,
}

/// Nanoseconds in a day.
pub open spec fn nanos_per_day() -> nat {
    86_400_000_000_000
}

/// The earliest time a system clock reading can hold, in nanoseconds from the
/// Unix epoch (`i64::MIN` seconds).
pub open spec fn earliest_time() -> int {
    -9_223_372_036_854_775_808_000_000_000
}

/// The time before which recordings are too old: `max_age_days` days before
/// `now`, or the epoch when that lies before the earliest time a clock can hold.
pub open spec fn age_cutoff(now: i128, max_age_days: u32) -> int {
    if now - max_age_days * nanos_per_day() >= earliest_time() {
        now - max_age_days * nanos_per_day()
    } else {
        0
    }
}

/// The paths of the files modified before `cutoff`, in order.
pub open spec fn older_paths(files: Seq<RecordingFile>, cutoff: int) -> Seq<Seq<char>>
    decreases files.len(),
{
    if files.len() == 0 {
        Seq::empty()
    } else {
        older_paths(files.drop_last(), cutoff) + if files.last().modified < cutoff {
            seq![files.last().path@]
        } else {
            Seq::<Seq<char>>::empty()
        }
    }
}

/// The recordings older than `max_age_days` days at time `now`.
pub fn retention_age_candidates(files: &[RecordingFile], max_age_days: u32, now: i128) -> (r: Vec<String>)
    ensures
        svec(r@) == older_paths(files@, age_cutoff(now, max_age_days)),
{
    let limit: i128 = (max_age_days as i128) * 86_400_000_000_000;
    let earliest: i128 = -9_223_372_036_854_775_808_000_000_000;
    let cutoff: i128 = if now >= earliest + limit {
        now - limit
    } else {
        0
    };
    let mut out: Vec<String> = Vec::new();
    let mut i: usize = 0;
    while i < files.len()
        invariant
            i <= files@.len(),
            cutoff == age_cutoff(now, max_age_days),
            svec(out@) == older_paths(files@.take(i as int), cutoff as int),
        decreases files@.len() - i,
    {
        proof {
            assert(files@.take(i + 1).drop_last() == files@.take(i as int));
            assert(files@.take(i + 1).last() == files@[i as int]);
        }
        if files[i].modified < cutoff {
            let ghost before = svec(out@);
            out.push(files[i].path.clone());
            assert(svec(out@) =~= before + seq![files@[i as int].path@]);
        } else {
            assert(svec(out@) =~= svec(out@) + Seq::<Seq<char>>::empty());
        }
        i = i + 1;
    }
    assert(files@.take(i as int) == files@);
    out
}

/// The time before which recordings are older than `age` nanoseconds at `now`,
/// or the epoch when that lies before the earliest time a clock can hold.
pub open spec fn cutoff_before(now: i128, age: nat) -> int {
    if now - age >= earliest_time() {
        now - age
    } else {
        0
    }
}

/// The recordings older than `max_age` at time `now`.
pub fn retention_age_candidates_for(files: &[RecordingFile], max_age: &DurationValue, now: i128) -> (r:
    Vec<String>)
    ensures
        svec(r@) == older_paths(files@, cutoff_before(now, max_age@)),
{
    let age = max_age.as_nanos();
    assert(max_nanos() < 0x7fff_ffff_ffff_ffff_ffff_ffff_ffff_ffff);
    let limit: i128 = age as i128;
    let earliest: i128 = -9_223_372_036_854_775_808_000_000_000;
    let cutoff: i128 = if now >= earliest + limit {
        now - limit
    } else {
        0
    };
    let mut out: Vec<String> = Vec::new();
    let mut i: usize = 0;
    while i < files.len()
        invariant
            i <= files@.len(),
            cutoff == cutoff_before(now, max_age@),
            svec(out@) == older_paths(files@.take(i as int), cutoff as int),
        decreases files@.len() - i,
    {
        proof {
            assert(files@.take(i + 1).drop_last() == files@.take(i as int));
            assert(files@.take(i + 1).last() == files@[i as int]);
        }
        if files[i].modified < cutoff {
            let ghost before = svec(out@);
            out.push(files[i].path.clone());
            assert(svec(out@) =~= before + seq![files@[i as int].path@]);
        } else {
            assert(svec(out@) =~= svec(out@) + Seq::<Seq<char>>::empty());
        }
        i = i + 1;
    }
    assert(files@.take(i as int) == files@);
    out
}

/// What `Path::strip_prefix` leaves of the path text `p` below `base`: the rest
/// of the path, or none when `p` is not under `base`.
pub uninterp spec fn path_below(p: Seq<char>, base: Seq<char>) -> Option<Seq<char>>;

/// The first component of the path text `p` (as `Path::components` gives it), if
/// it has one.
pub uninterp spec fn path_first_component(p: Seq<char>) -> Option<Seq<char>>;

/// Calls `Path::strip_prefix`; the result is named `path_below`.
#[verifier::external_body]
fn strip_prefix_of(p: &str, base: &str) -> (r: Option<String>)
    ensures
        crate::config::types::opt_text(r) == path_below(p@, base@),
{
    std::path::Path::new(p).strip_prefix(base).ok().map(|rest| rest.to_string_lossy().to_string())
}

/// Calls `Path::components` and takes the first; the result is named
/// `path_first_component`.
#[verifier::external_body]
fn first_component_of(p: &str) -> (r: Option<String>)
    ensures
        crate::config::types::opt_text(r) == path_first_component(p@),
{
    std::path::Path::new(p).components().next().map(|c| c.as_os_str().to_string_lossy().to_string())
}

/// The user a recording belongs to: the first directory below the output
/// directory; else the name of the directory holding it; else `__root__`.
pub open spec fn user_key_of(output_dir: Seq<char>, path: Seq<char>) -> Seq<char> {
    match (match path_below(path, output_dir) {
        Some(rest) => path_first_component(rest),
        None => None,
    }) {
        Some(k) => k,
        None => match (match path_parent(path) {
            Some(dir) => path_file_name(dir),
            None => None,
        }) {
            Some(n) => n,
            None => "__root__"@,
        },
    }
}

/// Finds the user a recording in `output_dir` belongs to.
pub fn recording_user_key(output_dir: &str, recording_path: &str) -> (k: String)
    ensures
        k@ == user_key_of(output_dir@, recording_path@),
{
    let first = match strip_prefix_of(recording_path, output_dir) {
        Some(rest) => first_component_of(rest.as_str()),
        None => None,
    };
    match first {
        Some(k) => k,
        None => {
            let name = match parent_of(recording_path) {
                Some(dir) => file_name_of(dir.as_str()),
                None => None,
            };
            match name {
                Some(n) => n,
                None => "__root__".to_owned(),
            }
        },
    }
}

/// What `Path::with_file_name` gives for the path text `p` and the file name
/// `name`: the path with its last component replaced.
pub uninterp spec fn path_with_file_name(p: Seq<char>, name: Seq<char>) -> Seq<char>;

/// Calls `Path::with_file_name`; the result is named `path_with_file_name`.
#[verifier::external_body]
fn with_file_name_of(p: &str, name: &str) -> (r: String)
    ensures
        r@ == path_with_file_name(p@, name@),
{
    std::path::Path::new(p).with_file_name(name).to_string_lossy().to_string()
}

/// The thumbnail beside a recording: its stem with `_thumb.jpg`, in its directory;
/// none when the path has no file name.
pub fn recording_thumbnail_path(recording_path: &str) -> (r: Option<String>)
    ensures
        match path_file_stem(recording_path@) {
            Some(stem) => r matches Some(t) && t@ == path_with_file_name(recording_path@, stem + "_thumb.jpg"@),
            None => r is None,
        },
{
    match file_stem_of(recording_path) {
        Some(stem) => {
            let name = concat2(stem.as_str(), "_thumb.jpg");
            Some(with_file_name_of(recording_path, name.as_str()))
        },
        None => None,
    }
}

/// Whether file `j` sorts before file `i` among the files of their user: it is
/// newer, or as new and listed earlier.
pub open spec fn ahead(files: Seq<RecordingFile>, j: int, i: int) -> bool {
    &&& files[j].user_key@ == files[i].user_key@
    &&& (files[j].modified > files[i].modified || (files[j].modified == files[i].modified && j < i))
}

/// How many of the first `n` files sort before file `i` among its user's files.
pub open spec fn rank_among(files: Seq<RecordingFile>, i: int, n: int) -> nat
    decreases n,
{
    if n <= 0 {
        0
    } else {
        rank_among(files, i, n - 1) + if ahead(files, n - 1, i) {
            1nat
        } else {
            0nat
        }
    }
}

/// The position of file `i` among its user's files, newest first.
pub open spec fn rank(files: Seq<RecordingFile>, i: int) -> nat {
    rank_among(files, i, files.len() as int)
}

/// The paths, in order, of the first `n` files that are among the `keep` newest of
/// their user.
pub open spec fn kept_paths(files: Seq<RecordingFile>, keep: nat, n: int) -> Seq<Seq<char>>
    decreases n,
{
    if n <= 0 {
        Seq::empty()
    } else {
        kept_paths(files, keep, n - 1) + if rank(files, n - 1) < keep {
            seq![files[n - 1].path@]
        } else {
            Seq::<Seq<char>>::empty()
        }
    }
}

/// The recordings kept when each user keeps only the `keep_latest_per_user` newest
/// (ties keep the order of `files`).
pub fn retention_keep_latest_per_user(files: &[RecordingFile], keep_latest_per_user: u32) -> (r:
    Vec<String>)
    ensures
        svec(r@) == kept_paths(files@, keep_latest_per_user as nat, files@.len() as int),
{
    let n = files.len();
    let mut out: Vec<String> = Vec::new();
    let mut i: usize = 0;
    while i < n
        invariant
            n == files@.len(),
            i <= n,
            svec(out@) == kept_paths(files@, keep_latest_per_user as nat, i as int),
        decreases n - i,
    {
        let mut count: usize = 0;
        let mut j: usize = 0;
        while j < n
            invariant
                n == files@.len(),
                i < n,
                j <= n,
                count == rank_among(files@, i as int, j as int),
                count <= j,
            decreases n - j,
        {
            let same = files[j].user_key == files[i].user_key;
            if same && (files[j].modified > files[i].modified || (files[j].modified
                == files[i].modified && j < i)) {
                count = count + 1;
            }
            j = j + 1;
        }
        let ghost before = svec(out@);
        if (count as u64) < (keep_latest_per_user as u64) {
            out.push(files[i].path.clone());
            assert(svec(out@) =~= before + seq![files@[i as int].path@]);
        } else {
            assert(svec(out@) =~= before + Seq::<Seq<char>>::empty());
        }
        i = i + 1;
    }
    out
}

proof fn lemma_rank_among_below(files: Seq<RecordingFile>, j: int, i: int, n: int)
    requires
        0 <= j < files.len(),
        0 <= i < files.len(),
        ahead(files, j, i),
        n <= files.len(),
    ensures
        rank_among(files, j, n) + (if 0 <= j < n {
            1nat
        } else {
            0nat
        }) <= rank_among(files, i, n),
    decreases n,
{
    if n > 0 {
        lemma_rank_among_below(files, j, i, n - 1);
        let k = n - 1;
        if ahead(files, k, j) {
            assert(ahead(files, k, i));
        }
        if k == j {
            assert(!ahead(files, j, j));
        }
    }
}

/// Per-user retention keeps the newest recordings: when a recording is kept, every
/// recording of the same user that sorts before it (newer, or as new and listed
/// earlier) is kept too.
pub proof fn lemma_newer_recordings_are_kept(files: Seq<RecordingFile>, keep: nat, i: int, j: int)
    requires
        0 <= i < files.len(),
        0 <= j < files.len(),
        rank(files, i) < keep,
        ahead(files, j, i),
    ensures
        rank(files, j) < keep,
{
    lemma_rank_among_below(files, j, i, files.len() as int);
}

/// Age-based retention marks every recording modified before the cutoff, and
/// only such recordings' paths.
pub proof fn lemma_old_recordings_are_marked(files: Seq<RecordingFile>, cutoff: int, i: int)
    requires
        0 <= i < files.len(),
    ensures
        files[i].modified < cutoff ==> older_paths(files, cutoff).contains(files[i].path@),
        forall|p: Seq<char>|
            older_paths(files, cutoff).contains(p) ==> exists|k: int|
                0 <= k < files.len() && files[k].modified < cutoff && #[trigger] files[k].path@ == p,
    decreases files.len(),
{
    let rest = files.drop_last();
    let last = files.last();
    let tail = if last.modified < cutoff {
        seq![last.path@]
    } else {
        Seq::<Seq<char>>::empty()
    };
    assert(older_paths(files, cutoff) == older_paths(rest, cutoff) + tail);
    if i < files.len() - 1 {
        lemma_old_recordings_are_marked(rest, cutoff, i);
        assert(rest[i] == files[i]);
        if files[i].modified < cutoff {
            let k = choose|k: int| 0 <= k < older_paths(rest, cutoff).len() && older_paths(rest, cutoff)[k] == files[i].path@;
            assert(older_paths(files, cutoff)[k] == files[i].path@);
        }
    } else {
        if last.modified < cutoff {
            assert(older_paths(files, cutoff)[older_paths(rest, cutoff).len() as int] == last.path@);
        }
    }
    if files.len() > 1 {
        lemma_old_recordings_are_marked(rest, cutoff, 0);
    }
    assert forall|p: Seq<char>| older_paths(files, cutoff).contains(p) implies exists|k: int|
        0 <= k < files.len() && files[k].modified < cutoff && #[trigger] files[k].path@ == p by {
        let m = choose|m: int| 0 <= m < older_paths(files, cutoff).len() && older_paths(files, cutoff)[m] == p;
        if m < older_paths(rest, cutoff).len() {
            assert(older_paths(rest, cutoff).contains(p));
            let k = choose|k: int| 0 <= k < rest.len() && rest[k].modified < cutoff && #[trigger] rest[k].path@ == p;
            assert(files[k] == rest[k]);
        } else {
            assert(files[files.len() - 1].path@ == p);
        }
    }
}

/// The paths, in order, of the files that retention deletes: those older than the
/// maximum age (when set) and those beyond the newest `keep` of their user (when
/// set).
pub open spec fn doomed_paths(
    files: Seq<RecordingFile>,
    older: Option<Seq<Seq<char>>>,
    kept: Option<Seq<Seq<char>>>,
    n: int,
) -> Seq<Seq<char>>
    decreases n,
{
    if n <= 0 {
        Seq::empty()
    } else {
        let p = files[n - 1].path@;
        let doomed = (older matches Some(o) && o.contains(p)) || (kept matches Some(k) && !k.contains(p));
        doomed_paths(files, older, kept, n - 1) + if doomed {
            seq![p]
        } else {
            Seq::<Seq<char>>::empty()
        }
    }
}

/// The texts of an optional list of strings.
pub open spec fn opt_svec(o: Option<Vec<String>>) -> Option<Seq<Seq<char>>> {
    match o {
        Some(v) => Some(svec(v@)),
        None => None,
    }
}

/// The recordings that retention deletes, in the order of `files` (oldest first
/// when `files` is sorted by age): older than `max_age` at `now`, or beyond the
/// `keep_latest_per_user` newest of their user.
pub fn retention_plan(
    files: &[RecordingFile],
    max_age: Option<DurationValue>,
    keep_latest_per_user: Option<u32>,
    now: i128,
) -> (r: Vec<String>)
    ensures
        svec(r@) == doomed_paths(
            files@,
            match max_age {
                Some(a) => Some(older_paths(files@, cutoff_before(now, a@))),
                None => None,
            },
            match keep_latest_per_user {
                Some(k) => Some(kept_paths(files@, k as nat, files@.len() as int)),
                None => None,
            },
            files@.len() as int,
        ),
{
    let older: Option<Vec<String>> = match max_age {
        Some(a) => Some(retention_age_candidates_for(files, &a, now)),
        None => None,
    };
    let kept: Option<Vec<String>> = match keep_latest_per_user {
        Some(k) => Some(retention_keep_latest_per_user(files, k)),
        None => None,
    };
    let ghost o = opt_svec(older);
    let ghost k = opt_svec(kept);
    let mut out: Vec<String> = Vec::new();
    let mut i: usize = 0;
    while i < files.len()
        invariant
            i <= files@.len(),
            o == opt_svec(older),
            k == opt_svec(kept),
            svec(out@) == doomed_paths(files@, o, k, i as int),
        decreases files@.len() - i,
    {
        let p = files[i].path.as_str();
        let by_age = match &older {
            Some(v) => crate::strings::contains_string(v, p),
            None => false,
        };
        let by_count = match &kept {
            Some(v) => !crate::strings::contains_string(v, p),
            None => false,
        };
        if by_age || by_count {
            let ghost before = svec(out@);
            out.push(files[i].path.clone());
            assert(svec(out@) =~= before + seq![files@[i as int].path@]);
        } else {
            assert(svec(out@) =~= svec(out@) + Seq::<Seq<char>>::empty());
        }
        i = i + 1;
    }
    out
}

/// Whether `i` is the first recording in `files` not among `attempted`.
pub open spec fn first_unattempted(files: Seq<RecordingFile>, attempted: Seq<Seq<char>>, i: int) -> bool {
    &&& 0 <= i < files.len()
    &&& !attempted.contains(files[i].path@)
    &&& forall|j: int| 0 <= j < i ==> attempted.contains(#[trigger] files[j].path@)
}

/// Picks the next recording to delete for space: none once `available` bytes reach
/// `min_free`; else the first of `files` (oldest first) whose deletion was not
/// attempted yet, if any.
pub fn next_space_cleanup(
    files: &[RecordingFile],
    attempted: &Vec<String>,
    available: u64,
    min_free: u64,
) -> (r: Option<usize>)
    ensures
        available >= min_free ==> r is None,
        available < min_free ==> match r {
            Some(i) => first_unattempted(files@, svec(attempted@), i as int),
            None => forall|j: int| 0 <= j < files@.len() ==> svec(attempted@).contains(#[trigger] files@[j].path@),
        },
{
    if available >= min_free {
        return None;
    }
    let mut i: usize = 0;
    while i < files.len()
        invariant
            i <= files@.len(),
            available < min_free,
            forall|j: int| 0 <= j < i ==> svec(attempted@).contains(#[trigger] files@[j].path@),
        decreases files@.len() - i,
    {
        if !crate::strings::contains_string(attempted, files[i].path.as_str()) {
            return Some(i);
        }
        i = i + 1;
    }
    None
}

} // verus!
