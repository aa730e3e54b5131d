use vstd::prelude::*;

verus! {

/// Why `regex::Regex::new` refuses `pattern`, as the text of its error, or `None`
/// when the pattern compiles.
pub uninterp spec fn regex_compile_error(pattern: Seq<char>) -> Option<Seq<char>>;

/// What `Regex::replace_all(text, NoExpand(replacement))` makes of `text` for a
/// compiling `pattern`: every non-overlapping match replaced by `replacement`
/// taken literally.
pub uninterp spec fn regex_replace(pattern: Seq<char>, text: Seq<char>, replacement: Seq<char>) -> Seq<char>;

/// Why `semver::VersionReq::parse` refuses `req`, as the text of its error, or
/// `None` when it parses.
pub uninterp spec fn semver_req_error(req: Seq<char>) -> Option<Seq<char>>;

/// Whether the requirement `req` (which parses) matches version
/// `major.minor.patch`, as `semver::VersionReq::matches` decides it.
pub uninterp spec fn semver_req_matches(req: Seq<char>, major: u64, minor: u64, patch: u64) -> bool;

/// Compiles `pattern` with `regex::Regex::new` and gives the text of its error, if
/// any; the result is named `regex_compile_error`.
#[verifier::external_body]
pub(crate) fn regex_error(pattern: &str) -> (r: Option<String>)
    ensures
        match r {
            Some(e) => regex_compile_error(pattern@) == Some(e@),
            None => regex_compile_error(pattern@) is None,
        },
{
    match regex::Regex::new(pattern) {
        Ok(_) => None,
        Err(e) => Some(e.to_string()),
    }
}

/// Replaces every match of `pattern` in `text` by `replacement`, taken literally,
/// with `regex::Regex::replace_all`; the result is named `regex_replace`. The
/// pattern must compile, as `Regex::new(..).unwrap()` would otherwise panic.
#[verifier::external_body]
pub(crate) fn regex_replace_all(pattern: &str, text: &str, replacement: &str) -> (r: String)
    requires
        regex_compile_error(pattern@) is None,
    ensures
        r@ == regex_replace(pattern@, text@, replacement@),
{
    let re = regex::Regex::new(pattern).unwrap();
    re.replace_all(text, regex::NoExpand(replacement)).to_string()
}

/// Parses `req` with `semver::VersionReq::parse` and, when it parses, tells whether
/// it matches the version built by `semver::Version::new(major, minor, patch)`; the
/// results are named `semver_req_error` and `semver_req_matches`.
#[verifier::external_body]
pub(crate) fn version_req_allows(req: &str, major: u64, minor: u64, patch: u64) -> (r: Result<
    bool,
    String,
>)
    ensures
        match r {
            Ok(b) => semver_req_error(req@) is None && b == semver_req_matches(
                req@,
                major,
                minor,
                patch,
            ),
            Err(e) => semver_req_error(req@) == Some(e@),
        },
{
    match semver::VersionReq::parse(req) {
        Ok(parsed) => Ok(parsed.matches(&semver::Version::new(major, minor, patch))),
        Err(e) => Err(e.to_string()),
    }
}

} // verus!
