use vstd::prelude::*;
use crate::config::types::opt_text;

verus! {

/// What `std::path::Path::file_name` gives for the path text `p`: its last
/// component, unless that is `..` or the path has none.
pub uninterp spec fn path_file_name(p: Seq<char>) -> Option<Seq<char>>;

/// What `std::path::Path::extension` gives for the path text `p`: the part of the
/// file name after its last `.`, when there is one that does not start it.
pub uninterp spec fn path_extension(p: Seq<char>) -> Option<Seq<char>>;

/// Calls `Path::file_name` on the path `p`; the result is named `path_file_name`.
#[verifier::external_body]
pub(crate) fn file_name_of(p: &str) -> (r: Option<String>)
    ensures
        opt_text(r) == path_file_name(p@),
{
    std::path::Path::new(p).file_name().map(|name| name.to_string_lossy().to_string())
}

/// Calls `Path::extension` on the path `p`; the result is named `path_extension`.
#[verifier::external_body]
pub(crate) fn extension_of(p: &str) -> (r: Option<String>)
    ensures
        opt_text(r) == path_extension(p@),
{
    std::path::Path::new(p).extension().map(|ext| ext.to_string_lossy().to_string())
}

/// What `std::path::Path::parent` gives for the path text `p`: the path without its
/// last component (empty for a lone relative component), or none for a root or
/// an empty path.
pub uninterp spec fn path_parent(p: Seq<char>) -> Option<Seq<char>>;

/// What `std::path::Path::file_stem` gives for the path text `p`: the file name
/// without its extension.
pub uninterp spec fn path_file_stem(p: Seq<char>) -> Option<Seq<char>>;

/// Calls `Path::parent` on the path `p`; the result is named `path_parent`.
#[verifier::external_body]
pub(crate) fn parent_of(p: &str) -> (r: Option<String>)
    ensures
        opt_text(r) == path_parent(p@),
{
    std::path::Path::new(p).parent().map(|dir| dir.to_string_lossy().to_string())
}

/// Calls `Path::file_stem` on the path `p`; the result is named `path_file_stem`.
#[verifier::external_body]
pub(crate) fn file_stem_of(p: &str) -> (r: Option<String>)
    ensures
        opt_text(r) == path_file_stem(p@),
{
    std::path::Path::new(p).file_stem().map(|stem| stem.to_string_lossy().to_string())
}

/// What `std::path::Path::with_extension` gives for the path text `p` and the
/// extension `ext`: the path with its file name's extension replaced (or added).
pub uninterp spec fn path_with_extension(p: Seq<char>, ext: Seq<char>) -> Seq<char>;

/// Calls `Path::with_extension`; the result is named `path_with_extension`. The
/// method panics on an extension that holds a path separator (`/`, and a backslash
/// where it separates paths), so such an extension is left out.
#[verifier::external_body]
pub(crate) fn with_extension(p: &str, ext: &str) -> (r: String)
    requires
        !ext@.contains('/'),
        !ext@.contains('\\'),
    ensures
        r@ == path_with_extension(p@, ext@),
{
    std::path::Path::new(p).with_extension(ext).to_string_lossy().to_string()
}

} // verus!
