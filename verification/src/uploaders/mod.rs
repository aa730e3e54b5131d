use vstd::prelude::*;

pub mod cookies;
pub mod error;
pub mod fileditch;
pub mod filester;
pub mod gofile;
pub mod http;
pub mod jpg6;

use crate::strings::svec;
use crate::unicode::{to_lowercase, unicode_lower};

verus! {

/// Options that uploaders may use; each uses the ones it needs.
#[derive(Clone, Debug)]
pub struct UploaderConfig {
    /// Authentication token.
    pub token: Option<String>,
    /// Folder to upload into.
    pub folder_id: Option<String>,
    /// Server to upload to.
    pub server: Option<String>,
}

impl Default for UploaderConfig {
    fn default() -> (c: Self)
        ensures
            c.token is None && c.folder_id is None && c.server is None,
    {
        UploaderConfig { token: None, folder_id: None, server: None }
    }
}

/// The kind of files an uploader takes.
#[derive(Clone, Copy, Debug, PartialEq, Eq, Structural)]
pub enum UploaderKind {
    Video,
    Image,
}

/// Which kinds of uploaders to use.
#[derive(Clone, Copy, Debug, PartialEq, Eq, Structural)]
pub enum UploaderKindFilter {
    All,
    Video,
    Image,
}

/// Whether the filter lets uploaders of `kind` through.
pub open spec fn filter_allows(f: UploaderKindFilter, kind: UploaderKind) -> bool {
    match f {
        UploaderKindFilter::All => true,
        UploaderKindFilter::Video => kind == UploaderKind::Video,
        UploaderKindFilter::Image => kind == UploaderKind::Image,
    }
}

impl UploaderKindFilter {
    /// Whether uploaders of `kind` pass the filter.
    pub fn matches(self, kind: UploaderKind) -> (b: bool)
        ensures
            b == filter_allows(self, kind),
    {
        match self {
            UploaderKindFilter::All => true,
            UploaderKindFilter::Video => kind == UploaderKind::Video,
            UploaderKindFilter::Image => kind == UploaderKind::Image,
        }
    }
}

/// Whether an uploader takes part: not disabled (names compared in lower case),
/// ready, and of a kind the filter lets through.
pub open spec fn uploader_used(
    name: Seq<char>,
    kind: UploaderKind,
    ready: bool,
    disabled: Seq<Seq<char>>,
    filter: UploaderKindFilter,
) -> bool {
    &&& !exists|j: int| 0 <= j < disabled.len() && unicode_lower(#[trigger] disabled[j]) == unicode_lower(name)
    &&& ready
    &&& filter_allows(filter, kind)
}

/// Decides whether an uploader takes part, given the configured disabled
/// uploaders, whether it is ready, and the kind filter.
pub fn uploader_selected(
    name: &str,
    kind: UploaderKind,
    ready: bool,
    disabled: &Vec<String>,
    filter: UploaderKindFilter,
) -> (b: bool)
    ensures
        b == uploader_used(name@, kind, ready, svec(disabled@), filter),
{
    let lower = to_lowercase(name);
    let mut i: usize = 0;
    while i < disabled.len()
        invariant
            i <= disabled@.len(),
            lower@ == unicode_lower(name@),
            forall|j: int| 0 <= j < i ==> unicode_lower(#[trigger] svec(disabled@)[j]) != unicode_lower(name@),
        decreases disabled@.len() - i,
    {
        let d = to_lowercase(disabled[i].as_str());
        if crate::strings::str_eq(d.as_str(), lower.as_str()) {
            assert(unicode_lower(svec(disabled@)[i as int]) == unicode_lower(name@));
            return false;
        }
        i = i + 1;
    }
    ready && filter.matches(kind)
}

} // verus!
