use vstd::prelude::*;
use crate::text::{lower_seq, upper_seq};

verus! {

/// What `str::to_uppercase` makes of a string: the Unicode upper-case mapping of each
/// character, as the tables of the Unicode standard give it.
pub uninterp spec fn unicode_upper(s: Seq<char>) -> Seq<char>;

/// What `str::to_lowercase` makes of a string: the Unicode lower-case mapping of each
/// character (with the final-sigma rule), as the tables of the Unicode standard give it.
pub uninterp spec fn unicode_lower(s: Seq<char>) -> Seq<char>;

/// Whether `char::is_alphanumeric` holds: the character has the Unicode
/// `Alphabetic` property or is a Unicode number (`Nd`, `Nl` or `No`).
pub uninterp spec fn unicode_alphanumeric(c: char) -> bool;

/// Whether every character is ASCII.
pub open spec fn ascii_text(s: Seq<char>) -> bool {
    forall|i: int| 0 <= i < s.len() ==> (#[trigger] s[i] as u32) < 128
}

/// Calls `str::to_uppercase`; its result is named `unicode_upper`. On ASCII text the
/// Unicode mapping turns `a`-`z` into `A`-`Z` and keeps every other character.
#[verifier::external_body]
pub(crate) fn to_uppercase(s: &str) -> (r: String)
    ensures
        r@ == unicode_upper(s@),
        ascii_text(s@) ==> r@ == upper_seq(s@),
{
    s.to_uppercase()
}

/// Calls `str::to_lowercase`; its result is named `unicode_lower`. On ASCII text the
/// Unicode mapping turns `A`-`Z` into `a`-`z` and keeps every other character.
#[verifier::external_body]
pub(crate) fn to_lowercase(s: &str) -> (r: String)
    ensures
        r@ == unicode_lower(s@),
        ascii_text(s@) ==> r@ == lower_seq(s@),
{
    s.to_lowercase()
}

/// Calls `char::is_alphanumeric`; its result is named `unicode_alphanumeric`. Among
/// ASCII characters exactly the letters and digits are alphanumeric.
#[verifier::external_body]
pub(crate) fn is_alphanumeric(c: char) -> (b: bool)
    ensures
        b == unicode_alphanumeric(c),
        ('a' <= c <= 'z' || 'A' <= c <= 'Z' || '0' <= c <= '9') ==> b,
        (c as u32) < 128 && !('a' <= c <= 'z' || 'A' <= c <= 'Z' || '0' <= c <= '9') ==> !b,
{
    c.is_alphanumeric()
}

} // verus!
