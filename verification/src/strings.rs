use vstd::prelude::*;
use crate::text::{chars_of, string_from_chars, u64_to_dec};

verus! {

/// The views of a vector of strings.
pub open spec fn svec(v: Seq<String>) -> Seq<Seq<char>> {
    v.map_values(|s: String| s@)
}

/// An owned copy of `s`.
pub fn own(s: &str) -> (r: String)
    ensures
        r@ == s@,
{
    s.to_owned()
}

/// Appends a copy of `s`.
pub fn push_str(v: &mut Vec<String>, s: &str)
    ensures
        svec(final(v)@) == svec(old(v)@).push(s@),
{
    let ghost before = svec(v@);
    v.push(s.to_owned());
    assert(svec(v@) == before.push(s@));
}

/// Appends every string of `w`.
pub fn push_all(v: &mut Vec<String>, w: &Vec<String>)
    ensures
        svec(final(v)@) == svec(old(v)@) + svec(w@),
{
    let mut i: usize = 0;
    while i < w.len()
        invariant
            i <= w@.len(),
            svec(v@) == svec(old(v)@) + svec(w@.subrange(0, i as int)),
        decreases w@.len() - i,
    {
        let ghost before = svec(v@);
        v.push(w[i].clone());
        i = i + 1;
        assert(svec(w@.subrange(0, i as int)) == svec(w@.subrange(0, i - 1)).push(w@[i - 1]@));
        assert(svec(v@) == before.push(w@[i - 1]@));
    }
    assert(w@.subrange(0, i as int) == w@);
}

/// A vector holding copies of the given strings.
pub fn strings(items: &[&str]) -> (v: Vec<String>)
    ensures
        svec(v@) == items@.map_values(|s: &str| s@),
{
    let mut v: Vec<String> = Vec::new();
    let mut i: usize = 0;
    while i < items.len()
        invariant
            i <= items@.len(),
            svec(v@) == items@.subrange(0, i as int).map_values(|s: &str| s@),
        decreases items@.len() - i,
    {
        let ghost before = svec(v@);
        v.push(items[i].to_owned());
        i = i + 1;
        assert(items@.subrange(0, i as int).map_values(|s: &str| s@) == items@.subrange(
            0,
            i - 1,
        ).map_values(|s: &str| s@).push(items@[i - 1]@));
        assert(svec(v@) == before.push(items@[i - 1]@));
    }
    assert(items@.subrange(0, i as int) == items@);
    v
}

/// The decimal text of `n` as a `String`.
pub fn u64_string(n: u64) -> (s: String)
    ensures
        s@ == crate::text::dec(n as nat),
{
    let v = u64_to_dec(n);
    string_from_chars(v.as_slice())
}

/// The concatenation of `a` and `b`.
pub fn concat2(a: &str, b: &str) -> (s: String)
    ensures
        s@ == a@ + b@,
{
    let mut v = chars_of(a);
    crate::text::extend_chars(&mut v, chars_of(b).as_slice());
    string_from_chars(v.as_slice())
}

/// The concatenation of `a`, `b` and `c`.
pub fn concat3(a: &str, b: &str, c: &str) -> (s: String)
    ensures
        s@ == a@ + b@ + c@,
{
    let mut v = chars_of(a);
    crate::text::extend_chars(&mut v, chars_of(b).as_slice());
    crate::text::extend_chars(&mut v, chars_of(c).as_slice());
    string_from_chars(v.as_slice())
}

/// The concatenation of `a`, `b`, `c` and `d`.
pub fn concat4(a: &str, b: &str, c: &str, d: &str) -> (s: String)
    ensures
        s@ == a@ + b@ + c@ + d@,
{
    let abc = concat3(a, b, c);
    concat2(abc.as_str(), d)
}

/// The concatenation of `a`, `b`, `c`, `d` and `e`.
pub fn concat5(a: &str, b: &str, c: &str, d: &str, e: &str) -> (s: String)
    ensures
        s@ == a@ + b@ + c@ + d@ + e@,
{
    let abc = concat3(a, b, c);
    concat3(abc.as_str(), d, e)
}

/// The texts of `v` joined with `sep` between them.
pub fn join_strings(v: &Vec<String>, sep: &str) -> (s: String)
    ensures
        s@ == crate::text::join(svec(v@), sep@),
{
    let mut pieces: Vec<Vec<char>> = Vec::new();
    let mut i: usize = 0;
    while i < v.len()
        invariant
            i <= v@.len(),
            crate::text::views(pieces@) == svec(v@).take(i as int),
        decreases v@.len() - i,
    {
        let p = chars_of(v[i].as_str());
        proof {
            assert(crate::text::views(pieces@.push(p)) == crate::text::views(pieces@).push(p@));
            assert(svec(v@).take(i + 1) == svec(v@).take(i as int).push(v@[i as int]@));
        }
        pieces.push(p);
        i = i + 1;
    }
    assert(svec(v@).take(i as int) == svec(v@));
    let joined = crate::text::join_chars(&pieces, chars_of(sep).as_slice());
    string_from_chars(joined.as_slice())
}


/// Whether two strings hold the same characters.
pub fn str_eq(a: &str, b: &str) -> (r: bool)
    ensures
        r == (a@ == b@),
{
    crate::text::chars_eq(chars_of(a).as_slice(), chars_of(b).as_slice())
}

/// Whether `v` holds the string `s`.
pub fn contains_string(v: &Vec<String>, s: &str) -> (r: bool)
    ensures
        r == svec(v@).contains(s@),
{
    let mut i: usize = 0;
    while i < v.len()
        invariant
            i <= v@.len(),
            forall|j: int| 0 <= j < i ==> svec(v@)[j] != s@,
        decreases v@.len() - i,
    {
        if str_eq(v[i].as_str(), s) {
            assert(svec(v@)[i as int] == s@);
            return true;
        }
        i = i + 1;
    }
    false
}

} // verus!
