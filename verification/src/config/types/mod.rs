use vstd::prelude::*;
use vstd::std_specs::cmp::PartialEqSpec;
use crate::strings::svec;
use crate::text::{
    chars_of, eq_ignore_case, eq_ignore_case_exec, parse_u32, parse_u32_exec, split, split_chars,
    string_from_chars, trim, trim_chars, views,
};

pub mod duration;
pub mod file_size;
pub mod list;
pub mod number;
pub mod text;

verus! {

/// A check that a setting's stored value must pass besides being parsed.
pub trait ConfigValidator<T> {
    /// `Ok` when the value is acceptable, else why it is not.
    fn validate(value: &T) -> Result<(), String>;
}

/// The check that accepts every value.
pub struct NoValidation;

impl<T> ConfigValidator<T> for NoValidation {
    fn validate(value: &T) -> (r: Result<(), String>)
        ensures
            r is Ok,
    {
        Ok(())
    }
}

/// Whether `s` is the word `none` in any ASCII case, which clears a setting.
pub open spec fn is_none_word(s: Seq<char>) -> bool {
    eq_ignore_case(s, "none"@)
}

/// The text of an optional string.
pub open spec fn opt_text(o: Option<String>) -> Option<Seq<char>> {
    match o {
        Some(s) => Some(s@),
        None => None,
    }
}

/// The texts of an optional list of strings.
pub open spec fn opt_list(o: Option<Vec<String>>) -> Option<Seq<Seq<char>>> {
    match o {
        Some(v) => Some(svec(v@)),
        None => None,
    }
}

/// The items of a comma-separated list, each without surrounding whitespace.
pub open spec fn csv_items(s: Seq<char>) -> Seq<Seq<char>> {
    split(s, ',').map_values(|p: Seq<char>| trim(p))
}

pub fn is_none_word_exec(input: &str) -> (r: bool)
    ensures
        r == is_none_word(input@),
{
    let c = chars_of(input);
    let n = chars_of("none");
    eq_ignore_case_exec(c.as_slice(), n.as_slice())
}

/// Parses a string value, `none` (in any case) meaning no value.
pub fn parse_optional_text(input: &str) -> (r: Option<String>)
    ensures
        opt_text(r) == if is_none_word(input@) {
            None
        } else {
            Some(input@)
        },
{
    if is_none_word_exec(input) {
        None
    } else {
        Some(input.to_owned())
    }
}

/// Parses an optional value: `none` (in any case) clears it, anything else goes to
/// `parse_value`.
pub fn parse_optional_value<T, F>(input: &str, parse_value: F) -> (r: Result<Option<T>, String>) where
    F: FnOnce(&str) -> Result<T, String>,

    requires
        !is_none_word(input@) ==> call_requires(parse_value, (input,)),
    ensures
        is_none_word(input@) ==> r == Ok::<Option<T>, String>(None),
        !is_none_word(input@) ==> exists|p: Result<T, String>|
            call_ensures(parse_value, (input,), p) && r == match p {
                Ok(v) => Ok::<Option<T>, String>(Some(v)),
                Err(e) => Err::<Option<T>, String>(e),
            },
{
    if is_none_word_exec(input) {
        Ok(None)
    } else {
        let p = parse_value(input);
        match p {
            Ok(v) => Ok(Some(v)),
            Err(e) => Err(e),
        }
    }
}

/// `None` when the parsed value equals the default, else the parsed value.
pub fn normalize_optional_value<T: PartialEq>(parsed: Option<T>, default: Option<T>) -> (r: Option<T>)
    ensures
        <T as PartialEqSpec>::obeys_eq_spec() ==> r == if parsed.eq_spec(&default) {
            None
        } else {
            parsed
        },
{
    if parsed == default {
        None
    } else {
        parsed
    }
}

/// `None` when the parsed text equals the default text, else the parsed text.
pub fn normalize_text_value(parsed: Option<String>, default: &str) -> (r: Option<String>)
    ensures
        opt_text(r) == match opt_text(parsed) {
            Some(t) => if t == default@ {
                None
            } else {
                Some(t)
            },
            None => None,
        },
{
    match parsed {
        Some(value) => {
            let a = chars_of(value.as_str());
            let b = chars_of(default);
            if crate::text::chars_eq(a.as_slice(), b.as_slice()) {
                None
            } else {
                Some(value)
            }
        },
        None => None,
    }
}

/// Whether two string lists hold the same texts in the same order.
pub fn lists_equal(a: &[String], b: &[String]) -> (r: bool)
    ensures
        r == (svec(a@) == svec(b@)),
{
    if a.len() != b.len() {
        assert(svec(a@).len() != svec(b@).len());
        return false;
    }
    let mut i: usize = 0;
    while i < a.len()
        invariant
            i <= a@.len(),
            a@.len() == b@.len(),
            forall|j: int| 0 <= j < i ==> a@[j]@ == b@[j]@,
        decreases a@.len() - i,
    {
        if a[i] != b[i] {
            assert(svec(a@)[i as int] != svec(b@)[i as int]);
            return false;
        }
        i = i + 1;
    }
    assert(svec(a@) =~= svec(b@));
    true
}

/// `None` when the parsed list equals the default list, else the parsed list.
pub fn normalize_list_value(parsed: Option<Vec<String>>, default: &[String]) -> (r: Option<
    Vec<String>,
>)
    ensures
        opt_list(r) == match opt_list(parsed) {
            Some(items) => if items == svec(default@) {
                None
            } else {
                Some(items)
            },
            None => None,
        },
{
    match parsed {
        Some(values) => {
            if lists_equal(values.as_slice(), default) {
                None
            } else {
                Some(values)
            }
        },
        None => None,
    }
}

/// Parses a whole number as `str::parse::<u32>` does.
pub fn parse_number(input: &str) -> (r: Result<u32, String>)
    ensures
        match parse_u32(input@) {
            Some(n) => r == Ok::<u32, String>(n),
            None => r matches Err(e) && e@ == "Invalid number"@,
        },
{
    let c = chars_of(input);
    match parse_u32_exec(c.as_slice()) {
        Some(n) => Ok(n),
        None => Err("Invalid number".to_owned()),
    }
}

/// Parses a comma-separated list: `none` (in any case) means no list, else the
/// items with surrounding whitespace dropped.
pub fn parse_csv_list(input: &str) -> (r: Option<Vec<String>>)
    ensures
        opt_list(r) == if is_none_word(input@) {
            None
        } else {
            Some(csv_items(input@))
        },
{
    if is_none_word_exec(input) {
        return None;
    }
    let c = chars_of(input);
    let pieces = split_chars(c.as_slice(), ',');
    let mut out: Vec<String> = Vec::new();
    let mut i: usize = 0;
    while i < pieces.len()
        invariant
            i <= pieces@.len(),
            views(pieces@) == split(input@, ','),
            svec(out@) == csv_items(input@).take(i as int),
        decreases pieces@.len() - i,
    {
        let t = trim_chars(pieces[i].as_slice());
        let s = string_from_chars(t.as_slice());
        proof {
            assert(views(pieces@)[i as int] == pieces@[i as int]@);
            assert(svec(out@.push(s)) == svec(out@).push(s@));
            assert(csv_items(input@).take(i + 1) == csv_items(input@).take(i as int).push(
                csv_items(input@)[i as int],
            ));
        }
        out.push(s);
        i = i + 1;
    }
    assert(csv_items(input@).take(i as int) == csv_items(input@));
    Some(out)
}

} // verus!
