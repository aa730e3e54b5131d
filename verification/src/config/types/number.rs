use vstd::prelude::*;
use crate::config::types::{is_none_word, is_none_word_exec, normalize_optional_value, parse_number};
use crate::strings::{concat3, u64_string};
use crate::text::{chars_of, dec, parse_u32, parse_u32_exec};

verus! {

/// A whole-number setting with a default; stored only when it differs from it.
pub struct U32;

/// A whole-number setting whose default may be absent.
pub struct OptionalU32;

/// What `U32::parse` gives for `input`: `none` clears the setting, the default is
/// stored as no value, anything else must be a `u32`.
pub open spec fn u32_parse(input: Seq<char>, default: u32) -> Result<Option<u32>, Seq<char>> {
    if is_none_word(input) {
        Ok(None)
    } else {
        match parse_u32(input) {
            Some(n) => Ok(if n == default { None } else { Some(n) }),
            None => Err("Invalid number"@),
        }
    }
}

/// What `OptionalU32::parse` gives for `input`.
pub open spec fn optional_u32_parse(input: Seq<char>, default: Option<u32>) -> Result<
    Option<u32>,
    Seq<char>,
> {
    if is_none_word(input) {
        Ok(None)
    } else {
        match parse_u32(input) {
            Some(n) => Ok(if Some(n) == default { None } else { Some(n) }),
            None => Err("expected u32, got '"@ + input + "'"@),
        }
    }
}

/// The text shown for an optional number: the value, else the default, else `none`.
pub open spec fn optional_u32_text(value: Option<u32>) -> Seq<char> {
    match value {
        Some(n) => dec(n as nat),
        None => "none"@,
    }
}

impl U32 {
    /// The effective value: the stored one, else the default.
    pub fn get(stored: &Option<u32>, default: &u32) -> (v: u32)
        ensures
            v == match *stored {
                Some(n) => n,
                None => *default,
            },
    {
        match stored {
            Some(n) => *n,
            None => *default,
        }
    }

    /// Parses a setting typed on the command line.
    pub fn parse(input: &str, default: &u32) -> (r: Result<Option<u32>, String>)
        ensures
            match u32_parse(input@, *default) {
                Ok(v) => r == Ok::<Option<u32>, String>(v),
                Err(e) => r matches Err(m) && m@ == e,
            },
    {
        if is_none_word_exec(input) {
            return Ok(None);
        }
        match parse_number(input) {
            Ok(n) => Ok(normalize_optional_value(Some(n), Some(*default))),
            Err(e) => Err(e),
        }
    }

    /// The text shown for the setting.
    pub fn format(stored: &Option<u32>, default: &u32) -> (s: String)
        ensures
            s@ == dec(
                match *stored {
                    Some(n) => n,
                    None => *default,
                } as nat,
            ),
    {
        u64_string(Self::get(stored, default) as u64)
    }

    /// The text shown for the default.
    pub fn format_default(default: &u32) -> (s: String)
        ensures
            s@ == dec(*default as nat),
    {
        Self::format(&Some(*default), default)
    }

    /// A number is not a list.
    pub fn is_array() -> (b: bool)
        ensures
            !b,
    {
        false
    }
}

impl OptionalU32 {
    /// The effective value: the stored one, else the default.
    pub fn get(stored: &Option<u32>, default: &Option<u32>) -> (v: Option<u32>)
        ensures
            v == match *stored {
                Some(n) => Some(n),
                None => *default,
            },
    {
        match stored {
            Some(n) => Some(*n),
            None => *default,
        }
    }

    /// Parses a setting typed on the command line.
    pub fn parse(input: &str, default: &Option<u32>) -> (r: Result<Option<u32>, String>)
        ensures
            match optional_u32_parse(input@, *default) {
                Ok(v) => r == Ok::<Option<u32>, String>(v),
                Err(e) => r matches Err(m) && m@ == e,
            },
    {
        if is_none_word_exec(input) {
            return Ok(None);
        }
        let c = chars_of(input);
        match parse_u32_exec(c.as_slice()) {
            Some(n) => Ok(normalize_optional_value(Some(n), *default)),
            None => Err(concat3("expected u32, got '", input, "'")),
        }
    }

    /// The text shown for the setting.
    pub fn format(stored: &Option<u32>, default: &Option<u32>) -> (s: String)
        ensures
            s@ == optional_u32_text(
                match *stored {
                    Some(n) => Some(n),
                    None => *default,
                },
            ),
    {
        match Self::get(stored, default) {
            Some(n) => u64_string(n as u64),
            None => "none".to_owned(),
        }
    }

    /// The text shown for the default.
    pub fn format_default(default: &Option<u32>) -> (s: String)
        ensures
            s@ == optional_u32_text(*default),
    {
        Self::format(default, default)
    }

    /// A number is not a list.
    pub fn is_array() -> (b: bool)
        ensures
            !b,
    {
        false
    }
}

} // verus!
