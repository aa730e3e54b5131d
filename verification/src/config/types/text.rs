use vstd::prelude::*;
use crate::config::types::{is_none_word, normalize_text_value, opt_text, parse_optional_text};

verus! {

/// A text setting with a default; stored only when it differs from it.
pub struct Text;

/// A text setting whose default may be absent.
pub struct OptionalText;

/// What `Text::parse` stores for `input`: nothing for `none` or for the default text.
pub open spec fn text_parse(input: Seq<char>, default: Seq<char>) -> Option<Seq<char>> {
    if is_none_word(input) || input == default {
        None
    } else {
        Some(input)
    }
}

/// What `OptionalText::parse` stores for `input`: nothing for `none` or for the
/// default text.
pub open spec fn optional_text_parse(input: Seq<char>, default: Option<Seq<char>>) -> Option<
    Seq<char>,
> {
    if is_none_word(input) || Some(input) == default {
        None
    } else {
        Some(input)
    }
}

/// The text shown for an optional text setting: the value, else `none`.
pub open spec fn optional_text_shown(value: Option<Seq<char>>) -> Seq<char> {
    match value {
        Some(t) => t,
        None => "none"@,
    }
}

/// The text of an optional borrowed string.
pub open spec fn opt_str(o: Option<&str>) -> Option<Seq<char>> {
    match o {
        Some(s) => Some(s@),
        None => None,
    }
}

impl Text {
    /// The effective value: the stored text, else the default.
    pub fn get(stored: &Option<String>, default: &String) -> (v: String)
        ensures
            v@ == match opt_text(*stored) {
                Some(t) => t,
                None => default@,
            },
    {
        match stored {
            Some(s) => s.clone(),
            None => default.clone(),
        }
    }

    /// Parses a setting typed on the command line; it never fails.
    pub fn parse(input: &str, default: &String) -> (r: Result<Option<String>, String>)
        ensures
            r matches Ok(v) && opt_text(v) == text_parse(input@, default@),
    {
        Ok(normalize_text_value(parse_optional_text(input), default.as_str()))
    }

    /// The text shown for the setting.
    pub fn format(stored: &Option<String>, default: &String) -> (s: String)
        ensures
            s@ == match opt_text(*stored) {
                Some(t) => t,
                None => default@,
            },
    {
        Self::get(stored, default)
    }

    /// The text shown for the default.
    pub fn format_default(default: &String) -> (s: String)
        ensures
            s@ == default@,
    {
        default.clone()
    }

    /// A text is not a list.
    pub fn is_array() -> (b: bool)
        ensures
            !b,
    {
        false
    }
}

impl OptionalText {
    /// The effective value: the stored text, else the default, if any.
    pub fn get<'a>(stored: &'a Option<String>, default: &'a Option<String>) -> (v: Option<&'a str>)
        ensures
            opt_str(v) == match opt_text(*stored) {
                Some(t) => Some(t),
                None => opt_text(*default),
            },
    {
        match stored {
            Some(s) => Some(s.as_str()),
            None => match default {
                Some(d) => Some(d.as_str()),
                None => None,
            },
        }
    }

    /// Parses a setting typed on the command line; it never fails.
    pub fn parse(input: &str, default: &Option<String>) -> (r: Result<Option<String>, String>)
        ensures
            r matches Ok(v) && opt_text(v) == optional_text_parse(input@, opt_text(*default)),
    {
        let parsed = parse_optional_text(input);
        match default {
            Some(d) => Ok(normalize_text_value(parsed, d.as_str())),
            None => Ok(parsed),
        }
    }

    /// The text shown for the setting.
    pub fn format(stored: &Option<String>, default: &Option<String>) -> (s: String)
        ensures
            s@ == optional_text_shown(
                match opt_text(*stored) {
                    Some(t) => Some(t),
                    None => opt_text(*default),
                },
            ),
    {
        match Self::get(stored, default) {
            Some(t) => t.to_owned(),
            None => "none".to_owned(),
        }
    }

    /// The text shown for the default.
    pub fn format_default(default: &Option<String>) -> (s: String)
        ensures
            s@ == optional_text_shown(opt_text(*default)),
    {
        Self::format(default, default)
    }

    /// A text is not a list.
    pub fn is_array() -> (b: bool)
        ensures
            !b,
    {
        false
    }
}

} // verus!
