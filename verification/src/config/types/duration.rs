use vstd::prelude::*;
use crate::config::types::{is_none_word, is_none_word_exec, normalize_optional_value};
use crate::strings::concat4;
use crate::types::duration::{display, parse_duration, parse_duration_input, DurationValue};

verus! {

/// A duration setting with a default; stored only when it differs from it.
pub struct Duration;

/// A duration setting whose default may be absent.
pub struct OptionalDuration;

/// The error for a duration text that does not parse.
pub open spec fn duration_error(input: Seq<char>, why: Seq<char>) -> Seq<char> {
    "Invalid duration '"@ + input + "': "@ + why
}

/// What `Duration::parse_cli` stores for `input`, in nanoseconds.
pub open spec fn duration_parse(input: Seq<char>, default: nat) -> Result<Option<nat>, Seq<char>> {
    if is_none_word(input) {
        Ok(None)
    } else {
        match parse_duration(input) {
            Ok(n) => Ok(if n == default { None } else { Some(n) }),
            Err(why) => Err(duration_error(input, why)),
        }
    }
}

/// What `OptionalDuration::parse_cli` stores for `input`, in nanoseconds.
pub open spec fn optional_duration_parse(input: Seq<char>, default: Option<nat>) -> Result<
    Option<nat>,
    Seq<char>,
> {
    if is_none_word(input) {
        Ok(None)
    } else {
        match parse_duration(input) {
            Ok(n) => Ok(if Some(n) == default { None } else { Some(n) }),
            Err(why) => Err(duration_error(input, why)),
        }
    }
}

/// The nanoseconds of an optional duration.
pub open spec fn opt_nanos(o: Option<DurationValue>) -> Option<nat> {
    match o {
        Some(d) => Some(d@),
        None => None,
    }
}

/// The text shown for an optional duration: the duration, else `none`.
pub open spec fn optional_duration_text(value: Option<nat>) -> Seq<char> {
    match value {
        Some(n) => display(n),
        None => "none"@,
    }
}

fn parse_duration_cli(input: &str) -> (r: Result<DurationValue, String>)
    ensures
        match parse_duration(input@) {
            Ok(n) => r matches Ok(d) && d@ == n,
            Err(why) => r matches Err(m) && m@ == duration_error(input@, why),
        },
{
    match parse_duration_input(input) {
        Ok(d) => Ok(d),
        Err(e) => Err(concat4("Invalid duration '", input, "': ", e.as_str())),
    }
}

impl Duration {
    /// The effective duration: the stored one, else the default.
    pub fn get(stored: &Option<DurationValue>, default: &DurationValue) -> (v: DurationValue)
        ensures
            v@ == match opt_nanos(*stored) {
                Some(n) => n,
                None => default@,
            },
    {
        match stored {
            Some(d) => *d,
            None => *default,
        }
    }

    /// Parses a duration typed on the command line, such as `30s` or `1h 30m`.
    pub fn parse_cli(input: &str, default: &DurationValue) -> (r: Result<
        Option<DurationValue>,
        String,
    >)
        ensures
            match duration_parse(input@, default@) {
                Ok(v) => r matches Ok(o) && opt_nanos(o) == v,
                Err(e) => r matches Err(m) && m@ == e,
            },
    {
        if is_none_word_exec(input) {
            return Ok(None);
        }
        match parse_duration_cli(input) {
            Ok(d) => Ok(normalize_optional_value(Some(d), Some(*default))),
            Err(e) => Err(e),
        }
    }

    /// The text shown for the setting.
    pub fn format_cli(stored: &Option<DurationValue>, default: &DurationValue) -> (s: String)
        ensures
            s@ == display(
                match opt_nanos(*stored) {
                    Some(n) => n,
                    None => default@,
                },
            ),
    {
        Self::get(stored, default).to_display_string()
    }

    /// The text shown for the default.
    pub fn format_default(default: &DurationValue) -> (s: String)
        ensures
            s@ == display(default@),
    {
        default.to_display_string()
    }

    /// A duration is not a list.
    pub fn is_array() -> (b: bool)
        ensures
            !b,
    {
        false
    }
}

impl OptionalDuration {
    /// The effective duration: the stored one, else the default, if any.
    pub fn get(stored: &Option<DurationValue>, default: &Option<DurationValue>) -> (v: Option<
        DurationValue,
    >)
        ensures
            opt_nanos(v) == match opt_nanos(*stored) {
                Some(n) => Some(n),
                None => opt_nanos(*default),
            },
    {
        match stored {
            Some(d) => Some(*d),
            None => *default,
        }
    }

    /// Parses a duration typed on the command line; `none` clears it.
    pub fn parse_cli(input: &str, default: &Option<DurationValue>) -> (r: Result<
        Option<DurationValue>,
        String,
    >)
        ensures
            match optional_duration_parse(input@, opt_nanos(*default)) {
                Ok(v) => r matches Ok(o) && opt_nanos(o) == v,
                Err(e) => r matches Err(m) && m@ == e,
            },
    {
        if is_none_word_exec(input) {
            return Ok(None);
        }
        match parse_duration_cli(input) {
            Ok(d) => Ok(normalize_optional_value(Some(d), *default)),
            Err(e) => Err(e),
        }
    }

    /// The text shown for the setting.
    pub fn format_cli(stored: &Option<DurationValue>, default: &Option<DurationValue>) -> (s:
        String)
        ensures
            s@ == optional_duration_text(
                match opt_nanos(*stored) {
                    Some(n) => Some(n),
                    None => opt_nanos(*default),
                },
            ),
    {
        match Self::get(stored, default) {
            Some(d) => d.to_display_string(),
            None => "none".to_owned(),
        }
    }

    /// The text shown for the default.
    pub fn format_default(default: &Option<DurationValue>) -> (s: String)
        ensures
            s@ == optional_duration_text(opt_nanos(*default)),
    {
        match default {
            Some(d) => d.to_display_string(),
            None => "none".to_owned(),
        }
    }

    /// A duration is not a list.
    pub fn is_array() -> (b: bool)
        ensures
            !b,
    {
        false
    }
}

} // verus!
