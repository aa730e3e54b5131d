use vstd::prelude::*;
use crate::config::types::{is_none_word, is_none_word_exec, normalize_optional_value};
use crate::strings::concat4;
use crate::types::file_size::{parse_file_size, parse_size, size_text, FileSize as FileSizeValue};

verus! {

/// A size setting with a default, typed as `20GB` or `500MB`; stored only when it
/// differs from the default.
pub struct FileSize;

/// The error for a size text that does not parse.
pub open spec fn size_error(input: Seq<char>, why: Seq<char>) -> Seq<char> {
    "Invalid file size '"@ + input + "': "@ + why
}

/// What `FileSize::parse_cli` stores for `input`, in bytes.
pub open spec fn size_parse(input: Seq<char>, default: u64) -> Result<Option<u64>, Seq<char>> {
    if is_none_word(input) {
        Ok(None)
    } else {
        match parse_size(input) {
            Ok(n) => Ok(if n == default { None } else { Some(n) }),
            Err(why) => Err(size_error(input, why)),
        }
    }
}

/// The bytes of an optional size.
pub open spec fn opt_bytes(o: Option<FileSizeValue>) -> Option<u64> {
    match o {
        Some(f) => Some(f.0),
        None => None,
    }
}

fn parse_file_size_value(input: &str) -> (r: Result<FileSizeValue, String>)
    ensures
        match parse_size(input@) {
            Ok(n) => r matches Ok(f) && f.0 == n,
            Err(why) => r matches Err(m) && m@ == size_error(input@, why),
        },
{
    match parse_file_size(input) {
        Ok(f) => Ok(f),
        Err(e) => Err(concat4("Invalid file size '", input, "': ", e.as_str())),
    }
}

impl FileSize {
    /// The effective size: the stored one, else the default.
    pub fn get(stored: &Option<FileSizeValue>, default: &FileSizeValue) -> (v: FileSizeValue)
        ensures
            v.0 == match opt_bytes(*stored) {
                Some(n) => n,
                None => default.0,
            },
    {
        match stored {
            Some(f) => *f,
            None => *default,
        }
    }

    /// Parses a size typed on the command line, such as `5MiB`.
    pub fn parse_cli(input: &str, default: &FileSizeValue) -> (r: Result<
        Option<FileSizeValue>,
        String,
    >)
        ensures
            match size_parse(input@, default.0) {
                Ok(v) => r matches Ok(o) && opt_bytes(o) == v,
                Err(e) => r matches Err(m) && m@ == e,
            },
    {
        if is_none_word_exec(input) {
            return Ok(None);
        }
        match parse_file_size_value(input) {
            Ok(f) => Ok(normalize_optional_value(Some(f), Some(*default))),
            Err(e) => Err(e),
        }
    }

    /// The text shown for the setting.
    pub fn format_cli(stored: &Option<FileSizeValue>, default: &FileSizeValue) -> (s: String)
        ensures
            s@ == size_text(
                match opt_bytes(*stored) {
                    Some(n) => n,
                    None => default.0,
                } as nat,
            ),
    {
        Self::get(stored, default).to_display_string()
    }

    /// The text shown for the default.
    pub fn format_default(default: &FileSizeValue) -> (s: String)
        ensures
            s@ == size_text(default.0 as nat),
    {
        default.to_display_string()
    }

    /// A size is not a list.
    pub fn is_array() -> (b: bool)
        ensures
            !b,
    {
        false
    }
}

} // verus!
