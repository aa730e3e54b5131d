use vstd::prelude::*;
use crate::config::types::{csv_items, is_none_word, normalize_list_value, opt_list, parse_csv_list};
use crate::strings::{join_strings, svec};
use crate::text::join;

verus! {

/// A comma-separated list setting; stored only when it differs from the default.
pub struct StringList;

/// What `StringList::parse_cli` stores for `input`: nothing for `none` or for the
/// default list, else the trimmed items.
pub open spec fn list_parse(input: Seq<char>, default: Seq<Seq<char>>) -> Option<Seq<Seq<char>>> {
    if is_none_word(input) || csv_items(input) == default {
        None
    } else {
        Some(csv_items(input))
    }
}

/// The text shown for a list: its items joined by `, `, or `none` when empty.
pub open spec fn list_text(items: Seq<Seq<char>>) -> Seq<char> {
    if items.len() == 0 {
        "none"@
    } else {
        join(items, ", "@)
    }
}

impl StringList {
    /// The effective list: the stored one, else the default.
    pub fn get(stored: &Option<Vec<String>>, default: &Vec<String>) -> (v: Vec<String>)
        ensures
            svec(v@) == match opt_list(*stored) {
                Some(items) => items,
                None => svec(default@),
            },
    {
        match stored {
            Some(values) => values.clone(),
            None => default.clone(),
        }
    }

    /// Parses a list typed on the command line; it never fails.
    pub fn parse_cli(input: &str, default: &Vec<String>) -> (r: Result<Option<Vec<String>>, String>)
        ensures
            r matches Ok(v) && opt_list(v) == list_parse(input@, svec(default@)),
    {
        Ok(normalize_list_value(parse_csv_list(input), default.as_slice()))
    }

    /// The text shown for the setting.
    pub fn format_cli(stored: &Option<Vec<String>>, default: &Vec<String>) -> (s: String)
        ensures
            s@ == list_text(
                match opt_list(*stored) {
                    Some(items) => items,
                    None => svec(default@),
                },
            ),
    {
        let values = match stored {
            Some(v) => v,
            None => default,
        };
        if values.len() == 0 {
            "none".to_owned()
        } else {
            join_strings(values, ", ")
        }
    }

    /// The text shown for the default.
    pub fn format_default(default: &Vec<String>) -> (s: String)
        ensures
            s@ == list_text(svec(default@)),
    {
        if default.len() == 0 {
            "none".to_owned()
        } else {
            join_strings(default, ", ")
        }
    }

    /// A list is shown one item per line.
    pub fn is_array() -> (b: bool)
        ensures
            b,
    {
        true
    }
}

} // verus!
