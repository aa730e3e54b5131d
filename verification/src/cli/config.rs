use vstd::prelude::*;
use crate::config::types::list::list_text;
use crate::config::{
    cleared, invalid_value, key_is_list, key_name, key_named, parse_setting, shown, unknown_key,
    Config, ConfigKey, Stored,
};
use crate::config::laws::lemma_key_name_round_trip;
use crate::strings::{concat2, concat3, join_strings, svec};
use crate::text::{
    chars_of, eq_lit, join, split_str, split_str_chars, string_from_chars, trim, trim_chars, views,
};

verus! {

/// The `config` subcommands.
#[derive(Clone, Debug)]
pub enum ConfigAction {
    /// Show one setting, or all of them.
    Get { key: Option<String> },
    /// Set a setting.
    SetValue { key: String, value: String },
    /// Add a value to a list setting.
    Add { key: String, value: String },
    /// Remove a value from a list setting.
    Remove { key: String, value: String },
    /// Reset a setting to its default.
    Reset { key: String },
    /// Show where the configuration file is.
    GetPath,
    /// Print the settings reference in Markdown.
    MarkDown,
}

/// What adding to or removing from a list setting did.
#[derive(Clone, Copy, Debug, PartialEq, Eq, Structural)]
pub enum ArrayUpdate {
    Added,
    AlreadyPresent,
    Removed,
    NotFound,
    Empty,
}

/// The items of a list as `get_value` shows it: none for `none`, else the
/// `, `-separated items, trimmed.
pub open spec fn array_items(shown_text: Seq<char>) -> Seq<Seq<char>> {
    if shown_text == "none"@ {
        Seq::empty()
    } else {
        split_str(shown_text, ", "@).map_values(|p: Seq<char>| trim(p))
    }
}

/// The text of a list of items: `none` when empty, else the items joined by `, `.
pub open spec fn array_text(items: Seq<Seq<char>>) -> Seq<char> {
    if items.len() == 0 {
        "none"@
    } else {
        join(items, ", "@)
    }
}

/// Whether `p` is the first place at which `v` stands in `items`.
pub open spec fn first_at(items: Seq<Seq<char>>, v: Seq<char>, p: int) -> bool {
    &&& 0 <= p < items.len()
    &&& items[p] == v
    &&& forall|j: int| 0 <= j < p ==> items[j] != v
}

/// The first place at which `v` stands in `items` (meaningful when it stands there).
pub open spec fn first_index(items: Seq<Seq<char>>, v: Seq<char>) -> int {
    choose|p: int| first_at(items, v, p)
}

/// Reads a list as `get_value` shows it.
pub fn parse_array_value(current: &str) -> (v: Vec<String>)
    ensures
        svec(v@) == array_items(current@),
{
    let c = chars_of(current);
    if eq_lit(c.as_slice(), "none") {
        return Vec::new();
    }
    proof {
        reveal_strlit(", ");
    }
    let pieces = split_str_chars(c.as_slice(), chars_of(", ").as_slice());
    let mut out: Vec<String> = Vec::new();
    let mut i: usize = 0;
    while i < pieces.len()
        invariant
            i <= pieces@.len(),
            views(pieces@) == split_str(current@, ", "@),
            svec(out@) == split_str(current@, ", "@).map_values(|p: Seq<char>| trim(p)).take(
                i as int,
            ),
        decreases pieces@.len() - i,
    {
        let t = trim_chars(pieces[i].as_slice());
        let piece = string_from_chars(t.as_slice());
        proof {
            assert(views(pieces@)[i as int] == pieces@[i as int]@);
            assert(svec(out@.push(piece)) == svec(out@).push(piece@));
        }
        out.push(piece);
        i = i + 1;
        assert(svec(out@) =~= split_str(current@, ", "@).map_values(|p: Seq<char>| trim(p)).take(
            i as int,
        ));
    }
    assert(split_str(current@, ", "@).map_values(|p: Seq<char>| trim(p)).take(i as int)
        =~= split_str(current@, ", "@).map_values(|p: Seq<char>| trim(p)));
    out
}

/// Writes a list as `set_value` reads it.
pub fn format_array_value(values: &Vec<String>) -> (s: String)
    ensures
        s@ == array_text(svec(values@)),
{
    if values.len() == 0 {
        "none".to_owned()
    } else {
        join_strings(values, ", ")
    }
}

impl Config {
    /// Adds `value` to the list setting `key` unless it already holds it; the new
    /// list is set as `set_value` would set its text.
    pub fn add_array_value(&mut self, key: &str, value: &str) -> (r: Result<ArrayUpdate, String>)
        ensures
            match key_named(key@) {
                None => r matches Err(m) && m@ == unknown_key(key@) && *final(self) == *old(self),
                Some(k) => if !key_is_list(k) {
                    r matches Err(m) && m@ == "Key '"@ + key@ + "' is not an array setting"@
                        && *final(self) == *old(self)
                } else if array_items(shown(k, old(self).stored(k))).contains(value@) {
                    r == Ok::<ArrayUpdate, String>(ArrayUpdate::AlreadyPresent) && *final(self)
                        == *old(self)
                } else {
                    match parse_setting(k, array_text(array_items(shown(k, old(self).stored(k))).push(value@))) {
                        Ok(s) => r == Ok::<ArrayUpdate, String>(ArrayUpdate::Added) && final(self).stored(k) == s
                            && forall|j: ConfigKey| j != k ==> #[trigger] final(self).stored(j) == old(self).stored(j),
                        Err(e) => r matches Err(m) && m@ == invalid_value(k, e) && *final(self) == *old(self),
                    }
                },
            },
    {
        let k = match ConfigKey::from_key(key) {
            Some(k) => k,
            None => return Err(concat2("Unknown key: ", key)),
        };
        if !k.is_array() {
            return Err(concat3("Key '", key, "' is not an array setting"));
        }
        let current = self.get_value(key);
        let mut items = parse_array_value(current.as_str());
        let ghost listed = array_items(shown(k, old(self).stored(k)));
        assert(svec(items@) == listed);
        let mut i: usize = 0;
        let wanted = chars_of(value);
        while i < items.len()
            invariant
                i <= items@.len(),
                wanted@ == value@,
                svec(items@) == listed,
                key_named(key@) == Some(k),
                key_is_list(k),
                *self == *old(self),
                listed == array_items(shown(k, old(self).stored(k))),
                forall|j: int| 0 <= j < i ==> svec(items@)[j] != value@,
            decreases items@.len() - i,
        {
            if crate::text::chars_eq(chars_of(items[i].as_str()).as_slice(), wanted.as_slice()) {
                assert(listed[i as int] == value@);
                assert(listed.contains(value@));
                return Ok(ArrayUpdate::AlreadyPresent);
            }
            i = i + 1;
        }
        assert(!listed.contains(value@));
        let ghost before = svec(items@);
        items.push(value.to_owned());
        assert(svec(items@) == before.push(value@));
        let new_value = format_array_value(&items);
        match self.set_value(key, new_value.as_str()) {
            Ok(()) => Ok(ArrayUpdate::Added),
            Err(e) => Err(e),
        }
    }

    /// Removes the first `value` from the list setting `key`; the new list is set
    /// as `set_value` would set its text. A list that shows `none` is left alone.
    pub fn remove_array_value(&mut self, key: &str, value: &str) -> (r: Result<ArrayUpdate, String>)
        ensures
            match key_named(key@) {
                None => r matches Err(m) && m@ == unknown_key(key@) && *final(self) == *old(self),
                Some(k) => if !key_is_list(k) {
                    r matches Err(m) && m@ == "Key '"@ + key@ + "' is not an array setting"@
                        && *final(self) == *old(self)
                } else if shown(k, old(self).stored(k)) == "none"@ {
                    r == Ok::<ArrayUpdate, String>(ArrayUpdate::Empty) && *final(self) == *old(self)
                } else if !array_items(shown(k, old(self).stored(k))).contains(value@) {
                    r == Ok::<ArrayUpdate, String>(ArrayUpdate::NotFound) && *final(self) == *old(self)
                } else {
                    match parse_setting(k, array_text(array_items(shown(k, old(self).stored(k))).remove(
                        first_index(array_items(shown(k, old(self).stored(k))), value@)))) {
                        Ok(s) => r == Ok::<ArrayUpdate, String>(ArrayUpdate::Removed) && final(self).stored(k) == s
                            && forall|j: ConfigKey| j != k ==> #[trigger] final(self).stored(j) == old(self).stored(j),
                        Err(e) => r matches Err(m) && m@ == invalid_value(k, e) && *final(self) == *old(self),
                    }
                },
            },
    {
        let k = match ConfigKey::from_key(key) {
            Some(k) => k,
            None => return Err(concat2("Unknown key: ", key)),
        };
        if !k.is_array() {
            return Err(concat3("Key '", key, "' is not an array setting"));
        }
        let current = self.get_value(key);
        if eq_lit(chars_of(current.as_str()).as_slice(), "none") {
            return Ok(ArrayUpdate::Empty);
        }
        let mut items = parse_array_value(current.as_str());
        let ghost listed = array_items(shown(k, old(self).stored(k)));
        assert(svec(items@) == listed);
        let mut i: usize = 0;
        let wanted = chars_of(value);
        while i < items.len()
            invariant
                i <= items@.len(),
                wanted@ == value@,
                svec(items@) == listed,
                forall|j: int| 0 <= j < i ==> listed[j] != value@,
            ensures
                i <= items@.len(),
                svec(items@) == listed,
                forall|j: int| 0 <= j < i ==> listed[j] != value@,
                i < items@.len() ==> listed[i as int] == value@,
            decreases items@.len() - i,
        {
            if crate::text::chars_eq(chars_of(items[i].as_str()).as_slice(), wanted.as_slice()) {
                break;
            }
            i = i + 1;
        }
        if i == items.len() {
            assert(!listed.contains(value@));
            return Ok(ArrayUpdate::NotFound);
        }
        proof {
            assert(first_at(listed, value@, i as int));
            let p = first_index(listed, value@);
            assert(first_at(listed, value@, p));
            if p < i {
                assert(listed[p] != value@);
            }
            if p > i {
                assert(listed[i as int] != value@);
            }
            assert(p == i);
        }
        let ghost before = svec(items@);
        items.remove(i);
        assert(svec(items@) =~= before.remove(i as int));
        let new_value = format_array_value(&items);
        match self.set_value(key, new_value.as_str()) {
            Ok(()) => Ok(ArrayUpdate::Removed),
            Err(e) => Err(e),
        }
    }
}

} // verus!
