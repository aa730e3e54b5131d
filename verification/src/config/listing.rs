use vstd::prelude::*;
use crate::config::naming::title_case;
use crate::config::{
    all_categories, category_keys, category_name, default_text, description, key_is_list, key_name,
    shown, Config, ConfigCategory, ConfigKey,
};
use crate::text::{chars_of, eq_ignore_case, eq_ignore_case_exec};
use crate::unicode::{to_lowercase, unicode_lower};

verus! {

/// One line of the settings listing.
#[derive(Clone, Debug)]
pub struct SettingRow {
    pub key: String,
    /// The description, when descriptions are shown.
    pub description: Option<String>,
    /// The value as set (the default's text when unset).
    pub current: String,
    /// The default's text.
    pub default: String,
    /// Whether the value differs from the default (shown highlighted).
    pub changed: bool,
    /// Whether the setting is a list (long values wrap onto new lines).
    pub is_list: bool,
}

/// A group of lines of the settings listing, under its category's heading unless
/// the listing is narrowed to one key.
#[derive(Clone, Debug)]
pub struct SettingsSection {
    pub title: Option<String>,
    pub rows: Vec<SettingRow>,
}

/// Whether the listing, narrowed to `filter` (in lower case) when given, shows `k`:
/// its name equals the filter ignoring ASCII case.
pub open spec fn key_selected(k: ConfigKey, filter: Option<Seq<char>>) -> bool {
    match filter {
        Some(f) => eq_ignore_case(key_name(k), f),
        None => true,
    }
}

/// The settings among `keys` that the listing shows, in order.
pub open spec fn selected(keys: Seq<ConfigKey>, filter: Option<Seq<char>>) -> Seq<ConfigKey>
    decreases keys.len(),
{
    if keys.len() == 0 {
        Seq::empty()
    } else if key_selected(keys.last(), filter) {
        selected(keys.drop_last(), filter).push(keys.last())
    } else {
        selected(keys.drop_last(), filter)
    }
}

/// The groups of the listing: for each category with a shown setting, its heading
/// (none when narrowed) and its shown settings.
pub open spec fn listing(cats: Seq<ConfigCategory>, filter: Option<Seq<char>>, narrowed: bool) -> Seq<
    (Option<Seq<char>>, Seq<ConfigKey>),
>
    decreases cats.len(),
{
    if cats.len() == 0 {
        Seq::empty()
    } else {
        let rest = listing(cats.drop_last(), filter, narrowed);
        let keys = selected(category_keys(cats.last()), filter);
        if keys.len() == 0 {
            rest
        } else {
            rest.push(
                (
                    if narrowed {
                        None
                    } else {
                        Some(title_case(category_name(cats.last())))
                    },
                    keys,
                ),
            )
        }
    }
}

/// Whether `r` is the listing line of setting `k` of `c`.
pub open spec fn row_of(c: Config, k: ConfigKey, show_desc: bool, r: SettingRow) -> bool {
    &&& r.key@ == key_name(k)
    &&& r.description matches Some(d) ==> show_desc && d@ == description(k)
    &&& r.description is None ==> !show_desc
    &&& r.current@ == shown(k, c.stored(k))
    &&& r.default@ == default_text(k)
    &&& r.changed == (shown(k, c.stored(k)) != default_text(k))
    &&& r.is_list == key_is_list(k)
}

/// The filter of a listing, in lower case.
pub open spec fn lowered(filter: Option<Seq<char>>) -> Option<Seq<char>> {
    match filter {
        Some(f) => Some(unicode_lower(f)),
        None => None,
    }
}

/// The characters of an optional text.
pub open spec fn chars_opt(o: Option<Vec<char>>) -> Option<Seq<char>> {
    match o {
        Some(v) => Some(v@),
        None => None,
    }
}

impl Config {
    fn setting_row(&self, k: ConfigKey, show_desc: bool) -> (r: SettingRow)
        ensures
            row_of(*self, k, show_desc, r),
    {
        let current = self.show_key(k);
        let default = self.get_default_string(k);
        let changed = !crate::strings::str_eq(current.as_str(), default.as_str());
        let description = if show_desc {
            Some(Self::describe_key(k))
        } else {
            None
        };
        SettingRow {
            key: k.as_str().to_owned(),
            description,
            current,
            default,
            changed,
            is_list: k.is_array(),
        }
    }

    fn selected_rows(&self, c: ConfigCategory, filter: &Option<Vec<char>>, show_desc: bool) -> (rows: Vec<SettingRow>)
        ensures
            rows@.len() == selected(category_keys(c), chars_opt(*filter)).len(),
            forall|j: int| 0 <= j < rows@.len() ==> row_of(
                *self,
                selected(category_keys(c), chars_opt(*filter))[j],
                show_desc,
                #[trigger] rows@[j],
            ),
    {
        let ghost f = chars_opt(*filter);
        let keys = c.keys();
        let mut rows: Vec<SettingRow> = Vec::new();
        let mut i: usize = 0;
        while i < keys.len()
            invariant
                i <= keys@.len(),
                keys@ == category_keys(c),
                f == chars_opt(*filter),
                rows@.len() == selected(keys@.take(i as int), f).len(),
                forall|j: int| 0 <= j < rows@.len() ==> row_of(*self, selected(keys@.take(i as int), f)[j], show_desc, #[trigger] rows@[j]),
            decreases keys@.len() - i,
        {
            let k = keys[i];
            assert(keys@.take(i + 1).drop_last() =~= keys@.take(i as int));
            assert(keys@.take(i + 1).last() == k);
            let take = match filter {
                Some(fv) => eq_ignore_case_exec(chars_of(k.as_str()).as_slice(), fv.as_slice()),
                None => true,
            };
            if take {
                let row = self.setting_row(k, show_desc);
                rows.push(row);
            }
            i = i + 1;
        }
        assert(keys@.take(i as int) =~= keys@);
        rows
    }

    /// The settings listing, by category: every setting, or only the one named by
    /// `filter` (any case) when it is given and not empty, then without headings;
    /// descriptions when `show_desc`.
    pub fn filtered_settings(&self, filter: Option<&str>, show_desc: bool) -> (v: Vec<SettingsSection>)
        ensures
            ({
                let f = lowered(match filter {
                    Some(t) => Some(t@),
                    None => None,
                });
                let narrowed = f matches Some(t) && t.len() > 0;
                let want = listing(all_categories(), f, narrowed);
                &&& v@.len() == want.len()
                &&& forall|i: int| 0 <= i < v@.len() ==> {
                    &&& match (#[trigger] v@[i]).title {
                        Some(t) => want[i].0 == Some(t@),
                        None => want[i].0 is None,
                    }
                    &&& v@[i].rows@.len() == want[i].1.len()
                    &&& forall|j: int| 0 <= j < v@[i].rows@.len() ==> row_of(*self, want[i].1[j], show_desc, #[trigger] v@[i].rows@[j])
                }
            }),
    {
        let lower: Option<Vec<char>> = match filter {
            Some(t) => Some(chars_of(to_lowercase(t).as_str())),
            None => None,
        };
        let ghost f = lowered(match filter {
            Some(t) => Some(t@),
            None => None,
        });
        assert(f == chars_opt(lower));
        let narrowed = match &lower {
            Some(l) => l.len() > 0,
            None => false,
        };
        let cats = ConfigCategory::all();
        let mut out: Vec<SettingsSection> = Vec::new();
        let mut i: usize = 0;
        while i < cats.len()
            invariant
                i <= cats@.len(),
                cats@ == all_categories(),
                f == chars_opt(lower),
                narrowed == (f matches Some(t) && t.len() > 0),
                out@.len() == listing(cats@.take(i as int), f, narrowed).len(),
                forall|m: int| 0 <= m < out@.len() ==> {
                    let want = listing(cats@.take(i as int), f, narrowed);
                    &&& match (#[trigger] out@[m]).title {
                        Some(t) => want[m].0 == Some(t@),
                        None => want[m].0 is None,
                    }
                    &&& out@[m].rows@.len() == want[m].1.len()
                    &&& forall|j: int| 0 <= j < out@[m].rows@.len() ==> row_of(*self, want[m].1[j], show_desc, #[trigger] out@[m].rows@[j])
                },
            decreases cats@.len() - i,
        {
            let c = cats[i];
            assert(cats@.take(i + 1).drop_last() =~= cats@.take(i as int));
            assert(cats@.take(i + 1).last() == c);
            let rows = self.selected_rows(c, &lower, show_desc);
            if rows.len() > 0 {
                let title = if narrowed {
                    None
                } else {
                    Some(c.display_name())
                };
                out.push(SettingsSection { title, rows });
            }
            i = i + 1;
        }
        assert(cats@.take(i as int) =~= cats@);
        out
    }
}

} // verus!
