use vstd::prelude::*;
use crate::config::types::opt_text;
use crate::platform::{cleaned_title, title_patterns_compile, PlatformConfig};
use crate::stream::api::{lemma_var_index_first, pairs, var_index};
use crate::text::{chars_eq, chars_of};

verus! {

/// Values extracted from the platform pipeline.
#[derive(Clone, Debug)]
pub struct ExtractedStreamValues {
    pub playback_url: String,
    pub stream_title: Option<String>,
    pub avatar_url: Option<String>,
}

/// What a recording session starts from.
#[derive(Clone, Debug)]
pub struct StreamInfo {
    pub username: String,
    pub platform: PlatformConfig,
    pub extracted: ExtractedStreamValues,
}

/// The value of the variable named `k`, if any.
pub open spec fn var_get(vars: Seq<(Seq<char>, Seq<char>)>, k: Seq<char>) -> Option<Seq<char>> {
    let i = var_index(vars, k);
    if i < 0 {
        None
    } else {
        Some(vars[i].1)
    }
}

/// The stream title that variables give, cleaned by the platform's patterns.
pub open spec fn title_from(p: PlatformConfig, vars: Seq<(Seq<char>, Seq<char>)>) -> Option<Seq<char>> {
    match var_get(vars, "stream_title"@) {
        Some(t) => Some(cleaned_title(p, t)),
        None => None,
    }
}

/// The value of the variable named `k`, if any.
pub fn get_var<'a>(vars: &'a [(String, String)], k: &str) -> (r: Option<&'a String>)
    ensures
        match r {
            Some(v) => var_get(pairs(vars@), k@) == Some(v@),
            None => var_get(pairs(vars@), k@) is None,
        },
{
    let key = chars_of(k);
    let mut i: usize = 0;
    while i < vars.len()
        invariant
            i <= vars@.len(),
            key@ == k@,
            forall|j: int| 0 <= j < i ==> pairs(vars@)[j].0 != k@,
        decreases vars@.len() - i,
    {
        if chars_eq(chars_of(vars[i].0.as_str()).as_slice(), key.as_slice()) {
            proof {
                lemma_var_index_first(pairs(vars@), k@, i as int);
            }
            return Some(&vars[i].1);
        }
        i = i + 1;
    }
    proof {
        lemma_var_index_first(pairs(vars@), k@, -1);
    }
    None
}

/// Sets `target` to `incoming` when that is present and differs, and then records
/// `field_name` as updated.
fn update_optional_field(
    target: &mut Option<String>,
    incoming: Option<String>,
    field_name: &'static str,
    updated_fields: &mut Vec<&'static str>,
)
    ensures
        match opt_text(incoming) {
            Some(v) => if opt_text(*old(target)) != Some(v) {
                opt_text(*final(target)) == Some(v) && final(updated_fields)@ == old(
                    updated_fields,
                )@.push(field_name)
            } else {
                *final(target) == *old(target) && final(updated_fields)@ == old(updated_fields)@
            },
            None => *final(target) == *old(target) && final(updated_fields)@ == old(
                updated_fields,
            )@,
        },
{
    if let Some(value) = incoming {
        let same = match target {
            Some(t) => *t == value,
            None => false,
        };
        if !same {
            *target = Some(value);
            updated_fields.push(field_name);
        }
    }
}

/// What a refresh from the pipeline's values `vars` makes of `before`: the title
/// (cleaned) and the avatar URL are replaced when given, everything else is kept,
/// and `names` lists the fields whose value changed, title first.
pub open spec fn refreshed(
    before: StreamInfo,
    vars: Seq<(Seq<char>, Seq<char>)>,
    after: StreamInfo,
    names: Seq<Seq<char>>,
) -> bool {
    &&& after.username == before.username
    &&& after.platform == before.platform
    &&& after.extracted.playback_url == before.extracted.playback_url
    &&& opt_text(after.extracted.stream_title) == match title_from(before.platform, vars) {
        Some(t) => Some(t),
        None => opt_text(before.extracted.stream_title),
    }
    &&& opt_text(after.extracted.avatar_url) == match var_get(vars, "avatar_url"@) {
        Some(a) => Some(a),
        None => opt_text(before.extracted.avatar_url),
    }
    &&& names == (if title_from(before.platform, vars) matches Some(t) && opt_text(
        before.extracted.stream_title,
    ) != Some(t) {
        seq!["stream_title"@]
    } else {
        Seq::<Seq<char>>::empty()
    }) + (if var_get(vars, "avatar_url"@) matches Some(a) && opt_text(before.extracted.avatar_url)
        != Some(a) {
        seq!["avatar_url"@]
    } else {
        Seq::<Seq<char>>::empty()
    })
}

impl StreamInfo {
    /// Builds the session's information from the pipeline's variables: `None`
    /// without a `playback_url`; the title, when given, is cleaned by the
    /// platform's patterns. The session keeps the platform given.
    pub fn from_pipeline(username: &str, platform: PlatformConfig, vars: &[(String, String)]) -> (r:
        Option<Self>)
        requires
            title_patterns_compile(platform),
        ensures
            match var_get(pairs(vars@), "playback_url"@) {
                None => r is None,
                Some(url) => r matches Some(info) && info.username@ == username@ && info.platform
                    == platform && info.extracted.playback_url@ == url && opt_text(
                    info.extracted.stream_title,
                ) == title_from(platform, pairs(vars@)) && opt_text(info.extracted.avatar_url)
                    == var_get(pairs(vars@), "avatar_url"@),
            },
    {
        let playback_url = match get_var(vars, "playback_url") {
            Some(u) => u.clone(),
            None => return None,
        };
        let stream_title = match get_var(vars, "stream_title") {
            Some(t) => Some(platform.clean_title(t.as_str())),
            None => None,
        };
        let avatar_url = match get_var(vars, "avatar_url") {
            Some(a) => Some(a.clone()),
            None => None,
        };
        Some(StreamInfo {
            username: username.to_owned(),
            platform,
            extracted: ExtractedStreamValues { playback_url, stream_title, avatar_url },
        })
    }

    /// `from_pipeline` when the platform's title patterns all compile, else an error.
    pub fn from_pipeline_checked(username: &str, platform: PlatformConfig, vars: &[(String, String)]) -> (r:
        Result<Option<Self>, String>)
        ensures
            title_patterns_compile(platform) <==> r is Ok,
            r matches Ok(o) ==> match var_get(pairs(vars@), "playback_url"@) {
                None => o is None,
                Some(url) => o matches Some(info) && info.username@ == username@ && info.platform
                    == platform && info.extracted.playback_url@ == url && opt_text(
                    info.extracted.stream_title,
                ) == title_from(platform, pairs(vars@)) && opt_text(info.extracted.avatar_url)
                    == var_get(pairs(vars@), "avatar_url"@),
            },
    {
        if platform.try_clean_title("").is_none() {
            return Err("a title pattern of the platform does not compile".to_owned());
        }
        Ok(Self::from_pipeline(username, platform, vars))
    }

    /// Takes the latest values of the pipeline: the title (cleaned) and the avatar
    /// URL are replaced when given and different, and their names reported in that
    /// order. Missing values keep what was captured before; the playback URL is
    /// never changed.
    pub fn refresh_from_pipeline(&mut self, vars: &[(String, String)]) -> (updated: Vec<&'static str>)
        requires
            title_patterns_compile(old(self).platform),
        ensures
            refreshed(*old(self), pairs(vars@), *final(self), updated@.map_values(|s: &str| s@)),
    {
        let mut updated_fields: Vec<&'static str> = Vec::new();
        let title = match get_var(vars, "stream_title") {
            Some(t) => Some(self.platform.clean_title(t.as_str())),
            None => None,
        };
        update_optional_field(&mut self.extracted.stream_title, title, "stream_title", &mut updated_fields);
        let avatar = match get_var(vars, "avatar_url") {
            Some(a) => Some(a.clone()),
            None => None,
        };
        update_optional_field(&mut self.extracted.avatar_url, avatar, "avatar_url", &mut updated_fields);
        assert(updated_fields@.map_values(|s: &str| s@) =~= (if title_from(old(self).platform, pairs(vars@)) matches Some(t)
                && opt_text(old(self).extracted.stream_title) != Some(t) {
                seq!["stream_title"@]
            } else {
                Seq::<Seq<char>>::empty()
            }) + (if var_get(pairs(vars@), "avatar_url"@) matches Some(a) && opt_text(
                old(self).extracted.avatar_url,
            ) != Some(a) {
                seq!["avatar_url"@]
            } else {
                Seq::<Seq<char>>::empty()
            }));
        updated_fields
    }

    /// `refresh_from_pipeline` when the platform's title patterns all compile (the
    /// stream and the reported names are then those of `refreshed`), else an error
    /// and no change.
    pub fn refresh_from_pipeline_checked(&mut self, vars: &[(String, String)]) -> (r: Result<Vec<&'static str>, String>)
        ensures
            title_patterns_compile(old(self).platform) <==> r is Ok,
            r is Err ==> *final(self) == *old(self),
            r matches Ok(updated) ==> refreshed(
                *old(self),
                pairs(vars@),
                *final(self),
                updated@.map_values(|s: &str| s@),
            ),
    {
        if self.platform.try_clean_title("").is_none() {
            return Err("a title pattern of the platform does not compile".to_owned());
        }
        Ok(self.refresh_from_pipeline(vars))
    }
}

} // verus!
