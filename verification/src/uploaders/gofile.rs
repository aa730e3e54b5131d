use vstd::prelude::*;
use crate::json::{copy_json, json_get, json_member, json_same, JsonValue};
use crate::strings::concat2;
use crate::text::{
    chars_of, contains, contains_exec, split, split_chars, string_from_chars, views,
};
use crate::uploaders::error::UploadError;

verus! {

/// A GoFile upload server.
#[derive(Clone, Debug)]
pub struct Server {
    pub name: String,
    pub zone: String,
}

/// The GoFile uploader.
#[derive(Debug)]
pub struct GoFileUploader;

impl GoFileUploader {
    pub fn new() -> (u: Self) {
        GoFileUploader
    }
}

impl Default for GoFileUploader {
    fn default() -> (u: Self) {
        Self::new()
    }
}

/// What GoFile's answer means: its `data` (null when absent) when `status` is
/// `ok`; for an `error-...` status the text after its first `-`; another status is
/// unexpected; without a status text the answer is invalid.
pub open spec fn gofile_outcome(response: JsonValue) -> Result<Option<JsonValue>, Seq<char>> {
    match json_member(response, "status"@) {
        Some(JsonValue::String(s)) => if s@ == "ok"@ {
            Ok(json_member(response, "data"@))
        } else if contains(s@, "error-"@) {
            Err(split(s@, '-')[1])
        } else {
            Err("unexpected status: "@ + s@)
        },
        _ => Err("invalid response"@),
    }
}

/// Reads GoFile's answer: its `data` when the status is `ok`, else the error it
/// reports.
pub fn response_handler(response: &JsonValue) -> (r: Result<JsonValue, UploadError>)
    ensures
        match gofile_outcome(*response) {
            Ok(Some(d)) => r matches Ok(v) && json_same(v, d),
            Ok(None) => r matches Ok(v) && v is Null,
            Err(m) => r matches Err(e) && e.message@ == m && e.status_code is None,
        },
{
    match json_get(response, "status") {
        Some(JsonValue::String(s)) => {
            let c = chars_of(s.as_str());
            if crate::text::eq_lit(c.as_slice(), "ok") {
                return match json_get(response, "data") {
                    Some(d) => Ok(copy_json(d)),
                    None => Ok(JsonValue::Null),
                };
            }
            if contains_exec(c.as_slice(), chars_of("error-").as_slice()) {
                let pieces = split_chars(c.as_slice(), '-');
                proof {
                    lemma_split_has_two(s@);
                }
                assert(views(pieces@)[1] == pieces@[1]@);
                Err(UploadError { message: string_from_chars(pieces[1].as_slice()), status_code: None })
            } else {
                Err(UploadError { message: concat2("unexpected status: ", s.as_str()), status_code: None })
            }
        },
        _ => Err(UploadError { message: "invalid response".to_owned(), status_code: None }),
    }
}

/// A text holding `error-` splits at `-` into at least two pieces.
proof fn lemma_split_has_two(s: Seq<char>)
    requires
        contains(s, "error-"@),
    ensures
        split(s, '-').len() >= 2,
{
    reveal_strlit("error-");
    let i = choose|i: int| crate::text::occurs_at(s, "error-"@, i);
    assert(s.subrange(i, i + 6)[5] == '-');
    assert(s[i + 5] == '-');
    crate::text::lemma_index_of(s, '-');
    let j = crate::text::index_of(s, '-');
    assert(j >= 0);
    assert(split(s, '-') == seq![s.take(j)] + split(s.skip(j + 1), '-'));
    lemma_split_nonempty(s.skip(j + 1));
}

proof fn lemma_split_nonempty(s: Seq<char>)
    ensures
        split(s, '-').len() >= 1,
    decreases s.len(),
{
    crate::text::lemma_index_of(s, '-');
    let j = crate::text::index_of(s, '-');
    if j >= 0 {
        lemma_split_nonempty(s.skip(j + 1));
    }
}

/// Picks the GoFile server to upload to: the first in `zone`, else the first
/// listed; none listed is an error.
pub fn pick_server(servers: &Vec<Server>, zone: &str) -> (r: Result<Server, UploadError>)
    ensures
        match r {
            Ok(s) => exists|i: int| 0 <= i < servers@.len() && s.name@ == servers@[i].name@ && s.zone@
                == servers@[i].zone@ && (servers@[i].zone@ == zone@ ==> forall|j: int|
                0 <= j < i ==> servers@[j].zone@ != zone@) && (servers@[i].zone@ != zone@ ==> i == 0
                && forall|j: int| 0 <= j < servers@.len() ==> servers@[j].zone@ != zone@),
            Err(e) => servers@.len() == 0 && e.message@ == "noServersAvailable"@ && e.status_code is None,
        },
{
    let mut i: usize = 0;
    while i < servers.len()
        invariant
            i <= servers@.len(),
            forall|j: int| 0 <= j < i ==> servers@[j].zone@ != zone@,
        decreases servers@.len() - i,
    {
        if crate::strings::str_eq(servers[i].zone.as_str(), zone) {
            return Ok(Server { name: servers[i].name.clone(), zone: servers[i].zone.clone() });
        }
        i = i + 1;
    }
    if servers.len() > 0 {
        Ok(Server { name: servers[0].name.clone(), zone: servers[0].zone.clone() })
    } else {
        Err(UploadError { message: "noServersAvailable".to_owned(), status_code: None })
    }
}

/// The links in GoFile's upload data: its `downloadPage` text, if any.
pub fn download_urls(data: &JsonValue) -> (v: Vec<String>)
    ensures
        match json_member(*data, "downloadPage"@) {
            Some(JsonValue::String(s)) => v@.len() == 1 && v@[0]@ == s@,
            _ => v@.len() == 0,
        },
{
    let mut v: Vec<String> = Vec::new();
    match json_get(data, "downloadPage") {
        Some(JsonValue::String(s)) => v.push(s.clone()),
        _ => {},
    }
    v
}

} // verus!
