use vstd::prelude::*;
use crate::json::{
    extract_json_value, json_path_value, json_text, json_value_to_string, path_readable, JsonValue,
};
use crate::platform::{live_check_readable, live_passes, PipelineStep, PlatformConfig};
use crate::text::{
    chars_eq, chars_of, extend_chars, replace_all, replace_chars, starts_with, starts_with_exec,
    string_from_chars,
};

verus! {

/// The texts of variable pairs.
pub open spec fn pairs(v: Seq<(String, String)>) -> Seq<(Seq<char>, Seq<char>)> {
    v.map_values(|p: (String, String)| (p.0@, p.1@))
}

/// The position of the variable named `k`, or -1.
pub open spec fn var_index(vars: Seq<(Seq<char>, Seq<char>)>, k: Seq<char>) -> int
    decreases vars.len(),
{
    if vars.len() == 0 {
        -1
    } else if vars.last().0 == k && var_index(vars.drop_last(), k) < 0 {
        vars.len() - 1
    } else {
        var_index(vars.drop_last(), k)
    }
}

/// The variables once `k` is set to `v`: its value replaced when it is there,
/// else the pair added at the end.
pub open spec fn var_set(vars: Seq<(Seq<char>, Seq<char>)>, k: Seq<char>, v: Seq<char>) -> Seq<
    (Seq<char>, Seq<char>),
> {
    let i = var_index(vars, k);
    if i < 0 {
        vars.push((k, v))
    } else {
        vars.update(i, (k, v))
    }
}

/// The `{name}` placeholder of a variable.
pub open spec fn placeholder(k: Seq<char>) -> Seq<char> {
    "{"@ + k + "}"@
}

/// `template` with each variable's placeholder replaced by its value, the
/// variables taken in order.
pub open spec fn substituted(template: Seq<char>, vars: Seq<(Seq<char>, Seq<char>)>) -> Seq<char>
    decreases vars.len(),
{
    if vars.len() == 0 {
        template
    } else {
        substituted(replace_all(template, placeholder(vars[0].0), vars[0].1), vars.drop_first())
    }
}

/// Replaces each `{name}` placeholder of `template` by the variable's value; an
/// unknown placeholder stays as it is.
pub fn substitute_variables(template: &str, vars: &[(String, String)]) -> (s: String)
    ensures
        s@ == substituted(template@, pairs(vars@)),
{
    let mut resolved = chars_of(template);
    let mut i: usize = 0;
    assert(pairs(vars@).skip(0) == pairs(vars@));
    while i < vars.len()
        invariant
            i <= vars@.len(),
            substituted(resolved@, pairs(vars@).skip(i as int)) == substituted(
                template@,
                pairs(vars@),
            ),
        decreases vars@.len() - i,
    {
        let ghost rest = pairs(vars@).skip(i as int);
        proof {
            assert(rest[0] == (vars@[i as int].0@, vars@[i as int].1@));
            assert(rest.drop_first() == pairs(vars@).skip(i + 1));
        }
        proof {
            reveal_strlit("{");
        }
        let mut pat = chars_of("{");
        extend_chars(&mut pat, chars_of(vars[i].0.as_str()).as_slice());
        extend_chars(&mut pat, chars_of("}").as_slice());
        assert(pat@ == placeholder(vars@[i as int].0@));
        let value = chars_of(vars[i].1.as_str());
        resolved = replace_chars(resolved.as_slice(), pat.as_slice(), value.as_slice());
        i = i + 1;
    }
    assert(pairs(vars@).skip(i as int).len() == 0);
    string_from_chars(resolved.as_slice())
}

/// The URL fetched for an endpoint: as it is when it starts with `http://` or
/// `https://`, else joined to the base URL.
pub open spec fn full_url(base_url: Seq<char>, endpoint: Seq<char>) -> Seq<char> {
    if starts_with(endpoint, "http://"@) || starts_with(endpoint, "https://"@) {
        endpoint
    } else {
        base_url + endpoint
    }
}

/// An endpoint that begins `http://` or `https://` is fetched as it is, whatever the
/// base URL; any other endpoint is put after the base URL.
pub proof fn lemma_absolute_endpoints_kept(base: Seq<char>, other_base: Seq<char>, e: Seq<char>)
    ensures
        (e.len() >= 7 && e.subrange(0, 7) == "http://"@) || (e.len() >= 8 && e.subrange(0, 8)
            == "https://"@) ==> full_url(base, e) == e && full_url(other_base, e) == e,
        !((e.len() >= 7 && e.subrange(0, 7) == "http://"@) || (e.len() >= 8 && e.subrange(0, 8)
            == "https://"@)) ==> full_url(base, e) == base + e,
{
    reveal_strlit("http://");
    reveal_strlit("https://");
}

/// The URL a step fetches: its endpoint template with the variables substituted,
/// joined to the base URL unless it is absolute.
pub fn step_url(base_url: &str, endpoint: &str, vars: &[(String, String)]) -> (s: String)
    ensures
        s@ == full_url(base_url@, substituted(endpoint@, pairs(vars@))),
{
    let resolved = substitute_variables(endpoint, vars);
    let c = chars_of(resolved.as_str());
    if starts_with_exec(c.as_slice(), chars_of("http://").as_slice()) || starts_with_exec(
        c.as_slice(),
        chars_of("https://").as_slice(),
    ) {
        resolved
    } else {
        let mut out = chars_of(base_url);
        extend_chars(&mut out, c.as_slice());
        string_from_chars(out.as_slice())
    }
}

/// The variables once the values found at the extract paths are set, in order;
/// a path that leads nowhere, or to a value other than a string or a number,
/// sets nothing.
pub open spec fn extracted(
    vars: Seq<(Seq<char>, Seq<char>)>,
    extract: Seq<(Seq<char>, Seq<char>)>,
    data: JsonValue,
) -> Seq<(Seq<char>, Seq<char>)>
    decreases extract.len(),
{
    if extract.len() == 0 {
        vars
    } else {
        let next = match json_path_value(data, extract[0].1) {
            Some(x) => match json_text(x) {
                Some(t) => var_set(vars, extract[0].0, t),
                None => vars,
            },
            None => vars,
        };
        extracted(next, extract.drop_first(), data)
    }
}

/// Whether the paths of a step can be followed.
pub open spec fn step_readable(step: PipelineStep) -> bool {
    &&& (step.live_check matches Some(c) ==> live_check_readable(c))
    &&& forall|i: int| 0 <= i < step.extract@.len() ==> path_readable(#[trigger] step.extract@[i].1@)
}

/// Whether a step's response shows the stream live: it passes the step's live
/// check, if there is one.
pub open spec fn step_live(step: PipelineStep, data: JsonValue) -> bool {
    match step.live_check {
        Some(c) => live_passes(c, data),
        None => true,
    }
}

/// Sets the variable `k` to `v`.
pub fn set_var(vars: &mut Vec<(String, String)>, k: &str, v: String)
    ensures
        pairs(final(vars)@) == var_set(pairs(old(vars)@), k@, v@),
{
    let key = chars_of(k);
    let mut i: usize = 0;
    let ghost all = pairs(vars@);
    while i < vars.len()
        invariant
            i <= vars@.len(),
            key@ == k@,
            all == pairs(vars@),
            all == pairs(old(vars)@),
            forall|j: int| 0 <= j < i ==> all[j].0 != k@,
        decreases vars@.len() - i,
    {
        if chars_eq(chars_of(vars[i].0.as_str()).as_slice(), key.as_slice()) {
            proof {
                lemma_var_index_first(all, k@, i as int);
            }
            let name = vars[i].0.clone();
            vars.set(i, (name, v));
            assert(pairs(vars@) =~= var_set(all, k@, v@));
            return;
        }
        i = i + 1;
    }
    proof {
        lemma_var_index_first(all, k@, -1);
    }
    vars.push((k.to_owned(), v));
    assert(pairs(vars@) =~= var_set(all, k@, v@));
}

/// Where `var_index` points: the first variable named `k`, or -1 when none is.
pub proof fn lemma_var_index(vars: Seq<(Seq<char>, Seq<char>)>, k: Seq<char>)
    ensures
        -1 <= var_index(vars, k) < vars.len(),
        var_index(vars, k) >= 0 ==> vars[var_index(vars, k)].0 == k,
        var_index(vars, k) < 0 ==> forall|j: int| 0 <= j < vars.len() ==> vars[j].0 != k,
        var_index(vars, k) >= 0 ==> forall|j: int| 0 <= j < var_index(vars, k) ==> vars[j].0 != k,
    decreases vars.len(),
{
    if vars.len() > 0 {
        lemma_var_index(vars.drop_last(), k);
        assert forall|j: int| 0 <= j < vars.len() - 1 implies vars.drop_last()[j] == vars[j] by {}
    }
}

/// Reading a variable gives back what setting it wrote, and setting one variable
/// leaves the others as they were.
pub proof fn lemma_set_then_get(
    vars: Seq<(Seq<char>, Seq<char>)>,
    k: Seq<char>,
    v: Seq<char>,
    other: Seq<char>,
)
    ensures
        crate::stream::types::var_get(var_set(vars, k, v), k) == Some(v),
        other != k ==> crate::stream::types::var_get(var_set(vars, k, v), other)
            == crate::stream::types::var_get(vars, other),
{
    lemma_var_index(vars, k);
    lemma_var_index(vars, other);
    let i = var_index(vars, k);
    let w = var_set(vars, k, v);
    if i < 0 {
        lemma_var_index_first(w, k, vars.len() as int);
        if other != k {
            let o = var_index(vars, other);
            if o < 0 {
                lemma_var_index_first(w, other, -1);
            } else {
                lemma_var_index_first(w, other, o);
            }
        }
    } else {
        lemma_var_index_first(w, k, i);
        if other != k {
            let o = var_index(vars, other);
            if o < 0 {
                lemma_var_index_first(w, other, -1);
            } else {
                lemma_var_index_first(w, other, o);
            }
        }
    }
}

/// The first variable named `k` stands at `i` (or nowhere, for -1).
pub proof fn lemma_var_index_first(vars: Seq<(Seq<char>, Seq<char>)>, k: Seq<char>, i: int)
    requires
        -1 <= i < vars.len(),
        i >= 0 ==> vars[i].0 == k,
        forall|j: int| 0 <= j < vars.len() && (i < 0 || j < i) ==> vars[j].0 != k,
    ensures
        var_index(vars, k) == i,
    decreases vars.len(),
{
    if vars.len() > 0 {
        let last = vars.len() - 1;
        if i == last {
            lemma_var_index_first(vars.drop_last(), k, -1);
        } else {
            lemma_var_index_first(vars.drop_last(), k, i);
        }
    }
}

/// Applies a step's response: `false` (the stream is offline) when it fails the
/// live check, leaving the variables as they were; else `true`, with the values
/// found at the step's extract paths set.
pub fn apply_step(step: &PipelineStep, vars: &mut Vec<(String, String)>, data: &JsonValue) -> (live: bool)
    requires
        step_readable(*step),
    ensures
        live == step_live(*step, *data),
        live ==> pairs(final(vars)@) == extracted(pairs(old(vars)@), pairs(step.extract@), *data),
        !live ==> final(vars)@ == old(vars)@,
{
    if let Some(check) = &step.live_check {
        if !check.matches(data) {
            return false;
        }
    }
    let mut i: usize = 0;
    assert(pairs(step.extract@).skip(0) == pairs(step.extract@));
    while i < step.extract.len()
        invariant
            i <= step.extract@.len(),
            step_readable(*step),
            extracted(pairs(vars@), pairs(step.extract@).skip(i as int), *data) == extracted(
                pairs(old(vars)@),
                pairs(step.extract@),
                *data,
            ),
        decreases step.extract@.len() - i,
    {
        let ghost rest = pairs(step.extract@).skip(i as int);
        proof {
            assert(rest[0] == (step.extract@[i as int].0@, step.extract@[i as int].1@));
            assert(rest.drop_first() == pairs(step.extract@).skip(i + 1));
            assert(path_readable(step.extract@[i as int].1@));
        }
        match extract_json_value(data, step.extract[i].1.as_str()) {
            Some(found) => match json_value_to_string(found) {
                Some(text) => set_var(vars, step.extract[i].0.as_str(), text),
                None => {},
            },
            None => {},
        }
        i = i + 1;
    }
    assert(pairs(step.extract@).skip(i as int).len() == 0);
    true
}


/// A character that a header name may hold: an ASCII letter or digit, or one of
/// `` !#$%&'*+-.^_`|~ ``.
pub open spec fn header_name_char(c: char) -> bool {
    ('a' <= c <= 'z') || ('A' <= c <= 'Z') || ('0' <= c <= '9') || c == '!' || c == '#' || c
        == '$' || c == '%' || c == '&' || c == '\'' || c == '*' || c == '+' || c == '-' || c == '.'
        || c == '^' || c == '_' || c == '`' || c == '|' || c == '~'
}

/// Whether `name` may be a header name: 1 to 65535 characters, each allowed.
pub open spec fn http_header_name_ok(name: Seq<char>) -> bool {
    &&& 1 <= name.len() <= 65535
    &&& forall|i: int| 0 <= i < name.len() ==> header_name_char(#[trigger] name[i])
}

/// Calls `reqwest::header::HeaderName::from_bytes` on the name's UTF-8 bytes and
/// says whether it accepted them: it takes 1 to 65535 bytes, each of which its
/// table of token characters maps to a letter, digit or one of the signs above
/// (every byte of a non-ASCII character is refused, so the bytes are the
/// characters).
#[verifier::external_body]
fn header_name_ok(name: &str) -> (b: bool)
    ensures
        b == http_header_name_ok(name@),
{
    reqwest::header::HeaderName::from_bytes(name.as_bytes()).is_ok()
}

/// A character that a header value may hold: a tab, or any character from the
/// space on but DEL (the bytes of a non-ASCII character are all allowed).
pub open spec fn header_value_char(c: char) -> bool {
    (c as u32 >= 32 && c as u32 != 127) || c == '\t'
}

/// Whether every character of `v` may stand in a header value.
pub open spec fn header_value_ok(v: Seq<char>) -> bool {
    forall|i: int| 0 <= i < v.len() ==> header_value_char(#[trigger] v[i])
}

/// Calls `reqwest::header::HeaderValue::from_str`, which refuses a value holding a
/// byte below 32 other than the tab, or DEL, and says whether it accepted `value`.
#[verifier::external_body]
fn header_value_valid(value: &str) -> (b: bool)
    ensures
        b == header_value_ok(value@),
{
    reqwest::header::HeaderValue::from_str(value).is_ok()
}

/// The headers a request sends: each configured header with its value's
/// placeholders substituted, kept when both name and value are valid.
pub open spec fn header_pairs(
    headers: Seq<(Seq<char>, Seq<char>)>,
    vars: Seq<(Seq<char>, Seq<char>)>,
) -> Seq<(Seq<char>, Seq<char>)>
    decreases headers.len(),
{
    if headers.len() == 0 {
        Seq::empty()
    } else {
        let rest = header_pairs(headers.drop_last(), vars);
        let k = headers.last().0;
        let v = substituted(headers.last().1, vars);
        if http_header_name_ok(k) && header_value_ok(v) {
            rest.push((k, v))
        } else {
            rest
        }
    }
}

/// Builds the headers of a platform's requests, substituting variables such as
/// `{token}` into their values; a header whose name or value is invalid is left out.
pub fn build_headers(platform: &PlatformConfig, vars: &[(String, String)]) -> (h: Vec<(String, String)>)
    ensures
        pairs(h@) == header_pairs(pairs(platform.headers@), pairs(vars@)),
{
    let ghost hs = pairs(platform.headers@);
    let mut out: Vec<(String, String)> = Vec::new();
    let mut i: usize = 0;
    while i < platform.headers.len()
        invariant
            i <= platform.headers@.len(),
            hs == pairs(platform.headers@),
            pairs(out@) == header_pairs(hs.take(i as int), pairs(vars@)),
        decreases platform.headers@.len() - i,
    {
        assert(hs.take(i + 1).drop_last() =~= hs.take(i as int));
        assert(hs.take(i + 1).last() == hs[i as int]);
        let key = &platform.headers[i].0;
        let value = substitute_variables(platform.headers[i].1.as_str(), vars);
        if header_name_ok(key.as_str()) && header_value_valid(value.as_str()) {
            let ghost before = pairs(out@);
            let k = key.clone();
            out.push((k, value));
            assert(pairs(out@) =~= before.push((key@, value@)));
        }
        i = i + 1;
    }
    assert(hs.take(i as int) =~= hs);
    out
}

/// What one request of a pipeline step came back with.
#[derive(Clone, Copy, Debug, PartialEq, Eq, Structural)]
pub enum FetchOutcome {
    /// The request could not be sent.
    SendFailed,
    /// The server answered 429 Too Many Requests.
    RateLimited,
    /// The server answered another unsuccessful status.
    Unsuccessful,
    /// The server answered successfully.
    Succeeded,
}

/// What a pipeline step's request does next.
#[derive(Clone, Copy, Debug, PartialEq, Eq, Structural)]
pub enum FetchDecision {
    /// Read the answer.
    Accept,
    /// Wait and send the request again as retry number `attempt`; after a 429 the
    /// wait is the server's `Retry-After` when it gives one.
    Retry { attempt: usize, honor_retry_after: bool },
    /// Stop with the failure.
    GiveUp,
}

/// Decides what follows a request of a pipeline step that has been retried
/// `retry_count` times: a successful answer is read; a failure is retried until
/// `max_retries` retries have been made, and then it is the step's error.
pub fn next_fetch_step(retry_count: usize, max_retries: usize, outcome: FetchOutcome) -> (d: FetchDecision)
    ensures
        outcome == FetchOutcome::Succeeded ==> d == FetchDecision::Accept,
        outcome != FetchOutcome::Succeeded && retry_count >= max_retries ==> d == FetchDecision::GiveUp,
        outcome != FetchOutcome::Succeeded && retry_count < max_retries ==> d == (FetchDecision::Retry {
            attempt: (retry_count + 1) as usize,
            honor_retry_after: outcome == FetchOutcome::RateLimited,
        }),
{
    match outcome {
        FetchOutcome::Succeeded => FetchDecision::Accept,
        _ => if retry_count >= max_retries {
            FetchDecision::GiveUp
        } else {
            FetchDecision::Retry {
                attempt: retry_count + 1,
                honor_retry_after: match outcome {
                    FetchOutcome::RateLimited => true,
                    _ => false,
                },
            }
        },
    }
}

} // verus!
