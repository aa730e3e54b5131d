use vstd::prelude::*;
use crate::config::types::{opt_list, opt_text};
use crate::json::{
    extract_json_value, json_equal, json_path_value, json_same, json_text, json_value_to_string,
    path_readable, JsonValue,
};
use crate::pattern::{
    regex_compile_error, regex_error, regex_replace, regex_replace_all, semver_req_error,
    semver_req_matches, version_req_allows,
};
use crate::strings::{concat2, concat3, concat4, concat5, svec};
use crate::text::{
    chars_eq, chars_of, copy_range, ends_with, ends_with_exec, extend_chars, find_char, index_of,
    lemma_index_of, lemma_index_of_unique, occurs_at, replace_all, replace_chars, starts_with,
    starts_with_exec, string_from_chars, trim, trim_chars, views,
};

verus! {

/// When a step shows that the stream is live.
#[derive(Clone, Debug)]
pub enum LiveCheck {
    /// Live when the path leads to a value that is not null.
    Path(String),
    /// Live when the path's value passes every check given.
    Condition(LiveCondition),
}

/// Checks on the value at `path`: that it exists (or not), that it equals a
/// value, or that it does not.
#[derive(Clone, Debug)]
pub struct LiveCondition {
    pub path: String,
    pub exists: Option<bool>,
    pub equals: Option<JsonValue>,
    pub not_equals: Option<JsonValue>,
}

/// A single step in the platform fetch pipeline.
///
/// Steps are executed in order. Each step may extract string variables from
/// the response that become available as `{variable}` placeholders in all
/// later steps' endpoint templates.
#[derive(Clone, Debug)]
pub struct PipelineStep {
    /// Endpoint template; relative paths are joined to `base_url`.
    pub endpoint: String,
    /// When present, the stream is offline unless the response passes it.
    pub live_check: Option<LiveCheck>,
    /// Variable names and the dot paths their values are read from.
    pub extract: Vec<(String, String)>,
}

/// Outcome of executing a platform's fetch pipeline.
#[derive(Debug)]
pub enum PipelineOutcome {
    /// Every step passed its live check; the variables gathered on the way.
    Live(Vec<(String, String)>),
    /// A step's live check failed: the stream is offline.
    Offline,
}

/// A platform definition, as installed from a JSON file.
#[derive(Clone, Debug)]
pub struct PlatformConfig {
    /// Unique identifier, used in `platform_id:username` monitor references.
    pub id: String,
    /// Human-readable name.
    pub name: String,
    /// Base URL prepended to relative endpoint paths; must end with `/`.
    pub base_url: String,
    /// Icon URL shown in notifications.
    pub icon: Option<String>,
    /// Keyring key of the platform's token, if it needs one.
    pub token_name: Option<String>,
    /// HTTP headers sent with every request; `{token}` is substituted.
    pub headers: Vec<(String, String)>,
    /// The fetch steps, run in order.
    pub steps: Vec<PipelineStep>,
    /// The URL the config was installed from, if any.
    pub source_url: Option<String>,
    /// The config's version; must not be empty.
    pub version: String,
    /// Semver requirement on the stream recorder's version.
    pub stream_recorder_version: Option<String>,
    /// Rules that rewrite stream titles, applied in order.
    pub title_clean_regex: Option<Vec<TitleRule>>,
}

/// A title cleaning rule: every match of `pattern` is replaced by `replacement`,
/// or removed when there is none.
#[derive(Clone, Debug)]
pub struct TitleRule {
    pub pattern: String,
    pub replacement: Option<String>,
}

impl TitleRule {
    /// A rule that removes every match of `pattern`.
    pub fn remove(pattern: &str) -> (r: Self)
        ensures
            r.pattern@ == pattern@,
            r.replacement is None,
    {
        TitleRule { pattern: pattern.to_owned(), replacement: None }
    }

    /// A rule that replaces every match of `pattern` by `replacement`.
    pub fn replace(pattern: &str, replacement: &str) -> (r: Self)
        ensures
            r.pattern@ == pattern@,
            r.replacement matches Some(t) && t@ == replacement@,
    {
        TitleRule { pattern: pattern.to_owned(), replacement: Some(replacement.to_owned()) }
    }
}

/// The patterns and replacements of title rules; a removing rule replaces by
/// nothing.
pub open spec fn rules_view(v: Seq<TitleRule>) -> Seq<(Seq<char>, Seq<char>)> {
    v.map_values(
        |r: TitleRule|
            (
                r.pattern@,
                match r.replacement {
                    Some(t) => t@,
                    None => Seq::empty(),
                },
            ),
    )
}

/// The patterns of title rules.
pub open spec fn rule_patterns(v: Seq<TitleRule>) -> Seq<Seq<char>> {
    v.map_values(|r: TitleRule| r.pattern@)
}

/// The running stream recorder's version.
pub open spec fn app_version() -> (u64, u64, u64) {
    (0, 1, 0)
}

/// The first pattern of `patterns` that does not compile, with the reason.
pub open spec fn first_bad_pattern(patterns: Seq<Seq<char>>) -> Option<(Seq<char>, Seq<char>)>
    decreases patterns.len(),
{
    if patterns.len() == 0 {
        None
    } else {
        match regex_compile_error(patterns[0]) {
            Some(e) => Some((patterns[0], e)),
            None => first_bad_pattern(patterns.drop_first()),
        }
    }
}

/// The verdict on a platform config read from `source`.
pub open spec fn platform_check(p: PlatformConfig, source: Seq<char>) -> Result<(), Seq<char>> {
    let head = "Platform config "@ + source + ": "@;
    if !ends_with(p.base_url@, "/"@) {
        Err(head + "`base_url` must end with '/' (got '"@ + p.base_url@ + "')"@)
    } else if p.steps@.len() == 0 {
        Err(head + "`steps` must contain at least one step"@)
    } else if trim(p.version@).len() == 0 {
        Err(head + "`version` must not be empty"@)
    } else if p.stream_recorder_version matches Some(req) && semver_req_error(req@) is Some {
        Err(head + "`stream_recorder_version` '"@ + p.stream_recorder_version->0@
            + "' is not a valid semver requirement: "@ + semver_req_error(
            p.stream_recorder_version->0@,
        )->0)
    } else if p.stream_recorder_version matches Some(req) && !semver_req_matches(
        req@,
        app_version().0,
        app_version().1,
        app_version().2,
    ) {
        Err(head + "requires stream_recorder '"@ + p.stream_recorder_version->0@
            + "' but running version is '0.1.0'. Update stream recorder or re-install this platform."@)
    } else if p.title_clean_regex matches Some(v) && first_bad_pattern(rule_patterns(v@)) is Some {
        let bad = first_bad_pattern(rule_patterns(p.title_clean_regex->0@))->0;
        Err(head + "`title_clean_regex` pattern '"@ + bad.0 + "' is not a valid regex: "@ + bad.1)
    } else {
        Ok(())
    }
}

/// The title once each rule, in order, has replaced every match of its pattern.
pub open spec fn rewrite_all(rules: Seq<(Seq<char>, Seq<char>)>, text: Seq<char>) -> Seq<char>
    decreases rules.len(),
{
    if rules.len() == 0 {
        text
    } else {
        rewrite_all(rules.drop_first(), regex_replace(rules[0].0, text, rules[0].1))
    }
}

/// Whether every pattern compiles.
pub open spec fn all_compile(patterns: Seq<Seq<char>>) -> bool {
    forall|i: int| 0 <= i < patterns.len() ==> regex_compile_error(#[trigger] patterns[i]) is None
}

/// What `clean_title` makes of `title`.
pub open spec fn cleaned_title(p: PlatformConfig, title: Seq<char>) -> Seq<char> {
    match p.title_clean_regex {
        Some(v) => rewrite_all(rules_view(v@), title),
        None => title,
    }
}

/// Whether the platform's title patterns all compile.
pub open spec fn title_patterns_compile(p: PlatformConfig) -> bool {
    p.title_clean_regex matches Some(v) ==> all_compile(rule_patterns(v@))
}

/// The position of the first platform with id `id`, or -1.
pub open spec fn platform_index(ps: Seq<PlatformConfig>, id: Seq<char>) -> int
    decreases ps.len(),
{
    if ps.len() == 0 {
        -1
    } else if ps[0].id@ == id {
        0
    } else {
        let r = platform_index(ps.drop_first(), id);
        if r < 0 {
            -1
        } else {
            r + 1
        }
    }
}

impl PlatformConfig {
    /// Checks a parsed platform config: `base_url` ends with `/`, there is at least
    /// one step, `version` is not blank, `stream_recorder_version` (when present) is
    /// a semver requirement that this recorder's version meets, and every
    /// `title_clean_regex` pattern compiles. `source` names the config in errors.
    #[verifier::loop_isolation(false)]
    pub fn validate(&self, source: &str) -> (r: Result<(), String>)
        ensures
            match platform_check(*self, source@) {
                Ok(()) => r is Ok,
                Err(e) => r matches Err(m) && m@ == e,
            },
    {
        let head = concat3("Platform config ", source, ": ");
        let base = chars_of(self.base_url.as_str());
        if !ends_with_exec(base.as_slice(), chars_of("/").as_slice()) {
            let a = concat3(head.as_str(), "`base_url` must end with '/' (got '", self.base_url.as_str());
            return Err(concat2(a.as_str(), "')"));
        }
        if self.steps.len() == 0 {
            return Err(concat2(head.as_str(), "`steps` must contain at least one step"));
        }
        let version = trim_chars(chars_of(self.version.as_str()).as_slice());
        if version.len() == 0 {
            return Err(concat2(head.as_str(), "`version` must not be empty"));
        }
        match &self.stream_recorder_version {
            Some(req) => {
                match version_req_allows(req.as_str(), 0, 1, 0) {
                    Err(e) => {
                        let a = concat4(head.as_str(), "`stream_recorder_version` '", req.as_str(), "' is not a valid semver requirement: ");
                        return Err(concat2(a.as_str(), e.as_str()));
                    },
                    Ok(false) => {
                        return Err(concat4(
                            head.as_str(),
                            "requires stream_recorder '",
                            req.as_str(),
                            "' but running version is '0.1.0'. Update stream recorder or re-install this platform.",
                        ));
                    },
                    Ok(true) => {},
                }
            },
            None => {},
        }
        match &self.title_clean_regex {
            Some(patterns) => {
                let mut i: usize = 0;
                assert(rule_patterns(patterns@).skip(0) == rule_patterns(patterns@));
                while i < patterns.len()
                    invariant
                        i <= patterns@.len(),
                        self.title_clean_regex == Some(*patterns),
                        first_bad_pattern(rule_patterns(patterns@).skip(i as int)) == first_bad_pattern(
                            rule_patterns(patterns@),
                        ),
                    decreases patterns@.len() - i,
                {
                    let ghost rest = rule_patterns(patterns@).skip(i as int);
                    proof {
                        assert(rest[0] == patterns@[i as int].pattern@);
                        assert(rest.drop_first() == rule_patterns(patterns@).skip(i + 1));
                    }
                    match regex_error(patterns[i].pattern.as_str()) {
                        Some(e) => {
                            assert(first_bad_pattern(rest) == Some((patterns@[i as int].pattern@, e@)));
                            let a = concat4(head.as_str(), "`title_clean_regex` pattern '", patterns[i].pattern.as_str(), "' is not a valid regex: ");
                            return Err(concat2(a.as_str(), e.as_str()));
                        },
                        None => {},
                    }
                    i = i + 1;
                }
                assert(rule_patterns(patterns@).skip(i as int).len() == 0);
            },
            None => {},
        }
        Ok(())
    }

    /// Applies each `title_clean_regex` rule, in order, to `title`: every match of
    /// its pattern is replaced by its replacement, or removed; the title is
    /// unchanged when there are none. The patterns must
    /// compile, as `validate` ensures on load and install.
    pub fn clean_title(&self, title: &str) -> (s: String)
        requires
            title_patterns_compile(*self),
        ensures
            s@ == cleaned_title(*self, title@),
    {
        let patterns = match &self.title_clean_regex {
            Some(v) => v,
            None => return title.to_owned(),
        };
        let mut result = title.to_owned();
        let mut i: usize = 0;
        assert(rules_view(patterns@).skip(0) == rules_view(patterns@));
        while i < patterns.len()
            invariant
                i <= patterns@.len(),
                all_compile(rule_patterns(patterns@)),
                self.title_clean_regex == Some(*patterns),
                rewrite_all(rules_view(patterns@).skip(i as int), result@) == cleaned_title(*self, title@),
            decreases patterns@.len() - i,
        {
            let ghost rest = rules_view(patterns@).skip(i as int);
            let rule = &patterns[i];
            let replacement: &str = match &rule.replacement {
                Some(t) => t.as_str(),
                None => "",
            };
            proof {
                reveal_strlit("");
                assert(rest[0] == (rule.pattern@, replacement@));
                assert(rest.drop_first() == rules_view(patterns@).skip(i + 1));
                assert(regex_compile_error(rule_patterns(patterns@)[i as int]) is None);
            }
            result = regex_replace_all(rule.pattern.as_str(), result.as_str(), replacement);
            i = i + 1;
        }
        assert(rules_view(patterns@).skip(i as int).len() == 0);
        result
    }

    /// `clean_title` when every pattern compiles, else `None`.
    pub fn try_clean_title(&self, title: &str) -> (r: Option<String>)
        ensures
            match r {
                Some(s) => title_patterns_compile(*self) && s@ == cleaned_title(*self, title@),
                None => !title_patterns_compile(*self),
            },
    {
        match &self.title_clean_regex {
            Some(patterns) => {
                let mut i: usize = 0;
                while i < patterns.len()
                    invariant
                        i <= patterns@.len(),
                        self.title_clean_regex == Some(*patterns),
                        forall|j: int| 0 <= j < i ==> regex_compile_error(#[trigger] rule_patterns(patterns@)[j]) is None,
                    decreases patterns@.len() - i,
                {
                    if regex_error(patterns[i].pattern.as_str()).is_some() {
                        assert(regex_compile_error(rule_patterns(patterns@)[i as int]) is Some);
                        return None;
                    }
                    i = i + 1;
                }
            },
            None => {},
        }
        Some(self.clean_title(title))
    }

    /// The URL to update the platform `id` from: its `source_url`, or an error when
    /// it was installed by hand.
    pub fn update_source(&self, id: &str) -> (r: Result<String, String>)
        ensures
            match opt_text(self.source_url) {
                Some(u) => r matches Ok(s) && s@ == u,
                None => r matches Err(m) && m@ == "Platform '"@ + id@
                    + "' has no source URL saved. Re-install it with: stream-recorder platform install <url>"@,
            },
    {
        match &self.source_url {
            Some(u) => Ok(u.clone()),
            None => Err(concat3(
                "Platform '",
                id,
                "' has no source URL saved. Re-install it with: stream-recorder platform install <url>",
            )),
        }
    }

    /// The platform as installed from `url`: the same, with `url` kept as its source.
    pub fn with_source(self, url: &str) -> (p: Self)
        ensures
            p == (PlatformConfig { source_url: p.source_url, ..self }),
            opt_text(p.source_url) == Some(url@),
    {
        PlatformConfig { source_url: Some(url.to_owned()), ..self }
    }

    /// The first platform with the given id.
    pub fn find_by_id<'a>(platforms: &'a [PlatformConfig], id: &str) -> (r: Option<&'a PlatformConfig>)
        ensures
            match r {
                Some(p) => platform_index(platforms@, id@) >= 0 && *p == platforms@[platform_index(platforms@, id@)],
                None => platform_index(platforms@, id@) < 0,
            },
    {
        let k = chars_of(id);
        let mut i: usize = 0;
        assert(platforms@.skip(0) == platforms@);
        while i < platforms.len()
            invariant
                i <= platforms@.len(),
                k@ == id@,
                platform_index(platforms@, id@) == if platform_index(platforms@.skip(i as int), id@) < 0 {
                    -1
                } else {
                    platform_index(platforms@.skip(i as int), id@) + i
                },
            decreases platforms@.len() - i,
        {
            proof {
                assert(platforms@.skip(i as int).drop_first() == platforms@.skip(i + 1));
                assert(platforms@.skip(i as int)[0] == platforms@[i as int]);
            }
            if chars_eq(chars_of(platforms[i].id.as_str()).as_slice(), k.as_slice()) {
                return Some(&platforms[i]);
            }
            i = i + 1;
        }
        None
    }
}

// ---------------------------------------------------------------------------
// GitHub URLs
// ---------------------------------------------------------------------------

/// `s` split at `c` into at most `n` pieces, the last holding the rest.
pub open spec fn splitn(s: Seq<char>, n: nat, c: char) -> Seq<Seq<char>>
    decreases n,
{
    let i = index_of(s, c);
    if n <= 1 || i < 0 {
        seq![s]
    } else {
        proof {
            lemma_index_of(s, c);
        }
        seq![s.take(i)] + splitn(s.skip(i + 1), (n - 1) as nat, c)
    }
}

/// The number of trailing `c` characters of `s`.
pub open spec fn trailing(s: Seq<char>, c: char) -> nat
    decreases s.len(),
{
    if s.len() > 0 && s.last() == c {
        1 + trailing(s.drop_last(), c)
    } else {
        0
    }
}

/// `s` without its trailing `/` characters.
pub open spec fn trim_slashes(s: Seq<char>) -> Seq<char> {
    s.take(s.len() - trailing(s, '/'))
}

/// The raw `platform.json` URL for a GitHub repository or tree URL; any other URL
/// unchanged.
pub open spec fn github_raw_url(url: Seq<char>) -> Seq<char> {
    let prefix = "https://github.com/"@;
    let raw = "https://raw.githubusercontent.com/"@;
    if !starts_with(url, prefix) {
        url
    } else {
        let seg = splitn(trim_slashes(url.skip(prefix.len() as int)), 5, '/');
        if seg.len() == 2 {
            raw + seg[0] + "/"@ + seg[1] + "/HEAD/platform.json"@
        } else if seg.len() == 4 && seg[2] == "tree"@ {
            raw + seg[0] + "/"@ + seg[1] + "/"@ + seg[3] + "/platform.json"@
        } else if seg.len() == 5 && seg[2] == "tree"@ {
            raw + seg[0] + "/"@ + seg[1] + "/"@ + seg[3] + "/"@ + trim_slashes(seg[4])
                + "/platform.json"@
        } else {
            url
        }
    }
}

fn trim_slashes_exec(s: &[char]) -> (out: Vec<char>)
    ensures
        out@ == trim_slashes(s@),
{
    let mut end: usize = s.len();
    assert(s@.take(end as int) == s@);
    while end > 0 && s[end - 1] == '/'
        invariant
            end <= s@.len(),
            trailing(s@, '/') == (s@.len() - end) + trailing(s@.take(end as int), '/'),
        decreases end,
    {
        proof {
            assert(s@.take(end as int).drop_last() == s@.take(end - 1));
        }
        end = end - 1;
    }
    proof {
        assert(trailing(s@.take(end as int), '/') == 0);
    }
    copy_range(s, 0, end)
}

fn splitn_exec(s: &[char], n: usize, c: char) -> (out: Vec<Vec<char>>)
    requires
        n >= 1,
    ensures
        views(out@) == splitn(s@, n as nat, c),
{
    let mut out: Vec<Vec<char>> = Vec::new();
    let mut start: usize = 0;
    let mut left: usize = n;
    assert(s@.skip(0) == s@);
    loop
        invariant_except_break
            start <= s@.len(),
            1 <= left <= n,
            views(out@) + splitn(s@.skip(start as int), left as nat, c) == splitn(s@, n as nat, c),
        ensures
            views(out@) == splitn(s@, n as nat, c),
        decreases left,
    {
        let ghost rest = s@.skip(start as int);
        proof {
            lemma_index_of(rest, c);
        }
        let found = if left > 1 {
            let f = find_char(s, c, start);
            assert(f matches Some(i) ==> start <= i < s@.len() && s@[i as int] == c && forall|j: int| start <= j < i ==> s@[j] != c);
            assert(f is None ==> forall|j: int| start <= j < s@.len() ==> s@[j] != c);
            f
        } else {
            None
        };
        assert(found matches Some(i) ==> left > 1 && start <= i < s@.len() && s@[i as int] == c && forall|j: int| start <= j < i ==> s@[j] != c);
        assert(found is None && left > 1 ==> forall|j: int| start <= j < s@.len() ==> s@[j] != c);
        match found {
            Some(i) => {
                proof {
                    assert forall|j: int| 0 <= j < rest.len() && j < i - start implies rest[j] != c by {
                        assert(rest[j] == s@[j + start]);
                    }
                    assert(rest[i - start] == s@[i as int]);
                    lemma_index_of_unique(rest, c, i - start);
                    assert(rest.skip(i - start + 1) == s@.skip(i + 1));
                }
                assert(i < s@.len());
                assert(s@.len() == s.len());
                let piece = copy_range(s, start, i);
                assert(piece@ == rest.take(i - start));
                let ghost before = views(out@);
                out.push(piece);
                assert(views(out@) == before.push(piece@));
                assert(views(out@) + splitn(s@.skip(i + 1), (left - 1) as nat, c) =~= before + splitn(rest, left as nat, c));
                start = i + 1;
                left = left - 1;
            },
            None => {
                proof {
                    if left > 1 {
                        assert forall|j: int| 0 <= j < rest.len() implies rest[j] != c by {
                            assert(rest[j] == s@[j + start]);
                        }
                        lemma_index_of_unique(rest, c, -1);
                    }
                }
                let piece = copy_range(s, start, s.len());
                assert(piece@ == rest);
                let ghost before = views(out@);
                out.push(piece);
                assert(views(out@) =~= before + splitn(rest, left as nat, c));
                break;
            },
        }
    }
    out
}

/// Turns a GitHub repository or tree URL into the raw URL of its `platform.json`:
/// `https://github.com/{owner}/{repo}` gives `.../{owner}/{repo}/HEAD/platform.json`,
/// `.../tree/{branch}` gives `.../{branch}/platform.json` and
/// `.../tree/{branch}/{path}` gives `.../{branch}/{path}/platform.json`. Any
/// other URL comes back unchanged.
pub fn resolve_github_url(url: &str) -> (s: String)
    ensures
        s@ == github_raw_url(url@),
{
    let c = chars_of(url);
    let prefix = chars_of("https://github.com/");
    if !starts_with_exec(c.as_slice(), prefix.as_slice()) {
        return url.to_owned();
    }
    let tail = copy_range(c.as_slice(), prefix.len(), c.len());
    let path = trim_slashes_exec(tail.as_slice());
    let seg = splitn_exec(path.as_slice(), 5, '/');
    proof {
        assert(tail@ == url@.skip("https://github.com/"@.len() as int));
        assert(forall|i: int| 0 <= i < seg@.len() ==> views(seg@)[i] == #[trigger] seg@[i]@);
    }
    let raw = "https://raw.githubusercontent.com/";
    if seg.len() == 2 {
        let mut out = chars_of(raw);
        extend_chars(&mut out, seg[0].as_slice());
        extend_chars(&mut out, chars_of("/").as_slice());
        extend_chars(&mut out, seg[1].as_slice());
        extend_chars(&mut out, chars_of("/HEAD/platform.json").as_slice());
        return string_from_chars(out.as_slice());
    }
    let tree = chars_of("tree");
    if seg.len() == 4 && chars_eq(seg[2].as_slice(), tree.as_slice()) {
        let mut out = chars_of(raw);
        extend_chars(&mut out, seg[0].as_slice());
        extend_chars(&mut out, chars_of("/").as_slice());
        extend_chars(&mut out, seg[1].as_slice());
        extend_chars(&mut out, chars_of("/").as_slice());
        extend_chars(&mut out, seg[3].as_slice());
        extend_chars(&mut out, chars_of("/platform.json").as_slice());
        return string_from_chars(out.as_slice());
    }
    if seg.len() == 5 && chars_eq(seg[2].as_slice(), tree.as_slice()) {
        let sub = trim_slashes_exec(seg[4].as_slice());
        let mut out = chars_of(raw);
        extend_chars(&mut out, seg[0].as_slice());
        extend_chars(&mut out, chars_of("/").as_slice());
        extend_chars(&mut out, seg[1].as_slice());
        extend_chars(&mut out, chars_of("/").as_slice());
        extend_chars(&mut out, seg[3].as_slice());
        extend_chars(&mut out, chars_of("/").as_slice());
        extend_chars(&mut out, sub.as_slice());
        extend_chars(&mut out, chars_of("/platform.json").as_slice());
        return string_from_chars(out.as_slice());
    }
    url.to_owned()
}

// ---------------------------------------------------------------------------
// Live checks
// ---------------------------------------------------------------------------

/// Whether the paths of a live check can be followed.
pub open spec fn live_check_readable(check: LiveCheck) -> bool {
    match check {
        LiveCheck::Path(p) => path_readable(p@),
        LiveCheck::Condition(c) => path_readable(c.path@),
    }
}

/// Whether `data` passes the live check: the path's value is present (and not
/// null) for the path form; for the condition form, each check given holds, and
/// with no check given the value must be present.
pub open spec fn live_passes(check: LiveCheck, data: JsonValue) -> bool {
    match check {
        LiveCheck::Path(p) => json_path_value(data, p@) is Some,
        LiveCheck::Condition(c) => {
            let actual = json_path_value(data, c.path@);
            &&& (c.exists matches Some(b) ==> (actual is Some) == b)
            &&& (c.equals matches Some(v) ==> actual matches Some(a) && json_same(a, v))
            &&& (c.not_equals matches Some(v) ==> !(actual matches Some(a) && json_same(a, v)))
            &&& (c.exists is None && c.equals is None && c.not_equals is None ==> actual is Some)
        },
    }
}

impl LiveCheck {
    /// Whether the response `data` shows the stream live.
    pub fn matches(&self, data: &JsonValue) -> (b: bool)
        requires
            live_check_readable(*self),
        ensures
            b == live_passes(*self, *data),
    {
        match self {
            LiveCheck::Path(p) => extract_json_value(data, p.as_str()).is_some(),
            LiveCheck::Condition(c) => {
                let actual = extract_json_value(data, c.path.as_str());
                let present = actual.is_some();
                if let Some(b) = c.exists {
                    if present != b {
                        return false;
                    }
                }
                if let Some(v) = &c.equals {
                    match actual {
                        Some(a) => if !json_equal(a, v) {
                            return false;
                        },
                        None => return false,
                    }
                }
                if let Some(v) = &c.not_equals {
                    match actual {
                        Some(a) => if json_equal(a, v) {
                            return false;
                        },
                        None => {},
                    }
                }
                if c.exists.is_none() && c.equals.is_none() && c.not_equals.is_none() {
                    return present;
                }
                true
            },
        }
    }
}

/// The ids of the platforms that can be updated from a saved source, in order.
pub open spec fn updatable(ps: Seq<PlatformConfig>) -> Seq<Seq<char>>
    decreases ps.len(),
{
    if ps.len() == 0 {
        Seq::empty()
    } else if ps.last().source_url is Some {
        updatable(ps.drop_last()).push(ps.last().id@)
    } else {
        updatable(ps.drop_last())
    }
}

/// The ids of the installed platforms that `platform update --all` updates: those
/// with a saved source URL.
pub fn updatable_ids(platforms: &[PlatformConfig]) -> (v: Vec<String>)
    ensures
        crate::strings::svec(v@) == updatable(platforms@),
{
    let mut v: Vec<String> = Vec::new();
    let mut i: usize = 0;
    while i < platforms.len()
        invariant
            i <= platforms@.len(),
            crate::strings::svec(v@) == updatable(platforms@.take(i as int)),
        decreases platforms@.len() - i,
    {
        assert(platforms@.take(i + 1).drop_last() =~= platforms@.take(i as int));
        assert(platforms@.take(i + 1).last() == platforms@[i as int]);
        if platforms[i].source_url.is_some() {
            let ghost before = crate::strings::svec(v@);
            let id = platforms[i].id.clone();
            v.push(id);
            assert(crate::strings::svec(v@) =~= before.push(platforms@[i as int].id@));
        }
        i = i + 1;
    }
    assert(platforms@.take(i as int) =~= platforms@);
    v
}

/// The file a platform is stored in, inside the platforms directory: its id with
/// `.json`.
pub fn config_file_name(id: &str) -> (s: String)
    ensures
        s@ == id@ + ".json"@,
{
    crate::strings::concat2(id, ".json")
}

} // verus!
