use vstd::prelude::*;
use crate::text::{
    dec, lemma_dec_digits, all_digits, chars_of, copy_range, digit_value, digits_value, lemma_digits_value_monotone,
    lemma_digits_value_push, find_char, index_of, is_digit,
    is_digit_exec, lead_count, lemma_index_of, lemma_index_of_unique, lemma_lead_count,
    string_from_chars,
};

verus! {

/// A JSON value, as a platform API answers.
#[derive(Debug)]
pub enum JsonValue {
    Null,
    Bool(bool),
    /// A number, held as the text JSON writes it.
    Number(String),
    String(String),
    Array(Vec<JsonValue>),
    /// An object's members, in order; keys are unique.
    Object(Vec<(String, JsonValue)>),
}

/// The value of the first member of `members` named `key`.
pub open spec fn member(members: Seq<(String, JsonValue)>, key: Seq<char>) -> Option<JsonValue>
    decreases members.len(),
{
    if members.len() == 0 {
        None
    } else if members[0].0@ == key {
        Some(members[0].1)
    } else {
        member(members.drop_first(), key)
    }
}

/// Items that are pairwise the same from every position on.
pub proof fn lemma_items_same(xs: Seq<JsonValue>, ys: Seq<JsonValue>, i: int)
    requires
        0 <= i,
        xs.len() == ys.len(),
        forall|k: int| i <= k < xs.len() ==> json_same(#[trigger] xs[k], ys[k]),
    ensures
        items_same(xs, ys, i),
    decreases xs.len() - i,
{
    if i < xs.len() {
        lemma_items_same(xs, ys, i + 1);
    }
}

/// Members that pairwise have the same names and values from every position on.
pub proof fn lemma_members_same(xs: Seq<(String, JsonValue)>, ys: Seq<(String, JsonValue)>, i: int)
    requires
        0 <= i,
        xs.len() == ys.len(),
        forall|k: int| i <= k < xs.len() ==> #[trigger] xs[k].0@ == ys[k].0@ && json_same(xs[k].1, ys[k].1),
    ensures
        members_same(xs, ys, i),
    decreases xs.len() - i,
{
    if i < xs.len() {
        assert(xs[i].0@ == ys[i].0@ && json_same(xs[i].1, ys[i].1));
        lemma_members_same(xs, ys, i + 1);
    }
}

/// A copy of a JSON value.
#[verifier::loop_isolation(false)]
pub fn copy_json(v: &JsonValue) -> (r: JsonValue)
    ensures
        json_same(r, *v),
    decreases v,
{
    match v {
        JsonValue::Null => JsonValue::Null,
        JsonValue::Bool(b) => JsonValue::Bool(*b),
        JsonValue::Number(n) => JsonValue::Number(n.clone()),
        JsonValue::String(s) => JsonValue::String(s.clone()),
        JsonValue::Array(items) => {
            let mut out: Vec<JsonValue> = Vec::new();
            let mut i: usize = 0;
            while i < items.len()
                invariant
                    i <= items@.len(),
                    out@.len() == i,
                    forall|k: int| 0 <= k < i ==> json_same(#[trigger] out@[k], items@[k]),
                decreases items@.len() - i,
            {
                proof {
                    assert(decreases_to!(*v => *items));
                    assert(decreases_to!(*items => items@));
                    assert(decreases_to!(items@ => items@[i as int]));
                }
                let c = copy_json(&items[i]);
                out.push(c);
                i = i + 1;
            }
            proof {
                lemma_items_same(out@, items@, 0);
            }
            JsonValue::Array(out)
        },
        JsonValue::Object(members) => {
            let mut out: Vec<(String, JsonValue)> = Vec::new();
            let mut i: usize = 0;
            while i < members.len()
                invariant
                    i <= members@.len(),
                    out@.len() == i,
                    forall|k: int| 0 <= k < i ==> #[trigger] out@[k].0@ == members@[k].0@ && json_same(out@[k].1, members@[k].1),
                decreases members@.len() - i,
            {
                proof {
                    assert(decreases_to!(*v => *members));
                    assert(decreases_to!(*members => members@));
                    assert(decreases_to!(members@ => members@[i as int]));
                    assert(decreases_to!(members@[i as int] => members@[i as int].1));
                }
                let value = copy_json(&members[i].1);
                out.push((members[i].0.clone(), value));
                i = i + 1;
            }
            proof {
                lemma_members_same(out@, members@, 0);
            }
            JsonValue::Object(out)
        },
    }
}

/// The value of member `key` of an object; `None` for other values.
pub open spec fn json_member(v: JsonValue, key: Seq<char>) -> Option<JsonValue> {
    match v {
        JsonValue::Object(m) => member(m@, key),
        _ => None,
    }
}

/// The member `key` of an object value.
pub fn json_get<'a>(v: &'a JsonValue, key: &str) -> (r: Option<&'a JsonValue>)
    ensures
        match r {
            Some(x) => json_member(*v, key@) == Some(*x),
            None => json_member(*v, key@) is None,
        },
{
    match v {
        JsonValue::Object(members) => member_of(members, &key.to_owned()),
        _ => None,
    }
}

impl Clone for JsonValue {
    fn clone(&self) -> Self {
        copy_json(self)
    }
}

/// Whether two JSON values are the same value.
pub open spec fn json_same(a: JsonValue, b: JsonValue) -> bool
    decreases a, 0nat,
{
    match (a, b) {
        (JsonValue::Null, JsonValue::Null) => true,
        (JsonValue::Bool(x), JsonValue::Bool(y)) => x == y,
        (JsonValue::Number(x), JsonValue::Number(y)) => x@ == y@,
        (JsonValue::String(x), JsonValue::String(y)) => x@ == y@,
        (JsonValue::Array(x), JsonValue::Array(y)) => x@.len() == y@.len() && items_same(
            x@,
            y@,
            0,
        ),
        (JsonValue::Object(x), JsonValue::Object(y)) => x@.len() == y@.len() && members_same(
            x@,
            y@,
            0,
        ),
        _ => false,
    }
}

/// Whether the items from position `i` on are pairwise the same.
pub open spec fn items_same(xs: Seq<JsonValue>, ys: Seq<JsonValue>, i: int) -> bool
    decreases xs, xs.len() - i,
{
    if 0 <= i < xs.len() && i < ys.len() {
        json_same(xs[i], ys[i]) && items_same(xs, ys, i + 1)
    } else {
        true
    }
}

/// Whether the members from position `i` on pairwise have the same names and the
/// same values.
pub open spec fn members_same(xs: Seq<(String, JsonValue)>, ys: Seq<(String, JsonValue)>, i: int) -> bool
    decreases xs, xs.len() - i,
{
    if 0 <= i < xs.len() && i < ys.len() {
        xs[i].0@ == ys[i].0@ && json_same(xs[i].1, ys[i].1) && members_same(xs, ys, i + 1)
    } else {
        true
    }
}

/// Whether two JSON values are the same value.
pub fn json_equal(a: &JsonValue, b: &JsonValue) -> (r: bool)
    ensures
        r == json_same(*a, *b),
    decreases *a, 0nat,
{
    match (a, b) {
        (JsonValue::Null, JsonValue::Null) => true,
        (JsonValue::Bool(x), JsonValue::Bool(y)) => *x == *y,
        (JsonValue::Number(x), JsonValue::Number(y)) => *x == *y,
        (JsonValue::String(x), JsonValue::String(y)) => *x == *y,
        (JsonValue::Array(x), JsonValue::Array(y)) => {
            if x.len() != y.len() {
                return false;
            }
            proof {
                assert(decreases_to!(*a => *x));
                assert(decreases_to!(*x => x@));
            }
            items_equal(x, y, 0)
        },
        (JsonValue::Object(x), JsonValue::Object(y)) => {
            if x.len() != y.len() {
                return false;
            }
            proof {
                assert(decreases_to!(*a => *x));
                assert(decreases_to!(*x => x@));
            }
            members_equal(x, y, 0)
        },
        _ => false,
    }
}

fn items_equal(xs: &Vec<JsonValue>, ys: &Vec<JsonValue>, i: usize) -> (r: bool)
    requires
        i <= xs@.len(),
        xs@.len() == ys@.len(),
    ensures
        r == items_same(xs@, ys@, i as int),
    decreases xs@, xs@.len() - i,
{
    if i == xs.len() {
        return true;
    }
    proof {
        assert(decreases_to!(xs@ => xs@[i as int]));
    }
    json_equal(&xs[i], &ys[i]) && items_equal(xs, ys, i + 1)
}

fn members_equal(xs: &Vec<(String, JsonValue)>, ys: &Vec<(String, JsonValue)>, i: usize) -> (r:
    bool)
    requires
        i <= xs@.len(),
        xs@.len() == ys@.len(),
    ensures
        r == members_same(xs@, ys@, i as int),
    decreases xs@, xs@.len() - i,
{
    if i == xs.len() {
        return true;
    }
    proof {
        assert(decreases_to!(xs@ => xs@[i as int]));
        assert(decreases_to!(xs@[i as int] => xs@[i as int].1));
    }
    xs[i].0 == ys[i].0 && json_equal(&xs[i].1, &ys[i].1) && members_equal(xs, ys, i + 1)
}

/// One step of a JSON path: an object member or an array position.
#[derive(Debug)]
pub enum PathSegment {
    Key(String),
    Index(usize),
}

/// A path step as the contracts see it.
pub enum Segment {
    Key(Seq<char>),
    Index(usize),
}

pub open spec fn segment_view(s: PathSegment) -> Segment {
    match s {
        PathSegment::Key(k) => Segment::Key(k@),
        PathSegment::Index(i) => Segment::Index(i),
    }
}

pub open spec fn segments_view(v: Seq<PathSegment>) -> Seq<Segment> {
    v.map_values(|s: PathSegment| segment_view(s))
}

/// `str::parse::<usize>`: an optional `+`, then one or more ASCII digits, in range.
pub open spec fn parse_usize(s: Seq<char>) -> Option<usize> {
    let body = if s.len() > 0 && s[0] == '+' {
        s.drop_first()
    } else {
        s
    };
    if body.len() > 0 && all_digits(body) && digits_value(body) <= usize::MAX {
        Some(digits_value(body) as usize)
    } else {
        None
    }
}

/// Characters that belong to a key of a path.
pub open spec fn key_char() -> spec_fn(char) -> bool {
    |c: char| c != '.' && c != '['
}

/// The `[N]` steps at the start of `s`, and what follows them; a `[` without a
/// closing `]` ends them, and a bracket that holds no index gives no step.
pub open spec fn bracket_segments(s: Seq<char>) -> (Seq<Segment>, Seq<char>)
    decreases s.len(),
{
    if s.len() > 0 && s[0] == '[' && index_of(s, ']') >= 0 {
        let close = index_of(s, ']');
        proof {
            lemma_index_of(s, ']');
        }
        let step = match parse_usize(s.subrange(1, close)) {
            Some(i) => seq![Segment::Index(i)],
            None => Seq::empty(),
        };
        let (more, rest) = bracket_segments(s.skip(close + 1));
        (step + more, rest)
    } else {
        (Seq::empty(), s)
    }
}

/// The steps of a dot path such as `response[0].id`, or `None` when reading it
/// would never end (an unclosed `[` where a key should start).
pub open spec fn path_segments(rem: Seq<char>) -> Option<Seq<Segment>>
    decreases rem.len(),
{
    let r = if rem.len() > 0 && rem[0] == '.' {
        rem.drop_first()
    } else {
        rem
    };
    if r.len() == 0 {
        Some(Seq::empty())
    } else {
        let k = lead_count(r, key_char());
        let key = r.take(k as int);
        let head = if key.len() > 0 {
            seq![Segment::Key(key)]
        } else {
            Seq::<Segment>::empty()
        };
        let (steps, rest) = bracket_segments(r.skip(k as int));
        if rest.len() < rem.len() {
            match path_segments(rest) {
                Some(tail) => Some(head + steps + tail),
                None => None,
            }
        } else {
            None
        }
    }
}

/// `str::parse::<usize>`.
pub fn parse_usize_exec(s: &[char]) -> (r: Option<usize>)
    ensures
        r == parse_usize(s@),
{
    let mut i: usize = 0;
    if s.len() > 0 && s[0] == '+' {
        i = 1;
    }
    let ghost body = if s@.len() > 0 && s@[0] == '+' {
        s@.drop_first()
    } else {
        s@
    };
    assert(body == s@.skip(i as int));
    if i == s.len() {
        return None;
    }
    let start = i;
    let mut value: usize = 0;
    while i < s.len()
        invariant
            start <= i <= s@.len(),
            body == s@.skip(start as int),
            body == (if s@.len() > 0 && s@[0] == '+' {
                s@.drop_first()
            } else {
                s@
            }),
            all_digits(s@.subrange(start as int, i as int)),
            value == digits_value(s@.subrange(start as int, i as int)),
        decreases s@.len() - i,
    {
        let c = s[i];
        if !is_digit_exec(c) {
            assert(body[i - start] == c);
            return None;
        }
        let d: usize = (c as u32 - '0' as u32) as usize;
        proof {
            assert(s@.subrange(start as int, i + 1) == s@.subrange(start as int, i as int).push(c));
            lemma_digits_value_push(s@.subrange(start as int, i as int), c);
        }
        let next = match value.checked_mul(10) {
            Some(m) => m.checked_add(d),
            None => None,
        };
        i = i + 1;
        match next {
            Some(n) => {
                value = n;
            },
            None => {
                proof {
                    if all_digits(body) {
                        assert(body.take(i - start) == s@.subrange(start as int, i as int));
                        lemma_digits_value_monotone(body, i - start);
                    }
                }
                return None;
            },
        }
    }
    assert(body == s@.subrange(start as int, i as int));
    Some(value)
}

fn read_brackets(c: &Vec<char>, pos: usize, segs: &mut Vec<PathSegment>) -> (end: usize)
    requires
        pos <= c@.len(),
    ensures
        pos <= end <= c@.len(),
        segments_view(final(segs)@) == segments_view(old(segs)@) + bracket_segments(
            c@.skip(pos as int),
        ).0,
        c@.skip(end as int) == bracket_segments(c@.skip(pos as int)).1,
    decreases c@.len() - pos,
{
    let ghost s = c@.skip(pos as int);
    if pos < c.len() && c[pos] == '[' {
        proof {
            lemma_index_of(s, ']');
        }
        match find_char(c.as_slice(), ']', pos) {
            Some(close) => {
                proof {
                    assert forall|j: int| 0 <= j < s.len() && j < close - pos implies s[j] != ']' by {
                        assert(s[j] == c@[j + pos]);
                    }
                    assert(s[close - pos] == c@[close as int]);
                    lemma_index_of_unique(s, ']', close - pos);
                    assert(s.skip(close - pos + 1) == c@.skip(close + 1));
                }
                let inner = copy_range(c.as_slice(), pos + 1, close);
                assert(inner@ == s.subrange(1, close - pos));
                match parse_usize_exec(inner.as_slice()) {
                    Some(i) => {
                        let ghost before = segments_view(segs@);
                        segs.push(PathSegment::Index(i));
                        assert(segments_view(segs@) == before.push(Segment::Index(i)));
                    },
                    None => {},
                }
                let ghost mid = segments_view(segs@);
                let end = read_brackets(c, close + 1, segs);
                assert(segments_view(segs@) =~= segments_view(old(segs)@) + bracket_segments(s).0);
                end
            },
            None => {
                proof {
                    assert forall|j: int| 0 <= j < s.len() implies s[j] != ']' by {
                        assert(s[j] == c@[j + pos]);
                    }
                    lemma_index_of_unique(s, ']', -1);
                }
                assert(segments_view(segs@) =~= segments_view(old(segs)@) + Seq::<Segment>::empty());
                pos
            },
        }
    } else {
        assert(segments_view(segs@) =~= segments_view(old(segs)@) + Seq::<Segment>::empty());
        pos
    }
}

/// The key at position `pos` (the characters up to the next `.` or `[`), pushed
/// as a step when it is not empty; gives the position after it.
fn read_key(c: &Vec<char>, pos: usize, segs: &mut Vec<PathSegment>) -> (end: usize)
    requires
        pos <= c@.len(),
    ensures
        end == pos + lead_count(c@.skip(pos as int), key_char()),
        end <= c@.len(),
        segments_view(final(segs)@) == segments_view(old(segs)@) + if end > pos {
            seq![Segment::Key(c@.skip(pos as int).take(end - pos))]
        } else {
            Seq::<Segment>::empty()
        },
        c@.skip(end as int) == c@.skip(pos as int).skip(end - pos),
{
    let ghost r = c@.skip(pos as int);
    let mut end = pos;
    while end < c.len() && c[end] != '.' && c[end] != '['
        invariant
            pos <= end <= c@.len(),
            forall|j: int| pos <= j < end ==> c@[j] != '.' && c@[j] != '[',
        decreases c@.len() - end,
    {
        end = end + 1;
    }
    proof {
        assert forall|j: int| 0 <= j < end - pos implies (key_char())(r[j]) by {
            assert(r[j] == c@[j + pos]);
        }
        if end < c@.len() {
            assert(r[end - pos] == c@[end as int]);
        }
        lemma_lead_count(r, key_char(), end - pos);
        assert(r.skip(end - pos) == c@.skip(end as int));
    }
    let ghost before = segments_view(segs@);
    if end > pos {
        let key = copy_range(c.as_slice(), pos, end);
        assert(key@ == r.take(end - pos));
        segs.push(PathSegment::Key(string_from_chars(key.as_slice())));
        assert(segments_view(segs@) == before.push(Segment::Key(r.take(end - pos))));
    } else {
        assert(segments_view(segs@) =~= before + Seq::<Segment>::empty());
    }
    end
}

/// Reads the steps of a dot path such as `response[0].id`, or `None` when reading it
/// would never end.
#[verifier::rlimit(30)]
fn read_path(path: &str) -> (r: Option<Vec<PathSegment>>)
    ensures
        match r {
            Some(v) => path_segments(path@) == Some(segments_view(v@)),
            None => path_segments(path@) is None,
        },
{
    let c = chars_of(path);
    let mut segs: Vec<PathSegment> = Vec::new();
    let mut pos: usize = 0;
    assert(c@.skip(0) == c@);
    loop
        invariant
            pos <= c@.len(),
            c@ == path@,
            path_segments(path@) == match path_segments(c@.skip(pos as int)) {
                Some(t) => Some(segments_view(segs@) + t),
                None => None,
            },
        ensures
            path_segments(path@) == Some(segments_view(segs@)),
        decreases c@.len() - pos,
    {
        let ghost rem = c@.skip(pos as int);
        let ghost before = segments_view(segs@);
        let entry = pos;
        if pos < c.len() && c[pos] == '.' {
            pos = pos + 1;
            assert(rem.drop_first() == c@.skip(pos as int));
        }
        let ghost r = c@.skip(pos as int);
        if pos == c.len() {
            assert(r.len() == 0);
            assert(path_segments(rem) == Some(Seq::<Segment>::empty()));
            assert(segments_view(segs@) =~= segments_view(segs@) + Seq::<Segment>::empty());
            break;
        }
        pos = read_key(&c, pos, &mut segs);
        let ghost with_key = segments_view(segs@);
        let end = read_brackets(&c, pos, &mut segs);
        let ghost k = lead_count(r, key_char());
        let ghost head = if r.take(k as int).len() > 0 {
            seq![Segment::Key(r.take(k as int))]
        } else {
            Seq::<Segment>::empty()
        };
        let ghost bs = bracket_segments(r.skip(k as int));
        proof {
            assert(with_key =~= before + head);
            assert(c@.skip(end as int) == bs.1);
        }
        if end == entry {
            assert(bs.1.len() == rem.len());
            assert(path_segments(rem) is None);
            return None;
        }
        proof {
            assert(bs.1.len() < rem.len());
            if path_segments(bs.1) is Some {
                assert(segments_view(segs@) + path_segments(c@.skip(end as int))->0 =~= before + (
                head + bs.0 + path_segments(bs.1)->0));
            }
        }
        pos = end;
    }
    Some(segs)
}

/// Whether reading `path` ends, so that it can be followed.
pub fn path_terminates(path: &str) -> (b: bool)
    ensures
        b == path_readable(path@),
{
    read_path(path).is_some()
}

/// Reads the steps of a dot path such as `response[0].id`: keys separated by
/// dots, each followed by any `[N]` positions; a bracket that holds no index is
/// skipped.
pub fn parse_path_segments(path: &str) -> (r: Vec<PathSegment>)
    requires
        path_segments(path@) is Some,
    ensures
        Some(segments_view(r@)) == path_segments(path@),
{
    match read_path(path) {
        Some(v) => v,
        None => Vec::new(),
    }
}

/// The value one step below `v`: an object's member or an array's item.
pub open spec fn json_step(v: JsonValue, seg: Segment) -> Option<JsonValue> {
    match seg {
        Segment::Key(k) => match v {
            JsonValue::Object(m) => member(m@, k),
            _ => None,
        },
        Segment::Index(i) => match v {
            JsonValue::Array(a) => if i < a@.len() {
                Some(a@[i as int])
            } else {
                None
            },
            _ => None,
        },
    }
}

/// The value that the steps lead to from `v`; `None` when a step is missing or
/// reaches `null`.
pub open spec fn json_at(v: JsonValue, segs: Seq<Segment>) -> Option<JsonValue>
    decreases segs.len(),
{
    if segs.len() == 0 {
        Some(v)
    } else {
        match json_step(v, segs[0]) {
            Some(child) => if child is Null {
                None
            } else {
                json_at(child, segs.drop_first())
            },
            None => None,
        }
    }
}

/// Whether following `path` from `value` may go ahead: the path's reading ends.
pub open spec fn path_readable(path: Seq<char>) -> bool {
    path_segments(path) is Some
}

/// What `path` leads to from `value`.
pub open spec fn json_path_value(value: JsonValue, path: Seq<char>) -> Option<JsonValue> {
    json_at(value, path_segments(path)->0)
}

fn member_of<'a>(members: &'a Vec<(String, JsonValue)>, key: &String) -> (r: Option<&'a JsonValue>)
    ensures
        match r {
            Some(x) => member(members@, key@) == Some(*x),
            None => member(members@, key@) is None,
        },
{
    let mut i: usize = 0;
    assert(members@.skip(0) == members@);
    while i < members.len()
        invariant
            i <= members@.len(),
            member(members@.skip(i as int), key@) == member(members@, key@),
        decreases members@.len() - i,
    {
        proof {
            assert(members@.skip(i as int).drop_first() == members@.skip(i + 1));
        }
        if members[i].0 == *key {
            return Some(&members[i].1);
        }
        i = i + 1;
    }
    None
}

/// Follows a dot path such as `response[0].id` through a JSON value; `None` when a
/// step is missing or reaches `null`.
pub fn extract_json_value<'a>(value: &'a JsonValue, path: &str) -> (r: Option<&'a JsonValue>)
    requires
        path_readable(path@),
    ensures
        match r {
            Some(x) => json_path_value(*value, path@) == Some(*x),
            None => json_path_value(*value, path@) is None,
        },
{
    let segs = parse_path_segments(path);
    let ghost all = segments_view(segs@);
    let mut current: &JsonValue = value;
    let mut i: usize = 0;
    assert(all.skip(0) == all);
    while i < segs.len()
        invariant
            i <= segs@.len(),
            all == segments_view(segs@),
            Some(all) == path_segments(path@),
            json_at(*current, all.skip(i as int)) == json_path_value(*value, path@),
        decreases segs@.len() - i,
    {
        let ghost rest = all.skip(i as int);
        proof {
            assert(rest[0] == segment_view(segs@[i as int]));
            assert(rest.drop_first() == all.skip(i + 1));
        }
        let next = match &segs[i] {
            PathSegment::Key(key) => match current {
                JsonValue::Object(members) => member_of(members, key),
                _ => None,
            },
            PathSegment::Index(idx) => match current {
                JsonValue::Array(items) => if *idx < items.len() {
                    Some(&items[*idx])
                } else {
                    None
                },
                _ => None,
            },
        };
        match next {
            Some(child) => {
                if let JsonValue::Null = child {
                    return None;
                }
                current = child;
            },
            None => {
                return None;
            },
        }
        i = i + 1;
    }
    Some(current)
}

/// The text of a string or number value, as a pipeline variable holds it.
pub open spec fn json_text(v: JsonValue) -> Option<Seq<char>> {
    match v {
        JsonValue::String(s) => Some(s@),
        JsonValue::Number(n) => Some(n@),
        _ => None,
    }
}

/// A string's text or a number's digits; `None` for other values.
pub fn json_value_to_string(v: &JsonValue) -> (r: Option<String>)
    ensures
        match r {
            Some(s) => json_text(*v) == Some(s@),
            None => json_text(*v) is None,
        },
{
    match v {
        JsonValue::String(s) => Some(s.clone()),
        JsonValue::Number(n) => Some(n.clone()),
        _ => None,
    }
}

/// Reading `[N]` followed by nothing gives the one index step `N`.
proof fn lemma_index_brackets(n: usize)
    ensures
        bracket_segments(seq!['['] + dec(n as nat) + seq![']']) == (
            seq![Segment::Index(n)],
            Seq::<char>::empty(),
        ),
{
    let d = dec(n as nat);
    lemma_dec_digits(n as nat);
    let s = seq!['['] + d + seq![']'];
    let close: int = d.len() as int + 1;
    assert(s[close as int] == ']');
    assert forall|j: int| 0 <= j < s.len() && j < close implies s[j] != ']' by {
        if j > 0 {
            assert(s[j] == d[j - 1]);
            assert(is_digit(d[j - 1]));
        }
    }
    lemma_index_of_unique(s, ']', close as int);
    assert(s.subrange(1, close as int) =~= d);
    assert(is_digit(d[0]));
    assert(parse_usize(d) == Some(n));
    assert(s.skip(close + 1) =~= Seq::<char>::empty());
    assert(bracket_segments(Seq::<char>::empty()) == (Seq::<Segment>::empty(), Seq::<char>::empty()));
    assert(seq![Segment::Index(n)] + Seq::<Segment>::empty() =~= seq![Segment::Index(n)]);
}

/// A path `key[N]` steps into the member `key` and then to the item at position `N`
/// from the start of that array: when the value holds an array `a` under `key` and
/// `N < a.len()`, following `key[N]` gives `a[N]` (nothing when `a[N]` is `null`).
pub proof fn lemma_index_step_from_start(value: JsonValue, key: Seq<char>, a: Seq<JsonValue>, n: usize)
    requires
        key.len() > 0,
        forall|i: int| 0 <= i < key.len() ==> #[trigger] key[i] != '.' && key[i] != '[',
        value matches JsonValue::Object(m) && member(m@, key) matches Some(JsonValue::Array(items))
            && items@ == a,
        n < a.len(),
    ensures
        path_readable(key + seq!['['] + dec(n as nat) + seq![']']),
        json_path_value(value, key + seq!['['] + dec(n as nat) + seq![']']) == if a[n as int] is Null {
            None
        } else {
            Some(a[n as int])
        },
{
    let b = seq!['['] + dec(n as nat) + seq![']'];
    let path = key + b;
    assert(path =~= key + seq!['['] + dec(n as nat) + seq![']']);
    lemma_index_brackets(n);
    assert(path[0] == key[0]);
    lemma_lead_count(path, key_char(), key.len() as int);
    assert(path.take(key.len() as int) =~= key);
    assert(path.skip(key.len() as int) =~= b);
    assert(path_segments(Seq::<char>::empty()) == Some(Seq::<Segment>::empty()));
    let segs = seq![Segment::Key(key)] + seq![Segment::Index(n)] + Seq::<Segment>::empty();
    assert(path_segments(path) == Some(segs));
    assert(segs[0] == Segment::Key(key));
    assert(segs.drop_first() =~= seq![Segment::Index(n)]);
    assert(seq![Segment::Index(n)].drop_first() =~= Seq::<Segment>::empty());
    let arr = member(value->Object_0@, key)->0;
    assert(json_step(value, segs[0]) == Some(arr));
    assert(json_at(value, segs) == json_at(arr, seq![Segment::Index(n)]));
    assert(json_step(arr, Segment::Index(n)) == Some(a[n as int]));
    assert(json_at(a[n as int], Seq::<Segment>::empty()) == Some(a[n as int]));
}

/// A path `[N]` on an array gives the item at position `N` from the start (nothing
/// when it is `null` or past the end).
pub proof fn lemma_array_index_from_start(a: Seq<JsonValue>, value: JsonValue, n: usize)
    requires
        value matches JsonValue::Array(items) && items@ == a,
    ensures
        path_readable(seq!['['] + dec(n as nat) + seq![']']),
        json_path_value(value, seq!['['] + dec(n as nat) + seq![']']) == if n < a.len() && !(
        a[n as int] is Null) {
            Some(a[n as int])
        } else {
            None
        },
{
    let path = seq!['['] + dec(n as nat) + seq![']'];
    lemma_index_brackets(n);
    lemma_lead_count(path, key_char(), 0);
    assert(path.take(0) =~= Seq::<char>::empty());
    assert(path.skip(0) =~= path);
    assert(path_segments(Seq::<char>::empty()) == Some(Seq::<Segment>::empty()));
    let segs = Seq::<Segment>::empty() + seq![Segment::Index(n)] + Seq::<Segment>::empty();
    assert(path_segments(path) == Some(segs));
    assert(segs =~= seq![Segment::Index(n)]);
    assert(seq![Segment::Index(n)].drop_first() =~= Seq::<Segment>::empty());
    if n < a.len() {
        assert(json_at(a[n as int], Seq::<Segment>::empty()) == Some(a[n as int]));
    }
}

} // verus!
