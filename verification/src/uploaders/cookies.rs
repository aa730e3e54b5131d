use vstd::prelude::*;
use crate::stream::api::{pairs, set_var, var_index, var_set};
use crate::stream::types::{get_var, var_get};
use crate::config::types::opt_text;
use crate::strings::{concat3, join_strings, svec};
use crate::text::{
    chars_of, copy_range, find_char, index_of, join, lemma_index_of, parse_u64, parse_u64_exec,
    split, split_chars, starts_with, starts_with_exec, string_from_chars, trim, trim_chars, views,
};
use crate::types::duration::DurationValue;
use crate::uploaders::jpg6::{percent_decode, url_decode};
use vstd::utf8::encode_utf8;

verus! {

/// A session's cookies: each value and, where the server gave one, its lifetime
/// in seconds; by name, in the order the names first came.
pub struct CookieJar {
    values: Vec<(String, String)>,
    max_ages: Vec<(String, u64)>,
}

/// The lifetimes of cookies by name.
pub open spec fn ages_view(v: Seq<(String, u64)>) -> Seq<(Seq<char>, u64)> {
    v.map_values(|p: (String, u64)| (p.0@, p.1))
}

/// The position of the lifetime of cookie `k`, or -1.
pub open spec fn age_index(ages: Seq<(Seq<char>, u64)>, k: Seq<char>) -> int
    decreases ages.len(),
{
    if ages.len() == 0 {
        -1
    } else if ages.last().0 == k && age_index(ages.drop_last(), k) < 0 {
        ages.len() - 1
    } else {
        age_index(ages.drop_last(), k)
    }
}

pub proof fn lemma_age_index(ages: Seq<(Seq<char>, u64)>, k: Seq<char>)
    ensures
        -1 <= age_index(ages, k) < ages.len(),
        age_index(ages, k) >= 0 ==> ages[age_index(ages, k)].0 == k,
        age_index(ages, k) < 0 ==> forall|j: int| 0 <= j < ages.len() ==> ages[j].0 != k,
        age_index(ages, k) >= 0 ==> forall|j: int| 0 <= j < age_index(ages, k) ==> ages[j].0 != k,
    decreases ages.len(),
{
    if ages.len() > 0 {
        lemma_age_index(ages.drop_last(), k);
        assert forall|j: int| 0 <= j < ages.len() - 1 implies ages.drop_last()[j] == ages[j] by {}
    }
}

/// The lifetimes once cookie `k` lives `a` seconds.
pub open spec fn age_set(ages: Seq<(Seq<char>, u64)>, k: Seq<char>, a: u64) -> Seq<(Seq<char>, u64)> {
    let i = age_index(ages, k);
    if i < 0 {
        ages.push((k, a))
    } else {
        ages.update(i, (k, a))
    }
}

/// The lifetime a `Set-Cookie` attribute gives: `Max-Age=` or `max-age=` and a
/// number of seconds, spaces around it allowed.
pub open spec fn max_age_of(part: Seq<char>) -> Option<u64> {
    let p = trim(part);
    if starts_with(p, "Max-Age="@) || starts_with(p, "max-age="@) {
        parse_u64(trim(p.skip(8)))
    } else {
        None
    }
}

/// The lifetimes after the attributes `parts` of a cookie named `name`, in order.
pub open spec fn ages_after(ages: Seq<(Seq<char>, u64)>, name: Seq<char>, parts: Seq<Seq<char>>) -> Seq<
    (Seq<char>, u64),
>
    decreases parts.len(),
{
    if parts.len() == 0 {
        ages
    } else {
        let a = ages_after(ages, name, parts.drop_last());
        match max_age_of(parts.last()) {
            Some(x) => age_set(a, name, x),
            None => a,
        }
    }
}

/// The name and value of a `Set-Cookie` header: the text before its first `;`,
/// trimmed, cut at its first `=`, each side trimmed; none without a `=` or with an
/// empty name.
pub open spec fn cookie_pair(cookie: Seq<char>) -> Option<(Seq<char>, Seq<char>)> {
    let pair = trim(split(cookie, ';')[0]);
    let i = index_of(pair, '=');
    if i < 0 || trim(pair.take(i)).len() == 0 {
        None
    } else {
        Some((trim(pair.take(i)), trim(pair.skip(i + 1))))
    }
}

/// The jar once one `Set-Cookie` header is taken in: its value set, and each
/// lifetime attribute after the first `;` applied in order.
pub open spec fn merge_one(
    values: Seq<(Seq<char>, Seq<char>)>,
    ages: Seq<(Seq<char>, u64)>,
    cookie: Seq<char>,
) -> (Seq<(Seq<char>, Seq<char>)>, Seq<(Seq<char>, u64)>) {
    match cookie_pair(cookie) {
        None => (values, ages),
        Some((n, v)) => (var_set(values, n, v), ages_after(ages, n, split(cookie, ';').drop_first())),
    }
}

/// The jar once the `Set-Cookie` headers are taken in, in order.
pub open spec fn merge_all(
    values: Seq<(Seq<char>, Seq<char>)>,
    ages: Seq<(Seq<char>, u64)>,
    cookies: Seq<Seq<char>>,
) -> (Seq<(Seq<char>, Seq<char>)>, Seq<(Seq<char>, u64)>)
    decreases cookies.len(),
{
    if cookies.len() == 0 {
        (values, ages)
    } else {
        let r = merge_all(values, ages, cookies.drop_last());
        merge_one(r.0, r.1, cookies.last())
    }
}

/// The shortest lifetime, if any.
pub open spec fn min_age(ages: Seq<(Seq<char>, u64)>) -> Option<u64>
    decreases ages.len(),
{
    if ages.len() == 0 {
        None
    } else {
        match min_age(ages.drop_last()) {
            Some(m) => Some(if ages.last().1 < m { ages.last().1 } else { m }),
            None => Some(ages.last().1),
        }
    }
}

/// The `name=value` texts of cookies.
pub open spec fn cookie_texts(values: Seq<(Seq<char>, Seq<char>)>) -> Seq<Seq<char>> {
    values.map_values(|p: (Seq<char>, Seq<char>)| p.0 + "="@ + p.1)
}

/// The values of exported cookies, each `%XX`-decoded, set in order.
pub open spec fn imported(cookies: Seq<(String, String)>) -> Seq<(Seq<char>, Seq<char>)>
    decreases cookies.len(),
{
    if cookies.len() == 0 {
        Seq::empty()
    } else {
        var_set(
            imported(cookies.drop_last()),
            cookies.last().0@,
            percent_decode(encode_utf8(cookies.last().1@)),
        )
    }
}

/// Once a `Set-Cookie` header with a name and value is taken in, the jar reads
/// back that value under that name, and other cookies keep theirs.
pub proof fn lemma_set_cookie_then_get(
    values: Seq<(Seq<char>, Seq<char>)>,
    ages: Seq<(Seq<char>, u64)>,
    cookie: Seq<char>,
    other: Seq<char>,
)
    requires
        cookie_pair(cookie) is Some,
    ensures
        var_get(merge_one(values, ages, cookie).0, cookie_pair(cookie).unwrap().0) == Some(
            cookie_pair(cookie).unwrap().1,
        ),
        other != cookie_pair(cookie).unwrap().0 ==> var_get(merge_one(values, ages, cookie).0, other)
            == var_get(values, other),
{
    let (n, v) = cookie_pair(cookie).unwrap();
    crate::stream::api::lemma_set_then_get(values, n, v, other);
}

fn set_age(ages: &mut Vec<(String, u64)>, k: &str, a: u64)
    ensures
        ages_view(final(ages)@) == age_set(ages_view(old(ages)@), k@, a),
{
    let ghost g = ages_view(ages@);
    proof {
        lemma_age_index(g, k@);
    }
    let mut i: usize = 0;
    while i < ages.len()
        invariant
            i <= ages@.len(),
            g == ages_view(ages@),
            g == ages_view(old(ages)@),
            forall|j: int| 0 <= j < i ==> g[j].0 != k@,
        decreases ages@.len() - i,
    {
        if crate::strings::str_eq(ages[i].0.as_str(), k) {
            proof {
                lemma_age_index(g, k@);
                assert(g[i as int].0 == k@);
                assert(age_index(g, k@) == i);
            }
            ages.set(i, (k.to_owned(), a));
            assert(ages_view(ages@) =~= g.update(i as int, (k@, a)));
            return;
        }
        i = i + 1;
    }
    proof {
        lemma_age_index(g, k@);
    }
    ages.push((k.to_owned(), a));
    assert(ages_view(ages@) =~= g.push((k@, a)));
}

/// Reads a lifetime attribute of a `Set-Cookie` header.
fn max_age_exec(part: &[char]) -> (r: Option<u64>)
    ensures
        r == max_age_of(part@),
{
    let p = trim_chars(part);
    if starts_with_exec(p.as_slice(), chars_of("Max-Age=").as_slice()) || starts_with_exec(
        p.as_slice(),
        chars_of("max-age=").as_slice(),
    ) {
        proof {
            reveal_strlit("Max-Age=");
            reveal_strlit("max-age=");
        }
        let rest = copy_range(p.as_slice(), 8, p.len());
        assert(rest@ =~= p@.skip(8));
        let t = trim_chars(rest.as_slice());
        parse_u64_exec(t.as_slice())
    } else {
        None
    }
}

/// Reads the name and value of a `Set-Cookie` header.
fn cookie_pair_exec(cookie: &str) -> (r: Option<(String, String)>)
    ensures
        match cookie_pair(cookie@) {
            Some((n, v)) => r matches Some((a, b)) && a@ == n && b@ == v,
            None => r is None,
        },
{
    let pieces = split_chars(chars_of(cookie).as_slice(), ';');
    proof {
        crate::text::lemma_split_nonempty(cookie@, ';');
    }
    assert(views(pieces@)[0] == pieces@[0]@);
    let pair = trim_chars(pieces[0].as_slice());
    match find_char(pair.as_slice(), '=', 0) {
        None => {
            proof {
                lemma_index_of(pair@, '=');
            }
            None
        },
        Some(i) => {
            proof {
                lemma_index_of(pair@, '=');
            }
            let head = copy_range(pair.as_slice(), 0, i);
            assert(head@ =~= pair@.take(i as int));
            let name = trim_chars(head.as_slice());
            if name.len() == 0 {
                return None;
            }
            let n = pair.len();
            assert(i < n);
            let tail = copy_range(pair.as_slice(), i + 1, n);
            assert(tail@ =~= pair@.skip(i + 1));
            let value = trim_chars(tail.as_slice());
            Some((string_from_chars(name.as_slice()), string_from_chars(value.as_slice())))
        },
    }
}

impl CookieJar {
    /// The cookies' values, by name.
    pub closed spec fn values(&self) -> Seq<(Seq<char>, Seq<char>)> {
        pairs(self.values@)
    }

    /// The cookies' lifetimes in seconds, by name.
    pub closed spec fn ages(&self) -> Seq<(Seq<char>, u64)> {
        ages_view(self.max_ages@)
    }

    /// An empty jar.
    pub fn new() -> (j: Self)
        ensures
            j.values() == Seq::<(Seq<char>, Seq<char>)>::empty(),
            j.ages() == Seq::<(Seq<char>, u64)>::empty(),
    {
        let j = CookieJar { values: Vec::new(), max_ages: Vec::new() };
        assert(j.values() =~= Seq::<(Seq<char>, Seq<char>)>::empty());
        assert(j.ages() =~= Seq::<(Seq<char>, u64)>::empty());
        j
    }

    /// A jar holding exported cookies (name and value pairs), each value
    /// `%XX`-decoded; a later cookie of the same name wins.
    pub fn from_export(cookies: &Vec<(String, String)>) -> (j: Self)
        ensures
            j.values() == imported(cookies@),
            j.ages() == Seq::<(Seq<char>, u64)>::empty(),
    {
        let mut j = CookieJar::new();
        let mut i: usize = 0;
        while i < cookies.len()
            invariant
                i <= cookies@.len(),
                j.values() == imported(cookies@.take(i as int)),
                j.ages() == Seq::<(Seq<char>, u64)>::empty(),
            decreases cookies@.len() - i,
        {
            assert(cookies@.take(i + 1).drop_last() =~= cookies@.take(i as int));
            assert(cookies@.take(i + 1).last() == cookies@[i as int]);
            let v = url_decode(cookies[i].1.as_str());
            set_var(&mut j.values, cookies[i].0.as_str(), v);
            i = i + 1;
        }
        assert(cookies@.take(i as int) =~= cookies@);
        j
    }

    /// The cookies as name and value pairs, for saving.
    pub fn entries(&self) -> (v: Vec<(String, String)>)
        ensures
            pairs(v@) == self.values(),
    {
        let mut v: Vec<(String, String)> = Vec::new();
        let mut i: usize = 0;
        while i < self.values.len()
            invariant
                i <= self.values@.len(),
                pairs(v@) == pairs(self.values@).take(i as int),
            decreases self.values@.len() - i,
        {
            let ghost before = pairs(v@);
            let k = self.values[i].0.clone();
            let x = self.values[i].1.clone();
            v.push((k, x));
            assert(pairs(v@) =~= before.push((k@, x@)));
            assert(pairs(v@) =~= pairs(self.values@).take(i + 1));
            i = i + 1;
        }
        assert(pairs(self.values@).take(i as int) =~= pairs(self.values@));
        v
    }

    /// Takes in the `Set-Cookie` headers of a response, in order: each sets its
    /// cookie's value, and its `Max-Age` attributes set the cookie's lifetime.
    pub fn merge_set_cookies(&mut self, set_cookies: &Vec<String>)
        ensures
            (final(self).values(), final(self).ages()) == merge_all(
                old(self).values(),
                old(self).ages(),
                svec(set_cookies@),
            ),
    {
        let ghost cs = svec(set_cookies@);
        let mut i: usize = 0;
        while i < set_cookies.len()
            invariant
                i <= set_cookies@.len(),
                cs == svec(set_cookies@),
                (self.values(), self.ages()) == merge_all(old(self).values(), old(self).ages(), cs.take(i as int)),
            decreases set_cookies@.len() - i,
        {
            assert(cs.take(i + 1).drop_last() =~= cs.take(i as int));
            assert(cs.take(i + 1).last() == set_cookies@[i as int]@);
            self.merge_one_cookie(set_cookies[i].as_str());
            i = i + 1;
        }
        assert(cs.take(i as int) =~= cs);
    }

    fn merge_one_cookie(&mut self, cookie: &str)
        ensures
            (final(self).values(), final(self).ages()) == merge_one(old(self).values(), old(self).ages(), cookie@),
    {
        let (name, value) = match cookie_pair_exec(cookie) {
            Some(p) => p,
            None => return,
        };
        let ghost v0 = value@;
        set_var(&mut self.values, name.as_str(), value);
        let parts = split_chars(chars_of(cookie).as_slice(), ';');
        let ghost ps = views(parts@).drop_first();
        let ghost ages0 = self.ages();
        assert(ages0 == old(self).ages());
        assert(self.values() == var_set(old(self).values(), name@, v0));
        assert(views(parts@) == split(cookie@, ';'));
        let mut i: usize = 1;
        proof {
            crate::text::lemma_split_nonempty(cookie@, ';');
            assert(ps.take(0) =~= Seq::<Seq<char>>::empty());
        }
        while i < parts.len()
            invariant
                1 <= i <= parts@.len(),
                ps == views(parts@).drop_first(),
                self.ages() == ages_after(ages0, name@, ps.take(i - 1)),
                self.values() == var_set(old(self).values(), name@, v0),
            decreases parts@.len() - i,
        {
            assert(ps.take(i as int).drop_last() =~= ps.take(i - 1));
            assert(ps.take(i as int).last() == parts@[i as int]@);
            match max_age_exec(parts[i].as_slice()) {
                Some(a) => set_age(&mut self.max_ages, name.as_str(), a),
                None => {},
            }
            i = i + 1;
        }
        assert(ps.take(i - 1) =~= ps);
        assert(self.values() == var_set(old(self).values(), name@, v0));
    }

    /// How often the session should be checked: half the shortest cookie lifetime,
    /// or five minutes when no lifetime is known.
    pub fn min_refresh_interval(&self) -> (d: DurationValue)
        ensures
            d@ == match min_age(self.ages()) {
                Some(a) => a * 500_000_000,
                None => 300_000_000_000,
            },
    {
        let mut m: Option<u64> = None;
        let mut i: usize = 0;
        while i < self.max_ages.len()
            invariant
                i <= self.max_ages@.len(),
                m == min_age(self.ages().take(i as int)),
            decreases self.max_ages@.len() - i,
        {
            assert(self.ages().take(i + 1).drop_last() =~= self.ages().take(i as int));
            let a = self.max_ages[i].1;
            m = match m {
                Some(x) => Some(if a < x { a } else { x }),
                None => Some(a),
            };
            i = i + 1;
        }
        assert(self.ages().take(i as int) =~= self.ages());
        match m {
            Some(a) => DurationValue::new(a / 2, ((a % 2) as u32) * 500_000_000),
            None => DurationValue::from_secs(300),
        }
    }

    /// The `Cookie` header for the jar: the `name=value` pairs joined by `; `, or
    /// none for an empty jar.
    pub fn header_value(&self) -> (h: Option<String>)
        ensures
            match h {
                Some(t) => self.values().len() > 0 && t@ == join(cookie_texts(self.values()), "; "@),
                None => self.values().len() == 0,
            },
    {
        if self.values.len() == 0 {
            return None;
        }
        let mut texts: Vec<String> = Vec::new();
        let mut i: usize = 0;
        while i < self.values.len()
            invariant
                i <= self.values@.len(),
                svec(texts@) == cookie_texts(self.values()).take(i as int),
            decreases self.values@.len() - i,
        {
            let t = concat3(self.values[i].0.as_str(), "=", self.values[i].1.as_str());
            let ghost before = svec(texts@);
            texts.push(t);
            assert(svec(texts@) =~= before.push(t@));
            assert(cookie_texts(self.values())[i as int] == t@);
            assert(svec(texts@) =~= cookie_texts(self.values()).take(i + 1));
            i = i + 1;
        }
        assert(cookie_texts(self.values()).take(i as int) =~= cookie_texts(self.values()));
        Some(join_strings(&texts, "; "))
    }

    /// The value of the cookie named `name`, if the jar holds it.
    pub fn get(&self, name: &str) -> (r: Option<String>)
        ensures
            opt_text(r) == var_get(self.values(), name@),
    {
        match get_var(self.values.as_slice(), name) {
            Some(v) => Some(v.clone()),
            None => None,
        }
    }

    /// Whether the jar holds a session: both `goonbox_session` and `XSRF-TOKEN`.
    pub fn is_ready(&self) -> (b: bool)
        ensures
            b == (var_get(self.values(), "goonbox_session"@) is Some && var_get(
                self.values(),
                "XSRF-TOKEN"@,
            ) is Some),
    {
        self.get("goonbox_session").is_some() && self.get("XSRF-TOKEN").is_some()
    }

    /// Whether the session is due for a check, `elapsed` after the last one.
    pub fn needs_refresh(&self, elapsed: &DurationValue) -> (b: bool)
        ensures
            b == (elapsed@ >= match min_age(self.ages()) {
                Some(a) => a * 500_000_000,
                None => 300_000_000_000,
            }),
    {
        let interval = self.min_refresh_interval();
        elapsed.as_nanos() >= interval.as_nanos()
    }
}

} // verus!
