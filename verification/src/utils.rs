use vstd::prelude::*;
use crate::config::types::opt_text;
use crate::text::{
    chars_of, copy_range, eq_lit, find_char, index_of, join, join_chars, lemma_index_of,
    lemma_index_of_unique, lower, lower_exec, split, split_chars, string_from_chars, trim,
    trim_chars, upper_seq, views,
};
use crate::unicode::{ascii_text, is_alphanumeric, to_uppercase, unicode_alphanumeric, unicode_upper};

verus! {

/// Why a monitor reference is not of the form `platform:username`.
#[derive(Clone, Copy, Debug, PartialEq, Eq, Structural)]
pub enum SplitMonitorReferenceError {
    InvalidFormat,
    EmptyPlatform,
    EmptyUsername,
}

/// The platform and username of a `platform:username` reference: the text around
/// its first `:`, both non-empty.
pub open spec fn monitor_parts(r: Seq<char>) -> Result<
    (Seq<char>, Seq<char>),
    SplitMonitorReferenceError,
> {
    let i = index_of(r, ':');
    if i < 0 {
        Err(SplitMonitorReferenceError::InvalidFormat)
    } else if i == 0 {
        Err(SplitMonitorReferenceError::EmptyPlatform)
    } else if i + 1 == r.len() {
        Err(SplitMonitorReferenceError::EmptyUsername)
    } else {
        Ok((r.take(i), r.skip(i + 1)))
    }
}

/// Splits a monitor reference `platform:username` at its first `:`; the username
/// may hold further colons.
pub fn split_monitor_reference(reference: &str) -> (r: Result<
    (String, String),
    SplitMonitorReferenceError,
>)
    ensures
        match monitor_parts(reference@) {
            Ok((p, u)) => r matches Ok((a, b)) && a@ == p && b@ == u,
            Err(e) => r == Err::<(String, String), SplitMonitorReferenceError>(e),
        },
{
    let c = chars_of(reference);
    proof {
        lemma_index_of(reference@, ':');
    }
    let i = match find_char(c.as_slice(), ':', 0) {
        Some(i) => i,
        None => {
            proof {
                lemma_index_of_unique(reference@, ':', -1);
            }
            return Err(SplitMonitorReferenceError::InvalidFormat);
        },
    };
    proof {
        lemma_index_of_unique(reference@, ':', i as int);
    }
    if i == 0 {
        return Err(SplitMonitorReferenceError::EmptyPlatform);
    }
    if i + 1 == c.len() {
        return Err(SplitMonitorReferenceError::EmptyUsername);
    }
    let platform = copy_range(c.as_slice(), 0, i);
    let username = copy_range(c.as_slice(), i + 1, c.len());
    assert(platform@ == reference@.take(i as int));
    assert(username@ == reference@.skip(i + 1));
    Ok((string_from_chars(platform.as_slice()), string_from_chars(username.as_slice())))
}

/// Joining a platform without colons and a username with `:` and splitting the
/// result gives the two back; and whatever splits joins back to the reference.
pub proof fn lemma_monitor_reference_round_trip(p: Seq<char>, u: Seq<char>, r: Seq<char>)
    requires
        p.len() > 0,
        u.len() > 0,
        forall|i: int| 0 <= i < p.len() ==> p[i] != ':',
    ensures
        monitor_parts(p + seq![':'] + u) == Ok::<
            (Seq<char>, Seq<char>),
            SplitMonitorReferenceError,
        >((p, u)),
        monitor_parts(r) matches Ok((a, b)) ==> a + seq![':'] + b == r,
{
    let s = p + seq![':'] + u;
    assert forall|j: int| 0 <= j < s.len() && j < p.len() implies s[j] != ':' by {
        assert(s[j] == p[j]);
    }
    lemma_index_of_unique(s, ':', p.len() as int);
    assert(s.take(p.len() as int) =~= p);
    assert(s.skip(p.len() as int + 1) =~= u);
    lemma_index_of(r, ':');
    if monitor_parts(r) is Ok {
        let i = index_of(r, ':');
        assert(r.take(i) + seq![':'] + r.skip(i + 1) =~= r);
    }
}

/// Whether `c` is an ASCII letter or digit.
pub open spec fn ascii_alphanumeric(c: char) -> bool {
    'a' <= c <= 'z' || 'A' <= c <= 'Z' || '0' <= c <= '9'
}

/// The character a slug keeps for `c`: letters, digits, `_` and `-` (in ASCII
/// lower case); anything else becomes `-`. Among ASCII characters the letters and
/// digits are exactly the alphanumeric ones.
pub open spec fn slug_char(c: char) -> char {
    if (c as u32) < 128 {
        if ascii_alphanumeric(c) || c == '_' || c == '-' {
            lower(c)
        } else {
            '-'
        }
    } else if unicode_alphanumeric(c) {
        c
    } else {
        '-'
    }
}

/// A character that a slug may hold: `-`, `_`, a lower-case ASCII letter, an ASCII
/// digit, or an alphanumeric character beyond ASCII.
pub open spec fn slug_output_char(c: char) -> bool {
    ||| c == '-'
    ||| c == '_'
    ||| 'a' <= c <= 'z'
    ||| '0' <= c <= '9'
    ||| (c as u32) >= 128 && unicode_alphanumeric(c)
}

/// The non-empty pieces, in order.
pub open spec fn nonempty_pieces(pieces: Seq<Seq<char>>) -> Seq<Seq<char>>
    decreases pieces.len(),
{
    if pieces.len() == 0 {
        Seq::empty()
    } else {
        let rest = nonempty_pieces(pieces.drop_last());
        if pieces.last().len() == 0 {
            rest
        } else {
            rest.push(pieces.last())
        }
    }
}

/// The slug of `s`: its characters mapped by `slug_char`, split at `-`, the empty
/// pieces dropped and the rest joined by `-`.
pub open spec fn slug(s: Seq<char>) -> Seq<char> {
    join(nonempty_pieces(split(s.map_values(|c: char| slug_char(c)), '-')), "-"@)
}

/// Whether `c` stands nowhere in `q`.
pub open spec fn free_of(q: Seq<char>, c: char) -> bool {
    forall|j: int| 0 <= j < q.len() ==> #[trigger] q[j] != c
}

/// No piece that `split` gives holds the separator.
proof fn lemma_split_free(s: Seq<char>, c: char)
    ensures
        forall|k: int| 0 <= k < split(s, c).len() ==> free_of(#[trigger] split(s, c)[k], c),
    decreases s.len(),
{
    lemma_index_of(s, c);
    let i = index_of(s, c);
    let p = split(s, c);
    if i < 0 {
        assert(p == seq![s]);
        assert(free_of(s, c));
    } else {
        lemma_split_free(s.skip(i + 1), c);
        let rest = split(s.skip(i + 1), c);
        assert(p == seq![s.take(i)] + rest);
        assert forall|k: int| 0 <= k < p.len() implies free_of(#[trigger] p[k], c) by {
            if k == 0 {
                assert(p[0] == s.take(i));
                assert forall|j: int| 0 <= j < s.take(i).len() implies #[trigger] s.take(i)[j] != c by {
                    assert(s.take(i)[j] == s[j]);
                }
            } else {
                assert(p[k] == rest[k - 1]);
            }
        }
    }
}

/// The pieces `nonempty_pieces` keeps are non-empty and come from the given ones.
proof fn lemma_nonempty_pieces(ps: Seq<Seq<char>>, c: char)
    requires
        forall|k: int| 0 <= k < ps.len() ==> free_of(#[trigger] ps[k], c),
    ensures
        forall|k: int| 0 <= k < nonempty_pieces(ps).len() ==> #[trigger] nonempty_pieces(ps)[k].len() > 0
            && free_of(nonempty_pieces(ps)[k], c),
    decreases ps.len(),
{
    if ps.len() > 0 {
        let d = ps.drop_last();
        assert forall|k: int| 0 <= k < d.len() implies free_of(#[trigger] d[k], c) by {
            assert(d[k] == ps[k]);
        }
        lemma_nonempty_pieces(d, c);
        assert(free_of(ps.last(), c));
        let r = nonempty_pieces(d);
        let n = nonempty_pieces(ps);
        if ps.last().len() == 0 {
            assert(n == r);
        } else {
            assert(n == r.push(ps.last()));
            assert forall|k: int| 0 <= k < n.len() implies #[trigger] n[k].len() > 0 && free_of(n[k], c) by {
                if k < r.len() {
                    assert(n[k] == r[k]);
                }
            }
        }
    }
}

/// Joining non-empty dash-free pieces by `-` gives a text that neither starts nor
/// ends with `-` and holds no two dashes in a row.
proof fn lemma_join_dashes(q: Seq<Seq<char>>)
    requires
        forall|k: int| 0 <= k < q.len() ==> #[trigger] q[k].len() > 0 && free_of(q[k], '-'),
    ensures
        q.len() > 0 ==> join(q, "-"@).len() > 0 && join(q, "-"@)[0] != '-' && join(q, "-"@).last() != '-',
        forall|i: int| 0 <= i < join(q, "-"@).len() - 1 ==> !(#[trigger] join(q, "-"@)[i] == '-' && join(q, "-"@)[i + 1] == '-'),
    decreases q.len(),
{
    reveal_strlit("-");
    if q.len() == 1 {
        let p = q[0];
        assert(join(q, "-"@) == p);
        assert(free_of(p, '-'));
        assert(p[0] != '-' && p.last() != '-');
    } else if q.len() > 1 {
        let d = q.drop_last();
        assert forall|k: int| 0 <= k < d.len() implies #[trigger] d[k].len() > 0 && free_of(d[k], '-') by {
            assert(d[k] == q[k]);
        }
        lemma_join_dashes(d);
        let a = join(d, "-"@);
        let b = q.last();
        assert(b.len() > 0 && free_of(b, '-'));
        let j = join(q, "-"@);
        assert(j == a + "-"@ + b);
        assert(j[0] == a[0]);
        assert(j.last() == b.last());
        assert forall|i: int| 0 <= i < j.len() - 1 implies !(#[trigger] j[i] == '-' && j[i + 1] == '-') by {
            if i < a.len() - 1 {
                assert(j[i] == a[i] && j[i + 1] == a[i + 1]);
            } else if i == a.len() - 1 {
                assert(j[i] == a.last());
            } else if i == a.len() {
                assert(j[i + 1] == b[0]);
            } else {
                assert(j[i] == b[i - a.len() - 1]);
            }
        }
    }
}

/// A slug neither starts nor ends with `-` and never holds two dashes in a row.
pub proof fn lemma_slug_dashes(s: Seq<char>)
    ensures
        slug(s).len() > 0 ==> slug(s)[0] != '-' && slug(s).last() != '-',
        forall|i: int| 0 <= i < slug(s).len() - 1 ==> !(#[trigger] slug(s)[i] == '-' && slug(s)[i + 1] == '-'),
{
    let m = s.map_values(|c: char| slug_char(c));
    lemma_split_free(m, '-');
    lemma_nonempty_pieces(split(m, '-'), '-');
    lemma_join_dashes(nonempty_pieces(split(m, '-')));
}

/// Every character of a slug piece of `s` (split at `c`) is one of `s`.
proof fn lemma_split_chars(s: Seq<char>, c: char, p: spec_fn(char) -> bool)
    requires
        forall|j: int| 0 <= j < s.len() ==> p(#[trigger] s[j]),
    ensures
        forall|k: int, j: int|
            0 <= k < split(s, c).len() && 0 <= j < split(s, c)[k].len() ==> p(#[trigger] split(s, c)[k][j]),
    decreases s.len(),
{
    lemma_index_of(s, c);
    let i = index_of(s, c);
    if i >= 0 {
        let t = s.skip(i + 1);
        assert forall|j: int| 0 <= j < t.len() implies p(#[trigger] t[j]) by {
            assert(t[j] == s[j + i + 1]);
        }
        lemma_split_chars(t, c, p);
        let q = split(s, c);
        let rest = split(t, c);
        assert(q == seq![s.take(i)] + rest);
        assert forall|k: int, j: int| 0 <= k < q.len() && 0 <= j < q[k].len() implies p(#[trigger] q[k][j]) by {
            if k == 0 {
                assert(q[0][j] == s[j]);
            } else {
                assert(q[k] == rest[k - 1]);
            }
        }
    }
}

/// The pieces that `nonempty_pieces` keeps hold only characters of the given ones.
proof fn lemma_nonempty_chars(ps: Seq<Seq<char>>, p: spec_fn(char) -> bool)
    requires
        forall|k: int, j: int| 0 <= k < ps.len() && 0 <= j < ps[k].len() ==> p(#[trigger] ps[k][j]),
    ensures
        forall|k: int, j: int|
            0 <= k < nonempty_pieces(ps).len() && 0 <= j < nonempty_pieces(ps)[k].len() ==> p(
                #[trigger] nonempty_pieces(ps)[k][j],
            ),
    decreases ps.len(),
{
    if ps.len() > 0 {
        let d = ps.drop_last();
        assert forall|k: int, j: int| 0 <= k < d.len() && 0 <= j < d[k].len() implies p(#[trigger] d[k][j]) by {
            assert(d[k] == ps[k]);
        }
        lemma_nonempty_chars(d, p);
        let r = nonempty_pieces(d);
        let n = nonempty_pieces(ps);
        if ps.last().len() > 0 {
            assert(n == r.push(ps.last()));
            assert forall|k: int, j: int| 0 <= k < n.len() && 0 <= j < n[k].len() implies p(#[trigger] n[k][j]) by {
                if k < r.len() {
                    assert(n[k] == r[k]);
                } else {
                    assert(n[k] == ps[ps.len() - 1]);
                }
            }
        }
    }
}

/// Pieces joined by `-` hold only their characters and dashes.
proof fn lemma_join_chars(q: Seq<Seq<char>>, p: spec_fn(char) -> bool)
    requires
        forall|k: int, j: int| 0 <= k < q.len() && 0 <= j < q[k].len() ==> p(#[trigger] q[k][j]),
        p('-'),
    ensures
        forall|i: int| 0 <= i < join(q, "-"@).len() ==> p(#[trigger] join(q, "-"@)[i]),
    decreases q.len(),
{
    reveal_strlit("-");
    if q.len() == 1 {
        assert forall|i: int| 0 <= i < join(q, "-"@).len() implies p(#[trigger] join(q, "-"@)[i]) by {
            assert(join(q, "-"@)[i] == q[0][i]);
        }
    } else if q.len() > 1 {
        let d = q.drop_last();
        assert forall|k: int, j: int| 0 <= k < d.len() && 0 <= j < d[k].len() implies p(#[trigger] d[k][j]) by {
            assert(d[k] == q[k]);
        }
        lemma_join_chars(d, p);
        let a = join(d, "-"@);
        let b = q.last();
        let jn = join(q, "-"@);
        assert(jn == a + "-"@ + b);
        assert forall|i: int| 0 <= i < jn.len() implies p(#[trigger] jn[i]) by {
            if i < a.len() {
                assert(jn[i] == a[i]);
            } else if i == a.len() {
                assert(jn[i] == '-');
            } else {
                assert(jn[i] == q[q.len() - 1][i - a.len() - 1]);
            }
        }
    }
}

/// Every character of a slug is `-`, `_`, a lower-case ASCII letter, an ASCII
/// digit, or an alphanumeric character beyond ASCII: so each is alphanumeric, `_`
/// or `-`, and none is an upper-case ASCII letter.
pub proof fn lemma_slug_chars(s: Seq<char>)
    ensures
        forall|i: int| 0 <= i < slug(s).len() ==> slug_output_char(#[trigger] slug(s)[i]),
{
    let m = s.map_values(|c: char| slug_char(c));
    let p = |c: char| slug_output_char(c);
    assert forall|j: int| 0 <= j < m.len() implies p(#[trigger] m[j]) by {
        let c = s[j];
        assert(m[j] == slug_char(c));
    }
    lemma_split_chars(m, '-', p);
    lemma_nonempty_chars(split(m, '-'), p);
    lemma_join_chars(nonempty_pieces(split(m, '-')), p);
}

/// Joining by `-` splits off the first piece.
proof fn lemma_join_front(q: Seq<Seq<char>>)
    requires
        q.len() >= 2,
    ensures
        join(q, "-"@) == q[0] + "-"@ + join(q.drop_first(), "-"@),
    decreases q.len(),
{
    let dl = q.drop_last();
    let df = q.drop_first();
    assert(join(q, "-"@) == join(dl, "-"@) + "-"@ + q.last());
    if q.len() > 2 {
        lemma_join_front(dl);
        assert(dl.drop_first() =~= df.drop_last());
        assert(df.last() == q.last());
        assert(dl[0] == q[0]);
        assert(join(df, "-"@) == join(df.drop_last(), "-"@) + "-"@ + df.last());
        assert(join(dl, "-"@) == q[0] + "-"@ + join(df.drop_last(), "-"@));
        assert(join(q, "-"@) =~= q[0] + "-"@ + join(df, "-"@));
    } else {
        assert(df =~= seq![q[1]]);
        assert(dl =~= seq![q[0]]);
        assert(join(df, "-"@) == q[1]);
        assert(join(dl, "-"@) == q[0]);
        assert(q.last() == q[1]);
        assert(join(q, "-"@) =~= q[0] + "-"@ + join(df, "-"@));
    }
}

/// Splitting at `-` what non-empty dash-free pieces joined by `-` make gives the
/// pieces back.
proof fn lemma_split_join(q: Seq<Seq<char>>)
    requires
        q.len() >= 1,
        forall|k: int| 0 <= k < q.len() ==> free_of(#[trigger] q[k], '-'),
    ensures
        split(join(q, "-"@), '-') == q,
    decreases q.len(),
{
    reveal_strlit("-");
    if q.len() == 1 {
        assert(join(q, "-"@) == q[0]);
        assert(free_of(q[0], '-'));
        lemma_index_of_unique(q[0], '-', -1);
        assert(split(q[0], '-') =~= q);
    } else {
        let t = q.drop_first();
        assert forall|k: int| 0 <= k < t.len() implies free_of(#[trigger] t[k], '-') by {
            assert(t[k] == q[k + 1]);
        }
        lemma_split_join(t);
        lemma_join_front(q);
        let a = q[0];
        assert(free_of(a, '-'));
        let jn = join(q, "-"@);
        assert(jn == a + "-"@ + join(t, "-"@));
        assert forall|j: int| 0 <= j < jn.len() && j < a.len() implies jn[j] != '-' by {
            assert(jn[j] == a[j]);
        }
        assert(jn[a.len() as int] == '-');
        lemma_index_of_unique(jn, '-', a.len() as int);
        assert(jn.take(a.len() as int) =~= a);
        assert(jn.skip(a.len() as int + 1) =~= join(t, "-"@));
        assert(split(jn, '-') == seq![a] + t);
        assert(seq![a] + t =~= q);
    }
}

/// Keeping the non-empty pieces of non-empty pieces keeps them all.
proof fn lemma_nonempty_all(q: Seq<Seq<char>>)
    requires
        forall|k: int| 0 <= k < q.len() ==> (#[trigger] q[k]).len() > 0,
    ensures
        nonempty_pieces(q) == q,
    decreases q.len(),
{
    if q.len() > 0 {
        let d = q.drop_last();
        assert forall|k: int| 0 <= k < d.len() implies (#[trigger] d[k]).len() > 0 by {
            assert(d[k] == q[k]);
        }
        lemma_nonempty_all(d);
        assert(d.push(q.last()) =~= q);
    }
}

/// Slugifying a slug changes nothing.
pub proof fn lemma_slug_idempotent(s: Seq<char>)
    ensures
        slug(slug(s)) == slug(s),
{
    let t = slug(s);
    lemma_slug_chars(s);
    let m = s.map_values(|c: char| slug_char(c));
    let q = nonempty_pieces(split(m, '-'));
    lemma_split_free(m, '-');
    lemma_nonempty_pieces(split(m, '-'), '-');
    assert(t == join(q, "-"@));
    let tm = t.map_values(|c: char| slug_char(c));
    assert forall|i: int| 0 <= i < t.len() implies #[trigger] tm[i] == t[i] by {
        assert(slug_output_char(t[i]));
        assert(tm[i] == slug_char(t[i]));
    }
    assert(tm =~= t);
    if q.len() == 0 {
        reveal_strlit("-");
        assert(t == Seq::<char>::empty());
        lemma_index_of_unique(t, '-', -1);
        assert(split(t, '-') == seq![t]);
        assert(nonempty_pieces(seq![t]).len() == 0) by {
            let one = seq![t];
            assert(one.drop_last() =~= Seq::<Seq<char>>::empty());
            assert(one.last().len() == 0);
            assert(nonempty_pieces(one.drop_last()) == Seq::<Seq<char>>::empty());
        }
    } else {
        lemma_split_join(q);
        lemma_nonempty_all(q);
    }
}

/// Turns text into a slug for file names and URLs: `Hello, World!` becomes
/// `hello-world`.
pub fn slugify(input: &str) -> (s: String)
    ensures
        s@ == slug(input@),
{
    let c = chars_of(input);
    let mut mapped: Vec<char> = Vec::new();
    let mut i: usize = 0;
    while i < c.len()
        invariant
            i <= c@.len(),
            c@ == input@,
            mapped@ == input@.take(i as int).map_values(|c: char| slug_char(c)),
        decreases c@.len() - i,
    {
        let ch = c[i];
        let alnum = is_alphanumeric(ch);
        let m = if alnum || ch == '_' || ch == '-' {
            lower_exec(ch)
        } else {
            '-'
        };
        assert(m == slug_char(ch));
        mapped.push(m);
        i = i + 1;
        assert(input@.take(i as int).map_values(|c: char| slug_char(c)) =~= input@.take(
            i - 1,
        ).map_values(|c: char| slug_char(c)).push(m));
    }
    assert(input@.take(i as int) == input@);
    let pieces = split_chars(mapped.as_slice(), '-');
    let mut kept: Vec<Vec<char>> = Vec::new();
    let mut j: usize = 0;
    while j < pieces.len()
        invariant
            j <= pieces@.len(),
            views(kept@) == nonempty_pieces(views(pieces@).take(j as int)),
        decreases pieces@.len() - j,
    {
        proof {
            assert(views(pieces@).take(j + 1).drop_last() == views(pieces@).take(j as int));
            assert(views(pieces@).take(j + 1).last() == pieces@[j as int]@);
        }
        if pieces[j].len() > 0 {
            let piece = copy_range(pieces[j].as_slice(), 0, pieces[j].len());
            proof {
                assert(piece@ == pieces@[j as int]@);
                assert(views(kept@.push(piece)) == views(kept@).push(piece@));
            }
            kept.push(piece);
        }
        j = j + 1;
    }
    assert(views(pieces@).take(j as int) == views(pieces@));
    let joined = join_chars(&kept, chars_of("-").as_slice());
    string_from_chars(joined.as_slice())
}

// ---------------------------------------------------------------------------
// Tokens from the system keyring or the `.env` file
// ---------------------------------------------------------------------------

/// The raw value of the first `KEY=value` line of `lines` whose key is `key`;
/// blank lines and `#` comments are skipped, and keys and values are trimmed.
pub open spec fn env_entry(lines: Seq<Seq<char>>, key: Seq<char>) -> Option<Seq<char>>
    decreases lines.len(),
{
    if lines.len() == 0 {
        None
    } else {
        let l = trim(lines[0]);
        let i = index_of(l, '=');
        if l.len() == 0 || l[0] == '#' || i < 0 || trim(l.take(i)) != key {
            env_entry(lines.drop_first(), key)
        } else {
            Some(trim(l.skip(i + 1)))
        }
    }
}

/// `v` without one pair of matching surrounding quotes.
pub open spec fn unquote(v: Seq<char>) -> Seq<char> {
    if v.len() >= 2 && ((v[0] == '"' && v.last() == '"') || (v[0] == '\'' && v.last() == '\'')) {
        v.subrange(1, v.len() - 1)
    } else {
        v
    }
}

/// Whether `v` is a single quote character, which cannot be unquoted.
pub open spec fn lone_quote(v: Seq<char>) -> bool {
    v.len() == 1 && (v[0] == '"' || v[0] == '\'')
}

/// The value that `.env` text `content` gives `key`.
pub open spec fn env_value(content: Seq<char>, key: Seq<char>) -> Option<Seq<char>> {
    match env_entry(split(content, '\n'), key) {
        Some(v) => Some(unquote(v)),
        None => None,
    }
}

/// Whether reading `key` from `.env` text `content` may go ahead: its value is not
/// a lone quote character.
pub open spec fn env_readable(content: Seq<char>, key: Seq<char>) -> bool {
    !(env_entry(split(content, '\n'), key) matches Some(v) && lone_quote(v))
}

/// Reads `key` from the text of a `.env` file: the first `key=value` line, with
/// the value trimmed and one pair of matching quotes removed.
pub fn env_var_from_content(content: &str, key: &str) -> (r: Option<String>)
    requires
        env_readable(content@, key@),
    ensures
        opt_text(r) == env_value(content@, key@),
{
    let c = chars_of(content);
    let k = chars_of(key);
    let lines = split_chars(c.as_slice(), '\n');
    let mut i: usize = 0;
    assert(views(lines@).skip(0) == views(lines@));
    while i < lines.len()
        invariant
            i <= lines@.len(),
            views(lines@) == split(content@, '\n'),
            k@ == key@,
            env_entry(views(lines@).skip(i as int), key@) == env_entry(split(content@, '\n'), key@),
        decreases lines@.len() - i,
    {
        let ghost rest = views(lines@).skip(i as int);
        proof {
            assert(rest[0] == lines@[i as int]@);
            assert(rest.drop_first() == views(lines@).skip(i + 1));
        }
        let l = trim_chars(lines[i].as_slice());
        if l.len() > 0 && l[0] != '#' {
            proof {
                lemma_index_of(l@, '=');
            }
            match find_char(l.as_slice(), '=', 0) {
                Some(eq) => {
                    proof {
                        lemma_index_of_unique(l@, '=', eq as int);
                    }
                    let name_part = copy_range(l.as_slice(), 0, eq);
                    let name = trim_chars(name_part.as_slice());
                    assert(name_part@ == l@.take(eq as int));
                    if crate::text::chars_eq(name.as_slice(), k.as_slice()) {
                        let value_part = copy_range(l.as_slice(), eq + 1, l.len());
                        assert(value_part@ == l@.skip(eq + 1));
                        let v = trim_chars(value_part.as_slice());
                        let n = v.len();
                        if n >= 2 && ((v[0] == '"' && v[n - 1] == '"') || (v[0] == '\''
                            && v[n - 1] == '\'')) {
                            let inner = copy_range(v.as_slice(), 1, n - 1);
                            return Some(string_from_chars(inner.as_slice()));
                        }
                        return Some(string_from_chars(v.as_slice()));
                    }
                },
                None => {
                    proof {
                        lemma_index_of_unique(l@, '=', -1);
                    }
                },
            }
        }
        i = i + 1;
    }
    None
}

/// Whether reading `key` from `.env` text `content` may go ahead (its value is not
/// a lone quote character).
pub fn env_readable_exec(content: &str, key: &str) -> (b: bool)
    ensures
        b == env_readable(content@, key@),
{
    let c = chars_of(content);
    let k = chars_of(key);
    let lines = split_chars(c.as_slice(), '\n');
    let mut i: usize = 0;
    assert(views(lines@).skip(0) == views(lines@));
    while i < lines.len()
        invariant
            i <= lines@.len(),
            views(lines@) == split(content@, '\n'),
            k@ == key@,
            env_entry(views(lines@).skip(i as int), key@) == env_entry(split(content@, '\n'), key@),
        decreases lines@.len() - i,
    {
        let ghost rest = views(lines@).skip(i as int);
        proof {
            assert(rest[0] == lines@[i as int]@);
            assert(rest.drop_first() == views(lines@).skip(i + 1));
        }
        let l = trim_chars(lines[i].as_slice());
        if l.len() > 0 && l[0] != '#' {
            proof {
                lemma_index_of(l@, '=');
            }
            match find_char(l.as_slice(), '=', 0) {
                Some(eq) => {
                    proof {
                        lemma_index_of_unique(l@, '=', eq as int);
                    }
                    let name_part = copy_range(l.as_slice(), 0, eq);
                    let name = trim_chars(name_part.as_slice());
                    assert(name_part@ == l@.take(eq as int));
                    if crate::text::chars_eq(name.as_slice(), k.as_slice()) {
                        let value_part = copy_range(l.as_slice(), eq + 1, l.len());
                        assert(value_part@ == l@.skip(eq + 1));
                        let v = trim_chars(value_part.as_slice());
                        return !(v.len() == 1 && (v[0] == '"' || v[0] == '\''));
                    }
                },
                None => {
                    proof {
                        lemma_index_of_unique(l@, '=', -1);
                    }
                },
            }
        }
        i = i + 1;
    }
    true
}

/// A token from the system keyring when it holds one, else from the `.env` file.
pub fn get_token_from_sources(keyring_password: Option<String>, env_content: Option<&str>, env_key: &str) -> (r: Option<String>)
    requires
        env_content matches Some(text) ==> env_readable(text@, env_key@),
    ensures
        opt_text(r) == match keyring_password {
            Some(p) => Some(p@),
            None => match env_content {
                Some(text) => env_value(text@, env_key@),
                None => None,
            },
        },
{
    match keyring_password {
        Some(p) => Some(p),
        None => match env_content {
            Some(text) => env_var_from_content(text, env_key),
            None => None,
        },
    }
}

/// The token stored under `key_name`: from the keyring, else from the `.env`
/// variable named as the key in upper case.
pub fn get_token_by_name(key_name: &str, keyring_password: Option<String>, env_content: Option<&str>) -> (r: Option<String>)
    requires
        env_content matches Some(text) ==> env_readable(text@, unicode_upper(key_name@)),
    ensures
        opt_text(r) == match keyring_password {
            Some(p) => Some(p@),
            None => match env_content {
                Some(text) => env_value(text@, unicode_upper(key_name@)),
                None => None,
            },
        },
        ascii_text(key_name@) ==> unicode_upper(key_name@) == upper_seq(key_name@),
{
    let env_key = to_uppercase(key_name);
    get_token_from_sources(keyring_password, env_content, env_key.as_str())
}

/// `get_token_by_name` when the `.env` text can be read for the key; `None` when
/// its value for the key is a lone quote character.
pub fn get_token_by_name_checked(key_name: &str, keyring_password: Option<String>, env_content: Option<&str>) -> (r: Option<Option<String>>)
    ensures
        match r {
            Some(t) => (env_content matches Some(text) ==> env_readable(text@, unicode_upper(key_name@)))
                && opt_text(t) == match keyring_password {
                    Some(p) => Some(p@),
                    None => match env_content {
                        Some(text) => env_value(text@, unicode_upper(key_name@)),
                        None => None,
                    },
                },
            None => env_content matches Some(text) && !env_readable(text@, unicode_upper(key_name@)),
        },
{
    if let Some(text) = env_content {
        let env_key = to_uppercase(key_name);
        if !env_readable_exec(text, env_key.as_str()) {
            return None;
        }
    }
    Some(get_token_by_name(key_name, keyring_password, env_content))
}

/// The Bunkr token: the keyring's `bunkr_token`, else `BUNKR_TOKEN` from `.env`. The
/// `.env` name is the key name in upper case, so this is also the lookup that
/// `get_token_by_name` makes for `bunkr_token`.
pub fn get_bunkr_token(keyring_password: Option<String>, env_content: Option<&str>) -> (r: Option<String>)
    requires
        env_content matches Some(text) ==> env_readable(text@, "BUNKR_TOKEN"@),
    ensures
        opt_text(r) == match keyring_password {
            Some(p) => Some(p@),
            None => match env_content {
                Some(text) => env_value(text@, "BUNKR_TOKEN"@),
                None => None,
            },
        },
        unicode_upper("bunkr_token"@) == "BUNKR_TOKEN"@,
{
    proof {
        reveal_strlit("bunkr_token");
        reveal_strlit("BUNKR_TOKEN");
    }
    let env_key = to_uppercase("bunkr_token");
    proof {
        assert(upper_seq("bunkr_token"@) =~= "BUNKR_TOKEN"@);
    }
    get_token_from_sources(keyring_password, env_content, env_key.as_str())
}

/// The GoFile token: the keyring's `gofile_token`, else `GOFILE_TOKEN` from `.env`.
pub fn get_gofile_token(keyring_password: Option<String>, env_content: Option<&str>) -> (r: Option<String>)
    requires
        env_content matches Some(text) ==> env_readable(text@, "GOFILE_TOKEN"@),
    ensures
        opt_text(r) == match keyring_password {
            Some(p) => Some(p@),
            None => match env_content {
                Some(text) => env_value(text@, "GOFILE_TOKEN"@),
                None => None,
            },
        },
{
    get_token_from_sources(keyring_password, env_content, "GOFILE_TOKEN")
}

/// The Filester token: the keyring's `filester_token`, else `FILESTER_TOKEN` from
/// `.env`.
pub fn get_filester_token(keyring_password: Option<String>, env_content: Option<&str>) -> (r: Option<String>)
    requires
        env_content matches Some(text) ==> env_readable(text@, "FILESTER_TOKEN"@),
    ensures
        opt_text(r) == match keyring_password {
            Some(p) => Some(p@),
            None => match env_content {
                Some(text) => env_value(text@, "FILESTER_TOKEN"@),
                None => None,
            },
        },
{
    get_token_from_sources(keyring_password, env_content, "FILESTER_TOKEN")
}

/// The jpg6 token: the keyring's `jpg6_token`, else `JPG6_TOKEN` from `.env`.
pub fn get_jpg6_token(keyring_password: Option<String>, env_content: Option<&str>) -> (r: Option<String>)
    requires
        env_content matches Some(text) ==> env_readable(text@, "JPG6_TOKEN"@),
    ensures
        opt_text(r) == match keyring_password {
            Some(p) => Some(p@),
            None => match env_content {
                Some(text) => env_value(text@, "JPG6_TOKEN"@),
                None => None,
            },
        },
{
    get_token_from_sources(keyring_password, env_content, "JPG6_TOKEN")
}

} // verus!
