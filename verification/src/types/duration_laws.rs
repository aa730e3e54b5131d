use vstd::prelude::*;
use crate::arith::pow10;
use crate::text::{
    all_digits, count_char, dec, digits_value, index_of, is_alpha, is_digit, is_ws, join,
    lead_count, lead_ws, lemma_dec_digits, lemma_lead_count, lower, lower_seq, trail_ws, trim,
    trim_end, trim_start,
};
use crate::text::{lemma_lead_ws_bound, lemma_lead_ws_from, lemma_trail_ws_from};
use crate::types::duration::{
    lemma_lead_count_le, lemma_lead_ws_le, nanos_per_sec, overflow_msg,
    alpha_pred, amount_nanos, display, format_parts, is_num_char, max_nanos, min_nat, num_pred,
    number_digits, parse_duration, parse_tokens, parts_from, suffix_at, u128_max, unit_at,
    unit_nanos,
};

verus! {

/// The unit that a display suffix names is the display unit it stands for.
proof fn lemma_suffix_unit(k: nat)
    requires
        k < 7,
    ensures
        unit_nanos(suffix_at(k)) == Some(unit_at(k)),
        suffix_at(k).len() >= 1,
        forall|i: int| 0 <= i < suffix_at(k).len() ==> is_alpha(#[trigger] suffix_at(k)[i]),
        lower_seq(suffix_at(k)) == suffix_at(k),
        !is_num_char(suffix_at(k)[0]),
{
    reveal_strlit("d");
    reveal_strlit("h");
    reveal_strlit("m");
    reveal_strlit("s");
    reveal_strlit("ms");
    reveal_strlit("us");
    reveal_strlit("ns");
    reveal_strlit("nanosecond");
    reveal_strlit("nanoseconds");
    reveal_strlit("microsecond");
    reveal_strlit("microseconds");
    reveal_strlit("millisecond");
    reveal_strlit("milliseconds");
    reveal_strlit("sec");
    reveal_strlit("secs");
    reveal_strlit("second");
    reveal_strlit("seconds");
    reveal_strlit("min");
    reveal_strlit("mins");
    reveal_strlit("minute");
    reveal_strlit("minutes");
    reveal_strlit("hr");
    reveal_strlit("hrs");
    reveal_strlit("hour");
    reveal_strlit("hours");
    reveal_strlit("day");
    reveal_strlit("days");
    let s = suffix_at(k);
    if k == 0 {
        lemma_differ_at("d"@, "s"@, 0);
        lemma_differ_at("d"@, "m"@, 0);
        lemma_differ_at("d"@, "h"@, 0);
    } else if k == 1 {
        lemma_differ_at("h"@, "s"@, 0);
        lemma_differ_at("h"@, "m"@, 0);
    } else if k == 2 {
        lemma_differ_at("m"@, "s"@, 0);
    } else if k == 4 {
        lemma_differ_at("ms"@, "ns"@, 0);
        lemma_differ_at("ms"@, "us"@, 0);
    } else if k == 5 {
        lemma_differ_at("us"@, "ns"@, 0);
    }
    assert forall|i: int| 0 <= i < s.len() implies is_alpha(#[trigger] s[i]) && lower(s[i]) == s[i] by {
    }
    assert(lower_seq(s) =~= s);
}

/// Texts that differ at some place are different.
proof fn lemma_differ_at(a: Seq<char>, b: Seq<char>, i: int)
    requires
        0 <= i < a.len(),
        i < b.len(),
        a[i] != b[i],
    ensures
        a != b,
{
}

/// A run of digits holds no decimal point.
proof fn lemma_digits_no_dot(s: Seq<char>)
    requires
        all_digits(s),
    ensures
        count_char(s, '.') == 0,
        index_of(s, '.') == -1,
    decreases s.len(),
{
    if s.len() > 0 {
        assert(all_digits(s.drop_last())) by {
            assert forall|i: int| 0 <= i < s.drop_last().len() implies is_digit(#[trigger] s.drop_last()[i]) by {
                assert(s.drop_last()[i] == s[i]);
            }
        }
        assert(all_digits(s.drop_first())) by {
            assert forall|i: int| 0 <= i < s.drop_first().len() implies is_digit(#[trigger] s.drop_first()[i]) by {
                assert(s.drop_first()[i] == s[i + 1]);
            }
        }
        assert(is_digit(s.last()));
        assert(is_digit(s[0]));
        lemma_digits_no_dot(s.drop_last());
        lemma_digits_no_dot(s.drop_first());
    }
}

/// A text that does not start with whitespace is its own `trim_start`.
proof fn lemma_trim_start_id(s: Seq<char>)
    requires
        s.len() > 0 ==> !is_ws(s[0]),
    ensures
        trim_start(s) == s,
{
    assert(lead_ws(s) == 0);
    assert(s.skip(0) =~= s);
}

/// Parsing ignores whitespace in front of a part.
proof fn lemma_parse_skips_space(j: Seq<char>, total: nat)
    requires
        j.len() > 0,
        !is_ws(j[0]),
    ensures
        parse_tokens(" "@ + j, total) == parse_tokens(j, total),
{
    reveal_strlit(" ");
    let s = " "@ + j;
    assert(s.drop_first() =~= j);
    assert(lead_ws(j) == 0);
    assert(lead_ws(s) == 1);
    assert(trim_start(s) =~= trim_start(j)) by {
        assert(s.skip(1) =~= j);
        assert(j.skip(0) =~= j);
    }
}

/// The amount of a whole number of units is exact.
proof fn lemma_whole_amount(v: nat, u: nat)
    ensures
        amount_nanos(dec(v), u) == v * u,
{
    lemma_dec_digits(v);
    lemma_digits_no_dot(dec(v));
    assert(number_digits(dec(v)) == (dec(v), 0nat));
    assert(pow10(0) == 1);
    let x = v * u;
    assert((2 * digits_value(dec(v)) * u + 1) / 2 == x) by (nonlinear_arith)
        requires
            digits_value(dec(v)) == v,
            x == v * u,
    ;
}

/// One part `dec(v)` and a display suffix, followed by nothing or by a space, parses
/// to `v` units and goes on with what follows.
proof fn lemma_parse_part(v: nat, k: nat, rest: Seq<char>, total: nat)
    requires
        k < 7,
        rest.len() > 0 ==> rest[0] == ' ',
        total + v * unit_at(k) <= u128_max(),
    ensures
        parse_tokens(dec(v) + suffix_at(k) + rest, total) == parse_tokens(rest, total + v * unit_at(k)),
{
    let num = dec(v);
    let suf = suffix_at(k);
    let s = num + suf + rest;
    lemma_dec_digits(v);
    lemma_digits_no_dot(num);
    lemma_suffix_unit(k);
    assert(is_digit(s[0]));
    lemma_trim_start_id(s);
    assert(trim_start(s) == s);
    assert(s.len() > 0);
    lemma_lead_count(s, num_pred(), num.len() as int);
    assert(lead_count(s, num_pred()) == num.len());
    assert(s.take(num.len() as int) =~= num);
    let after = s.skip(num.len() as int);
    assert(after =~= suf + rest);
    assert forall|j: int| 0 <= j < suf.len() implies #[trigger] alpha_pred()(after[j]) by {
        assert(after[j] == suf[j]);
    }
    if suf.len() < after.len() {
        assert(after[suf.len() as int] == rest[0]);
    }
    lemma_lead_count(after, alpha_pred(), suf.len() as int);
    assert(after.take(suf.len() as int) =~= suf);
    assert(after.skip(suf.len() as int) =~= rest);
    lemma_whole_amount(v, unit_at(k));
    assert(min_nat(amount_nanos(num, unit_at(k)), u128_max()) == v * unit_at(k));
}

/// A positive remainder always shows at least one part.
proof fn lemma_parts_nonempty(rem: nat, k: nat)
    requires
        k < 7,
        rem > 0,
    ensures
        parts_from(rem, k).len() >= 1,
    decreases 7 - k,
{
    if rem / unit_at(k) == 0 && k < 6 {
        lemma_parts_nonempty(rem, k + 1);
    }
}

/// The first character of a join is that of its first piece.
proof fn lemma_join_first(ps: Seq<Seq<char>>, sep: Seq<char>)
    requires
        ps.len() >= 1,
        ps[0].len() >= 1,
    ensures
        join(ps, sep).len() >= 1,
        join(ps, sep)[0] == ps[0][0],
    decreases ps.len(),
{
    if ps.len() > 1 {
        assert(ps.drop_last()[0] == ps[0]);
        lemma_join_first(ps.drop_last(), sep);
    }
}

/// Joining a first piece to the rest puts the separator between them.
proof fn lemma_join_front(a: Seq<char>, rest: Seq<Seq<char>>, sep: Seq<char>)
    requires
        rest.len() >= 1,
    ensures
        join(seq![a] + rest, sep) == a + sep + join(rest, sep),
    decreases rest.len(),
{
    let all = seq![a] + rest;
    if rest.len() == 1 {
        assert(all.drop_last() =~= seq![a]);
        assert(all.last() == rest[0]);
        assert(join(seq![a], sep) == a);
        assert(join(rest, sep) == rest[0]);
        assert(join(all, sep) == join(all.drop_last(), sep) + sep + all.last());
        assert(join(all, sep) =~= a + sep + join(rest, sep));
    } else {
        lemma_join_front(a, rest.drop_last(), sep);
        assert(all.drop_last() =~= seq![a] + rest.drop_last());
        assert(all.last() == rest.last());
        assert(join(all, sep) == join(all.drop_last(), sep) + sep + all.last());
        assert(join(rest, sep) == join(rest.drop_last(), sep) + sep + rest.last());
        assert(join(all, sep) =~= a + sep + join(rest, sep));
    }
}

/// The parts of `rem` from the `k`-th unit on, joined by spaces, parse to `rem`
/// more than `total`.
proof fn lemma_parse_parts(rem: nat, k: nat, total: nat)
    requires
        k < 7,
        k > 0 ==> rem < unit_at((k - 1) as nat),
        parts_from(rem, k).len() >= 1,
        total + rem <= max_nanos(),
    ensures
        parse_tokens(join(parts_from(rem, k), " "@), total) == Ok::<nat, Seq<char>>(total + rem),
    decreases 7 - k,
{
    let u = unit_at(k);
    let v = rem / u;
    vstd::arithmetic::div_mod::lemma_fundamental_div_mod(rem as int, u as int);
    vstd::arithmetic::div_mod::lemma_mod_bound(rem as int, u as int);
    if v == 0 {
        if k == 6 {
            assert(false);
        }
        lemma_parse_parts(rem, k + 1, total);
    } else {
        let piece = dec(v) + suffix_at(k);
        let r2 = rem % u;
        let tail = parts_from(r2, k + 1);
        assert(parts_from(rem, k) == seq![piece] + tail);
        assert(v * u <= rem);
        assert(max_nanos() < u128_max());
        if tail.len() == 0 {
            if r2 > 0 {
                if k + 1 < 7 {
                    lemma_parts_nonempty(r2, k + 1);
                } else {
                    assert(u == 1);
                }
            }
            assert(r2 == 0);
            assert(join(seq![piece], " "@) == piece);
            assert(seq![piece] + tail =~= seq![piece]);
            lemma_parse_part(v, k, Seq::empty(), total);
            assert(piece + Seq::<char>::empty() =~= piece);
            let t = total + v * u;
            assert(t == total + rem);
            assert(t / 1_000_000_000 <= u64::MAX) by (nonlinear_arith)
                requires
                    t <= max_nanos(),
                    max_nanos() == (u64::MAX + 1) * 1_000_000_000 - 1,
            ;
            assert(trim_start(Seq::<char>::empty()) =~= Seq::<char>::empty());
        } else {
            let j = join(tail, " "@);
            lemma_join_front(piece, tail, " "@);
            reveal_strlit(" ");
            assert(join(seq![piece] + tail, " "@) =~= dec(v) + suffix_at(k) + (" "@ + j));
            lemma_parse_part(v, k, " "@ + j, total);
            lemma_parse_parts(r2, k + 1, total + v * u);
            lemma_dec_digits(r2 / unit_at(k + 1));
            assert(tail.len() >= 1);
            lemma_first_part_digit(r2, k + 1);
            lemma_join_first(tail, " "@);
            assert(!is_ws(j[0]));
            lemma_parse_skips_space(j, total + v * u);
        }
    }
}

/// Every part starts with a digit.
proof fn lemma_first_part_digit(rem: nat, k: nat)
    requires
        k <= 7,
        parts_from(rem, k).len() >= 1,
    ensures
        parts_from(rem, k)[0].len() >= 1,
        is_digit(parts_from(rem, k)[0][0]),
    decreases 7 - k,
{
    if k < 7 {
        let u = unit_at(k);
        let v = rem / u;
        if v > 0 {
            lemma_dec_digits(v);
            assert((seq![dec(v) + suffix_at(k)] + parts_from(rem % u, k + 1))[0] == dec(v) + suffix_at(k));
        } else {
            lemma_first_part_digit(rem, k + 1);
        }
    }
}

/// The last character of a join is that of its last piece.
proof fn lemma_join_last(ps: Seq<Seq<char>>, sep: Seq<char>)
    requires
        ps.len() >= 1,
        ps.last().len() >= 1,
    ensures
        join(ps, sep).len() >= 1,
        join(ps, sep).last() == ps.last().last(),
{
}

/// Every part ends with a letter of its unit.
proof fn lemma_last_part_letter(rem: nat, k: nat)
    requires
        k <= 7,
        parts_from(rem, k).len() >= 1,
    ensures
        parts_from(rem, k).last().len() >= 1,
        is_alpha(parts_from(rem, k).last().last()),
    decreases 7 - k,
{
    if k < 7 {
        let u = unit_at(k);
        let v = rem / u;
        if v > 0 {
            let piece = dec(v) + suffix_at(k);
            let tail = parts_from(rem % u, k + 1);
            lemma_suffix_unit(k);
            if tail.len() == 0 {
                assert((seq![piece] + tail).last() == piece);
                assert(piece.last() == suffix_at(k).last());
            } else {
                lemma_last_part_letter(rem % u, k + 1);
                assert((seq![piece] + tail).last() == tail.last());
            }
        } else {
            lemma_last_part_letter(rem, k + 1);
        }
    }
}

/// Reading back a duration's display text gives the duration again, whenever the
/// text shows all of it: at most three units are nonzero (the display keeps the
/// three largest, so `1d 2h 31m 5s` reads back as `1d 2h 31m`).
pub proof fn lemma_display_round_trip(n: nat)
    requires
        n <= max_nanos(),
        parts_from(n, 0).len() <= 3,
    ensures
        parse_duration(display(n)) == Ok::<nat, Seq<char>>(n),
{
    reveal_strlit("0s");
    reveal_strlit(" ");
    if n == 0 {
        let s = "0s"@;
        assert(format_parts(0, 3) == seq![s]);
        assert(display(0) == s);
        assert(dec(0) =~= seq!['0']);
        reveal_strlit("s");
        assert(s =~= dec(0) + suffix_at(3) + Seq::<char>::empty());
        lemma_trim_start_id(s);
        assert(trail_ws(s) == 0);
        assert(trim_end(s) =~= s);
        assert(trim(s) == s);
        lemma_parse_part(0, 3, Seq::empty(), 0);
        assert(trim_start(Seq::<char>::empty()) =~= Seq::<char>::empty());
    } else {
        let ps = parts_from(n, 0);
        lemma_parts_nonempty(n, 0);
        assert(format_parts(n, 3) =~= ps);
        let s = display(n);
        assert(s == join(ps, " "@));
        lemma_first_part_digit(n, 0);
        lemma_last_part_letter(n, 0);
        lemma_join_first(ps, " "@);
        lemma_join_last(ps, " "@);
        lemma_trim_start_id(s);
        assert(trail_ws(s) == 0);
        assert(trim_end(s) =~= s);
        assert(trim(s) == s);
        lemma_parse_parts(n, 0, 0);
    }
}

/// What `lead_count` counts: the leading run of characters that pass `p`.
proof fn lemma_lead_count_props(s: Seq<char>, p: spec_fn(char) -> bool)
    ensures
        lead_count(s, p) <= s.len(),
        forall|j: int| 0 <= j < lead_count(s, p) ==> #[trigger] p(s[j]),
        lead_count(s, p) < s.len() ==> !p(s[lead_count(s, p) as int]),
    decreases s.len(),
{
    if s.len() > 0 && p(s[0]) {
        let t = s.drop_first();
        lemma_lead_count_props(t, p);
        assert forall|j: int| 0 <= j < lead_count(s, p) implies #[trigger] p(s[j]) by {
            if j > 0 {
                assert(s[j] == t[j - 1]);
            }
        }
        if lead_count(s, p) < s.len() {
            assert(s[lead_count(s, p) as int] == t[lead_count(t, p) as int]);
        }
    }
}

/// A leading run ends at the same place when text follows that does not continue it.
proof fn lemma_lead_count_concat(a: Seq<char>, b: Seq<char>, p: spec_fn(char) -> bool)
    requires
        lead_count(a, p) < a.len() || b.len() == 0 || !p(b[0]),
    ensures
        lead_count(a + b, p) == lead_count(a, p),
{
    lemma_lead_count_props(a, p);
    let k = lead_count(a, p);
    let ab = a + b;
    assert forall|j: int| 0 <= j < k implies #[trigger] p(ab[j]) by {
        assert(ab[j] == a[j]);
        assert(p(a[j]));
    }
    if k < ab.len() {
        if k < a.len() {
            assert(ab[k as int] == a[k as int]);
        } else {
            assert(ab[k as int] == b[0]);
        }
    }
    lemma_lead_count(ab, p, k as int);
}

/// Parsing depends on the text only from its first non-whitespace character on.
proof fn lemma_same_start(a: Seq<char>, b: Seq<char>, t: nat)
    requires
        trim_start(a) == trim_start(b),
    ensures
        parse_tokens(a, t) == parse_tokens(b, t),
{
}

/// What a successful parse gives: no less than it started from, and a whole number
/// of seconds that fits in 64 bits.
proof fn lemma_tokens_ok(r: Seq<char>, t: nat, z: nat)
    requires
        parse_tokens(r, t) == Ok::<nat, Seq<char>>(z),
    ensures
        z >= t,
        z / nanos_per_sec() <= u64::MAX,
    decreases r.len(),
{
    let rr = trim_start(r);
    lemma_lead_ws_le(r);
    if rr.len() > 0 {
        let ne = lead_count(rr, num_pred());
        let num = rr.take(ne as int);
        lemma_lead_count_le(rr, num_pred());
        let after = rr.skip(ne as int);
        let ul = lead_count(after, alpha_pred());
        lemma_lead_count_le(after, alpha_pred());
        let unit = lower_seq(after.take(ul as int));
        let u = unit_nanos(unit).unwrap();
        let add = min_nat(amount_nanos(num, u), u128_max());
        lemma_tokens_ok(after.skip(ul as int), t + add, z);
    }
}

/// Starting a successful parse from a larger total gives a result larger by as
/// much, while it stays within range.
proof fn lemma_tokens_shift(r: Seq<char>, t: nat, d: nat, z: nat)
    requires
        parse_tokens(r, t) == Ok::<nat, Seq<char>>(z),
        z + d <= max_nanos(),
    ensures
        parse_tokens(r, t + d) == Ok::<nat, Seq<char>>(z + d),
    decreases r.len(),
{
    let rr = trim_start(r);
    lemma_lead_ws_le(r);
    lemma_tokens_ok(r, t, z);
    assert(max_nanos() < u128_max());
    if rr.len() == 0 {
        let w = t + d;
        assert(w / 1_000_000_000 <= u64::MAX) by (nonlinear_arith)
            requires
                w <= max_nanos(),
                max_nanos() == (u64::MAX + 1) * 1_000_000_000 - 1,
        ;
    } else {
        let ne = lead_count(rr, num_pred());
        let num = rr.take(ne as int);
        lemma_lead_count_le(rr, num_pred());
        let after = rr.skip(ne as int);
        let ul = lead_count(after, alpha_pred());
        lemma_lead_count_le(after, alpha_pred());
        let unit = lower_seq(after.take(ul as int));
        let u = unit_nanos(unit).unwrap();
        let add = min_nat(amount_nanos(num, u), u128_max());
        lemma_tokens_ok(after.skip(ul as int), t + add, z);
        lemma_tokens_shift(after.skip(ul as int), t + add, d, z);
        assert(t + add + d == t + d + add);
    }
}

/// A successful parse followed by text that starts with whitespace goes on with
/// that text from its result.
proof fn lemma_tokens_append(r: Seq<char>, s: Seq<char>, t: nat, x: nat)
    requires
        parse_tokens(r, t) == Ok::<nat, Seq<char>>(x),
        s.len() > 0 ==> is_ws(s[0]),
    ensures
        parse_tokens(r + s, t) == parse_tokens(s, x),
    decreases r.len(),
{
    let rr = trim_start(r);
    lemma_lead_ws_le(r);
    lemma_lead_ws_bound(r);
    let lw = lead_ws(r);
    let rs = r + s;
    if rr.len() == 0 {
        assert(x == t);
        lemma_lead_ws_bound(s);
        let k = r.len() + lead_ws(s);
        assert forall|j: int| 0 <= j < k implies is_ws(#[trigger] rs[j]) by {
            if j < r.len() {
                assert(rs[j] == r[j]);
            } else {
                assert(rs[j] == s[j - r.len()]);
            }
        }
        if k < rs.len() {
            assert(rs[k as int] == s[lead_ws(s) as int]);
        }
        lemma_lead_ws_from(rs, k as int);
        assert(trim_start(rs) =~= trim_start(s));
        lemma_same_start(rs, s, t);
    } else {
        assert forall|j: int| 0 <= j < lw implies is_ws(#[trigger] rs[j]) by {
            assert(rs[j] == r[j]);
        }
        assert(rs[lw as int] == r[lw as int]);
        lemma_lead_ws_from(rs, lw as int);
        assert(trim_start(rs) =~= rr + s);
        let ne = lead_count(rr, num_pred());
        let num = rr.take(ne as int);
        lemma_lead_count_le(rr, num_pred());
        let after = rr.skip(ne as int);
        let ul = lead_count(after, alpha_pred());
        lemma_lead_count_le(after, alpha_pred());
        assert(ne < rr.len());
        lemma_lead_count_concat(rr, s, num_pred());
        assert((rr + s).take(ne as int) =~= num);
        assert((rr + s).skip(ne as int) =~= after + s);
        if ul == after.len() && s.len() > 0 {
            assert(!is_alpha(s[0]));
        }
        lemma_lead_count_concat(after, s, alpha_pred());
        assert((after + s).take(ul as int) =~= after.take(ul as int));
        assert((after + s).skip(ul as int) =~= after.skip(ul as int) + s);
        let unit = lower_seq(after.take(ul as int));
        let u = unit_nanos(unit).unwrap();
        let add = min_nat(amount_nanos(num, u), u128_max());
        lemma_tokens_append(after.skip(ul as int), s, t + add, x);
    }
}

proof fn lemma_trail_ws_bound(s: Seq<char>)
    ensures
        trail_ws(s) <= s.len(),
        forall|j: int| s.len() - trail_ws(s) <= j < s.len() ==> is_ws(#[trigger] s[j]),
        trail_ws(s) < s.len() ==> !is_ws(s[s.len() - trail_ws(s) - 1]),
    decreases s.len(),
{
    if s.len() > 0 && is_ws(s.last()) {
        let t = s.drop_last();
        lemma_trail_ws_bound(t);
        assert forall|j: int| s.len() - trail_ws(s) <= j < s.len() implies is_ws(#[trigger] s[j]) by {
            if j < s.len() - 1 {
                assert(s[j] == t[j]);
            }
        }
        if trail_ws(s) < s.len() {
            assert(s[s.len() - trail_ws(s) - 1] == t[t.len() - trail_ws(t) - 1]);
        }
    }
}

/// A text with something in it between its surrounding whitespace.
proof fn lemma_trim_parts(s: Seq<char>)
    requires
        trim(s).len() > 0,
    ensures
        lead_ws(s) + trim(s).len() <= s.len(),
        s =~= s.take(lead_ws(s) as int) + trim(s) + s.skip((lead_ws(s) + trim(s).len()) as int),
        forall|j: int| 0 <= j < lead_ws(s) ==> is_ws(#[trigger] s[j]),
        forall|j: int| lead_ws(s) + trim(s).len() <= j < s.len() ==> is_ws(#[trigger] s[j]),
        !is_ws(trim(s)[0]),
        !is_ws(trim(s).last()),
{
    let l = lead_ws(s);
    lemma_lead_ws_bound(s);
    let ts = trim_start(s);
    assert(ts == s.skip(l as int));
    lemma_trail_ws_bound(ts);
    let tw = trail_ws(ts);
    let t = trim(s);
    assert(t == ts.take(ts.len() - tw));
    assert(t[0] == s[l as int]);
    assert(t.last() == ts[ts.len() - tw - 1]);
    assert forall|j: int| l + t.len() <= j < s.len() implies is_ws(#[trigger] s[j]) by {
        assert(s[j] == ts[j - l]);
    }
}

/// Two duration texts written one after the other with a space between them
/// amount to the sum of their durations, while that sum stays in range.
pub proof fn lemma_joined_durations_add(a: Seq<char>, b: Seq<char>, x: nat, y: nat)
    requires
        parse_duration(a) == Ok::<nat, Seq<char>>(x),
        parse_duration(b) == Ok::<nat, Seq<char>>(y),
        x + y <= max_nanos(),
    ensures
        parse_duration(a + " "@ + b) == Ok::<nat, Seq<char>>(x + y),
{
    reveal_strlit(" ");
    let ta = trim(a);
    let tb = trim(b);
    lemma_trim_parts(a);
    lemma_trim_parts(b);
    let la = a.take(lead_ws(a) as int);
    let ea = a.skip((lead_ws(a) + ta.len()) as int);
    let lb = b.take(lead_ws(b) as int);
    let eb = b.skip((lead_ws(b) + tb.len()) as int);
    let w = ea + " "@ + lb;
    let whole = a + " "@ + b;
    assert(whole =~= la + (ta + w + tb) + eb);
    // Where the surrounding whitespace of the whole text ends.
    assert forall|j: int| 0 <= j < la.len() implies is_ws(#[trigger] whole[j]) by {
        assert(whole[j] == a[j]);
    }
    assert(whole[la.len() as int] == ta[0]);
    lemma_lead_ws_from(whole, la.len() as int);
    let ts = trim_start(whole);
    assert(ts =~= ta + w + tb + eb);
    assert forall|j: int| ts.len() - eb.len() <= j < ts.len() implies is_ws(#[trigger] ts[j]) by {
        assert(ts[j] == eb[j - (ts.len() - eb.len())]);
        assert(eb[j - (ts.len() - eb.len())] == b[lead_ws(b) + tb.len() + j - (ts.len() - eb.len())]);
    }
    assert(ts[ts.len() - eb.len() - 1] == tb.last());
    lemma_trail_ws_from(ts, eb.len() as int);
    assert(trim(whole) =~= ta + (w + tb));
    // The first text, then the whitespace, then the second.
    assert forall|j: int| 0 <= j < w.len() implies is_ws(#[trigger] w[j]) by {
        if j < ea.len() {
            assert(w[j] == a[lead_ws(a) + ta.len() + j]);
        } else if j > ea.len() {
            assert(w[j] == b[j - ea.len() - 1]);
        }
    }
    let wt = w + tb;
    assert(is_ws(wt[0]));
    lemma_tokens_append(ta, wt, 0, x);
    assert forall|j: int| 0 <= j < w.len() implies is_ws(#[trigger] wt[j]) by {
        assert(wt[j] == w[j]);
    }
    assert(wt[w.len() as int] == tb[0]);
    lemma_lead_ws_from(wt, w.len() as int);
    lemma_lead_ws_from(tb, 0);
    assert(trim_start(wt) =~= tb);
    assert(trim_start(tb) =~= tb);
    lemma_same_start(wt, tb, x);
    lemma_tokens_shift(tb, 0, x, y);
}

/// A whole number followed by a lower-case unit name parses to that number of the
/// unit's nanoseconds.
proof fn lemma_parse_whole(v: nat, unit: Seq<char>, x: nat)
    requires
        unit.len() >= 1,
        forall|i: int| 0 <= i < unit.len() ==> 'a' <= #[trigger] unit[i] <= 'z',
        unit_nanos(unit) == Some(x),
        v * x <= max_nanos(),
    ensures
        parse_duration(dec(v) + unit) == Ok::<nat, Seq<char>>(v * x),
{
    let num = dec(v);
    let s = num + unit;
    lemma_dec_digits(v);
    lemma_digits_no_dot(num);
    assert(is_digit(s[0]));
    lemma_trim_start_id(s);
    assert(s.last() == unit.last());
    assert(trail_ws(s) == 0);
    assert(trim_end(s) =~= s);
    assert(trim(s) == s);
    lemma_lead_count(s, num_pred(), num.len() as int);
    assert(s.take(num.len() as int) =~= num);
    let after = s.skip(num.len() as int);
    assert(after =~= unit);
    assert forall|j: int| 0 <= j < unit.len() implies #[trigger] alpha_pred()(after[j]) by {
        assert(after[j] == unit[j]);
    }
    lemma_lead_count(after, alpha_pred(), unit.len() as int);
    assert(after.take(unit.len() as int) =~= unit);
    assert(after.skip(unit.len() as int) =~= Seq::<char>::empty());
    assert forall|i: int| 0 <= i < unit.len() implies lower(#[trigger] unit[i]) == unit[i] by {}
    assert(lower_seq(unit) =~= unit);
    lemma_whole_amount(v, x);
    assert(min_nat(amount_nanos(num, x), u128_max()) == v * x);
    assert(trim_start(Seq::<char>::empty()) =~= Seq::<char>::empty());
    let t = v * x;
    assert(t <= u128_max());
    assert(t / 1_000_000_000 <= u64::MAX) by (nonlinear_arith)
        requires
            t <= (u64::MAX as nat + 1) * 1_000_000_000 - 1,
    ;
    assert(parse_tokens(Seq::<char>::empty(), t) == Ok::<nat, Seq<char>>(t));
    assert(parse_tokens(s, 0) == parse_tokens(Seq::<char>::empty(), 0 + t));
}

/// What the unit name `ns` names, and that it is written in lower-case letters.
proof fn lemma_name_ns()
    ensures
        unit_nanos("ns"@) == Some(1nat),
        forall|i: int| 0 <= i < "ns"@.len() ==> 'a' <= #[trigger] "ns"@[i] <= 'z',
        "ns"@.len() >= 1,
{
    reveal_strlit("ns");
}

/// What the unit name `nanosecond` names, and that it is written in lower-case letters.
proof fn lemma_name_nanosecond()
    ensures
        unit_nanos("nanosecond"@) == Some(1nat),
        forall|i: int| 0 <= i < "nanosecond"@.len() ==> 'a' <= #[trigger] "nanosecond"@[i] <= 'z',
        "nanosecond"@.len() >= 1,
{
    reveal_strlit("ns");
    reveal_strlit("nanosecond");
    assert("nanosecond"@.len() == 10 && "ns"@.len() == 2);
}

/// What the unit name `nanoseconds` names, and that it is written in lower-case letters.
proof fn lemma_name_nanoseconds()
    ensures
        unit_nanos("nanoseconds"@) == Some(1nat),
        forall|i: int| 0 <= i < "nanoseconds"@.len() ==> 'a' <= #[trigger] "nanoseconds"@[i] <= 'z',
        "nanoseconds"@.len() >= 1,
{
    reveal_strlit("ns");
    reveal_strlit("nanosecond");
    reveal_strlit("nanoseconds");
    assert("nanoseconds"@.len() == 11 && "ns"@.len() == 2);
    assert("nanoseconds"@.len() == 11 && "nanosecond"@.len() == 10);
}

/// What the unit name `us` names, and that it is written in lower-case letters.
proof fn lemma_name_us()
    ensures
        unit_nanos("us"@) == Some(1_000nat),
        forall|i: int| 0 <= i < "us"@.len() ==> 'a' <= #[trigger] "us"@[i] <= 'z',
        "us"@.len() >= 1,
{
    reveal_strlit("ns");
    reveal_strlit("nanosecond");
    reveal_strlit("nanoseconds");
    reveal_strlit("us");
    lemma_differ_at("us"@, "ns"@, 0);
    assert("us"@.len() == 2 && "nanosecond"@.len() == 10);
    assert("us"@.len() == 2 && "nanoseconds"@.len() == 11);
}

/// What the unit name `microsecond` names, and that it is written in lower-case letters.
proof fn lemma_name_microsecond()
    ensures
        unit_nanos("microsecond"@) == Some(1_000nat),
        forall|i: int| 0 <= i < "microsecond"@.len() ==> 'a' <= #[trigger] "microsecond"@[i] <= 'z',
        "microsecond"@.len() >= 1,
{
    reveal_strlit("ns");
    reveal_strlit("nanosecond");
    reveal_strlit("nanoseconds");
    reveal_strlit("us");
    reveal_strlit("microsecond");
    assert("microsecond"@.len() == 11 && "ns"@.len() == 2);
    assert("microsecond"@.len() == 11 && "nanosecond"@.len() == 10);
    lemma_differ_at("microsecond"@, "nanoseconds"@, 0);
    assert("microsecond"@.len() == 11 && "us"@.len() == 2);
}

/// What the unit name `microseconds` names, and that it is written in lower-case letters.
proof fn lemma_name_microseconds()
    ensures
        unit_nanos("microseconds"@) == Some(1_000nat),
        forall|i: int| 0 <= i < "microseconds"@.len() ==> 'a' <= #[trigger] "microseconds"@[i] <= 'z',
        "microseconds"@.len() >= 1,
{
    reveal_strlit("ns");
    reveal_strlit("nanosecond");
    reveal_strlit("nanoseconds");
    reveal_strlit("us");
    reveal_strlit("microsecond");
    reveal_strlit("microseconds");
    assert("microseconds"@.len() == 12 && "ns"@.len() == 2);
    assert("microseconds"@.len() == 12 && "nanosecond"@.len() == 10);
    assert("microseconds"@.len() == 12 && "nanoseconds"@.len() == 11);
    assert("microseconds"@.len() == 12 && "us"@.len() == 2);
    assert("microseconds"@.len() == 12 && "microsecond"@.len() == 11);
}

/// What the unit name `ms` names, and that it is written in lower-case letters.
proof fn lemma_name_ms()
    ensures
        unit_nanos("ms"@) == Some(1_000_000nat),
        forall|i: int| 0 <= i < "ms"@.len() ==> 'a' <= #[trigger] "ms"@[i] <= 'z',
        "ms"@.len() >= 1,
{
    reveal_strlit("ns");
    reveal_strlit("nanosecond");
    reveal_strlit("nanoseconds");
    reveal_strlit("us");
    reveal_strlit("microsecond");
    reveal_strlit("microseconds");
    reveal_strlit("ms");
    lemma_differ_at("ms"@, "ns"@, 0);
    assert("ms"@.len() == 2 && "nanosecond"@.len() == 10);
    assert("ms"@.len() == 2 && "nanoseconds"@.len() == 11);
    lemma_differ_at("ms"@, "us"@, 0);
    assert("ms"@.len() == 2 && "microsecond"@.len() == 11);
    assert("ms"@.len() == 2 && "microseconds"@.len() == 12);
}

/// What the unit name `millisecond` names, and that it is written in lower-case letters.
proof fn lemma_name_millisecond()
    ensures
        unit_nanos("millisecond"@) == Some(1_000_000nat),
        forall|i: int| 0 <= i < "millisecond"@.len() ==> 'a' <= #[trigger] "millisecond"@[i] <= 'z',
        "millisecond"@.len() >= 1,
{
    reveal_strlit("ns");
    reveal_strlit("nanosecond");
    reveal_strlit("nanoseconds");
    reveal_strlit("us");
    reveal_strlit("microsecond");
    reveal_strlit("microseconds");
    reveal_strlit("ms");
    reveal_strlit("millisecond");
    assert("millisecond"@.len() == 11 && "ns"@.len() == 2);
    assert("millisecond"@.len() == 11 && "nanosecond"@.len() == 10);
    lemma_differ_at("millisecond"@, "nanoseconds"@, 0);
    assert("millisecond"@.len() == 11 && "us"@.len() == 2);
    lemma_differ_at("millisecond"@, "microsecond"@, 2);
    assert("millisecond"@.len() == 11 && "microseconds"@.len() == 12);
    assert("millisecond"@.len() == 11 && "ms"@.len() == 2);
}

/// What the unit name `milliseconds` names, and that it is written in lower-case letters.
proof fn lemma_name_milliseconds()
    ensures
        unit_nanos("milliseconds"@) == Some(1_000_000nat),
        forall|i: int| 0 <= i < "milliseconds"@.len() ==> 'a' <= #[trigger] "milliseconds"@[i] <= 'z',
        "milliseconds"@.len() >= 1,
{
    reveal_strlit("ns");
    reveal_strlit("nanosecond");
    reveal_strlit("nanoseconds");
    reveal_strlit("us");
    reveal_strlit("microsecond");
    reveal_strlit("microseconds");
    reveal_strlit("ms");
    reveal_strlit("millisecond");
    reveal_strlit("milliseconds");
    assert("milliseconds"@.len() == 12 && "ns"@.len() == 2);
    assert("milliseconds"@.len() == 12 && "nanosecond"@.len() == 10);
    assert("milliseconds"@.len() == 12 && "nanoseconds"@.len() == 11);
    assert("milliseconds"@.len() == 12 && "us"@.len() == 2);
    assert("milliseconds"@.len() == 12 && "microsecond"@.len() == 11);
    lemma_differ_at("milliseconds"@, "microseconds"@, 2);
    assert("milliseconds"@.len() == 12 && "ms"@.len() == 2);
    assert("milliseconds"@.len() == 12 && "millisecond"@.len() == 11);
}

/// Every spelling of a unit means the same amount: `ns`, `nanosecond` and
/// `nanoseconds` are nanoseconds, `us`, `microsecond` and `microseconds` are
/// thousands of them, `ms`, `millisecond` and `milliseconds` millions; `<n>s`, `<n>sec`, `<n>secs`,
/// `<n>second` and `<n>seconds` are `n` seconds; `m`, `min`, `mins`, `minute` and
/// `minutes` are minutes of 60 seconds; `h`, `hr`, `hrs`, `hour` and `hours` are
/// hours of 3600 seconds; `d`, `day` and `days` are days of 86400 seconds.
pub proof fn lemma_unit_spellings(n: nat)
    requires
        n * 86_400_000_000_000 <= max_nanos(),
    ensures
        parse_duration(dec(n) + "ns"@) == Ok::<nat, Seq<char>>(n * 1),
        parse_duration(dec(n) + "nanosecond"@) == Ok::<nat, Seq<char>>(n * 1),
        parse_duration(dec(n) + "nanoseconds"@) == Ok::<nat, Seq<char>>(n * 1),
        parse_duration(dec(n) + "us"@) == Ok::<nat, Seq<char>>(n * 1_000),
        parse_duration(dec(n) + "microsecond"@) == Ok::<nat, Seq<char>>(n * 1_000),
        parse_duration(dec(n) + "microseconds"@) == Ok::<nat, Seq<char>>(n * 1_000),
        parse_duration(dec(n) + "ms"@) == Ok::<nat, Seq<char>>(n * 1_000_000),
        parse_duration(dec(n) + "millisecond"@) == Ok::<nat, Seq<char>>(n * 1_000_000),
        parse_duration(dec(n) + "milliseconds"@) == Ok::<nat, Seq<char>>(n * 1_000_000),
        parse_duration(dec(n) + "s"@) == Ok::<nat, Seq<char>>(n * 1_000_000_000),
        parse_duration(dec(n) + "sec"@) == Ok::<nat, Seq<char>>(n * 1_000_000_000),
        parse_duration(dec(n) + "secs"@) == Ok::<nat, Seq<char>>(n * 1_000_000_000),
        parse_duration(dec(n) + "second"@) == Ok::<nat, Seq<char>>(n * 1_000_000_000),
        parse_duration(dec(n) + "seconds"@) == Ok::<nat, Seq<char>>(n * 1_000_000_000),
        parse_duration(dec(n) + "m"@) == Ok::<nat, Seq<char>>(n * 60_000_000_000),
        parse_duration(dec(n) + "min"@) == Ok::<nat, Seq<char>>(n * 60_000_000_000),
        parse_duration(dec(n) + "mins"@) == Ok::<nat, Seq<char>>(n * 60_000_000_000),
        parse_duration(dec(n) + "minute"@) == Ok::<nat, Seq<char>>(n * 60_000_000_000),
        parse_duration(dec(n) + "minutes"@) == Ok::<nat, Seq<char>>(n * 60_000_000_000),
        parse_duration(dec(n) + "h"@) == Ok::<nat, Seq<char>>(n * 3_600_000_000_000),
        parse_duration(dec(n) + "hr"@) == Ok::<nat, Seq<char>>(n * 3_600_000_000_000),
        parse_duration(dec(n) + "hrs"@) == Ok::<nat, Seq<char>>(n * 3_600_000_000_000),
        parse_duration(dec(n) + "hour"@) == Ok::<nat, Seq<char>>(n * 3_600_000_000_000),
        parse_duration(dec(n) + "hours"@) == Ok::<nat, Seq<char>>(n * 3_600_000_000_000),
        parse_duration(dec(n) + "d"@) == Ok::<nat, Seq<char>>(n * 86_400_000_000_000),
        parse_duration(dec(n) + "day"@) == Ok::<nat, Seq<char>>(n * 86_400_000_000_000),
        parse_duration(dec(n) + "days"@) == Ok::<nat, Seq<char>>(n * 86_400_000_000_000),
{
    lemma_name_s();
    lemma_name_sec();
    lemma_name_secs();
    lemma_name_second();
    lemma_name_seconds();
    lemma_name_m();
    lemma_name_min();
    lemma_name_mins();
    lemma_name_minute();
    lemma_name_minutes();
    lemma_name_h();
    lemma_name_hr();
    lemma_name_hrs();
    lemma_name_hour();
    lemma_name_hours();
    lemma_name_d();
    lemma_name_day();
    lemma_name_days();
    assert(n * 1_000_000_000 <= n * 86_400_000_000_000) by (nonlinear_arith);
    assert(n * 1_000_000 <= n * 86_400_000_000_000) by (nonlinear_arith);
    assert(n * 1_000 <= n * 86_400_000_000_000) by (nonlinear_arith);
    assert(n * 1 <= n * 86_400_000_000_000) by (nonlinear_arith);
    lemma_name_ns();
    lemma_parse_whole(n, "ns"@, 1);
    lemma_name_nanosecond();
    lemma_parse_whole(n, "nanosecond"@, 1);
    lemma_name_nanoseconds();
    lemma_parse_whole(n, "nanoseconds"@, 1);
    lemma_name_us();
    lemma_parse_whole(n, "us"@, 1_000);
    lemma_name_microsecond();
    lemma_parse_whole(n, "microsecond"@, 1_000);
    lemma_name_microseconds();
    lemma_parse_whole(n, "microseconds"@, 1_000);
    lemma_name_ms();
    lemma_parse_whole(n, "ms"@, 1_000_000);
    lemma_name_millisecond();
    lemma_parse_whole(n, "millisecond"@, 1_000_000);
    lemma_name_milliseconds();
    lemma_parse_whole(n, "milliseconds"@, 1_000_000);

    assert(n * 60_000_000_000 <= n * 86_400_000_000_000) by (nonlinear_arith);
    assert(n * 3_600_000_000_000 <= n * 86_400_000_000_000) by (nonlinear_arith);
    lemma_parse_whole(n, "s"@, 1_000_000_000);
    lemma_parse_whole(n, "sec"@, 1_000_000_000);
    lemma_parse_whole(n, "secs"@, 1_000_000_000);
    lemma_parse_whole(n, "second"@, 1_000_000_000);
    lemma_parse_whole(n, "seconds"@, 1_000_000_000);
    lemma_parse_whole(n, "m"@, 60_000_000_000);
    lemma_parse_whole(n, "min"@, 60_000_000_000);
    lemma_parse_whole(n, "mins"@, 60_000_000_000);
    lemma_parse_whole(n, "minute"@, 60_000_000_000);
    lemma_parse_whole(n, "minutes"@, 60_000_000_000);
    lemma_parse_whole(n, "h"@, 3_600_000_000_000);
    lemma_parse_whole(n, "hr"@, 3_600_000_000_000);
    lemma_parse_whole(n, "hrs"@, 3_600_000_000_000);
    lemma_parse_whole(n, "hour"@, 3_600_000_000_000);
    lemma_parse_whole(n, "hours"@, 3_600_000_000_000);
    lemma_parse_whole(n, "d"@, 86_400_000_000_000);
    lemma_parse_whole(n, "day"@, 86_400_000_000_000);
    lemma_parse_whole(n, "days"@, 86_400_000_000_000);
}

/// What the unit name `s` names, and that it is written in lower-case letters.
proof fn lemma_name_s()
    ensures
        unit_nanos("s"@) == Some(1_000_000_000nat),
        forall|i: int| 0 <= i < "s"@.len() ==> 'a' <= #[trigger] "s"@[i] <= 'z',
        "s"@.len() >= 1,
{
    reveal_strlit("ns");
    reveal_strlit("nanosecond");
    reveal_strlit("nanoseconds");
    reveal_strlit("us");
    reveal_strlit("microsecond");
    reveal_strlit("microseconds");
    reveal_strlit("ms");
    reveal_strlit("millisecond");
    reveal_strlit("milliseconds");
    reveal_strlit("s");
    assert("s"@.len() == 1 && "ns"@.len() == 2);
    assert("s"@.len() == 1 && "nanosecond"@.len() == 10);
    assert("s"@.len() == 1 && "nanoseconds"@.len() == 11);
    assert("s"@.len() == 1 && "us"@.len() == 2);
    assert("s"@.len() == 1 && "microsecond"@.len() == 11);
    assert("s"@.len() == 1 && "microseconds"@.len() == 12);
    assert("s"@.len() == 1 && "ms"@.len() == 2);
    assert("s"@.len() == 1 && "millisecond"@.len() == 11);
    assert("s"@.len() == 1 && "milliseconds"@.len() == 12);
}

/// What the unit name `sec` names, and that it is written in lower-case letters.
proof fn lemma_name_sec()
    ensures
        unit_nanos("sec"@) == Some(1_000_000_000nat),
        forall|i: int| 0 <= i < "sec"@.len() ==> 'a' <= #[trigger] "sec"@[i] <= 'z',
        "sec"@.len() >= 1,
{
    reveal_strlit("ns");
    reveal_strlit("nanosecond");
    reveal_strlit("nanoseconds");
    reveal_strlit("us");
    reveal_strlit("microsecond");
    reveal_strlit("microseconds");
    reveal_strlit("ms");
    reveal_strlit("millisecond");
    reveal_strlit("milliseconds");
    reveal_strlit("s");
    reveal_strlit("sec");
    assert("sec"@.len() == 3 && "ns"@.len() == 2);
    assert("sec"@.len() == 3 && "nanosecond"@.len() == 10);
    assert("sec"@.len() == 3 && "nanoseconds"@.len() == 11);
    assert("sec"@.len() == 3 && "us"@.len() == 2);
    assert("sec"@.len() == 3 && "microsecond"@.len() == 11);
    assert("sec"@.len() == 3 && "microseconds"@.len() == 12);
    assert("sec"@.len() == 3 && "ms"@.len() == 2);
    assert("sec"@.len() == 3 && "millisecond"@.len() == 11);
    assert("sec"@.len() == 3 && "milliseconds"@.len() == 12);
    assert("sec"@.len() == 3 && "s"@.len() == 1);
}

/// What the unit name `secs` names, and that it is written in lower-case letters.
proof fn lemma_name_secs()
    ensures
        unit_nanos("secs"@) == Some(1_000_000_000nat),
        forall|i: int| 0 <= i < "secs"@.len() ==> 'a' <= #[trigger] "secs"@[i] <= 'z',
        "secs"@.len() >= 1,
{
    reveal_strlit("ns");
    reveal_strlit("nanosecond");
    reveal_strlit("nanoseconds");
    reveal_strlit("us");
    reveal_strlit("microsecond");
    reveal_strlit("microseconds");
    reveal_strlit("ms");
    reveal_strlit("millisecond");
    reveal_strlit("milliseconds");
    reveal_strlit("s");
    reveal_strlit("sec");
    reveal_strlit("secs");
    assert("secs"@.len() == 4 && "ns"@.len() == 2);
    assert("secs"@.len() == 4 && "nanosecond"@.len() == 10);
    assert("secs"@.len() == 4 && "nanoseconds"@.len() == 11);
    assert("secs"@.len() == 4 && "us"@.len() == 2);
    assert("secs"@.len() == 4 && "microsecond"@.len() == 11);
    assert("secs"@.len() == 4 && "microseconds"@.len() == 12);
    assert("secs"@.len() == 4 && "ms"@.len() == 2);
    assert("secs"@.len() == 4 && "millisecond"@.len() == 11);
    assert("secs"@.len() == 4 && "milliseconds"@.len() == 12);
    assert("secs"@.len() == 4 && "s"@.len() == 1);
    assert("secs"@.len() == 4 && "sec"@.len() == 3);
}

/// What the unit name `second` names, and that it is written in lower-case letters.
proof fn lemma_name_second()
    ensures
        unit_nanos("second"@) == Some(1_000_000_000nat),
        forall|i: int| 0 <= i < "second"@.len() ==> 'a' <= #[trigger] "second"@[i] <= 'z',
        "second"@.len() >= 1,
{
    reveal_strlit("ns");
    reveal_strlit("nanosecond");
    reveal_strlit("nanoseconds");
    reveal_strlit("us");
    reveal_strlit("microsecond");
    reveal_strlit("microseconds");
    reveal_strlit("ms");
    reveal_strlit("millisecond");
    reveal_strlit("milliseconds");
    reveal_strlit("s");
    reveal_strlit("sec");
    reveal_strlit("secs");
    reveal_strlit("second");
    assert("second"@.len() == 6 && "ns"@.len() == 2);
    assert("second"@.len() == 6 && "nanosecond"@.len() == 10);
    assert("second"@.len() == 6 && "nanoseconds"@.len() == 11);
    assert("second"@.len() == 6 && "us"@.len() == 2);
    assert("second"@.len() == 6 && "microsecond"@.len() == 11);
    assert("second"@.len() == 6 && "microseconds"@.len() == 12);
    assert("second"@.len() == 6 && "ms"@.len() == 2);
    assert("second"@.len() == 6 && "millisecond"@.len() == 11);
    assert("second"@.len() == 6 && "milliseconds"@.len() == 12);
    assert("second"@.len() == 6 && "s"@.len() == 1);
    assert("second"@.len() == 6 && "sec"@.len() == 3);
    assert("second"@.len() == 6 && "secs"@.len() == 4);
}

/// What the unit name `seconds` names, and that it is written in lower-case letters.
proof fn lemma_name_seconds()
    ensures
        unit_nanos("seconds"@) == Some(1_000_000_000nat),
        forall|i: int| 0 <= i < "seconds"@.len() ==> 'a' <= #[trigger] "seconds"@[i] <= 'z',
        "seconds"@.len() >= 1,
{
    reveal_strlit("ns");
    reveal_strlit("nanosecond");
    reveal_strlit("nanoseconds");
    reveal_strlit("us");
    reveal_strlit("microsecond");
    reveal_strlit("microseconds");
    reveal_strlit("ms");
    reveal_strlit("millisecond");
    reveal_strlit("milliseconds");
    reveal_strlit("s");
    reveal_strlit("sec");
    reveal_strlit("secs");
    reveal_strlit("second");
    reveal_strlit("seconds");
    assert("seconds"@.len() == 7 && "ns"@.len() == 2);
    assert("seconds"@.len() == 7 && "nanosecond"@.len() == 10);
    assert("seconds"@.len() == 7 && "nanoseconds"@.len() == 11);
    assert("seconds"@.len() == 7 && "us"@.len() == 2);
    assert("seconds"@.len() == 7 && "microsecond"@.len() == 11);
    assert("seconds"@.len() == 7 && "microseconds"@.len() == 12);
    assert("seconds"@.len() == 7 && "ms"@.len() == 2);
    assert("seconds"@.len() == 7 && "millisecond"@.len() == 11);
    assert("seconds"@.len() == 7 && "milliseconds"@.len() == 12);
    assert("seconds"@.len() == 7 && "s"@.len() == 1);
    assert("seconds"@.len() == 7 && "sec"@.len() == 3);
    assert("seconds"@.len() == 7 && "secs"@.len() == 4);
    assert("seconds"@.len() == 7 && "second"@.len() == 6);
}

/// What the unit name `m` names, and that it is written in lower-case letters.
proof fn lemma_name_m()
    ensures
        unit_nanos("m"@) == Some(60_000_000_000nat),
        forall|i: int| 0 <= i < "m"@.len() ==> 'a' <= #[trigger] "m"@[i] <= 'z',
        "m"@.len() >= 1,
{
    reveal_strlit("ns");
    reveal_strlit("nanosecond");
    reveal_strlit("nanoseconds");
    reveal_strlit("us");
    reveal_strlit("microsecond");
    reveal_strlit("microseconds");
    reveal_strlit("ms");
    reveal_strlit("millisecond");
    reveal_strlit("milliseconds");
    reveal_strlit("s");
    reveal_strlit("sec");
    reveal_strlit("secs");
    reveal_strlit("second");
    reveal_strlit("seconds");
    reveal_strlit("m");
    assert("m"@.len() == 1 && "ns"@.len() == 2);
    assert("m"@.len() == 1 && "nanosecond"@.len() == 10);
    assert("m"@.len() == 1 && "nanoseconds"@.len() == 11);
    assert("m"@.len() == 1 && "us"@.len() == 2);
    assert("m"@.len() == 1 && "microsecond"@.len() == 11);
    assert("m"@.len() == 1 && "microseconds"@.len() == 12);
    assert("m"@.len() == 1 && "ms"@.len() == 2);
    assert("m"@.len() == 1 && "millisecond"@.len() == 11);
    assert("m"@.len() == 1 && "milliseconds"@.len() == 12);
    lemma_differ_at("m"@, "s"@, 0);
    assert("m"@.len() == 1 && "sec"@.len() == 3);
    assert("m"@.len() == 1 && "secs"@.len() == 4);
    assert("m"@.len() == 1 && "second"@.len() == 6);
    assert("m"@.len() == 1 && "seconds"@.len() == 7);
}

/// What the unit name `min` names, and that it is written in lower-case letters.
proof fn lemma_name_min()
    ensures
        unit_nanos("min"@) == Some(60_000_000_000nat),
        forall|i: int| 0 <= i < "min"@.len() ==> 'a' <= #[trigger] "min"@[i] <= 'z',
        "min"@.len() >= 1,
{
    reveal_strlit("ns");
    reveal_strlit("nanosecond");
    reveal_strlit("nanoseconds");
    reveal_strlit("us");
    reveal_strlit("microsecond");
    reveal_strlit("microseconds");
    reveal_strlit("ms");
    reveal_strlit("millisecond");
    reveal_strlit("milliseconds");
    reveal_strlit("s");
    reveal_strlit("sec");
    reveal_strlit("secs");
    reveal_strlit("second");
    reveal_strlit("seconds");
    reveal_strlit("m");
    reveal_strlit("min");
    assert("min"@.len() == 3 && "ns"@.len() == 2);
    assert("min"@.len() == 3 && "nanosecond"@.len() == 10);
    assert("min"@.len() == 3 && "nanoseconds"@.len() == 11);
    assert("min"@.len() == 3 && "us"@.len() == 2);
    assert("min"@.len() == 3 && "microsecond"@.len() == 11);
    assert("min"@.len() == 3 && "microseconds"@.len() == 12);
    assert("min"@.len() == 3 && "ms"@.len() == 2);
    assert("min"@.len() == 3 && "millisecond"@.len() == 11);
    assert("min"@.len() == 3 && "milliseconds"@.len() == 12);
    assert("min"@.len() == 3 && "s"@.len() == 1);
    lemma_differ_at("min"@, "sec"@, 0);
    assert("min"@.len() == 3 && "secs"@.len() == 4);
    assert("min"@.len() == 3 && "second"@.len() == 6);
    assert("min"@.len() == 3 && "seconds"@.len() == 7);
    assert("min"@.len() == 3 && "m"@.len() == 1);
}

/// What the unit name `mins` names, and that it is written in lower-case letters.
proof fn lemma_name_mins()
    ensures
        unit_nanos("mins"@) == Some(60_000_000_000nat),
        forall|i: int| 0 <= i < "mins"@.len() ==> 'a' <= #[trigger] "mins"@[i] <= 'z',
        "mins"@.len() >= 1,
{
    reveal_strlit("ns");
    reveal_strlit("nanosecond");
    reveal_strlit("nanoseconds");
    reveal_strlit("us");
    reveal_strlit("microsecond");
    reveal_strlit("microseconds");
    reveal_strlit("ms");
    reveal_strlit("millisecond");
    reveal_strlit("milliseconds");
    reveal_strlit("s");
    reveal_strlit("sec");
    reveal_strlit("secs");
    reveal_strlit("second");
    reveal_strlit("seconds");
    reveal_strlit("m");
    reveal_strlit("min");
    reveal_strlit("mins");
    assert("mins"@.len() == 4 && "ns"@.len() == 2);
    assert("mins"@.len() == 4 && "nanosecond"@.len() == 10);
    assert("mins"@.len() == 4 && "nanoseconds"@.len() == 11);
    assert("mins"@.len() == 4 && "us"@.len() == 2);
    assert("mins"@.len() == 4 && "microsecond"@.len() == 11);
    assert("mins"@.len() == 4 && "microseconds"@.len() == 12);
    assert("mins"@.len() == 4 && "ms"@.len() == 2);
    assert("mins"@.len() == 4 && "millisecond"@.len() == 11);
    assert("mins"@.len() == 4 && "milliseconds"@.len() == 12);
    assert("mins"@.len() == 4 && "s"@.len() == 1);
    assert("mins"@.len() == 4 && "sec"@.len() == 3);
    lemma_differ_at("mins"@, "secs"@, 0);
    assert("mins"@.len() == 4 && "second"@.len() == 6);
    assert("mins"@.len() == 4 && "seconds"@.len() == 7);
    assert("mins"@.len() == 4 && "m"@.len() == 1);
    assert("mins"@.len() == 4 && "min"@.len() == 3);
}

/// What the unit name `minute` names, and that it is written in lower-case letters.
proof fn lemma_name_minute()
    ensures
        unit_nanos("minute"@) == Some(60_000_000_000nat),
        forall|i: int| 0 <= i < "minute"@.len() ==> 'a' <= #[trigger] "minute"@[i] <= 'z',
        "minute"@.len() >= 1,
{
    reveal_strlit("ns");
    reveal_strlit("nanosecond");
    reveal_strlit("nanoseconds");
    reveal_strlit("us");
    reveal_strlit("microsecond");
    reveal_strlit("microseconds");
    reveal_strlit("ms");
    reveal_strlit("millisecond");
    reveal_strlit("milliseconds");
    reveal_strlit("s");
    reveal_strlit("sec");
    reveal_strlit("secs");
    reveal_strlit("second");
    reveal_strlit("seconds");
    reveal_strlit("m");
    reveal_strlit("min");
    reveal_strlit("mins");
    reveal_strlit("minute");
    assert("minute"@.len() == 6 && "ns"@.len() == 2);
    assert("minute"@.len() == 6 && "nanosecond"@.len() == 10);
    assert("minute"@.len() == 6 && "nanoseconds"@.len() == 11);
    assert("minute"@.len() == 6 && "us"@.len() == 2);
    assert("minute"@.len() == 6 && "microsecond"@.len() == 11);
    assert("minute"@.len() == 6 && "microseconds"@.len() == 12);
    assert("minute"@.len() == 6 && "ms"@.len() == 2);
    assert("minute"@.len() == 6 && "millisecond"@.len() == 11);
    assert("minute"@.len() == 6 && "milliseconds"@.len() == 12);
    assert("minute"@.len() == 6 && "s"@.len() == 1);
    assert("minute"@.len() == 6 && "sec"@.len() == 3);
    assert("minute"@.len() == 6 && "secs"@.len() == 4);
    lemma_differ_at("minute"@, "second"@, 0);
    assert("minute"@.len() == 6 && "seconds"@.len() == 7);
    assert("minute"@.len() == 6 && "m"@.len() == 1);
    assert("minute"@.len() == 6 && "min"@.len() == 3);
    assert("minute"@.len() == 6 && "mins"@.len() == 4);
}

/// What the unit name `minutes` names, and that it is written in lower-case letters.
proof fn lemma_name_minutes()
    ensures
        unit_nanos("minutes"@) == Some(60_000_000_000nat),
        forall|i: int| 0 <= i < "minutes"@.len() ==> 'a' <= #[trigger] "minutes"@[i] <= 'z',
        "minutes"@.len() >= 1,
{
    reveal_strlit("ns");
    reveal_strlit("nanosecond");
    reveal_strlit("nanoseconds");
    reveal_strlit("us");
    reveal_strlit("microsecond");
    reveal_strlit("microseconds");
    reveal_strlit("ms");
    reveal_strlit("millisecond");
    reveal_strlit("milliseconds");
    reveal_strlit("s");
    reveal_strlit("sec");
    reveal_strlit("secs");
    reveal_strlit("second");
    reveal_strlit("seconds");
    reveal_strlit("m");
    reveal_strlit("min");
    reveal_strlit("mins");
    reveal_strlit("minute");
    reveal_strlit("minutes");
    assert("minutes"@.len() == 7 && "ns"@.len() == 2);
    assert("minutes"@.len() == 7 && "nanosecond"@.len() == 10);
    assert("minutes"@.len() == 7 && "nanoseconds"@.len() == 11);
    assert("minutes"@.len() == 7 && "us"@.len() == 2);
    assert("minutes"@.len() == 7 && "microsecond"@.len() == 11);
    assert("minutes"@.len() == 7 && "microseconds"@.len() == 12);
    assert("minutes"@.len() == 7 && "ms"@.len() == 2);
    assert("minutes"@.len() == 7 && "millisecond"@.len() == 11);
    assert("minutes"@.len() == 7 && "milliseconds"@.len() == 12);
    assert("minutes"@.len() == 7 && "s"@.len() == 1);
    assert("minutes"@.len() == 7 && "sec"@.len() == 3);
    assert("minutes"@.len() == 7 && "secs"@.len() == 4);
    assert("minutes"@.len() == 7 && "second"@.len() == 6);
    lemma_differ_at("minutes"@, "seconds"@, 0);
    assert("minutes"@.len() == 7 && "m"@.len() == 1);
    assert("minutes"@.len() == 7 && "min"@.len() == 3);
    assert("minutes"@.len() == 7 && "mins"@.len() == 4);
    assert("minutes"@.len() == 7 && "minute"@.len() == 6);
}

/// What the unit name `h` names, and that it is written in lower-case letters.
proof fn lemma_name_h()
    ensures
        unit_nanos("h"@) == Some(3_600_000_000_000nat),
        forall|i: int| 0 <= i < "h"@.len() ==> 'a' <= #[trigger] "h"@[i] <= 'z',
        "h"@.len() >= 1,
{
    reveal_strlit("ns");
    reveal_strlit("nanosecond");
    reveal_strlit("nanoseconds");
    reveal_strlit("us");
    reveal_strlit("microsecond");
    reveal_strlit("microseconds");
    reveal_strlit("ms");
    reveal_strlit("millisecond");
    reveal_strlit("milliseconds");
    reveal_strlit("s");
    reveal_strlit("sec");
    reveal_strlit("secs");
    reveal_strlit("second");
    reveal_strlit("seconds");
    reveal_strlit("m");
    reveal_strlit("min");
    reveal_strlit("mins");
    reveal_strlit("minute");
    reveal_strlit("minutes");
    reveal_strlit("h");
    assert("h"@.len() == 1 && "ns"@.len() == 2);
    assert("h"@.len() == 1 && "nanosecond"@.len() == 10);
    assert("h"@.len() == 1 && "nanoseconds"@.len() == 11);
    assert("h"@.len() == 1 && "us"@.len() == 2);
    assert("h"@.len() == 1 && "microsecond"@.len() == 11);
    assert("h"@.len() == 1 && "microseconds"@.len() == 12);
    assert("h"@.len() == 1 && "ms"@.len() == 2);
    assert("h"@.len() == 1 && "millisecond"@.len() == 11);
    assert("h"@.len() == 1 && "milliseconds"@.len() == 12);
    lemma_differ_at("h"@, "s"@, 0);
    assert("h"@.len() == 1 && "sec"@.len() == 3);
    assert("h"@.len() == 1 && "secs"@.len() == 4);
    assert("h"@.len() == 1 && "second"@.len() == 6);
    assert("h"@.len() == 1 && "seconds"@.len() == 7);
    lemma_differ_at("h"@, "m"@, 0);
    assert("h"@.len() == 1 && "min"@.len() == 3);
    assert("h"@.len() == 1 && "mins"@.len() == 4);
    assert("h"@.len() == 1 && "minute"@.len() == 6);
    assert("h"@.len() == 1 && "minutes"@.len() == 7);
}

/// What the unit name `hr` names, and that it is written in lower-case letters.
proof fn lemma_name_hr()
    ensures
        unit_nanos("hr"@) == Some(3_600_000_000_000nat),
        forall|i: int| 0 <= i < "hr"@.len() ==> 'a' <= #[trigger] "hr"@[i] <= 'z',
        "hr"@.len() >= 1,
{
    reveal_strlit("ns");
    reveal_strlit("nanosecond");
    reveal_strlit("nanoseconds");
    reveal_strlit("us");
    reveal_strlit("microsecond");
    reveal_strlit("microseconds");
    reveal_strlit("ms");
    reveal_strlit("millisecond");
    reveal_strlit("milliseconds");
    reveal_strlit("s");
    reveal_strlit("sec");
    reveal_strlit("secs");
    reveal_strlit("second");
    reveal_strlit("seconds");
    reveal_strlit("m");
    reveal_strlit("min");
    reveal_strlit("mins");
    reveal_strlit("minute");
    reveal_strlit("minutes");
    reveal_strlit("h");
    reveal_strlit("hr");
    lemma_differ_at("hr"@, "ns"@, 0);
    assert("hr"@.len() == 2 && "nanosecond"@.len() == 10);
    assert("hr"@.len() == 2 && "nanoseconds"@.len() == 11);
    lemma_differ_at("hr"@, "us"@, 0);
    assert("hr"@.len() == 2 && "microsecond"@.len() == 11);
    assert("hr"@.len() == 2 && "microseconds"@.len() == 12);
    lemma_differ_at("hr"@, "ms"@, 0);
    assert("hr"@.len() == 2 && "millisecond"@.len() == 11);
    assert("hr"@.len() == 2 && "milliseconds"@.len() == 12);
    assert("hr"@.len() == 2 && "s"@.len() == 1);
    assert("hr"@.len() == 2 && "sec"@.len() == 3);
    assert("hr"@.len() == 2 && "secs"@.len() == 4);
    assert("hr"@.len() == 2 && "second"@.len() == 6);
    assert("hr"@.len() == 2 && "seconds"@.len() == 7);
    assert("hr"@.len() == 2 && "m"@.len() == 1);
    assert("hr"@.len() == 2 && "min"@.len() == 3);
    assert("hr"@.len() == 2 && "mins"@.len() == 4);
    assert("hr"@.len() == 2 && "minute"@.len() == 6);
    assert("hr"@.len() == 2 && "minutes"@.len() == 7);
    assert("hr"@.len() == 2 && "h"@.len() == 1);
}

/// What the unit name `hrs` names, and that it is written in lower-case letters.
proof fn lemma_name_hrs()
    ensures
        unit_nanos("hrs"@) == Some(3_600_000_000_000nat),
        forall|i: int| 0 <= i < "hrs"@.len() ==> 'a' <= #[trigger] "hrs"@[i] <= 'z',
        "hrs"@.len() >= 1,
{
    reveal_strlit("ns");
    reveal_strlit("nanosecond");
    reveal_strlit("nanoseconds");
    reveal_strlit("us");
    reveal_strlit("microsecond");
    reveal_strlit("microseconds");
    reveal_strlit("ms");
    reveal_strlit("millisecond");
    reveal_strlit("milliseconds");
    reveal_strlit("s");
    reveal_strlit("sec");
    reveal_strlit("secs");
    reveal_strlit("second");
    reveal_strlit("seconds");
    reveal_strlit("m");
    reveal_strlit("min");
    reveal_strlit("mins");
    reveal_strlit("minute");
    reveal_strlit("minutes");
    reveal_strlit("h");
    reveal_strlit("hr");
    reveal_strlit("hrs");
    assert("hrs"@.len() == 3 && "ns"@.len() == 2);
    assert("hrs"@.len() == 3 && "nanosecond"@.len() == 10);
    assert("hrs"@.len() == 3 && "nanoseconds"@.len() == 11);
    assert("hrs"@.len() == 3 && "us"@.len() == 2);
    assert("hrs"@.len() == 3 && "microsecond"@.len() == 11);
    assert("hrs"@.len() == 3 && "microseconds"@.len() == 12);
    assert("hrs"@.len() == 3 && "ms"@.len() == 2);
    assert("hrs"@.len() == 3 && "millisecond"@.len() == 11);
    assert("hrs"@.len() == 3 && "milliseconds"@.len() == 12);
    assert("hrs"@.len() == 3 && "s"@.len() == 1);
    lemma_differ_at("hrs"@, "sec"@, 0);
    assert("hrs"@.len() == 3 && "secs"@.len() == 4);
    assert("hrs"@.len() == 3 && "second"@.len() == 6);
    assert("hrs"@.len() == 3 && "seconds"@.len() == 7);
    assert("hrs"@.len() == 3 && "m"@.len() == 1);
    lemma_differ_at("hrs"@, "min"@, 0);
    assert("hrs"@.len() == 3 && "mins"@.len() == 4);
    assert("hrs"@.len() == 3 && "minute"@.len() == 6);
    assert("hrs"@.len() == 3 && "minutes"@.len() == 7);
    assert("hrs"@.len() == 3 && "h"@.len() == 1);
    assert("hrs"@.len() == 3 && "hr"@.len() == 2);
}

/// What the unit name `hour` names, and that it is written in lower-case letters.
proof fn lemma_name_hour()
    ensures
        unit_nanos("hour"@) == Some(3_600_000_000_000nat),
        forall|i: int| 0 <= i < "hour"@.len() ==> 'a' <= #[trigger] "hour"@[i] <= 'z',
        "hour"@.len() >= 1,
{
    reveal_strlit("ns");
    reveal_strlit("nanosecond");
    reveal_strlit("nanoseconds");
    reveal_strlit("us");
    reveal_strlit("microsecond");
    reveal_strlit("microseconds");
    reveal_strlit("ms");
    reveal_strlit("millisecond");
    reveal_strlit("milliseconds");
    reveal_strlit("s");
    reveal_strlit("sec");
    reveal_strlit("secs");
    reveal_strlit("second");
    reveal_strlit("seconds");
    reveal_strlit("m");
    reveal_strlit("min");
    reveal_strlit("mins");
    reveal_strlit("minute");
    reveal_strlit("minutes");
    reveal_strlit("h");
    reveal_strlit("hr");
    reveal_strlit("hrs");
    reveal_strlit("hour");
    assert("hour"@.len() == 4 && "ns"@.len() == 2);
    assert("hour"@.len() == 4 && "nanosecond"@.len() == 10);
    assert("hour"@.len() == 4 && "nanoseconds"@.len() == 11);
    assert("hour"@.len() == 4 && "us"@.len() == 2);
    assert("hour"@.len() == 4 && "microsecond"@.len() == 11);
    assert("hour"@.len() == 4 && "microseconds"@.len() == 12);
    assert("hour"@.len() == 4 && "ms"@.len() == 2);
    assert("hour"@.len() == 4 && "millisecond"@.len() == 11);
    assert("hour"@.len() == 4 && "milliseconds"@.len() == 12);
    assert("hour"@.len() == 4 && "s"@.len() == 1);
    assert("hour"@.len() == 4 && "sec"@.len() == 3);
    lemma_differ_at("hour"@, "secs"@, 0);
    assert("hour"@.len() == 4 && "second"@.len() == 6);
    assert("hour"@.len() == 4 && "seconds"@.len() == 7);
    assert("hour"@.len() == 4 && "m"@.len() == 1);
    assert("hour"@.len() == 4 && "min"@.len() == 3);
    lemma_differ_at("hour"@, "mins"@, 0);
    assert("hour"@.len() == 4 && "minute"@.len() == 6);
    assert("hour"@.len() == 4 && "minutes"@.len() == 7);
    assert("hour"@.len() == 4 && "h"@.len() == 1);
    assert("hour"@.len() == 4 && "hr"@.len() == 2);
    assert("hour"@.len() == 4 && "hrs"@.len() == 3);
}

/// What the unit name `hours` names, and that it is written in lower-case letters.
proof fn lemma_name_hours()
    ensures
        unit_nanos("hours"@) == Some(3_600_000_000_000nat),
        forall|i: int| 0 <= i < "hours"@.len() ==> 'a' <= #[trigger] "hours"@[i] <= 'z',
        "hours"@.len() >= 1,
{
    reveal_strlit("ns");
    reveal_strlit("nanosecond");
    reveal_strlit("nanoseconds");
    reveal_strlit("us");
    reveal_strlit("microsecond");
    reveal_strlit("microseconds");
    reveal_strlit("ms");
    reveal_strlit("millisecond");
    reveal_strlit("milliseconds");
    reveal_strlit("s");
    reveal_strlit("sec");
    reveal_strlit("secs");
    reveal_strlit("second");
    reveal_strlit("seconds");
    reveal_strlit("m");
    reveal_strlit("min");
    reveal_strlit("mins");
    reveal_strlit("minute");
    reveal_strlit("minutes");
    reveal_strlit("h");
    reveal_strlit("hr");
    reveal_strlit("hrs");
    reveal_strlit("hour");
    reveal_strlit("hours");
    assert("hours"@.len() == 5 && "ns"@.len() == 2);
    assert("hours"@.len() == 5 && "nanosecond"@.len() == 10);
    assert("hours"@.len() == 5 && "nanoseconds"@.len() == 11);
    assert("hours"@.len() == 5 && "us"@.len() == 2);
    assert("hours"@.len() == 5 && "microsecond"@.len() == 11);
    assert("hours"@.len() == 5 && "microseconds"@.len() == 12);
    assert("hours"@.len() == 5 && "ms"@.len() == 2);
    assert("hours"@.len() == 5 && "millisecond"@.len() == 11);
    assert("hours"@.len() == 5 && "milliseconds"@.len() == 12);
    assert("hours"@.len() == 5 && "s"@.len() == 1);
    assert("hours"@.len() == 5 && "sec"@.len() == 3);
    assert("hours"@.len() == 5 && "secs"@.len() == 4);
    assert("hours"@.len() == 5 && "second"@.len() == 6);
    assert("hours"@.len() == 5 && "seconds"@.len() == 7);
    assert("hours"@.len() == 5 && "m"@.len() == 1);
    assert("hours"@.len() == 5 && "min"@.len() == 3);
    assert("hours"@.len() == 5 && "mins"@.len() == 4);
    assert("hours"@.len() == 5 && "minute"@.len() == 6);
    assert("hours"@.len() == 5 && "minutes"@.len() == 7);
    assert("hours"@.len() == 5 && "h"@.len() == 1);
    assert("hours"@.len() == 5 && "hr"@.len() == 2);
    assert("hours"@.len() == 5 && "hrs"@.len() == 3);
    assert("hours"@.len() == 5 && "hour"@.len() == 4);
}

/// What the unit name `d` names, and that it is written in lower-case letters.
proof fn lemma_name_d()
    ensures
        unit_nanos("d"@) == Some(86_400_000_000_000nat),
        forall|i: int| 0 <= i < "d"@.len() ==> 'a' <= #[trigger] "d"@[i] <= 'z',
        "d"@.len() >= 1,
{
    reveal_strlit("ns");
    reveal_strlit("nanosecond");
    reveal_strlit("nanoseconds");
    reveal_strlit("us");
    reveal_strlit("microsecond");
    reveal_strlit("microseconds");
    reveal_strlit("ms");
    reveal_strlit("millisecond");
    reveal_strlit("milliseconds");
    reveal_strlit("s");
    reveal_strlit("sec");
    reveal_strlit("secs");
    reveal_strlit("second");
    reveal_strlit("seconds");
    reveal_strlit("m");
    reveal_strlit("min");
    reveal_strlit("mins");
    reveal_strlit("minute");
    reveal_strlit("minutes");
    reveal_strlit("h");
    reveal_strlit("hr");
    reveal_strlit("hrs");
    reveal_strlit("hour");
    reveal_strlit("hours");
    reveal_strlit("d");
    assert("d"@.len() == 1 && "ns"@.len() == 2);
    assert("d"@.len() == 1 && "nanosecond"@.len() == 10);
    assert("d"@.len() == 1 && "nanoseconds"@.len() == 11);
    assert("d"@.len() == 1 && "us"@.len() == 2);
    assert("d"@.len() == 1 && "microsecond"@.len() == 11);
    assert("d"@.len() == 1 && "microseconds"@.len() == 12);
    assert("d"@.len() == 1 && "ms"@.len() == 2);
    assert("d"@.len() == 1 && "millisecond"@.len() == 11);
    assert("d"@.len() == 1 && "milliseconds"@.len() == 12);
    lemma_differ_at("d"@, "s"@, 0);
    assert("d"@.len() == 1 && "sec"@.len() == 3);
    assert("d"@.len() == 1 && "secs"@.len() == 4);
    assert("d"@.len() == 1 && "second"@.len() == 6);
    assert("d"@.len() == 1 && "seconds"@.len() == 7);
    lemma_differ_at("d"@, "m"@, 0);
    assert("d"@.len() == 1 && "min"@.len() == 3);
    assert("d"@.len() == 1 && "mins"@.len() == 4);
    assert("d"@.len() == 1 && "minute"@.len() == 6);
    assert("d"@.len() == 1 && "minutes"@.len() == 7);
    lemma_differ_at("d"@, "h"@, 0);
    assert("d"@.len() == 1 && "hr"@.len() == 2);
    assert("d"@.len() == 1 && "hrs"@.len() == 3);
    assert("d"@.len() == 1 && "hour"@.len() == 4);
    assert("d"@.len() == 1 && "hours"@.len() == 5);
}

/// What the unit name `day` names, and that it is written in lower-case letters.
proof fn lemma_name_day()
    ensures
        unit_nanos("day"@) == Some(86_400_000_000_000nat),
        forall|i: int| 0 <= i < "day"@.len() ==> 'a' <= #[trigger] "day"@[i] <= 'z',
        "day"@.len() >= 1,
{
    reveal_strlit("ns");
    reveal_strlit("nanosecond");
    reveal_strlit("nanoseconds");
    reveal_strlit("us");
    reveal_strlit("microsecond");
    reveal_strlit("microseconds");
    reveal_strlit("ms");
    reveal_strlit("millisecond");
    reveal_strlit("milliseconds");
    reveal_strlit("s");
    reveal_strlit("sec");
    reveal_strlit("secs");
    reveal_strlit("second");
    reveal_strlit("seconds");
    reveal_strlit("m");
    reveal_strlit("min");
    reveal_strlit("mins");
    reveal_strlit("minute");
    reveal_strlit("minutes");
    reveal_strlit("h");
    reveal_strlit("hr");
    reveal_strlit("hrs");
    reveal_strlit("hour");
    reveal_strlit("hours");
    reveal_strlit("d");
    reveal_strlit("day");
    assert("day"@.len() == 3 && "ns"@.len() == 2);
    assert("day"@.len() == 3 && "nanosecond"@.len() == 10);
    assert("day"@.len() == 3 && "nanoseconds"@.len() == 11);
    assert("day"@.len() == 3 && "us"@.len() == 2);
    assert("day"@.len() == 3 && "microsecond"@.len() == 11);
    assert("day"@.len() == 3 && "microseconds"@.len() == 12);
    assert("day"@.len() == 3 && "ms"@.len() == 2);
    assert("day"@.len() == 3 && "millisecond"@.len() == 11);
    assert("day"@.len() == 3 && "milliseconds"@.len() == 12);
    assert("day"@.len() == 3 && "s"@.len() == 1);
    lemma_differ_at("day"@, "sec"@, 0);
    assert("day"@.len() == 3 && "secs"@.len() == 4);
    assert("day"@.len() == 3 && "second"@.len() == 6);
    assert("day"@.len() == 3 && "seconds"@.len() == 7);
    assert("day"@.len() == 3 && "m"@.len() == 1);
    lemma_differ_at("day"@, "min"@, 0);
    assert("day"@.len() == 3 && "mins"@.len() == 4);
    assert("day"@.len() == 3 && "minute"@.len() == 6);
    assert("day"@.len() == 3 && "minutes"@.len() == 7);
    assert("day"@.len() == 3 && "h"@.len() == 1);
    assert("day"@.len() == 3 && "hr"@.len() == 2);
    lemma_differ_at("day"@, "hrs"@, 0);
    assert("day"@.len() == 3 && "hour"@.len() == 4);
    assert("day"@.len() == 3 && "hours"@.len() == 5);
    assert("day"@.len() == 3 && "d"@.len() == 1);
}

/// What the unit name `days` names, and that it is written in lower-case letters.
proof fn lemma_name_days()
    ensures
        unit_nanos("days"@) == Some(86_400_000_000_000nat),
        forall|i: int| 0 <= i < "days"@.len() ==> 'a' <= #[trigger] "days"@[i] <= 'z',
        "days"@.len() >= 1,
{
    reveal_strlit("ns");
    reveal_strlit("nanosecond");
    reveal_strlit("nanoseconds");
    reveal_strlit("us");
    reveal_strlit("microsecond");
    reveal_strlit("microseconds");
    reveal_strlit("ms");
    reveal_strlit("millisecond");
    reveal_strlit("milliseconds");
    reveal_strlit("s");
    reveal_strlit("sec");
    reveal_strlit("secs");
    reveal_strlit("second");
    reveal_strlit("seconds");
    reveal_strlit("m");
    reveal_strlit("min");
    reveal_strlit("mins");
    reveal_strlit("minute");
    reveal_strlit("minutes");
    reveal_strlit("h");
    reveal_strlit("hr");
    reveal_strlit("hrs");
    reveal_strlit("hour");
    reveal_strlit("hours");
    reveal_strlit("d");
    reveal_strlit("day");
    reveal_strlit("days");
    assert("days"@.len() == 4 && "ns"@.len() == 2);
    assert("days"@.len() == 4 && "nanosecond"@.len() == 10);
    assert("days"@.len() == 4 && "nanoseconds"@.len() == 11);
    assert("days"@.len() == 4 && "us"@.len() == 2);
    assert("days"@.len() == 4 && "microsecond"@.len() == 11);
    assert("days"@.len() == 4 && "microseconds"@.len() == 12);
    assert("days"@.len() == 4 && "ms"@.len() == 2);
    assert("days"@.len() == 4 && "millisecond"@.len() == 11);
    assert("days"@.len() == 4 && "milliseconds"@.len() == 12);
    assert("days"@.len() == 4 && "s"@.len() == 1);
    assert("days"@.len() == 4 && "sec"@.len() == 3);
    lemma_differ_at("days"@, "secs"@, 0);
    assert("days"@.len() == 4 && "second"@.len() == 6);
    assert("days"@.len() == 4 && "seconds"@.len() == 7);
    assert("days"@.len() == 4 && "m"@.len() == 1);
    assert("days"@.len() == 4 && "min"@.len() == 3);
    lemma_differ_at("days"@, "mins"@, 0);
    assert("days"@.len() == 4 && "minute"@.len() == 6);
    assert("days"@.len() == 4 && "minutes"@.len() == 7);
    assert("days"@.len() == 4 && "h"@.len() == 1);
    assert("days"@.len() == 4 && "hr"@.len() == 2);
    assert("days"@.len() == 4 && "hrs"@.len() == 3);
    lemma_differ_at("days"@, "hour"@, 0);
    assert("days"@.len() == 4 && "hours"@.len() == 5);
    assert("days"@.len() == 4 && "d"@.len() == 1);
    assert("days"@.len() == 4 && "day"@.len() == 3);
}

} // verus!
