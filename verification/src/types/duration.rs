use vstd::prelude::*;
use crate::arith::{
    lemma_add_div, lemma_digits_value_concat, lemma_digits_value_front, lemma_div_div,
    lemma_div_double, lemma_pow10_pos, pow10,
};
use crate::text::{
    all_digits, chars_eq, chars_of, copy_range, count_char, count_char_exec, dec, digit_value,
    digits_value, extend_chars, find_char, index_of, is_alpha, is_alpha_exec, is_digit, is_digit_exec, is_ws,
    is_ws_exec, join, join_chars, lead_count, lead_ws, lemma_index_of, lemma_index_of_unique,
    lemma_lead_count, lower_chars, lower_seq, string_from_chars, trim, trim_chars, trim_start,
    u128_to_dec, views,
};

verus! {

/// Nanoseconds in one second.
pub open spec fn nanos_per_sec() -> nat {
    1_000_000_000
}

/// The largest number of nanoseconds a duration can hold (`u64::MAX` seconds and
/// `999_999_999` nanoseconds).
pub open spec fn max_nanos() -> nat {
    ((u64::MAX as nat + 1) * nanos_per_sec() - 1) as nat
}

/// A span of time with nanosecond precision, as `std::time::Duration` holds it.
#[derive(Clone, Copy, Debug, Eq, PartialOrd, Ord, Hash)]
pub struct DurationValue {
    nanos: u128,
}

impl View for DurationValue {
    type V = nat;

    /// The number of nanoseconds.
    closed spec fn view(&self) -> nat {
        self.nanos as nat
    }
}

impl DurationValue {
    /// Every value that a duration can take is below the limit.
    #[verifier::type_invariant]
    pub closed spec fn wf(self) -> bool {
        self.nanos <= max_nanos()
    }

    /// A well-formed duration holds at most `max_nanos()` nanoseconds; every value
    /// is well formed (`use_type_invariant` gives it for a value at hand).
    pub proof fn lemma_wf_within_limit(d: DurationValue)
        requires
            d.wf(),
        ensures
            d@ <= max_nanos(),
    {
    }

    /// The empty duration.
    pub fn zero() -> (d: Self)
        ensures
            d@ == 0,
            d.wf(),
    {
        DurationValue { nanos: 0 }
    }

    /// A duration of `seconds` seconds.
    pub fn from_secs(seconds: u64) -> (d: Self)
        ensures
            d@ == seconds * nanos_per_sec(),
            d.wf(),
    {
        DurationValue { nanos: (seconds as u128) * 1_000_000_000 }
    }

    /// A duration of `milliseconds` milliseconds.
    pub fn from_millis(milliseconds: u64) -> (d: Self)
        ensures
            d@ == milliseconds * 1_000_000,
            d.wf(),
    {
        DurationValue { nanos: (milliseconds as u128) * 1_000_000 }
    }

    /// A duration of `seconds` seconds and `nanos` nanoseconds (`Duration::new`).
    pub fn new(seconds: u64, nanos: u32) -> (d: Self)
        requires
            nanos < 1_000_000_000,
        ensures
            d@ == seconds * nanos_per_sec() + nanos,
            d.wf(),
    {
        DurationValue { nanos: (seconds as u128) * 1_000_000_000 + nanos as u128 }
    }

    /// Whole seconds (`Duration::as_secs`).
    pub fn as_secs(&self) -> (s: u64)
        ensures
            s == self@ / nanos_per_sec(),
    {
        proof {
            use_type_invariant(self);
        }
        (self.nanos / 1_000_000_000) as u64
    }

    /// The nanoseconds beyond the whole seconds (`Duration::subsec_nanos`).
    pub fn subsec_nanos(&self) -> (n: u32)
        ensures
            n == self@ % nanos_per_sec(),
    {
        (self.nanos % 1_000_000_000) as u32
    }

    /// Total nanoseconds.
    pub fn as_nanos(&self) -> (n: u128)
        ensures
            n == self@,
            n <= max_nanos(),
    {
        proof {
            use_type_invariant(self);
        }
        self.nanos
    }

    /// Whether the duration is empty.
    pub fn is_zero(&self) -> (b: bool)
        ensures
            b == (self@ == 0),
    {
        self.nanos == 0
    }

    /// Parses a human-readable duration such as `500ms`, `1h 30m` or `1.5d 2h`.
    pub fn parse_explicit(input: &str) -> (r: Result<Self, String>)
        ensures
            match r {
                Ok(d) => parse_duration(input@) == Ok::<nat, Seq<char>>(d@) && d.wf(),
                Err(e) => parse_duration(input@) == Err::<nat, Seq<char>>(e@),
            },
    {
        let all = chars_of(input);
        let t = trim_chars(all.as_slice());
        if t.len() == 0 {
            return Err(string_from_chars(chars_of("duration cannot be empty").as_slice()));
        }
        match parse_tokens_exec(t.as_slice()) {
            Ok(n) => Ok(DurationValue { nanos: n }),
            Err(e) => Err(string_from_chars(e.as_slice())),
        }
    }

    /// The compact parts of the duration, largest unit first (`1d`, `2h`, ...), at most
    /// `max_parts` of them; `0s` for the empty duration.
    pub fn format_parts(&self, max_parts: usize) -> (parts: Vec<String>)
        ensures
            parts@.map_values(|p: String| p@) == format_parts(self@, max_parts as nat),
    {
        proof {
            use_type_invariant(self);
        }
        let total = self.nanos;
        if total == 0 {
            let mut v: Vec<String> = Vec::new();
            v.push(string_from_chars(chars_of("0s").as_slice()));
            proof {
                assert(v@.map_values(|p: String| p@) == seq!["0s"@]);
            }
            return v;
        }
        let mut remaining = total;
        let mut parts: Vec<String> = Vec::new();
        let mut k: usize = 0;
        while k < 7
            invariant
                k <= 7,
                total == self@,
                total > 0,
                parts@.map_values(|p: String| p@) + parts_from(remaining as nat, k as nat)
                    == parts_from(total as nat, 0),
            decreases 7 - k,
        {
            let unit = unit_at_exec(k);
            let value = remaining / unit;
            if value > 0 {
                let mut piece = u128_to_dec(value);
                let suffix = chars_of(suffix_at_exec(k));
                extend_chars(&mut piece, suffix.as_slice());
                let ghost before = parts@.map_values(|p: String| p@);
                parts.push(string_from_chars(piece.as_slice()));
                proof {
                    assert(parts@.map_values(|p: String| p@) == before.push(piece@));
                    assert(parts_from(remaining as nat, k as nat) == seq![piece@] + parts_from(
                        (remaining % unit) as nat,
                        (k + 1) as nat,
                    ));
                    assert(before.push(piece@) + parts_from(
                        (remaining % unit) as nat,
                        (k + 1) as nat,
                    ) == before + (seq![piece@] + parts_from(
                        (remaining % unit) as nat,
                        (k + 1) as nat,
                    )));
                }
                remaining = remaining % unit;
            }
            k = k + 1;
        }
        proof {
            assert(parts_from(remaining as nat, 7) == Seq::<Seq<char>>::empty());
            assert(parts@.map_values(|p: String| p@) == parts_from(total as nat, 0));
        }
        if parts.len() > max_parts {
            parts.truncate(max_parts);
        }
        proof {
            assert(parts@.map_values(|p: String| p@) == parts_from(total as nat, 0).take(
                min_nat(max_parts as nat, parts_from(total as nat, 0).len()) as int,
            ));
        }
        parts
    }

    /// The text shown for the duration: up to three compact parts joined by spaces,
    /// such as `1d 2h 31m` or `500ms`.
    pub fn to_display_string(&self) -> (s: String)
        ensures
            s@ == display(self@),
    {
        let parts = self.format_parts(3);
        let mut pieces: Vec<Vec<char>> = Vec::new();
        let mut i: usize = 0;
        while i < parts.len()
            invariant
                i <= parts@.len(),
                views(pieces@) == parts@.map_values(|p: String| p@).subrange(0, i as int),
            decreases parts@.len() - i,
        {
            let piece = chars_of(parts[i].as_str());
            let ghost before = views(pieces@);
            pieces.push(piece);
            proof {
                assert(views(pieces@) == before.push(piece@));
            }
            i = i + 1;
        }
        assert(parts@.map_values(|p: String| p@).subrange(0, i as int) == parts@.map_values(
            |p: String| p@,
        ));
        let joined = join_chars(&pieces, chars_of(" ").as_slice());
        string_from_chars(joined.as_slice())
    }
}

impl PartialEq for DurationValue {
    fn eq(&self, other: &Self) -> (r: bool) {
        self.nanos == other.nanos
    }
}

impl vstd::std_specs::cmp::PartialEqSpecImpl for DurationValue {
    open spec fn obeys_eq_spec() -> bool {
        true
    }

    open spec fn eq_spec(&self, other: &Self) -> bool {
        self@ == other@
    }
}

impl std::str::FromStr for DurationValue {
    type Err = String;

    fn from_str(input: &str) -> (r: Result<Self, Self::Err>)
        ensures
            match r {
                Ok(d) => parse_duration(input@) == Ok::<nat, Seq<char>>(d@) && d.wf(),
                Err(e) => parse_duration(input@) == Err::<nat, Seq<char>>(e@),
            },
    {
        Self::parse_explicit(input)
    }
}

/// Parses a duration typed by a user; surrounding whitespace is ignored and an empty
/// input is refused.
pub fn parse_duration_input(input: &str) -> (r: Result<DurationValue, String>)
    ensures
        match r {
            Ok(d) => parse_duration(input@) == Ok::<nat, Seq<char>>(d@) && d.wf(),
            Err(e) => parse_duration(input@) == Err::<nat, Seq<char>>(e@),
        },
{
    DurationValue::parse_explicit(input)
}

// ---------------------------------------------------------------------------
// What a duration text means
// ---------------------------------------------------------------------------

pub open spec fn min_nat(a: nat, b: nat) -> nat {
    if a <= b {
        a
    } else {
        b
    }
}

/// Characters that make up the number of a duration part.
pub open spec fn is_num_char(c: char) -> bool {
    is_digit(c) || c == '.'
}

pub open spec fn num_pred() -> spec_fn(char) -> bool {
    |c: char| is_num_char(c)
}

pub open spec fn alpha_pred() -> spec_fn(char) -> bool {
    |c: char| is_alpha(c)
}

/// Nanoseconds per unit name (case already folded to lower case).
pub open spec fn unit_nanos(unit: Seq<char>) -> Option<nat> {
    if unit == "ns"@ || unit == "nanosecond"@ || unit == "nanoseconds"@ {
        Some(1)
    } else if unit == "us"@ || unit == "microsecond"@ || unit == "microseconds"@ {
        Some(1_000)
    } else if unit == "ms"@ || unit == "millisecond"@ || unit == "milliseconds"@ {
        Some(1_000_000)
    } else if unit == "s"@ || unit == "sec"@ || unit == "secs"@ || unit == "second"@ || unit
        == "seconds"@ {
        Some(1_000_000_000)
    } else if unit == "m"@ || unit == "min"@ || unit == "mins"@ || unit == "minute"@ || unit
        == "minutes"@ {
        Some(60_000_000_000)
    } else if unit == "h"@ || unit == "hr"@ || unit == "hrs"@ || unit == "hour"@ || unit
        == "hours"@ {
        Some(3_600_000_000_000)
    } else if unit == "d"@ || unit == "day"@ || unit == "days"@ {
        Some(86_400_000_000_000)
    } else {
        None
    }
}

/// The digits of a number written with at most one decimal point, and how many of
/// them follow the point.
pub open spec fn number_digits(num: Seq<char>) -> (Seq<char>, nat) {
    let dot = index_of(num, '.');
    if dot < 0 {
        (num, 0)
    } else {
        (num.take(dot) + num.skip(dot + 1), (num.len() - dot - 1) as nat)
    }
}

/// The number `num` times `unit`, rounded to the nearest integer (halves away from
/// zero).
pub open spec fn amount_nanos(num: Seq<char>, unit: nat) -> nat {
    let (digits, f) = number_digits(num);
    ((2 * digits_value(digits) * unit + pow10(f)) / (2 * pow10(f))) as nat
}

pub open spec fn u128_max() -> nat {
    u128::MAX as nat
}

pub open spec fn overflow_msg() -> Seq<char> {
    "duration overflowed supported range"@
}

/// What the parts in `rest` add to `total`, or the error met first.
pub open spec fn parse_tokens(rest: Seq<char>, total: nat) -> Result<nat, Seq<char>>
    decreases rest.len(),
{
    let r = trim_start(rest);
    proof {
        lemma_lead_ws_le(rest);
    }
    if r.len() == 0 {
        if total / nanos_per_sec() > u64::MAX {
            Err(overflow_msg())
        } else {
            Ok(total)
        }
    } else {
        let ne = lead_count(r, num_pred());
        let num = r.take(ne as int);
        if ne == 0 {
            Err("expected a duration value near '"@ + r + "'"@)
        } else if num[0] == '.' || num.last() == '.' || count_char(num, '.') > 1 {
            Err("invalid duration value '"@ + num + "'"@)
        } else {
            proof {
                lemma_lead_count_le(r, num_pred());
            }
            let after = r.skip(ne as int);
            let ul = lead_count(after, alpha_pred());
            if ul == 0 {
                Err(
                    "missing duration unit after '"@ + num
                        + "' (expected units like ms, s, m, h, d)"@,
                )
            } else {
                proof {
                    lemma_lead_count_le(after, alpha_pred());
                }
                let unit = lower_seq(after.take(ul as int));
                match unit_nanos(unit) {
                    None => Err(
                        "unknown duration unit '"@ + unit
                            + "' (expected ns, us, ms, s, m, h, or d)"@,
                    ),
                    Some(u) => {
                        let add = min_nat(amount_nanos(num, u), u128_max());
                        if total + add > u128_max() {
                            Err(overflow_msg())
                        } else {
                            parse_tokens(after.skip(ul as int), total + add)
                        }
                    },
                }
            }
        }
    }
}

/// A duration text: surrounding whitespace is ignored; parts such as `1h` or `30m`
/// follow each other, with or without whitespace between them; their amounts add up.
pub open spec fn parse_duration(input: Seq<char>) -> Result<nat, Seq<char>> {
    let t = trim(input);
    if t.len() == 0 {
        Err("duration cannot be empty"@)
    } else {
        parse_tokens(t, 0)
    }
}

/// Nanoseconds of the `k`-th display unit: day, hour, minute, second, milli, micro, nano.
pub open spec fn unit_at(k: nat) -> nat {
    if k == 0 {
        86_400_000_000_000
    } else if k == 1 {
        3_600_000_000_000
    } else if k == 2 {
        60_000_000_000
    } else if k == 3 {
        1_000_000_000
    } else if k == 4 {
        1_000_000
    } else if k == 5 {
        1_000
    } else {
        1
    }
}

/// Suffix of the `k`-th display unit.
pub open spec fn suffix_at(k: nat) -> Seq<char> {
    if k == 0 {
        "d"@
    } else if k == 1 {
        "h"@
    } else if k == 2 {
        "m"@
    } else if k == 3 {
        "s"@
    } else if k == 4 {
        "ms"@
    } else if k == 5 {
        "us"@
    } else {
        "ns"@
    }
}

/// The nonzero parts of `rem` in the units from the `k`-th on.
pub open spec fn parts_from(rem: nat, k: nat) -> Seq<Seq<char>>
    decreases 7 - k,
{
    if k >= 7 {
        Seq::empty()
    } else {
        let u = unit_at(k);
        let v = rem / u;
        if v > 0 {
            seq![dec(v) + suffix_at(k)] + parts_from(rem % u, k + 1)
        } else {
            parts_from(rem, k + 1)
        }
    }
}

/// The compact parts of a duration of `total` nanoseconds, at most `max` of them.
pub open spec fn format_parts(total: nat, max: nat) -> Seq<Seq<char>> {
    if total == 0 {
        seq!["0s"@]
    } else {
        parts_from(total, 0).take(min_nat(max, parts_from(total, 0).len()) as int)
    }
}

/// The display text of a duration: at most three parts separated by spaces.
pub open spec fn display(total: nat) -> Seq<char> {
    join(format_parts(total, 3), " "@)
}

// ---------------------------------------------------------------------------
// Proof helpers
// ---------------------------------------------------------------------------

pub proof fn lemma_lead_ws_le(s: Seq<char>)
    ensures
        lead_ws(s) <= s.len(),
        trim_start(s).len() <= s.len(),
    decreases s.len(),
{
    if s.len() > 0 && is_ws(s[0]) {
        lemma_lead_ws_le(s.drop_first());
    }
}

pub proof fn lemma_lead_count_le(s: Seq<char>, p: spec_fn(char) -> bool)
    ensures
        lead_count(s, p) <= s.len(),
    decreases s.len(),
{
    if s.len() > 0 && p(s[0]) {
        lemma_lead_count_le(s.drop_first(), p);
    }
}

/// Fraction digits times `unit`, folded from the last digit: each step keeps the
/// integer part of a tenth of what follows.
pub open spec fn frac_fold(f: Seq<char>, unit: nat) -> nat
    decreases f.len(),
{
    if f.len() == 0 {
        0
    } else {
        unit * digit_value(f[0]) + frac_fold(f.drop_first(), unit) / 10
    }
}

proof fn lemma_frac_fold(f: Seq<char>, unit: nat)
    requires
        f.len() >= 1,
        all_digits(f),
    ensures
        frac_fold(f, unit) == (unit * digits_value(f)) / pow10((f.len() - 1) as nat),
    decreases f.len(),
{
    let d0 = digit_value(f[0]);
    let rest = f.drop_first();
    lemma_digits_value_front(f);
    if f.len() == 1 {
        assert(rest.len() == 0);
        assert(digits_value(rest) == 0);
        assert(frac_fold(rest, unit) == 0);
        assert(pow10(0) == 1);
        assert(digits_value(f) == d0 * pow10(0) + digits_value(rest));
        assert(d0 * 1 == d0);
        assert(digits_value(f) == d0);
        assert(frac_fold(f, unit) == unit * d0 + frac_fold(rest, unit) / 10);
        assert((unit * d0) / 1 == unit * d0);
    } else {
        assert forall|i: int| 0 <= i < rest.len() implies is_digit(#[trigger] rest[i]) by {
            assert(rest[i] == f[i + 1]);
        }
        lemma_frac_fold(rest, unit);
        let p1 = pow10((rest.len() - 1) as nat);
        let p = pow10((f.len() - 1) as nat);
        lemma_pow10_pos((rest.len() - 1) as nat);
        assert(p == 10 * p1);
        lemma_div_div(unit * digits_value(rest), p1, 10);
        assert(p1 * 10 == p);
        lemma_add_div(unit * d0, unit * digits_value(rest), p);
        assert(unit * d0 * p + unit * digits_value(rest) == unit * digits_value(f))
            by (nonlinear_arith)
            requires
                digits_value(f) == d0 * p + digits_value(rest),
        ;
    }
}

/// How the rounded amount is computed from the integer digits and the folded fraction.
proof fn lemma_amount(ip: Seq<char>, fp: Seq<char>, unit: nat)
    requires
        all_digits(fp),
    ensures
        ((2 * digits_value(ip + fp) * unit + pow10(fp.len())) / (2 * pow10(fp.len()))) as nat
            == digits_value(ip) * unit + if fp.len() == 0 {
            0
        } else {
            (frac_fold(fp, unit) + 5) / 10
        },
{
    let n = digits_value(ip);
    let dv = digits_value(fp);
    let pp = pow10(fp.len());
    lemma_pow10_pos(fp.len());
    lemma_digits_value_concat(ip, fp);
    let d = digits_value(ip + fp);
    assert(d == n * pp + dv);
    if fp.len() == 0 {
        assert(dv == 0);
        assert(pp == 1);
        assert((2 * d * unit + 1) / 2 == d * unit) by (nonlinear_arith);
        assert(d * unit == n * unit) by (nonlinear_arith)
            requires
                d == n * 1 + 0,
        ;
    } else {
        let p = pow10((fp.len() - 1) as nat);
        lemma_pow10_pos((fp.len() - 1) as nat);
        assert(pp == 10 * p);
        lemma_frac_fold(fp, unit);
        let t = frac_fold(fp, unit);
        assert(t == (unit * dv) / p);
        // (t + 5) / 10 == (unit * dv + 5 * p) / (10 * p)
        lemma_add_div(5, unit * dv, p);
        assert(t + 5 == (5 * p + unit * dv) / p);
        lemma_div_div(5 * p + unit * dv, p, 10);
        assert(p * 10 == pp);
        // n * unit + that == (unit * d + 5 * p) / pp
        lemma_add_div(n * unit, 5 * p + unit * dv, pp);
        assert(n * unit * pp + (5 * p + unit * dv) == unit * d + 5 * p) by (nonlinear_arith)
            requires
                d == n * pp + dv,
        ;
        // (2 * d * unit + pp) / (2 * pp) == (unit * d + 5 * p) / pp
        assert(2 * d * unit + pp == 2 * (unit * d + 5 * p)) by (nonlinear_arith)
            requires
                pp == 10 * p,
        ;
        lemma_div_double(unit * d + 5 * p, pp);
    }
}

// ---------------------------------------------------------------------------
// The parser
// ---------------------------------------------------------------------------

fn unit_nanos_exec(unit: &[char]) -> (r: Option<u128>)
    ensures
        match r {
            Some(n) => unit_nanos(unit@) == Some(n as nat),
            None => unit_nanos(unit@).is_none(),
        },
{
    let u = unit;
    if chars_eq(u, chars_of("ns").as_slice()) || chars_eq(u, chars_of("nanosecond").as_slice())
        || chars_eq(u, chars_of("nanoseconds").as_slice()) {
        Some(1)
    } else if chars_eq(u, chars_of("us").as_slice()) || chars_eq(
        u,
        chars_of("microsecond").as_slice(),
    ) || chars_eq(u, chars_of("microseconds").as_slice()) {
        Some(1_000)
    } else if chars_eq(u, chars_of("ms").as_slice()) || chars_eq(
        u,
        chars_of("millisecond").as_slice(),
    ) || chars_eq(u, chars_of("milliseconds").as_slice()) {
        Some(1_000_000)
    } else if chars_eq(u, chars_of("s").as_slice()) || chars_eq(u, chars_of("sec").as_slice())
        || chars_eq(u, chars_of("secs").as_slice()) || chars_eq(u, chars_of("second").as_slice())
        || chars_eq(u, chars_of("seconds").as_slice()) {
        Some(1_000_000_000)
    } else if chars_eq(u, chars_of("m").as_slice()) || chars_eq(u, chars_of("min").as_slice())
        || chars_eq(u, chars_of("mins").as_slice()) || chars_eq(u, chars_of("minute").as_slice())
        || chars_eq(u, chars_of("minutes").as_slice()) {
        Some(60_000_000_000)
    } else if chars_eq(u, chars_of("h").as_slice()) || chars_eq(u, chars_of("hr").as_slice())
        || chars_eq(u, chars_of("hrs").as_slice()) || chars_eq(u, chars_of("hour").as_slice())
        || chars_eq(u, chars_of("hours").as_slice()) {
        Some(3_600_000_000_000)
    } else if chars_eq(u, chars_of("d").as_slice()) || chars_eq(u, chars_of("day").as_slice())
        || chars_eq(u, chars_of("days").as_slice()) {
        Some(86_400_000_000_000)
    } else {
        None
    }
}

/// `min(amount_nanos(num, unit), u128::MAX)` for a well-formed number.
fn amount_nanos_capped(num: &[char], unit: u128) -> (r: u128)
    requires
        num@.len() >= 1,
        forall|i: int| 0 <= i < num@.len() ==> is_num_char(#[trigger] num@[i]),
        num@[0] != '.',
        num@.last() != '.',
        count_char(num@, '.') <= 1,
        1 <= unit <= 86_400_000_000_000,
    ensures
        r == min_nat(amount_nanos(num@, unit as nat), u128_max()),
{
    let dot = find_char(num, '.', 0);
    let int_end: usize = match dot {
        Some(i) => i,
        None => num.len(),
    };
    proof {
        lemma_index_of(num@, '.');
        match dot {
            Some(i) => lemma_index_of_unique(num@, '.', i as int),
            None => lemma_index_of_unique(num@, '.', -1),
        }
    }
    let ghost ip = num@.take(int_end as int);
    let ghost fp = match dot {
        Some(i) => num@.skip(i + 1),
        None => Seq::<char>::empty(),
    };
    proof {
        match dot {
            Some(i) => {
                assert(number_digits(num@) == (ip + fp, fp.len()));
                lemma_one_dot(num@, i as int);
            },
            None => {
                assert(ip == num@);
                assert(ip + fp == ip);
                assert(number_digits(num@) == (ip + fp, fp.len()));
            },
        }
        assert(all_digits(ip));
        assert(all_digits(fp));
    }
    // Integer part, saturating at u128::MAX.
    let mut n: u128 = 0;
    let mut i: usize = 0;
    while i < int_end
        invariant
            int_end <= num@.len(),
            i <= int_end,
            ip == num@.take(int_end as int),
            all_digits(ip),
            n == min_nat(digits_value(ip.take(i as int)), u128_max()),
        decreases int_end - i,
    {
        let c = num[i];
        assert(ip[i as int] == c);
        let d: u128 = (c as u32 - '0' as u32) as u128;
        proof {
            assert(ip.take(i + 1) == ip.take(i as int).push(c));
            assert(ip.take(i + 1).drop_last() == ip.take(i as int));
            assert(digits_value(ip.take(i + 1)) == digits_value(ip.take(i as int)) * 10 + d);
        }
        if n == 0xffff_ffff_ffff_ffff_ffff_ffff_ffff_ffff {
        } else {
            match n.checked_mul(10) {
                Some(m) => match m.checked_add(d) {
                    Some(x) => {
                        n = x;
                    },
                    None => {
                        n = 0xffff_ffff_ffff_ffff_ffff_ffff_ffff_ffff;
                    },
                },
                None => {
                    n = 0xffff_ffff_ffff_ffff_ffff_ffff_ffff_ffff;
                },
            }
        }
        i = i + 1;
    }
    assert(ip.take(int_end as int) == ip);
    // Fraction part, folded from its last digit.
    let mut t: u128 = 0;
    let mut has_frac = false;
    if let Some(di) = dot {
        has_frac = true;
        let mut j: usize = num.len();
        assert(num@.skip(j as int) =~= Seq::<char>::empty());
        while j > di + 1
            invariant
                di + 1 <= j <= num@.len(),
                1 <= unit <= 86_400_000_000_000,
                fp == num@.skip(di + 1),
                all_digits(fp),
                t == frac_fold(num@.skip(j as int), unit as nat),
                t < 10 * unit,
            decreases j,
        {
            j = j - 1;
            let c = num[j];
            assert(fp[j - di - 1] == c);
            assert(is_digit(fp[j - di - 1]));
            let d: u128 = (c as u32 - '0' as u32) as u128;
            proof {
                assert(num@.skip(j as int).drop_first() == num@.skip(j + 1));
                assert(num@.skip(j as int)[0] == c);
                assert(unit * d <= unit * 9) by (nonlinear_arith)
                    requires
                        d <= 9,
                ;
            }
            t = unit * d + t / 10;
        }
        assert(num@.skip(j as int) == fp);
        proof {
            assert(fp.len() >= 1);
        }
    }
    let rf: u128 = if has_frac {
        (t + 5) / 10
    } else {
        0
    };
    proof {
        lemma_amount(ip, fp, unit as nat);
        assert(amount_nanos(num@, unit as nat) == digits_value(ip) * unit + rf);
    }
    if n == 0xffff_ffff_ffff_ffff_ffff_ffff_ffff_ffff {
        proof {
            assert(digits_value(ip) >= u128_max());
            assert(digits_value(ip) * unit >= digits_value(ip)) by (nonlinear_arith)
                requires
                    unit >= 1,
            ;
        }
        return 0xffff_ffff_ffff_ffff_ffff_ffff_ffff_ffff;
    }
    match n.checked_mul(unit) {
        Some(p) => match p.checked_add(rf) {
            Some(x) => x,
            None => 0xffff_ffff_ffff_ffff_ffff_ffff_ffff_ffff,
        },
        None => 0xffff_ffff_ffff_ffff_ffff_ffff_ffff_ffff,
    }
}

proof fn lemma_one_dot(num: Seq<char>, i: int)
    requires
        0 <= i < num.len(),
        num[i] == '.',
        forall|j: int| 0 <= j < i ==> num[j] != '.',
        count_char(num, '.') <= 1,
        forall|j: int| 0 <= j < num.len() ==> is_num_char(#[trigger] num[j]),
    ensures
        all_digits(num.take(i)),
        all_digits(num.skip(i + 1)),
{
    assert forall|j: int| 0 <= j < i implies is_digit(#[trigger] num.take(i)[j]) by {
        assert(num.take(i)[j] == num[j]);
        assert(is_num_char(num[j]));
    }
    assert forall|j: int| 0 <= j < num.len() - i - 1 implies is_digit(
        #[trigger] num.skip(i + 1)[j],
    ) by {
        assert(num.skip(i + 1)[j] == num[j + i + 1]);
        assert(is_num_char(num[j + i + 1]));
        if num[j + i + 1] == '.' {
            lemma_count_two(num, '.', i, j + i + 1);
        }
    }
}

proof fn lemma_count_ge_one(s: Seq<char>, c: char, i: int)
    requires
        0 <= i < s.len(),
        s[i] == c,
    ensures
        count_char(s, c) >= 1,
    decreases s.len(),
{
    if i < s.len() - 1 {
        assert(s.drop_last()[i] == c);
        lemma_count_ge_one(s.drop_last(), c, i);
    }
}

proof fn lemma_count_two(s: Seq<char>, c: char, i: int, k: int)
    requires
        0 <= i < k < s.len(),
        s[i] == c,
        s[k] == c,
    ensures
        count_char(s, c) >= 2,
    decreases s.len(),
{
    if k < s.len() - 1 {
        assert(s.drop_last()[i] == c);
        assert(s.drop_last()[k] == c);
        lemma_count_two(s.drop_last(), c, i, k);
    } else {
        assert(s.drop_last()[i] == c);
        lemma_count_ge_one(s.drop_last(), c, i);
    }
}

/// Builds `a + mid + b`.
fn message(a: &str, mid: &[char], b: &str) -> (out: Vec<char>)
    ensures
        out@ == a@ + mid@ + b@,
{
    let mut out = chars_of(a);
    extend_chars(&mut out, mid);
    let tail = chars_of(b);
    extend_chars(&mut out, tail.as_slice());
    out
}

fn parse_tokens_exec(t: &[char]) -> (r: Result<u128, Vec<char>>)
    ensures
        match r {
            Ok(n) => parse_tokens(t@, 0) == Ok::<nat, Seq<char>>(n as nat) && n <= max_nanos(),
            Err(e) => parse_tokens(t@, 0) == Err::<nat, Seq<char>>(e@),
        },
{
    let len = t.len();
    let mut pos: usize = 0;
    let mut total: u128 = 0;
    assert(t@.skip(0) == t@);
    loop
        invariant
            len == t@.len(),
            pos <= len,
            parse_tokens(t@.skip(pos as int), total as nat) == parse_tokens(t@, 0),
        decreases len - pos,
    {
        let ghost rest = t@.skip(pos as int);
        // Skip whitespace.
        let mut p2 = pos;
        while p2 < len && is_ws_exec(t[p2])
            invariant
                len == t@.len(),
                pos <= p2 <= len,
                forall|j: int| pos <= j < p2 ==> is_ws(t@[j]),
            decreases len - p2,
        {
            p2 = p2 + 1;
        }
        proof {
            assert forall|j: int| 0 <= j < p2 - pos implies is_ws(rest[j]) by {
                assert(rest[j] == t@[j + pos]);
            }
            if p2 < len {
                assert(rest[p2 - pos] == t@[p2 as int]);
            }
            lemma_lead_ws_from_pub(rest, p2 - pos);
            assert(trim_start(rest) == t@.skip(p2 as int));
        }
        let ghost r = t@.skip(p2 as int);
        if p2 == len {
            assert(r.len() == 0);
            if total / 1_000_000_000 > 0xffff_ffff_ffff_ffff {
                return Err(chars_of("duration overflowed supported range"));
            }
            return Ok(total);
        }
        // The number.
        let mut q = p2;
        while q < len && (is_digit_exec(t[q]) || t[q] == '.')
            invariant
                len == t@.len(),
                p2 <= q <= len,
                forall|j: int| p2 <= j < q ==> is_num_char(t@[j]),
            decreases len - q,
        {
            q = q + 1;
        }
        proof {
            assert forall|j: int| 0 <= j < q - p2 implies num_pred()(r[j]) by {
                assert(r[j] == t@[j + p2]);
            }
            if q < len {
                assert(r[q - p2] == t@[q as int]);
            }
            lemma_lead_count(r, num_pred(), q - p2);
        }
        if q == p2 {
            let e = message("expected a duration value near '", copy_range(t, p2, len).as_slice(), "'");
            assert(r == t@.subrange(p2 as int, len as int));
            return Err(e);
        }
        let num = copy_range(t, p2, q);
        assert(num@ == r.take(q - p2));
        let dots = count_char_exec(num.as_slice(), '.');
        if num[0] == '.' || num[num.len() - 1] == '.' || dots > 1 {
            return Err(message("invalid duration value '", num.as_slice(), "'"));
        }
        // The unit.
        let ghost after = r.skip(q - p2);
        assert(after == t@.skip(q as int));
        let mut u = q;
        while u < len && is_alpha_exec(t[u])
            invariant
                len == t@.len(),
                q <= u <= len,
                forall|j: int| q <= j < u ==> is_alpha(t@[j]),
            decreases len - u,
        {
            u = u + 1;
        }
        proof {
            assert forall|j: int| 0 <= j < u - q implies alpha_pred()(after[j]) by {
                assert(after[j] == t@[j + q]);
            }
            if u < len {
                assert(after[u - q] == t@[u as int]);
            }
            lemma_lead_count(after, alpha_pred(), u - q);
        }
        if u == q {
            return Err(
                message(
                    "missing duration unit after '",
                    num.as_slice(),
                    "' (expected units like ms, s, m, h, d)",
                ),
            );
        }
        let raw_unit = copy_range(t, q, u);
        assert(raw_unit@ == after.take(u - q));
        let unit = lower_chars(raw_unit.as_slice());
        let npu = match unit_nanos_exec(unit.as_slice()) {
            Some(n) => n,
            None => {
                return Err(
                    message(
                        "unknown duration unit '",
                        unit.as_slice(),
                        "' (expected ns, us, ms, s, m, h, or d)",
                    ),
                );
            },
        };
        proof {
            assert forall|i: int| 0 <= i < num@.len() implies is_num_char(#[trigger] num@[i]) by {
                assert(num@[i] == t@[i + p2]);
            }
        }
        let add = amount_nanos_capped(num.as_slice(), npu);
        match total.checked_add(add) {
            Some(x) => {
                total = x;
            },
            None => {
                return Err(chars_of("duration overflowed supported range"));
            },
        }
        assert(after.skip(u - q) == t@.skip(u as int));
        pos = u;
    }
}

proof fn lemma_lead_ws_from_pub(s: Seq<char>, i: int)
    requires
        0 <= i <= s.len(),
        forall|j: int| 0 <= j < i ==> is_ws(s[j]),
        i < s.len() ==> !is_ws(s[i]),
    ensures
        lead_ws(s) == i,
    decreases s.len(),
{
    if i > 0 {
        assert forall|j: int| 0 <= j < i - 1 implies is_ws(s.drop_first()[j]) by {
            assert(s.drop_first()[j] == s[j + 1]);
        }
        if i - 1 < s.len() - 1 {
            assert(s.drop_first()[i - 1] == s[i]);
        }
        lemma_lead_ws_from_pub(s.drop_first(), i - 1);
    }
}

fn unit_at_exec(k: usize) -> (u: u128)
    requires
        k < 7,
    ensures
        u == unit_at(k as nat),
        u >= 1,
{
    if k == 0 {
        86_400_000_000_000
    } else if k == 1 {
        3_600_000_000_000
    } else if k == 2 {
        60_000_000_000
    } else if k == 3 {
        1_000_000_000
    } else if k == 4 {
        1_000_000
    } else if k == 5 {
        1_000
    } else {
        1
    }
}

fn suffix_at_exec(k: usize) -> (s: &'static str)
    requires
        k < 7,
    ensures
        s@ == suffix_at(k as nat),
{
    if k == 0 {
        "d"
    } else if k == 1 {
        "h"
    } else if k == 2 {
        "m"
    } else if k == 3 {
        "s"
    } else if k == 4 {
        "ms"
    } else if k == 5 {
        "us"
    } else {
        "ns"
    }
}

} // verus!
