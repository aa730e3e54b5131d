use vstd::prelude::*;
use crate::text::{
    all_digits, chars_of, count_char, count_char_exec, dec, digit_char, digit_char_exec,
    digit_value, digits_value, extend_chars, is_digit, is_digit_exec, string_from_chars, trim,
    trim_chars, u64_to_dec,
};

use crate::unicode::{ascii_text, to_uppercase, unicode_upper};
use vstd::arithmetic::power2::pow2;

verus! {

pub open spec fn bytes_per_kb() -> nat {
    1_000
}

pub open spec fn bytes_per_kib() -> nat {
    1_024
}

pub open spec fn bytes_per_mb() -> nat {
    1_000_000
}

pub open spec fn bytes_per_mib() -> nat {
    1_048_576
}

pub open spec fn bytes_per_gb() -> nat {
    1_000_000_000
}

pub open spec fn bytes_per_gib() -> nat {
    1_073_741_824
}

/// `value * unit`, or `u64::MAX` when that does not fit (`u64::saturating_mul`).
pub open spec fn sat_mul(value: nat, unit: nat) -> u64 {
    if value * unit > u64::MAX {
        u64::MAX
    } else {
        (value * unit) as u64
    }
}

fn sat_mul_exec(value: u64, unit: u64) -> (r: u64)
    ensures
        r == sat_mul(value as nat, unit as nat),
{
    match value.checked_mul(unit) {
        Some(x) => x,
        None => u64::MAX,
    }
}

/// An amount of storage, in bytes.
#[derive(Clone, Copy, Debug, Eq, PartialOrd, Ord, Hash)]
pub struct FileSize(pub u64);

impl PartialEq for FileSize {
    fn eq(&self, other: &Self) -> (r: bool) {
        self.0 == other.0
    }
}

impl vstd::std_specs::cmp::PartialEqSpecImpl for FileSize {
    open spec fn obeys_eq_spec() -> bool {
        true
    }

    open spec fn eq_spec(&self, other: &Self) -> bool {
        self.0 == other.0
    }
}

impl FileSize {
    /// A size of `bytes` bytes.
    pub fn from_bytes(bytes: u64) -> (f: Self)
        ensures
            f.0 == bytes,
    {
        FileSize(bytes)
    }

    /// The size in bytes.
    pub fn as_bytes(self) -> (b: u64)
        ensures
            b == self.0,
    {
        self.0
    }

    /// The empty size.
    pub fn zero() -> (f: Self)
        ensures
            f.0 == 0,
    {
        FileSize(0)
    }

    /// The largest size.
    pub fn max_value() -> (f: Self)
        ensures
            f.0 == u64::MAX,
    {
        FileSize(u64::MAX)
    }

    pub fn from_kb(value: u64) -> (f: Self)
        ensures
            f.0 == sat_mul(value as nat, bytes_per_kb()),
    {
        FileSize(sat_mul_exec(value, 1_000))
    }

    pub fn as_kb(self) -> (v: u64)
        ensures
            v == (self.0 as nat) / bytes_per_kb(),
    {
        self.0 / 1_000
    }

    pub fn from_kib(value: u64) -> (f: Self)
        ensures
            f.0 == sat_mul(value as nat, bytes_per_kib()),
    {
        FileSize(sat_mul_exec(value, 1_024))
    }

    pub fn as_kib(self) -> (v: u64)
        ensures
            v == (self.0 as nat) / bytes_per_kib(),
    {
        self.0 / 1_024
    }

    pub fn from_mb(value: u64) -> (f: Self)
        ensures
            f.0 == sat_mul(value as nat, bytes_per_mb()),
    {
        FileSize(sat_mul_exec(value, 1_000_000))
    }

    pub fn as_mb(self) -> (v: u64)
        ensures
            v == (self.0 as nat) / bytes_per_mb(),
    {
        self.0 / 1_000_000
    }

    pub fn from_mib(value: u64) -> (f: Self)
        ensures
            f.0 == sat_mul(value as nat, bytes_per_mib()),
    {
        FileSize(sat_mul_exec(value, 1_048_576))
    }

    pub fn as_mib(self) -> (v: u64)
        ensures
            v == (self.0 as nat) / bytes_per_mib(),
    {
        self.0 / 1_048_576
    }

    pub fn from_gb(value: u64) -> (f: Self)
        ensures
            f.0 == sat_mul(value as nat, bytes_per_gb()),
    {
        FileSize(sat_mul_exec(value, 1_000_000_000))
    }

    pub fn as_gb(self) -> (v: u64)
        ensures
            v == (self.0 as nat) / bytes_per_gb(),
    {
        self.0 / 1_000_000_000
    }

    pub fn from_gib(value: u64) -> (f: Self)
        ensures
            f.0 == sat_mul(value as nat, bytes_per_gib()),
    {
        FileSize(sat_mul_exec(value, 1_073_741_824))
    }

    pub fn as_gib(self) -> (v: u64)
        ensures
            v == (self.0 as nat) / bytes_per_gib(),
    {
        self.0 / 1_073_741_824
    }

    /// The text shown for the size: the first of GiB, GB, MiB, MB, KiB, KB that divides
    /// it exactly (`20GB`, `1KiB`); else the largest of them that it reaches, with up
    /// to two decimals (`1.5KiB`); else bytes (`42B`).
    pub fn to_display_string(self) -> (s: String)
        ensures
            s@ == size_text(self.0 as nat),
    {
        let bytes = self.0;
        let mut fallback: Option<(Vec<char>, usize)> = None;
        let mut k: usize = 0;
        while k < 6
            invariant
                k <= 6,
                bytes == self.0,
                match fallback {
                    Some((_, j)) => j < 6,
                    None => true,
                },
                size_text_from(bytes as nat, k as nat, opt_view(fallback)) == size_text(
                    bytes as nat,
                ),
            decreases 6 - k,
        {
            let unit = candidate_exec(k);
            if bytes % unit == 0 {
                let mut out = u64_to_dec(bytes / unit);
                extend_chars(&mut out, chars_of(candidate_suffix_exec(k)).as_slice());
                return string_from_chars(out.as_slice());
            }
            if bytes >= unit && fallback.is_none() {
                fallback = Some((two_decimals_exec(bytes, unit), k));
            }
            k = k + 1;
        }
        match fallback {
            Some((f, j)) => {
                let mut out = f;
                extend_chars(&mut out, chars_of(candidate_suffix_exec(j)).as_slice());
                string_from_chars(out.as_slice())
            },
            None => {
                let mut out = u64_to_dec(bytes);
                extend_chars(&mut out, chars_of("B").as_slice());
                string_from_chars(out.as_slice())
            },
        }
    }
}

// ---------------------------------------------------------------------------
// Parsing
// ---------------------------------------------------------------------------

/// Characters that belong to the number of a size.
pub open spec fn is_num_char(c: char) -> bool {
    is_digit(c) || c == '.'
}

proof fn lemma_num_chars_all(s: Seq<char>)
    ensures
        forall|i: int| 0 <= i < num_chars(s).len() ==> is_num_char(#[trigger] num_chars(s)[i]),
    decreases s.len(),
{
    if s.len() > 0 {
        lemma_num_chars_all(s.drop_last());
        let p = num_chars(s.drop_last());
        if is_num_char(s.last()) {
            assert forall|i: int| 0 <= i < num_chars(s).len() implies is_num_char(
                #[trigger] num_chars(s)[i],
            ) by {
                if i < p.len() {
                    assert(num_chars(s)[i] == p[i]);
                }
            }
        }
    }
}

/// The characters of `s` that belong to the number, in order.
pub open spec fn num_chars(s: Seq<char>) -> Seq<char>
    decreases s.len(),
{
    if s.len() == 0 {
        s
    } else if is_num_char(s.last()) {
        num_chars(s.drop_last()).push(s.last())
    } else {
        num_chars(s.drop_last())
    }
}

/// The other characters of `s`, in order.
pub open spec fn unit_chars(s: Seq<char>) -> Seq<char>
    decreases s.len(),
{
    if s.len() == 0 {
        s
    } else if !is_num_char(s.last()) {
        unit_chars(s.drop_last()).push(s.last())
    } else {
        unit_chars(s.drop_last())
    }
}

/// Why `str::parse::<f64>` refuses a string of digits and points, if it does.
pub open spec fn float_error(num: Seq<char>) -> Option<Seq<char>> {
    if num.len() == 0 {
        Some("cannot parse float from empty string"@)
    } else if count_char(num, '.') > 1 || num == seq!['.'] {
        Some("invalid float literal"@)
    } else {
        None
    }
}

/// The digits before the decimal point.
pub open spec fn whole_digits(num: Seq<char>) -> Seq<char> {
    let i = crate::text::index_of(num, '.');
    if i < 0 {
        num
    } else {
        num.take(i)
    }
}

/// The whole part of the number, at most `u64::MAX` (a float cast to `u64`).
pub open spec fn whole_value(num: Seq<char>) -> u64 {
    if digits_value(whole_digits(num)) > u64::MAX {
        u64::MAX
    } else {
        digits_value(whole_digits(num)) as u64
    }
}

/// The size for a number part, the unit part as written, and the unit part in upper
/// case.
pub open spec fn size_from_parts(num: Seq<char>, unit: Seq<char>, upper: Seq<char>) -> Result<
    u64,
    Seq<char>,
> {
    match float_error(num) {
        Some(e) => Err("invalid number: "@ + e),
        None => {
            let v = whole_value(num) as nat;
            if upper == "B"@ || upper.len() == 0 {
                Ok(v as u64)
            } else if upper == "KB"@ {
                Ok(sat_mul(v, bytes_per_kb()))
            } else if upper == "KIB"@ {
                Ok(sat_mul(v, bytes_per_kib()))
            } else if upper == "MB"@ {
                Ok(sat_mul(v, bytes_per_mb()))
            } else if upper == "MIB"@ {
                Ok(sat_mul(v, bytes_per_mib()))
            } else if upper == "GB"@ {
                Ok(sat_mul(v, bytes_per_gb()))
            } else if upper == "GIB"@ {
                Ok(sat_mul(v, bytes_per_gib()))
            } else {
                Err("invalid unit: "@ + unit)
            }
        },
    }
}

/// The unit part in upper case as `str::to_uppercase` gives it: on ASCII text,
/// `a`-`z` become `A`-`Z`.
pub open spec fn unit_upper(u: Seq<char>) -> Seq<char> {
    if ascii_text(u) {
        crate::text::upper_seq(u)
    } else {
        unicode_upper(u)
    }
}

/// A size text such as `42`, `10KB`, `5MiB` or `1.5gb`: surrounding whitespace is
/// ignored; its digits and points form the number and its other characters the unit,
/// matched in upper case; a fraction is dropped.
pub open spec fn parse_size(s: Seq<char>) -> Result<u64, Seq<char>> {
    let t = trim(s);
    size_from_parts(num_chars(t), unit_chars(t), unit_upper(unit_chars(t)))
}

/// Reads a size from its number part, its unit part, and the unit part in upper case.
pub fn file_size_from_parts(num: &str, unit: &str, upper: &str) -> (r: Result<FileSize, String>)
    requires
        forall|i: int| 0 <= i < num@.len() ==> is_num_char(#[trigger] num@[i]),
    ensures
        match r {
            Ok(f) => size_from_parts(num@, unit@, upper@) == Ok::<u64, Seq<char>>(f.0),
            Err(e) => size_from_parts(num@, unit@, upper@) == Err::<u64, Seq<char>>(e@),
        },
{
    let n = chars_of(num);
    let dots = count_char_exec(n.as_slice(), '.');
    if n.len() == 0 {
        let mut m = chars_of("invalid number: ");
        extend_chars(&mut m, chars_of("cannot parse float from empty string").as_slice());
        return Err(string_from_chars(m.as_slice()));
    }
    if dots > 1 || (n.len() == 1 && n[0] == '.') {
        proof {
            if n@.len() == 1 && n@[0] == '.' {
                assert(n@ == seq!['.']);
            }
        }
        let mut m = chars_of("invalid number: ");
        extend_chars(&mut m, chars_of("invalid float literal").as_slice());
        return Err(string_from_chars(m.as_slice()));
    }
    proof {
        assert(n@ != seq!['.']);
    }
    // Whole part, saturating at u64::MAX.
    let dot = crate::text::find_char(n.as_slice(), '.', 0);
    let end = match dot {
        Some(i) => i,
        None => n.len(),
    };
    proof {
        crate::text::lemma_index_of(n@, '.');
        match dot {
            Some(i) => crate::text::lemma_index_of_unique(n@, '.', i as int),
            None => crate::text::lemma_index_of_unique(n@, '.', -1),
        }
    }
    let ghost w = n@.take(end as int);
    assert(w == whole_digits(n@));
    let mut v: u64 = 0;
    let mut big = false;
    let mut i: usize = 0;
    while i < end
        invariant
            end <= n@.len(),
            i <= end,
            w == n@.take(end as int),
            forall|j: int| 0 <= j < end ==> n@[j] != '.',
            forall|j: int| 0 <= j < n@.len() ==> is_num_char(#[trigger] n@[j]),
            big ==> digits_value(w.take(i as int)) > u64::MAX,
            !big ==> v == digits_value(w.take(i as int)),
        decreases end - i,
    {
        let c = n[i];
        assert(is_num_char(n@[i as int]));
        assert(is_digit(c));
        let d: u64 = (c as u32 - '0' as u32) as u64;
        proof {
            assert(w.take(i + 1) == w.take(i as int).push(c));
            assert(w.take(i + 1).drop_last() == w.take(i as int));
        }
        if !big {
            match v.checked_mul(10) {
                Some(m) => match m.checked_add(d) {
                    Some(x) => {
                        v = x;
                    },
                    None => {
                        big = true;
                    },
                },
                None => {
                    big = true;
                },
            }
        }
        i = i + 1;
    }
    assert(w.take(end as int) == w);
    let value: u64 = if big {
        u64::MAX
    } else {
        v
    };
    let up = chars_of(upper);
    if up.len() == 0 || crate::text::chars_eq(up.as_slice(), chars_of("B").as_slice()) {
        Ok(FileSize(value))
    } else if crate::text::chars_eq(up.as_slice(), chars_of("KB").as_slice()) {
        Ok(FileSize(sat_mul_exec(value, 1_000)))
    } else if crate::text::chars_eq(up.as_slice(), chars_of("KIB").as_slice()) {
        Ok(FileSize(sat_mul_exec(value, 1_024)))
    } else if crate::text::chars_eq(up.as_slice(), chars_of("MB").as_slice()) {
        Ok(FileSize(sat_mul_exec(value, 1_000_000)))
    } else if crate::text::chars_eq(up.as_slice(), chars_of("MIB").as_slice()) {
        Ok(FileSize(sat_mul_exec(value, 1_048_576)))
    } else if crate::text::chars_eq(up.as_slice(), chars_of("GB").as_slice()) {
        Ok(FileSize(sat_mul_exec(value, 1_000_000_000)))
    } else if crate::text::chars_eq(up.as_slice(), chars_of("GIB").as_slice()) {
        Ok(FileSize(sat_mul_exec(value, 1_073_741_824)))
    } else {
        let mut m = chars_of("invalid unit: ");
        extend_chars(&mut m, chars_of(unit).as_slice());
        Err(string_from_chars(m.as_slice()))
    }
}

/// Reads a size text (`FileSize::from_str`).
pub fn parse_file_size(s: &str) -> (r: Result<FileSize, String>)
    ensures
        match r {
            Ok(f) => parse_size(s@) == Ok::<u64, Seq<char>>(f.0),
            Err(e) => parse_size(s@) == Err::<u64, Seq<char>>(e@),
        },
{
    let all = chars_of(s);
    let t = trim_chars(all.as_slice());
    let mut num: Vec<char> = Vec::new();
    let mut unit: Vec<char> = Vec::new();
    let mut i: usize = 0;
    while i < t.len()
        invariant
            i <= t@.len(),
            num@ == num_chars(t@.take(i as int)),
            unit@ == unit_chars(t@.take(i as int)),
        decreases t@.len() - i,
    {
        let c = t[i];
        proof {
            assert(t@.take(i + 1).drop_last() == t@.take(i as int));
            assert(t@.take(i + 1).last() == c);
        }
        if is_digit_exec(c) || c == '.' {
            num.push(c);
        } else {
            unit.push(c);
        }
        i = i + 1;
    }
    assert(t@.take(i as int) == t@);
    proof {
        lemma_num_chars_all(t@);
    }
    let num_s = string_from_chars(num.as_slice());
    let unit_s = string_from_chars(unit.as_slice());
    let upper = to_uppercase(unit_s.as_str());
    file_size_from_parts(num_s.as_str(), unit_s.as_str(), upper.as_str())
}

impl std::str::FromStr for FileSize {
    type Err = String;

    fn from_str(s: &str) -> (r: Result<Self, Self::Err>)
        ensures
            match r {
                Ok(f) => parse_size(s@) == Ok::<u64, Seq<char>>(f.0),
                Err(e) => parse_size(s@) == Err::<u64, Seq<char>>(e@),
            },
    {
        parse_file_size(s)
    }
}

// ---------------------------------------------------------------------------
// Display
// ---------------------------------------------------------------------------

/// Bytes per unit of the `k`-th display candidate: GiB, GB, MiB, MB, KiB, KB.
pub open spec fn candidate(k: nat) -> nat {
    if k == 0 {
        bytes_per_gib()
    } else if k == 1 {
        bytes_per_gb()
    } else if k == 2 {
        bytes_per_mib()
    } else if k == 3 {
        bytes_per_mb()
    } else if k == 4 {
        bytes_per_kib()
    } else {
        bytes_per_kb()
    }
}

pub open spec fn candidate_suffix(k: nat) -> Seq<char> {
    if k == 0 {
        "GiB"@
    } else if k == 1 {
        "GB"@
    } else if k == 2 {
        "MiB"@
    } else if k == 3 {
        "MB"@
    } else if k == 4 {
        "KiB"@
    } else {
        "KB"@
    }
}

/// `a / b` rounded to the nearest whole number, ties to even.
pub open spec fn div_nearest(a: nat, b: nat) -> nat {
    let q = a / b;
    let r = a % b;
    if 2 * r > b || (2 * r == b && q % 2 == 1) {
        q + 1
    } else {
        q
    }
}

/// `2^53`: doubles hold every whole number below it.
pub open spec fn two53() -> nat {
    9_007_199_254_740_992
}

/// The first shift from `s` on that brings `x` below `2^53`.
pub open spec fn shift_below(x: nat, s: nat) -> nat
    decreases 64 - s,
{
    if s >= 64 || x / pow2(s) < two53() {
        s
    } else {
        shift_below(x, s + 1)
    }
}

/// The double nearest to the whole number `x` (ties to even), as `x as f64` gives it
/// for an `x` below `2^64`.
pub open spec fn double_of(x: nat) -> nat {
    let s = shift_below(x, 0);
    div_nearest(x, pow2(s)) * pow2(s)
}

/// Whether `x / u`, scaled by `2^t`, is below `2^53`.
pub open spec fn below_at(x: nat, u: nat, t: int) -> bool {
    if t >= 0 {
        x * pow2(t as nat) < two53() * u
    } else {
        x < two53() * u * pow2((-t) as nat)
    }
}

/// The scale, searched from `t` downward (to -4 at most), at which `x / u` takes its
/// 53 significant bits.
pub open spec fn quotient_scale(x: nat, u: nat, t: int) -> int
    decreases t + 4,
{
    if t <= -4 || below_at(x, u, t) {
        t
    } else {
        quotient_scale(x, u, t - 1)
    }
}

/// The significand `m` of the double nearest to `x / u`, which is `m / 2^t` with `t`
/// the quotient's scale.
pub open spec fn quotient_significand(x: nat, u: nat, t: int) -> nat {
    if t >= 0 {
        div_nearest(x * pow2(t as nat), u)
    } else {
        div_nearest(x, u * pow2((-t) as nat))
    }
}

/// `bytes / unit` in hundredths as the display computes it with doubles: `bytes` is
/// first rounded to the nearest double, the quotient to the nearest double, and that
/// double is rounded to hundredths (ties to even).
pub open spec fn hundredths(bytes: nat, unit: nat) -> nat {
    let x = double_of(bytes);
    let t = quotient_scale(x, unit, 52);
    let m = quotient_significand(x, unit, t);
    if t >= 0 {
        div_nearest(m * 100, pow2(t as nat))
    } else {
        m * pow2((-t) as nat) * 100
    }
}

/// `bytes / unit` with two decimals, trailing zeros (and a bare point) removed.
pub open spec fn two_decimals(bytes: nat, unit: nat) -> Seq<char> {
    let h = hundredths(bytes, unit);
    let whole = dec(h / 100);
    let frac = h % 100;
    if frac == 0 {
        whole
    } else if frac % 10 == 0 {
        whole + seq!['.', digit_char(frac / 10)]
    } else {
        whole + seq!['.', digit_char(frac / 10), digit_char(frac % 10)]
    }
}

pub open spec fn size_text_from(bytes: nat, k: nat, fallback: Option<(Seq<char>, nat)>) -> Seq<
    char,
>
    decreases 6 - k,
{
    if k >= 6 {
        match fallback {
            Some((text, j)) => text + candidate_suffix(j),
            None => dec(bytes) + "B"@,
        }
    } else if bytes % candidate(k) == 0 {
        dec(bytes / candidate(k)) + candidate_suffix(k)
    } else if bytes >= candidate(k) && fallback.is_none() {
        size_text_from(bytes, k + 1, Some((two_decimals(bytes, candidate(k)), k)))
    } else {
        size_text_from(bytes, k + 1, fallback)
    }
}

/// The display text of a size of `bytes` bytes.
pub open spec fn size_text(bytes: nat) -> Seq<char> {
    size_text_from(bytes, 0, None)
}

pub open spec fn opt_view(f: Option<(Vec<char>, usize)>) -> Option<(Seq<char>, nat)> {
    match f {
        Some((v, j)) => Some((v@, j as nat)),
        None => None,
    }
}

fn candidate_exec(k: usize) -> (u: u64)
    requires
        k < 6,
    ensures
        u == candidate(k as nat),
{
    if k == 0 {
        1_073_741_824
    } else if k == 1 {
        1_000_000_000
    } else if k == 2 {
        1_048_576
    } else if k == 3 {
        1_000_000
    } else if k == 4 {
        1_024
    } else {
        1_000
    }
}

fn candidate_suffix_exec(k: usize) -> (s: &'static str)
    ensures
        k < 6 ==> s@ == candidate_suffix(k as nat),
{
    if k == 0 {
        "GiB"
    } else if k == 1 {
        "GB"
    } else if k == 2 {
        "MiB"
    } else if k == 3 {
        "MB"
    } else if k == 4 {
        "KiB"
    } else {
        "KB"
    }
}

fn div_nearest_exec(a: u128, b: u128) -> (r: u128)
    requires
        b > 0,
        a <= u128::MAX / 2,
        b <= u128::MAX / 2,
    ensures
        r == div_nearest(a as nat, b as nat),
        r <= a / b + 1,
{
    let q = a / b;
    let r = a % b;
    if 2 * r > b || (2 * r == b && q % 2 == 1) {
        q + 1
    } else {
        q
    }
}

fn double_of_exec(x: u64) -> (r: u128)
    ensures
        r == double_of(x as nat),
        r <= 2 * 0x1_0000_0000_0000_0000,
{
    let mut s: u32 = 0;
    let mut p: u128 = 1;
    proof {
        vstd::arithmetic::power2::lemma2_to64();
        vstd::arithmetic::power2::lemma2_to64_rest();
    }
    while s < 64 && (x as u128) / p >= 9_007_199_254_740_992
        invariant
            s <= 64,
            p == pow2(s as nat),
            1 <= p <= 0x1_0000_0000_0000_0000,
            shift_below(x as nat, 0) == shift_below(x as nat, s as nat),
        decreases 64 - s,
    {
        proof {
            vstd::arithmetic::power2::lemma_pow2_unfold((s + 1) as nat);
            vstd::arithmetic::power2::lemma2_to64();
        vstd::arithmetic::power2::lemma2_to64_rest();
            if s + 1 < 64 {
                vstd::arithmetic::power2::lemma_pow2_strictly_increases((s + 1) as nat, 64);
            }
        }
        s = s + 1;
        p = p * 2;
    }
    proof {
        vstd::arithmetic::power2::lemma_pow2_pos(s as nat);
    }
    let d = div_nearest_exec(x as u128, p);
    proof {
        let q = (x as nat) / (p as nat);
        vstd::arithmetic::div_mod::lemma_fundamental_div_mod(x as int, p as int);
        assert(d <= q + 1);
        assert(d * p <= (q + 1) * p) by (nonlinear_arith)
            requires
                d <= q + 1,
        ;
        assert((q + 1) * p == q * p + p) by (nonlinear_arith);
        assert(q * p <= x) by (nonlinear_arith)
            requires
                x == p * q + (x as nat) % (p as nat),
        ;
    }
    d * p
}

fn two_decimals_exec(bytes: u64, unit: u64) -> (out: Vec<char>)
    requires
        unit >= 1,
        unit <= 0x4000_0000,
    ensures
        out@ == two_decimals(bytes as nat, unit as nat),
{
    let x = double_of_exec(bytes);
    let u = unit as u128;
    // The scale of the quotient, searched downward from 52.
    let mut t: i64 = 52;
    let mut p: u128 = 4_503_599_627_370_496;
    proof {
        vstd::arithmetic::power2::lemma2_to64();
        vstd::arithmetic::power2::lemma2_to64_rest();
        assert(pow2(52) == 4_503_599_627_370_496);
    }
    loop
        invariant
            -4 <= t <= 52,
            t >= 0 ==> p == pow2(t as nat) && 1 <= p <= 4_503_599_627_370_496,
            t < 0 ==> p == pow2((-t) as nat) && 2 <= p <= 16,
            x <= 2 * 0x1_0000_0000_0000_0000,
            1 <= u <= 0x4000_0000,
            quotient_scale(x as nat, u as nat, 52) == quotient_scale(x as nat, u as nat, t as int),
        ensures
            -4 <= t <= 52,
            t >= 0 ==> p == pow2(t as nat) && 1 <= p <= 4_503_599_627_370_496,
            t < 0 ==> p == pow2((-t) as nat) && 2 <= p <= 16,
            quotient_scale(x as nat, u as nat, 52) == t,
        decreases t + 4,
    {
        proof {
            vstd::arithmetic::power2::lemma2_to64();
        vstd::arithmetic::power2::lemma2_to64_rest();
        }
        let below = if t >= 0 {
            proof {
                assert(x * p <= 2 * 0x1_0000_0000_0000_0000 * 4_503_599_627_370_496) by (nonlinear_arith)
                    requires
                        x <= 2 * 0x1_0000_0000_0000_0000,
                        p <= 4_503_599_627_370_496,
                ;
            }
            x * p < 9_007_199_254_740_992 * u
        } else {
            proof {
                assert(9_007_199_254_740_992 * u * p <= 9_007_199_254_740_992 * 0x4000_0000 * 16) by (nonlinear_arith)
                    requires
                        u <= 0x4000_0000,
                        p <= 16,
                ;
            }
            x < 9_007_199_254_740_992 * u * p
        };
        if t <= -4 || below {
            break;
        }
        if t > 0 {
            proof {
                vstd::arithmetic::power2::lemma_pow2_unfold(t as nat);
            }
            p = p / 2;
        } else if t == 0 {
            p = 2;
        } else {
            proof {
                vstd::arithmetic::power2::lemma_pow2_unfold((1 - t) as nat);
            }
            p = p * 2;
        }
        t = t - 1;
    }
    proof {
        if t >= 0 {
            assert(x * p <= 2 * 0x1_0000_0000_0000_0000 * 4_503_599_627_370_496) by (nonlinear_arith)
                requires
                    x <= 2 * 0x1_0000_0000_0000_0000,
                    p <= 4_503_599_627_370_496,
            ;
        } else {
            assert(1 <= u * p <= 0x4000_0000 * 16) by (nonlinear_arith)
                requires
                    1 <= u <= 0x4000_0000,
                    2 <= p <= 16,
            ;
        }
    }
    let m = if t >= 0 {
        div_nearest_exec(x * p, u)
    } else {
        div_nearest_exec(x, u * p)
    };
    proof {
        if t >= 0 {
            let a = (x * p) as nat;
            assert(a / (u as nat) <= a) by (nonlinear_arith)
                requires
                    u >= 1,
            ;
        } else {
            let b = (u * p) as nat;
            assert((x as nat) / b <= x) by (nonlinear_arith)
                requires
                    b >= 1,
            ;
            assert(m * p * 100 <= (2 * 0x1_0000_0000_0000_0000 + 1) * 16 * 100) by (nonlinear_arith)
                requires
                    m <= 2 * 0x1_0000_0000_0000_0000 + 1,
                    p <= 16,
            ;
        }
    }
    let h: u128 = if t >= 0 {
        div_nearest_exec(m * 100, p)
    } else {
        m * p * 100
    };
    assert(h == hundredths(bytes as nat, unit as nat));
    let mut out = crate::text::u128_to_dec(h / 100);
    let frac = h % 100;
    if frac == 0 {
    } else if frac % 10 == 0 {
        out.push('.');
        out.push(digit_char_exec((frac / 10) as u64));
    } else {
        out.push('.');
        out.push(digit_char_exec((frac / 10) as u64));
        out.push(digit_char_exec((frac % 10) as u64));
    }
    out
}

} // verus!
