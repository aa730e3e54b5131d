use vstd::prelude::*;
use crate::arith::{lemma_pow10_pos, pow10};
use crate::text::{all_digits, digit_value, digits_value, is_digit};
use vstd::arithmetic::power2::{lemma_pow2_unfold, pow2};

verus! {

/// The value of decimal digits stored least significant first.
pub open spec fn le_value(s: Seq<u8>) -> nat
    decreases s.len(),
{
    if s.len() == 0 {
        0
    } else {
        s[0] as nat + 10 * le_value(s.drop_first())
    }
}

/// Every entry is a decimal digit.
pub open spec fn small_digits(s: Seq<u8>) -> bool {
    forall|i: int| 0 <= i < s.len() ==> #[trigger] s[i] <= 9
}

/// The value of a concatenation of little-endian digits.
proof fn lemma_le_concat(x: Seq<u8>, y: Seq<u8>)
    ensures
        le_value(x + y) == le_value(x) + pow10(x.len()) * le_value(y),
    decreases x.len(),
{
    if x.len() == 0 {
        assert(x + y =~= y);
        assert(pow10(0) == 1);
        assert(le_value(x) == 0);
    } else {
        assert((x + y).drop_first() =~= x.drop_first() + y);
        assert((x + y)[0] == x[0]);
        lemma_le_concat(x.drop_first(), y);
        let p = pow10((x.len() - 1) as nat);
        assert(pow10(x.len()) == 10 * p);
        let a = le_value(x.drop_first());
        let b = le_value(y);
        assert(le_value(x + y) == x[0] as nat + 10 * le_value(x.drop_first() + y));
        assert(le_value(x) == x[0] as nat + 10 * a);
        assert(10 * (a + p * b) == 10 * a + (10 * p) * b) by (nonlinear_arith);
    }
}

/// Appending a most significant digit.
proof fn lemma_le_push(s: Seq<u8>, d: u8)
    ensures
        le_value(s.push(d)) == le_value(s) + pow10(s.len()) * d,
{
    lemma_le_concat(s, seq![d]);
    assert(s + seq![d] =~= s.push(d));
    lemma_le_single(d);
}

proof fn lemma_le_single(d: u8)
    ensures
        le_value(seq![d]) == d,
{
    assert(seq![d].drop_first() =~= Seq::<u8>::empty());
    assert(le_value(Seq::<u8>::empty()) == 0);
    assert(le_value(seq![d]) == seq![d][0] as nat + 10 * le_value(seq![d].drop_first()));
}

/// Digits below position `k` are worth less than `10^k`.
proof fn lemma_le_below(s: Seq<u8>)
    requires
        small_digits(s),
    ensures
        le_value(s) < pow10(s.len()),
    decreases s.len(),
{
    if s.len() > 0 {
        let t = s.drop_first();
        assert(small_digits(t)) by {
            assert forall|i: int| 0 <= i < t.len() implies #[trigger] t[i] <= 9 by {
                assert(t[i] == s[i + 1]);
            }
        }
        lemma_le_below(t);
        assert(s[0] <= 9);
    }
}

/// A value is zero exactly when every digit is.
proof fn lemma_le_zero(s: Seq<u8>)
    ensures
        le_value(s) == 0 <==> forall|i: int| 0 <= i < s.len() ==> #[trigger] s[i] == 0,
    decreases s.len(),
{
    if s.len() > 0 {
        let t = s.drop_first();
        lemma_le_zero(t);
        if le_value(s) == 0 {
            assert forall|i: int| 0 <= i < s.len() implies #[trigger] s[i] == 0 by {
                if i > 0 {
                    assert(s[i] == t[i - 1]);
                }
            }
        }
        if forall|i: int| 0 <= i < s.len() ==> #[trigger] s[i] == 0 {
            assert forall|i: int| 0 <= i < t.len() implies #[trigger] t[i] == 0 by {
                assert(t[i] == s[i + 1]);
            }
        }
    }
}

proof fn lemma_pow10_mono(a: nat, b: nat)
    requires
        a <= b,
    ensures
        pow10(a) <= pow10(b),
    decreases b,
{
    if a < b {
        lemma_pow10_mono(a, (b - 1) as nat);
        lemma_pow10_pos((b - 1) as nat);
    }
}

/// Doubles a number held in little-endian decimal digits.
fn double_digits(v: &Vec<u8>) -> (out: Vec<u8>)
    requires
        small_digits(v@),
    ensures
        small_digits(out@),
        le_value(out@) == 2 * le_value(v@),
{
    let mut out: Vec<u8> = Vec::new();
    let mut carry: u8 = 0;
    let mut i: usize = 0;
    while i < v.len()
        invariant
            i <= v@.len(),
            out@.len() == i,
            carry <= 1,
            small_digits(v@),
            small_digits(out@),
            le_value(out@) + carry * pow10(i as nat) == 2 * le_value(v@.take(i as int)),
        decreases v@.len() - i,
    {
        let d = v[i];
        assert(d <= 9);
        let t: u8 = 2 * d + carry;
        let r: u8 = t % 10;
        let c: u8 = t / 10;
        proof {
            let p = pow10(i as nat);
            lemma_le_push(out@, r);
            assert(v@.take(i + 1) =~= v@.take(i as int).push(d));
            lemma_le_push(v@.take(i as int), d);
            assert(pow10((i + 1) as nat) == 10 * p);
            assert(p * r + c * (10 * p) == 2 * (p * d) + carry * p) by (nonlinear_arith)
                requires
                    r + 10 * c == 2 * d + carry,
            ;
        }
        out.push(r);
        carry = c;
        i = i + 1;
    }
    assert(v@.take(i as int) =~= v@);
    if carry == 1 {
        proof {
            lemma_le_push(out@, 1);
        }
        out.push(1);
    }
    out
}

/// The little-endian digits of a run of ASCII digits.
pub open spec fn le_of(d: Seq<char>) -> Seq<u8>
    decreases d.len(),
{
    if d.len() == 0 {
        Seq::empty()
    } else {
        seq![digit_value(d.last()) as u8] + le_of(d.drop_last())
    }
}

proof fn lemma_le_of(d: Seq<char>)
    requires
        all_digits(d),
    ensures
        le_of(d).len() == d.len(),
        small_digits(le_of(d)),
        le_value(le_of(d)) == digits_value(d),
    decreases d.len(),
{
    if d.len() > 0 {
        let e = d.drop_last();
        assert(all_digits(e)) by {
            assert forall|i: int| 0 <= i < e.len() implies is_digit(#[trigger] e[i]) by {
                assert(e[i] == d[i]);
            }
        }
        assert(is_digit(d.last()));
        lemma_le_of(e);
        let s = le_of(d);
        assert(s.drop_first() =~= le_of(e));
        assert forall|i: int| 0 <= i < s.len() implies #[trigger] s[i] <= 9 by {
            if i > 0 {
                assert(s[i] == le_of(e)[i - 1]);
            }
        }
    }
}

/// Reads a run of ASCII digits into little-endian digits.
fn le_digits(d: &[char]) -> (out: Vec<u8>)
    requires
        all_digits(d@),
    ensures
        out@ == le_of(d@),
{
    let mut out: Vec<u8> = Vec::new();
    let mut k: usize = d.len();
    assert(d@.take(k as int) =~= d@);
    assert(out@ + le_of(d@) =~= le_of(d@));
    while k > 0
        invariant
            k <= d@.len(),
            all_digits(d@),
            out@ + le_of(d@.take(k as int)) == le_of(d@),
        decreases k,
    {
        let c = d[k - 1];
        assert(is_digit(d@[k - 1]));
        let v: u8 = (c as u32 - '0' as u32) as u8;
        proof {
            let t = d@.take(k as int);
            assert(t.drop_last() =~= d@.take(k - 1));
            assert(t.last() == c);
            assert(le_of(t) == seq![digit_value(c) as u8] + le_of(d@.take(k - 1)));
            assert(out@.push(v) + le_of(d@.take(k - 1)) =~= out@ + le_of(t));
        }
        out.push(v);
        k = k - 1;
    }
    assert(d@.take(0) =~= Seq::<char>::empty());
    assert(out@ + le_of(Seq::<char>::empty()) =~= out@);
    out
}

/// Whether a digit other than 0 stands at a place in `[from, to)`.
fn any_nonzero(a: &Vec<u8>, from: usize, to: usize) -> (b: bool)
    requires
        from <= to <= a@.len(),
    ensures
        b <==> exists|j: int| from <= j < to && a@[j] != 0,
{
    let mut i = from;
    while i < to
        invariant
            from <= i <= to <= a@.len(),
            forall|j: int| from <= j < i ==> a@[j] == 0,
        decreases to - i,
    {
        if a[i] != 0 {
            return true;
        }
        i = i + 1;
    }
    false
}

/// Whether a number held in little-endian digits exceeds `10^f`.
fn exceeds_pow10(a: &Vec<u8>, f: usize) -> (b: bool)
    requires
        small_digits(a@),
    ensures
        b == (le_value(a@) > pow10(f as nat)),
{
    let len = a.len();
    if f >= len {
        proof {
            lemma_le_below(a@);
            lemma_pow10_mono(len as nat, f as nat);
        }
        return false;
    }
    let ghost lo = a@.take(f as int);
    let ghost hi = a@.skip(f + 1);
    let ghost p = pow10(f as nat);
    proof {
        assert(a@ =~= lo + (seq![a@[f as int]] + hi));
        lemma_le_concat(lo, seq![a@[f as int]] + hi);
        lemma_le_concat(seq![a@[f as int]], hi);
        lemma_le_single(a@[f as int]);
        assert(pow10(1) == 10 * pow10(0));
        assert(pow10(0) == 1);
        assert(lo.len() == f);
        assert(small_digits(lo)) by {
            assert forall|i: int| 0 <= i < lo.len() implies #[trigger] lo[i] <= 9 by {
                assert(lo[i] == a@[i]);
            }
        }
        lemma_le_below(lo);
        lemma_le_zero(lo);
        lemma_le_zero(hi);
        lemma_pow10_pos(f as nat);
        assert(le_value(a@) == le_value(lo) + p * (a@[f as int] + 10 * le_value(hi)));
    }
    let high = any_nonzero(a, f + 1, len);
    if high {
        proof {
            let j = choose|j: int| f + 1 <= j < len && a@[j] != 0;
            assert(hi[j - f - 1] == a@[j]);
            let h = le_value(hi);
            let x = a@[f as int] as nat;
            assert(p * (x + 10 * h) >= 10 * p) by (nonlinear_arith)
                requires
                    h >= 1,
                    p >= 1,
            ;
        }
        return true;
    }
    proof {
        assert forall|i: int| 0 <= i < hi.len() implies #[trigger] hi[i] == 0 by {
            assert(hi[i] == a@[i + f + 1]);
        }
        assert(le_value(hi) == 0);
        assert(le_value(a@) == le_value(lo) + p * a@[f as int]);
    }
    let top = a[f];
    if top >= 2 {
        proof {
            let x = top as nat;
            assert(p * x >= 2 * p) by (nonlinear_arith)
                requires
                    x >= 2,
            ;
        }
        return true;
    }
    assert(a@[f as int] == top);
    if top == 0 {
        let ghost x = a@[f as int] as nat;
        assert(p * x == 0) by (nonlinear_arith)
            requires
                x == 0,
        ;
        return false;
    }
    let ghost x1 = a@[f as int] as nat;
    assert(p * x1 == p) by (nonlinear_arith)
        requires
            x1 == 1,
    ;
    let low = any_nonzero(a, 0, f);
    proof {
        if low {
            let j = choose|j: int| 0 <= j < f && a@[j] != 0;
            assert(lo[j] == a@[j]);
        } else {
            assert forall|i: int| 0 <= i < lo.len() implies #[trigger] lo[i] == 0 by {
                assert(lo[i] == a@[i]);
            }
        }
    }
    low
}

/// Multiplies a number held in little-endian decimal digits by `2^k`.
fn times_pow2(v: Vec<u8>, k: u32) -> (out: Vec<u8>)
    requires
        small_digits(v@),
    ensures
        small_digits(out@),
        le_value(out@) == le_value(v@) * pow2(k as nat),
{
    let mut a = v;
    proof {
        assert(pow2(0) == 1) by {
            vstd::arithmetic::power2::lemma2_to64();
        }
    }
    let mut i: u32 = 0;
    while i < k
        invariant
            i <= k,
            small_digits(a@),
            le_value(a@) == le_value(v@) * pow2(i as nat),
        decreases k - i,
    {
        a = double_digits(&a);
        proof {
            lemma_pow2_unfold((i + 1) as nat);
            let d = le_value(v@);
            let q = pow2(i as nat);
            assert(2 * (d * q) == d * (2 * q)) by (nonlinear_arith);
        }
        i = i + 1;
    }
    a
}

/// Whether `digits * 2^k` exceeds `10^f`, for a run of ASCII digits.
pub fn digits_times_pow2_exceed(digits: &[char], k: u32, f: usize) -> (b: bool)
    requires
        all_digits(digits@),
    ensures
        b == (digits_value(digits@) * pow2(k as nat) > pow10(f as nat)),
{
    let a = le_digits(digits);
    proof {
        lemma_le_of(digits@);
    }
    let a = times_pow2(a, k);
    exceeds_pow10(&a, f)
}

/// The little-endian decimal digits of `x`.
fn u64_digits(x: u64) -> (out: Vec<u8>)
    ensures
        small_digits(out@),
        le_value(out@) == x,
{
    let mut out: Vec<u8> = Vec::new();
    let mut r: u64 = x;
    proof {
        assert(pow10(0) == 1);
        assert(le_value(out@) == 0);
    }
    while r > 0
        invariant
            small_digits(out@),
            le_value(out@) + pow10(out@.len()) * r == x,
        decreases r,
    {
        let d: u8 = (r % 10) as u8;
        proof {
            let p = pow10(out@.len());
            lemma_le_push(out@, d);
            assert(pow10(out@.len() + 1) == 10 * p);
            assert(p * r == p * d + (10 * p) * (r / 10)) by (nonlinear_arith)
                requires
                    d == r % 10,
            ;
        }
        out.push(d);
        r = r / 10;
    }
    out
}

/// `a` with `f` zeros put below it: its value times `10^f`.
fn shift_up(a: &Vec<u8>, f: usize) -> (out: Vec<u8>)
    requires
        small_digits(a@),
    ensures
        small_digits(out@),
        le_value(out@) == pow10(f as nat) * le_value(a@),
{
    let mut out: Vec<u8> = Vec::new();
    let mut i: usize = 0;
    while i < f
        invariant
            i <= f,
            out@.len() == i,
            forall|j: int| 0 <= j < i ==> #[trigger] out@[j] == 0,
        decreases f - i,
    {
        out.push(0);
        i = i + 1;
    }
    let ghost zeros = out@;
    let mut j: usize = 0;
    while j < a.len()
        invariant
            j <= a@.len(),
            small_digits(a@),
            out@ == zeros + a@.take(j as int),
            zeros.len() == f,
            forall|m: int| 0 <= m < zeros.len() ==> #[trigger] zeros[m] == 0,
        decreases a@.len() - j,
    {
        assert(a@.take(j + 1) =~= a@.take(j as int).push(a@[j as int]));
        out.push(a[j]);
        j = j + 1;
    }
    proof {
        assert(a@.take(j as int) =~= a@);
        lemma_le_concat(zeros, a@);
        lemma_le_zero(zeros);
        assert forall|m: int| 0 <= m < out@.len() implies #[trigger] out@[m] <= 9 by {
            if m >= f {
                assert(out@[m] == a@[m - f]);
            }
        }
    }
    out
}

/// `a` with zeros put above it up to length `n`: the same value.
fn pad_to(a: &Vec<u8>, n: usize) -> (out: Vec<u8>)
    requires
        small_digits(a@),
        a@.len() <= n,
    ensures
        small_digits(out@),
        out@.len() == n,
        le_value(out@) == le_value(a@),
{
    let mut out: Vec<u8> = a.clone();
    let ghost orig = a@;
    while out.len() < n
        invariant
            out@.len() <= n,
            orig.len() <= out@.len(),
            out@.take(orig.len() as int) == orig,
            small_digits(out@),
            le_value(out@) == le_value(orig),
        decreases n - out@.len(),
    {
        proof {
            lemma_le_push(out@, 0);
        }
        out.push(0);
        assert(out@.take(orig.len() as int) =~= orig);
    }
    out
}

/// The value of the digits from place `i` up, and that of those from `i + 1`.
proof fn lemma_le_skip(s: Seq<u8>, i: int)
    requires
        0 <= i < s.len(),
    ensures
        le_value(s.skip(i)) == s[i] + 10 * le_value(s.skip(i + 1)),
{
    assert(s.skip(i).drop_first() =~= s.skip(i + 1));
}

/// The value splits at place `i` into what lies below and what lies from `i` up.
proof fn lemma_le_split(s: Seq<u8>, i: int)
    requires
        0 <= i <= s.len(),
        small_digits(s),
    ensures
        le_value(s) == le_value(s.take(i)) + pow10(i as nat) * le_value(s.skip(i)),
        le_value(s.take(i)) < pow10(i as nat),
{
    assert(s =~= s.take(i) + s.skip(i));
    lemma_le_concat(s.take(i), s.skip(i));
    assert(small_digits(s.take(i))) by {
        assert forall|m: int| 0 <= m < s.take(i).len() implies #[trigger] s.take(i)[m] <= 9 by {
            assert(s.take(i)[m] == s[m]);
        }
    }
    lemma_le_below(s.take(i));
}

/// Whether the number held in `a` is below that held in `b` (little-endian digits).
fn le_less(a: &Vec<u8>, b: &Vec<u8>) -> (r: bool)
    requires
        small_digits(a@),
        small_digits(b@),
    ensures
        r == (le_value(a@) < le_value(b@)),
{
    let n = if a.len() < b.len() { b.len() } else { a.len() };
    let x = pad_to(a, n);
    let y = pad_to(b, n);
    let mut i: usize = n;
    proof {
        assert(x@.skip(n as int) =~= Seq::<u8>::empty());
        assert(y@.skip(n as int) =~= Seq::<u8>::empty());
    }
    while i > 0
        invariant
            i <= n,
            x@.len() == n,
            y@.len() == n,
            small_digits(x@),
            small_digits(y@),
            le_value(x@) == le_value(a@),
            le_value(y@) == le_value(b@),
            le_value(x@.skip(i as int)) == le_value(y@.skip(i as int)),
        decreases i,
    {
        let j = i - 1;
        proof {
            lemma_le_skip(x@, j as int);
            lemma_le_skip(y@, j as int);
        }
        if x[j] != y[j] {
            proof {
                lemma_le_split(x@, j as int);
                lemma_le_split(y@, j as int);
                let p = pow10(j as nat);
                let hx = le_value(x@.skip(j as int));
                let hy = le_value(y@.skip(j as int));
                let lx = le_value(x@.take(j as int));
                let ly = le_value(y@.take(j as int));
                if hx < hy {
                    assert(lx + p * hx < ly + p * hy) by (nonlinear_arith)
                        requires
                            lx < p,
                            hx + 1 <= hy,
                            ly >= 0,
                    ;
                } else {
                    assert(ly + p * hy < lx + p * hx) by (nonlinear_arith)
                        requires
                            ly < p,
                            hy + 1 <= hx,
                            lx >= 0,
                    ;
                }
            }
            return x[j] < y[j];
        }
        i = j;
    }
    proof {
        assert(x@.skip(0) =~= x@);
        assert(y@.skip(0) =~= y@);
    }
    false
}

/// Whether a run of ASCII digits with `f` of them after the point stands below
/// `2^1024 - 2^970`, from which on the nearest double-precision float is infinite.
pub fn digits_below_double_overflow(digits: &[char], f: usize) -> (b: bool)
    requires
        all_digits(digits@),
    ensures
        b == (digits_value(digits@) < (pow2(1024) - pow2(970)) * pow10(f as nat)),
{
    let a = le_digits(digits);
    proof {
        lemma_le_of(digits@);
    }
    let top = u64_digits(18014398509481983);
    let limit = times_pow2(top, 970);
    let scaled = shift_up(&limit, f);
    proof {
        vstd::arithmetic::power2::lemma2_to64();
        vstd::arithmetic::power2::lemma2_to64_rest();
        vstd::arithmetic::power2::lemma_pow2_adds(54, 970);
        let q = pow2(970);
        let t = pow2(54);
        assert(t == 18014398509481984);
        assert(18014398509481983 * q == t * q - q) by (nonlinear_arith)
            requires
                t == 18014398509481984,
        ;
        let c = 18014398509481983 * q;
        let p = pow10(f as nat);
        assert(p * c == c * p) by (nonlinear_arith);
    }
    le_less(&a, &scaled)
}

} // verus!
