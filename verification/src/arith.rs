use vstd::prelude::*;
use crate::text::{digits_value, digit_value, all_digits};

verus! {

/// `10^n`.
pub open spec fn pow10(n: nat) -> nat
    decreases n,
{
    if n == 0 {
        1
    } else {
        10 * pow10((n - 1) as nat)
    }
}

pub proof fn lemma_pow10_pos(n: nat)
    ensures
        pow10(n) >= 1,
    decreases n,
{
    if n > 0 {
        lemma_pow10_pos((n - 1) as nat);
    }
}

proof fn lemma_mul_assoc_10(x: nat, p: nat)
    ensures
        (x * p) * 10 == x * (10 * p),
{
    assert((x * p) * 10 == x * (10 * p)) by (nonlinear_arith);
}

/// The value of a concatenation of digit strings.
pub proof fn lemma_digits_value_concat(a: Seq<char>, b: Seq<char>)
    ensures
        digits_value(a + b) == digits_value(a) * pow10(b.len()) + digits_value(b),
    decreases b.len(),
{
    if b.len() == 0 {
        assert(a + b == a);
        assert(pow10(0) == 1);
        assert(digits_value(b) == 0);
        assert(digits_value(a) * 1 == digits_value(a));
    } else {
        let b1 = b.drop_last();
        assert(digits_value(b) == digits_value(b1) * 10 + digit_value(b.last()));
        assert((a + b).drop_last() == a + b1);
        assert((a + b).last() == b.last());
        lemma_digits_value_concat(a, b1);
        let x = digits_value(a);
        let p = pow10(b1.len());
        assert(pow10(b.len()) == 10 * p);
        lemma_mul_assoc_10(x, p);
        assert(digits_value(a + b) == (x * p + digits_value(b1)) * 10 + digit_value(b.last()));
        assert((x * p + digits_value(b1)) * 10 == (x * p) * 10 + digits_value(b1) * 10)
            by (nonlinear_arith);
    }
}

/// The value of a digit string split after its first digit.
pub proof fn lemma_digits_value_front(s: Seq<char>)
    requires
        s.len() >= 1,
    ensures
        digits_value(s) == digit_value(s[0]) * pow10((s.len() - 1) as nat) + digits_value(
            s.drop_first(),
        ),
{
    let a = seq![s[0]];
    assert(a + s.drop_first() == s);
    lemma_digits_value_concat(a, s.drop_first());
    assert(a.drop_last() =~= Seq::<char>::empty());
    assert(digits_value(a.drop_last()) == 0);
    assert(digits_value(a) == digits_value(a.drop_last()) * 10 + digit_value(a.last()));
    assert(digits_value(a) == digit_value(s[0]));
}

/// `x / a / b == x / (a * b)`.
pub proof fn lemma_div_div(x: nat, a: nat, b: nat)
    requires
        a > 0,
        b > 0,
    ensures
        x / a / b == x / (a * b),
{
    vstd::arithmetic::div_mod::lemma_div_denominator(x as int, a as int, b as int);
}

/// `q + x / p == (q * p + x) / p`.
pub proof fn lemma_add_div(q: nat, x: nat, p: nat)
    requires
        p > 0,
    ensures
        q + x / p == (q * p + x) / p,
{
    vstd::arithmetic::div_mod::lemma_div_plus_one(0, 1);
    assert((q * p + x) / p == q + x / p) by {
        vstd::arithmetic::div_mod::lemma_fundamental_div_mod(x as int, p as int);
        vstd::arithmetic::div_mod::lemma_div_multiples_vanish_fancy(
            (q + x / p) as int,
            (x % p) as int,
            p as int,
        );
        assert(q * p + x == (q + x / p) * p + x % p) by (nonlinear_arith)
            requires
                x == p * (x / p) + x % p,
        ;
    }
}

/// `(2 * x) / (2 * y) == x / y`.
pub proof fn lemma_div_double(x: nat, y: nat)
    requires
        y > 0,
    ensures
        (2 * x) / (2 * y) == x / y,
{
    lemma_div_div(2 * x, 2, y);
    assert((2 * x) / 2 == x);
}

} // verus!
