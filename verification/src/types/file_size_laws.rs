use vstd::prelude::*;
use crate::text::{
    all_digits, count_char, dec, digits_value, index_of, is_digit, is_ws, lead_ws,
    lemma_dec_digits, lemma_index_of_unique, lemma_lead_ws_from, lemma_trail_ws_from, trail_ws,
    trim, trim_end, trim_start, upper, upper_seq,
};
use crate::types::file_size::{
    bytes_per_gb, bytes_per_gib, bytes_per_kb, bytes_per_kib, bytes_per_mb, bytes_per_mib,
    candidate, candidate_suffix, float_error, is_num_char, num_chars, parse_size, sat_mul,
    size_from_parts, size_text, size_text_from, unit_chars, unit_upper, whole_digits, whole_value,
};
use crate::unicode::ascii_text;

verus! {

/// The first display unit from the `k`-th on that divides `n` exactly, or -1.
pub open spec fn exact_unit(n: nat, k: nat) -> int
    decreases 6 - k,
{
    if k >= 6 {
        -1
    } else if n % candidate(k) == 0 {
        k as int
    } else {
        exact_unit(n, k + 1)
    }
}

proof fn lemma_exact_unit_range(n: nat, k: nat)
    ensures
        exact_unit(n, k) >= 0 ==> k <= exact_unit(n, k) < 6 && n % candidate(exact_unit(n, k) as nat) == 0,
    decreases 6 - k,
{
    if k < 6 && n % candidate(k) != 0 {
        lemma_exact_unit_range(n, k + 1);
    }
}

/// The display text of a size shown exactly: a whole number of its first unit that
/// divides it, or plain bytes.
proof fn lemma_exact_text(n: nat, k: nat, fb: Option<(Seq<char>, nat)>)
    requires
        k <= 6,
        exact_unit(n, k) < 0 ==> fb is None && forall|j: nat| k <= j < 6 ==> n < #[trigger] candidate(j),
    ensures
        size_text_from(n, k, fb) == if exact_unit(n, k) >= 0 {
            dec(n / candidate(exact_unit(n, k) as nat)) + candidate_suffix(exact_unit(n, k) as nat)
        } else {
            dec(n) + "B"@
        },
    decreases 6 - k,
{
    if k < 6 && n % candidate(k) != 0 {
        let fb2 = if n >= candidate(k) && fb.is_none() {
            Some((crate::types::file_size::two_decimals(n, candidate(k)), k))
        } else {
            fb
        };
        if exact_unit(n, k) < 0 {
            assert(n < candidate(k));
        }
        lemma_exact_text(n, k + 1, fb2);
    }
}

proof fn lemma_num_chars_concat(a: Seq<char>, b: Seq<char>)
    ensures
        num_chars(a + b) == num_chars(a) + num_chars(b),
        unit_chars(a + b) == unit_chars(a) + unit_chars(b),
    decreases b.len(),
{
    if b.len() == 0 {
        assert(a + b =~= a);
        assert(num_chars(a) + num_chars(b) =~= num_chars(a));
        assert(unit_chars(a) + unit_chars(b) =~= unit_chars(a));
    } else {
        lemma_num_chars_concat(a, b.drop_last());
        assert((a + b).drop_last() =~= a + b.drop_last());
        assert((a + b).last() == b.last());
        assert(num_chars(a) + num_chars(b) =~= if is_num_char(b.last()) {
            (num_chars(a) + num_chars(b.drop_last())).push(b.last())
        } else {
            num_chars(a) + num_chars(b.drop_last())
        });
        assert(unit_chars(a) + unit_chars(b) =~= if !is_num_char(b.last()) {
            (unit_chars(a) + unit_chars(b.drop_last())).push(b.last())
        } else {
            unit_chars(a) + unit_chars(b.drop_last())
        });
    }
}

/// A text of number characters is all number, no unit.
proof fn lemma_all_num(s: Seq<char>)
    requires
        forall|i: int| 0 <= i < s.len() ==> is_num_char(#[trigger] s[i]),
    ensures
        num_chars(s) == s,
        unit_chars(s) == Seq::<char>::empty(),
    decreases s.len(),
{
    if s.len() > 0 {
        let t = s.drop_last();
        assert forall|i: int| 0 <= i < t.len() implies is_num_char(#[trigger] t[i]) by {
            assert(t[i] == s[i]);
        }
        assert(is_num_char(s.last()));
        lemma_all_num(t);
        assert(t.push(s.last()) =~= s);
    }
}

/// A text of other characters is all unit, no number.
proof fn lemma_all_unit(s: Seq<char>)
    requires
        forall|i: int| 0 <= i < s.len() ==> !is_num_char(#[trigger] s[i]),
    ensures
        num_chars(s) == Seq::<char>::empty(),
        unit_chars(s) == s,
    decreases s.len(),
{
    if s.len() > 0 {
        let t = s.drop_last();
        assert forall|i: int| 0 <= i < t.len() implies !is_num_char(#[trigger] t[i]) by {
            assert(t[i] == s[i]);
        }
        assert(!is_num_char(s.last()));
        lemma_all_unit(t);
        assert(t.push(s.last()) =~= s);
    }
}

proof fn lemma_digits_no_dot(s: Seq<char>)
    requires
        all_digits(s),
    ensures
        count_char(s, '.') == 0,
    decreases s.len(),
{
    if s.len() > 0 {
        assert(all_digits(s.drop_last())) by {
            assert forall|i: int| 0 <= i < s.drop_last().len() implies is_digit(#[trigger] s.drop_last()[i]) by {
                assert(s.drop_last()[i] == s[i]);
            }
        }
        assert(is_digit(s.last()));
        lemma_digits_no_dot(s.drop_last());
    }
}

/// Texts that differ at some place are different.
proof fn lemma_differ_at(a: Seq<char>, b: Seq<char>, i: int)
    requires
        0 <= i < a.len(),
        i < b.len(),
        a[i] != b[i],
    ensures
        a != b,
{
}

/// The display suffixes name their units when read back.
proof fn lemma_suffix_reads_back(q: nat, s: Seq<char>, unit: nat)
    requires
        q * unit <= u64::MAX,
        (s == "GiB"@ && unit == bytes_per_gib()) || (s == "GB"@ && unit == bytes_per_gb()) || (s
            == "MiB"@ && unit == bytes_per_mib()) || (s == "MB"@ && unit == bytes_per_mb()) || (s
            == "KiB"@ && unit == bytes_per_kib()) || (s == "KB"@ && unit == bytes_per_kb()) || (s
            == "B"@ && unit == 1),
    ensures
        parse_size(dec(q) + s) == Ok::<u64, Seq<char>>((q * unit) as u64),
{
    reveal_strlit("GiB");
    reveal_strlit("GB");
    reveal_strlit("MiB");
    reveal_strlit("MB");
    reveal_strlit("KiB");
    reveal_strlit("KB");
    reveal_strlit("B");
    reveal_strlit("KIB");
    reveal_strlit("MIB");
    reveal_strlit("GIB");
    let d = dec(q);
    lemma_dec_digits(q);
    let x = d + s;
    // No surrounding whitespace.
    assert(!is_ws(x[0]));
    assert(x.last() == s.last());
    assert(!is_ws(x.last()));
    lemma_lead_ws_from(x, 0);
    assert(trim_start(x) =~= x);
    lemma_trail_ws_from(x, 0);
    assert(trim_end(x) =~= x);
    assert(trim(x) == x);
    // Number and unit parts.
    assert forall|i: int| 0 <= i < d.len() implies is_num_char(#[trigger] d[i]) by {
        assert(is_digit(d[i]));
    }
    lemma_all_num(d);
    assert forall|i: int| 0 <= i < s.len() implies !is_num_char(#[trigger] s[i]) by {
    }
    lemma_all_unit(s);
    lemma_num_chars_concat(d, s);
    assert(num_chars(x) =~= d);
    assert(unit_chars(x) =~= s);
    // The number.
    lemma_digits_no_dot(d);
    if d == seq!['.'] {
        assert(is_digit(d[0]));
    }
    assert(float_error(d) is None);
    assert forall|j: int| 0 <= j < d.len() implies d[j] != '.' by {
        assert(is_digit(d[j]));
    }
    lemma_index_of_unique(d, '.', -1);
    assert(whole_digits(d) == d);
    assert(q <= q * unit) by (nonlinear_arith)
        requires
            unit >= 1,
    ;
    assert(whole_value(d) == q);
    // The unit in upper case.
    assert(ascii_text(s));
    let up = upper_seq(s);
    assert forall|i: int| 0 <= i < s.len() implies #[trigger] up[i] == upper(s[i]) by {
    }
    let v = whole_value(d) as nat;
    assert(v == q);
    assert(float_error(d) is None);
    if s == "GiB"@ {
        assert(up =~= "GIB"@);
        lemma_differ_at("GiB"@, "MiB"@, 0);
        lemma_differ_at("GiB"@, "KiB"@, 0);
        assert(unit == bytes_per_gib());
        lemma_differ_at("GIB"@, "KIB"@, 0);
        lemma_differ_at("GIB"@, "MIB"@, 0);
        assert(up != "B"@ && up.len() != 0 && up != "KB"@ && up != "MB"@ && up != "GB"@);
        assert(size_from_parts(d, s, up) == Ok::<u64, Seq<char>>(sat_mul(v, bytes_per_gib())));
    } else if s == "MiB"@ {
        assert(up =~= "MIB"@);
        lemma_differ_at("MiB"@, "KiB"@, 0);
        lemma_differ_at("MiB"@, "GiB"@, 0);
        assert(unit == bytes_per_mib());
        lemma_differ_at("MIB"@, "KIB"@, 0);
        assert(up != "B"@ && up.len() != 0 && up != "KB"@ && up != "MB"@);
        assert(size_from_parts(d, s, up) == Ok::<u64, Seq<char>>(sat_mul(v, bytes_per_mib())));
    } else if s == "KiB"@ {
        assert(up =~= "KIB"@);
        lemma_differ_at("KiB"@, "MiB"@, 0);
        lemma_differ_at("KiB"@, "GiB"@, 0);
        assert(unit == bytes_per_kib());
        assert(up != "B"@ && up.len() != 0 && up != "KB"@);
        assert(size_from_parts(d, s, up) == Ok::<u64, Seq<char>>(sat_mul(v, bytes_per_kib())));
    } else if s == "GB"@ {
        assert(up =~= "GB"@);
        lemma_differ_at("GB"@, "MB"@, 0);
        lemma_differ_at("GB"@, "KB"@, 0);
        assert(unit == bytes_per_gb());
        lemma_differ_at("GB"@, "KB"@, 0);
        lemma_differ_at("GB"@, "MB"@, 0);
        assert(up != "B"@ && up.len() != 0 && up != "KIB"@ && up != "MIB"@);
        assert(size_from_parts(d, s, up) == Ok::<u64, Seq<char>>(sat_mul(v, bytes_per_gb())));
    } else if s == "MB"@ {
        assert(up =~= "MB"@);
        lemma_differ_at("MB"@, "GB"@, 0);
        lemma_differ_at("MB"@, "KB"@, 0);
        assert(unit == bytes_per_mb());
        lemma_differ_at("MB"@, "KB"@, 0);
        assert(up != "B"@ && up.len() != 0 && up != "KIB"@);
        assert(size_from_parts(d, s, up) == Ok::<u64, Seq<char>>(sat_mul(v, bytes_per_mb())));
    } else if s == "KB"@ {
        assert(up =~= "KB"@);
        lemma_differ_at("KB"@, "GB"@, 0);
        lemma_differ_at("KB"@, "MB"@, 0);
        assert(unit == bytes_per_kb());
        assert(up != "B"@ && up.len() != 0);
        assert(size_from_parts(d, s, up) == Ok::<u64, Seq<char>>(sat_mul(v, bytes_per_kb())));
    } else {
        assert(up =~= "B"@);
        assert(q * unit == q);
        assert(size_from_parts(d, s, up) == Ok::<u64, Seq<char>>(v as u64));
    }
    assert(unit_upper(s) == up);
    assert(sat_mul(q, unit) == (q * unit) as u64);
    assert(parse_size(x) == size_from_parts(d, s, up));
}

/// A unit from the `k`-th on that divides `n` makes `exact_unit` find one.
proof fn lemma_exact_unit_found(n: nat, k: nat, j: nat)
    requires
        k <= j < 6,
        n % candidate(j) == 0,
    ensures
        exact_unit(n, k) >= 0,
    decreases j - k,
{
    if k < j && n % candidate(k) != 0 {
        lemma_exact_unit_found(n, k + 1, j);
    }
}

/// A size shown exactly (bytes below a kilobyte, or a whole number of a unit that
/// divides it) reads back as itself.
proof fn lemma_exact_round_trip(n: u64)
    requires
        n < 1000 || exact_unit(n as nat, 0) >= 0,
    ensures
        parse_size(size_text(n as nat)) == Ok::<u64, Seq<char>>(n),
{
    let m = exact_unit(n as nat, 0);
    lemma_exact_unit_range(n as nat, 0);
    if m < 0 {
        assert forall|j: nat| 0 <= j < 6 implies n < #[trigger] candidate(j) by {
        }
    }
    lemma_exact_text(n as nat, 0, None);
    if m >= 0 {
        let c = candidate(m as nat);
        let q = (n as nat) / c;
        vstd::arithmetic::div_mod::lemma_fundamental_div_mod(n as int, c as int);
        assert(q * c == n);
        lemma_suffix_reads_back(q, candidate_suffix(m as nat), c);
    } else {
        lemma_suffix_reads_back(n as nat, "B"@, 1);
    }
}

/// A size read back from its display text is the same size whenever the text shows
/// it exactly: when it is below a kilobyte (shown as bytes) or a whole number of
/// one of the six units (KB, KiB, MB, MiB, GB, GiB). (A size shown with decimals,
/// such as `1.5KiB`, reads back as its whole units only.)
pub proof fn lemma_size_display_round_trip(n: u64)
    requires
        n < 1000 || (n as nat) % bytes_per_kb() == 0 || (n as nat) % bytes_per_kib() == 0 || (n as nat) % bytes_per_mb() == 0
            || (n as nat) % bytes_per_mib() == 0 || (n as nat) % bytes_per_gb() == 0 || (n as nat) % bytes_per_gib() == 0,
    ensures
        parse_size(size_text(n as nat)) == Ok::<u64, Seq<char>>(n),
{
    if n >= 1000 {
        if (n as nat) % bytes_per_gib() == 0 {
            lemma_exact_unit_found(n as nat, 0, 0);
        } else if (n as nat) % bytes_per_gb() == 0 {
            lemma_exact_unit_found(n as nat, 0, 1);
        } else if (n as nat) % bytes_per_mib() == 0 {
            lemma_exact_unit_found(n as nat, 0, 2);
        } else if (n as nat) % bytes_per_mb() == 0 {
            lemma_exact_unit_found(n as nat, 0, 3);
        } else if (n as nat) % bytes_per_kib() == 0 {
            lemma_exact_unit_found(n as nat, 0, 4);
        } else {
            lemma_exact_unit_found(n as nat, 0, 5);
        }
    }
    lemma_exact_round_trip(n);
}

} // verus!
