use vstd::prelude::*;

use crate::text::{decimal, decimal_text, digit_char, digit_text};

verus! {

/// `a / b` rounded to the nearest integer, ties to the even one.
pub open spec fn round_half_even(a: nat, b: nat) -> nat
    recommends
        b > 0,
{
    let q = a / b;
    let r = a % b;
    if 2 * r < b {
        q
    } else if 2 * r > b {
        q + 1
    } else if q % 2 == 0 {
        q
    } else {
        q + 1
    }
}

/// The exponent of the highest power of two not above `m` (0 for `m` below 2).
pub open spec fn floor_log2(m: nat) -> nat
    decreases m,
{
    if m < 2 {
        0
    } else {
        1 + floor_log2(m / 2)
    }
}

pub open spec fn pow2(k: nat) -> nat
    decreases k,
{
    if k == 0 {
        1
    } else {
        2 * pow2((k - 1) as nat)
    }
}

/// For `1 <= n / d < 2^52`, the double nearest to `n / d` lies in `[2^e, 2^(e+1)]`
/// with `e = floor_log2(n / d)`, and is `M * 2^(e - 52)` for an integer `M`.
/// This is the factor `2^(52 - e)`.
pub open spec fn quotient_scale(n: nat, d: nat) -> nat {
    pow2((52 - floor_log2(n / d)) as nat)
}

/// The integer `M` of the double nearest to `n / d`: IEEE 754 division rounds
/// the exact quotient to the nearest representable value, ties to even.
pub open spec fn quotient_significand(n: nat, d: nat) -> nat {
    round_half_even(n * quotient_scale(n, d), d)
}

/// The digits that `{:.k}` prints for the double `n as f64 / d as f64`, where
/// `ten == 10^k`: the exact value of the double, scaled by `ten`, rounded to
/// the nearest integer with ties to even.
pub open spec fn printed_digits(n: nat, d: nat, ten: nat) -> nat {
    round_half_even(quotient_significand(n, d) * ten, quotient_scale(n, d))
}

/// Text of a number printed with one decimal, from its digits scaled by ten.
pub open spec fn one_decimal(digits: nat) -> Seq<char> {
    decimal(digits / 10) + seq!['.', digit_char(digits % 10)]
}

/// The label shown for a viewer count: `{:.1}M` of `n / 10^6` from a million
/// on, `{:.0}K` of `n / 1000` from ten thousand on, `{:.1}K` of `n / 1000` from
/// a thousand on, and the plain number below.
pub open spec fn viewer_label(n: nat) -> Seq<char> {
    if n >= 1_000_000 {
        one_decimal(printed_digits(n, 1_000_000, 10)).push('M')
    } else if n >= 10_000 {
        decimal(printed_digits(n, 1000, 1)).push('K')
    } else if n >= 1000 {
        one_decimal(printed_digits(n, 1000, 10)).push('K')
    } else {
        decimal(n)
    }
}

proof fn lemma_pow2_monotone(i: nat, j: nat)
    requires
        i <= j,
    ensures
        pow2(i) <= pow2(j),
    decreases j,
{
    if i < j {
        lemma_pow2_monotone(i, (j - 1) as nat);
    }
}

proof fn lemma_floor_log2_below(m: nat, k: nat)
    requires
        k >= 1,
        m < pow2(k),
    ensures
        floor_log2(m) < k,
    decreases k,
{
    if m >= 2 {
        assert(m / 2 < pow2((k - 1) as nat));
        if k - 1 == 0 {
            assert(pow2(0) == 1);
        } else {
            lemma_floor_log2_below(m / 2, (k - 1) as nat);
        }
    }
}

proof fn lemma_pow2_values()
    ensures
        pow2(32) == 0x1_0000_0000,
        pow2(51) == 0x8_0000_0000_0000,
        pow2(52) == 0x10_0000_0000_0000,
{
    reveal_with_fuel(pow2, 53);
}

fn round_half_even_exec(a: u128, b: u128) -> (r: u128)
    requires
        0 < b,
        a < 0x8000_0000_0000_0000_0000_0000_0000_0000,
    ensures
        r == round_half_even(a as nat, b as nat),
{
    let q = a / b;
    let r = a % b;
    proof {
        vstd::arithmetic::div_mod::lemma_fundamental_div_mod(a as int, b as int);
        assert(q <= a) by (nonlinear_arith)
            requires
                a as int == b as int * q as int + r as int,
                b >= 1,
                r >= 0,
                q >= 0,
        ;
    }
    if 2 * r < b {
        q
    } else if 2 * r > b {
        q + 1
    } else if q % 2 == 0 {
        q
    } else {
        q + 1
    }
}

/// `floor_log2(m)`, for `m` of 32 bits.
fn floor_log2_exec(m: u32) -> (e: u32)
    ensures
        e == floor_log2(m as nat),
        e < 32,
{
    proof {
        lemma_pow2_values();
        lemma_floor_log2_below(m as nat, 32);
    }
    let mut q = m;
    let mut e: u32 = 0;
    while q >= 2
        invariant
            floor_log2(m as nat) == e + floor_log2(q as nat),
            floor_log2(m as nat) < 32,
        decreases q,
    {
        q = q / 2;
        e = e + 1;
    }
    e
}

/// `pow2(k)`, for `k` up to 52.
fn pow2_exec(k: u32) -> (p: u128)
    requires
        k <= 52,
    ensures
        p == pow2(k as nat),
        1 <= p <= 0x10_0000_0000_0000,
{
    proof {
        lemma_pow2_values();
    }
    let mut p: u128 = 1;
    let mut i: u32 = 0;
    while i < k
        invariant
            k <= 52,
            i <= k,
            p == pow2(i as nat),
            pow2(51) == 0x8_0000_0000_0000,
        decreases k - i,
    {
        proof {
            lemma_pow2_monotone(i as nat, 51);
        }
        p = p * 2;
        i = i + 1;
    }
    proof {
        lemma_pow2_monotone(k as nat, 52);
        lemma_pow2_monotone(0, k as nat);
    }
    p
}

/// The digits that `format!("{:.k}", n as f64 / d as f64)` prints, `ten == 10^k`.
fn printed_digits_exec(n: u32, d: u32, ten: u128) -> (r: u128)
    requires
        d >= 1000,
        n >= d,
        ten == 1 || ten == 10,
    ensures
        r == printed_digits(n as nat, d as nat, ten as nat),
{
    proof {
        vstd::arithmetic::div_mod::lemma_div_is_ordered(d as int, n as int, d as int);
        vstd::arithmetic::div_mod::lemma_div_by_self(d as int);
    }
    let e = floor_log2_exec(n / d);
    let scale = pow2_exec(52 - e);
    assert(scale == quotient_scale(n as nat, d as nat));
    assert(n as int * scale as int <= 0xffff_ffff * 0x10_0000_0000_0000) by (nonlinear_arith)
        requires
            n <= 0xffff_ffff,
            scale <= 0x10_0000_0000_0000,
    ;
    let num = n as u128 * scale;
    let sig = round_half_even_exec(num, d as u128);
    proof {
        vstd::arithmetic::div_mod::lemma_fundamental_div_mod(num as int, d as int);
        let q = num as int / d as int;
        assert(q <= num) by (nonlinear_arith)
            requires
                num as int == d as int * q + num as int % d as int,
                d >= 1,
                num as int % d as int >= 0,
                q >= 0,
        ;
    }
    let digits = round_half_even_exec(sig * ten, scale);
    digits
}

/// Text of `digits / 10` printed with one decimal.
fn one_decimal_text(digits: u128) -> (r: String)
    ensures
        r@ == one_decimal(digits as nat),
{
    let mut r = decimal_text(digits / 10);
    proof {
        reveal_strlit(".");
    }
    r.append(".");
    r.append(digit_text((digits % 10) as u8));
    assert(r@ =~= one_decimal(digits as nat));
    r
}

/// Short label for a live viewer count ("999", "1.2K", "15K", "1.5M").
pub fn format_viewers(n: u32) -> (r: String)
    ensures
        r@ == viewer_label(n as nat),
{
    if n >= 1_000_000 {
        let mut r = one_decimal_text(printed_digits_exec(n, 1_000_000, 10));
        proof {
            reveal_strlit("M");
        }
        r.append("M");
        assert(r@ =~= viewer_label(n as nat));
        r
    } else if n >= 10_000 {
        let mut r = decimal_text(printed_digits_exec(n, 1000, 1));
        proof {
            reveal_strlit("K");
        }
        r.append("K");
        assert(r@ =~= viewer_label(n as nat));
        r
    } else if n >= 1000 {
        let mut r = one_decimal_text(printed_digits_exec(n, 1000, 10));
        proof {
            reveal_strlit("K");
        }
        r.append("K");
        assert(r@ =~= viewer_label(n as nat));
        r
    } else {
        decimal_text(n as u128)
    }
}

} // verus!
