//! Rounding in whole numbers, the way double-precision arithmetic rounds.
//!
//! A double holds 53 significant bits. Amounts of memory are whole numbers of bytes, so every
//! quantity that the program shows can be computed exactly and rounded where a double would be.
use vstd::prelude::*;
use crate::number::{decimal, digit_char, push_decimal};

verus! {

/// The least whole number with 54 significant bits: below it every whole number is a double.
pub const DOUBLE_LIMIT: u128 = 0x20_0000_0000_0000;

/// Half of [`DOUBLE_LIMIT`].
pub const DOUBLE_HALF: u128 = 0x10_0000_0000_0000;

/// The whole number nearest to `n / d`; of two that are equally near, the even one.
pub open spec fn half_even(n: nat, d: nat) -> nat {
    let q = n / d;
    let r = n % d;
    if 2 * r < d || (2 * r == d && q % 2 == 0) {
        q
    } else {
        q + 1
    }
}

/// The distance between neighbouring doubles at a whole number.
pub open spec fn spacing(n: nat) -> nat
    decreases n,
{
    if n < DOUBLE_LIMIT {
        1
    } else {
        2 * spacing(n / 2)
    }
}

/// The double nearest to a whole number.
pub open spec fn to_double(n: nat) -> nat {
    half_even(n, spacing(n)) * spacing(n)
}

/// The double nearest to `n / d`, as a fraction, where `n / d` is below [`DOUBLE_LIMIT`]: the
/// numerator is doubled until the quotient has 53 bits.
pub open spec fn scaled_up(n: nat, d: nat) -> (nat, nat)
    decreases if n < DOUBLE_HALF * d { DOUBLE_HALF * d - n } else { 0 },
{
    if n == 0 || n >= DOUBLE_HALF * d {
        (half_even(n, d), 1)
    } else {
        let (a, b) = scaled_up(2 * n, d);
        (a, 2 * b)
    }
}

/// The double nearest to `n / d`, as a fraction.
pub open spec fn quotient(n: nat, d: nat) -> (nat, nat)
    decreases if n >= DOUBLE_LIMIT * d { n - DOUBLE_LIMIT * d + 1 } else { 0 },
{
    if d > 0 && n >= DOUBLE_LIMIT * d {
        let (a, b) = quotient(n, 2 * d);
        (2 * a, b)
    } else {
        scaled_up(n, d)
    }
}

/// `n / d` as a percentage: the quotient, then a hundred times it, each rounded to a double, then
/// rounded to a whole number. Nothing of nothing is zero.
pub open spec fn percentage(n: nat, d: nat) -> nat {
    if d == 0 {
        0
    } else {
        let (a, b) = quotient(to_double(n), to_double(d));
        half_even(to_double(100 * a), b)
    }
}

/// `n / d` in decimal digits with one digit behind the point.
pub open spec fn one_decimal(n: nat, d: nat) -> Seq<char> {
    let tenths = half_even(10 * n, d);
    decimal(tenths / 10) + "."@ + seq![digit_char(tenths % 10)]
}

/// Divides and rounds to the nearest whole number, halves to the even one.
pub fn divide_half_even(n: u128, d: u128) -> (q: u128)
    requires
        d > 0,
    ensures
        q == half_even(n as nat, d as nat),
        q <= n,
{
    let q: u128 = n / d;
    let r: u128 = n % d;
    proof {
        assert(q <= n) by (nonlinear_arith)
            requires
                q == n / d,
                d > 0,
        ;
        assert(q * d + r == n) by (nonlinear_arith)
            requires
                q == n / d,
                r == n % d,
                d > 0,
        ;
        if r > 0 {
            assert(q < n) by (nonlinear_arith)
                requires
                    q * d + r == n,
                    r > 0,
                    d > 0,
            ;
        }
    }
    if r < d - r || (r == d - r && q % 2 == 0) {
        q
    } else {
        q + 1
    }
}

proof fn lemma_spacing_bounds(n: nat)
    ensures
        1 <= spacing(n),
        spacing(n) <= n || spacing(n) == 1,
    decreases n,
{
    if n >= DOUBLE_LIMIT {
        lemma_spacing_bounds(n / 2);
    }
}

/// Rounds a whole number to the nearest double.
pub fn round_to_double(n: u128) -> (rounded: u128)
    requires
        n <= 0x1_0000_0000_0000_0000_0000_0000,
    ensures
        rounded == to_double(n as nat),
        rounded <= 2 * n,
        n > 0 ==> rounded > 0,
{
    let mut step: u128 = 1;
    let mut rest: u128 = n;
    while rest >= DOUBLE_LIMIT
        invariant
            step >= 1,
            rest <= n,
            n <= 0x1_0000_0000_0000_0000_0000_0000,
            step * spacing(rest as nat) == spacing(n as nat),
            step * rest <= n,
        decreases rest,
    {
        let half: u128 = rest / 2;
        proof {
            let inner = spacing(half as nat);
            assert(step <= n && step * 2 * half <= n) by (nonlinear_arith)
                requires
                    step * rest <= n,
                    rest >= 1,
                    half <= rest / 2,
                    step >= 1,
            ;
            assert(step * (2 * inner) == (step * 2) * inner) by (nonlinear_arith);
        }
        rest = half;
        step = step * 2;
    }
    proof {
        lemma_spacing_bounds(n as nat);
        assert(step * 1 == step);
    }
    let units: u128 = divide_half_even(n, step);
    proof {
        lemma_half_even_bounds(n as nat, step as nat);
        assert(units * step <= n + step);
        assert(step <= n || step == 1);
        assert(step == 1 ==> units == n);
    }
    units * step
}

proof fn lemma_half_even_bounds(n: nat, d: nat)
    requires
        d > 0,
    ensures
        half_even(n, d) * d <= n + d,
        d <= n ==> half_even(n, d) * d > 0,
        d == 1 ==> half_even(n, d) == n,
{
    let q = n / d;
    let r = n % d;
    assert(q * d + r == n && r < d) by (nonlinear_arith)
        requires
            q == n / d,
            r == n % d,
            d > 0,
    ;
    assert((q + 1) * d == q * d + d) by (nonlinear_arith);
    if d <= n {
        assert(q >= 1) by (nonlinear_arith)
            requires
                q * d + r == n,
                r < d,
                d <= n,
        ;
        assert(q * d >= d) by (nonlinear_arith)
            requires
                q >= 1,
        ;
    }
    if d == 1 {
        assert(q == n && r == 0);
    }
}

/// Divides two doubles and rounds the quotient to a double, as a fraction.
fn divide_doubles(n: u128, d: u128) -> (fraction: (u128, u128))
    requires
        n <= 0x2_0000_0000_0000_0000,
        0 < d <= 0x2_0000_0000_0000_0000,
    ensures
        (fraction.0 as nat, fraction.1 as nat) == quotient(n as nat, d as nat),
        fraction.0 <= 0x1_0000_0000_0000_0000_0000,
        fraction.1 > 0,
{
    let mut bottom: u128 = d;
    let mut factor: u128 = 1;
    let ghost whole = quotient(n as nat, d as nat);
    while n >= DOUBLE_LIMIT * bottom
        invariant
            n <= 0x2_0000_0000_0000_0000,
            0 < bottom <= 0x2_0000_0000_0000_0000,
            d > 0,
            1 <= factor,
            factor * d == bottom,
            factor == 1 || DOUBLE_LIMIT * bottom <= 2 * n,
            whole.0 == factor * quotient(n as nat, bottom as nat).0,
            whole.1 == quotient(n as nat, bottom as nat).1,
        decreases 2 * n - DOUBLE_LIMIT * bottom,
    {
        proof {
            let inner = quotient(n as nat, (2 * bottom) as nat).0;
            assert(factor * (2 * inner) == (2 * factor) * inner) by (nonlinear_arith);
            assert((2 * factor) * d == 2 * bottom) by (nonlinear_arith)
                requires
                    factor * d == bottom,
            ;
            assert(factor <= bottom) by (nonlinear_arith)
                requires
                    factor * d == bottom,
                    d > 0,
            ;
        }
        bottom = bottom * 2;
        factor = factor * 2;
    }
    let mut top: u128 = n;
    let mut scale: u128 = 1;
    let ghost inner = scaled_up(n as nat, bottom as nat);
    while top != 0 && top < DOUBLE_HALF * bottom
        invariant
            n <= 0x2_0000_0000_0000_0000,
            0 < bottom <= 0x2_0000_0000_0000_0000,
            top < DOUBLE_LIMIT * bottom,
            1 <= scale,
            scale * n == top,
            n == 0 ==> scale == 1,
            inner.0 == scaled_up(top as nat, bottom as nat).0,
            inner.1 == scale * scaled_up(top as nat, bottom as nat).1,
        decreases DOUBLE_LIMIT * bottom - top,
    {
        proof {
            let b = scaled_up((2 * top) as nat, bottom as nat).1;
            assert(scale * (2 * b) == (2 * scale) * b) by (nonlinear_arith);
            assert((2 * scale) * n == 2 * top) by (nonlinear_arith)
                requires
                    scale * n == top,
            ;
            assert(scale <= top) by (nonlinear_arith)
                requires
                    scale * n == top,
                    top != 0,
            ;
        }
        top = top * 2;
        scale = scale * 2;
    }
    let mantissa: u128 = divide_half_even(top, bottom);
    proof {
        let q = half_even(top as nat, bottom as nat);
        lemma_half_even_bounds(top as nat, bottom as nat);
        assert(q <= DOUBLE_LIMIT + 1) by (nonlinear_arith)
            requires
                q * bottom <= top + bottom,
                top < DOUBLE_LIMIT * bottom,
                bottom > 0,
        ;
        assert(factor <= bottom) by (nonlinear_arith)
            requires
                factor * d == bottom,
                d > 0,
        ;
        assert(factor <= 0x1_0000);
        assert(factor * mantissa <= 0x1_0000 * (DOUBLE_LIMIT + 1)) by (nonlinear_arith)
            requires
                0 <= factor <= 0x1_0000,
                0 <= mantissa <= DOUBLE_LIMIT + 1,
        ;
        assert(scale * 1 == scale);
    }
    (factor * mantissa, scale)
}

/// A part of a whole as a percentage, rounded to a whole number.
pub fn percent(part: u64, whole: u64) -> (rounded: u128)
    ensures
        rounded == percentage(part as nat, whole as nat),
{
    if whole == 0 {
        return 0;
    }
    let top: u128 = round_to_double(part as u128);
    let bottom: u128 = round_to_double(whole as u128);
    let fraction: (u128, u128) = divide_doubles(top, bottom);
    let hundredfold: u128 = round_to_double(100 * fraction.0);
    divide_half_even(hundredfold, fraction.1)
}

/// Writes `n / d` with one digit behind the point.
pub fn push_one_decimal(text: &mut String, n: u128, d: u128)
    requires
        d > 0,
        n <= 0x1_0000_0000_0000_0000_0000_0000,
    ensures
        final(text)@ == old(text)@ + one_decimal(n as nat, d as nat),
{
    let tenths: u128 = divide_half_even(10 * n, d);
    push_decimal(text, tenths / 10);
    text.append(".");
    let digit: u8 = 48 + (tenths % 10) as u8;
    text.push(digit as char);
    assert(text@ =~= old(text)@ + one_decimal(n as nat, d as nat));
}

proof fn lemma_half_even_of_multiple(c: nat, d: nat)
    requires
        d > 0,
    ensures
        half_even(c * d, d) == c,
{
    assert((c * d) / d == c && (c * d) % d == 0) by (nonlinear_arith)
        requires
            d > 0,
    ;
}

proof fn lemma_half_even_is_monotonic(n: nat, m: nat, d: nat)
    requires
        n <= m,
        d > 0,
    ensures
        half_even(n, d) <= half_even(m, d),
{
    let q = n / d;
    let r = n % d;
    let p = m / d;
    let t = m % d;
    assert(q * d + r == n && r < d && p * d + t == m && t < d) by (nonlinear_arith)
        requires
            q == n / d,
            r == n % d,
            p == m / d,
            t == m % d,
            d > 0,
    ;
    assert(q <= p) by (nonlinear_arith)
        requires
            q * d + r == n,
            p * d + t == m,
            n <= m,
            t < d,
            r >= 0,
            d > 0,
    ;
    if q == p {
        assert(q * d == p * d);
    }
}

proof fn lemma_spacing_fits(n: nat)
    ensures
        n < DOUBLE_LIMIT * spacing(n),
        spacing(n) == 1 || DOUBLE_HALF * spacing(n) <= n,
    decreases n,
{
    if n >= DOUBLE_LIMIT {
        lemma_spacing_fits(n / 2);
    }
}

proof fn lemma_spacing_is_monotonic(n: nat, m: nat)
    requires
        n <= m,
    ensures
        spacing(n) == spacing(m) || 2 * spacing(n) <= spacing(m),
    decreases m,
{
    if n >= DOUBLE_LIMIT {
        lemma_spacing_is_monotonic(n / 2, m / 2);
    } else if m >= DOUBLE_LIMIT {
        lemma_spacing_bounds(m / 2);
    }
}

proof fn lemma_to_double_is_monotonic(n: nat, m: nat)
    requires
        n <= m,
    ensures
        to_double(n) <= to_double(m),
{
    let s = spacing(n);
    let t = spacing(m);
    lemma_spacing_bounds(n);
    lemma_spacing_bounds(m);
    lemma_spacing_fits(n);
    lemma_spacing_fits(m);
    lemma_spacing_is_monotonic(n, m);
    if s == t {
        lemma_half_even_is_monotonic(n, m, s);
        let a = half_even(n, s);
        let b = half_even(m, s);
        assert(a * s <= b * s) by (nonlinear_arith)
            requires
                a <= b,
        ;
    } else {
        let limit = DOUBLE_LIMIT as nat;
        let least = DOUBLE_HALF as nat;
        lemma_half_even_is_monotonic(n, limit * s, s);
        lemma_half_even_of_multiple(limit, s);
        lemma_half_even_is_monotonic(least * t, m, t);
        lemma_half_even_of_multiple(least, t);
        let a = half_even(n, s);
        let b = half_even(m, t);
        assert(a * s <= b * t) by (nonlinear_arith)
            requires
                a <= limit,
                least <= b,
                limit == 2 * least,
                2 * s <= t,
        ;
    }
}

proof fn lemma_doubling_is_exact(n: nat)
    ensures
        to_double(2 * n) == 2 * to_double(n),
{
    lemma_spacing_bounds(n);
    let s = spacing(n);
    if 2 * n >= DOUBLE_LIMIT {
        assert((2 * n) / 2 == n);
        let q = n / s;
        let r = n % s;
        assert(q * s + r == n && r < s) by (nonlinear_arith)
            requires
                q == n / s,
                r == n % s,
                s > 0,
        ;
        assert((2 * n) / (2 * s) == q && (2 * n) % (2 * s) == 2 * r) by (nonlinear_arith)
            requires
                q * s + r == n,
                0 <= r < s,
        {
            vstd::arithmetic::div_mod::lemma_fundamental_div_mod_converse(
                (2 * n) as int,
                (2 * s) as int,
                q as int,
                (2 * r) as int,
            );
        }
        assert(half_even(2 * n, 2 * s) == half_even(n, s));
        let a = half_even(n, s);
        assert(a * (2 * s) == 2 * (a * s)) by (nonlinear_arith);
    } else {
        lemma_half_even_of_multiple(n, 1);
        lemma_half_even_of_multiple(2 * n, 1);
    }
}

proof fn lemma_scaled_up(n: nat, d: nat, c: nat)
    requires
        d > 0,
    ensures
        scaled_up(n, d).1 > 0,
        to_double(100 * scaled_up(n, d).1) == 100 * scaled_up(n, d).1,
        n <= c * d ==> scaled_up(n, d).0 <= c * scaled_up(n, d).1,
        n == c * d ==> scaled_up(n, d).0 == c * scaled_up(n, d).1,
    decreases (if n < DOUBLE_HALF * d { DOUBLE_HALF * d - n } else { 0 }),
{
    if n == 0 || n >= DOUBLE_HALF * d {
        lemma_half_even_of_multiple(c, d);
        lemma_half_even_of_multiple(100, 1);
        assert(c * 1 == c);
        if n <= c * d {
            lemma_half_even_is_monotonic(n, c * d, d);
        }
    } else {
        let inner = scaled_up(2 * n, d);
        lemma_scaled_up(2 * n, d, 2 * c);
        lemma_doubling_is_exact(100 * inner.1);
        assert(100 * (2 * inner.1) == 2 * (100 * inner.1));
        assert((2 * c) * d == 2 * (c * d)) by (nonlinear_arith);
        assert((2 * c) * inner.1 == c * (2 * inner.1)) by (nonlinear_arith);
    }
}

proof fn lemma_to_double_is_positive(n: nat)
    requires
        n > 0,
    ensures
        to_double(n) > 0,
{
    lemma_to_double_is_monotonic(1, n);
    lemma_half_even_of_multiple(1, 1);
}

/// A part is never more than a hundred per cent of its whole, and the whole is exactly that.
pub proof fn law_percentages_end_at_hundred(n: nat, d: nat)
    requires
        n <= d,
    ensures
        percentage(n, d) <= 100,
        n == d && d > 0 ==> percentage(n, d) == 100,
{
    if d > 0 {
        let top = to_double(n);
        let bottom = to_double(d);
        lemma_to_double_is_monotonic(n, d);
        lemma_to_double_is_positive(d);
        assert(top < DOUBLE_LIMIT * bottom) by (nonlinear_arith)
            requires
                top <= bottom,
                bottom > 0,
        ;
        lemma_scaled_up(top, bottom, 1);
        let (a, b) = quotient(top, bottom);
        assert(1 * bottom == bottom && 1 * b == b);
        lemma_to_double_is_monotonic(100 * a, 100 * b);
        lemma_half_even_is_monotonic(to_double(100 * a), 100 * b, b);
        lemma_half_even_of_multiple(100, b);
    }
}

} // verus!
