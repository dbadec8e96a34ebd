//! Laws of rounding.
use vstd::prelude::*;
use vstd::arithmetic::power2::{lemma2_to64, lemma_pow2_pos, lemma_pow2_unfold, pow2};
use crate::laws::number::digit;
use crate::number::decimal;
use crate::rounding::{
    divide_half_even, half_even, percent, percentage, push_one_decimal, quotient, round_to_double,
    scaled_up, spacing, to_double, DOUBLE_HALF, DOUBLE_LIMIT,
};

verus! {

/// How far a multiple of `d` is from `n`.
pub open spec fn gap(q: int, n: int, d: int) -> int {
    if q * d <= n {
        n - q * d
    } else {
        q * d - n
    }
}

/// Whether a whole number is the nearest to `n / d` and, where two are, the even one of them.
pub open spec fn nearest(q: int, n: int, d: int) -> bool {
    &&& 2 * gap(q, n, d) <= d
    &&& 2 * gap(q, n, d) == d ==> q % 2 == 0
}

/// Whether a number is the nearest to another of those with 53 significant bits and so many zeros
/// behind them, where the other has as many bits.
pub open spec fn nearest_with_zeros(r: int, n: int, zeros: nat) -> bool {
    let step = pow2(zeros) as int;
    &&& n < 0x20_0000_0000_0000 * step
    &&& zeros == 0 || 0x10_0000_0000_0000 * step <= n
    &&& r % step == 0
    &&& nearest(r / step, n, step)
}

/// Whether a number is the nearest to another that a double holds.
pub open spec fn nearest_double(r: int, n: int) -> bool {
    exists|zeros: nat| #[trigger] nearest_with_zeros(r, n, zeros)
}

/// Whether `a / b` has 53 significant bits and is the nearest to `n / d` of such: below the point `b` is
/// a power of two, above it `a` is a multiple of one.
pub open spec fn nearest_fraction(a: int, b: int, n: int, d: int, shift: int) -> bool {
    if n == 0 {
        a == 0 && b == 1
    } else if shift >= 0 {
        let scale = pow2(shift as nat) as int;
        &&& b == scale
        &&& 0x10_0000_0000_0000 * d <= n * scale < 0x20_0000_0000_0000 * d
        &&& nearest(a, n * scale, d)
    } else {
        let scale = pow2((-shift) as nat) as int;
        &&& b == 1
        &&& 0x10_0000_0000_0000 * (scale * d) <= n < 0x20_0000_0000_0000 * (scale * d)
        &&& a % scale == 0
        &&& nearest(a / scale, n, scale * d)
    }
}

proof fn lemma_nearest(n: nat, d: nat)
    requires
        d > 0,
    ensures
        nearest(half_even(n, d) as int, n as int, d as int),
{
    let q = n / d;
    let r = n % d;
    assert(q * d + r == n && r < d) by (nonlinear_arith)
        requires
            q == n / d,
            r == n % d,
            d > 0,
    ;
    assert((q + 1) * d == q * d + d) by (nonlinear_arith);
}

proof fn lemma_spacing(n: nat) -> (zeros: nat)
    ensures
        spacing(n) == pow2(zeros),
        n < 0x20_0000_0000_0000 * pow2(zeros),
        zeros == 0 || 0x10_0000_0000_0000 * pow2(zeros) <= n,
    decreases n,
{
    lemma2_to64();
    if n < DOUBLE_LIMIT {
        0
    } else {
        let zeros = lemma_spacing(n / 2);
        lemma_pow2_unfold(zeros + 1);
        zeros + 1
    }
}

pub proof fn lemma_to_double(n: nat)
    ensures
        nearest_double(to_double(n) as int, n as int),
{
    let zeros = lemma_spacing(n);
    lemma_pow2_pos(zeros);
    let step = spacing(n);
    let units = half_even(n, step);
    lemma_nearest(n, step);
    assert((units * step) % step == 0 && (units * step) / step == units)
        by (nonlinear_arith)
        requires
            step > 0,
    ;
    assert(nearest_with_zeros(to_double(n) as int, n as int, zeros));
}

/// A quotient is the nearest whole number and, where two are, the even one.
pub proof fn law_quotients_are_nearest(n: u128, d: u128, q: u128)
    requires
        d > 0,
        call_ensures(divide_half_even, (n, d), q),
    ensures
        nearest(q as int, n as int, d as int),
{
    lemma_nearest(n as nat, d as nat);
}

/// A whole number becomes the nearest one that a double holds: itself below 2 to the 53, and never more
/// than half a step away from there on.
pub proof fn law_doubles_are_nearest(n: u128, rounded: u128)
    requires
        n <= 0x1_0000_0000_0000_0000_0000_0000,
        call_ensures(round_to_double, (n,), rounded),
    ensures
        nearest_double(rounded as int, n as int),
        n < 0x20_0000_0000_0000 ==> rounded == n,
{
    lemma_to_double(n as nat);
    lemma_small_doubles(n as nat);
}

pub proof fn lemma_small_doubles(n: nat)
    ensures
        n < 0x20_0000_0000_0000 ==> to_double(n) == n,
{
    if n < DOUBLE_LIMIT {
        assert(n / 1 == n && n % 1 == 0);
        assert(half_even(n, 1) == n);
        assert(spacing(n) == 1);
        assert(n * 1 == n) by (nonlinear_arith);
    }
}

proof fn lemma_scaled_up(n: nat, d: nat) -> (shift: nat)
    requires
        d > 0,
        0 < n < DOUBLE_LIMIT * d,
    ensures
        scaled_up(n, d).1 == pow2(shift),
        0x10_0000_0000_0000 * d <= n * pow2(shift) < 0x20_0000_0000_0000 * d,
        scaled_up(n, d).0 == half_even(n * pow2(shift), d),
    decreases (if n < DOUBLE_HALF * d { DOUBLE_HALF * d - n } else { 0 }),
{
    lemma2_to64();
    if n >= DOUBLE_HALF * d {
        assert(n * 1 == n);
        0
    } else {
        let shift = lemma_scaled_up(2 * n, d);
        lemma_pow2_unfold(shift + 1);
        let power = pow2(shift);
        assert((2 * n) * power == n * (2 * power)) by (nonlinear_arith);
        shift + 1
    }
}

proof fn lemma_large_quotient(n: nat, d: nat) -> (shift: nat)
    requires
        d > 0,
        n >= DOUBLE_LIMIT * d,
    ensures
        shift > 0,
        quotient(n, d).1 == 1,
        0x10_0000_0000_0000 * (pow2(shift) * d) <= n < 0x20_0000_0000_0000 * (pow2(shift) * d),
        quotient(n, d).0 == pow2(shift) * half_even(n, pow2(shift) * d),
    decreases n - DOUBLE_LIMIT * d,
{
    lemma2_to64();
    let twice = 2 * d;
    if n >= DOUBLE_LIMIT * twice {
        let shift = lemma_large_quotient(n, twice);
        lemma_pow2_unfold(shift + 1);
        let power = pow2(shift);
        assert(power * (2 * d) == (2 * power) * d) by (nonlinear_arith);
        let units = half_even(n, power * twice);
        assert(2 * (power * units) == (2 * power) * units) by (nonlinear_arith);
        shift + 1
    } else {
        assert(n >= DOUBLE_HALF * twice);
        assert(quotient(n, twice) == scaled_up(n, twice));
        assert(scaled_up(n, twice) == (half_even(n, twice), 1nat));
        1
    }
}

/// Every quotient of two doubles is rounded to the nearest one.
pub proof fn lemma_quotient(n: nat, d: nat) -> (shift: int)
    requires
        d > 0,
    ensures
        nearest_fraction(
            quotient(n, d).0 as int,
            quotient(n, d).1 as int,
            n as int,
            d as int,
            shift,
        ),
{
    if n == 0 {
        assert(0nat / d == 0 && 0nat % d == 0) by (nonlinear_arith)
            requires
                d > 0,
        ;
        assert(0 < DOUBLE_LIMIT * d);
        0
    } else if n < DOUBLE_LIMIT * d {
        let shift = lemma_scaled_up(n, d);
        lemma_nearest(n * pow2(shift), d);
        shift as int
    } else {
        let shift = lemma_large_quotient(n, d);
        lemma_pow2_pos(shift);
        let scale = pow2(shift);
        assert(scale * d > 0) by (nonlinear_arith)
            requires
                scale > 0,
                d > 0,
        ;
        let units = half_even(n, scale * d);
        lemma_nearest(n, scale * d);
        assert((scale * units) % scale == 0 && (scale * units) / scale == units)
            by (nonlinear_arith)
            requires
                scale > 0,
        ;
        -(shift as int)
    }
}

/// Whether a percentage comes of its steps: the part and the whole as doubles, their quotient as a
/// double, a hundred times that as a double, and the nearest whole number.
pub open spec fn comes_of(
    rounded: int,
    part: int,
    whole: int,
    top: int,
    bottom: int,
    a: int,
    b: int,
    shift: int,
    hundredfold: int,
) -> bool {
    &&& nearest_double(top, part)
    &&& nearest_double(bottom, whole)
    &&& nearest_fraction(a, b, top, bottom, shift)
    &&& nearest_double(hundredfold, 100 * a)
    &&& nearest(rounded, hundredfold, b)
}

/// A percentage is the quotient of the part and the whole, times a hundred, rounded at every step to
/// the nearest double and at last to the nearest whole number; nothing of nothing is zero.
pub proof fn law_percentages_are_nearest(part: u64, whole: u64, rounded: u128)
    requires
        call_ensures(percent, (part, whole), rounded),
    ensures
        whole == 0 ==> rounded == 0,
        whole > 0 ==> exists|top: int, bottom: int, a: int, b: int, shift: int, hundredfold: int| #[trigger]
            comes_of(
                rounded as int,
                part as int,
                whole as int,
                top,
                bottom,
                a,
                b,
                shift,
                hundredfold,
            ),
{
    if whole > 0 {
        let top = to_double(part as nat);
        let bottom = to_double(whole as nat);
        lemma_to_double(part as nat);
        lemma_to_double(whole as nat);
        lemma_positive(whole as nat);
        let (a, b) = quotient(top, bottom);
        let shift = lemma_quotient(top, bottom);
        lemma_to_double(100 * a);
        if shift >= 0 {
            lemma_pow2_pos(shift as nat);
        }
        lemma_nearest(to_double(100 * a), b);
        assert(comes_of(
            rounded as int,
            part as int,
            whole as int,
            top as int,
            bottom as int,
            a as int,
            b as int,
            shift,
            to_double(100 * a) as int,
        ));
    }
}

proof fn lemma_positive(n: nat)
    requires
        n > 0,
    ensures
        to_double(n) > 0,
{
    let zeros = lemma_spacing(n);
    lemma_pow2_pos(zeros);
    lemma2_to64();
    let step = spacing(n);
    let q = n / step;
    assert(q >= 1) by (nonlinear_arith)
        requires
            q == n / step,
            0 < step <= n,
    ;
    let units = half_even(n, step);
    assert(units * step > 0) by (nonlinear_arith)
        requires
            units >= 1,
            step >= 1,
    ;
}

/// Whether a text is `n / d` with one digit behind the point: the nearest tenth.
pub open spec fn is_amount(text: Seq<char>, n: int, d: int) -> bool {
    exists|tenths: int| #[trigger]
        nearest(tenths, 10 * n, d) && text == decimal((tenths / 10) as nat) + "."@ + seq![
            digit(tenths % 10),
        ]
}

pub proof fn lemma_one_decimal(n: nat, d: nat)
    requires
        d > 0,
    ensures
        is_amount(crate::rounding::one_decimal(n, d), n as int, d as int),
{
    lemma_nearest(10 * n, d);
    let tenths = half_even(10 * n, d) as int;
    assert(nearest(tenths, 10 * n as int, d as int));
}

/// An amount is written with one digit behind the point, as the nearest tenth, behind a text that
/// stays.
pub proof fn law_amounts_are_written_in_tenths(text: &mut String, n: u128, d: u128)
    requires
        d > 0,
        n <= 0x1_0000_0000_0000_0000_0000_0000,
        call_ensures(push_one_decimal, (text, n, d), ()),
    ensures
        final(text)@.len() >= old(text)@.len(),
        final(text)@.take(old(text)@.len() as int) == old(text)@,
        is_amount(final(text)@.skip(old(text)@.len() as int), n as int, d as int),
{
    lemma_one_decimal(n as nat, d as nat);
    let amount = crate::rounding::one_decimal(n as nat, d as nat);
    assert(final(text)@.take(old(text)@.len() as int) =~= old(text)@);
    assert(final(text)@.skip(old(text)@.len() as int) =~= amount);
}

} // verus!
