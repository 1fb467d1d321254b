//! Decimal rendering.
//!
//! The explanation traces quote numbers in three shapes: the shortest exact
//! form (`12`, `12.5`), a fixed two-decimal form (`1050.00`), and rounded
//! whole or one-decimal forms for bracket bounds and percentages. Rounding
//! is half away from zero.

use vstd::prelude::*;

use crate::decimal::Decimal;
use crate::decimal::UNITS_PER_ONE;

verus! {

/// The digit character for `d` in `0 ..= 9`.
pub open spec fn spec_digit_char(d: int) -> char {
    if d == 0 {
        '0'
    } else if d == 1 {
        '1'
    } else if d == 2 {
        '2'
    } else if d == 3 {
        '3'
    } else if d == 4 {
        '4'
    } else if d == 5 {
        '5'
    } else if d == 6 {
        '6'
    } else if d == 7 {
        '7'
    } else if d == 8 {
        '8'
    } else {
        '9'
    }
}

/// Decimal digits of a positive number, empty for zero and below.
pub open spec fn spec_digits_rec(n: int) -> Seq<char>
    decreases n,
{
    if n <= 0 {
        Seq::<char>::empty()
    } else {
        spec_digits_rec(n / 10).push(spec_digit_char(n % 10))
    }
}

/// Decimal digits of a non-negative number; zero renders as `0`.
pub open spec fn spec_digits(n: int) -> Seq<char> {
    if n == 0 {
        seq!['0']
    } else {
        spec_digits_rec(n)
    }
}

/// Decimal rendering of an integer, with a leading minus sign if negative.
pub open spec fn spec_int_digits(n: int) -> Seq<char> {
    if n < 0 {
        seq!['-'] + spec_digits(-n)
    } else {
        spec_digits(n)
    }
}

/// The fractional digits of `f` units (`0 <= f < 10000`), without trailing
/// zeros; empty when `f` is zero.
pub open spec fn spec_frac_digits(f: int) -> Seq<char> {
    if f == 0 {
        Seq::<char>::empty()
    } else if f % 10 != 0 {
        seq![
            spec_digit_char(f / 1000),
            spec_digit_char((f / 100) % 10),
            spec_digit_char((f / 10) % 10),
            spec_digit_char(f % 10),
        ]
    } else if f % 100 != 0 {
        seq![
            spec_digit_char(f / 1000),
            spec_digit_char((f / 100) % 10),
            spec_digit_char((f / 10) % 10),
        ]
    } else if f % 1000 != 0 {
        seq![spec_digit_char(f / 1000), spec_digit_char((f / 100) % 10)]
    } else {
        seq![spec_digit_char(f / 1000)]
    }
}

/// Shortest exact rendering of `u` units: no point and no trailing zeros
/// when the value is whole.
pub open spec fn spec_shortest(u: int) -> Seq<char> {
    if u < 0 {
        seq!['-'] + spec_shortest_nonneg(-u)
    } else {
        spec_shortest_nonneg(u)
    }
}

/// Shortest exact rendering of a non-negative number of units.
pub open spec fn spec_shortest_nonneg(u: int) -> Seq<char> {
    if u % 10000 == 0 {
        spec_digits(u / 10000)
    } else {
        spec_digits(u / 10000) + seq!['.'] + spec_frac_digits(u % 10000)
    }
}

/// Two-decimal rendering of `u` units, rounded half away from zero.
pub open spec fn spec_fixed2(u: int) -> Seq<char> {
    if u < 0 {
        seq!['-'] + spec_fixed2_nonneg(-u)
    } else {
        spec_fixed2_nonneg(u)
    }
}

/// Two-decimal rendering of a non-negative number of units.
pub open spec fn spec_fixed2_nonneg(u: int) -> Seq<char> {
    spec_digits(((u + 50) / 100) / 100) + seq!['.'] + seq![
        spec_digit_char((((u + 50) / 100) / 10) % 10),
        spec_digit_char(((u + 50) / 100) % 10),
    ]
}

/// Whole-number rendering of `u` units, rounded half away from zero.
pub open spec fn spec_fixed0(u: int) -> Seq<char> {
    if u < 0 {
        seq!['-'] + spec_digits((-u + 5000) / 10000)
    } else {
        spec_digits((u + 5000) / 10000)
    }
}

/// One-decimal rendering of `u` units, rounded half away from zero.
pub open spec fn spec_fixed1(u: int) -> Seq<char> {
    if u < 0 {
        seq!['-'] + spec_fixed1_nonneg(-u)
    } else {
        spec_fixed1_nonneg(u)
    }
}

/// One-decimal rendering of a non-negative number of units.
pub open spec fn spec_fixed1_nonneg(u: int) -> Seq<char> {
    spec_digits(((u + 500) / 1000) / 10) + seq!['.'] + seq![
        spec_digit_char(((u + 500) / 1000) % 10),
    ]
}

/// One-decimal rendering of the percentage a rate of `u` units stands for.
pub open spec fn spec_rate_percent(u: int) -> Seq<char> {
    spec_fixed1(u * 100)
}

/// One-decimal rendering of the percentage `n / d` stands for, for
/// `0 <= n` and `0 < d`: `n * 1000 / d` tenths, rounded half up.
pub open spec fn spec_ratio_percent(n: int, d: int) -> Seq<char> {
    spec_digits(((n * 2000 + d) / (2 * d)) / 10) + seq!['.'] + seq![
        spec_digit_char(((n * 2000 + d) / (2 * d)) % 10),
    ]
}

/// Executable digit character.
pub fn digit_char(d: u8) -> (r: char)
    requires
        d < 10,
    ensures
        r == spec_digit_char(d as int),
{
    if d == 0 {
        '0'
    } else if d == 1 {
        '1'
    } else if d == 2 {
        '2'
    } else if d == 3 {
        '3'
    } else if d == 4 {
        '4'
    } else if d == 5 {
        '5'
    } else if d == 6 {
        '6'
    } else if d == 7 {
        '7'
    } else if d == 8 {
        '8'
    } else {
        '9'
    }
}

/// Appends the digits of a positive number; appends nothing for zero.
fn push_digits_rec(v: &mut Vec<char>, n: u128)
    ensures
        final(v)@ == old(v)@ + spec_digits_rec(n as int),
    decreases n,
{
    if n == 0 {
        return ;
    }
    push_digits_rec(v, n / 10);
    v.push(digit_char((n % 10) as u8));
}

/// Appends the decimal digits of `n`; zero appends `0`.
pub fn push_digits(v: &mut Vec<char>, n: u128)
    ensures
        final(v)@ == old(v)@ + spec_digits(n as int),
{
    if n == 0 {
        v.push('0');
        proof {
            assert(old(v)@.push('0') =~= old(v)@ + seq!['0']);
        }
    } else {
        push_digits_rec(v, n);
    }
}

/// Appends the decimal rendering of a signed whole number.
pub fn push_int(v: &mut Vec<char>, n: i128)
    requires
        n > i128::MIN,
    ensures
        final(v)@ == old(v)@ + spec_int_digits(n as int),
{
    if n < 0 {
        v.push('-');
        let m: u128 = (-n) as u128;
        push_digits(v, m);
        proof {
            assert(old(v)@.push('-') + spec_digits(m as int) =~= old(v)@ + (seq!['-']
                + spec_digits(-(n as int))));
        }
    } else {
        push_digits(v, n as u128);
    }
}

/// Appends the shortest exact rendering of `d`.
pub fn push_shortest(v: &mut Vec<char>, d: Decimal)
    requires
        d.units > i128::MIN,
    ensures
        final(v)@ == old(v)@ + spec_shortest(d.units as int),
{
    if d.units < 0 {
        v.push('-');
        push_shortest_nonneg(v, -d.units);
        proof {
            assert(old(v)@.push('-') + spec_shortest_nonneg(-(d.units as int)) =~= old(v)@ + (
            seq!['-'] + spec_shortest_nonneg(-(d.units as int))));
        }
    } else {
        push_shortest_nonneg(v, d.units);
    }
}

/// Appends the shortest exact rendering of a non-negative number of units.
fn push_shortest_nonneg(v: &mut Vec<char>, u: i128)
    requires
        0 <= u,
    ensures
        final(v)@ == old(v)@ + spec_shortest_nonneg(u as int),
{
    let whole: u128 = (u / UNITS_PER_ONE) as u128;
    let frac: u128 = (u % UNITS_PER_ONE) as u128;
    push_digits(v, whole);
    if frac != 0 {
        v.push('.');
        let ghost before = v@;
        let f: u8 = (frac / 1000) as u8;
        let g: u8 = ((frac / 100) % 10) as u8;
        let h: u8 = ((frac / 10) % 10) as u8;
        let k: u8 = (frac % 10) as u8;
        if k != 0 {
            v.push(digit_char(f));
            v.push(digit_char(g));
            v.push(digit_char(h));
            v.push(digit_char(k));
        } else if h != 0 {
            v.push(digit_char(f));
            v.push(digit_char(g));
            v.push(digit_char(h));
        } else if g != 0 {
            v.push(digit_char(f));
            v.push(digit_char(g));
        } else {
            v.push(digit_char(f));
        }
        proof {
            assert(v@ =~= old(v)@ + spec_shortest_nonneg(u as int));
        }
    } else {
        proof {
            assert(v@ =~= old(v)@ + spec_shortest_nonneg(u as int));
        }
    }
}

/// Appends the two-decimal rendering of `d`.
pub fn push_fixed2(v: &mut Vec<char>, d: Decimal)
    requires
        i128::MIN + 50 < d.units < i128::MAX - 50,
    ensures
        final(v)@ == old(v)@ + spec_fixed2(d.units as int),
{
    if d.units < 0 {
        v.push('-');
        push_fixed2_nonneg(v, -d.units);
        proof {
            assert(old(v)@.push('-') + spec_fixed2_nonneg(-(d.units as int)) =~= old(v)@ + (
            seq!['-'] + spec_fixed2_nonneg(-(d.units as int))));
        }
    } else {
        push_fixed2_nonneg(v, d.units);
    }
}

/// Appends the two-decimal rendering of a non-negative number of units.
fn push_fixed2_nonneg(v: &mut Vec<char>, u: i128)
    requires
        0 <= u,
        u + 50 <= i128::MAX,
    ensures
        final(v)@ == old(v)@ + spec_fixed2_nonneg(u as int),
{
    let cents: u128 = ((u + 50) / 100) as u128;
    push_digits(v, cents / 100);
    v.push('.');
    v.push(digit_char(((cents / 10) % 10) as u8));
    v.push(digit_char((cents % 10) as u8));
    proof {
        assert(v@ =~= old(v)@ + spec_fixed2_nonneg(u as int));
    }
}

/// Appends the rounded whole-number rendering of `d`.
pub fn push_fixed0(v: &mut Vec<char>, d: Decimal)
    requires
        i128::MIN + 5000 < d.units < i128::MAX - 5000,
    ensures
        final(v)@ == old(v)@ + spec_fixed0(d.units as int),
{
    if d.units < 0 {
        v.push('-');
        push_digits(v, ((-d.units + 5000) / UNITS_PER_ONE) as u128);
        proof {
            assert(old(v)@.push('-') + spec_digits((-(d.units as int) + 5000) / 10000) =~= old(
                v,
            )@ + (seq!['-'] + spec_digits((-(d.units as int) + 5000) / 10000)));
        }
    } else {
        push_digits(v, ((d.units + 5000) / UNITS_PER_ONE) as u128);
    }
}

/// Appends the one-decimal rendering of `u` units.
pub fn push_fixed1(v: &mut Vec<char>, u: i128)
    requires
        i128::MIN + 500 < u,
        u + 500 <= i128::MAX,
    ensures
        final(v)@ == old(v)@ + spec_fixed1(u as int),
{
    if u < 0 {
        v.push('-');
        push_fixed1_nonneg(v, -u);
        proof {
            assert(old(v)@.push('-') + spec_fixed1_nonneg(-(u as int)) =~= old(v)@ + (seq!['-']
                + spec_fixed1_nonneg(-(u as int))));
        }
    } else {
        push_fixed1_nonneg(v, u);
    }
}

/// Appends the one-decimal rendering of a non-negative number of units.
fn push_fixed1_nonneg(v: &mut Vec<char>, u: i128)
    requires
        0 <= u,
        u + 500 <= i128::MAX,
    ensures
        final(v)@ == old(v)@ + spec_fixed1_nonneg(u as int),
{
    let tenths: u128 = ((u + 500) / 1000) as u128;
    push_digits(v, tenths / 10);
    v.push('.');
    v.push(digit_char((tenths % 10) as u8));
    proof {
        assert(v@ =~= old(v)@ + spec_fixed1_nonneg(u as int));
    }
}

/// Appends the percentage a rate of `d` units stands for, to one decimal.
pub fn push_rate_percent(v: &mut Vec<char>, d: Decimal)
    requires
        d.rate_in_range(),
    ensures
        final(v)@ == old(v)@ + spec_rate_percent(d.units as int),
{
    push_fixed1(v, d.units * 100);
}

/// Appends the percentage `n / d` stands for, to one decimal.
pub fn push_ratio_percent(v: &mut Vec<char>, n: i32, d: i32)
    requires
        0 <= n,
        0 < d,
    ensures
        final(v)@ == old(v)@ + spec_ratio_percent(n as int, d as int),
{
    let num: u128 = (n as u128) * 2000 + (d as u128);
    let den: u128 = 2 * (d as u128);
    let tenths: u128 = num / den;
    push_digits(v, tenths / 10);
    v.push('.');
    v.push(digit_char((tenths % 10) as u8));
    proof {
        assert(v@ =~= old(v)@ + spec_ratio_percent(n as int, d as int));
    }
}

} // verus!
