//! Fixed-point decimal amounts.
//!
//! Every monetary amount, rate and count-like quantity in the engine is a
//! [`Decimal`]: an integer number of ten-thousandths of a whole unit. This
//! gives exact decimal arithmetic for the four fractional digits the engine
//! works with, with no rounding surprises.

use vstd::prelude::*;

verus! {

/// Number of fixed-point units in one whole unit.
pub const UNITS_PER_ONE: i128 = 10000;

/// Largest magnitude, in units, that an amount-like quantity (money, days,
/// thresholds) may take: 10^15 whole units.
pub const AMOUNT_LIMIT: i128 = 10_000_000_000_000_000_000;

/// Largest magnitude, in units, that a rate-like quantity (interest rate,
/// tax rate, surcharge rate) may take: 10^4 whole units, i.e. 1 000 000 %.
pub const RATE_LIMIT: i128 = 100_000_000;

/// A decimal number with four fractional digits, stored as `units`
/// ten-thousandths of a whole unit.
#[derive(Clone, Copy, Debug, PartialEq, Eq, Structural)]
pub struct Decimal {
    pub units: i128,
}

impl View for Decimal {
    type V = int;

    open spec fn view(&self) -> int {
        self.units as int
    }
}

/// Product of an amount by a rate, both in units, truncated to units.
pub open spec fn spec_mul_units(a: int, b: int) -> int {
    (a * b) / (UNITS_PER_ONE as int)
}

/// Product of two signed quantities in units, scaled down with truncation
/// toward zero.
pub open spec fn spec_mul_trunc(a: int, b: int) -> int {
    if a * b >= 0 {
        (a * b) / (UNITS_PER_ONE as int)
    } else {
        -((-(a * b)) / (UNITS_PER_ONE as int))
    }
}

/// Bounds on the truncating product: with `|a| <= ab` and `|b| <= bb`,
/// the raw product stays within `ab * bb` and the scaled result within
/// `(ab * bb) / 10000`.
pub proof fn lemma_mul_trunc_bound(a: int, b: int, ab: int, bb: int)
    requires
        0 <= ab,
        0 <= bb,
        -ab <= a <= ab,
        -bb <= b <= bb,
    ensures
        -(ab * bb) <= a * b <= ab * bb,
        -((ab * bb) / (UNITS_PER_ONE as int)) <= spec_mul_trunc(a, b) <= (ab * bb) / (
        UNITS_PER_ONE as int),
{
    assert(-(ab * bb) <= a * b <= ab * bb) by (nonlinear_arith)
        requires
            0 <= ab,
            0 <= bb,
            -ab <= a <= ab,
            -bb <= b <= bb,
    ;
    let p = a * b;
    let s = UNITS_PER_ONE as int;
    vstd::arithmetic::div_mod::lemma_div_pos_is_pos(ab * bb, s);
    if p >= 0 {
        vstd::arithmetic::div_mod::lemma_div_is_ordered(p, ab * bb, s);
        vstd::arithmetic::div_mod::lemma_div_pos_is_pos(p, s);
    } else {
        vstd::arithmetic::div_mod::lemma_div_is_ordered(-p, ab * bb, s);
        vstd::arithmetic::div_mod::lemma_div_pos_is_pos(-p, s);
    }
}

impl Decimal {
    /// The quantity is within the engine's amount range.
    pub open spec fn amount_in_range(self) -> bool {
        -AMOUNT_LIMIT <= self.units <= AMOUNT_LIMIT
    }

    /// The quantity is within the engine's rate range.
    pub open spec fn rate_in_range(self) -> bool {
        -RATE_LIMIT <= self.units <= RATE_LIMIT
    }

    /// The exact value zero.
    pub fn zero() -> (r: Decimal)
        ensures
            r.units == 0,
    {
        Decimal { units: 0 }
    }

    /// The decimal equal to the whole number `n`.
    pub fn from_int(n: i64) -> (r: Decimal)
        ensures
            r.units == n * UNITS_PER_ONE,
    {
        Decimal { units: (n as i128) * UNITS_PER_ONE }
    }

    /// The decimal holding exactly `units` ten-thousandths.
    pub fn from_units(units: i128) -> (r: Decimal)
        ensures
            r.units == units,
    {
        Decimal { units }
    }

    /// Whether the value is strictly negative.
    pub fn is_negative(&self) -> (r: bool)
        ensures
            r == (self.units < 0),
    {
        self.units < 0
    }

    /// Whether the value is zero or negative.
    pub fn is_non_positive(&self) -> (r: bool)
        ensures
            r == (self.units <= 0),
    {
        self.units <= 0
    }

    /// Exact sum.
    pub fn add(self, other: Decimal) -> (r: Decimal)
        requires
            i128::MIN <= self.units + other.units <= i128::MAX,
        ensures
            r.units == self.units + other.units,
    {
        Decimal { units: self.units + other.units }
    }

    /// Exact difference.
    pub fn sub(self, other: Decimal) -> (r: Decimal)
        requires
            i128::MIN <= self.units - other.units <= i128::MAX,
        ensures
            r.units == self.units - other.units,
    {
        Decimal { units: self.units - other.units }
    }

    /// The smaller of the two values.
    pub fn min_of(self, other: Decimal) -> (r: Decimal)
        ensures
            r.units == if self.units <= other.units {
                self.units
            } else {
                other.units
            },
    {
        if self.units <= other.units {
            self
        } else {
            other
        }
    }

    /// Whether `self` is strictly greater than `other`.
    pub fn gt(self, other: Decimal) -> (r: bool)
        ensures
            r == (self.units > other.units),
    {
        self.units > other.units
    }

    /// Whether `self` is less than or equal to `other`.
    pub fn le(self, other: Decimal) -> (r: bool)
        ensures
            r == (self.units <= other.units),
    {
        self.units <= other.units
    }

    /// Product of two non-negative decimals, truncated to units.
    pub fn mul(self, other: Decimal) -> (r: Decimal)
        requires
            0 <= self.units,
            0 <= other.units,
            self.units * other.units <= i128::MAX,
        ensures
            r.units == spec_mul_units(self.units as int, other.units as int),
            0 <= r.units <= self.units * other.units,
    {
        let p: i128 = self.units * other.units;
        let q: i128 = p / UNITS_PER_ONE;
        proof {
            vstd::arithmetic::div_mod::lemma_div_pos_is_pos(p as int, UNITS_PER_ONE as int);
            vstd::arithmetic::div_mod::lemma_div_nonincreasing(p as int, UNITS_PER_ONE as int);
        }
        Decimal { units: q }
    }

    /// Product of two signed decimals, truncated toward zero.
    pub fn mul_trunc(self, other: Decimal) -> (r: Decimal)
        requires
            self.units > i128::MIN,
            other.units > i128::MIN,
            -i128::MAX <= self.units * other.units <= i128::MAX,
        ensures
            r.units == spec_mul_trunc(self.units as int, other.units as int),
    {
        let a = self.units;
        let b = other.units;
        let neg = (a < 0) != (b < 0);
        let ma: i128 = if a < 0 {
            -a
        } else {
            a
        };
        let mb: i128 = if b < 0 {
            -b
        } else {
            b
        };
        proof {
            assert((ma as int) * (mb as int) == (if (a as int) * (b as int) >= 0 {
                (a as int) * (b as int)
            } else {
                -((a as int) * (b as int))
            })) by (nonlinear_arith)
                requires
                    ma == (if a < 0 {
                        -(a as int)
                    } else {
                        a as int
                    }),
                    mb == (if b < 0 {
                        -(b as int)
                    } else {
                        b as int
                    }),
            ;
        }
        let p: i128 = ma * mb;
        let q: i128 = p / UNITS_PER_ONE;
        proof {
            vstd::arithmetic::div_mod::lemma_div_pos_is_pos(p as int, UNITS_PER_ONE as int);
            if neg {
                if (a as int) * (b as int) >= 0 {
                    assert((a as int) * (b as int) == 0) by (nonlinear_arith)
                        requires
                            (a < 0) != (b < 0),
                            (a as int) * (b as int) >= 0,
                    ;
                }
            } else {
                assert((a as int) * (b as int) >= 0) by (nonlinear_arith)
                    requires
                        (a < 0) == (b < 0),
                ;
            }
        }
        if neg {
            Decimal { units: -q }
        } else {
            Decimal { units: q }
        }
    }
}

} // verus!
