use vstd::prelude::*;

verus! {

/// Units of the smallest step in one whole: amounts carry eight fractional digits.
pub const SCALE: i128 = 100_000_000;

/// Largest magnitude, in units, that the arithmetic of this crate accepts
/// (ten billion whole units), so that products of two amounts fit in `i128`.
pub const MAX_UNITS: i128 = 1_000_000_000_000_000_000;

/// A signed fixed-point amount: `units` steps of one hundred-millionth.
#[derive(Clone, Copy, Debug, PartialEq, Eq, Structural)]
pub struct Decimal {
    pub units: i128,
}

impl Decimal {
    /// The amount lies within the range the arithmetic accepts.
    pub open spec fn in_range(self) -> bool {
        -MAX_UNITS <= self.units <= MAX_UNITS
    }

    /// The amount of `units` hundred-millionths.
    pub fn from_units(units: i128) -> (r: Decimal)
        ensures
            r.units == units,
    {
        Decimal { units }
    }

    /// The amount of `whole` whole units.
    pub fn from_whole(whole: i64) -> (r: Decimal)
        ensures
            r.units == whole as int * SCALE,
    {
        Decimal { units: whole as i128 * SCALE }
    }

    /// The zero amount.
    pub fn zero() -> (r: Decimal)
        ensures
            r.units == 0,
    {
        Decimal { units: 0 }
    }

    /// The number of hundred-millionths.
    pub fn units(&self) -> (r: i128)
        ensures
            r == self.units,
    {
        self.units
    }
}

/// Floor division of `n` by a positive `d`, on machine integers.
pub fn floor_div(n: i128, d: i128) -> (q: i128)
    requires
        d > 0,
    ensures
        q == n / d,
{
    if n >= 0 {
        n / d
    } else {
        let m: i128 = -(n + 1);
        let k: i128 = m / d;
        proof {
            lemma_floor_of_negative(n as int, d as int);
        }
        -k - 1
    }
}

/// For a negative numerator, the floor quotient is one below the negated
/// quotient of `-(n + 1)`.
proof fn lemma_floor_of_negative(n: int, d: int)
    requires
        n < 0,
        d > 0,
    ensures
        n / d == -((-(n + 1)) / d) - 1,
{
    let m = -(n + 1);
    let k = m / d;
    let r = m % d;
    vstd::arithmetic::div_mod::lemma_fundamental_div_mod(m, d);
    vstd::arithmetic::div_mod::lemma_mod_bound(m, d);
    // n = -m - 1 = -(k * d + r) - 1 = (-k - 1) * d + (d - 1 - r)
    assert(n == (-k - 1) * d + (d - 1 - r)) by (nonlinear_arith)
        requires
            m == d * k + r,
            n == -m - 1,
    ;
    vstd::arithmetic::div_mod::lemma_fundamental_div_mod_converse_div(n, d, -k - 1, d - 1 - r);
}

} // verus!
