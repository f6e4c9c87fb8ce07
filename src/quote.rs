use vstd::prelude::*;

use crate::decimal::{Decimal, MAX_UNITS};

verus! {

/// Ten to the power `n`.
pub open spec fn pow10(n: nat) -> nat
    decreases n,
{
    if n == 0 {
        1
    } else {
        10 * pow10((n - 1) as nat)
    }
}

/// The amount, in units of eight fractional digits and rounded down, of the
/// raw on-chain integer `raw` of a token with `decimals` decimal places.
pub open spec fn quote_units(raw: nat, decimals: nat) -> int {
    (raw * pow10(8)) as int / pow10(decimals) as int
}

proof fn lemma_pow10_positive(n: nat)
    ensures
        pow10(n) >= 1,
    decreases n,
{
    if n > 0 {
        lemma_pow10_positive((n - 1) as nat);
    }
}

proof fn lemma_pow10_adds(a: nat, b: nat)
    ensures
        pow10(a + b) == pow10(a) * pow10(b),
    decreases a,
{
    if a > 0 {
        let a1 = (a - 1) as nat;
        lemma_pow10_adds(a1, b);
        assert((a + b - 1) as nat == a1 + b);
        assert(pow10(a + b) == 10 * pow10(a1 + b));
        assert(pow10(a) == 10 * pow10(a1));
        assert(10 * (pow10(a1) * pow10(b)) == (10 * pow10(a1)) * pow10(b)) by (nonlinear_arith);
    } else {
        assert(pow10(0) == 1);
        assert(a + b == b);
    }
}

proof fn lemma_pow10_monotone(i: nat, j: nat)
    requires
        i <= j,
    ensures
        pow10(i) <= pow10(j),
{
    lemma_pow10_adds(i, (j - i) as nat);
    lemma_pow10_positive((j - i) as nat);
    assert(pow10(i) * pow10((j - i) as nat) >= pow10(i)) by (nonlinear_arith)
        requires
            pow10((j - i) as nat) >= 1,
    ;
}

/// Ten to the power `n`, for `n` up to eight.
fn small_pow10(n: u32) -> (r: u128)
    requires
        n <= 8,
    ensures
        r == pow10(n as nat),
        r <= 100_000_000,
{
    let mut r: u128 = 1;
    let mut i: u32 = 0;
    proof {
        reveal_with_fuel(pow10, 9);
    }
    while i < n
        invariant
            i <= n <= 8,
            r == pow10(i as nat),
            pow10(8) == 100_000_000,
        decreases n - i,
    {
        proof {
            lemma_pow10_monotone(i as nat, 7);
            reveal_with_fuel(pow10, 8);
        }
        r = r * 10;
        i = i + 1;
    }
    proof {
        lemma_pow10_monotone(n as nat, 8);
    }
    r
}

/// Converts a venue's raw output amount with `decimals` decimal places into a
/// fixed-point amount, rounded down; `None` when it exceeds the amounts the
/// arithmetic accepts.
pub fn quote_amount(raw: u128, decimals: u32) -> (r: Option<Decimal>)
    ensures
        r is Some <==> quote_units(raw as nat, decimals as nat) <= MAX_UNITS,
        r is Some ==> r->Some_0.units == quote_units(raw as nat, decimals as nat),
        r is Some ==> r->Some_0.in_range(),
{
    proof {
        reveal_with_fuel(pow10, 9);
        lemma_pow10_positive(decimals as nat);
    }
    if decimals <= 8 {
        let factor = small_pow10(8 - decimals);
        proof {
            lemma_pow10_adds((8 - decimals) as nat, decimals as nat);
            assert(raw * pow10(8) == pow10(decimals as nat) * (raw * factor)) by (nonlinear_arith)
                requires
                    pow10(8) == factor * pow10(decimals as nat),
            ;
            vstd::arithmetic::div_mod::lemma_div_multiples_vanish(
                (raw * factor) as int,
                pow10(decimals as nat) as int,
            );
        }
        let limit: u128 = (MAX_UNITS as u128) / factor;
        if raw <= limit {
            proof {
                vstd::arithmetic::div_mod::lemma_fundamental_div_mod(MAX_UNITS as int, factor as int);
                vstd::arithmetic::div_mod::lemma_mod_bound(MAX_UNITS as int, factor as int);
                assert(raw * factor <= MAX_UNITS) by (nonlinear_arith)
                    requires
                        raw <= limit,
                        limit == MAX_UNITS as int / factor as int,
                        MAX_UNITS == factor * (MAX_UNITS as int / factor as int) + MAX_UNITS as int
                            % factor as int,
                        MAX_UNITS as int % factor as int >= 0,
                        factor >= 1,
                ;
            }
            Some(Decimal { units: (raw * factor) as i128 })
        } else {
            proof {
                vstd::arithmetic::div_mod::lemma_fundamental_div_mod(MAX_UNITS as int, factor as int);
                vstd::arithmetic::div_mod::lemma_mod_bound(MAX_UNITS as int, factor as int);
                assert(raw * factor > MAX_UNITS) by (nonlinear_arith)
                    requires
                        raw >= limit + 1,
                        limit == MAX_UNITS as int / factor as int,
                        MAX_UNITS == factor * (MAX_UNITS as int / factor as int) + MAX_UNITS as int
                            % factor as int,
                        (MAX_UNITS as int % factor as int) < factor,
                        factor >= 1,
                ;
            }
            None
        }
    } else {
        let shift: u32 = decimals - 8;
        let mut x: u128 = raw;
        let mut i: u32 = 0;
        proof {
            vstd::arithmetic::div_mod::lemma_div_basics(raw as int);
        }
        while i < shift && x > 0
            invariant
                i <= shift,
                x == raw as int / pow10(i as nat) as int,
            decreases shift - i,
        {
            proof {
                lemma_pow10_positive(i as nat);
                vstd::arithmetic::div_mod::lemma_div_denominator(
                    raw as int,
                    pow10(i as nat) as int,
                    10,
                );
                assert(pow10((i + 1) as nat) == pow10(i as nat) * 10);
            }
            x = x / 10;
            i = i + 1;
        }
        proof {
            if i < shift {
                lemma_pow10_positive(i as nat);
                vstd::arithmetic::div_mod::lemma_fundamental_div_mod(
                    raw as int,
                    pow10(i as nat) as int,
                );
                vstd::arithmetic::div_mod::lemma_mod_bound(raw as int, pow10(i as nat) as int);
                let p = pow10(i as nat) as int;
                assert(raw < p) by (nonlinear_arith)
                    requires
                        raw == p * (raw as int / p) + raw as int % p,
                        raw as int / p == 0,
                        (raw as int % p) < p,
                ;
                lemma_pow10_monotone(i as nat, shift as nat);
                vstd::arithmetic::div_mod::lemma_basic_div(raw as int, pow10(shift as nat) as int);
            }
            assert(x == raw as int / pow10(shift as nat) as int);
            lemma_pow10_adds(8, shift as nat);
            lemma_pow10_positive(shift as nat);
            vstd::arithmetic::div_mod::lemma_div_denominator(
                (raw * pow10(8)) as int,
                pow10(8) as int,
                pow10(shift as nat) as int,
            );
            vstd::arithmetic::div_mod::lemma_div_multiples_vanish(raw as int, pow10(8) as int);
            assert(raw * pow10(8) == pow10(8) * raw) by (nonlinear_arith);
        }
        if x <= MAX_UNITS as u128 {
            Some(Decimal { units: x as i128 })
        } else {
            None
        }
    }
}

} // verus!
