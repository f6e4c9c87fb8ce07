use vstd::prelude::*;

use crate::decimal::{floor_div, Decimal, SCALE};

verus! {

/// The profit of buying on venue A and selling on venue B, exactly, in units of
/// one ten-quadrillionth (sixteen fractional digits): the product of two
/// eight-digit amounts needs both scales.
pub open spec fn exact_profit(
    price_a: Decimal,
    price_b: Decimal,
    trade_amount: Decimal,
    gas_cost: Decimal,
) -> int {
    (price_b.units - price_a.units) * trade_amount.units - gas_cost.units * SCALE
}

/// `(price_b - price_a) * trade_amount - gas_cost`, rounded down to eight
/// fractional digits, in units.
pub open spec fn profit_units(
    price_a: Decimal,
    price_b: Decimal,
    trade_amount: Decimal,
    gas_cost: Decimal,
) -> int {
    exact_profit(price_a, price_b, trade_amount, gas_cost) / SCALE as int
}

/// The decision: the profit when it strictly exceeds `min_profit`, else nothing.
pub open spec fn evaluate(
    price_a: Decimal,
    price_b: Decimal,
    trade_amount: Decimal,
    gas_cost: Decimal,
    min_profit: Decimal,
) -> Option<Decimal> {
    let p = profit_units(price_a, price_b, trade_amount, gas_cost);
    if p > min_profit.units {
        Some(Decimal { units: p as i128 })
    } else {
        None
    }
}

/// The profit of buying on A and selling on B, regardless of any threshold:
/// `(price_b - price_a) * trade_amount - gas_cost`, rounded down to the
/// amount precision.
pub fn raw_profit(
    price_a: Decimal,
    price_b: Decimal,
    trade_amount: Decimal,
    gas_cost: Decimal,
) -> (r: Decimal)
    requires
        price_a.in_range(),
        price_b.in_range(),
        trade_amount.in_range(),
        gas_cost.in_range(),
    ensures
        r.units == profit_units(price_a, price_b, trade_amount, gas_cost),
{
    let spread: i128 = price_b.units - price_a.units;
    assert(-2_000_000_000_000_000_000 * 1_000_000_000_000_000_000 <= spread * trade_amount.units
        <= 2_000_000_000_000_000_000 * 1_000_000_000_000_000_000) by (nonlinear_arith)
        requires
            -2_000_000_000_000_000_000 <= spread <= 2_000_000_000_000_000_000,
            -1_000_000_000_000_000_000 <= trade_amount.units <= 1_000_000_000_000_000_000,
    ;
    let fine: i128 = spread * trade_amount.units - gas_cost.units * SCALE;
    let units: i128 = floor_div(fine, SCALE);
    Decimal { units }
}

/// Decides whether buying on venue A and selling on venue B clears `min_profit`
/// after `gas_cost`: `Some(profit)` exactly when the profit strictly exceeds the
/// threshold, with that profit; `None` otherwise. Only this one direction is
/// evaluated.
pub fn detect_arbitrage(
    price_a: Decimal,
    price_b: Decimal,
    trade_amount: Decimal,
    gas_cost: Decimal,
    min_profit: Decimal,
) -> (r: Option<Decimal>)
    requires
        price_a.in_range(),
        price_b.in_range(),
        trade_amount.in_range(),
        gas_cost.in_range(),
    ensures
        r == evaluate(price_a, price_b, trade_amount, gas_cost, min_profit),
{
    let profit = raw_profit(price_a, price_b, trade_amount, gas_cost);
    if profit.units > min_profit.units {
        Some(profit)
    } else {
        None
    }
}

/// The rounded profit of in-range inputs lies well within `i128`.
proof fn lemma_profit_fits(price_a: Decimal, price_b: Decimal, trade_amount: Decimal, gas_cost: Decimal)
    requires
        price_a.in_range(),
        price_b.in_range(),
        trade_amount.in_range(),
        gas_cost.in_range(),
    ensures
        -100_000_000_000_000_000_000_000_000_000 <= profit_units(
            price_a,
            price_b,
            trade_amount,
            gas_cost,
        ) <= 100_000_000_000_000_000_000_000_000_000,
{
    let spread = price_b.units - price_a.units;
    let x = exact_profit(price_a, price_b, trade_amount, gas_cost);
    let bound: int = 100_000_000_000_000_000_000_000_000_000;
    assert(-bound * SCALE <= x <= bound * SCALE) by (nonlinear_arith)
        requires
            -2_000_000_000_000_000_000 <= spread <= 2_000_000_000_000_000_000,
            -1_000_000_000_000_000_000 <= trade_amount.units <= 1_000_000_000_000_000_000,
            -1_000_000_000_000_000_000 <= gas_cost.units <= 1_000_000_000_000_000_000,
            x == spread * trade_amount.units - gas_cost.units * SCALE,
            bound == 100_000_000_000_000_000_000_000_000_000,
    ;
    vstd::arithmetic::div_mod::lemma_div_is_ordered(-bound * SCALE, x, SCALE as int);
    vstd::arithmetic::div_mod::lemma_div_is_ordered(x, bound * SCALE, SCALE as int);
    vstd::arithmetic::div_mod::lemma_div_multiples_vanish(-bound, SCALE as int);
    vstd::arithmetic::div_mod::lemma_div_multiples_vanish(bound, SCALE as int);
}

/// The decision is present exactly when the profit strictly exceeds the
/// threshold, and then carries that profit. When the trade amount is a whole
/// number, that profit is `(price_b - price_a) * trade_amount - gas_cost`
/// with nothing rounded away.
pub proof fn lemma_decision_matches_profit(
    price_a: Decimal,
    price_b: Decimal,
    trade_amount: Decimal,
    gas_cost: Decimal,
    min_profit: Decimal,
)
    requires
        price_a.in_range(),
        price_b.in_range(),
        trade_amount.in_range(),
        gas_cost.in_range(),
    ensures
        evaluate(price_a, price_b, trade_amount, gas_cost, min_profit) is Some <==> profit_units(
            price_a,
            price_b,
            trade_amount,
            gas_cost,
        ) > min_profit.units,
        evaluate(price_a, price_b, trade_amount, gas_cost, min_profit) is Some ==> evaluate(
            price_a,
            price_b,
            trade_amount,
            gas_cost,
            min_profit,
        )->Some_0.units == profit_units(price_a, price_b, trade_amount, gas_cost),
        trade_amount.units % SCALE == 0 ==> profit_units(price_a, price_b, trade_amount, gas_cost)
            * SCALE == exact_profit(price_a, price_b, trade_amount, gas_cost),
{
    lemma_profit_fits(price_a, price_b, trade_amount, gas_cost);
    if trade_amount.units % SCALE == 0 {
        let spread = price_b.units - price_a.units;
        let whole = trade_amount.units / SCALE;
        vstd::arithmetic::div_mod::lemma_fundamental_div_mod(trade_amount.units as int, SCALE as int);
        let y = spread * whole - gas_cost.units;
        assert(exact_profit(price_a, price_b, trade_amount, gas_cost) == y * SCALE) by (nonlinear_arith)
            requires
                trade_amount.units == SCALE * whole,
                y == spread * whole - gas_cost.units,
                spread == price_b.units - price_a.units,
        ;
        vstd::arithmetic::div_mod::lemma_div_multiples_vanish(y, SCALE as int);
        assert(y * SCALE == SCALE * y) by (nonlinear_arith);
    }
}

/// Buying on the venue that quotes no less is never profitable for a
/// non-negative trade amount and gas cost: with `price_a >= price_b`, the
/// decision is `None` for every threshold down to `-gas_cost`.
pub proof fn lemma_no_profit_against_the_spread(
    price_a: Decimal,
    price_b: Decimal,
    trade_amount: Decimal,
    gas_cost: Decimal,
    min_profit: Decimal,
)
    requires
        price_a.in_range(),
        price_b.in_range(),
        trade_amount.in_range(),
        gas_cost.in_range(),
        price_a.units >= price_b.units,
        trade_amount.units >= 0,
        gas_cost.units >= 0,
        min_profit.units >= -gas_cost.units,
    ensures
        evaluate(price_a, price_b, trade_amount, gas_cost, min_profit) is None,
{
    let spread = price_b.units - price_a.units;
    let x = exact_profit(price_a, price_b, trade_amount, gas_cost);
    assert(spread * trade_amount.units <= 0) by (nonlinear_arith)
        requires
            spread <= 0,
            trade_amount.units >= 0,
    ;
    assert(x <= -gas_cost.units * SCALE);
    vstd::arithmetic::div_mod::lemma_div_is_ordered(x, -gas_cost.units * SCALE, SCALE as int);
    vstd::arithmetic::div_mod::lemma_div_multiples_vanish(-gas_cost.units, SCALE as int);
    assert(-gas_cost.units * SCALE == SCALE * (-gas_cost.units)) by (nonlinear_arith);
}

} // verus!
