use vstd::prelude::*;

use crate::decimal::Decimal;

verus! {

/// A percentage with four fractional digits: `ten_thousandths` steps of 0.0001 %.
#[derive(Clone, Copy, Debug, PartialEq, Eq, Structural)]
pub struct Percent {
    pub ten_thousandths: i128,
}

/// `|price_a - price_b|`, in units.
pub open spec fn difference_units(price_a: Decimal, price_b: Decimal) -> int {
    if price_a.units >= price_b.units {
        price_a.units - price_b.units
    } else {
        price_b.units - price_a.units
    }
}

/// `|price_a - price_b| / price_a * 100` in steps of 0.0001 %, rounded down,
/// when `price_a > 0`; zero otherwise.
pub open spec fn percent_units(price_a: Decimal, price_b: Decimal) -> int {
    if price_a.units > 0 {
        (difference_units(price_a, price_b) * 1_000_000) / (price_a.units as int)
    } else {
        0
    }
}

/// The absolute spread between the two quotes.
pub fn price_difference(price_a: Decimal, price_b: Decimal) -> (r: Decimal)
    requires
        price_a.in_range(),
        price_b.in_range(),
    ensures
        r.units == difference_units(price_a, price_b),
{
    if price_a.units >= price_b.units {
        Decimal { units: price_a.units - price_b.units }
    } else {
        Decimal { units: price_b.units - price_a.units }
    }
}

/// The spread as a percentage of `price_a`; zero when `price_a` is not
/// positive, so no division by zero can occur.
pub fn price_difference_percent(price_a: Decimal, price_b: Decimal) -> (r: Percent)
    requires
        price_a.in_range(),
        price_b.in_range(),
    ensures
        r.ten_thousandths == percent_units(price_a, price_b),
{
    if price_a.units > 0 {
        let diff = price_difference(price_a, price_b);
        let scaled: i128 = diff.units * 1_000_000;
        Percent { ten_thousandths: scaled / price_a.units }
    } else {
        Percent { ten_thousandths: 0 }
    }
}

/// The percentage depends on the two prices alone: equal prices give equal
/// percentages. It is never negative, and it is exactly zero when
/// `price_a` is zero.
pub proof fn lemma_percent_is_a_function_of_prices(
    price_a: Decimal,
    price_b: Decimal,
    again_a: Decimal,
    again_b: Decimal,
)
    requires
        price_a == again_a,
        price_b == again_b,
    ensures
        percent_units(price_a, price_b) == percent_units(again_a, again_b),
        percent_units(price_a, price_b) >= 0,
        price_a.units == 0 ==> percent_units(price_a, price_b) == 0,
{
    if price_a.units > 0 {
        vstd::arithmetic::div_mod::lemma_div_pos_is_pos(
            difference_units(price_a, price_b) * 1_000_000,
            price_a.units as int,
        );
    }
}

/// One evaluation run as observed, whether or not it qualified.
#[derive(Clone, Debug)]
pub struct MarketSnapshot {
    pub dex_a: String,
    pub dex_b: String,
    pub token_a: String,
    pub token_b: String,
    pub dex_a_price: Decimal,
    pub dex_b_price: Decimal,
    pub price_difference: Decimal,
    pub price_difference_percent: Percent,
    pub trade_amount: Decimal,
    pub gas_cost: Decimal,
    pub potential_profit: Option<Decimal>,
    pub is_arbitrage: bool,
}

/// An evaluation whose profit cleared the threshold.
#[derive(Clone, Debug)]
pub struct ArbitrageOpportunity {
    pub dex_a: String,
    pub dex_b: String,
    pub token_a: String,
    pub token_b: String,
    pub price_a: Decimal,
    pub price_b: Decimal,
    pub profit: Decimal,
}

impl MarketSnapshot {
    /// A snapshot of the given observation; the spread and its percentage are
    /// derived here from the two prices.
    pub fn new(
        dex_a: &str,
        dex_b: &str,
        token_a: &str,
        token_b: &str,
        price_a: Decimal,
        price_b: Decimal,
        trade_amount: Decimal,
        gas_cost: Decimal,
        potential_profit: Option<Decimal>,
        is_arbitrage: bool,
    ) -> (r: MarketSnapshot)
        requires
            price_a.in_range(),
            price_b.in_range(),
        ensures
            r.dex_a@ == dex_a@,
            r.dex_b@ == dex_b@,
            r.token_a@ == token_a@,
            r.token_b@ == token_b@,
            r.dex_a_price == price_a,
            r.dex_b_price == price_b,
            r.price_difference.units == difference_units(price_a, price_b),
            r.price_difference_percent.ten_thousandths == percent_units(price_a, price_b),
            r.trade_amount == trade_amount,
            r.gas_cost == gas_cost,
            r.potential_profit == potential_profit,
            r.is_arbitrage == is_arbitrage,
    {
        MarketSnapshot {
            dex_a: dex_a.to_owned(),
            dex_b: dex_b.to_owned(),
            token_a: token_a.to_owned(),
            token_b: token_b.to_owned(),
            dex_a_price: price_a,
            dex_b_price: price_b,
            price_difference: price_difference(price_a, price_b),
            price_difference_percent: price_difference_percent(price_a, price_b),
            trade_amount,
            gas_cost,
            potential_profit,
            is_arbitrage,
        }
    }
}

impl ArbitrageOpportunity {
    /// An opportunity record of the given prices and profit.
    pub fn new(
        dex_a: &str,
        dex_b: &str,
        token_a: &str,
        token_b: &str,
        price_a: Decimal,
        price_b: Decimal,
        profit: Decimal,
    ) -> (r: ArbitrageOpportunity)
        ensures
            r.dex_a@ == dex_a@,
            r.dex_b@ == dex_b@,
            r.token_a@ == token_a@,
            r.token_b@ == token_b@,
            r.price_a == price_a,
            r.price_b == price_b,
            r.profit == profit,
    {
        ArbitrageOpportunity {
            dex_a: dex_a.to_owned(),
            dex_b: dex_b.to_owned(),
            token_a: token_a.to_owned(),
            token_b: token_b.to_owned(),
            price_a,
            price_b,
            profit,
        }
    }
}

} // verus!
