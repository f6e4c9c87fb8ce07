use dex_arbitrage::arbitrage::{detect_arbitrage, raw_profit};
use dex_arbitrage::decimal::{floor_div, Decimal, MAX_UNITS, SCALE};
use dex_arbitrage::quote::quote_amount;
use dex_arbitrage::snapshot::{
    price_difference, price_difference_percent, ArbitrageOpportunity, MarketSnapshot,
};

fn whole(n: i64) -> Decimal {
    Decimal::from_whole(n)
}

#[test]
fn qualifying_spread_returns_profit() {
    let r = detect_arbitrage(whole(100), whole(102), whole(10), whole(5), whole(10));
    assert_eq!(r, Some(whole(15)));
}

#[test]
fn threshold_above_profit_returns_none() {
    let r = detect_arbitrage(whole(100), whole(102), whole(10), whole(5), whole(20));
    assert_eq!(r, None);
    assert_eq!(raw_profit(whole(100), whole(102), whole(10), whole(5)), whole(15));
}

#[test]
fn profit_equal_to_threshold_is_not_enough() {
    let r = detect_arbitrage(whole(100), whole(102), whole(10), whole(5), whole(15));
    assert_eq!(r, None);
    let just_below = Decimal::from_units(15 * SCALE - 1);
    let r = detect_arbitrage(whole(100), whole(102), whole(10), whole(5), just_below);
    assert_eq!(r, Some(whole(15)));
}

#[test]
fn zero_price_a_qualifies_and_percent_is_zero() {
    let r = detect_arbitrage(whole(0), whole(50), whole(1), whole(0), whole(0));
    assert_eq!(r, Some(whole(50)));
    assert_eq!(price_difference_percent(whole(0), whole(50)).ten_thousandths, 0);
}

#[test]
fn reverse_spread_is_not_evaluated() {
    // Buying on B and selling on A would earn 20, but only A-to-B is checked.
    let r = detect_arbitrage(whole(102), whole(100), whole(10), whole(0), whole(0));
    assert_eq!(r, None);
    assert_eq!(raw_profit(whole(102), whole(100), whole(10), whole(0)), whole(-20));
    // Equal prices and a free trade still do not beat a zero threshold.
    assert_eq!(detect_arbitrage(whole(7), whole(7), whole(3), whole(0), whole(0)), None);
}

#[test]
fn reverse_spread_clears_a_negative_enough_threshold() {
    let r = detect_arbitrage(whole(102), whole(100), whole(10), whole(5), whole(-30));
    assert_eq!(r, Some(whole(-25)));
}

#[test]
fn negative_threshold_admits_a_loss() {
    let r = detect_arbitrage(whole(100), whole(100), whole(1), whole(5), whole(-10));
    assert_eq!(r, Some(whole(-5)));
}

#[test]
fn fractional_trade_rounds_down() {
    let half = Decimal::from_units(SCALE / 2);
    let one_unit = Decimal::from_units(1);
    // 0.00000001 * 0.5 = 0.000000005, rounded down to 0.
    assert_eq!(raw_profit(whole(0), one_unit, half, whole(0)).units, 0);
    // -0.00000001 * 0.5 = -0.000000005, rounded down to -0.00000001.
    assert_eq!(raw_profit(one_unit, whole(0), half, whole(0)).units, -1);
    // 1.5 * 2.5 - 0.25 = 3.5
    let p = raw_profit(
        whole(1),
        Decimal::from_units(SCALE * 5 / 2),
        Decimal::from_units(SCALE * 5 / 2),
        Decimal::from_units(SCALE / 4),
    );
    assert_eq!(p.units, 350_000_000);
}

#[test]
fn largest_amounts_do_not_overflow() {
    let top = Decimal::from_units(MAX_UNITS);
    let bottom = Decimal::from_units(-MAX_UNITS);
    let p = raw_profit(bottom, top, top, bottom);
    // (2 * 10^10) * 10^10 + 10^10 whole units
    assert_eq!(p.units, 2 * MAX_UNITS / SCALE * MAX_UNITS + MAX_UNITS);
}

#[test]
fn floor_division_rounds_toward_negative_infinity() {
    assert_eq!(floor_div(7, 2), 3);
    assert_eq!(floor_div(-7, 2), -4);
    assert_eq!(floor_div(-8, 2), -4);
    assert_eq!(floor_div(0, 5), 0);
}

#[test]
fn spread_and_percent_are_derived_from_prices() {
    assert_eq!(price_difference(whole(100), whole(102)), whole(2));
    assert_eq!(price_difference(whole(102), whole(100)), whole(2));
    assert_eq!(price_difference_percent(whole(100), whole(102)).ten_thousandths, 20_000);
    // 2 / 102 * 100 = 1.96078..., four digits kept
    assert_eq!(price_difference_percent(whole(102), whole(100)).ten_thousandths, 19_607);
}

#[test]
fn percent_is_the_same_when_computed_twice() {
    let a = Decimal::from_units(123_456_789);
    let b = Decimal::from_units(987_654_321);
    assert_eq!(price_difference_percent(a, b), price_difference_percent(a, b));
    assert_eq!(price_difference_percent(whole(0), whole(0)).ten_thousandths, 0);
    assert_eq!(price_difference_percent(whole(-3), whole(5)).ten_thousandths, 0);
}

#[test]
fn snapshot_holds_derived_fields() {
    let s = MarketSnapshot::new(
        "DEX_A",
        "DEX_B",
        "0xa",
        "0xb",
        whole(100),
        whole(102),
        whole(10),
        whole(5),
        Some(whole(15)),
        true,
    );
    assert_eq!(s.dex_a, "DEX_A");
    assert_eq!(s.token_b, "0xb");
    assert_eq!(s.price_difference, whole(2));
    assert_eq!(s.price_difference_percent.ten_thousandths, 20_000);
    assert_eq!(s.potential_profit, Some(whole(15)));
    assert!(s.is_arbitrage);
    let o = ArbitrageOpportunity::new("DEX_A", "DEX_B", "0xa", "0xb", whole(100), whole(102), whole(15));
    assert_eq!(o.profit, whole(15));
    assert_eq!(o.dex_b, "DEX_B");
}

#[test]
fn quote_amount_scales_by_decimals() {
    // 102 USDC with six decimal places
    assert_eq!(quote_amount(102_000_000, 6), Some(whole(102)));
    // 1.5 of an eighteen-decimal token
    assert_eq!(quote_amount(1_500_000_000_000_000_000, 18), Some(Decimal::from_units(150_000_000)));
    // digits beyond the eighth are dropped
    assert_eq!(quote_amount(123_456_789_999, 11), Some(Decimal::from_units(123_456_789)));
    assert_eq!(quote_amount(42, 8), Some(Decimal::from_units(42)));
    assert_eq!(quote_amount(7, 0), Some(whole(7)));
    assert_eq!(quote_amount(u128::MAX, 100), Some(whole(0)));
}

#[test]
fn quote_amount_refuses_what_exceeds_the_range() {
    assert_eq!(quote_amount(u128::MAX, 0), None);
    assert_eq!(quote_amount(10_000_000_000, 0), Some(Decimal::from_units(MAX_UNITS)));
    assert_eq!(quote_amount(10_000_000_001, 0), None);
    assert_eq!(quote_amount(u128::MAX, 18), None);
}
