use vstd::prelude::*;

use crate::arbitrage::{
    detect_arbitrage, evaluate, lemma_decision_matches_profit, profit_units, raw_profit,
};
use crate::decimal::Decimal;
use crate::snapshot::{
    difference_units, percent_units, ArbitrageOpportunity, MarketSnapshot,
};

verus! {

/// The fixed parameters of an evaluation run: venue labels, the token pair,
/// and the trade, cost and threshold amounts.
#[derive(Clone, Debug)]
pub struct RunConfig {
    pub dex_a: String,
    pub dex_b: String,
    pub token_a: String,
    pub token_b: String,
    pub trade_amount: Decimal,
    pub gas_cost: Decimal,
    pub min_profit: Decimal,
}

impl RunConfig {
    /// The amounts lie within the range the arithmetic accepts.
    pub open spec fn wf(&self) -> bool {
        self.trade_amount.in_range() && self.gas_cost.in_range()
    }
}

/// `s` records the run of `cfg` on the quotes `price_a` and `price_b`: the
/// labels and amounts of the run, the derived spread, the raw profit whatever
/// the decision, and the decision itself.
pub open spec fn records_snapshot(
    s: MarketSnapshot,
    cfg: RunConfig,
    price_a: Decimal,
    price_b: Decimal,
) -> bool {
    &&& s.dex_a@ == cfg.dex_a@
    &&& s.dex_b@ == cfg.dex_b@
    &&& s.token_a@ == cfg.token_a@
    &&& s.token_b@ == cfg.token_b@
    &&& s.dex_a_price == price_a
    &&& s.dex_b_price == price_b
    &&& s.price_difference.units == difference_units(price_a, price_b)
    &&& s.price_difference_percent.ten_thousandths == percent_units(price_a, price_b)
    &&& s.trade_amount == cfg.trade_amount
    &&& s.gas_cost == cfg.gas_cost
    &&& s.potential_profit == Some(
        Decimal { units: profit_units(price_a, price_b, cfg.trade_amount, cfg.gas_cost) as i128 },
    )
    &&& s.is_arbitrage == evaluate(
        price_a,
        price_b,
        cfg.trade_amount,
        cfg.gas_cost,
        cfg.min_profit,
    ) is Some
}

/// `o` records the qualifying profit `profit` of the run of `cfg` on the
/// quotes `price_a` and `price_b`.
pub open spec fn records_opportunity(
    o: ArbitrageOpportunity,
    cfg: RunConfig,
    price_a: Decimal,
    price_b: Decimal,
    profit: Decimal,
) -> bool {
    &&& o.dex_a@ == cfg.dex_a@
    &&& o.dex_b@ == cfg.dex_b@
    &&& o.token_a@ == cfg.token_a@
    &&& o.token_b@ == cfg.token_b@
    &&& o.price_a == price_a
    &&& o.price_b == price_b
    &&& o.profit == profit
}

/// What one run writes: always a snapshot, and an opportunity only when the
/// decision is positive. Both come from the same pair of quotes.
#[derive(Clone, Debug)]
pub struct RunPlan {
    pub snapshot: MarketSnapshot,
    pub opportunity: Option<ArbitrageOpportunity>,
}

/// The records of one evaluation of `cfg` on the quotes `price_a` and `price_b`.
pub open spec fn plans_run(p: RunPlan, cfg: RunConfig, price_a: Decimal, price_b: Decimal) -> bool {
    let decision = evaluate(price_a, price_b, cfg.trade_amount, cfg.gas_cost, cfg.min_profit);
    &&& records_snapshot(p.snapshot, cfg, price_a, price_b)
    &&& (p.opportunity is Some <==> decision is Some)
    &&& (p.opportunity is Some ==> records_opportunity(
        p.opportunity->Some_0,
        cfg,
        price_a,
        price_b,
        decision->Some_0,
    ))
}

/// Evaluates one pair of quotes and lays out the records of the run: a
/// snapshot in every case, an opportunity exactly when the profit clears the
/// threshold.
pub fn plan_run(cfg: &RunConfig, price_a: Decimal, price_b: Decimal) -> (r: RunPlan)
    requires
        cfg.wf(),
        price_a.in_range(),
        price_b.in_range(),
    ensures
        plans_run(r, *cfg, price_a, price_b),
{
    let profit = raw_profit(price_a, price_b, cfg.trade_amount, cfg.gas_cost);
    let decision = detect_arbitrage(
        price_a,
        price_b,
        cfg.trade_amount,
        cfg.gas_cost,
        cfg.min_profit,
    );
    let snapshot = MarketSnapshot::new(
        cfg.dex_a.as_str(),
        cfg.dex_b.as_str(),
        cfg.token_a.as_str(),
        cfg.token_b.as_str(),
        price_a,
        price_b,
        cfg.trade_amount,
        cfg.gas_cost,
        Some(profit),
        decision.is_some(),
    );
    let opportunity = match decision {
        Some(p) => Some(
            ArbitrageOpportunity::new(
                cfg.dex_a.as_str(),
                cfg.dex_b.as_str(),
                cfg.token_a.as_str(),
                cfg.token_b.as_str(),
                price_a,
                price_b,
                p,
            ),
        ),
        None => None,
    };
    RunPlan { snapshot, opportunity }
}

/// Lays out the run from the two venues' quotes: nothing at all when either
/// quote is missing, since no evaluation is possible with one price.
pub fn plan_from_quotes(
    cfg: &RunConfig,
    quote_a: Option<Decimal>,
    quote_b: Option<Decimal>,
) -> (r: Option<RunPlan>)
    requires
        cfg.wf(),
        quote_a is Some ==> quote_a->Some_0.in_range(),
        quote_b is Some ==> quote_b->Some_0.in_range(),
    ensures
        r is Some <==> (quote_a is Some && quote_b is Some),
        r is Some ==> plans_run(r->Some_0, *cfg, quote_a->Some_0, quote_b->Some_0),
{
    match (quote_a, quote_b) {
        (Some(a), Some(b)) => Some(plan_run(cfg, a, b)),
        _ => None,
    }
}

/// The two records of one run agree: the opportunity exists exactly when the
/// snapshot is marked as arbitrage, it carries the snapshot's prices, labels
/// and tokens, and its profit is the profit the snapshot records.
pub proof fn lemma_records_of_a_run_agree(p: RunPlan, cfg: RunConfig, price_a: Decimal, price_b: Decimal)
    requires
        cfg.wf(),
        price_a.in_range(),
        price_b.in_range(),
        plans_run(p, cfg, price_a, price_b),
    ensures
        p.opportunity is Some <==> p.snapshot.is_arbitrage,
        p.opportunity is Some ==> {
            let o = p.opportunity->Some_0;
            &&& o.price_a == p.snapshot.dex_a_price
            &&& o.price_b == p.snapshot.dex_b_price
            &&& o.dex_a@ == p.snapshot.dex_a@
            &&& o.dex_b@ == p.snapshot.dex_b@
            &&& o.token_a@ == p.snapshot.token_a@
            &&& o.token_b@ == p.snapshot.token_b@
            &&& p.snapshot.potential_profit == Some(o.profit)
            &&& o.profit.units > cfg.min_profit.units
        },
{
    lemma_decision_matches_profit(price_a, price_b, cfg.trade_amount, cfg.gas_cost, cfg.min_profit);
}

} // verus!
