use dex_arbitrage::decimal::Decimal;
use dex_arbitrage::run::{plan_from_quotes, plan_run, RunConfig};
use dex_arbitrage::store::{record_run, run_status, MemoryStore, RunStatus, StoreError};

fn whole(n: i64) -> Decimal {
    Decimal::from_whole(n)
}

fn config(min_profit: i64) -> RunConfig {
    RunConfig {
        dex_a: "DEX_A".to_string(),
        dex_b: "DEX_B".to_string(),
        token_a: "0xa".to_string(),
        token_b: "0xb".to_string(),
        trade_amount: whole(10),
        gas_cost: whole(5),
        min_profit: whole(min_profit),
    }
}

#[test]
fn qualifying_run_writes_one_row_to_each_table() {
    let plan = plan_run(&config(10), whole(100), whole(102));
    assert!(plan.snapshot.is_arbitrage);
    assert_eq!(plan.snapshot.potential_profit, Some(whole(15)));
    let mut store = MemoryStore::new();
    let outcome = record_run(&mut store, plan);
    assert_eq!(outcome.snapshot, Ok(()));
    assert_eq!(outcome.opportunity, Some(Ok(())));
    assert_eq!(outcome.status(), RunStatus::Recorded);
    assert_eq!(store.snapshots.len(), 1);
    assert_eq!(store.opportunities.len(), 1);
    assert_eq!(store.opportunities[0].profit, whole(15));
    assert_eq!(store.opportunities[0].price_a, whole(100));
    assert_eq!(store.opportunities[0].price_b, whole(102));
    assert_eq!(store.snapshots[0].dex_a_price, whole(100));
}

#[test]
fn non_qualifying_run_writes_only_the_snapshot() {
    let plan = plan_run(&config(20), whole(100), whole(102));
    assert!(!plan.snapshot.is_arbitrage);
    assert_eq!(plan.snapshot.potential_profit, Some(whole(15)));
    assert!(plan.opportunity.is_none());
    let mut store = MemoryStore::new();
    let outcome = record_run(&mut store, plan);
    assert_eq!(outcome.opportunity, None);
    assert_eq!(store.snapshots.len(), 1);
    assert_eq!(store.opportunities.len(), 0);
}

#[test]
fn zero_price_run_qualifies() {
    let cfg = RunConfig {
        trade_amount: whole(1),
        gas_cost: whole(0),
        min_profit: whole(0),
        ..config(0)
    };
    let plan = plan_run(&cfg, whole(0), whole(50));
    assert_eq!(plan.snapshot.price_difference_percent.ten_thousandths, 0);
    assert_eq!(plan.snapshot.potential_profit, Some(whole(50)));
    assert_eq!(plan.opportunity.map(|o| o.profit), Some(whole(50)));
}

#[test]
fn refused_opportunity_keeps_the_snapshot() {
    let plan = plan_run(&config(10), whole(100), whole(102));
    let mut store = MemoryStore::with_acceptance(true, false);
    let outcome = record_run(&mut store, plan);
    assert_eq!(outcome.snapshot, Ok(()));
    assert_eq!(outcome.opportunity, Some(Err(StoreError::Rejected)));
    assert_eq!(outcome.status(), RunStatus::PartlyRecorded);
    assert_eq!(store.snapshots.len(), 1);
    assert_eq!(store.opportunities.len(), 0);
}

#[test]
fn refused_snapshot_keeps_the_opportunity() {
    let plan = plan_run(&config(10), whole(100), whole(102));
    let mut store = MemoryStore::with_acceptance(false, true);
    let outcome = record_run(&mut store, plan);
    assert_eq!(outcome.snapshot, Err(StoreError::Rejected));
    assert_eq!(outcome.opportunity, Some(Ok(())));
    assert_eq!(outcome.status(), RunStatus::PartlyRecorded);
    assert_eq!(store.snapshots.len(), 0);
    assert_eq!(store.opportunities.len(), 1);
}

#[test]
fn store_refusing_everything_records_nothing() {
    let plan = plan_run(&config(10), whole(100), whole(102));
    let mut store = MemoryStore::with_acceptance(false, false);
    let outcome = record_run(&mut store, plan);
    assert_eq!(outcome.status(), RunStatus::Unrecorded);
    assert_eq!(store.snapshots.len(), 0);
    assert_eq!(store.opportunities.len(), 0);
}

#[test]
fn missing_quote_means_no_evaluation() {
    assert!(plan_from_quotes(&config(10), None, Some(whole(102))).is_none());
    assert!(plan_from_quotes(&config(10), Some(whole(100)), None).is_none());
    let plan = plan_from_quotes(&config(10), Some(whole(100)), Some(whole(102))).unwrap();
    assert!(plan.snapshot.is_arbitrage);
}

#[test]
fn run_status_classifies_writes() {
    assert_eq!(run_status(true, None), RunStatus::Recorded);
    assert_eq!(run_status(false, None), RunStatus::Unrecorded);
    assert_eq!(run_status(true, Some(true)), RunStatus::Recorded);
    assert_eq!(run_status(true, Some(false)), RunStatus::PartlyRecorded);
    assert_eq!(run_status(false, Some(true)), RunStatus::PartlyRecorded);
    assert_eq!(run_status(false, Some(false)), RunStatus::Unrecorded);
}
