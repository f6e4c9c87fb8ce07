//! Two-venue price-spread evaluation on fixed-point amounts: the profitability
//! rule, the snapshot and opportunity records derived from one evaluation, and
//! the recording contract around them.

pub mod arbitrage;
pub mod decimal;
pub mod snapshot;
pub mod run;
pub mod store;
pub mod quote;
