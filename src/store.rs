use vstd::prelude::*;

use crate::run::RunPlan;
use crate::snapshot::{ArbitrageOpportunity, MarketSnapshot};

verus! {

/// Why a write did not persist.
#[derive(Clone, Copy, Debug, PartialEq, Eq, Structural)]
pub enum StoreError {
    /// The store could not be reached.
    Unavailable,
    /// The store refused the row.
    Rejected,
}

/// A store held in memory, which may be set to refuse either kind of row: it
/// stands in for the durable store where no live one is wanted.
#[derive(Clone, Debug)]
pub struct MemoryStore {
    pub snapshots: Vec<MarketSnapshot>,
    pub opportunities: Vec<ArbitrageOpportunity>,
    pub accepts_snapshots: bool,
    pub accepts_opportunities: bool,
}

impl MemoryStore {
    /// An empty store that accepts every write.
    pub fn new() -> (r: MemoryStore)
        ensures
            r.snapshots@.len() == 0,
            r.opportunities@.len() == 0,
            r.accepts_snapshots,
            r.accepts_opportunities,
    {
        MemoryStore {
            snapshots: Vec::new(),
            opportunities: Vec::new(),
            accepts_snapshots: true,
            accepts_opportunities: true,
        }
    }

    /// An empty store that accepts snapshot writes and opportunity writes as told.
    pub fn with_acceptance(accepts_snapshots: bool, accepts_opportunities: bool) -> (r: MemoryStore)
        ensures
            r.snapshots@.len() == 0,
            r.opportunities@.len() == 0,
            r.accepts_snapshots == accepts_snapshots,
            r.accepts_opportunities == accepts_opportunities,
    {
        MemoryStore {
            snapshots: Vec::new(),
            opportunities: Vec::new(),
            accepts_snapshots,
            accepts_opportunities,
        }
    }

    /// Writes one snapshot row, or refuses it and leaves the store as it was.
    pub fn record_snapshot(&mut self, snapshot: MarketSnapshot) -> (r: Result<(), StoreError>)
        ensures
            final(self).accepts_snapshots == old(self).accepts_snapshots,
            final(self).accepts_opportunities == old(self).accepts_opportunities,
            final(self).opportunities@ == old(self).opportunities@,
            old(self).accepts_snapshots ==> r is Ok && final(self).snapshots@ == old(
                self,
            ).snapshots@.push(snapshot),
            !old(self).accepts_snapshots ==> r == Err::<(), StoreError>(StoreError::Rejected)
                && final(self).snapshots@ == old(self).snapshots@,
    {
        if self.accepts_snapshots {
            self.snapshots.push(snapshot);
            Ok(())
        } else {
            Err(StoreError::Rejected)
        }
    }

    /// Writes one opportunity row, or refuses it and leaves the store as it was.
    pub fn record_opportunity(&mut self, opportunity: ArbitrageOpportunity) -> (r: Result<(), StoreError>)
        ensures
            final(self).accepts_snapshots == old(self).accepts_snapshots,
            final(self).accepts_opportunities == old(self).accepts_opportunities,
            final(self).snapshots@ == old(self).snapshots@,
            old(self).accepts_opportunities ==> r is Ok && final(self).opportunities@ == old(
                self,
            ).opportunities@.push(opportunity),
            !old(self).accepts_opportunities ==> r == Err::<(), StoreError>(StoreError::Rejected)
                && final(self).opportunities@ == old(self).opportunities@,
    {
        if self.accepts_opportunities {
            self.opportunities.push(opportunity);
            Ok(())
        } else {
            Err(StoreError::Rejected)
        }
    }
}

/// How a run ended once its records were written.
#[derive(Clone, Copy, Debug, PartialEq, Eq, Structural)]
pub enum RunStatus {
    /// Every planned write persisted.
    Recorded,
    /// Some planned writes persisted and some failed.
    PartlyRecorded,
    /// No planned write persisted.
    Unrecorded,
}

/// The result of each write of a run: the snapshot's, and the opportunity's
/// when one was planned.
#[derive(Clone, Copy, Debug, PartialEq, Eq)]
pub struct RunOutcome {
    pub snapshot: Result<(), StoreError>,
    pub opportunity: Option<Result<(), StoreError>>,
}

/// The status of a run whose snapshot write ended `snapshot_ok` and whose
/// opportunity write, if any, ended `opportunity_ok`.
pub open spec fn status_of(snapshot_ok: bool, opportunity_ok: Option<bool>) -> RunStatus {
    match opportunity_ok {
        None => if snapshot_ok {
            RunStatus::Recorded
        } else {
            RunStatus::Unrecorded
        },
        Some(o) => if snapshot_ok && o {
            RunStatus::Recorded
        } else if !snapshot_ok && !o {
            RunStatus::Unrecorded
        } else {
            RunStatus::PartlyRecorded
        },
    }
}

/// Classifies a run by which of its writes persisted.
pub fn run_status(snapshot_ok: bool, opportunity_ok: Option<bool>) -> (r: RunStatus)
    ensures
        r == status_of(snapshot_ok, opportunity_ok),
{
    match opportunity_ok {
        None => if snapshot_ok {
            RunStatus::Recorded
        } else {
            RunStatus::Unrecorded
        },
        Some(o) => if snapshot_ok && o {
            RunStatus::Recorded
        } else if !snapshot_ok && !o {
            RunStatus::Unrecorded
        } else {
            RunStatus::PartlyRecorded
        },
    }
}

impl RunOutcome {
    /// How the run ended, by which of its writes persisted.
    pub fn status(&self) -> (r: RunStatus)
        ensures
            r == status_of(
                self.snapshot is Ok,
                match self.opportunity {
                    Some(o) => Some(o is Ok),
                    None => None,
                },
            ),
    {
        let opportunity_ok = match self.opportunity {
            Some(o) => Some(o.is_ok()),
            None => None,
        };
        run_status(self.snapshot.is_ok(), opportunity_ok)
    }
}

/// Writes the records of one run. The snapshot is always written; the
/// opportunity is written exactly when the plan holds one, whether or not the
/// snapshot write succeeded. A failed write leaves its table as it was and is
/// reported in the outcome, never raised.
pub fn record_run(store: &mut MemoryStore, plan: RunPlan) -> (r: RunOutcome)
    ensures
        final(store).accepts_snapshots == old(store).accepts_snapshots,
        final(store).accepts_opportunities == old(store).accepts_opportunities,
        (r.snapshot is Ok) == old(store).accepts_snapshots,
        final(store).snapshots@ == if old(store).accepts_snapshots {
            old(store).snapshots@.push(plan.snapshot)
        } else {
            old(store).snapshots@
        },
        r.opportunity is Some <==> plan.opportunity is Some,
        r.opportunity is Some ==> (r.opportunity->Some_0 is Ok) == old(store).accepts_opportunities,
        final(store).opportunities@ == if plan.opportunity is Some && old(
            store,
        ).accepts_opportunities {
            old(store).opportunities@.push(plan.opportunity->Some_0)
        } else {
            old(store).opportunities@
        },
{
    let snapshot = store.record_snapshot(plan.snapshot);
    let opportunity = match plan.opportunity {
        Some(o) => Some(store.record_opportunity(o)),
        None => None,
    };
    RunOutcome { snapshot, opportunity }
}

} // verus!
