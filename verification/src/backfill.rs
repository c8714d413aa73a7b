//! ML backfill orchestration: the replay cycle ends once the number of
//! backtest setups stops growing for a plateau period.

use vstd::prelude::*;

verus! {

/// Phase written to the progress row.
#[derive(Clone, Copy, Debug, PartialEq, Eq, Structural)]
pub enum BackfillPhase {
    Running,
    PlateauDetected,
}

/// One poll of the watcher: the largest count seen so far, whether the
/// growth timer restarts, the phase, and whether the cycle ends.
#[derive(Clone, Copy, Debug, PartialEq, Eq, Structural)]
pub struct PlateauStep {
    pub last_count: i64,
    pub growth: bool,
    pub phase: BackfillPhase,
    pub done: bool,
}

/// `secs_since_growth` is the time since the count last grew (or since
/// the cycle started).
pub open spec fn spec_plateau_step(last_count: i64, now_count: i64, secs_since_growth: u64, plateau_secs: u64) -> PlateauStep {
    let growing = now_count > last_count;
    let plateau = !growing && secs_since_growth >= plateau_secs;
    PlateauStep {
        last_count: if growing { now_count } else { last_count },
        growth: growing,
        phase: if plateau { BackfillPhase::PlateauDetected } else { BackfillPhase::Running },
        done: plateau,
    }
}

pub fn plateau_step(last_count: i64, now_count: i64, secs_since_growth: u64, plateau_secs: u64) -> (res: PlateauStep)
    ensures
        res == spec_plateau_step(last_count, now_count, secs_since_growth, plateau_secs),
{
    let growing = now_count > last_count;
    let plateau = !growing && secs_since_growth >= plateau_secs;
    PlateauStep {
        last_count: if growing { now_count } else { last_count },
        growth: growing,
        phase: if plateau { BackfillPhase::PlateauDetected } else { BackfillPhase::Running },
        done: plateau,
    }
}

/// The recorded count never decreases, and a cycle never ends on a poll
/// in which the count grew.
pub proof fn lemma_plateau_monotone(last: i64, now: i64, since: u64, plateau: u64)
    ensures
        spec_plateau_step(last, now, since, plateau).last_count >= last,
        spec_plateau_step(last, now, since, plateau).growth ==> !spec_plateau_step(last, now, since, plateau).done,
        spec_plateau_step(last, now, since, plateau).last_count == if now > last { now } else { last },
{
}

} // verus!
