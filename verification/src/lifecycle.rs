//! Lifecycle state machine of intake-managed `engine_symbols`:
//! `promoted -> analyzing -> ready -> trading -> closing -> cooldown -> retired`,
//! plus the promotion decisions of the intake and Nansen pipelines.

use vstd::prelude::*;
use crate::text::str_eq;

verus! {

/// Lifecycle of an engine symbol. `Manual` rows are owned by the user and
/// never advanced by the sweep.
#[derive(Clone, Copy, Debug, PartialEq, Eq, Structural)]
pub enum LifecycleState {
    Promoted,
    Analyzing,
    Ready,
    Trading,
    Closing,
    Cooldown,
    Retired,
    Manual,
}

/// Position of a state along the managed pipeline (`Manual` is outside it).
pub open spec fn rank(s: LifecycleState) -> int {
    match s {
        LifecycleState::Promoted => 0,
        LifecycleState::Analyzing => 1,
        LifecycleState::Ready => 2,
        LifecycleState::Trading => 3,
        LifecycleState::Closing => 4,
        LifecycleState::Cooldown => 5,
        LifecycleState::Retired => 6,
        LifecycleState::Manual => -1,
    }
}

/// The text stored in `engine_symbols.lifecycle_state`.
pub open spec fn state_name(s: LifecycleState) -> Seq<char> {
    match s {
        LifecycleState::Promoted => "promoted"@,
        LifecycleState::Analyzing => "analyzing"@,
        LifecycleState::Ready => "ready"@,
        LifecycleState::Trading => "trading"@,
        LifecycleState::Closing => "closing"@,
        LifecycleState::Cooldown => "cooldown"@,
        LifecycleState::Retired => "retired"@,
        LifecycleState::Manual => "manual"@,
    }
}

impl LifecycleState {
    /// The stored name of the state.
    pub fn as_str(&self) -> (res: &'static str)
        ensures
            res@ == state_name(*self),
    {
        match self {
            LifecycleState::Promoted => "promoted",
            LifecycleState::Analyzing => "analyzing",
            LifecycleState::Ready => "ready",
            LifecycleState::Trading => "trading",
            LifecycleState::Closing => "closing",
            LifecycleState::Cooldown => "cooldown",
            LifecycleState::Retired => "retired",
            LifecycleState::Manual => "manual",
        }
    }

    /// Reads a stored state name; `None` for any other text.
    pub fn parse(s: &str) -> (res: Option<LifecycleState>)
        ensures
            match res {
                Some(st) => state_name(st) == s@,
                None => forall|st: LifecycleState| state_name(st) != s@,
            },
    {
        proof {
            lemma_state_names_distinct();
        }
        if str_eq(s, "promoted") {
            Some(LifecycleState::Promoted)
        } else if str_eq(s, "analyzing") {
            Some(LifecycleState::Analyzing)
        } else if str_eq(s, "ready") {
            Some(LifecycleState::Ready)
        } else if str_eq(s, "trading") {
            Some(LifecycleState::Trading)
        } else if str_eq(s, "closing") {
            Some(LifecycleState::Closing)
        } else if str_eq(s, "cooldown") {
            Some(LifecycleState::Cooldown)
        } else if str_eq(s, "retired") {
            Some(LifecycleState::Retired)
        } else if str_eq(s, "manual") {
            Some(LifecycleState::Manual)
        } else {
            None
        }
    }
}

/// Distinct states are stored under distinct names.
pub proof fn lemma_state_names_distinct()
    ensures
        forall|a: LifecycleState, b: LifecycleState| state_name(a) == state_name(b) ==> a == b,
{
    reveal_strlit("promoted");
    reveal_strlit("analyzing");
    reveal_strlit("ready");
    reveal_strlit("trading");
    reveal_strlit("closing");
    reveal_strlit("cooldown");
    reveal_strlit("retired");
    reveal_strlit("manual");
    assert forall|a: LifecycleState, b: LifecycleState| state_name(a) == state_name(b) implies a
        == b by {
        if a != b {
            let x = state_name(a);
            let y = state_name(b);
            if x.len() == y.len() {
                assert(x[0] != y[0] || x[1] != y[1]);
            }
        }
    }
}

/// Net filled position of a symbol, classified against the 1e-9 flatness
/// tolerance: `Flat` below it, `Open` above it, `Boundary` otherwise
/// (exactly at the tolerance, or not a number).
#[derive(Clone, Copy, Debug, PartialEq, Eq, Structural)]
pub enum NetExposure {
    Flat,
    Boundary,
    Open,
}

/// What the sweep reads about one symbol before deciding its step.
#[derive(Clone, Copy, Debug, PartialEq, Eq, Structural)]
pub struct LifecycleObservation {
    /// A `trading_range` analysis snapshot exists.
    pub has_trading_range: bool,
    /// A `tbm_scores` analysis snapshot exists.
    pub has_tbm_scores: bool,
    /// An applied tactical decision exists for the symbol.
    pub has_applied_tactical: bool,
    /// Net filled position of the symbol.
    pub exposure: NetExposure,
    /// Last update of the row, seconds since the epoch.
    pub updated_at_secs: i64,
    /// `now - cooldown_hours`, seconds since the epoch.
    pub cooldown_threshold_secs: i64,
}

/// One transition of the sweep: the state written and, where the step
/// also switches the symbol, the new `enabled` flag.
#[derive(Clone, Copy, Debug, PartialEq, Eq, Structural)]
pub struct LifecycleTransition {
    pub to: LifecycleState,
    pub enabled: Option<bool>,
}

/// The step the sweep takes for a symbol in state `s`.
pub open spec fn spec_next_step(s: LifecycleState, o: LifecycleObservation) -> Option<
    LifecycleTransition,
> {
    match s {
        LifecycleState::Promoted => Some(
            LifecycleTransition { to: LifecycleState::Analyzing, enabled: Some(true) },
        ),
        LifecycleState::Analyzing => if o.has_trading_range && o.has_tbm_scores {
            Some(LifecycleTransition { to: LifecycleState::Ready, enabled: None })
        } else {
            None
        },
        LifecycleState::Ready => if o.has_applied_tactical {
            Some(LifecycleTransition { to: LifecycleState::Trading, enabled: None })
        } else {
            None
        },
        LifecycleState::Trading => if o.exposure == NetExposure::Flat {
            Some(LifecycleTransition { to: LifecycleState::Closing, enabled: None })
        } else {
            None
        },
        LifecycleState::Closing => if o.exposure == NetExposure::Flat {
            Some(LifecycleTransition { to: LifecycleState::Cooldown, enabled: None })
        } else {
            None
        },
        LifecycleState::Cooldown => if o.updated_at_secs < o.cooldown_threshold_secs {
            Some(LifecycleTransition { to: LifecycleState::Retired, enabled: Some(false) })
        } else {
            None
        },
        LifecycleState::Retired => None,
        LifecycleState::Manual => None,
    }
}

/// Decides the sweep's step for one symbol: promoted symbols start
/// analysing (and are enabled); analysing ones become ready once both
/// analysis snapshots exist; ready ones start trading once a tactical
/// decision is applied; trading and closing ones move on once flat; a
/// cooldown ends with retirement (disabled) after the cooldown period.
pub fn next_lifecycle_step(state: LifecycleState, obs: &LifecycleObservation) -> (res: Option<
    LifecycleTransition,
>)
    ensures
        res == spec_next_step(state, *obs),
{
    match state {
        LifecycleState::Promoted => Some(
            LifecycleTransition { to: LifecycleState::Analyzing, enabled: Some(true) },
        ),
        LifecycleState::Analyzing => if obs.has_trading_range && obs.has_tbm_scores {
            Some(LifecycleTransition { to: LifecycleState::Ready, enabled: None })
        } else {
            None
        },
        LifecycleState::Ready => if obs.has_applied_tactical {
            Some(LifecycleTransition { to: LifecycleState::Trading, enabled: None })
        } else {
            None
        },
        LifecycleState::Trading => match obs.exposure {
            NetExposure::Flat => Some(
                LifecycleTransition { to: LifecycleState::Closing, enabled: None },
            ),
            _ => None,
        },
        LifecycleState::Closing => match obs.exposure {
            NetExposure::Flat => Some(
                LifecycleTransition { to: LifecycleState::Cooldown, enabled: None },
            ),
            _ => None,
        },
        LifecycleState::Cooldown => if obs.updated_at_secs < obs.cooldown_threshold_secs {
            Some(LifecycleTransition { to: LifecycleState::Retired, enabled: Some(false) })
        } else {
            None
        },
        LifecycleState::Retired => None,
        LifecycleState::Manual => None,
    }
}

/// A stale lifecycle row is retired (and disabled) unless it still holds
/// an open position.
pub fn retire_stale_decision(exposure: NetExposure) -> (res: Option<LifecycleTransition>)
    ensures
        res == if exposure == NetExposure::Open {
            None
        } else {
            Some(LifecycleTransition { to: LifecycleState::Retired, enabled: Some(false) })
        },
{
    match exposure {
        NetExposure::Open => None,
        _ => Some(LifecycleTransition { to: LifecycleState::Retired, enabled: Some(false) }),
    }
}

/// The sweep only moves a symbol forward, one stage at a time; retired and
/// manual symbols never move; a step enables the symbol exactly when it
/// enters `analyzing` and disables it exactly when it enters `retired`.
pub proof fn lemma_sweep_moves_forward(s: LifecycleState, o: LifecycleObservation)
    ensures
        spec_next_step(s, o) matches Some(t) ==> rank(t.to) == rank(s) + 1 && rank(s) >= 0,
        s == LifecycleState::Retired ==> spec_next_step(s, o) is None,
        s == LifecycleState::Manual ==> spec_next_step(s, o) is None,
        spec_next_step(s, o) matches Some(t) ==> (t.enabled == Some(true) <==> t.to
            == LifecycleState::Analyzing),
        spec_next_step(s, o) matches Some(t) ==> (t.enabled == Some(false) <==> t.to
            == LifecycleState::Retired),
{
}

/// A ready symbol starts trading exactly when an applied tactical
/// decision exists, and nothing else the sweep observes changes that: two
/// observations that agree on the tactical decision give the same step.
pub proof fn lemma_ready_waits_for_tactical(o: LifecycleObservation, o2: LifecycleObservation)
    ensures
        o.has_applied_tactical ==> spec_next_step(LifecycleState::Ready, o) == Some(
            LifecycleTransition { to: LifecycleState::Trading, enabled: None },
        ),
        !o.has_applied_tactical ==> spec_next_step(LifecycleState::Ready, o) is None,
        o.has_applied_tactical == o2.has_applied_tactical ==> spec_next_step(
            LifecycleState::Ready,
            o,
        ) == spec_next_step(LifecycleState::Ready, o2),
{
}

/// Each stage waits for its own evidence: analysing ends once both the
/// trading-range and TBM snapshots exist; trading and closing move on only
/// when the net position is flat; a cooldown retires the symbol only once
/// its row is older than the cooldown threshold; a promoted symbol always
/// starts analysing.
pub proof fn lemma_sweep_waits_for_evidence(o: LifecycleObservation)
    ensures
        spec_next_step(LifecycleState::Promoted, o) is Some,
        spec_next_step(LifecycleState::Analyzing, o) is Some <==> o.has_trading_range
            && o.has_tbm_scores,
        spec_next_step(LifecycleState::Trading, o) is Some <==> o.exposure == NetExposure::Flat,
        spec_next_step(LifecycleState::Closing, o) is Some <==> o.exposure == NetExposure::Flat,
        spec_next_step(LifecycleState::Cooldown, o) is Some <==> o.updated_at_secs
            < o.cooldown_threshold_secs,
{
}

} // verus!
