//! Grading a detection against the bars that followed it: the first bar
//! that touches the stop or a take-profit decides, the stop first.

use vstd::prelude::*;

verus! {

/// What one forward bar did against the detection's levels: whether it
/// touched the stop, and for each take-profit level, in ladder order,
/// whether it reached it.
pub struct BarTouch {
    pub sl_touched: bool,
    pub tp_reached: Vec<bool>,
}

/// The graded outcome.
#[derive(Clone, Copy, Debug, PartialEq, Eq, Structural)]
pub enum PatternOutcome {
    /// The stop was touched on bar `bar` (counted from the detection).
    SlHit { bar: usize },
    /// Take-profit `level` (1-based: the furthest level reached on that
    /// bar) was reached on bar `bar`.
    TpHit { level: usize, bar: usize },
    /// No level was hit within the expiry horizon.
    Expired,
    /// No level was hit yet and the horizon is not over.
    Active,
}

/// Index of the last `true`, or -1.
pub open spec fn last_reached(s: Seq<bool>) -> int
    decreases s.len(),
{
    if s.len() == 0 {
        -1
    } else if s.last() {
        s.len() - 1
    } else {
        last_reached(s.drop_last())
    }
}

pub open spec fn touches(b: BarTouch) -> bool {
    b.sl_touched || last_reached(b.tp_reached@) >= 0
}

/// `i` is the first bar that touched a level.
pub open spec fn first_touch(bars: Seq<BarTouch>, i: int) -> bool {
    &&& 0 <= i < bars.len()
    &&& touches(bars[i])
    &&& forall|j: int| 0 <= j < i ==> !touches(#[trigger] bars[j])
}

pub open spec fn graded_at(b: BarTouch, i: int) -> PatternOutcome {
    if b.sl_touched {
        PatternOutcome::SlHit { bar: i as usize }
    } else {
        PatternOutcome::TpHit { level: (last_reached(b.tp_reached@) + 1) as usize, bar: i as usize }
    }
}

proof fn lemma_last_reached_bounds(s: Seq<bool>)
    ensures
        -1 <= last_reached(s) < s.len(),
        last_reached(s) >= 0 ==> s[last_reached(s)],
        forall|k: int| last_reached(s) < k < s.len() ==> !s[k],
    decreases s.len(),
{
    if s.len() > 0 && !s.last() {
        let t = s.drop_last();
        lemma_last_reached_bounds(t);
        assert forall|k: int| last_reached(s) < k < s.len() implies !s[k] by {
            if k < s.len() - 1 {
                assert(s[k] == t[k]);
            }
        }
    }
}

/// Furthest level reached on a bar, or -1.
fn furthest_level(tp: &Vec<bool>) -> (res: i64)
    requires
        tp@.len() < i64::MAX,
    ensures
        res == last_reached(tp@),
{
    let mut best: i64 = -1;
    let mut k: usize = 0;
    while k < tp.len()
        invariant
            k <= tp@.len(),
            tp@.len() < i64::MAX,
            best == last_reached(tp@.take(k as int)),
        decreases tp@.len() - k,
    {
        proof {
            assert(tp@.take(k + 1).drop_last() =~= tp@.take(k as int));
        }
        if tp[k] {
            best = k as i64;
        }
        k = k + 1;
    }
    assert(tp@.take(tp@.len() as int) =~= tp@);
    best
}

/// Walks the forward bars (at most the horizon plus one were fetched):
/// the first bar that touches a level grades the detection, a stop touch
/// before any take-profit on the same bar; without a touch it has expired
/// once `ttl_bars` bars have been seen, else it is still active.
pub fn walk_outcome(bars: &Vec<BarTouch>, ttl_bars: i64) -> (res: PatternOutcome)
    requires
        forall|i: int| 0 <= i < bars@.len() ==> (#[trigger] bars@[i]).tp_reached@.len() < i64::MAX,
    ensures
        match res {
            PatternOutcome::SlHit { bar } => first_touch(bars@, bar as int) && res == graded_at(bars@[bar as int], bar as int),
            PatternOutcome::TpHit { level: _, bar } => first_touch(bars@, bar as int) && res == graded_at(bars@[bar as int], bar as int),
            PatternOutcome::Expired => (forall|j: int| 0 <= j < bars@.len() ==> !touches(#[trigger] bars@[j])) && bars@.len() >= ttl_bars,
            PatternOutcome::Active => (forall|j: int| 0 <= j < bars@.len() ==> !touches(#[trigger] bars@[j])) && bars@.len() < ttl_bars,
        },
{
    let n = bars.len();
    let mut i: usize = 0;
    while i < n
        invariant
            n == bars@.len(),
            i <= n,
            forall|k: int| 0 <= k < bars@.len() ==> (#[trigger] bars@[k]).tp_reached@.len() < i64::MAX,
            forall|j: int| 0 <= j < i ==> !touches(#[trigger] bars@[j]),
        decreases n - i,
    {
        let b = &bars[i];
        if b.sl_touched {
            assert(first_touch(bars@, i as int));
            return PatternOutcome::SlHit { bar: i };
        }
        let best = furthest_level(&b.tp_reached);
        if best >= 0 {
            proof {
                lemma_last_reached_bounds(b.tp_reached@);
            }
            assert(first_touch(bars@, i as int));
            return PatternOutcome::TpHit { level: (best + 1) as usize, bar: i };
        }
        i = i + 1;
    }
    if n as i128 >= ttl_bars as i128 {
        PatternOutcome::Expired
    } else {
        PatternOutcome::Active
    }
}

impl PatternOutcome {
    /// `outcome` column: `sl_hit`, `tp1_hit`, `tp2_hit`, `tp3_hit` (any
    /// level from the third on), `expired` or `active`.
    pub fn as_str(&self) -> (res: &'static str)
        ensures
            res@ == match *self {
                PatternOutcome::SlHit { .. } => "sl_hit"@,
                PatternOutcome::TpHit { level, .. } => if level == 1 {
                    "tp1_hit"@
                } else if level == 2 {
                    "tp2_hit"@
                } else {
                    "tp3_hit"@
                },
                PatternOutcome::Expired => "expired"@,
                PatternOutcome::Active => "active"@,
            },
    {
        match *self {
            PatternOutcome::SlHit { .. } => "sl_hit",
            PatternOutcome::TpHit { level, .. } => if level == 1 {
                "tp1_hit"
            } else if level == 2 {
                "tp2_hit"
            } else {
                "tp3_hit"
            },
            PatternOutcome::Expired => "expired",
            PatternOutcome::Active => "active",
        }
    }
}

/// The bar that grades a detection is unique: two first touches are the
/// same bar.
pub proof fn lemma_first_touch_unique(bars: Seq<BarTouch>, i: int, k: int)
    requires
        first_touch(bars, i),
        first_touch(bars, k),
    ensures
        i == k,
{
    if i < k {
        assert(!touches(bars[i]));
    } else if k < i {
        assert(!touches(bars[k]));
    }
}

} // verus!
