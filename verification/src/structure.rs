//! Elliott structure tracking (`iq_structures`): the stage a group of
//! detections puts a structure in, the labelling of its anchors, and the
//! direction of the next tradeable leg.

use vstd::prelude::*;
use crate::text::{is_prefix, starts_with, str_eq};

verus! {

/// Family of a detection row as the tracker groups them.
#[derive(Clone, Copy, Debug, PartialEq, Eq, Structural)]
pub enum RowKind {
    /// Complete five-wave impulse (`motive`).
    Motive,
    /// Complete correction (`abc`).
    Abc,
    /// Early impulse, up to W3 (`elliott_early` / `impulse_nascent*`).
    ImpulseNascent,
    /// Early impulse, up to W4 (`elliott_early` / `impulse_forming*`).
    ImpulseForming,
    /// Early correction, up to B (`elliott_early` / `abc_nascent*`).
    AbcNascent,
    /// Early correction, up to C (`elliott_early` / `abc_forming*`).
    AbcForming,
}

pub open spec fn spec_row_kind(family: Seq<char>, subkind: Seq<char>) -> Option<RowKind> {
    if family == "motive"@ {
        Some(RowKind::Motive)
    } else if family == "abc"@ {
        Some(RowKind::Abc)
    } else if family == "elliott_early"@ {
        if is_prefix("impulse_nascent"@, subkind) {
            Some(RowKind::ImpulseNascent)
        } else if is_prefix("impulse_forming"@, subkind) {
            Some(RowKind::ImpulseForming)
        } else if is_prefix("abc_nascent"@, subkind) {
            Some(RowKind::AbcNascent)
        } else if is_prefix("abc_forming"@, subkind) {
            Some(RowKind::AbcForming)
        } else {
            None
        }
    } else {
        None
    }
}

pub fn row_kind(family: &str, subkind: &str) -> (res: Option<RowKind>)
    ensures
        res == spec_row_kind(family@, subkind@),
{
    if str_eq(family, "motive") {
        Some(RowKind::Motive)
    } else if str_eq(family, "abc") {
        Some(RowKind::Abc)
    } else if str_eq(family, "elliott_early") {
        if starts_with(subkind, "impulse_nascent") {
            Some(RowKind::ImpulseNascent)
        } else if starts_with(subkind, "impulse_forming") {
            Some(RowKind::ImpulseForming)
        } else if starts_with(subkind, "abc_nascent") {
            Some(RowKind::AbcNascent)
        } else if starts_with(subkind, "abc_forming") {
            Some(RowKind::AbcForming)
        } else {
            None
        }
    } else {
        None
    }
}

/// One detection of a (series, slot) group.
pub struct DetectionRow {
    pub pattern_family: String,
    pub subkind: String,
    /// End of the detection, seconds since the epoch.
    pub end_time_secs: i64,
}

pub open spec fn kind_of(r: DetectionRow) -> Option<RowKind> {
    spec_row_kind(r.pattern_family@, r.subkind@)
}

/// `i` is the row the tracker keeps for `kind`: a row of that kind with the
/// latest end time, the earliest such row on ties.
pub open spec fn is_latest(g: Seq<DetectionRow>, kind: RowKind, i: int) -> bool {
    &&& 0 <= i < g.len()
    &&& kind_of(g[i]) == Some(kind)
    &&& forall|j: int| 0 <= j < g.len() && kind_of(#[trigger] g[j]) == Some(kind) ==> g[j].end_time_secs <= g[i].end_time_secs
    &&& forall|j: int| 0 <= j < i && kind_of(#[trigger] g[j]) == Some(kind) ==> g[j].end_time_secs < g[i].end_time_secs
}

pub open spec fn latest_ok(g: Seq<DetectionRow>, kind: RowKind, r: Option<usize>) -> bool {
    match r {
        Some(i) => is_latest(g, kind, i as int),
        None => forall|j: int| 0 <= j < g.len() ==> kind_of(#[trigger] g[j]) != Some(kind),
    }
}

/// The freshest row of each kind in a group.
pub struct LatestRows {
    pub motive: Option<usize>,
    pub abc: Option<usize>,
    pub impulse_nascent: Option<usize>,
    pub impulse_forming: Option<usize>,
    pub abc_nascent: Option<usize>,
    pub abc_forming: Option<usize>,
}

pub open spec fn latest_rows_ok(g: Seq<DetectionRow>, l: LatestRows) -> bool {
    &&& latest_ok(g, RowKind::Motive, l.motive)
    &&& latest_ok(g, RowKind::Abc, l.abc)
    &&& latest_ok(g, RowKind::ImpulseNascent, l.impulse_nascent)
    &&& latest_ok(g, RowKind::ImpulseForming, l.impulse_forming)
    &&& latest_ok(g, RowKind::AbcNascent, l.abc_nascent)
    &&& latest_ok(g, RowKind::AbcForming, l.abc_forming)
}

/// Keeps `slot` unless the candidate `i` ends strictly later.
fn pick_latest(g: &Vec<DetectionRow>, slot: Option<usize>, i: usize, kind: RowKind) -> (res: Option<usize>)
    requires
        i < g@.len(),
        kind_of(g@[i as int]) == Some(kind),
        latest_ok(g@.take(i as int), kind, slot),
    ensures
        res matches Some(p) && is_latest(g@.take(i + 1), kind, p as int),
{
    let ghost gi = g@.take(i + 1);
    assert(gi[i as int] == g@[i as int]);
    match slot {
        Some(p) => {
            assert(g@.take(i as int)[p as int] == g@[p as int]);
            if g[p].end_time_secs >= g[i].end_time_secs {
                assert forall|j: int| 0 <= j < gi.len() && kind_of(#[trigger] gi[j]) == Some(kind) implies gi[j].end_time_secs <= gi[p as int].end_time_secs by {
                    if j < i {
                        assert(g@.take(i as int)[j] == gi[j]);
                    }
                }
                assert forall|j: int| 0 <= j < p && kind_of(#[trigger] gi[j]) == Some(kind) implies gi[j].end_time_secs < gi[p as int].end_time_secs by {
                    assert(g@.take(i as int)[j] == gi[j]);
                }
                Some(p)
            } else {
                assert forall|j: int| 0 <= j < gi.len() && kind_of(#[trigger] gi[j]) == Some(kind) implies gi[j].end_time_secs <= gi[i as int].end_time_secs by {
                    if j < i {
                        assert(g@.take(i as int)[j] == gi[j]);
                    }
                }
                assert forall|j: int| 0 <= j < i && kind_of(#[trigger] gi[j]) == Some(kind) implies gi[j].end_time_secs < gi[i as int].end_time_secs by {
                    assert(g@.take(i as int)[j] == gi[j]);
                }
                Some(i)
            }
        },
        None => {
            assert forall|j: int| 0 <= j < gi.len() && kind_of(#[trigger] gi[j]) == Some(kind) implies gi[j].end_time_secs <= gi[i as int].end_time_secs by {
                if j < i {
                    assert(g@.take(i as int)[j] == gi[j]);
                }
            }
            assert forall|j: int| 0 <= j < i && kind_of(#[trigger] gi[j]) == Some(kind) implies gi[j].end_time_secs < gi[i as int].end_time_secs by {
                assert(g@.take(i as int)[j] == gi[j]);
            }
            Some(i)
        },
    }
}

proof fn lemma_latest_extends(g: Seq<DetectionRow>, i: int, kind: RowKind, r: Option<usize>)
    requires
        0 <= i < g.len(),
        kind_of(g[i]) != Some(kind),
        latest_ok(g.take(i), kind, r),
    ensures
        latest_ok(g.take(i + 1), kind, r),
{
    let a = g.take(i);
    let b = g.take(i + 1);
    assert forall|j: int| 0 <= j < a.len() implies #[trigger] a[j] == b[j] by {}
    assert(b[i] == g[i]);
    match r {
        Some(p) => {
            assert forall|j: int| 0 <= j < b.len() && kind_of(#[trigger] b[j]) == Some(kind) implies b[j].end_time_secs <= b[p as int].end_time_secs by {
                if j < i {
                    assert(a[j] == b[j]);
                }
            }
            assert forall|j: int| 0 <= j < p && kind_of(#[trigger] b[j]) == Some(kind) implies b[j].end_time_secs < b[p as int].end_time_secs by {
                assert(a[j] == b[j]);
            }
        },
        None => {
            assert forall|j: int| 0 <= j < b.len() implies kind_of(#[trigger] b[j]) != Some(kind) by {
                if j < i {
                    assert(a[j] == b[j]);
                }
            }
        },
    }
}

pub fn select_latest(group: &Vec<DetectionRow>) -> (res: LatestRows)
    ensures
        latest_rows_ok(group@, res),
{
    let mut l = LatestRows {
        motive: None,
        abc: None,
        impulse_nascent: None,
        impulse_forming: None,
        abc_nascent: None,
        abc_forming: None,
    };
    let n = group.len();
    let mut i: usize = 0;
    while i < n
        invariant
            n == group@.len(),
            i <= n,
            latest_rows_ok(group@.take(i as int), l),
        decreases n - i,
    {
        let k = row_kind(group[i].pattern_family.as_str(), group[i].subkind.as_str());
        proof {
            let g = group@;
            if k != Some(RowKind::Motive) { lemma_latest_extends(g, i as int, RowKind::Motive, l.motive); }
            if k != Some(RowKind::Abc) { lemma_latest_extends(g, i as int, RowKind::Abc, l.abc); }
            if k != Some(RowKind::ImpulseNascent) { lemma_latest_extends(g, i as int, RowKind::ImpulseNascent, l.impulse_nascent); }
            if k != Some(RowKind::ImpulseForming) { lemma_latest_extends(g, i as int, RowKind::ImpulseForming, l.impulse_forming); }
            if k != Some(RowKind::AbcNascent) { lemma_latest_extends(g, i as int, RowKind::AbcNascent, l.abc_nascent); }
            if k != Some(RowKind::AbcForming) { lemma_latest_extends(g, i as int, RowKind::AbcForming, l.abc_forming); }
        }
        match k {
            Some(RowKind::Motive) => { l.motive = pick_latest(group, l.motive, i, RowKind::Motive); },
            Some(RowKind::Abc) => { l.abc = pick_latest(group, l.abc, i, RowKind::Abc); },
            Some(RowKind::ImpulseNascent) => { l.impulse_nascent = pick_latest(group, l.impulse_nascent, i, RowKind::ImpulseNascent); },
            Some(RowKind::ImpulseForming) => { l.impulse_forming = pick_latest(group, l.impulse_forming, i, RowKind::ImpulseForming); },
            Some(RowKind::AbcNascent) => { l.abc_nascent = pick_latest(group, l.abc_nascent, i, RowKind::AbcNascent); },
            Some(RowKind::AbcForming) => { l.abc_forming = pick_latest(group, l.abc_forming, i, RowKind::AbcForming); },
            None => {},
        }
        i = i + 1;
    }
    assert(group@.take(n as int) == group@);
    l
}


/// Elliott rule broken by a complete impulse.
#[derive(Clone, Copy, Debug, PartialEq, Eq, Structural)]
pub enum MotiveViolation {
    W2BeyondW1Start,
    W4OverlapsW1,
    W3Shortest,
}

impl MotiveViolation {
    pub fn as_str(&self) -> (res: &'static str)
        ensures
            res@ == match self {
                MotiveViolation::W2BeyondW1Start => "W2 retraces beyond W1 start"@,
                MotiveViolation::W4OverlapsW1 => "W4 overlaps W1"@,
                MotiveViolation::W3Shortest => "W3 is the shortest of W1/W3/W5"@,
            },
    {
        match self {
            MotiveViolation::W2BeyondW1Start => "W2 retraces beyond W1 start",
            MotiveViolation::W4OverlapsW1 => "W4 overlaps W1",
            MotiveViolation::W3Shortest => "W3 is the shortest of W1/W3/W5",
        }
    }
}

/// What the tracker knows about the chosen rows beyond their kinds: the
/// Elliott rule the latest motive breaks, if any, and whether the latest
/// forming / nascent impulse has a stale last anchor.
#[derive(Clone, Copy, Debug, PartialEq, Eq, Structural)]
pub struct StructureEvidence {
    pub motive_violation: Option<MotiveViolation>,
    pub forming_stale: bool,
    pub nascent_stale: bool,
}

#[derive(Clone, Copy, Debug, PartialEq, Eq, Structural)]
pub enum StructState {
    Candidate,
    Tracking,
    Completed,
    Invalidated,
}

#[derive(Clone, Copy, Debug, PartialEq, Eq, Structural)]
pub enum StructStage {
    Nascent,
    Forming,
    Completed,
}

#[derive(Clone, Copy, Debug, PartialEq, Eq, Structural)]
pub enum Wave {
    W3,
    W4,
    W5,
    B,
    C,
}

/// Why a structure was invalidated or closed early.
#[derive(Clone, Copy, Debug, PartialEq, Eq, Structural)]
pub enum StructureReason {
    Motive(MotiveViolation),
    StaleForming,
    StaleNascent,
}

/// The update a group of detections asks for: the row it is built from,
/// its kind, the new state, wave and stage, and a reason when the
/// structure is invalidated or closed as stale.
#[derive(Clone, Copy, Debug, PartialEq, Eq, Structural)]
pub struct StageDecision {
    pub source: RowKind,
    pub row: usize,
    pub state: StructState,
    pub wave: Wave,
    pub stage: StructStage,
    pub reason: Option<StructureReason>,
}

pub open spec fn mk_stage(
    source: RowKind,
    row: usize,
    state: StructState,
    wave: Wave,
    stage: StructStage,
    reason: Option<StructureReason>,
) -> StageDecision {
    StageDecision { source, row, state, wave, stage, reason }
}

/// The freshest stage wins: a full ABC, then a forming ABC, a nascent ABC,
/// a full impulse, a forming impulse and last a nascent impulse. A full
/// ABC completes the structure at C; a partial ABC keeps tracking at C
/// (forming) or B (nascent); a full impulse tracks at W5 unless it breaks
/// an Elliott rule; a fresh forming impulse tracks at W4 (forming) and a
/// fresh nascent impulse is a candidate at W3 (nascent); a forming or
/// nascent impulse whose last anchor is too old is closed as completed.
pub open spec fn spec_derive_update(l: LatestRows, e: StructureEvidence) -> Option<StageDecision> {
    if let Some(i) = l.abc {
        Some(mk_stage(RowKind::Abc, i, StructState::Completed, Wave::C, StructStage::Completed, None))
    } else if let Some(i) = l.abc_forming {
        Some(mk_stage(RowKind::AbcForming, i, StructState::Tracking, Wave::C, StructStage::Forming, None))
    } else if let Some(i) = l.abc_nascent {
        Some(mk_stage(RowKind::AbcNascent, i, StructState::Tracking, Wave::B, StructStage::Nascent, None))
    } else if let Some(i) = l.motive {
        match e.motive_violation {
            Some(v) => Some(mk_stage(RowKind::Motive, i, StructState::Invalidated, Wave::W5, StructStage::Completed, Some(StructureReason::Motive(v)))),
            None => Some(mk_stage(RowKind::Motive, i, StructState::Tracking, Wave::W5, StructStage::Completed, None)),
        }
    } else if let Some(i) = l.impulse_forming {
        if e.forming_stale {
            Some(mk_stage(RowKind::ImpulseForming, i, StructState::Completed, Wave::W5, StructStage::Completed, Some(StructureReason::StaleForming)))
        } else {
            Some(mk_stage(RowKind::ImpulseForming, i, StructState::Tracking, Wave::W4, StructStage::Forming, None))
        }
    } else if let Some(i) = l.impulse_nascent {
        if e.nascent_stale {
            Some(mk_stage(RowKind::ImpulseNascent, i, StructState::Completed, Wave::W3, StructStage::Completed, Some(StructureReason::StaleNascent)))
        } else {
            Some(mk_stage(RowKind::ImpulseNascent, i, StructState::Candidate, Wave::W3, StructStage::Nascent, None))
        }
    } else {
        None
    }
}

pub fn derive_update(latest: &LatestRows, ev: &StructureEvidence) -> (res: Option<StageDecision>)
    ensures
        res == spec_derive_update(*latest, *ev),
{
    if let Some(i) = latest.abc {
        return Some(StageDecision { source: RowKind::Abc, row: i, state: StructState::Completed, wave: Wave::C, stage: StructStage::Completed, reason: None });
    }
    if let Some(i) = latest.abc_forming {
        return Some(StageDecision { source: RowKind::AbcForming, row: i, state: StructState::Tracking, wave: Wave::C, stage: StructStage::Forming, reason: None });
    }
    if let Some(i) = latest.abc_nascent {
        return Some(StageDecision { source: RowKind::AbcNascent, row: i, state: StructState::Tracking, wave: Wave::B, stage: StructStage::Nascent, reason: None });
    }
    if let Some(i) = latest.motive {
        return match ev.motive_violation {
            Some(v) => Some(StageDecision { source: RowKind::Motive, row: i, state: StructState::Invalidated, wave: Wave::W5, stage: StructStage::Completed, reason: Some(StructureReason::Motive(v)) }),
            None => Some(StageDecision { source: RowKind::Motive, row: i, state: StructState::Tracking, wave: Wave::W5, stage: StructStage::Completed, reason: None }),
        };
    }
    if let Some(i) = latest.impulse_forming {
        if ev.forming_stale {
            return Some(StageDecision { source: RowKind::ImpulseForming, row: i, state: StructState::Completed, wave: Wave::W5, stage: StructStage::Completed, reason: Some(StructureReason::StaleForming) });
        }
        return Some(StageDecision { source: RowKind::ImpulseForming, row: i, state: StructState::Tracking, wave: Wave::W4, stage: StructStage::Forming, reason: None });
    }
    if let Some(i) = latest.impulse_nascent {
        if ev.nascent_stale {
            return Some(StageDecision { source: RowKind::ImpulseNascent, row: i, state: StructState::Completed, wave: Wave::W3, stage: StructStage::Completed, reason: Some(StructureReason::StaleNascent) });
        }
        return Some(StageDecision { source: RowKind::ImpulseNascent, row: i, state: StructState::Candidate, wave: Wave::W3, stage: StructStage::Nascent, reason: None });
    }
    None
}

/// A stage decision always names a row of the kind it is built from, and a
/// structure is only ever invalidated by a broken impulse rule.
pub proof fn lemma_update_uses_selected_row(g: Seq<DetectionRow>, l: LatestRows, e: StructureEvidence)
    requires
        latest_rows_ok(g, l),
    ensures
        spec_derive_update(l, e) matches Some(d) ==> 0 <= d.row < g.len() && kind_of(g[d.row as int]) == Some(d.source),
        spec_derive_update(l, e) matches Some(d) ==> (d.state == StructState::Invalidated <==> d.reason matches Some(StructureReason::Motive(_))),
        spec_derive_update(l, e) is None <==> (forall|j: int| 0 <= j < g.len() ==> kind_of(#[trigger] g[j]) is None),
{
    assert(spec_derive_update(l, e) is None ==> (forall|j: int| 0 <= j < g.len() ==> kind_of(#[trigger] g[j]) is None)) by {
        if spec_derive_update(l, e) is None {
            assert forall|j: int| 0 <= j < g.len() implies kind_of(#[trigger] g[j]) is None by {
                match kind_of(g[j]) {
                    Some(k) => {
                        assert(latest_ok(g, k, match k { RowKind::Motive => l.motive, RowKind::Abc => l.abc, RowKind::ImpulseNascent => l.impulse_nascent, RowKind::ImpulseForming => l.impulse_forming, RowKind::AbcNascent => l.abc_nascent, RowKind::AbcForming => l.abc_forming }));
                    },
                    None => {},
                }
            }
        }
    }
}

impl StageDecision {
    pub fn state_str(&self) -> (res: &'static str)
        ensures
            res@ == match self.state {
                StructState::Candidate => "candidate"@,
                StructState::Tracking => "tracking"@,
                StructState::Completed => "completed"@,
                StructState::Invalidated => "invalidated"@,
            },
    {
        match self.state {
            StructState::Candidate => "candidate",
            StructState::Tracking => "tracking",
            StructState::Completed => "completed",
            StructState::Invalidated => "invalidated",
        }
    }

    pub fn wave_str(&self) -> (res: &'static str)
        ensures
            res@ == match self.wave {
                Wave::W3 => "W3"@,
                Wave::W4 => "W4"@,
                Wave::W5 => "W5"@,
                Wave::B => "B"@,
                Wave::C => "C"@,
            },
    {
        match self.wave {
            Wave::W3 => "W3",
            Wave::W4 => "W4",
            Wave::W5 => "W5",
            Wave::B => "B",
            Wave::C => "C",
        }
    }

    pub fn stage_str(&self) -> (res: &'static str)
        ensures
            res@ == match self.stage {
                StructStage::Nascent => "nascent"@,
                StructStage::Forming => "forming"@,
                StructStage::Completed => "completed"@,
            },
    {
        match self.stage {
            StructStage::Nascent => "nascent",
            StructStage::Forming => "forming",
            StructStage::Completed => "completed",
        }
    }

    /// `raw_meta.source` of the update.
    pub fn source_str(&self) -> (res: &'static str)
        ensures
            res@ == match self.source {
                RowKind::Abc => "abc"@,
                RowKind::AbcForming => "abc_forming"@,
                RowKind::AbcNascent => "abc_nascent"@,
                RowKind::Motive => "motive"@,
                RowKind::ImpulseForming => "impulse_forming"@,
                RowKind::ImpulseNascent => "impulse_nascent"@,
            },
    {
        match self.source {
            RowKind::Abc => "abc",
            RowKind::AbcForming => "abc_forming",
            RowKind::AbcNascent => "abc_nascent",
            RowKind::Motive => "motive",
            RowKind::ImpulseForming => "impulse_forming",
            RowKind::ImpulseNascent => "impulse_nascent",
        }
    }

    /// Text of `invalidation_reason`, when there is one.
    pub fn reason_str(&self) -> (res: Option<&'static str>)
        ensures
            match self.reason {
                None => res is None,
                Some(StructureReason::StaleForming) => res matches Some(r) && r@ == "anchor too stale (forming)"@,
                Some(StructureReason::StaleNascent) => res matches Some(r) && r@ == "anchor too stale (nascent)"@,
                Some(StructureReason::Motive(v)) => res matches Some(r) && r@ == match v {
                    MotiveViolation::W2BeyondW1Start => "W2 retraces beyond W1 start"@,
                    MotiveViolation::W4OverlapsW1 => "W4 overlaps W1"@,
                    MotiveViolation::W3Shortest => "W3 is the shortest of W1/W3/W5"@,
                },
            },
    {
        match self.reason {
            None => None,
            Some(StructureReason::StaleForming) => Some("anchor too stale (forming)"),
            Some(StructureReason::StaleNascent) => Some("anchor too stale (nascent)"),
            Some(StructureReason::Motive(v)) => Some(v.as_str()),
        }
    }
}


/// Wave label of the `i`-th anchor of an impulse (`W0`..`W5`), `?` past
/// the sixth.
pub open spec fn impulse_label(i: int) -> Seq<char> {
    if i == 0 {
        "W0"@
    } else if i == 1 {
        "W1"@
    } else if i == 2 {
        "W2"@
    } else if i == 3 {
        "W3"@
    } else if i == 4 {
        "W4"@
    } else if i == 5 {
        "W5"@
    } else {
        "?"@
    }
}

/// Wave label of the `i`-th anchor of a correction that has reached `B`
/// (`W5`, `A`, `B`) or `C` (`W5`, `A`, `B`, `C`); `?` past the end.
pub open spec fn correction_label(up_to_b: bool, i: int) -> Seq<char> {
    if i == 0 {
        "W5"@
    } else if i == 1 {
        "A"@
    } else if i == 2 {
        "B"@
    } else if i == 3 && !up_to_b {
        "C"@
    } else {
        "?"@
    }
}

pub fn impulse_label_at(i: usize) -> (res: &'static str)
    ensures
        res@ == impulse_label(i as int),
{
    if i == 0 {
        "W0"
    } else if i == 1 {
        "W1"
    } else if i == 2 {
        "W2"
    } else if i == 3 {
        "W3"
    } else if i == 4 {
        "W4"
    } else if i == 5 {
        "W5"
    } else {
        "?"
    }
}

pub fn correction_label_at(up_to_b: bool, i: usize) -> (res: &'static str)
    ensures
        res@ == correction_label(up_to_b, i as int),
{
    if i == 0 {
        "W5"
    } else if i == 1 {
        "A"
    } else if i == 2 {
        "B"
    } else if i == 3 && !up_to_b {
        "C"
    } else {
        "?"
    }
}

/// One anchor of a combined structure: taken from the impulse or the
/// correction row, at `index` there, with its wave label.
pub struct AnchorRef {
    pub from_motive: bool,
    pub index: usize,
    pub label: &'static str,
}

pub open spec fn anchor_is(a: AnchorRef, from_motive: bool, index: int, label: Seq<char>) -> bool {
    a.from_motive == from_motive && a.index == index && a.label@ == label
}

/// Layout of an impulse followed by a (partial) correction: the impulse's
/// anchors labelled `W0`..`W5`, then the correction's anchors labelled
/// from `W5` on, its first anchor dropped when the impulse already
/// supplied it. `current_wave` `B` labels the correction up to B, any
/// other wave up to C.
pub fn combined_anchor_plan(motive_len: usize, abc_len: usize, current_wave: &str) -> (res: Vec<AnchorRef>)
    requires
        motive_len + abc_len <= usize::MAX,
    ensures
        ({
            let skip: int = if motive_len > 0 && abc_len > 0 { 1 } else { 0 };
            let up_to_b = current_wave@ == "B"@;
            &&& res@.len() == motive_len + abc_len - skip
            &&& forall|i: int| 0 <= i < motive_len ==> anchor_is(#[trigger] res@[i], true, i, impulse_label(i))
            &&& forall|k: int| motive_len <= k < res@.len() ==> anchor_is(#[trigger] res@[k], false, k - motive_len + skip, correction_label(up_to_b, k - motive_len + skip))
        }),
{
    let up_to_b = str_eq(current_wave, "B");
    let mut out: Vec<AnchorRef> = Vec::new();
    let mut i: usize = 0;
    while i < motive_len
        invariant
            i <= motive_len,
            out@.len() == i,
            forall|j: int| 0 <= j < i ==> anchor_is(#[trigger] out@[j], true, j, impulse_label(j)),
        decreases motive_len - i,
    {
        out.push(AnchorRef { from_motive: true, index: i, label: impulse_label_at(i) });
        i = i + 1;
    }
    let start: usize = if motive_len > 0 && abc_len > 0 { 1 } else { 0 };
    let mut k: usize = start;
    while k < abc_len
        invariant
            start <= k,
            k <= abc_len || k == start,
            start == (if motive_len > 0 && abc_len > 0 { 1usize } else { 0usize }),
            motive_len + abc_len <= usize::MAX,
            out@.len() == motive_len + k - start,
            up_to_b == (current_wave@ == "B"@),
            forall|j: int| 0 <= j < motive_len ==> anchor_is(#[trigger] out@[j], true, j, impulse_label(j)),
            forall|j: int| motive_len <= j < out@.len() ==> anchor_is(#[trigger] out@[j], false, j - motive_len + start, correction_label(up_to_b, j - motive_len + start)),
        decreases abc_len - k,
    {
        out.push(AnchorRef { from_motive: false, index: k, label: correction_label_at(up_to_b, k) });
        k = k + 1;
    }
    out
}

/// Direction of the next leg IQ-T trades after the parent structure's
/// current wave ends (`+1` long, `-1` short): after W2/W4 and after A the
/// parent direction, after B against it, after C the parent direction
/// again; no trade from any other wave.
pub open spec fn spec_next_wave_direction(parent_direction: i16, current_wave: Seq<char>) -> Option<i16> {
    let d: i16 = if parent_direction == 1 { 1i16 } else { -1i16 };
    let e: i16 = if parent_direction == 1 { -1i16 } else { 1i16 };
    if current_wave == "W2"@ || current_wave == "W4"@ || current_wave == "A"@ || current_wave == "C"@ {
        Some(d)
    } else if current_wave == "B"@ {
        Some(e)
    } else {
        None
    }
}

/// Inside a correction the traded legs alternate: the leg after B always
/// opposes the legs after A and after C, and every tradeable leg is long
/// or short.
pub proof fn lemma_correction_legs_alternate(parent_direction: i16)
    ensures
        spec_next_wave_direction(parent_direction, "B"@) matches Some(b)
            && spec_next_wave_direction(parent_direction, "A"@) matches Some(a)
            && b == -a,
        spec_next_wave_direction(parent_direction, "A"@) == spec_next_wave_direction(parent_direction, "C"@),
        forall|w: Seq<char>| #[trigger] spec_next_wave_direction(parent_direction, w) matches Some(d) ==> (d == 1 || d == -1),
{
    reveal_strlit("A");
    reveal_strlit("B");
    reveal_strlit("C");
    reveal_strlit("W2");
    reveal_strlit("W4");
    assert("B"@.len() != "W2"@.len());
    assert("B"@.len() != "W4"@.len());
    assert("B"@[0] != "A"@[0]);
    assert("B"@[0] != "C"@[0]);
    assert("A"@.len() != "W2"@.len());
    assert("A"@.len() != "W4"@.len());
    assert("C"@.len() != "W2"@.len());
}

pub fn expected_next_wave_direction(parent_direction: i16, current_wave: &str) -> (res: Option<i16>)
    ensures
        res == spec_next_wave_direction(parent_direction, current_wave@),
{
    let bull = parent_direction == 1;
    proof {
        reveal_strlit("B");
        reveal_strlit("C");
        reveal_strlit("A");
        assert("B"@[0] != "C"@[0]);
        assert("B"@ != "C"@);
    }
    if str_eq(current_wave, "W2") || str_eq(current_wave, "W4") {
        Some(if bull { 1 } else { -1 })
    } else if str_eq(current_wave, "A") {
        Some(if bull { 1 } else { -1 })
    } else if str_eq(current_wave, "B") {
        Some(if bull { -1 } else { 1 })
    } else if str_eq(current_wave, "C") {
        Some(if bull { 1 } else { -1 })
    } else {
        None
    }
}

/// The tracker's state machine, row kind by row kind: a full ABC completes
/// the structure at C; a forming ABC tracks at C and a nascent one at B; a
/// full impulse tracks at W5 (completed stage) unless it breaks an Elliott
/// rule, which invalidates it with that rule as reason; a forming impulse
/// tracks at W4 and a nascent one is a candidate at W3, unless stale,
/// which completes them with the staleness as reason. A structure is
/// completed only by a full ABC or by staleness, never by a full impulse.
pub proof fn lemma_stage_follows_row_kind(l: LatestRows, e: StructureEvidence)
    ensures
        spec_derive_update(l, e) matches Some(d) ==> {
            &&& d.source == RowKind::Abc ==> d.state == StructState::Completed && d.wave == Wave::C
                && d.stage == StructStage::Completed && d.reason is None
            &&& d.source == RowKind::AbcForming ==> d.state == StructState::Tracking && d.wave
                == Wave::C && d.stage == StructStage::Forming && d.reason is None
            &&& d.source == RowKind::AbcNascent ==> d.state == StructState::Tracking && d.wave
                == Wave::B && d.stage == StructStage::Nascent && d.reason is None
            &&& d.source == RowKind::Motive ==> d.wave == Wave::W5 && d.stage
                == StructStage::Completed && (match e.motive_violation {
                None => d.state == StructState::Tracking && d.reason is None,
                Some(v) => d.state == StructState::Invalidated && d.reason == Some(
                    StructureReason::Motive(v),
                ),
            })
            &&& d.source == RowKind::ImpulseForming ==> (if e.forming_stale {
                d.state == StructState::Completed && d.wave == Wave::W5 && d.stage
                    == StructStage::Completed && d.reason == Some(StructureReason::StaleForming)
            } else {
                d.state == StructState::Tracking && d.wave == Wave::W4 && d.stage
                    == StructStage::Forming && d.reason is None
            })
            &&& d.source == RowKind::ImpulseNascent ==> (if e.nascent_stale {
                d.state == StructState::Completed && d.wave == Wave::W3 && d.stage
                    == StructStage::Completed && d.reason == Some(StructureReason::StaleNascent)
            } else {
                d.state == StructState::Candidate && d.wave == Wave::W3 && d.stage
                    == StructStage::Nascent && d.reason is None
            })
            &&& d.state == StructState::Completed ==> d.source == RowKind::Abc || d.reason
                == Some(StructureReason::StaleForming) || d.reason == Some(
                StructureReason::StaleNascent,
            )
        },
        l.abc is None && l.abc_forming is None && l.abc_nascent is None && l.motive is Some
            ==> (spec_derive_update(l, e) matches Some(d) && d.source == RowKind::Motive && d.row
            == l.motive->0),
{
}

/// The most advanced stage present decides: a full ABC wins over
/// everything, then a forming ABC, a nascent ABC, a full impulse, a
/// forming impulse and a nascent impulse.
pub proof fn lemma_most_advanced_row_decides(l: LatestRows, e: StructureEvidence)
    ensures
        l.abc matches Some(i) ==> (spec_derive_update(l, e) matches Some(d) && d.source
            == RowKind::Abc && d.row == i),
        l.abc is None && l.abc_forming is Some ==> (spec_derive_update(l, e) matches Some(d)
            && d.source == RowKind::AbcForming && d.row == l.abc_forming->0),
        l.abc is None && l.abc_forming is None && l.abc_nascent is Some ==> (spec_derive_update(
            l,
            e,
        ) matches Some(d) && d.source == RowKind::AbcNascent && d.row == l.abc_nascent->0),
        l.abc is None && l.abc_forming is None && l.abc_nascent is None && l.motive is None
            && l.impulse_forming is Some ==> (spec_derive_update(l, e) matches Some(d) && d.source
            == RowKind::ImpulseForming && d.row == l.impulse_forming->0),
        l.abc is None && l.abc_forming is None && l.abc_nascent is None && l.motive is None
            && l.impulse_forming is None && l.impulse_nascent is Some ==> (spec_derive_update(l, e)
            matches Some(d) && d.source == RowKind::ImpulseNascent && d.row
            == l.impulse_nascent->0),
{
}

} // verus!
