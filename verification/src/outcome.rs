//! Outcome labelling of closed setups: close reason → category → label,
//! with a P&L fallback for manual closes and missing reasons.

use vstd::prelude::*;
use crate::text::str_eq;

verus! {

/// Final label of a closed setup.
#[derive(Clone, Copy, Debug, PartialEq, Eq, Structural)]
pub enum OutcomeLabel {
    Win,
    Loss,
    Invalidated,
    Neutral,
    Timeout,
}

/// Category of the close reason.
#[derive(Clone, Copy, Debug, PartialEq, Eq, Structural)]
pub enum CloseCategory {
    Tp,
    Sl,
    Reverse,
    Conflict,
    Manual,
    Expiry,
    Unknown,
}

/// Realised P&L percentage against the neutral band: inside the band
/// (`|pnl| < band`), a gain outside it (`pnl > 0`), or anything else.
/// A missing P&L counts as zero.
#[derive(Clone, Copy, Debug, PartialEq, Eq, Structural)]
pub enum PnlBand {
    WithinBand,
    Gain,
    Loss,
}

#[derive(Clone, Copy, Debug, PartialEq, Eq, Structural)]
pub struct LabelDecision {
    pub label: OutcomeLabel,
    pub category: CloseCategory,
}

impl OutcomeLabel {
    pub fn as_str(&self) -> (res: &'static str)
        ensures
            res@ == label_name(*self),
    {
        match self {
            OutcomeLabel::Win => "win",
            OutcomeLabel::Loss => "loss",
            OutcomeLabel::Invalidated => "invalidated",
            OutcomeLabel::Neutral => "neutral",
            OutcomeLabel::Timeout => "timeout",
        }
    }
}

impl CloseCategory {
    pub fn as_str(&self) -> (res: &'static str)
        ensures
            res@ == category_name(*self),
    {
        match self {
            CloseCategory::Tp => "tp",
            CloseCategory::Sl => "sl",
            CloseCategory::Reverse => "reverse",
            CloseCategory::Conflict => "conflict",
            CloseCategory::Manual => "manual",
            CloseCategory::Expiry => "expiry",
            CloseCategory::Unknown => "unknown",
        }
    }
}

pub open spec fn label_name(l: OutcomeLabel) -> Seq<char> {
    match l {
        OutcomeLabel::Win => "win"@,
        OutcomeLabel::Loss => "loss"@,
        OutcomeLabel::Invalidated => "invalidated"@,
        OutcomeLabel::Neutral => "neutral"@,
        OutcomeLabel::Timeout => "timeout"@,
    }
}

pub open spec fn category_name(c: CloseCategory) -> Seq<char> {
    match c {
        CloseCategory::Tp => "tp"@,
        CloseCategory::Sl => "sl"@,
        CloseCategory::Reverse => "reverse"@,
        CloseCategory::Conflict => "conflict"@,
        CloseCategory::Manual => "manual"@,
        CloseCategory::Expiry => "expiry"@,
        CloseCategory::Unknown => "unknown"@,
    }
}

pub open spec fn decision(label: OutcomeLabel, category: CloseCategory) -> LabelDecision {
    LabelDecision { label, category }
}

/// The dispatch table from close reason to base decision.
pub open spec fn spec_classify_close_reason(r: Seq<char>) -> LabelDecision {
    if r == "target_hit"@ {
        decision(OutcomeLabel::Win, CloseCategory::Tp)
    } else if r == "stop_hit"@ {
        decision(OutcomeLabel::Loss, CloseCategory::Sl)
    } else if r == "reverse_signal"@ {
        decision(OutcomeLabel::Invalidated, CloseCategory::Reverse)
    } else if r == "p14_opposite_dir_conflict"@ {
        decision(OutcomeLabel::Invalidated, CloseCategory::Conflict)
    } else if r == "closed_manual"@ {
        decision(OutcomeLabel::Neutral, CloseCategory::Manual)
    } else if r == "expiry"@ || r == "ttl"@ || r == "timeout"@ {
        decision(OutcomeLabel::Timeout, CloseCategory::Expiry)
    } else {
        decision(OutcomeLabel::Neutral, CloseCategory::Unknown)
    }
}

pub fn classify_close_reason(reason: Option<&str>) -> (res: Option<LabelDecision>)
    ensures
        res == match reason {
            Some(r) => Some(spec_classify_close_reason(r@)),
            None => None,
        },
{
    let r = match reason {
        Some(r) => r,
        None => return None,
    };
    let d = if str_eq(r, "target_hit") {
        LabelDecision { label: OutcomeLabel::Win, category: CloseCategory::Tp }
    } else if str_eq(r, "stop_hit") {
        LabelDecision { label: OutcomeLabel::Loss, category: CloseCategory::Sl }
    } else if str_eq(r, "reverse_signal") {
        LabelDecision { label: OutcomeLabel::Invalidated, category: CloseCategory::Reverse }
    } else if str_eq(r, "p14_opposite_dir_conflict") {
        LabelDecision { label: OutcomeLabel::Invalidated, category: CloseCategory::Conflict }
    } else if str_eq(r, "closed_manual") {
        LabelDecision { label: OutcomeLabel::Neutral, category: CloseCategory::Manual }
    } else if str_eq(r, "expiry") || str_eq(r, "ttl") || str_eq(r, "timeout") {
        LabelDecision { label: OutcomeLabel::Timeout, category: CloseCategory::Expiry }
    } else {
        LabelDecision { label: OutcomeLabel::Neutral, category: CloseCategory::Unknown }
    };
    Some(d)
}

/// Label from the P&L band alone.
pub open spec fn band_label(band: PnlBand) -> OutcomeLabel {
    match band {
        PnlBand::WithinBand => OutcomeLabel::Neutral,
        PnlBand::Gain => OutcomeLabel::Win,
        PnlBand::Loss => OutcomeLabel::Loss,
    }
}

/// Fallback when the close reason is missing: `closed_win` / `closed_loss`
/// states decide directly, any other state goes by the P&L band.
pub open spec fn spec_classify_from_state(state: Seq<char>, band: PnlBand) -> LabelDecision {
    if state == "closed_win"@ {
        decision(OutcomeLabel::Win, CloseCategory::Tp)
    } else if state == "closed_loss"@ {
        decision(OutcomeLabel::Loss, CloseCategory::Sl)
    } else {
        decision(band_label(band), CloseCategory::Unknown)
    }
}

pub fn classify_from_state(state: &str, band: PnlBand) -> (res: LabelDecision)
    ensures
        res == spec_classify_from_state(state@, band),
{
    if str_eq(state, "closed_win") {
        LabelDecision { label: OutcomeLabel::Win, category: CloseCategory::Tp }
    } else if str_eq(state, "closed_loss") {
        LabelDecision { label: OutcomeLabel::Loss, category: CloseCategory::Sl }
    } else {
        let label = match band {
            PnlBand::WithinBand => OutcomeLabel::Neutral,
            PnlBand::Gain => OutcomeLabel::Win,
            PnlBand::Loss => OutcomeLabel::Loss,
        };
        LabelDecision { label, category: CloseCategory::Unknown }
    }
}

/// What the labeller reads of a closed setup.
pub struct SetupOutcomeInput {
    pub state: String,
    pub close_reason: Option<String>,
    /// `pnl_pct` against the configured neutral band.
    pub pnl_band: PnlBand,
}

/// Final label: the close reason decides, except that manual closes are
/// split by the P&L band; without a reason the state and P&L decide.
pub open spec fn spec_resolve_label(
    reason: Option<Seq<char>>,
    state: Seq<char>,
    band: PnlBand,
) -> LabelDecision {
    match reason {
        Some(r) => {
            let base = spec_classify_close_reason(r);
            if base.category == CloseCategory::Manual {
                decision(band_label(band), CloseCategory::Manual)
            } else {
                base
            }
        },
        None => spec_classify_from_state(state, band),
    }
}

pub open spec fn reason_view(input: &SetupOutcomeInput) -> Option<Seq<char>> {
    match input.close_reason {
        Some(r) => Some(r@),
        None => None,
    }
}

pub fn resolve_label(input: &SetupOutcomeInput) -> (res: LabelDecision)
    ensures
        res == spec_resolve_label(reason_view(input), input.state@, input.pnl_band),
{
    let reason: Option<&str> = match &input.close_reason {
        Some(r) => Some(r.as_str()),
        None => None,
    };
    if let Some(base) = classify_close_reason(reason) {
        match base.category {
            CloseCategory::Manual => {
                let label = match input.pnl_band {
                    PnlBand::WithinBand => OutcomeLabel::Neutral,
                    PnlBand::Gain => OutcomeLabel::Win,
                    PnlBand::Loss => OutcomeLabel::Loss,
                };
                return LabelDecision { label, category: CloseCategory::Manual };
            },
            _ => return base,
        }
    }
    classify_from_state(input.state.as_str(), input.pnl_band)
}

/// A close reason other than a manual close fixes the outcome whatever
/// the state and P&L; a manual close is labelled by its P&L band alone
/// and always kept in the `manual` category.
pub proof fn lemma_reason_decides(r: Seq<char>, s1: Seq<char>, s2: Seq<char>, b1: PnlBand, b2: PnlBand)
    ensures
        r != "closed_manual"@ ==> spec_resolve_label(Some(r), s1, b1) == spec_resolve_label(
            Some(r),
            s2,
            b2,
        ),
        r == "closed_manual"@ ==> spec_resolve_label(Some(r), s1, b1) == decision(
            band_label(b1),
            CloseCategory::Manual,
        ),
{
    reveal_strlit("target_hit");
    reveal_strlit("stop_hit");
    reveal_strlit("reverse_signal");
    reveal_strlit("p14_opposite_dir_conflict");
    reveal_strlit("closed_manual");
    reveal_strlit("expiry");
    reveal_strlit("ttl");
    reveal_strlit("timeout");
    if r == "closed_manual"@ {
        assert(r.len() == 13);
        assert(r != "target_hit"@);
        assert(r != "stop_hit"@);
        assert(r != "reverse_signal"@);
        assert(r != "p14_opposite_dir_conflict"@);
    }
}

/// Without a close reason, a setup that is neither `closed_win` nor
/// `closed_loss` is labelled by the sign of its P&L: a gain beyond the
/// neutral band is a win, a loss beyond it a loss, anything inside it
/// neutral, always in the `unknown` category; and it gets the same label
/// as a manual close with the same P&L.
pub proof fn lemma_reasonless_label_follows_pnl(state: Seq<char>, band: PnlBand)
    requires
        state != "closed_win"@,
        state != "closed_loss"@,
    ensures
        spec_resolve_label(None, state, band).category == CloseCategory::Unknown,
        spec_resolve_label(None, state, band).label == OutcomeLabel::Win <==> band == PnlBand::Gain,
        spec_resolve_label(None, state, band).label == OutcomeLabel::Loss <==> band
            == PnlBand::Loss,
        spec_resolve_label(None, state, band).label == OutcomeLabel::Neutral <==> band
            == PnlBand::WithinBand,
        spec_resolve_label(None, state, band).label == spec_resolve_label(
            Some("closed_manual"@),
            state,
            band,
        ).label,
{
    reveal_strlit("target_hit");
    reveal_strlit("stop_hit");
    reveal_strlit("reverse_signal");
    reveal_strlit("p14_opposite_dir_conflict");
    reveal_strlit("closed_manual");
    let r = "closed_manual"@;
    assert(r.len() == 13);
    assert(r != "target_hit"@);
    assert(r != "stop_hit"@);
    assert(r != "reverse_signal"@);
    assert(r != "p14_opposite_dir_conflict"@);
}

/// A close reason's label agrees with its category: take-profit closes
/// are wins, stop-loss closes losses, reversals and conflicts
/// invalidations, expiries timeouts, and unknown reasons neutral.
pub proof fn lemma_reason_label_matches_category(r: Seq<char>)
    ensures
        ({
            let d = spec_classify_close_reason(r);
            &&& d.category == CloseCategory::Tp <==> d.label == OutcomeLabel::Win
            &&& d.category == CloseCategory::Sl <==> d.label == OutcomeLabel::Loss
            &&& (d.category == CloseCategory::Reverse || d.category == CloseCategory::Conflict)
                <==> d.label == OutcomeLabel::Invalidated
            &&& d.category == CloseCategory::Expiry <==> d.label == OutcomeLabel::Timeout
            &&& (d.category == CloseCategory::Manual || d.category == CloseCategory::Unknown)
                <==> d.label == OutcomeLabel::Neutral
        }),
        spec_classify_close_reason("target_hit"@) == decision(OutcomeLabel::Win, CloseCategory::Tp),
        spec_classify_close_reason("stop_hit"@) == decision(OutcomeLabel::Loss, CloseCategory::Sl),
{
    reveal_strlit("target_hit");
    reveal_strlit("stop_hit");
    assert("stop_hit"@.len() != "target_hit"@.len());
}

} // verus!
