//! Smart-money intake playbooks: the market-mode vote and the ranking of
//! playbook candidates.

use vstd::prelude::*;
use crate::text::{trim, trimmed, to_uppercase, uppercased};

verus! {

/// How one signal leans.
#[derive(Clone, Copy, Debug, PartialEq, Eq, Structural)]
pub enum Vote {
    Long,
    Short,
    Abstain,
}

/// The market-mode signals, in the order they are reported: majors
/// net flow (worth two votes), flow intelligence, net-flow breadth, smart
/// perp tilt and funding.
#[derive(Clone, Copy, Debug, PartialEq, Eq, Structural)]
pub struct MarketSignals {
    pub majors_netflow: Vote,
    pub flow_intelligence: Vote,
    pub netflow_breadth: Vote,
    pub perp_tilt: Vote,
    pub funding: Vote,
}

#[derive(Clone, Copy, Debug, PartialEq, Eq, Structural)]
pub enum MarketMode {
    Long,
    Short,
    Neutral,
}

/// Which signal gives the headline reason of the decision.
#[derive(Clone, Copy, Debug, PartialEq, Eq, Structural)]
pub enum SignalName {
    MajorsNetflow,
    FlowIntelligence,
    NetflowBreadth,
    PerpTilt,
    Funding,
}

#[derive(Clone, Copy, Debug, PartialEq, Eq, Structural)]
pub struct MarketDecision {
    pub mode: MarketMode,
    pub confidence: i32,
    pub long_votes: i32,
    pub short_votes: i32,
    /// First signal that voted, `None` when none did.
    pub key_reason: Option<SignalName>,
}

pub open spec fn votes_for(v: Vote, side: Vote, weight: int) -> int {
    if v == side { weight } else { 0 }
}

pub open spec fn tally(s: MarketSignals, side: Vote) -> int {
    votes_for(s.majors_netflow, side, 2) + votes_for(s.flow_intelligence, side, 1) + votes_for(
        s.netflow_breadth,
        side,
        1,
    ) + votes_for(s.perp_tilt, side, 1) + votes_for(s.funding, side, 1)
}

pub open spec fn spec_mode(long: int, short: int) -> MarketMode {
    if long >= 4 && long > short {
        MarketMode::Long
    } else if short >= 4 && short > long {
        MarketMode::Short
    } else {
        MarketMode::Neutral
    }
}

/// Confidence 0..100: the stronger side's share of seven votes, at least
/// 35 for a neutral and 45 for a directional call.
pub open spec fn spec_confidence(long: int, short: int) -> int {
    let m = if long > short { long } else { short };
    let raw = (m * 100) / 7;
    let capped = if raw > 100 { 100 } else { raw };
    let floor = if spec_mode(long, short) == MarketMode::Neutral { 35 } else { 45 };
    if capped < floor { floor } else { capped }
}

pub open spec fn spec_key_reason(s: MarketSignals) -> Option<SignalName> {
    if s.majors_netflow != Vote::Abstain {
        Some(SignalName::MajorsNetflow)
    } else if s.flow_intelligence != Vote::Abstain {
        Some(SignalName::FlowIntelligence)
    } else if s.netflow_breadth != Vote::Abstain {
        Some(SignalName::NetflowBreadth)
    } else if s.perp_tilt != Vote::Abstain {
        Some(SignalName::PerpTilt)
    } else if s.funding != Vote::Abstain {
        Some(SignalName::Funding)
    } else {
        None
    }
}

fn add_vote(v: Vote, weight: i32, long: &mut i32, short: &mut i32)
    requires
        0 <= weight <= 2,
        0 <= *old(long) <= 10,
        0 <= *old(short) <= 10,
    ensures
        *final(long) == *old(long) + votes_for(v, Vote::Long, weight as int),
        *final(short) == *old(short) + votes_for(v, Vote::Short, weight as int),
{
    match v {
        Vote::Long => { *long = *long + weight; },
        Vote::Short => { *short = *short + weight; },
        Vote::Abstain => {},
    }
}

/// Market mode of the intake sweep: long or short needs at least four of
/// the six votes and a majority, anything else is neutral.
pub fn decide_market_mode(s: &MarketSignals) -> (res: MarketDecision)
    ensures
        res.long_votes == tally(*s, Vote::Long),
        res.short_votes == tally(*s, Vote::Short),
        res.mode == spec_mode(res.long_votes as int, res.short_votes as int),
        res.confidence == spec_confidence(res.long_votes as int, res.short_votes as int),
        res.key_reason == spec_key_reason(*s),
{
    let mut long: i32 = 0;
    let mut short: i32 = 0;
    add_vote(s.majors_netflow, 2, &mut long, &mut short);
    add_vote(s.flow_intelligence, 1, &mut long, &mut short);
    add_vote(s.netflow_breadth, 1, &mut long, &mut short);
    add_vote(s.perp_tilt, 1, &mut long, &mut short);
    add_vote(s.funding, 1, &mut long, &mut short);
    let mode = if long >= 4 && long > short {
        MarketMode::Long
    } else if short >= 4 && short > long {
        MarketMode::Short
    } else {
        MarketMode::Neutral
    };
    let m = if long > short { long } else { short };
    let raw = (m * 100) / 7;
    let capped = if raw > 100 { 100 } else { raw };
    let floor = match mode {
        MarketMode::Neutral => 35,
        _ => 45,
    };
    let confidence = if capped < floor { floor } else { capped };
    let key_reason = match s.majors_netflow {
        Vote::Abstain => match s.flow_intelligence {
            Vote::Abstain => match s.netflow_breadth {
                Vote::Abstain => match s.perp_tilt {
                    Vote::Abstain => match s.funding {
                        Vote::Abstain => None,
                        _ => Some(SignalName::Funding),
                    },
                    _ => Some(SignalName::PerpTilt),
                },
                _ => Some(SignalName::NetflowBreadth),
            },
            _ => Some(SignalName::FlowIntelligence),
        },
        _ => Some(SignalName::MajorsNetflow),
    };
    MarketDecision { mode, confidence, long_votes: long, short_votes: short, key_reason }
}

/// A directional market mode is never called against the majority, and
/// the confidence stays within 35..=100.
pub proof fn lemma_mode_follows_majority(s: MarketSignals)
    ensures
        spec_mode(tally(s, Vote::Long), tally(s, Vote::Short)) == MarketMode::Long ==> tally(s, Vote::Long) > tally(s, Vote::Short),
        spec_mode(tally(s, Vote::Long), tally(s, Vote::Short)) == MarketMode::Short ==> tally(s, Vote::Short) > tally(s, Vote::Long),
        35 <= spec_confidence(tally(s, Vote::Long), tally(s, Vote::Short)) <= 100,
        tally(s, Vote::Long) + tally(s, Vote::Short) <= 6,
{
}

/// Rank (1-based) and confidence of the `i`-th candidate of a playbook:
/// `conf_base + 30 - 5 i`, clamped to 20..=92.
pub fn candidate_rank_confidence(conf_base: i32, i: usize) -> (res: (i32, i32))
    requires
        i < 100_000_000,
        i32::MIN <= conf_base + 30 - 5 * i <= i32::MAX,
    ensures
        res.0 == i + 1,
        res.1 == ({
            let c = conf_base + 30 - 5 * i;
            if c < 20 { 20 } else if c > 92 { 92 } else { c }
        }),
{
    let ii = i as i32;
    let c = conf_base + (30 - ii * 5);
    let conf = if c < 20 { 20 } else if c > 92 { 92 } else { c };
    (ii + 1, conf)
}

/// Symbol of a token-screener row (its `token_symbol`, `symbol` or
/// `tokenSymbol` text): trimmed and upper-cased; a blank symbol drops the
/// row.
pub fn token_symbol(raw: Option<&str>) -> (res: Option<String>)
    ensures
        match raw {
            Some(s) => if trimmed(s@).len() != 0 {
                res matches Some(r) && r@ == uppercased(trimmed(s@))
            } else {
                res is None
            },
            None => res is None,
        },
{
    match raw {
        Some(s) => {
            let t = trim(s);
            if t.is_empty() {
                None
            } else {
                Some(to_uppercase(t))
            }
        },
        None => None,
    }
}

} // verus!
