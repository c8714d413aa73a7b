//! Gates and keys of the IQ setup writers: which wave of a tracked
//! structure opens an IQ-D entry, what vetoes it, and the idempotency keys
//! of IQ-D and IQ-T setups.

use vstd::prelude::*;
use crate::text::{concat, ends_with, int_to_string, is_suffix, str_eq, decimal_digits};

verus! {

/// Entry tier of an IQ-D setup: a structure in W1, W2 or W3; no entry
/// from any other wave.
pub fn entry_tier(current_wave: &str) -> (res: Option<&'static str>)
    ensures
        match res {
            Some(t) => t@ == current_wave@ && (current_wave@ == "W1"@ || current_wave@ == "W2"@
                || current_wave@ == "W3"@),
            None => !(current_wave@ == "W1"@ || current_wave@ == "W2"@ || current_wave@ == "W3"@),
        },
{
    if str_eq(current_wave, "W1") {
        Some("W1")
    } else if str_eq(current_wave, "W2") {
        Some("W2")
    } else if str_eq(current_wave, "W3") {
        Some("W3")
    } else {
        None
    }
}

/// Side of a setup: `long` for direction `1`, `short` otherwise.
pub open spec fn spec_setup_side(direction: i16) -> Seq<char> {
    if direction == 1 { "long"@ } else { "short"@ }
}

pub fn setup_side(direction: i16) -> (res: &'static str)
    ensures
        res@ == spec_setup_side(direction),
{
    if direction == 1 { "long" } else { "short" }
}

/// The side an open setup must not have for a new one to be written.
pub fn opposite_side(direction: i16) -> (res: &'static str)
    ensures
        res@ == spec_setup_side(if direction == 1 { -1i16 } else { 1i16 }),
{
    if direction == 1 { "short" } else { "long" }
}

/// The latest Wyckoff event contradicts a long setup when it is bearish.
pub fn wyckoff_conflicts(event_subkind: &str, direction: i16) -> (res: bool)
    ensures
        res == (is_suffix("_bear"@, event_subkind@) && direction == 1),
{
    ends_with(event_subkind, "_bear") && direction == 1
}

/// A distribution or markdown market cycle blocks new setups.
pub fn cycle_blocks(phase: &str) -> (res: bool)
    ensures
        res == (phase@ == "distribution"@ || phase@ == "markdown"@),
{
    str_eq(phase, "distribution") || str_eq(phase, "markdown")
}

/// A symbol lock blocks every structure but a fresh candidate.
pub fn lock_blocks(symbol_locked: bool, structure_state: &str) -> (res: bool)
    ensures
        res == (symbol_locked && structure_state@ != "candidate"@),
{
    symbol_locked && !str_eq(structure_state, "candidate")
}

/// `iq_d:<structure id>:<tier>`.
pub fn iq_d_key(structure_id: &str, tier: &str) -> (res: String)
    ensures
        res@ == "iq_d:"@ + structure_id@ + ":"@ + tier@,
{
    let a = concat("iq_d:".to_owned(), structure_id);
    let b = concat(a, ":");
    concat(b, tier)
}

/// `iq_t:<exchange>:<symbol>:<child tf>:<slot>:<child end, Unix s>:<direction>`.
pub open spec fn spec_iq_t_key(
    exchange: Seq<char>,
    symbol: Seq<char>,
    child_tf: Seq<char>,
    slot: int,
    end_secs: int,
    direction: int,
) -> Seq<char> {
    "iq_t:"@ + exchange + ":"@ + symbol + ":"@ + child_tf + ":"@ + decimal_digits(slot) + ":"@
        + decimal_digits(end_secs) + ":"@ + decimal_digits(direction)
}

pub fn iq_t_key(exchange: &str, symbol: &str, child_tf: &str, slot: i16, end_secs: i64, direction: i16) -> (res: String)
    ensures
        res@ == spec_iq_t_key(exchange@, symbol@, child_tf@, slot as int, end_secs as int, direction as int),
{
    let mut s = concat("iq_t:".to_owned(), exchange);
    s = concat(s, ":");
    s = concat(s, symbol);
    s = concat(s, ":");
    s = concat(s, child_tf);
    s = concat(s, ":");
    s = concat(s, int_to_string(slot as i64).as_str());
    s = concat(s, ":");
    s = concat(s, int_to_string(end_secs).as_str());
    s = concat(s, ":");
    concat(s, int_to_string(direction as i64).as_str())
}

/// The side a new setup avoids is never its own.
pub proof fn lemma_opposite_side_differs(direction: i16)
    ensures
        spec_setup_side(direction) != spec_setup_side(if direction == 1 { -1i16 } else { 1i16 }),
{
    reveal_strlit("long");
    reveal_strlit("short");
    assert("long"@.len() != "short"@.len());
}

/// Why an IQ-D setup is not written, in the order the checks run.
#[derive(Clone, Copy, Debug, PartialEq, Eq, Structural)]
pub enum IqdSkip {
    /// The structure is not in W1, W2 or W3.
    NoTier,
    /// Entry, stop or target is missing, not positive, or on the wrong side.
    BadTargets,
    /// The latest Wyckoff event is bearish against a long setup.
    WyckoffConflict,
    /// The market cycle is in distribution or markdown.
    CycleBlocks,
    /// The latest dip score is below the configured minimum.
    WeakDip,
    /// The symbol is locked and the structure is not a fresh candidate.
    SymbolLocked,
    /// A setup of the opposite side is armed or active.
    OppositeOpen,
    /// A setup with the same idempotency key exists.
    Duplicate,
}

/// What the IQ-D writer knows about one structure. Price checks arrive
/// as flags; the Wyckoff event and cycle phase are `None` when no
/// candidate row names them or their check is switched off.
pub struct IqdInputs {
    pub current_wave: String,
    pub direction: i16,
    pub state: String,
    pub targets_ok: bool,
    pub wyckoff_event: Option<String>,
    pub cycle_phase: Option<String>,
    pub dip_score_ok: bool,
    pub symbol_locked: bool,
    pub opposite_open: bool,
    pub duplicate: bool,
}

pub open spec fn tier_of(w: Seq<char>) -> bool {
    w == "W1"@ || w == "W2"@ || w == "W3"@
}

/// The first failing check in the writer's order, none when the setup is
/// written.
pub open spec fn spec_iq_d_skip(i: IqdInputs) -> Option<IqdSkip> {
    if !tier_of(i.current_wave@) {
        Some(IqdSkip::NoTier)
    } else if !i.targets_ok {
        Some(IqdSkip::BadTargets)
    } else if (i.wyckoff_event matches Some(e) && is_suffix("_bear"@, e@) && i.direction == 1) {
        Some(IqdSkip::WyckoffConflict)
    } else if (i.cycle_phase matches Some(p) && (p@ == "distribution"@ || p@ == "markdown"@)) {
        Some(IqdSkip::CycleBlocks)
    } else if !i.dip_score_ok {
        Some(IqdSkip::WeakDip)
    } else if i.symbol_locked && i.state@ != "candidate"@ {
        Some(IqdSkip::SymbolLocked)
    } else if i.opposite_open {
        Some(IqdSkip::OppositeOpen)
    } else if i.duplicate {
        Some(IqdSkip::Duplicate)
    } else {
        None
    }
}

/// The IQ-D decision for one structure: the entry tier and side of the
/// setup to write, or the first reason to skip it.
pub fn iq_d_gate(i: &IqdInputs) -> (res: Result<(&'static str, &'static str), IqdSkip>)
    ensures
        match res {
            Ok((tier, side)) => spec_iq_d_skip(*i) is None && tier@ == i.current_wave@
                && side@ == spec_setup_side(i.direction),
            Err(k) => spec_iq_d_skip(*i) == Some(k),
        },
{
    let tier = match entry_tier(i.current_wave.as_str()) {
        Some(t) => t,
        None => return Err(IqdSkip::NoTier),
    };
    if !i.targets_ok {
        return Err(IqdSkip::BadTargets);
    }
    if let Some(e) = &i.wyckoff_event {
        if wyckoff_conflicts(e.as_str(), i.direction) {
            return Err(IqdSkip::WyckoffConflict);
        }
    }
    if let Some(p) = &i.cycle_phase {
        if cycle_blocks(p.as_str()) {
            return Err(IqdSkip::CycleBlocks);
        }
    }
    if !i.dip_score_ok {
        return Err(IqdSkip::WeakDip);
    }
    if lock_blocks(i.symbol_locked, i.state.as_str()) {
        return Err(IqdSkip::SymbolLocked);
    }
    if i.opposite_open {
        return Err(IqdSkip::OppositeOpen);
    }
    if i.duplicate {
        return Err(IqdSkip::Duplicate);
    }
    Ok((tier, setup_side(i.direction)))
}

} // verus!
