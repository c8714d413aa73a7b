//! Nansen-driven `engine_symbols` lifecycle: promotion of high-scoring
//! setup candidates and disabling of symbols that produce no data.

use vstd::prelude::*;
use crate::intake::{usdt_pair, quote_in_usdt};
use crate::text::{
    ascii_alnum_only, trimmed, uppercased, concat, int_to_string, decimal_digits,
    keep_ascii_alnum, str_eq, to_uppercase, trim,
};

verus! {

/// Nansen token symbol as an engine pair: trimmed, upper-cased, reduced to
/// ASCII letters and digits (emoji prefixes dropped) and quoted in `USDT`
/// unless already quoted; empty when nothing is left.
pub open spec fn spec_normalize_nansen_symbol(raw: Seq<char>) -> Seq<char> {
    usdt_pair(ascii_alnum_only(uppercased(trimmed(raw))))
}

pub fn normalize_nansen_symbol(raw: &str) -> (res: String)
    ensures
        res@ == spec_normalize_nansen_symbol(raw@),
{
    let u = to_uppercase(trim(raw));
    let cleaned = keep_ascii_alnum(u.as_str());
    quote_in_usdt(cleaned)
}

/// Signal direction mode of a Nansen candidate direction (trimmed,
/// upper-cased): `LONG`/`WATCH` long only, `SHORT`/`AVOID` short only,
/// anything else both.
pub open spec fn spec_direction_mode(direction: Seq<char>) -> Seq<char> {
    let d = uppercased(trimmed(direction));
    if d == "LONG"@ || d == "WATCH"@ {
        "long_only"@
    } else if d == "SHORT"@ || d == "AVOID"@ {
        "short_only"@
    } else {
        "both"@
    }
}

pub fn direction_mode(direction: &str) -> (res: Option<String>)
    ensures
        res matches Some(m) && m@ == spec_direction_mode(direction@),
{
    let d = to_uppercase(trim(direction));
    let ds = d.as_str();
    if str_eq(ds, "LONG") || str_eq(ds, "WATCH") {
        Some("long_only".to_owned())
    } else if str_eq(ds, "SHORT") || str_eq(ds, "AVOID") {
        Some("short_only".to_owned())
    } else {
        Some("both".to_owned())
    }
}

/// What the Nansen promotion does with a candidate whose series already
/// exists.
#[derive(Clone, Copy, Debug, PartialEq, Eq, Structural)]
pub enum NansenExistingAction {
    /// Enabled and not retired: nothing to do.
    AlreadyActive,
    /// Retired or disabled: back to `analyzing`, enabled, relabelled.
    Reenable,
}

pub fn nansen_existing_action(enabled: bool, lifecycle_state: &str) -> (res: NansenExistingAction)
    ensures
        res == if enabled && lifecycle_state@ != "retired"@ {
            NansenExistingAction::AlreadyActive
        } else {
            NansenExistingAction::Reenable
        },
{
    if enabled && !str_eq(lifecycle_state, "retired") {
        NansenExistingAction::AlreadyActive
    } else {
        NansenExistingAction::Reenable
    }
}

/// Label of a series promoted from a Nansen setup: `nansen:score=<score>`.
pub fn nansen_label(score: i32) -> (res: String)
    ensures
        res@ == "nansen:score="@ + decimal_digits(score as int),
{
    let digits = int_to_string(score as i64);
    concat("nansen:score=".to_owned(), digits.as_str())
}

/// Whether an enabled series is retired for lack of data: manual series
/// younger than the grace period are kept, and any enriched, chain or
/// derivatives signal in the window keeps a series alive.
pub fn nansen_should_disable(
    is_manual: bool,
    age_hours: i64,
    grace_hours: i64,
    has_enriched: bool,
    has_chain: bool,
    has_derivatives: bool,
) -> (res: bool)
    ensures
        res == (!(is_manual && age_hours < grace_hours) && !has_enriched && !has_chain
            && !has_derivatives),
{
    if is_manual && age_hours < grace_hours {
        return false;
    }
    !(has_enriched || has_chain || has_derivatives)
}

} // verus!
