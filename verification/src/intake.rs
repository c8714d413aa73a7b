//! Auto-promotion of intake playbook candidates into `engine_symbols`.

use vstd::prelude::*;
use crate::text::{
    is_suffix, trimmed, uppercased, concat, ends_with, str_eq, to_uppercase, trim, ascii_upper,
    is_ascii_text, is_white_space, lemma_trimmed_shape, lemma_trimmed_fixed,
};

verus! {

/// A symbol already quoted in a dollar stable coin (`USDT`, `USDC`, `BUSD`).
pub open spec fn has_quote_suffix(u: Seq<char>) -> bool {
    is_suffix("USDT"@, u) || is_suffix("USDC"@, u) || is_suffix("BUSD"@, u)
}

/// Trading pair for a base symbol: kept when it is already quoted,
/// otherwise quoted in `USDT`; empty stays empty.
pub open spec fn usdt_pair(u: Seq<char>) -> Seq<char> {
    if u.len() == 0 {
        u
    } else if has_quote_suffix(u) {
        u
    } else {
        u + "USDT"@
    }
}

pub fn quote_in_usdt(u: String) -> (res: String)
    ensures
        res@ == usdt_pair(u@),
{
    if u.as_str().is_empty() {
        u
    } else if ends_with(u.as_str(), "USDT") || ends_with(u.as_str(), "USDC") || ends_with(
        u.as_str(),
        "BUSD",
    ) {
        u
    } else {
        concat(u, "USDT")
    }
}

/// A non-empty pair always carries a quote suffix, and quoting an
/// already quoted pair changes nothing.
pub proof fn lemma_usdt_pair_quoted(u: Seq<char>)
    ensures
        u.len() > 0 ==> has_quote_suffix(usdt_pair(u)),
        usdt_pair(usdt_pair(u)) == usdt_pair(u),
{
    reveal_strlit("USDT");
    if u.len() > 0 && !has_quote_suffix(u) {
        let r = u + "USDT"@;
        assert(r.subrange(r.len() - 4, r.len() as int) == "USDT"@);
    }
}

/// Candidate symbol as written to `engine_symbols`: trimmed, upper-cased
/// and quoted in `USDT` unless already quoted.
pub fn normalize_symbol(raw: &str) -> (res: String)
    ensures
        res@ == usdt_pair(uppercased(trimmed(raw@))),
        is_ascii_text(raw@) ==> res@ == normalized_ascii(raw@),
{
    let t = trim(raw);
    proof {
        lemma_trimmed_shape(raw@);
    }
    let u = to_uppercase(t);
    quote_in_usdt(u)
}

/// The candidate symbol of an ASCII input: trimmed, ASCII upper-cased and
/// quoted.
pub open spec fn normalized_ascii(raw: Seq<char>) -> Seq<char> {
    usdt_pair(ascii_upper(trimmed(raw)))
}

/// Normalising an ASCII symbol twice gives the same pair as normalising it
/// once; the result is ASCII, empty exactly when the input is blank, and
/// otherwise quoted in a dollar stable coin.
pub proof fn lemma_normalize_symbol_idempotent(raw: Seq<char>)
    requires
        is_ascii_text(raw),
    ensures
        is_ascii_text(normalized_ascii(raw)),
        normalized_ascii(normalized_ascii(raw)) == normalized_ascii(raw),
        normalized_ascii(raw).len() == 0 <==> trimmed(raw).len() == 0,
        normalized_ascii(raw).len() > 0 ==> has_quote_suffix(normalized_ascii(raw)),
{
    reveal_strlit("USDT");
    lemma_trimmed_shape(raw);
    let t = trimmed(raw);
    let u = ascii_upper(t);
    let r = usdt_pair(u);
    lemma_usdt_pair_quoted(u);
    assert(is_ascii_text(u));
    assert(ascii_upper(u) =~= u);
    assert(ascii_upper("USDT"@) =~= "USDT"@);
    if u.len() > 0 {
        assert(!is_white_space(u[0]));
        assert(!is_white_space(u.last()));
    }
    if r.len() > 0 && !has_quote_suffix(u) {
        assert(r == u + "USDT"@);
        assert(ascii_upper(u + "USDT"@) =~= ascii_upper(u) + ascii_upper("USDT"@));
        assert(r.last() == 'T');
        if u.len() > 0 {
            assert(r[0] == u[0]);
        }
    }
    assert(is_ascii_text(r));
    lemma_trimmed_fixed(r);
    assert(ascii_upper(r) =~= r);
}

/// Signal direction mode of a candidate direction (trimmed, upper-cased):
/// `LONG`/`WATCH` trade long only, `SHORT`/`AVOID` short only, anything
/// else both ways.
pub open spec fn spec_direction_mode(direction: Seq<char>) -> Seq<char> {
    let d = uppercased(trimmed(direction));
    if d == "LONG"@ || d == "WATCH"@ {
        "long_only"@
    } else if d == "SHORT"@ || d == "AVOID"@ {
        "short_only"@
    } else {
        "both"@
    }
}

pub fn direction_mode(direction: &str) -> (res: Option<String>)
    ensures
        res matches Some(m) && m@ == spec_direction_mode(direction@),
{
    let d = to_uppercase(trim(direction));
    let ds = d.as_str();
    if str_eq(ds, "LONG") || str_eq(ds, "WATCH") {
        Some("long_only".to_owned())
    } else if str_eq(ds, "SHORT") || str_eq(ds, "AVOID") {
        Some("short_only".to_owned())
    } else if str_eq(ds, "LONG_OR_SHORT") {
        Some("both".to_owned())
    } else {
        Some("both".to_owned())
    }
}

/// Free promotion slots: none when the active count already reaches the
/// maximum, else the difference.
pub fn promotion_slots(max_active: i64, current_active: i64) -> (res: Option<i64>)
    requires
        current_active >= 0,
    ensures
        res == if current_active >= max_active {
            None::<i64>
        } else {
            Some((max_active - current_active) as i64)
        },
{
    if current_active >= max_active {
        None
    } else {
        Some(max_active - current_active)
    }
}

/// What auto-promotion does with a candidate whose series may already
/// exist in `engine_symbols`.
#[derive(Clone, Copy, Debug, PartialEq, Eq, Structural)]
pub enum IntakeAction {
    /// The series is already active: only link the candidate to it.
    LinkExisting,
    /// The series was retired: put it back into `analyzing` (enabled).
    ReactivateRetired,
    /// Insert a new series in `analyzing` (enabled).
    InsertNew,
}

/// Decision for a candidate given the lifecycle state of the existing
/// series, if any: retired series are reactivated, manual series and
/// missing ones get a new row, every other state is only linked.
pub open spec fn spec_intake_action(existing: Option<Seq<char>>) -> IntakeAction {
    match existing {
        None => IntakeAction::InsertNew,
        Some(st) => if st == "retired"@ {
            IntakeAction::ReactivateRetired
        } else if st == "manual"@ {
            IntakeAction::InsertNew
        } else {
            IntakeAction::LinkExisting
        },
    }
}

pub fn intake_action(existing_state: Option<&str>) -> (res: IntakeAction)
    ensures
        res == spec_intake_action(
            match existing_state {
                Some(s) => Some(s@),
                None => None,
            },
        ),
{
    match existing_state {
        None => IntakeAction::InsertNew,
        Some(st) => {
            if !str_eq(st, "retired") && !str_eq(st, "manual") {
                IntakeAction::LinkExisting
            } else if str_eq(st, "retired") {
                IntakeAction::ReactivateRetired
            } else {
                IntakeAction::InsertNew
            }
        },
    }
}

/// Label of a series promoted by a playbook: `intake:<playbook_id>`.
pub fn intake_label(playbook_id: &str) -> (res: String)
    ensures
        res@ == "intake:"@ + playbook_id@,
{
    concat("intake:".to_owned(), playbook_id)
}

} // verus!
