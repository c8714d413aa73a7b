//! The whale watchlist: wallet addresses taken from the perp PnL
//! leaderboard, and read back for the position aggregate.

use vstd::prelude::*;
use crate::text::{trim, trimmed};

verus! {

/// Most wallets the watchlist holds.
pub const WATCHLIST_CAP: usize = 20;

/// The trimmed, non-empty addresses among `rows`, in order.
pub open spec fn kept(rows: Seq<Option<Seq<char>>>) -> Seq<Seq<char>>
    decreases rows.len(),
{
    if rows.len() == 0 {
        Seq::empty()
    } else {
        let rest = kept(rows.drop_last());
        match rows.last() {
            Some(a) => if trimmed(a).len() > 0 { rest.push(trimmed(a)) } else { rest },
            None => rest,
        }
    }
}

pub open spec fn opt_view(r: Option<String>) -> Option<Seq<char>> {
    match r {
        Some(s) => Some(s@),
        None => None,
    }
}

/// The address candidates of the rows (each row's first string-valued
/// address field, or the string entries of the stored list), as text.
pub open spec fn rows_view(rows: Seq<Option<String>>) -> Seq<Option<Seq<char>>> {
    rows.map_values(|r: Option<String>| opt_view(r))
}

/// Watchlist wallets: the trimmed non-empty addresses in row order,
/// stopping as soon as twenty are kept.
pub fn collect_wallets(rows: &Vec<Option<String>>) -> (res: Vec<String>)
    ensures
        res@.len() <= WATCHLIST_CAP,
        exists|j: int| #![trigger rows@.take(j)] 0 <= j <= rows@.len()
            && res@.map_values(|s: String| s@) == kept(rows_view(rows@.take(j)))
            && (res@.len() == WATCHLIST_CAP || j == rows@.len()),
{
    let mut out: Vec<String> = Vec::new();
    let mut i: usize = 0;
    while i < rows.len()
        invariant
            i <= rows@.len(),
            out@.len() < WATCHLIST_CAP,
            out@.map_values(|s: String| s@) == kept(rows_view(rows@.take(i as int))),
        decreases rows@.len() - i,
    {
        proof {
            assert(rows_view(rows@.take(i + 1)).drop_last() =~= rows_view(rows@.take(i as int)));
            assert(rows_view(rows@.take(i + 1)).last() == opt_view(rows@[i as int]));
        }
        match &rows[i] {
            Some(a) => {
                let t = trim(a.as_str());
                if !t.is_empty() {
                    let ghost before = out@;
                    out.push(t.to_owned());
                    proof {
                        assert(out@.map_values(|s: String| s@) =~= before.map_values(|s: String| s@).push(t@));
                    }
                }
            },
            None => {},
        }
        i = i + 1;
        if out.len() >= WATCHLIST_CAP {
            assert(out@.map_values(|s: String| s@) == kept(rows_view(rows@.take(i as int))));
            return out;
        }
    }
    assert(rows@.take(rows@.len() as int) =~= rows@);
    out
}

} // verus!
