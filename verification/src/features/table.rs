//! Subkind dispatch tables and direction inference shared by the sources.

use vstd::prelude::*;
use crate::text::{has_infix, is_suffix, contains, ends_with};

verus! {

/// A dispatch table as seen by contracts: needle text and ordinal.
pub open spec fn table_view(t: Seq<(&str, i64)>) -> Seq<(Seq<char>, i64)> {
    t.map_values(|e: (&str, i64)| (e.0@, e.1))
}

/// Ordinal of the first row whose needle occurs in `s`, else `default`.
pub open spec fn first_match(s: Seq<char>, t: Seq<(Seq<char>, i64)>, default: i64) -> i64
    decreases t.len(),
{
    if t.len() == 0 {
        default
    } else if has_infix(s, t[0].0) {
        t[0].1
    } else {
        first_match(s, t.drop_first(), default)
    }
}

/// Looks `subkind` up in a dispatch table: the ordinal of the first row
/// whose needle occurs in it, `default_ord` when none does. Rows are
/// tried in order, so more specific needles come first.
pub fn subkind_ordinal(subkind: &str, table: &[(&str, i64)], default_ord: i64) -> (res: i64)
    ensures
        res == first_match(subkind@, table_view(table@), default_ord),
{
    let n = table.len();
    let mut i: usize = 0;
    assert(table_view(table@).subrange(0, n as int) == table_view(table@));
    while i < n
        invariant
            n == table@.len(),
            i <= n,
            first_match(subkind@, table_view(table@), default_ord) == first_match(
                subkind@,
                table_view(table@).subrange(i as int, n as int),
                default_ord,
            ),
        decreases n - i,
    {
        let (needle, ord) = table[i];
        let ghost rest = table_view(table@).subrange(i as int, n as int);
        assert(rest[0] == (needle@, ord));
        assert(rest.drop_first() == table_view(table@).subrange(i + 1, n as int));
        if contains(subkind, needle) {
            return ord;
        }
        i = i + 1;
    }
    default_ord
}

/// If the needle of row `j` occurs in `s`, the lookup stops at row `j` or
/// earlier: the result is the ordinal of a matching row at or before `j`.
pub proof fn lemma_first_match_at_or_before(s: Seq<char>, t: Seq<(Seq<char>, i64)>, d: i64, j: int)
    requires
        0 <= j < t.len(),
        has_infix(s, t[j].0),
    ensures
        exists|k: int| 0 <= k <= j && first_match(s, t, d) == t[k].1 && has_infix(s, t[k].0),
    decreases j,
{
    if has_infix(s, t[0].0) {
        assert(first_match(s, t, d) == t[0].1);
    } else {
        assert(j > 0);
        let t2 = t.drop_first();
        assert(t2[j - 1] == t[j]);
        lemma_first_match_at_or_before(s, t2, d, j - 1);
        let k = choose|k: int| 0 <= k <= j - 1 && first_match(s, t2, d) == t2[k].1 && has_infix(s, t2[k].0);
        assert(t2[k] == t[k + 1]);
    }
}

/// Direction implied by a subkind: `+1` for a `_bull` suffix or infix
/// `_bull_`, `-1` for `_bear` likewise, `0` otherwise.
pub open spec fn spec_direction_from_subkind(s: Seq<char>) -> int {
    if is_suffix("_bull"@, s) || has_infix(s, "_bull_"@) {
        1
    } else if is_suffix("_bear"@, s) || has_infix(s, "_bear_"@) {
        -1
    } else {
        0
    }
}

pub fn direction_from_subkind(subkind: &str) -> (res: i8)
    ensures
        res == spec_direction_from_subkind(subkind@),
{
    if ends_with(subkind, "_bull") || contains(subkind, "_bull_") {
        1
    } else if ends_with(subkind, "_bear") || contains(subkind, "_bear_") {
        -1
    } else {
        0
    }
}

} // verus!
