//! Replays of bar history: which bar windows the progressive detection
//! scan feeds on a pass, how a re-detected pattern is merged into the row
//! already open for it, and when a pivot series is rebuilt.

use vstd::prelude::*;
use crate::text::str_eq;

verus! {

pub open spec fn min_int(a: int, b: int) -> int {
    if a <= b { a } else { b }
}

/// The windows `[from, to)` a pass feeds: the first starts at `start`,
/// each ends `stride` bars later or at the last bar, the next starts where
/// one ends, every window starts before the last bar, and the pass stops
/// after `cap` windows or once the bars are exhausted.
pub open spec fn windows_ok(w: Seq<(usize, usize)>, start: int, total: int, stride: int, cap: int) -> bool {
    &&& w.len() <= cap
    &&& forall|k: int| 0 <= k < w.len() ==> (#[trigger] w[k]).0 < total && w[k].1 == min_int(w[k].0 + stride, total)
    &&& w.len() > 0 ==> w[0].0 == start
    &&& forall|k: int| 0 <= k < w.len() - 1 ==> (#[trigger] w[k + 1]).0 == w[k].1
    &&& w.len() == cap || (if w.len() == 0 { start >= total } else { w[w.len() - 1].1 >= total })
}

/// One pass of the progressive scan over a series of `total` bars.
pub struct ScanPlan {
    /// First bar fed to the detectors; the bars before it only warm the
    /// engines up.
    pub start: usize,
    pub windows: Vec<(usize, usize)>,
    /// Offset stored as the cursor after the pass.
    pub cursor: usize,
}

/// The pass over `total` bars with the stored cursor `prior_cursor`: none
/// when the series is shorter than `min_offset` or already scanned to its
/// end; otherwise it starts at the larger of the cursor and `min_offset`,
/// feeds `stride`-bar windows (at most `cap`), and leaves the cursor at the
/// end of the last window (at the start when no window was fed).
pub fn scan_windows(total: usize, prior_cursor: usize, min_offset: usize, stride: usize, cap: usize) -> (res: Option<ScanPlan>)
    ensures
        ({
            let start: int = if prior_cursor >= min_offset { prior_cursor as int } else { min_offset as int };
            match res {
                None => total < min_offset || start >= total,
                Some(p) => {
                    &&& total >= min_offset && start < total
                    &&& p.start == start
                    &&& windows_ok(p.windows@, start, total as int, stride as int, cap as int)
                    &&& p.cursor == if p.windows@.len() == 0 { start } else { p.windows@[p.windows@.len() - 1].1 as int }
                }
            }
        }),
{
    if total < min_offset {
        return None;
    }
    let start = if prior_cursor >= min_offset { prior_cursor } else { min_offset };
    if start >= total {
        return None;
    }
    let mut windows: Vec<(usize, usize)> = Vec::new();
    let mut cursor = start;
    let mut n: usize = 0;
    while cursor < total && n < cap
        invariant
            start < total,
            start <= cursor <= total,
            n == windows@.len(),
            n <= cap,
            forall|k: int| 0 <= k < windows@.len() ==> (#[trigger] windows@[k]).0 < total && windows@[k].1 == min_int(windows@[k].0 + stride, total as int),
            windows@.len() > 0 ==> windows@[0].0 == start,
            forall|k: int| 0 <= k < windows@.len() - 1 ==> (#[trigger] windows@[k + 1]).0 == windows@[k].1,
            cursor == if windows@.len() == 0 { start } else { windows@[windows@.len() - 1].1 },
        decreases cap - n,
    {
        let end = if stride >= total - cursor { total } else { cursor + stride };
        let ghost before = windows@;
        windows.push((cursor, end));
        assert(windows@[windows@.len() - 1] == (cursor, end));
        assert forall|k: int| 0 <= k < windows@.len() - 1 implies (#[trigger] windows@[k + 1]).0 == windows@[k].1 by {
            if k + 1 < before.len() {
                assert(windows@[k + 1] == before[k + 1]);
                assert(windows@[k] == before[k]);
            }
        }
        cursor = end;
        n = n + 1;
    }
    Some(ScanPlan { start, windows, cursor })
}

/// Every window of a pass starts at or after the pass's start and ends at
/// or before the end of the last window, which the pass stores as its
/// cursor (where the next pass resumes).
pub proof fn lemma_windows_stay_before_cursor(w: Seq<(usize, usize)>, start: int, total: int, stride: int, cap: int, k: int)
    requires
        windows_ok(w, start, total, stride, cap),
        stride >= 0,
        0 <= k < w.len(),
    ensures
        start <= w[k].0 <= w[k].1 <= w[w.len() - 1].1,
    decreases w.len() - k,
{
    if k + 1 < w.len() {
        lemma_windows_stay_before_cursor(w, start, total, stride, cap, k + 1);
        assert((w[k + 1]).0 == w[k].1);
    }
    lemma_windows_start_after(w, start, total, stride, cap, k);
}

proof fn lemma_windows_start_after(w: Seq<(usize, usize)>, start: int, total: int, stride: int, cap: int, k: int)
    requires
        windows_ok(w, start, total, stride, cap),
        stride >= 0,
        0 <= k < w.len(),
    ensures
        start <= w[k].0 <= w[k].1,
    decreases k,
{
    if k > 0 {
        lemma_windows_start_after(w, start, total, stride, cap, k - 1);
        let j = k - 1;
        assert(w[j + 1].0 == w[j].1);
    }
}

/// Whether a detection with this last anchor was already stored: one of
/// the recent rows of the family records that anchor index.
pub fn anchor_already_seen(recorded: &Vec<Option<u64>>, last_anchor_idx: u64) -> (res: bool)
    ensures
        res == exists|i: int| 0 <= i < recorded@.len() && #[trigger] recorded@[i] == Some(last_anchor_idx),
{
    let mut i: usize = 0;
    while i < recorded.len()
        invariant
            i <= recorded@.len(),
            forall|j: int| 0 <= j < i ==> #[trigger] recorded@[j] != Some(last_anchor_idx),
        decreases recorded@.len() - i,
    {
        if recorded[i] == Some(last_anchor_idx) {
            return true;
        }
        i = i + 1;
    }
    false
}

/// Families other than TBM and Wyckoff keep a single open row per key and
/// update it in place.
pub fn uses_single_record_upsert(family: &str) -> (res: bool)
    ensures
        res == !(family@ == "tbm"@ || family@ == "wyckoff"@),
{
    !(str_eq(family, "tbm") || str_eq(family, "wyckoff"))
}

/// A confirmed or entry-ready row keeps its anchors and invalidation price
/// when the pattern is detected again.
pub fn keeps_locked_geometry(state: &str) -> (res: bool)
    ensures
        res == (state@ == "confirmed"@ || state@ == "entry_ready"@),
{
    str_eq(state, "confirmed") || str_eq(state, "entry_ready")
}

/// A pivot series is rebuilt unless its stored state already reaches the
/// newest bar (open times in any common unit).
pub fn pivot_rebuild_needed(prior_last_open: Option<i64>, newest_open: i64) -> (res: bool)
    ensures
        res == match prior_last_open {
            Some(p) => p < newest_open,
            None => true,
        },
{
    match prior_last_open {
        Some(p) => p < newest_open,
        None => true,
    }
}

/// A chunk shorter than the requested size is the last one.
pub fn is_last_chunk(chunk_len: usize, chunk_bars: i64) -> (res: bool)
    ensures
        res == ((chunk_len as int) < chunk_bars),
{
    if chunk_bars <= 0 {
        false
    } else if chunk_bars as u64 > usize::MAX as u64 {
        true
    } else {
        chunk_len < chunk_bars as usize
    }
}

} // verus!
