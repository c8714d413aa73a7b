//! The plain values a feature source reads from a detection envelope.

use vstd::prelude::*;

verus! {

/// TBM metrics as found in a detection's `raw_meta` or in the latest
/// stored TBM row: which keys are present and the typed values read.
pub struct TbmMetrics {
    pub has_total_score: bool,
    pub has_pillars: bool,
    pub has_signal: bool,
    /// `signal` when it is a string.
    pub signal: Option<String>,
    /// `active_pillars` when it is an integer.
    pub active_pillars: Option<i64>,
}

/// A pattern detection as the feature sources read it. Text fields that
/// are missing or not strings are empty.
pub struct Detection {
    pub family: String,
    pub subkind: String,
    /// Wyckoff `phase`, when a string.
    pub phase: Option<String>,
    /// Wyckoff `events_json` (or `events`) when present: the `kind` of each
    /// event (empty when an event has none); empty when not an array.
    pub event_kinds: Option<Vec<String>>,
    /// Wyckoff `range_bars`, when an integer.
    pub range_bars: Option<i64>,
    pub is_accumulation: Option<bool>,
    pub is_distribution: Option<bool>,
    /// Length of `anchors`, when it is an array.
    pub anchors_count: Option<i64>,
    /// Length of `raw_meta.projected_anchors`, when an array.
    pub projected_count: Option<i64>,
    /// Length of `raw_meta.sub_wave_anchors`, when an array.
    pub sub_wave_count: Option<i64>,
    /// TBM metrics embedded in `raw_meta`.
    pub tbm_meta: TbmMetrics,
}

} // verus!
