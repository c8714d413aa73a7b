//! The confluence feature sources.

use vstd::prelude::*;
use crate::features::detection::{Detection, TbmMetrics};
use crate::features::table::{
    lemma_first_match_at_or_before, first_match, table_view, spec_direction_from_subkind, direction_from_subkind, subkind_ordinal,
};
use crate::text::{
    eq_ascii_ci, has_infix, is_prefix, is_suffix, contains, ends_with, eq_ignore_ascii_case,
    starts_with, ascii_lower, str_eq, to_ascii_lowercase, lowercased, to_lowercase, concat,
    to_uppercase, uppercased,
};

verus! {

/// Version of every source's feature layout.
pub const SPEC_VERSION: i32 = 1;

/// The detection belongs to `family` (ASCII case-insensitive).
pub open spec fn in_family(d: &Detection, family: Seq<char>) -> bool {
    eq_ascii_ci(d.family@, family)
}

// ---------------------------------------------------------------- candle

/// Candlestick kinds; three-bar reversals, then two-bar, then one-bar.
pub open spec fn candle_table() -> Seq<(Seq<char>, i64)> {
    seq![
        ("morning_star"@, 30), ("evening_star"@, 31), ("three_white_soldiers"@, 32),
        ("three_black_crows"@, 33), ("three_inside_up"@, 34), ("three_inside_down"@, 35),
        ("three_outside_up"@, 36), ("three_outside_down"@, 37), ("engulfing"@, 20),
        ("harami"@, 21), ("piercing_line"@, 22), ("dark_cloud_cover"@, 23),
        ("tweezer_top"@, 24), ("tweezer_bottom"@, 25), ("dragonfly_doji"@, 10),
        ("gravestone_doji"@, 11), ("long_legged_doji"@, 12), ("doji"@, 13), ("hammer"@, 1),
        ("inverted_hammer"@, 2), ("hanging_man"@, 3), ("shooting_star"@, 4), ("marubozu"@, 5),
        ("spinning_top"@, 6),
    ]
}

fn candle_rows() -> (res: [(&'static str, i64); 24])
    ensures
        table_view(res@) == candle_table(),
{
    let rows = [
        ("morning_star", 30), ("evening_star", 31), ("three_white_soldiers", 32),
        ("three_black_crows", 33), ("three_inside_up", 34), ("three_inside_down", 35),
        ("three_outside_up", 36), ("three_outside_down", 37), ("engulfing", 20),
        ("harami", 21), ("piercing_line", 22), ("dark_cloud_cover", 23),
        ("tweezer_top", 24), ("tweezer_bottom", 25), ("dragonfly_doji", 10),
        ("gravestone_doji", 11), ("long_legged_doji", 12), ("doji", 13), ("hammer", 1),
        ("inverted_hammer", 2), ("hanging_man", 3), ("shooting_star", 4), ("marubozu", 5),
        ("spinning_top", 6),
    ];
    assert(table_view(rows@) =~= candle_table());
    rows
}

pub struct CandleFeatures {
    pub direction: i8,
    pub candle_kind_ordinal: i64,
    pub subkind: String,
}

pub struct CandleSource;

impl CandleSource {
    pub fn key(&self) -> (res: &'static str)
        ensures
            res@ == "candle"@,
    {
        "candle"
    }

    /// Candle detections only: direction, candle kind (0 when unknown).
    pub fn extract(&self, d: &Detection) -> (res: Option<CandleFeatures>)
        ensures
            res is Some <==> in_family(d, "candle"@),
            res matches Some(f) ==> {
                &&& f.direction == spec_direction_from_subkind(d.subkind@)
                &&& f.candle_kind_ordinal == first_match(d.subkind@, candle_table(), 0)
                &&& f.subkind@ == d.subkind@
            },
    {
        if !eq_ignore_ascii_case(d.family.as_str(), "candle") {
            return None;
        }
        let s = d.subkind.as_str();
        let rows = candle_rows();
        Some(
            CandleFeatures {
                direction: direction_from_subkind(s),
                candle_kind_ordinal: subkind_ordinal(s, &rows, 0),
                subkind: d.subkind.clone(),
            },
        )
    }
}

/// Gap kinds; island reversals before any generic match.
pub open spec fn gap_table() -> Seq<(Seq<char>, i64)> {
    seq![("island_reversal"@, 4), ("exhaustion_gap"@, 3), ("runaway_gap"@, 2), ("breakaway_gap"@, 1), ("common_gap"@, 0)]
}

fn gap_rows() -> (res: [(&'static str, i64); 5])
    ensures
        table_view(res@) == gap_table(),
{
    let rows = [("island_reversal", 4), ("exhaustion_gap", 3), ("runaway_gap", 2), ("breakaway_gap", 1), ("common_gap", 0)];
    assert(table_view(rows@) =~= gap_table());
    rows
}

/// Classical chart shapes; the inverse head-and-shoulders before the plain one.
pub open spec fn classical_table() -> Seq<(Seq<char>, i64)> {
    seq![("inverse_head_and_shoulders"@, 4), ("head_and_shoulders"@, 3), ("double_top"@, 5), ("double_bottom"@, 6), ("ascending_triangle"@, 0), ("descending_triangle"@, 0), ("symmetrical_triangle"@, 0), ("rising_wedge"@, 1), ("falling_wedge"@, 1), ("ascending_channel"@, 2), ("descending_channel"@, 2), ("diamond"@, 7), ("rectangle"@, 8), ("rounding"@, 9), ("triple_top"@, 11), ("triple_bottom"@, 12), ("broadening_top"@, 13), ("broadening_bottom"@, 14), ("broadening_triangle"@, 15), ("v_top"@, 16), ("v_bottom"@, 17), ("measured_move_abcd"@, 18)]
}

fn classical_rows() -> (res: [(&'static str, i64); 22])
    ensures
        table_view(res@) == classical_table(),
{
    let rows = [("inverse_head_and_shoulders", 4), ("head_and_shoulders", 3), ("double_top", 5), ("double_bottom", 6), ("ascending_triangle", 0), ("descending_triangle", 0), ("symmetrical_triangle", 0), ("rising_wedge", 1), ("falling_wedge", 1), ("ascending_channel", 2), ("descending_channel", 2), ("diamond", 7), ("rectangle", 8), ("rounding", 9), ("triple_top", 11), ("triple_bottom", 12), ("broadening_top", 13), ("broadening_bottom", 14), ("broadening_triangle", 15), ("v_top", 16), ("v_bottom", 17), ("measured_move_abcd", 18)];
    assert(table_view(rows@) =~= classical_table());
    rows
}

/// Harmonic patterns; `alt_bat` before `bat`, `deep_crab` before `crab`.
pub open spec fn harmonic_table() -> Seq<(Seq<char>, i64)> {
    seq![("gartley"@, 0), ("alt_bat"@, 2), ("deep_crab"@, 5), ("bat"@, 1), ("butterfly"@, 3), ("crab"@, 4), ("cypher"@, 6), ("shark"@, 7)]
}

fn harmonic_rows() -> (res: [(&'static str, i64); 8])
    ensures
        table_view(res@) == harmonic_table(),
{
    let rows = [("gartley", 0), ("alt_bat", 2), ("deep_crab", 5), ("bat", 1), ("butterfly", 3), ("crab", 4), ("cypher", 6), ("shark", 7)];
    assert(table_view(rows@) =~= harmonic_table());
    rows
}

/// Range sub-detectors.
pub open spec fn range_table() -> Seq<(Seq<char>, i64)> {
    seq![("fvg"@, 0), ("ob"@, 1), ("liquidity_pool"@, 2), ("equal_"@, 3), ("range_regime"@, 4), ("long_setup"@, 5)]
}

fn range_rows() -> (res: [(&'static str, i64); 6])
    ensures
        table_view(res@) == range_table(),
{
    let rows = [("fvg", 0), ("ob", 1), ("liquidity_pool", 2), ("equal_", 3), ("range_regime", 4), ("long_setup", 5)];
    assert(table_view(rows@) =~= range_table());
    rows
}

/// Elliott pattern kinds.
pub open spec fn elliott_pattern_table() -> Seq<(Seq<char>, i64)> {
    seq![("impulse"@, 0), ("ending_diagonal"@, 1), ("leading_diagonal"@, 1), ("flat"@, 2), ("zigzag"@, 3), ("triangle"@, 4), ("combination"@, 5)]
}

fn elliott_pattern_rows() -> (res: [(&'static str, i64); 7])
    ensures
        table_view(res@) == elliott_pattern_table(),
{
    let rows = [("impulse", 0), ("ending_diagonal", 1), ("leading_diagonal", 1), ("flat", 2), ("zigzag", 3), ("triangle", 4), ("combination", 5)];
    assert(table_view(rows@) =~= elliott_pattern_table());
    rows
}

/// Elliott wave extensions (`-1` truncated fifth).
pub open spec fn elliott_extension_table() -> Seq<(Seq<char>, i64)> {
    seq![("truncated"@, -1i64), ("w1_extended"@, 1), ("w3_extended"@, 3), ("w5_extended"@, 5)]
}

fn elliott_extension_rows() -> (res: [(&'static str, i64); 4])
    ensures
        table_view(res@) == elliott_extension_table(),
{
    let rows = [("truncated", -1), ("w1_extended", 1), ("w3_extended", 3), ("w5_extended", 5)];
    assert(table_view(rows@) =~= elliott_extension_table());
    rows
}

/// Inserts the text features shared by the subkind-driven sources.
fn copy_subkind(d: &Detection) -> (res: String)
    ensures
        res@ == d.subkind@,
{
    d.subkind.clone()
}

// ------------------------------------------------------------------- gap

pub struct GapFeatures {
    pub direction: i8,
    pub gap_kind_ordinal: i64,
    pub subkind: String,
    pub anchors_count: Option<i64>,
}

pub struct GapSource;

impl GapSource {
    pub fn key(&self) -> (res: &'static str)
        ensures
            res@ == "gap"@,
    {
        "gap"
    }

    /// Gap detections only: direction, gap kind (0 common when unknown),
    /// anchor count.
    pub fn extract(&self, d: &Detection) -> (res: Option<GapFeatures>)
        ensures
            res is Some <==> in_family(d, "gap"@),
            res matches Some(f) ==> {
                &&& f.direction == spec_direction_from_subkind(d.subkind@)
                &&& f.gap_kind_ordinal == first_match(d.subkind@, gap_table(), 0)
                &&& f.subkind@ == d.subkind@
                &&& f.anchors_count == d.anchors_count
            },
    {
        if !eq_ignore_ascii_case(d.family.as_str(), "gap") {
            return None;
        }
        let s = d.subkind.as_str();
        let rows = gap_rows();
        Some(
            GapFeatures {
                direction: direction_from_subkind(s),
                gap_kind_ordinal: subkind_ordinal(s, &rows, 0),
                subkind: copy_subkind(d),
                anchors_count: d.anchors_count,
            },
        )
    }
}

// ------------------------------------------------------------- classical

pub struct ClassicalFeatures {
    pub direction: i8,
    pub shape_kind_ordinal: i64,
    pub subkind: String,
    /// Number of structural targets: none for a neutral detection; `None`
    /// for a directional one, whose targets the structural-target helper
    /// computes from its anchors.
    pub target_count: Option<i64>,
}

pub struct ClassicalSource;

impl ClassicalSource {
    pub fn key(&self) -> (res: &'static str)
        ensures
            res@ == "classical"@,
    {
        "classical"
    }

    /// Classical detections only: direction, shape kind (10 when unknown).
    /// Structural targets are only computed for a non-zero direction.
    pub fn extract(&self, d: &Detection) -> (res: Option<ClassicalFeatures>)
        ensures
            res is Some <==> in_family(d, "classical"@),
            res matches Some(f) ==> {
                &&& f.direction == spec_direction_from_subkind(d.subkind@)
                &&& f.shape_kind_ordinal == first_match(d.subkind@, classical_table(), 10)
                &&& f.subkind@ == d.subkind@
                &&& f.target_count == if f.direction == 0 { Some(0i64) } else { None }
            },
    {
        if !eq_ignore_ascii_case(d.family.as_str(), "classical") {
            return None;
        }
        let s = d.subkind.as_str();
        let rows = classical_rows();
        let direction = direction_from_subkind(s);
        Some(
            ClassicalFeatures {
                direction,
                shape_kind_ordinal: subkind_ordinal(s, &rows, 10),
                subkind: copy_subkind(d),
                target_count: if direction == 0 { Some(0) } else { None },
            },
        )
    }
}

// -------------------------------------------------------------- harmonic

pub struct HarmonicFeatures {
    pub direction: i8,
    pub pattern_kind_ordinal: i64,
    pub subkind: String,
}

pub struct HarmonicSource;

impl HarmonicSource {
    pub fn key(&self) -> (res: &'static str)
        ensures
            res@ == "harmonic"@,
    {
        "harmonic"
    }

    /// Harmonic detections only: direction, pattern kind (9 when unknown).
    pub fn extract(&self, d: &Detection) -> (res: Option<HarmonicFeatures>)
        ensures
            res is Some <==> in_family(d, "harmonic"@),
            res matches Some(f) ==> {
                &&& f.direction == spec_direction_from_subkind(d.subkind@)
                &&& f.pattern_kind_ordinal == first_match(d.subkind@, harmonic_table(), 9)
                &&& f.subkind@ == d.subkind@
            },
    {
        if !eq_ignore_ascii_case(d.family.as_str(), "harmonic") {
            return None;
        }
        let s = d.subkind.as_str();
        let rows = harmonic_rows();
        Some(
            HarmonicFeatures {
                direction: direction_from_subkind(s),
                pattern_kind_ordinal: subkind_ordinal(s, &rows, 9),
                subkind: copy_subkind(d),
            },
        )
    }
}

// ----------------------------------------------------------------- range

/// Which liquidity pole a range subkind refers to: `+1` highs, `-1` lows.
pub open spec fn spec_pole_code(s: Seq<char>) -> int {
    if has_infix(s, "_high"@) || has_infix(s, "highs"@) {
        1
    } else if has_infix(s, "_low"@) || has_infix(s, "lows"@) {
        -1
    } else {
        0
    }
}

pub fn pole_code(subkind: &str) -> (res: i8)
    ensures
        res == spec_pole_code(subkind@),
{
    if contains(subkind, "_high") || contains(subkind, "highs") {
        1
    } else if contains(subkind, "_low") || contains(subkind, "lows") {
        -1
    } else {
        0
    }
}

/// Range direction: a `bullish` / `bearish` prefix decides, else the
/// usual suffix rule.
pub open spec fn spec_range_direction(s: Seq<char>) -> int {
    if is_prefix("bullish"@, s) {
        1
    } else if is_prefix("bearish"@, s) {
        -1
    } else {
        spec_direction_from_subkind(s)
    }
}

pub struct RangeFeatures {
    pub direction: i8,
    pub sub_detector_ordinal: i64,
    pub pole: i8,
    pub subkind: String,
}

pub struct RangeSource;

impl RangeSource {
    pub fn key(&self) -> (res: &'static str)
        ensures
            res@ == "range"@,
    {
        "range"
    }

    /// Range detections only: direction, sub-detector (9 when unknown),
    /// liquidity pole.
    pub fn extract(&self, d: &Detection) -> (res: Option<RangeFeatures>)
        ensures
            res is Some <==> in_family(d, "range"@),
            res matches Some(f) ==> {
                &&& f.direction == spec_range_direction(d.subkind@)
                &&& f.sub_detector_ordinal == first_match(d.subkind@, range_table(), 9)
                &&& f.pole == spec_pole_code(d.subkind@)
                &&& f.subkind@ == d.subkind@
            },
    {
        if !eq_ignore_ascii_case(d.family.as_str(), "range") {
            return None;
        }
        let s = d.subkind.as_str();
        let direction = if starts_with(s, "bullish") {
            1
        } else if starts_with(s, "bearish") {
            -1
        } else {
            direction_from_subkind(s)
        };
        let rows = range_rows();
        Some(
            RangeFeatures {
                direction,
                sub_detector_ordinal: subkind_ordinal(s, &rows, 9),
                pole: pole_code(s),
                subkind: copy_subkind(d),
            },
        )
    }
}

// --------------------------------------------------------------- elliott

/// Elliott direction: only a `_bull` / `_bear` suffix counts.
pub open spec fn spec_elliott_direction(s: Seq<char>) -> int {
    if is_suffix("_bull"@, s) {
        1
    } else if is_suffix("_bear"@, s) {
        -1
    } else {
        0
    }
}

pub fn elliott_direction_code(subkind: &str) -> (res: i8)
    ensures
        res == spec_elliott_direction(subkind@),
{
    if ends_with(subkind, "_bull") {
        1
    } else if ends_with(subkind, "_bear") {
        -1
    } else {
        0
    }
}

/// Elliott pattern kind, 6 when unknown.
pub fn pattern_ordinal(subkind: &str) -> (res: i64)
    ensures
        res == first_match(subkind@, elliott_pattern_table(), 6),
{
    let rows = elliott_pattern_rows();
    subkind_ordinal(subkind, &rows, 6)
}

/// Extended wave of an impulse (1, 3, 5), -1 when truncated, 0 otherwise.
pub fn extended_wave(subkind: &str) -> (res: i64)
    ensures
        res == first_match(subkind@, elliott_extension_table(), 0),
{
    let rows = elliott_extension_rows();
    subkind_ordinal(subkind, &rows, 0)
}

pub struct ElliottFeatures {
    pub direction: i8,
    pub pattern_kind_ordinal: i64,
    pub extended_wave: i64,
    pub subkind: String,
    pub projected_count: Option<i64>,
    pub sub_wave_count: Option<i64>,
}

pub struct ElliottSource;

impl ElliottSource {
    pub fn key(&self) -> (res: &'static str)
        ensures
            res@ == "elliott"@,
    {
        "elliott"
    }

    /// Elliott detections only: direction, pattern kind, extended wave and
    /// the projected / sub-wave anchor counts.
    pub fn extract(&self, d: &Detection) -> (res: Option<ElliottFeatures>)
        ensures
            res is Some <==> in_family(d, "elliott"@),
            res matches Some(f) ==> {
                &&& f.direction == spec_elliott_direction(d.subkind@)
                &&& f.pattern_kind_ordinal == first_match(d.subkind@, elliott_pattern_table(), 6)
                &&& f.extended_wave == first_match(d.subkind@, elliott_extension_table(), 0)
                &&& f.subkind@ == d.subkind@
                &&& f.projected_count == d.projected_count
                &&& f.sub_wave_count == d.sub_wave_count
            },
    {
        if !eq_ignore_ascii_case(d.family.as_str(), "elliott") {
            return None;
        }
        let s = d.subkind.as_str();
        Some(
            ElliottFeatures {
                direction: elliott_direction_code(s),
                pattern_kind_ordinal: pattern_ordinal(s),
                extended_wave: extended_wave(s),
                subkind: copy_subkind(d),
                projected_count: d.projected_count,
                sub_wave_count: d.sub_wave_count,
            },
        )
    }
}


// ------------------------------------------------------------------- tbm

/// TBM direction: `bottom_setup` is long, `top_setup` short.
pub open spec fn spec_tbm_direction(s: Seq<char>) -> int {
    if s == "bottom_setup"@ {
        1
    } else if s == "top_setup"@ {
        -1
    } else {
        0
    }
}

pub fn tbm_direction_code(subkind: &str) -> (res: i8)
    ensures
        res == spec_tbm_direction(subkind@),
{
    if str_eq(subkind, "bottom_setup") {
        1
    } else if str_eq(subkind, "top_setup") {
        -1
    } else {
        0
    }
}

/// TBM signal strength (ASCII case-insensitive): strong 2, neutral 1,
/// weak 0, anything else -1.
pub open spec fn spec_signal_ordinal(sig: Seq<char>) -> int {
    let l = ascii_lower(sig);
    if l == "strong"@ {
        2
    } else if l == "neutral"@ {
        1
    } else if l == "weak"@ {
        0
    } else {
        -1
    }
}

pub fn signal_ordinal(signal: &str) -> (res: i64)
    ensures
        res == spec_signal_ordinal(signal@),
{
    let l = to_ascii_lowercase(signal);
    let ls = l.as_str();
    if str_eq(ls, "strong") {
        2
    } else if str_eq(ls, "neutral") {
        1
    } else if str_eq(ls, "weak") {
        0
    } else {
        -1
    }
}

/// The detection's own metrics are used when they carry a total score,
/// pillars or a signal; otherwise the latest stored TBM row.
pub open spec fn uses_embedded(m: &TbmMetrics) -> bool {
    m.has_total_score || m.has_pillars || m.has_signal
}

pub struct TbmFeatures {
    pub direction: i8,
    pub subkind: String,
    /// Whether the metrics came from the detection itself.
    pub embedded_metrics: bool,
    /// Signal ordinal and text, when the chosen metrics carry a signal.
    pub signal: Option<(i64, String)>,
    pub active_pillars: Option<i64>,
}

pub open spec fn signal_features(m: &TbmMetrics) -> Option<(int, Seq<char>)> {
    match &m.signal {
        Some(s) => Some((spec_signal_ordinal(s@), s@)),
        None => None,
    }
}

pub open spec fn signal_view(f: &TbmFeatures) -> Option<(int, Seq<char>)> {
    match &f.signal {
        Some(p) => Some((p.0 as int, p.1@)),
        None => None,
    }
}

fn metric_features(m: &TbmMetrics) -> (res: (Option<(i64, String)>, Option<i64>))
    ensures
        match &res.0 {
            Some(p) => signal_features(m) == Some((p.0 as int, p.1@)),
            None => signal_features(m) is None,
        },
        res.1 == m.active_pillars,
{
    let sig = match &m.signal {
        Some(s) => Some((signal_ordinal(s.as_str()), s.clone())),
        None => None,
    };
    (sig, m.active_pillars)
}

pub struct TbmSource;

impl TbmSource {
    pub fn key(&self) -> (res: &'static str)
        ensures
            res@ == "tbm"@,
    {
        "tbm"
    }

    /// Whether the latest stored TBM row must be read for `d`: for TBM
    /// detections only, whether or not they carry metrics of their own.
    pub fn needs_latest_tbm(&self, d: &Detection) -> (res: bool)
        ensures
            res == in_family(d, "tbm"@),
    {
        eq_ignore_ascii_case(d.family.as_str(), "tbm")
    }

    /// TBM detections only: direction, then signal and active pillars from
    /// the embedded metrics, or from `fallback` (the latest stored TBM
    /// row) when the detection carries none.
    pub fn extract(&self, d: &Detection, fallback: Option<&TbmMetrics>) -> (res: Option<
        TbmFeatures,
    >)
        ensures
            res is Some <==> in_family(d, "tbm"@),
            res matches Some(f) ==> {
                &&& f.direction == spec_tbm_direction(d.subkind@)
                &&& f.subkind@ == d.subkind@
                &&& f.embedded_metrics == uses_embedded(&d.tbm_meta)
                &&& if uses_embedded(&d.tbm_meta) {
                    signal_view(&f) == signal_features(&d.tbm_meta) && f.active_pillars
                        == d.tbm_meta.active_pillars
                } else {
                    match fallback {
                        Some(m) => signal_view(&f) == signal_features(m) && f.active_pillars
                            == m.active_pillars,
                        None => f.signal is None && f.active_pillars is None,
                    }
                }
            },
    {
        if !eq_ignore_ascii_case(d.family.as_str(), "tbm") {
            return None;
        }
        let m = &d.tbm_meta;
        let embedded = m.has_total_score || m.has_pillars || m.has_signal;
        let (signal, active_pillars) = if embedded {
            metric_features(m)
        } else {
            match fallback {
                Some(fb) => metric_features(fb),
                None => (None, None),
            }
        };
        Some(
            TbmFeatures {
                direction: tbm_direction_code(d.subkind.as_str()),
                subkind: copy_subkind(d),
                embedded_metrics: embedded,
                signal,
                active_pillars,
            },
        )
    }
}

// --------------------------------------------------------------- wyckoff

/// Wyckoff phase A..E as 0..4 (`A`, `a` or `phase_a` and so on), -1
/// otherwise.
pub open spec fn spec_phase_ordinal(p: Seq<char>) -> int {
    if p == "A"@ || p == "a"@ || p == "phase_a"@ {
        0
    } else if p == "B"@ || p == "b"@ || p == "phase_b"@ {
        1
    } else if p == "C"@ || p == "c"@ || p == "phase_c"@ {
        2
    } else if p == "D"@ || p == "d"@ || p == "phase_d"@ {
        3
    } else if p == "E"@ || p == "e"@ || p == "phase_e"@ {
        4
    } else {
        -1
    }
}

pub fn phase_ordinal(p: &str) -> (res: i64)
    ensures
        res == spec_phase_ordinal(p@),
{
    if str_eq(p, "A") || str_eq(p, "a") || str_eq(p, "phase_a") {
        0
    } else if str_eq(p, "B") || str_eq(p, "b") || str_eq(p, "phase_b") {
        1
    } else if str_eq(p, "C") || str_eq(p, "c") || str_eq(p, "phase_c") {
        2
    } else if str_eq(p, "D") || str_eq(p, "d") || str_eq(p, "phase_d") {
        3
    } else if str_eq(p, "E") || str_eq(p, "e") || str_eq(p, "phase_e") {
        4
    } else {
        -1
    }
}

/// Some event has kind `needle` (ASCII case-insensitive).
pub open spec fn spec_any_event(kinds: Seq<String>, needle: Seq<char>) -> bool {
    exists|i: int| 0 <= i < kinds.len() && eq_ascii_ci(#[trigger] kinds[i]@, needle)
}

pub fn any_event_with_kind(kinds: &Vec<String>, needle: &str) -> (res: bool)
    ensures
        res == spec_any_event(kinds@, needle@),
{
    let n = kinds.len();
    let mut i: usize = 0;
    while i < n
        invariant
            n == kinds@.len(),
            i <= n,
            forall|j: int| 0 <= j < i ==> !eq_ascii_ci(#[trigger] kinds@[j]@, needle@),
        decreases n - i,
    {
        if eq_ignore_ascii_case(kinds[i].as_str(), needle) {
            return true;
        }
        i = i + 1;
    }
    false
}

pub struct WyckoffEvents {
    pub events_count: i64,
    pub spring_fired: bool,
    pub utad_fired: bool,
    pub sos_fired: bool,
    pub sow_fired: bool,
}

pub struct WyckoffFeatures {
    /// Phase ordinal and text, when the detection names a phase.
    pub phase: Option<(i64, String)>,
    /// Event features, when the detection carries events.
    pub events: Option<WyckoffEvents>,
    pub range_bars: Option<i64>,
    pub is_accumulation: Option<bool>,
    pub is_distribution: Option<bool>,
}

pub open spec fn events_match(e: &WyckoffEvents, kinds: Seq<String>) -> bool {
    &&& e.events_count == kinds.len()
    &&& e.spring_fired == spec_any_event(kinds, "spring"@)
    &&& e.utad_fired == spec_any_event(kinds, "utad"@)
    &&& e.sos_fired == spec_any_event(kinds, "sos"@)
    &&& e.sow_fired == spec_any_event(kinds, "sow"@)
}

pub struct WyckoffSource;

impl WyckoffSource {
    pub fn key(&self) -> (res: &'static str)
        ensures
            res@ == "wyckoff"@,
    {
        "wyckoff"
    }

    /// Wyckoff detections only: phase ordinal, event count and the spring /
    /// UTAD / SOS / SOW flags, range length and accumulation /
    /// distribution flags, each when present.
    pub fn extract(&self, d: &Detection) -> (res: Option<WyckoffFeatures>)
        requires
            d.event_kinds matches Some(k) ==> k@.len() <= i64::MAX,
        ensures
            res is Some <==> in_family(d, "wyckoff"@),
            res matches Some(f) ==> {
                &&& match (&f.phase, &d.phase) {
                    (Some(p), Some(q)) => p.0 == spec_phase_ordinal(q@) && p.1@ == q@,
                    (None, None) => true,
                    _ => false,
                }
                &&& match (&f.events, &d.event_kinds) {
                    (Some(e), Some(k)) => events_match(e, k@),
                    (None, None) => true,
                    _ => false,
                }
                &&& f.range_bars == d.range_bars
                &&& f.is_accumulation == d.is_accumulation
                &&& f.is_distribution == d.is_distribution
            },
    {
        if !eq_ignore_ascii_case(d.family.as_str(), "wyckoff") {
            return None;
        }
        let phase = match &d.phase {
            Some(p) => Some((phase_ordinal(p.as_str()), p.clone())),
            None => None,
        };
        let events = match &d.event_kinds {
            Some(k) => Some(
                WyckoffEvents {
                    events_count: k.len() as i64,
                    spring_fired: any_event_with_kind(k, "spring"),
                    utad_fired: any_event_with_kind(k, "utad"),
                    sos_fired: any_event_with_kind(k, "sos"),
                    sow_fired: any_event_with_kind(k, "sow"),
                },
            ),
            None => None,
        };
        Some(
            WyckoffFeatures {
                phase,
                events,
                range_bars: d.range_bars,
                is_accumulation: d.is_accumulation,
                is_distribution: d.is_distribution,
            },
        )
    }
}

// ------------------------------------------------- market-data sources

/// Symbol in the lower case used by the snapshot keys.
pub fn pair_lower(symbol: &str) -> (res: String)
    ensures
        res@ == lowercased(symbol@),
{
    to_lowercase(symbol)
}

/// Key of a per-symbol data snapshot: `prefix` then the lower-cased
/// symbol (`binance_depth_btcusdt`, `binance_premium_btcusdt`, ...).
pub fn snapshot_key(prefix: &str, symbol: &str) -> (res: String)
    ensures
        res@ == prefix@ + lowercased(symbol@),
{
    let p = pair_lower(symbol);
    concat(prefix.to_owned(), p.as_str())
}

/// Which side of the book a liquidation event closed: a forced `BUY`
/// closes a short, a forced `SELL` closes a long (ASCII case-insensitive).
#[derive(Clone, Copy, Debug, PartialEq, Eq, Structural)]
pub enum LiquidatedSide {
    Short,
    Long,
    Other,
}

pub fn liquidated_side(side: &str) -> (res: LiquidatedSide)
    ensures
        res == if eq_ascii_ci(side@, "BUY"@) {
            LiquidatedSide::Short
        } else if eq_ascii_ci(side@, "SELL"@) {
            LiquidatedSide::Long
        } else {
            LiquidatedSide::Other
        },
{
    if eq_ignore_ascii_case(side, "BUY") {
        LiquidatedSide::Short
    } else if eq_ignore_ascii_case(side, "SELL") {
        LiquidatedSide::Long
    } else {
        LiquidatedSide::Other
    }
}

/// Order-book features read from the `binance_depth_<pair>` snapshot.
pub struct OrderbookSource;

impl OrderbookSource {
    pub fn key(&self) -> (res: &'static str)
        ensures
            res@ == "orderbook"@,
    {
        "orderbook"
    }

    /// The snapshot the source reads for `symbol`.
    pub fn depth_key(&self, symbol: &str) -> (res: String)
        ensures
            res@ == "binance_depth_"@ + lowercased(symbol@),
    {
        snapshot_key("binance_depth_", symbol)
    }
}

/// Derivatives features read from the Binance futures snapshots.
pub struct DerivativesSource;

impl DerivativesSource {
    pub fn key(&self) -> (res: &'static str)
        ensures
            res@ == "derivatives"@,
    {
        "derivatives"
    }
}

/// The switches of one source in the feature store: the system_config key
/// `feature_store.sources.<key>.enabled` and the environment variable
/// `QTSS_FS_SRC_<KEY>_ON` (upper-cased key).
pub fn source_switch_keys(source_key: &str) -> (res: (String, String))
    ensures
        res.0@ == "feature_store.sources."@ + source_key@ + ".enabled"@,
        res.1@ == "QTSS_FS_SRC_"@ + uppercased(source_key@) + "_ON"@,
{
    let a = concat("feature_store.sources.".to_owned(), source_key);
    let cfg = concat(a, ".enabled");
    let up = to_uppercase(source_key);
    let b = concat("QTSS_FS_SRC_".to_owned(), up.as_str());
    let env = concat(b, "_ON");
    (cfg, env)
}

/// Each source ignores detections of other families: a detection accepted
/// by one source is refused by the others.
pub proof fn lemma_sources_are_disjoint(d: &Detection)
    ensures
        in_family(d, "candle"@) ==> !in_family(d, "gap"@) && !in_family(d, "classical"@)
            && !in_family(d, "harmonic"@),
        in_family(d, "elliott"@) ==> !in_family(d, "wyckoff"@) && !in_family(d, "tbm"@)
            && !in_family(d, "range"@),
{
    reveal_strlit("candle");
    reveal_strlit("gap");
    reveal_strlit("classical");
    reveal_strlit("harmonic");
    reveal_strlit("elliott");
    reveal_strlit("wyckoff");
    reveal_strlit("tbm");
    reveal_strlit("range");
    let l = ascii_lower(d.family@);
    if in_family(d, "candle"@) {
        assert(l == ascii_lower("candle"@));
        assert(l.len() == 6);
        assert(l[0] == 'c');
        assert(ascii_lower("gap"@).len() == 3);
        assert(ascii_lower("classical"@).len() == 9);
        assert(ascii_lower("harmonic"@).len() == 8);
    }
    if in_family(d, "elliott"@) {
        assert(l == ascii_lower("elliott"@));
        assert(l.len() == 7);
        assert(l[0] == 'e');
        assert(ascii_lower("wyckoff"@)[0] == 'w');
        assert(ascii_lower("tbm"@).len() == 3);
        assert(ascii_lower("range"@).len() == 5);
    }
}


/// Dispatch tables list the more specific needles first: an inverse
/// head-and-shoulders is never read as a plain one, an island reversal
/// wins over other gap kinds, and a deep crab or an alternate bat is never
/// classified as a crab or a bat.
pub proof fn lemma_specific_needles_first(s: Seq<char>)
    ensures
        has_infix(s, "inverse_head_and_shoulders"@) ==> first_match(s, classical_table(), 10)
            == 4,
        has_infix(s, "island_reversal"@) ==> first_match(s, gap_table(), 0) == 4,
        has_infix(s, "deep_crab"@) ==> first_match(s, harmonic_table(), 9) == 0
            || first_match(s, harmonic_table(), 9) == 2 || first_match(s, harmonic_table(), 9)
            == 5,
        has_infix(s, "alt_bat"@) ==> first_match(s, harmonic_table(), 9) == 0 || first_match(
            s,
            harmonic_table(),
            9,
        ) == 2,
{
    let h = harmonic_table();
    if has_infix(s, "deep_crab"@) {
        assert(h[2].0 == "deep_crab"@);
        lemma_first_match_at_or_before(s, h, 9, 2);
    }
    if has_infix(s, "alt_bat"@) {
        assert(h[1].0 == "alt_bat"@);
        lemma_first_match_at_or_before(s, h, 9, 1);
    }
}

} // verus!
