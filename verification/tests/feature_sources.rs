use qtss_worker::features::detection::{Detection, TbmMetrics};
use qtss_worker::features::sources::{
    CandleSource, ClassicalSource, DerivativesSource, ElliottSource, GapSource, HarmonicSource,
    LiquidatedSide, OrderbookSource, RangeSource, TbmSource, WyckoffSource, liquidated_side,
    pair_lower, signal_ordinal, phase_ordinal, snapshot_key,
};
use qtss_worker::features::table::{direction_from_subkind, subkind_ordinal};

fn no_metrics() -> TbmMetrics {
    TbmMetrics {
        has_total_score: false,
        has_pillars: false,
        has_signal: false,
        signal: None,
        active_pillars: None,
    }
}

fn det(family: &str, subkind: &str) -> Detection {
    Detection {
        family: family.to_string(),
        subkind: subkind.to_string(),
        phase: None,
        event_kinds: None,
        range_bars: None,
        is_accumulation: None,
        is_distribution: None,
        anchors_count: None,
        projected_count: None,
        sub_wave_count: None,
        tbm_meta: no_metrics(),
    }
}

#[test]
fn direction_suffixes() {
    assert_eq!(direction_from_subkind("impulse_5_bull"), 1);
    assert_eq!(direction_from_subkind("flat_regular_bear"), -1);
    assert_eq!(direction_from_subkind("range_regime"), 0);
}

#[test]
fn direction_infix_marks() {
    assert_eq!(direction_from_subkind("bullish_trap"), 0);
    assert_eq!(direction_from_subkind("double_bull_trap"), 1);
    assert_eq!(direction_from_subkind("engulfing_bull_strong"), 1);
    assert_eq!(direction_from_subkind("x_bear_y"), -1);
}

#[test]
fn ordinal_table_lookup() {
    let table: &[(&str, i64)] = &[("wedge", 2), ("triangle", 1)];
    assert_eq!(subkind_ordinal("rising_wedge_bear", table, 9), 2);
    assert_eq!(subkind_ordinal("symmetrical_triangle_neutral", table, 9), 1);
    assert_eq!(subkind_ordinal("unknown_shape", table, 9), 9);
}

#[test]
fn inverse_head_and_shoulders_before_head_and_shoulders() {
    let s = ClassicalSource
        .extract(&det("classical", "inverse_head_and_shoulders_bull"))
        .unwrap();
    assert_eq!(s.shape_kind_ordinal, 4);
    assert_eq!(s.direction, 1);
}

#[test]
fn rectangle_neutral_direction() {
    let s = ClassicalSource.extract(&det("classical", "rectangle_neutral")).unwrap();
    assert_eq!(s.direction, 0);
    assert_eq!(s.shape_kind_ordinal, 8);
    assert_eq!(s.target_count, Some(0));
}

#[test]
fn ignores_non_classical() {
    assert!(ClassicalSource.extract(&det("harmonic", "gartley_bull")).is_none());
}

#[test]
fn classical_unknown_shape_defaults_to_ten() {
    let s = ClassicalSource.extract(&det("Classical", "cup_and_handle_bull")).unwrap();
    assert_eq!(s.shape_kind_ordinal, 10);
    assert_eq!(s.subkind, "cup_and_handle_bull");
    assert_eq!(s.target_count, None);
}

#[test]
fn candle_kinds_and_family_case() {
    assert_eq!(CandleSource.key(), "candle");
    let s = CandleSource.extract(&det("CANDLE", "morning_star_bull")).unwrap();
    assert_eq!(s.candle_kind_ordinal, 30);
    assert_eq!(s.direction, 1);
    let d = CandleSource.extract(&det("candle", "gravestone_doji_bear")).unwrap();
    assert_eq!(d.candle_kind_ordinal, 11);
    assert_eq!(CandleSource.extract(&det("candle", "unnamed")).unwrap().candle_kind_ordinal, 0);
    assert!(CandleSource.extract(&det("gap", "doji")).is_none());
}

#[test]
fn island_before_common() {
    let s = GapSource.extract(&det("gap", "island_reversal_bear")).unwrap();
    assert_eq!(s.gap_kind_ordinal, 4);
    assert_eq!(s.direction, -1);
}

#[test]
fn ignores_non_gap() {
    assert!(GapSource.extract(&det("classical", "double_top_bear")).is_none());
}

#[test]
fn gap_carries_anchor_count() {
    let mut d = det("gap", "runaway_gap_bull");
    d.anchors_count = Some(3);
    let s = GapSource.extract(&d).unwrap();
    assert_eq!(s.gap_kind_ordinal, 2);
    assert_eq!(s.anchors_count, Some(3));
}

#[test]
fn deep_crab_ordered_before_crab() {
    let s = HarmonicSource.extract(&det("harmonic", "deep_crab_bull")).unwrap();
    assert_eq!(s.pattern_kind_ordinal, 5);
}

#[test]
fn ignores_non_harmonic() {
    assert!(HarmonicSource.extract(&det("elliott", "impulse_5_bull")).is_none());
}

#[test]
fn harmonic_alt_bat_and_default() {
    assert_eq!(HarmonicSource.extract(&det("harmonic", "alt_bat_bear")).unwrap().pattern_kind_ordinal, 2);
    assert_eq!(HarmonicSource.extract(&det("harmonic", "bat_bear")).unwrap().pattern_kind_ordinal, 1);
    assert_eq!(HarmonicSource.extract(&det("harmonic", "three_drives")).unwrap().pattern_kind_ordinal, 9);
}

#[test]
fn ignores_non_elliott() {
    assert!(ElliottSource.extract(&det("wyckoff", "phase_c")).is_none());
}

#[test]
fn impulse_w3_extended_bull() {
    let mut d = det("elliott", "impulse_w3_extended_bull");
    d.projected_count = Some(2);
    d.sub_wave_count = Some(3);
    let s = ElliottSource.extract(&d).unwrap();
    assert_eq!(s.direction, 1);
    assert_eq!(s.pattern_kind_ordinal, 0);
    assert_eq!(s.extended_wave, 3);
    assert_eq!(s.projected_count, Some(2));
    assert_eq!(s.sub_wave_count, Some(3));
}

#[test]
fn zigzag_bear_classifies() {
    let s = ElliottSource.extract(&det("elliott", "zigzag_abc_bear")).unwrap();
    assert_eq!(s.direction, -1);
    assert_eq!(s.pattern_kind_ordinal, 3);
}

#[test]
fn elliott_truncated_and_unknown() {
    let s = ElliottSource.extract(&det("elliott", "impulse_truncated_bear")).unwrap();
    assert_eq!(s.extended_wave, -1);
    let u = ElliottSource.extract(&det("elliott", "double_three_bull_x")).unwrap();
    assert_eq!(u.pattern_kind_ordinal, 6);
    assert_eq!(u.direction, 0);
}

#[test]
fn bullish_fvg_parses() {
    let s = RangeSource.extract(&det("range", "bullish_fvg")).unwrap();
    assert_eq!(s.direction, 1);
    assert_eq!(s.sub_detector_ordinal, 0);
}

#[test]
fn equal_highs_pole() {
    let s = RangeSource.extract(&det("range", "equal_highs")).unwrap();
    assert_eq!(s.pole, 1);
    assert_eq!(s.sub_detector_ordinal, 3);
}

#[test]
fn liquidity_pool_low() {
    let s = RangeSource.extract(&det("range", "liquidity_pool_low")).unwrap();
    assert_eq!(s.sub_detector_ordinal, 2);
    assert_eq!(s.pole, -1);
}

#[test]
fn range_bearish_prefix_and_default() {
    let s = RangeSource.extract(&det("range", "bearish_ob")).unwrap();
    assert_eq!(s.direction, -1);
    assert_eq!(s.sub_detector_ordinal, 1);
    assert_eq!(RangeSource.extract(&det("range", "mystery")).unwrap().sub_detector_ordinal, 9);
}

#[test]
fn uses_raw_meta_pillars_map() {
    let mut d = det("tbm", "bottom_setup");
    d.tbm_meta = TbmMetrics {
        has_total_score: true,
        has_pillars: true,
        has_signal: true,
        signal: Some("strong".to_string()),
        active_pillars: Some(4),
    };
    let s = TbmSource.extract(&d, None).unwrap();
    assert_eq!(s.direction, 1);
    assert!(s.embedded_metrics);
    assert_eq!(s.signal, Some((2, "strong".to_string())));
    assert_eq!(s.active_pillars, Some(4));
}

#[test]
fn falls_back_to_latest_tbm() {
    let d = det("tbm", "top_setup");
    let fallback = TbmMetrics {
        has_total_score: true,
        has_pillars: true,
        has_signal: true,
        signal: Some("neutral".to_string()),
        active_pillars: None,
    };
    let s = TbmSource.extract(&d, Some(&fallback)).unwrap();
    assert_eq!(s.direction, -1);
    assert!(!s.embedded_metrics);
    assert_eq!(s.signal, Some((1, "neutral".to_string())));
}

#[test]
fn ignores_non_tbm() {
    assert!(TbmSource.extract(&det("elliott", "impulse_5_bull"), None).is_none());
    assert!(!TbmSource.needs_latest_tbm(&det("elliott", "impulse_5_bull")));
}

#[test]
fn tbm_signal_ordinals() {
    assert_eq!(signal_ordinal("STRONG"), 2);
    assert_eq!(signal_ordinal("Weak"), 0);
    assert_eq!(signal_ordinal("bogus"), -1);
}

#[test]
fn extracts_phase_and_events() {
    let mut d = det("wyckoff", "");
    d.phase = Some("C".to_string());
    d.event_kinds = Some(vec!["spring".to_string(), "SOS".to_string()]);
    d.range_bars = Some(40);
    d.is_accumulation = Some(true);
    let s = WyckoffSource.extract(&d).unwrap();
    assert_eq!(s.phase, Some((2, "C".to_string())));
    let e = s.events.unwrap();
    assert_eq!(e.events_count, 2);
    assert!(e.spring_fired);
    assert!(e.sos_fired);
    assert!(!e.utad_fired);
    assert!(!e.sow_fired);
    assert_eq!(s.range_bars, Some(40));
    assert_eq!(s.is_accumulation, Some(true));
}

#[test]
fn ignores_non_wyckoff() {
    assert!(WyckoffSource.extract(&det("elliott", "")).is_none());
}

#[test]
fn wyckoff_phase_ordinals() {
    assert_eq!(phase_ordinal("phase_e"), 4);
    assert_eq!(phase_ordinal("a"), 0);
    assert_eq!(phase_ordinal("F"), -1);
}

#[test]
fn market_data_keys() {
    assert_eq!(pair_lower("BTCUSDT"), "btcusdt");
    assert_eq!(OrderbookSource.depth_key("BTCUSDT"), "binance_depth_btcusdt");
    assert_eq!(snapshot_key("binance_premium_", "ETHUSDT"), "binance_premium_ethusdt");
    assert_eq!(OrderbookSource.key(), "orderbook");
    assert_eq!(DerivativesSource.key(), "derivatives");
}

#[test]
fn liquidation_sides() {
    assert_eq!(liquidated_side("buy"), LiquidatedSide::Short);
    assert_eq!(liquidated_side("SELL"), LiquidatedSide::Long);
    assert_eq!(liquidated_side(""), LiquidatedSide::Other);
}

#[test]
fn latest_tbm_row_is_read_for_tbm_detections_only() {
    assert!(TbmSource.needs_latest_tbm(&det("tbm", "bottom_setup")));
    assert!(TbmSource.needs_latest_tbm(&det("TBM", "top_setup")));
    assert!(!TbmSource.needs_latest_tbm(&det("wyckoff", "spring")));
    assert!(!TbmSource.needs_latest_tbm(&det("", "")));
}
