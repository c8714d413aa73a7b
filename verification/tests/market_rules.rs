use qtss_worker::backfill::{plateau_step, BackfillPhase};
use qtss_worker::execution::{
    dispatch_route, equity_config_key, leverage_from_config, live_state_mode_side,
    order_intent_shape, owner_config_keys, rejects_setup_on_failure, state_leverage,
    DispatchRoute, ExecMode, IntentError, OrderSegment, OrderSideKind,
};
use qtss_worker::indicators::{default_names, indicator_kind, IndicatorKind, Polarity};
use qtss_worker::llm::{fence_stripped, parse_verdict, Verdict};
use qtss_worker::markets::{
    anchor_too_stale, backfill_target, last_anchor_stale, expected_bars, fmt_duration_secs, interval_seconds,
    kline_stream, live_side, segment_from_row, segment_ws_db, source_type_for_key,
    timeframe_seconds, timeframe_seconds_checked, KlineStream,
};
use qtss_worker::markets::{hour_bucket_key, zero_pad, parse_timeframe, venue_of, BarTimeframe, Venue};
use qtss_worker::onchain::{
    onchain_plan,
    hl_perp_coin, market_regime_raw, snapshot_age_confidence, symbol_base_lower,
    ta_long_short_bias, SnapshotConfidence,
};
use qtss_worker::pivots::{
    _unused_slot_cfg_anchor, alternation_ok, harmonic_subkind, slot_lengths, swing_tag_for,
    PriceMove, SwingTag,
};
use qtss_worker::playbook::{
    candidate_rank_confidence, decide_market_mode, MarketMode, MarketSignals, SignalName, Vote,
};

#[test]
fn interval_table() {
    assert_eq!(interval_seconds(" 15m "), Some(900));
    assert_eq!(interval_seconds("60m"), Some(3600));
    assert_eq!(interval_seconds("1M"), Some(2_592_000));
    assert_eq!(interval_seconds("1D"), Some(86_400));
    assert_eq!(interval_seconds("2d"), None);
}

#[test]
fn timeframe_durations() {
    assert_eq!(timeframe_seconds("1m"), 60);
    assert_eq!(timeframe_seconds("15m"), 900);
    assert_eq!(timeframe_seconds("1h"), 3_600);
    assert_eq!(timeframe_seconds(" 4h "), 14_400);
    assert_eq!(timeframe_seconds("1d"), 86_400);
    assert_eq!(timeframe_seconds("1w"), 604_800);
    assert_eq!(timeframe_seconds("30s"), 30);
    assert_eq!(timeframe_seconds(" 4H "), 14_400);
    assert_eq!(timeframe_seconds("1D"), 86_400);
    assert_eq!(timeframe_seconds("2W"), 1_209_600);
    assert_eq!(timeframe_seconds("h"), 3_600);
    assert_eq!(timeframe_seconds("m"), 60);
    assert_eq!(timeframe_seconds_checked("2h"), Some(7_200));
    assert_eq!(timeframe_seconds("\u{a0}1h\u{3000}"), 3_600);
    assert_eq!(timeframe_seconds("\t+2h\n"), 7_200);
    assert_eq!(timeframe_seconds("015m"), 900);
    assert_eq!(timeframe_seconds("1 h"), 86_400);
    assert_eq!(timeframe_seconds("1_0m"), 86_400);
}

#[test]
fn unrecognised_timeframes_fall_back_to_one_day() {
    assert_eq!(timeframe_seconds("2x"), 86_400);
    assert_eq!(timeframe_seconds("1M"), 86_400);
    assert_eq!(timeframe_seconds("15M"), 86_400);
    assert_eq!(timeframe_seconds("90"), 86_400);
    assert_eq!(timeframe_seconds("3y"), 86_400);
    assert_eq!(timeframe_seconds("0h"), 86_400);
    assert_eq!(timeframe_seconds("-1h"), 86_400);
    assert_eq!(timeframe_seconds(""), 86_400);
    assert_eq!(timeframe_seconds_checked("9223372036854775807d"), None);
}

#[test]
fn anchor_staleness() {
    assert_eq!(anchor_too_stale(None, "1h", 10), Some(false));
    assert_eq!(anchor_too_stale(Some(36_001), "1h", 10), Some(true));
    assert_eq!(anchor_too_stale(Some(36_000), "1h", 10), Some(false));
    assert_eq!(anchor_too_stale(Some(1), "1w", i64::MAX), None);
}

#[test]
fn segments_and_sides() {
    assert_eq!(segment_ws_db("usdt_futures"), "futures");
    assert_eq!(segment_ws_db("margin"), "spot");
    assert_eq!(live_side("long"), "BUY");
    assert_eq!(live_side("short"), "SELL");
    assert_eq!(segment_from_row(Some("Crypto"), "spot"), "futures");
    assert_eq!(segment_from_row(Some("OPTIONS"), "spot"), "options");
    assert_eq!(segment_from_row(Some("weird"), "margin"), "margin");
    assert_eq!(segment_from_row(None, "FUTURES"), "futures");
}

#[test]
fn nansen_flow_types() {
    assert_eq!(source_type_for_key("nansen_holdings"), Some("holdings"));
    assert_eq!(source_type_for_key("nansen_flow_intelligence"), Some("flow_intel"));
    assert_eq!(source_type_for_key("nansen_perp_trades"), None);
}

#[test]
fn durations_render() {
    assert_eq!(fmt_duration_secs(42), "42 sn");
    assert_eq!(fmt_duration_secs(125), "2 dk");
    assert_eq!(fmt_duration_secs(3725), "1 sa 2 dk");
    assert_eq!(fmt_duration_secs(90_000), "1 g 1 sa");
}

#[test]
fn gap_expectations() {
    assert_eq!(expected_bars("1d", Some(86_400 * 9), 3), 10);
    assert_eq!(expected_bars("1d", Some(86_400), 2409), 2409);
    assert_eq!(expected_bars("7x", Some(86_400), 0), 0);
    assert_eq!(expected_bars("1h", None, 5), 5);
    assert_eq!(backfill_target(50), 50_000);
    assert_eq!(backfill_target(0), 1);
    assert_eq!(backfill_target(7), 7_000);
}

#[test]
fn onchain_symbol_forms() {
    assert_eq!(symbol_base_lower(" btcusdt "), "btc");
    assert_eq!(hl_perp_coin("ethusdt"), "ETH");
    assert_eq!(hl_perp_coin("SOLUSDC"), "SOLUSDC");
}

#[test]
fn snapshot_confidence_tiers() {
    assert_eq!(snapshot_age_confidence(None, 60), SnapshotConfidence::Stale);
    assert_eq!(snapshot_age_confidence(Some(119), 60), SnapshotConfidence::Fresh);
    assert_eq!(snapshot_age_confidence(Some(120), 60), SnapshotConfidence::Aging);
    assert_eq!(snapshot_age_confidence(Some(300), 60), SnapshotConfidence::Stale);
    assert_eq!(snapshot_age_confidence(Some(1), 0), SnapshotConfidence::Fresh);
}

#[test]
fn dashboard_bias_and_regime() {
    assert_eq!(ta_long_short_bias(Some(" long "), Some("SHORT")), 1);
    assert_eq!(ta_long_short_bias(Some("WAIT"), Some("short")), -1);
    assert_eq!(ta_long_short_bias(None, None), 0);
    assert_eq!(market_regime_raw(Some("  "), Some(" trend ")), Some("trend".to_string()));
    assert_eq!(market_regime_raw(Some(" range "), Some("trend")), Some("range".to_string()));
    assert_eq!(market_regime_raw(None, Some(" ")), None);
}

#[test]
fn pivot_rules() {
    assert_eq!(_unused_slot_cfg_anchor().length, 3);
    assert_eq!(slot_lengths(&[None, Some(0), Some(7), None, Some(1u64 << 32 | 4)]), [3, 1, 7, 13, 4]);
    assert_eq!(swing_tag_for(1, None), None);
    assert_eq!(swing_tag_for(1, Some((1, PriceMove::Same))), Some(SwingTag::HH));
    assert_eq!(swing_tag_for(1, Some((1, PriceMove::Lower))), Some(SwingTag::LH));
    assert_eq!(swing_tag_for(-1, Some((-1, PriceMove::Higher))).unwrap().as_str(), "HL");
    assert_eq!(swing_tag_for(-1, Some((1, PriceMove::Higher))), None);
    assert!(alternation_ok(&[1, -2, 1, -1, 2]));
    assert!(!alternation_ok(&[1, 2, -1, 1, -1]));
    assert!(alternation_ok(&[]));
    assert_eq!(harmonic_subkind("gartley", -1), (1, "gartley_bull".to_string()));
    assert_eq!(harmonic_subkind("bat", 2), (-1, "bat_bear".to_string()));
}

#[test]
fn decide_long_when_strong_signals() {
    let s = MarketSignals {
        majors_netflow: Vote::Long,
        flow_intelligence: Vote::Long,
        netflow_breadth: Vote::Long,
        perp_tilt: Vote::Long,
        funding: Vote::Long,
    };
    let d = decide_market_mode(&s);
    assert_eq!(d.mode, MarketMode::Long);
    assert_eq!(d.long_votes, 6);
    assert_eq!(d.confidence, 85);
    assert_eq!(d.key_reason, Some(SignalName::MajorsNetflow));
}

#[test]
fn market_mode_neutral_and_short() {
    let none = MarketSignals {
        majors_netflow: Vote::Abstain,
        flow_intelligence: Vote::Abstain,
        netflow_breadth: Vote::Abstain,
        perp_tilt: Vote::Abstain,
        funding: Vote::Abstain,
    };
    let d = decide_market_mode(&none);
    assert_eq!(d.mode, MarketMode::Neutral);
    assert_eq!(d.confidence, 35);
    assert_eq!(d.key_reason, None);
    let short = MarketSignals { majors_netflow: Vote::Short, funding: Vote::Short, perp_tilt: Vote::Long, ..none };
    let d = decide_market_mode(&short);
    assert_eq!(d.mode, MarketMode::Neutral);
    let short = MarketSignals { majors_netflow: Vote::Short, funding: Vote::Short, netflow_breadth: Vote::Short, ..none };
    let d = decide_market_mode(&short);
    assert_eq!(d.mode, MarketMode::Short);
    assert_eq!(d.confidence, 57);
}

#[test]
fn candidate_confidence_ranks() {
    assert_eq!(candidate_rank_confidence(60, 0), (1, 90));
    assert_eq!(candidate_rank_confidence(70, 0), (1, 92));
    assert_eq!(candidate_rank_confidence(0, 3), (4, 20));
    assert_eq!(candidate_rank_confidence(40, 2), (3, 60));
}

#[test]
fn execution_routes() {
    assert_eq!(dispatch_route("dry", true, false), DispatchRoute::Dry);
    assert_eq!(dispatch_route("dry", false, true), DispatchRoute::DryDisabled);
    assert_eq!(dispatch_route("live", false, true), DispatchRoute::Live);
    assert_eq!(dispatch_route("live", true, false), DispatchRoute::LiveDisabled);
    assert_eq!(dispatch_route("backtest", false, false), DispatchRoute::Skip);
    assert_eq!(dispatch_route("paper", true, true), DispatchRoute::UnknownMode);
    assert!(rejects_setup_on_failure("live"));
    assert!(!rejects_setup_on_failure("dry"));
    assert_eq!(owner_config_keys("live").1, "QTSS_LIVE_ORG_ID");
    assert_eq!(owner_config_keys("dry").2, "dry.default_user_id");
    assert_eq!(equity_config_key("live"), "live.default_equity");
}

#[test]
fn order_shapes() {
    let s = order_intent_shape("futures", "buy").unwrap();
    assert_eq!(s.segment, OrderSegment::Futures);
    assert_eq!(s.side, OrderSideKind::Buy);
    assert!(s.futures_extras);
    assert!(!order_intent_shape("spot", "SELL").unwrap().futures_extras);
    assert_eq!(order_intent_shape("perp", "BUY"), Err(IntentError::UnsupportedSegment));
    assert_eq!(order_intent_shape("spot", "Buy"), Err(IntentError::UnknownSide));
    assert_eq!(live_state_mode_side("dry", "SELL"), Some((ExecMode::Dry, OrderSideKind::Sell)));
    assert_eq!(live_state_mode_side("paper", "SELL"), None);
    assert_eq!(state_leverage(20), 20);
    assert_eq!(state_leverage(300), 1);
    assert_eq!(leverage_from_config(125), 125);
    assert_eq!(leverage_from_config(40_000), 10);
}

#[test]
fn indicator_defaults_and_polarity() {
    let names = default_names();
    assert_eq!(names.len(), 14);
    assert_eq!(names[0], "rsi");
    assert_eq!(names[13], "chandelier");
    assert_eq!(Polarity::Dip.table(), "major_dip_candidates");
    assert_eq!(Polarity::Top.pivot_query(), (1, "DESC"));
}

#[test]
fn backfill_plateau() {
    let s = plateau_step(10, 12, 999, 60);
    assert!(s.growth);
    assert_eq!(s.last_count, 12);
    assert!(!s.done);
    let s = plateau_step(12, 12, 59, 60);
    assert_eq!(s.phase, BackfillPhase::Running);
    let s = plateau_step(12, 11, 60, 60);
    assert!(s.done);
    assert_eq!(s.last_count, 12);
    assert_eq!(s.phase, BackfillPhase::PlateauDetected);
}

#[test]
fn llm_reply_payloads() {
    assert_eq!(fence_stripped("```json\n{\"verdict\":\"pass\"}\n```"), "{\"verdict\":\"pass\"}");
    assert_eq!(fence_stripped("  {\"a\":1} "), "{\"a\":1}");
    assert_eq!(fence_stripped("``````json{}``````"), "json{}");
    assert_eq!(parse_verdict(None), Some(Verdict::Abstain));
    assert_eq!(parse_verdict(Some("block")), Some(Verdict::Block));
    assert_eq!(parse_verdict(Some("PASS")), None);
}

#[test]
fn hour_bucket_keys() {
    assert_eq!(hour_bucket_key(2026, 4, 7, 9), "2026040709");
    assert_eq!(hour_bucket_key(987, 12, 31, 23), "0987123123");
    assert_eq!(zero_pad(-5, 4), "-005");
    assert_eq!(zero_pad(12345, 2), "12345");
    assert_eq!(zero_pad(i64::MIN, 3), format!("{:03}", i64::MIN));
    assert_eq!(zero_pad(-7, 0), "-7");
    assert_eq!(zero_pad(7, 0), "7");
}

#[test]
fn backfill_timeframes_and_venues() {
    assert_eq!(parse_timeframe(" 4H "), Some(BarTimeframe::H4));
    assert_eq!(parse_timeframe("1D"), Some(BarTimeframe::D1));
    assert_eq!(parse_timeframe("2h"), None);
    assert!(matches!(venue_of("Binance"), Venue::Binance));
    match venue_of("OKX") {
        Venue::Custom(n) => assert_eq!(n, "okx"),
        Venue::Binance => panic!("okx is not binance"),
    }
}

#[test]
fn onchain_plans() {
    assert!(onchain_plan("  ").is_none());
    let p = onchain_plan(" btcusdt ").unwrap();
    assert_eq!(p.symbol, "BTCUSDT");
    assert_eq!(p.coin, "BTC");
    assert_eq!(p.taker_key, "binance_taker_btcusdt");
    assert_eq!(p.open_interest_key, "binance_open_interest_btcusdt");
    assert!(p.coinglass_applicable);
    let q = onchain_plan("solusdt").unwrap();
    assert_eq!(q.long_short_key, "binance_ls_ratio_solusdt");
    assert!(!q.coinglass_applicable);
}

#[test]
fn every_default_indicator_is_computed() {
    let names = default_names();
    let mut kinds: Vec<IndicatorKind> = Vec::new();
    for n in names.iter() {
        let k = indicator_kind(n.as_str());
        assert!(k.is_some(), "{} has no indicator", n);
        let k = k.unwrap();
        assert!(!kinds.contains(&k));
        kinds.push(k);
    }
    assert_eq!(indicator_kind("rsi"), Some(IndicatorKind::Rsi));
    assert_eq!(indicator_kind("williams_r"), Some(IndicatorKind::WilliamsR));
    assert_eq!(indicator_kind("chandelier"), Some(IndicatorKind::Chandelier));
    assert_eq!(indicator_kind("RSI"), None);
    assert_eq!(indicator_kind("vwap"), None);
}

#[test]
fn kline_stream_matches_stored_segment() {
    for seg in ["future", "futures", "usdt_futures", "fapi"] {
        assert_eq!(kline_stream(seg), KlineStream::UsdM);
        assert_eq!(segment_ws_db(seg), "futures");
    }
    for seg in ["spot", "margin", "", "FUTURES"] {
        assert_eq!(kline_stream(seg), KlineStream::Spot);
        assert_eq!(segment_ws_db(seg), "spot");
    }
}

#[test]
fn anchor_staleness_from_rfc3339_time() {
    // 2024-01-01T00:00:00Z is 1_704_067_200.
    let now = 1_704_067_200 + 10 * 3_600 + 1;
    assert_eq!(last_anchor_stale(Some("2024-01-01T00:00:00Z"), now, 0, "1h", 10), Some(true));
    assert_eq!(
        last_anchor_stale(Some("2024-01-01T03:00:00+03:00"), now, 0, "1h", 10),
        Some(true)
    );
    assert_eq!(last_anchor_stale(Some("2024-01-01T00:00:01Z"), now, 0, "1h", 10), Some(false));
    // Partial seconds are cut towards zero: 36 000.5 s is 36 000 s.
    assert_eq!(
        last_anchor_stale(Some("2024-01-01T00:00:00.5Z"), now, 0, "1h", 10),
        Some(false)
    );
    assert_eq!(last_anchor_stale(Some("yesterday"), now, 0, "1h", 10), Some(false));
    assert_eq!(last_anchor_stale(None, now, 0, "1h", 10), Some(false));
}
