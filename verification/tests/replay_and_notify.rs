use qtss_worker::features::sources::source_switch_keys;
use qtss_worker::markets::{hour_bucket_key, hourly_dedup_key};
use qtss_worker::iq_setups::{
    cycle_blocks, entry_tier, iq_d_gate, iq_d_key, iq_t_key, IqdInputs, IqdSkip, lock_blocks, opposite_side, setup_side,
    wyckoff_conflicts,
};
use qtss_worker::notify::{
    fill_title, live_order_line, paper_fill_line, resolve_outbox_row, DeliveryReceipt, FillKind,
    OutboxResolution,
};
use qtss_worker::pattern_outcome::{walk_outcome, BarTouch, PatternOutcome};
use qtss_worker::playbook::token_symbol;
use qtss_worker::scan::{
    anchor_already_seen, is_last_chunk, keeps_locked_geometry, pivot_rebuild_needed, scan_windows,
    uses_single_record_upsert,
};
use qtss_worker::sentiment::{fng_reading, FngError};
use qtss_worker::settings::{
    choose_api_key, csv_list, error_excerpt, onchain_notify_enabled, onchain_weights_config_key,
    perp_leaderboard_day_span, perp_leaderboard_token, retention_days,
    retention_prune_interval_secs, screener_next_sleep,
};
use qtss_worker::whales::collect_wallets;

fn receipt(ok: bool, detail: Option<&str>) -> DeliveryReceipt {
    DeliveryReceipt { ok, detail: detail.map(|s| s.to_string()) }
}

#[test]
fn outbox_rows_resolve_by_receipts() {
    assert!(matches!(resolve_outbox_row(0, &vec![]), OutboxResolution::NoChannels));
    assert_eq!(
        OutboxResolution::no_channels_message(),
        "no valid channels in notify_outbox.channels JSON"
    );
    assert!(matches!(
        resolve_outbox_row(2, &vec![receipt(true, None), receipt(true, Some("x"))]),
        OutboxResolution::Sent
    ));
    match resolve_outbox_row(3, &vec![receipt(true, None), receipt(false, Some("429")), receipt(false, Some("500"))]) {
        OutboxResolution::Failed(d) => assert_eq!(d, "429"),
        _ => panic!("expected a failure"),
    }
    match resolve_outbox_row(1, &vec![receipt(false, None)]) {
        OutboxResolution::Failed(d) => assert_eq!(d, "delivery failed"),
        _ => panic!("expected a failure"),
    }
}

#[test]
fn fill_titles_and_lines() {
    assert_eq!(fill_title(FillKind::Dry, true, 1, "binance", "BTCUSDT", "buy"), "Dry fill — binance BTCUSDT BUY");
    assert_eq!(fill_title(FillKind::Dry, false, 1, "binance", "BTCUSDT", "sell"), "Dry dolum — binance BTCUSDT SELL");
    assert_eq!(fill_title(FillKind::Dry, false, 3, "binance", "BTCUSDT", "sell"), "Dry dolum — 3 işlem");
    assert_eq!(fill_title(FillKind::Dry, true, 12, "", "", ""), "Dry fill — 12 trades");
    assert_eq!(fill_title(FillKind::Live, true, 1, "binance", "ETHUSDT", "Buy"), "Live fill — binance ETHUSDT Buy");
    assert_eq!(fill_title(FillKind::Live, false, 2, "binance", "ETHUSDT", "Buy"), "Canlı dolum — 2 emir");
    assert_eq!(fill_title(FillKind::Live, true, 2, "", "", ""), "Live fill — 2 orders");
    assert_eq!(
        paper_fill_line(true, "binance", "spot", "BTCUSDT", "buy", "0.5", "60000", "3", "970"),
        "· binance spot BTCUSDT | BUY qty 0.5 @ 60000 (fee 3) | quote 970"
    );
    assert_eq!(
        paper_fill_line(false, "binance", "spot", "BTCUSDT", "sell", "1", "2", "0", "5"),
        "· binance spot BTCUSDT | SELL qty 1 @ 2 (ücret 0) | quote 5"
    );
    assert_eq!(
        live_order_line(true, "binance", "futures", "BTCUSDT", "Buy", "0.01", "FILLED", "0.01", "65000", "u1"),
        "· binance futures BTCUSDT | intent Buy 0.01 | venue FILLED exQty 0.01 ~px 65000 | user u1"
    );
    assert_eq!(
        live_order_line(false, "binance", "spot", "ETHUSDT", "?", "?", "?", "-", "-", "u2"),
        "· binance spot ETHUSDT | intent ? ? | venue ? exQty - ~px - | kullanıcı u2"
    );
}

#[test]
fn fear_greed_readings() {
    assert_eq!(fng_reading("54", "1714003200"), Ok((54, 1714003200)));
    assert_eq!(fng_reading("-3", "0"), Ok((-3, 0)));
    assert_eq!(fng_reading("2147483648", "1"), Err(FngError::Value));
    assert_eq!(fng_reading("fear", "1"), Err(FngError::Value));
    assert_eq!(fng_reading("12", "yesterday"), Err(FngError::Timestamp));
}

#[test]
fn progressive_scan_windows() {
    let p = scan_windows(10, 0, 3, 4, 5).unwrap();
    assert_eq!(p.start, 3);
    assert_eq!(p.windows, vec![(3, 7), (7, 10)]);
    assert_eq!(p.cursor, 10);

    let p = scan_windows(100, 20, 5, 10, 2).unwrap();
    assert_eq!(p.start, 20);
    assert_eq!(p.windows, vec![(20, 30), (30, 40)]);
    assert_eq!(p.cursor, 40);

    let p = scan_windows(100, 20, 5, 10, 0).unwrap();
    assert!(p.windows.is_empty());
    assert_eq!(p.cursor, 20);

    assert!(scan_windows(50, 0, 100, 10, 5).is_none());
    assert!(scan_windows(50, 50, 10, 10, 5).is_none());
}

#[test]
fn detection_merge_rules() {
    assert!(anchor_already_seen(&vec![None, Some(12), Some(40)], 40));
    assert!(!anchor_already_seen(&vec![None, Some(12)], 40));
    assert!(!anchor_already_seen(&vec![], 0));
    assert!(uses_single_record_upsert("classical"));
    assert!(!uses_single_record_upsert("tbm"));
    assert!(!uses_single_record_upsert("wyckoff"));
    assert!(keeps_locked_geometry("confirmed"));
    assert!(keeps_locked_geometry("entry_ready"));
    assert!(!keeps_locked_geometry("forming"));
}

#[test]
fn pivot_rebuild_rules() {
    assert!(pivot_rebuild_needed(None, 5));
    assert!(pivot_rebuild_needed(Some(4), 5));
    assert!(!pivot_rebuild_needed(Some(5), 5));
    assert!(!pivot_rebuild_needed(Some(9), 5));
    assert!(is_last_chunk(10, 5000));
    assert!(!is_last_chunk(5000, 5000));
    assert!(!is_last_chunk(3, 0));
}

#[test]
fn iq_setup_gates_and_keys() {
    assert_eq!(entry_tier("W2"), Some("W2"));
    assert_eq!(entry_tier("W4"), None);
    assert_eq!(setup_side(1), "long");
    assert_eq!(setup_side(-1), "short");
    assert_eq!(opposite_side(1), "short");
    assert_eq!(opposite_side(0), "long");
    assert!(wyckoff_conflicts("utad_bear", 1));
    assert!(!wyckoff_conflicts("utad_bear", -1));
    assert!(!wyckoff_conflicts("spring_bull", 1));
    assert!(cycle_blocks("markdown"));
    assert!(!cycle_blocks("markup"));
    assert!(lock_blocks(true, "tracking"));
    assert!(!lock_blocks(true, "candidate"));
    assert!(!lock_blocks(false, "tracking"));
    assert_eq!(iq_d_key("abc-1", "W3"), "iq_d:abc-1:W3");
    assert_eq!(
        iq_t_key("binance", "BTCUSDT", "15m", 2, 1714003200, -1),
        "iq_t:binance:BTCUSDT:15m:2:1714003200:-1"
    );
}

fn bar(sl: bool, tp: &[bool]) -> BarTouch {
    BarTouch { sl_touched: sl, tp_reached: tp.to_vec() }
}

#[test]
fn outcome_walk_first_touch_wins() {
    let bars = vec![bar(false, &[false, false, false]), bar(true, &[true, true, false])];
    let o = walk_outcome(&bars, 200);
    assert_eq!(o, PatternOutcome::SlHit { bar: 1 });
    assert_eq!(o.as_str(), "sl_hit");

    let bars = vec![bar(false, &[false, false, false]), bar(false, &[true, true, false]), bar(true, &[])];
    let o = walk_outcome(&bars, 200);
    assert_eq!(o, PatternOutcome::TpHit { level: 2, bar: 1 });
    assert_eq!(o.as_str(), "tp2_hit");

    let o = walk_outcome(&vec![bar(false, &[true, true, true, true])], 200);
    assert_eq!(o, PatternOutcome::TpHit { level: 4, bar: 0 });
    assert_eq!(o.as_str(), "tp3_hit");

    let quiet = vec![bar(false, &[false]), bar(false, &[])];
    assert_eq!(walk_outcome(&quiet, 2), PatternOutcome::Expired);
    assert_eq!(walk_outcome(&quiet, 3), PatternOutcome::Active);
    assert_eq!(PatternOutcome::Expired.as_str(), "expired");
    assert_eq!(PatternOutcome::Active.as_str(), "active");
}

#[test]
fn whale_watchlist_keeps_twenty_trimmed_addresses() {
    let rows = vec![Some(" 0xa ".to_string()), None, Some("   ".to_string()), Some("0xb".to_string())];
    assert_eq!(collect_wallets(&rows), vec!["0xa".to_string(), "0xb".to_string()]);
    let many: Vec<Option<String>> = (0..30).map(|i| Some(format!("w{i}"))).collect();
    let kept = collect_wallets(&many);
    assert_eq!(kept.len(), 20);
    assert_eq!(kept[19], "w19");
}

#[test]
fn nansen_settings() {
    assert_eq!(choose_api_key(Some("  abc "), Some("env")), Some("abc".to_string()));
    assert_eq!(choose_api_key(Some("   "), Some(" env ")), Some("env".to_string()));
    assert_eq!(choose_api_key(None, Some("  ")), None);
    assert_eq!(perp_leaderboard_token(Some(" eth ")), "ETH");
    assert_eq!(perp_leaderboard_token(Some(" ")), "BTC");
    assert_eq!(perp_leaderboard_token(None), "BTC");
    assert_eq!(perp_leaderboard_day_span(None), 6);
    assert_eq!(perp_leaderboard_day_span(Some("30")), 29);
    assert_eq!(perp_leaderboard_day_span(Some("0")), 0);
    assert_eq!(perp_leaderboard_day_span(Some("365")), 89);
    assert_eq!(perp_leaderboard_day_span(Some("x")), 6);
    assert_eq!(screener_next_sleep(1800, 3600, true), 3600);
    assert_eq!(screener_next_sleep(1800, 600, true), 1800);
    assert_eq!(screener_next_sleep(1800, 3600, false), 1800);
    let long = "é".repeat(600);
    assert_eq!(error_excerpt(&long).chars().count(), 500);
    assert_eq!(error_excerpt("short"), "short");
}

#[test]
fn screener_symbols_and_source_switches() {
    assert_eq!(token_symbol(Some(" pepe ")), Some("PEPE".to_string()));
    assert_eq!(token_symbol(Some("  ")), None);
    assert_eq!(token_symbol(None), None);
    assert_eq!(
        source_switch_keys("orderbook"),
        ("feature_store.sources.orderbook.enabled".to_string(), "QTSS_FS_SRC_ORDERBOOK_ON".to_string())
    );
}

#[test]
fn onchain_scorer_settings() {
    assert_eq!(retention_prune_interval_secs(None), 86_400);
    assert_eq!(retention_prune_interval_secs(Some("60")), 3_600);
    assert_eq!(retention_prune_interval_secs(Some("7200")), 7_200);
    assert_eq!(retention_prune_interval_secs(Some(" 7200")), 86_400);
    assert_eq!(retention_days(None), 7);
    assert_eq!(retention_days(Some("30")), 30);
    assert_eq!(retention_days(Some("0")), 1);
    assert_eq!(retention_days(Some("-5")), 1);
    assert_eq!(retention_days(Some("9999999999")), 7);
    assert_eq!(onchain_weights_config_key(None), "onchain_signal_weights");
    assert_eq!(onchain_weights_config_key(Some(" custom_weights ")), "custom_weights");
    assert!(onchain_notify_enabled(Some("yes"), None));
    assert!(onchain_notify_enabled(None, Some(" on ")));
    assert!(!onchain_notify_enabled(Some("no"), Some("0")));
}

#[test]
fn channel_lists_split_on_commas() {
    assert_eq!(csv_list("telegram"), vec!["telegram".to_string()]);
    assert_eq!(csv_list(" telegram , webhook,, "), vec!["telegram".to_string(), "webhook".to_string()]);
    assert!(csv_list("").is_empty());
    assert!(csv_list(" , ").is_empty());
}

#[test]
fn hourly_snapshot_dedup_keys() {
    let bucket = hour_bucket_key(2024, 4, 5, 7);
    assert_eq!(bucket, "2024040507");
    assert_eq!(hourly_dedup_key("0b1c", &bucket), "hourly:0b1c:2024040507");
}

fn iq_d_inputs(wave: &str, direction: i16, state: &str) -> IqdInputs {
    IqdInputs {
        current_wave: wave.to_string(),
        direction,
        state: state.to_string(),
        targets_ok: true,
        wyckoff_event: None,
        cycle_phase: None,
        dip_score_ok: true,
        symbol_locked: false,
        opposite_open: false,
        duplicate: false,
    }
}

#[test]
fn iq_d_gate_writes_clean_structures() {
    assert_eq!(iq_d_gate(&iq_d_inputs("W2", 1, "tracking")), Ok(("W2", "long")));
    assert_eq!(iq_d_gate(&iq_d_inputs("W3", -1, "tracking")), Ok(("W3", "short")));
    let mut i = iq_d_inputs("W1", 1, "candidate");
    i.symbol_locked = true;
    i.wyckoff_event = Some("spring_bull".to_string());
    i.cycle_phase = Some("markup".to_string());
    assert_eq!(iq_d_gate(&i), Ok(("W1", "long")));
}

#[test]
fn iq_d_gate_reports_first_failing_check() {
    assert_eq!(iq_d_gate(&iq_d_inputs("W4", 1, "tracking")), Err(IqdSkip::NoTier));
    let mut i = iq_d_inputs("W2", 1, "tracking");
    i.targets_ok = false;
    i.duplicate = true;
    assert_eq!(iq_d_gate(&i), Err(IqdSkip::BadTargets));
    let mut i = iq_d_inputs("W2", 1, "tracking");
    i.wyckoff_event = Some("utad_bear".to_string());
    assert_eq!(iq_d_gate(&i), Err(IqdSkip::WyckoffConflict));
    i.direction = -1;
    assert_eq!(iq_d_gate(&i), Ok(("W2", "short")));
    let mut i = iq_d_inputs("W2", 1, "tracking");
    i.cycle_phase = Some("distribution".to_string());
    assert_eq!(iq_d_gate(&i), Err(IqdSkip::CycleBlocks));
    let mut i = iq_d_inputs("W2", 1, "tracking");
    i.dip_score_ok = false;
    assert_eq!(iq_d_gate(&i), Err(IqdSkip::WeakDip));
    let mut i = iq_d_inputs("W2", 1, "tracking");
    i.symbol_locked = true;
    assert_eq!(iq_d_gate(&i), Err(IqdSkip::SymbolLocked));
    let mut i = iq_d_inputs("W2", 1, "tracking");
    i.opposite_open = true;
    assert_eq!(iq_d_gate(&i), Err(IqdSkip::OppositeOpen));
    let mut i = iq_d_inputs("W2", 1, "tracking");
    i.duplicate = true;
    assert_eq!(iq_d_gate(&i), Err(IqdSkip::Duplicate));
}
