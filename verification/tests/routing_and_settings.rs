use qtss_worker::engines::{
    include_binance, include_coinglass, include_hyperliquid, include_misc, source_due_for_fetch,
    tick_floor_secs,
};
use qtss_worker::kill_switch::{kill_switch_step, KillSwitchEvent, KillSwitchStep};
use qtss_worker::settings::{
    env_flag_on, external_fetch_enabled, insufficient_sleep_default, nansen_api_base,
    nansen_api_base_trimmed, nansen_app_config_key, nansen_per_page, parse_i64_or,
    poll_interval_secs,
};

#[test]
fn engine_filters_route_each_key_once() {
    for key in ["binance_premium_btcusdt", "coinglass_oi", "hl_meta_asset_ctxs", "hl_funding", "defillama_tvl", ""] {
        let n = [include_binance(key), include_coinglass(key), include_hyperliquid(key), include_misc(key)]
            .iter()
            .filter(|b| **b)
            .count();
        assert_eq!(n, 1, "key {key}");
    }
    assert!(include_binance("binance_taker_ethusdt"));
    assert!(include_misc("binancex"));
}

#[test]
fn tick_floor_and_staleness() {
    assert_eq!(tick_floor_secs(5), 30);
    assert_eq!(tick_floor_secs(120), 120);
    assert!(source_due_for_fetch(None, 300));
    assert!(!source_due_for_fetch(Some(29), 10));
    assert!(source_due_for_fetch(Some(30), 10));
    assert!(!source_due_for_fetch(Some(299), 300));
}

#[test]
fn env_switches() {
    assert!(env_flag_on(Some(" yes ")));
    assert!(env_flag_on(Some("1")));
    assert!(!env_flag_on(Some("TRUE")));
    assert!(!env_flag_on(None));
    assert!(external_fetch_enabled(None));
    assert!(!external_fetch_enabled(Some(" off")));
    assert!(external_fetch_enabled(Some("maybe")));
}

#[test]
fn numeric_settings() {
    assert_eq!(poll_interval_secs(None), 30);
    assert_eq!(poll_interval_secs(Some("3")), 10);
    assert_eq!(poll_interval_secs(Some("45")), 45);
    assert_eq!(poll_interval_secs(Some("x")), 30);
    assert_eq!(insufficient_sleep_default(None, 7200), 7200);
    assert_eq!(insufficient_sleep_default(Some("60"), 30), 60);
    assert_eq!(parse_i64_or("36", 24), 36);
    assert_eq!(parse_i64_or("abc", 24), 24);
    assert_eq!(nansen_per_page(Some(" 250 ")), 250);
    assert_eq!(nansen_per_page(None), 500);
}

#[test]
fn nansen_keys_and_bases() {
    assert_eq!(nansen_app_config_key(None), "nansen_screener_request");
    assert_eq!(nansen_app_config_key(Some("  ")), "nansen_screener_request");
    assert_eq!(nansen_app_config_key(Some("v2")), "v2");
    assert_eq!(nansen_api_base(Some(" https://x "), "https://d"), " https://x ");
    assert_eq!(nansen_api_base_trimmed(Some(" https://x "), "https://d"), "https://x");
    assert_eq!(nansen_api_base_trimmed(Some(""), "https://d"), "https://d");
}

#[test]
fn kill_switch_paths() {
    let s = kill_switch_step(false, KillSwitchEvent::Startup { stored: Some(true) });
    assert_eq!(s, KillSwitchStep { halted: true, persist_halt: false });
    let s = kill_switch_step(true, KillSwitchEvent::DbSync { stored: Some(false) });
    assert!(!s.halted);
    let s = kill_switch_step(true, KillSwitchEvent::DbSync { stored: None });
    assert!(s.halted);
    let s = kill_switch_step(false, KillSwitchEvent::PnlPoll { below_trigger: Some(true) });
    assert_eq!(s, KillSwitchStep { halted: true, persist_halt: true });
    let s = kill_switch_step(true, KillSwitchEvent::PnlPoll { below_trigger: Some(true) });
    assert_eq!(s, KillSwitchStep { halted: true, persist_halt: false });
    let s = kill_switch_step(false, KillSwitchEvent::PnlPoll { below_trigger: None });
    assert!(!s.halted);
}
