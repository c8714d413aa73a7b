use qtss_worker::intake::{
    direction_mode, intake_action, intake_label, normalize_symbol, promotion_slots, IntakeAction,
};
use qtss_worker::lifecycle::{
    next_lifecycle_step, retire_stale_decision, LifecycleObservation, LifecycleState,
    LifecycleTransition, NetExposure,
};
use qtss_worker::nansen_lifecycle::{
    self, nansen_existing_action, nansen_label, nansen_should_disable, normalize_nansen_symbol,
    NansenExistingAction,
};

fn obs() -> LifecycleObservation {
    LifecycleObservation {
        has_trading_range: false,
        has_tbm_scores: false,
        has_applied_tactical: false,
        exposure: NetExposure::Open,
        updated_at_secs: 1_000,
        cooldown_threshold_secs: 500,
    }
}

#[test]
fn promoted_moves_to_analyzing_enabled() {
    let t = next_lifecycle_step(LifecycleState::Promoted, &obs()).unwrap();
    assert_eq!(t, LifecycleTransition { to: LifecycleState::Analyzing, enabled: Some(true) });
}

#[test]
fn analyzing_needs_both_snapshots() {
    let mut o = obs();
    o.has_trading_range = true;
    assert_eq!(next_lifecycle_step(LifecycleState::Analyzing, &o), None);
    o.has_tbm_scores = true;
    assert_eq!(
        next_lifecycle_step(LifecycleState::Analyzing, &o).unwrap().to,
        LifecycleState::Ready
    );
}

#[test]
fn trading_and_closing_wait_for_flat() {
    let mut o = obs();
    assert_eq!(next_lifecycle_step(LifecycleState::Trading, &o), None);
    o.exposure = NetExposure::Boundary;
    assert_eq!(next_lifecycle_step(LifecycleState::Closing, &o), None);
    o.exposure = NetExposure::Flat;
    assert_eq!(next_lifecycle_step(LifecycleState::Trading, &o).unwrap().to, LifecycleState::Closing);
    assert_eq!(next_lifecycle_step(LifecycleState::Closing, &o).unwrap().to, LifecycleState::Cooldown);
}

#[test]
fn cooldown_retires_after_threshold() {
    let mut o = obs();
    assert_eq!(next_lifecycle_step(LifecycleState::Cooldown, &o), None);
    o.updated_at_secs = 100;
    assert_eq!(
        next_lifecycle_step(LifecycleState::Cooldown, &o),
        Some(LifecycleTransition { to: LifecycleState::Retired, enabled: Some(false) })
    );
}

#[test]
fn manual_and_retired_never_move() {
    let mut o = obs();
    o.has_applied_tactical = true;
    o.exposure = NetExposure::Flat;
    o.updated_at_secs = 0;
    assert_eq!(next_lifecycle_step(LifecycleState::Manual, &o), None);
    assert_eq!(next_lifecycle_step(LifecycleState::Retired, &o), None);
}

#[test]
fn stale_rows_keep_open_positions() {
    assert_eq!(retire_stale_decision(NetExposure::Open), None);
    assert_eq!(retire_stale_decision(NetExposure::Boundary).unwrap().to, LifecycleState::Retired);
}

#[test]
fn lifecycle_state_names_round_trip() {
    for s in ["promoted", "analyzing", "ready", "trading", "closing", "cooldown", "retired", "manual"] {
        let st = LifecycleState::parse(s).unwrap();
        assert_eq!(st.as_str(), s);
    }
    assert_eq!(LifecycleState::parse("Retired"), None);
}

#[test]
fn symbols_are_quoted_in_usdt() {
    assert_eq!(normalize_symbol(" pepe "), "PEPEUSDT");
    assert_eq!(normalize_symbol("btcusdc"), "BTCUSDC");
    assert_eq!(normalize_symbol("ETHUSDT"), "ETHUSDT");
    assert_eq!(normalize_symbol("   "), "");
}

#[test]
fn nansen_symbols_drop_emoji() {
    assert_eq!(normalize_nansen_symbol("🌱pepe"), "PEPEUSDT");
    assert_eq!(normalize_nansen_symbol(" wif-usdt "), "WIFUSDT");
    assert_eq!(normalize_nansen_symbol("🌱"), "");
}

#[test]
fn direction_modes() {
    assert_eq!(direction_mode(" long ").unwrap(), "long_only");
    assert_eq!(direction_mode("avoid").unwrap(), "short_only");
    assert_eq!(direction_mode("LONG_OR_SHORT").unwrap(), "both");
    assert_eq!(nansen_lifecycle::direction_mode("watch").unwrap(), "long_only");
    assert_eq!(nansen_lifecycle::direction_mode("sideways").unwrap(), "both");
}

#[test]
fn promotion_slots_and_actions() {
    assert_eq!(promotion_slots(20, 20), None);
    assert_eq!(promotion_slots(20, 5), Some(15));
    assert_eq!(intake_action(None), IntakeAction::InsertNew);
    assert_eq!(intake_action(Some("retired")), IntakeAction::ReactivateRetired);
    assert_eq!(intake_action(Some("manual")), IntakeAction::InsertNew);
    assert_eq!(intake_action(Some("trading")), IntakeAction::LinkExisting);
    assert_eq!(intake_label("elite_long"), "intake:elite_long");
}

#[test]
fn nansen_promotion_rules() {
    assert_eq!(nansen_existing_action(true, "ready"), NansenExistingAction::AlreadyActive);
    assert_eq!(nansen_existing_action(true, "retired"), NansenExistingAction::Reenable);
    assert_eq!(nansen_existing_action(false, "trading"), NansenExistingAction::Reenable);
    assert_eq!(nansen_label(87), "nansen:score=87");
    assert_eq!(nansen_label(-3), "nansen:score=-3");
    assert!(!nansen_should_disable(true, 10, 48, false, false, false));
    assert!(nansen_should_disable(true, 60, 48, false, false, false));
    assert!(!nansen_should_disable(false, 0, 48, false, false, true));
}

#[test]
fn normalizing_a_symbol_twice_changes_nothing() {
    for raw in [" btc ", "ethusdc", "\tSolBusd\n", "  ", "", "doge-1", "AUSDT"] {
        let once = normalize_symbol(raw);
        assert_eq!(normalize_symbol(&once), once);
        assert_eq!(once.is_empty(), raw.trim().is_empty());
        if !once.is_empty() {
            assert!(once.ends_with("USDT") || once.ends_with("USDC") || once.ends_with("BUSD"));
        }
    }
    assert_eq!(normalize_symbol(" btc "), "BTCUSDT");
    assert_eq!(normalize_symbol("ethusdc"), "ETHUSDC");
}
