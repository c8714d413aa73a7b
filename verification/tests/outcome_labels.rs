use qtss_worker::outcome::{
    classify_close_reason, resolve_label, CloseCategory, OutcomeLabel, PnlBand, SetupOutcomeInput,
};

fn band(pnl: Option<f32>, neutral_band: f32) -> PnlBand {
    let p = pnl.unwrap_or(0.0);
    if p.abs() < neutral_band {
        PnlBand::WithinBand
    } else if p > 0.0 {
        PnlBand::Gain
    } else {
        PnlBand::Loss
    }
}

fn mk(reason: Option<&str>, state: &str, pnl: Option<f32>) -> SetupOutcomeInput {
    SetupOutcomeInput {
        state: state.to_string(),
        close_reason: reason.map(|s| s.to_string()),
        pnl_band: band(pnl, 0.05),
    }
}

#[test]
fn tp_and_sl_direct() {
    assert_eq!(resolve_label(&mk(Some("target_hit"), "closed_win", Some(2.0))).label.as_str(), "win");
    assert_eq!(resolve_label(&mk(Some("stop_hit"), "closed_loss", Some(-1.0))).label.as_str(), "loss");
}

#[test]
fn reverse_and_conflict_invalidate() {
    assert_eq!(resolve_label(&mk(Some("reverse_signal"), "closed", None)).label.as_str(), "invalidated");
    assert_eq!(
        resolve_label(&mk(Some("p14_opposite_dir_conflict"), "closed", None)).label.as_str(),
        "invalidated"
    );
}

#[test]
fn manual_split_by_pnl() {
    assert_eq!(resolve_label(&mk(Some("closed_manual"), "closed", Some(0.01))).label.as_str(), "neutral");
    assert_eq!(resolve_label(&mk(Some("closed_manual"), "closed", Some(0.5))).label.as_str(), "win");
    assert_eq!(resolve_label(&mk(Some("closed_manual"), "closed", Some(-0.5))).label.as_str(), "loss");
}

#[test]
fn null_reason_falls_back_to_state() {
    assert_eq!(resolve_label(&mk(None, "closed_win", Some(1.0))).label.as_str(), "win");
    assert_eq!(resolve_label(&mk(None, "closed_loss", Some(-1.0))).label.as_str(), "loss");
    assert_eq!(resolve_label(&mk(None, "closed", Some(0.0))).label.as_str(), "neutral");
}

#[test]
fn close_reason_table() {
    assert_eq!(classify_close_reason(None), None);
    let e = classify_close_reason(Some("ttl")).unwrap();
    assert_eq!(e.label, OutcomeLabel::Timeout);
    assert_eq!(e.category.as_str(), "expiry");
    let u = classify_close_reason(Some("whatever")).unwrap();
    assert_eq!(u.category, CloseCategory::Unknown);
    assert_eq!(u.label, OutcomeLabel::Neutral);
}

#[test]
fn manual_category_and_state_fallback_categories() {
    let d = resolve_label(&mk(Some("closed_manual"), "closed_win", Some(3.0)));
    assert_eq!(d.category.as_str(), "manual");
    let f = resolve_label(&mk(None, "closed", Some(-2.0)));
    assert_eq!(f.category, CloseCategory::Unknown);
    assert_eq!(f.label, OutcomeLabel::Loss);
    assert_eq!(resolve_label(&mk(None, "closed_win", None)).category.as_str(), "tp");
}
