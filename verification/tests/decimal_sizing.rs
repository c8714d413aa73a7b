use std::str::FromStr;

use qtss_worker::decimal::{liquidation_price, maint_margin_ratio, size_from_risk, Dec};
use qtss_worker::execution::live_owner_ids;
use qtss_worker::kill_switch::{below_trigger, effective_trigger_neg};
use qtss_worker::notify::average_price;
use rust_decimal::Decimal;

fn d(s: &str) -> Dec {
    let x = Decimal::from_str(s).unwrap();
    Dec { mantissa: x.mantissa(), scale: x.scale() }
}

fn val(x: Dec) -> Decimal {
    Decimal::from_i128_with_scale(x.mantissa, x.scale)
}

fn num(s: &str) -> Decimal {
    Decimal::from_str(s).unwrap()
}

#[test]
fn liquidation_price_long_and_short() {
    let long = liquidation_price("futures", "BUY", d("100.00"), 10, d("0.005")).unwrap();
    assert_eq!(val(long), num("90.5"));
    let short = liquidation_price("futures", "SELL", d("100.00"), 10, d("0.005")).unwrap();
    assert_eq!(val(short), num("109.5"));
    let lev4 = liquidation_price("margin", "BUY", d("2000"), 4, d("0")).unwrap();
    assert_eq!(val(lev4), num("1500"));
}

#[test]
fn liquidation_price_absent_for_spot_bad_leverage_or_side() {
    assert_eq!(liquidation_price("spot", "BUY", d("100"), 10, d("0.005")), None);
    assert_eq!(liquidation_price("futures", "BUY", d("100"), 0, d("0.005")), None);
    assert_eq!(liquidation_price("futures", "SELL", d("100"), -3, d("0.005")), None);
    assert_eq!(liquidation_price("futures", "HOLD", d("100"), 10, d("0.005")), None);
}

#[test]
fn size_from_risk_uses_risk_then_notional_cap() {
    // 1000 * 0.01 / |100 - 95| = 2, well under the 1000 * 10 / 100 cap.
    let q = size_from_risk(d("1000"), d("100"), d("95"), d("0.01"), 10, d("1")).unwrap();
    assert_eq!(val(q), num("2"));
    // A tight stop: 10 / 0.01 = 1000, capped at 1000 * 10 * 1 / 100 = 100.
    let q = size_from_risk(d("1000"), d("100"), d("99.99"), d("0.01"), 10, d("1")).unwrap();
    assert_eq!(val(q), num("100"));
    // Half the leverage budget: cap 50.
    let q = size_from_risk(d("1000"), d("100"), d("99.99"), d("0.01"), 10, d("0.5")).unwrap();
    assert_eq!(val(q), num("50"));
    // Rounded to four places: 1000 * 0.01 / 3 = 3.3333...
    let q = size_from_risk(d("1000"), d("100"), d("97"), d("0.01"), 10, d("1")).unwrap();
    assert_eq!(val(q), num("3.3333"));
}

#[test]
fn size_from_risk_falls_back_to_a_hundredth() {
    let fallback = num("0.01");
    let q = size_from_risk(d("0"), d("100"), d("95"), d("0.01"), 10, d("1")).unwrap();
    assert_eq!(val(q), fallback);
    let q = size_from_risk(d("-5"), d("100"), d("95"), d("0.01"), 10, d("1")).unwrap();
    assert_eq!(val(q), fallback);
    let q = size_from_risk(d("1000"), d("100"), d("100"), d("0.01"), 10, d("1")).unwrap();
    assert_eq!(val(q), fallback);
    // Rounds to zero.
    let q = size_from_risk(d("1000"), d("100"), d("95"), d("0.0000001"), 10, d("1")).unwrap();
    assert_eq!(val(q), fallback);
    // Negative risk gives a negative size.
    let q = size_from_risk(d("1000"), d("100"), d("95"), d("-0.01"), 10, d("1")).unwrap();
    assert_eq!(val(q), fallback);
}

#[test]
fn size_from_risk_without_positive_entry_is_uncapped() {
    let q = size_from_risk(d("1000"), d("0"), d("-5"), d("0.01"), 10, d("1")).unwrap();
    assert_eq!(val(q), num("2"));
    let q = size_from_risk(d("1000"), d("0"), d("-5"), d("0.000001"), 10, d("1")).unwrap();
    assert_eq!(val(q), num("0.01"));
}

#[test]
fn kill_switch_trigger_from_drawdown_or_daily_loss() {
    let t = effective_trigger_neg(Some("5"), Some("20000"), None).unwrap();
    assert_eq!(val(t), num("-1000"));
    let t = effective_trigger_neg(Some(" 2.5 "), Some("100000"), None).unwrap();
    assert_eq!(val(t), num("-2500"));
    let t = effective_trigger_neg(Some("5"), None, Some("300")).unwrap();
    assert_eq!(val(t), num("-300"));
    let t = effective_trigger_neg(Some("2.5"), None, None).unwrap();
    assert_eq!(val(t), num("-1000000"));
    let t = effective_trigger_neg(Some("3"), Some("n/a"), None).unwrap();
    assert_eq!(val(t), num("-1000000"));
    let t = effective_trigger_neg(Some("0"), None, Some("750")).unwrap();
    assert_eq!(val(t), num("-750"));
    let t = effective_trigger_neg(Some("-3"), None, Some(" 300 ")).unwrap();
    assert_eq!(val(t), num("-300"));
    let t = effective_trigger_neg(Some("abc"), None, None).unwrap();
    assert_eq!(val(t), num("-1000000"));
    let t = effective_trigger_neg(None, Some("5000"), Some("x")).unwrap();
    assert_eq!(val(t), num("-1000000"));
}

#[test]
fn average_fill_price_divides_quote_by_quantity() {
    assert_eq!(average_price("2", "101").as_deref(), Some("50.50"));
    assert_eq!(num(&average_price("0.5", "30000").unwrap()), num("60000"));
    assert_eq!(average_price("0", "10").as_deref(), Some("-"));
    assert_eq!(average_price("-", "-").as_deref(), Some("-"));
    assert_eq!(average_price("1.5", "n/a").as_deref(), Some("-"));
}

#[test]
fn realised_loss_below_trigger_compares_numbers() {
    assert!(below_trigger(d("-1500.5"), d("-1000")));
    assert!(!below_trigger(d("-1000.00"), d("-1000")));
    assert!(!below_trigger(d("250"), d("-1000")));
}

#[test]
fn maintenance_margin_ratio_setting() {
    assert_eq!(val(maint_margin_ratio(" 0.004 ")), num("0.004"));
    assert_eq!(maint_margin_ratio("0.0040"), Dec { mantissa: 40, scale: 4 });
    assert_eq!(maint_margin_ratio("abc"), Dec { mantissa: 5, scale: 3 });
    assert_eq!(maint_margin_ratio(""), Dec { mantissa: 5, scale: 3 });
    // More fractional digits than a Decimal holds is an error, not a rounding.
    assert_eq!(
        maint_margin_ratio("0.00000000000000000000000000001"),
        Dec { mantissa: 5, scale: 3 }
    );
}

#[test]
fn live_position_owner_ids() {
    let org = "67e55044-10b1-426f-9247-bb680e5fe0c8";
    let user = " 00000000-0000-0000-0000-00000000002a ";
    assert_eq!(
        live_owner_ids(org, user),
        Some((0x67e55044_10b1_426f_9247_bb680e5fe0c8, 42))
    );
    assert_eq!(live_owner_ids("", user), None);
    assert_eq!(live_owner_ids(org, "not-a-uuid"), None);
}

#[test]
fn size_rounding_ties_go_to_even() {
    let q = size_from_risk(d("1"), d("100"), d("99"), d("0.00025"), 10, d("1")).unwrap();
    assert_eq!(q, Dec { mantissa: 2, scale: 4 });
    let q = size_from_risk(d("1"), d("100"), d("99"), d("0.00035"), 10, d("1")).unwrap();
    assert_eq!(q, Dec { mantissa: 4, scale: 4 });
}
