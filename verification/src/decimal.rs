//! Decimal numbers as rust_decimal holds them (a 96-bit mantissa and a
//! power-of-ten scale), and the rust_decimal operations the sizing and
//! liquidation rules call.

use vstd::prelude::*;
use rust_decimal::Decimal;
use crate::text::{nat_digits, trim, trimmed};

verus! {

/// The number `mantissa / 10^scale`.
#[derive(Clone, Copy, Debug, PartialEq, Eq, Structural)]
pub struct Dec {
    pub mantissa: i128,
    pub scale: u32,
}

/// Largest mantissa magnitude rust_decimal stores: 96 bits.
pub const MAX_MANTISSA: i128 = 0xFFFF_FFFF_FFFF_FFFF_FFFF_FFFF;

/// Largest scale rust_decimal stores.
pub const MAX_SCALE: u32 = 28;

impl Dec {
    /// A pair that rust_decimal can hold.
    pub open spec fn wf(self) -> bool {
        -MAX_MANTISSA <= self.mantissa <= MAX_MANTISSA && self.scale <= MAX_SCALE
    }
}

pub open spec fn pow10(n: nat) -> int
    decreases n,
{
    if n == 0 {
        1
    } else {
        10 * pow10((n - 1) as nat)
    }
}

/// `a < b` as numbers.
pub open spec fn dec_less(a: Dec, b: Dec) -> bool {
    a.mantissa * pow10(b.scale as nat) < b.mantissa * pow10(a.scale as nat)
}

/// The whole number `n` (rust_decimal's `From` for integers keeps scale 0).
pub open spec fn whole(n: int) -> Dec {
    Dec { mantissa: n as i128, scale: 0 }
}

/// `|a|`, with its scale kept.
pub open spec fn dec_abs(a: Dec) -> Dec {
    let m: int = if a.mantissa < 0 { -a.mantissa } else { a.mantissa as int };
    Dec { mantissa: m as i128, scale: a.scale }
}

/// What `Decimal::checked_add` returns.
pub uninterp spec fn decimal_sum(a: Dec, b: Dec) -> Option<Dec>;

/// What `Decimal::checked_sub` returns.
pub uninterp spec fn decimal_difference(a: Dec, b: Dec) -> Option<Dec>;

/// What `Decimal::checked_mul` returns.
pub uninterp spec fn decimal_product(a: Dec, b: Dec) -> Option<Dec>;

/// What `Decimal::checked_div` returns.
pub uninterp spec fn decimal_quotient(a: Dec, b: Dec) -> Option<Dec>;

/// What `Decimal::round_dp` returns: unchanged when the scale is at most
/// `dp`; otherwise the magnitude divided by `10^(scale - dp)` and rounded
/// to nearest, a tie going to the even quotient, at scale `dp`, with the
/// sign kept.
pub open spec fn decimal_rounded(a: Dec, dp: u32) -> Dec {
    if a.scale <= dp {
        a
    } else {
        let d = (a.scale - dp) as nat;
        let m = dec_abs(a).mantissa as int;
        let q = m / pow10(d);
        let r = m % pow10(d);
        let half = 5 * pow10((d - 1) as nat);
        let up = if r > half || (r == half && q % 2 == 1) { q + 1 } else { q };
        Dec { mantissa: (if a.mantissa < 0 { -up } else { up }) as i128, scale: dp }
    }
}

/// `Decimal::checked_add` on the two numbers: `None` on overflow; any
/// result is a valid pair.
#[verifier::external_body]
pub(crate) fn dec_add(a: Dec, b: Dec) -> (res: Option<Dec>)
    requires
        a.wf(),
        b.wf(),
    ensures
        res == decimal_sum(a, b),
        res matches Some(r) ==> r.wf(),
{
    let x = Decimal::from_i128_with_scale(a.mantissa, a.scale);
    match x.checked_add(Decimal::from_i128_with_scale(b.mantissa, b.scale)) {
        Some(d) => Some(Dec { mantissa: d.mantissa(), scale: d.scale() }),
        None => None,
    }
}

/// `Decimal::checked_sub` on the two numbers.
#[verifier::external_body]
pub(crate) fn dec_sub(a: Dec, b: Dec) -> (res: Option<Dec>)
    requires
        a.wf(),
        b.wf(),
    ensures
        res == decimal_difference(a, b),
        res matches Some(r) ==> r.wf(),
{
    let x = Decimal::from_i128_with_scale(a.mantissa, a.scale);
    match x.checked_sub(Decimal::from_i128_with_scale(b.mantissa, b.scale)) {
        Some(d) => Some(Dec { mantissa: d.mantissa(), scale: d.scale() }),
        None => None,
    }
}

/// `Decimal::checked_mul` on the two numbers.
#[verifier::external_body]
pub(crate) fn dec_mul(a: Dec, b: Dec) -> (res: Option<Dec>)
    requires
        a.wf(),
        b.wf(),
    ensures
        res == decimal_product(a, b),
        res matches Some(r) ==> r.wf(),
{
    let x = Decimal::from_i128_with_scale(a.mantissa, a.scale);
    match x.checked_mul(Decimal::from_i128_with_scale(b.mantissa, b.scale)) {
        Some(d) => Some(Dec { mantissa: d.mantissa(), scale: d.scale() }),
        None => None,
    }
}

/// `Decimal::checked_div` on the two numbers: `None` on overflow or a zero
/// divisor.
#[verifier::external_body]
pub(crate) fn dec_div(a: Dec, b: Dec) -> (res: Option<Dec>)
    requires
        a.wf(),
        b.wf(),
    ensures
        res == decimal_quotient(a, b),
        res matches Some(r) ==> r.wf(),
{
    let x = Decimal::from_i128_with_scale(a.mantissa, a.scale);
    match x.checked_div(Decimal::from_i128_with_scale(b.mantissa, b.scale)) {
        Some(d) => Some(Dec { mantissa: d.mantissa(), scale: d.scale() }),
        None => None,
    }
}

/// `Decimal::round_dp` (midpoint to even).
#[verifier::external_body]
pub(crate) fn dec_round_dp(a: Dec, dp: u32) -> (res: Dec)
    requires
        a.wf(),
    ensures
        res == decimal_rounded(a, dp),
        res.wf(),
{
    let d = Decimal::from_i128_with_scale(a.mantissa, a.scale).round_dp(dp);
    Dec { mantissa: d.mantissa(), scale: d.scale() }
}

/// `|a|`, as `Decimal::abs` computes it: the sign is cleared, mantissa
/// magnitude and scale kept.
pub(crate) fn dec_abs_value(a: Dec) -> (res: Dec)
    requires
        a.wf(),
    ensures
        res == dec_abs(a),
        res.wf(),
{
    if a.mantissa < 0 {
        Dec { mantissa: -a.mantissa, scale: a.scale }
    } else {
        a
    }
}

/// `<` on the two numbers: rust_decimal orders by numeric value.
#[verifier::external_body]
pub(crate) fn dec_lt(a: Dec, b: Dec) -> (res: bool)
    requires
        a.wf(),
        b.wf(),
    ensures
        res == dec_less(a, b),
{
    Decimal::from_i128_with_scale(a.mantissa, a.scale) < Decimal::from_i128_with_scale(
        b.mantissa,
        b.scale,
    )
}

/// What `Decimal::from_str` returns, `None` for an error.
pub uninterp spec fn decimal_parsed(s: Seq<char>) -> Option<Dec>;

/// `Decimal::from_str`, errors mapped to `None`; any result is a valid
/// pair.
#[verifier::external_body]
pub(crate) fn dec_parse(s: &str) -> (res: Option<Dec>)
    ensures
        res == decimal_parsed(s@),
        res matches Some(r) ==> r.wf(),
{
    match s.parse::<Decimal>() {
        Ok(d) => Some(Dec { mantissa: d.mantissa(), scale: d.scale() }),
        Err(_) => None,
    }
}

/// What `Decimal::from_str_exact` returns, `None` for an error.
pub uninterp spec fn decimal_parsed_exact(s: Seq<char>) -> Option<Dec>;

/// `Decimal::from_str_exact` (no rounding of long fractions: they are an
/// error), errors mapped to `None`; any result is a valid pair.
#[verifier::external_body]
pub(crate) fn dec_parse_exact(s: &str) -> (res: Option<Dec>)
    ensures
        res == decimal_parsed_exact(s@),
        res matches Some(r) ==> r.wf(),
{
    match Decimal::from_str_exact(s) {
        Ok(d) => Some(Dec { mantissa: d.mantissa(), scale: d.scale() }),
        Err(_) => None,
    }
}

/// The maintenance-margin ratio of the `dry.maint_margin_ratio` setting:
/// the trimmed text parsed exactly, else 0.005.
pub fn maint_margin_ratio(raw: &str) -> (res: Dec)
    ensures
        res == match decimal_parsed_exact(trimmed(raw@)) {
            Some(d) => d,
            None => Dec { mantissa: 5, scale: 3 },
        },
        res.wf(),
{
    match dec_parse_exact(trim(raw)) {
        Some(d) => d,
        None => Dec { mantissa: 5, scale: 3 },
    }
}

/// `s` left-padded with `0` to at least `width` characters.
pub open spec fn zero_filled(s: Seq<char>, width: nat) -> Seq<char>
    decreases width - s.len(),
{
    if s.len() >= width {
        s
    } else {
        zero_filled(seq!['0'] + s, width)
    }
}

/// What `Decimal`'s `to_string` writes: a `-` for a negative number, the
/// magnitude's digits padded with zeros to at least `scale` digits, a
/// decimal point before the last `scale` of them (`0` standing for an
/// empty whole part), and no point for scale 0.
pub open spec fn decimal_text(a: Dec) -> Seq<char> {
    let p = zero_filled(nat_digits(dec_abs(a).mantissa as nat), a.scale as nat);
    let w = p.len() - a.scale;
    let whole = if w == 0 { seq!['0'] } else { p.subrange(0, w) };
    let frac = if a.scale > 0 { seq!['.'] + p.subrange(w, p.len() as int) } else { Seq::empty() };
    (if a.mantissa < 0 { seq!['-'] } else { Seq::empty() }) + whole + frac
}

/// `Decimal`'s `to_string`.
#[verifier::external_body]
pub(crate) fn dec_to_string(a: Dec) -> (res: String)
    requires
        a.wf(),
    ensures
        res@ == decimal_text(a),
{
    Decimal::from_i128_with_scale(a.mantissa, a.scale).to_string()
}

/// `-a`: rust_decimal flips the sign and keeps magnitude and scale.
pub open spec fn dec_neg(a: Dec) -> Dec {
    Dec { mantissa: (-a.mantissa) as i128, scale: a.scale }
}

pub(crate) fn negate(a: Dec) -> (res: Dec)
    requires
        a.wf(),
    ensures
        res == dec_neg(a),
        res.wf(),
{
    Dec { mantissa: -a.mantissa, scale: a.scale }
}

/// Isolated-margin liquidation price: `entry * (1 - 1/lev + mmr)` for a
/// `BUY`, `entry * (1 + 1/lev - mmr)` for a `SELL`, in rust_decimal
/// arithmetic; none for spot, a non-positive leverage or another side,
/// and none where an operation overflows.
pub open spec fn spec_liquidation_price(
    segment: Seq<char>,
    side: Seq<char>,
    entry: Dec,
    leverage: i16,
    mmr: Dec,
) -> Option<Dec> {
    let one = whole(1);
    if segment == "spot"@ || leverage <= 0 || (side != "BUY"@ && side != "SELL"@) {
        None
    } else {
        match decimal_quotient(one, whole(leverage as int)) {
            None => None,
            Some(inv) => {
                let factor = if side == "BUY"@ {
                    match decimal_difference(one, inv) {
                        Some(x) => decimal_sum(x, mmr),
                        None => None,
                    }
                } else {
                    match decimal_sum(one, inv) {
                        Some(x) => decimal_difference(x, mmr),
                        None => None,
                    }
                };
                match factor {
                    Some(f) => decimal_product(entry, f),
                    None => None,
                }
            },
        }
    }
}

pub fn liquidation_price(segment: &str, side: &str, entry: Dec, leverage: i16, mmr: Dec) -> (res:
    Option<Dec>)
    requires
        entry.wf(),
        mmr.wf(),
    ensures
        res == spec_liquidation_price(segment@, side@, entry, leverage, mmr),
        (segment@ == "spot"@ || leverage <= 0) ==> res is None,
{
    if crate::text::str_eq(segment, "spot") || leverage <= 0 {
        return None;
    }
    let is_buy = crate::text::str_eq(side, "BUY");
    if !is_buy && !crate::text::str_eq(side, "SELL") {
        return None;
    }
    let one = Dec { mantissa: 1, scale: 0 };
    let lev = Dec { mantissa: leverage as i128, scale: 0 };
    let inv = match dec_div(one, lev) {
        Some(v) => v,
        None => return None,
    };
    let factor = if is_buy {
        match dec_sub(one, inv) {
            Some(x) => dec_add(x, mmr),
            None => None,
        }
    } else {
        match dec_add(one, inv) {
            Some(x) => dec_sub(x, mmr),
            None => None,
        }
    };
    match factor {
        Some(f) => dec_mul(entry, f),
        None => None,
    }
}

/// The quantity when sizing cannot go on: 0.01.
pub open spec fn size_fallback() -> Dec {
    Dec { mantissa: 1, scale: 2 }
}

/// Risk-based size: `equity * risk_pct / |entry - sl|`, capped at
/// `equity * leverage * fraction / entry` when the entry is positive, and
/// rounded to 4 places; 0.01 for a non-positive equity, a zero distance
/// or a non-positive result. Without a positive entry the uncapped size is
/// rounded and kept at least 0.01. `None` where an operation overflows.
pub open spec fn spec_size_from_risk(
    equity: Dec,
    entry: Dec,
    sl: Dec,
    risk_pct: Dec,
    leverage: u64,
    fraction: Dec,
) -> Option<Dec> {
    let fallback = size_fallback();
    if equity.mantissa <= 0 {
        Some(fallback)
    } else {
        match decimal_difference(entry, sl) {
            None => None,
            Some(gap) => if dec_abs(gap).mantissa <= 0 {
                Some(fallback)
            } else {
                match decimal_product(equity, risk_pct) {
                    None => None,
                    Some(risk) => match decimal_quotient(risk, dec_abs(gap)) {
                        None => None,
                        Some(raw) => match decimal_product(equity, whole(leverage as int)) {
                            None => None,
                            Some(levered) => match decimal_product(levered, fraction) {
                                None => None,
                                Some(max_notional) => if entry.mantissa <= 0 {
                                    let r = decimal_rounded(raw, 4);
                                    Some(if dec_less(fallback, r) { r } else { fallback })
                                } else {
                                    match decimal_quotient(max_notional, entry) {
                                        None => None,
                                        Some(cap) => {
                                            let q = decimal_rounded(
                                                if dec_less(cap, raw) { cap } else { raw },
                                                4,
                                            );
                                            if q.mantissa <= 0 { Some(fallback) } else { Some(q) }
                                        },
                                    }
                                },
                            },
                        },
                    },
                }
            },
        }
    }
}

pub fn size_from_risk(
    equity: Dec,
    entry: Dec,
    sl: Dec,
    risk_pct: Dec,
    leverage: u64,
    fraction: Dec,
) -> (res: Option<Dec>)
    requires
        equity.wf(),
        entry.wf(),
        sl.wf(),
        risk_pct.wf(),
        fraction.wf(),
    ensures
        res == spec_size_from_risk(equity, entry, sl, risk_pct, leverage, fraction),
        equity.mantissa <= 0 ==> res == Some(size_fallback()),
{
    let fallback = Dec { mantissa: 1, scale: 2 };
    if equity.mantissa <= 0 {
        return Some(fallback);
    }
    let gap = match dec_sub(entry, sl) {
        Some(g) => g,
        None => return None,
    };
    let distance = dec_abs_value(gap);
    if distance.mantissa <= 0 {
        return Some(fallback);
    }
    let risk = match dec_mul(equity, risk_pct) {
        Some(r) => r,
        None => return None,
    };
    let raw = match dec_div(risk, distance) {
        Some(r) => r,
        None => return None,
    };
    let levered = match dec_mul(equity, Dec { mantissa: leverage as i128, scale: 0 }) {
        Some(v) => v,
        None => return None,
    };
    let max_notional = match dec_mul(levered, fraction) {
        Some(v) => v,
        None => return None,
    };
    if entry.mantissa <= 0 {
        let r = dec_round_dp(raw, 4);
        return Some(if dec_lt(fallback, r) { r } else { fallback });
    }
    let cap = match dec_div(max_notional, entry) {
        Some(c) => c,
        None => return None,
    };
    let q = dec_round_dp(if dec_lt(cap, raw) { cap } else { raw }, 4);
    if q.mantissa <= 0 { Some(fallback) } else { Some(q) }
}

} // verus!
