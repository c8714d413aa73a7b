//! Execution bridge decisions: which path a selected candidate takes, and
//! the order shape a live position maps to.

use vstd::prelude::*;
use crate::text::{str_eq, trim, trimmed};
use uuid::Uuid;

verus! {

/// Where a claimed candidate goes.
#[derive(Clone, Copy, Debug, PartialEq, Eq, Structural)]
pub enum DispatchRoute {
    /// Paper execution (`dry` with dry execution enabled).
    Dry,
    /// Broker execution (`live` with live execution enabled).
    Live,
    /// Backtest rows are left to the backtest runner: done, nothing placed.
    Skip,
    /// `dry` while dry execution is disabled.
    DryDisabled,
    /// `live` while live execution is disabled.
    LiveDisabled,
    /// Any other mode.
    UnknownMode,
}

pub open spec fn spec_dispatch_route(mode: Seq<char>, dry_enabled: bool, live_enabled: bool) -> DispatchRoute {
    if mode == "dry"@ {
        if dry_enabled { DispatchRoute::Dry } else { DispatchRoute::DryDisabled }
    } else if mode == "live"@ {
        if live_enabled { DispatchRoute::Live } else { DispatchRoute::LiveDisabled }
    } else if mode == "backtest"@ {
        DispatchRoute::Skip
    } else {
        DispatchRoute::UnknownMode
    }
}

pub fn dispatch_route(mode: &str, dry_enabled: bool, live_enabled: bool) -> (res: DispatchRoute)
    ensures
        res == spec_dispatch_route(mode@, dry_enabled, live_enabled),
{
    if str_eq(mode, "dry") {
        if dry_enabled { DispatchRoute::Dry } else { DispatchRoute::DryDisabled }
    } else if str_eq(mode, "live") {
        if live_enabled { DispatchRoute::Live } else { DispatchRoute::LiveDisabled }
    } else if str_eq(mode, "backtest") {
        DispatchRoute::Skip
    } else {
        DispatchRoute::UnknownMode
    }
}

/// A failed dispatch of a `live` candidate also marks its setup as
/// rejected, so that no stop-loss is later booked against a position that
/// was never opened.
pub fn rejects_setup_on_failure(mode: &str) -> (res: bool)
    ensures
        res == (mode@ == "live"@),
{
    str_eq(mode, "live")
}

/// The system_config keys and environment fallbacks naming the default
/// organisation and user of a mode: `live.*` / `QTSS_LIVE_*` for live,
/// `dry.*` / `QTSS_DRY_*` otherwise.
pub fn owner_config_keys(mode: &str) -> (res: (&'static str, &'static str, &'static str, &'static str))
    ensures
        mode@ == "live"@ ==> res.0@ == "live.default_org_id"@ && res.1@ == "QTSS_LIVE_ORG_ID"@
            && res.2@ == "live.default_user_id"@ && res.3@ == "QTSS_LIVE_USER_ID"@,
        mode@ != "live"@ ==> res.0@ == "dry.default_org_id"@ && res.1@ == "QTSS_DRY_ORG_ID"@
            && res.2@ == "dry.default_user_id"@ && res.3@ == "QTSS_DRY_USER_ID"@,
{
    if str_eq(mode, "live") {
        ("live.default_org_id", "QTSS_LIVE_ORG_ID", "live.default_user_id", "QTSS_LIVE_USER_ID")
    } else {
        ("dry.default_org_id", "QTSS_DRY_ORG_ID", "dry.default_user_id", "QTSS_DRY_USER_ID")
    }
}

/// Equity setting of a mode: `live.default_equity` or `dry.default_equity`.
pub fn equity_config_key(mode: &str) -> (res: &'static str)
    ensures
        res@ == if mode@ == "live"@ { "live.default_equity"@ } else { "dry.default_equity"@ },
{
    if str_eq(mode, "live") {
        "live.default_equity"
    } else {
        "dry.default_equity"
    }
}

/// Market segment of an order.
#[derive(Clone, Copy, Debug, PartialEq, Eq, Structural)]
pub enum OrderSegment {
    Spot,
    Futures,
    Margin,
    Options,
}

#[derive(Clone, Copy, Debug, PartialEq, Eq, Structural)]
pub enum OrderSideKind {
    Buy,
    Sell,
}

/// Why a live position cannot be turned into an order.
#[derive(Clone, Copy, Debug, PartialEq, Eq, Structural)]
pub enum IntentError {
    UnsupportedSegment,
    UnknownSide,
}

/// Segment, side and whether futures extras (one-way mode, not
/// reduce-only) are attached, for a market GTC order.
#[derive(Clone, Copy, Debug, PartialEq, Eq, Structural)]
pub struct IntentShape {
    pub segment: OrderSegment,
    pub side: OrderSideKind,
    pub futures_extras: bool,
}

pub open spec fn spec_segment(s: Seq<char>) -> Option<OrderSegment> {
    if s == "spot"@ {
        Some(OrderSegment::Spot)
    } else if s == "futures"@ {
        Some(OrderSegment::Futures)
    } else if s == "margin"@ {
        Some(OrderSegment::Margin)
    } else if s == "options"@ {
        Some(OrderSegment::Options)
    } else {
        None
    }
}

pub open spec fn spec_side(s: Seq<char>) -> Option<OrderSideKind> {
    if s == "BUY"@ || s == "buy"@ {
        Some(OrderSideKind::Buy)
    } else if s == "SELL"@ || s == "sell"@ {
        Some(OrderSideKind::Sell)
    } else {
        None
    }
}

fn parse_side(side: &str) -> (res: Option<OrderSideKind>)
    ensures
        res == spec_side(side@),
{
    if str_eq(side, "BUY") || str_eq(side, "buy") {
        Some(OrderSideKind::Buy)
    } else if str_eq(side, "SELL") || str_eq(side, "sell") {
        Some(OrderSideKind::Sell)
    } else {
        None
    }
}

/// The order shape of a live position: the segment is checked first, then
/// the side (`BUY`/`buy`, `SELL`/`sell`); futures orders carry extras.
pub fn order_intent_shape(segment: &str, side: &str) -> (res: Result<IntentShape, IntentError>)
    ensures
        match spec_segment(segment@) {
            None => res == Err::<IntentShape, IntentError>(IntentError::UnsupportedSegment),
            Some(seg) => match spec_side(side@) {
                None => res == Err::<IntentShape, IntentError>(IntentError::UnknownSide),
                Some(sd) => res == Ok::<IntentShape, IntentError>(
                    IntentShape {
                        segment: seg,
                        side: sd,
                        futures_extras: seg == OrderSegment::Futures,
                    },
                ),
            },
        },
{
    let seg = if str_eq(segment, "spot") {
        OrderSegment::Spot
    } else if str_eq(segment, "futures") {
        OrderSegment::Futures
    } else if str_eq(segment, "margin") {
        OrderSegment::Margin
    } else if str_eq(segment, "options") {
        OrderSegment::Options
    } else {
        return Err(IntentError::UnsupportedSegment);
    };
    let sd = match parse_side(side) {
        Some(s) => s,
        None => return Err(IntentError::UnknownSide),
    };
    let futures_extras = match seg {
        OrderSegment::Futures => true,
        _ => false,
    };
    Ok(IntentShape { segment: seg, side: sd, futures_extras })
}

/// Execution mode and side of an in-memory position state; `None` for an
/// unknown mode or side.
#[derive(Clone, Copy, Debug, PartialEq, Eq, Structural)]
pub enum ExecMode {
    Dry,
    Live,
}

pub fn live_state_mode_side(mode: &str, side: &str) -> (res: Option<(ExecMode, OrderSideKind)>)
    ensures
        match res {
            Some((m, s)) => (m == ExecMode::Dry <==> mode@ == "dry"@) && (m == ExecMode::Live
                <==> mode@ == "live"@) && spec_side(side@) == Some(s),
            None => !(mode@ == "dry"@ || mode@ == "live"@) || spec_side(side@) is None,
        },
{
    let m = if str_eq(mode, "dry") {
        ExecMode::Dry
    } else if str_eq(mode, "live") {
        ExecMode::Live
    } else {
        return None;
    };
    proof {
        reveal_strlit("dry");
        reveal_strlit("live");
        assert("dry"@[0] != "live"@[0]);
    }
    match parse_side(side) {
        Some(s) => Some((m, s)),
        None => None,
    }
}

/// Leverage of an in-memory position: the stored leverage when it fits in
/// a `u8`, else 1.
pub fn state_leverage(leverage: i16) -> (res: u8)
    ensures
        res == if 0 <= leverage <= 255 { leverage as u8 } else { 1u8 },
{
    if 0 <= leverage && leverage <= 255 {
        leverage as u8
    } else {
        1
    }
}

/// Configured default leverage as an `i16`, 10 when it does not fit.
pub fn leverage_from_config(leverage: u64) -> (res: i16)
    ensures
        res == if leverage <= 32767 { leverage as i16 } else { 10i16 },
{
    if leverage <= 32767 {
        leverage as i16
    } else {
        10
    }
}

/// What `Uuid::parse_str` returns, as the id's 128-bit value; `None` for
/// an error.
pub uninterp spec fn uuid_parsed(s: Seq<char>) -> Option<u128>;

/// `Uuid::parse_str`, by the id's `u128` value.
#[verifier::external_body]
fn parse_uuid(s: &str) -> (res: Option<u128>)
    ensures
        res == uuid_parsed(s@),
{
    match Uuid::parse_str(s) {
        Ok(u) => Some(u.as_u128()),
        Err(_) => None,
    }
}

/// The owner of a new live position: the trimmed org and user settings,
/// both parsed as UUIDs; no position is built when either does not parse.
pub fn live_owner_ids(org_raw: &str, user_raw: &str) -> (res: Option<(u128, u128)>)
    ensures
        res == match (uuid_parsed(trimmed(org_raw@)), uuid_parsed(trimmed(user_raw@))) {
            (Some(o), Some(u)) => Some((o, u)),
            _ => None,
        },
{
    let org = parse_uuid(trim(org_raw));
    let user = parse_uuid(trim(user_raw));
    match (org, user) {
        (Some(o), Some(u)) => Some((o, u)),
        _ => None,
    }
}

} // verus!
