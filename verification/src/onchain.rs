//! On-chain signal scorer helpers: symbol forms, snapshot freshness and
//! the technical-analysis bias read from the signal dashboard.

use vstd::prelude::*;
use crate::text::{
    is_suffix, lowercased, trimmed, uppercased, str_eq, strip_suffix, to_lowercase, to_uppercase,
    trim, replace_char, concat,
};

verus! {

/// Trimmed, upper-cased symbol without a trailing `USDT`.
pub open spec fn base_of(symbol: Seq<char>) -> Seq<char> {
    let u = uppercased(trimmed(symbol));
    if is_suffix("USDT"@, u) {
        u.subrange(0, u.len() - 4)
    } else {
        u
    }
}

/// Lower-case base asset of a pair (`BTCUSDT` → `btc`).
pub fn symbol_base_lower(symbol: &str) -> (res: String)
    ensures
        res@ == lowercased(base_of(symbol@)),
{
    let sym = to_uppercase(trim(symbol));
    proof {
        reveal_strlit("USDT");
    }
    let base = match strip_suffix(sym.as_str(), "USDT") {
        Some(b) => b,
        None => sym.as_str(),
    };
    to_lowercase(base)
}

/// Hyperliquid perp coin of a pair (`BTCUSDT` → `BTC`).
pub fn hl_perp_coin(symbol: &str) -> (res: String)
    ensures
        res@ == uppercased(base_of(symbol@)),
{
    let sym = to_uppercase(trim(symbol));
    proof {
        reveal_strlit("USDT");
    }
    let base = match strip_suffix(sym.as_str(), "USDT") {
        Some(b) => b,
        None => sym.as_str(),
    };
    to_uppercase(base)
}

/// Confidence in a data snapshot by its age against the source tick
/// (at least 1 s): fresh under two ticks, aging under five, else stale or
/// unknown.
#[derive(Clone, Copy, Debug, PartialEq, Eq, Structural)]
pub enum SnapshotConfidence {
    /// Weight 1.0.
    Fresh,
    /// Weight 0.5.
    Aging,
    /// Weight 0.1.
    Stale,
}

pub open spec fn spec_snapshot_confidence(age: Option<i64>, tick: i32) -> SnapshotConfidence {
    let t: int = if tick < 1 { 1 } else { tick as int };
    match age {
        None => SnapshotConfidence::Stale,
        Some(a) => if a < 2 * t {
            SnapshotConfidence::Fresh
        } else if a < 5 * t {
            SnapshotConfidence::Aging
        } else {
            SnapshotConfidence::Stale
        },
    }
}

pub fn snapshot_age_confidence(age_secs: Option<i64>, tick_secs: i32) -> (res: SnapshotConfidence)
    ensures
        res == spec_snapshot_confidence(age_secs, tick_secs),
{
    let t: i64 = if tick_secs < 1 { 1 } else { tick_secs as i64 };
    match age_secs {
        None => SnapshotConfidence::Stale,
        Some(a) => if a < 2 * t {
            SnapshotConfidence::Fresh
        } else if a < 5 * t {
            SnapshotConfidence::Aging
        } else {
            SnapshotConfidence::Stale
        },
    }
}

/// A dashboard status normalised for comparison: trimmed, upper-cased,
/// Turkish dotted `İ` read as `I`.
pub open spec fn normal_status(s: Seq<char>) -> Seq<char> {
    uppercased(trimmed(s)).map_values(|c: char| if c == 'İ' { 'I' } else { c })
}

fn status_bias(s: &str) -> (res: i8)
    ensures
        res == if normal_status(s@) == "LONG"@ {
            1int
        } else if normal_status(s@) == "SHORT"@ {
            -1int
        } else {
            0int
        },
{
    let u = to_uppercase(trim(s));
    let n = replace_char(u.as_str(), 'İ', 'I');
    if str_eq(n.as_str(), "LONG") {
        1
    } else if str_eq(n.as_str(), "SHORT") {
        -1
    } else {
        0
    }
}

/// Long/short bias of the signal dashboard: the v2 dashboard status (only
/// for schema version 3) when it reads LONG or SHORT, else the legacy
/// `durum` field likewise, else neutral.
pub open spec fn spec_ta_bias(v3_status: Option<Seq<char>>, durum: Option<Seq<char>>) -> int {
    let from_v2: int = match v3_status {
        Some(s) => if normal_status(s) == "LONG"@ {
            1
        } else if normal_status(s) == "SHORT"@ {
            -1
        } else {
            0
        },
        None => 0,
    };
    if from_v2 != 0 {
        from_v2
    } else {
        match durum {
            Some(d) => if normal_status(d) == "LONG"@ {
                1
            } else if normal_status(d) == "SHORT"@ {
                -1
            } else {
                0
            },
            None => 0,
        }
    }
}

/// `v3_status` is the `signal_dashboard_v2.status` of a schema-3 dashboard.
pub fn ta_long_short_bias(v3_status: Option<&str>, durum: Option<&str>) -> (res: i8)
    ensures
        res == spec_ta_bias(
            match v3_status {
                Some(s) => Some(s@),
                None => None,
            },
            match durum {
                Some(d) => Some(d@),
                None => None,
            },
        ),
{
    if let Some(s) = v3_status {
        let b = status_bias(s);
        if b != 0 {
            return b;
        }
    }
    match durum {
        Some(d) => status_bias(d),
        None => 0,
    }
}

/// Market regime named by the dashboard: the schema-3 `market_mode`, else
/// the legacy `piyasa_modu`, each trimmed and only when not blank.
pub open spec fn spec_market_regime(m: Option<Seq<char>>, p: Option<Seq<char>>) -> Option<Seq<char>> {
    let from_m = match m {
        Some(x) => if trimmed(x).len() != 0 { Some(trimmed(x)) } else { None },
        None => None,
    };
    if from_m is Some {
        from_m
    } else {
        match p {
            Some(y) => if trimmed(y).len() != 0 { Some(trimmed(y)) } else { None },
            None => None,
        }
    }
}

pub fn market_regime_raw(v3_market_mode: Option<&str>, piyasa_modu: Option<&str>) -> (res: Option<String>)
    ensures
        match res {
            Some(r) => spec_market_regime(
                match v3_market_mode { Some(m) => Some(m@), None => None },
                match piyasa_modu { Some(p) => Some(p@), None => None },
            ) == Some(r@),
            None => spec_market_regime(
                match v3_market_mode { Some(m) => Some(m@), None => None },
                match piyasa_modu { Some(p) => Some(p@), None => None },
            ) is None,
        },
{
    if let Some(m) = v3_market_mode {
        let s = trim(m);
        if !s.is_empty() {
            return Some(s.to_owned());
        }
    }
    match piyasa_modu {
        Some(p) => {
            let s = trim(p);
            if s.is_empty() {
                None
            } else {
                Some(s.to_owned())
            }
        },
        None => None,
    }
}


/// The snapshots the scorer reads for one symbol.
pub struct OnchainPlan {
    /// Trimmed, upper-cased symbol.
    pub symbol: String,
    /// Hyperliquid perp coin.
    pub coin: String,
    pub taker_key: String,
    pub premium_key: String,
    pub open_interest_key: String,
    pub long_short_key: String,
    /// Coinglass net-flow and liquidation snapshots exist only for BTC.
    pub coinglass_applicable: bool,
}

/// Snapshot key `binance_<kind>_<base>usdt`.
pub open spec fn binance_key(kind: Seq<char>, base: Seq<char>) -> Seq<char> {
    kind + base + "usdt"@
}

fn key_for(kind: &str, base: &str) -> (res: String)
    ensures
        res@ == binance_key(kind@, base@),
{
    let a = concat(kind.to_owned(), base);
    concat(a, "usdt")
}

/// Plan of the on-chain scorer for `symbol`: nothing for a blank symbol;
/// otherwise the Binance snapshot keys of its base asset, its Hyperliquid
/// coin, and whether the BTC-only Coinglass sources apply.
pub fn onchain_plan(symbol: &str) -> (res: Option<OnchainPlan>)
    ensures
        match res {
            None => uppercased(trimmed(symbol@)).len() == 0,
            Some(p) => {
                let sym = uppercased(trimmed(symbol@));
                let base = lowercased(base_of(sym));
                &&& sym.len() != 0
                &&& p.symbol@ == sym
                &&& p.coin@ == uppercased(base_of(sym))
                &&& p.taker_key@ == binance_key("binance_taker_"@, base)
                &&& p.premium_key@ == binance_key("binance_premium_"@, base)
                &&& p.open_interest_key@ == binance_key("binance_open_interest_"@, base)
                &&& p.long_short_key@ == binance_key("binance_ls_ratio_"@, base)
                &&& p.coinglass_applicable == (base == "btc"@)
            },
        },
{
    let sym = to_uppercase(trim(symbol));
    if sym.as_str().is_empty() {
        return None;
    }
    let base = symbol_base_lower(sym.as_str());
    let coin = hl_perp_coin(sym.as_str());
    let b = base.as_str();
    Some(
        OnchainPlan {
            coin,
            taker_key: key_for("binance_taker_", b),
            premium_key: key_for("binance_premium_", b),
            open_interest_key: key_for("binance_open_interest_", b),
            long_short_key: key_for("binance_ls_ratio_", b),
            coinglass_applicable: str_eq(b, "btc"),
            symbol: sym,
        },
    )
}

} // verus!
