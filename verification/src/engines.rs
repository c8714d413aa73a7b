//! Routing of `external_data_sources` rows to the HTTP engine families and
//! the staleness rule that decides when a source is fetched again.

use vstd::prelude::*;
use crate::text::{is_prefix, starts_with, str_eq};

verus! {

/// Keys fetched by the Binance engine: prefix `binance_`.
pub open spec fn spec_include_binance(key: Seq<char>) -> bool {
    is_prefix("binance_"@, key)
}

/// Keys fetched by the Coinglass engine: prefix `coinglass_`.
pub open spec fn spec_include_coinglass(key: Seq<char>) -> bool {
    is_prefix("coinglass_"@, key)
}

/// Keys fetched by the Hyperliquid engine: prefix `hl_`, or the
/// `hl_meta_asset_ctxs` key itself.
pub open spec fn spec_include_hyperliquid(key: Seq<char>) -> bool {
    is_prefix("hl_"@, key) || key == "hl_meta_asset_ctxs"@
}

/// Keys fetched by the catch-all engine: every key no other family takes.
pub open spec fn spec_include_misc(key: Seq<char>) -> bool {
    !spec_include_binance(key) && !spec_include_coinglass(key) && !spec_include_hyperliquid(key)
}

pub fn include_binance(key: &str) -> (res: bool)
    ensures
        res == spec_include_binance(key@),
{
    starts_with(key, "binance_")
}

pub fn include_coinglass(key: &str) -> (res: bool)
    ensures
        res == spec_include_coinglass(key@),
{
    starts_with(key, "coinglass_")
}

pub fn include_hyperliquid(key: &str) -> (res: bool)
    ensures
        res == spec_include_hyperliquid(key@),
{
    starts_with(key, "hl_") || str_eq(key, "hl_meta_asset_ctxs")
}

pub fn include_misc(key: &str) -> (res: bool)
    ensures
        res == spec_include_misc(key@),
{
    !starts_with(key, "binance_") && !starts_with(key, "coinglass_") && !(starts_with(
        key,
        "hl_",
    ) || str_eq(key, "hl_meta_asset_ctxs"))
}

/// Every source key is fetched by exactly one engine family: the four
/// filters never overlap and together cover all keys.
pub proof fn lemma_engine_filters_partition(key: Seq<char>)
    ensures
        spec_include_binance(key) || spec_include_coinglass(key) || spec_include_hyperliquid(key)
            || spec_include_misc(key),
        !(spec_include_binance(key) && spec_include_coinglass(key)),
        !(spec_include_binance(key) && spec_include_hyperliquid(key)),
        !(spec_include_coinglass(key) && spec_include_hyperliquid(key)),
        spec_include_misc(key) ==> !spec_include_binance(key) && !spec_include_coinglass(key)
            && !spec_include_hyperliquid(key),
{
    reveal_strlit("binance_");
    reveal_strlit("coinglass_");
    reveal_strlit("hl_");
    reveal_strlit("hl_meta_asset_ctxs");
    if spec_include_binance(key) {
        assert(key[0] == 'b') by {
            assert(key.subrange(0, 8)[0] == key[0]);
        }
    }
    if spec_include_coinglass(key) {
        assert(key[0] == 'c') by {
            assert(key.subrange(0, 10)[0] == key[0]);
        }
    }
    if is_prefix("hl_"@, key) {
        assert(key[0] == 'h') by {
            assert(key.subrange(0, 3)[0] == key[0]);
        }
    }
    if key == "hl_meta_asset_ctxs"@ {
        assert(key[0] == 'h');
    }
}


/// Minimum refresh period of a source: its configured `tick_secs`, never
/// below 30 seconds.
pub fn tick_floor_secs(s: i32) -> (res: i64)
    ensures
        res == if s < 30 { 30 } else { s as i64 },
{
    let v = s as i64;
    if v < 30 {
        30
    } else {
        v
    }
}

/// Whether a source is fetched on this pass: when its snapshot age is
/// unknown (no snapshot, or the age could not be read) or at least the
/// floored tick.
pub fn source_due_for_fetch(age_secs: Option<i64>, tick_secs: i32) -> (res: bool)
    ensures
        res == match age_secs {
            Some(age) => age >= if tick_secs < 30 { 30 } else { tick_secs as int },
            None => true,
        },
{
    let tick = tick_floor_secs(tick_secs);
    match age_secs {
        Some(age) => age >= tick,
        None => true,
    }
}

} // verus!
