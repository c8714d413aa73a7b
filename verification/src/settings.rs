//! Interpretation of the worker's environment switches and numeric
//! settings. The worker reads the raw values; these functions decide what
//! they mean.

use vstd::prelude::*;
use vstd::string::StrSliceExecFns;
use crate::text::{parse_i32, parsed_i32, parsed_i64, parsed_u64, trimmed, uppercased, parse_i64, parse_u64, str_eq, trim, to_uppercase, chars_between, push_char};

verus! {

/// A switch value that turns a feature on: `1`, `true`, `yes` or `on`
/// after trimming.
pub open spec fn spec_switch_on(raw: Seq<char>) -> bool {
    let t = trimmed(raw);
    t == "1"@ || t == "true"@ || t == "yes"@ || t == "on"@
}

/// A switch value that turns a feature off: `0`, `false`, `no` or `off`
/// after trimming.
pub open spec fn spec_switch_off(raw: Seq<char>) -> bool {
    let t = trimmed(raw);
    t == "0"@ || t == "false"@ || t == "no"@ || t == "off"@
}

/// Opt-in switch (kill switch, notify outbox): on only when the variable
/// is set to one of the "on" words.
pub fn env_flag_on(raw: Option<&str>) -> (res: bool)
    ensures
        res == match raw {
            Some(s) => spec_switch_on(s@),
            None => false,
        },
{
    match raw {
        Some(s) => {
            let t = trim(s);
            str_eq(t, "1") || str_eq(t, "true") || str_eq(t, "yes") || str_eq(t, "on")
        },
        None => false,
    }
}

/// Opt-out switch of the external HTTP fetch: enabled unless the variable
/// is set to one of the "off" words.
pub fn external_fetch_enabled(raw: Option<&str>) -> (res: bool)
    ensures
        res == match raw {
            Some(s) => !spec_switch_off(s@),
            None => true,
        },
{
    match raw {
        Some(s) => {
            let t = trim(s);
            !(str_eq(t, "0") || str_eq(t, "false") || str_eq(t, "no") || str_eq(t, "off"))
        },
        None => true,
    }
}

/// A `u64` setting: the parsed value, or `default` when absent or
/// unparseable, raised to at least `floor`.
pub open spec fn spec_u64_setting(raw: Option<Seq<char>>, default: u64, floor: u64) -> u64 {
    let v = match raw {
        Some(s) => match parsed_u64(s) {
            Some(n) => n,
            None => default,
        },
        None => default,
    };
    if v < floor {
        floor
    } else {
        v
    }
}

pub open spec fn opt_view(raw: Option<&str>) -> Option<Seq<char>> {
    match raw {
        Some(s) => Some(s@),
        None => None,
    }
}

fn u64_setting(raw: Option<&str>, default: u64, floor: u64) -> (res: u64)
    ensures
        res == spec_u64_setting(opt_view(raw), default, floor),
{
    let v = match raw {
        Some(s) => match parse_u64(s) {
            Some(n) => n,
            None => default,
        },
        None => default,
    };
    if v < floor {
        floor
    } else {
        v
    }
}

/// Poll interval of the legacy fetch loop: `QTSS_EXTERNAL_FETCH_POLL_SECS`,
/// default 30 s, never below 10 s.
pub fn poll_interval_secs(raw: Option<&str>) -> (res: u64)
    ensures
        res == spec_u64_setting(opt_view(raw), 30, 10),
        res >= 10,
{
    u64_setting(raw, 30, 10)
}

/// Back-off after the Nansen API reports insufficient credits:
/// `NANSEN_INSUFFICIENT_CREDITS_SLEEP_SECS`, default one hour, never below
/// the loop's own tick.
pub fn insufficient_sleep_default(raw: Option<&str>, tick: u64) -> (res: u64)
    ensures
        res == spec_u64_setting(opt_view(raw), 3600, tick),
        res >= tick,
{
    u64_setting(raw, 3600, tick)
}

/// An `i64` setting read as text: the parsed value or `default`.
pub open spec fn spec_i64_or(raw: Seq<char>, default: i64) -> i64 {
    match parsed_i64(raw) {
        Some(n) => n,
        None => default,
    }
}

pub fn parse_i64_or(raw: &str, default: i64) -> (res: i64)
    ensures
        res == spec_i64_or(raw@, default),
{
    match parse_i64(raw) {
        Some(n) => n,
        None => default,
    }
}

/// A 32-bit integer setting: the parsed value, else `default`.
pub fn parse_i32_or(raw: &str, default: i32) -> (res: i32)
    ensures
        res == match parsed_i32(raw@) {
            Some(n) => n,
            None => default,
        },
{
    match parse_i32(raw) {
        Some(n) => n,
        None => default,
    }
}

/// Key of the Nansen screener request in `app_config`: the
/// `QTSS_NANSEN_CONFIG_KEY` value unless it is blank, else
/// `nansen_screener_request`.
pub fn nansen_app_config_key(raw: Option<&str>) -> (res: String)
    ensures
        res@ == match raw {
            Some(s) => if trimmed(s@).len() != 0 { s@ } else { "nansen_screener_request"@ },
            None => "nansen_screener_request"@,
        },
{
    match raw {
        Some(s) => {
            let t = trim(s);
            if t.is_empty() {
                "nansen_screener_request".to_owned()
            } else {
                s.to_owned()
            }
        },
        None => "nansen_screener_request".to_owned(),
    }
}


/// Nansen API base URL: `NANSEN_API_BASE` unless blank, else the client
/// crate's default base.
pub fn nansen_api_base(raw: Option<&str>, default_base: &str) -> (res: String)
    ensures
        res@ == match raw {
            Some(s) => if trimmed(s@).len() != 0 { s@ } else { default_base@ },
            None => default_base@,
        },
{
    match raw {
        Some(s) => if trim(s).is_empty() {
            default_base.to_owned()
        } else {
            s.to_owned()
        },
        None => default_base.to_owned(),
    }
}

/// Variant used by the extended Nansen loops: the configured base is
/// trimmed.
pub fn nansen_api_base_trimmed(raw: Option<&str>, default_base: &str) -> (res: String)
    ensures
        res@ == match raw {
            Some(s) => if trimmed(s@).len() != 0 { trimmed(s@) } else { default_base@ },
            None => default_base@,
        },
{
    match raw {
        Some(s) => {
            let t = trim(s);
            if t.is_empty() {
                default_base.to_owned()
            } else {
                t.to_owned()
            }
        },
        None => default_base.to_owned(),
    }
}

/// Page size of Nansen requests: `NANSEN_PER_PAGE` (trimmed), default 500.
pub fn nansen_per_page(raw: Option<&str>) -> (res: u64)
    ensures
        res == match raw {
            Some(s) => match parsed_u64(trimmed(s@)) {
                Some(n) => n,
                None => 500,
            },
            None => 500,
        },
{
    match raw {
        Some(s) => match parse_u64(trim(s)) {
            Some(n) => n,
            None => 500,
        },
        None => 500,
    }
}

/// A setting's trimmed value unless it is missing or blank.
pub open spec fn nonblank(raw: Option<Seq<char>>) -> Option<Seq<char>> {
    match raw {
        Some(s) => if trimmed(s).len() != 0 { Some(trimmed(s)) } else { None },
        None => None,
    }
}

pub open spec fn string_view(r: Option<String>) -> Option<Seq<char>> {
    match r {
        Some(s) => Some(s@),
        None => None,
    }
}

/// Nansen API key of the token screener: the stored setting when it is
/// not blank after trimming, else the environment variable under the same
/// rule; both trimmed.
pub fn choose_api_key(stored: Option<&str>, env: Option<&str>) -> (res: Option<String>)
    ensures
        string_view(res) == if nonblank(opt_view(stored)) is Some {
            nonblank(opt_view(stored))
        } else {
            nonblank(opt_view(env))
        },
{
    if let Some(s) = stored {
        let t = trim(s);
        if !t.is_empty() {
            return Some(t.to_owned());
        }
    }
    if let Some(e) = env {
        let t = trim(e);
        if !t.is_empty() {
            return Some(t.to_owned());
        }
    }
    None
}

/// Token of the perp PnL leaderboard request:
/// `NANSEN_PERP_LEADERBOARD_TOKEN_SYMBOL` trimmed and upper-cased unless
/// blank, else `BTC`.
pub fn perp_leaderboard_token(raw: Option<&str>) -> (res: String)
    ensures
        res@ == match raw {
            Some(s) => if trimmed(s@).len() != 0 { uppercased(trimmed(s@)) } else { "BTC"@ },
            None => "BTC"@,
        },
{
    match raw {
        Some(s) => {
            let t = trim(s);
            if t.is_empty() {
                "BTC".to_owned()
            } else {
                to_uppercase(t)
            }
        },
        None => "BTC".to_owned(),
    }
}

/// Days before today where the leaderboard window starts:
/// `NANSEN_PERP_LEADERBOARD_LOOKBACK_DAYS` (default 7) clamped to 1..=90,
/// minus one.
pub fn perp_leaderboard_day_span(raw: Option<&str>) -> (res: i64)
    ensures
        ({
            let v: i64 = match raw {
                Some(s) => match parsed_i64(s@) {
                    Some(n) => n,
                    None => 7,
                },
                None => 7,
            };
            let c: int = if v < 1 { 1 } else if v > 90 { 90 } else { v as int };
            res == c - 1
        }),
        0 <= res <= 89,
{
    let v = match raw {
        Some(s) => parse_i64_or(s, 7),
        None => 7,
    };
    let c = if v < 1 { 1 } else if v > 90 { 90 } else { v };
    c - 1
}

/// Sleep of the token screener loop: the tick, or after an
/// insufficient-credits reply the credit back-off, never shorter than the
/// tick.
pub fn screener_next_sleep(tick: u64, insufficient_backoff: u64, insufficient: bool) -> (res: u64)
    ensures
        res == if insufficient && insufficient_backoff > tick { insufficient_backoff } else { tick },
{
    if insufficient && insufficient_backoff > tick {
        insufficient_backoff
    } else {
        tick
    }
}

/// The first 500 characters of an error text, stored with a failed fetch.
pub fn error_excerpt(err: &str) -> (res: String)
    ensures
        res@ == err@.take(if err@.len() < 500 { err@.len() as int } else { 500 }),
{
    let n = err.unicode_len();
    let k: usize = if n < 500 { n } else { 500 };
    let r = chars_between(err, 0, k);
    assert(err@.subrange(0, k as int) =~= err@.take(k as int));
    r
}

/// Interval between pruning runs of the on-chain score history:
/// `QTSS_ONCHAIN_SCORE_RETENTION_PRUNE_SECS`, default one day, never below
/// one hour.
pub fn retention_prune_interval_secs(raw: Option<&str>) -> (res: u64)
    ensures
        res == spec_u64_setting(opt_view(raw), 86_400, 3_600),
        res >= 3_600,
{
    u64_setting(raw, 86_400, 3_600)
}

/// Days of on-chain score history kept:
/// `QTSS_ONCHAIN_SCORE_RETENTION_DAYS` as an `i32`, default 7, at least 1.
pub fn retention_days(raw: Option<&str>) -> (res: i32)
    ensures
        ({
            let v: int = match raw {
                Some(s) => match parsed_i64(s@) {
                    Some(n) => if i32::MIN <= n <= i32::MAX { n as int } else { 7 },
                    None => 7,
                },
                None => 7,
            };
            res == if v < 1 { 1 } else { v }
        }),
{
    let v: i64 = match raw {
        Some(s) => match parse_i64(s) {
            Some(n) => if n < i32::MIN as i64 || n > i32::MAX as i64 { 7 } else { n },
            None => 7,
        },
        None => 7,
    };
    if v < 1 { 1 } else { v as i32 }
}

/// `app_config` key of the on-chain component weights:
/// `QTSS_ONCHAIN_SIGNAL_WEIGHTS_KEY` or `onchain_signal_weights`, trimmed.
pub fn onchain_weights_config_key(raw: Option<&str>) -> (res: String)
    ensures
        res@ == trimmed(match raw {
            Some(s) => s@,
            None => "onchain_signal_weights"@,
        }),
{
    match raw {
        Some(s) => trim(s).to_owned(),
        None => trim("onchain_signal_weights").to_owned(),
    }
}

/// Signal notifications of the on-chain scorer: on when either
/// `QTSS_NOTIFY_ON_ONCHAIN_SIGNAL` or `QTSS_NOTIFY_SIGNAL_ENABLED` is
/// switched on.
pub fn onchain_notify_enabled(onchain: Option<&str>, generic: Option<&str>) -> (res: bool)
    ensures
        res == (match onchain {
            Some(s) => spec_switch_on(s@),
            None => false,
        } || match generic {
            Some(s) => spec_switch_on(s@),
            None => false,
        }),
{
    let a = env_flag_on(onchain);
    let b = env_flag_on(generic);
    a || b
}

/// The comma-separated fields of `s` (one empty field for an empty `s`).
pub open spec fn csv_fields(s: Seq<char>) -> Seq<Seq<char>>
    decreases s.len(),
{
    if s.len() == 0 {
        seq![Seq::<char>::empty()]
    } else {
        let r = csv_fields(s.drop_last());
        if s.last() == ',' {
            r.push(Seq::<char>::empty())
        } else {
            r.update(r.len() - 1, r.last().push(s.last()))
        }
    }
}

/// The trimmed fields that are not blank, in order.
pub open spec fn nonblank_fields(f: Seq<Seq<char>>) -> Seq<Seq<char>>
    decreases f.len(),
{
    if f.len() == 0 {
        Seq::empty()
    } else {
        let rest = nonblank_fields(f.drop_last());
        if trimmed(f.last()).len() != 0 { rest.push(trimmed(f.last())) } else { rest }
    }
}

proof fn lemma_csv_fields_nonempty(s: Seq<char>)
    ensures
        csv_fields(s).len() >= 1,
    decreases s.len(),
{
    if s.len() > 0 {
        lemma_csv_fields_nonempty(s.drop_last());
    }
}

/// A comma-separated list setting (alert channels): its fields trimmed,
/// blank ones dropped.
pub fn csv_list(raw: &str) -> (res: Vec<String>)
    ensures
        res@.map_values(|x: String| x@) == nonblank_fields(csv_fields(raw@)),
{
    let n = raw.unicode_len();
    let mut out: Vec<String> = Vec::new();
    let mut cur = String::new();
    let mut i: usize = 0;
    proof {
        assert(raw@.take(0) =~= Seq::<char>::empty());
    }
    while i < n
        invariant
            n == raw@.len(),
            i <= n,
            csv_fields(raw@.take(i as int)).len() >= 1,
            cur@ == csv_fields(raw@.take(i as int)).last(),
            out@.map_values(|x: String| x@) == nonblank_fields(csv_fields(raw@.take(i as int)).drop_last()),
        decreases n - i,
    {
        let c = raw.get_char(i);
        let ghost t = raw@.take(i + 1);
        let ghost f = csv_fields(raw@.take(i as int));
        proof {
            assert(t.drop_last() =~= raw@.take(i as int));
            assert(t.last() == c);
            lemma_csv_fields_nonempty(t);
        }
        if c == ',' {
            let piece = trim(cur.as_str());
            if !piece.is_empty() {
                let ghost before = out@;
                out.push(piece.to_owned());
                proof {
                    assert(out@.map_values(|x: String| x@) =~= before.map_values(|x: String| x@).push(piece@));
                }
            }
            proof {
                assert(csv_fields(t).drop_last() =~= f);
                assert(f.drop_last().push(f.last()) =~= f);
            }
            cur = String::new();
        } else {
            push_char(&mut cur, c);
            proof {
                assert(csv_fields(t).drop_last() =~= f.drop_last());
            }
        }
        i = i + 1;
    }
    proof {
        assert(raw@.take(n as int) =~= raw@);
    }
    let ghost f = csv_fields(raw@);
    let piece = trim(cur.as_str());
    if !piece.is_empty() {
        let ghost before = out@;
        out.push(piece.to_owned());
        proof {
            assert(out@.map_values(|x: String| x@) =~= before.map_values(|x: String| x@).push(piece@));
        }
    }
    proof {
        assert(f.drop_last().push(f.last()) =~= f);
    }
    out
}

} // verus!
