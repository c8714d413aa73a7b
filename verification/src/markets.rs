//! Market vocabulary: bar intervals, market segments, order sides, snapshot
//! keys and durations.

use vstd::prelude::*;
use vstd::string::StrSliceExecFns;
use crate::text::{
    nat_digits, u64_to_string,
    decimal_digits, lowercased, parsed_i64, trimmed, concat, int_to_string, chars_between,
    parse_i64, str_eq, to_ascii_lowercase, to_lowercase, trim,
    ascii_lower,
};

verus! {

/// Bar length in seconds of a Binance kline interval (trimmed); `1M` is
/// taken as 30 days. `None` for an unknown interval.
pub open spec fn spec_interval_seconds(iv: Seq<char>) -> Option<i64> {
    let t = trimmed(iv);
    if t == "1m"@ {
        Some(60)
    } else if t == "3m"@ {
        Some(180)
    } else if t == "5m"@ {
        Some(300)
    } else if t == "15m"@ {
        Some(900)
    } else if t == "30m"@ {
        Some(1800)
    } else if t == "1h"@ || t == "60m"@ {
        Some(3600)
    } else if t == "2h"@ {
        Some(7200)
    } else if t == "4h"@ {
        Some(14400)
    } else if t == "6h"@ {
        Some(21600)
    } else if t == "8h"@ {
        Some(28800)
    } else if t == "12h"@ {
        Some(43200)
    } else if t == "1d"@ || t == "1D"@ {
        Some(86_400)
    } else if t == "3d"@ || t == "3D"@ {
        Some(259_200)
    } else if t == "1w"@ || t == "1W"@ {
        Some(604_800)
    } else if t == "1M"@ {
        Some(2_592_000)
    } else {
        None
    }
}

pub fn interval_seconds(iv: &str) -> (res: Option<i64>)
    ensures
        res == spec_interval_seconds(iv@),
{
    let t = trim(iv);
    if str_eq(t, "1m") {
        Some(60)
    } else if str_eq(t, "3m") {
        Some(180)
    } else if str_eq(t, "5m") {
        Some(300)
    } else if str_eq(t, "15m") {
        Some(900)
    } else if str_eq(t, "30m") {
        Some(1800)
    } else if str_eq(t, "1h") || str_eq(t, "60m") {
        Some(3600)
    } else if str_eq(t, "2h") {
        Some(7200)
    } else if str_eq(t, "4h") {
        Some(14400)
    } else if str_eq(t, "6h") {
        Some(21600)
    } else if str_eq(t, "8h") {
        Some(28800)
    } else if str_eq(t, "12h") {
        Some(43200)
    } else if str_eq(t, "1d") || str_eq(t, "1D") {
        Some(86_400)
    } else if str_eq(t, "3d") || str_eq(t, "3D") {
        Some(259_200)
    } else if str_eq(t, "1w") || str_eq(t, "1W") {
        Some(604_800)
    } else if str_eq(t, "1M") {
        Some(2_592_000)
    } else {
        None
    }
}

/// Seconds per timeframe unit: `s`, `m` (minute), `h`, `d` and `w`, the
/// letters other than `m` in either case; upper-case `M` is a month,
/// which is not a bar unit.
pub open spec fn unit_seconds(unit: char) -> Option<int> {
    if unit == 's' || unit == 'S' {
        Some(1)
    } else if unit == 'm' {
        Some(60)
    } else if unit == 'h' || unit == 'H' {
        Some(3_600)
    } else if unit == 'd' || unit == 'D' {
        Some(86_400)
    } else if unit == 'w' || unit == 'W' {
        Some(604_800)
    } else {
        None
    }
}

/// Duration of a timeframe label (`1m`, `15m`, `1h`, `4h`, `1d`, `1w`,
/// ...): the trimmed label is a count followed by one unit letter, and the
/// duration is the count times the unit; a missing count means one, a
/// count must otherwise be a positive integer. Any label not of that form
/// counts as one day.
pub open spec fn spec_timeframe_seconds(tf: Seq<char>) -> int {
    let t = trimmed(tf);
    if t.len() >= 1 && unit_seconds(t.last()) is Some {
        if t.len() == 1 {
            unit_seconds(t.last())->0
        } else {
            match parsed_i64(t.drop_last()) {
                Some(v) => if v >= 1 { v * unit_seconds(t.last())->0 } else { 86_400 },
                None => 86_400,
            }
        }
    } else {
        86_400
    }
}

pub fn timeframe_seconds_checked(tf: &str) -> (res: Option<i64>)
    ensures
        match res {
            Some(v) => v == spec_timeframe_seconds(tf@),
            None => !(i64::MIN <= spec_timeframe_seconds(tf@) <= i64::MAX),
        },
{
    let t = trim(tf);
    let n = t.unicode_len();
    if n == 0 {
        return Some(86_400);
    }
    let c = t.get_char(n - 1);
    let secs: i64 = if c == 's' || c == 'S' {
        1
    } else if c == 'm' {
        60
    } else if c == 'h' || c == 'H' {
        3_600
    } else if c == 'd' || c == 'D' {
        86_400
    } else if c == 'w' || c == 'W' {
        604_800
    } else {
        return Some(86_400);
    };
    if n == 1 {
        return Some(secs);
    }
    let count_text = chars_between(t, 0, n - 1);
    assert(count_text@ == t@.drop_last());
    match parse_i64(count_text.as_str()) {
        Some(v) => if v >= 1 {
            v.checked_mul(secs)
        } else {
            Some(86_400)
        },
        None => Some(86_400),
    }
}

/// Timeframe duration in seconds, for labels whose duration fits in an
/// `i64`.
pub fn timeframe_seconds(tf: &str) -> (res: i64)
    requires
        i64::MIN <= spec_timeframe_seconds(tf@) <= i64::MAX,
    ensures
        res == spec_timeframe_seconds(tf@),
{
    match timeframe_seconds_checked(tf) {
        Some(v) => v,
        None => 0,
    }
}


/// Whether the last anchor of a structure is older than `max_age_bars`
/// bars of the timeframe. Without a readable last-anchor time nothing is
/// stale. `None` when the age horizon does not fit in an `i64`.
pub open spec fn spec_anchor_too_stale(last_anchor_age_secs: Option<i64>, tf: Seq<char>, max_age_bars: i64) -> Option<bool> {
    match last_anchor_age_secs {
        None => Some(false),
        Some(age) => {
            let horizon = spec_timeframe_seconds(tf) * max_age_bars;
            if i64::MIN <= spec_timeframe_seconds(tf) <= i64::MAX && i64::MIN <= horizon
                <= i64::MAX {
                Some(age > horizon)
            } else {
                None
            }
        },
    }
}

pub fn anchor_too_stale(last_anchor_age_secs: Option<i64>, tf: &str, max_age_bars: i64) -> (res:
    Option<bool>)
    ensures
        res == spec_anchor_too_stale(last_anchor_age_secs, tf@, max_age_bars),
{
    let age = match last_anchor_age_secs {
        Some(a) => a,
        None => return Some(false),
    };
    if timeframe_seconds_checked(tf).is_none() {
        return None;
    }
    let secs = timeframe_seconds(tf);
    match secs.checked_mul(max_age_bars) {
        Some(horizon) => Some(age > horizon),
        None => None,
    }
}

/// Market-bar segment of a WebSocket segment name: the futures aliases
/// map to `futures`, everything else to `spot`.
pub open spec fn is_futures_alias(s: Seq<char>) -> bool {
    s == "future"@ || s == "futures"@ || s == "usdt_futures"@ || s == "fapi"@
}

pub fn segment_ws_db(segment: &str) -> (res: &'static str)
    ensures
        res@ == if is_futures_alias(segment@) { "futures"@ } else { "spot"@ },
{
    if str_eq(segment, "future") || str_eq(segment, "futures") || str_eq(segment, "usdt_futures")
        || str_eq(segment, "fapi") {
        "futures"
    } else {
        "spot"
    }
}

/// Which public Binance kline stream a segment subscribes to.
#[derive(Clone, Copy, Debug, PartialEq, Eq, Structural)]
pub enum KlineStream {
    /// USD-M futures streams.
    UsdM,
    Spot,
}

pub open spec fn spec_kline_stream(segment: Seq<char>) -> KlineStream {
    if is_futures_alias(segment) { KlineStream::UsdM } else { KlineStream::Spot }
}

/// The futures aliases subscribe to the USD-M stream, everything else to
/// the spot stream.
pub fn kline_stream(segment: &str) -> (res: KlineStream)
    ensures
        res == spec_kline_stream(segment@),
{
    if str_eq(segment, "future") || str_eq(segment, "futures") || str_eq(segment, "usdt_futures")
        || str_eq(segment, "fapi") {
        KlineStream::UsdM
    } else {
        KlineStream::Spot
    }
}

/// Every label, recognised or not, gives a positive bar duration, so the
/// staleness horizon grows with the bar count.
pub proof fn lemma_timeframe_seconds_positive(tf: Seq<char>)
    ensures
        spec_timeframe_seconds(tf) >= 1,
{
    let t = trimmed(tf);
    if t.len() >= 2 && unit_seconds(t.last()) is Some {
        if let Some(v) = parsed_i64(t.drop_last()) {
            if v >= 1 {
                let u = unit_seconds(t.last())->0;
                assert(u >= 1);
                assert(v * u >= 1) by (nonlinear_arith)
                    requires
                        v >= 1,
                        u >= 1,
                ;
            }
        }
    }
}

/// Bars are stored under the segment of the stream they came from: a
/// segment reads the USD-M stream exactly when its bars are stored as
/// `futures`.
pub proof fn lemma_stream_matches_stored_segment(segment: Seq<char>)
    ensures
        (spec_kline_stream(segment) == KlineStream::UsdM) <==> (if is_futures_alias(segment) {
            "futures"@
        } else {
            "spot"@
        }) == "futures"@,
{
    reveal_strlit("futures");
    reveal_strlit("spot");
    assert("spot"@.len() != "futures"@.len());
}

/// Exchange order side of a setup direction: `long` buys, anything else
/// sells.
pub fn live_side(d: &str) -> (res: &'static str)
    ensures
        res@ == if d@ == "long"@ { "BUY"@ } else { "SELL"@ },
{
    if str_eq(d, "long") {
        "BUY"
    } else {
        "SELL"
    }
}

/// Canonical market segment of a setup's `venue_class` (ASCII
/// lower-cased; the configured default when absent): perpetual venues are
/// `futures`, known segments keep their name, unknown ones fall back to
/// the default.
pub open spec fn spec_segment_from_row(venue_class: Option<Seq<char>>, default_segment: Seq<char>) -> Seq<char> {
    let raw = ascii_lower(
        match venue_class {
            Some(v) => v,
            None => default_segment,
        },
    );
    if raw == "futures"@ || raw == "perp"@ || raw == "perpetual"@ || raw == "crypto"@ {
        "futures"@
    } else if raw == "spot"@ {
        "spot"@
    } else if raw == "margin"@ {
        "margin"@
    } else if raw == "options"@ {
        "options"@
    } else {
        default_segment
    }
}

pub fn segment_from_row(venue_class: Option<&str>, default_segment: &str) -> (res: String)
    ensures
        res@ == spec_segment_from_row(
            match venue_class {
                Some(v) => Some(v@),
                None => None,
            },
            default_segment@,
        ),
{
    let raw = match venue_class {
        Some(v) => to_ascii_lowercase(v),
        None => to_ascii_lowercase(default_segment),
    };
    let r = raw.as_str();
    if str_eq(r, "futures") || str_eq(r, "perp") || str_eq(r, "perpetual") || str_eq(r, "crypto") {
        "futures".to_owned()
    } else if str_eq(r, "spot") {
        "spot".to_owned()
    } else if str_eq(r, "margin") {
        "margin".to_owned()
    } else if str_eq(r, "options") {
        "options".to_owned()
    } else {
        default_segment.to_owned()
    }
}

/// Flow type of a Nansen snapshot key whose rows are kept as raw flows.
pub open spec fn spec_source_type_for_key(k: Seq<char>) -> Option<Seq<char>> {
    if k == "nansen_netflows"@ {
        Some("netflow"@)
    } else if k == "nansen_holdings"@ {
        Some("holdings"@)
    } else if k == "nansen_smart_money_dex_trades"@ {
        Some("dex_trades"@)
    } else if k == "nansen_flow_intelligence"@ {
        Some("flow_intel"@)
    } else {
        None
    }
}

pub fn source_type_for_key(source_key: &str) -> (res: Option<&'static str>)
    ensures
        match res {
            Some(t) => spec_source_type_for_key(source_key@) == Some(t@),
            None => spec_source_type_for_key(source_key@) is None,
        },
{
    if str_eq(source_key, "nansen_netflows") {
        Some("netflow")
    } else if str_eq(source_key, "nansen_holdings") {
        Some("holdings")
    } else if str_eq(source_key, "nansen_smart_money_dex_trades") {
        Some("dex_trades")
    } else if str_eq(source_key, "nansen_flow_intelligence") {
        Some("flow_intel")
    } else {
        None
    }
}

/// Duration components as the notifications show them: seconds under a
/// minute, minutes under an hour, hours and minutes under a day, else days
/// and hours.
#[derive(Clone, Copy, Debug, PartialEq, Eq, Structural)]
pub enum DurationParts {
    Seconds(i64),
    Minutes(i64),
    HoursMinutes(i64, i64),
    DaysHours(i64, i64),
}

pub open spec fn spec_duration_parts(secs: int) -> DurationParts {
    if secs < 60 {
        DurationParts::Seconds(secs as i64)
    } else if secs < 3600 {
        DurationParts::Minutes((secs / 60) as i64)
    } else if secs < 86400 {
        DurationParts::HoursMinutes((secs / 3600) as i64, ((secs % 3600) / 60) as i64)
    } else {
        DurationParts::DaysHours((secs / 86400) as i64, ((secs % 86400) / 3600) as i64)
    }
}

pub fn duration_parts(secs: i64) -> (res: DurationParts)
    ensures
        res == spec_duration_parts(secs as int),
{
    if secs < 60 {
        DurationParts::Seconds(secs)
    } else if secs < 3600 {
        DurationParts::Minutes(secs / 60)
    } else if secs < 86400 {
        DurationParts::HoursMinutes(secs / 3600, (secs % 3600) / 60)
    } else {
        DurationParts::DaysHours(secs / 86400, (secs % 86400) / 3600)
    }
}

/// The rendered duration: `N sn`, `N dk`, `H sa M dk` or `D g H sa`.
pub open spec fn spec_fmt_duration(secs: int) -> Seq<char> {
    match spec_duration_parts(secs) {
        DurationParts::Seconds(s) => decimal_digits(s as int) + " sn"@,
        DurationParts::Minutes(m) => decimal_digits(m as int) + " dk"@,
        DurationParts::HoursMinutes(h, m) => decimal_digits(h as int) + " sa "@ + decimal_digits(
            m as int,
        ) + " dk"@,
        DurationParts::DaysHours(d, h) => decimal_digits(d as int) + " g "@ + decimal_digits(
            h as int,
        ) + " sa"@,
    }
}

pub fn fmt_duration_secs(secs: i64) -> (res: String)
    ensures
        res@ == spec_fmt_duration(secs as int),
{
    match duration_parts(secs) {
        DurationParts::Seconds(s) => concat(int_to_string(s), " sn"),
        DurationParts::Minutes(m) => concat(int_to_string(m), " dk"),
        DurationParts::HoursMinutes(h, m) => {
            let a = concat(int_to_string(h), " sa ");
            let b = concat(a, int_to_string(m).as_str());
            concat(b, " dk")
        },
        DurationParts::DaysHours(d, h) => {
            let a = concat(int_to_string(d), " g ");
            let b = concat(a, int_to_string(h).as_str());
            concat(b, " sa")
        },
    }
}


/// Bars a series should hold: the larger of the backfill progress count
/// and the bars spanned between its oldest and newest bar (span / bar
/// length + 1, with a negative span read as 0); the span counts only for a
/// known interval and both ends present.
pub open spec fn spec_expected_bars(interval: Seq<char>, span_secs: Option<i64>, progress_bars: i64) -> int {
    let span_bars: int = match (spec_interval_seconds(interval), span_secs) {
        (Some(sec), Some(span)) => if sec > 0 {
            (if span < 0 { 0 } else { span as int }) / (sec as int) + 1
        } else {
            0
        },
        _ => 0,
    };
    if progress_bars >= span_bars { progress_bars as int } else { span_bars }
}

/// `span_secs` is `newest - oldest` in seconds when both are known.
pub fn expected_bars(interval: &str, span_secs: Option<i64>, progress_bars: i64) -> (res: i64)
    ensures
        res == spec_expected_bars(interval@, span_secs, progress_bars),
{
    let span_bars: i64 = match (interval_seconds(interval), span_secs) {
        (Some(sec), Some(span)) => if sec > 0 {
            let s = if span < 0 { 0 } else { span };
            s / sec + 1
        } else {
            0
        },
        _ => 0,
    };
    if progress_bars >= span_bars { progress_bars } else { span_bars }
}

/// Bars requested from one backfill run: a thousand per page, clamped to
/// 1..=50 000.
pub fn backfill_target(pages_per_run: i64) -> (res: i64)
    requires
        i64::MIN <= pages_per_run * 1000 <= i64::MAX,
    ensures
        res == ({
            let t = pages_per_run * 1000;
            if t < 1 { 1 } else if t > 50_000 { 50_000 } else { t }
        }),
{
    let t = pages_per_run * 1000;
    if t < 1 {
        1
    } else if t > 50_000 {
        50_000
    } else {
        t
    }
}


/// `s` left-padded with `0` to at least `width` characters.
pub open spec fn zero_padded(s: Seq<char>, width: int) -> Seq<char>
    decreases width - s.len(),
{
    if s.len() >= width {
        s
    } else {
        zero_padded(seq!['0'].add(s), width)
    }
}

/// `format!("{:0width$}", n)`: zero padding after the sign.
pub open spec fn spec_zero_pad(n: int, width: int) -> Seq<char> {
    if n < 0 {
        seq!['-'].add(zero_padded(nat_digits((-n) as nat), width - 1))
    } else {
        zero_padded(nat_digits(n as nat), width)
    }
}

fn pad_zeros(s: String, width: usize) -> (res: String)
    ensures
        res@ == zero_padded(s@, width as int),
    decreases width - s@.len(),
{
    let n = s.as_str().unicode_len();
    if n >= width {
        s
    } else {
        let t = concat("0".to_owned(), s.as_str());
        proof {
            reveal_strlit("0");
            assert(t@ == seq!['0'].add(s@));
        }
        pad_zeros(t, width)
    }
}

pub fn zero_pad(n: i64, width: usize) -> (res: String)
    ensures
        res@ == spec_zero_pad(n as int, width as int),
{
    if n < 0 {
        let digits = u64_to_string((0i128 - n as i128) as u64);
        let padded = pad_zeros(digits, if width == 0 { 0 } else { width - 1 });
        proof {
            reveal_strlit("-");
        }
        concat("-".to_owned(), padded.as_str())
    } else {
        pad_zeros(int_to_string(n), width)
    }
}

/// Dedup key of an hourly snapshot: `YYYYMMDDHH` (year padded to four
/// digits, the others to two).
pub fn hour_bucket_key(year: i32, month: u32, day: u32, hour: u32) -> (res: String)
    ensures
        res@ == spec_zero_pad(year as int, 4) + spec_zero_pad(month as int, 2) + spec_zero_pad(day as int, 2)
            + spec_zero_pad(hour as int, 2),
{
    let y = zero_pad(year as i64, 4);
    let m = zero_pad(month as i64, 2);
    let d = zero_pad(day as i64, 2);
    let h = zero_pad(hour as i64, 2);
    let a = concat(y, m.as_str());
    let b = concat(a, d.as_str());
    concat(b, h.as_str())
}

/// Outbox dedup key of a setup's hourly snapshot: `hourly:<setup>:<bucket>`,
/// so one snapshot per setup and hour is queued.
pub fn hourly_dedup_key(setup_id: &str, hour_bucket: &str) -> (res: String)
    ensures
        res@ == "hourly:"@ + setup_id@ + ":"@ + hour_bucket@,
{
    let a = concat("hourly:".to_owned(), setup_id);
    let b = concat(a, ":");
    concat(b, hour_bucket)
}

/// Bar timeframes the historical pivot backfill supports.
#[derive(Clone, Copy, Debug, PartialEq, Eq, Structural)]
pub enum BarTimeframe {
    M1,
    M5,
    M15,
    M30,
    H1,
    H4,
    D1,
}

pub open spec fn spec_parse_timeframe(interval: Seq<char>) -> Option<BarTimeframe> {
    let t = lowercased(trimmed(interval));
    if t == "1m"@ {
        Some(BarTimeframe::M1)
    } else if t == "5m"@ {
        Some(BarTimeframe::M5)
    } else if t == "15m"@ {
        Some(BarTimeframe::M15)
    } else if t == "30m"@ {
        Some(BarTimeframe::M30)
    } else if t == "1h"@ {
        Some(BarTimeframe::H1)
    } else if t == "4h"@ {
        Some(BarTimeframe::H4)
    } else if t == "1d"@ {
        Some(BarTimeframe::D1)
    } else {
        None
    }
}

/// Timeframe of an interval label (trimmed, lower-cased), `None` when the
/// backfill does not support it.
pub fn parse_timeframe(interval: &str) -> (res: Option<BarTimeframe>)
    ensures
        res == spec_parse_timeframe(interval@),
{
    let l = to_lowercase(trim(interval));
    let t = l.as_str();
    if str_eq(t, "1m") {
        Some(BarTimeframe::M1)
    } else if str_eq(t, "5m") {
        Some(BarTimeframe::M5)
    } else if str_eq(t, "15m") {
        Some(BarTimeframe::M15)
    } else if str_eq(t, "30m") {
        Some(BarTimeframe::M30)
    } else if str_eq(t, "1h") {
        Some(BarTimeframe::H1)
    } else if str_eq(t, "4h") {
        Some(BarTimeframe::H4)
    } else if str_eq(t, "1d") {
        Some(BarTimeframe::D1)
    } else {
        None
    }
}

/// Venue of an exchange name: `binance` (any case) or a custom venue
/// named by the lower-cased exchange.
pub enum Venue {
    Binance,
    Custom(String),
}

pub fn venue_of(exchange: &str) -> (res: Venue)
    ensures
        match res {
            Venue::Binance => lowercased(exchange@) == "binance"@,
            Venue::Custom(name) => lowercased(exchange@) != "binance"@ && name@ == lowercased(exchange@),
        },
{
    let l = to_lowercase(exchange);
    if str_eq(l.as_str(), "binance") {
        Venue::Binance
    } else {
        Venue::Custom(l)
    }
}

/// What chrono gives for the age of an RFC 3339 time at the instant
/// `now_secs` + `now_nanos` (Unix time): the whole seconds of
/// `now.signed_duration_since(time)`; `None` when the text is not RFC 3339
/// or the instant is out of chrono's range.
pub uninterp spec fn rfc3339_age_secs(time: Seq<char>, now_secs: i64, now_nanos: u32) -> Option<i64>;

/// `DateTime::parse_from_rfc3339`, then `signed_duration_since` from the
/// instant and `num_seconds`.
#[verifier::external_body]
fn rfc3339_age(time: &str, now_secs: i64, now_nanos: u32) -> (res: Option<i64>)
    ensures
        res == rfc3339_age_secs(time@, now_secs, now_nanos),
{
    let now = match chrono::DateTime::from_timestamp(now_secs, now_nanos) {
        Some(n) => n,
        None => return None,
    };
    match chrono::DateTime::parse_from_rfc3339(time) {
        Ok(t) => Some(now.signed_duration_since(t.with_timezone(&chrono::Utc)).num_seconds()),
        Err(_) => None,
    }
}

/// Staleness of a structure from its last anchor's `time` text (if any)
/// at the instant `now_secs` + `now_nanos`: an unreadable time is never
/// stale.
pub fn last_anchor_stale(
    last_time: Option<&str>,
    now_secs: i64,
    now_nanos: u32,
    tf: &str,
    max_age_bars: i64,
) -> (res: Option<bool>)
    ensures
        res == spec_anchor_too_stale(
            match last_time {
                Some(t) => rfc3339_age_secs(t@, now_secs, now_nanos),
                None => None,
            },
            tf@,
            max_age_bars,
        ),
{
    let age = match last_time {
        Some(t) => rfc3339_age(t, now_secs, now_nanos),
        None => None,
    };
    anchor_too_stale(age, tf, max_age_bars)
}

} // verus!
