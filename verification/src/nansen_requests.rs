//! Which request body each Nansen call sends: a stored or environment
//! body when it is usable, the built-in default otherwise.

use vstd::prelude::*;
use vstd::string::StrSliceExecFns;
use crate::json::{
    array_len_of, json_array_len, json_is_object, json_parses, parses_as_json, parses_as_object,
};
use crate::text::{trim, trimmed};

verus! {

/// Where the token-screener request body comes from.
#[derive(Clone, Copy, Debug, PartialEq, Eq, Structural)]
pub enum ScreenerBody {
    /// The `app_config` row.
    Stored,
    /// `NANSEN_TOKEN_SCREENER_REQUEST_JSON`.
    Env,
    /// The built-in default body.
    Default,
}

/// A stored body is usable when it holds a non-empty `chains` array.
pub open spec fn usable_stored_body(stored: Option<&str>) -> bool {
    stored is Some && (json_array_len(stored->0@, "chains"@) matches Some(n) && n > 0)
}

/// The stored body when usable, else the environment body when it is
/// non-blank and parses as JSON, else the default.
pub open spec fn spec_screener_body_source(stored: Option<&str>, env_raw: Option<&str>) -> ScreenerBody {
    if usable_stored_body(stored) {
        ScreenerBody::Stored
    } else if env_raw is Some && trimmed(env_raw->0@).len() > 0 && json_parses(env_raw->0@) {
        ScreenerBody::Env
    } else {
        ScreenerBody::Default
    }
}

/// `stored` is the `app_config` value as JSON text, `env_raw` the raw
/// `NANSEN_TOKEN_SCREENER_REQUEST_JSON`.
pub fn screener_body_source(stored: Option<&str>, env_raw: Option<&str>) -> (res: ScreenerBody)
    ensures
        res == spec_screener_body_source(stored, env_raw),
{
    if let Some(s) = stored {
        if let Some(n) = array_len_of(s, "chains") {
            if n > 0 {
                return ScreenerBody::Stored;
            }
        }
    }
    if let Some(e) = env_raw {
        if trim(e).unicode_len() > 0 && parses_as_json(e) {
            return ScreenerBody::Env;
        }
    }
    ScreenerBody::Default
}

/// The smart-money `chains` value: the trimmed
/// `NANSEN_SMART_MONEY_CHAINS_JSON` when it parses as JSON, `None` for the
/// default `["all"]`.
pub fn smart_money_chains_text(raw: Option<&str>) -> (res: Option<&str>)
    ensures
        match res {
            Some(t) => raw is Some && t@ == trimmed(raw->0@) && json_parses(t@),
            None => !(raw is Some && json_parses(trimmed(raw->0@))),
        },
{
    match raw {
        Some(s) => {
            let t = trim(s);
            if parses_as_json(t) {
                Some(t)
            } else {
                None
            }
        },
        None => None,
    }
}

/// Where the who-bought-sold request body comes from.
#[derive(Clone, Copy, Debug, PartialEq, Eq, Structural)]
pub enum WhoBoughtBody {
    /// `NANSEN_WHO_BOUGHT_BODY_JSON`, a JSON object.
    FromEnv,
    /// Built from `NANSEN_WHO_BOUGHT_TOKEN_ADDRESS` and the chain.
    ChainAndToken,
    /// No usable configuration: the call is skipped.
    Missing,
}

pub open spec fn spec_who_bought_body(body_json: Option<&str>, token: Option<&str>) -> WhoBoughtBody {
    if body_json is Some && json_is_object(trimmed(body_json->0@)) {
        WhoBoughtBody::FromEnv
    } else if token is Some && trimmed(token->0@).len() > 0 {
        WhoBoughtBody::ChainAndToken
    } else {
        WhoBoughtBody::Missing
    }
}

/// The full environment body when it is a JSON object, else a body from
/// the token address when one is set, else none.
pub fn who_bought_body_source(body_json: Option<&str>, token: Option<&str>) -> (res: WhoBoughtBody)
    ensures
        res == spec_who_bought_body(body_json, token),
{
    if let Some(b) = body_json {
        if parses_as_object(trim(b)) {
            return WhoBoughtBody::FromEnv;
        }
    }
    if let Some(t) = token {
        if trim(t).unicode_len() > 0 {
            return WhoBoughtBody::ChainAndToken;
        }
    }
    WhoBoughtBody::Missing
}

/// Whether `NANSEN_PERP_LEADERBOARD_BODY_JSON` (trimmed) is a JSON object
/// and is sent as the whole leaderboard body.
pub fn leaderboard_body_from_env(raw: Option<&str>) -> (res: bool)
    ensures
        res == (raw is Some && json_is_object(trimmed(raw->0@))),
{
    match raw {
        Some(s) => parses_as_object(trim(s)),
        None => false,
    }
}

} // verus!
