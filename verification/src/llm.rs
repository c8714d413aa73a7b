//! LLM setup judge: extracting the JSON payload from a model reply and
//! validating its verdict.

use vstd::prelude::*;
use vstd::string::StrSliceExecFns;
use crate::json::{json_string_field, string_field_of};
use crate::text::{is_prefix, is_suffix, occurs_at, trimmed, chars_between, matches_at, starts_with, str_eq, trim};

verus! {

/// `s` with every leading copy of `p` removed (`str::trim_start_matches`).
pub open spec fn strip_prefix_all(s: Seq<char>, p: Seq<char>) -> Seq<char>
    decreases s.len(),
{
    if p.len() > 0 && is_prefix(p, s) {
        strip_prefix_all(s.skip(p.len() as int), p)
    } else {
        s
    }
}

/// `s` with every trailing copy of `p` removed (`str::trim_end_matches`).
pub open spec fn strip_suffix_all(s: Seq<char>, p: Seq<char>) -> Seq<char>
    decreases s.len(),
{
    if p.len() > 0 && is_suffix(p, s) {
        strip_suffix_all(s.take(s.len() - p.len()), p)
    } else {
        s
    }
}

/// The JSON text of a reply: the trimmed reply, and when it opens a
/// Markdown code fence, its content with leading ```` ```json ```` and
/// ```` ``` ```` markers and trailing ```` ``` ```` markers removed, trimmed
/// again.
pub open spec fn fence_payload(text: Seq<char>) -> Seq<char> {
    let t = trimmed(text);
    if is_prefix("```"@, t) {
        trimmed(strip_suffix_all(strip_prefix_all(strip_prefix_all(t, "```json"@), "```"@), "```"@))
    } else {
        t
    }
}

/// Start of `t[lo..hi]` after removing leading copies of `p`.
fn skip_leading(t: &str, lo: usize, hi: usize, p: &str) -> (res: usize)
    requires
        lo <= hi <= t@.len(),
        p@.len() > 0,
    ensures
        lo <= res <= hi,
        t@.subrange(res as int, hi as int) == strip_prefix_all(t@.subrange(lo as int, hi as int), p@),
    decreases hi - lo,
{
    let m = p.unicode_len();
    let ghost s = t@.subrange(lo as int, hi as int);
    if m <= hi - lo && matches_at(t, lo, p) {
        assert(is_prefix(p@, s)) by {
            assert(s.subrange(0, m as int) =~= t@.subrange(lo as int, lo + m));
        }
        assert(s.skip(m as int) =~= t@.subrange(lo + m, hi as int));
        skip_leading(t, lo + m, hi, p)
    } else {
        assert(!is_prefix(p@, s)) by {
            if is_prefix(p@, s) {
                assert(s.subrange(0, m as int) =~= t@.subrange(lo as int, lo + m));
            }
        }
        lo
    }
}

/// End of `t[lo..hi]` after removing trailing copies of `p`.
fn skip_trailing(t: &str, lo: usize, hi: usize, p: &str) -> (res: usize)
    requires
        lo <= hi <= t@.len(),
        p@.len() > 0,
    ensures
        lo <= res <= hi,
        t@.subrange(lo as int, res as int) == strip_suffix_all(t@.subrange(lo as int, hi as int), p@),
    decreases hi - lo,
{
    let m = p.unicode_len();
    let ghost s = t@.subrange(lo as int, hi as int);
    if m <= hi - lo && matches_at(t, hi - m, p) {
        assert(is_suffix(p@, s)) by {
            assert(s.subrange(s.len() - m, s.len() as int) =~= t@.subrange(hi - m, hi as int));
        }
        assert(s.take(s.len() - m) =~= t@.subrange(lo as int, hi - m));
        skip_trailing(t, lo, hi - m, p)
    } else {
        assert(!is_suffix(p@, s)) by {
            if is_suffix(p@, s) {
                assert(s.subrange(s.len() - m, s.len() as int) =~= t@.subrange(hi - m, hi as int));
            }
        }
        hi
    }
}

/// Strips an optional Markdown code fence from a model reply.
pub fn fence_stripped(text: &str) -> (res: String)
    ensures
        res@ == fence_payload(text@),
{
    let t = trim(text);
    if !starts_with(t, "```") {
        return t.to_owned();
    }
    proof {
        reveal_strlit("```json");
        reveal_strlit("```");
    }
    let n = t.unicode_len();
    assert(t@.subrange(0, n as int) =~= t@);
    let a = skip_leading(t, 0, n, "```json");
    let b = skip_leading(t, a, n, "```");
    let c = skip_trailing(t, b, n, "```");
    let inner = chars_between(t, b, c);
    trim(inner.as_str()).to_owned()
}

/// Verdict of the judge.
#[derive(Clone, Copy, Debug, PartialEq, Eq, Structural)]
pub enum Verdict {
    Pass,
    Block,
    Abstain,
}

/// The reply's `verdict` field: missing means abstain; anything but
/// `pass`, `block` or `abstain` is rejected.
pub open spec fn spec_verdict(v: Option<Seq<char>>) -> Option<Verdict> {
    match v {
        None => Some(Verdict::Abstain),
        Some(s) => if s == "pass"@ {
            Some(Verdict::Pass)
        } else if s == "block"@ {
            Some(Verdict::Block)
        } else if s == "abstain"@ {
            Some(Verdict::Abstain)
        } else {
            None
        },
    }
}

pub fn parse_verdict(v: Option<&str>) -> (res: Option<Verdict>)
    ensures
        res == spec_verdict(match v { Some(s) => Some(s@), None => None }),
{
    match v {
        None => Some(Verdict::Abstain),
        Some(s) => if str_eq(s, "pass") {
            Some(Verdict::Pass)
        } else if str_eq(s, "block") {
            Some(Verdict::Block)
        } else if str_eq(s, "abstain") {
            Some(Verdict::Abstain)
        } else {
            None
        },
    }
}

impl Verdict {
    pub fn as_str(&self) -> (res: &'static str)
        ensures
            res@ == match self {
                Verdict::Pass => "pass"@,
                Verdict::Block => "block"@,
                Verdict::Abstain => "abstain"@,
            },
    {
        match self {
            Verdict::Pass => "pass",
            Verdict::Block => "block",
            Verdict::Abstain => "abstain",
        }
    }
}

/// Why a model reply was refused.
#[derive(Clone, Copy, Debug, PartialEq, Eq, Structural)]
pub enum ReplyError {
    /// The payload inside the optional code fence is not JSON.
    NotJson,
    /// The `verdict` field is a string other than `pass`, `block` or
    /// `abstain`.
    InvalidVerdict,
}

/// The verdict of a model reply: the fenced payload must parse as JSON;
/// a missing or non-string `verdict` abstains; any other string than the
/// three verdicts is refused.
pub open spec fn spec_reply_verdict(text: Seq<char>) -> Result<Verdict, ReplyError> {
    match json_string_field(fence_payload(text), "verdict"@) {
        None => Err(ReplyError::NotJson),
        Some(v) => match spec_verdict(v) {
            Some(d) => Ok(d),
            None => Err(ReplyError::InvalidVerdict),
        },
    }
}

pub fn parse_llm_reply(text: &str) -> (res: Result<Verdict, ReplyError>)
    ensures
        res == spec_reply_verdict(text@),
{
    let payload = fence_stripped(text);
    match string_field_of(payload.as_str(), "verdict") {
        None => Err(ReplyError::NotJson),
        Some(field) => {
            let v = match &field {
                Some(s) => parse_verdict(Some(s.as_str())),
                None => parse_verdict(None),
            };
            match v {
                Some(d) => Ok(d),
                None => Err(ReplyError::InvalidVerdict),
            }
        },
    }
}

/// The reply's `reasoning` text, empty when the payload has none.
pub open spec fn spec_reply_reasoning(text: Seq<char>) -> Seq<char> {
    match json_string_field(fence_payload(text), "reasoning"@) {
        Some(Some(r)) => r,
        _ => Seq::empty(),
    }
}

pub fn reply_reasoning(text: &str) -> (res: String)
    ensures
        res@ == spec_reply_reasoning(text@),
{
    let payload = fence_stripped(text);
    match string_field_of(payload.as_str(), "reasoning") {
        Some(Some(r)) => r,
        _ => String::new(),
    }
}

} // verus!
