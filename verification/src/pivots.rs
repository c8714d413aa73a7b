//! Zig-zag pivot bookkeeping: slot lengths, swing tags and the alternation
//! rule of harmonic XABCD windows.

use vstd::prelude::*;
use crate::text::{concat};

verus! {

/// Per-slot zig-zag configuration.
pub struct SlotCfg {
    pub length: u32,
}

/// Placeholder slot configuration (length 3), kept for per-slot overrides.
pub fn _unused_slot_cfg_anchor() -> (res: SlotCfg)
    ensures
        res.length == 3,
{
    SlotCfg { length: 3 }
}

/// Default zig-zag lengths of the five slots (Fibonacci 3, 5, 8, 13, 21).
pub open spec fn default_slot_length(i: int) -> u32 {
    if i == 0 {
        3
    } else if i == 1 {
        5
    } else if i == 2 {
        8
    } else if i == 3 {
        13
    } else {
        21
    }
}

/// Slot lengths after the `zigzag.slot_<i>` overrides: an override of at
/// least 1 replaces the default (0 counts as 1), cast to `u32`.
pub open spec fn spec_slot_length(i: int, over: Option<u64>) -> u32 {
    match over {
        Some(len) => (if len < 1 { 1u64 } else { len }) as u32,
        None => default_slot_length(i),
    }
}

pub fn slot_lengths(overrides: &[Option<u64>; 5]) -> (res: [u32; 5])
    ensures
        forall|i: int| 0 <= i < 5 ==> #[trigger] res@[i] == spec_slot_length(i, overrides@[i]),
{
    let mut out: [u32; 5] = [3, 5, 8, 13, 21];
    let mut i: usize = 0;
    while i < 5
        invariant
            i <= 5,
            forall|j: int| 0 <= j < i ==> #[trigger] out@[j] == spec_slot_length(j, overrides@[j]),
            forall|j: int| i <= j < 5 ==> #[trigger] out@[j] == default_slot_length(j),
        decreases 5 - i,
    {
        match overrides[i] {
            Some(len) => {
                let l = if len < 1 { 1u64 } else { len };
                out[i] = l as u32;
            },
            None => {},
        }
        i = i + 1;
    }
    out
}

/// Price of a pivot against the previous same-direction pivot.
#[derive(Clone, Copy, Debug, PartialEq, Eq, Structural)]
pub enum PriceMove {
    Lower,
    Same,
    Higher,
}

/// Swing classification of a pivot against the previous pivot of its
/// direction.
#[derive(Clone, Copy, Debug, PartialEq, Eq, Structural)]
pub enum SwingTag {
    HH,
    LH,
    LL,
    HL,
}

impl SwingTag {
    pub fn as_str(&self) -> (res: &'static str)
        ensures
            res@ == match self {
                SwingTag::HH => "HH"@,
                SwingTag::LH => "LH"@,
                SwingTag::LL => "LL"@,
                SwingTag::HL => "HL"@,
            },
    {
        match self {
            SwingTag::HH => "HH",
            SwingTag::LH => "LH",
            SwingTag::LL => "LL",
            SwingTag::HL => "HL",
        }
    }
}

/// A high (`direction == 1`) at or above the previous high is HH, below it
/// LH; a low at or below the previous low is LL, above it HL. No tag
/// without a previous pivot of the same direction.
pub open spec fn spec_swing_tag(direction: i8, prev: Option<(i8, PriceMove)>) -> Option<SwingTag> {
    match prev {
        None => None,
        Some((pdir, mv)) => if pdir != direction {
            None
        } else if direction == 1 {
            Some(if mv != PriceMove::Lower { SwingTag::HH } else { SwingTag::LH })
        } else {
            Some(if mv != PriceMove::Higher { SwingTag::LL } else { SwingTag::HL })
        },
    }
}

/// `prev` carries the previous pivot's direction and how this pivot's
/// price compares with it.
pub fn swing_tag_for(direction: i8, prev: Option<(i8, PriceMove)>) -> (res: Option<SwingTag>)
    ensures
        res == spec_swing_tag(direction, prev),
{
    let (pdir, mv) = match prev {
        Some(p) => p,
        None => return None,
    };
    if pdir != direction {
        return None;
    }
    if direction == 1 {
        Some(
            match mv {
                PriceMove::Lower => SwingTag::LH,
                _ => SwingTag::HH,
            },
        )
    } else {
        Some(
            match mv {
                PriceMove::Higher => SwingTag::HL,
                _ => SwingTag::LL,
            },
        )
    }
}

/// Highs are only ever tagged HH or LH and lows LL or HL, and a tag needs a
/// previous pivot of the same direction; an equal price continues the
/// trend (HH for highs, LL for lows).
pub proof fn lemma_swing_tags_follow_direction(direction: i8, prev: Option<(i8, PriceMove)>)
    ensures
        spec_swing_tag(direction, prev) matches Some(t) ==> (prev matches Some(p) && p.0 == direction),
        spec_swing_tag(direction, prev) matches Some(t) ==> (direction == 1 <==> (t == SwingTag::HH || t == SwingTag::LH)),
        prev matches Some(p) && p.0 == direction && p.1 == PriceMove::Same ==> spec_swing_tag(direction, prev) == Some(
            if direction == 1 { SwingTag::HH } else { SwingTag::LL },
        ),
{
}

pub open spec fn sign(x: i16) -> int {
    if x > 0 {
        1
    } else if x < 0 {
        -1
    } else {
        0
    }
}

/// Adjacent pivots of the window alternate in sign.
pub open spec fn spec_alternates(dirs: Seq<i16>) -> bool {
    forall|i: int| 0 <= i < dirs.len() - 1 ==> sign(#[trigger] dirs[i]) != sign(dirs[i + 1])
}

pub fn alternation_ok(directions: &[i16]) -> (res: bool)
    ensures
        res == spec_alternates(directions@),
{
    let n = directions.len();
    if n < 2 {
        return true;
    }
    let mut i: usize = 0;
    while i + 1 < n
        invariant
            n == directions@.len(),
            n >= 2,
            i + 1 <= n,
            forall|j: int| 0 <= j < i ==> sign(#[trigger] directions@[j]) != sign(directions@[j + 1]),
        decreases n - i,
    {
        let a = directions[i];
        let b = directions[i + 1];
        let sa: i8 = if a > 0 { 1 } else if a < 0 { -1 } else { 0 };
        let sb: i8 = if b > 0 { 1 } else if b < 0 { -1 } else { 0 };
        if sa == sb {
            return false;
        }
        i = i + 1;
    }
    true
}

/// Harmonic window orientation: a window that starts at a low is bullish
/// (`+1`), one that starts at a high bearish (`-1`); the subkind is the
/// pattern name with `_bull` / `_bear`.
pub fn harmonic_subkind(pattern_name: &str, first_direction: i16) -> (res: (i16, String))
    ensures
        res.0 == if first_direction < 0 { 1int } else { -1int },
        res.1@ == pattern_name@ + if first_direction < 0 { "_bull"@ } else { "_bear"@ },
{
    if first_direction < 0 {
        (1, concat(pattern_name.to_owned(), "_bull"))
    } else {
        (-1, concat(pattern_name.to_owned(), "_bear"))
    }
}

/// The tag follows the price: a high is HH exactly when it is not below
/// the previous high (LH otherwise), a low is LL exactly when it is not
/// above the previous low (HL otherwise); a higher price never gets a
/// lower tag than an equal or lower one.
pub proof fn lemma_swing_tag_follows_price(direction: i8, mv: PriceMove, mv2: PriceMove)
    ensures
        direction == 1 ==> (spec_swing_tag(direction, Some((direction, mv))) == Some(SwingTag::HH)
            <==> mv == PriceMove::Higher || mv == PriceMove::Same),
        direction == 1 ==> (spec_swing_tag(direction, Some((direction, mv))) == Some(SwingTag::LH)
            <==> mv == PriceMove::Lower),
        direction != 1 ==> (spec_swing_tag(direction, Some((direction, mv))) == Some(SwingTag::LL)
            <==> mv == PriceMove::Lower || mv == PriceMove::Same),
        direction != 1 ==> (spec_swing_tag(direction, Some((direction, mv))) == Some(SwingTag::HL)
            <==> mv == PriceMove::Higher),
        direction == 1 && mv == PriceMove::Higher && spec_swing_tag(direction, Some((direction, mv2)))
            == Some(SwingTag::HH) ==> spec_swing_tag(direction, Some((direction, mv))) == Some(
            SwingTag::HH,
        ),
        direction != 1 && mv == PriceMove::Lower && spec_swing_tag(direction, Some((direction, mv2)))
            == Some(SwingTag::LL) ==> spec_swing_tag(direction, Some((direction, mv))) == Some(
            SwingTag::LL,
        ),
{
}

} // verus!
