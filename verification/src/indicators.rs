//! Indicator persistence and major dip / top candidate vocabulary.

use vstd::prelude::*;
use crate::text::str_eq;

verus! {

/// Indicators persisted when `indicator_persistence.names` is not set.
pub open spec fn default_indicator_names() -> Seq<Seq<char>> {
    seq![
        "rsi"@, "ema"@, "bollinger"@, "macd"@, "atr"@, "supertrend"@, "keltner"@, "ichimoku"@,
        "donchian"@, "williams_r"@, "cmf"@, "aroon"@, "psar"@, "chandelier"@,
    ]
}

pub fn default_names() -> (res: Vec<String>)
    ensures
        res@.map_values(|s: String| s@) == default_indicator_names(),
{
    let names = [
        "rsi", "ema", "bollinger", "macd", "atr", "supertrend", "keltner", "ichimoku",
        "donchian", "williams_r", "cmf", "aroon", "psar", "chandelier",
    ];
    let mut out: Vec<String> = Vec::new();
    let mut i: usize = 0;
    while i < 14
        invariant
            i <= 14,
            names@.map_values(|s: &str| s@) == default_indicator_names(),
            out@.len() == i,
            forall|j: int| 0 <= j < i ==> #[trigger] out@[j]@ == names@[j]@,
        decreases 14 - i,
    {
        let s = names[i].to_owned();
        out.push(s);
        i = i + 1;
    }
    assert(out@.map_values(|s: String| s@) =~= names@.map_values(|s: &str| s@));
    out
}

/// Whether the candidate loop hunts major lows or major highs.
#[derive(Clone, Copy, Debug, PartialEq, Eq, Structural)]
pub enum Polarity {
    Dip,
    Top,
}

impl Polarity {
    /// Table the candidates of this polarity are written to.
    pub fn table(self) -> (res: &'static str)
        ensures
            res@ == match self {
                Polarity::Dip => "major_dip_candidates"@,
                Polarity::Top => "major_top_candidates"@,
            },
    {
        match self {
            Polarity::Dip => "major_dip_candidates",
            Polarity::Top => "major_top_candidates",
        }
    }

    /// Pivot direction hunted (`-1` lows, `+1` highs) and the price order
    /// that puts the extreme first.
    pub fn pivot_query(self) -> (res: (i16, &'static str))
        ensures
            match self {
                Polarity::Dip => res.0 == -1 && res.1@ == "ASC"@,
                Polarity::Top => res.0 == 1 && res.1@ == "DESC"@,
            },
    {
        match self {
            Polarity::Dip => (-1, "ASC"),
            Polarity::Top => (1, "DESC"),
        }
    }
}

/// Indicators the persistence loop can compute.
#[derive(Clone, Copy, Debug, PartialEq, Eq, Structural)]
pub enum IndicatorKind {
    Rsi,
    Ema,
    Bollinger,
    Macd,
    Atr,
    Supertrend,
    Keltner,
    Ichimoku,
    Donchian,
    WilliamsR,
    Cmf,
    Aroon,
    Psar,
    Chandelier,
}

/// The indicator a configured name selects; `None` for a name the loop
/// skips.
pub open spec fn spec_indicator_kind(name: Seq<char>) -> Option<IndicatorKind> {
    if name == "rsi"@ {
        Some(IndicatorKind::Rsi)
    } else if name == "ema"@ {
        Some(IndicatorKind::Ema)
    } else if name == "bollinger"@ {
        Some(IndicatorKind::Bollinger)
    } else if name == "macd"@ {
        Some(IndicatorKind::Macd)
    } else if name == "atr"@ {
        Some(IndicatorKind::Atr)
    } else if name == "supertrend"@ {
        Some(IndicatorKind::Supertrend)
    } else if name == "keltner"@ {
        Some(IndicatorKind::Keltner)
    } else if name == "ichimoku"@ {
        Some(IndicatorKind::Ichimoku)
    } else if name == "donchian"@ {
        Some(IndicatorKind::Donchian)
    } else if name == "williams_r"@ {
        Some(IndicatorKind::WilliamsR)
    } else if name == "cmf"@ {
        Some(IndicatorKind::Cmf)
    } else if name == "aroon"@ {
        Some(IndicatorKind::Aroon)
    } else if name == "psar"@ {
        Some(IndicatorKind::Psar)
    } else if name == "chandelier"@ {
        Some(IndicatorKind::Chandelier)
    } else {
        None
    }
}

pub fn indicator_kind(name: &str) -> (res: Option<IndicatorKind>)
    ensures
        res == spec_indicator_kind(name@),
{
    if str_eq(name, "rsi") {
        Some(IndicatorKind::Rsi)
    } else if str_eq(name, "ema") {
        Some(IndicatorKind::Ema)
    } else if str_eq(name, "bollinger") {
        Some(IndicatorKind::Bollinger)
    } else if str_eq(name, "macd") {
        Some(IndicatorKind::Macd)
    } else if str_eq(name, "atr") {
        Some(IndicatorKind::Atr)
    } else if str_eq(name, "supertrend") {
        Some(IndicatorKind::Supertrend)
    } else if str_eq(name, "keltner") {
        Some(IndicatorKind::Keltner)
    } else if str_eq(name, "ichimoku") {
        Some(IndicatorKind::Ichimoku)
    } else if str_eq(name, "donchian") {
        Some(IndicatorKind::Donchian)
    } else if str_eq(name, "williams_r") {
        Some(IndicatorKind::WilliamsR)
    } else if str_eq(name, "cmf") {
        Some(IndicatorKind::Cmf)
    } else if str_eq(name, "aroon") {
        Some(IndicatorKind::Aroon)
    } else if str_eq(name, "psar") {
        Some(IndicatorKind::Psar)
    } else if str_eq(name, "chandelier") {
        Some(IndicatorKind::Chandelier)
    } else {
        None
    }
}

/// Every default indicator name selects an indicator the loop computes,
/// and the fourteen default names select fourteen different indicators.
pub proof fn lemma_default_names_are_computed()
    ensures
        forall|i: int| 0 <= i < default_indicator_names().len() ==> (#[trigger] spec_indicator_kind(default_indicator_names()[i])) is Some,
        forall|i: int, j: int| 0 <= i < j < default_indicator_names().len() ==> spec_indicator_kind(#[trigger] default_indicator_names()[i]) != spec_indicator_kind(#[trigger] default_indicator_names()[j]),
{
    reveal_strlit("rsi");
    reveal_strlit("ema");
    reveal_strlit("bollinger");
    reveal_strlit("macd");
    reveal_strlit("atr");
    reveal_strlit("supertrend");
    reveal_strlit("keltner");
    reveal_strlit("ichimoku");
    reveal_strlit("donchian");
    reveal_strlit("williams_r");
    reveal_strlit("cmf");
    reveal_strlit("aroon");
    reveal_strlit("psar");
    reveal_strlit("chandelier");
    assert(default_indicator_names().len() == 14);
    assert("ema"@[0] != "rsi"@[0]);
    assert("bollinger"@.len() != "rsi"@.len());
    assert("bollinger"@.len() != "ema"@.len());
    assert("macd"@.len() != "rsi"@.len());
    assert("macd"@.len() != "ema"@.len());
    assert("macd"@.len() != "bollinger"@.len());
    assert("atr"@[0] != "rsi"@[0]);
    assert("atr"@[0] != "ema"@[0]);
    assert("atr"@.len() != "bollinger"@.len());
    assert("atr"@.len() != "macd"@.len());
    assert("supertrend"@.len() != "rsi"@.len());
    assert("supertrend"@.len() != "ema"@.len());
    assert("supertrend"@.len() != "bollinger"@.len());
    assert("supertrend"@.len() != "macd"@.len());
    assert("supertrend"@.len() != "atr"@.len());
    assert("keltner"@.len() != "rsi"@.len());
    assert("keltner"@.len() != "ema"@.len());
    assert("keltner"@.len() != "bollinger"@.len());
    assert("keltner"@.len() != "macd"@.len());
    assert("keltner"@.len() != "atr"@.len());
    assert("keltner"@.len() != "supertrend"@.len());
    assert("ichimoku"@.len() != "rsi"@.len());
    assert("ichimoku"@.len() != "ema"@.len());
    assert("ichimoku"@.len() != "bollinger"@.len());
    assert("ichimoku"@.len() != "macd"@.len());
    assert("ichimoku"@.len() != "atr"@.len());
    assert("ichimoku"@.len() != "supertrend"@.len());
    assert("ichimoku"@.len() != "keltner"@.len());
    assert("donchian"@.len() != "rsi"@.len());
    assert("donchian"@.len() != "ema"@.len());
    assert("donchian"@.len() != "bollinger"@.len());
    assert("donchian"@.len() != "macd"@.len());
    assert("donchian"@.len() != "atr"@.len());
    assert("donchian"@.len() != "supertrend"@.len());
    assert("donchian"@.len() != "keltner"@.len());
    assert("donchian"@[0] != "ichimoku"@[0]);
    assert("williams_r"@.len() != "rsi"@.len());
    assert("williams_r"@.len() != "ema"@.len());
    assert("williams_r"@.len() != "bollinger"@.len());
    assert("williams_r"@.len() != "macd"@.len());
    assert("williams_r"@.len() != "atr"@.len());
    assert("williams_r"@[0] != "supertrend"@[0]);
    assert("williams_r"@.len() != "keltner"@.len());
    assert("williams_r"@.len() != "ichimoku"@.len());
    assert("williams_r"@.len() != "donchian"@.len());
    assert("cmf"@[0] != "rsi"@[0]);
    assert("cmf"@[0] != "ema"@[0]);
    assert("cmf"@.len() != "bollinger"@.len());
    assert("cmf"@.len() != "macd"@.len());
    assert("cmf"@[0] != "atr"@[0]);
    assert("cmf"@.len() != "supertrend"@.len());
    assert("cmf"@.len() != "keltner"@.len());
    assert("cmf"@.len() != "ichimoku"@.len());
    assert("cmf"@.len() != "donchian"@.len());
    assert("cmf"@.len() != "williams_r"@.len());
    assert("aroon"@.len() != "rsi"@.len());
    assert("aroon"@.len() != "ema"@.len());
    assert("aroon"@.len() != "bollinger"@.len());
    assert("aroon"@.len() != "macd"@.len());
    assert("aroon"@.len() != "atr"@.len());
    assert("aroon"@.len() != "supertrend"@.len());
    assert("aroon"@.len() != "keltner"@.len());
    assert("aroon"@.len() != "ichimoku"@.len());
    assert("aroon"@.len() != "donchian"@.len());
    assert("aroon"@.len() != "williams_r"@.len());
    assert("aroon"@.len() != "cmf"@.len());
    assert("psar"@.len() != "rsi"@.len());
    assert("psar"@.len() != "ema"@.len());
    assert("psar"@.len() != "bollinger"@.len());
    assert("psar"@[0] != "macd"@[0]);
    assert("psar"@.len() != "atr"@.len());
    assert("psar"@.len() != "supertrend"@.len());
    assert("psar"@.len() != "keltner"@.len());
    assert("psar"@.len() != "ichimoku"@.len());
    assert("psar"@.len() != "donchian"@.len());
    assert("psar"@.len() != "williams_r"@.len());
    assert("psar"@.len() != "cmf"@.len());
    assert("psar"@.len() != "aroon"@.len());
    assert("chandelier"@.len() != "rsi"@.len());
    assert("chandelier"@.len() != "ema"@.len());
    assert("chandelier"@.len() != "bollinger"@.len());
    assert("chandelier"@.len() != "macd"@.len());
    assert("chandelier"@.len() != "atr"@.len());
    assert("chandelier"@[0] != "supertrend"@[0]);
    assert("chandelier"@.len() != "keltner"@.len());
    assert("chandelier"@.len() != "ichimoku"@.len());
    assert("chandelier"@.len() != "donchian"@.len());
    assert("chandelier"@[0] != "williams_r"@[0]);
    assert("chandelier"@.len() != "cmf"@.len());
    assert("chandelier"@.len() != "aroon"@.len());
    assert("chandelier"@.len() != "psar"@.len());
    assert(spec_indicator_kind(default_indicator_names()[0]) == Some(IndicatorKind::Rsi));
    assert(spec_indicator_kind(default_indicator_names()[1]) == Some(IndicatorKind::Ema));
    assert(spec_indicator_kind(default_indicator_names()[2]) == Some(IndicatorKind::Bollinger));
    assert(spec_indicator_kind(default_indicator_names()[3]) == Some(IndicatorKind::Macd));
    assert(spec_indicator_kind(default_indicator_names()[4]) == Some(IndicatorKind::Atr));
    assert(spec_indicator_kind(default_indicator_names()[5]) == Some(IndicatorKind::Supertrend));
    assert(spec_indicator_kind(default_indicator_names()[6]) == Some(IndicatorKind::Keltner));
    assert(spec_indicator_kind(default_indicator_names()[7]) == Some(IndicatorKind::Ichimoku));
    assert(spec_indicator_kind(default_indicator_names()[8]) == Some(IndicatorKind::Donchian));
    assert(spec_indicator_kind(default_indicator_names()[9]) == Some(IndicatorKind::WilliamsR));
    assert(spec_indicator_kind(default_indicator_names()[10]) == Some(IndicatorKind::Cmf));
    assert(spec_indicator_kind(default_indicator_names()[11]) == Some(IndicatorKind::Aroon));
    assert(spec_indicator_kind(default_indicator_names()[12]) == Some(IndicatorKind::Psar));
    assert(spec_indicator_kind(default_indicator_names()[13]) == Some(IndicatorKind::Chandelier));
}

} // verus!
