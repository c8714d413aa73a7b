//! Daily-loss kill switch: the process-wide trading halt flag, kept in
//! step with the `kill_switch_trading_halted` row of `app_config`.

use vstd::prelude::*;
use crate::decimal::{
    dec_div, dec_less, dec_lt, dec_mul, dec_neg, dec_parse, decimal_parsed, decimal_product,
    decimal_quotient, negate, whole, Dec,
};
use crate::text::{trim, trimmed};

verus! {

/// What the kill switch learns on one of its paths.
#[derive(Clone, Copy, Debug, PartialEq, Eq, Structural)]
pub enum KillSwitchEvent {
    /// Worker start: the stored flag, if it could be read as a boolean.
    Startup { stored: Option<bool> },
    /// Periodic sync with `app_config`: the stored flag, if readable.
    DbSync { stored: Option<bool> },
    /// Periodic P&L poll: whether today's realised P&L is below the
    /// (negative) trigger, `None` when the sum could not be read.
    PnlPoll { below_trigger: Option<bool> },
}

/// Outcome of one event: the new halt flag and whether `halted = true`
/// must be written back to `app_config`.
#[derive(Clone, Copy, Debug, PartialEq, Eq, Structural)]
pub struct KillSwitchStep {
    pub halted: bool,
    pub persist_halt: bool,
}

pub open spec fn spec_kill_switch_step(halted: bool, ev: KillSwitchEvent) -> KillSwitchStep {
    match ev {
        KillSwitchEvent::Startup { stored } => KillSwitchStep {
            halted: halted || stored == Some(true),
            persist_halt: false,
        },
        KillSwitchEvent::DbSync { stored } => KillSwitchStep {
            halted: match stored {
                Some(v) => v,
                None => halted,
            },
            persist_halt: false,
        },
        KillSwitchEvent::PnlPoll { below_trigger } => if halted {
            KillSwitchStep { halted: true, persist_halt: false }
        } else if below_trigger == Some(true) {
            KillSwitchStep { halted: true, persist_halt: true }
        } else {
            KillSwitchStep { halted: false, persist_halt: false }
        },
    }
}

/// Applies one event to the halt flag: a stored `true` at start-up halts;
/// the sync loop makes the flag follow the stored value (clearing only on
/// a stored `false`); the P&L poll halts, and asks to persist the halt,
/// when the day's realised P&L falls below the trigger, and does nothing
/// while already halted.
pub fn kill_switch_step(halted: bool, ev: KillSwitchEvent) -> (res: KillSwitchStep)
    ensures
        res == spec_kill_switch_step(halted, ev),
{
    match ev {
        KillSwitchEvent::Startup { stored } => {
            let h = match stored {
                Some(true) => true,
                _ => halted,
            };
            KillSwitchStep { halted: h, persist_halt: false }
        },
        KillSwitchEvent::DbSync { stored } => {
            let h = match stored {
                Some(false) => if halted {
                    false
                } else {
                    halted
                },
                Some(true) => if !halted {
                    true
                } else {
                    halted
                },
                None => halted,
            };
            KillSwitchStep { halted: h, persist_halt: false }
        },
        KillSwitchEvent::PnlPoll { below_trigger } => {
            if halted {
                return KillSwitchStep { halted: true, persist_halt: false };
            }
            match below_trigger {
                Some(true) => KillSwitchStep { halted: true, persist_halt: true },
                _ => KillSwitchStep { halted: false, persist_halt: false },
            }
        },
    }
}

/// A decimal environment value: trimmed and parsed, `default` when it is
/// unset or does not parse.
pub open spec fn env_decimal_or(raw: Option<&str>, default: Dec) -> Dec {
    match raw {
        Some(s) => match decimal_parsed(trimmed(s@)) {
            Some(v) => v,
            None => default,
        },
        None => default,
    }
}

/// A decimal environment value, trimmed and parsed; `None` when it is
/// unset or does not parse.
pub open spec fn env_decimal(raw: Option<&str>) -> Option<Dec> {
    match raw {
        Some(s) => decimal_parsed(trimmed(s@)),
        None => None,
    }
}

/// The (negative) daily P&L trigger: `-(equity * pct / 100)` when the
/// drawdown percentage parses to a positive number and the reference
/// equity is set and parses; in every other case `-daily_loss` (default
/// 1 000 000). `None` where the Decimal arithmetic overflows.
pub open spec fn spec_effective_trigger_neg(
    drawdown_pct: Option<&str>,
    reference_equity: Option<&str>,
    daily_loss: Option<&str>,
) -> Option<Dec> {
    let pct = env_decimal(drawdown_pct);
    let equity = env_decimal(reference_equity);
    if pct matches Some(p) && p.mantissa > 0 && equity is Some {
        match decimal_product(equity->0, pct->0) {
            Some(x) => match decimal_quotient(x, whole(100)) {
                Some(loss) => Some(dec_neg(loss)),
                None => None,
            },
            None => None,
        }
    } else {
        Some(dec_neg(env_decimal_or(daily_loss, whole(1_000_000))))
    }
}

fn read_env_decimal(raw: Option<&str>) -> (res: Option<Dec>)
    ensures
        res == env_decimal(raw),
        res matches Some(v) ==> v.wf(),
{
    match raw {
        Some(s) => dec_parse(trim(s)),
        None => None,
    }
}

/// The trigger from the raw environment values of
/// `QTSS_MAX_DRAWDOWN_PCT`, `QTSS_KILL_SWITCH_REFERENCE_EQUITY_USDT` and
/// `QTSS_KILL_SWITCH_DAILY_LOSS_USDT`.
pub fn effective_trigger_neg(
    drawdown_pct: Option<&str>,
    reference_equity: Option<&str>,
    daily_loss: Option<&str>,
) -> (res: Option<Dec>)
    ensures
        res == spec_effective_trigger_neg(drawdown_pct, reference_equity, daily_loss),
{
    let pct = read_env_decimal(drawdown_pct);
    let equity = read_env_decimal(reference_equity);
    if let (Some(p), Some(e)) = (pct, equity) {
        if p.mantissa > 0 {
            return match dec_mul(e, p) {
                Some(x) => match dec_div(x, Dec { mantissa: 100, scale: 0 }) {
                    Some(loss) => Some(negate(loss)),
                    None => None,
                },
                None => None,
            };
        }
    }
    let daily = match read_env_decimal(daily_loss) {
        Some(v) => v,
        None => Dec { mantissa: 1_000_000, scale: 0 },
    };
    Some(negate(daily))
}

/// Whether today's realised P&L is below the trigger, compared as
/// numbers.
pub fn below_trigger(realized_pnl: Dec, trigger: Dec) -> (res: bool)
    requires
        realized_pnl.wf(),
        trigger.wf(),
    ensures
        res == dec_less(realized_pnl, trigger),
{
    dec_lt(realized_pnl, trigger)
}

/// Only an operator (through the stored flag) lifts a halt: neither the
/// start-up path nor the P&L poll ever clears it, a sync leaves the flag
/// equal to the stored value, and a write-back is requested only when the
/// poll newly halts trading.
pub proof fn lemma_halt_is_sticky(halted: bool, ev: KillSwitchEvent)
    ensures
        halted && !(ev is DbSync) ==> spec_kill_switch_step(halted, ev).halted,
        ev matches KillSwitchEvent::DbSync { stored } ==> (stored matches Some(v)
            ==> spec_kill_switch_step(halted, ev).halted == v),
        spec_kill_switch_step(halted, ev).persist_halt ==> !halted && spec_kill_switch_step(
            halted,
            ev,
        ).halted && ev is PnlPoll,
{
}

/// On a P&L poll while trading is not halted, the switch halts, and asks
/// for the halt to be persisted, exactly when today's realised P&L is
/// known to be below the trigger; a P&L above it, or an unreadable one,
/// leaves trading on and persists nothing.
pub proof fn lemma_poll_halts_only_below_trigger(below_trigger: Option<bool>)
    ensures
        spec_kill_switch_step(false, KillSwitchEvent::PnlPoll { below_trigger }).halted
            <==> below_trigger == Some(true),
        spec_kill_switch_step(false, KillSwitchEvent::PnlPoll { below_trigger }).persist_halt
            <==> below_trigger == Some(true),
{
}

/// At start-up a stored `true` halts and nothing else changes the flag;
/// no path but a newly halting P&L poll ever asks for a write-back.
pub proof fn lemma_startup_keeps_or_halts(halted: bool, stored: Option<bool>)
    ensures
        spec_kill_switch_step(halted, KillSwitchEvent::Startup { stored }).halted == (halted
            || stored == Some(true)),
        !spec_kill_switch_step(halted, KillSwitchEvent::Startup { stored }).persist_halt,
        !spec_kill_switch_step(halted, KillSwitchEvent::DbSync { stored }).persist_halt,
        stored is None ==> spec_kill_switch_step(halted, KillSwitchEvent::DbSync { stored }).halted
            == halted,
{
}

} // verus!
