//! The strategy and risk runners' decision cores: which lifecycle hook each
//! quotation event drives, and when each runner exits.
use vstd::prelude::*;

use crate::hub::TaskTarget;
use crate::ids::get_id;
use crate::quot::QuotData;
use crate::signal::{Signal, SignalSource};

verus! {

/// The strategy lifecycle hooks an event can drive.
#[derive(Clone, Copy, Debug, PartialEq, Eq, Structural)]
pub enum Hook {
    Open,
    Close,
    OnQuot,
}

/// The hook a quotation event drives on a strategy: opens on the stream start
/// and the session opens, closes on the session closes and the stream end,
/// and the bar hook on bars.
pub fn strategy_hook(q: &QuotData) -> (r: Hook)
    ensures
        (q matches QuotData::QuotStart(_) || q matches QuotData::MorningStart(_) || q
            matches QuotData::NoonStart(_)) ==> r is Open,
        (q matches QuotData::MorningEnd(_) || q matches QuotData::NoonEnd(_) || q
            matches QuotData::QuotEnd(_)) ==> r is Close,
        q matches QuotData::Quot(_) ==> r is OnQuot,
{
    match q {
        QuotData::Quot(_) => Hook::OnQuot,
        QuotData::QuotStart(_) | QuotData::MorningStart(_) | QuotData::NoonStart(_) => Hook::Open,
        QuotData::MorningEnd(_) | QuotData::NoonEnd(_) | QuotData::QuotEnd(_) => Hook::Close,
    }
}

/// What one runner iteration decides before its plugin runs: whether a
/// failed initialization is published as this runner's failure, and whether
/// the runner exits without entering its loop — per the rule that a plugin
/// initialization failure is fatal for the account.
pub struct InitStep {
    pub publish: Option<TaskTarget>,
    pub exit: bool,
}

pub fn runner_init_step(init_ok: bool, target: TaskTarget) -> (r: InitStep)
    ensures
        init_ok ==> r.publish is None && !r.exit,
        !init_ok ==> r.publish == Some(target) && r.exit,
{
    if init_ok {
        InitStep { publish: None, exit: false }
    } else {
        InitStep { publish: Some(target), exit: true }
    }
}

/// What one strategy-runner iteration decides; `destroy` directs the one
/// `on_destroy` call, made exactly when the runner exits.
pub struct DispatchStep {
    pub hook: Option<Hook>,
    pub exit: bool,
    pub destroy: bool,
}

/// One strategy-runner iteration: a shutdown ends it at once; the stream end
/// drives the close hook and then ends it; every other event drives its hook;
/// a closed inbox drives nothing. The plugin is destroyed exactly on exit, so
/// over a whole run `on_destroy` fires once, on the stream end or a shutdown.
pub fn strategy_step(shutdown: bool, q: Option<&QuotData>) -> (r: DispatchStep)
    ensures
        r.destroy == r.exit,
        shutdown ==> r.exit && r.hook is None,
        !shutdown ==> match q {
            None => !r.exit && r.hook is None,
            Some(qd) => {
                &&& r.hook matches Some(h) && call_strategy_hook(*qd, h)
                &&& r.exit == (qd matches QuotData::QuotEnd(_))
            },
        },
{
    if shutdown {
        return DispatchStep { hook: None, exit: true, destroy: true };
    }
    match q {
        None => DispatchStep { hook: None, exit: false, destroy: false },
        Some(qd) => {
            let h = strategy_hook(qd);
            let exit = matches!(qd, QuotData::QuotEnd(_));
            DispatchStep { hook: Some(h), exit, destroy: exit }
        },
    }
}

/// `h` is the hook the strategy lifecycle assigns to `q`.
pub open spec fn call_strategy_hook(q: QuotData, h: Hook) -> bool {
    match q {
        QuotData::Quot(_) => h is OnQuot,
        QuotData::QuotStart(_) | QuotData::MorningStart(_) | QuotData::NoonStart(_) => h is Open,
        QuotData::MorningEnd(_) | QuotData::NoonEnd(_) | QuotData::QuotEnd(_) => h is Close,
    }
}

/// What one risk-runner iteration decides; `destroy` directs the one
/// `on_destroy` call, made exactly when the runner exits.
pub struct RiskStep {
    pub invoke: bool,
    pub exit: bool,
    pub destroy: bool,
}

/// One risk-runner iteration: a shutdown ends it at once; the stream end ends
/// it; the risk hook runs exactly for a bar delivered while the account is
/// trading. The policy is destroyed exactly on exit.
pub fn risk_step(shutdown: bool, q: Option<&QuotData>, is_trading: bool) -> (r: RiskStep)
    ensures
        r.destroy == r.exit,
        shutdown ==> r.exit && !r.invoke,
        !shutdown ==> match q {
            None => !r.exit && !r.invoke,
            Some(qd) => {
                &&& r.exit == (qd matches QuotData::QuotEnd(_))
                &&& r.invoke == ((qd matches QuotData::Quot(_)) && is_trading)
            },
        },
{
    if shutdown {
        return RiskStep { invoke: false, exit: true, destroy: true };
    }
    match q {
        None => RiskStep { invoke: false, exit: false, destroy: false },
        Some(qd) => {
            if matches!(qd, QuotData::QuotEnd(_)) {
                RiskStep { invoke: false, exit: true, destroy: true }
            } else {
                RiskStep {
                    invoke: matches!(qd, QuotData::Quot(_)) && is_trading,
                    exit: false,
                    destroy: false,
                }
            }
        },
    }
}

/// Stamps a signal a plugin returned before it is forwarded to the hub: a
/// fresh identifier, and the emitting runner with the plugin's name as the
/// source. Everything else is the plugin's word, untouched.
pub fn stamp_signal(sig: Signal, name: &str, from_risk: bool) -> (r: Signal)
    ensures
        r.signal_id@.len() == 32,
        from_risk ==> (r.source matches SignalSource::Risk(n) && n@ == name@),
        !from_risk ==> (r.source matches SignalSource::Strategy(n) && n@ == name@),
        r == (Signal { signal_id: r.signal_id, source: r.source, ..sig }),
{
    let source = if from_risk {
        SignalSource::Risk(name.to_owned())
    } else {
        SignalSource::Strategy(name.to_owned())
    };
    Signal { signal_id: get_id(), source, ..sig }
}

} // verus!
