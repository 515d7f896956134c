//! The broker runner's decision core, with the default simulation broker:
//! every buy or sell fills fully and immediately at the requested price, and
//! every cancel is confirmed.
use vstd::prelude::*;

use crate::account::BrokerEvent;
use crate::entrust::{Entrust, EntrustStatus, EntrustType};
use crate::event::Event;

verus! {

/// How often the broker runner polls for pushes, in seconds.
pub const POLL_SECONDS: u64 = 3;

/// The simulation broker's answer to an entrust: buys and sells arrive fully
/// dealt, cancels fully cancelled.
pub open spec fn spec_default_fill(e: Entrust) -> Entrust {
    match e.entrust_type {
        EntrustType::Buy | EntrustType::Sell => Entrust {
            status: EntrustStatus::Deal,
            volume_deal: e.volume,
            volume_cancel: 0u32,
            ..e
        },
        EntrustType::Cancel => Entrust {
            status: EntrustStatus::Cancel,
            volume_deal: 0u32,
            volume_cancel: e.volume,
            ..e
        },
    }
}

/// What one broker-runner iteration decides; `destroy` directs the one
/// `on_destroy` call a hosted broker gets, made exactly when the runner
/// exits.
pub struct RunnerStep {
    pub out: Option<Event>,
    pub exit: bool,
    pub destroy: bool,
}

/// Fills one entrust the way the default simulation broker does; the answer
/// keeps the entrust's volume ledger coherent.
pub fn default_fill(e: Entrust) -> (r: Entrust)
    ensures
        r == spec_default_fill(e),
        r.wf(),
        r.status.is_terminal(),
{
    let mut r = e;
    match r.entrust_type {
        EntrustType::Buy | EntrustType::Sell => {
            r.status = EntrustStatus::Deal;
            r.volume_deal = r.volume;
            r.volume_cancel = 0;
        },
        EntrustType::Cancel => {
            r.status = EntrustStatus::Cancel;
            r.volume_deal = 0;
            r.volume_cancel = r.volume;
        },
    }
    r
}

/// One iteration of the default broker runner: a shutdown ends it at once; a
/// quit sentinel ends it; an entrust is answered with the simulated fill; a
/// closed inbox or any other event does nothing.
pub fn broker_step(shutdown: bool, ev: Option<Event>) -> (r: RunnerStep)
    ensures
        r.destroy == r.exit,
        shutdown ==> r.exit && r.out is None,
        !shutdown ==> match ev {
            None => !r.exit && r.out is None,
            Some(e) => match e {
                Event::Entrust(ent) => {
                    &&& !r.exit
                    &&& r.out matches Some(o) && o matches Event::Broker(be)
                        && be matches BrokerEvent::Entrust(ans) && ans == spec_default_fill(ent)
                },
                Event::EventNone(_) => r.exit && r.out is None,
                _ => !r.exit && r.out is None,
            },
        },
{
    if shutdown {
        return RunnerStep { out: None, exit: true, destroy: true };
    }
    match ev {
        None => RunnerStep { out: None, exit: false, destroy: false },
        Some(e) => match e {
            Event::Entrust(ent) => {
                let answered = default_fill(ent);
                RunnerStep {
                    out: Some(Event::Broker(BrokerEvent::Entrust(answered))),
                    exit: false,
                    destroy: false,
                }
            },
            Event::EventNone(_) => RunnerStep { out: None, exit: true, destroy: true },
            _ => RunnerStep { out: None, exit: false, destroy: false },
        },
    }
}

} // verus!
