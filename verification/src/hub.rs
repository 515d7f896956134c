//! The account hub's decision core: one step per received event. The driving
//! loop (channels, barrier, select) performs the returned actions; every
//! account mutation and every routing decision is made here.
use vstd::prelude::*;

use crate::account::{broker_push_spec, fold_hold, quot_update_spec, Account};
use crate::clock::Ts;
use crate::consts::AcctStatus;
use crate::entrust::{status_step_ok, Entrust};
use crate::event::Event;
use crate::money::clamp_money;
use crate::quot::QuotData;

verus! {

/// Which runner a failure came from, as the exception channel names it.
#[derive(Clone, Copy, Debug, PartialEq, Eq, Structural)]
pub enum TaskTarget {
    Quotation,
    Broker,
    Risk,
    Strategy,
}

/// Which runners have reported their end, and whether a failure was seen.
#[derive(Clone, Copy, Debug, PartialEq, Eq, Structural)]
pub struct HubState {
    pub is_except: bool,
    pub is_quot_end: bool,
    pub is_strategy_end: bool,
    pub is_risk_end: bool,
    pub is_broker_end: bool,
}

impl HubState {
    pub fn new() -> (r: Self)
        ensures
            r == (HubState {
                is_except: false,
                is_quot_end: false,
                is_strategy_end: false,
                is_risk_end: false,
                is_broker_end: false,
            }),
    {
        HubState {
            is_except: false,
            is_quot_end: false,
            is_strategy_end: false,
            is_risk_end: false,
            is_broker_end: false,
        }
    }
}

/// One input to the hub's select loop.
pub enum HubIn {
    Except(TaskTarget),
    Quot(QuotData),
    QuotClosed,
    Strategy(Event),
    StrategyClosed,
    Risk(Event),
    RiskClosed,
    Broker(Event),
    BrokerClosed,
    Shutdown,
}

/// One action the hub asks its loop to perform.
pub enum HubOut {
    BroadcastShutdown,
    ToStrategy(QuotData),
    ToRisk(QuotData),
    ToBroker(Event),
    ToQuotation(Event),
}

/// The outcome of one hub step.
pub struct HubStep {
    pub outs: Vec<HubOut>,
    pub exit: bool,
}

/// What the hub does between events: once quotation, strategy and risk have
/// ended, it tells the broker to quit, and exits when the broker has ended
/// too.
#[derive(Clone, Copy, Debug, PartialEq, Eq, Structural)]
pub enum Quiesce {
    SendQuit,
    Exit,
    Wait,
}

pub fn hub_quiesce(st: &HubState) -> (r: Quiesce)
    ensures
        r is Exit <==> st.is_quot_end && st.is_strategy_end && st.is_risk_end && st.is_broker_end,
        r is SendQuit <==> st.is_quot_end && st.is_strategy_end && st.is_risk_end
            && !st.is_broker_end,
        r is Wait <==> !(st.is_quot_end && st.is_strategy_end && st.is_risk_end),
{
    if st.is_quot_end && st.is_strategy_end && st.is_risk_end {
        if st.is_broker_end {
            Quiesce::Exit
        } else {
            Quiesce::SendQuit
        }
    } else {
        Quiesce::Wait
    }
}

/// Marks the account running, as the hub does after the startup barrier.
pub fn hub_start(acct: &mut Account)
    ensures
        *final(acct) == (Account { status: AcctStatus::Running, ..*old(acct) }),
{
    acct.status = AcctStatus::Running;
}

/// Marks the account stopped, as the hub does when its loop exits.
pub fn hub_finish(acct: &mut Account)
    ensures
        *final(acct) == (Account { status: AcctStatus::Stop, ..*old(acct) }),
{
    acct.status = AcctStatus::Stop;
}

/// The cap on the listener's accept backoff, in milliseconds.
pub const BACKOFF_MAX_MS: u64 = 100;

/// How many accept failures in a row the listener tolerates before giving
/// up.
pub const BACKOFF_MAX_RETRIES: u32 = 16;

/// The listener's reaction to one failed accept: wait twice as long as last
/// time (starting at one millisecond, capped), or give up once the retries
/// are spent.
pub fn accept_backoff(prev_ms: u64, failures: u32) -> (r: Option<u64>)
    ensures
        failures >= BACKOFF_MAX_RETRIES ==> r is None,
        failures < BACKOFF_MAX_RETRIES ==> r == Some(
            if prev_ms == 0 {
                1u64
            } else if prev_ms * 2 >= BACKOFF_MAX_MS {
                BACKOFF_MAX_MS
            } else {
                (prev_ms * 2) as u64
            },
        ),
{
    if failures >= BACKOFF_MAX_RETRIES {
        return None;
    }
    if prev_ms == 0 {
        Some(1)
    } else if prev_ms >= BACKOFF_MAX_MS / 2 {
        Some(BACKOFF_MAX_MS)
    } else {
        Some(prev_ms * 2)
    }
}

/// The interrupt policy: a second interrupt within three seconds of the
/// first shuts the engine down; a lone one only warns and is remembered.
pub fn on_interrupt(last: Option<Ts>, now: Ts) -> (r: (bool, Option<Ts>))
    ensures
        ({
            let (stop, remembered) = r;
            &&& stop == (last matches Some(t) && now.stamp() - t.stamp() <= 3)
            &&& remembered == Some(now)
        }),
{
    let stop = match last {
        Some(t) => {
            let dt = (now.days as i64 * 86400 + now.secs as i64) - (t.days as i64 * 86400
                + t.secs as i64);
            dt <= 3
        },
        None => false,
    };
    (stop, Some(now))
}

/// One hub step. A failure or an external shutdown broadcasts the shutdown
/// and exits. A quotation event updates the account and is fanned out to
/// strategy and risk. A signal from strategy or risk is recorded, converted
/// to a fresh entrust that is booked on the account, and routed to the
/// broker. A subscription is forwarded to the quotation engine while it has
/// not ended. A broker push updates the account, and every entrust keeps
/// making only legal status moves. Closed channels mark their runner ended.
pub fn hub_step(acct: &mut Account, st: &mut HubState, ev: HubIn) -> (r: HubStep)
    requires
        old(acct).wf(),
    ensures
        final(acct).wf(),
        (ev matches HubIn::Except(_) || ev matches HubIn::Shutdown) ==> (r.exit && r.outs@.len()
            == 1 && r.outs@[0] is BroadcastShutdown && *final(acct) == *old(acct)),
        ev matches HubIn::Except(_) ==> *final(st) == (HubState {
            is_except: true,
            ..*old(st)
        }),
        ev matches HubIn::Shutdown ==> *final(st) == *old(st),
        ev matches HubIn::QuotClosed ==> (!r.exit && r.outs@.len() == 0 && *final(acct) == *old(
            acct,
        ) && *final(st) == (HubState { is_quot_end: true, ..*old(st) })),
        ev matches HubIn::StrategyClosed ==> (!r.exit && r.outs@.len() == 0 && *final(acct)
            == *old(acct) && *final(st) == (HubState { is_strategy_end: true, ..*old(st) })),
        ev matches HubIn::RiskClosed ==> (!r.exit && r.outs@.len() == 0 && *final(acct) == *old(
            acct,
        ) && *final(st) == (HubState { is_risk_end: true, ..*old(st) })),
        ev matches HubIn::BrokerClosed ==> (!r.exit && r.outs@.len() == 0 && *final(acct) == *old(
            acct,
        ) && *final(st) == (HubState { is_broker_end: true, ..*old(st) })),
        ev matches HubIn::Quot(q) ==> {
            &&& !r.exit
            &&& *final(st) == (HubState {
                is_quot_end: old(st).is_quot_end || q matches QuotData::QuotEnd(_),
                ..*old(st)
            })
            &&& r.outs@.len() == 2
            &&& r.outs@[0] matches HubOut::ToStrategy(q1) && q1.eqv(q)
            &&& r.outs@[1] matches HubOut::ToRisk(q2) && q2.eqv(q)
            &&& quot_update_spec(*old(acct), *final(acct), q)
            &&& (q matches QuotData::Quot(_) ==> final(acct).total_net_value == clamp_money(
                clamp_money(final(acct).cash_available + final(acct).cash_frozen) + fold_hold(
                    final(acct).position@,
                ),
            ) && final(acct).total_hold_value == fold_hold(final(acct).position@))
        },
        ev matches HubIn::Strategy(e) ==> signal_or_subscribe_step(
            *old(acct),
            *final(acct),
            *old(st),
            *final(st),
            e,
            r,
            true,
        ),
        ev matches HubIn::Risk(e) ==> signal_or_subscribe_step(
            *old(acct),
            *final(acct),
            *old(st),
            *final(st),
            e,
            r,
            false,
        ),
        ev matches HubIn::Broker(e) ==> {
            &&& !r.exit
            &&& r.outs@.len() == 0
            &&& *final(st) == *old(st)
            &&& final(acct).entrust@.len() == old(acct).entrust@.len()
            &&& (forall|i: int|
                0 <= i < old(acct).entrust@.len() ==> status_step_ok(
                    old(acct).entrust@[i].status,
                    final(acct).entrust@[i].status,
                ))
            &&& (e matches Event::Broker(bev) ==> broker_push_spec(*old(acct), *final(acct), bev))
            &&& (!(e matches Event::Broker(_)) ==> *final(acct) == *old(acct))
        },
{
    match ev {
        HubIn::Except(t) => {
            st.is_except = true;
            let mut outs: Vec<HubOut> = Vec::new();
            outs.push(HubOut::BroadcastShutdown);
            HubStep { outs, exit: true }
        },
        HubIn::Shutdown => {
            let mut outs: Vec<HubOut> = Vec::new();
            outs.push(HubOut::BroadcastShutdown);
            HubStep { outs, exit: true }
        },
        HubIn::QuotClosed => {
            st.is_quot_end = true;
            HubStep { outs: Vec::new(), exit: false }
        },
        HubIn::StrategyClosed => {
            st.is_strategy_end = true;
            HubStep { outs: Vec::new(), exit: false }
        },
        HubIn::RiskClosed => {
            st.is_risk_end = true;
            HubStep { outs: Vec::new(), exit: false }
        },
        HubIn::BrokerClosed => {
            st.is_broker_end = true;
            HubStep { outs: Vec::new(), exit: false }
        },
        HubIn::Quot(q) => {
            acct.update_account_quot(&q);
            if matches!(q, QuotData::QuotEnd(_)) {
                st.is_quot_end = true;
            }
            let copy = q.clone();
            let mut outs: Vec<HubOut> = Vec::new();
            outs.push(HubOut::ToStrategy(copy));
            outs.push(HubOut::ToRisk(q));
            HubStep { outs, exit: false }
        },
        HubIn::Strategy(e) => hub_runner_event(acct, st, e, true),
        HubIn::Risk(e) => hub_runner_event(acct, st, e, false),
        HubIn::Broker(e) => {
            match e {
                Event::Broker(bev) => {
                    acct.update_broker_push(&bev);
                },
                _ => {},
            }
            HubStep { outs: Vec::new(), exit: false }
        },
    }
}

/// What a strategy or risk event does: a signal is recorded, booked as a
/// fresh entrust and routed to the broker; a strategy subscription is
/// forwarded to the quotation engine while it runs; everything else is
/// dropped.
pub open spec fn signal_or_subscribe_step(
    acct0: Account,
    acct1: Account,
    st0: HubState,
    st1: HubState,
    e: Event,
    r: HubStep,
    from_strategy: bool,
) -> bool {
    &&& !r.exit
    &&& st1 == st0
    &&& match e {
        Event::Signal(sig) => {
            &&& acct1.entrust@.len() == acct0.entrust@.len() + 1
            &&& acct1.entrust@ == acct0.entrust@.push(acct1.entrust@.last())
            &&& ({
                let ent = acct1.entrust@.last();
                &&& ent.entrust_id@.len() == 32
                &&& ent.name == sig.name
                &&& ent.code == sig.code
                &&& ent.time == sig.time
                &&& ent.entrust_type == Entrust::type_of_signal(sig.signal)
                &&& ent.status is Init
                &&& ent.price == sig.price
                &&& ent.volume == sig.volume
                &&& ent.volume_deal == 0
                &&& ent.volume_cancel == 0
            })
            &&& acct1.signal@ == acct0.signal@.push(sig)
            &&& acct1 == (Account { entrust: acct1.entrust, signal: acct1.signal, ..acct0 })
            &&& r.outs@.len() == 1
            &&& r.outs@[0] matches HubOut::ToBroker(oe) && oe matches Event::Entrust(e2) && e2
                == acct1.entrust@.last()
        },
        Event::Subscribe(codes) => {
            &&& acct1 == acct0
            &&& if from_strategy && !st0.is_quot_end {
                r.outs@.len() == 1 && (r.outs@[0] matches HubOut::ToQuotation(oe)
                    && oe matches Event::Subscribe(cs) && cs@ == codes@)
            } else {
                r.outs@.len() == 0
            }
        },
        _ => acct1 == acct0 && r.outs@.len() == 0,
    }
}

/// Handles one event from the strategy or risk runner.
fn hub_runner_event(acct: &mut Account, st: &mut HubState, e: Event, from_strategy: bool) -> (r:
    HubStep)
    requires
        old(acct).wf(),
    ensures
        final(acct).wf(),
        signal_or_subscribe_step(*old(acct), *final(acct), *old(st), *final(st), e, r, from_strategy),
{
    match e {
        Event::Signal(sig) => {
            let ent = Entrust::new_from_signal(&sig);
            acct.update_account_signal(&sig);
            acct.update_account_entrust(&ent);
            let mut outs: Vec<HubOut> = Vec::new();
            outs.push(HubOut::ToBroker(Event::Entrust(ent)));
            HubStep { outs, exit: false }
        },
        Event::Subscribe(codes) => {
            let mut outs: Vec<HubOut> = Vec::new();
            if from_strategy && !st.is_quot_end {
                outs.push(HubOut::ToQuotation(Event::Subscribe(codes)));
            }
            HubStep { outs, exit: false }
        },
        _ => HubStep { outs: Vec::new(), exit: false },
    }
}

} // verus!
