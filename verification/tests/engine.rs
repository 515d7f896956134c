//! End-to-end scenarios for the quotation engines and the hub.
use bbq::account::{Account, BrokerEvent};
use bbq::broker::broker_step;
use bbq::clock::Ts;
use bbq::consts::{AcctType, Kind};
use bbq::event::Event;
use bbq::fetch::{Level, Quot, StockBar};
use bbq::hub::{hub_quiesce, hub_step, HubIn, HubOut, HubState, Quiesce, TaskTarget};
use bbq::quot::{QuotData, QuotOpts, FREQ_1D, FREQ_1M};
use bbq::quotation::{BacktestQuotation, PollStep, RtQuotation};
use bbq::runner::{risk_step, strategy_step, Hook};

// 2022-03-01 as a day number since the epoch.
const D: u32 = 19052;

fn opts(freq: u32) -> QuotOpts {
    QuotOpts {
        kind: Kind::Stock,
        frequency: freq,
        codes: Vec::new(),
        start_date: Some(D),
        end_date: Some(D),
    }
}

fn daily_bar(days: u32, open: u64, high: u64, low: u64, close: u64, vol: u64) -> StockBar {
    StockBar { time: Ts { days, secs: 0 }, open, high, low, close, vol }
}

fn tick(code: &str, now: u64, t: Ts) -> Quot {
    Quot {
        code: code.to_string(),
        name: String::new(),
        open: now,
        pre_close: now,
        now,
        high: now,
        low: now,
        buy: now,
        sell: now,
        vol: 1000,
        amount: 0,
        bid: [Level { vol: 0, price: 0 }; 5],
        ask: [Level { vol: 0, price: 0 }; 5],
        date: t.days,
        time: t,
    }
}

/// One daily bar replays as the full session: start, the four phases, the
/// bar, and the end, in that order.
#[test]
fn test_bt_quotation() {
    let mut quot = BacktestQuotation::new(opts(FREQ_1D));
    let bars = vec![daily_bar(D, 100000, 120000, 95000, 110000, 1000)];
    quot.add_codes(&"sh600063".to_string(), &bars).unwrap();

    let now = Ts { days: D, secs: 0 };
    let mut kinds: Vec<String> = Vec::new();
    loop {
        match quot.get_quot(now) {
            Some(q) => kinds.push(kind_of(&q)),
            None => break,
        }
    }
    assert_eq!(
        kinds,
        vec![
            "start".to_string(),
            "morning_start".to_string(),
            "morning_end".to_string(),
            "noon_start".to_string(),
            "noon_end".to_string(),
            "quot".to_string(),
            "quot_end".to_string(),
        ]
    );
    // after the end the stream stays silent
    assert!(quot.get_quot(now).is_none());
}

fn kind_of(q: &QuotData) -> String {
    match q {
        QuotData::Quot(_) => "quot".to_string(),
        QuotData::QuotStart(_) => "start".to_string(),
        QuotData::MorningStart(_) => "morning_start".to_string(),
        QuotData::MorningEnd(_) => "morning_end".to_string(),
        QuotData::NoonStart(_) => "noon_start".to_string(),
        QuotData::NoonEnd(_) => "noon_end".to_string(),
        QuotData::QuotEnd(_) => "quot_end".to_string(),
    }
}

/// The replayed bar carries the loaded prices for the loaded code, and the
/// phase events all carry the daily bar's synthetic clock (the morning
/// open).
#[test]
fn test_bt_quotation_payloads() {
    let mut quot = BacktestQuotation::new(opts(FREQ_1D));
    let bars = vec![daily_bar(D, 100000, 120000, 95000, 110000, 1000)];
    quot.add_codes(&"sh600063".to_string(), &bars).unwrap();

    let now = Ts { days: D, secs: 0 };
    let mut phase_secs: Vec<u32> = Vec::new();
    let mut got_bar = false;
    loop {
        match quot.get_quot(now) {
            Some(QuotData::Quot(bars)) => {
                assert_eq!(bars.len(), 1);
                assert_eq!(bars[0].quot.code, "sh600063");
                assert_eq!(bars[0].open, 100000);
                assert_eq!(bars[0].high, 120000);
                assert_eq!(bars[0].low, 95000);
                assert_eq!(bars[0].close, 110000);
                assert!(bars[0].low <= bars[0].open && bars[0].open <= bars[0].high);
                assert!(bars[0].low <= bars[0].close && bars[0].close <= bars[0].high);
                got_bar = true;
            }
            Some(QuotData::MorningStart(st)) => phase_secs.push(st.time.secs),
            Some(QuotData::MorningEnd(st)) => phase_secs.push(st.time.secs),
            Some(QuotData::NoonStart(st)) => phase_secs.push(st.time.secs),
            Some(QuotData::NoonEnd(st)) => phase_secs.push(st.time.secs),
            Some(_) => {}
            None => break,
        }
    }
    assert!(got_bar);
    assert_eq!(phase_secs, vec![34200, 34200, 34200, 34200]);
}

/// A malformed bar rejects the whole load and leaves the engine unchanged.
#[test]
fn test_bt_bad_bar_rejected() {
    let mut quot = BacktestQuotation::new(opts(FREQ_1D));
    // low above high
    let bad = vec![daily_bar(D, 100000, 90000, 95000, 110000, 1000)];
    assert!(quot.add_codes(&"sh600063".to_string(), &bad).is_err());
    // times not strictly ascending
    let unsorted = vec![
        daily_bar(D + 1, 100000, 120000, 95000, 110000, 1000),
        daily_bar(D, 100000, 120000, 95000, 110000, 1000),
    ];
    assert!(quot.add_codes(&"sh600063".to_string(), &unsorted).is_err());
}

/// Two daily bars replay in date order with a full phase cycle per date.
#[test]
fn test_bt_two_dates_ordered() {
    let mut quot = BacktestQuotation::new(opts(FREQ_1D));
    let bars = vec![
        daily_bar(D, 100000, 120000, 95000, 110000, 1000),
        daily_bar(D + 1, 110000, 130000, 105000, 120000, 900),
    ];
    quot.add_codes(&"sh600063".to_string(), &bars).unwrap();
    let now = Ts { days: D, secs: 0 };
    let mut kinds: Vec<String> = Vec::new();
    loop {
        match quot.get_quot(now) {
            Some(q) => kinds.push(kind_of(&q)),
            None => break,
        }
    }
    assert_eq!(
        kinds,
        vec![
            "start".to_string(),
            "morning_start".to_string(),
            "morning_end".to_string(),
            "noon_start".to_string(),
            "noon_end".to_string(),
            "quot".to_string(),
            "morning_start".to_string(),
            "morning_end".to_string(),
            "noon_start".to_string(),
            "noon_end".to_string(),
            "quot".to_string(),
            "quot_end".to_string(),
        ]
    );
}

/// A subscription loaded while the replay runs shows up in the bars of the
/// subscribed date.
#[test]
fn test_subscribe_adds_code() {
    let mut quot = BacktestQuotation::new(opts(FREQ_1D));
    quot.add_codes(
        &"sh600063".to_string(),
        &vec![daily_bar(D, 100000, 120000, 95000, 110000, 1000)],
    )
    .unwrap();
    // the strategy's first on_open answers with a subscription
    quot.add_codes(
        &"sh601456".to_string(),
        &vec![daily_bar(D, 200000, 220000, 195000, 210000, 500)],
    )
    .unwrap();
    let now = Ts { days: D, secs: 0 };
    let mut codes: Vec<String> = Vec::new();
    loop {
        match quot.get_quot(now) {
            Some(QuotData::Quot(bars)) => {
                for b in bars.iter() {
                    codes.push(b.quot.code.clone());
                }
            }
            Some(_) => {}
            None => break,
        }
    }
    codes.sort();
    assert_eq!(codes, vec!["sh600063".to_string(), "sh601456".to_string()]);
}

/// Polling the live engine on a non-trading date emits the stream start and
/// then stays idle: no session opens and no bar is ever requested.
#[test]
fn test_rt_quotation() {
    let mut quot = RtQuotation::new(QuotOpts {
        kind: Kind::Stock,
        frequency: FREQ_1M,
        codes: vec!["sh600063".to_string()],
        start_date: None,
        end_date: None,
    });
    let morning = Ts { days: D, secs: 36000 };
    match quot.poll(morning, false) {
        PollStep::Emit(QuotData::QuotStart(_)) => {}
        _ => panic!("expected the stream start"),
    }
    for _ in 0..5 {
        assert!(matches!(quot.poll(morning, false), PollStep::Idle));
        assert!(!quot.quotation.is_trading());
    }
    assert!(quot.on_ticks(morning, &vec![tick("sh600063", 110000, morning)]).is_none());
}

/// On a trading date the live engine opens the session, asks for ticks, and
/// emits an aggregated bar once the window spans the frequency.
#[test]
fn test_rt_aggregation() {
    let mut quot = RtQuotation::new(QuotOpts {
        kind: Kind::Stock,
        frequency: FREQ_1M,
        codes: vec!["sh600063".to_string()],
        start_date: None,
        end_date: None,
    });
    let t0 = Ts { days: D, secs: 36000 };
    assert!(matches!(quot.poll(t0, true), PollStep::Emit(QuotData::QuotStart(_))));
    assert!(matches!(quot.poll(t0, true), PollStep::Emit(QuotData::MorningStart(_))));
    assert!(matches!(quot.poll(t0, true), PollStep::Fetch));
    assert!(quot.quotation.is_trading());

    // first round opens the window
    assert!(quot.on_ticks(t0, &vec![tick("sh600063", 110000, t0)]).is_none());
    // prices move inside the window
    let t1 = Ts { days: D, secs: 36030 };
    assert!(quot.on_ticks(t1, &vec![tick("sh600063", 121000, t1)]).is_none());
    let t2 = Ts { days: D, secs: 36090 };
    match quot.on_ticks(t2, &vec![tick("sh600063", 105000, t2)]) {
        Some(QuotData::Quot(bars)) => {
            assert_eq!(bars.len(), 1);
            assert_eq!(bars[0].open, 110000);
            assert_eq!(bars[0].high, 121000);
            assert_eq!(bars[0].low, 105000);
            assert_eq!(bars[0].close, 105000);
            assert!(bars[0].low <= bars[0].open && bars[0].open <= bars[0].high);
        }
        _ => panic!("expected an aggregated bar"),
    }
}

/// A simulation fill through the whole loop: the signal becomes an entrust,
/// the default broker fills it fully at the requested price, and the account
/// books the position, the deal and the cash movement (value plus commission
/// floor plus transfer fee).
#[test]
fn test_simulation_fill() {
    let mut acct = Account::new("acct-1".to_string());
    acct.typ = AcctType::Simulation;
    acct.cash_init = 1_000_000_000;
    acct.cash_available = 1_000_000_000;
    let mut st = HubState::new();

    let sig = bbq::signal::Signal {
        signal_id: String::new(),
        source: bbq::signal::SignalSource::Strategy("demo".to_string()),
        signal: bbq::signal::SignalType::Buy,
        name: String::new(),
        code: "sh600063".to_string(),
        time: Some(Ts { days: D, secs: 36000 }),
        price: 110000,
        volume: 100,
        desc: String::new(),
        entrust_id: None,
    };
    let step = hub_step(&mut acct, &mut st, HubIn::Strategy(Event::Signal(sig)));
    assert!(!step.exit);
    assert_eq!(acct.entrust.len(), 1);
    let to_broker = match step.outs.into_iter().next().unwrap() {
        HubOut::ToBroker(e) => e,
        _ => panic!("expected an entrust for the broker"),
    };

    let answer = broker_step(false, Some(to_broker));
    let push = answer.out.unwrap();
    let step2 = hub_step(&mut acct, &mut st, HubIn::Broker(push));
    assert!(!step2.exit);

    assert_eq!(acct.position.len(), 1);
    assert_eq!(acct.position[0].code, "sh600063");
    assert_eq!(acct.position[0].volume, 100);
    assert_eq!(acct.position[0].price, 110000);
    // 100 * 11.0 = 1100.0; commission floored at 5.0; sh6 buy pays the
    // 0.002% transfer fee on the traded value: 0.022.
    let total = 110000i128 * 100;
    let fee = 50000i128 + total * 20 / 1_000_000;
    assert_eq!(acct.cash_available, 1_000_000_000 - total - fee);
    assert_eq!(acct.entrust.len(), 1);
    assert!(matches!(acct.entrust[0].status, bbq::entrust::EntrustStatus::Deal));
    assert_eq!(acct.entrust[0].volume_deal, 100);
    assert_eq!(acct.deal.len(), 1);
    assert_eq!(acct.deal[0].volume, 100);
    assert_eq!(acct.deal[0].fee, fee);
}

/// The end-of-noon reset outside a backtest: the outstanding commit entrust
/// is cancelled, frozen cash returns, and the day's books are cleared.
#[test]
fn test_noon_end_reset() {
    let mut acct = Account::new("acct-2".to_string());
    acct.typ = AcctType::Simulation;
    acct.cash_available = 100_000_000;
    acct.cash_frozen = 5_000_000;
    let sig = bbq::signal::Signal {
        signal_id: String::new(),
        source: bbq::signal::SignalSource::Strategy("demo".to_string()),
        signal: bbq::signal::SignalType::Buy,
        name: String::new(),
        code: "sh600063".to_string(),
        time: None,
        price: 110000,
        volume: 100,
        desc: String::new(),
        entrust_id: None,
    };
    let mut ent = bbq::entrust::Entrust::new_from_signal(&sig);
    ent.status = bbq::entrust::EntrustStatus::Commit;
    acct.update_account_entrust(&ent);
    acct.deal.push(bbq::deal::Deal::new_from_entrust(&ent));

    let status = bbq::quot::QuotStatus {
        opts: QuotOpts {
            kind: Kind::Stock,
            frequency: FREQ_1D,
            codes: Vec::new(),
            start_date: None,
            end_date: None,
        },
        time: Ts { days: D, secs: 54000 },
    };
    acct.update_account_quot(&QuotData::NoonEnd(status));

    assert!(!acct.is_trading);
    assert_eq!(acct.cash_available, 105_000_000);
    assert_eq!(acct.cash_frozen, 0);
    assert_eq!(acct.entrust.len(), 0);
    assert_eq!(acct.deal.len(), 0);
}

/// The same reset inside a backtest keeps the books and cancels the commit.
#[test]
fn test_noon_end_backtest_keeps_books() {
    let mut acct = Account::new("acct-3".to_string());
    let sig = bbq::signal::Signal {
        signal_id: String::new(),
        source: bbq::signal::SignalSource::Risk("stop".to_string()),
        signal: bbq::signal::SignalType::Sell,
        name: String::new(),
        code: "sz000001".to_string(),
        time: None,
        price: 50000,
        volume: 10,
        desc: String::new(),
        entrust_id: None,
    };
    let mut ent = bbq::entrust::Entrust::new_from_signal(&sig);
    ent.status = bbq::entrust::EntrustStatus::Commit;
    acct.update_account_entrust(&ent);
    let status = bbq::quot::QuotStatus {
        opts: QuotOpts {
            kind: Kind::Stock,
            frequency: FREQ_1D,
            codes: Vec::new(),
            start_date: None,
            end_date: None,
        },
        time: Ts { days: D, secs: 54000 },
    };
    acct.update_account_quot(&QuotData::NoonEnd(status));
    assert_eq!(acct.entrust.len(), 1);
    assert!(matches!(acct.entrust[0].status, bbq::entrust::EntrustStatus::Cancel));
}

/// A runner failure: the hub broadcasts the shutdown and exits with the
/// exceptional mark, and every runner exits on the broadcast within one
/// iteration.
#[test]
fn test_plugin_crash_shutdown() {
    let mut acct = Account::new("acct-4".to_string());
    let mut st = HubState::new();
    let step = hub_step(&mut acct, &mut st, HubIn::Except(TaskTarget::Broker));
    assert!(step.exit);
    assert!(st.is_except);
    assert_eq!(step.outs.len(), 1);
    assert!(matches!(step.outs[0], HubOut::BroadcastShutdown));

    // every runner observes the broadcast, destroys its plugin and exits
    let s = strategy_step(true, None);
    assert!(s.exit && s.destroy);
    let r = risk_step(true, None, true);
    assert!(r.exit && r.destroy);
    let b = broker_step(true, None);
    assert!(b.exit && b.destroy);
}

/// The ordered termination: once quotation, strategy and risk have ended the
/// hub tells the broker to quit, and exits when the broker ends.
#[test]
fn test_hub_quiesce() {
    let mut st = HubState::new();
    assert!(matches!(hub_quiesce(&st), Quiesce::Wait));
    st.is_quot_end = true;
    st.is_strategy_end = true;
    st.is_risk_end = true;
    assert!(matches!(hub_quiesce(&st), Quiesce::SendQuit));
    st.is_broker_end = true;
    assert!(matches!(hub_quiesce(&st), Quiesce::Exit));
}

/// The lifecycle dispatch: opens, closes and bars drive the right hooks, and
/// the risk hook fires only for bars while trading.
#[test]
fn test_runner_dispatch() {
    let status = bbq::quot::QuotStatus {
        opts: QuotOpts {
            kind: Kind::Stock,
            frequency: FREQ_1D,
            codes: Vec::new(),
            start_date: None,
            end_date: None,
        },
        time: Ts { days: D, secs: 34200 },
    };
    let open_ev = QuotData::MorningStart(status.clone());
    let close_ev = QuotData::NoonEnd(status.clone());
    let end_ev = QuotData::QuotEnd(status.clone());
    let bar_ev = QuotData::Quot(Vec::new());

    let s = strategy_step(false, Some(&open_ev));
    assert!(matches!(s.hook, Some(Hook::Open)) && !s.exit && !s.destroy);
    let s = strategy_step(false, Some(&close_ev));
    assert!(matches!(s.hook, Some(Hook::Close)) && !s.exit && !s.destroy);
    // the stream end drives the close hook and destroys the plugin, once
    let s = strategy_step(false, Some(&end_ev));
    assert!(matches!(s.hook, Some(Hook::Close)) && s.exit && s.destroy);
    let s = strategy_step(false, Some(&bar_ev));
    assert!(matches!(s.hook, Some(Hook::OnQuot)) && !s.exit && !s.destroy);

    let r = risk_step(false, Some(&bar_ev), true);
    assert!(r.invoke && !r.exit && !r.destroy);
    let r = risk_step(false, Some(&bar_ev), false);
    assert!(!r.invoke && !r.exit);
    let r = risk_step(false, Some(&open_ev), true);
    assert!(!r.invoke && !r.exit);
    let r = risk_step(false, Some(&end_ev), true);
    assert!(!r.invoke && r.exit && r.destroy);

    // a failed plugin initialization is fatal and is published as this
    // runner's failure; a successful one enters the loop silently
    let ok = bbq::runner::runner_init_step(true, TaskTarget::Strategy);
    assert!(ok.publish.is_none() && !ok.exit);
    let bad = bbq::runner::runner_init_step(false, TaskTarget::Risk);
    assert!(matches!(bad.publish, Some(TaskTarget::Risk)) && bad.exit);
}

/// A plugin's signal is stamped before forwarding: a fresh identifier and
/// the emitting runner as its source; the intent itself is untouched.
#[test]
fn test_stamp_signal() {
    let sig = bbq::signal::Signal {
        signal_id: String::new(),
        source: bbq::signal::SignalSource::Robot("Unknown".to_string()),
        signal: bbq::signal::SignalType::Sell,
        name: String::new(),
        code: "sz000001".to_string(),
        time: None,
        price: 50000,
        volume: 10,
        desc: String::new(),
        entrust_id: None,
    };
    let stamped = bbq::runner::stamp_signal(sig.clone(), "stop_loss", true);
    assert_eq!(stamped.signal_id.len(), 32);
    assert!(matches!(stamped.source, bbq::signal::SignalSource::Risk(ref n) if n == "stop_loss"));
    assert_eq!(stamped.code, sig.code);
    assert_eq!(stamped.price, sig.price);
    assert_eq!(stamped.volume, sig.volume);

    let stamped2 = bbq::runner::stamp_signal(sig, "demo", false);
    assert!(matches!(stamped2.source, bbq::signal::SignalSource::Strategy(ref n) if n == "demo"));
    assert_ne!(stamped.signal_id, stamped2.signal_id);
}

/// Broker pushes keep the quotation fan-out intact: a bar batch is forwarded
/// to both strategy and risk.
#[test]
fn test_hub_quot_fanout() {
    let mut acct = Account::new("acct-5".to_string());
    let mut st = HubState::new();
    let status = bbq::quot::QuotStatus {
        opts: QuotOpts {
            kind: Kind::Stock,
            frequency: FREQ_1D,
            codes: Vec::new(),
            start_date: None,
            end_date: None,
        },
        time: Ts { days: D, secs: 34200 },
    };
    let step = hub_step(&mut acct, &mut st, HubIn::Quot(QuotData::MorningStart(status)));
    assert!(acct.is_trading);
    assert_eq!(step.outs.len(), 2);
    assert!(matches!(step.outs[0], HubOut::ToStrategy(QuotData::MorningStart(_))));
    assert!(matches!(step.outs[1], HubOut::ToRisk(QuotData::MorningStart(_))));
}
