//! The account ledger: fees, repricing, fills, pushes, and the accounting
//! identity.
use bbq::account::{Account, BrokerEvent};
use bbq::clock::Ts;
use bbq::consts::{AcctType, ActionType};
use bbq::deal::Deal;
use bbq::entrust::{Entrust, EntrustStatus, EntrustType};
use bbq::fetch::{Level, Quot};
use bbq::position::Position;
use bbq::quot::{QuotBar, QuotData, QuotOpts, FREQ_1D};
use bbq::signal::{Signal, SignalSource, SignalType};

const D: u32 = 19052;

fn sig(code: &str, t: SignalType, price: u64, volume: u32) -> Signal {
    Signal {
        signal_id: String::new(),
        source: SignalSource::Strategy("demo".to_string()),
        signal: t,
        name: String::new(),
        code: code.to_string(),
        time: Some(Ts { days: D, secs: 36000 }),
        price,
        volume,
        desc: String::new(),
        entrust_id: None,
    }
}

fn bar_for(code: &str, close: u64) -> QuotBar {
    let t = Ts { days: D, secs: 36000 };
    QuotBar {
        frequency: FREQ_1D,
        open: close,
        high: close,
        low: close,
        close,
        start: t,
        end: t,
        quot: Quot {
            code: code.to_string(),
            name: String::new(),
            open: close,
            pre_close: close,
            now: close,
            high: close,
            low: close,
            buy: close,
            sell: close,
            vol: 100,
            amount: 0,
            bid: [Level { vol: 0, price: 0 }; 5],
            ask: [Level { vol: 0, price: 0 }; 5],
            date: D,
            time: t,
        },
    }
}

/// The fee schedule, exactly: the commission floor, the floor crossed, the
/// transfer fee on `sh6` buys, the stamp tax on `sh`/`sz` sells, and nothing
/// on other codes.
#[test]
fn test_get_fee_exact() {
    let acct = Account::new("fee".to_string());
    // small buy on a non-sh6 code: floored commission only
    assert_eq!(acct.get_fee(ActionType::Buy, "sz000001", 110000, 100), 50000);
    // large buy on sh6: commission above the floor plus the transfer fee
    // total = 20.0 * 100000 = 2_000_000.0 => commission 500.0, transfer 40.0
    let total: i128 = 200000i128 * 100000;
    assert_eq!(
        acct.get_fee(ActionType::Buy, "sh600063", 200000, 100000),
        total * 250 / 1_000_000 + total * 20 / 1_000_000
    );
    // sell on sh: commission floor plus the stamp tax
    let total2: i128 = 110000i128 * 100;
    assert_eq!(
        acct.get_fee(ActionType::Sell, "sh600063", 110000, 100),
        50000 + total2 * 1000 / 1_000_000
    );
    // sell on a code with neither prefix: no tax
    assert_eq!(acct.get_fee(ActionType::Sell, "bj430047", 110000, 100), 50000);
    // get_cost adds the traded value
    assert_eq!(
        acct.get_cost(ActionType::Sell, "bj430047", 110000, 100),
        50000 + 110000i128 * 100
    );
    // the fee is a pure function of the rates and the trade: a second account
    // with the same rates charges the same
    let acct2 = Account::new("fee-2".to_string());
    assert_eq!(
        acct.get_fee(ActionType::Sell, "sh600063", 110000, 100),
        acct2.get_fee(ActionType::Sell, "sh600063", 110000, 100)
    );
    assert_eq!(
        acct.get_fee(ActionType::Buy, "sh600063", 200000, 100000),
        acct.get_fee(ActionType::Buy, "sh600063", 200000, 100000)
    );
}

/// Repricing a position: profit, extremes and their times.
#[test]
fn test_position_reprice() {
    let e = {
        let mut e = Entrust::new_from_signal(&sig("sh600063", SignalType::Buy, 110000, 100));
        e.volume_deal = 100;
        e
    };
    let mut d = Deal::new_from_entrust(&e);
    d.fee = 50000;
    let mut p = Position::new_from_deal(&d);
    assert_eq!(p.volume, 100);
    assert_eq!(p.volume_available, 100);
    assert_eq!(p.volume_frozen, 0);
    assert_eq!(p.profit, -50000);

    // price moves up: profit = (12.1 - 11.0) * 100 - 5.0 = 105.0
    p.on_update_quot(&bar_for("sh600063", 121000));
    assert_eq!(p.now_price, 121000);
    assert_eq!(p.max_price, 121000);
    assert_eq!(p.profit, (121000i128 - 110000) * 100 - 50000);
    assert_eq!(p.max_profit, p.profit);
    // rate in parts per million of profit / (price * volume + fee)
    let cost = 110000i128 * 100 + 50000;
    assert_eq!(p.profit_rate as i128, p.profit * 1_000_000 / cost);

    // price falls below the basis: profit negative, minimum tracked
    p.on_update_quot(&bar_for("sh600063", 100000));
    assert_eq!(p.min_price, 100000);
    assert_eq!(p.profit, (100000i128 - 110000) * 100 - 50000);
    assert_eq!(p.min_profit, p.profit);
    assert!(p.profit_rate < 0);
}

/// A second buy moves the basis to the volume-weighted average; a sell takes
/// sellable volume first.
#[test]
fn test_position_fills() {
    let e = {
        let mut e = Entrust::new_from_signal(&sig("sh600063", SignalType::Buy, 100000, 100));
        e.volume_deal = 100;
        e
    };
    let mut d = Deal::new_from_entrust(&e);
    d.fee = 50000;
    let mut p = Position::new_from_deal(&d);
    p.apply_buy_fill(120000, 300, 50000);
    assert_eq!(p.volume, 400);
    assert_eq!(p.volume_available, 400);
    // (10.0*100 + 12.0*300) / 400 = 11.5
    assert_eq!(p.price, 115000);
    assert_eq!(p.fee, 100000);

    p.volume_frozen = 150;
    p.volume_available = 250;
    let reduced = p.apply_sell_fill(300);
    assert_eq!(reduced, 300);
    assert_eq!(p.volume, 100);
    assert_eq!(p.volume_available, 0);
    assert_eq!(p.volume_frozen, 100);
}

/// A broker push on a buy: the entrust is updated, a deal is priced and
/// booked, the position opens, and cash moves.
#[test]
fn test_broker_push_buy() {
    let mut acct = Account::new("push".to_string());
    acct.typ = AcctType::Simulation;
    acct.cash_available = 100_000_000;
    let ent = Entrust::new_from_signal(&sig("sz000001", SignalType::Buy, 100000, 50));
    acct.update_account_entrust(&ent);

    let mut push = ent.clone();
    push.status = EntrustStatus::Deal;
    push.volume_deal = 50;
    acct.update_broker_push(&BrokerEvent::Entrust(push));

    assert!(matches!(acct.entrust[0].status, EntrustStatus::Deal));
    assert_eq!(acct.entrust[0].volume_deal, 50);
    assert_eq!(acct.position.len(), 1);
    assert_eq!(acct.position[0].volume, 50);
    assert_eq!(acct.deal.len(), 1);
    // value 500.0 plus the floored commission
    assert_eq!(acct.cash_available, 100_000_000 - 100000i128 * 50 - 50000);
}

/// A partial fill accumulates and promotes to a full deal when it completes;
/// a push on a terminal entrust is dropped.
#[test]
fn test_broker_push_partial_and_terminal() {
    let mut acct = Account::new("push2".to_string());
    acct.typ = AcctType::Simulation;
    acct.cash_available = 100_000_000;
    let ent = Entrust::new_from_signal(&sig("sz000001", SignalType::Buy, 100000, 100));
    acct.update_account_entrust(&ent);

    let mut part = ent.clone();
    part.status = EntrustStatus::PartDeal;
    part.volume_deal = 40;
    acct.update_broker_push(&BrokerEvent::Entrust(part.clone()));
    assert!(matches!(acct.entrust[0].status, EntrustStatus::PartDeal));
    assert_eq!(acct.entrust[0].volume_deal, 40);

    let mut rest = ent.clone();
    rest.status = EntrustStatus::PartDeal;
    rest.volume_deal = 60;
    acct.update_broker_push(&BrokerEvent::Entrust(rest));
    // 100 of 100 filled: promoted to a full deal
    assert!(matches!(acct.entrust[0].status, EntrustStatus::Deal));
    assert_eq!(acct.entrust[0].volume_deal, 100);
    assert_eq!(acct.deal.len(), 2);

    // terminal now: a further push changes nothing
    let mut late = ent.clone();
    late.status = EntrustStatus::Cancel;
    late.volume_cancel = 100;
    let before = acct.entrust[0].clone();
    acct.update_broker_push(&BrokerEvent::Entrust(late));
    assert!(matches!(acct.entrust[0].status, EntrustStatus::Deal));
    assert_eq!(acct.entrust[0].volume_deal, before.volume_deal);
    assert_eq!(acct.deal.len(), 2);
}

/// An over-committing push is a protocol violation and is dropped whole.
#[test]
fn test_broker_push_overfill_dropped() {
    let mut acct = Account::new("push3".to_string());
    acct.cash_available = 100_000_000;
    let ent = Entrust::new_from_signal(&sig("sz000001", SignalType::Buy, 100000, 100));
    acct.update_account_entrust(&ent);
    let mut over = ent.clone();
    over.status = EntrustStatus::Deal;
    over.volume_deal = 150;
    acct.update_broker_push(&BrokerEvent::Entrust(over));
    assert!(matches!(acct.entrust[0].status, EntrustStatus::Init));
    assert_eq!(acct.entrust[0].volume_deal, 0);
    assert_eq!(acct.deal.len(), 0);
    assert_eq!(acct.position.len(), 0);
}

/// A cancel push books the cancelled volume and nothing else.
#[test]
fn test_broker_push_cancel() {
    let mut acct = Account::new("push4".to_string());
    let ent = Entrust::new_from_signal(&sig("sz000001", SignalType::Sell, 100000, 100));
    acct.update_account_entrust(&ent);
    let mut cancel = ent.clone();
    cancel.status = EntrustStatus::Cancel;
    cancel.volume_cancel = 100;
    acct.update_broker_push(&BrokerEvent::Entrust(cancel));
    assert!(matches!(acct.entrust[0].status, EntrustStatus::Cancel));
    assert_eq!(acct.entrust[0].volume_cancel, 100);
    assert_eq!(acct.deal.len(), 0);
}

/// A sell fill realizes profit into `close_profit` and credits cash; selling
/// the whole lot removes the position.
#[test]
fn test_broker_push_sell_closes() {
    let mut acct = Account::new("push5".to_string());
    acct.typ = AcctType::Simulation;
    acct.cash_available = 100_000_000;
    // open with a buy
    let buy = Entrust::new_from_signal(&sig("sz000001", SignalType::Buy, 100000, 100));
    acct.update_account_entrust(&buy);
    let mut fill = buy.clone();
    fill.status = EntrustStatus::Deal;
    fill.volume_deal = 100;
    acct.update_broker_push(&BrokerEvent::Entrust(fill));
    assert_eq!(acct.position.len(), 1);
    let cash_after_buy = acct.cash_available;

    // close with a sell at a higher price
    let sell = Entrust::new_from_signal(&sig("sz000001", SignalType::Sell, 120000, 100));
    acct.update_account_entrust(&sell);
    let mut sfill = sell.clone();
    sfill.status = EntrustStatus::Deal;
    sfill.volume_deal = 100;
    acct.update_broker_push(&BrokerEvent::Entrust(sfill));

    assert_eq!(acct.position.len(), 0);
    let value = 120000i128 * 100;
    let fee = 50000 + value * 1000 / 1_000_000;
    assert_eq!(acct.cash_available, cash_after_buy + value - fee);
    assert_eq!(acct.close_profit, (120000i128 - 100000) * 100 - fee);
    assert_eq!(acct.deal.len(), 2);
}

/// The accounting identity after a bar batch: total net value equals
/// available plus frozen cash plus the marked-to-market holdings, and the
/// aggregates follow the positions.
#[test]
fn test_quot_update_identity() {
    let mut acct = Account::new("pnl".to_string());
    acct.typ = AcctType::Simulation;
    acct.cash_init = 100_000_000;
    acct.cash_available = 60_000_000;
    acct.cash_frozen = 1_000_000;
    let buy = Entrust::new_from_signal(&sig("sh600063", SignalType::Buy, 110000, 100));
    acct.update_account_entrust(&buy);
    let mut fill = buy.clone();
    fill.status = EntrustStatus::Deal;
    fill.volume_deal = 100;
    acct.update_broker_push(&BrokerEvent::Entrust(fill));

    acct.update_account_quot(&QuotData::Quot(vec![bar_for("sh600063", 121000)]));

    let hold = 121000i128 * 100;
    assert_eq!(acct.total_hold_value, hold);
    assert_eq!(acct.total_net_value, acct.cash_available + acct.cash_frozen + hold);
    assert_eq!(acct.position[0].now_price, 121000);
    let fee = acct.position[0].fee;
    assert_eq!(acct.profit, (121000i128 - 110000) * 100 - fee);
    assert_eq!(acct.cost, 110000i128 * 100 + fee);
    assert_eq!(acct.total_profit, acct.close_profit + acct.profit);
}

/// Every signal and every entrust is booked on the account, in any mode.
#[test]
fn test_acct() {
    let mut acct = Account::new("test-account".to_string());
    assert_eq!(acct.account_id, "test-account");
    let s = sig("sh001", SignalType::Buy, 100000, 100);
    acct.update_account_signal(&s);
    assert_eq!(acct.signal.len(), 1);
    acct.typ = AcctType::Simulation;
    acct.update_account_signal(&s);
    assert_eq!(acct.signal.len(), 2);

    let ent = Entrust::new_from_signal(&s);
    assert_eq!(ent.entrust_id.len(), 32);
    assert!(matches!(ent.status, EntrustStatus::Init));
    assert!(matches!(ent.entrust_type, EntrustType::Buy));
    acct.update_account_entrust(&ent);
    assert_eq!(acct.entrust.len(), 1);

    let d = Deal::new_from_entrust(&ent);
    assert_eq!(d.deal_id.len(), 32);
    assert_eq!(d.entrust_id, ent.entrust_id);
}
