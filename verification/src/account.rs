//! The account ledger: cash, positions, entrusts, deals and signals, and the
//! state transitions the hub applies on every quotation event and on every
//! broker push. All money amounts are fixed point (1/10000 currency unit) on
//! the `money` rails; fee rates are parts per million.
use vstd::prelude::*;

use crate::clock::Ts;
use crate::consts::{AcctStatus, AcctType, ActionType, Kind};
use crate::deal::Deal;
use crate::entrust::{status_step_ok, Entrust, EntrustStatus, EntrustType};
use crate::money::{clamp_money, madd, msub, mul_diff_vol, mul_price_vol, rate_ppm, rate_ppm_exec, wf_money, MONEY_MAX};
use crate::position::{spec_cost, spec_pos_after_buy, spec_pos_after_sell, spec_profit, Position};
use crate::quot::{QuotBar, QuotData};
use crate::signal::Signal;
use crate::strutil::{seq_prefix, str_eq_str, str_has_prefix};

verus! {

/// The floor on the broker commission for one side: five currency units.
pub const MIN_BROKER_FEE: i128 = 50000;

/// One trading account with its child records.
#[derive(Clone, Debug)]
pub struct Account {
    pub account_id: String,
    pub status: AcctStatus,
    pub typ: AcctType,
    pub kind: Kind,
    pub cash_init: i128,
    pub cash_available: i128,
    pub cash_frozen: i128,
    pub total_net_value: i128,
    pub total_hold_value: i128,
    pub cost: i128,
    pub profit: i128,
    pub profit_rate: i64,
    pub close_profit: i128,
    pub total_profit: i128,
    pub total_profit_rate: i64,
    pub broker_fee: u32,
    pub transfer_fee: u32,
    pub tax_fee: u32,
    pub start_time: Ts,
    pub end_time: Option<Ts>,
    pub position: Vec<Position>,
    pub entrust: Vec<Entrust>,
    pub deal: Vec<Deal>,
    pub signal: Vec<Signal>,
    pub is_trading: bool,
}

/// Broker-to-hub pushes: an entrust status update, a funds snapshot, or a
/// positions snapshot.
#[derive(Clone, Debug)]
pub enum BrokerEvent {
    Entrust(Entrust),
    FundSync { total: i128, available: i128, hold: i128 },
    Position(Vec<Position>),
    EventNone,
}

impl Default for BrokerEvent {
    fn default() -> (r: Self)
        ensures
            r is EventNone,
    {
        BrokerEvent::EventNone
    }
}

/// The fee for one side of a trade: the broker commission (floored at
/// `MIN_BROKER_FEE`), plus the transfer fee on buys of `sh6*` codes, plus the
/// stamp tax on sells of `sh*`/`sz*` codes. Rates are parts per million and
/// at most one million, so the result is exact.
pub open spec fn fee_spec(
    broker_ppm: u32,
    transfer_ppm: u32,
    tax_ppm: u32,
    typ: ActionType,
    code: Seq<char>,
    price: u64,
    volume: u32,
) -> int {
    let total = price * volume;
    let bf0 = total * broker_ppm / 1000000;
    let bf = if bf0 < MIN_BROKER_FEE {
        MIN_BROKER_FEE as int
    } else {
        bf0
    };
    let tax = if typ is Buy {
        if seq_prefix(code, "sh6"@) {
            total * transfer_ppm / 1000000
        } else {
            0
        }
    } else {
        if seq_prefix(code, "sz"@) || seq_prefix(code, "sh"@) {
            total * tax_ppm / 1000000
        } else {
            0
        }
    };
    bf + tax
}

/// Positions are a mapping keyed by code: no two hold the same one.
pub open spec fn position_codes_unique(s: Seq<Position>) -> bool {
    forall|i: int, j: int| 0 <= i < j < s.len() ==> (#[trigger] s[i]).code@ != (#[trigger] s[j]).code@
}

/// The first position holding `code`, if any.
pub open spec fn spec_find_position(s: Seq<Position>, code: Seq<char>) -> Option<int>
    decreases s.len(),
{
    if s.len() == 0 {
        None
    } else if s[0].code@ == code {
        Some(0int)
    } else {
        match spec_find_position(s.drop_first(), code) {
            Some(i) => Some(i + 1),
            None => None,
        }
    }
}

/// The first entrust with identifier `id`, if any.
pub open spec fn spec_find_entrust(s: Seq<Entrust>, id: Seq<char>) -> Option<int>
    decreases s.len(),
{
    if s.len() == 0 {
        None
    } else if s[0].entrust_id@ == id {
        Some(0int)
    } else {
        match spec_find_entrust(s.drop_first(), id) {
            Some(i) => Some(i + 1),
            None => None,
        }
    }
}

/// The first bar for `code`, if any.
pub open spec fn spec_find_bar(s: Seq<QuotBar>, code: Seq<char>) -> Option<QuotBar>
    decreases s.len(),
{
    if s.len() == 0 {
        None
    } else if s[0].quot.code@ == code {
        Some(s[0])
    } else {
        spec_find_bar(s.drop_first(), code)
    }
}

/// The clamped sum of the positions' mark-to-market profits.
pub open spec fn fold_profit(s: Seq<Position>) -> int
    decreases s.len(),
{
    if s.len() == 0 {
        0
    } else {
        clamp_money(fold_profit(s.drop_last()) + s.last().profit)
    }
}

/// The clamped sum of the positions' market values at the latest price.
pub open spec fn fold_hold(s: Seq<Position>) -> int
    decreases s.len(),
{
    if s.len() == 0 {
        0
    } else {
        clamp_money(fold_hold(s.drop_last()) + clamp_money(s.last().now_price * s.last().volume))
    }
}

/// The clamped sum of the positions' holding costs.
pub open spec fn fold_cost(s: Seq<Position>) -> int
    decreases s.len(),
{
    if s.len() == 0 {
        0
    } else {
        clamp_money(fold_cost(s.drop_last()) + spec_cost(s.last().price, s.last().volume, s.last().fee))
    }
}

/// A position after one bar repriced it; mirrors `Position::on_update_quot`.
pub open spec fn spec_pos_after_bar(p: Position, b: QuotBar) -> Position {
    let profit = spec_profit(b.close, p.price, p.volume, p.fee);
    let rate = rate_ppm(profit, spec_cost(p.price, p.volume, p.fee));
    Position {
        now_price: b.close,
        max_price: if p.max_price < b.close {
            b.close
        } else {
            p.max_price
        },
        min_price: if p.min_price > b.close {
            b.close
        } else {
            p.min_price
        },
        profit: profit as i128,
        profit_rate: rate as i64,
        max_profit: if profit > p.max_profit {
            profit as i128
        } else {
            p.max_profit
        },
        max_profit_time: if profit > p.max_profit {
            Some(b.quot.time)
        } else {
            p.max_profit_time
        },
        max_profit_rate: if profit > p.max_profit {
            rate as i64
        } else {
            p.max_profit_rate
        },
        min_profit: if profit < p.min_profit {
            profit as i128
        } else {
            p.min_profit
        },
        min_profit_time: if profit < p.min_profit {
            Some(b.quot.time)
        } else {
            p.min_profit_time
        },
        min_profit_rate: if profit < p.min_profit {
            rate as i64
        } else {
            p.min_profit_rate
        },
        ..p
    }
}

/// A position after one bar batch: repriced by its bar when the batch has
/// one, untouched otherwise.
pub open spec fn spec_pos_after_bars(p: Position, bars: Seq<QuotBar>) -> Position {
    match spec_find_bar(bars, p.code@) {
        Some(b) => spec_pos_after_bar(p, b),
        None => p,
    }
}

/// A position at the end-of-noon reconciliation: nothing frozen, everything
/// sellable again.
pub open spec fn spec_pos_reconciled(p: Position) -> Position {
    Position { volume_available: p.volume, volume_frozen: 0u32, ..p }
}

/// An entrust at the end-of-noon reconciliation: an outstanding `Commit`
/// becomes `Cancel`.
pub open spec fn spec_entrust_noon_end(e: Entrust) -> Entrust {
    if e.status is Commit {
        Entrust { status: EntrustStatus::Cancel, ..e }
    } else {
        e
    }
}

impl Account {
    /// Every money amount on the rails, the fee rates at most one (a million
    /// parts per million), every position balanced, and every entrust's
    /// volume ledger coherent.
    pub open spec fn wf(self) -> bool {
        &&& wf_money(self.cash_init as int)
        &&& wf_money(self.cash_available as int)
        &&& wf_money(self.cash_frozen as int)
        &&& wf_money(self.total_net_value as int)
        &&& wf_money(self.total_hold_value as int)
        &&& wf_money(self.cost as int)
        &&& wf_money(self.profit as int)
        &&& wf_money(self.close_profit as int)
        &&& wf_money(self.total_profit as int)
        &&& self.broker_fee <= 1000000
        &&& self.transfer_fee <= 1000000
        &&& self.tax_fee <= 1000000
        &&& forall|i: int| 0 <= i < self.position@.len() ==> (#[trigger] self.position@[i]).wf()
        &&& position_codes_unique(self.position@)
        &&& forall|i: int| 0 <= i < self.entrust@.len() ==> (#[trigger] self.entrust@[i]).wf()
    }

    /// A fresh, empty account with the default fee schedule, stamped with
    /// the creation instant.
    pub fn new(account_id: String) -> (r: Self)
        ensures
            r.account_id == account_id,
            r.status is Stop,
            r.typ is Backtest,
            r.kind is Stock,
            r.cash_init == 0,
            r.cash_available == 0,
            r.cash_frozen == 0,
            r.total_net_value == 0,
            r.total_hold_value == 0,
            r.cost == 0,
            r.profit == 0,
            r.profit_rate == 0,
            r.close_profit == 0,
            r.total_profit == 0,
            r.total_profit_rate == 0,
            r.broker_fee == 250,
            r.transfer_fee == 20,
            r.tax_fee == 1000,
            r.start_time.wf(),
            r.end_time is None,
            r.position@.len() == 0,
            r.entrust@.len() == 0,
            r.deal@.len() == 0,
            r.signal@.len() == 0,
            !r.is_trading,
            r.wf(),
    {
        let start_time = match crate::clock::now_ts() {
            Some(t) => t,
            None => Ts { days: 0, secs: 0 },
        };
        Account {
            account_id,
            status: AcctStatus::Stop,
            typ: AcctType::Backtest,
            kind: Kind::Stock,
            cash_init: 0,
            cash_available: 0,
            cash_frozen: 0,
            total_net_value: 0,
            total_hold_value: 0,
            cost: 0,
            profit: 0,
            profit_rate: 0,
            close_profit: 0,
            total_profit: 0,
            total_profit_rate: 0,
            broker_fee: 250,
            transfer_fee: 20,
            tax_fee: 1000,
            start_time,
            end_time: None,
            position: Vec::new(),
            entrust: Vec::new(),
            deal: Vec::new(),
            signal: Vec::new(),
            is_trading: false,
        }
    }

    /// The fee for one side at this account's rates; a pure function of its
    /// arguments and the three rate fields.
    pub fn get_fee(&self, typ: ActionType, code: &str, price: u64, volume: u32) -> (r: i128)
        requires
            self.broker_fee <= 1000000,
            self.transfer_fee <= 1000000,
            self.tax_fee <= 1000000,
        ensures
            r == fee_spec(self.broker_fee, self.transfer_fee, self.tax_fee, typ, code@, price, volume),
            0 <= r,
            wf_money(r as int),
    {
        proof {
            lemma_total_rate_bounds(price, volume, self.broker_fee);
            lemma_total_rate_bounds(price, volume, self.transfer_fee);
            lemma_total_rate_bounds(price, volume, self.tax_fee);
        }
        let total: u128 = (price as u128) * (volume as u128);
        let bf0: u128 = total * (self.broker_fee as u128) / 1000000;
        let bf: i128 = if bf0 < MIN_BROKER_FEE as u128 {
            MIN_BROKER_FEE
        } else {
            bf0 as i128
        };
        let tax: i128 = match typ {
            ActionType::Buy => {
                if str_has_prefix(code, "sh6") {
                    (total * (self.transfer_fee as u128) / 1000000) as i128
                } else {
                    0
                }
            },
            ActionType::Sell => {
                if str_has_prefix(code, "sz") || str_has_prefix(code, "sh") {
                    (total * (self.tax_fee as u128) / 1000000) as i128
                } else {
                    0
                }
            },
        };
        bf + tax
    }

    /// The full cost of one side: the fee plus the traded value.
    pub fn get_cost(&self, typ: ActionType, code: &str, price: u64, volume: u32) -> (r: i128)
        requires
            self.broker_fee <= 1000000,
            self.transfer_fee <= 1000000,
            self.tax_fee <= 1000000,
        ensures
            r == fee_spec(self.broker_fee, self.transfer_fee, self.tax_fee, typ, code@, price, volume)
                + price * volume,
            0 <= r,
    {
        let fee = self.get_fee(typ, code, price, volume);
        proof {
            lemma_total_rate_bounds(price, volume, 1000000u32);
        }
        fee + (price as u128 * volume as u128) as i128
    }

    /// Records a signal on the account's history.
    pub fn update_account_signal(&mut self, signal: &Signal)
        ensures
            final(self).signal@ == old(self).signal@.push(*signal),
            *final(self) == (Account { signal: final(self).signal, ..*old(self) }),
    {
        self.signal.push(signal.clone());
    }

    /// Appends a freshly converted entrust to the account's book.
    pub fn update_account_entrust(&mut self, entrust: &Entrust)
        requires
            old(self).wf(),
            entrust.wf(),
        ensures
            final(self).entrust@ == old(self).entrust@.push(*entrust),
            *final(self) == (Account { entrust: final(self).entrust, ..*old(self) }),
            final(self).wf(),
    {
        self.entrust.push(entrust.clone());
        proof {
            assert(forall|i: int|
                0 <= i < old(self).entrust@.len() ==> self.entrust@[i] == old(self).entrust@[i]);
        }
    }
}

/// What one quotation event does to the account; mirrors
/// `Account::update_account_quot` clause for clause, so the hub's contract
/// can carry it too. `quot` is matched by variant: the stream start changes
/// nothing; the session opens and the morning close toggle `is_trading`; a
/// bar batch reprices every position and recomputes the aggregates; the noon
/// close reconciles and (outside backtests) clears the day's books; the
/// stream end stamps `end_time`.
pub open spec fn quot_update_spec(a0: Account, a1: Account, quot: QuotData) -> bool {
    &&& (quot matches QuotData::QuotStart(_) ==> a1 == a0)
    &&& ((quot matches QuotData::MorningStart(_) || quot matches QuotData::NoonStart(_))
                ==> a1 == (Account { is_trading: true, ..a0 }))
    &&& (quot matches QuotData::MorningEnd(_) ==> a1 == (Account {
                is_trading: false,
                ..a0
            }))
    &&& (quot matches QuotData::QuotEnd(st) ==> a1 == (Account {
                end_time: Some(st.time),
                ..a0
            }))
    &&& (quot matches QuotData::Quot(bars) ==> {
                &&& a1.position@.len() == a0.position@.len()
                &&& (forall|i: int|
                    0 <= i < a0.position@.len() ==> a1.position@[i]
                        == spec_pos_after_bars(a0.position@[i], bars@))
                &&& a1.profit == fold_profit(a1.position@)
                &&& a1.total_hold_value == fold_hold(a1.position@)
                &&& a1.cost == fold_cost(a1.position@)
                &&& a1.profit_rate == if a1.cost > 0 {
                    rate_ppm(a1.profit as int, a1.cost as int)
                } else {
                    a0.profit_rate as int
                }
                &&& a1.total_net_value == clamp_money(
                    clamp_money(a0.cash_available + a0.cash_frozen)
                        + a1.total_hold_value,
                )
                &&& a1.total_profit == clamp_money(
                    a0.close_profit + a1.profit,
                )
                &&& a1.total_profit_rate == rate_ppm(
                    a1.total_profit as int,
                    a0.cash_init as int,
                )
                &&& a1 == (Account {
                    position: a1.position,
                    profit: a1.profit,
                    profit_rate: a1.profit_rate,
                    cost: a1.cost,
                    total_hold_value: a1.total_hold_value,
                    total_net_value: a1.total_net_value,
                    total_profit: a1.total_profit,
                    total_profit_rate: a1.total_profit_rate,
                    ..a0
                })
            })
    &&& (quot matches QuotData::NoonEnd(_) ==> {
                &&& a1.position@.len() == a0.position@.len()
                &&& (forall|i: int|
                    0 <= i < a0.position@.len() ==> a1.position@[i]
                        == spec_pos_reconciled(a0.position@[i]))
                &&& a1.entrust@ == if a0.typ is Backtest {
                    a0.entrust@.map_values(|e: Entrust| spec_entrust_noon_end(e))
                } else {
                    Seq::<Entrust>::empty()
                }
                &&& a1.deal@ == if a0.typ is Backtest {
                    a0.deal@
                } else {
                    Seq::<Deal>::empty()
                }
                &&& a1.cash_available == clamp_money(
                    a0.cash_available + a0.cash_frozen,
                )
                &&& a1.cash_frozen == 0
                &&& !a1.is_trading
                &&& a1 == (Account {
                    position: a1.position,
                    entrust: a1.entrust,
                    deal: a1.deal,
                    cash_available: a1.cash_available,
                    cash_frozen: a1.cash_frozen,
                    is_trading: false,
                    ..a0
                })
            })
}

impl Account {
    /// Applies one quotation event to the ledger, as the hub does on every
    /// delivery.
    pub fn update_account_quot(&mut self, quot: &QuotData)
        requires
            old(self).wf(),
        ensures
            final(self).wf(),
            quot_update_spec(*old(self), *final(self), *quot),
    {
        match quot {
            QuotData::Quot(bars) => {
                self.reprice_positions(bars);
                if self.cost > 0 {
                    self.profit_rate = rate_ppm_exec(self.profit, self.cost);
                }
                self.total_net_value = madd(
                    madd(self.cash_available, self.cash_frozen),
                    self.total_hold_value,
                );
                self.total_profit = madd(self.close_profit, self.profit);
                self.total_profit_rate = rate_ppm_exec(self.total_profit, self.cash_init);
            },
            QuotData::QuotStart(_) => {},
            QuotData::MorningStart(_) | QuotData::NoonStart(_) => {
                self.is_trading = true;
            },
            QuotData::MorningEnd(_) => {
                self.is_trading = false;
            },
            QuotData::NoonEnd(_) => {
                self.is_trading = false;
                self.reconcile_noon_end();
            },
            QuotData::QuotEnd(st) => {
                self.end_time = Some(st.time);
            },
        }
    }

    /// Reprices every position from the bar batch and recomputes the three
    /// clamped position aggregates.
    fn reprice_positions(&mut self, bars: &Vec<QuotBar>)
        requires
            old(self).wf(),
        ensures
            final(self).wf(),
            final(self).position@.len() == old(self).position@.len(),
            forall|i: int|
                0 <= i < old(self).position@.len() ==> final(self).position@[i]
                    == spec_pos_after_bars(old(self).position@[i], bars@),
            final(self).profit == fold_profit(final(self).position@),
            final(self).total_hold_value == fold_hold(final(self).position@),
            final(self).cost == fold_cost(final(self).position@),
            *final(self) == (Account {
                position: final(self).position,
                profit: final(self).profit,
                total_hold_value: final(self).total_hold_value,
                cost: final(self).cost,
                ..*old(self)
            }),
    {
        let n = self.position.len();
        let mut updated: Vec<Position> = Vec::new();
        let mut profit_acc: i128 = 0;
        let mut hold_acc: i128 = 0;
        let mut cost_acc: i128 = 0;
        let mut i: usize = 0;
        while i < n
            invariant
                0 <= i <= n,
                n == self.position@.len(),
                self.position@ == old(self).position@,
                old(self).wf(),
                updated@.len() == i,
                forall|j: int|
                    0 <= j < i ==> updated@[j] == spec_pos_after_bars(
                        old(self).position@[j],
                        bars@,
                    ),
                forall|j: int| 0 <= j < i ==> (#[trigger] updated@[j]).wf(),
                forall|j: int|
                    0 <= j < i ==> (#[trigger] updated@[j]).code@ == old(self).position@[j].code@,
                profit_acc == fold_profit(updated@),
                hold_acc == fold_hold(updated@),
                cost_acc == fold_cost(updated@),
                wf_money(profit_acc as int),
                wf_money(hold_acc as int),
                wf_money(cost_acc as int),
            decreases n - i,
        {
            let p = &self.position[i];
            assert(p.wf());
            let q: Position = match find_bar(bars, &p.code) {
                Some(b) => {
                    let mut c = p.clone();
                    c.on_update_quot(b);
                    proof {
                        assert(c == spec_pos_after_bar(*p, *b));
                    }
                    c
                },
                None => p.clone(),
            };
            proof {
                assert(q == spec_pos_after_bars(old(self).position@[i as int], bars@));
            }
            let ghost prev = updated@;
            profit_acc = madd(profit_acc, q.profit);
            let pv = mul_price_vol(q.now_price, q.volume);
            hold_acc = madd(hold_acc, pv);
            cost_acc = madd(cost_acc, madd(mul_price_vol(q.price, q.volume), q.fee));
            updated.push(q);
            proof {
                assert(updated@.drop_last() =~= prev);
                assert(updated@.last() == q);
                assert(clamp_money(q.now_price * q.volume) == q.now_price * q.volume);
            }
            i = i + 1;
        }
        proof {
            assert(position_codes_unique(updated@));
        }
        self.position = updated;
        self.profit = profit_acc;
        self.total_hold_value = hold_acc;
        self.cost = cost_acc;
    }

    /// The end-of-noon reconciliation: unfreezes every position, cancels
    /// outstanding `Commit` entrusts, moves frozen cash back, and clears the
    /// entrust and deal books outside backtests.
    fn reconcile_noon_end(&mut self)
        requires
            old(self).wf(),
        ensures
            final(self).wf(),
            final(self).position@.len() == old(self).position@.len(),
            forall|i: int|
                0 <= i < old(self).position@.len() ==> final(self).position@[i]
                    == spec_pos_reconciled(old(self).position@[i]),
            final(self).entrust@ == if old(self).typ is Backtest {
                old(self).entrust@.map_values(|e: Entrust| spec_entrust_noon_end(e))
            } else {
                Seq::<Entrust>::empty()
            },
            final(self).deal@ == if old(self).typ is Backtest {
                old(self).deal@
            } else {
                Seq::<Deal>::empty()
            },
            final(self).cash_available == clamp_money(
                old(self).cash_available + old(self).cash_frozen,
            ),
            final(self).cash_frozen == 0,
            *final(self) == (Account {
                position: final(self).position,
                entrust: final(self).entrust,
                deal: final(self).deal,
                cash_available: final(self).cash_available,
                cash_frozen: final(self).cash_frozen,
                ..*old(self)
            }),
    {
        let n = self.position.len();
        let mut reconciled: Vec<Position> = Vec::new();
        let mut i: usize = 0;
        while i < n
            invariant
                0 <= i <= n,
                n == self.position@.len(),
                self.position@ == old(self).position@,
                old(self).wf(),
                reconciled@.len() == i,
                forall|j: int|
                    0 <= j < i ==> reconciled@[j] == spec_pos_reconciled(old(self).position@[j]),
                forall|j: int| 0 <= j < i ==> (#[trigger] reconciled@[j]).wf(),
                forall|j: int|
                    0 <= j < i ==> (#[trigger] reconciled@[j]).code@ == old(self).position@[j].code@,
            decreases n - i,
        {
            let p = &self.position[i];
            assert(p.wf());
            let mut q = p.clone();
            if q.volume != q.volume_available {
                q.volume_frozen = 0;
                q.volume_available = q.volume;
            }
            proof {
                assert(q == spec_pos_reconciled(old(self).position@[i as int]));
            }
            reconciled.push(q);
            i = i + 1;
        }
        proof {
            assert(position_codes_unique(reconciled@));
        }
        self.position = reconciled;

        let m = self.entrust.len();
        let mut marked: Vec<Entrust> = Vec::new();
        let mut k: usize = 0;
        while k < m
            invariant
                0 <= k <= m,
                m == self.entrust@.len(),
                self.entrust@ == old(self).entrust@,
                old(self).wf(),
                marked@.len() == k,
                forall|j: int|
                    0 <= j < k ==> marked@[j] == spec_entrust_noon_end(old(self).entrust@[j]),
                forall|j: int| 0 <= j < k ==> (#[trigger] marked@[j]).wf(),
            decreases m - k,
        {
            let e = &self.entrust[k];
            assert(e.wf());
            let mut w = e.clone();
            if matches!(w.status, EntrustStatus::Commit) {
                w.status = EntrustStatus::Cancel;
            }
            proof {
                assert(w == spec_entrust_noon_end(old(self).entrust@[k as int]));
            }
            marked.push(w);
            k = k + 1;
        }
        self.entrust = marked;

        self.cash_available = madd(self.cash_available, self.cash_frozen);
        self.cash_frozen = 0;

        if !matches!(self.typ, AcctType::Backtest) {
            self.entrust = Vec::new();
            self.deal = Vec::new();
        }
        proof {
            if old(self).typ is Backtest {
                assert(self.entrust@ =~= old(self).entrust@.map_values(
                    |e: Entrust| spec_entrust_noon_end(e),
                ));
            }
        }
    }
}

/// The fill ledger stays inside the requested volume after adding this fill.
pub open spec fn fill_guard(local: Entrust, push: Entrust) -> bool {
    local.volume_deal + push.volume_deal + local.volume_cancel <= local.volume
}

/// The cancel ledger stays inside the requested volume.
pub open spec fn cancel_guard(local: Entrust, push: Entrust) -> bool {
    local.volume_deal + push.volume_cancel <= local.volume
}

/// The local entrust after a fill push: the broker's status and identifier,
/// the filled volume accumulated, and a full fill promoted to `Deal`.
pub open spec fn spec_entrust_after_fill(local: Entrust, push: Entrust) -> Entrust {
    let nd = (local.volume_deal + push.volume_deal) as u32;
    let st = if push.status is PartDeal && nd == local.volume {
        EntrustStatus::Deal
    } else {
        push.status
    };
    Entrust { status: st, broker_entrust_id: push.broker_entrust_id, volume_deal: nd, ..local }
}

/// The local entrust after a cancel push.
pub open spec fn spec_entrust_after_cancel(local: Entrust, push: Entrust) -> Entrust {
    Entrust {
        status: push.status,
        broker_entrust_id: push.broker_entrust_id,
        volume_cancel: push.volume_cancel,
        ..local
    }
}

/// The local entrust after a plain status push.
pub open spec fn spec_entrust_after_status(local: Entrust, push: Entrust) -> Entrust {
    Entrust { status: push.status, broker_entrust_id: push.broker_entrust_id, ..local }
}

/// What one priced fill does to the positions, the available cash and the
/// realized result; everything else is left alone. A buy grows or opens the
/// position for `code` and pays value plus fee; a sell of at most the held
/// volume shrinks or closes it, collects value minus fee, and realizes the
/// spread into `close_profit`; a cancel, an unknown or over-held sell, or a
/// buy that would overflow the volume counter changes nothing.
pub open spec fn apply_deal_spec(
    a0: Account,
    a1: Account,
    deal_type: EntrustType,
    code: Seq<char>,
    price: u64,
    volume: u32,
    fee: i128,
) -> bool {
    match deal_type {
        EntrustType::Cancel => unchanged_books(a0, a1),
        EntrustType::Buy => match spec_find_position(a0.position@, code) {
            Some(i) => {
                if a0.position@[i].volume + volume <= u32::MAX {
                    &&& a1.position@ == a0.position@.update(
                        i,
                        spec_pos_after_buy(a0.position@[i], price, volume, fee),
                    )
                    &&& a1.cash_available == clamp_money(
                        a0.cash_available - clamp_money(price * volume + fee),
                    )
                    &&& a1.close_profit == a0.close_profit
                } else {
                    unchanged_books(a0, a1)
                }
            },
            None => {
                &&& a1.position@.len() == a0.position@.len() + 1
                &&& a1.position@ == a0.position@.push(a1.position@.last())
                &&& a1.position@.last().code@ == code
                &&& a1.position@.last().volume == volume
                &&& a1.position@.last().volume_available == volume
                &&& a1.position@.last().volume_frozen == 0
                &&& a1.position@.last().price == price
                &&& a1.position@.last().fee == fee
                &&& a1.cash_available == clamp_money(
                    a0.cash_available - clamp_money(price * volume + fee),
                )
                &&& a1.close_profit == a0.close_profit
            },
        },
        EntrustType::Sell => match spec_find_position(a0.position@, code) {
            Some(i) => {
                if a0.position@[i].volume >= volume {
                    let p2 = spec_pos_after_sell(a0.position@[i], volume);
                    &&& a1.position@ == if p2.volume == 0 {
                        a0.position@.remove(i)
                    } else {
                        a0.position@.update(i, p2)
                    }
                    &&& a1.close_profit == clamp_money(
                        a0.close_profit + clamp_money(
                            (price - a0.position@[i].price) * volume - fee,
                        ),
                    )
                    &&& a1.cash_available == clamp_money(
                        a0.cash_available + clamp_money(price * volume - fee),
                    )
                } else {
                    unchanged_books(a0, a1)
                }
            },
            None => unchanged_books(a0, a1),
        },
    }
}

/// The positions, the available cash and the realized result are untouched.
pub open spec fn unchanged_books(a0: Account, a1: Account) -> bool {
    &&& a1.position@ == a0.position@
    &&& a1.cash_available == a0.cash_available
    &&& a1.close_profit == a0.close_profit
}

impl Account {
    /// Applies one priced fill to the positions and the cash ledger. Buys
    /// grow or open the position for the deal's code and pay cash; sells
    /// shrink or close it and collect cash, booking the realized result into
    /// `close_profit`. A sell without enough volume held, or a buy that would
    /// overflow the volume counter, is a protocol violation and changes
    /// nothing; so does a cancel deal.
    pub fn update_position(&mut self, deal: &Deal)
        requires
            old(self).wf(),
            0 <= deal.fee <= MONEY_MAX,
        ensures
            final(self).wf(),
            apply_deal_spec(
                *old(self),
                *final(self),
                deal.deal_type,
                deal.code@,
                deal.price,
                deal.volume,
                deal.fee,
            ),
            (deal.deal_type is Buy && spec_find_position(old(self).position@, deal.code@) is None)
                ==> final(self).position@.last().name == deal.name
                && final(self).position@.last().time == deal.time,
            *final(self) == (Account {
                position: final(self).position,
                cash_available: final(self).cash_available,
                close_profit: final(self).close_profit,
                ..*old(self)
            }),
    {
        match deal.deal_type {
            EntrustType::Buy => {
                let cost = madd(mul_price_vol(deal.price, deal.volume), deal.fee);
                match find_position(&self.position, &deal.code) {
                    Some(i) => {
                        let p = &self.position[i];
                        if deal.volume <= u32::MAX - p.volume {
                            let mut q = p.clone();
                            q.apply_buy_fill(deal.price, deal.volume, deal.fee);
                            self.position.set(i, q);
                            proof {
                                assert(self.position@[i as int].code@ == old(self).position@[i as int].code@);
                                assert(forall|x: int|
                                    0 <= x < self.position@.len() && x != i
                                        ==> self.position@[x] == old(self).position@[x]);
                                assert(position_codes_unique(self.position@));
                            }
                            self.cash_available = msub(self.cash_available, cost);
                        } else {
                            proof {
                                assert(self.position@ =~= old(self).position@);
                            }
                        }
                    },
                    None => {
                        proof {
                            lemma_find_position_none_inv(old(self).position@, deal.code@);
                        }
                        let q = Position::new_from_deal(deal);
                        self.position.push(q);
                        proof {
                            assert(forall|x: int|
                                0 <= x < old(self).position@.len() ==> self.position@[x] == old(
                                    self,
                                ).position@[x]);
                            assert(position_codes_unique(self.position@));
                        }
                        self.cash_available = msub(self.cash_available, cost);
                    },
                }
            },
            EntrustType::Sell => {
                match find_position(&self.position, &deal.code) {
                    Some(i) => {
                        let p = &self.position[i];
                        if p.volume >= deal.volume {
                            let mut q = p.clone();
                            let reduced = q.apply_sell_fill(deal.volume);
                            self.close_profit = madd(
                                self.close_profit,
                                msub(mul_diff_vol(deal.price, p.price, deal.volume), deal.fee),
                            );
                            self.cash_available = madd(
                                self.cash_available,
                                msub(mul_price_vol(deal.price, deal.volume), deal.fee),
                            );
                            if q.volume == 0 {
                                self.position.remove(i);
                                proof {
                                    assert forall|x: int, y: int|
                                        0 <= x < y < self.position@.len() implies (
                                    #[trigger] self.position@[x]).code@ != (
                                    #[trigger] self.position@[y]).code@ by {
                                        let x0: int = if x < i { x } else { x + 1 };
                                        let y0: int = if y < i { y } else { y + 1 };
                                        assert(self.position@[x] == old(self).position@[x0]);
                                        assert(self.position@[y] == old(self).position@[y0]);
                                    }
                                }
                            } else {
                                self.position.set(i, q);
                                proof {
                                    assert(self.position@[i as int].code@ == old(self).position@[i as int].code@);
                                    assert(forall|x: int|
                                        0 <= x < self.position@.len() && x != i
                                            ==> self.position@[x] == old(self).position@[x]);
                                    assert(position_codes_unique(self.position@));
                                }
                            }
                        }
                    },
                    None => {},
                }
            },
            EntrustType::Cancel => {},
        }
    }

}

/// What one broker push does to the account; mirrors
/// `Account::update_broker_push` clause for clause, so the hub's contract can
/// carry it too: the entrust book's size never changes, every entrust makes
/// only legal status moves (none leaves a terminal status), only an entrust
/// push changes anything, and a fill's side effects follow `apply_deal_spec`
/// with the booked deal.
pub open spec fn broker_push_spec(a0: Account, a1: Account, event: BrokerEvent) -> bool {
    &&& (a1.entrust@.len() == a0.entrust@.len())
    &&& (forall|i: int|
                0 <= i < a0.entrust@.len() ==> status_step_ok(
                    a0.entrust@[i].status,
                    a1.entrust@[i].status,
                ))
    &&& (!(event matches BrokerEvent::Entrust(_)) ==> a1 == a0)
    &&& (event matches BrokerEvent::Entrust(push) ==> match spec_find_entrust(
                a0.entrust@,
                push.entrust_id@,
            ) {
                None => a1 == a0,
                Some(i) => {
                    let local = a0.entrust@[i];
                    if local.status.is_terminal() {
                        a1 == a0
                    } else if push.status is Deal || push.status is PartDeal {
                        if !fill_guard(local, push) {
                            a1 == a0
                        } else if push.entrust_type is Cancel {
                            a1 == (Account {
                                entrust: a1.entrust,
                                ..a0
                            }) && a1.entrust@ == a0.entrust@.update(
                                i,
                                spec_entrust_after_fill(local, push),
                            )
                        } else {
                            let fee = fee_spec(
                                a0.broker_fee,
                                a0.transfer_fee,
                                a0.tax_fee,
                                if push.entrust_type is Buy {
                                    ActionType::Buy
                                } else {
                                    ActionType::Sell
                                },
                                push.code@,
                                push.price,
                                push.volume_deal,
                            );
                            &&& a1.entrust@ == a0.entrust@.update(
                                i,
                                spec_entrust_after_fill(local, push),
                            )
                            &&& a1.deal@.len() == a0.deal@.len() + 1
                            &&& a1.deal@ == a0.deal@.push(a1.deal@.last())
                            &&& a1.deal@.last().entrust_id == push.entrust_id
                            &&& a1.deal@.last().code == push.code
                            &&& a1.deal@.last().name == push.name
                            &&& a1.deal@.last().time == push.time
                            &&& a1.deal@.last().deal_type == push.entrust_type
                            &&& a1.deal@.last().price == push.price
                            &&& a1.deal@.last().volume == push.volume_deal
                            &&& a1.deal@.last().fee == fee
                            &&& a1.deal@.last().deal_id@.len() == 32
                            &&& apply_deal_spec(
                                a0,
                                a1,
                                push.entrust_type,
                                push.code@,
                                push.price,
                                push.volume_deal,
                                a1.deal@.last().fee,
                            )
                            &&& a1 == (Account {
                                entrust: a1.entrust,
                                deal: a1.deal,
                                position: a1.position,
                                cash_available: a1.cash_available,
                                close_profit: a1.close_profit,
                                ..a0
                            })
                        }
                    } else if push.status is Cancel {
                        if cancel_guard(local, push) {
                            a1 == (Account {
                                entrust: a1.entrust,
                                ..a0
                            }) && a1.entrust@ == a0.entrust@.update(
                                i,
                                spec_entrust_after_cancel(local, push),
                            )
                        } else {
                            a1 == a0
                        }
                    } else {
                        a1 == (Account { entrust: a1.entrust, ..a0 })
                            && a1.entrust@ == a0.entrust@.update(
                            i,
                            spec_entrust_after_status(local, push),
                        )
                    }
                },
            })
}

impl Account {
    /// Applies one broker push. An entrust update finds the local entrust by
    /// identifier and, unless it is already terminal or the pushed volumes
    /// would over-commit it (a protocol violation, dropped), carries the
    /// broker's word onto it; a fill on a buy or sell prices the fee, books a
    /// deal, and applies it to positions and cash. Fund and position
    /// snapshots are accepted and ignored.
    pub fn update_broker_push(&mut self, event: &BrokerEvent)
        requires
            old(self).wf(),
        ensures
            final(self).wf(),
            broker_push_spec(*old(self), *final(self), *event),
    {
        match event {
            BrokerEvent::Entrust(push) => {
                let found = find_entrust(&self.entrust, &push.entrust_id);
                if let Some(i) = found {
                    let local = &self.entrust[i];
                    if matches!(local.status, EntrustStatus::Deal | EntrustStatus::Cancel) {
                        return ;
                    }
                    match push.status {
                        EntrustStatus::Deal | EntrustStatus::PartDeal => {
                            let nd: u64 = local.volume_deal as u64 + push.volume_deal as u64;
                            if nd + local.volume_cancel as u64 > local.volume as u64 {
                                return ;
                            }
                            let mut e = local.clone();
                            e.status = push.status;
                            e.broker_entrust_id = match &push.broker_entrust_id {
                                Some(id) => Some(id.clone()),
                                None => None,
                            };
                            e.volume_deal = e.volume_deal + push.volume_deal;
                            if matches!(push.status, EntrustStatus::PartDeal) && e.volume_deal
                                == e.volume {
                                e.status = EntrustStatus::Deal;
                            }
                            proof {
                                assert(e == spec_entrust_after_fill(
                                    old(self).entrust@[i as int],
                                    *push,
                                ));
                            }
                            let fee: i128 = match push.entrust_type {
                                EntrustType::Buy => self.get_fee(
                                    ActionType::Buy,
                                    push.code.as_str(),
                                    push.price,
                                    push.volume_deal,
                                ),
                                EntrustType::Sell => self.get_fee(
                                    ActionType::Sell,
                                    push.code.as_str(),
                                    push.price,
                                    push.volume_deal,
                                ),
                                EntrustType::Cancel => {
                                    self.entrust.set(i, e);
                                    return ;
                                },
                            };
                            let mut deal = Deal::new_from_entrust(push);
                            deal.fee = fee;
                            self.entrust.set(i, e);
                            let ghost mid = *self;
                            self.update_position(&deal);
                            proof {
                                assert(mid.position@ == old(self).position@);
                                assert(mid.cash_available == old(self).cash_available);
                                assert(mid.close_profit == old(self).close_profit);
                                assert(apply_deal_spec(
                                    *old(self),
                                    *self,
                                    deal.deal_type,
                                    deal.code@,
                                    deal.price,
                                    deal.volume,
                                    deal.fee,
                                ));
                            }
                            self.deal.push(deal);
                        },
                        EntrustStatus::Cancel => {
                            if local.volume_deal as u64 + push.volume_cancel as u64 > local.volume
                                as u64 {
                                return ;
                            }
                            let mut e = local.clone();
                            e.status = push.status;
                            e.broker_entrust_id = match &push.broker_entrust_id {
                                Some(id) => Some(id.clone()),
                                None => None,
                            };
                            e.volume_cancel = push.volume_cancel;
                            proof {
                                assert(e == spec_entrust_after_cancel(
                                    old(self).entrust@[i as int],
                                    *push,
                                ));
                            }
                            self.entrust.set(i, e);
                        },
                        _ => {
                            let mut e = local.clone();
                            e.status = push.status;
                            e.broker_entrust_id = match &push.broker_entrust_id {
                                Some(id) => Some(id.clone()),
                                None => None,
                            };
                            proof {
                                assert(e == spec_entrust_after_status(
                                    old(self).entrust@[i as int],
                                    *push,
                                ));
                            }
                            self.entrust.set(i, e);
                        },
                    }
                }
            },
            _ => {},
        }
    }
}

/// Finds the position for `code`; the result is the book's first match.
fn find_position(positions: &Vec<Position>, code: &String) -> (r: Option<usize>)
    ensures
        match r {
            Some(i) => i < positions@.len() && spec_find_position(positions@, code@) == Some(
                i as int,
            ),
            None => spec_find_position(positions@, code@) is None,
        },
{
    let n = positions.len();
    let mut i: usize = 0;
    while i < n
        invariant
            0 <= i <= n,
            n == positions@.len(),
            forall|j: int| 0 <= j < i ==> (#[trigger] positions@[j]).code@ != code@,
        decreases n - i,
    {
        if str_eq_str(positions[i].code.as_str(), code.as_str()) {
            proof {
                lemma_find_position_prefix(positions@, code@, i as int);
            }
            return Some(i);
        }
        i = i + 1;
    }
    proof {
        lemma_find_position_none(positions@, code@);
    }
    None
}

/// If nothing before `i` matches and `s[i]` does, the first match is `i`.
proof fn lemma_find_position_prefix(s: Seq<Position>, code: Seq<char>, i: int)
    requires
        0 <= i < s.len(),
        s[i].code@ == code,
        forall|j: int| 0 <= j < i ==> (#[trigger] s[j]).code@ != code,
    ensures
        spec_find_position(s, code) == Some(i),
    decreases i,
{
    if i == 0 {
    } else {
        assert(s.drop_first()[i - 1] == s[i]);
        assert(forall|j: int|
            0 <= j < i - 1 ==> (#[trigger] s.drop_first()[j]).code@ != code && s.drop_first()[j]
                == s[j + 1]);
        lemma_find_position_prefix(s.drop_first(), code, i - 1);
    }
}

/// If nothing matches, there is no first match.
proof fn lemma_find_position_none(s: Seq<Position>, code: Seq<char>)
    requires
        forall|j: int| 0 <= j < s.len() ==> (#[trigger] s[j]).code@ != code,
    ensures
        spec_find_position(s, code) is None,
    decreases s.len(),
{
    if s.len() > 0 {
        assert(forall|j: int|
            0 <= j < s.drop_first().len() ==> (#[trigger] s.drop_first()[j]) == s[j + 1]);
        lemma_find_position_none(s.drop_first(), code);
    }
}

/// No first match means nothing matches.
proof fn lemma_find_position_none_inv(s: Seq<Position>, code: Seq<char>)
    requires
        spec_find_position(s, code) is None,
    ensures
        forall|j: int| 0 <= j < s.len() ==> (#[trigger] s[j]).code@ != code,
    decreases s.len(),
{
    if s.len() > 0 {
        lemma_find_position_none_inv(s.drop_first(), code);
        assert forall|j: int| 0 <= j < s.len() implies (#[trigger] s[j]).code@ != code by {
            if j > 0 {
                assert(s.drop_first()[j - 1] == s[j]);
            }
        }
    }
}

/// Finds the entrust with identifier `id`; the result is the book's first
/// match.
fn find_entrust(entrusts: &Vec<Entrust>, id: &String) -> (r: Option<usize>)
    ensures
        match r {
            Some(i) => i < entrusts@.len() && spec_find_entrust(entrusts@, id@) == Some(i as int),
            None => spec_find_entrust(entrusts@, id@) is None,
        },
{
    let n = entrusts.len();
    let mut i: usize = 0;
    while i < n
        invariant
            0 <= i <= n,
            n == entrusts@.len(),
            forall|j: int| 0 <= j < i ==> (#[trigger] entrusts@[j]).entrust_id@ != id@,
        decreases n - i,
    {
        if str_eq_str(entrusts[i].entrust_id.as_str(), id.as_str()) {
            proof {
                lemma_find_entrust_prefix(entrusts@, id@, i as int);
            }
            return Some(i);
        }
        i = i + 1;
    }
    proof {
        lemma_find_entrust_none(entrusts@, id@);
    }
    None
}

/// If nothing before `i` matches and `s[i]` does, the first match is `i`.
proof fn lemma_find_entrust_prefix(s: Seq<Entrust>, id: Seq<char>, i: int)
    requires
        0 <= i < s.len(),
        s[i].entrust_id@ == id,
        forall|j: int| 0 <= j < i ==> (#[trigger] s[j]).entrust_id@ != id,
    ensures
        spec_find_entrust(s, id) == Some(i),
    decreases i,
{
    if i == 0 {
    } else {
        assert(s.drop_first()[i - 1] == s[i]);
        assert(forall|j: int|
            0 <= j < i - 1 ==> (#[trigger] s.drop_first()[j]).entrust_id@ != id && s.drop_first()[j]
                == s[j + 1]);
        lemma_find_entrust_prefix(s.drop_first(), id, i - 1);
    }
}

/// If nothing matches, there is no first match.
proof fn lemma_find_entrust_none(s: Seq<Entrust>, id: Seq<char>)
    requires
        forall|j: int| 0 <= j < s.len() ==> (#[trigger] s[j]).entrust_id@ != id,
    ensures
        spec_find_entrust(s, id) is None,
    decreases s.len(),
{
    if s.len() > 0 {
        assert(forall|j: int|
            0 <= j < s.drop_first().len() ==> (#[trigger] s.drop_first()[j]) == s[j + 1]);
        lemma_find_entrust_none(s.drop_first(), id);
    }
}

/// Finds the bar for `code` in a batch; the result is the batch's first match.
fn find_bar<'a>(bars: &'a Vec<QuotBar>, code: &String) -> (r: Option<&'a QuotBar>)
    ensures
        match r {
            Some(b) => spec_find_bar(bars@, code@) == Some(*b),
            None => spec_find_bar(bars@, code@) is None,
        },
{
    let n = bars.len();
    let mut i: usize = 0;
    proof {
        assert(bars@.skip(0) =~= bars@);
    }
    while i < n
        invariant
            0 <= i <= n,
            n == bars@.len(),
            spec_find_bar(bars@, code@) == spec_find_bar(bars@.skip(i as int), code@),
        decreases n - i,
    {
        let b = &bars[i];
        if str_eq_str(b.quot.code.as_str(), code.as_str()) {
            proof {
                assert(bars@.skip(i as int)[0] == bars@[i as int]);
            }
            return Some(b);
        }
        proof {
            lemma_find_bar_skip_step(bars@, code@, i as int);
        }
        i = i + 1;
    }
    proof {
        assert(bars@.skip(n as int) =~= Seq::<QuotBar>::empty());
    }
    None
}

/// Skipping past a non-matching head leaves the first match unchanged.
proof fn lemma_find_bar_skip_step(s: Seq<QuotBar>, code: Seq<char>, i: int)
    requires
        0 <= i < s.len(),
        s[i].quot.code@ != code,
    ensures
        spec_find_bar(s.skip(i), code) == spec_find_bar(s.skip(i + 1), code),
{
    assert(s.skip(i)[0] == s[i]);
    assert(s.skip(i).drop_first() =~= s.skip(i + 1));
}

/// `price * volume * rate` stays far inside the rails when the rate is at
/// most a million parts per million.
pub proof fn lemma_total_rate_bounds(price: u64, volume: u32, ppm: u32)
    requires
        ppm <= 1000000,
    ensures
        0 <= (price * volume) * ppm <= u64::MAX * (u32::MAX as int) * 1000000,
        (price * volume) * ppm / 1000000 <= MONEY_MAX,
        price * volume <= MONEY_MAX,
{
    let total = price * volume;
    assert(0 <= total <= u64::MAX * (u32::MAX as int)) by (nonlinear_arith)
        requires
            0 <= price <= u64::MAX,
            0 <= volume <= u32::MAX,
            total == price * volume,
    ;
    assert(0 <= total * ppm <= u64::MAX * (u32::MAX as int) * 1000000) by (nonlinear_arith)
        requires
            0 <= total <= u64::MAX * (u32::MAX as int),
            0 <= ppm <= 1000000,
    ;
    assert(total * ppm / 1000000 <= u64::MAX * (u32::MAX as int) * 1000000 / 1000000) by {
        vstd::arithmetic::div_mod::lemma_div_is_ordered(
            total * ppm,
            u64::MAX * (u32::MAX as int) * 1000000,
            1000000,
        );
    }
    assert(u64::MAX * (u32::MAX as int) * 1000000 / 1000000 == u64::MAX * (u32::MAX as int)) by {
        vstd::arithmetic::div_mod::lemma_div_by_multiple(u64::MAX * (u32::MAX as int), 1000000);
    }
    assert(u64::MAX * (u32::MAX as int) < MONEY_MAX);
    assert(total * ppm / 1000000 >= 0) by (nonlinear_arith)
        requires
            total * ppm >= 0,
    ;
}

} // verus!
