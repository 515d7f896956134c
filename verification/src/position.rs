//! Holdings: one position per security code. A position's volume is always
//! split exactly into the part still sellable and the part frozen for live
//! entrusts, and every bar reprices it mark-to-market.
use vstd::prelude::*;
use vstd::arithmetic::div_mod::{lemma_div_by_multiple, lemma_div_is_ordered};

use crate::clock::Ts;
use crate::deal::Deal;
use crate::money::{
    clamp_money, madd, msub, mul_diff_vol, mul_price_vol, rate_ppm, rate_ppm_exec, wf_money,
};
use crate::quot::QuotBar;

verus! {

/// A holding in one security; prices in fixed-point money units, rates in
/// parts per million.
#[derive(Debug)]
pub struct Position {
    pub position_id: String,
    pub name: String,
    pub code: String,
    pub time: Option<Ts>,
    pub volume: u32,
    pub volume_available: u32,
    pub volume_frozen: u32,
    pub fee: i128,
    pub price: u64,
    pub now_price: u64,
    pub max_price: u64,
    pub min_price: u64,
    pub profit_rate: i64,
    pub max_profit_rate: i64,
    pub min_profit_rate: i64,
    pub profit: i128,
    pub max_profit: i128,
    pub min_profit: i128,
    pub max_profit_time: Option<Ts>,
    pub min_profit_time: Option<Ts>,
}

impl Clone for Position {
    fn clone(&self) -> (r: Self)
        ensures
            r == *self,
    {
        Position {
            position_id: self.position_id.clone(),
            name: self.name.clone(),
            code: self.code.clone(),
            time: self.time,
            volume: self.volume,
            volume_available: self.volume_available,
            volume_frozen: self.volume_frozen,
            fee: self.fee,
            price: self.price,
            now_price: self.now_price,
            max_price: self.max_price,
            min_price: self.min_price,
            profit_rate: self.profit_rate,
            max_profit_rate: self.max_profit_rate,
            min_profit_rate: self.min_profit_rate,
            profit: self.profit,
            max_profit: self.max_profit,
            min_profit: self.min_profit,
            max_profit_time: self.max_profit_time,
            min_profit_time: self.min_profit_time,
        }
    }
}

/// The holding cost of a lot: price times volume plus the fees paid.
pub open spec fn spec_cost(price: u64, volume: u32, fee: i128) -> int {
    clamp_money(price * volume + fee)
}

/// The mark-to-market profit of a lot at price `now`.
pub open spec fn spec_profit(now: u64, price: u64, volume: u32, fee: i128) -> int {
    clamp_money((now - price) * volume - fee)
}

/// The volume-weighted average of two priced lots; the first price when both
/// lots are empty.
pub open spec fn spec_avg_price(p1: u64, v1: u32, p2: u64, v2: u32) -> int {
    if v1 + v2 == 0 {
        p1 as int
    } else {
        (p1 * v1 + p2 * v2) / (v1 + v2)
    }
}

/// A position after a buy fill: the lot grows, everything new is sellable,
/// the cost basis moves to the volume-weighted average, the fee accumulates.
pub open spec fn spec_pos_after_buy(p: Position, price: u64, volume: u32, fee: i128) -> Position {
    Position {
        volume: (p.volume + volume) as u32,
        volume_available: (p.volume_available + volume) as u32,
        price: spec_avg_price(p.price, p.volume, price, volume) as u64,
        fee: clamp_money(p.fee + fee) as i128,
        ..p
    }
}

/// A position after a sell fill of at most its volume: sellable volume goes
/// first, the frozen part covers the rest.
pub open spec fn spec_pos_after_sell(p: Position, volume: u32) -> Position {
    if volume <= p.volume_available {
        Position {
            volume: (p.volume - volume) as u32,
            volume_available: (p.volume_available - volume) as u32,
            ..p
        }
    } else {
        Position {
            volume: (p.volume - volume) as u32,
            volume_available: 0u32,
            volume_frozen: (p.volume_frozen - (volume - p.volume_available)) as u32,
            ..p
        }
    }
}

pub proof fn lemma_avg_price_bounded(p1: u64, v1: u32, p2: u64, v2: u32)
    ensures
        0 <= spec_avg_price(p1, v1, p2, v2) <= u64::MAX,
{
    if v1 + v2 != 0 {
        let d: int = v1 + v2;
        let num: int = p1 * v1 + p2 * v2;
        assert(0 <= num <= u64::MAX * d) by (nonlinear_arith)
            requires
                p1 <= u64::MAX,
                p2 <= u64::MAX,
                0 <= v1,
                0 <= v2,
                d == v1 + v2,
                num == p1 * v1 + p2 * v2,
        ;
        lemma_div_is_ordered(num, u64::MAX * d, d);
        lemma_div_by_multiple(u64::MAX as int, d);
        assert(num / d >= 0) by (nonlinear_arith)
            requires
                num >= 0,
                d > 0,
        ;
    }
}

impl Position {
    /// The volume ledger: everything held is either sellable or frozen.
    pub open spec fn balanced(self) -> bool {
        self.volume == self.volume_available + self.volume_frozen
    }

    /// Balanced, with every money amount on the rails and fees non-negative.
    pub open spec fn wf(self) -> bool {
        &&& self.balanced()
        &&& 0 <= self.fee <= crate::money::MONEY_MAX
        &&& wf_money(self.profit as int)
        &&& wf_money(self.max_profit as int)
        &&& wf_money(self.min_profit as int)
    }

    /// Opens a position from the first buy fill: everything bought is
    /// sellable, the cost basis is the fill, and the mark-to-market profit
    /// starts at the fee already paid.
    pub fn new_from_deal(deal: &Deal) -> (r: Self)
        requires
            0 <= deal.fee <= crate::money::MONEY_MAX,
        ensures
            r.position_id == deal.deal_id,
            r.name == deal.name,
            r.code == deal.code,
            r.time == deal.time,
            r.volume == deal.volume,
            r.volume_available == deal.volume,
            r.volume_frozen == 0,
            r.fee == deal.fee,
            r.price == deal.price,
            r.now_price == deal.price,
            r.max_price == deal.price,
            r.min_price == deal.price,
            r.profit == -(deal.fee as int),
            r.profit_rate == rate_ppm(
                -(deal.fee as int),
                spec_cost(deal.price, deal.volume, deal.fee),
            ),
            r.max_profit == r.profit,
            r.min_profit == r.profit,
            r.wf(),
    {
        let fee: i128 = deal.fee;
        let profit: i128 = -fee;
        let cost: i128 = madd(mul_price_vol(deal.price, deal.volume), fee);
        let rate: i64 = rate_ppm_exec(profit, cost);
        Position {
            position_id: deal.deal_id.clone(),
            name: deal.name.clone(),
            code: deal.code.clone(),
            time: deal.time,
            volume: deal.volume,
            volume_available: deal.volume,
            volume_frozen: 0,
            fee,
            price: deal.price,
            now_price: deal.price,
            max_price: deal.price,
            min_price: deal.price,
            profit_rate: rate,
            max_profit_rate: rate,
            min_profit_rate: rate,
            profit,
            max_profit: profit,
            min_profit: profit,
            max_profit_time: deal.time,
            min_profit_time: deal.time,
        }
    }

    /// Reprices the position at the bar's close: updates the latest price and
    /// its running extremes, recomputes profit and its rate, and advances the
    /// profit extremes (with the bar's tick time) when strictly exceeded.
    pub fn on_update_quot(&mut self, quot_bar: &QuotBar)
        requires
            old(self).wf(),
        ensures
            final(self).wf(),
            final(self).now_price == quot_bar.close,
            final(self).max_price == if old(self).max_price < quot_bar.close {
                quot_bar.close
            } else {
                old(self).max_price
            },
            final(self).min_price == if old(self).min_price > quot_bar.close {
                quot_bar.close
            } else {
                old(self).min_price
            },
            final(self).profit == spec_profit(quot_bar.close, old(self).price, old(self).volume, old(self).fee),
            final(self).profit_rate == rate_ppm(
                final(self).profit as int,
                spec_cost(old(self).price, old(self).volume, old(self).fee),
            ),
            final(self).max_profit == if final(self).profit > old(self).max_profit {
                final(self).profit
            } else {
                old(self).max_profit
            },
            final(self).max_profit_time == if final(self).profit > old(self).max_profit {
                Some(quot_bar.quot.time)
            } else {
                old(self).max_profit_time
            },
            final(self).max_profit_rate == if final(self).profit > old(self).max_profit {
                final(self).profit_rate
            } else {
                old(self).max_profit_rate
            },
            final(self).min_profit == if final(self).profit < old(self).min_profit {
                final(self).profit
            } else {
                old(self).min_profit
            },
            final(self).min_profit_time == if final(self).profit < old(self).min_profit {
                Some(quot_bar.quot.time)
            } else {
                old(self).min_profit_time
            },
            final(self).min_profit_rate == if final(self).profit < old(self).min_profit {
                final(self).profit_rate
            } else {
                old(self).min_profit_rate
            },
            final(self).volume == old(self).volume,
            final(self).volume_available == old(self).volume_available,
            final(self).volume_frozen == old(self).volume_frozen,
            final(self).price == old(self).price,
            final(self).fee == old(self).fee,
            final(self).code == old(self).code,
            final(self).name == old(self).name,
            final(self).position_id == old(self).position_id,
            final(self).time == old(self).time,
    {
        self.now_price = quot_bar.close;
        if self.max_price < self.now_price {
            self.max_price = self.now_price;
        }
        if self.min_price > self.now_price {
            self.min_price = self.now_price;
        }
        self.profit = msub(mul_diff_vol(self.now_price, self.price, self.volume), self.fee);
        let cost = madd(mul_price_vol(self.price, self.volume), self.fee);
        self.profit_rate = rate_ppm_exec(self.profit, cost);
        let t = quot_bar.quot.time;
        if self.profit > self.max_profit {
            self.max_profit = self.profit;
            self.max_profit_time = Some(t);
            self.max_profit_rate = self.profit_rate;
        }
        if self.profit < self.min_profit {
            self.min_profit = self.profit;
            self.min_profit_time = Some(t);
            self.min_profit_rate = self.profit_rate;
        }
    }

    /// Adds a buy fill: volume and sellable volume grow by the fill, the cost
    /// basis moves to the volume-weighted average price, and the fee
    /// accumulates.
    pub fn apply_buy_fill(&mut self, price: u64, volume: u32, fee: i128)
        requires
            old(self).wf(),
            old(self).volume + volume <= u32::MAX,
            0 <= fee <= crate::money::MONEY_MAX,
        ensures
            final(self).wf(),
            *final(self) == spec_pos_after_buy(*old(self), price, volume, fee),
    {
        let new_volume: u32 = self.volume + volume;
        let new_price: u64 = if new_volume == 0 {
            self.price
        } else {
            proof {
                let p0: int = self.price as int;
                let v0: int = self.volume as int;
                assert(p0 * v0 <= u64::MAX * (u32::MAX as int) && 0 <= p0 * v0)
                    by (nonlinear_arith)
                    requires
                        0 <= p0 <= u64::MAX,
                        0 <= v0 <= u32::MAX,
                ;
                assert((price as int) * (volume as int) <= u64::MAX * (u32::MAX as int) && 0 <= (
                price as int) * (volume as int)) by (nonlinear_arith)
                    requires
                        price <= u64::MAX,
                        0 <= volume <= u32::MAX,
                ;
            }
            let num: u128 = (self.price as u128) * (self.volume as u128) + (price as u128) * (
            volume as u128);
            proof {
                lemma_avg_price_bounded(self.price, self.volume, price, volume);
            }
            (num / (new_volume as u128)) as u64
        };
        self.price = new_price;
        self.volume = new_volume;
        self.volume_available = self.volume_available + volume;
        self.fee = madd(self.fee, fee);
    }

    /// Removes a sell fill, at most what is held: sellable volume goes first,
    /// the frozen part covers the rest. Returns how much was actually
    /// removed.
    pub fn apply_sell_fill(&mut self, volume: u32) -> (reduced: u32)
        requires
            old(self).wf(),
        ensures
            final(self).wf(),
            reduced == if volume <= old(self).volume {
                volume as int
            } else {
                old(self).volume as int
            },
            *final(self) == spec_pos_after_sell(*old(self), reduced),
    {
        let reduced: u32 = if volume <= self.volume {
            volume
        } else {
            self.volume
        };
        self.volume = self.volume - reduced;
        if reduced <= self.volume_available {
            self.volume_available = self.volume_available - reduced;
        } else {
            self.volume_frozen = self.volume_frozen - (reduced - self.volume_available);
            self.volume_available = 0;
        }
        reduced
    }
}

} // verus!
