//! What the market-data side hands the engine: tick snapshots and historical
//! bars, already reduced to plain fixed-point values, plus the table of index
//! codes.
use vstd::prelude::*;

use crate::clock::Ts;
use crate::strutil::str_eq_str;

verus! {

/// One depth level of the order book: a volume at a price.
#[derive(Clone, Copy, Debug, PartialEq, Eq, Structural)]
pub struct Level {
    pub vol: u32,
    pub price: u64,
}

/// One tick snapshot for one code; prices in fixed-point money units.
#[derive(Debug)]
pub struct Quot {
    pub code: String,
    pub name: String,
    pub open: u64,
    pub pre_close: u64,
    pub now: u64,
    pub high: u64,
    pub low: u64,
    pub buy: u64,
    pub sell: u64,
    pub vol: u64,
    pub amount: u64,
    pub bid: [Level; 5],
    pub ask: [Level; 5],
    pub date: u32,
    pub time: Ts,
}

impl Clone for Quot {
    fn clone(&self) -> (r: Self)
        ensures
            r == *self,
    {
        Quot {
            code: self.code.clone(),
            name: self.name.clone(),
            open: self.open,
            pre_close: self.pre_close,
            now: self.now,
            high: self.high,
            low: self.low,
            buy: self.buy,
            sell: self.sell,
            vol: self.vol,
            amount: self.amount,
            bid: self.bid,
            ask: self.ask,
            date: self.date,
            time: self.time,
        }
    }
}

/// One historical bar as a store or fetcher returns it; `time` is the bar's
/// end.
#[derive(Clone, Copy, Debug, PartialEq, Eq, Structural)]
pub struct StockBar {
    pub time: Ts,
    pub open: u64,
    pub high: u64,
    pub low: u64,
    pub close: u64,
    pub vol: u64,
}

/// An index as the store lists it.
#[derive(Debug)]
pub struct IndexInfo {
    pub code: String,
    pub name: String,
}

impl Clone for IndexInfo {
    fn clone(&self) -> (r: Self)
        ensures
            r == *self,
    {
        IndexInfo { code: self.code.clone(), name: self.name.clone() }
    }
}

/// The market indexes the engine recognizes.
pub open spec fn index_codes() -> Seq<Seq<char>> {
    seq![
        "sh000001"@,
        "sz399001"@,
        "sz399006"@,
        "sz399102"@,
        "sz399005"@,
        "sh000300"@,
        "sh000688"@,
        "sz399673"@,
        "sz399550"@,
        "sz399678"@,
        "sz399007"@,
        "sz399008"@,
    ]
}

/// Whether the code names a market index rather than a single security.
pub fn is_index(code: &str) -> (r: bool)
    ensures
        r == index_codes().contains(code@),
{
    let r = str_eq_str(code, "sh000001") || str_eq_str(code, "sz399001") || str_eq_str(
        code,
        "sz399006",
    ) || str_eq_str(code, "sz399102") || str_eq_str(code, "sz399005") || str_eq_str(
        code,
        "sh000300",
    ) || str_eq_str(code, "sh000688") || str_eq_str(code, "sz399673") || str_eq_str(
        code,
        "sz399550",
    ) || str_eq_str(code, "sz399678") || str_eq_str(code, "sz399007") || str_eq_str(
        code,
        "sz399008",
    );
    proof {
        if r {
            assert(index_codes().contains(code@));
        } else {
            assert(forall|i: int| 0 <= i < index_codes().len() ==> index_codes()[i] != code@);
        }
    }
    r
}

} // verus!
