//! Orders placed with a broker, and the bookkeeping rules that keep them
//! coherent: filled plus cancelled volume never exceeds the requested volume,
//! and a terminal status is never left again.
use vstd::prelude::*;

use crate::clock::Ts;
use crate::ids::get_id;
use crate::signal::{Signal, SignalType};

verus! {

/// Where an entrust stands. `Deal` and `Cancel` are terminal.
#[derive(Clone, Copy, Debug, PartialEq, Eq, Structural)]
pub enum EntrustStatus {
    Init,
    Commit,
    Deal,
    PartDeal,
    Cancel,
}

impl Default for EntrustStatus {
    fn default() -> (r: Self)
        ensures
            r is Init,
    {
        EntrustStatus::Init
    }
}

impl EntrustStatus {
    /// The two statuses an entrust never leaves.
    pub open spec fn is_terminal(self) -> bool {
        self is Deal || self is Cancel
    }

    pub fn label(&self) -> (r: &'static str)
        ensures
            self is Init ==> r@ == "init"@,
            self is Commit ==> r@ == "commit"@,
            self is Deal ==> r@ == "deal"@,
            self is PartDeal ==> r@ == "part_deal"@,
            self is Cancel ==> r@ == "cancel"@,
    {
        match self {
            EntrustStatus::Init => "init",
            EntrustStatus::Commit => "commit",
            EntrustStatus::Deal => "deal",
            EntrustStatus::PartDeal => "part_deal",
            EntrustStatus::Cancel => "cancel",
        }
    }
}

/// What the entrust asks the broker to do.
#[derive(Clone, Copy, Debug, PartialEq, Eq, Structural)]
pub enum EntrustType {
    Buy,
    Sell,
    Cancel,
}

impl Default for EntrustType {
    fn default() -> (r: Self)
        ensures
            r is Cancel,
    {
        EntrustType::Cancel
    }
}

impl EntrustType {
    pub fn label(&self) -> (r: &'static str)
        ensures
            self is Buy ==> r@ == "buy"@,
            self is Sell ==> r@ == "sell"@,
            self is Cancel ==> r@ == "cancel"@,
    {
        match self {
            EntrustType::Buy => "buy",
            EntrustType::Sell => "sell",
            EntrustType::Cancel => "cancel",
        }
    }
}

/// An order request; prices are fixed-point money units.
#[derive(Debug)]
pub struct Entrust {
    pub entrust_id: String,
    pub name: String,
    pub code: String,
    pub time: Option<Ts>,
    pub entrust_type: EntrustType,
    pub status: EntrustStatus,
    pub price: u64,
    pub volume: u32,
    pub volume_deal: u32,
    pub volume_cancel: u32,
    pub desc: String,
    pub broker_entrust_id: Option<String>,
}

impl Entrust {
    /// The volume ledger never over-commits the requested volume.
    pub open spec fn wf(self) -> bool {
        self.volume_deal + self.volume_cancel <= self.volume
    }

    /// The entrust type that carries out a signal of the given type.
    pub open spec fn type_of_signal(s: SignalType) -> EntrustType {
        match s {
            SignalType::Sell => EntrustType::Sell,
            SignalType::Buy => EntrustType::Buy,
            SignalType::Cancel => EntrustType::Cancel,
        }
    }

    /// Converts a signal into a fresh entrust with a new identifier, in the
    /// `Init` status and with nothing filled or cancelled yet.
    pub fn new_from_signal(signal: &Signal) -> (r: Self)
        ensures
            r.entrust_id@.len() == 32,
            r.name == signal.name,
            r.code == signal.code,
            r.time == signal.time,
            r.entrust_type == Self::type_of_signal(signal.signal),
            r.status is Init,
            r.price == signal.price,
            r.volume == signal.volume,
            r.volume_deal == 0,
            r.volume_cancel == 0,
            r.desc@ == Seq::<char>::empty(),
            r.broker_entrust_id is None,
            r.wf(),
    {
        Entrust {
            entrust_id: get_id(),
            name: signal.name.clone(),
            code: signal.code.clone(),
            time: signal.time,
            entrust_type: match signal.signal {
                SignalType::Sell => EntrustType::Sell,
                SignalType::Buy => EntrustType::Buy,
                SignalType::Cancel => EntrustType::Cancel,
            },
            status: EntrustStatus::Init,
            price: signal.price,
            volume: signal.volume,
            volume_deal: 0,
            volume_cancel: 0,
            desc: String::new(),
            broker_entrust_id: None,
        }
    }
}

impl Clone for Entrust {
    fn clone(&self) -> (r: Self)
        ensures
            r == *self,
    {
        Entrust {
            entrust_id: self.entrust_id.clone(),
            name: self.name.clone(),
            code: self.code.clone(),
            time: self.time,
            entrust_type: self.entrust_type,
            status: self.status,
            price: self.price,
            volume: self.volume,
            volume_deal: self.volume_deal,
            volume_cancel: self.volume_cancel,
            desc: self.desc.clone(),
            broker_entrust_id: match &self.broker_entrust_id {
                Some(id) => Some(id.clone()),
                None => None,
            },
        }
    }
}

/// The status moves an entrust may make: anything from a non-terminal status,
/// nothing out of a terminal one. With `Entrust::wf` this is what bounds every
/// entrust to at most one arrival in a terminal status.
pub open spec fn status_step_ok(from: EntrustStatus, to: EntrustStatus) -> bool {
    from.is_terminal() ==> to == from
}

} // verus!
