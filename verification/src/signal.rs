//! Trading intents emitted by the strategy, the risk policy, or a broker.
use vstd::prelude::*;

use crate::clock::Ts;

verus! {

/// What the signal asks for.
#[derive(Clone, Copy, Debug, PartialEq, Eq, Structural)]
pub enum SignalType {
    Sell,
    Buy,
    Cancel,
}

impl Default for SignalType {
    fn default() -> (r: Self)
        ensures
            r is Cancel,
    {
        SignalType::Cancel
    }
}

impl SignalType {
    pub fn label(&self) -> (r: &'static str)
        ensures
            self is Sell ==> r@ == "sell"@,
            self is Buy ==> r@ == "buy"@,
            self is Cancel ==> r@ == "cancel"@,
    {
        match self {
            SignalType::Sell => "sell",
            SignalType::Buy => "buy",
            SignalType::Cancel => "cancel",
        }
    }
}

/// Which component emitted the signal; the payload is that component's name.
#[derive(Debug)]
pub enum SignalSource {
    Risk(String),
    Strategy(String),
    Broker(String),
    Robot(String),
}

impl Default for SignalSource {
    fn default() -> (r: Self)
        ensures
            r matches SignalSource::Robot(name) && name@ == "Unknown"@,
    {
        SignalSource::Robot("Unknown".to_owned())
    }
}

impl Clone for SignalSource {
    fn clone(&self) -> (r: Self)
        ensures
            r == *self,
    {
        match self {
            SignalSource::Risk(v) => SignalSource::Risk(v.clone()),
            SignalSource::Strategy(v) => SignalSource::Strategy(v.clone()),
            SignalSource::Broker(v) => SignalSource::Broker(v.clone()),
            SignalSource::Robot(v) => SignalSource::Robot(v.clone()),
        }
    }
}

/// An intent to buy, sell or cancel, priced in fixed-point money units.
#[derive(Debug)]
pub struct Signal {
    pub signal_id: String,
    pub source: SignalSource,
    pub signal: SignalType,
    pub name: String,
    pub code: String,
    pub time: Option<Ts>,
    pub price: u64,
    pub volume: u32,
    pub desc: String,
    pub entrust_id: Option<String>,
}

impl Clone for Signal {
    fn clone(&self) -> (r: Self)
        ensures
            r == *self,
    {
        Signal {
            signal_id: self.signal_id.clone(),
            source: self.source.clone(),
            signal: self.signal,
            name: self.name.clone(),
            code: self.code.clone(),
            time: self.time,
            price: self.price,
            volume: self.volume,
            desc: self.desc.clone(),
            entrust_id: match &self.entrust_id {
                Some(id) => Some(id.clone()),
                None => None,
            },
        }
    }
}

} // verus!
