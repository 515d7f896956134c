//! The control events exchanged between the hub and its runners.
use vstd::prelude::*;

use crate::account::BrokerEvent;
use crate::entrust::Entrust;
use crate::signal::Signal;

verus! {

/// What flows on the hub's channels: trading signals from strategy and risk,
/// subscription requests, entrusts to the broker, broker pushes back, and a
/// tagged quit sentinel.
#[derive(Debug)]
pub enum Event {
    Signal(Signal),
    Subscribe(Vec<String>),
    Entrust(Entrust),
    Broker(BrokerEvent),
    EventNone(String),
}

impl Default for Event {
    fn default() -> (r: Self)
        ensures
            r matches Event::EventNone(tag) && tag@ == "QUIT"@,
    {
        Event::EventNone("QUIT".to_owned())
    }
}

} // verus!
