//! Auxiliary event payloads of the hub's internal wiring.
use vstd::prelude::*;

verus! {

/// A broker-side notification with no payload yet.
#[derive(Clone, Copy, Debug, PartialEq, Eq, Structural)]
pub struct BrokerData {
}

} // verus!
