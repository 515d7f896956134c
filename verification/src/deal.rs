//! Fill records: one `Deal` per broker-confirmed fill, immutable once
//! appended to the account and always linked to its entrust.
use vstd::prelude::*;

use crate::clock::Ts;
use crate::entrust::{Entrust, EntrustType};
use crate::ids::get_id;

verus! {

/// One fill, priced in fixed-point money units.
#[derive(Clone, Debug)]
pub struct Deal {
    pub deal_id: String,
    pub entrust_id: String,
    pub name: String,
    pub code: String,
    pub time: Option<Ts>,
    pub deal_type: EntrustType,
    pub price: u64,
    pub volume: u32,
    pub profit: i128,
    pub fee: i128,
}

impl Deal {
    /// Records the filled part of an entrust as a deal with a fresh
    /// identifier; the volume is the entrust's filled volume, and profit and
    /// fee start at zero until the account prices them.
    pub fn new_from_entrust(entrust: &Entrust) -> (r: Self)
        ensures
            r.deal_id@.len() == 32,
            r.entrust_id == entrust.entrust_id,
            r.name == entrust.name,
            r.code == entrust.code,
            r.time == entrust.time,
            r.deal_type == entrust.entrust_type,
            r.price == entrust.price,
            r.volume == entrust.volume_deal,
            r.profit == 0,
            r.fee == 0,
    {
        Deal {
            deal_id: get_id(),
            entrust_id: entrust.entrust_id.clone(),
            name: entrust.name.clone(),
            code: entrust.code.clone(),
            time: entrust.time,
            deal_type: entrust.entrust_type,
            price: entrust.price,
            volume: entrust.volume_deal,
            profit: 0,
            fee: 0,
        }
    }
}

} // verus!
