//! A verified core for a small trading engine: typed market events, a
//! session-phase quotation state machine with historical replay, an account
//! ledger with positions, entrusts and deals, and the step functions that the
//! per-account task graph (hub, strategy, risk, broker runners) is driven by.
//!
//! Money is represented in fixed point: prices and cash amounts are integer
//! multiples of 1/10000 of a currency unit; fee rates are parts per million.
use vstd::prelude::*;

pub mod account;
pub mod broker;
pub mod clock;
pub mod config;
pub mod consts;
pub mod deal;
pub mod entrust;
pub mod event;
pub mod events;
pub mod fetch;
pub mod hub;
pub mod ids;
pub mod laws;
pub mod money;
pub mod position;
pub mod proto;
pub mod quot;
pub mod quotation;
pub mod runner;
pub mod signal;
pub mod store;
pub mod strutil;
pub mod ui;

verus! {

/// One currency unit expressed in fixed-point money units.
pub const MONEY_UNIT: i128 = 10000;

} // verus!
