//! Core taxonomy of the engine: traded kinds, account modes and states, and
//! the two sides of an action.
use vstd::prelude::*;

verus! {

/// What is traded on the account.
#[derive(Clone, Copy, Debug, PartialEq, Eq, Structural)]
pub enum Kind {
    Stock,
    Fund,
}

impl Default for Kind {
    fn default() -> (r: Self)
        ensures
            r is Stock,
    {
        Kind::Stock
    }
}

impl Kind {
    pub fn label(&self) -> (r: &'static str)
        ensures
            self is Stock ==> r@ == "stock"@,
            self is Fund ==> r@ == "fund"@,
    {
        match self {
            Kind::Stock => "stock",
            Kind::Fund => "fund",
        }
    }
}

/// How the account is driven: deterministic replay, simulated fills on live
/// quotes, or a real broker.
#[derive(Clone, Copy, Debug, PartialEq, Eq, Structural)]
pub enum AcctType {
    Backtest,
    Simulation,
    Real,
}

impl Default for AcctType {
    fn default() -> (r: Self)
        ensures
            r is Backtest,
    {
        AcctType::Backtest
    }
}

impl AcctType {
    pub fn label(&self) -> (r: &'static str)
        ensures
            self is Backtest ==> r@ == "backtest"@,
            self is Simulation ==> r@ == "simulation"@,
            self is Real ==> r@ == "real"@,
    {
        match self {
            AcctType::Backtest => "backtest",
            AcctType::Simulation => "simulation",
            AcctType::Real => "real",
        }
    }
}

/// Whether the account's task graph is running.
#[derive(Clone, Copy, Debug, PartialEq, Eq, Structural)]
pub enum AcctStatus {
    Running,
    Stop,
}

impl Default for AcctStatus {
    fn default() -> (r: Self)
        ensures
            r is Stop,
    {
        AcctStatus::Stop
    }
}

impl AcctStatus {
    pub fn label(&self) -> (r: &'static str)
        ensures
            self is Running ==> r@ == "running"@,
            self is Stop ==> r@ == "stop"@,
    {
        match self {
            AcctStatus::Running => "running",
            AcctStatus::Stop => "stop",
        }
    }
}

/// The side of a trade, as the fee schedule distinguishes it.
#[derive(Clone, Copy, Debug, PartialEq, Eq, Structural)]
pub enum ActionType {
    Buy,
    Sell,
}

impl Default for ActionType {
    fn default() -> (r: Self)
        ensures
            r is Sell,
    {
        ActionType::Sell
    }
}

impl ActionType {
    pub fn label(&self) -> (r: &'static str)
        ensures
            self is Buy ==> r@ == "buy"@,
            self is Sell ==> r@ == "sell"@,
    {
        match self {
            ActionType::Buy => "buy",
            ActionType::Sell => "sell",
        }
    }
}

} // verus!
