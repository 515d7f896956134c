//! The library's cross-cutting laws, each proved from what the modules'
//! contracts state.
use vstd::prelude::*;

use crate::account::{fee_spec, fold_hold, Account};
use crate::consts::ActionType;
use crate::entrust::{status_step_ok, EntrustStatus};
use crate::money::{clamp_money, wf_money, MONEY_MAX};
use crate::position::Position;
use crate::quot::QuotBar;
use crate::quotation::{
    lemma_emission_ordered, trace_ordered, BacktestQuotation, RtQuotation,
};

verus! {

/// Every position of a well-formed account splits its volume exactly into
/// the sellable and the frozen part, at all times: each account operation
/// requires and preserves well-formedness.
pub proof fn lemma_positions_balanced(a: Account)
    requires
        a.wf(),
    ensures
        forall|i: int|
            0 <= i < a.position@.len() ==> (#[trigger] a.position@[i]).volume == a.position@[i].volume_available
                + a.position@[i].volume_frozen,
{
}

/// Every entrust of a well-formed account never over-commits its volume:
/// filled plus cancelled stays within what was requested.
pub proof fn lemma_entrusts_within_volume(a: Account)
    requires
        a.wf(),
    ensures
        forall|i: int|
            0 <= i < a.entrust@.len() ==> (#[trigger] a.entrust@[i]).volume_deal
                + a.entrust@[i].volume_cancel <= a.entrust@[i].volume,
{
}

/// A terminal entrust status is never left, so an entrust reaches a terminal
/// status at most once; legal status moves compose.
pub proof fn lemma_terminal_status_final(a: EntrustStatus, b: EntrustStatus, c: EntrustStatus)
    requires
        status_step_ok(a, b),
        status_step_ok(b, c),
    ensures
        status_step_ok(a, c),
        a.is_terminal() ==> c == a,
{
}

/// The history of a live quotation engine is always well ordered: the start
/// comes exactly first, phases ascend strictly by date and session index (so
/// each is emitted at most once per date), every bar batch follows the
/// morning open of its date, and nothing follows an end.
pub proof fn lemma_rt_history_ordered(e: RtQuotation)
    requires
        e.inv(),
    ensures
        trace_ordered(e.history()),
{
    lemma_emission_ordered(e.history());
}

/// The history of a backtest quotation engine is always well ordered, and the
/// automaton additionally admits at most one stream end, emitted after the
/// final date's phases are complete.
pub proof fn lemma_backtest_history_ordered(e: BacktestQuotation)
    requires
        e.inv(),
    ensures
        trace_ordered(e.history()),
{
    lemma_emission_ordered(e.history());
}

/// Every bar with the open-high-low-close relation has its low as the minimum
/// and its high as the maximum of its four prices.
pub proof fn lemma_bar_ohlc(b: QuotBar)
    requires
        b.ohlc_wf(),
    ensures
        b.low <= b.open <= b.high,
        b.low <= b.close <= b.high,
        b.low <= b.high,
{
}

/// The fee is a pure function of the rate fields and the trade: two accounts
/// with the same rates charge the same fee for the same trade.
pub proof fn lemma_fee_pure(a1: Account, a2: Account, typ: ActionType, code: Seq<char>, price: u64, volume: u32)
    requires
        a1.broker_fee == a2.broker_fee,
        a1.transfer_fee == a2.transfer_fee,
        a1.tax_fee == a2.tax_fee,
    ensures
        fee_spec(a1.broker_fee, a1.transfer_fee, a1.tax_fee, typ, code, price, volume) == fee_spec(
            a2.broker_fee,
            a2.transfer_fee,
            a2.tax_fee,
            typ,
            code,
            price,
            volume,
        ),
{
}

/// The positions' total market value as an unclamped sum.
pub open spec fn hold_sum(s: Seq<Position>) -> int
    decreases s.len(),
{
    if s.len() == 0 {
        0
    } else {
        hold_sum(s.drop_last()) + s.last().now_price * s.last().volume
    }
}

/// While the total market value stays inside the rails, the clamped fold of
/// the ledger equals the mathematical sum: the terms are non-negative, so no
/// partial sum can leave the rails either.
pub proof fn lemma_fold_hold_exact(s: Seq<Position>)
    requires
        hold_sum(s) <= MONEY_MAX,
    ensures
        fold_hold(s) == hold_sum(s),
        0 <= hold_sum(s),
    decreases s.len(),
{
    if s.len() > 0 {
        let t = s.drop_last();
        let last_term = s.last().now_price * s.last().volume;
        assert(0 <= last_term) by (nonlinear_arith)
            requires
                last_term == s.last().now_price * s.last().volume,
                0 <= s.last().now_price,
                0 <= s.last().volume,
        ;
        lemma_fold_hold_exact(t);
        assert(clamp_money(last_term) == last_term) by {
            assert(last_term <= u64::MAX * (u32::MAX as int)) by (nonlinear_arith)
                requires
                    s.last().now_price <= u64::MAX,
                    s.last().volume <= u32::MAX,
                    last_term == s.last().now_price * s.last().volume,
            ;
        }
    }
}

/// The profit-and-loss identity after a bar batch, in plain arithmetic: when
/// the books stay inside the rails, the total net value recomputed by
/// `Account::update_account_quot` is exactly available cash plus frozen cash
/// plus the sum over positions of the latest price times the volume.
pub proof fn lemma_pnl_identity(a: Account)
    requires
        a.total_hold_value == fold_hold(a.position@),
        a.total_net_value == clamp_money(
            clamp_money(a.cash_available + a.cash_frozen) + a.total_hold_value,
        ),
        hold_sum(a.position@) <= MONEY_MAX,
        wf_money(a.cash_available + a.cash_frozen),
        wf_money(a.cash_available + a.cash_frozen + hold_sum(a.position@)),
    ensures
        a.total_net_value == a.cash_available + a.cash_frozen + hold_sum(a.position@),
{
    lemma_fold_hold_exact(a.position@);
}

} // verus!
