//! Fixed-point money arithmetic. Amounts are `i128` multiples of 1/10000 of a
//! currency unit, kept inside `[-MONEY_MAX, MONEY_MAX]`; sums and differences
//! clamp at those rails, so every ledger update is total. Rates are parts per
//! million of a plain ratio.
use vstd::prelude::*;

verus! {

/// The rail for every money amount: 2^100 money units, far beyond any ledger.
pub const MONEY_MAX: i128 = 0x10000000000000000000000000;

/// The amount is on or inside the rails.
pub open spec fn wf_money(a: int) -> bool {
    -MONEY_MAX <= a <= MONEY_MAX
}

/// The value brought back onto the rails.
pub open spec fn clamp_money(a: int) -> int {
    if a > MONEY_MAX {
        MONEY_MAX as int
    } else if a < -MONEY_MAX {
        -MONEY_MAX as int
    } else {
        a
    }
}

/// Clamped addition of two in-range amounts.
pub fn madd(a: i128, b: i128) -> (r: i128)
    requires
        wf_money(a as int),
        wf_money(b as int),
    ensures
        r == clamp_money(a + b),
        wf_money(r as int),
{
    let s = a + b;
    if s > MONEY_MAX {
        MONEY_MAX
    } else if s < -MONEY_MAX {
        -MONEY_MAX
    } else {
        s
    }
}

/// Clamped subtraction of two in-range amounts.
pub fn msub(a: i128, b: i128) -> (r: i128)
    requires
        wf_money(a as int),
        wf_money(b as int),
    ensures
        r == clamp_money(a - b),
        wf_money(r as int),
{
    let s = a - b;
    if s > MONEY_MAX {
        MONEY_MAX
    } else if s < -MONEY_MAX {
        -MONEY_MAX
    } else {
        s
    }
}

/// A price times a volume; exact, since it always fits inside the rails.
pub fn mul_price_vol(price: u64, volume: u32) -> (r: i128)
    ensures
        r == price * volume,
        0 <= r,
        wf_money(r as int),
{
    proof {
        assert(price * volume <= u64::MAX * u32::MAX) by (nonlinear_arith)
            requires
                price <= u64::MAX,
                volume <= u32::MAX,
        ;
        assert(0 <= price * volume) by (nonlinear_arith);
    }
    (price as i128) * (volume as i128)
}

/// `(now - price) * volume`: the mark-to-market move of a holding; exact.
pub fn mul_diff_vol(now: u64, price: u64, volume: u32) -> (r: i128)
    ensures
        r == (now - price) * volume,
        wf_money(r as int),
{
    let d = (now as i128) - (price as i128);
    proof {
        assert(-(u64::MAX as int) * (u32::MAX as int) <= d * volume <= u64::MAX * u32::MAX)
            by (nonlinear_arith)
            requires
                -(u64::MAX as int) <= d <= u64::MAX,
                0 <= volume <= u32::MAX,
        ;
    }
    d * (volume as i128)
}

/// The ratio `profit / cost` in parts per million, clamped into `i64`; zero
/// when the cost is not positive. The magnitude is divided, so the result is
/// truncated toward zero.
pub open spec fn rate_ppm(profit: int, cost: int) -> int {
    if cost <= 0 {
        0
    } else {
        let m = (if profit >= 0 {
            profit
        } else {
            -profit
        }) * 1000000 / cost;
        let c = if m > i64::MAX {
            i64::MAX as int
        } else {
            m
        };
        if profit >= 0 {
            c
        } else {
            -c
        }
    }
}

/// Computes `rate_ppm` on in-range amounts.
pub fn rate_ppm_exec(profit: i128, cost: i128) -> (r: i64)
    requires
        wf_money(profit as int),
        wf_money(cost as int),
    ensures
        r == rate_ppm(profit as int, cost as int),
{
    if cost <= 0 {
        return 0;
    }
    let mag: u128 = if profit >= 0 {
        profit as u128
    } else {
        (-profit) as u128
    };
    let num: u128 = mag * 1000000;
    let m: u128 = num / (cost as u128);
    let c: i64 = if m > i64::MAX as u128 {
        i64::MAX
    } else {
        m as i64
    };
    if profit >= 0 {
        c
    } else {
        -c
    }
}

} // verus!
