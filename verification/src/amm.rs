//! The AMM exit pricing engine.
//!
//! Before a market ends, a position holder may exit stake at a price set by
//! a constant-product formula applied to the two outcome pools themselves:
//! with `x` the pool of the position's outcome, `y` the opposite pool and
//! `delta` the stake withdrawn, the opposite pool is repriced to
//! `y' = (x * y) / (x - delta)` and the exit is funded by the released
//! difference `y' - y`, minus the AMM and cancel fees. All arithmetic is
//! exact integer arithmetic in a wide unit; every truncation rounds in the
//! pool's favor.

use vstd::prelude::*;
use vstd::arithmetic::div_mod::{
    lemma_div_is_ordered_by_denominator, lemma_div_multiples_vanish, lemma_fundamental_div_mod,
    lemma_mod_division_less_than_divisor,
};

use crate::error::ErrorCode;

verus! {

/// The repriced pool of the exited outcome: the stake simply leaves it.
pub open spec fn exit_new_pool_outcome(x: int, delta: int) -> int {
    x - delta
}

/// The repriced opposite pool, keeping the product `x * y` invariant up to
/// integer truncation.
pub open spec fn exit_new_pool_other(x: int, y: int, delta: int) -> int {
    (x * y) / (x - delta)
}

/// Value released from the opposite pool to fund the exit.
pub open spec fn exit_gross(x: int, y: int, delta: int) -> int {
    exit_new_pool_other(x, y, delta) - y
}

/// A fee of `bps` basis points of `amount`, truncated.
pub open spec fn fee_amount(amount: int, bps: int) -> int {
    (amount * bps) / 10000
}

/// Total fee on an exit: the AMM spread fee plus the cancel fee, both taken
/// on the gross payout.
pub open spec fn exit_total_fee(x: int, y: int, delta: int, amm_bps: int, cancel_bps: int) -> int {
    fee_amount(exit_gross(x, y, delta), amm_bps) + fee_amount(exit_gross(x, y, delta), cancel_bps)
}

/// What the exiting user receives: the gross payout minus both fees.
pub open spec fn exit_net(x: int, y: int, delta: int, amm_bps: int, cancel_bps: int) -> int {
    exit_gross(x, y, delta) - exit_total_fee(x, y, delta, amm_bps, cancel_bps)
}

/// A priced exit, ready to commit: the two repriced pools, the payout and
/// the fee. The fee stays booked in the opposite pool (`new_pool_other`
/// already carries it) and is then paid out of escrow through the fee
/// distributor, funded by that pool's own liquidity.
#[derive(Clone, Copy, Debug, PartialEq, Eq, Structural)]
pub struct ExitQuote {
    /// `x - delta`: the exited outcome's pool after the stake leaves.
    pub new_pool_outcome: u64,
    /// `(x * y) / (x - delta)` plus the retained fee: the opposite pool
    /// after repricing and fee re-injection.
    pub new_pool_other: u64,
    /// Value released from the opposite pool, before fees.
    pub payout_gross: u64,
    /// AMM spread fee plus cancel fee, both on the gross payout.
    pub total_fee: u64,
    /// What the user is paid: gross minus the total fee.
    pub payout_net: u64,
}

/// The error an exit quote fails with, if any, in the order the conditions
/// are checked: the gross payout must fit the settlement unit, the fees
/// must fit it and not exceed the gross, the net payout must reach the
/// caller's floor, and the repriced opposite pool (fee added back) must fit.
pub open spec fn exit_quote_err(
    x: u64,
    y: u64,
    delta: u64,
    amm_bps: u16,
    cancel_bps: u16,
    min_payout: u64,
) -> Option<ErrorCode> {
    let gross = exit_gross(x as int, y as int, delta as int);
    let fee = exit_total_fee(x as int, y as int, delta as int, amm_bps as int, cancel_bps as int);
    if gross > u64::MAX {
        Some(ErrorCode::AmountOverflow)
    } else if fee > u64::MAX {
        Some(ErrorCode::AmountOverflow)
    } else if fee > gross {
        Some(ErrorCode::AmountOverflow)
    } else if gross - fee < min_payout {
        Some(ErrorCode::SlippageExceeded)
    } else if exit_new_pool_other(x as int, y as int, delta as int) + fee > u64::MAX {
        Some(ErrorCode::AmountOverflow)
    } else {
        None
    }
}

/// The truncated quotient `y' = (x * y) / (x - delta)` never falls below
/// `y`: shrinking the divisor of an exact multiple cannot shrink the
/// quotient. Hence the gross payout is never negative.
pub proof fn lemma_exit_gross_nonnegative(x: int, y: int, delta: int)
    requires
        0 < delta < x,
        0 < y,
    ensures
        exit_new_pool_other(x, y, delta) >= y,
        exit_gross(x, y, delta) >= 0,
{
    lemma_div_multiples_vanish(y, x);
    assert((x * y) / x == y);
    vstd::arithmetic::mul::lemma_mul_nonnegative(x, y);
    lemma_div_is_ordered_by_denominator(x * y, x - delta, x);
}

/// The constant-product law of an exit: before fee re-injection the
/// repriced pools satisfy `x' * y' <= x * y < x' * (y' + 1)` — the product
/// is preserved exactly up to the integer truncation already applied in
/// computing `y'`, and the truncation loss is less than `x'`. Fee
/// re-injection then only grows `y'`, so the committed pools' product falls
/// below `x * y` by at most that truncation loss.
pub proof fn lemma_exit_constant_product(x: int, y: int, delta: int)
    requires
        0 < delta < x,
        0 < y,
    ensures
        exit_new_pool_outcome(x, delta) * exit_new_pool_other(x, y, delta) <= x * y,
        x * y < exit_new_pool_outcome(x, delta) * (exit_new_pool_other(x, y, delta) + 1),
{
    let d = x - delta;
    let k = x * y;
    let q = k / d;
    let r = k % d;
    vstd::arithmetic::mul::lemma_mul_nonnegative(x, y);
    lemma_fundamental_div_mod(k, d);
    lemma_mod_division_less_than_divisor(k, d);
    assert(k == d * q + r);
    assert(0 <= r < d);
    assert(d * (q + 1) == d * q + d) by (nonlinear_arith);
}

/// The committed pools' product after fee re-injection: it can fall short
/// of `x * y` only by the truncation already taken in `y'` (less than
/// `x'`), and as soon as at least one unit of fee is booked back into the
/// opposite pool, the committed product is at least `x * y` again.
pub proof fn lemma_exit_committed_product(x: int, y: int, delta: int, fee: int)
    requires
        0 < delta < x,
        0 < y,
        0 <= fee,
    ensures
        exit_new_pool_outcome(x, delta) * (exit_new_pool_other(x, y, delta) + fee) > x * y
            - exit_new_pool_outcome(x, delta),
        fee >= 1 ==> exit_new_pool_outcome(x, delta) * (exit_new_pool_other(x, y, delta) + fee)
            >= x * y,
{
    let d = exit_new_pool_outcome(x, delta);
    let q = exit_new_pool_other(x, y, delta);
    lemma_exit_constant_product(x, y, delta);
    assert(d * (q + fee) == d * q + d * fee) by (nonlinear_arith);
    assert(d * (q + 1) == d * q + d) by (nonlinear_arith);
    vstd::arithmetic::mul::lemma_mul_nonnegative(d, fee);
    if fee >= 1 {
        vstd::arithmetic::mul::lemma_mul_inequality(1, fee, d);
    }
}

/// Price an exit of `delta` stake against pools `x` (the position's
/// outcome) and `y` (the opposite outcome). The caller has already checked
/// the pools' liquidity: `delta` must leave the outcome pool positive and
/// the opposite pool must be non-empty.
pub fn exit_quote(
    x: u64,
    y: u64,
    delta: u64,
    amm_bps: u16,
    cancel_bps: u16,
    min_payout: u64,
) -> (r: Result<ExitQuote, ErrorCode>)
    requires
        0 < delta < x,
        0 < y,
    ensures
        match exit_quote_err(x, y, delta, amm_bps, cancel_bps, min_payout) {
            Some(e) => r == Err::<ExitQuote, ErrorCode>(e),
            None => {
                &&& r matches Ok(q)
                &&& q.new_pool_outcome == exit_new_pool_outcome(x as int, delta as int)
                &&& q.new_pool_other == exit_new_pool_other(x as int, y as int, delta as int)
                    + q.total_fee
                &&& q.payout_gross == exit_gross(x as int, y as int, delta as int)
                &&& q.total_fee == exit_total_fee(
                    x as int,
                    y as int,
                    delta as int,
                    amm_bps as int,
                    cancel_bps as int,
                )
                &&& q.payout_net == exit_net(
                    x as int,
                    y as int,
                    delta as int,
                    amm_bps as int,
                    cancel_bps as int,
                )
                &&& q.payout_net >= min_payout
                &&& q.payout_net + q.total_fee == q.payout_gross
                &&& q.new_pool_other >= y
            },
        },
{
    let x_wide: u128 = x as u128;
    let y_wide: u128 = y as u128;
    let delta_wide: u128 = delta as u128;

    proof {
        assert(x_wide * y_wide <= (u64::MAX as u128) * (u64::MAX as u128)) by (nonlinear_arith)
            requires
                x_wide <= u64::MAX,
                y_wide <= u64::MAX,
                0 <= x_wide,
                0 <= y_wide,
        ;
    }
    let k: u128 = x_wide * y_wide;
    let new_x: u128 = x_wide - delta_wide;
    let new_y: u128 = k / new_x;
    proof {
        lemma_exit_gross_nonnegative(x as int, y as int, delta as int);
    }
    let gross: u128 = new_y - y_wide;
    if gross > u64::MAX as u128 {
        return Err(ErrorCode::AmountOverflow);
    }
    proof {
        assert(gross * (amm_bps as u128) <= (u64::MAX as u128) * 65535) by (nonlinear_arith)
            requires
                0 <= gross <= u64::MAX,
                0 <= amm_bps <= 65535,
        ;
        assert(gross * (cancel_bps as u128) <= (u64::MAX as u128) * 65535) by (nonlinear_arith)
            requires
                0 <= gross <= u64::MAX,
                0 <= cancel_bps <= 65535,
        ;
        vstd::arithmetic::div_mod::lemma_div_is_ordered(
            gross * (amm_bps as u128),
            (u64::MAX as u128) * 65535,
            10000,
        );
        vstd::arithmetic::div_mod::lemma_div_is_ordered(
            gross * (cancel_bps as u128),
            (u64::MAX as u128) * 65535,
            10000,
        );
    }
    let amm_fee: u128 = gross * (amm_bps as u128) / 10000;
    let cancel_fee: u128 = gross * (cancel_bps as u128) / 10000;
    let total_fee: u128 = amm_fee + cancel_fee;
    if total_fee > u64::MAX as u128 {
        return Err(ErrorCode::AmountOverflow);
    }
    let gross_u64: u64 = gross as u64;
    let total_fee_u64: u64 = total_fee as u64;
    if total_fee_u64 > gross_u64 {
        return Err(ErrorCode::AmountOverflow);
    }
    let payout_net: u64 = gross_u64 - total_fee_u64;
    if payout_net < min_payout {
        return Err(ErrorCode::SlippageExceeded);
    }
    if new_y > u64::MAX as u128 - total_fee as u128 {
        return Err(ErrorCode::AmountOverflow);
    }
    let new_pool_other: u64 = new_y as u64 + total_fee_u64;
    Ok(
        ExitQuote {
            new_pool_outcome: x - delta,
            new_pool_other,
            payout_gross: gross_u64,
            total_fee: total_fee_u64,
            payout_net,
        },
    )
}

} // verus!
