//! The distinct error conditions an operation can fail with.
//!
//! Every failure aborts the whole operation with no state change; the
//! variant tells a caller whether the condition is retryable (slippage,
//! liquidity) or permanent (already claimed, unauthorized).

use vstd::prelude::*;

verus! {

/// One named error per failure condition of the core's operations.
#[derive(Clone, Copy, Debug, PartialEq, Eq, Structural)]
pub enum ErrorCode {
    /// A market needs exactly two outcome labels.
    InvalidOutcomes,
    /// A market's end time must lie strictly in the future.
    InvalidEndTime,
    /// A market's escrow must hold nothing at creation.
    EscrowNotEmpty,
    /// An outcome index must be 0 or 1.
    InvalidOutcome,
    /// A stake or withdrawal amount must be positive.
    InvalidAmount,
    /// The market is already resolved and takes no new stake.
    MarketResolved,
    /// The market's end time has passed; no new stake is accepted.
    MarketEnded,
    /// A checked addition, subtraction, multiplication or division failed,
    /// or a computed value does not fit the settlement unit.
    AmountOverflow,
    /// The market's end time has passed; positions can no longer be exited.
    MarketAlreadyEndedForModification,
    /// The caller does not own the position.
    PositionOwnerMismatch,
    /// The requested withdrawal exceeds the position's remaining stake.
    WithdrawAmountExceedsPosition,
    /// The escrow does not hold enough to fund the transfer.
    InsufficientEscrow,
    /// The position was already claimed or cancelled.
    AlreadyClaimed,
    /// Only the market's creator may resolve it.
    Unauthorized,
    /// The market was already resolved.
    AlreadyResolved,
    /// The market's end time has not been reached yet.
    MarketNotEnded,
    /// The market is not resolved yet.
    MarketNotResolved,
    /// An outcome pool is too shallow to price the requested exit.
    InsufficientLiquidity,
    /// The computed net payout fell below the caller's floor.
    SlippageExceeded,
    /// The winning pool is empty; nothing can be claimed.
    NoWinnersRemaining,
}

} // verus!
