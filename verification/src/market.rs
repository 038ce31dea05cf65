//! The market operations: bet placement and growth, AMM exits, resolution
//! and claim settlement.
//!
//! Every operation is a single unit of work: it validates, computes with
//! overflow-checked arithmetic, and either commits all its record updates
//! and returns the transfers the host must perform, or fails with one named
//! error and changes nothing. The error of each operation is pinned down by
//! a spec function that lists the failure conditions in the order they are
//! checked.

use vstd::prelude::*;

use crate::amm;
use crate::amm::ExitQuote;
use crate::error::ErrorCode;
use crate::state::{AccountId, Market, Position, Protocol};

verus! {

/// What an AMM exit pays out: the host transfers `payout_net` from the
/// market's escrow to the user and hands `total_fee` to the fee
/// distributor.
#[derive(Clone, Copy, Debug, PartialEq, Eq, Structural)]
pub struct WithdrawReceipt {
    /// Stake removed from the position and its outcome pool.
    pub withdrawn: u64,
    /// Paid from escrow to the exiting user.
    pub payout_net: u64,
    /// Retained for the fee recipients, to be split by the fee distributor.
    pub total_fee: u64,
}

/// What a claim pays out: the host transfers `payout_net` from the market's
/// escrow to the winner and hands `protocol_fee` to the fee distributor.
#[derive(Clone, Copy, Debug, PartialEq, Eq, Structural)]
pub struct ClaimReceipt {
    /// Paid from escrow to the claiming winner.
    pub payout_net: u64,
    /// Retained for the fee recipients, to be split by the fee distributor.
    pub protocol_fee: u64,
}

impl Market {
    /// Fields no operation after creation ever changes.
    pub open spec fn same_identity(self, other: Market) -> bool {
        &&& other.id == self.id
        &&& other.creator == self.creator
        &&& other.question == self.question
        &&& other.outcomes == self.outcomes
        &&& other.end_time == self.end_time
    }

    /// The error `place_bet` fails with, if any, in the order the
    /// conditions are checked.
    pub open spec fn place_bet_err(self, outcome: u8, amount: u64, now: int) -> Option<
        ErrorCode,
    > {
        if outcome >= 2 {
            Some(ErrorCode::InvalidOutcome)
        } else if amount == 0 {
            Some(ErrorCode::InvalidAmount)
        } else if self.resolved {
            Some(ErrorCode::MarketResolved)
        } else if now >= self.end_time {
            Some(ErrorCode::MarketEnded)
        } else if self.pool(outcome as int) + amount > u64::MAX {
            Some(ErrorCode::AmountOverflow)
        } else if self.total_volume + amount > u64::MAX {
            Some(ErrorCode::AmountOverflow)
        } else if self.position_count == u64::MAX {
            Some(ErrorCode::AmountOverflow)
        } else {
            None
        }
    }

    /// Stake `amount` on `outcome` while the market is open. The host has
    /// already moved `amount` from the user into the market's escrow; the
    /// pool and the live volume grow by it and a fresh position records the
    /// stake.
    pub fn place_bet(&mut self, user: AccountId, outcome: u8, amount: u64, now: i64) -> (r:
        Result<Position, ErrorCode>)
        requires
            old(self).wf(),
        ensures
            final(self).wf(),
            old(self).same_identity(*final(self)),
            final(self).resolved == old(self).resolved,
            final(self).winning_outcome == old(self).winning_outcome,
            old(self).pools_balanced() ==> final(self).pools_balanced(),
            match old(self).place_bet_err(outcome, amount, now as int) {
                Some(e) => r == Err::<Position, ErrorCode>(e) && *final(self) == *old(self),
                None => {
                    &&& r matches Ok(p)
                    &&& p.id == old(self).position_count
                    &&& p.user == user
                    &&& p.market == old(self).id
                    &&& p.outcome == outcome
                    &&& p.amount == amount
                    &&& !p.claimed
                    &&& p.ts == now
                    &&& p.wf()
                    &&& final(self).outcome_pools@ == old(self).outcome_pools@.update(
                        outcome as int,
                        (old(self).pool(outcome as int) + amount) as u64,
                    )
                    &&& final(self).total_volume == old(self).total_volume + amount
                    &&& final(self).position_count == old(self).position_count + 1
                    &&& p.amount <= final(self).pool(outcome as int)
                },
            },
    {
        if outcome >= 2 {
            return Err(ErrorCode::InvalidOutcome);
        }
        if amount == 0 {
            return Err(ErrorCode::InvalidAmount);
        }
        if self.resolved {
            return Err(ErrorCode::MarketResolved);
        }
        if now >= self.end_time {
            return Err(ErrorCode::MarketEnded);
        }
        let idx: usize = outcome as usize;
        let pool: u64 = self.outcome_pools[idx];
        if amount > u64::MAX - pool {
            return Err(ErrorCode::AmountOverflow);
        }
        if amount > u64::MAX - self.total_volume {
            return Err(ErrorCode::AmountOverflow);
        }
        if self.position_count == u64::MAX {
            return Err(ErrorCode::AmountOverflow);
        }
        let position = Position {
            id: self.position_count,
            user,
            market: self.id,
            outcome,
            amount,
            claimed: false,
            ts: now,
        };
        self.outcome_pools.set(idx, pool + amount);
        self.total_volume = self.total_volume + amount;
        self.position_count = self.position_count + 1;
        Ok(position)
    }

    /// The error `increase_position` fails with, if any, in the order the
    /// conditions are checked.
    pub open spec fn increase_position_err(
        self,
        p: Position,
        user: AccountId,
        added_amount: u64,
        now: int,
    ) -> Option<ErrorCode> {
        if added_amount == 0 {
            Some(ErrorCode::InvalidAmount)
        } else if self.resolved {
            Some(ErrorCode::MarketResolved)
        } else if now >= self.end_time {
            Some(ErrorCode::MarketEnded)
        } else if p.user != user {
            Some(ErrorCode::PositionOwnerMismatch)
        } else if self.pool(p.outcome as int) + added_amount > u64::MAX {
            Some(ErrorCode::AmountOverflow)
        } else if self.total_volume + added_amount > u64::MAX {
            Some(ErrorCode::AmountOverflow)
        } else if p.amount + added_amount > u64::MAX {
            Some(ErrorCode::AmountOverflow)
        } else {
            None
        }
    }

    /// Grow an existing position by `added_amount` while the market is
    /// open. The host has already moved `added_amount` into escrow; the
    /// position's outcome pool, the live volume and the position grow by
    /// it, and the position's timestamp is refreshed. The outcome cannot be
    /// changed.
    pub fn increase_position(
        &mut self,
        position: &mut Position,
        user: AccountId,
        added_amount: u64,
        now: i64,
    ) -> (r: Result<(), ErrorCode>)
        requires
            old(self).wf(),
            old(position).wf(),
        ensures
            final(self).wf(),
            final(position).wf(),
            old(self).same_identity(*final(self)),
            final(self).resolved == old(self).resolved,
            final(self).winning_outcome == old(self).winning_outcome,
            final(self).position_count == old(self).position_count,
            old(self).pools_balanced() ==> final(self).pools_balanced(),
            match old(self).increase_position_err(*old(position), user, added_amount, now as int) {
                Some(e) => r == Err::<(), ErrorCode>(e) && *final(self) == *old(self)
                    && *final(position) == *old(position),
                None => {
                    &&& r == Ok::<(), ErrorCode>(())
                    &&& final(self).outcome_pools@ == old(self).outcome_pools@.update(
                        old(position).outcome as int,
                        (old(self).pool(old(position).outcome as int) + added_amount) as u64,
                    )
                    &&& final(self).total_volume == old(self).total_volume + added_amount
                    &&& final(position).amount == old(position).amount + added_amount
                    &&& final(position).ts == now
                    &&& final(position).id == old(position).id
                    &&& final(position).user == old(position).user
                    &&& final(position).market == old(position).market
                    &&& final(position).outcome == old(position).outcome
                    &&& final(position).claimed == old(position).claimed
                    &&& (old(position).amount <= old(self).pool(old(position).outcome as int)
                        ==> final(position).amount <= final(self).pool(
                        final(position).outcome as int,
                    ))
                },
            },
    {
        if added_amount == 0 {
            return Err(ErrorCode::InvalidAmount);
        }
        if self.resolved {
            return Err(ErrorCode::MarketResolved);
        }
        if now >= self.end_time {
            return Err(ErrorCode::MarketEnded);
        }
        if position.user != user {
            return Err(ErrorCode::PositionOwnerMismatch);
        }
        let idx: usize = position.outcome as usize;
        let pool: u64 = self.outcome_pools[idx];
        if added_amount > u64::MAX - pool {
            return Err(ErrorCode::AmountOverflow);
        }
        if added_amount > u64::MAX - self.total_volume {
            return Err(ErrorCode::AmountOverflow);
        }
        if added_amount > u64::MAX - position.amount {
            return Err(ErrorCode::AmountOverflow);
        }
        self.outcome_pools.set(idx, pool + added_amount);
        self.total_volume = self.total_volume + added_amount;
        position.amount = position.amount + added_amount;
        position.ts = now;
        Ok(())
    }

    /// The error `withdraw_from_position` fails with, if any, in the order
    /// the conditions are checked. The exit must leave the position's
    /// outcome pool positive and finds its price only against a non-empty
    /// opposite pool; the priced exit can still fail on the settlement
    /// unit's range or on the caller's slippage floor.
    pub open spec fn withdraw_from_position_err(
        self,
        protocol: Protocol,
        p: Position,
        user: AccountId,
        amount_to_withdraw: u64,
        min_payout: u64,
        now: int,
    ) -> Option<ErrorCode> {
        let x = self.pool(p.outcome as int);
        let y = self.pool(1 - p.outcome as int);
        if amount_to_withdraw == 0 {
            Some(ErrorCode::InvalidAmount)
        } else if now >= self.end_time {
            Some(ErrorCode::MarketAlreadyEndedForModification)
        } else if p.user != user {
            Some(ErrorCode::PositionOwnerMismatch)
        } else if amount_to_withdraw > p.amount {
            Some(ErrorCode::WithdrawAmountExceedsPosition)
        } else if x <= amount_to_withdraw {
            Some(ErrorCode::InsufficientLiquidity)
        } else if y == 0 {
            Some(ErrorCode::InsufficientLiquidity)
        } else {
            match amm::exit_quote_err(
                x,
                y,
                amount_to_withdraw,
                protocol.amm_fee_bps,
                protocol.cancel_fee_bps,
                min_payout,
            ) {
                Some(e) => Some(e),
                None => if amount_to_withdraw > self.total_volume {
                    Some(ErrorCode::AmountOverflow)
                } else {
                    None
                },
            }
        }
    }

    /// The committed effect of an exit of `delta` stake from outcome `i`:
    /// the stake leaves its pool, the opposite pool is repriced with the
    /// retained fee booked back into it, and the live volume drops by the
    /// stake.
    pub open spec fn exit_committed(
        self,
        after: Market,
        protocol: Protocol,
        i: int,
        delta: u64,
    ) -> bool {
        let x = self.pool(i) as int;
        let y = self.pool(1 - i) as int;
        let fee = amm::exit_total_fee(
            x,
            y,
            delta as int,
            protocol.amm_fee_bps as int,
            protocol.cancel_fee_bps as int,
        );
        &&& after.outcome_pools@ == self.outcome_pools@.update(
            i,
            amm::exit_new_pool_outcome(x, delta as int) as u64,
        ).update(1 - i, (amm::exit_new_pool_other(x, y, delta as int) + fee) as u64)
        &&& after.total_volume == self.total_volume - delta
    }

    /// Withdraw part (or all) of a position's stake before the market
    /// ends, priced by the constant-product formula over the two outcome
    /// pools. On success the receipt carries the net payout owed to the
    /// user and the fee owed to the fee distributor, both funded by the
    /// market's escrow.
    pub fn withdraw_from_position(
        &mut self,
        protocol: &Protocol,
        position: &mut Position,
        user: AccountId,
        amount_to_withdraw: u64,
        min_payout: u64,
        now: i64,
    ) -> (r: Result<WithdrawReceipt, ErrorCode>)
        requires
            old(self).wf(),
            old(position).wf(),
            old(position).market == old(self).id,
        ensures
            final(self).wf(),
            final(position).wf(),
            final(position).market == final(self).id,
            old(self).same_identity(*final(self)),
            final(self).resolved == old(self).resolved,
            final(self).winning_outcome == old(self).winning_outcome,
            final(self).position_count == old(self).position_count,
            match old(self).withdraw_from_position_err(
                *protocol,
                *old(position),
                user,
                amount_to_withdraw,
                min_payout,
                now as int,
            ) {
                Some(e) => r == Err::<WithdrawReceipt, ErrorCode>(e) && *final(self) == *old(self)
                    && *final(position) == *old(position),
                None => {
                    let i = old(position).outcome as int;
                    let x = old(self).pool(i) as int;
                    let y = old(self).pool(1 - i) as int;
                    &&& r matches Ok(rc)
                    &&& rc.withdrawn == amount_to_withdraw
                    &&& rc.payout_net == amm::exit_net(
                        x,
                        y,
                        amount_to_withdraw as int,
                        protocol.amm_fee_bps as int,
                        protocol.cancel_fee_bps as int,
                    )
                    &&& rc.total_fee == amm::exit_total_fee(
                        x,
                        y,
                        amount_to_withdraw as int,
                        protocol.amm_fee_bps as int,
                        protocol.cancel_fee_bps as int,
                    )
                    &&& rc.payout_net >= min_payout
                    &&& old(self).exit_committed(*final(self), *protocol, i, amount_to_withdraw)
                    &&& final(position).amount == old(position).amount - amount_to_withdraw
                    &&& final(position).id == old(position).id
                    &&& final(position).user == old(position).user
                    &&& final(position).outcome == old(position).outcome
                    &&& final(position).claimed == old(position).claimed
                    &&& final(position).ts == old(position).ts
                    &&& (old(position).amount <= old(self).pool(i) ==> final(position).amount
                        <= final(self).pool(i))
                },
            },
    {
        if amount_to_withdraw == 0 {
            return Err(ErrorCode::InvalidAmount);
        }
        if now >= self.end_time {
            return Err(ErrorCode::MarketAlreadyEndedForModification);
        }
        if position.user != user {
            return Err(ErrorCode::PositionOwnerMismatch);
        }
        if amount_to_withdraw > position.amount {
            return Err(ErrorCode::WithdrawAmountExceedsPosition);
        }
        let idx: usize = position.outcome as usize;
        let other_idx: usize = 1 - idx;
        let x: u64 = self.outcome_pools[idx];
        let y: u64 = self.outcome_pools[other_idx];
        if x <= amount_to_withdraw {
            return Err(ErrorCode::InsufficientLiquidity);
        }
        if y == 0 {
            return Err(ErrorCode::InsufficientLiquidity);
        }
        let quote: ExitQuote = match amm::exit_quote(
            x,
            y,
            amount_to_withdraw,
            protocol.amm_fee_bps,
            protocol.cancel_fee_bps,
            min_payout,
        ) {
            Ok(q) => q,
            Err(e) => {
                return Err(e);
            },
        };
        if amount_to_withdraw > self.total_volume {
            return Err(ErrorCode::AmountOverflow);
        }
        position.amount = position.amount - amount_to_withdraw;
        self.outcome_pools.set(idx, quote.new_pool_outcome);
        self.outcome_pools.set(other_idx, quote.new_pool_other);
        self.total_volume = self.total_volume - amount_to_withdraw;
        Ok(
            WithdrawReceipt {
                withdrawn: amount_to_withdraw,
                payout_net: quote.payout_net,
                total_fee: quote.total_fee,
            },
        )
    }

    /// The error `cancel_position` fails with, if any, in the order the
    /// conditions are checked.
    pub open spec fn cancel_position_err(
        self,
        protocol: Protocol,
        p: Position,
        user: AccountId,
        min_payout: u64,
        now: int,
    ) -> Option<ErrorCode> {
        let x = self.pool(p.outcome as int);
        let y = self.pool(1 - p.outcome as int);
        if now >= self.end_time {
            Some(ErrorCode::MarketAlreadyEndedForModification)
        } else if p.user != user {
            Some(ErrorCode::PositionOwnerMismatch)
        } else if p.claimed {
            Some(ErrorCode::AlreadyClaimed)
        } else if p.amount == 0 {
            Some(ErrorCode::InvalidAmount)
        } else if x <= p.amount {
            Some(ErrorCode::InsufficientLiquidity)
        } else if y == 0 {
            Some(ErrorCode::InsufficientLiquidity)
        } else {
            match amm::exit_quote_err(
                x,
                y,
                p.amount,
                protocol.amm_fee_bps,
                protocol.cancel_fee_bps,
                min_payout,
            ) {
                Some(e) => Some(e),
                None => if p.amount > self.total_volume {
                    Some(ErrorCode::AmountOverflow)
                } else {
                    None
                },
            }
        }
    }

    /// Exit a position's entire stake before the market ends: the full
    /// `amount` is withdrawn at the same constant-product price as a
    /// partial withdrawal, and the position is terminally marked claimed
    /// with zero remaining stake.
    pub fn cancel_position(
        &mut self,
        protocol: &Protocol,
        position: &mut Position,
        user: AccountId,
        min_payout: u64,
        now: i64,
    ) -> (r: Result<WithdrawReceipt, ErrorCode>)
        requires
            old(self).wf(),
            old(position).wf(),
            old(position).market == old(self).id,
        ensures
            final(self).wf(),
            final(position).wf(),
            final(position).market == final(self).id,
            old(self).same_identity(*final(self)),
            final(self).resolved == old(self).resolved,
            final(self).winning_outcome == old(self).winning_outcome,
            final(self).position_count == old(self).position_count,
            match old(self).cancel_position_err(
                *protocol,
                *old(position),
                user,
                min_payout,
                now as int,
            ) {
                Some(e) => r == Err::<WithdrawReceipt, ErrorCode>(e) && *final(self) == *old(self)
                    && *final(position) == *old(position),
                None => {
                    let i = old(position).outcome as int;
                    let x = old(self).pool(i) as int;
                    let y = old(self).pool(1 - i) as int;
                    let delta = old(position).amount;
                    &&& r matches Ok(rc)
                    &&& rc.withdrawn == delta
                    &&& rc.payout_net == amm::exit_net(
                        x,
                        y,
                        delta as int,
                        protocol.amm_fee_bps as int,
                        protocol.cancel_fee_bps as int,
                    )
                    &&& rc.total_fee == amm::exit_total_fee(
                        x,
                        y,
                        delta as int,
                        protocol.amm_fee_bps as int,
                        protocol.cancel_fee_bps as int,
                    )
                    &&& rc.payout_net >= min_payout
                    &&& old(self).exit_committed(*final(self), *protocol, i, delta)
                    &&& !old(position).claimed
                    &&& final(position).amount == 0
                    &&& final(position).claimed
                    &&& final(position).id == old(position).id
                    &&& final(position).user == old(position).user
                    &&& final(position).outcome == old(position).outcome
                    &&& final(position).ts == old(position).ts
                },
            },
    {
        if now >= self.end_time {
            return Err(ErrorCode::MarketAlreadyEndedForModification);
        }
        if position.user != user {
            return Err(ErrorCode::PositionOwnerMismatch);
        }
        if position.claimed {
            return Err(ErrorCode::AlreadyClaimed);
        }
        if position.amount == 0 {
            return Err(ErrorCode::InvalidAmount);
        }
        let amount_to_return: u64 = position.amount;
        let idx: usize = position.outcome as usize;
        let other_idx: usize = 1 - idx;
        let x: u64 = self.outcome_pools[idx];
        let y: u64 = self.outcome_pools[other_idx];
        if x <= amount_to_return {
            return Err(ErrorCode::InsufficientLiquidity);
        }
        if y == 0 {
            return Err(ErrorCode::InsufficientLiquidity);
        }
        let quote: ExitQuote = match amm::exit_quote(
            x,
            y,
            amount_to_return,
            protocol.amm_fee_bps,
            protocol.cancel_fee_bps,
            min_payout,
        ) {
            Ok(q) => q,
            Err(e) => {
                return Err(e);
            },
        };
        if amount_to_return > self.total_volume {
            return Err(ErrorCode::AmountOverflow);
        }
        self.outcome_pools.set(idx, quote.new_pool_outcome);
        self.outcome_pools.set(other_idx, quote.new_pool_other);
        self.total_volume = self.total_volume - amount_to_return;
        position.amount = 0;
        position.claimed = true;
        Ok(
            WithdrawReceipt {
                withdrawn: amount_to_return,
                payout_net: quote.payout_net,
                total_fee: quote.total_fee,
            },
        )
    }

    /// The error `resolve_market` fails with, if any, in the order the
    /// conditions are checked.
    pub open spec fn resolve_market_err(self, caller: AccountId, winning_outcome: u8, now: int) -> Option<
        ErrorCode,
    > {
        if caller != self.creator {
            Some(ErrorCode::Unauthorized)
        } else if self.resolved {
            Some(ErrorCode::AlreadyResolved)
        } else if now < self.end_time {
            Some(ErrorCode::MarketNotEnded)
        } else if winning_outcome >= 2 {
            Some(ErrorCode::InvalidOutcome)
        } else {
            None
        }
    }

    /// Record the creator's resolution report once the end time has
    /// passed. The report is trusted as ground truth: no oracle or dispute
    /// window exists. Resolution is terminal; it can neither be repeated
    /// nor reverted.
    pub fn resolve_market(&mut self, caller: AccountId, winning_outcome: u8, now: i64) -> (r:
        Result<(), ErrorCode>)
        requires
            old(self).wf(),
        ensures
            final(self).wf(),
            old(self).same_identity(*final(self)),
            old(self).resolved ==> final(self).resolved && final(self).winning_outcome == old(
                self,
            ).winning_outcome,
            final(self).total_volume == old(self).total_volume,
            final(self).outcome_pools@ == old(self).outcome_pools@,
            final(self).position_count == old(self).position_count,
            old(self).pools_balanced() ==> final(self).pools_balanced(),
            match old(self).resolve_market_err(caller, winning_outcome, now as int) {
                Some(e) => r == Err::<(), ErrorCode>(e) && *final(self) == *old(self),
                None => {
                    &&& r == Ok::<(), ErrorCode>(())
                    &&& final(self).resolved
                    &&& final(self).winning_outcome == Some(winning_outcome)
                    &&& !old(self).resolved
                },
            },
    {
        if caller != self.creator {
            return Err(ErrorCode::Unauthorized);
        }
        if self.resolved {
            return Err(ErrorCode::AlreadyResolved);
        }
        if now < self.end_time {
            return Err(ErrorCode::MarketNotEnded);
        }
        if winning_outcome >= 2 {
            return Err(ErrorCode::InvalidOutcome);
        }
        self.resolved = true;
        self.winning_outcome = Some(winning_outcome);
        Ok(())
    }

    /// A winner's proportional cut of the losing pool: the position's
    /// stake times the losing pool over the winning pool, truncated.
    pub open spec fn claim_user_share(amount: int, loser_pool: int, winner_pool: int) -> int {
        (amount * loser_pool) / winner_pool
    }

    /// A winner's gross payout: the original stake returned plus the
    /// proportional cut of the losing pool.
    pub open spec fn claim_gross(amount: int, loser_pool: int, winner_pool: int) -> int {
        amount + Self::claim_user_share(amount, loser_pool, winner_pool)
    }

    /// The error `claim_winnings` fails with, if any, in the order the
    /// conditions are checked. Losing positions have nothing to claim and
    /// fail on the outcome comparison.
    pub open spec fn claim_winnings_err(self, protocol: Protocol, p: Position, user: AccountId) -> Option<
        ErrorCode,
    > {
        if !self.resolved {
            Some(ErrorCode::MarketNotResolved)
        } else if p.user != user {
            Some(ErrorCode::PositionOwnerMismatch)
        } else if p.claimed {
            Some(ErrorCode::AlreadyClaimed)
        } else if p.amount == 0 {
            Some(ErrorCode::InvalidAmount)
        } else if p.outcome != self.winning_outcome->0 {
            Some(ErrorCode::InvalidOutcome)
        } else {
            let winner_pool = self.pool(self.winning_outcome->0 as int);
            let loser_pool = self.pool(1 - self.winning_outcome->0 as int);
            let gross = Self::claim_gross(p.amount as int, loser_pool as int, winner_pool as int);
            let fee = amm::fee_amount(gross, protocol.protocol_fee_bps as int);
            if winner_pool == 0 {
                Some(ErrorCode::NoWinnersRemaining)
            } else if gross > u64::MAX {
                Some(ErrorCode::AmountOverflow)
            } else if fee > u64::MAX {
                Some(ErrorCode::AmountOverflow)
            } else if fee > gross {
                Some(ErrorCode::AmountOverflow)
            } else {
                None
            }
        }
    }

    /// Claim a winning position after resolution: the stake comes back
    /// together with the proportional share of the losing pool, minus the
    /// protocol fee. The pools are not decremented; the payout is funded
    /// by the market's escrow, which the AMM invariant kept sized to cover
    /// every winner's claim. The position is terminally marked claimed,
    /// its stake left as the historical record.
    pub fn claim_winnings(
        &self,
        protocol: &Protocol,
        position: &mut Position,
        user: AccountId,
    ) -> (r: Result<ClaimReceipt, ErrorCode>)
        requires
            self.wf(),
            old(position).wf(),
            old(position).market == self.id,
        ensures
            final(position).wf(),
            final(position).market == self.id,
            match self.claim_winnings_err(*protocol, *old(position), user) {
                Some(e) => r == Err::<ClaimReceipt, ErrorCode>(e) && *final(position) == *old(
                    position,
                ),
                None => {
                    let w = self.winning_outcome->0 as int;
                    let gross = Self::claim_gross(
                        old(position).amount as int,
                        self.pool(1 - w) as int,
                        self.pool(w) as int,
                    );
                    let fee = amm::fee_amount(gross, protocol.protocol_fee_bps as int);
                    &&& r matches Ok(rc)
                    &&& rc.payout_net == gross - fee
                    &&& rc.protocol_fee == fee
                    &&& rc.payout_net + rc.protocol_fee == gross
                    &&& !old(position).claimed
                    &&& final(position).claimed
                    &&& final(position).amount == old(position).amount
                    &&& final(position).id == old(position).id
                    &&& final(position).user == old(position).user
                    &&& final(position).outcome == old(position).outcome
                    &&& final(position).ts == old(position).ts
                },
            },
    {
        if !self.resolved {
            return Err(ErrorCode::MarketNotResolved);
        }
        if position.user != user {
            return Err(ErrorCode::PositionOwnerMismatch);
        }
        if position.claimed {
            return Err(ErrorCode::AlreadyClaimed);
        }
        if position.amount == 0 {
            return Err(ErrorCode::InvalidAmount);
        }
        let winning: u8 = match self.winning_outcome {
            Some(w) => w,
            None => {
                return Err(ErrorCode::MarketNotResolved);
            },
        };
        if position.outcome != winning {
            return Err(ErrorCode::InvalidOutcome);
        }
        let widx: usize = winning as usize;
        let lidx: usize = 1 - widx;
        let winner_pool: u64 = self.outcome_pools[widx];
        let loser_pool: u64 = self.outcome_pools[lidx];
        if winner_pool == 0 {
            return Err(ErrorCode::NoWinnersRemaining);
        }
        let amount_wide: u128 = position.amount as u128;
        proof {
            assert(amount_wide * (loser_pool as u128) <= (u64::MAX as u128) * (
            u64::MAX as u128)) by (nonlinear_arith)
                requires
                    0 <= amount_wide <= u64::MAX,
                    0 <= loser_pool <= u64::MAX,
            ;
            vstd::arithmetic::div_mod::lemma_div_is_ordered(
                amount_wide * (loser_pool as u128),
                (u64::MAX as u128) * (u64::MAX as u128),
                winner_pool as int,
            );
        }
        let user_share: u128 = amount_wide * (loser_pool as u128) / (winner_pool as u128);
        let gross: u128 = amount_wide + user_share;
        if gross > u64::MAX as u128 {
            return Err(ErrorCode::AmountOverflow);
        }
        proof {
            assert(gross * (protocol.protocol_fee_bps as u128) <= (u64::MAX as u128)
                * 65535) by (nonlinear_arith)
                requires
                    0 <= gross <= u64::MAX,
                    0 <= protocol.protocol_fee_bps <= 65535,
            ;
        }
        let protocol_fee: u128 = gross * (protocol.protocol_fee_bps as u128) / 10000;
        if protocol_fee > u64::MAX as u128 {
            return Err(ErrorCode::AmountOverflow);
        }
        let gross_u64: u64 = gross as u64;
        let protocol_fee_u64: u64 = protocol_fee as u64;
        if protocol_fee_u64 > gross_u64 {
            return Err(ErrorCode::AmountOverflow);
        }
        let payout_net: u64 = gross_u64 - protocol_fee_u64;
        position.claimed = true;
        Ok(ClaimReceipt { payout_net, protocol_fee: protocol_fee_u64 })
    }
}

} // verus!
