//! The data model: protocol configuration, markets and positions.
//!
//! A `Protocol` value is the global configuration, created once. A `Market`
//! holds the two outcome pools, the resolution state and the timing of one
//! prediction question. A `Position` records one bet: a user's remaining
//! stake on one outcome of one market. The host's persistent store owns the
//! records and keys them by market id and by (user, market, position id);
//! the core only reads and writes their fields.

use vstd::prelude::*;

use crate::error::ErrorCode;

verus! {

/// Identity of an account-holding principal.
///
/// The host proves who the caller is; the core only compares identities for
/// equality against stored owner, creator and recipient fields.
#[derive(Clone, Copy, Debug, PartialEq, Eq, Structural)]
pub struct AccountId {
    pub raw: u128,
}

/// Global protocol configuration: fee parameters, fee recipients and the
/// monotonically increasing market counter. Created once; the fee
/// parameters are fixed at that point.
#[derive(Clone, Debug)]
pub struct Protocol {
    /// Identity that initialized the protocol.
    pub authority: AccountId,
    /// Recipient of the authority's half of every distributed fee.
    pub authority_fee_recipient: AccountId,
    /// Recipient of the remaining half (plus any odd unit) of every fee.
    pub dev_recipient: AccountId,
    /// Claim-time fee on gross winnings, in basis points of 10,000.
    pub protocol_fee_bps: u16,
    /// Early-exit fee on the gross payout, in basis points of 10,000.
    pub cancel_fee_bps: u16,
    /// AMM spread fee on the gross payout, in basis points of 10,000.
    pub amm_fee_bps: u16,
    /// Number of markets created so far; the next market's id.
    pub market_count: u64,
}

/// One prediction question: two outcome pools, resolution state and timing.
#[derive(Clone, Debug)]
pub struct Market {
    /// Assigned from the protocol's market counter at creation.
    pub id: u64,
    /// Only the creator may resolve the market.
    pub creator: AccountId,
    /// The question the market settles.
    pub question: String,
    /// Exactly two outcome labels.
    pub outcomes: Vec<String>,
    /// Stake is accepted and exits are priced strictly before this time;
    /// resolution is possible from this time on. Immutable after creation.
    pub end_time: i64,
    /// Set once by the creator's resolution report; never reverts.
    pub resolved: bool,
    /// The reported winning outcome index; present exactly when resolved.
    pub winning_outcome: Option<u8>,
    /// Sum of net deposits currently held as live stake.
    pub total_volume: u64,
    /// The pooled stake backing each of the two outcomes. The pools double
    /// as the reserves of the constant-product pricing of early exits.
    pub outcome_pools: Vec<u64>,
    /// Number of positions opened so far; the next position's id.
    pub position_count: u64,
}

/// One bet: a user's remaining stake on one outcome of one market. New bets
/// always open a new position; history is never merged.
#[derive(Clone, Debug)]
pub struct Position {
    /// Unique within the market, assigned from the market's position counter.
    pub id: u64,
    /// The owner; only this identity may mutate or claim the position.
    pub user: AccountId,
    /// Id of the market the position belongs to.
    pub market: u64,
    /// The outcome the stake backs: 0 or 1.
    pub outcome: u8,
    /// Remaining stake: grows with the position, shrinks on withdrawal,
    /// zeroed by a full cancel.
    pub amount: u64,
    /// Set once by a claim or a full cancel; afterwards the position is
    /// terminal.
    pub claimed: bool,
    /// Time the position was opened or last increased.
    pub ts: i64,
}

impl Protocol {
    /// Create the protocol configuration. Fee parameters and recipients are
    /// fixed here; the market counter starts at zero.
    pub fn initialize_protocol(
        authority: AccountId,
        authority_fee_recipient: AccountId,
        dev_recipient: AccountId,
        protocol_fee_bps: u16,
        cancel_fee_bps: u16,
        amm_fee_bps: u16,
    ) -> (r: Protocol)
        ensures
            r.authority == authority,
            r.authority_fee_recipient == authority_fee_recipient,
            r.dev_recipient == dev_recipient,
            r.protocol_fee_bps == protocol_fee_bps,
            r.cancel_fee_bps == cancel_fee_bps,
            r.amm_fee_bps == amm_fee_bps,
            r.market_count == 0,
    {
        Protocol {
            authority,
            authority_fee_recipient,
            dev_recipient,
            protocol_fee_bps,
            cancel_fee_bps,
            amm_fee_bps,
            market_count: 0,
        }
    }

    /// The error `create_market` fails with, if any, in the order the
    /// conditions are checked.
    pub open spec fn create_market_err(
        self,
        outcomes_len: int,
        end_time: int,
        now: int,
        escrow_balance: u64,
    ) -> Option<ErrorCode> {
        if outcomes_len != 2 {
            Some(ErrorCode::InvalidOutcomes)
        } else if end_time <= now {
            Some(ErrorCode::InvalidEndTime)
        } else if escrow_balance != 0 {
            Some(ErrorCode::EscrowNotEmpty)
        } else if self.market_count == u64::MAX {
            Some(ErrorCode::AmountOverflow)
        } else {
            None
        }
    }

    /// Open a new market with exactly two outcome labels and a strictly
    /// future end time. The market's escrow, reported by the host, must be
    /// empty. On success the market takes the current counter as its id,
    /// starts with pools `[0, 0]`, and the counter advances by one.
    pub fn create_market(
        &mut self,
        creator: AccountId,
        question: String,
        outcomes: Vec<String>,
        end_time: i64,
        now: i64,
        escrow_balance: u64,
    ) -> (r: Result<Market, ErrorCode>)
        ensures
            match old(self).create_market_err(
                outcomes@.len() as int,
                end_time as int,
                now as int,
                escrow_balance,
            ) {
                Some(e) => r == Err::<Market, ErrorCode>(e) && *final(self) == *old(self),
                None => {
                    &&& r matches Ok(m)
                    &&& m.id == old(self).market_count
                    &&& m.creator == creator
                    &&& m.question == question
                    &&& m.outcomes == outcomes
                    &&& m.end_time == end_time
                    &&& !m.resolved
                    &&& m.winning_outcome is None
                    &&& m.total_volume == 0
                    &&& m.outcome_pools@ =~= seq![0u64, 0u64]
                    &&& m.position_count == 0
                    &&& m.wf()
                    &&& m.pools_balanced()
                    &&& final(self).market_count == old(self).market_count + 1
                    &&& final(self).authority == old(self).authority
                    &&& final(self).authority_fee_recipient == old(self).authority_fee_recipient
                    &&& final(self).dev_recipient == old(self).dev_recipient
                    &&& final(self).protocol_fee_bps == old(self).protocol_fee_bps
                    &&& final(self).cancel_fee_bps == old(self).cancel_fee_bps
                    &&& final(self).amm_fee_bps == old(self).amm_fee_bps
                },
            },
    {
        if outcomes.len() != 2 {
            return Err(ErrorCode::InvalidOutcomes);
        }
        if end_time <= now {
            return Err(ErrorCode::InvalidEndTime);
        }
        if escrow_balance != 0 {
            return Err(ErrorCode::EscrowNotEmpty);
        }
        if self.market_count == u64::MAX {
            return Err(ErrorCode::AmountOverflow);
        }
        let mut outcome_pools: Vec<u64> = Vec::new();
        outcome_pools.push(0);
        outcome_pools.push(0);
        let market = Market {
            id: self.market_count,
            creator,
            question,
            outcomes,
            end_time,
            resolved: false,
            winning_outcome: None,
            total_volume: 0,
            outcome_pools,
            position_count: 0,
        };
        self.market_count = self.market_count + 1;
        Ok(market)
    }
}

impl Market {
    /// Well-formedness: two outcome labels, two pools, and the resolution
    /// flag agrees with the presence of a winning outcome in `{0, 1}`.
    /// Constructors establish it and every operation preserves it.
    pub open spec fn wf(self) -> bool {
        &&& self.outcomes@.len() == 2
        &&& self.outcome_pools@.len() == 2
        &&& (self.resolved <==> self.winning_outcome is Some)
        &&& (self.winning_outcome is Some ==> self.winning_outcome->0 < 2)
    }

    /// The pool backing outcome `i`.
    pub open spec fn pool(self, i: int) -> u64 {
        self.outcome_pools@[i]
    }

    /// The two pools sum exactly to the live volume. Creation establishes
    /// it and bets preserve it; an AMM exit reprices the opposite pool and
    /// deliberately breaks it (see `withdraw_from_position`).
    pub open spec fn pools_balanced(self) -> bool {
        self.pool(0) + self.pool(1) == self.total_volume
    }

    /// Runtime check of `wf`, for a host that holds records of uncertain
    /// provenance.
    pub fn wf_check(&self) -> (r: bool)
        ensures
            r == self.wf(),
    {
        let two_labels: bool = self.outcomes.len() == 2;
        let two_pools: bool = self.outcome_pools.len() == 2;
        let resolution_consistent: bool = match self.winning_outcome {
            Some(w) => self.resolved && w < 2,
            None => !self.resolved,
        };
        two_labels && two_pools && resolution_consistent
    }
}

impl Position {
    /// Well-formedness: the outcome index is 0 or 1.
    pub open spec fn wf(self) -> bool {
        self.outcome < 2
    }
}

} // verus!
