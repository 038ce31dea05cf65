//! Laws that span several operations or all of a market's positions.
//!
//! A single operation touches one market and at most one position, so its
//! contract can only speak of those records. The laws here lift the
//! contracts to every position of a market: each pool always covers the
//! total stake of the positions drawn from it (so no position's stake ever
//! exceeds its pool), and a claimed position is terminal.

use vstd::prelude::*;

use crate::amm;
use crate::state::{AccountId, Market, Position, Protocol};

verus! {

/// The stake position `p` holds on outcome `i`.
pub open spec fn stake_of(p: Position, i: int) -> int {
    if p.outcome == i {
        p.amount as int
    } else {
        0
    }
}

/// Total stake the positions `ps` hold on outcome `i`.
pub open spec fn stake_on(ps: Seq<Position>, i: int) -> int
    decreases ps.len(),
{
    if ps.len() == 0 {
        0
    } else {
        stake_on(ps.drop_last(), i) + stake_of(ps.last(), i)
    }
}

/// Each outcome pool covers the total stake of the positions drawn from
/// it. Market creation establishes it with empty pools and no positions,
/// and every operation preserves it (the lemmas below), so it holds in
/// every reachable state.
pub open spec fn pools_cover_positions(m: Market, ps: Seq<Position>) -> bool {
    &&& stake_on(ps, 0) <= m.pool(0)
    &&& stake_on(ps, 1) <= m.pool(1)
}

pub proof fn lemma_stake_on_nonnegative(ps: Seq<Position>, i: int)
    ensures
        stake_on(ps, i) >= 0,
    decreases ps.len(),
{
    if ps.len() > 0 {
        lemma_stake_on_nonnegative(ps.drop_last(), i);
    }
}

pub proof fn lemma_stake_on_push(ps: Seq<Position>, p: Position, i: int)
    ensures
        stake_on(ps.push(p), i) == stake_on(ps, i) + stake_of(p, i),
{
    assert(ps.push(p).drop_last() =~= ps);
    assert(ps.push(p).last() == p);
}

pub proof fn lemma_stake_on_update(ps: Seq<Position>, j: int, p2: Position, i: int)
    requires
        0 <= j < ps.len(),
    ensures
        stake_on(ps.update(j, p2), i) == stake_on(ps, i) - stake_of(ps[j], i) + stake_of(p2, i),
    decreases ps.len(),
{
    let ps2 = ps.update(j, p2);
    if j == ps.len() - 1 {
        assert(ps2.drop_last() =~= ps.drop_last());
        assert(ps2.last() == p2);
    } else {
        assert(ps2.drop_last() =~= ps.drop_last().update(j, p2));
        assert(ps2.last() == ps.last());
        lemma_stake_on_update(ps.drop_last(), j, p2, i);
    }
}

pub proof fn lemma_stake_of_le_stake_on(ps: Seq<Position>, j: int, i: int)
    requires
        0 <= j < ps.len(),
    ensures
        stake_of(ps[j], i) <= stake_on(ps, i),
    decreases ps.len(),
{
    if j == ps.len() - 1 {
        lemma_stake_on_nonnegative(ps.drop_last(), i);
        assert(ps.last() == ps[j]);
    } else {
        lemma_stake_of_le_stake_on(ps.drop_last(), j, i);
        assert(ps.drop_last()[j] == ps[j]);
        lemma_stake_on_nonnegative(Seq::<Position>::empty(), i);
    }
}

/// No position's stake ever exceeds the pool it was drawn from: covered
/// pools bound each single position.
pub proof fn lemma_position_within_pool(m: Market, ps: Seq<Position>, j: int)
    requires
        pools_cover_positions(m, ps),
        0 <= j < ps.len(),
        ps[j].wf(),
    ensures
        ps[j].amount <= m.pool(ps[j].outcome as int),
{
    let i = ps[j].outcome as int;
    lemma_stake_of_le_stake_on(ps, j, i);
}

/// Placing a bet preserves pool cover: the new position's whole stake is
/// added to the pool it is drawn from.
pub proof fn lemma_place_bet_preserves_cover(
    m1: Market,
    m2: Market,
    ps: Seq<Position>,
    p: Position,
)
    requires
        pools_cover_positions(m1, ps),
        m1.wf(),
        p.wf(),
        m1.pool(p.outcome as int) + p.amount <= u64::MAX,
        m2.outcome_pools@ == m1.outcome_pools@.update(
            p.outcome as int,
            (m1.pool(p.outcome as int) + p.amount) as u64,
        ),
    ensures
        pools_cover_positions(m2, ps.push(p)),
{
    lemma_stake_on_push(ps, p, 0);
    lemma_stake_on_push(ps, p, 1);
}

/// Growing a position preserves pool cover: the added stake is added to
/// the same pool.
pub proof fn lemma_increase_preserves_cover(
    m1: Market,
    m2: Market,
    ps: Seq<Position>,
    j: int,
    p2: Position,
    added_amount: u64,
)
    requires
        pools_cover_positions(m1, ps),
        m1.wf(),
        0 <= j < ps.len(),
        ps[j].wf(),
        p2.outcome == ps[j].outcome,
        p2.amount == ps[j].amount + added_amount,
        m1.pool(ps[j].outcome as int) + added_amount <= u64::MAX,
        m2.outcome_pools@ == m1.outcome_pools@.update(
            ps[j].outcome as int,
            (m1.pool(ps[j].outcome as int) + added_amount) as u64,
        ),
    ensures
        pools_cover_positions(m2, ps.update(j, p2)),
{
    lemma_stake_on_update(ps, j, p2, 0);
    lemma_stake_on_update(ps, j, p2, 1);
}

/// An AMM exit preserves pool cover: the withdrawn stake leaves both the
/// position and its pool, and the opposite pool is only ever repriced
/// upward (the truncated quotient never falls below the old pool, and the
/// retained fee is booked back into it).
pub proof fn lemma_exit_preserves_cover(
    m1: Market,
    m2: Market,
    protocol: Protocol,
    ps: Seq<Position>,
    j: int,
    p2: Position,
    delta: u64,
)
    requires
        pools_cover_positions(m1, ps),
        m1.wf(),
        ps[j].wf(),
        0 <= j < ps.len(),
        0 < delta <= ps[j].amount,
        delta < m1.pool(ps[j].outcome as int),
        m1.pool(1 - ps[j].outcome as int) > 0,
        p2.outcome == ps[j].outcome,
        p2.amount == ps[j].amount - delta,
        amm::exit_new_pool_other(
            m1.pool(ps[j].outcome as int) as int,
            m1.pool(1 - ps[j].outcome as int) as int,
            delta as int,
        ) + amm::exit_total_fee(
            m1.pool(ps[j].outcome as int) as int,
            m1.pool(1 - ps[j].outcome as int) as int,
            delta as int,
            protocol.amm_fee_bps as int,
            protocol.cancel_fee_bps as int,
        ) <= u64::MAX,
        m1.exit_committed(m2, protocol, ps[j].outcome as int, delta),
    ensures
        pools_cover_positions(m2, ps.update(j, p2)),
{
    let i = ps[j].outcome as int;
    let x = m1.pool(i) as int;
    let y = m1.pool(1 - i) as int;
    lemma_stake_on_update(ps, j, p2, 0);
    lemma_stake_on_update(ps, j, p2, 1);
    amm::lemma_exit_gross_nonnegative(x, y, delta as int);
    let gross = amm::exit_gross(x, y, delta as int);
    vstd::arithmetic::mul::lemma_mul_nonnegative(gross, protocol.amm_fee_bps as int);
    vstd::arithmetic::mul::lemma_mul_nonnegative(gross, protocol.cancel_fee_bps as int);
    vstd::arithmetic::div_mod::lemma_div_pos_is_pos(gross * (protocol.amm_fee_bps as int), 10000);
    vstd::arithmetic::div_mod::lemma_div_pos_is_pos(
        gross * (protocol.cancel_fee_bps as int),
        10000,
    );
}

/// The live volume is exactly the total stake of the market's positions.
/// Market creation establishes it with zero volume and no positions, and
/// every operation preserves it (the lemmas below), so it holds in every
/// reachable state.
pub open spec fn volume_is_live_stake(m: Market, ps: Seq<Position>) -> bool {
    stake_on(ps, 0) + stake_on(ps, 1) == m.total_volume
}

/// Placing a bet preserves the stake accounting: the new position's stake
/// and the live volume grow by the same amount.
pub proof fn lemma_place_bet_preserves_accounting(
    m1: Market,
    m2: Market,
    ps: Seq<Position>,
    p: Position,
)
    requires
        volume_is_live_stake(m1, ps),
        p.wf(),
        m2.total_volume == m1.total_volume + p.amount,
    ensures
        volume_is_live_stake(m2, ps.push(p)),
{
    lemma_stake_on_push(ps, p, 0);
    lemma_stake_on_push(ps, p, 1);
}

/// Growing a position preserves the stake accounting.
pub proof fn lemma_increase_preserves_accounting(
    m1: Market,
    m2: Market,
    ps: Seq<Position>,
    j: int,
    p2: Position,
    added_amount: u64,
)
    requires
        volume_is_live_stake(m1, ps),
        0 <= j < ps.len(),
        ps[j].wf(),
        p2.outcome == ps[j].outcome,
        p2.amount == ps[j].amount + added_amount,
        m2.total_volume == m1.total_volume + added_amount,
    ensures
        volume_is_live_stake(m2, ps.update(j, p2)),
{
    lemma_stake_on_update(ps, j, p2, 0);
    lemma_stake_on_update(ps, j, p2, 1);
}

/// An AMM exit preserves the stake accounting: the withdrawn stake leaves
/// the position and the live volume alike.
pub proof fn lemma_exit_preserves_accounting(
    m1: Market,
    m2: Market,
    ps: Seq<Position>,
    j: int,
    p2: Position,
    delta: u64,
)
    requires
        volume_is_live_stake(m1, ps),
        0 <= j < ps.len(),
        ps[j].wf(),
        delta <= ps[j].amount,
        p2.outcome == ps[j].outcome,
        p2.amount == ps[j].amount - delta,
        m2.total_volume == m1.total_volume - delta,
    ensures
        volume_is_live_stake(m2, ps.update(j, p2)),
{
    lemma_stake_on_update(ps, j, p2, 0);
    lemma_stake_on_update(ps, j, p2, 1);
}

/// In an accounted state the live volume always suffices for an exit: the
/// withdrawn stake is bounded by its position's stake, which the volume
/// counts. The overflow guard on the volume subtraction in
/// `withdraw_from_position` and `cancel_position` can therefore never
/// fire in a reachable state.
pub proof fn lemma_exit_volume_sufficient(m: Market, ps: Seq<Position>, j: int, delta: u64)
    requires
        volume_is_live_stake(m, ps),
        0 <= j < ps.len(),
        ps[j].wf(),
        delta <= ps[j].amount,
    ensures
        delta <= m.total_volume,
{
    let i = ps[j].outcome as int;
    lemma_stake_of_le_stake_on(ps, j, i);
    lemma_stake_on_nonnegative(ps, 1 - i);
}

/// A claimed position is terminal: claiming it again and cancelling it
/// always fail, whatever the caller, the market's state or the time, and
/// once a cancel has zeroed its stake, withdrawing from it fails too. With
/// each operation's contract this means no state changes either.
pub proof fn lemma_claimed_position_is_terminal(
    m: Market,
    protocol: Protocol,
    p: Position,
    user: AccountId,
    amount_to_withdraw: u64,
    min_payout: u64,
    now: int,
)
    requires
        p.claimed,
    ensures
        m.claim_winnings_err(protocol, p, user) is Some,
        m.cancel_position_err(protocol, p, user, min_payout, now) is Some,
        p.amount == 0 ==> m.withdraw_from_position_err(
            protocol,
            p,
            user,
            amount_to_withdraw,
            min_payout,
            now,
        ) is Some,
{
}

} // verus!
