use wager_protocol::error::ErrorCode;
use wager_protocol::state::{AccountId, Market, Protocol};

fn acct(raw: u128) -> AccountId {
    AccountId { raw }
}

fn fresh_protocol(protocol_fee_bps: u16, cancel_fee_bps: u16, amm_fee_bps: u16) -> Protocol {
    Protocol::initialize_protocol(
        acct(1),
        acct(2),
        acct(3),
        protocol_fee_bps,
        cancel_fee_bps,
        amm_fee_bps,
    )
}

fn two_outcomes() -> Vec<String> {
    vec!["yes".to_string(), "no".to_string()]
}

fn open_market(protocol: &mut Protocol) -> Market {
    protocol
        .create_market(acct(4), "will it rain".to_string(), two_outcomes(), 1_000, 10, 0)
        .unwrap()
}

#[test]
fn initialize_protocol_sets_fields() {
    let p = fresh_protocol(50, 100, 200);
    assert_eq!(p.authority, acct(1));
    assert_eq!(p.authority_fee_recipient, acct(2));
    assert_eq!(p.dev_recipient, acct(3));
    assert_eq!(p.protocol_fee_bps, 50);
    assert_eq!(p.cancel_fee_bps, 100);
    assert_eq!(p.amm_fee_bps, 200);
    assert_eq!(p.market_count, 0);
}

#[test]
fn create_market_starts_empty() {
    let mut protocol = fresh_protocol(0, 0, 0);
    let market = open_market(&mut protocol);
    assert_eq!(market.id, 0);
    assert_eq!(market.outcome_pools, vec![0, 0]);
    assert_eq!(market.total_volume, 0);
    assert_eq!(market.position_count, 0);
    assert!(!market.resolved);
    assert_eq!(market.winning_outcome, None);
    assert!(market.wf_check());
    assert_eq!(protocol.market_count, 1);
}

#[test]
fn market_ids_increment() {
    let mut protocol = fresh_protocol(0, 0, 0);
    let first = open_market(&mut protocol);
    let second = open_market(&mut protocol);
    assert_eq!(first.id, 0);
    assert_eq!(second.id, 1);
    assert_eq!(protocol.market_count, 2);
}

#[test]
fn create_market_rejects_wrong_outcome_count() {
    let mut protocol = fresh_protocol(0, 0, 0);
    let one = vec!["yes".to_string()];
    let r = protocol.create_market(acct(4), "q".to_string(), one, 1_000, 10, 0);
    assert_eq!(r.unwrap_err(), ErrorCode::InvalidOutcomes);
    let three = vec!["a".to_string(), "b".to_string(), "c".to_string()];
    let r = protocol.create_market(acct(4), "q".to_string(), three, 1_000, 10, 0);
    assert_eq!(r.unwrap_err(), ErrorCode::InvalidOutcomes);
    assert_eq!(protocol.market_count, 0);
}

#[test]
fn create_market_rejects_non_future_end_time() {
    let mut protocol = fresh_protocol(0, 0, 0);
    let r = protocol.create_market(acct(4), "q".to_string(), two_outcomes(), 10, 10, 0);
    assert_eq!(r.unwrap_err(), ErrorCode::InvalidEndTime);
    let r = protocol.create_market(acct(4), "q".to_string(), two_outcomes(), 9, 10, 0);
    assert_eq!(r.unwrap_err(), ErrorCode::InvalidEndTime);
}

#[test]
fn create_market_rejects_nonempty_escrow() {
    let mut protocol = fresh_protocol(0, 0, 0);
    let r = protocol.create_market(acct(4), "q".to_string(), two_outcomes(), 1_000, 10, 5);
    assert_eq!(r.unwrap_err(), ErrorCode::EscrowNotEmpty);
}

#[test]
fn place_bet_updates_pools() {
    let mut protocol = fresh_protocol(0, 0, 0);
    let mut market = open_market(&mut protocol);
    let position = market.place_bet(acct(5), 0, 1_000, 20).unwrap();
    assert_eq!(market.outcome_pools, vec![1_000, 0]);
    assert_eq!(market.total_volume, 1_000);
    assert_eq!(market.position_count, 1);
    assert_eq!(position.id, 0);
    assert_eq!(position.user, acct(5));
    assert_eq!(position.market, market.id);
    assert_eq!(position.outcome, 0);
    assert_eq!(position.amount, 1_000);
    assert!(!position.claimed);
    assert_eq!(position.ts, 20);
}

#[test]
fn second_bet_grows_other_pool() {
    let mut protocol = fresh_protocol(0, 0, 0);
    let mut market = open_market(&mut protocol);
    market.place_bet(acct(5), 0, 1_000, 20).unwrap();
    let position = market.place_bet(acct(6), 1, 500, 30).unwrap();
    assert_eq!(market.outcome_pools, vec![1_000, 500]);
    assert_eq!(market.total_volume, 1_500);
    assert_eq!(position.id, 1);
}

#[test]
fn place_bet_rejects_bad_outcome() {
    let mut protocol = fresh_protocol(0, 0, 0);
    let mut market = open_market(&mut protocol);
    let r = market.place_bet(acct(5), 2, 1_000, 20);
    assert_eq!(r.unwrap_err(), ErrorCode::InvalidOutcome);
}

#[test]
fn place_bet_rejects_zero_amount() {
    let mut protocol = fresh_protocol(0, 0, 0);
    let mut market = open_market(&mut protocol);
    let r = market.place_bet(acct(5), 0, 0, 20);
    assert_eq!(r.unwrap_err(), ErrorCode::InvalidAmount);
}

#[test]
fn place_bet_rejects_ended_market() {
    let mut protocol = fresh_protocol(0, 0, 0);
    let mut market = open_market(&mut protocol);
    let r = market.place_bet(acct(5), 0, 100, 1_000);
    assert_eq!(r.unwrap_err(), ErrorCode::MarketEnded);
}

#[test]
fn place_bet_rejects_resolved_market() {
    let mut protocol = fresh_protocol(0, 0, 0);
    let mut market = open_market(&mut protocol);
    market.resolve_market(acct(4), 0, 1_000).unwrap();
    let r = market.place_bet(acct(5), 0, 100, 1_500);
    assert_eq!(r.unwrap_err(), ErrorCode::MarketResolved);
}

#[test]
fn place_bet_rejects_pool_overflow() {
    let mut protocol = fresh_protocol(0, 0, 0);
    let mut market = open_market(&mut protocol);
    market.place_bet(acct(5), 0, u64::MAX, 20).unwrap();
    let r = market.place_bet(acct(6), 0, 1, 30);
    assert_eq!(r.unwrap_err(), ErrorCode::AmountOverflow);
    assert_eq!(market.outcome_pools, vec![u64::MAX, 0]);
}

#[test]
fn increase_position_grows_stake() {
    let mut protocol = fresh_protocol(0, 0, 0);
    let mut market = open_market(&mut protocol);
    let mut position = market.place_bet(acct(5), 0, 1_000, 20).unwrap();
    market
        .increase_position(&mut position, acct(5), 250, 40)
        .unwrap();
    assert_eq!(market.outcome_pools, vec![1_250, 0]);
    assert_eq!(market.total_volume, 1_250);
    assert_eq!(position.amount, 1_250);
    assert_eq!(position.ts, 40);
    assert_eq!(market.position_count, 1);
}

#[test]
fn increase_position_rejects_wrong_owner() {
    let mut protocol = fresh_protocol(0, 0, 0);
    let mut market = open_market(&mut protocol);
    let mut position = market.place_bet(acct(5), 0, 1_000, 20).unwrap();
    let r = market.increase_position(&mut position, acct(6), 250, 40);
    assert_eq!(r.unwrap_err(), ErrorCode::PositionOwnerMismatch);
    assert_eq!(position.amount, 1_000);
}

#[test]
fn increase_position_rejects_zero_amount() {
    let mut protocol = fresh_protocol(0, 0, 0);
    let mut market = open_market(&mut protocol);
    let mut position = market.place_bet(acct(5), 0, 1_000, 20).unwrap();
    let r = market.increase_position(&mut position, acct(5), 0, 40);
    assert_eq!(r.unwrap_err(), ErrorCode::InvalidAmount);
}

#[test]
fn increase_position_rejects_stake_overflow() {
    let mut protocol = fresh_protocol(0, 0, 0);
    let mut market = open_market(&mut protocol);
    let mut position = market.place_bet(acct(5), 0, u64::MAX, 20).unwrap();
    let r = market.increase_position(&mut position, acct(5), 1, 40);
    assert_eq!(r.unwrap_err(), ErrorCode::AmountOverflow);
    assert_eq!(position.amount, u64::MAX);
}

#[test]
fn resolve_market_before_end_fails() {
    let mut protocol = fresh_protocol(0, 0, 0);
    let mut market = open_market(&mut protocol);
    let r = market.resolve_market(acct(4), 0, 999);
    assert_eq!(r.unwrap_err(), ErrorCode::MarketNotEnded);
    assert!(!market.resolved);
    assert_eq!(market.winning_outcome, None);
}

#[test]
fn resolve_market_records_winner() {
    let mut protocol = fresh_protocol(0, 0, 0);
    let mut market = open_market(&mut protocol);
    market.resolve_market(acct(4), 1, 1_000).unwrap();
    assert!(market.resolved);
    assert_eq!(market.winning_outcome, Some(1));
    assert!(market.wf_check());
}

#[test]
fn resolve_market_twice_fails() {
    let mut protocol = fresh_protocol(0, 0, 0);
    let mut market = open_market(&mut protocol);
    market.resolve_market(acct(4), 1, 1_000).unwrap();
    let r = market.resolve_market(acct(4), 0, 1_001);
    assert_eq!(r.unwrap_err(), ErrorCode::AlreadyResolved);
    assert_eq!(market.winning_outcome, Some(1));
}

#[test]
fn resolve_market_rejects_non_creator() {
    let mut protocol = fresh_protocol(0, 0, 0);
    let mut market = open_market(&mut protocol);
    let r = market.resolve_market(acct(9), 0, 1_000);
    assert_eq!(r.unwrap_err(), ErrorCode::Unauthorized);
    assert!(!market.resolved);
}

#[test]
fn resolve_market_rejects_bad_outcome() {
    let mut protocol = fresh_protocol(0, 0, 0);
    let mut market = open_market(&mut protocol);
    let r = market.resolve_market(acct(4), 2, 1_000);
    assert_eq!(r.unwrap_err(), ErrorCode::InvalidOutcome);
    assert!(!market.resolved);
}
