use wager_protocol::state::{AccountId, Market, Protocol};

fn acct(raw: u128) -> AccountId {
    AccountId { raw }
}

fn pools_sum(market: &Market) -> u64 {
    market.outcome_pools[0] + market.outcome_pools[1]
}

#[test]
fn pools_stay_balanced_through_bets_and_resolution() {
    let mut protocol = Protocol::initialize_protocol(acct(1), acct(2), acct(3), 0, 0, 0);
    let outcomes = vec!["yes".to_string(), "no".to_string()];
    let mut market = protocol
        .create_market(acct(4), "q".to_string(), outcomes, 1_000, 10, 0)
        .unwrap();
    assert_eq!(pools_sum(&market), market.total_volume);
    let mut position = market.place_bet(acct(5), 0, 1_000, 20).unwrap();
    assert_eq!(pools_sum(&market), market.total_volume);
    market.place_bet(acct(6), 1, 500, 30).unwrap();
    assert_eq!(pools_sum(&market), market.total_volume);
    market
        .increase_position(&mut position, acct(5), 250, 40)
        .unwrap();
    assert_eq!(pools_sum(&market), market.total_volume);
    market.resolve_market(acct(4), 0, 1_000).unwrap();
    assert_eq!(pools_sum(&market), market.total_volume);
    let receipt = market.claim_winnings(&protocol, &mut position, acct(5)).unwrap();
    assert_eq!(pools_sum(&market), market.total_volume);
    assert!(receipt.payout_net > 0);
}

#[test]
fn resolution_state_stays_consistent() {
    let mut protocol = Protocol::initialize_protocol(acct(1), acct(2), acct(3), 0, 0, 0);
    let outcomes = vec!["yes".to_string(), "no".to_string()];
    let mut market = protocol
        .create_market(acct(4), "q".to_string(), outcomes, 1_000, 10, 0)
        .unwrap();
    assert!(!market.resolved && market.winning_outcome.is_none());
    market.resolve_market(acct(4), 1, 1_000).unwrap();
    assert!(market.resolved && market.winning_outcome == Some(1));
    // A failed second resolution leaves the recorded outcome in place.
    assert!(market.resolve_market(acct(4), 0, 2_000).is_err());
    assert!(market.resolved && market.winning_outcome == Some(1));
}

#[test]
fn stake_never_exceeds_its_pool() {
    let mut protocol = Protocol::initialize_protocol(acct(1), acct(2), acct(3), 0, 0, 0);
    let outcomes = vec!["yes".to_string(), "no".to_string()];
    let mut market = protocol
        .create_market(acct(4), "q".to_string(), outcomes, 1_000, 10, 0)
        .unwrap();
    let mut position = market.place_bet(acct(5), 0, 1_000, 20).unwrap();
    assert!(position.amount <= market.outcome_pools[0]);
    market.place_bet(acct(7), 0, 200, 25).unwrap();
    market.place_bet(acct(6), 1, 500, 30).unwrap();
    market
        .increase_position(&mut position, acct(5), 300, 35)
        .unwrap();
    assert!(position.amount <= market.outcome_pools[0]);
    market
        .withdraw_from_position(&protocol, &mut position, acct(5), 700, 0, 40)
        .unwrap();
    assert!(position.amount <= market.outcome_pools[0]);
}

#[test]
fn wf_check_flags_inconsistent_resolution() {
    let market = Market {
        id: 0,
        creator: acct(4),
        question: "q".to_string(),
        outcomes: vec!["yes".to_string(), "no".to_string()],
        end_time: 1_000,
        resolved: true,
        winning_outcome: None,
        total_volume: 0,
        outcome_pools: vec![0, 0],
        position_count: 0,
    };
    assert!(!market.wf_check());
    let healthy = Market { resolved: false, ..market };
    assert!(healthy.wf_check());
}

#[test]
fn exit_keeps_the_pool_product_up_to_truncation() {
    let mut protocol = Protocol::initialize_protocol(acct(1), acct(2), acct(3), 0, 0, 0);
    let outcomes = vec!["yes".to_string(), "no".to_string()];
    let mut market = protocol
        .create_market(acct(4), "q".to_string(), outcomes, 1_000, 10, 0)
        .unwrap();
    let mut position = market.place_bet(acct(5), 0, 1_000, 20).unwrap();
    market.place_bet(acct(6), 1, 500, 30).unwrap();
    let k = market.outcome_pools[0] as u128 * market.outcome_pools[1] as u128;
    market
        .withdraw_from_position(&protocol, &mut position, acct(5), 100, 0, 40)
        .unwrap();
    // With no fee to book back, the committed pools are the repriced ones.
    let x2 = market.outcome_pools[0] as u128;
    let y2 = market.outcome_pools[1] as u128;
    assert!(x2 * y2 <= k);
    assert!(k < x2 * (y2 + 1));
}
