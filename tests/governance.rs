use botanika::governance::{
    apply_change, cast_vote, decode_change, execute_proposal, initialize_governance,
    propose_change, read_u64_le, resolve_proposal, set_multiplier, ConfigChange, GovernanceError,
    GovernanceState, Proposal, ProposalStatus, ProposalType,
};
use botanika::governance::apply_to_pool;
use botanika::staking::{claim, initialize, stake, UserStake};
use botanika::types::{AccountKey, PROPOSAL_DURATION};

const NOW: i64 = 2_000_000;

fn key(b: u8) -> AccountKey {
    AccountKey::new([b; 32])
}

fn gov() -> GovernanceState {
    initialize_governance(key(1), NOW - 100, 200)
}

fn le(v: u64) -> Vec<u8> {
    v.to_le_bytes().to_vec()
}

fn multiplier_payload(level: u8, multiplier: u64) -> Vec<u8> {
    let mut d = vec![level];
    d.extend(le(multiplier));
    d
}

fn fee_payload(a: u64, b: u64, c: u64) -> Vec<u8> {
    let mut d = le(a);
    d.extend(le(b));
    d.extend(le(c));
    d
}

fn voted_proposal(state: &mut GovernanceState, kind: ProposalType, data: Vec<u8>, f: u64, a: u64) -> Proposal {
    let mut p = propose_change(state, kind, data, NOW, 1).unwrap();
    cast_vote(&mut p, f, true, NOW).unwrap();
    cast_vote(&mut p, a, false, NOW).unwrap();
    p
}

#[test]
fn governance_defaults() {
    let g = gov();
    assert_eq!(g.authority, key(1));
    assert_eq!(g.multipliers, [1200, 1500, 2000, 3000]);
    assert_eq!(g.staking_fee_bps, 50);
    assert_eq!(g.unstaking_fee_bps, 100);
    assert_eq!(g.claim_fee_bps, 25);
    assert_eq!(g.proposal_duration, 3 * 24 * 60 * 60);
    assert_eq!(g.quorum_threshold, 1000);
    assert_eq!(g.last_updated, NOW - 100);
    assert_eq!(g.proposal_count, 0);
}

#[test]
fn test_governance_multiplier_updates() {
    let mut g = gov();
    assert_eq!(g.multipliers[2], 2000);
    assert_eq!(set_multiplier(&mut g, &key(1), 2, 2500, NOW), Ok(()));
    assert_eq!(g.multipliers, [1200, 1500, 2500, 3000]);
    assert_eq!(g.last_updated, NOW);

    // a user who stakes and claims afterwards earns at the new multiplier
    let mut pool = initialize(key(1), 254);
    let unchanged = pool;
    apply_to_pool(&mut pool, &g);
    assert_eq!(pool.multipliers, [1200, 1500, 2500, 3000]);
    assert_eq!(pool.admin, unchanged.admin);
    let mut us = UserStake::new(key(2), 1);
    stake(&mut pool, &mut us, key(2), 8000, NOW).unwrap();
    let mut before_change = UserStake::new(key(2), 1);
    let mut old_pool = unchanged;
    stake(&mut old_pool, &mut before_change, key(2), 8000, NOW).unwrap();
    let reward = claim(&pool, &mut us, NOW + 100_000).unwrap();
    let old_reward = claim(&old_pool, &mut before_change, NOW + 100_000).unwrap();
    assert_eq!(reward, 63);
    assert_eq!(old_reward, 50);
    assert!(reward > old_reward, "User should receive higher rewards with increased multiplier");
}

#[test]
fn set_multiplier_rejections() {
    let mut g = gov();
    let before = g;
    assert_eq!(set_multiplier(&mut g, &key(9), 2, 2500, NOW), Err(GovernanceError::InvalidAuthority));
    assert_eq!(set_multiplier(&mut g, &key(1), 4, 2500, NOW), Err(GovernanceError::InvalidMultiplier));
    assert_eq!(set_multiplier(&mut g, &key(1), 0, 0, NOW), Err(GovernanceError::InvalidMultiplier));
    assert_eq!(set_multiplier(&mut g, &key(1), 0, 10_001, NOW), Err(GovernanceError::InvalidMultiplier));
    assert_eq!(g, before);
    assert_eq!(set_multiplier(&mut g, &key(1), 3, 10_000, NOW), Ok(()));
    assert_eq!(g.multipliers[3], 10_000);
}

#[test]
fn proposals_get_unique_ids() {
    let mut g = gov();
    let first = propose_change(&mut g, ProposalType::RewardPool, vec![], NOW, 1).unwrap();
    let second = propose_change(&mut g, ProposalType::RewardPool, vec![], NOW, 1).unwrap();
    assert_eq!(first.id, 0);
    assert_eq!(second.id, 1);
    assert_eq!(g.proposal_count, 2);
    assert_eq!(first.status, ProposalStatus::Active);
    assert_eq!(first.created_at, NOW);
    assert_eq!(first.voting_ends_at, NOW + PROPOSAL_DURATION);
    assert_eq!((first.votes_for, first.votes_against), (0, 0));
    assert_eq!(first.executed_at, None);
    g.proposal_count = u64::MAX;
    assert_eq!(
        propose_change(&mut g, ProposalType::RewardPool, vec![], NOW, 1),
        Err(GovernanceError::Overflow)
    );
    let mut g = gov();
    assert_eq!(
        propose_change(&mut g, ProposalType::RewardPool, vec![], i64::MAX, 1),
        Err(GovernanceError::Overflow)
    );
    assert_eq!(g.proposal_count, 0);
}

#[test]
fn execute_minority_fails() {
    let mut g = gov();
    let mut p = voted_proposal(&mut g, ProposalType::MultiplierChange, multiplier_payload(2, 2500), 5, 10);
    let after_end = p.voting_ends_at + 1;
    let before = (g, p.clone());
    assert_eq!(
        execute_proposal(&mut g, &mut p, &key(1), after_end),
        Err(GovernanceError::InsufficientVotingPower)
    );
    assert_eq!((g, p.clone()), before);
    assert!(resolve_proposal(&mut p, after_end));
    assert_eq!(p.status, ProposalStatus::Rejected);
}

#[test]
fn execute_majority_succeeds() {
    let mut g = gov();
    let mut p = voted_proposal(&mut g, ProposalType::MultiplierChange, multiplier_payload(2, 2500), 10, 5);
    let after_end = p.voting_ends_at + 1;
    assert!(!resolve_proposal(&mut p, after_end));
    assert_eq!(execute_proposal(&mut g, &mut p, &key(1), after_end), Ok(()));
    assert_eq!(p.status, ProposalStatus::Executed);
    assert_eq!(p.executed_at, Some(after_end));
    assert_eq!(g.multipliers, [1200, 1500, 2500, 3000]);
    assert_eq!(g.last_updated, after_end);
    assert_eq!(
        execute_proposal(&mut g, &mut p, &key(1), after_end),
        Err(GovernanceError::ProposalNotActive)
    );
}

#[test]
fn voting_window_enforced() {
    let mut g = gov();
    let mut p = voted_proposal(&mut g, ProposalType::RewardPool, vec![], 3, 1);
    let end = p.voting_ends_at;
    assert_eq!(
        execute_proposal(&mut g, &mut p, &key(1), end),
        Err(GovernanceError::VotingPeriodNotEnded)
    );
    assert_eq!(cast_vote(&mut p, 1, true, end), Ok(()));
    assert_eq!(p.votes_for, 4);
    assert_eq!(
        cast_vote(&mut p, 1, true, end + 1),
        Err(GovernanceError::ProposalExpired)
    );
    assert_eq!(p.votes_for, 4);
    assert_eq!(
        execute_proposal(&mut g, &mut p, &key(9), end + 1),
        Err(GovernanceError::InvalidAuthority)
    );
    assert!(p.is_active());
    assert!(p.passed());
    assert!(!p.voting_ended(p.voting_ends_at));
    assert!(p.voting_ended(p.voting_ends_at + 1));
    p.mark_expired();
    assert_eq!(cast_vote(&mut p, 1, false, NOW), Err(GovernanceError::ProposalNotActive));
}

#[test]
fn vote_overflow_reported() {
    let mut g = gov();
    let mut p = voted_proposal(&mut g, ProposalType::RewardPool, vec![], u64::MAX, 0);
    assert_eq!(cast_vote(&mut p, 1, true, NOW), Err(GovernanceError::Overflow));
    assert_eq!(cast_vote(&mut p, u64::MAX, false, NOW), Ok(()));
    assert_eq!(cast_vote(&mut p, 1, false, NOW), Err(GovernanceError::Overflow));
}

#[test]
fn test_proposal_and_execution_flow() {
    let mut g = gov();
    let mut p = voted_proposal(&mut g, ProposalType::FeeStructure, fee_payload(10, 20, 30), 7, 0);
    assert_eq!(p.status, ProposalStatus::Active);
    let t = NOW + PROPOSAL_DURATION + 1;
    assert_eq!(execute_proposal(&mut g, &mut p, &key(1), t), Ok(()));
    assert_eq!(p.status, ProposalStatus::Executed);
    assert_eq!((g.staking_fee_bps, g.unstaking_fee_bps, g.claim_fee_bps), (10, 20, 30));
    assert_eq!(g.multipliers, [1200, 1500, 2000, 3000]);
}

#[test]
fn execute_invalid_payloads() {
    let cases = vec![
        (ProposalType::MultiplierChange, vec![1u8, 2, 3], GovernanceError::InvalidProposalData),
        (ProposalType::MultiplierChange, multiplier_payload(4, 100), GovernanceError::InvalidMultiplier),
        (ProposalType::MultiplierChange, multiplier_payload(1, 0), GovernanceError::InvalidMultiplier),
        (ProposalType::MultiplierChange, multiplier_payload(1, 10_001), GovernanceError::InvalidMultiplier),
        (ProposalType::FeeStructure, fee_payload(1, 2, 3)[..23].to_vec(), GovernanceError::InvalidProposalData),
        (ProposalType::FeeStructure, fee_payload(1, 10_001, 3), GovernanceError::InvalidFeeStructure),
    ];
    for (kind, data, err) in cases {
        let mut g = gov();
        let mut p = voted_proposal(&mut g, kind, data, 2, 1);
        let before = (g, p.clone());
        let end = p.voting_ends_at;
        assert_eq!(execute_proposal(&mut g, &mut p, &key(1), end + 1), Err(err));
        assert_eq!((g, p), before);
    }
}

#[test]
fn payload_decoding() {
    assert_eq!(read_u64_le(&le(0x0102_0304_0506_0708), 0), 0x0102_0304_0506_0708);
    assert_eq!(read_u64_le(&multiplier_payload(3, u64::MAX), 1), u64::MAX);
    assert_eq!(
        decode_change(ProposalType::MultiplierChange, &multiplier_payload(2, 2500)),
        Ok(ConfigChange::SetMultiplier { level: 2, multiplier: 2500 })
    );
    assert_eq!(
        decode_change(ProposalType::FeeStructure, &fee_payload(0, 10_000, 25)),
        Ok(ConfigChange::SetFees { staking_fee_bps: 0, unstaking_fee_bps: 10_000, claim_fee_bps: 25 })
    );
    assert_eq!(decode_change(ProposalType::EmergencyAction, &vec![9, 9]), Ok(ConfigChange::NoChange));
    let mut g = gov();
    apply_change(&mut g, ConfigChange::SetMultiplier { level: 0, multiplier: 900 });
    assert_eq!(g.multipliers[0], 900);
    apply_change(&mut g, ConfigChange::NoChange);
    assert_eq!(g.multipliers, [900, 1500, 2000, 3000]);
}
