use botanika::rewards::{
    claim_reward, initialize_reward_pool, submit_reward, ProofType, RewardPool, RewardRecipient,
    RewardStatus, RewardsError,
};
use botanika::types::AccountKey;

const NOW: i64 = 5_000_000;
const EXPIRY: i64 = 3600;

fn key(b: u8) -> AccountKey {
    AccountKey::new([b; 32])
}

fn new_pool() -> RewardPool {
    initialize_reward_pool(key(1), key(7), key(8), EXPIRY, 250)
}

#[test]
fn test_initialize_and_distribute_rewards() {
    let mut pool = new_pool();
    assert_eq!(pool.authority, key(1));
    assert_eq!(pool.total_rewards_distributed, 0);
    assert_eq!(pool.expiration_period, EXPIRY);
    let mut rec = RewardRecipient::new(key(2), 9);
    assert_eq!(rec.status, RewardStatus::Pending);
    submit_reward(&mut pool, &mut rec, &key(1), key(2), 1000, ProofType::ProofOfExecution, NOW)
        .unwrap();
    assert_eq!(rec.amount, 1000);
    assert_eq!(rec.status, RewardStatus::Available);
    assert_eq!(rec.proof_type, ProofType::ProofOfExecution);
    assert_eq!(rec.submitted_at, NOW);
    assert_eq!(rec.expires_at, NOW + EXPIRY);
    assert_eq!(rec.claimed_at, None);
    assert_eq!(pool.total_rewards_distributed, 1000);
}

#[test]
fn submit_requires_authority_and_amount() {
    let mut pool = new_pool();
    let mut rec = RewardRecipient::new(key(2), 9);
    let before = (pool, rec);
    assert_eq!(
        submit_reward(&mut pool, &mut rec, &key(3), key(2), 10, ProofType::ProofOfStake, NOW),
        Err(RewardsError::InvalidAuthority)
    );
    assert_eq!(
        submit_reward(&mut pool, &mut rec, &key(1), key(2), 0, ProofType::ProofOfStake, NOW),
        Err(RewardsError::InvalidAmount)
    );
    assert_eq!((pool, rec), before);
}

#[test]
fn submit_overflow_reported() {
    let mut pool = new_pool();
    let mut rec = RewardRecipient::new(key(2), 9);
    submit_reward(&mut pool, &mut rec, &key(1), key(2), u64::MAX, ProofType::ProofOfStake, NOW)
        .unwrap();
    assert_eq!(
        submit_reward(&mut pool, &mut rec, &key(1), key(2), 1, ProofType::ProofOfStake, NOW),
        Err(RewardsError::Overflow)
    );
    let mut pool = new_pool();
    assert_eq!(
        submit_reward(&mut pool, &mut rec, &key(1), key(2), 1, ProofType::ProofOfStake, i64::MAX),
        Err(RewardsError::Overflow)
    );
    assert_eq!(pool.total_rewards_distributed, 0);
}

#[test]
fn resubmission_replaces_unclaimed_reward() {
    let mut pool = new_pool();
    let mut rec = RewardRecipient::new(key(2), 9);
    submit_reward(&mut pool, &mut rec, &key(1), key(2), 100, ProofType::ProofOfStake, NOW).unwrap();
    submit_reward(&mut pool, &mut rec, &key(1), key(2), 40, ProofType::ProofOfEfficiency, NOW + 5)
        .unwrap();
    assert_eq!(rec.amount, 40);
    assert_eq!(rec.proof_type, ProofType::ProofOfEfficiency);
    assert_eq!(rec.expires_at, NOW + 5 + EXPIRY);
    assert_eq!(pool.total_rewards_distributed, 140);
}

#[test]
fn proof_reward_claimed_twice() {
    let mut pool = new_pool();
    let mut rec = RewardRecipient::new(key(2), 9);
    submit_reward(&mut pool, &mut rec, &key(1), key(2), 500, ProofType::ProofOfService, NOW).unwrap();
    assert_eq!(claim_reward(&mut rec, &key(2), NOW + 10), Ok(500));
    assert_eq!(rec.status, RewardStatus::Claimed);
    assert_eq!(rec.claimed_at, Some(NOW + 10));
    let before = rec;
    assert_eq!(claim_reward(&mut rec, &key(2), NOW + 11), Err(RewardsError::RewardNotAvailable));
    assert_eq!(rec, before);
}

#[test]
fn proof_reward_claimed_after_expiry() {
    let mut pool = new_pool();
    let mut rec = RewardRecipient::new(key(2), 9);
    submit_reward(&mut pool, &mut rec, &key(1), key(2), 500, ProofType::ProofOfService, NOW).unwrap();
    assert!(!rec.is_expired(NOW + EXPIRY));
    assert!(rec.is_expired(NOW + EXPIRY + 1));
    assert!(!rec.can_claim(NOW + EXPIRY + 1));
    // still stored as available, yet expired
    assert_eq!(rec.status, RewardStatus::Available);
    assert_eq!(
        claim_reward(&mut rec, &key(2), NOW + EXPIRY + 1),
        Err(RewardsError::RewardNotAvailable)
    );
    assert!(!rec.refresh_expiry(NOW + EXPIRY));
    assert!(rec.refresh_expiry(NOW + EXPIRY + 1));
    assert_eq!(rec.status, RewardStatus::Expired);
}

#[test]
fn proof_reward_claim_at_expiry_and_by_other_user() {
    let mut pool = new_pool();
    let mut rec = RewardRecipient::new(key(2), 9);
    submit_reward(&mut pool, &mut rec, &key(1), key(2), 500, ProofType::ProofOfService, NOW).unwrap();
    assert_eq!(claim_reward(&mut rec, &key(3), NOW), Err(RewardsError::InvalidAuthority));
    assert_eq!(rec.status, RewardStatus::Available);
    assert_eq!(claim_reward(&mut rec, &key(2), NOW + EXPIRY), Ok(500));
}

#[test]
fn pending_reward_not_claimable() {
    let mut rec = RewardRecipient::new(key(2), 9);
    assert_eq!(claim_reward(&mut rec, &key(2), -10), Err(RewardsError::RewardNotAvailable));
    rec.status = RewardStatus::Available;
    rec.expires_at = 100;
    rec.mark_expired();
    assert_eq!(rec.status, RewardStatus::Expired);
    rec.mark_claimed(7);
    assert_eq!(rec.claimed_at, Some(7));
}
