use botanika::math::{
    calculate_fee, calculate_reward, calculate_staking_level, safe_add, safe_div, safe_mul,
    safe_sub, SECONDS_PER_YEAR,
};
use botanika::types::{BotanikaError, StakingLevel};
use botanika::validation::{
    check_claim_cooldown, check_lockup_period, deadline_reached, validate_multiplier,
    validate_proof_type, validate_staking_amount, validate_staking_level,
};
use botanika::types::{AccountKey, ProofType, CLAIM_COOLDOWN, LOCKUP_PERIOD};

#[test]
fn safe_arithmetic_results() {
    assert_eq!(safe_add(2, 3), Ok(5));
    assert_eq!(safe_add(u64::MAX, 1), Err(BotanikaError::Overflow));
    assert_eq!(safe_sub(5, 3), Ok(2));
    assert_eq!(safe_sub(3, 5), Err(BotanikaError::Overflow));
    assert_eq!(safe_mul(6, 7), Ok(42));
    assert_eq!(safe_mul(u64::MAX, 2), Err(BotanikaError::Overflow));
    assert_eq!(safe_div(7, 2), Ok(3));
    assert_eq!(safe_div(7, 0), Err(BotanikaError::InvalidAmount));
}

#[test]
fn reward_for_one_year_at_silver() {
    assert_eq!(SECONDS_PER_YEAR, 31_536_000);
    assert_eq!(calculate_reward(3000, 365 * 24 * 60 * 60, 1500), Ok(4500));
}

#[test]
fn reward_rounds_down_to_zero() {
    assert_eq!(calculate_reward(1, 60, 1000), Ok(0));
    assert_eq!(calculate_reward(0, 31_536_000, 3000), Ok(0));
}

#[test]
fn reward_exact_values() {
    // 1000 * 86400 * 1200 / 1000 / 31536000 = 3.28...
    assert_eq!(calculate_reward(1000, 86_400, 1200), Ok(3));
    // 10000 * 31536000 * 3000 / 1000 / 31536000 = 30000
    assert_eq!(calculate_reward(10_000, 31_536_000, 3000), Ok(30_000));
}

#[test]
fn reward_overflow_is_reported() {
    assert_eq!(calculate_reward(u64::MAX, 2, 1000), Err(BotanikaError::Overflow));
    assert_eq!(calculate_reward(1 << 40, 1 << 20, 1 << 10), Err(BotanikaError::Overflow));
}

#[test]
fn reward_negative_elapsed_is_invalid() {
    assert_eq!(calculate_reward(10, -1, 1000), Err(BotanikaError::InvalidAmount));
    assert_eq!(calculate_reward(0, i64::MIN, 0), Err(BotanikaError::InvalidAmount));
}

#[test]
fn reward_monotonic_examples() {
    let base = calculate_reward(5000, 1_000_000, 1500).unwrap();
    assert!(calculate_reward(5001, 1_000_000, 1500).unwrap() >= base);
    assert!(calculate_reward(5000, 1_000_001, 1500).unwrap() >= base);
    assert!(calculate_reward(5000, 1_000_000, 1501).unwrap() >= base);
    assert!(calculate_reward(50_000, 1_000_000, 1500).unwrap() > base);
    assert_eq!(calculate_reward(5000, 1_000_000, 1500), Ok(base));
}

#[test]
fn fee_values() {
    assert_eq!(calculate_fee(10_000, 50), Ok(50));
    assert_eq!(calculate_fee(199, 50), Ok(0));
    assert_eq!(calculate_fee(12_345, 10_000), Ok(12_345));
    assert_eq!(calculate_fee(u64::MAX, 2), Err(BotanikaError::Overflow));
}

#[test]
fn classify_boundaries() {
    assert_eq!(calculate_staking_level(0), StakingLevel::Bronze);
    assert_eq!(calculate_staking_level(1000), StakingLevel::Bronze);
    assert_eq!(calculate_staking_level(1001), StakingLevel::Silver);
    assert_eq!(calculate_staking_level(5000), StakingLevel::Silver);
    assert_eq!(calculate_staking_level(5001), StakingLevel::Gold);
    assert_eq!(calculate_staking_level(10000), StakingLevel::Gold);
    assert_eq!(calculate_staking_level(10001), StakingLevel::Platinum);
    assert_eq!(calculate_staking_level(u64::MAX), StakingLevel::Platinum);
}

#[test]
fn validation_helpers() {
    assert_eq!(validate_staking_amount(0), Err(BotanikaError::InvalidAmount));
    assert_eq!(validate_staking_amount(1), Ok(()));
    assert_eq!(validate_staking_level(StakingLevel::Gold), Ok(()));
    assert_eq!(validate_proof_type(ProofType::ProofOfService), Ok(()));
    assert_eq!(validate_multiplier(0), Err(BotanikaError::InvalidMultiplier));
    assert_eq!(validate_multiplier(1), Ok(()));
    assert_eq!(validate_multiplier(10_000), Ok(()));
    assert_eq!(validate_multiplier(10_001), Err(BotanikaError::InvalidMultiplier));
}

#[test]
fn lockup_and_cooldown_checks() {
    let t: i64 = 1_000_000;
    assert_eq!(check_lockup_period(t, t + LOCKUP_PERIOD - 1), Err(BotanikaError::LockupPeriodNotMet));
    assert_eq!(check_lockup_period(t, t + LOCKUP_PERIOD), Ok(()));
    assert_eq!(check_lockup_period(i64::MAX, i64::MAX), Err(BotanikaError::LockupPeriodNotMet));
    assert_eq!(check_claim_cooldown(t, t + CLAIM_COOLDOWN - 1), Err(BotanikaError::ClaimCooldownNotMet));
    assert_eq!(check_claim_cooldown(t, t + CLAIM_COOLDOWN), Ok(()));
}

#[test]
fn deadline_with_extreme_values() {
    assert!(!deadline_reached(i64::MAX, i64::MAX, 1));
    assert!(deadline_reached(i64::MIN, i64::MIN, -1));
    assert!(deadline_reached(10, 5, 5));
    assert!(!deadline_reached(9, 5, 5));
}

#[test]
fn account_keys_compare_by_bytes() {
    let mut bytes = [7u8; 32];
    let a = AccountKey::new(bytes);
    assert!(a.same_as(&AccountKey::new(bytes)));
    bytes[31] = 8;
    assert!(!a.same_as(&AccountKey::new(bytes)));
    assert_eq!(AccountKey::zero().bytes, [0u8; 32]);
    assert!(!AccountKey::zero().same_as(&a));
}
