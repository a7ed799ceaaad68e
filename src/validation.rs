use vstd::prelude::*;
use crate::types::{
    BotanikaError, ProofType, StakingLevel, CLAIM_COOLDOWN, LOCKUP_PERIOD,
};

verus! {

/// Largest multiplier that governance may set (10.0x).
pub const MAX_MULTIPLIER: u64 = 10000;

/// Whether a multiplier lies in `(0, 10000]`.
pub open spec fn multiplier_valid(multiplier: int) -> bool {
    0 < multiplier <= 10000
}

/// Whether the time `now` has reached `start + duration`, computed without
/// overflow whatever the three values are.
pub fn deadline_reached(now: i64, start: i64, duration: i64) -> (r: bool)
    ensures
        r == (now >= start + duration),
{
    match start.checked_add(duration) {
        Some(end) => now >= end,
        None => duration < 0,
    }
}

pub fn validate_staking_amount(amount: u64) -> (r: Result<(), BotanikaError>)
    ensures
        amount > 0 ==> r is Ok,
        amount == 0 ==> r == Err::<(), BotanikaError>(BotanikaError::InvalidAmount),
{
    if amount == 0 {
        return Err(BotanikaError::InvalidAmount);
    }
    Ok(())
}

/// Every tier is a valid tier.
pub fn validate_staking_level(level: StakingLevel) -> (r: Result<(), BotanikaError>)
    ensures
        r is Ok,
{
    match level {
        StakingLevel::Bronze | StakingLevel::Silver | StakingLevel::Gold
        | StakingLevel::Platinum => Ok(()),
    }
}

pub fn validate_multiplier(multiplier: u64) -> (r: Result<(), BotanikaError>)
    ensures
        multiplier_valid(multiplier as int) ==> r is Ok,
        !multiplier_valid(multiplier as int) ==> r == Err::<(), BotanikaError>(
            BotanikaError::InvalidMultiplier,
        ),
{
    if multiplier == 0 || multiplier > MAX_MULTIPLIER {
        return Err(BotanikaError::InvalidMultiplier);
    }
    Ok(())
}

/// Every proof category is a valid one.
pub fn validate_proof_type(proof_type: ProofType) -> (r: Result<(), BotanikaError>)
    ensures
        r is Ok,
{
    match proof_type {
        ProofType::ProofOfStake | ProofType::ProofOfExecution | ProofType::ProofOfService
        | ProofType::ProofOfEfficiency => Ok(()),
    }
}

/// Succeeds once the standard lockup after `staked_at` has passed at `now`.
pub fn check_lockup_period(staked_at: i64, now: i64) -> (r: Result<(), BotanikaError>)
    ensures
        now >= staked_at + LOCKUP_PERIOD ==> r is Ok,
        now < staked_at + LOCKUP_PERIOD ==> r == Err::<(), BotanikaError>(
            BotanikaError::LockupPeriodNotMet,
        ),
{
    if !deadline_reached(now, staked_at, LOCKUP_PERIOD) {
        return Err(BotanikaError::LockupPeriodNotMet);
    }
    Ok(())
}

/// Succeeds once the standard claim cooldown after `last_claimed_at` has
/// passed at `now`.
pub fn check_claim_cooldown(last_claimed_at: i64, now: i64) -> (r: Result<(), BotanikaError>)
    ensures
        now >= last_claimed_at + CLAIM_COOLDOWN ==> r is Ok,
        now < last_claimed_at + CLAIM_COOLDOWN ==> r == Err::<(), BotanikaError>(
            BotanikaError::ClaimCooldownNotMet,
        ),
{
    if !deadline_reached(now, last_claimed_at, CLAIM_COOLDOWN) {
        return Err(BotanikaError::ClaimCooldownNotMet);
    }
    Ok(())
}

} // verus!
