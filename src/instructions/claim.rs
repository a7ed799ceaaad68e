use vstd::prelude::*;
use crate::math::safe_mul;
use crate::staking::{StakingError, StakingState, UserStake, tier_multiplier};

verus! {

/// The tier multiplier used by slot-based accrual, never below 1.
pub open spec fn slot_multiplier(state: StakingState, us: UserStake) -> int {
    let m = tier_multiplier(state, us.level);
    if m < 1 {
        1
    } else {
        m as int
    }
}

/// Outcome of the slot-based payout at `current_slot`: slots elapsed since the
/// last payout, times the pool's rate per slot, times the principal, times
/// the tier multiplier, each product checked. A zero reward (no slot has
/// passed, no rate, or nothing staked) is refused.
pub open spec fn slot_reward_result(state: StakingState, us: UserStake, current_slot: u64) -> Result<
    u64,
    StakingError,
> {
    let elapsed = current_slot - us.last_updated_slot;
    let per_unit = elapsed * state.reward_rate_per_slot;
    let base = per_unit * us.amount;
    let reward = base * slot_multiplier(state, us);
    if current_slot < us.last_updated_slot {
        Err(StakingError::Overflow)
    } else if per_unit > u64::MAX || base > u64::MAX || reward > u64::MAX {
        Err(StakingError::Overflow)
    } else if reward == 0 {
        Err(StakingError::InvalidAmount)
    } else {
        Ok(reward as u64)
    }
}

/// Pays out the slot-based reward accrued since the last payout, and notes
/// `current_slot` in the record. A zero reward is refused with
/// `InvalidAmount` and changes nothing. On `Ok(reward)` the caller pays
/// `reward` to the user within the same transaction.
pub fn handler(state: &StakingState, user_stake: &mut UserStake, current_slot: u64) -> (r: Result<
    u64,
    StakingError,
>)
    ensures
        r == slot_reward_result(*state, *old(user_stake), current_slot),
        r is Ok ==> r->Ok_0 > 0,
        r is Ok ==> *final(user_stake) == (UserStake {
            reward_debt: 0,
            last_updated_slot: current_slot,
            ..*old(user_stake)
        }),
        r is Err ==> *final(user_stake) == *old(user_stake),
{
    let elapsed_slots = match current_slot.checked_sub(user_stake.last_updated_slot) {
        Some(v) => v,
        None => return Err(StakingError::Overflow),
    };
    let per_unit = match safe_mul(elapsed_slots, state.reward_rate_per_slot) {
        Ok(v) => v,
        Err(_) => return Err(StakingError::Overflow),
    };
    let base_reward = match safe_mul(per_unit, user_stake.amount) {
        Ok(v) => v,
        Err(_) => return Err(StakingError::Overflow),
    };
    let tier = user_stake.get_multiplier(state);
    let multiplier = if tier < 1 {
        1
    } else {
        tier
    };
    let reward = match safe_mul(base_reward, multiplier) {
        Ok(v) => v,
        Err(_) => return Err(StakingError::Overflow),
    };
    if reward == 0 {
        return Err(StakingError::InvalidAmount);
    }
    user_stake.reward_debt = 0;
    user_stake.last_updated_slot = current_slot;
    Ok(reward)
}

} // verus!
