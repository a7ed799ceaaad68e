use vstd::prelude::*;
use crate::staking::{
    StakingError, StakingState, UserStake, accrued_result, claimed, unstake, unstaked,
};

verus! {

/// What a full withdrawal pays out: the accrued reward and the principal.
#[derive(Clone, Copy, Debug, PartialEq, Eq, Structural)]
pub struct UnstakeOutcome {
    pub reward: u64,
    pub principal: u64,
}

/// Outcome of withdrawing the whole principal at `now`, after paying out the
/// reward accrued on it.
pub open spec fn unstake_all_result(state: StakingState, us: UserStake, now: i64) -> Result<
    UnstakeOutcome,
    StakingError,
> {
    if us.amount == 0 {
        Err(StakingError::InsufficientStake)
    } else if now < us.lockup_end {
        Err(StakingError::LockupPeriodNotMet)
    } else {
        match accrued_result(state, us, now) {
            Err(e) => Err(e),
            Ok(reward) => if state.total_staked < us.amount {
                Err(StakingError::Overflow)
            } else {
                Ok(UnstakeOutcome { reward, principal: us.amount })
            },
        }
    }
}

/// Withdraws the whole principal at `now`, claiming first the reward accrued
/// on it with the same formula as an explicit claim (but with no cooldown,
/// and a zero reward is allowed). On `Ok(o)` the caller pays `o.reward` (when
/// not zero) and returns `o.principal` to the user within the same
/// transaction.
pub fn handler(state: &mut StakingState, user_stake: &mut UserStake, now: i64) -> (r: Result<
    UnstakeOutcome,
    StakingError,
>)
    ensures
        r == unstake_all_result(*old(state), *old(user_stake), now),
        r is Ok ==> {
            &&& *final(user_stake) == (UserStake {
                reward_debt: 0,
                ..unstaked(claimed(*old(user_stake), now), old(user_stake).amount)
            })
            &&& *final(state) == (StakingState {
                total_staked: (old(state).total_staked - old(user_stake).amount) as u64,
                ..*old(state)
            })
        },
        r is Err ==> *final(state) == *old(state) && *final(user_stake) == *old(user_stake),
        r is Ok ==> final(user_stake).wf(),
{
    let principal = user_stake.amount;
    if principal == 0 {
        return Err(StakingError::InsufficientStake);
    }
    if !user_stake.is_lockup_met(now) {
        return Err(StakingError::LockupPeriodNotMet);
    }
    let reward = user_stake.accrued_reward(state, now)?;
    if state.total_staked < principal {
        return Err(StakingError::Overflow);
    }
    user_stake.last_claimed_at = now;
    user_stake.reward_debt = 0;
    let withdrawn = unstake(state, user_stake, principal, now);
    assert(withdrawn is Ok);
    Ok(UnstakeOutcome { reward, principal })
}

} // verus!
