use vstd::prelude::*;
use crate::math::{calculate_reward, calculate_staking_level, level_of, reward_fits, reward_of};
use crate::types::{
    AccountKey, BotanikaError, StakingLevel, is_zero_key, StakingStatus, level_index, BRONZE_MULTIPLIER,
    CLAIM_COOLDOWN, GOLD_MULTIPLIER, LOCKUP_PERIOD, PLATINUM_MULTIPLIER, SILVER_MULTIPLIER,
};
use crate::validation::deadline_reached;

verus! {

#[derive(Clone, Copy, Debug, PartialEq, Eq, Structural)]
pub enum StakingError {
    InvalidAmount,
    InsufficientStake,
    LockupPeriodNotMet,
    ClaimCooldownNotMet,
    Overflow,
}

/// Pool-wide configuration and totals.
#[derive(Clone, Copy, Debug, PartialEq, Eq)]
pub struct StakingState {
    /// Authority allowed to update the configuration.
    pub admin: AccountKey,
    /// Mint of the staked token.
    pub staking_mint: AccountKey,
    /// Vault holding all staked tokens.
    pub vault: AccountKey,
    /// Authority over the reward vault.
    pub reward_authority: AccountKey,
    /// Reward per slot, for slot-based accrual.
    pub reward_rate_per_slot: u64,
    pub last_update_slot: u64,
    /// Sum of the principals of all stakes.
    pub total_staked: u64,
    /// Multipliers per tier, scaled by 1000: Bronze, Silver, Gold, Platinum.
    pub multipliers: [u64; 4],
    /// Seconds after a stake before the principal may be withdrawn.
    pub lockup_period: i64,
    /// Minimum seconds between two claims.
    pub claim_cooldown: i64,
    pub bump: u8,
}

/// One user's stake.
#[derive(Clone, Copy, Debug, PartialEq, Eq)]
pub struct UserStake {
    pub owner: AccountKey,
    /// Principal currently staked.
    pub amount: u64,
    /// Reward accrued and not yet paid out (slot-based accrual).
    pub reward_debt: u64,
    /// Slot of the last slot-based payout.
    pub last_updated_slot: u64,
    /// Tier of `amount`, re-derived on every change of it.
    pub level: StakingLevel,
    pub status: StakingStatus,
    pub staked_at: i64,
    pub last_claimed_at: i64,
    pub lockup_end: i64,
    pub bump: u8,
}

impl UserStake {
    /// The tier is that of the principal, and an empty stake is unstaking.
    pub open spec fn wf(&self) -> bool {
        &&& self.level == level_of(self.amount as int)
        &&& self.amount == 0 ==> self.status == StakingStatus::Unstaking
    }

    /// The record of a user who has not staked yet.
    pub fn new(owner: AccountKey, bump: u8) -> (r: UserStake)
        ensures
            r.wf(),
            r.owner == owner,
            r.amount == 0,
            r.reward_debt == 0,
            r.last_updated_slot == 0,
            r.status == StakingStatus::Unstaking,
            r.staked_at == 0,
            r.last_claimed_at == 0,
            r.lockup_end == 0,
            r.bump == bump,
    {
        UserStake {
            owner,
            amount: 0,
            reward_debt: 0,
            last_updated_slot: 0,
            level: StakingLevel::Bronze,
            status: StakingStatus::Unstaking,
            staked_at: 0,
            last_claimed_at: 0,
            lockup_end: 0,
            bump,
        }
    }

    /// The tier of the current principal.
    pub fn calculate_level(&self) -> (r: StakingLevel)
        ensures
            r == level_of(self.amount as int),
    {
        calculate_staking_level(self.amount)
    }

    /// Whether the principal may be withdrawn at `now`.
    pub fn is_lockup_met(&self, now: i64) -> (r: bool)
        ensures
            r == (now >= self.lockup_end),
    {
        now >= self.lockup_end
    }

    /// Whether the pool's claim cooldown has passed at `now`.
    pub fn can_claim(&self, state: &StakingState, now: i64) -> (r: bool)
        ensures
            r == (now >= self.last_claimed_at + state.claim_cooldown),
    {
        deadline_reached(now, self.last_claimed_at, state.claim_cooldown)
    }

    /// Reward accrued between the last claim and `now`.
    pub fn accrued_reward(&self, state: &StakingState, now: i64) -> (r: Result<u64, StakingError>)
        ensures
            r == accrued_result(*state, *self, now),
    {
        let elapsed = match now.checked_sub(self.last_claimed_at) {
            Some(v) => v,
            None => return Err(StakingError::Overflow),
        };
        let multiplier = self.get_multiplier(state);
        match calculate_reward(self.amount, elapsed, multiplier) {
            Ok(v) => Ok(v),
            Err(BotanikaError::InvalidAmount) => Err(StakingError::InvalidAmount),
            Err(_) => Err(StakingError::Overflow),
        }
    }

    /// The pool's multiplier for this stake's tier.
    pub fn get_multiplier(&self, state: &StakingState) -> (r: u64)
        ensures
            r == tier_multiplier(*state, self.level),
    {
        match self.level {
            StakingLevel::Bronze => state.multipliers[0],
            StakingLevel::Silver => state.multipliers[1],
            StakingLevel::Gold => state.multipliers[2],
            StakingLevel::Platinum => state.multipliers[3],
        }
    }
}

/// The pool's multiplier for a tier.
pub open spec fn tier_multiplier(state: StakingState, level: StakingLevel) -> u64 {
    state.multipliers@[level_index(level)]
}

/// A new pool under `admin` with the default multipliers, lockup and cooldown.
pub fn initialize(admin: AccountKey, bump: u8) -> (r: StakingState)
    ensures
        r.admin == admin,
        is_zero_key(r.staking_mint),
        is_zero_key(r.vault),
        is_zero_key(r.reward_authority),
        r.total_staked == 0,
        r.multipliers@ == seq![
            BRONZE_MULTIPLIER,
            SILVER_MULTIPLIER,
            GOLD_MULTIPLIER,
            PLATINUM_MULTIPLIER,
        ],
        r.lockup_period == LOCKUP_PERIOD,
        r.claim_cooldown == CLAIM_COOLDOWN,
        r.reward_rate_per_slot == 0,
        r.last_update_slot == 0,
        r.bump == bump,
{
    let r = StakingState {
        admin,
        staking_mint: AccountKey::zero(),
        vault: AccountKey::zero(),
        reward_authority: AccountKey::zero(),
        reward_rate_per_slot: 0,
        last_update_slot: 0,
        total_staked: 0,
        multipliers: [BRONZE_MULTIPLIER, SILVER_MULTIPLIER, GOLD_MULTIPLIER, PLATINUM_MULTIPLIER],
        lockup_period: LOCKUP_PERIOD,
        claim_cooldown: CLAIM_COOLDOWN,
        bump,
    };
    assert(r.multipliers@ =~= seq![
        BRONZE_MULTIPLIER,
        SILVER_MULTIPLIER,
        GOLD_MULTIPLIER,
        PLATINUM_MULTIPLIER,
    ]);
    r
}

/// Outcome of staking `amount` at `now`.
pub open spec fn stake_result(state: StakingState, us: UserStake, amount: u64, now: i64) -> Result<
    (),
    StakingError,
> {
    if amount == 0 {
        Err(StakingError::InvalidAmount)
    } else if state.total_staked + amount > u64::MAX || us.amount + amount > u64::MAX || !(i64::MIN
        <= now + state.lockup_period <= i64::MAX) {
        Err(StakingError::Overflow)
    } else {
        Ok(())
    }
}

/// The stake record after `user` staked `amount` more at `now`: the principal
/// grows, the tier is re-derived, and the lockup and the accrual of rewards
/// start again from `now`.
pub open spec fn staked(
    us: UserStake,
    user: AccountKey,
    amount: u64,
    now: i64,
    lockup_period: i64,
) -> UserStake {
    UserStake {
        owner: user,
        amount: (us.amount + amount) as u64,
        level: level_of(us.amount + amount),
        status: StakingStatus::Active,
        staked_at: now,
        lockup_end: (now + lockup_period) as i64,
        last_claimed_at: now,
        ..us
    }
}

/// Adds `amount` to the pool and to `user`'s principal at time `now`. The
/// caller moves `amount` into the vault within the same transaction.
pub fn stake(
    state: &mut StakingState,
    user_stake: &mut UserStake,
    user: AccountKey,
    amount: u64,
    now: i64,
) -> (r: Result<(), StakingError>)
    ensures
        r == stake_result(*old(state), *old(user_stake), amount, now),
        r is Ok ==> {
            &&& *final(user_stake) == staked(
                *old(user_stake),
                user,
                amount,
                now,
                old(state).lockup_period,
            )
            &&& *final(state) == (StakingState {
                total_staked: (old(state).total_staked + amount) as u64,
                ..*old(state)
            })
        },
        r is Err ==> *final(state) == *old(state) && *final(user_stake) == *old(user_stake),
        r is Ok ==> final(user_stake).wf(),
{
    if amount == 0 {
        return Err(StakingError::InvalidAmount);
    }
    let total_staked = match state.total_staked.checked_add(amount) {
        Some(v) => v,
        None => return Err(StakingError::Overflow),
    };
    let new_amount = match user_stake.amount.checked_add(amount) {
        Some(v) => v,
        None => return Err(StakingError::Overflow),
    };
    let lockup_end = match now.checked_add(state.lockup_period) {
        Some(v) => v,
        None => return Err(StakingError::Overflow),
    };
    state.total_staked = total_staked;
    user_stake.owner = user;
    user_stake.amount = new_amount;
    user_stake.staked_at = now;
    user_stake.lockup_end = lockup_end;
    user_stake.level = user_stake.calculate_level();
    user_stake.status = StakingStatus::Active;
    user_stake.last_claimed_at = now;
    Ok(())
}

/// Outcome of withdrawing `amount` at `now`.
pub open spec fn unstake_result(
    state: StakingState,
    us: UserStake,
    amount: u64,
    now: i64,
) -> Result<(), StakingError> {
    if amount == 0 || amount > us.amount {
        Err(StakingError::InsufficientStake)
    } else if now < us.lockup_end {
        Err(StakingError::LockupPeriodNotMet)
    } else if state.total_staked < amount {
        Err(StakingError::Overflow)
    } else {
        Ok(())
    }
}

/// The stake record after `amount` was withdrawn: the principal shrinks, the
/// tier is re-derived, and an emptied stake is marked unstaking.
pub open spec fn unstaked(us: UserStake, amount: u64) -> UserStake {
    let rest = us.amount - amount;
    UserStake {
        amount: rest as u64,
        level: level_of(rest),
        status: if rest == 0 {
            StakingStatus::Unstaking
        } else {
            us.status
        },
        ..us
    }
}

/// Withdraws `amount` of the principal at `now`, once the lockup is over. The
/// caller moves `amount` from the vault to the user within the same
/// transaction.
pub fn unstake(
    state: &mut StakingState,
    user_stake: &mut UserStake,
    amount: u64,
    now: i64,
) -> (r: Result<(), StakingError>)
    ensures
        r == unstake_result(*old(state), *old(user_stake), amount, now),
        r is Ok ==> {
            &&& *final(user_stake) == unstaked(*old(user_stake), amount)
            &&& *final(state) == (StakingState {
                total_staked: (old(state).total_staked - amount) as u64,
                ..*old(state)
            })
        },
        r is Err ==> *final(state) == *old(state) && *final(user_stake) == *old(user_stake),
        old(user_stake).wf() ==> final(user_stake).wf(),
{
    if amount == 0 || user_stake.amount < amount {
        return Err(StakingError::InsufficientStake);
    }
    if !user_stake.is_lockup_met(now) {
        return Err(StakingError::LockupPeriodNotMet);
    }
    let total_staked = match state.total_staked.checked_sub(amount) {
        Some(v) => v,
        None => return Err(StakingError::Overflow),
    };
    state.total_staked = total_staked;
    user_stake.amount = user_stake.amount - amount;
    user_stake.level = user_stake.calculate_level();
    if user_stake.amount == 0 {
        user_stake.status = StakingStatus::Unstaking;
    }
    Ok(())
}

/// Reward accrued since the last claim, at the multiplier of the stake's tier.
pub open spec fn accrued_result(state: StakingState, us: UserStake, now: i64) -> Result<
    u64,
    StakingError,
> {
    let elapsed = now - us.last_claimed_at;
    let multiplier = tier_multiplier(state, us.level);
    if elapsed < i64::MIN || elapsed > i64::MAX {
        Err(StakingError::Overflow)
    } else if elapsed < 0 {
        Err(StakingError::InvalidAmount)
    } else if !reward_fits(us.amount as int, elapsed, multiplier as int) {
        Err(StakingError::Overflow)
    } else {
        Ok(reward_of(us.amount as int, elapsed, multiplier as int) as u64)
    }
}

/// Outcome of claiming at `now`: the accrued reward, once the cooldown has
/// passed, and only if it is not zero.
pub open spec fn claim_result(state: StakingState, us: UserStake, now: i64) -> Result<
    u64,
    StakingError,
> {
    if now < us.last_claimed_at + state.claim_cooldown {
        Err(StakingError::ClaimCooldownNotMet)
    } else {
        match accrued_result(state, us, now) {
            Err(e) => Err(e),
            Ok(reward) => if reward == 0 {
                Err(StakingError::InvalidAmount)
            } else {
                Ok(reward)
            },
        }
    }
}

/// The stake record after a claim at `now`.
pub open spec fn claimed(us: UserStake, now: i64) -> UserStake {
    UserStake { last_claimed_at: now, ..us }
}

/// Claims the reward accrued since the last claim. On `Ok(reward)` the caller
/// pays `reward` to the user within the same transaction.
pub fn claim(state: &StakingState, user_stake: &mut UserStake, now: i64) -> (r: Result<
    u64,
    StakingError,
>)
    ensures
        r == claim_result(*state, *old(user_stake), now),
        r is Ok ==> *final(user_stake) == claimed(*old(user_stake), now),
        r is Err ==> *final(user_stake) == *old(user_stake),
        old(user_stake).wf() ==> final(user_stake).wf(),
{
    if !user_stake.can_claim(state, now) {
        return Err(StakingError::ClaimCooldownNotMet);
    }
    let reward = user_stake.accrued_reward(state, now)?;
    if reward == 0 {
        return Err(StakingError::InvalidAmount);
    }
    user_stake.last_claimed_at = now;
    Ok(reward)
}

/// Staking `a1` and then `a2`, with no overflow, succeeds both times and
/// leaves a principal grown by `a1 + a2` whose tier is the tier of that sum.
pub proof fn lemma_stake_twice(
    state: StakingState,
    us: UserStake,
    user: AccountKey,
    a1: u64,
    a2: u64,
    t1: i64,
    t2: i64,
)
    requires
        a1 > 0,
        a2 > 0,
        state.total_staked + a1 + a2 <= u64::MAX,
        us.amount + a1 + a2 <= u64::MAX,
        i64::MIN <= t1 + state.lockup_period <= i64::MAX,
        i64::MIN <= t2 + state.lockup_period <= i64::MAX,
    ensures
        stake_result(state, us, a1, t1) is Ok,
        ({
            let state1 = StakingState { total_staked: (state.total_staked + a1) as u64, ..state };
            let us1 = staked(us, user, a1, t1, state.lockup_period);
            let us2 = staked(us1, user, a2, t2, state1.lockup_period);
            &&& stake_result(state1, us1, a2, t2) is Ok
            &&& us2.amount == us.amount + a1 + a2
            &&& us2.level == level_of(us.amount + a1 + a2)
        }),
{
}

/// Withdrawing a part of the principal before the lockup ends fails with
/// `LockupPeriodNotMet`; at or after the lockup end it succeeds (the pool
/// total covers every principal).
pub proof fn lemma_unstake_lockup(state: StakingState, us: UserStake, amount: u64, now: i64)
    requires
        0 < amount <= us.amount,
        state.total_staked >= us.amount,
    ensures
        now < us.lockup_end ==> unstake_result(state, us, amount, now) == Err::<(), StakingError>(
            StakingError::LockupPeriodNotMet,
        ),
        now >= us.lockup_end ==> unstake_result(state, us, amount, now) is Ok,
{
}

/// After a claim at `t1`, a claim before `t1 + claim_cooldown` fails with
/// `ClaimCooldownNotMet`, and one exactly at `t1 + claim_cooldown` pays the
/// reward for the cooldown's length, where that reward is computable and not
/// zero.
pub proof fn lemma_claim_cooldown(state: StakingState, us: UserStake, t1: i64, t2: i64)
    ensures
        t2 < t1 + state.claim_cooldown ==> claim_result(state, claimed(us, t1), t2) == Err::<
            u64,
            StakingError,
        >(StakingError::ClaimCooldownNotMet),
        ({
            let m = tier_multiplier(state, us.level) as int;
            let c = state.claim_cooldown as int;
            t2 == t1 + c && c >= 0 && reward_fits(us.amount as int, c, m) && reward_of(
                us.amount as int,
                c,
                m,
            ) > 0 ==> claim_result(state, claimed(us, t1), t2) == Ok::<u64, StakingError>(
                reward_of(us.amount as int, c, m) as u64,
            )
        }),
{
}

} // verus!
