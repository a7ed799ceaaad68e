use vstd::prelude::*;
use vstd::arithmetic::div_mod::lemma_div_is_ordered;
use vstd::arithmetic::mul::lemma_mul_inequality;
use crate::types::{BotanikaError, StakingLevel};

verus! {

/// Seconds in a (365-day) year: rewards accrue at a nominal annual rate.
pub const SECONDS_PER_YEAR: u64 = 365 * 24 * 60 * 60;

/// Denominator of basis-point fees.
pub const BPS_DENOMINATOR: u64 = 10000;

/// Reward for `amount` staked `elapsed` seconds under `multiplier` (scaled by
/// 1000): multiplication first, then two floor divisions.
pub open spec fn reward_of(amount: int, elapsed: int, multiplier: int) -> int {
    amount * elapsed * multiplier / 1000 / 31536000
}

/// Fee of `fee_bps` basis points on `amount`, rounded down.
pub open spec fn fee_of(amount: int, fee_bps: int) -> int {
    amount * fee_bps / 10000
}

/// The tier of a principal: bounds are inclusive on the lower tier.
pub open spec fn level_of(amount: int) -> StakingLevel {
    if amount <= 1000 {
        StakingLevel::Bronze
    } else if amount <= 5000 {
        StakingLevel::Silver
    } else if amount <= 10000 {
        StakingLevel::Gold
    } else {
        StakingLevel::Platinum
    }
}

/// Whether `calculate_reward` can carry out both multiplications.
pub open spec fn reward_fits(amount: int, elapsed: int, multiplier: int) -> bool {
    &&& amount * elapsed <= u64::MAX
    &&& amount * elapsed * multiplier <= u64::MAX
}

pub fn safe_add(a: u64, b: u64) -> (r: Result<u64, BotanikaError>)
    ensures
        a + b <= u64::MAX ==> r == Ok::<u64, BotanikaError>((a + b) as u64),
        a + b > u64::MAX ==> r == Err::<u64, BotanikaError>(BotanikaError::Overflow),
{
    match a.checked_add(b) {
        Some(v) => Ok(v),
        None => Err(BotanikaError::Overflow),
    }
}

pub fn safe_sub(a: u64, b: u64) -> (r: Result<u64, BotanikaError>)
    ensures
        b <= a ==> r == Ok::<u64, BotanikaError>((a - b) as u64),
        b > a ==> r == Err::<u64, BotanikaError>(BotanikaError::Overflow),
{
    match a.checked_sub(b) {
        Some(v) => Ok(v),
        None => Err(BotanikaError::Overflow),
    }
}

pub fn safe_mul(a: u64, b: u64) -> (r: Result<u64, BotanikaError>)
    ensures
        a * b <= u64::MAX ==> r == Ok::<u64, BotanikaError>((a * b) as u64),
        a * b > u64::MAX ==> r == Err::<u64, BotanikaError>(BotanikaError::Overflow),
{
    match a.checked_mul(b) {
        Some(v) => Ok(v),
        None => Err(BotanikaError::Overflow),
    }
}

/// Floor division; a zero divisor is an invalid amount.
pub fn safe_div(a: u64, b: u64) -> (r: Result<u64, BotanikaError>)
    ensures
        b > 0 ==> r == Ok::<u64, BotanikaError>(a / b),
        b == 0 ==> r == Err::<u64, BotanikaError>(BotanikaError::InvalidAmount),
{
    if b == 0 {
        return Err(BotanikaError::InvalidAmount);
    }
    Ok(a / b)
}

/// Reward accrued by `amount` over `time_elapsed` seconds at `multiplier`
/// (scaled by 1000), at a nominal rate of 100% a year. A negative elapsed
/// time is an invalid amount.
pub fn calculate_reward(amount: u64, time_elapsed: i64, multiplier: u64) -> (r: Result<
    u64,
    BotanikaError,
>)
    ensures
        time_elapsed < 0 ==> r == Err::<u64, BotanikaError>(BotanikaError::InvalidAmount),
        time_elapsed >= 0 && reward_fits(amount as int, time_elapsed as int, multiplier as int)
            ==> r == Ok::<u64, BotanikaError>(
            reward_of(amount as int, time_elapsed as int, multiplier as int) as u64,
        ),
        time_elapsed >= 0 && !reward_fits(amount as int, time_elapsed as int, multiplier as int)
            ==> r == Err::<u64, BotanikaError>(BotanikaError::Overflow),
{
    if time_elapsed < 0 {
        return Err(BotanikaError::InvalidAmount);
    }
    let elapsed = time_elapsed as u64;
    let base_reward = safe_mul(amount, elapsed)?;
    let multiplied_reward = safe_mul(base_reward, multiplier)?;
    let normalized_reward = safe_div(multiplied_reward, 1000)?;
    let annualized_reward = safe_div(normalized_reward, SECONDS_PER_YEAR)?;
    Ok(annualized_reward)
}

/// Fee of `fee_bps` basis points on `amount`, rounded down.
pub fn calculate_fee(amount: u64, fee_bps: u64) -> (r: Result<u64, BotanikaError>)
    ensures
        amount * fee_bps <= u64::MAX ==> r == Ok::<u64, BotanikaError>(
            fee_of(amount as int, fee_bps as int) as u64,
        ),
        amount * fee_bps > u64::MAX ==> r == Err::<u64, BotanikaError>(BotanikaError::Overflow),
{
    let fee = safe_mul(amount, fee_bps)?;
    safe_div(fee, BPS_DENOMINATOR)
}

pub fn calculate_staking_level(amount: u64) -> (r: StakingLevel)
    ensures
        r == level_of(amount as int),
{
    if amount <= 1000 {
        StakingLevel::Bronze
    } else if amount <= 5000 {
        StakingLevel::Silver
    } else if amount <= 10000 {
        StakingLevel::Gold
    } else {
        StakingLevel::Platinum
    }
}

proof fn lemma_reward_of_ordered(x: int, y: int)
    requires
        0 <= x <= y,
    ensures
        x / 1000 / 31536000 <= y / 1000 / 31536000,
{
    lemma_div_is_ordered(x, y, 1000);
    lemma_div_is_ordered(x / 1000, y / 1000, 31536000);
}

/// The reward never decreases when the principal grows and the elapsed time
/// and multiplier stay the same.
pub proof fn lemma_reward_monotonic_in_amount(a1: int, a2: int, elapsed: int, multiplier: int)
    requires
        0 <= a1 <= a2,
        0 <= elapsed,
        0 <= multiplier,
    ensures
        reward_of(a1, elapsed, multiplier) <= reward_of(a2, elapsed, multiplier),
{
    lemma_mul_inequality(a1, a2, elapsed);
    lemma_mul_inequality(a1 * elapsed, a2 * elapsed, multiplier);
    lemma_reward_of_ordered(a1 * elapsed * multiplier, a2 * elapsed * multiplier);
}

/// The reward never decreases when more time has elapsed and the principal
/// and multiplier stay the same.
pub proof fn lemma_reward_monotonic_in_elapsed(amount: int, e1: int, e2: int, multiplier: int)
    requires
        0 <= amount,
        0 <= e1 <= e2,
        0 <= multiplier,
    ensures
        reward_of(amount, e1, multiplier) <= reward_of(amount, e2, multiplier),
{
    assert(amount * e1 <= amount * e2) by (nonlinear_arith)
        requires
            0 <= amount,
            e1 <= e2,
    ;
    lemma_mul_inequality(amount * e1, amount * e2, multiplier);
    lemma_reward_of_ordered(amount * e1 * multiplier, amount * e2 * multiplier);
}

/// The reward never decreases when the multiplier grows and the principal and
/// elapsed time stay the same.
pub proof fn lemma_reward_monotonic_in_multiplier(amount: int, elapsed: int, m1: int, m2: int)
    requires
        0 <= amount,
        0 <= elapsed,
        0 <= m1 <= m2,
    ensures
        reward_of(amount, elapsed, m1) <= reward_of(amount, elapsed, m2),
{
    assert(0 <= amount * elapsed) by (nonlinear_arith)
        requires
            0 <= amount,
            0 <= elapsed,
    ;
    assert(amount * elapsed * m1 <= amount * elapsed * m2) by (nonlinear_arith)
        requires
            0 <= amount * elapsed,
            m1 <= m2,
    ;
    lemma_reward_of_ordered(amount * elapsed * m1, amount * elapsed * m2);
}

} // verus!
