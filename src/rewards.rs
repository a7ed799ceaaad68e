use vstd::prelude::*;
use crate::types::{AccountKey, same_key};
pub use crate::types::{ProofType, RewardStatus};

verus! {

#[derive(Clone, Copy, Debug, PartialEq, Eq, Structural)]
pub enum RewardsError {
    InvalidProofType,
    RewardAlreadyClaimed,
    RewardExpired,
    RewardNotAvailable,
    InvalidAuthority,
    Overflow,
    InvalidAmount,
    RewardPoolNotInitialized,
}

/// Configuration and totals of the proof-reward channel.
#[derive(Clone, Copy, Debug, PartialEq, Eq)]
pub struct RewardPool {
    /// Authority allowed to submit rewards.
    pub authority: AccountKey,
    /// Sum of all amounts ever submitted.
    pub total_rewards_distributed: u64,
    pub reward_mint: AccountKey,
    pub reward_vault: AccountKey,
    /// Seconds a submitted reward stays claimable.
    pub expiration_period: i64,
    pub bump: u8,
}

/// The proof reward of one user.
#[derive(Clone, Copy, Debug, PartialEq, Eq)]
pub struct RewardRecipient {
    /// The only user who may claim the reward.
    pub user: AccountKey,
    pub proof_type: ProofType,
    pub amount: u64,
    pub status: RewardStatus,
    pub submitted_at: i64,
    /// Set when, and only when, the reward was claimed.
    pub claimed_at: Option<i64>,
    pub expires_at: i64,
    pub bump: u8,
}

impl RewardRecipient {
    /// A claimed reward records when it was claimed, and only a claimed one.
    pub open spec fn wf(&self) -> bool {
        self.status == RewardStatus::Claimed <==> self.claimed_at is Some
    }

    /// A record for `user` that holds no reward yet.
    pub fn new(user: AccountKey, bump: u8) -> (r: RewardRecipient)
        ensures
            r.wf(),
            r.user == user,
            r.amount == 0,
            r.status == RewardStatus::Pending,
            r.claimed_at is None,
            r.bump == bump,
    {
        RewardRecipient {
            user,
            proof_type: ProofType::ProofOfStake,
            amount: 0,
            status: RewardStatus::Pending,
            submitted_at: 0,
            claimed_at: None,
            expires_at: 0,
            bump,
        }
    }

    /// Whether the reward has expired at `now`.
    pub fn is_expired(&self, now: i64) -> (r: bool)
        ensures
            r == (now > self.expires_at),
    {
        now > self.expires_at
    }

    /// Whether the reward may be claimed at `now`: it is available and has
    /// not expired, whatever its stored status says of expiry.
    pub fn can_claim(&self, now: i64) -> (r: bool)
        ensures
            r == claimable(*self, now),
    {
        self.status == RewardStatus::Available && !self.is_expired(now)
    }

    pub fn mark_claimed(&mut self, now: i64)
        ensures
            *final(self) == reward_claimed(*old(self), now),
    {
        self.status = RewardStatus::Claimed;
        self.claimed_at = Some(now);
    }

    pub fn mark_expired(&mut self)
        ensures
            *final(self) == (RewardRecipient { status: RewardStatus::Expired, ..*old(self) }),
    {
        self.status = RewardStatus::Expired;
    }

    /// Records the expiry of an available reward whose time has passed at
    /// `now`; returns whether it did.
    pub fn refresh_expiry(&mut self, now: i64) -> (r: bool)
        ensures
            r == (old(self).status == RewardStatus::Available && now > old(self).expires_at),
            r ==> *final(self) == (RewardRecipient {
                status: RewardStatus::Expired,
                ..*old(self)
            }),
            !r ==> *final(self) == *old(self),
            old(self).wf() ==> final(self).wf(),
    {
        if self.status == RewardStatus::Available && self.is_expired(now) {
            self.mark_expired();
            true
        } else {
            false
        }
    }
}

/// Whether a reward may be claimed at `now`.
pub open spec fn claimable(rec: RewardRecipient, now: i64) -> bool {
    rec.status == RewardStatus::Available && now <= rec.expires_at
}

/// The record after its reward was claimed at `now`.
pub open spec fn reward_claimed(rec: RewardRecipient, now: i64) -> RewardRecipient {
    RewardRecipient { status: RewardStatus::Claimed, claimed_at: Some(now), ..rec }
}

/// A new reward channel under `authority`, with nothing distributed yet.
pub fn initialize_reward_pool(
    authority: AccountKey,
    reward_mint: AccountKey,
    reward_vault: AccountKey,
    expiration_period: i64,
    bump: u8,
) -> (r: RewardPool)
    ensures
        r == (RewardPool {
            authority,
            total_rewards_distributed: 0,
            reward_mint,
            reward_vault,
            expiration_period,
            bump,
        }),
{
    RewardPool {
        authority,
        total_rewards_distributed: 0,
        reward_mint,
        reward_vault,
        expiration_period,
        bump,
    }
}

/// Outcome of a submission by `signer` of `amount` at `now`.
pub open spec fn submit_result(pool: RewardPool, signer: AccountKey, amount: u64, now: i64) -> Result<
    (),
    RewardsError,
> {
    if !same_key(signer, pool.authority) {
        Err(RewardsError::InvalidAuthority)
    } else if amount == 0 {
        Err(RewardsError::InvalidAmount)
    } else if pool.total_rewards_distributed + amount > u64::MAX || !(i64::MIN <= now
        + pool.expiration_period <= i64::MAX) {
        Err(RewardsError::Overflow)
    } else {
        Ok(())
    }
}

/// The record after a submission at `now`: any earlier reward is replaced.
pub open spec fn reward_submitted(
    rec: RewardRecipient,
    user: AccountKey,
    amount: u64,
    proof_type: ProofType,
    now: i64,
    expiration_period: i64,
) -> RewardRecipient {
    RewardRecipient {
        user,
        proof_type,
        amount,
        status: RewardStatus::Available,
        submitted_at: now,
        claimed_at: None,
        expires_at: (now + expiration_period) as i64,
        ..rec
    }
}

/// Grants `user` a reward of `amount` for `proof_type` at `now`, claimable
/// until `now + expiration_period`. Only the pool's authority may submit. An
/// unclaimed earlier reward of the same user is discarded.
pub fn submit_reward(
    pool: &mut RewardPool,
    recipient: &mut RewardRecipient,
    signer: &AccountKey,
    user: AccountKey,
    amount: u64,
    proof_type: ProofType,
    now: i64,
) -> (r: Result<(), RewardsError>)
    ensures
        r == submit_result(*old(pool), *signer, amount, now),
        r is Ok ==> {
            &&& *final(recipient) == reward_submitted(
                *old(recipient),
                user,
                amount,
                proof_type,
                now,
                old(pool).expiration_period,
            )
            &&& *final(pool) == (RewardPool {
                total_rewards_distributed: (old(pool).total_rewards_distributed + amount) as u64,
                ..*old(pool)
            })
        },
        r is Err ==> *final(pool) == *old(pool) && *final(recipient) == *old(recipient),
        r is Ok ==> final(recipient).wf(),
{
    if !signer.same_as(&pool.authority) {
        return Err(RewardsError::InvalidAuthority);
    }
    if amount == 0 {
        return Err(RewardsError::InvalidAmount);
    }
    let total = match pool.total_rewards_distributed.checked_add(amount) {
        Some(v) => v,
        None => return Err(RewardsError::Overflow),
    };
    let expires_at = match now.checked_add(pool.expiration_period) {
        Some(v) => v,
        None => return Err(RewardsError::Overflow),
    };
    pool.total_rewards_distributed = total;
    recipient.user = user;
    recipient.proof_type = proof_type;
    recipient.amount = amount;
    recipient.status = RewardStatus::Available;
    recipient.submitted_at = now;
    recipient.expires_at = expires_at;
    recipient.claimed_at = None;
    Ok(())
}

/// Outcome of a claim by `user` at `now`: the reward's amount.
pub open spec fn claim_reward_result(rec: RewardRecipient, user: AccountKey, now: i64) -> Result<
    u64,
    RewardsError,
> {
    if !claimable(rec, now) {
        Err(RewardsError::RewardNotAvailable)
    } else if !same_key(rec.user, user) {
        Err(RewardsError::InvalidAuthority)
    } else {
        Ok(rec.amount)
    }
}

/// Claims the reward for `user` at `now`. On `Ok(amount)` the caller pays
/// `amount` to the user within the same transaction.
pub fn claim_reward(recipient: &mut RewardRecipient, user: &AccountKey, now: i64) -> (r: Result<
    u64,
    RewardsError,
>)
    ensures
        r == claim_reward_result(*old(recipient), *user, now),
        r is Ok ==> *final(recipient) == reward_claimed(*old(recipient), now),
        r is Err ==> *final(recipient) == *old(recipient),
        r is Ok ==> final(recipient).wf(),
{
    if !recipient.can_claim(now) {
        return Err(RewardsError::RewardNotAvailable);
    }
    if !recipient.user.same_as(user) {
        return Err(RewardsError::InvalidAuthority);
    }
    let amount = recipient.amount;
    recipient.mark_claimed(now);
    Ok(amount)
}

/// A claimed reward cannot be claimed again, by anyone, at any time.
pub proof fn lemma_claim_reward_twice(
    rec: RewardRecipient,
    user: AccountKey,
    other: AccountKey,
    t1: i64,
    t2: i64,
)
    requires
        claim_reward_result(rec, user, t1) is Ok,
    ensures
        claim_reward_result(reward_claimed(rec, t1), other, t2) == Err::<u64, RewardsError>(
            RewardsError::RewardNotAvailable,
        ),
{
}

/// After its expiry no reward can be claimed, whatever its stored status.
pub proof fn lemma_claim_reward_after_expiry(rec: RewardRecipient, user: AccountKey, now: i64)
    requires
        now > rec.expires_at,
    ensures
        claim_reward_result(rec, user, now) == Err::<u64, RewardsError>(
            RewardsError::RewardNotAvailable,
        ),
{
}

} // verus!
