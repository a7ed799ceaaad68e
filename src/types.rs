use vstd::prelude::*;

verus! {

/// Lockup after a stake before the principal may be withdrawn (7 days).
pub const LOCKUP_PERIOD: i64 = 7 * 24 * 60 * 60;

/// Minimum time between two reward claims (24 hours).
pub const CLAIM_COOLDOWN: i64 = 24 * 60 * 60;

/// Voting window of a governance proposal (3 days).
pub const PROPOSAL_DURATION: i64 = 3 * 24 * 60 * 60;

/// Multipliers are scaled by this value: 1000 is 1.0x.
pub const BASE_MULTIPLIER: u64 = 1000;

pub const BRONZE_MULTIPLIER: u64 = 1200;

pub const SILVER_MULTIPLIER: u64 = 1500;

pub const GOLD_MULTIPLIER: u64 = 2000;

pub const PLATINUM_MULTIPLIER: u64 = 3000;

/// Fees are in basis points: 10000 is 100%.
pub const STAKING_FEE_BPS: u64 = 50;

pub const UNSTAKING_FEE_BPS: u64 = 100;

pub const CLAIM_FEE_BPS: u64 = 25;

/// Identity of an account (a 32-byte public key).
#[derive(Clone, Copy, Debug, PartialEq, Eq)]
pub struct AccountKey {
    pub bytes: [u8; 32],
}

/// Whether two keys hold the same bytes.
pub open spec fn same_key(a: AccountKey, b: AccountKey) -> bool {
    a.bytes@ == b.bytes@
}

/// Whether every byte of the key is zero.
pub open spec fn is_zero_key(k: AccountKey) -> bool {
    k.bytes@ == Seq::new(32, |i: int| 0u8)
}

impl AccountKey {
    pub fn new(bytes: [u8; 32]) -> (r: AccountKey)
        ensures
            r.bytes == bytes,
    {
        AccountKey { bytes }
    }

    /// The all-zero key, held by records that no one has written yet.
    pub fn zero() -> (r: AccountKey)
        ensures
            is_zero_key(r),
    {
        let r = AccountKey { bytes: [0u8; 32] };
        assert(r.bytes@ =~= Seq::new(32, |i: int| 0u8));
        r
    }

    /// Whether the two keys hold the same bytes.
    pub fn same_as(&self, other: &AccountKey) -> (r: bool)
        ensures
            r == same_key(*self, *other),
    {
        let mut i: usize = 0;
        while i < 32
            invariant
                0 <= i <= 32,
                forall|j: int| 0 <= j < i ==> self.bytes@[j] == other.bytes@[j],
            decreases 32 - i,
        {
            if self.bytes[i] != other.bytes[i] {
                return false;
            }
            i = i + 1;
        }
        assert(self.bytes@ =~= other.bytes@);
        true
    }
}

/// Loyalty tier of a stake, derived from its principal.
#[derive(Clone, Copy, Debug, PartialEq, Eq, Structural)]
pub enum StakingLevel {
    /// 0 to 1000
    Bronze,
    /// 1001 to 5000
    Silver,
    /// 5001 to 10000
    Gold,
    /// above 10000
    Platinum,
}

/// Position of a tier in a multiplier table (Bronze, Silver, Gold, Platinum).
pub open spec fn level_index(level: StakingLevel) -> int {
    match level {
        StakingLevel::Bronze => 0,
        StakingLevel::Silver => 1,
        StakingLevel::Gold => 2,
        StakingLevel::Platinum => 3,
    }
}

#[derive(Clone, Copy, Debug, PartialEq, Eq, Structural)]
pub enum StakingStatus {
    Active,
    Locked,
    Unstaking,
}

/// Contribution category that earned a proof reward.
#[derive(Clone, Copy, Debug, PartialEq, Eq, Structural)]
pub enum ProofType {
    ProofOfStake,
    ProofOfExecution,
    ProofOfService,
    ProofOfEfficiency,
}

#[derive(Clone, Copy, Debug, PartialEq, Eq, Structural)]
pub enum RewardStatus {
    Pending,
    Available,
    Claimed,
    Expired,
}

#[derive(Clone, Copy, Debug, PartialEq, Eq, Structural)]
pub enum ProposalStatus {
    Draft,
    Active,
    Approved,
    Rejected,
    Executed,
    Expired,
}

#[derive(Clone, Copy, Debug, PartialEq, Eq, Structural)]
pub enum ProposalType {
    MultiplierChange,
    FeeStructure,
    RewardPool,
    EmergencyAction,
}

/// Summary of a stake, as handed between components.
#[derive(Clone, Copy, Debug)]
pub struct StakingInfo {
    pub user: AccountKey,
    pub amount: u64,
    pub level: StakingLevel,
    pub status: StakingStatus,
    pub staked_at: i64,
    pub last_claimed_at: i64,
}

/// Summary of a proof reward, as handed between components.
#[derive(Clone, Copy, Debug)]
pub struct RewardInfo {
    pub user: AccountKey,
    pub proof_type: ProofType,
    pub amount: u64,
    pub status: RewardStatus,
    pub submitted_at: i64,
    pub claimed_at: Option<i64>,
}

/// Summary of the governance parameters, as handed between components.
#[derive(Clone, Copy, Debug)]
pub struct GovernanceInfo {
    pub authority: AccountKey,
    /// Bronze, Silver, Gold, Platinum
    pub multipliers: [u64; 4],
    pub last_updated: i64,
}

/// Errors of the shared arithmetic and validation helpers.
#[derive(Clone, Copy, Debug, PartialEq, Eq, Structural)]
pub enum BotanikaError {
    InvalidStakingLevel,
    InsufficientStake,
    LockupPeriodNotMet,
    ClaimCooldownNotMet,
    InvalidProofType,
    RewardAlreadyClaimed,
    ProposalNotActive,
    InsufficientVotingPower,
    Overflow,
    InvalidAuthority,
    InvalidAmount,
    InvalidMultiplier,
}

} // verus!
