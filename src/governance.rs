use vstd::prelude::*;
use crate::types::{
    AccountKey, same_key, BRONZE_MULTIPLIER, CLAIM_FEE_BPS, GOLD_MULTIPLIER, PLATINUM_MULTIPLIER,
    PROPOSAL_DURATION, SILVER_MULTIPLIER, STAKING_FEE_BPS, UNSTAKING_FEE_BPS,
};
pub use crate::types::{ProposalStatus, ProposalType};
use crate::staking::StakingState;
use crate::validation::{multiplier_valid, MAX_MULTIPLIER};

verus! {

/// Largest fee, in basis points (100%).
pub const MAX_FEE_BPS: u64 = 10000;

/// Minimum votes, kept with the configuration.
pub const QUORUM_THRESHOLD: u64 = 1000;

#[derive(Clone, Copy, Debug, PartialEq, Eq, Structural)]
pub enum GovernanceError {
    InvalidAuthority,
    ProposalNotActive,
    ProposalAlreadyExecuted,
    ProposalExpired,
    VotingPeriodNotEnded,
    InsufficientVotingPower,
    InvalidProposalData,
    Overflow,
    InvalidMultiplier,
    InvalidFeeStructure,
}

/// Reward and fee parameters that proposals change.
#[derive(Clone, Copy, Debug, PartialEq, Eq)]
pub struct GovernanceState {
    /// Authority that executes proposals and sets multipliers.
    pub authority: AccountKey,
    /// Multipliers per tier, scaled by 1000: Bronze, Silver, Gold, Platinum.
    pub multipliers: [u64; 4],
    pub staking_fee_bps: u64,
    pub unstaking_fee_bps: u64,
    pub claim_fee_bps: u64,
    /// Seconds a proposal stays open for votes.
    pub proposal_duration: i64,
    pub quorum_threshold: u64,
    pub last_updated: i64,
    /// Number of proposals created so far: the id of the next one.
    pub proposal_count: u64,
    pub bump: u8,
}

/// A governance proposal.
#[derive(Clone, Debug, PartialEq, Eq)]
pub struct Proposal {
    pub id: u64,
    pub proposal_type: ProposalType,
    pub status: ProposalStatus,
    /// Encoded change; its layout depends on `proposal_type`.
    pub data: Vec<u8>,
    pub created_at: i64,
    pub voting_ends_at: i64,
    /// Set when the proposal is executed.
    pub executed_at: Option<i64>,
    pub votes_for: u64,
    pub votes_against: u64,
    pub bump: u8,
}

impl GovernanceState {
    /// Every multiplier lies in `(0, 10000]` and every fee is at most 10000
    /// basis points.
    pub open spec fn wf(&self) -> bool {
        &&& forall|i: int| 0 <= i < 4 ==> multiplier_valid(#[trigger] self.multipliers@[i] as int)
        &&& self.staking_fee_bps <= 10000
        &&& self.unstaking_fee_bps <= 10000
        &&& self.claim_fee_bps <= 10000
    }
}

impl Proposal {
    pub fn is_active(&self) -> (r: bool)
        ensures
            r == (self.status == ProposalStatus::Active),
    {
        self.status == ProposalStatus::Active
    }

    /// Whether the voting window is over at `now`.
    pub fn voting_ended(&self, now: i64) -> (r: bool)
        ensures
            r == (now > self.voting_ends_at),
    {
        now > self.voting_ends_at
    }

    /// Whether the votes in favour outnumber those against.
    pub fn passed(&self) -> (r: bool)
        ensures
            r == (self.votes_for > self.votes_against),
    {
        self.votes_for > self.votes_against
    }

    pub fn mark_executed(&mut self, now: i64)
        ensures
            *final(self) == executed(*old(self), now),
    {
        self.status = ProposalStatus::Executed;
        self.executed_at = Some(now);
    }

    pub fn mark_expired(&mut self)
        ensures
            *final(self) == (Proposal { status: ProposalStatus::Expired, ..*old(self) }),
    {
        self.status = ProposalStatus::Expired;
    }
}

/// The proposal after its execution at `now`.
pub open spec fn executed(p: Proposal, now: i64) -> Proposal {
    Proposal { status: ProposalStatus::Executed, executed_at: Some(now), ..p }
}

/// The default parameters under `authority`, as of `now`.
pub fn initialize_governance(authority: AccountKey, now: i64, bump: u8) -> (r: GovernanceState)
    ensures
        r.authority == authority,
        r.multipliers@ == seq![
            BRONZE_MULTIPLIER,
            SILVER_MULTIPLIER,
            GOLD_MULTIPLIER,
            PLATINUM_MULTIPLIER,
        ],
        r.staking_fee_bps == STAKING_FEE_BPS,
        r.unstaking_fee_bps == UNSTAKING_FEE_BPS,
        r.claim_fee_bps == CLAIM_FEE_BPS,
        r.proposal_duration == PROPOSAL_DURATION,
        r.quorum_threshold == QUORUM_THRESHOLD,
        r.last_updated == now,
        r.proposal_count == 0,
        r.bump == bump,
        r.wf(),
{
    let r = GovernanceState {
        authority,
        multipliers: [BRONZE_MULTIPLIER, SILVER_MULTIPLIER, GOLD_MULTIPLIER, PLATINUM_MULTIPLIER],
        staking_fee_bps: STAKING_FEE_BPS,
        unstaking_fee_bps: UNSTAKING_FEE_BPS,
        claim_fee_bps: CLAIM_FEE_BPS,
        proposal_duration: PROPOSAL_DURATION,
        quorum_threshold: QUORUM_THRESHOLD,
        last_updated: now,
        proposal_count: 0,
        bump,
    };
    assert(r.multipliers@ =~= seq![
        BRONZE_MULTIPLIER,
        SILVER_MULTIPLIER,
        GOLD_MULTIPLIER,
        PLATINUM_MULTIPLIER,
    ]);
    r
}

/// The multiplier table with the entry of tier `level` replaced.
fn with_multiplier(multipliers: [u64; 4], level: u8, multiplier: u64) -> (r: [u64; 4])
    requires
        level < 4,
    ensures
        r@ == multipliers@.update(level as int, multiplier),
{
    let r = [
        if level == 0 {
            multiplier
        } else {
            multipliers[0]
        },
        if level == 1 {
            multiplier
        } else {
            multipliers[1]
        },
        if level == 2 {
            multiplier
        } else {
            multipliers[2]
        },
        if level == 3 {
            multiplier
        } else {
            multipliers[3]
        },
    ];
    assert(r@ =~= multipliers@.update(level as int, multiplier));
    r
}

/// Sets the multiplier of tier `level` (0 Bronze to 3 Platinum). Only the
/// authority may do so, and the multiplier must lie in `(0, 10000]`.
pub fn set_multiplier(
    state: &mut GovernanceState,
    signer: &AccountKey,
    level: u8,
    multiplier: u64,
    now: i64,
) -> (r: Result<(), GovernanceError>)
    ensures
        !same_key(*signer, old(state).authority) ==> r == Err::<(), GovernanceError>(
            GovernanceError::InvalidAuthority,
        ),
        same_key(*signer, old(state).authority) && (level >= 4 || !multiplier_valid(
            multiplier as int,
        )) ==> r == Err::<(), GovernanceError>(GovernanceError::InvalidMultiplier),
        same_key(*signer, old(state).authority) && level < 4 && multiplier_valid(
            multiplier as int,
        ) ==> r is Ok,
        r is Ok ==> final(state).multipliers@ == old(state).multipliers@.update(
            level as int,
            multiplier,
        ) && *final(state) == (GovernanceState {
            multipliers: final(state).multipliers,
            last_updated: now,
            ..*old(state)
        }),
        r is Err ==> *final(state) == *old(state),
        old(state).wf() ==> final(state).wf(),
{
    if !signer.same_as(&state.authority) {
        return Err(GovernanceError::InvalidAuthority);
    }
    if level >= 4 || multiplier == 0 || multiplier > MAX_MULTIPLIER {
        return Err(GovernanceError::InvalidMultiplier);
    }
    state.multipliers = with_multiplier(state.multipliers, level, multiplier);
    state.last_updated = now;
    Ok(())
}

/// Opens a proposal at `now`, with the next id and no votes, until
/// `now + proposal_duration`.
pub fn propose_change(
    state: &mut GovernanceState,
    proposal_type: ProposalType,
    data: Vec<u8>,
    now: i64,
    bump: u8,
) -> (r: Result<Proposal, GovernanceError>)
    ensures
        old(state).proposal_count < u64::MAX && i64::MIN <= now + old(state).proposal_duration
            <= i64::MAX <==> r is Ok,
        r is Ok ==> r->Ok_0 == (Proposal {
            id: old(state).proposal_count,
            proposal_type,
            status: ProposalStatus::Active,
            data,
            created_at: now,
            voting_ends_at: (now + old(state).proposal_duration) as i64,
            executed_at: None,
            votes_for: 0,
            votes_against: 0,
            bump,
        }),
        r is Ok ==> *final(state) == (GovernanceState {
            proposal_count: (old(state).proposal_count + 1) as u64,
            ..*old(state)
        }),
        r is Err ==> r == Err::<Proposal, GovernanceError>(GovernanceError::Overflow),
        r is Err ==> *final(state) == *old(state),
{
    if state.proposal_count == u64::MAX {
        return Err(GovernanceError::Overflow);
    }
    let voting_ends_at = match now.checked_add(state.proposal_duration) {
        Some(v) => v,
        None => return Err(GovernanceError::Overflow),
    };
    let id = state.proposal_count;
    state.proposal_count = id + 1;
    Ok(
        Proposal {
            id,
            proposal_type,
            status: ProposalStatus::Active,
            data,
            created_at: now,
            voting_ends_at,
            executed_at: None,
            votes_for: 0,
            votes_against: 0,
            bump,
        },
    )
}

/// Outcome of a vote of `weight` at `now`.
pub open spec fn vote_result(p: Proposal, weight: u64, in_favor: bool, now: i64) -> Result<
    (),
    GovernanceError,
> {
    if p.status != ProposalStatus::Active {
        Err(GovernanceError::ProposalNotActive)
    } else if now > p.voting_ends_at {
        Err(GovernanceError::ProposalExpired)
    } else if (in_favor && p.votes_for + weight > u64::MAX) || (!in_favor && p.votes_against
        + weight > u64::MAX) {
        Err(GovernanceError::Overflow)
    } else {
        Ok(())
    }
}

/// The proposal after a vote of `weight`.
pub open spec fn voted(p: Proposal, weight: u64, in_favor: bool) -> Proposal {
    if in_favor {
        Proposal { votes_for: (p.votes_for + weight) as u64, ..p }
    } else {
        Proposal { votes_against: (p.votes_against + weight) as u64, ..p }
    }
}

/// Adds a vote of `weight` for or against an active proposal, while its
/// voting window is open.
pub fn cast_vote(proposal: &mut Proposal, weight: u64, in_favor: bool, now: i64) -> (r: Result<
    (),
    GovernanceError,
>)
    ensures
        r == vote_result(*old(proposal), weight, in_favor, now),
        r is Ok ==> *final(proposal) == voted(*old(proposal), weight, in_favor),
        r is Err ==> *final(proposal) == *old(proposal),
{
    if !proposal.is_active() {
        return Err(GovernanceError::ProposalNotActive);
    }
    if proposal.voting_ended(now) {
        return Err(GovernanceError::ProposalExpired);
    }
    if in_favor {
        match proposal.votes_for.checked_add(weight) {
            Some(v) => proposal.votes_for = v,
            None => return Err(GovernanceError::Overflow),
        }
    } else {
        match proposal.votes_against.checked_add(weight) {
            Some(v) => proposal.votes_against = v,
            None => return Err(GovernanceError::Overflow),
        }
    }
    Ok(())
}

/// A parameter change carried by a proposal.
#[derive(Clone, Copy, Debug, PartialEq, Eq, Structural)]
pub enum ConfigChange {
    /// Set the multiplier of one tier (0 Bronze to 3 Platinum).
    SetMultiplier { level: u8, multiplier: u64 },
    /// Set the three fees, in basis points.
    SetFees { staking_fee_bps: u64, unstaking_fee_bps: u64, claim_fee_bps: u64 },
    /// A proposal that changes no parameter.
    NoChange,
}

/// Bytes in the payload of a multiplier change: the tier, then the
/// multiplier as a little-endian `u64`.
pub const MULTIPLIER_PAYLOAD_LEN: usize = 9;

/// Bytes in the payload of a fee change: the staking, unstaking and claim
/// fees, each a little-endian `u64`.
pub const FEE_PAYLOAD_LEN: usize = 24;

/// The little-endian `u64` held by the eight bytes of `s` from `i` on.
pub open spec fn le_u64_at(s: Seq<u8>, i: int) -> int {
    s[i] + 256 * (s[i + 1] + 256 * (s[i + 2] + 256 * (s[i + 3] + 256 * (s[i + 4] + 256 * (s[i
        + 5] + 256 * (s[i + 6] + 256 * s[i + 7]))))))
}

/// The change that a payload describes, or why it is refused.
pub open spec fn decode_result(proposal_type: ProposalType, data: Seq<u8>) -> Result<
    ConfigChange,
    GovernanceError,
> {
    match proposal_type {
        ProposalType::MultiplierChange => if data.len() != 9 {
            Err(GovernanceError::InvalidProposalData)
        } else if data[0] >= 4 || !multiplier_valid(le_u64_at(data, 1)) {
            Err(GovernanceError::InvalidMultiplier)
        } else {
            Ok(ConfigChange::SetMultiplier { level: data[0], multiplier: le_u64_at(data, 1) as u64 })
        },
        ProposalType::FeeStructure => if data.len() != 24 {
            Err(GovernanceError::InvalidProposalData)
        } else if le_u64_at(data, 0) > 10000 || le_u64_at(data, 8) > 10000 || le_u64_at(data, 16)
            > 10000 {
            Err(GovernanceError::InvalidFeeStructure)
        } else {
            Ok(
                ConfigChange::SetFees {
                    staking_fee_bps: le_u64_at(data, 0) as u64,
                    unstaking_fee_bps: le_u64_at(data, 8) as u64,
                    claim_fee_bps: le_u64_at(data, 16) as u64,
                },
            )
        },
        _ => Ok(ConfigChange::NoChange),
    }
}

/// Whether a change keeps every multiplier and fee within bounds.
pub open spec fn change_valid(change: ConfigChange) -> bool {
    match change {
        ConfigChange::SetMultiplier { level, multiplier } => level < 4 && multiplier_valid(
            multiplier as int,
        ),
        ConfigChange::SetFees { staking_fee_bps, unstaking_fee_bps, claim_fee_bps } => {
            staking_fee_bps <= 10000 && unstaking_fee_bps <= 10000 && claim_fee_bps <= 10000
        },
        ConfigChange::NoChange => true,
    }
}

/// Whether `after` is `before` with `change` applied.
pub open spec fn change_applied(
    before: GovernanceState,
    after: GovernanceState,
    change: ConfigChange,
) -> bool {
    match change {
        ConfigChange::SetMultiplier { level, multiplier } => {
            &&& after.multipliers@ == before.multipliers@.update(level as int, multiplier)
            &&& after == GovernanceState { multipliers: after.multipliers, ..before }
        },
        ConfigChange::SetFees { staking_fee_bps, unstaking_fee_bps, claim_fee_bps } => {
            after == GovernanceState { staking_fee_bps, unstaking_fee_bps, claim_fee_bps, ..before }
        },
        ConfigChange::NoChange => after == before,
    }
}

/// Reads the little-endian `u64` held by `data[start..start + 8]`.
pub fn read_u64_le(data: &Vec<u8>, start: usize) -> (r: u64)
    requires
        start + 8 <= data@.len(),
    ensures
        r == le_u64_at(data@, start as int),
{
    let len = data.len();
    assert(start + 8 <= len);
    let mut v: u64 = data[start + 7] as u64;
    v = v * 256 + data[start + 6] as u64;
    v = v * 256 + data[start + 5] as u64;
    v = v * 256 + data[start + 4] as u64;
    v = v * 256 + data[start + 3] as u64;
    v = v * 256 + data[start + 2] as u64;
    v = v * 256 + data[start + 1] as u64;
    v = v * 256 + data[start] as u64;
    v
}

/// Decodes the payload of a proposal of type `proposal_type` and checks the
/// values it sets.
pub fn decode_change(proposal_type: ProposalType, data: &Vec<u8>) -> (r: Result<
    ConfigChange,
    GovernanceError,
>)
    ensures
        r == decode_result(proposal_type, data@),
        r is Ok ==> change_valid(r->Ok_0),
{
    match proposal_type {
        ProposalType::MultiplierChange => {
            if data.len() != MULTIPLIER_PAYLOAD_LEN {
                return Err(GovernanceError::InvalidProposalData);
            }
            let level = data[0];
            let multiplier = read_u64_le(data, 1);
            if level >= 4 || multiplier == 0 || multiplier > MAX_MULTIPLIER {
                return Err(GovernanceError::InvalidMultiplier);
            }
            Ok(ConfigChange::SetMultiplier { level, multiplier })
        },
        ProposalType::FeeStructure => {
            if data.len() != FEE_PAYLOAD_LEN {
                return Err(GovernanceError::InvalidProposalData);
            }
            let staking_fee_bps = read_u64_le(data, 0);
            let unstaking_fee_bps = read_u64_le(data, 8);
            let claim_fee_bps = read_u64_le(data, 16);
            if staking_fee_bps > MAX_FEE_BPS || unstaking_fee_bps > MAX_FEE_BPS || claim_fee_bps
                > MAX_FEE_BPS {
                return Err(GovernanceError::InvalidFeeStructure);
            }
            Ok(ConfigChange::SetFees { staking_fee_bps, unstaking_fee_bps, claim_fee_bps })
        },
        _ => Ok(ConfigChange::NoChange),
    }
}

/// Applies a decoded change to the parameters.
pub fn apply_change(state: &mut GovernanceState, change: ConfigChange)
    requires
        change matches ConfigChange::SetMultiplier { level, .. } ==> level < 4,
    ensures
        change_applied(*old(state), *final(state), change),
        old(state).wf() && change_valid(change) ==> final(state).wf(),
{
    match change {
        ConfigChange::SetMultiplier { level, multiplier } => {
            state.multipliers = with_multiplier(state.multipliers, level, multiplier);
        },
        ConfigChange::SetFees { staking_fee_bps, unstaking_fee_bps, claim_fee_bps } => {
            state.staking_fee_bps = staking_fee_bps;
            state.unstaking_fee_bps = unstaking_fee_bps;
            state.claim_fee_bps = claim_fee_bps;
        },
        ConfigChange::NoChange => {},
    }
}

/// Outcome of executing a proposal, by `signer` at `now`.
pub open spec fn execute_result(
    state: GovernanceState,
    p: Proposal,
    signer: AccountKey,
    now: i64,
) -> Result<(), GovernanceError> {
    if !same_key(signer, state.authority) {
        Err(GovernanceError::InvalidAuthority)
    } else if p.status != ProposalStatus::Active {
        Err(GovernanceError::ProposalNotActive)
    } else if now <= p.voting_ends_at {
        Err(GovernanceError::VotingPeriodNotEnded)
    } else if p.votes_for <= p.votes_against {
        Err(GovernanceError::InsufficientVotingPower)
    } else {
        match decode_result(p.proposal_type, p.data@) {
            Err(e) => Err(e),
            Ok(_) => Ok(()),
        }
    }
}

/// Executes an active proposal after its voting window, if the votes in
/// favour outnumber those against: its change is applied and it becomes
/// executed. Only the authority may execute.
pub fn execute_proposal(
    state: &mut GovernanceState,
    proposal: &mut Proposal,
    signer: &AccountKey,
    now: i64,
) -> (r: Result<(), GovernanceError>)
    ensures
        r == execute_result(*old(state), *old(proposal), *signer, now),
        r is Ok ==> {
            &&& decode_result(old(proposal).proposal_type, old(proposal).data@) is Ok
            &&& change_applied(
                *old(state),
                GovernanceState { last_updated: old(state).last_updated, ..*final(state) },
                decode_result(old(proposal).proposal_type, old(proposal).data@)->Ok_0,
            )
            &&& final(state).last_updated == now
            &&& *final(proposal) == executed(*old(proposal), now)
        },
        r is Err ==> *final(state) == *old(state) && *final(proposal) == *old(proposal),
        old(state).wf() ==> final(state).wf(),
{
    if !signer.same_as(&state.authority) {
        return Err(GovernanceError::InvalidAuthority);
    }
    if !proposal.is_active() {
        return Err(GovernanceError::ProposalNotActive);
    }
    if !proposal.voting_ended(now) {
        return Err(GovernanceError::VotingPeriodNotEnded);
    }
    if !proposal.passed() {
        return Err(GovernanceError::InsufficientVotingPower);
    }
    let change = decode_change(proposal.proposal_type, &proposal.data)?;
    apply_change(state, change);
    proposal.mark_executed(now);
    state.last_updated = now;
    Ok(())
}

/// Settles an active proposal whose voting window is over without a
/// majority in favour: it becomes rejected. Returns whether it did.
pub fn resolve_proposal(proposal: &mut Proposal, now: i64) -> (r: bool)
    ensures
        r == (old(proposal).status == ProposalStatus::Active && now > old(proposal).voting_ends_at
            && old(proposal).votes_for <= old(proposal).votes_against),
        r ==> *final(proposal) == (Proposal { status: ProposalStatus::Rejected, ..*old(proposal) }),
        !r ==> *final(proposal) == *old(proposal),
{
    if proposal.is_active() && proposal.voting_ended(now) && !proposal.passed() {
        proposal.status = ProposalStatus::Rejected;
        true
    } else {
        false
    }
}

/// Votes are refused once the voting window is over, and an active proposal
/// cannot be executed by the authority before it is over.
pub proof fn lemma_voting_window(
    state: GovernanceState,
    p: Proposal,
    signer: AccountKey,
    weight: u64,
    in_favor: bool,
    now: i64,
)
    ensures
        now > p.voting_ends_at ==> vote_result(p, weight, in_favor, now) is Err,
        same_key(signer, state.authority) && p.status == ProposalStatus::Active && now
            <= p.voting_ends_at ==> execute_result(state, p, signer, now) == Err::<
            (),
            GovernanceError,
        >(GovernanceError::VotingPeriodNotEnded),
{
}

/// Once the voting window of an active proposal is over, its execution by the
/// authority fails with `InsufficientVotingPower` unless the votes in favour
/// outnumber those against; with such a majority and a valid payload it
/// succeeds, and the proposal becomes executed.
pub proof fn lemma_execute_majority(
    state: GovernanceState,
    p: Proposal,
    signer: AccountKey,
    now: i64,
)
    requires
        same_key(signer, state.authority),
        p.status == ProposalStatus::Active,
        now > p.voting_ends_at,
    ensures
        p.votes_for <= p.votes_against ==> execute_result(state, p, signer, now) == Err::<
            (),
            GovernanceError,
        >(GovernanceError::InsufficientVotingPower),
        p.votes_for > p.votes_against && decode_result(p.proposal_type, p.data@) is Ok ==> {
            &&& execute_result(state, p, signer, now) is Ok
            &&& executed(p, now).status == ProposalStatus::Executed
        },
{
}

/// Carries the governance multipliers over to the staking pool, whose claims
/// read them.
pub fn apply_to_pool(pool: &mut StakingState, state: &GovernanceState)
    ensures
        final(pool).multipliers == state.multipliers,
        *final(pool) == (StakingState { multipliers: state.multipliers, ..*old(pool) }),
{
    pool.multipliers = state.multipliers;
}

} // verus!
