use vstd::prelude::*;
use vstd::string::StrSliceExecFns;

use crate::distribution::{
    calculate_achievement_rewards, calculate_equal_share_rewards, calculate_performance_rewards,
    calculate_random_rewards, calculate_staking_rewards, reward_for, DistributionType,
    PerformanceData,
};
use crate::identity::Identity;

verus! {

pub const MAX_POOL_NAME_LEN: usize = 50;

pub const MAX_ACHIEVEMENT_RECORDS: usize = 100;

/// The kind of asset a pool pays out.
#[derive(Clone, Copy, PartialEq, Eq, Structural, Debug)]
pub enum RewardType {
    SOL,
    SplToken,
    NFT,
}

/// The asset that a settlement moves.
#[derive(Clone, Copy, PartialEq, Eq, Structural, Debug)]
pub enum Asset {
    Native,
    Token,
}

/// A movement of value that the settlement layer must carry out for an
/// operation to take effect. Where it comes from and where it goes follow from
/// the operation: funding moves into the pool's vault, a claim from the vault
/// to the user, a close from the vault back to the authority. If the
/// settlement fails, the operation's changes are dropped with it.
#[derive(Clone, Copy, PartialEq, Eq, Structural, Debug)]
pub struct Transfer {
    pub asset: Asset,
    pub amount: u64,
}

/// A reward pool and what it has paid out.
#[derive(Clone, Debug)]
pub struct RewardPool {
    pub id: u64,
    pub authority: Identity,
    pub name: String,
    pub total_rewards: u64,
    pub distributed_rewards: u64,
    pub reward_type: RewardType,
    pub token_mint: Option<Identity>,
    pub distribution_criteria: DistributionType,
    pub start_time: i64,
    pub end_time: i64,
    pub active: bool,
    /// How many participants an equal share is split over; set by the
    /// authority when the pool is opened.
    pub eligible_participants: u64,
}

/// What one user is owed by one pool, and what has been paid.
///
/// A record whose `pool` is the zero identity has not been written yet.
#[derive(Clone, Copy, PartialEq, Eq, Structural, Debug)]
pub struct UserClaim {
    pub pool: Identity,
    pub user: Identity,
    pub amount_claimed: u64,
    pub last_claim_time: i64,
    pub total_eligible: u64,
}

/// The holding that keeps a pool's funds.
#[derive(Clone, Copy, PartialEq, Eq, Structural, Debug)]
pub struct RewardVault {
    pub pool: Identity,
}

/// What an authority hands in to open a pool.
#[derive(Clone, Debug)]
pub struct CreateRewardPoolData {
    pub id: u64,
    pub name: String,
    pub total_rewards: u64,
    pub reward_type: RewardType,
    pub token_mint: Option<Identity>,
    pub distribution_criteria: DistributionType,
    pub start_time: i64,
    pub end_time: i64,
    pub eligible_participants: u64,
}

/// An achievement record as an outside verifier reports it.
#[derive(Clone, Debug)]
pub struct Achievement {
    pub id: String,
    pub name: String,
    pub description: String,
    pub points: u32,
    pub timestamp: i64,
    pub verified: bool,
}

/// A profile's achievements as an outside verifier reports them.
#[derive(Clone, Debug)]
pub struct HoneycombAchievementData {
    pub profile_owner: Identity,
    pub achievements: Vec<Achievement>,
    pub total_score: u64,
    pub completion_rate: u32,
}

#[derive(Clone, Copy, PartialEq, Eq, Structural, Debug)]
pub enum RewardDistributorError {
    PoolNotFound,
    InsufficientPoolFunds,
    ClaimPeriodEnded,
    AlreadyClaimed,
    InvalidPerformanceData,
    InvalidPoolName,
    InvalidStartTime,
    InvalidEndTime,
    InvalidRewardAmount,
    MissingTokenMint,
    NFTFundingUnsupported,
    PoolNotActive,
    ClaimPeriodNotStarted,
    InvalidClaimRecord,
    NothingToClaim,
    NFTClaimUnsupported,
    UnauthorizedAuthority,
    CannotUpdateActivePool,
    PoolStillActive,
    InvalidHoneycombProfile,
    TooManyAchievements,
    InvalidAchievementData,
    NoEligibleParticipants,
}

/// The asset a pool of `t` settles in, if it settles at all.
pub open spec fn settlement_asset(t: RewardType) -> Option<Asset> {
    match t {
        RewardType::SOL => Some(Asset::Native),
        RewardType::SplToken => Some(Asset::Token),
        RewardType::NFT => None,
    }
}

fn asset_of(t: RewardType) -> (r: Option<Asset>)
    ensures
        r == settlement_asset(t),
{
    match t {
        RewardType::SOL => Some(Asset::Native),
        RewardType::SplToken => Some(Asset::Token),
        RewardType::NFT => None,
    }
}

impl RewardPool {
    /// Never more paid out than put in, and a window that is not empty.
    pub open spec fn wf(&self) -> bool {
        &&& self.distributed_rewards <= self.total_rewards
        &&& self.start_time < self.end_time
    }

    pub fn is_consistent(&self) -> (r: bool)
        ensures
            r == self.wf(),
    {
        self.distributed_rewards <= self.total_rewards && self.start_time < self.end_time
    }

    pub open spec fn in_window(&self, now: i64) -> bool {
        self.start_time <= now <= self.end_time
    }
}

impl UserClaim {
    /// Never more paid than owed.
    pub open spec fn wf(&self) -> bool {
        self.amount_claimed <= self.total_eligible
    }

    /// What is owed and not yet paid.
    pub open spec fn claimable(&self) -> nat {
        if self.total_eligible > self.amount_claimed {
            (self.total_eligible - self.amount_claimed) as nat
        } else {
            0
        }
    }

    pub open spec fn is_unwritten(&self) -> bool {
        self.pool == Identity::spec_zero()
    }
}

/// The error with which opening a pool from `d` fails at time `now`, if any,
/// in the order the checks are made.
pub open spec fn creation_error(d: CreateRewardPoolData, initial_funding: u64, now: i64) -> Option<
    RewardDistributorError,
> {
    if d.name@.len() > MAX_POOL_NAME_LEN {
        Some(RewardDistributorError::InvalidPoolName)
    } else if d.start_time <= now {
        Some(RewardDistributorError::InvalidStartTime)
    } else if d.end_time <= d.start_time {
        Some(RewardDistributorError::InvalidEndTime)
    } else if d.total_rewards == 0 {
        Some(RewardDistributorError::InvalidRewardAmount)
    } else if initial_funding > 0 && d.reward_type == RewardType::SplToken && d.token_mint is None {
        Some(RewardDistributorError::MissingTokenMint)
    } else if initial_funding > 0 && d.reward_type == RewardType::NFT {
        Some(RewardDistributorError::NFTFundingUnsupported)
    } else {
        None
    }
}

/// Opens a pool described by `pool_data` under `authority`, at time `now`.
///
/// The name must fit, the window must open after `now` and close after it
/// opens, and the pool must promise some reward. A positive initial funding
/// is returned as a transfer into the vault; a token pool needs its mint for
/// that, and a non-fungible pool cannot be funded this way.
pub fn create_reward_pool(
    authority: Identity,
    pool_data: CreateRewardPoolData,
    initial_funding: u64,
    now: i64,
) -> (r: Result<(RewardPool, Option<Transfer>), RewardDistributorError>)
    ensures
        match creation_error(pool_data, initial_funding, now) {
            Some(e) => r == Err::<(RewardPool, Option<Transfer>), RewardDistributorError>(e),
            None => r is Ok,
        },
        r is Ok ==> {
            let (pool, funding) = r->Ok_0;
            &&& pool.wf()
            &&& pool.id == pool_data.id
            &&& pool.authority == authority
            &&& pool.name == pool_data.name
            &&& pool.total_rewards == pool_data.total_rewards
            &&& pool.distributed_rewards == 0
            &&& pool.reward_type == pool_data.reward_type
            &&& pool.token_mint == pool_data.token_mint
            &&& pool.distribution_criteria == pool_data.distribution_criteria
            &&& pool.start_time == pool_data.start_time
            &&& pool.end_time == pool_data.end_time
            &&& pool.active
            &&& pool.eligible_participants == pool_data.eligible_participants
            &&& funding == if initial_funding > 0 {
                Some(
                    Transfer {
                        asset: settlement_asset(pool_data.reward_type)->Some_0,
                        amount: initial_funding,
                    },
                )
            } else {
                None
            }
        },
{
    if pool_data.name.as_str().unicode_len() > MAX_POOL_NAME_LEN {
        return Err(RewardDistributorError::InvalidPoolName);
    }
    if pool_data.start_time <= now {
        return Err(RewardDistributorError::InvalidStartTime);
    }
    if pool_data.end_time <= pool_data.start_time {
        return Err(RewardDistributorError::InvalidEndTime);
    }
    if pool_data.total_rewards == 0 {
        return Err(RewardDistributorError::InvalidRewardAmount);
    }
    let funding = if initial_funding > 0 {
        match pool_data.reward_type {
            RewardType::SOL => Some(Transfer { asset: Asset::Native, amount: initial_funding }),
            RewardType::SplToken => {
                if pool_data.token_mint.is_none() {
                    return Err(RewardDistributorError::MissingTokenMint);
                }
                Some(Transfer { asset: Asset::Token, amount: initial_funding })
            },
            RewardType::NFT => {
                return Err(RewardDistributorError::NFTFundingUnsupported);
            },
        }
    } else {
        None
    };
    let pool = RewardPool {
        id: pool_data.id,
        authority,
        name: pool_data.name,
        total_rewards: pool_data.total_rewards,
        distributed_rewards: 0,
        reward_type: pool_data.reward_type,
        token_mint: pool_data.token_mint,
        distribution_criteria: pool_data.distribution_criteria,
        start_time: pool_data.start_time,
        end_time: pool_data.end_time,
        active: true,
        eligible_participants: pool_data.eligible_participants,
    };
    Ok((pool, funding))
}

/// The error with which funding `pool` with `amount` fails, if any.
pub open spec fn funding_error(pool: RewardPool, pool_id: u64, amount: u64) -> Option<
    RewardDistributorError,
> {
    if pool.id != pool_id {
        Some(RewardDistributorError::PoolNotFound)
    } else if !pool.active {
        Some(RewardDistributorError::PoolNotActive)
    } else if amount == 0 {
        Some(RewardDistributorError::InvalidRewardAmount)
    } else if pool.reward_type == RewardType::NFT {
        Some(RewardDistributorError::NFTFundingUnsupported)
    } else if pool.total_rewards + amount > u64::MAX {
        Some(RewardDistributorError::InvalidRewardAmount)
    } else {
        None
    }
}

/// Adds `amount` to an active pool's rewards, returned as a transfer into its
/// vault. An amount that would carry the pool's total past the largest `u64`
/// is refused as `InvalidRewardAmount`.
pub fn fund_reward_pool(pool: &mut RewardPool, pool_id: u64, amount: u64) -> (r: Result<
    Transfer,
    RewardDistributorError,
>)
    requires
        old(pool).wf(),
    ensures
        final(pool).wf(),
        match funding_error(*old(pool), pool_id, amount) {
            Some(e) => r == Err::<Transfer, RewardDistributorError>(e) && *final(pool) == *old(
                pool),
            None => r == Ok::<Transfer, RewardDistributorError>(
                Transfer { asset: settlement_asset(old(pool).reward_type)->Some_0, amount },
            ) && *final(pool) == (RewardPool {
                total_rewards: (old(pool).total_rewards + amount) as u64,
                ..*old(pool)
            }),
        },
{
    if pool.id != pool_id {
        return Err(RewardDistributorError::PoolNotFound);
    }
    if !pool.active {
        return Err(RewardDistributorError::PoolNotActive);
    }
    if amount == 0 {
        return Err(RewardDistributorError::InvalidRewardAmount);
    }
    let asset = match asset_of(pool.reward_type) {
        Some(a) => a,
        None => {
            return Err(RewardDistributorError::NFTFundingUnsupported);
        },
    };
    if amount > u64::MAX - pool.total_rewards {
        return Err(RewardDistributorError::InvalidRewardAmount);
    }
    pool.total_rewards = pool.total_rewards + amount;
    Ok(Transfer { asset, amount })
}

/// The error with which computing a user's reward from `pool` fails at time
/// `now`, if any, in the order the checks are made.
pub open spec fn calculation_error(
    pool: RewardPool,
    pool_id: u64,
    performance_data: PerformanceData,
    now: i64,
) -> Option<RewardDistributorError> {
    if pool.id != pool_id {
        Some(RewardDistributorError::PoolNotFound)
    } else if !pool.active {
        Some(RewardDistributorError::PoolNotActive)
    } else if now < pool.start_time {
        Some(RewardDistributorError::ClaimPeriodNotStarted)
    } else if now > pool.end_time {
        Some(RewardDistributorError::ClaimPeriodEnded)
    } else if !performance_data.valid() {
        Some(RewardDistributorError::InvalidPerformanceData)
    } else if pool.distribution_criteria == DistributionType::EqualShare
        && pool.eligible_participants == 0 {
        Some(RewardDistributorError::NoEligibleParticipants)
    } else {
        None
    }
}

/// The claim record after `reward` is computed for `user` on the pool at
/// `pool_key`: an unwritten record is started with nothing claimed; a written
/// one has its eligible amount replaced, but never lowered under what has
/// already been claimed.
pub open spec fn eligibility_recorded(
    claim: UserClaim,
    pool_key: Identity,
    user: Identity,
    reward: u64,
) -> UserClaim {
    if claim.is_unwritten() {
        UserClaim {
            pool: pool_key,
            user,
            amount_claimed: 0,
            last_claim_time: 0,
            total_eligible: reward,
        }
    } else {
        UserClaim {
            total_eligible: if reward >= claim.amount_claimed {
                reward
            } else {
                claim.amount_claimed
            },
            ..claim
        }
    }
}

/// Computes what `user` is eligible for from the pool at `pool_key`, and
/// records it in the user's claim record.
///
/// The pool must carry `pool_id`, be active, and `now` must lie in its
/// window; the performance data must be valid. The reward follows the pool's
/// distribution criteria; an equal share is the pool's rewards split over the
/// pool's `eligible_participants`, which must then be positive. The computed reward
/// is returned as it is, while the record keeps at least what was already
/// claimed.
pub fn calculate_user_rewards(
    pool: &RewardPool,
    pool_key: Identity,
    user: Identity,
    user_claim: &mut UserClaim,
    pool_id: u64,
    performance_data: &PerformanceData,
    now: i64,
) -> (r: Result<u64, RewardDistributorError>)
    ensures
        match calculation_error(*pool, pool_id, *performance_data, now) {
            Some(e) => r == Err::<u64, RewardDistributorError>(e) && *final(user_claim) == *old(
                user_claim),
            None => r is Ok && r->Ok_0 == reward_for(
                pool.distribution_criteria,
                pool.total_rewards,
                *performance_data,
                pool.eligible_participants,
            ) && *final(user_claim) == eligibility_recorded(
                *old(user_claim),
                pool_key,
                user,
                r->Ok_0,
            ),
        },
        r is Ok ==> final(user_claim).wf(),
{
    if pool.id != pool_id {
        return Err(RewardDistributorError::PoolNotFound);
    }
    if !pool.active {
        return Err(RewardDistributorError::PoolNotActive);
    }
    if now < pool.start_time {
        return Err(RewardDistributorError::ClaimPeriodNotStarted);
    }
    if now > pool.end_time {
        return Err(RewardDistributorError::ClaimPeriodEnded);
    }
    if !performance_data.validate() {
        return Err(RewardDistributorError::InvalidPerformanceData);
    }
    let calculated_reward: u64 = match pool.distribution_criteria {
        DistributionType::EqualShare => {
            if pool.eligible_participants == 0 {
                return Err(RewardDistributorError::NoEligibleParticipants);
            }
            calculate_equal_share_rewards(pool.total_rewards, pool.eligible_participants)
        },
        DistributionType::PerformanceBased => calculate_performance_rewards(
            pool.total_rewards,
            performance_data,
        ),
        DistributionType::StakingRewards => calculate_staking_rewards(
            pool.total_rewards,
            performance_data,
        ),
        DistributionType::AchievementBased => calculate_achievement_rewards(
            pool.total_rewards,
            performance_data,
        ),
        DistributionType::RandomDrop => calculate_random_rewards(
            pool.total_rewards,
            performance_data,
        ),
    };
    if user_claim.pool.is_zero() {
        *user_claim =
        UserClaim {
            pool: pool_key,
            user,
            amount_claimed: 0,
            last_claim_time: 0,
            total_eligible: calculated_reward,
        };
    } else if calculated_reward >= user_claim.amount_claimed {
        user_claim.total_eligible = calculated_reward;
    } else {
        user_claim.total_eligible = user_claim.amount_claimed;
    }
    Ok(calculated_reward)
}

/// The error with which a claim on `pool` fails at time `now`, if any, in the
/// order the checks are made.
pub open spec fn claim_error(
    pool: RewardPool,
    pool_key: Identity,
    claim: UserClaim,
    pool_id: u64,
    now: i64,
) -> Option<RewardDistributorError> {
    if pool.id != pool_id {
        Some(RewardDistributorError::PoolNotFound)
    } else if !pool.active {
        Some(RewardDistributorError::PoolNotActive)
    } else if claim.pool != pool_key {
        Some(RewardDistributorError::InvalidClaimRecord)
    } else if now < pool.start_time {
        Some(RewardDistributorError::ClaimPeriodNotStarted)
    } else if now > pool.end_time {
        Some(RewardDistributorError::ClaimPeriodEnded)
    } else if claim.claimable() == 0 {
        Some(RewardDistributorError::NothingToClaim)
    } else if pool.total_rewards < pool.distributed_rewards + claim.claimable() {
        Some(RewardDistributorError::InsufficientPoolFunds)
    } else if pool.reward_type == RewardType::NFT {
        Some(RewardDistributorError::NFTClaimUnsupported)
    } else {
        None
    }
}

/// The pool after `claim` is paid out.
pub open spec fn pool_after_claim(pool: RewardPool, claim: UserClaim) -> RewardPool {
    RewardPool { distributed_rewards: (pool.distributed_rewards + claim.claimable()) as u64, ..pool }
}

/// The claim record after it is paid out at time `now`.
pub open spec fn claim_after_payment(claim: UserClaim, now: i64) -> UserClaim {
    UserClaim { amount_claimed: claim.total_eligible, last_claim_time: now, ..claim }
}

/// Pays a user what their claim record owes and has not been paid.
///
/// The pool must carry `pool_id` and be active, the record must belong to the
/// pool at `pool_key`, `now` must lie in the pool's window, something must be
/// owed, the pool must hold enough undistributed rewards, and the pool must
/// settle in a fungible asset. On success the whole outstanding amount is
/// returned as a transfer from the vault to the user, and both records count
/// it as paid.
pub fn claim_rewards(
    pool: &mut RewardPool,
    pool_key: Identity,
    user_claim: &mut UserClaim,
    pool_id: u64,
    now: i64,
) -> (r: Result<Transfer, RewardDistributorError>)
    requires
        old(pool).wf(),
    ensures
        final(pool).wf(),
        match claim_error(*old(pool), pool_key, *old(user_claim), pool_id, now) {
            Some(e) => r == Err::<Transfer, RewardDistributorError>(e) && *final(pool) == *old(pool)
                && *final(user_claim) == *old(user_claim),
            None => r == Ok::<Transfer, RewardDistributorError>(
                Transfer {
                    asset: settlement_asset(old(pool).reward_type)->Some_0,
                    amount: old(user_claim).claimable() as u64,
                },
            ) && *final(pool) == pool_after_claim(*old(pool), *old(user_claim)) && *final(
                user_claim) == claim_after_payment(*old(user_claim), now),
        },
        r is Ok ==> final(user_claim).wf(),
{
    if pool.id != pool_id {
        return Err(RewardDistributorError::PoolNotFound);
    }
    if !pool.active {
        return Err(RewardDistributorError::PoolNotActive);
    }
    if user_claim.pool != pool_key {
        return Err(RewardDistributorError::InvalidClaimRecord);
    }
    if now < pool.start_time {
        return Err(RewardDistributorError::ClaimPeriodNotStarted);
    }
    if now > pool.end_time {
        return Err(RewardDistributorError::ClaimPeriodEnded);
    }
    if user_claim.total_eligible <= user_claim.amount_claimed {
        return Err(RewardDistributorError::NothingToClaim);
    }
    let claimable_amount: u64 = user_claim.total_eligible - user_claim.amount_claimed;
    if claimable_amount > pool.total_rewards - pool.distributed_rewards {
        return Err(RewardDistributorError::InsufficientPoolFunds);
    }
    let asset = match asset_of(pool.reward_type) {
        Some(a) => a,
        None => {
            return Err(RewardDistributorError::NFTClaimUnsupported);
        },
    };
    user_claim.amount_claimed = user_claim.total_eligible;
    user_claim.last_claim_time = now;
    pool.distributed_rewards = pool.distributed_rewards + claimable_amount;
    Ok(Transfer { asset, amount: claimable_amount })
}

/// Computing a user's reward twice in a row with the same inputs leaves the
/// same eligible amount as computing it once.
pub proof fn lemma_calculation_idempotent(
    pool: RewardPool,
    pool_key: Identity,
    user: Identity,
    claim: UserClaim,
    pool_id: u64,
    performance_data: PerformanceData,
    now: i64,
)
    requires
        calculation_error(pool, pool_id, performance_data, now) is None,
        0 <= reward_for(
            pool.distribution_criteria,
            pool.total_rewards,
            performance_data,
            pool.eligible_participants,
        ) <= u64::MAX,
    ensures
        ({
            let reward = reward_for(
                pool.distribution_criteria,
                pool.total_rewards,
                performance_data,
                pool.eligible_participants,
            ) as u64;
            let once = eligibility_recorded(claim, pool_key, user, reward);
            let twice = eligibility_recorded(once, pool_key, user, reward);
            twice.total_eligible == once.total_eligible
        }),
{
}

/// A claim, whether it pays or fails, never changes what the user is
/// eligible for.
pub proof fn lemma_claim_keeps_eligibility(claim: UserClaim, now: i64)
    ensures
        claim_after_payment(claim, now).total_eligible == claim.total_eligible,
{
}

/// Once a claim has been paid, a second claim on the same pool within its
/// window, with no new eligibility computed in between, fails with
/// `NothingToClaim`.
pub proof fn lemma_no_double_claim(
    pool: RewardPool,
    pool_key: Identity,
    claim: UserClaim,
    pool_id: u64,
    now: i64,
    later: i64,
)
    requires
        claim_error(pool, pool_key, claim, pool_id, now) is None,
        pool.in_window(later),
    ensures
        claim_error(
            pool_after_claim(pool, claim),
            pool_key,
            claim_after_payment(claim, now),
            pool_id,
            later,
        ) == Some(RewardDistributorError::NothingToClaim),
{
}

/// Changes how a pool shares out its rewards, on its authority's request,
/// before its window opens.
pub fn update_distribution_criteria(
    pool: &mut RewardPool,
    pool_id: u64,
    authority: Identity,
    new_criteria: DistributionType,
    now: i64,
) -> (r: Result<(), RewardDistributorError>)
    requires
        old(pool).wf(),
    ensures
        final(pool).wf(),
        old(pool).id != pool_id ==> r == Err::<(), RewardDistributorError>(
            RewardDistributorError::PoolNotFound,
        ),
        old(pool).id == pool_id && old(pool).authority != authority ==> r == Err::<
            (),
            RewardDistributorError,
        >(RewardDistributorError::UnauthorizedAuthority),
        old(pool).id == pool_id && old(pool).authority == authority && now >= old(pool).start_time
            ==> r == Err::<(), RewardDistributorError>(
            RewardDistributorError::CannotUpdateActivePool,
        ),
        r is Ok <==> old(pool).id == pool_id && old(pool).authority == authority && now < old(
            pool).start_time,
        r is Ok ==> *final(pool) == (RewardPool {
            distribution_criteria: new_criteria,
            ..*old(pool)
        }),
        r is Err ==> *final(pool) == *old(pool),
{
    if pool.id != pool_id {
        return Err(RewardDistributorError::PoolNotFound);
    }
    if pool.authority != authority {
        return Err(RewardDistributorError::UnauthorizedAuthority);
    }
    if now >= pool.start_time {
        return Err(RewardDistributorError::CannotUpdateActivePool);
    }
    pool.distribution_criteria = new_criteria;
    Ok(())
}

/// Closes a pool for good once its window has passed, on its authority's
/// request.
///
/// Fails `PoolNotFound`, `UnauthorizedAuthority`, `PoolStillActive` while the
/// window is open, and `PoolNotActive` once the pool is closed, so that its
/// funds go back once only. What was put in and not paid out is returned as a
/// transfer from the vault back to the authority, if there is any and the
/// pool settles in a fungible asset.
pub fn close_reward_pool(pool: &mut RewardPool, pool_id: u64, authority: Identity, now: i64) -> (r:
    Result<Option<Transfer>, RewardDistributorError>)
    requires
        old(pool).wf(),
    ensures
        final(pool).wf(),
        old(pool).id != pool_id ==> r == Err::<Option<Transfer>, RewardDistributorError>(
            RewardDistributorError::PoolNotFound,
        ),
        old(pool).id == pool_id && old(pool).authority != authority ==> r == Err::<
            Option<Transfer>,
            RewardDistributorError,
        >(RewardDistributorError::UnauthorizedAuthority),
        old(pool).id == pool_id && old(pool).authority == authority && now <= old(pool).end_time
            ==> r == Err::<Option<Transfer>, RewardDistributorError>(
            RewardDistributorError::PoolStillActive,
        ),
        old(pool).id == pool_id && old(pool).authority == authority && now > old(pool).end_time
            && !old(pool).active ==> r == Err::<Option<Transfer>, RewardDistributorError>(
            RewardDistributorError::PoolNotActive,
        ),
        r is Ok <==> old(pool).id == pool_id && old(pool).authority == authority && now > old(
            pool).end_time && old(pool).active,
        r is Ok ==> *final(pool) == (RewardPool { active: false, ..*old(pool) }) && r->Ok_0 == {
            let remaining = old(pool).total_rewards - old(pool).distributed_rewards;
            if remaining > 0 && settlement_asset(old(pool).reward_type) is Some {
                Some(
                    Transfer {
                        asset: settlement_asset(old(pool).reward_type)->Some_0,
                        amount: remaining as u64,
                    },
                )
            } else {
                None
            }
        },
        r is Err ==> *final(pool) == *old(pool),
{
    if pool.id != pool_id {
        return Err(RewardDistributorError::PoolNotFound);
    }
    if pool.authority != authority {
        return Err(RewardDistributorError::UnauthorizedAuthority);
    }
    if now <= pool.end_time {
        return Err(RewardDistributorError::PoolStillActive);
    }
    if !pool.active {
        return Err(RewardDistributorError::PoolNotActive);
    }
    let remaining_funds: u64 = pool.total_rewards - pool.distributed_rewards;
    let refund = if remaining_funds > 0 {
        match asset_of(pool.reward_type) {
            Some(asset) => Some(Transfer { asset, amount: remaining_funds }),
            None => None,
        }
    } else {
        None
    };
    pool.active = false;
    Ok(refund)
}

/// What a user's claim record on the pool still owes: nothing for an
/// unwritten record.
pub fn get_claimable_amount(pool: &RewardPool, pool_id: u64, user_claim: &UserClaim) -> (r: Result<
    u64,
    RewardDistributorError,
>)
    ensures
        pool.id != pool_id ==> r == Err::<u64, RewardDistributorError>(
            RewardDistributorError::PoolNotFound,
        ),
        pool.id == pool_id && user_claim.is_unwritten() ==> r == Ok::<u64, RewardDistributorError>(
            0,
        ),
        pool.id == pool_id && !user_claim.is_unwritten() ==> r == Ok::<u64, RewardDistributorError>(
            user_claim.claimable() as u64,
        ),
{
    if pool.id != pool_id {
        return Err(RewardDistributorError::PoolNotFound);
    }
    if user_claim.pool.is_zero() {
        return Ok(0);
    }
    if user_claim.total_eligible > user_claim.amount_claimed {
        Ok(user_claim.total_eligible - user_claim.amount_claimed)
    } else {
        Ok(0)
    }
}

/// The error with which a verifier's report on a profile is refused, if any:
/// it must be about `profile`, hold at most a hundred records, and give each
/// a positive timestamp.
pub open spec fn achievement_error(data: HoneycombAchievementData, profile: Identity) -> Option<
    RewardDistributorError,
> {
    if data.profile_owner != profile {
        Some(RewardDistributorError::InvalidHoneycombProfile)
    } else if data.achievements@.len() > MAX_ACHIEVEMENT_RECORDS {
        Some(RewardDistributorError::TooManyAchievements)
    } else if exists|i: int|
        0 <= i < data.achievements@.len() && #[trigger] data.achievements@[i].timestamp <= 0 {
        Some(RewardDistributorError::InvalidAchievementData)
    } else {
        None
    }
}

/// Checks a verifier's report on `profile`; a report that passes is valid.
pub fn verify_honeycomb_data(achievement_data: &HoneycombAchievementData, profile: Identity) -> (r:
    Result<bool, RewardDistributorError>)
    ensures
        match achievement_error(*achievement_data, profile) {
            Some(e) => r == Err::<bool, RewardDistributorError>(e),
            None => r == Ok::<bool, RewardDistributorError>(true),
        },
{
    if achievement_data.profile_owner != profile {
        return Err(RewardDistributorError::InvalidHoneycombProfile);
    }
    if achievement_data.achievements.len() > MAX_ACHIEVEMENT_RECORDS {
        return Err(RewardDistributorError::TooManyAchievements);
    }
    let mut i: usize = 0;
    while i < achievement_data.achievements.len()
        invariant
            0 <= i <= achievement_data.achievements@.len(),
            achievement_data.achievements@.len() <= MAX_ACHIEVEMENT_RECORDS,
            achievement_data.profile_owner == profile,
            forall|j: int| 0 <= j < i ==> #[trigger] achievement_data.achievements@[j].timestamp > 0,
        decreases achievement_data.achievements@.len() - i,
    {
        if achievement_data.achievements[i].timestamp <= 0 {
            assert(achievement_data.achievements@[i as int].timestamp <= 0);
            return Err(RewardDistributorError::InvalidAchievementData);
        }
        i += 1;
    }
    Ok(true)
}

/// Checks a verifier's report on `profile` for the pool that carries
/// `pool_id`.
pub fn verify_honeycomb_achievements(
    pool: &RewardPool,
    pool_id: u64,
    profile: Identity,
    achievement_data: &HoneycombAchievementData,
) -> (r: Result<bool, RewardDistributorError>)
    ensures
        pool.id != pool_id ==> r == Err::<bool, RewardDistributorError>(
            RewardDistributorError::PoolNotFound,
        ),
        pool.id == pool_id ==> match achievement_error(*achievement_data, profile) {
            Some(e) => r == Err::<bool, RewardDistributorError>(e),
            None => r == Ok::<bool, RewardDistributorError>(true),
        },
{
    if pool.id != pool_id {
        return Err(RewardDistributorError::PoolNotFound);
    }
    verify_honeycomb_data(achievement_data, profile)
}

/// A fresh vault for the pool at `pool`.
pub fn new_reward_vault(pool: Identity) -> (r: RewardVault)
    ensures
        r.pool == pool,
{
    RewardVault { pool }
}

} // verus!
