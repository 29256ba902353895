use triviacomb::distribution::{
    calculate_achievement_rewards, calculate_equal_share_rewards, calculate_performance_rewards,
    calculate_random_rewards, calculate_staking_rewards, DistributionType, PerformanceData,
};
use triviacomb::identity::Identity;
use triviacomb::rewards::{
    calculate_user_rewards, claim_rewards, close_reward_pool, create_reward_pool,
    fund_reward_pool, get_claimable_amount, new_reward_vault, update_distribution_criteria,
    verify_honeycomb_achievements, verify_honeycomb_data, Achievement, Asset,
    CreateRewardPoolData, HoneycombAchievementData, RewardDistributorError, RewardPool,
    RewardType, Transfer, UserClaim,
};

const NOW: i64 = 1_000;
const START: i64 = 2_000;
const END: i64 = 9_000;

fn key(n: u128) -> Identity {
    Identity::new(0, n)
}

fn pool_key() -> Identity {
    Identity::new(7, 7)
}

fn unwritten_claim() -> UserClaim {
    UserClaim {
        pool: Identity::zero(),
        user: Identity::zero(),
        amount_claimed: 0,
        last_claim_time: 0,
        total_eligible: 0,
    }
}

fn pool_data(total: u64, reward_type: RewardType, criteria: DistributionType) -> CreateRewardPoolData {
    CreateRewardPoolData {
        id: 42,
        name: "Weekly trivia".to_string(),
        total_rewards: total,
        reward_type,
        token_mint: None,
        distribution_criteria: criteria,
        start_time: START,
        end_time: END,
        eligible_participants: 8,
    }
}

fn open_pool(total: u64, criteria: DistributionType) -> RewardPool {
    let (pool, funding) =
        create_reward_pool(key(1), pool_data(total, RewardType::SOL, criteria), 0, NOW).unwrap();
    assert_eq!(funding, None);
    pool
}

fn perf(score: u32, completion_time: i64) -> PerformanceData {
    PerformanceData {
        score,
        completion_time,
        staking_duration: 0,
        achievements_unlocked: 0,
        random_seed: 0,
        honeycomb_profile: None,
    }
}

fn eligible_claim(pool: &RewardPool, achievements: u32) -> UserClaim {
    let mut claim = unwritten_claim();
    let data = PerformanceData { achievements_unlocked: achievements, ..perf(0, 0) };
    calculate_user_rewards(pool, pool_key(), key(5), &mut claim, 42, &data, START).unwrap();
    claim
}

#[test]
fn create_pool_sets_fields() {
    let data = CreateRewardPoolData {
        token_mint: Some(key(77)),
        ..pool_data(5_000, RewardType::SplToken, DistributionType::StakingRewards)
    };
    let (pool, funding) = create_reward_pool(key(1), data, 300, NOW).unwrap();
    assert_eq!(funding, Some(Transfer { asset: Asset::Token, amount: 300 }));
    assert_eq!(pool.id, 42);
    assert_eq!(pool.authority, key(1));
    assert_eq!(pool.name, "Weekly trivia");
    assert_eq!(pool.total_rewards, 5_000);
    assert_eq!(pool.distributed_rewards, 0);
    assert_eq!(pool.token_mint, Some(key(77)));
    assert_eq!(pool.distribution_criteria, DistributionType::StakingRewards);
    assert!(pool.active);
}

#[test]
fn create_pool_funds_native_asset() {
    let data = pool_data(5_000, RewardType::SOL, DistributionType::EqualShare);
    let (_, funding) = create_reward_pool(key(1), data, 250, NOW).unwrap();
    assert_eq!(funding, Some(Transfer { asset: Asset::Native, amount: 250 }));
}

#[test]
fn create_pool_errors() {
    let base = pool_data(1_000, RewardType::SOL, DistributionType::EqualShare);
    let err = |d: CreateRewardPoolData, funding: u64| create_reward_pool(key(1), d, funding, NOW).err();
    assert_eq!(
        err(CreateRewardPoolData { name: "n".repeat(51), ..base.clone() }, 0),
        Some(RewardDistributorError::InvalidPoolName)
    );
    assert_eq!(
        err(CreateRewardPoolData { start_time: NOW, ..base.clone() }, 0),
        Some(RewardDistributorError::InvalidStartTime)
    );
    assert_eq!(
        err(CreateRewardPoolData { end_time: START, ..base.clone() }, 0),
        Some(RewardDistributorError::InvalidEndTime)
    );
    assert_eq!(
        err(CreateRewardPoolData { total_rewards: 0, ..base.clone() }, 0),
        Some(RewardDistributorError::InvalidRewardAmount)
    );
    assert_eq!(
        err(CreateRewardPoolData { reward_type: RewardType::SplToken, ..base.clone() }, 10),
        Some(RewardDistributorError::MissingTokenMint)
    );
    assert_eq!(
        err(CreateRewardPoolData { reward_type: RewardType::NFT, ..base.clone() }, 10),
        Some(RewardDistributorError::NFTFundingUnsupported)
    );
    assert!(err(CreateRewardPoolData { reward_type: RewardType::NFT, ..base }, 0).is_none());
}

#[test]
fn fund_pool_adds_to_rewards() {
    let mut pool = open_pool(1_000, DistributionType::EqualShare);
    let t = fund_reward_pool(&mut pool, 42, 500).unwrap();
    assert_eq!(t, Transfer { asset: Asset::Native, amount: 500 });
    assert_eq!(pool.total_rewards, 1_500);
    assert_eq!(fund_reward_pool(&mut pool, 41, 5), Err(RewardDistributorError::PoolNotFound));
    assert_eq!(fund_reward_pool(&mut pool, 42, 0), Err(RewardDistributorError::InvalidRewardAmount));
    pool.reward_type = RewardType::NFT;
    assert_eq!(fund_reward_pool(&mut pool, 42, 5), Err(RewardDistributorError::NFTFundingUnsupported));
    pool.active = false;
    assert_eq!(fund_reward_pool(&mut pool, 42, 5), Err(RewardDistributorError::PoolNotActive));
    assert_eq!(pool.total_rewards, 1_500);
}

#[test]
fn performance_scenario_truncates_to_zero() {
    let pool = open_pool(1_000, DistributionType::PerformanceBased);
    let mut claim = unwritten_claim();
    let r = calculate_user_rewards(&pool, pool_key(), key(5), &mut claim, 42, &perf(100, 0), START);
    assert_eq!(r, Ok(0));
    assert_eq!(claim.total_eligible, 0);
    assert_eq!(calculate_performance_rewards(1_000, &perf(100, 0)), 0);
}

#[test]
fn performance_formula_values() {
    assert_eq!(calculate_performance_rewards(1_000_000, &perf(80, 600)), 3_300);
    assert_eq!(calculate_performance_rewards(1_000_000, &perf(100, 0)), 50);
    assert_eq!(calculate_performance_rewards(1_000_000, &perf(40, 60)), 1_190);
    assert_eq!(calculate_performance_rewards(1_000_000, &perf(60, 100_000)), 20);
    assert_eq!(calculate_performance_rewards(1_000_000, &perf(95, 30)), 4_800);
    assert_eq!(calculate_performance_rewards(u64::MAX, &perf(100, 1)), u64::MAX / 1000 * 600 / 100);
}

#[test]
fn performance_formula_truncates_each_step() {
    // 10_000 / 1000 * 5 * 120 / 100 = 60, well under a tenth of the pool.
    assert_eq!(calculate_performance_rewards(10_000, &perf(100, 1)), 60);
    // 999 / 1000 truncates to nothing before any multiplier applies.
    assert_eq!(calculate_performance_rewards(999, &perf(100, 1)), 0);
    assert_eq!(calculate_performance_rewards(1_999, &perf(100, 1)), 6);
}

#[test]
fn staking_formula_values() {
    let d = |days: i64| PerformanceData { staking_duration: days * 86_400 + 5, ..perf(0, 0) };
    assert_eq!(calculate_staking_rewards(365_000, &d(3)), 3_000);
    assert_eq!(calculate_staking_rewards(365_000, &d(0)), 0);
    assert_eq!(calculate_staking_rewards(365_000, &d(100)), 36_500);
    let long = PerformanceData { staking_duration: i64::MAX, ..perf(0, 0) };
    assert_eq!(calculate_staking_rewards(u64::MAX, &long), u64::MAX / 10);
}

#[test]
fn achievement_formula_values() {
    let a = |n: u32| PerformanceData { achievements_unlocked: n, ..perf(0, 0) };
    assert_eq!(calculate_achievement_rewards(10_000, &a(5)), 500);
    assert_eq!(calculate_achievement_rewards(10_000, &a(50)), 2_000);
    assert_eq!(calculate_achievement_rewards(u64::MAX, &a(1_000)), u64::MAX / 5);
}

#[test]
fn random_and_equal_share_values() {
    let s = |seed: u64| PerformanceData { random_seed: seed, ..perf(0, 0) };
    assert_eq!(calculate_random_rewards(10_000, &s(105)), 200);
    assert_eq!(calculate_random_rewards(10_000, &s(9)), 200);
    assert_eq!(calculate_random_rewards(10_000, &s(10)), 0);
    assert_eq!(calculate_random_rewards(10_000, &s(50)), 0);
    assert_eq!(calculate_equal_share_rewards(1_000, 4), 250);
    assert_eq!(calculate_equal_share_rewards(1_000, 3), 333);
}

#[test]
fn equal_share_needs_participants() {
    let mut pool = open_pool(1_000, DistributionType::EqualShare);
    assert_eq!(pool.eligible_participants, 8);
    pool.eligible_participants = 0;
    let mut claim = unwritten_claim();
    let r = calculate_user_rewards(&pool, pool_key(), key(5), &mut claim, 42, &perf(0, 0), START);
    assert_eq!(r, Err(RewardDistributorError::NoEligibleParticipants));
    assert_eq!(claim, unwritten_claim());
    pool.eligible_participants = 8;
    let r = calculate_user_rewards(&pool, pool_key(), key(5), &mut claim, 42, &perf(0, 0), START);
    assert_eq!(r, Ok(125));
    assert_eq!(claim.pool, pool_key());
    assert_eq!(claim.user, key(5));
    assert_eq!(claim.total_eligible, 125);
}

#[test]
fn calculation_errors() {
    let mut pool = open_pool(1_000, DistributionType::AchievementBased);
    let mut claim = unwritten_claim();
    let mut calc = |pool: &RewardPool, id: u64, data: PerformanceData, now: i64| {
        calculate_user_rewards(pool, pool_key(), key(5), &mut claim, id, &data, now)
    };
    assert_eq!(calc(&pool, 1, perf(0, 0), START), Err(RewardDistributorError::PoolNotFound));
    assert_eq!(calc(&pool, 42, perf(0, 0), START - 1), Err(RewardDistributorError::ClaimPeriodNotStarted));
    assert_eq!(calc(&pool, 42, perf(0, 0), END + 1), Err(RewardDistributorError::ClaimPeriodEnded));
    assert_eq!(calc(&pool, 42, perf(101, 0), START), Err(RewardDistributorError::InvalidPerformanceData));
    assert_eq!(calc(&pool, 42, perf(0, -1), START), Err(RewardDistributorError::InvalidPerformanceData));
    let bad_stake = PerformanceData { staking_duration: -1, ..perf(0, 0) };
    assert_eq!(calc(&pool, 42, bad_stake, START), Err(RewardDistributorError::InvalidPerformanceData));
    let bad_ach = PerformanceData { achievements_unlocked: 1_001, ..perf(0, 0) };
    assert_eq!(calc(&pool, 42, bad_ach, START), Err(RewardDistributorError::InvalidPerformanceData));
    assert!(!bad_ach.validate());
    assert!(perf(100, 0).validate());
    assert_eq!(calc(&pool, 42, perf(0, 0), END), Ok(0));
    pool.active = false;
    assert_eq!(calc(&pool, 42, perf(0, 0), START), Err(RewardDistributorError::PoolNotActive));
}

#[test]
fn calculation_is_idempotent() {
    let pool = open_pool(10_000, DistributionType::AchievementBased);
    let data = PerformanceData { achievements_unlocked: 3, ..perf(0, 0) };
    let mut claim = unwritten_claim();
    let first = calculate_user_rewards(&pool, pool_key(), key(5), &mut claim, 42, &data, START);
    let after_first = claim;
    let second = calculate_user_rewards(&pool, pool_key(), key(5), &mut claim, 42, &data, START);
    assert_eq!(first, Ok(300));
    assert_eq!(second, Ok(300));
    assert_eq!(claim, after_first);
    assert_eq!(claim.total_eligible, 300);
}

#[test]
fn recalculation_never_drops_below_claimed() {
    let mut pool = open_pool(10_000, DistributionType::AchievementBased);
    let mut claim = eligible_claim(&pool, 4);
    claim_rewards(&mut pool, pool_key(), &mut claim, 42, START).unwrap();
    assert_eq!(claim.amount_claimed, 400);
    let lower = PerformanceData { achievements_unlocked: 1, ..perf(0, 0) };
    let r = calculate_user_rewards(&pool, pool_key(), key(5), &mut claim, 42, &lower, START);
    assert_eq!(r, Ok(100));
    assert_eq!(claim.total_eligible, 400);
    assert_eq!(claim.amount_claimed, 400);
}

#[test]
fn claim_pays_outstanding_amount() {
    let mut pool = open_pool(10_000, DistributionType::AchievementBased);
    let mut claim = eligible_claim(&pool, 2);
    assert_eq!(get_claimable_amount(&pool, 42, &claim), Ok(200));
    let t = claim_rewards(&mut pool, pool_key(), &mut claim, 42, START + 5).unwrap();
    assert_eq!(t, Transfer { asset: Asset::Native, amount: 200 });
    assert_eq!(claim.amount_claimed, 200);
    assert_eq!(claim.total_eligible, 200);
    assert_eq!(claim.last_claim_time, START + 5);
    assert_eq!(pool.distributed_rewards, 200);
    assert_eq!(get_claimable_amount(&pool, 42, &claim), Ok(0));
}

#[test]
fn second_claim_has_nothing_to_claim() {
    let mut pool = open_pool(10_000, DistributionType::AchievementBased);
    let mut claim = eligible_claim(&pool, 2);
    claim_rewards(&mut pool, pool_key(), &mut claim, 42, START).unwrap();
    let before_pool = pool.distributed_rewards;
    let before_claim = claim;
    let r = claim_rewards(&mut pool, pool_key(), &mut claim, 42, START + 1);
    assert_eq!(r, Err(RewardDistributorError::NothingToClaim));
    assert_eq!(claim, before_claim);
    assert_eq!(claim.total_eligible, 200);
    assert_eq!(pool.distributed_rewards, before_pool);
}

#[test]
fn distributed_never_exceeds_total() {
    let mut pool = open_pool(1_000, DistributionType::AchievementBased);
    for user in 0..12u128 {
        let mut claim = unwritten_claim();
        let data = PerformanceData { achievements_unlocked: 20, ..perf(0, 0) };
        calculate_user_rewards(&pool, pool_key(), key(user), &mut claim, 42, &data, START).unwrap();
        let _ = claim_rewards(&mut pool, pool_key(), &mut claim, 42, START);
        assert!(pool.distributed_rewards <= pool.total_rewards);
        if user == 6 {
            fund_reward_pool(&mut pool, 42, 100).unwrap();
        }
    }
    assert_eq!(pool.total_rewards, 1_100);
    assert_eq!(pool.distributed_rewards, 1_000);
}

#[test]
fn claim_errors() {
    let mut pool = open_pool(1_000, DistributionType::AchievementBased);
    let mut claim = eligible_claim(&pool, 5);
    assert_eq!(claim_rewards(&mut pool, pool_key(), &mut claim, 1, START), Err(RewardDistributorError::PoolNotFound));
    assert_eq!(
        claim_rewards(&mut pool, key(8), &mut claim, 42, START),
        Err(RewardDistributorError::InvalidClaimRecord)
    );
    assert_eq!(
        claim_rewards(&mut pool, pool_key(), &mut claim, 42, START - 1),
        Err(RewardDistributorError::ClaimPeriodNotStarted)
    );
    assert_eq!(
        claim_rewards(&mut pool, pool_key(), &mut claim, 42, END + 1),
        Err(RewardDistributorError::ClaimPeriodEnded)
    );
    pool.distributed_rewards = 960;
    assert_eq!(
        claim_rewards(&mut pool, pool_key(), &mut claim, 42, START),
        Err(RewardDistributorError::InsufficientPoolFunds)
    );
    pool.distributed_rewards = 0;
    pool.reward_type = RewardType::NFT;
    assert_eq!(
        claim_rewards(&mut pool, pool_key(), &mut claim, 42, START),
        Err(RewardDistributorError::NFTClaimUnsupported)
    );
    pool.reward_type = RewardType::SOL;
    pool.active = false;
    assert_eq!(claim_rewards(&mut pool, pool_key(), &mut claim, 42, START), Err(RewardDistributorError::PoolNotActive));
    assert_eq!(claim.amount_claimed, 0);
    assert_eq!(pool.distributed_rewards, 0);
}

#[test]
fn claimable_amount_of_unwritten_record_is_zero() {
    let pool = open_pool(1_000, DistributionType::AchievementBased);
    assert_eq!(get_claimable_amount(&pool, 42, &unwritten_claim()), Ok(0));
    assert_eq!(get_claimable_amount(&pool, 3, &unwritten_claim()), Err(RewardDistributorError::PoolNotFound));
}

#[test]
fn criteria_update_only_before_start() {
    let mut pool = open_pool(1_000, DistributionType::EqualShare);
    let upd = |pool: &mut RewardPool, id: u64, who: u128, now: i64| {
        update_distribution_criteria(pool, id, key(who), DistributionType::RandomDrop, now)
    };
    assert_eq!(upd(&mut pool, 9, 1, NOW), Err(RewardDistributorError::PoolNotFound));
    assert_eq!(upd(&mut pool, 42, 2, NOW), Err(RewardDistributorError::UnauthorizedAuthority));
    assert_eq!(upd(&mut pool, 42, 1, START), Err(RewardDistributorError::CannotUpdateActivePool));
    assert_eq!(pool.distribution_criteria, DistributionType::EqualShare);
    upd(&mut pool, 42, 1, START - 1).unwrap();
    assert_eq!(pool.distribution_criteria, DistributionType::RandomDrop);
}

#[test]
fn close_returns_remaining_funds() {
    let mut pool = open_pool(1_000, DistributionType::AchievementBased);
    let mut claim = eligible_claim(&pool, 3);
    claim_rewards(&mut pool, pool_key(), &mut claim, 42, START).unwrap();
    assert_eq!(close_reward_pool(&mut pool, 5, key(1), END + 1), Err(RewardDistributorError::PoolNotFound));
    assert_eq!(
        close_reward_pool(&mut pool, 42, key(2), END + 1),
        Err(RewardDistributorError::UnauthorizedAuthority)
    );
    assert_eq!(close_reward_pool(&mut pool, 42, key(1), END), Err(RewardDistributorError::PoolStillActive));
    assert!(pool.active);
    let refund = close_reward_pool(&mut pool, 42, key(1), END + 1).unwrap();
    assert_eq!(refund, Some(Transfer { asset: Asset::Native, amount: 970 }));
    assert!(!pool.active);
}

#[test]
fn closed_pool_cannot_be_closed_again() {
    let mut pool = open_pool(1_000, DistributionType::AchievementBased);
    close_reward_pool(&mut pool, 42, key(1), END + 1).unwrap();
    let before_total = pool.total_rewards;
    let again = close_reward_pool(&mut pool, 42, key(1), END + 50);
    assert_eq!(again, Err(RewardDistributorError::PoolNotActive));
    assert!(!pool.active);
    assert_eq!(pool.total_rewards, before_total);
    assert_eq!(pool.distributed_rewards, 0);
}

#[test]
fn funding_past_the_integer_range_is_refused() {
    let mut pool = open_pool(1_000, DistributionType::EqualShare);
    let r = fund_reward_pool(&mut pool, 42, u64::MAX - 999);
    assert_eq!(r, Err(RewardDistributorError::InvalidRewardAmount));
    assert_eq!(pool.total_rewards, 1_000);
    let t = fund_reward_pool(&mut pool, 42, u64::MAX - 1_000).unwrap();
    assert_eq!(t.amount, u64::MAX - 1_000);
    assert_eq!(pool.total_rewards, u64::MAX);
}

#[test]
fn close_of_non_fungible_pool_moves_nothing() {
    let data = pool_data(1_000, RewardType::NFT, DistributionType::RandomDrop);
    let (mut pool, _) = create_reward_pool(key(1), data, 0, NOW).unwrap();
    assert_eq!(close_reward_pool(&mut pool, 42, key(1), END + 1), Ok(None));
    assert!(!pool.active);
}

fn achievement(ts: i64) -> Achievement {
    Achievement {
        id: "a1".to_string(),
        name: "First win".to_string(),
        description: "Won a round".to_string(),
        points: 10,
        timestamp: ts,
        verified: true,
    }
}

#[test]
fn achievement_reports_are_checked() {
    let pool = open_pool(1_000, DistributionType::AchievementBased);
    let report = HoneycombAchievementData {
        profile_owner: key(30),
        achievements: vec![achievement(5), achievement(6)],
        total_score: 20,
        completion_rate: 50,
    };
    assert_eq!(verify_honeycomb_achievements(&pool, 42, key(30), &report), Ok(true));
    assert_eq!(
        verify_honeycomb_achievements(&pool, 41, key(30), &report),
        Err(RewardDistributorError::PoolNotFound)
    );
    assert_eq!(verify_honeycomb_data(&report, key(31)), Err(RewardDistributorError::InvalidHoneycombProfile));
    let stale = HoneycombAchievementData { achievements: vec![achievement(5), achievement(0)], ..report.clone() };
    assert_eq!(verify_honeycomb_data(&stale, key(30)), Err(RewardDistributorError::InvalidAchievementData));
    let many = HoneycombAchievementData { achievements: vec![achievement(1); 101], ..report.clone() };
    assert_eq!(verify_honeycomb_data(&many, key(30)), Err(RewardDistributorError::TooManyAchievements));
    let full = HoneycombAchievementData { achievements: vec![achievement(1); 100], ..report };
    assert_eq!(verify_honeycomb_data(&full, key(30)), Ok(true));
}

#[test]
fn vault_belongs_to_its_pool() {
    assert_eq!(new_reward_vault(pool_key()).pool, pool_key());
    assert!(Identity::zero().is_zero());
    assert!(!pool_key().is_zero());
}
