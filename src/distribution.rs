use vstd::prelude::*;

use crate::identity::Identity;

verus! {

/// How a pool shares its rewards out among users.
#[derive(Clone, Copy, PartialEq, Eq, Structural, Debug)]
pub enum DistributionType {
    EqualShare,
    PerformanceBased,
    StakingRewards,
    AchievementBased,
    RandomDrop,
}

pub const MAX_SCORE: u32 = 100;

pub const MAX_ACHIEVEMENTS: u32 = 1000;

pub const SECONDS_PER_DAY: i64 = 86400;

/// What a user reports of their play when asking for their eligible reward.
#[derive(Clone, Copy, Debug)]
pub struct PerformanceData {
    pub score: u32,
    pub completion_time: i64,
    pub staking_duration: i64,
    pub achievements_unlocked: u32,
    pub random_seed: u64,
    /// Profile whose achievements back the report, where one is given.
    pub honeycomb_profile: Option<Identity>,
}

impl PerformanceData {
    pub open spec fn valid(&self) -> bool {
        &&& self.score <= MAX_SCORE
        &&& self.completion_time >= 0
        &&& self.staking_duration >= 0
        &&& self.achievements_unlocked <= MAX_ACHIEVEMENTS
    }

    /// Whether the score is at most 100, neither duration is negative and at
    /// most 1000 achievements are claimed.
    pub fn validate(&self) -> (r: bool)
        ensures
            r == self.valid(),
    {
        self.score <= MAX_SCORE && self.completion_time >= 0 && self.staking_duration >= 0
            && self.achievements_unlocked <= MAX_ACHIEVEMENTS
    }
}

/// `amount`, but no more than `cap`.
pub open spec fn capped(amount: int, cap: int) -> int {
    if amount <= cap {
        amount
    } else {
        cap
    }
}

/// Tier of a score: 1 up to 50, 2 up to 75, 3 up to 90, 4 up to 99, 5 at 100.
pub open spec fn score_multiplier(score: u32) -> int {
    if score <= 50 {
        1
    } else if score <= 75 {
        2
    } else if score <= 90 {
        3
    } else if score <= 99 {
        4
    } else if score == 100 {
        5
    } else {
        1
    }
}

/// Bonus for a quick completion: 120 less one per whole minute taken, at
/// least 1; a completion time of zero or less earns 1.
pub open spec fn time_bonus(completion_time: i64) -> int {
    if completion_time > 0 {
        let b = 120 - completion_time / 60;
        if b >= 1 {
            b
        } else {
            1
        }
    } else {
        1
    }
}

/// `(total / 1000) * multiplier * bonus / 100`, truncated at each division,
/// capped at a tenth of the pool.
pub open spec fn performance_reward(total: u64, p: PerformanceData) -> int {
    let t = total as int;
    capped((t / 1000) * score_multiplier(p.score) * time_bonus(p.completion_time) / 100, t / 10)
}

/// A 365th of the pool per whole day staked, capped at a tenth of the pool.
pub open spec fn staking_reward(total: u64, p: PerformanceData) -> int {
    let t = total as int;
    capped((t / 365) * (p.staking_duration / SECONDS_PER_DAY), t / 10)
}

/// A hundredth of the pool per achievement, capped at a fifth of the pool.
pub open spec fn achievement_reward(total: u64, p: PerformanceData) -> int {
    let t = total as int;
    capped((t / 100) * p.achievements_unlocked, t / 5)
}

/// A fiftieth of the pool when the seed falls in the lowest tenth of its
/// hundred buckets, nothing otherwise.
pub open spec fn random_reward(total: u64, p: PerformanceData) -> int {
    if p.random_seed % 100 < 10 {
        total as int / 50
    } else {
        0
    }
}

/// The pool split evenly over its eligible participants.
pub open spec fn equal_share_reward(total: u64, eligible_participants: u64) -> int
    recommends
        eligible_participants > 0,
{
    total as int / eligible_participants as int
}

/// The reward that `criteria` gives for `p` out of a pool of `total`.
pub open spec fn reward_for(
    criteria: DistributionType,
    total: u64,
    p: PerformanceData,
    eligible_participants: u64,
) -> int {
    match criteria {
        DistributionType::EqualShare => equal_share_reward(total, eligible_participants),
        DistributionType::PerformanceBased => performance_reward(total, p),
        DistributionType::StakingRewards => staking_reward(total, p),
        DistributionType::AchievementBased => achievement_reward(total, p),
        DistributionType::RandomDrop => random_reward(total, p),
    }
}

pub fn calculate_performance_rewards(total_rewards: u64, performance_data: &PerformanceData) -> (r:
    u64)
    ensures
        r == performance_reward(total_rewards, *performance_data),
{
    let base_reward: u64 = total_rewards / 1000;
    let performance_multiplier: u64 = if performance_data.score <= 50 {
        1
    } else if performance_data.score <= 75 {
        2
    } else if performance_data.score <= 90 {
        3
    } else if performance_data.score <= 99 {
        4
    } else if performance_data.score == 100 {
        5
    } else {
        1
    };
    let time_bonus: u64 = if performance_data.completion_time > 0 {
        let b: i64 = 120 - performance_data.completion_time / 60;
        if b >= 1 {
            b as u64
        } else {
            1
        }
    } else {
        1
    };
    assert(base_reward * performance_multiplier * time_bonus <= u64::MAX) by (nonlinear_arith)
        requires
            base_reward <= u64::MAX / 1000,
            performance_multiplier <= 5,
            time_bonus <= 120,
    ;
    let calculated_reward: u64 = base_reward * performance_multiplier * time_bonus / 100;
    let max_reward: u64 = total_rewards / 10;
    if calculated_reward < max_reward {
        calculated_reward
    } else {
        max_reward
    }
}

pub fn calculate_staking_rewards(total_rewards: u64, performance_data: &PerformanceData) -> (r: u64)
    requires
        performance_data.staking_duration >= 0,
    ensures
        r == staking_reward(total_rewards, *performance_data),
{
    let base_reward: u64 = total_rewards / 365;
    let staking_days: u64 = (performance_data.staking_duration / SECONDS_PER_DAY) as u64;
    let max_reward: u64 = total_rewards / 10;
    match base_reward.checked_mul(staking_days) {
        Some(calculated_reward) => {
            if calculated_reward < max_reward {
                calculated_reward
            } else {
                max_reward
            }
        },
        None => max_reward,
    }
}

pub fn calculate_achievement_rewards(total_rewards: u64, performance_data: &PerformanceData) -> (r:
    u64)
    ensures
        r == achievement_reward(total_rewards, *performance_data),
{
    let base_reward: u64 = total_rewards / 100;
    let max_reward: u64 = total_rewards / 5;
    match base_reward.checked_mul(performance_data.achievements_unlocked as u64) {
        Some(calculated_reward) => {
            if calculated_reward < max_reward {
                calculated_reward
            } else {
                max_reward
            }
        },
        None => max_reward,
    }
}

pub fn calculate_random_rewards(total_rewards: u64, performance_data: &PerformanceData) -> (r: u64)
    ensures
        r == random_reward(total_rewards, *performance_data),
{
    if performance_data.random_seed % 100 < 10 {
        total_rewards / 50
    } else {
        0
    }
}

pub fn calculate_equal_share_rewards(total_rewards: u64, eligible_participants: u64) -> (r: u64)
    requires
        eligible_participants > 0,
    ensures
        r == equal_share_reward(total_rewards, eligible_participants),
{
    total_rewards / eligible_participants
}

} // verus!
