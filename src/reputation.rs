use vstd::prelude::*;

use crate::identity::Identity;

verus! {

/// Score given to an identity the first time it is seen.
pub const STARTING_REPUTATION: u64 = 100;

/// Score under which a rejection penalty never pushes a user.
pub const REPUTATION_FLOOR: u64 = 10;

pub const SUBMISSION_REWARD: u64 = 5;

pub const APPROVAL_REWARD: u64 = 50;

pub const REJECTION_PENALTY: u64 = 10;

pub const VOTE_REWARD: u64 = 10;

/// Per-identity curation record.
#[derive(Clone, Debug)]
pub struct UserReputation {
    pub user: Identity,
    pub questions_submitted: u32,
    pub questions_approved: u32,
    pub curation_votes: u32,
    pub reputation_score: u64,
}

/// The curation outcomes that move a reputation.
#[derive(Clone, Copy, PartialEq, Eq, Structural, Debug)]
pub enum ReputationAction {
    QuestionSubmitted,
    QuestionApproved,
    QuestionRejected,
    VoteCast,
}

/// The score after a rejection: ten less, but never under the floor, and a
/// score already at or under the floor is left as it is.
pub open spec fn penalized_score(s: u64) -> u64 {
    if s > REPUTATION_FLOOR {
        if s - REJECTION_PENALTY >= REPUTATION_FLOOR {
            (s - REJECTION_PENALTY) as u64
        } else {
            REPUTATION_FLOOR
        }
    } else {
        s
    }
}

impl UserReputation {
    /// The record after `action`: each action moves one counter and the score
    /// by a fixed amount, both stopping at the top of their range; a rejection
    /// moves the score only, down to the floor.
    pub open spec fn recorded(self, action: ReputationAction) -> UserReputation {
        match action {
            ReputationAction::QuestionSubmitted => UserReputation {
                questions_submitted: self.questions_submitted.saturating_add(1),
                reputation_score: self.reputation_score.saturating_add(SUBMISSION_REWARD),
                ..self
            },
            ReputationAction::QuestionApproved => UserReputation {
                questions_approved: self.questions_approved.saturating_add(1),
                reputation_score: self.reputation_score.saturating_add(APPROVAL_REWARD),
                ..self
            },
            ReputationAction::QuestionRejected => UserReputation {
                reputation_score: penalized_score(self.reputation_score),
                ..self
            },
            ReputationAction::VoteCast => UserReputation {
                curation_votes: self.curation_votes.saturating_add(1),
                reputation_score: self.reputation_score.saturating_add(VOTE_REWARD),
                ..self
            },
        }
    }
}

/// A fresh record for `user`, at the starting score with every counter at zero.
pub fn initialize_user_reputation(user: Identity) -> (r: UserReputation)
    ensures
        r.user == user,
        r.questions_submitted == 0,
        r.questions_approved == 0,
        r.curation_votes == 0,
        r.reputation_score == STARTING_REPUTATION,
{
    UserReputation {
        user,
        questions_submitted: 0,
        questions_approved: 0,
        curation_votes: 0,
        reputation_score: STARTING_REPUTATION,
    }
}

/// The score after one rejection penalty.
pub fn apply_rejection_penalty(score: u64) -> (r: u64)
    ensures
        r == penalized_score(score),
{
    if score > REPUTATION_FLOOR {
        let lowered = score - REJECTION_PENALTY;
        if lowered >= REPUTATION_FLOOR {
            lowered
        } else {
            REPUTATION_FLOOR
        }
    } else {
        score
    }
}

/// Records one curation outcome on `user_reputation`.
pub fn update_reputation(user_reputation: &mut UserReputation, action_type: ReputationAction)
    ensures
        *final(user_reputation) == old(user_reputation).recorded(action_type),
{
    match action_type {
        ReputationAction::QuestionSubmitted => {
            user_reputation.questions_submitted = user_reputation.questions_submitted.saturating_add(1);
            user_reputation.reputation_score = user_reputation.reputation_score.saturating_add(SUBMISSION_REWARD);
        },
        ReputationAction::QuestionApproved => {
            user_reputation.questions_approved = user_reputation.questions_approved.saturating_add(1);
            user_reputation.reputation_score = user_reputation.reputation_score.saturating_add(APPROVAL_REWARD);
        },
        ReputationAction::QuestionRejected => {
            user_reputation.reputation_score = apply_rejection_penalty(
                user_reputation.reputation_score,
            );
        },
        ReputationAction::VoteCast => {
            user_reputation.curation_votes = user_reputation.curation_votes.saturating_add(1);
            user_reputation.reputation_score = user_reputation.reputation_score.saturating_add(VOTE_REWARD);
        },
    }
}

/// A score at or over the floor stays at or over it after any number of
/// rejection penalties; a score under twice the floor reaches the floor with
/// the first penalty, and from there further penalties change nothing.
pub proof fn lemma_penalty_respects_floor(score: u64, penalties: nat)
    requires
        score >= REPUTATION_FLOOR,
    ensures
        repeated_penalty(score, penalties) >= REPUTATION_FLOOR,
        penalties >= 1 && score < 2 * REPUTATION_FLOOR ==> repeated_penalty(score, penalties)
            == REPUTATION_FLOOR,
        penalized_score(REPUTATION_FLOOR) == REPUTATION_FLOOR,
    decreases penalties,
{
    if penalties > 0 {
        lemma_penalty_respects_floor(score, (penalties - 1) as nat);
    }
}

/// The score after `n` rejection penalties in a row.
pub open spec fn repeated_penalty(score: u64, n: nat) -> u64
    decreases n,
{
    if n == 0 {
        score
    } else {
        penalized_score(repeated_penalty(score, (n - 1) as nat))
    }
}

} // verus!
