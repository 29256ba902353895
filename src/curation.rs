use vstd::prelude::*;
use vstd::string::StrSliceExecFns;

use crate::identity::{all_distinct, contains_identity, position_of, Identity};
use crate::reputation::{update_reputation, ReputationAction, UserReputation};

verus! {

/// Most curators a bank keeps.
pub const MAX_CURATORS: usize = 20;

/// Most votes a question records.
pub const MAX_VOTERS: usize = 50;

/// Fewest votes with which a question may be finalized.
pub const QUORUM: u32 = 5;

/// Score a user needs to submit a question.
pub const MIN_SUBMIT_REPUTATION: u64 = 100;

pub const MAX_TEXT_LEN: usize = 500;

pub const MAX_OPTION_LEN: usize = 100;

pub const MAX_CATEGORY_LEN: usize = 50;

/// The curation registry: one per deployment.
#[derive(Clone, Debug)]
pub struct QuestionBank {
    pub authority: Identity,
    pub total_questions: u64,
    pub active_questions: u64,
    pub curators: Vec<Identity>,
}

/// A submitted question and the votes it has gathered.
#[derive(Clone, Debug)]
pub struct Question {
    pub id: u64,
    pub submitter: Identity,
    pub question_text: String,
    pub options: [String; 4],
    pub correct_answer: u8,
    pub category: String,
    pub difficulty: u8,
    pub votes_approve: u32,
    pub votes_reject: u32,
    pub voters: Vec<Identity>,
    pub status: QuestionStatus,
    pub created_at: i64,
}

/// What a submitter hands in.
#[derive(Clone, Debug)]
pub struct QuestionData {
    pub question_text: String,
    pub options: [String; 4],
    pub correct_answer: u8,
    pub category: String,
    pub difficulty: u8,
}

#[derive(Clone, Copy, PartialEq, Eq, Structural, Debug)]
pub enum QuestionStatus {
    Pending,
    Approved,
    Rejected,
}

#[derive(Clone, Copy, PartialEq, Eq, Structural, Debug)]
pub enum VoteType {
    Approve,
    Reject,
}

#[derive(Clone, Copy, PartialEq, Eq, Structural, Debug)]
pub enum QuestionBankError {
    InvalidQuestionFormat,
    UnauthorizedCurator,
    AlreadyVoted,
    QuestionNotFound,
    InsufficientReputation,
    QuestionNotPending,
    CannotVoteOnOwnQuestion,
    InsufficientVotes,
    UnauthorizedAuthority,
    CuratorAlreadyExists,
    CuratorNotFound,
    CannotRemoveAuthority,
    TooManyCurators,
    TooManyVoters,
}

/// Length of a text in characters.
pub open spec fn text_len(s: Seq<char>) -> nat {
    s.len()
}

/// Whether a submission has the shape a question must have.
pub open spec fn valid_question_data(d: QuestionData) -> bool {
    &&& text_len(d.question_text@) <= MAX_TEXT_LEN
    &&& text_len(d.category@) <= MAX_CATEGORY_LEN
    &&& 1 <= d.difficulty <= 3
    &&& d.correct_answer <= 3
    &&& forall|i: int| 0 <= i < 4 ==> text_len(#[trigger] d.options@[i]@) <= MAX_OPTION_LEN
}

impl QuestionBank {
    /// Curators are distinct, within the cap, and include the authority.
    pub open spec fn wf(&self) -> bool {
        &&& self.curators@.len() <= MAX_CURATORS
        &&& self.curators@.no_duplicates()
        &&& self.curators@.contains(self.authority)
    }

    pub fn is_consistent(&self) -> (r: bool)
        ensures
            r == self.wf(),
    {
        self.curators.len() <= MAX_CURATORS && all_distinct(&self.curators) && contains_identity(
            &self.curators,
            self.authority,
        )
    }
}

impl Question {
    /// Every vote has exactly one distinct voter, none of them the submitter.
    pub open spec fn wf(&self) -> bool {
        &&& self.votes_approve + self.votes_reject == self.voters@.len()
        &&& self.voters@.len() <= MAX_VOTERS
        &&& self.voters@.no_duplicates()
        &&& !self.voters@.contains(self.submitter)
    }

    pub fn is_consistent(&self) -> (r: bool)
        ensures
            r == self.wf(),
    {
        self.votes_approve as u64 + self.votes_reject as u64 == self.voters.len() as u64
            && self.voters.len() <= MAX_VOTERS && all_distinct(&self.voters) && !contains_identity(
            &self.voters,
            self.submitter,
        )
    }

    pub open spec fn total_votes(&self) -> int {
        self.votes_approve + self.votes_reject
    }

    /// Whether `other` holds the same submission as `self`: everything but
    /// the votes, the voters and the status.
    pub open spec fn same_submission(&self, other: Question) -> bool {
        &&& other.id == self.id
        &&& other.submitter == self.submitter
        &&& other.question_text == self.question_text
        &&& other.options == self.options
        &&& other.correct_answer == self.correct_answer
        &&& other.category == self.category
        &&& other.difficulty == self.difficulty
        &&& other.created_at == self.created_at
    }

    /// Whether `after` is `self` with one more vote of `vote_type` by `voter`.
    pub open spec fn vote_recorded(&self, after: Question, voter: Identity, vote_type: VoteType) -> bool {
        &&& self.same_submission(after)
        &&& after.status == self.status
        &&& after.voters@ == self.voters@.push(voter)
        &&& after.votes_approve == if vote_type == VoteType::Approve {
            self.votes_approve + 1
        } else {
            self.votes_approve as int
        }
        &&& after.votes_reject == if vote_type == VoteType::Reject {
            self.votes_reject + 1
        } else {
            self.votes_reject as int
        }
    }
}

fn text_fits(s: &String, max: usize) -> (r: bool)
    ensures
        r == (text_len(s@) <= max),
{
    s.as_str().unicode_len() <= max
}

/// Whether `question_data` has the shape a question must have.
pub fn validate_question_data(question_data: &QuestionData) -> (r: bool)
    ensures
        r == valid_question_data(*question_data),
{
    if !text_fits(&question_data.question_text, MAX_TEXT_LEN) {
        return false;
    }
    if !text_fits(&question_data.category, MAX_CATEGORY_LEN) {
        return false;
    }
    if !(question_data.difficulty >= 1 && question_data.difficulty <= 3) {
        return false;
    }
    if question_data.correct_answer > 3 {
        return false;
    }
    let mut i: usize = 0;
    while i < 4
        invariant
            0 <= i <= 4,
            question_data.options@.len() == 4,
            forall|j: int| 0 <= j < i ==> text_len(#[trigger] question_data.options@[j]@) <= MAX_OPTION_LEN,
        decreases 4 - i,
    {
        if !text_fits(&question_data.options[i], MAX_OPTION_LEN) {
            return false;
        }
        i += 1;
    }
    true
}

/// A new registry whose only curator is `authority`.
pub fn initialize_question_bank(authority: Identity) -> (bank: QuestionBank)
    ensures
        bank.wf(),
        bank.authority == authority,
        bank.total_questions == 0,
        bank.active_questions == 0,
        bank.curators@ == seq![authority],
{
    let mut curators: Vec<Identity> = Vec::new();
    curators.push(authority);
    assert(curators@ =~= seq![authority]);
    assert(curators@[0] == authority);
    QuestionBank { authority, total_questions: 0, active_questions: 0, curators }
}

/// Registers a new question from the identity that `submitter_reputation`
/// belongs to.
///
/// The submission is checked for shape first (`InvalidQuestionFormat`), then
/// the submitter's score (`InsufficientReputation`). On success the question
/// takes the next id, the registry's question counter goes up by one, the
/// submitter's submission counter goes up by one unless already at its
/// largest value, and nothing else changes. On failure
/// nothing changes.
pub fn submit_question(
    bank: &mut QuestionBank,
    submitter_reputation: &mut UserReputation,
    question_data: QuestionData,
    now: i64,
) -> (r: Result<Question, QuestionBankError>)
    requires
        old(bank).total_questions < u64::MAX,
    ensures
        r is Ok <==> valid_question_data(question_data)
            && old(submitter_reputation).reputation_score >= MIN_SUBMIT_REPUTATION,
        !valid_question_data(question_data) ==> r == Err::<Question, QuestionBankError>(
            QuestionBankError::InvalidQuestionFormat,
        ),
        valid_question_data(question_data) && old(submitter_reputation).reputation_score
            < MIN_SUBMIT_REPUTATION ==> r == Err::<Question, QuestionBankError>(
            QuestionBankError::InsufficientReputation,
        ),
        r is Err ==> *final(bank) == *old(bank) && *final(submitter_reputation) == *old(submitter_reputation),
        r is Ok ==> {
            let q = r->Ok_0;
            &&& q.wf()
            &&& q.id == old(bank).total_questions
            &&& q.submitter == old(submitter_reputation).user
            &&& q.question_text == question_data.question_text
            &&& q.options == question_data.options
            &&& q.correct_answer == question_data.correct_answer
            &&& q.category == question_data.category
            &&& q.difficulty == question_data.difficulty
            &&& q.votes_approve == 0
            &&& q.votes_reject == 0
            &&& q.voters@ == Seq::<Identity>::empty()
            &&& q.status == QuestionStatus::Pending
            &&& q.created_at == now
            &&& *final(bank) == (QuestionBank {
                total_questions: (old(bank).total_questions + 1) as u64,
                ..*old(bank)
            })
            &&& *final(submitter_reputation) == (UserReputation {
                questions_submitted: old(submitter_reputation).questions_submitted.saturating_add(1),
                ..*old(submitter_reputation)
            })
        },
{
    if !validate_question_data(&question_data) {
        return Err(QuestionBankError::InvalidQuestionFormat);
    }
    if submitter_reputation.reputation_score < MIN_SUBMIT_REPUTATION {
        return Err(QuestionBankError::InsufficientReputation);
    }
    let question = Question {
        id: bank.total_questions,
        submitter: submitter_reputation.user,
        question_text: question_data.question_text,
        options: question_data.options,
        correct_answer: question_data.correct_answer,
        category: question_data.category,
        difficulty: question_data.difficulty,
        votes_approve: 0,
        votes_reject: 0,
        voters: Vec::new(),
        status: QuestionStatus::Pending,
        created_at: now,
    };
    bank.total_questions = bank.total_questions + 1;
    submitter_reputation.questions_submitted = submitter_reputation.questions_submitted.saturating_add(
        1,
    );
    Ok(question)
}

/// Records a vote on `question` by the identity that `voter_reputation`
/// belongs to.
///
/// Checked in this order: the question is still pending
/// (`QuestionNotPending`), the voter is not its submitter
/// (`CannotVoteOnOwnQuestion`), has not voted on it yet (`AlreadyVoted`), and
/// the question has room for another vote (`TooManyVoters`). On success the
/// voter joins the voters, the matching counter goes up by one, and the voter
/// is credited with a vote cast. On failure nothing changes.
pub fn vote_on_question(
    question: &mut Question,
    voter_reputation: &mut UserReputation,
    vote_type: VoteType,
) -> (r: Result<(), QuestionBankError>)
    requires
        old(question).wf(),
    ensures
        ({
            let voter = old(voter_reputation).user;
            let q = *old(question);
            &&& q.status != QuestionStatus::Pending ==> r == Err::<(), QuestionBankError>(
                QuestionBankError::QuestionNotPending,
            )
            &&& q.status == QuestionStatus::Pending && voter == q.submitter ==> r == Err::<
                (),
                QuestionBankError,
            >(QuestionBankError::CannotVoteOnOwnQuestion)
            &&& q.status == QuestionStatus::Pending && voter != q.submitter && q.voters@.contains(
                voter,
            ) ==> r == Err::<(), QuestionBankError>(QuestionBankError::AlreadyVoted)
            &&& q.status == QuestionStatus::Pending && voter != q.submitter && !q.voters@.contains(
                voter,
            ) && q.voters@.len() >= MAX_VOTERS ==> r == Err::<(), QuestionBankError>(
                QuestionBankError::TooManyVoters,
            )
            &&& r is Ok <==> q.status == QuestionStatus::Pending && voter != q.submitter
                && !q.voters@.contains(voter) && q.voters@.len() < MAX_VOTERS
            &&& r is Ok ==> q.vote_recorded(*final(question), voter, vote_type)
                && *final(voter_reputation)
                == old(voter_reputation).recorded(ReputationAction::VoteCast)
            &&& r is Err ==> *final(question) == q && *final(voter_reputation) == *old(voter_reputation)
        }),
        final(question).wf(),
{
    let voter = voter_reputation.user;
    if question.status != QuestionStatus::Pending {
        return Err(QuestionBankError::QuestionNotPending);
    }
    if question.submitter == voter {
        return Err(QuestionBankError::CannotVoteOnOwnQuestion);
    }
    if contains_identity(&question.voters, voter) {
        return Err(QuestionBankError::AlreadyVoted);
    }
    if question.voters.len() >= MAX_VOTERS {
        return Err(QuestionBankError::TooManyVoters);
    }
    question.voters.push(voter);
    match vote_type {
        VoteType::Approve => {
            question.votes_approve = question.votes_approve + 1;
        },
        VoteType::Reject => {
            question.votes_reject = question.votes_reject + 1;
        },
    }
    update_reputation(voter_reputation, ReputationAction::VoteCast);
    Ok(())
}

/// Settles a pending question on its votes, by a curator of `bank`;
/// `submitter_reputation` is the record of the question's submitter.
///
/// Checked in this order: `curator` is one of the bank's curators
/// (`UnauthorizedCurator`), `question` carries `question_id`
/// (`QuestionNotFound`), it is still pending (`QuestionNotPending`), and it has
/// at least a quorum of votes (`InsufficientVotes`). With more approvals than
/// rejections the question is approved, the bank's count of active questions
/// goes up by one and the submitter is credited with an approval; otherwise,
/// ties included, it is rejected and the submitter takes the floored
/// rejection penalty. On failure nothing changes.
pub fn finalize_question(
    bank: &mut QuestionBank,
    question: &mut Question,
    submitter_reputation: &mut UserReputation,
    curator: Identity,
    question_id: u64,
) -> (r: Result<(), QuestionBankError>)
    requires
        old(submitter_reputation).user == old(question).submitter,
        old(question).votes_approve > old(question).votes_reject ==> old(bank).active_questions
            < u64::MAX,
    ensures
        ({
            let q = *old(question);
            let b = *old(bank);
            let is_curator = b.curators@.contains(curator);
            &&& !is_curator ==> r == Err::<(), QuestionBankError>(
                QuestionBankError::UnauthorizedCurator,
            )
            &&& is_curator && q.id != question_id ==> r == Err::<(), QuestionBankError>(
                QuestionBankError::QuestionNotFound,
            )
            &&& is_curator && q.id == question_id && q.status != QuestionStatus::Pending ==> r
                == Err::<(), QuestionBankError>(QuestionBankError::QuestionNotPending)
            &&& is_curator && q.id == question_id && q.status == QuestionStatus::Pending
                && q.total_votes() < QUORUM ==> r == Err::<(), QuestionBankError>(
                QuestionBankError::InsufficientVotes,
            )
            &&& r is Ok <==> is_curator && q.id == question_id && q.status
                == QuestionStatus::Pending && q.total_votes() >= QUORUM
            &&& r is Err ==> *final(bank) == b && *final(question) == q && *final(submitter_reputation) == *old(submitter_reputation)
            &&& r is Ok && q.votes_approve > q.votes_reject ==> {
                &&& *final(question) == (Question { status: QuestionStatus::Approved, ..q })
                &&& *final(bank) == (QuestionBank {
                    active_questions: (b.active_questions + 1) as u64,
                    ..b
                })
                &&& *final(submitter_reputation) == old(submitter_reputation).recorded(
                    ReputationAction::QuestionApproved,
                )
            }
            &&& r is Ok && q.votes_approve <= q.votes_reject ==> {
                &&& *final(question) == (Question { status: QuestionStatus::Rejected, ..q })
                &&& *final(bank) == b
                &&& *final(submitter_reputation) == old(submitter_reputation).recorded(
                    ReputationAction::QuestionRejected,
                )
            }
        }),
{
    if !contains_identity(&bank.curators, curator) {
        return Err(QuestionBankError::UnauthorizedCurator);
    }
    if question.id != question_id {
        return Err(QuestionBankError::QuestionNotFound);
    }
    if question.status != QuestionStatus::Pending {
        return Err(QuestionBankError::QuestionNotPending);
    }
    let total_votes: u64 = question.votes_approve as u64 + question.votes_reject as u64;
    if total_votes < QUORUM as u64 {
        return Err(QuestionBankError::InsufficientVotes);
    }
    if question.votes_approve > question.votes_reject {
        question.status = QuestionStatus::Approved;
        bank.active_questions = bank.active_questions + 1;
        update_reputation(submitter_reputation, ReputationAction::QuestionApproved);
    } else {
        question.status = QuestionStatus::Rejected;
        update_reputation(submitter_reputation, ReputationAction::QuestionRejected);
    }
    Ok(())
}

/// Adds `new_curator` to the bank's curators, on the authority's request.
///
/// Fails `UnauthorizedAuthority` unless `authority` is the bank's authority,
/// then `CuratorAlreadyExists` if the identity is already a curator, then
/// `TooManyCurators` if the curator list is full. On success the identity is
/// appended; on failure nothing changes.
pub fn add_curator(bank: &mut QuestionBank, authority: Identity, new_curator: Identity) -> (r:
    Result<(), QuestionBankError>)
    requires
        old(bank).wf(),
    ensures
        final(bank).wf(),
        authority != old(bank).authority ==> r == Err::<(), QuestionBankError>(
            QuestionBankError::UnauthorizedAuthority,
        ),
        authority == old(bank).authority && old(bank).curators@.contains(new_curator) ==> r
            == Err::<(), QuestionBankError>(QuestionBankError::CuratorAlreadyExists),
        authority == old(bank).authority && !old(bank).curators@.contains(new_curator) && old(bank).curators@.len() >= MAX_CURATORS ==> r == Err::<(), QuestionBankError>(
            QuestionBankError::TooManyCurators,
        ),
        r is Ok <==> authority == old(bank).authority && !old(bank).curators@.contains(new_curator)
            && old(bank).curators@.len() < MAX_CURATORS,
        r is Ok ==> final(bank).curators@ == old(bank).curators@.push(new_curator)
            && final(bank).authority == old(bank).authority && final(bank).total_questions == old(bank).total_questions && final(bank).active_questions == old(bank).active_questions,
        r is Err ==> *final(bank) == *old(bank),
{
    if authority != bank.authority {
        return Err(QuestionBankError::UnauthorizedAuthority);
    }
    if contains_identity(&bank.curators, new_curator) {
        return Err(QuestionBankError::CuratorAlreadyExists);
    }
    if bank.curators.len() >= MAX_CURATORS {
        return Err(QuestionBankError::TooManyCurators);
    }
    bank.curators.push(new_curator);
    proof {
        assert(old(bank).curators@.contains(old(bank).authority));
        let i = choose|i: int|
            0 <= i < old(bank).curators@.len() && old(bank).curators@[i] == old(bank).authority;
        assert(bank.curators@[i] == bank.authority);
    }
    Ok(())
}

/// Removes `curator_to_remove` from the bank's curators, on the authority's
/// request.
///
/// Fails `UnauthorizedAuthority` unless `authority` is the bank's authority,
/// then `CannotRemoveAuthority` if the authority itself is named, then
/// `CuratorNotFound` if the identity is not a curator. On success the identity
/// is taken out and the others keep their order; on failure nothing changes.
pub fn remove_curator(bank: &mut QuestionBank, authority: Identity, curator_to_remove: Identity) -> (r:
    Result<(), QuestionBankError>)
    requires
        old(bank).wf(),
    ensures
        final(bank).wf(),
        authority != old(bank).authority ==> r == Err::<(), QuestionBankError>(
            QuestionBankError::UnauthorizedAuthority,
        ),
        authority == old(bank).authority && curator_to_remove == old(bank).authority ==> r
            == Err::<(), QuestionBankError>(QuestionBankError::CannotRemoveAuthority),
        authority == old(bank).authority && curator_to_remove != old(bank).authority && !old(bank).curators@.contains(curator_to_remove) ==> r == Err::<(), QuestionBankError>(
            QuestionBankError::CuratorNotFound,
        ),
        r is Ok <==> authority == old(bank).authority && curator_to_remove != old(bank).authority
            && old(bank).curators@.contains(curator_to_remove),
        r is Ok ==> final(bank).curators@ == old(bank).curators@.remove(
            old(bank).curators@.index_of(curator_to_remove),
        ) && !final(bank).curators@.contains(curator_to_remove) && final(bank).authority == old(bank).authority && final(bank).total_questions == old(bank).total_questions && final(bank).active_questions == old(bank).active_questions,
        r is Err ==> *final(bank) == *old(bank),
{
    if authority != bank.authority {
        return Err(QuestionBankError::UnauthorizedAuthority);
    }
    if curator_to_remove == bank.authority {
        return Err(QuestionBankError::CannotRemoveAuthority);
    }
    match position_of(&bank.curators, curator_to_remove) {
        Some(pos) => {
            let ghost before = bank.curators@;
            bank.curators.remove(pos);
            proof {
                let j = before.index_of(curator_to_remove);
                assert(before.contains(curator_to_remove));
                assert(0 <= j < before.len() && before[j] == curator_to_remove);
                assert(j == pos as int);
                before.remove_ensures(pos as int);
                let k = choose|k: int| 0 <= k < before.len() && before[k] == bank.authority;
                assert(k != pos as int);
                if k < pos as int {
                    assert(bank.curators@[k] == bank.authority);
                } else {
                    assert(bank.curators@[k - 1] == bank.authority);
                }
                assert forall|a: int, b: int|
                    0 <= a < bank.curators@.len() && 0 <= b < bank.curators@.len() && a != b
                        implies bank.curators@[a] != bank.curators@[b] by {
                    let a0 = if a < pos as int { a } else { a + 1 };
                    let b0 = if b < pos as int { b } else { b + 1 };
                    assert(bank.curators@[a] == before[a0]);
                    assert(bank.curators@[b] == before[b0]);
                }
                if bank.curators@.contains(curator_to_remove) {
                    let m = choose|m: int|
                        0 <= m < bank.curators@.len() && bank.curators@[m] == curator_to_remove;
                    let m0 = if m < pos as int { m } else { m + 1 };
                    assert(before[m0] == curator_to_remove);
                }
            }
            Ok(())
        },
        None => Err(QuestionBankError::CuratorNotFound),
    }
}

/// Most ids that one listing of approved questions returns.
pub const MAX_LISTED_QUESTIONS: u64 = 50;

/// The ids of the bank's approved questions, up to a listing's cap.
///
/// The bank keeps a count of approved questions and no index over them, so
/// the listing is the first `min(active_questions, 50)` ids in order; the
/// category and difficulty filters select nothing further.
pub fn get_approved_questions(
    bank: &QuestionBank,
    category: Option<String>,
    difficulty: Option<u8>,
) -> (r: Vec<u64>)
    ensures
        r@.len() == if bank.active_questions < MAX_LISTED_QUESTIONS {
            bank.active_questions
        } else {
            MAX_LISTED_QUESTIONS
        },
        forall|i: int| 0 <= i < r@.len() ==> r@[i] == i,
{
    let limit: u64 = if bank.active_questions < MAX_LISTED_QUESTIONS {
        bank.active_questions
    } else {
        MAX_LISTED_QUESTIONS
    };
    let mut ids: Vec<u64> = Vec::new();
    let mut i: u64 = 0;
    while i < limit
        invariant
            i <= limit <= MAX_LISTED_QUESTIONS,
            ids@.len() == i,
            forall|j: int| 0 <= j < i ==> ids@[j] == j,
        decreases limit - i,
    {
        ids.push(i);
        i += 1;
    }
    ids
}

} // verus!
