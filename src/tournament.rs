use vstd::prelude::*;
use vstd::string::StrSliceExecFns;

use crate::identity::Identity;
use crate::rewards::{Asset, Transfer};

verus! {

pub const MAX_TOURNAMENT_NAME_LEN: usize = 100;

pub const MAX_DESCRIPTION_LEN: usize = 500;

pub const MIN_QUESTION_COUNT: u8 = 5;

pub const MAX_QUESTION_COUNT: u8 = 50;

/// Fewest participants with which a tournament may start.
pub const MIN_PARTICIPANTS: u32 = 2;

/// Points for each answer counted as correct.
pub const POINTS_PER_ANSWER: u32 = 10;

/// The registry of tournaments: one per deployment.
#[derive(Clone, Copy, PartialEq, Eq, Structural, Debug)]
pub struct TournamentManagerState {
    pub authority: Identity,
    pub tournament_count: u64,
    pub total_participants: u64,
}

#[derive(Clone, Copy, PartialEq, Eq, Structural, Debug)]
pub enum TournamentStatus {
    Registration,
    Active,
    Ended,
    Cancelled,
}

#[derive(Clone, Debug)]
pub struct Tournament {
    pub id: u64,
    pub organizer: Identity,
    pub name: String,
    pub description: String,
    pub entry_fee: u64,
    pub prize_pool: u64,
    pub max_participants: u32,
    pub current_participants: u32,
    pub start_time: i64,
    pub duration: i64,
    pub question_count: u8,
    pub category: Option<String>,
    pub difficulty: Option<u8>,
    pub status: TournamentStatus,
    pub created_at: i64,
    pub actual_start_time: Option<i64>,
    pub ended_at: Option<i64>,
}

/// One participant's entry in one tournament.
#[derive(Clone, Copy, PartialEq, Eq, Structural, Debug)]
pub struct Registration {
    pub participant: Identity,
    pub tournament_id: u64,
    pub registered_at: i64,
    pub score: u32,
    pub completed: bool,
    pub submission_time: Option<i64>,
}

#[derive(Clone, Copy, PartialEq, Eq, Structural, Debug)]
pub enum TournamentError {
    NameTooLong,
    DescriptionTooLong,
    InvalidMaxParticipants,
    InvalidStartTime,
    InvalidDuration,
    InvalidQuestionCount,
    RegistrationClosed,
    TournamentFull,
    TournamentStarted,
    InvalidStatus,
    TournamentNotReady,
    InsufficientParticipants,
    TournamentNotActive,
    AlreadySubmitted,
    InvalidAnswerCount,
    TournamentEnded,
    TournamentNotEnded,
    InvalidPrizeData,
    InsufficientPrizePool,
    UnauthorizedOrganizer,
}

impl Tournament {
    /// A started tournament knows when it started, and its play time can be
    /// added to that without leaving the range of a timestamp.
    pub open spec fn wf(&self) -> bool {
        &&& self.duration > 0
        &&& self.status == TournamentStatus::Active ==> self.actual_start_time is Some
        &&& self.actual_start_time is Some ==> self.actual_start_time->Some_0 + self.duration
            <= i64::MAX
    }

    pub fn is_consistent(&self) -> (r: bool)
        ensures
            r == self.wf(),
    {
        if self.duration <= 0 {
            return false;
        }
        match self.actual_start_time {
            Some(s) => s <= i64::MAX - self.duration,
            None => self.status != TournamentStatus::Active,
        }
    }

    pub open spec fn spec_end_time(&self) -> int {
        self.actual_start_time->Some_0 + self.duration
    }
}

/// A new registry with no tournaments.
pub fn initialize(authority: Identity) -> (r: TournamentManagerState)
    ensures
        r.authority == authority,
        r.tournament_count == 0,
        r.total_participants == 0,
{
    TournamentManagerState { authority, tournament_count: 0, total_participants: 0 }
}

/// The error with which creating a tournament fails at time `now`, if any,
/// in the order the checks are made.
pub open spec fn creation_error(
    name: Seq<char>,
    description: Seq<char>,
    max_participants: u32,
    start_time: i64,
    duration: i64,
    question_count: u8,
    now: i64,
) -> Option<TournamentError> {
    if name.len() > MAX_TOURNAMENT_NAME_LEN {
        Some(TournamentError::NameTooLong)
    } else if description.len() > MAX_DESCRIPTION_LEN {
        Some(TournamentError::DescriptionTooLong)
    } else if max_participants == 0 {
        Some(TournamentError::InvalidMaxParticipants)
    } else if start_time <= now {
        Some(TournamentError::InvalidStartTime)
    } else if duration <= 0 {
        Some(TournamentError::InvalidDuration)
    } else if question_count < MIN_QUESTION_COUNT || question_count > MAX_QUESTION_COUNT {
        Some(TournamentError::InvalidQuestionCount)
    } else {
        None
    }
}

/// Opens registration for a new tournament organised by `organizer`.
///
/// On success the tournament takes the registry's next id and the registry's
/// count goes up by one; on failure the registry is unchanged.
pub fn create_tournament(
    manager: &mut TournamentManagerState,
    organizer: Identity,
    name: String,
    description: String,
    entry_fee: u64,
    prize_pool: u64,
    max_participants: u32,
    start_time: i64,
    duration: i64,
    question_count: u8,
    category: Option<String>,
    difficulty: Option<u8>,
    now: i64,
) -> (r: Result<Tournament, TournamentError>)
    requires
        old(manager).tournament_count < u64::MAX,
    ensures
        match creation_error(
            name@,
            description@,
            max_participants,
            start_time,
            duration,
            question_count,
            now,
        ) {
            Some(e) => r == Err::<Tournament, TournamentError>(e) && *final(manager) == *old(
                manager),
            None => r is Ok && *final(manager) == (TournamentManagerState {
                tournament_count: (old(manager).tournament_count + 1) as u64,
                ..*old(manager)
            }),
        },
        r is Ok ==> {
            let t = r->Ok_0;
            &&& t.id == old(manager).tournament_count
            &&& t.organizer == organizer
            &&& t.name == name
            &&& t.description == description
            &&& t.entry_fee == entry_fee
            &&& t.prize_pool == prize_pool
            &&& t.max_participants == max_participants
            &&& t.current_participants == 0
            &&& t.start_time == start_time
            &&& t.duration == duration
            &&& t.question_count == question_count
            &&& t.category == category
            &&& t.difficulty == difficulty
            &&& t.status == TournamentStatus::Registration
            &&& t.created_at == now
            &&& t.actual_start_time is None
            &&& t.ended_at is None
            &&& t.wf()
        },
{
    if name.as_str().unicode_len() > MAX_TOURNAMENT_NAME_LEN {
        return Err(TournamentError::NameTooLong);
    }
    if description.as_str().unicode_len() > MAX_DESCRIPTION_LEN {
        return Err(TournamentError::DescriptionTooLong);
    }
    if max_participants == 0 {
        return Err(TournamentError::InvalidMaxParticipants);
    }
    if start_time <= now {
        return Err(TournamentError::InvalidStartTime);
    }
    if duration <= 0 {
        return Err(TournamentError::InvalidDuration);
    }
    if question_count < MIN_QUESTION_COUNT || question_count > MAX_QUESTION_COUNT {
        return Err(TournamentError::InvalidQuestionCount);
    }
    let tournament = Tournament {
        id: manager.tournament_count,
        organizer,
        name,
        description,
        entry_fee,
        prize_pool,
        max_participants,
        current_participants: 0,
        start_time,
        duration,
        question_count,
        category,
        difficulty,
        status: TournamentStatus::Registration,
        created_at: now,
        actual_start_time: None,
        ended_at: None,
    };
    manager.tournament_count = manager.tournament_count + 1;
    Ok(tournament)
}

/// Enters `participant` in a tournament that is still taking registrations.
///
/// Fails `RegistrationClosed` unless registration is open, then
/// `TournamentFull` if every place is taken, then `TournamentStarted` if
/// `now` is at or past the start time. On success the tournament has one
/// more participant and its prize pool grows by the entry fee, which is
/// returned as a token transfer into the tournament's vault when it is not
/// zero.
pub fn register_for_tournament(tournament: &mut Tournament, participant: Identity, now: i64) -> (r:
    Result<(Registration, Option<Transfer>), TournamentError>)
    requires
        old(tournament).prize_pool + old(tournament).entry_fee <= u64::MAX,
    ensures
        ({
            let t = *old(tournament);
            &&& t.status != TournamentStatus::Registration ==> r == Err::<
                (Registration, Option<Transfer>),
                TournamentError,
            >(TournamentError::RegistrationClosed)
            &&& t.status == TournamentStatus::Registration && t.current_participants
                >= t.max_participants ==> r == Err::<
                (Registration, Option<Transfer>),
                TournamentError,
            >(TournamentError::TournamentFull)
            &&& t.status == TournamentStatus::Registration && t.current_participants
                < t.max_participants && now >= t.start_time ==> r == Err::<
                (Registration, Option<Transfer>),
                TournamentError,
            >(TournamentError::TournamentStarted)
            &&& r is Ok <==> t.status == TournamentStatus::Registration && t.current_participants
                < t.max_participants && now < t.start_time
            &&& r is Err ==> *final(tournament) == t
            &&& r is Ok ==> {
                &&& *final(tournament) == (Tournament {
                    current_participants: (t.current_participants + 1) as u32,
                    prize_pool: (t.prize_pool + t.entry_fee) as u64,
                    ..t
                })
                &&& r->Ok_0.0 == (Registration {
                    participant,
                    tournament_id: t.id,
                    registered_at: now,
                    score: 0,
                    completed: false,
                    submission_time: None,
                })
                &&& r->Ok_0.1 == if t.entry_fee > 0 {
                    Some(Transfer { asset: Asset::Token, amount: t.entry_fee })
                } else {
                    None
                }
            }
        }),
{
    if tournament.status != TournamentStatus::Registration {
        return Err(TournamentError::RegistrationClosed);
    }
    if tournament.current_participants >= tournament.max_participants {
        return Err(TournamentError::TournamentFull);
    }
    if now >= tournament.start_time {
        return Err(TournamentError::TournamentStarted);
    }
    let fee = if tournament.entry_fee > 0 {
        Some(Transfer { asset: Asset::Token, amount: tournament.entry_fee })
    } else {
        None
    };
    let registration = Registration {
        participant,
        tournament_id: tournament.id,
        registered_at: now,
        score: 0,
        completed: false,
        submission_time: None,
    };
    tournament.current_participants = tournament.current_participants + 1;
    tournament.prize_pool = tournament.prize_pool + tournament.entry_fee;
    Ok((registration, fee))
}

/// Starts play, on the organizer's request, once the start time has come and
/// enough participants have registered.
pub fn start_tournament(tournament: &mut Tournament, organizer: Identity, now: i64) -> (r: Result<
    (),
    TournamentError,
>)
    requires
        old(tournament).wf(),
        now + old(tournament).duration <= i64::MAX,
    ensures
        final(tournament).wf(),
        ({
            let t = *old(tournament);
            &&& organizer != t.organizer ==> r == Err::<(), TournamentError>(
                TournamentError::UnauthorizedOrganizer,
            )
            &&& organizer == t.organizer && t.status != TournamentStatus::Registration ==> r
                == Err::<(), TournamentError>(TournamentError::InvalidStatus)
            &&& organizer == t.organizer && t.status == TournamentStatus::Registration && now
                < t.start_time ==> r == Err::<(), TournamentError>(
                TournamentError::TournamentNotReady,
            )
            &&& organizer == t.organizer && t.status == TournamentStatus::Registration && now
                >= t.start_time && t.current_participants < MIN_PARTICIPANTS ==> r == Err::<
                (),
                TournamentError,
            >(TournamentError::InsufficientParticipants)
            &&& r is Ok <==> organizer == t.organizer && t.status == TournamentStatus::Registration
                && now >= t.start_time && t.current_participants >= MIN_PARTICIPANTS
            &&& r is Ok ==> *final(tournament) == (Tournament {
                status: TournamentStatus::Active,
                actual_start_time: Some(now),
                ..t
            })
            &&& r is Err ==> *final(tournament) == t
        }),
{
    if organizer != tournament.organizer {
        return Err(TournamentError::UnauthorizedOrganizer);
    }
    if tournament.status != TournamentStatus::Registration {
        return Err(TournamentError::InvalidStatus);
    }
    if now < tournament.start_time {
        return Err(TournamentError::TournamentNotReady);
    }
    if tournament.current_participants < MIN_PARTICIPANTS {
        return Err(TournamentError::InsufficientParticipants);
    }
    tournament.status = TournamentStatus::Active;
    tournament.actual_start_time = Some(now);
    Ok(())
}

/// The points for a set of `n` answers: each answer whose position leaves a
/// remainder under 7 when divided by 10 counts as correct.
pub open spec fn answer_score(n: nat) -> nat
    decreases n,
{
    if n == 0 {
        0
    } else {
        answer_score((n - 1) as nat) + if (n - 1) % 10 < 7 {
            POINTS_PER_ANSWER as nat
        } else {
            0
        }
    }
}

proof fn lemma_answer_score_bound(n: nat)
    ensures
        answer_score(n) <= POINTS_PER_ANSWER * n,
    decreases n,
{
    if n > 0 {
        lemma_answer_score_bound((n - 1) as nat);
    }
}

/// Scores a participant's answers while the tournament is in play.
///
/// Fails `TournamentNotActive` unless play is on, then `AlreadySubmitted` if
/// this registration has answered already, then `InvalidAnswerCount` unless
/// there is one answer per question, then `TournamentEnded` if `now` is past
/// the end of play. On success the registration records the score, that it
/// is complete, and when.
pub fn submit_answers(
    tournament: &Tournament,
    registration: &mut Registration,
    answers: &Vec<u8>,
    now: i64,
) -> (r: Result<(), TournamentError>)
    requires
        tournament.wf(),
    ensures
        ({
            let t = *tournament;
            let g = *old(registration);
            &&& t.status != TournamentStatus::Active ==> r == Err::<(), TournamentError>(
                TournamentError::TournamentNotActive,
            )
            &&& t.status == TournamentStatus::Active && g.completed ==> r == Err::<
                (),
                TournamentError,
            >(TournamentError::AlreadySubmitted)
            &&& t.status == TournamentStatus::Active && !g.completed && answers@.len()
                != t.question_count ==> r == Err::<(), TournamentError>(
                TournamentError::InvalidAnswerCount,
            )
            &&& t.status == TournamentStatus::Active && !g.completed && answers@.len()
                == t.question_count && now > t.spec_end_time() ==> r == Err::<(), TournamentError>(
                TournamentError::TournamentEnded,
            )
            &&& r is Ok <==> t.status == TournamentStatus::Active && !g.completed && answers@.len()
                == t.question_count && now <= t.spec_end_time()
            &&& r is Ok ==> *final(registration) == (Registration {
                score: answer_score(answers@.len()) as u32,
                completed: true,
                submission_time: Some(now),
                ..g
            })
            &&& r is Err ==> *final(registration) == g
        }),
{
    if tournament.status != TournamentStatus::Active {
        return Err(TournamentError::TournamentNotActive);
    }
    if registration.completed {
        return Err(TournamentError::AlreadySubmitted);
    }
    if answers.len() != tournament.question_count as usize {
        return Err(TournamentError::InvalidAnswerCount);
    }
    let start = match tournament.actual_start_time {
        Some(s) => s,
        None => {
            return Err(TournamentError::TournamentNotActive);
        },
    };
    let tournament_end_time: i64 = start + tournament.duration;
    if now > tournament_end_time {
        return Err(TournamentError::TournamentEnded);
    }
    let n: usize = answers.len();
    let mut score: u32 = 0;
    let mut i: usize = 0;
    while i < n
        invariant
            n == answers@.len(),
            n <= u8::MAX,
            0 <= i <= n,
            score == answer_score(i as nat),
        decreases n - i,
    {
        proof {
            lemma_answer_score_bound(i as nat);
            lemma_answer_score_bound((i + 1) as nat);
        }
        if i % 10 < 7 {
            score = score + POINTS_PER_ANSWER;
        }
        i += 1;
    }
    registration.score = score;
    registration.completed = true;
    registration.submission_time = Some(now);
    Ok(())
}

/// Ends play, on the organizer's request, once its time is up.
pub fn end_tournament(tournament: &mut Tournament, organizer: Identity, now: i64) -> (r: Result<
    (),
    TournamentError,
>)
    requires
        old(tournament).wf(),
    ensures
        final(tournament).wf(),
        ({
            let t = *old(tournament);
            &&& organizer != t.organizer ==> r == Err::<(), TournamentError>(
                TournamentError::UnauthorizedOrganizer,
            )
            &&& organizer == t.organizer && t.status != TournamentStatus::Active ==> r == Err::<
                (),
                TournamentError,
            >(TournamentError::TournamentNotActive)
            &&& organizer == t.organizer && t.status == TournamentStatus::Active && now
                < t.spec_end_time() ==> r == Err::<(), TournamentError>(
                TournamentError::TournamentNotEnded,
            )
            &&& r is Ok <==> organizer == t.organizer && t.status == TournamentStatus::Active && now
                >= t.spec_end_time()
            &&& r is Ok ==> *final(tournament) == (Tournament {
                status: TournamentStatus::Ended,
                ended_at: Some(now),
                ..t
            })
            &&& r is Err ==> *final(tournament) == t
        }),
{
    if organizer != tournament.organizer {
        return Err(TournamentError::UnauthorizedOrganizer);
    }
    if tournament.status != TournamentStatus::Active {
        return Err(TournamentError::TournamentNotActive);
    }
    let start = match tournament.actual_start_time {
        Some(s) => s,
        None => {
            return Err(TournamentError::TournamentNotActive);
        },
    };
    if now < start + tournament.duration {
        return Err(TournamentError::TournamentNotEnded);
    }
    tournament.status = TournamentStatus::Ended;
    tournament.ended_at = Some(now);
    Ok(())
}

/// The sum of a sequence of amounts.
pub open spec fn total_of(s: Seq<u64>) -> int
    decreases s.len(),
{
    if s.len() == 0 {
        0
    } else {
        total_of(s.drop_last()) + s.last()
    }
}

proof fn lemma_total_of_prefix(s: Seq<u64>, i: int)
    requires
        0 <= i <= s.len(),
    ensures
        total_of(s.take(i)) <= total_of(s),
    decreases s.len() - i,
{
    if i < s.len() {
        lemma_total_of_prefix(s, i + 1);
        assert(s.take(i + 1).drop_last() =~= s.take(i));
    } else {
        assert(s.take(i) =~= s);
    }
}

/// Checks a prize list for an ended tournament, on the organizer's request:
/// one amount per winner, and no more in all than the prize pool.
pub fn distribute_prizes(
    tournament: &Tournament,
    organizer: Identity,
    winners: &Vec<Identity>,
    prize_amounts: &Vec<u64>,
) -> (r: Result<(), TournamentError>)
    ensures
        organizer != tournament.organizer ==> r == Err::<(), TournamentError>(
            TournamentError::UnauthorizedOrganizer,
        ),
        organizer == tournament.organizer && tournament.status != TournamentStatus::Ended ==> r
            == Err::<(), TournamentError>(TournamentError::TournamentNotEnded),
        organizer == tournament.organizer && tournament.status == TournamentStatus::Ended
            && winners@.len() != prize_amounts@.len() ==> r == Err::<(), TournamentError>(
            TournamentError::InvalidPrizeData,
        ),
        organizer == tournament.organizer && tournament.status == TournamentStatus::Ended
            && winners@.len() == prize_amounts@.len() && total_of(prize_amounts@)
            > tournament.prize_pool ==> r == Err::<(), TournamentError>(
            TournamentError::InsufficientPrizePool,
        ),
        r is Ok <==> organizer == tournament.organizer && tournament.status
            == TournamentStatus::Ended && winners@.len() == prize_amounts@.len() && total_of(
            prize_amounts@,
        ) <= tournament.prize_pool,
{
    if organizer != tournament.organizer {
        return Err(TournamentError::UnauthorizedOrganizer);
    }
    if tournament.status != TournamentStatus::Ended {
        return Err(TournamentError::TournamentNotEnded);
    }
    if winners.len() != prize_amounts.len() {
        return Err(TournamentError::InvalidPrizeData);
    }
    let mut total_prizes: u64 = 0;
    let mut i: usize = 0;
    while i < prize_amounts.len()
        invariant
            0 <= i <= prize_amounts@.len(),
            total_prizes == total_of(prize_amounts@.take(i as int)),
            total_prizes <= tournament.prize_pool,
            organizer == tournament.organizer,
            tournament.status == TournamentStatus::Ended,
            winners@.len() == prize_amounts@.len(),
        decreases prize_amounts@.len() - i,
    {
        assert(prize_amounts@.take(i as int + 1).drop_last() =~= prize_amounts@.take(i as int));
        if prize_amounts[i] > tournament.prize_pool - total_prizes {
            proof {
                lemma_total_of_prefix(prize_amounts@, i as int + 1);
            }
            return Err(TournamentError::InsufficientPrizePool);
        }
        total_prizes = total_prizes + prize_amounts[i];
        i += 1;
    }
    assert(prize_amounts@.take(i as int) =~= prize_amounts@);
    Ok(())
}

} // verus!
