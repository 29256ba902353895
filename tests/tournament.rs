use triviacomb::identity::Identity;
use triviacomb::rewards::{Asset, Transfer};
use triviacomb::tournament::{
    create_tournament, distribute_prizes, end_tournament, initialize, register_for_tournament,
    start_tournament, submit_answers, Registration, Tournament, TournamentError,
    TournamentManagerState, TournamentStatus,
};

const NOW: i64 = 100;
const START: i64 = 1_000;
const DURATION: i64 = 600;

fn key(n: u128) -> Identity {
    Identity::new(1, n)
}

fn create(
    manager: &mut TournamentManagerState,
    name: &str,
    max: u32,
    start: i64,
    duration: i64,
    questions: u8,
) -> Result<Tournament, TournamentError> {
    create_tournament(
        manager,
        key(1),
        name.to_string(),
        "A friendly round".to_string(),
        25,
        1_000,
        max,
        start,
        duration,
        questions,
        Some("Science".to_string()),
        Some(2),
        NOW,
    )
}

fn registered(n: u128) -> (Tournament, Vec<Registration>) {
    let mut manager = initialize(key(1));
    let mut t = create(&mut manager, "Cup", 10, START, DURATION, 10).unwrap();
    let mut regs = Vec::new();
    for p in 0..n {
        regs.push(register_for_tournament(&mut t, key(100 + p), NOW).unwrap().0);
    }
    (t, regs)
}

fn started(n: u128) -> (Tournament, Vec<Registration>) {
    let (mut t, regs) = registered(n);
    start_tournament(&mut t, key(1), START).unwrap();
    (t, regs)
}

#[test]
fn create_assigns_ids() {
    let mut manager = initialize(key(1));
    let a = create(&mut manager, "Cup", 10, START, DURATION, 10).unwrap();
    let b = create(&mut manager, "Cup 2", 10, START, DURATION, 5).unwrap();
    assert_eq!((a.id, b.id), (0, 1));
    assert_eq!(manager.tournament_count, 2);
    assert_eq!(b.status, TournamentStatus::Registration);
    assert_eq!(b.created_at, NOW);
    assert_eq!(b.question_count, 5);
    assert_eq!(b.category, Some("Science".to_string()));
}

#[test]
fn create_errors() {
    let mut m = initialize(key(1));
    let long = "n".repeat(101);
    assert_eq!(create(&mut m, &long, 10, START, DURATION, 10).err(), Some(TournamentError::NameTooLong));
    let r = create_tournament(
        &mut m, key(1), "Cup".to_string(), "d".repeat(501), 0, 0, 10, START, DURATION, 10, None, None, NOW,
    );
    assert_eq!(r.err(), Some(TournamentError::DescriptionTooLong));
    assert_eq!(create(&mut m, "Cup", 0, START, DURATION, 10).err(), Some(TournamentError::InvalidMaxParticipants));
    assert_eq!(create(&mut m, "Cup", 10, NOW, DURATION, 10).err(), Some(TournamentError::InvalidStartTime));
    assert_eq!(create(&mut m, "Cup", 10, START, 0, 10).err(), Some(TournamentError::InvalidDuration));
    assert_eq!(create(&mut m, "Cup", 10, START, DURATION, 4).err(), Some(TournamentError::InvalidQuestionCount));
    assert_eq!(create(&mut m, "Cup", 10, START, DURATION, 51).err(), Some(TournamentError::InvalidQuestionCount));
    assert_eq!(m.tournament_count, 0);
}

#[test]
fn registration_collects_fees() {
    let (t, regs) = registered(3);
    assert_eq!(t.current_participants, 3);
    assert_eq!(t.prize_pool, 1_075);
    assert_eq!(regs[2].participant, key(102));
    assert_eq!(regs[2].tournament_id, 0);
    assert!(!regs[2].completed);
    let (mut t2, _) = registered(0);
    let (_, fee) = register_for_tournament(&mut t2, key(5), NOW).unwrap();
    assert_eq!(fee, Some(Transfer { asset: Asset::Token, amount: 25 }));
}

#[test]
fn registration_errors() {
    let mut manager = initialize(key(1));
    let mut t = create(&mut manager, "Cup", 1, START, DURATION, 10).unwrap();
    assert_eq!(register_for_tournament(&mut t, key(2), START).err(), Some(TournamentError::TournamentStarted));
    register_for_tournament(&mut t, key(2), NOW).unwrap();
    assert_eq!(register_for_tournament(&mut t, key(3), NOW).err(), Some(TournamentError::TournamentFull));
    t.status = TournamentStatus::Active;
    assert_eq!(register_for_tournament(&mut t, key(3), NOW).err(), Some(TournamentError::RegistrationClosed));
    assert_eq!(t.current_participants, 1);
}

#[test]
fn start_rules() {
    let (mut t, _) = registered(1);
    assert_eq!(start_tournament(&mut t, key(9), START), Err(TournamentError::UnauthorizedOrganizer));
    assert_eq!(start_tournament(&mut t, key(1), START), Err(TournamentError::InsufficientParticipants));
    let (mut t, _) = registered(2);
    assert_eq!(start_tournament(&mut t, key(1), START - 1), Err(TournamentError::TournamentNotReady));
    start_tournament(&mut t, key(1), START + 3).unwrap();
    assert_eq!(t.status, TournamentStatus::Active);
    assert_eq!(t.actual_start_time, Some(START + 3));
    assert_eq!(start_tournament(&mut t, key(1), START + 4), Err(TournamentError::InvalidStatus));
}

#[test]
fn answers_are_scored() {
    let (t, mut regs) = started(2);
    submit_answers(&t, &mut regs[0], &vec![1u8; 10], START + 10).unwrap();
    assert_eq!(regs[0].score, 70);
    assert!(regs[0].completed);
    assert_eq!(regs[0].submission_time, Some(START + 10));
    assert_eq!(submit_answers(&t, &mut regs[0], &vec![1u8; 10], START + 11), Err(TournamentError::AlreadySubmitted));
    assert_eq!(submit_answers(&t, &mut regs[1], &vec![1u8; 9], START + 11), Err(TournamentError::InvalidAnswerCount));
    assert_eq!(
        submit_answers(&t, &mut regs[1], &vec![1u8; 10], START + DURATION + 1),
        Err(TournamentError::TournamentEnded)
    );
    assert_eq!(regs[1].score, 0);
}

#[test]
fn answers_score_partial_tens() {
    let mut manager = initialize(key(1));
    let mut t = create(&mut manager, "Cup", 10, START, DURATION, 18).unwrap();
    let mut a = register_for_tournament(&mut t, key(2), NOW).unwrap().0;
    register_for_tournament(&mut t, key(3), NOW).unwrap();
    assert_eq!(submit_answers(&t, &mut a, &vec![0u8; 18], START), Err(TournamentError::TournamentNotActive));
    start_tournament(&mut t, key(1), START).unwrap();
    submit_answers(&t, &mut a, &vec![0u8; 18], START + DURATION).unwrap();
    assert_eq!(a.score, 140);
}

#[test]
fn end_rules() {
    let (mut t, _) = started(2);
    assert_eq!(end_tournament(&mut t, key(9), START + DURATION), Err(TournamentError::UnauthorizedOrganizer));
    assert_eq!(end_tournament(&mut t, key(1), START + DURATION - 1), Err(TournamentError::TournamentNotEnded));
    end_tournament(&mut t, key(1), START + DURATION).unwrap();
    assert_eq!(t.status, TournamentStatus::Ended);
    assert_eq!(t.ended_at, Some(START + DURATION));
    assert_eq!(end_tournament(&mut t, key(1), START + DURATION), Err(TournamentError::TournamentNotActive));
}

#[test]
fn prize_rules() {
    let (mut t, _) = started(2);
    let winners = vec![key(100), key(101)];
    assert_eq!(distribute_prizes(&t, key(1), &winners, &vec![10, 20]), Err(TournamentError::TournamentNotEnded));
    end_tournament(&mut t, key(1), START + DURATION).unwrap();
    assert_eq!(distribute_prizes(&t, key(9), &winners, &vec![10, 20]), Err(TournamentError::UnauthorizedOrganizer));
    assert_eq!(distribute_prizes(&t, key(1), &winners, &vec![10]), Err(TournamentError::InvalidPrizeData));
    assert_eq!(t.prize_pool, 1_050);
    assert_eq!(distribute_prizes(&t, key(1), &winners, &vec![1_000, 50]), Ok(()));
    assert_eq!(distribute_prizes(&t, key(1), &winners, &vec![1_000, 51]), Err(TournamentError::InsufficientPrizePool));
    assert_eq!(
        distribute_prizes(&t, key(1), &winners, &vec![u64::MAX, u64::MAX]),
        Err(TournamentError::InsufficientPrizePool)
    );
}
