use gg_ledger::{
    check_description, create_proposal, vote_on_proposal, CustomError, Identity, Proposal,
    MAX_VOTERS, VOTING_PERIOD,
};

fn id(n: u8) -> Identity {
    Identity { bytes: [n; 32] }
}

fn voter(n: u16) -> Identity {
    let mut bytes = [0u8; 32];
    bytes[0] = (n % 256) as u8;
    bytes[31] = (n / 256) as u8;
    Identity { bytes }
}

fn open_proposal(now: i64) -> Proposal {
    create_proposal(id(1), String::from("Fund the archive"), now).unwrap()
}

#[test]
fn voting_constants() {
    assert_eq!(VOTING_PERIOD, 7 * 24 * 60 * 60);
    assert_eq!(VOTING_PERIOD, 604_800);
    assert_eq!(MAX_VOTERS, 100);
}

#[test]
fn create_proposal_starts_with_an_empty_tally() {
    let p = create_proposal(id(1), String::from("Fund the archive"), 1_700_000_000).unwrap();
    assert_eq!(
        p,
        Proposal {
            creator: id(1),
            description: String::from("Fund the archive"),
            votes_for: 0,
            votes_against: 0,
            voting_deadline: 1_700_604_800,
            passed: false,
            voters: Vec::new(),
        }
    );
    assert!(p.is_well_formed());
}

#[test]
fn create_proposal_rejects_an_empty_description() {
    let r = create_proposal(id(1), String::new(), 5);
    assert_eq!(r, Err(CustomError::InvalidProposalDescription));
}

#[test]
fn one_vote_for_passes_the_proposal() {
    let mut p = open_proposal(1_000);
    assert_eq!(vote_on_proposal(&mut p, id(2), true, 1_001), Ok(()));
    assert_eq!(p.votes_for, 1);
    assert_eq!(p.votes_against, 0);
    assert!(p.passed);
    assert_eq!(p.voters, vec![id(2)]);
    assert!(p.is_well_formed());
}

#[test]
fn one_vote_against_does_not_pass_the_proposal() {
    let mut p = open_proposal(1_000);
    assert_eq!(vote_on_proposal(&mut p, id(2), false, 1_001), Ok(()));
    assert_eq!(p.votes_for, 0);
    assert_eq!(p.votes_against, 1);
    assert!(!p.passed);
    assert_eq!(p.voters, vec![id(2)]);
}

#[test]
fn a_tie_does_not_pass_the_proposal() {
    let mut p = open_proposal(1_000);
    assert_eq!(vote_on_proposal(&mut p, id(2), false, 1_001), Ok(()));
    assert_eq!(vote_on_proposal(&mut p, id(3), true, 1_002), Ok(()));
    assert_eq!((p.votes_for, p.votes_against), (1, 1));
    assert!(!p.passed);
    assert_eq!(vote_on_proposal(&mut p, id(4), true, 1_003), Ok(()));
    assert_eq!((p.votes_for, p.votes_against), (2, 1));
    assert!(p.passed);
    assert_eq!(p.voters, vec![id(2), id(3), id(4)]);
}

#[test]
fn passed_stays_set_when_the_majority_is_lost() {
    let mut p = open_proposal(1_000);
    assert_eq!(vote_on_proposal(&mut p, id(2), true, 1_001), Ok(()));
    assert!(p.passed);
    assert_eq!(vote_on_proposal(&mut p, id(3), false, 1_002), Ok(()));
    assert_eq!(vote_on_proposal(&mut p, id(4), false, 1_003), Ok(()));
    assert_eq!((p.votes_for, p.votes_against), (1, 2));
    assert!(p.passed);
}

#[test]
fn the_same_identity_cannot_vote_twice() {
    let mut p = open_proposal(1_000);
    assert_eq!(vote_on_proposal(&mut p, id(2), true, 1_001), Ok(()));
    let after_first = p.clone();
    assert_eq!(vote_on_proposal(&mut p, id(2), true, 1_002), Err(CustomError::AlreadyVoted));
    assert_eq!(p, after_first);
    assert_eq!(vote_on_proposal(&mut p, id(2), false, 1_003), Err(CustomError::AlreadyVoted));
    assert_eq!(p.votes_for, 1);
    assert_eq!(p.votes_against, 0);
    assert_eq!(p, after_first);
}

#[test]
fn votes_are_counted_up_to_the_deadline() {
    let mut p = open_proposal(1_000);
    assert_eq!(p.voting_deadline, 605_800);
    assert_eq!(vote_on_proposal(&mut p, id(2), true, 605_800), Ok(()));
    let at_deadline = p.clone();
    assert_eq!(vote_on_proposal(&mut p, id(3), true, 605_801), Err(CustomError::VotingPeriodEnded));
    assert_eq!(p, at_deadline);
}

#[test]
fn the_deadline_is_reported_before_a_repeated_vote() {
    let mut p = open_proposal(1_000);
    assert_eq!(vote_on_proposal(&mut p, id(2), true, 2_000), Ok(()));
    assert_eq!(vote_on_proposal(&mut p, id(2), true, 605_801), Err(CustomError::VotingPeriodEnded));
}

#[test]
fn has_voted_follows_the_list() {
    let mut p = open_proposal(1_000);
    assert!(!p.has_voted(&id(2)));
    assert_eq!(vote_on_proposal(&mut p, id(2), false, 1_001), Ok(()));
    assert!(p.has_voted(&id(2)));
    assert!(!p.has_voted(&id(3)));
}

#[test]
fn the_list_of_voters_holds_one_hundred() {
    let mut p = open_proposal(0);
    for n in 0..100u16 {
        assert_eq!(vote_on_proposal(&mut p, voter(n), n % 2 == 0, 10), Ok(()));
    }
    assert_eq!(p.voters.len(), 100);
    assert_eq!((p.votes_for, p.votes_against), (50, 50));
    assert!(p.passed);
    assert!(p.is_well_formed());
    let full = p.clone();
    assert_eq!(vote_on_proposal(&mut p, voter(100), true, 10), Err(CustomError::CapacityExceeded));
    assert_eq!(p, full);
    assert_eq!(vote_on_proposal(&mut p, voter(7), true, 10), Err(CustomError::AlreadyVoted));
    let late = vote_on_proposal(&mut p, voter(100), true, 604_801);
    assert_eq!(late, Err(CustomError::VotingPeriodEnded));
    assert_eq!(p, full);
}

#[test]
fn well_formedness_of_stored_records() {
    let good = Proposal {
        creator: id(1),
        description: String::from("x"),
        votes_for: 1,
        votes_against: 1,
        voting_deadline: 10,
        passed: false,
        voters: vec![id(2), id(3)],
    };
    assert!(good.is_well_formed());
    let miscounted = Proposal { votes_for: 2, ..good.clone() };
    assert!(!miscounted.is_well_formed());
    let undercounted = Proposal { votes_against: 0, ..good.clone() };
    assert!(!undercounted.is_well_formed());
    let huge = Proposal { votes_for: u64::MAX, votes_against: 3, ..good.clone() };
    assert!(!huge.is_well_formed());
    let repeated = Proposal { voters: vec![id(2), id(2)], ..good.clone() };
    assert!(!repeated.is_well_formed());
    let mut many: Vec<Identity> = Vec::new();
    for n in 0..101u16 {
        many.push(voter(n));
    }
    let crowded = Proposal { votes_for: 101, votes_against: 0, voters: many, ..good.clone() };
    assert!(!crowded.is_well_formed());
}

#[test]
fn a_rejected_proposal_asks_nothing_of_the_time() {
    let r = create_proposal(id(1), String::new(), i64::MAX);
    assert_eq!(r, Err(CustomError::InvalidProposalDescription));
}

#[test]
fn create_proposal_accepts_the_last_time_with_room_for_a_week() {
    let p = create_proposal(id(1), String::from("x"), i64::MAX - 604_800).unwrap();
    assert_eq!(p.voting_deadline, i64::MAX);
}

#[test]
fn check_description_wants_some_text() {
    assert_eq!(check_description("Fund the archive"), Ok(()));
    assert_eq!(check_description(""), Err(CustomError::InvalidProposalDescription));
}
