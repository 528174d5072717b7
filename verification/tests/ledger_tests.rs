use voting::entities::Voter;
use voting::errors::{CustomError, LedgerError, PollError, VotingError};
use voting::ledger::Ledger;

fn name(s: &str) -> Vec<u8> {
    s.as_bytes().to_vec()
}

#[test]
fn full_voting_scenario() {
    let mut l = Ledger::new();
    let p = l
        .initialize_poll(1, name("favourite letter"), 100, 200, 50)
        .unwrap();
    assert_eq!(p.poll_id, 1);
    assert_eq!(p.total_votes, 0);
    assert_eq!(p.candidate_amount, 0);

    let c = l.initialize_candidate(1, name("Alice")).unwrap();
    assert_eq!(c.candidate_votes, 0);
    assert_eq!(l.get_poll(1).unwrap().candidate_amount, 1);

    let v1 = Voter { id: 1 };
    let rec = l.vote(1, &name("Alice"), v1, 150).unwrap();
    assert!(rec.has_voted);
    assert_eq!(rec.poll_id, 1);
    assert_eq!(rec.voter, v1);
    assert_eq!(l.get_candidate(1, &name("Alice")).unwrap().candidate_votes, 1);
    assert_eq!(l.get_poll(1).unwrap().total_votes, 1);

    let again = l.vote(1, &name("Alice"), v1, 160);
    assert_eq!(
        again,
        Err(LedgerError::Custom(CustomError::AlreadyVoted))
    );
    assert_eq!(l.get_candidate(1, &name("Alice")).unwrap().candidate_votes, 1);
    assert_eq!(l.get_poll(1).unwrap().total_votes, 1);

    let v2 = Voter { id: 2 };
    let late = l.vote(1, &name("Alice"), v2, 250);
    assert_eq!(late, Err(LedgerError::Voting(VotingError::PollEnded)));
    assert_eq!(l.get_poll(1).unwrap().total_votes, 1);
}

#[test]
fn poll_end_zero_fails_with_invalid_timestamp() {
    let mut l = Ledger::new();
    let r = l.initialize_poll(1, name("zero end"), 0, 0, 0);
    assert_eq!(r, Err(LedgerError::Poll(PollError::InvalidTimestamp)));
    assert_eq!(l.polls.len(), 0);
    // the zero end time wins over the stale-end check even when now > 0
    let r2 = l.initialize_poll(1, name("zero end"), 0, 0, 500);
    assert_eq!(r2, Err(LedgerError::Poll(PollError::InvalidTimestamp)));
    assert_eq!(l.polls.len(), 0);
}

#[test]
fn poll_end_not_in_future_fails() {
    let mut l = Ledger::new();
    let r = l.initialize_poll(1, name("stale"), 0, 100, 100);
    assert_eq!(r, Err(LedgerError::Poll(PollError::InvalidPollEndTime)));
    let r2 = l.initialize_poll(1, name("stale"), 0, 50, 100);
    assert_eq!(r2, Err(LedgerError::Poll(PollError::InvalidPollEndTime)));
    assert_eq!(l.polls.len(), 0);
}

#[test]
fn duplicate_poll_id_fails() {
    let mut l = Ledger::new();
    l.initialize_poll(7, name("first"), 10, 100, 5).unwrap();
    let r = l.initialize_poll(7, name("second"), 20, 200, 5);
    assert_eq!(r, Err(LedgerError::AlreadyExists));
    assert_eq!(l.polls.len(), 1);
    assert_eq!(l.get_poll(7).unwrap().description, name("first"));
}

#[test]
fn description_length_bound() {
    let mut l = Ledger::new();
    let r = l.initialize_poll(1, vec![b'x'; 201], 10, 100, 5);
    assert_eq!(r, Err(LedgerError::InputTooLong));
    assert_eq!(l.polls.len(), 0);
    let ok = l.initialize_poll(1, vec![b'x'; 200], 10, 100, 5);
    assert!(ok.is_ok());
}

#[test]
fn candidate_name_length_bound() {
    let mut l = Ledger::new();
    l.initialize_poll(1, name("p"), 10, 100, 5).unwrap();
    let r = l.initialize_candidate(1, vec![b'n'; 33]);
    assert_eq!(r, Err(LedgerError::InputTooLong));
    assert_eq!(l.get_poll(1).unwrap().candidate_amount, 0);
    let ok = l.initialize_candidate(1, vec![b'n'; 32]);
    assert!(ok.is_ok());
    assert_eq!(l.get_poll(1).unwrap().candidate_amount, 1);
}

#[test]
fn candidate_needs_existing_poll() {
    let mut l = Ledger::new();
    let r = l.initialize_candidate(9, name("Bob"));
    assert_eq!(r, Err(LedgerError::NotFound));
    assert_eq!(l.candidates.len(), 0);
}

#[test]
fn duplicate_candidate_increments_amount_once() {
    let mut l = Ledger::new();
    l.initialize_poll(1, name("p"), 10, 100, 5).unwrap();
    l.initialize_candidate(1, name("Alice")).unwrap();
    let r = l.initialize_candidate(1, name("Alice"));
    assert_eq!(r, Err(LedgerError::AlreadyExists));
    assert_eq!(l.get_poll(1).unwrap().candidate_amount, 1);
    // the same name is fine in a different poll
    l.initialize_poll(2, name("q"), 10, 100, 5).unwrap();
    l.initialize_candidate(2, name("Alice")).unwrap();
    assert_eq!(l.get_poll(2).unwrap().candidate_amount, 1);
}

#[test]
fn vote_before_start_changes_nothing() {
    let mut l = Ledger::new();
    l.initialize_poll(1, name("p"), 100, 200, 50).unwrap();
    l.initialize_candidate(1, name("Alice")).unwrap();
    let v = Voter { id: 3 };
    let r = l.vote(1, &name("Alice"), v, 99);
    assert_eq!(r, Err(LedgerError::Voting(VotingError::PollNotStarted)));
    assert_eq!(l.get_poll(1).unwrap().total_votes, 0);
    assert_eq!(l.get_candidate(1, &name("Alice")).unwrap().candidate_votes, 0);
    // the failed attempt persisted nothing, so the voter can still vote
    assert!(!l.has_voter_voted(1, v));
    assert_eq!(l.records.len(), 0);
    let ok = l.vote(1, &name("Alice"), v, 100);
    assert!(ok.is_ok());
    assert!(l.has_voter_voted(1, v));
}

#[test]
fn vote_after_end_changes_nothing() {
    let mut l = Ledger::new();
    l.initialize_poll(1, name("p"), 100, 200, 50).unwrap();
    l.initialize_candidate(1, name("Alice")).unwrap();
    let v = Voter { id: 3 };
    let r = l.vote(1, &name("Alice"), v, 201);
    assert_eq!(r, Err(LedgerError::Voting(VotingError::PollEnded)));
    assert_eq!(l.get_poll(1).unwrap().total_votes, 0);
    assert_eq!(l.get_candidate(1, &name("Alice")).unwrap().candidate_votes, 0);
    assert!(!l.has_voter_voted(1, v));
    // the end time itself is still inside the window
    let ok = l.vote(1, &name("Alice"), v, 200);
    assert!(ok.is_ok());
}

#[test]
fn vote_in_unknown_poll_fails() {
    let mut l = Ledger::new();
    let r = l.vote(1, &name("Alice"), Voter { id: 1 }, 150);
    assert_eq!(r, Err(LedgerError::NotFound));
}

#[test]
fn vote_for_unknown_candidate_fails() {
    let mut l = Ledger::new();
    l.initialize_poll(1, name("p"), 100, 200, 50).unwrap();
    let r = l.vote(1, &name("Alice"), Voter { id: 1 }, 150);
    assert_eq!(r, Err(LedgerError::NotFound));
    assert_eq!(l.get_poll(1).unwrap().total_votes, 0);
    assert_eq!(l.records.len(), 0);
}

#[test]
fn one_ballot_per_voter_per_poll() {
    let mut l = Ledger::new();
    l.initialize_poll(1, name("p"), 100, 200, 50).unwrap();
    l.initialize_candidate(1, name("Alice")).unwrap();
    l.initialize_candidate(1, name("Bob")).unwrap();
    let v = Voter { id: 42 };
    assert!(l.vote(1, &name("Alice"), v, 150).is_ok());
    // repeated attempts fail whatever the candidate and whatever the time
    for now in [150u64, 160, 199] {
        assert_eq!(
            l.vote(1, &name("Bob"), v, now),
            Err(LedgerError::Custom(CustomError::AlreadyVoted))
        );
        assert_eq!(
            l.vote(1, &name("Alice"), v, now),
            Err(LedgerError::Custom(CustomError::AlreadyVoted))
        );
    }
    assert_eq!(l.get_poll(1).unwrap().total_votes, 1);
    // the same voter may still vote in another poll
    l.initialize_poll(2, name("q"), 100, 200, 50).unwrap();
    l.initialize_candidate(2, name("Alice")).unwrap();
    assert!(l.vote(2, &name("Alice"), v, 150).is_ok());
}

#[test]
fn totals_equal_candidate_sums() {
    let mut l = Ledger::new();
    l.initialize_poll(1, name("p"), 0, 1000, 0).unwrap();
    l.initialize_candidate(1, name("Alice")).unwrap();
    l.initialize_candidate(1, name("Bob")).unwrap();
    for id in 0..5u64 {
        l.vote(1, &name("Alice"), Voter { id }, 10).unwrap();
    }
    for id in 5..8u64 {
        l.vote(1, &name("Bob"), Voter { id }, 10).unwrap();
    }
    let alice = l.get_candidate(1, &name("Alice")).unwrap().candidate_votes;
    let bob = l.get_candidate(1, &name("Bob")).unwrap().candidate_votes;
    let poll = l.get_poll(1).unwrap();
    assert_eq!(alice, 5);
    assert_eq!(bob, 3);
    assert_eq!(poll.total_votes, alice + bob);
    assert_eq!(poll.candidate_amount, 2);
}

#[test]
fn lookups_on_missing_entities() {
    let mut l = Ledger::new();
    assert!(l.get_poll(1).is_none());
    assert!(l.get_candidate(1, &name("Alice")).is_none());
    assert!(!l.has_voter_voted(1, Voter { id: 1 }));
    l.initialize_poll(1, name("p"), 10, 100, 5).unwrap();
    assert!(l.get_poll(1).is_some());
    assert!(l.get_poll(2).is_none());
    assert!(l.get_candidate(1, &name("Alice")).is_none());
}

#[test]
fn error_messages() {
    assert_eq!(
        PollError::InvalidPollEndTime.message(),
        "Poll end time must be in the future"
    );
    assert_eq!(PollError::InvalidTimestamp.message(), "Invalid Unix timestamp");
    assert_eq!(
        CustomError::AlreadyVoted.message(),
        "Voter has already cast a vote in this poll"
    );
    assert_eq!(VotingError::PollNotStarted.message(), "Poll has not started yet");
    assert_eq!(VotingError::PollEnded.message(), "Poll has already ended");
    assert_eq!(
        LedgerError::Voting(VotingError::PollEnded).message(),
        "Poll has already ended"
    );
    assert_eq!(
        LedgerError::Poll(PollError::InvalidTimestamp).message(),
        "Invalid Unix timestamp"
    );
    assert_eq!(
        LedgerError::Custom(CustomError::AlreadyVoted).message(),
        "Voter has already cast a vote in this poll"
    );
    assert_eq!(LedgerError::NotFound.message(), "No entity exists at this key");
    assert_eq!(
        LedgerError::AlreadyExists.message(),
        "An entity already exists at this key"
    );
    assert_eq!(LedgerError::InputTooLong.message(), "Input exceeds its maximum length");
}

#[test]
fn start_end_ordering_is_not_checked() {
    let mut l = Ledger::new();
    // a window that never opens: start after end
    let p = l.initialize_poll(1, name("inverted"), 300, 200, 100).unwrap();
    assert_eq!(p.poll_start, 300);
    assert_eq!(p.poll_end, 200);
    l.initialize_candidate(1, name("Alice")).unwrap();
    // before the start it is not started, after the end it has ended:
    // no instant satisfies both, so no ballot ever lands
    assert_eq!(
        l.vote(1, &name("Alice"), Voter { id: 1 }, 250),
        Err(LedgerError::Voting(VotingError::PollNotStarted))
    );
    assert_eq!(
        l.vote(1, &name("Alice"), Voter { id: 1 }, 350),
        Err(LedgerError::Voting(VotingError::PollEnded))
    );
    // a poll already running at creation is accepted too
    let q = l.initialize_poll(2, name("running"), 0, 200, 100).unwrap();
    assert_eq!(q.poll_start, 0);
    l.initialize_candidate(2, name("Alice")).unwrap();
    assert!(l.vote(2, &name("Alice"), Voter { id: 1 }, 100).is_ok());
}
