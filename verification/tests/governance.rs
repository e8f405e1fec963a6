//! Behavioural tests of the governance state machine through its public
//! operations and accessors.

use governance::Error;
use governance::Event;
use governance::Pallet;
use governance::Vote;
use governance::types::MAX_DESCRIPTION_LEN;
use governance::types::MIN_VOTING_HORIZON;

/// A creation time and an end timestamp that comfortably clears the one-day
/// minimum horizon.
const NOW: u64 = 1_000;
const END: u64 = NOW + MIN_VOTING_HORIZON + 1_000;

fn pallet_with_one_proposal() -> Pallet {
    let mut p = Pallet::new();
    let r = p.create_proposal(7, b"upgrade".to_vec(), END, NOW);
    assert_eq!(r, Ok(1));
    p
}

#[test]
fn first_id_is_one_and_proposal_is_stored() {
    let mut p = Pallet::new();
    assert_eq!(p.proposal_counter(), 0);
    let r = p.create_proposal(7, b"upgrade".to_vec(), END, NOW);
    assert_eq!(r, Ok(1));
    assert_eq!(p.proposal_counter(), 1);
    let stored = p.active_proposals(1).expect("proposal 1 should be active");
    assert_eq!(stored.creator, 7);
    assert_eq!(stored.description, b"upgrade".to_vec());
    assert_eq!(stored.end_timestamp, END);
    match &p.events()[0] {
        Event::ProposalCreated { proposal_id, creator, description, end_timestamp } => {
            assert_eq!(*proposal_id, 1);
            assert_eq!(*creator, 7);
            assert_eq!(description, &b"upgrade".to_vec());
            assert_eq!(*end_timestamp, END);
        }
        other => panic!("unexpected event {:?}", other),
    }
}

#[test]
fn ids_are_strictly_increasing_from_one() {
    let mut p = Pallet::new();
    assert_eq!(p.create_proposal(1, b"a".to_vec(), END, NOW), Ok(1));
    assert_eq!(p.create_proposal(2, b"b".to_vec(), END + 5, NOW), Ok(2));
    assert_eq!(p.create_proposal(1, b"c".to_vec(), END + 9, NOW), Ok(3));
    assert_eq!(p.proposal_counter(), 3);
}

#[test]
fn description_of_exactly_1024_bytes_is_accepted() {
    let mut p = Pallet::new();
    let description = vec![0x61u8; MAX_DESCRIPTION_LEN];
    assert_eq!(p.create_proposal(7, description, END, NOW), Ok(1));
}

#[test]
fn description_of_1025_bytes_is_rejected() {
    let mut p = Pallet::new();
    let description = vec![0x61u8; MAX_DESCRIPTION_LEN + 1];
    assert_eq!(p.create_proposal(7, description, END, NOW), Err(Error::DescriptionTooLong));
    assert_eq!(p.proposal_counter(), 0);
    assert!(p.active_proposals(1).is_none());
    assert!(p.events().is_empty());
}

#[test]
fn end_timestamp_exactly_one_day_ahead_is_rejected() {
    let mut p = Pallet::new();
    let r = p.create_proposal(7, b"x".to_vec(), NOW + MIN_VOTING_HORIZON, NOW);
    assert_eq!(r, Err(Error::EndTimestampTooSoon));
}

#[test]
fn end_timestamp_one_past_the_horizon_is_accepted() {
    let mut p = Pallet::new();
    let r = p.create_proposal(7, b"x".to_vec(), NOW + MIN_VOTING_HORIZON + 1, NOW);
    assert_eq!(r, Ok(1));
}

#[test]
fn end_timestamp_near_the_moment_limit_is_rejected() {
    let mut p = Pallet::new();
    let r = p.create_proposal(7, b"x".to_vec(), u64::MAX, u64::MAX - 10);
    assert_eq!(r, Err(Error::EndTimestampTooSoon));
}

#[test]
fn vote_is_recorded_in_order_with_its_event() {
    let mut p = pallet_with_one_proposal();
    assert_eq!(p.vote(5, 1, true, NOW + 1), Ok(()));
    assert_eq!(p.vote(6, 1, false, NOW + 2), Ok(()));
    let votes = p.proposal_to_votes(1).expect("votes should be recorded");
    assert_eq!(votes.len(), 2);
    assert_eq!(votes[0], Vote { voter: 5, vote_is_yes: true });
    assert_eq!(votes[1], Vote { voter: 6, vote_is_yes: false });
    assert!(p.user_has_voted_on_proposal(5, 1));
    assert!(p.user_has_voted_on_proposal(6, 1));
    assert!(!p.user_has_voted_on_proposal(8, 1));
    match &p.events()[1] {
        Event::UserVoted { proposal_id, voter, vote_is_yes } => {
            assert_eq!(*proposal_id, 1);
            assert_eq!(*voter, 5);
            assert!(*vote_is_yes);
        }
        other => panic!("unexpected event {:?}", other),
    }
}

#[test]
fn second_vote_by_same_voter_is_rejected() {
    let mut p = pallet_with_one_proposal();
    assert_eq!(p.vote(5, 1, true, NOW + 1), Ok(()));
    assert_eq!(p.vote(5, 1, true, NOW + 2), Err(Error::DuplicateVote));
    assert_eq!(p.vote(5, 1, false, NOW + 3), Err(Error::DuplicateVote));
    let votes = p.proposal_to_votes(1).expect("the first vote should remain");
    assert_eq!(votes.len(), 1);
}

#[test]
fn vote_on_missing_proposal_is_rejected() {
    let mut p = Pallet::new();
    assert_eq!(p.vote(5, 1, true, NOW), Err(Error::ProposalNotFound));
}

#[test]
fn vote_at_the_end_timestamp_is_accepted() {
    let mut p = pallet_with_one_proposal();
    assert_eq!(p.vote(5, 1, true, END), Ok(()));
}

#[test]
fn vote_one_past_the_end_timestamp_is_rejected() {
    let mut p = pallet_with_one_proposal();
    assert_eq!(p.vote(5, 1, true, END + 1), Err(Error::ProposalNotActive));
}

#[test]
fn tally_tie_is_not_approved() {
    let mut p = pallet_with_one_proposal();
    for voter in 1..=3u64 {
        assert_eq!(p.vote(voter, 1, true, NOW + 1), Ok(()));
    }
    for voter in 4..=6u64 {
        assert_eq!(p.vote(voter, 1, false, NOW + 1), Ok(()));
    }
    assert_eq!(p.finalize_proposal(9, 1, END + 1), Ok((false, 6, 3)));
}

#[test]
fn tally_strict_majority_is_approved() {
    let mut p = pallet_with_one_proposal();
    for voter in 1..=4u64 {
        assert_eq!(p.vote(voter, 1, true, NOW + 1), Ok(()));
    }
    for voter in 5..=7u64 {
        assert_eq!(p.vote(voter, 1, false, NOW + 1), Ok(()));
    }
    assert_eq!(p.finalize_proposal(9, 1, END + 1), Ok((true, 7, 4)));
}

#[test]
fn tally_with_no_votes_is_not_approved() {
    let mut p = pallet_with_one_proposal();
    assert_eq!(p.get_vote_counts(1), (0, 0));
    assert_eq!(p.finalize_proposal(9, 1, END + 1), Ok((false, 0, 0)));
}

#[test]
fn tally_does_not_depend_on_vote_order() {
    let mut first = pallet_with_one_proposal();
    assert_eq!(first.vote(5, 1, true, NOW + 1), Ok(()));
    assert_eq!(first.vote(6, 1, false, NOW + 2), Ok(()));
    assert_eq!(first.vote(8, 1, true, NOW + 3), Ok(()));

    let mut second = pallet_with_one_proposal();
    assert_eq!(second.vote(8, 1, true, NOW + 1), Ok(()));
    assert_eq!(second.vote(5, 1, true, NOW + 2), Ok(()));
    assert_eq!(second.vote(6, 1, false, NOW + 3), Ok(()));

    assert_eq!(
        first.finalize_proposal(9, 1, END + 1),
        second.finalize_proposal(9, 1, END + 1)
    );
}

#[test]
fn vote_counts_report_the_running_tally() {
    let mut p = pallet_with_one_proposal();
    assert_eq!(p.vote(5, 1, true, NOW + 1), Ok(()));
    assert_eq!(p.vote(6, 1, false, NOW + 2), Ok(()));
    assert_eq!(p.vote(8, 1, true, NOW + 3), Ok(()));
    assert_eq!(p.get_vote_counts(1), (3, 2));
}

#[test]
fn finalize_at_the_end_timestamp_is_too_early() {
    let mut p = pallet_with_one_proposal();
    assert_eq!(p.finalize_proposal(9, 1, END), Err(Error::TooEarlyToFinalize));
    assert_eq!(p.finalize_proposal(9, 1, NOW + 5), Err(Error::TooEarlyToFinalize));
    assert!(p.active_proposals(1).is_some());
}

#[test]
fn finalize_one_past_the_end_timestamp_succeeds() {
    let mut p = pallet_with_one_proposal();
    assert_eq!(p.finalize_proposal(9, 1, END + 1), Ok((false, 0, 0)));
}

#[test]
fn finalize_twice_reports_the_proposal_as_missing() {
    let mut p = pallet_with_one_proposal();
    assert_eq!(p.finalize_proposal(9, 1, END + 1), Ok((false, 0, 0)));
    assert_eq!(p.finalize_proposal(9, 1, END + 2), Err(Error::ProposalNotFound));
}

#[test]
fn finalize_of_missing_proposal_is_rejected() {
    let mut p = Pallet::new();
    assert_eq!(p.finalize_proposal(9, 1, END + 1), Err(Error::ProposalNotFound));
}

#[test]
fn vote_after_finalization_reports_the_proposal_as_missing() {
    let mut p = pallet_with_one_proposal();
    assert_eq!(p.finalize_proposal(9, 1, END + 1), Ok((false, 0, 0)));
    assert_eq!(p.vote(5, 1, true, END + 2), Err(Error::ProposalNotFound));
}

#[test]
fn full_proposal_lifecycle() {
    let t: u64 = 100_000_000;
    let created_at = t - MIN_VOTING_HORIZON;
    let end = t + 100_000;
    let mut p = Pallet::new();

    assert_eq!(p.create_proposal(7, b"upgrade".to_vec(), end, created_at), Ok(1));

    assert_eq!(p.vote(1, 1, true, t + 99_997), Ok(()));
    assert_eq!(p.vote(2, 1, true, t + 99_998), Ok(()));
    assert_eq!(p.vote(3, 1, false, t + 99_999), Ok(()));

    assert_eq!(p.finalize_proposal(4, 1, t + 100_001), Ok((true, 3, 2)));

    assert!(p.active_proposals(1).is_none());
    let finished = p.finished_proposals(1).expect("proposal 1 should be finished");
    assert!(finished.is_approved);
    assert_eq!(finished.proposal.creator, 7);
    assert_eq!(finished.proposal.description, b"upgrade".to_vec());
    assert_eq!(finished.proposal.end_timestamp, end);

    let events = p.events();
    assert_eq!(events.len(), 5);
    assert!(matches!(&events[0], Event::ProposalCreated { proposal_id: 1, .. }));
    assert!(matches!(&events[1], Event::UserVoted { voter: 1, vote_is_yes: true, .. }));
    assert!(matches!(&events[2], Event::UserVoted { voter: 2, vote_is_yes: true, .. }));
    assert!(matches!(&events[3], Event::UserVoted { voter: 3, vote_is_yes: false, .. }));
    match &events[4] {
        Event::ProposalFinalized { proposal_id, is_approved, total_votes, yes_votes } => {
            assert_eq!(*proposal_id, 1);
            assert!(*is_approved);
            assert_eq!(*total_votes, 3);
            assert_eq!(*yes_votes, 2);
        }
        other => panic!("unexpected event {:?}", other),
    }
}

#[test]
fn rejected_operations_change_nothing() {
    let mut p = pallet_with_one_proposal();
    assert_eq!(p.vote(5, 1, true, NOW + 1), Ok(()));
    let events_before = p.events().len();

    assert_eq!(p.vote(5, 1, false, NOW + 2), Err(Error::DuplicateVote));
    assert_eq!(p.vote(9, 2, true, NOW + 2), Err(Error::ProposalNotFound));
    assert_eq!(p.finalize_proposal(9, 1, END), Err(Error::TooEarlyToFinalize));
    assert_eq!(p.create_proposal(7, b"y".to_vec(), NOW + 10, NOW), Err(Error::EndTimestampTooSoon));

    assert_eq!(p.proposal_counter(), 1);
    assert_eq!(p.events().len(), events_before);
    assert_eq!(p.get_vote_counts(1), (1, 1));
    assert!(p.active_proposals(1).is_some());
    assert!(p.finished_proposals(1).is_none());
}
