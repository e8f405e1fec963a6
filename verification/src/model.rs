//! Mathematical model of the governance state machine.
//!
//! [`StateView`] is the abstract value of the whole storage; each operation of
//! the state machine is described by a transition function from a state and
//! the operation's arguments to the next state and the operation's result.
//! The executable operations in [`crate::pallet`] are proved to agree with
//! these transitions exactly, and the laws in [`crate::laws`] are proved about
//! the transitions themselves.

use vstd::prelude::*;

use crate::types::AccountId;
use crate::types::Error;
use crate::types::EventView;
use crate::types::FinishedProposal;
use crate::types::MAX_DESCRIPTION_LEN;
use crate::types::MIN_VOTING_HORIZON;
use crate::types::Moment;
use crate::types::Proposal;
use crate::types::Vote;

verus! {

/// The abstract value of the governance storage: the last-allocated proposal
/// id, the four persistent collections, and the sequence of emitted events.
#[verifier::ext_equal]
pub struct StateView {
    /// Last-allocated proposal id; `0` means no proposals yet.
    pub proposal_counter: u32,
    /// Proposals that are open or awaiting finalization, by id.
    pub active_proposals: Map<u32, Proposal>,
    /// Append-only vote list of each proposal, by id.
    pub proposal_to_votes: Map<u32, Seq<Vote>>,
    /// The (voter, proposal id) pairs for which a vote has been recorded.
    pub user_has_voted: Set<(AccountId, u32)>,
    /// Permanent records of finalized proposals, by id.
    pub finished_proposals: Map<u32, FinishedProposal>,
    /// Every event emitted so far, in order of emission.
    pub events: Seq<EventView>,
}

/// The state before any proposal was created: counter at zero, all
/// collections empty, no events emitted.
pub open spec fn initial_state() -> StateView {
    StateView {
        proposal_counter: 0,
        active_proposals: Map::empty(),
        proposal_to_votes: Map::empty(),
        user_has_voted: Set::empty(),
        finished_proposals: Map::empty(),
        events: Seq::empty(),
    }
}

/// The votes recorded for `proposal_id`: the stored list, or empty if no vote
/// was ever cast on that id.
pub open spec fn votes_of(s: StateView, proposal_id: u32) -> Seq<Vote> {
    if s.proposal_to_votes.contains_key(proposal_id) {
        s.proposal_to_votes[proposal_id]
    } else {
        Seq::empty()
    }
}

/// How many of `votes` are yes votes.
pub open spec fn count_yes(votes: Seq<Vote>) -> nat
    decreases votes.len(),
{
    if votes.len() == 0 {
        0
    } else {
        count_yes(votes.drop_last()) + if votes.last().vote_is_yes {
            1nat
        } else {
            0nat
        }
    }
}

/// How many of `votes` were cast by `voter`.
pub open spec fn count_votes_by(votes: Seq<Vote>, voter: AccountId) -> nat
    decreases votes.len(),
{
    if votes.len() == 0 {
        0
    } else {
        count_votes_by(votes.drop_last(), voter) + if votes.last().voter == voter {
            1nat
        } else {
            0nat
        }
    }
}

/// Appending a vote raises the voter's own count by one and leaves every
/// other account's count unchanged.
pub proof fn lemma_count_votes_by_push(votes: Seq<Vote>, v: Vote, voter: AccountId)
    ensures
        count_votes_by(votes.push(v), voter) == count_votes_by(votes, voter) + if v.voter
            == voter {
            1nat
        } else {
            0nat
        },
{
    assert(votes.push(v).drop_last() =~= votes);
}

/// Appending a vote raises the yes count by one exactly when it is a yes
/// vote.
pub proof fn lemma_count_yes_push(votes: Seq<Vote>, v: Vote)
    ensures
        count_yes(votes.push(v)) == count_yes(votes) + if v.vote_is_yes {
            1nat
        } else {
            0nat
        },
{
    assert(votes.push(v).drop_last() =~= votes);
}

/// Removing the vote at position `i` lowers the yes count by one exactly
/// when it was a yes vote.
pub proof fn lemma_count_yes_remove(votes: Seq<Vote>, i: int)
    requires
        0 <= i < votes.len(),
    ensures
        count_yes(votes) == count_yes(votes.remove(i)) + if votes[i].vote_is_yes {
            1nat
        } else {
            0nat
        },
    decreases votes.len(),
{
    if i == votes.len() - 1 {
        assert(votes.remove(i) =~= votes.drop_last());
    } else {
        assert(votes.remove(i).drop_last() =~= votes.drop_last().remove(i));
        assert(votes.remove(i).last() == votes.last());
        lemma_count_yes_remove(votes.drop_last(), i);
    }
}

/// Two vote lists that hold the same votes, in whatever order, have the same
/// yes count.
pub proof fn lemma_count_yes_permutation(votes1: Seq<Vote>, votes2: Seq<Vote>)
    requires
        votes1.to_multiset() == votes2.to_multiset(),
    ensures
        count_yes(votes1) == count_yes(votes2),
    decreases votes1.len(),
{
    broadcast use vstd::seq_lib::group_to_multiset_ensures;

    if votes1.len() == 0 {
        assert(votes2.len() == votes2.to_multiset().len());
    } else {
        let v = votes1.last();
        assert(votes1.contains(v));
        assert(votes2.to_multiset().count(v) > 0);
        assert(votes2.contains(v));
        let i = choose|i: int| 0 <= i < votes2.len() && votes2[i] == v;
        assert(votes1.remove(votes1.len() - 1) =~= votes1.drop_last());
        assert(votes1.drop_last().to_multiset() == votes2.remove(i).to_multiset());
        lemma_count_yes_permutation(votes1.drop_last(), votes2.remove(i));
        lemma_count_yes_remove(votes2, i);
    }
}

/// No sequence holds more yes votes than votes.
pub proof fn lemma_count_yes_le_len(votes: Seq<Vote>)
    ensures
        count_yes(votes) <= votes.len(),
    decreases votes.len(),
{
    if votes.len() > 0 {
        lemma_count_yes_le_len(votes.drop_last());
    }
}

/// The approval rule: a strict majority of cast votes; a tie or zero votes is
/// not approved.
pub open spec fn approved(votes: Seq<Vote>) -> bool {
    2 * count_yes(votes) > votes.len()
}

/// The tally of `proposal_id` in `s`: total votes cast and yes votes cast.
pub open spec fn vote_counts(s: StateView, proposal_id: u32) -> (u64, u64) {
    (votes_of(s, proposal_id).len() as u64, count_yes(votes_of(s, proposal_id)) as u64)
}

/// Transition of `CreateProposal`.
///
/// Rejects a description over [`MAX_DESCRIPTION_LEN`] bytes, an end timestamp
/// that does not exceed `now` by more than [`MIN_VOTING_HORIZON`], and a
/// counter that has reached the 32-bit limit, in that order; otherwise
/// allocates the next id, stores the proposal under it, advances the counter
/// and emits `ProposalCreated`.
pub open spec fn create_proposal_spec(
    s: StateView,
    caller: AccountId,
    description: Vec<u8>,
    end_timestamp: Moment,
    now: Moment,
) -> (StateView, Result<u32, Error>) {
    if description@.len() > MAX_DESCRIPTION_LEN {
        (s, Err(Error::DescriptionTooLong))
    } else if end_timestamp <= now + MIN_VOTING_HORIZON {
        (s, Err(Error::EndTimestampTooSoon))
    } else if s.proposal_counter == u32::MAX {
        (s, Err(Error::CounterOverflow))
    } else {
        let new_id = (s.proposal_counter + 1) as u32;
        let next = StateView {
            proposal_counter: new_id,
            active_proposals: s.active_proposals.insert(
                new_id,
                Proposal { creator: caller, description, end_timestamp },
            ),
            events: s.events.push(
                EventView::ProposalCreated {
                    proposal_id: new_id,
                    creator: caller,
                    description: description@,
                    end_timestamp,
                },
            ),
            ..s
        };
        (next, Ok(new_id))
    }
}

/// Transition of `CastVote`.
///
/// Rejects an id that is not active, a vote after the proposal's end
/// timestamp (voting closes the instant the end timestamp is passed), and a
/// voter that already voted on this id, in that order; otherwise appends the
/// vote, records the (voter, id) pair and emits `UserVoted`.
pub open spec fn vote_spec(
    s: StateView,
    voter: AccountId,
    proposal_id: u32,
    vote_is_yes: bool,
    now: Moment,
) -> (StateView, Result<(), Error>) {
    if !s.active_proposals.contains_key(proposal_id) {
        (s, Err(Error::ProposalNotFound))
    } else if now > s.active_proposals[proposal_id].end_timestamp {
        (s, Err(Error::ProposalNotActive))
    } else if s.user_has_voted.contains((voter, proposal_id)) {
        (s, Err(Error::DuplicateVote))
    } else {
        let next = StateView {
            proposal_to_votes: s.proposal_to_votes.insert(
                proposal_id,
                votes_of(s, proposal_id).push(Vote { voter, vote_is_yes }),
            ),
            user_has_voted: s.user_has_voted.insert((voter, proposal_id)),
            events: s.events.push(EventView::UserVoted { proposal_id, voter, vote_is_yes }),
            ..s
        };
        (next, Ok(()))
    }
}

/// Transition of `FinalizeProposal`.
///
/// Rejects an id that is not active and a finalization at or before the
/// proposal's end timestamp, in that order; otherwise tallies the votes,
/// moves the proposal from the active set to the finished records together
/// with the approval outcome, and emits `ProposalFinalized`.  Any
/// authenticated caller may finalize, so the caller does not appear here.
pub open spec fn finalize_proposal_spec(s: StateView, proposal_id: u32, now: Moment) -> (
    StateView,
    Result<(bool, u64, u64), Error>,
) {
    if !s.active_proposals.contains_key(proposal_id) {
        (s, Err(Error::ProposalNotFound))
    } else if now <= s.active_proposals[proposal_id].end_timestamp {
        (s, Err(Error::TooEarlyToFinalize))
    } else {
        let votes = votes_of(s, proposal_id);
        let is_approved = approved(votes);
        let next = StateView {
            active_proposals: s.active_proposals.remove(proposal_id),
            finished_proposals: s.finished_proposals.insert(
                proposal_id,
                FinishedProposal { proposal: s.active_proposals[proposal_id], is_approved },
            ),
            events: s.events.push(
                EventView::ProposalFinalized {
                    proposal_id,
                    is_approved,
                    total_votes: votes.len() as u64,
                    yes_votes: count_yes(votes) as u64,
                },
            ),
            ..s
        };
        (next, Ok((is_approved, votes.len() as u64, count_yes(votes) as u64)))
    }
}

/// The storage invariant: every id that appears anywhere was allocated (it
/// lies in `1 ..= proposal_counter`), no id is both active and finished, and
/// the duplicate-vote guard agrees with the vote lists — a recorded
/// (voter, id) pair corresponds to exactly one vote by that voter on that id,
/// and an unrecorded pair to none.
pub open spec fn inv(s: StateView) -> bool {
    &&& (forall|id: u32| #[trigger]
        s.active_proposals.contains_key(id) ==> 1 <= id <= s.proposal_counter)
    &&& (forall|id: u32| #[trigger]
        s.finished_proposals.contains_key(id) ==> 1 <= id <= s.proposal_counter)
    &&& (forall|id: u32| #[trigger]
        s.active_proposals.contains_key(id) ==> !s.finished_proposals.contains_key(id))
    &&& (forall|id: u32| #[trigger]
        s.proposal_to_votes.contains_key(id) ==> 1 <= id <= s.proposal_counter)
    &&& (forall|voter: AccountId, id: u32| #[trigger]
        s.user_has_voted.contains((voter, id)) ==> 1 <= id <= s.proposal_counter)
    &&& (forall|voter: AccountId, id: u32|
        #[trigger] count_votes_by(votes_of(s, id), voter) == if s.user_has_voted.contains(
            (voter, id),
        ) {
            1nat
        } else {
            0nat
        })
}

} // verus!
