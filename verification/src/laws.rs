//! Laws of the governance state machine, proved about the transition
//! functions of [`crate::model`].  Together with the operation contracts in
//! [`crate::pallet`], which equate each executable operation with its
//! transition function, they hold of every reachable state of a [`crate::Pallet`].

use vstd::prelude::*;

use crate::model::StateView;
use crate::model::approved;
use crate::model::count_votes_by;
use crate::model::count_yes;
use crate::model::create_proposal_spec;
use crate::model::finalize_proposal_spec;
use crate::model::initial_state;
use crate::model::inv;
use crate::model::lemma_count_votes_by_push;
use crate::model::lemma_count_yes_permutation;
use crate::model::lemma_count_yes_push;
use crate::model::vote_counts;
use crate::model::vote_spec;
use crate::model::votes_of;
use crate::types::Vote;
use crate::types::AccountId;
use crate::types::Error;
use crate::types::MAX_DESCRIPTION_LEN;
use crate::types::MIN_VOTING_HORIZON;
use crate::types::Moment;

verus! {

/// The initial state satisfies the storage invariant.
pub proof fn lemma_initial_state_inv()
    ensures
        inv(initial_state()),
{
}

/// Successful creation allocates ids sequentially: the returned id is one
/// more than the counter before the call, and becomes the new counter value.
/// Since the counter starts at zero and no operation ever lowers it, the ids
/// returned by any sequence of successful creations are strictly increasing,
/// starting at 1, with no repeats.
pub proof fn lemma_create_allocates_next_id(
    s: StateView,
    caller: AccountId,
    description: Vec<u8>,
    end_timestamp: Moment,
    now: Moment,
)
    requires
        create_proposal_spec(s, caller, description, end_timestamp, now).1 is Ok,
    ensures
        create_proposal_spec(s, caller, description, end_timestamp, now).1 == Ok::<u32, Error>(
            ((s.proposal_counter + 1) as u32),
        ),
        create_proposal_spec(s, caller, description, end_timestamp, now).0.proposal_counter
            == s.proposal_counter + 1,
{
}

/// No transition lowers the proposal counter.
pub proof fn lemma_counter_never_decreases(
    s: StateView,
    caller: AccountId,
    description: Vec<u8>,
    end_timestamp: Moment,
    voter: AccountId,
    proposal_id: u32,
    vote_is_yes: bool,
    now: Moment,
)
    ensures
        create_proposal_spec(s, caller, description, end_timestamp, now).0.proposal_counter
            >= s.proposal_counter,
        vote_spec(s, voter, proposal_id, vote_is_yes, now).0.proposal_counter
            == s.proposal_counter,
        finalize_proposal_spec(s, proposal_id, now).0.proposal_counter == s.proposal_counter,
{
}

/// Two consecutive successful creations return strictly increasing ids.
pub proof fn lemma_create_ids_strictly_increase(
    s: StateView,
    caller1: AccountId,
    description1: Vec<u8>,
    end_timestamp1: Moment,
    now1: Moment,
    caller2: AccountId,
    description2: Vec<u8>,
    end_timestamp2: Moment,
    now2: Moment,
)
    requires
        create_proposal_spec(s, caller1, description1, end_timestamp1, now1).1 is Ok,
        create_proposal_spec(
            create_proposal_spec(s, caller1, description1, end_timestamp1, now1).0,
            caller2,
            description2,
            end_timestamp2,
            now2,
        ).1 is Ok,
    ensures
        create_proposal_spec(
            create_proposal_spec(s, caller1, description1, end_timestamp1, now1).0,
            caller2,
            description2,
            end_timestamp2,
            now2,
        ).1->Ok_0 > create_proposal_spec(s, caller1, description1, end_timestamp1, now1).1->Ok_0,
{
}

/// The very first successful creation returns id 1.
pub proof fn lemma_first_id_is_one(
    caller: AccountId,
    description: Vec<u8>,
    end_timestamp: Moment,
    now: Moment,
)
    requires
        create_proposal_spec(initial_state(), caller, description, end_timestamp, now).1 is Ok,
    ensures
        create_proposal_spec(initial_state(), caller, description, end_timestamp, now).1->Ok_0
            == 1,
{
}

/// Creation reports `DescriptionTooLong` exactly when the description is over
/// [`MAX_DESCRIPTION_LEN`] bytes: a description of exactly that length is
/// never rejected for its length, one byte more always is.
pub proof fn lemma_description_length_boundary(
    s: StateView,
    caller: AccountId,
    description: Vec<u8>,
    end_timestamp: Moment,
    now: Moment,
)
    ensures
        create_proposal_spec(s, caller, description, end_timestamp, now).1 == Err::<u32, Error>(
            Error::DescriptionTooLong,
        ) <==> description@.len() > MAX_DESCRIPTION_LEN,
{
}

/// For an acceptable description, creation reports `EndTimestampTooSoon`
/// exactly when the end timestamp fails to clear `now` by more than the
/// one-day horizon: equality with `now + `[`MIN_VOTING_HORIZON`] is rejected,
/// one unit more clears the check.
pub proof fn lemma_end_timestamp_boundary(
    s: StateView,
    caller: AccountId,
    description: Vec<u8>,
    end_timestamp: Moment,
    now: Moment,
)
    requires
        description@.len() <= MAX_DESCRIPTION_LEN,
    ensures
        create_proposal_spec(s, caller, description, end_timestamp, now).1 == Err::<u32, Error>(
            Error::EndTimestampTooSoon,
        ) <==> end_timestamp <= now + MIN_VOTING_HORIZON,
{
}

/// While a proposal stays active and within its voting window, a voter's
/// second vote on it fails with `DuplicateVote`, whatever the second vote's
/// value and whenever it is attempted before the window closes.
pub proof fn lemma_no_duplicate_vote(
    s: StateView,
    voter: AccountId,
    proposal_id: u32,
    vote_is_yes1: bool,
    now1: Moment,
    vote_is_yes2: bool,
    now2: Moment,
)
    requires
        vote_spec(s, voter, proposal_id, vote_is_yes1, now1).1 is Ok,
        now2 <= vote_spec(
            s,
            voter,
            proposal_id,
            vote_is_yes1,
            now1,
        ).0.active_proposals[proposal_id].end_timestamp,
    ensures
        vote_spec(
            vote_spec(s, voter, proposal_id, vote_is_yes1, now1).0,
            voter,
            proposal_id,
            vote_is_yes2,
            now2,
        ).1 == Err::<(), Error>(Error::DuplicateVote),
{
}

/// The voting window closes exactly at the end timestamp: for an active
/// proposal and a voter who has not voted on it, a vote at
/// `now == end_timestamp` succeeds and a vote one instant later fails with
/// `ProposalNotActive`.
pub proof fn lemma_voting_window(
    s: StateView,
    voter: AccountId,
    proposal_id: u32,
    vote_is_yes: bool,
    now: Moment,
)
    requires
        s.active_proposals.contains_key(proposal_id),
        !s.user_has_voted.contains((voter, proposal_id)),
    ensures
        now <= s.active_proposals[proposal_id].end_timestamp ==> vote_spec(
            s,
            voter,
            proposal_id,
            vote_is_yes,
            now,
        ).1 is Ok,
        now > s.active_proposals[proposal_id].end_timestamp ==> vote_spec(
            s,
            voter,
            proposal_id,
            vote_is_yes,
            now,
        ).1 == Err::<(), Error>(Error::ProposalNotActive),
{
}

/// A successful finalization returns the exact tally, and approves exactly
/// on a strict majority of yes votes: a tie — zero votes included — is not
/// approved.
pub proof fn lemma_finalize_tally(s: StateView, proposal_id: u32, now: Moment)
    requires
        finalize_proposal_spec(s, proposal_id, now).1 is Ok,
    ensures
        finalize_proposal_spec(s, proposal_id, now).1->Ok_0 == (
            approved(votes_of(s, proposal_id)),
            votes_of(s, proposal_id).len() as u64,
            count_yes(votes_of(s, proposal_id)) as u64,
        ),
        2 * count_yes(votes_of(s, proposal_id)) > votes_of(s, proposal_id).len()
            ==> finalize_proposal_spec(s, proposal_id, now).1->Ok_0.0,
        2 * count_yes(votes_of(s, proposal_id)) <= votes_of(s, proposal_id).len() ==> !(
        finalize_proposal_spec(s, proposal_id, now).1->Ok_0.0),
{
}

/// Finalization happens at most once: after a successful finalization of an
/// id, any further finalization of the same id fails with `ProposalNotFound`,
/// whatever the clock then reads.
pub proof fn lemma_finalize_once(s: StateView, proposal_id: u32, now1: Moment, now2: Moment)
    requires
        finalize_proposal_spec(s, proposal_id, now1).1 is Ok,
    ensures
        finalize_proposal_spec(finalize_proposal_spec(s, proposal_id, now1).0, proposal_id, now2).1
            == Err::<(bool, u64, u64), Error>(Error::ProposalNotFound),
{
}

/// Finalization of an active proposal fails with `TooEarlyToFinalize` at or
/// before the end timestamp, and succeeds strictly after it.
pub proof fn lemma_finalize_timing(s: StateView, proposal_id: u32, now: Moment)
    requires
        s.active_proposals.contains_key(proposal_id),
    ensures
        now <= s.active_proposals[proposal_id].end_timestamp ==> finalize_proposal_spec(
            s,
            proposal_id,
            now,
        ).1 == Err::<(bool, u64, u64), Error>(Error::TooEarlyToFinalize),
        now > s.active_proposals[proposal_id].end_timestamp ==> finalize_proposal_spec(
            s,
            proposal_id,
            now,
        ).1 is Ok,
{
}

/// A finished record is permanent: no transition removes or rewrites it, and
/// under the storage invariant its id never reappears in the active set.
pub proof fn lemma_finished_is_terminal(
    s: StateView,
    caller: AccountId,
    description: Vec<u8>,
    end_timestamp: Moment,
    voter: AccountId,
    proposal_id: u32,
    vote_is_yes: bool,
    now: Moment,
    id: u32,
)
    requires
        inv(s),
        s.finished_proposals.contains_key(id),
    ensures
        ({
            let next = create_proposal_spec(s, caller, description, end_timestamp, now).0;
            next.finished_proposals.contains_key(id) && next.finished_proposals[id]
                == s.finished_proposals[id] && !next.active_proposals.contains_key(id)
        }),
        ({
            let next = vote_spec(s, voter, proposal_id, vote_is_yes, now).0;
            next.finished_proposals.contains_key(id) && next.finished_proposals[id]
                == s.finished_proposals[id] && !next.active_proposals.contains_key(id)
        }),
        ({
            let next = finalize_proposal_spec(s, proposal_id, now).0;
            next.finished_proposals.contains_key(id) && next.finished_proposals[id]
                == s.finished_proposals[id] && !next.active_proposals.contains_key(id)
        }),
{
}

/// Vote order carries no semantic weight: two vote lists that hold the same
/// votes, in whatever order, have the same length, the same yes count, and
/// the same approval outcome.
pub proof fn lemma_tally_ignores_vote_order(votes1: Seq<Vote>, votes2: Seq<Vote>)
    requires
        votes1.to_multiset() == votes2.to_multiset(),
    ensures
        votes1.len() == votes2.len(),
        count_yes(votes1) == count_yes(votes2),
        approved(votes1) == approved(votes2),
{
    broadcast use vstd::seq_lib::group_to_multiset_ensures;

    assert(votes1.len() == votes1.to_multiset().len());
    assert(votes2.len() == votes2.to_multiset().len());
    lemma_count_yes_permutation(votes1, votes2);
}

/// The tally is order-independent: two different voters casting their votes
/// on an open proposal in either order leave every proposal with the same
/// vote counts.
pub proof fn lemma_vote_order_independent(
    s: StateView,
    proposal_id: u32,
    voter1: AccountId,
    vote_is_yes1: bool,
    now1: Moment,
    voter2: AccountId,
    vote_is_yes2: bool,
    now2: Moment,
)
    requires
        s.active_proposals.contains_key(proposal_id),
        now1 <= s.active_proposals[proposal_id].end_timestamp,
        now2 <= s.active_proposals[proposal_id].end_timestamp,
        voter1 != voter2,
        !s.user_has_voted.contains((voter1, proposal_id)),
        !s.user_has_voted.contains((voter2, proposal_id)),
    ensures
        forall|id: u32|
            vote_counts(
                vote_spec(
                    vote_spec(s, voter1, proposal_id, vote_is_yes1, now1).0,
                    voter2,
                    proposal_id,
                    vote_is_yes2,
                    now2,
                ).0,
                id,
            ) == vote_counts(
                vote_spec(
                    vote_spec(s, voter2, proposal_id, vote_is_yes2, now2).0,
                    voter1,
                    proposal_id,
                    vote_is_yes1,
                    now1,
                ).0,
                id,
            ),
{
    let ab = vote_spec(
        vote_spec(s, voter1, proposal_id, vote_is_yes1, now1).0,
        voter2,
        proposal_id,
        vote_is_yes2,
        now2,
    ).0;
    let ba = vote_spec(
        vote_spec(s, voter2, proposal_id, vote_is_yes2, now2).0,
        voter1,
        proposal_id,
        vote_is_yes1,
        now1,
    ).0;
    let v1 = Vote { voter: voter1, vote_is_yes: vote_is_yes1 };
    let v2 = Vote { voter: voter2, vote_is_yes: vote_is_yes2 };
    let base = votes_of(s, proposal_id);
    assert forall|id: u32| vote_counts(ab, id) == vote_counts(ba, id) by {
        if id == proposal_id {
            assert(votes_of(ab, proposal_id) == base.push(v1).push(v2));
            assert(votes_of(ba, proposal_id) == base.push(v2).push(v1));
            lemma_count_yes_push(base, v1);
            lemma_count_yes_push(base.push(v1), v2);
            lemma_count_yes_push(base, v2);
            lemma_count_yes_push(base.push(v2), v1);
        } else {
            assert(votes_of(ab, id) == votes_of(s, id));
            assert(votes_of(ba, id) == votes_of(s, id));
        }
    }
}

/// `CreateProposal` preserves the storage invariant.
pub proof fn lemma_create_preserves_inv(
    s: StateView,
    caller: AccountId,
    description: Vec<u8>,
    end_timestamp: Moment,
    now: Moment,
)
    requires
        inv(s),
    ensures
        inv(create_proposal_spec(s, caller, description, end_timestamp, now).0),
{
    let next = create_proposal_spec(s, caller, description, end_timestamp, now).0;
    assert forall|voter: AccountId, id: u32| #[trigger]
        count_votes_by(votes_of(next, id), voter) == if next.user_has_voted.contains(
            (voter, id),
        ) {
            1nat
        } else {
            0nat
        } by {
        assert(votes_of(next, id) == votes_of(s, id));
        assert(count_votes_by(votes_of(s, id), voter) == if s.user_has_voted.contains(
            (voter, id),
        ) {
            1nat
        } else {
            0nat
        });
    }
}

/// `CastVote` preserves the storage invariant.
pub proof fn lemma_vote_preserves_inv(
    s: StateView,
    voter: AccountId,
    proposal_id: u32,
    vote_is_yes: bool,
    now: Moment,
)
    requires
        inv(s),
    ensures
        inv(vote_spec(s, voter, proposal_id, vote_is_yes, now).0),
{
    let next = vote_spec(s, voter, proposal_id, vote_is_yes, now).0;
    if vote_spec(s, voter, proposal_id, vote_is_yes, now).1 is Ok {
        let vote = Vote { voter, vote_is_yes };
        assert forall|w: AccountId, id: u32| #[trigger]
            count_votes_by(votes_of(next, id), w) == if next.user_has_voted.contains((w, id)) {
                1nat
            } else {
                0nat
            } by {
            assert(count_votes_by(votes_of(s, id), w) == if s.user_has_voted.contains((w, id)) {
                1nat
            } else {
                0nat
            });
            if id == proposal_id {
                lemma_count_votes_by_push(votes_of(s, proposal_id), vote, w);
            } else {
                assert(votes_of(next, id) == votes_of(s, id));
            }
        }
    }
}

/// `FinalizeProposal` preserves the storage invariant.
pub proof fn lemma_finalize_preserves_inv(s: StateView, proposal_id: u32, now: Moment)
    requires
        inv(s),
    ensures
        inv(finalize_proposal_spec(s, proposal_id, now).0),
{
    let next = finalize_proposal_spec(s, proposal_id, now).0;
    assert forall|voter: AccountId, id: u32| #[trigger]
        count_votes_by(votes_of(next, id), voter) == if next.user_has_voted.contains(
            (voter, id),
        ) {
            1nat
        } else {
            0nat
        } by {
        assert(votes_of(next, id) == votes_of(s, id));
        assert(count_votes_by(votes_of(s, id), voter) == if s.user_has_voted.contains(
            (voter, id),
        ) {
            1nat
        } else {
            0nat
        });
    }
}

} // verus!
