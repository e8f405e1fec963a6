//! The executable governance state machine.
//!
//! [`Pallet`] owns the four persistent collections and the event log as an
//! explicit storage context, so independent instances can coexist.  Every
//! operation is proved to behave exactly as the corresponding transition
//! function of [`crate::model`].

use std::collections::HashMap;
use vstd::prelude::*;

use crate::model::StateView;
use crate::model::approved;
use crate::model::count_yes;
use crate::model::create_proposal_spec;
use crate::model::finalize_proposal_spec;
use crate::model::initial_state;
use crate::model::lemma_count_yes_le_len;
use crate::model::vote_counts;
use crate::model::vote_spec;
use crate::model::votes_of;
use crate::types::AccountId;
use crate::types::Error;
use crate::types::Event;
use crate::types::FinishedProposal;
use crate::types::MAX_DESCRIPTION_LEN;
use crate::types::MIN_VOTING_HORIZON;
use crate::types::Moment;
use crate::types::Proposal;
use crate::types::Vote;

verus! {

broadcast use vstd::std_specs::hash::group_hash_axioms, vstd::seq_lib::lemma_seq_contains_after_push;

/// An owned copy of a byte vector, built element by element.
fn clone_bytes(v: &Vec<u8>) -> (r: Vec<u8>)
    ensures
        r@ == v@,
{
    let mut r: Vec<u8> = Vec::new();
    let mut i: usize = 0;
    while i < v.len()
        invariant
            i <= v.len(),
            r@ == v@.take(i as int),
        decreases v.len() - i,
    {
        r.push(v[i]);
        i = i + 1;
        proof {
            assert(r@ =~= v@.take(i as int));
        }
    }
    proof {
        assert(v@.take(v.len() as int) =~= v@);
    }
    r
}

/// The governance state machine together with the storage it owns.
pub struct Pallet {
    proposal_counter: u32,
    active_proposals: HashMap<u32, Proposal>,
    proposal_to_votes: HashMap<u32, Vec<Vote>>,
    user_has_voted: Vec<(AccountId, u32)>,
    finished_proposals: HashMap<u32, FinishedProposal>,
    events: Vec<Event>,
}

impl View for Pallet {
    type V = StateView;

    closed spec fn view(&self) -> StateView {
        StateView {
            proposal_counter: self.proposal_counter,
            active_proposals: self.active_proposals@,
            proposal_to_votes: self.proposal_to_votes@.map_values(|v: Vec<Vote>| v@),
            user_has_voted: self.user_has_voted@.to_set(),
            finished_proposals: self.finished_proposals@,
            events: self.events@.map_values(|e: Event| e@),
        }
    }
}

impl Pallet {
    /// A fresh state machine with no proposals, no votes and no events.
    pub fn new() -> (s: Pallet)
        ensures
            s@ == initial_state(),
    {
        let s = Pallet {
            proposal_counter: 0,
            active_proposals: HashMap::new(),
            proposal_to_votes: HashMap::new(),
            user_has_voted: Vec::new(),
            finished_proposals: HashMap::new(),
            events: Vec::new(),
        };
        proof {
            assert(s@ =~= initial_state());
        }
        s
    }

    /// Create a new proposal on behalf of the authenticated `caller`, where
    /// `now` is the clock oracle's reading for this operation.
    ///
    /// On success the allocated id is returned; on failure nothing changes
    /// but the rejection itself.  The exact behaviour, including which error
    /// is reported on which input, is
    /// [`create_proposal_spec`](crate::model::create_proposal_spec).
    pub fn create_proposal(
        &mut self,
        caller: AccountId,
        description: Vec<u8>,
        end_timestamp: Moment,
        now: Moment,
    ) -> (r: Result<u32, Error>)
        ensures
            final(self)@ == create_proposal_spec(
                old(self)@,
                caller,
                description,
                end_timestamp,
                now,
            ).0,
            r == create_proposal_spec(old(self)@, caller, description, end_timestamp, now).1,
    {
        let ghost input_description = description;
        if description.len() > MAX_DESCRIPTION_LEN {
            return Err(Error::DescriptionTooLong);
        }
        if now > u64::MAX - MIN_VOTING_HORIZON || end_timestamp <= now + MIN_VOTING_HORIZON {
            return Err(Error::EndTimestampTooSoon);
        }
        if self.proposal_counter == u32::MAX {
            return Err(Error::CounterOverflow);
        }
        let new_id = self.proposal_counter + 1;
        let event_description = clone_bytes(&description);
        let proposal = Proposal { creator: caller, description, end_timestamp };
        self.active_proposals.insert(new_id, proposal);
        self.proposal_counter = new_id;
        self.events.push(
            Event::ProposalCreated {
                proposal_id: new_id,
                creator: caller,
                description: event_description,
                end_timestamp,
            },
        );
        proof {
            assert(self@ =~= create_proposal_spec(
                old(self)@,
                caller,
                input_description,
                end_timestamp,
                now,
            ).0);
        }
        Ok(new_id)
    }

    /// Whether a vote by `voter` on `proposal_id` has been recorded.
    pub fn user_has_voted_on_proposal(&self, voter: AccountId, proposal_id: u32) -> (b: bool)
        ensures
            b == self@.user_has_voted.contains((voter, proposal_id)),
    {
        let mut i: usize = 0;
        while i < self.user_has_voted.len()
            invariant
                i <= self.user_has_voted.len(),
                forall|j: int|
                    0 <= j < i ==> !(self.user_has_voted@[j].0 == voter
                        && self.user_has_voted@[j].1 == proposal_id),
            decreases self.user_has_voted.len() - i,
        {
            let entry = self.user_has_voted[i];
            if entry.0 == voter && entry.1 == proposal_id {
                proof {
                    assert(self.user_has_voted@[i as int] == (voter, proposal_id));
                }
                return true;
            }
            i = i + 1;
        }
        proof {
            assert(!self.user_has_voted@.contains((voter, proposal_id)));
        }
        false
    }

    /// Cast a vote by the authenticated `voter` on `proposal_id`, where `now`
    /// is the clock oracle's reading for this operation.
    ///
    /// Each (voter, proposal id) pair contributes at most one vote; voting
    /// closes the instant the end timestamp is passed.  The exact behaviour
    /// is [`vote_spec`](crate::model::vote_spec).
    pub fn vote(&mut self, voter: AccountId, proposal_id: u32, vote_is_yes: bool, now: Moment) -> (r:
        Result<(), Error>)
        ensures
            final(self)@ == vote_spec(old(self)@, voter, proposal_id, vote_is_yes, now).0,
            r == vote_spec(old(self)@, voter, proposal_id, vote_is_yes, now).1,
    {
        let end_timestamp = match self.active_proposals.get(&proposal_id) {
            None => {
                return Err(Error::ProposalNotFound);
            },
            Some(p) => p.end_timestamp,
        };
        if now > end_timestamp {
            return Err(Error::ProposalNotActive);
        }
        if self.user_has_voted_on_proposal(voter, proposal_id) {
            return Err(Error::DuplicateVote);
        }
        let mut votes = match self.proposal_to_votes.remove(&proposal_id) {
            Some(v) => v,
            None => Vec::new(),
        };
        votes.push(Vote { voter, vote_is_yes });
        self.proposal_to_votes.insert(proposal_id, votes);
        self.user_has_voted.push((voter, proposal_id));
        self.events.push(Event::UserVoted { proposal_id, voter, vote_is_yes });
        proof {
            assert(self@ =~= vote_spec(old(self)@, voter, proposal_id, vote_is_yes, now).0);
        }
        Ok(())
    }

    /// The tally of `proposal_id`: total votes cast and yes votes cast, both
    /// zero for an id with no recorded votes.
    pub fn get_vote_counts(&self, proposal_id: u32) -> (r: (u64, u64))
        ensures
            r == vote_counts(self@, proposal_id),
            r.1 <= r.0,
            votes_of(self@, proposal_id).len() <= usize::MAX,
    {
        proof {
            lemma_count_yes_le_len(votes_of(self@, proposal_id));
        }
        match self.proposal_to_votes.get(&proposal_id) {
            None => {
                proof {
                    assert(votes_of(self@, proposal_id) =~= Seq::<Vote>::empty());
                }
                (0, 0)
            },
            Some(votes) => {
                let total: u64 = votes.len() as u64;
                let mut yes: u64 = 0;
                let mut i: usize = 0;
                while i < votes.len()
                    invariant
                        i <= votes.len(),
                        yes <= i,
                        yes == count_yes(votes@.take(i as int)),
                    decreases votes.len() - i,
                {
                    if votes[i].vote_is_yes {
                        yes = yes + 1;
                    }
                    i = i + 1;
                    proof {
                        assert(votes@.take(i as int).drop_last() =~= votes@.take(i - 1));
                        assert(votes@.take(i as int).last() == votes@[i - 1]);
                    }
                }
                proof {
                    assert(votes@.take(votes@.len() as int) =~= votes@);
                    assert(votes@ == votes_of(self@, proposal_id));
                }
                (total, yes)
            },
        }
    }

    /// Finalize `proposal_id` once its voting window has closed, where `now`
    /// is the clock oracle's reading for this operation.  Any authenticated
    /// caller may finalize an expired proposal.
    ///
    /// On success the approval outcome, the total number of votes and the
    /// number of yes votes are returned; the proposal moves irreversibly
    /// from the active set to the finished records.  The exact behaviour is
    /// [`finalize_proposal_spec`](crate::model::finalize_proposal_spec).
    pub fn finalize_proposal(&mut self, _caller: AccountId, proposal_id: u32, now: Moment) -> (r:
        Result<(bool, u64, u64), Error>)
        ensures
            final(self)@ == finalize_proposal_spec(old(self)@, proposal_id, now).0,
            r == finalize_proposal_spec(old(self)@, proposal_id, now).1,
    {
        let end_timestamp = match self.active_proposals.get(&proposal_id) {
            None => {
                return Err(Error::ProposalNotFound);
            },
            Some(p) => p.end_timestamp,
        };
        if now <= end_timestamp {
            return Err(Error::TooEarlyToFinalize);
        }
        let (total_votes, yes_votes) = self.get_vote_counts(proposal_id);
        let proposal = match self.active_proposals.remove(&proposal_id) {
            Some(p) => p,
            None => {
                proof {
                    assert(false);
                }
                return Err(Error::ProposalNotFound);
            },
        };
        let is_approved = yes_votes > total_votes / 2;
        proof {
            let votes = votes_of(old(self)@, proposal_id);
            lemma_count_yes_le_len(votes);
            assert(total_votes == votes.len());
            assert(yes_votes == count_yes(votes));
            assert(is_approved == approved(votes));
        }
        let finished = FinishedProposal { proposal, is_approved };
        self.finished_proposals.insert(proposal_id, finished);
        self.events.push(
            Event::ProposalFinalized { proposal_id, is_approved, total_votes, yes_votes },
        );
        proof {
            assert(self@ =~= finalize_proposal_spec(old(self)@, proposal_id, now).0);
        }
        Ok((is_approved, total_votes, yes_votes))
    }

    /// The last-allocated proposal id; `0` means no proposals yet.
    pub fn proposal_counter(&self) -> (r: u32)
        ensures
            r == self@.proposal_counter,
    {
        self.proposal_counter
    }

    /// The active proposal stored under `proposal_id`, if any.
    pub fn active_proposals(&self, proposal_id: u32) -> (r: Option<&Proposal>)
        ensures
            match r {
                Some(p) => self@.active_proposals.contains_key(proposal_id) && *p
                    == self@.active_proposals[proposal_id],
                None => !self@.active_proposals.contains_key(proposal_id),
            },
    {
        self.active_proposals.get(&proposal_id)
    }

    /// The votes recorded so far under `proposal_id`, in insertion order, if
    /// any vote was ever cast on it.
    pub fn proposal_to_votes(&self, proposal_id: u32) -> (r: Option<&Vec<Vote>>)
        ensures
            match r {
                Some(v) => self@.proposal_to_votes.contains_key(proposal_id) && v@
                    == self@.proposal_to_votes[proposal_id],
                None => !self@.proposal_to_votes.contains_key(proposal_id),
            },
    {
        self.proposal_to_votes.get(&proposal_id)
    }

    /// The permanent record stored under `proposal_id`, if it was finalized.
    pub fn finished_proposals(&self, proposal_id: u32) -> (r: Option<&FinishedProposal>)
        ensures
            match r {
                Some(f) => self@.finished_proposals.contains_key(proposal_id) && *f
                    == self@.finished_proposals[proposal_id],
                None => !self@.finished_proposals.contains_key(proposal_id),
            },
    {
        self.finished_proposals.get(&proposal_id)
    }

    /// Every event emitted so far, in order of emission.
    pub fn events(&self) -> (r: &Vec<Event>)
        ensures
            r@.map_values(|e: Event| e@) == self@.events,
    {
        &self.events
    }
}

} // verus!
