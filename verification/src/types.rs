//! Data shapes of the governance core: proposals, votes, finished proposals,
//! emitted events and the error taxonomy.

use vstd::prelude::*;

verus! {

/// Upper bound, in bytes, on a proposal's description.
pub const MAX_DESCRIPTION_LEN: usize = 1024;

/// Minimum distance, in the clock's unit (milliseconds), between the clock
/// reading at creation time and a proposal's end timestamp: one day.
pub const MIN_VOTING_HORIZON: u64 = 86_400_000;

/// An authenticated account identity, supplied by the enclosing runtime.
pub type AccountId = u64;

/// A monotonic timestamp, supplied by the runtime's clock oracle.
pub type Moment = u64;

/// A governance item with a description and a voting deadline, open for
/// votes until its end timestamp.
#[derive(Debug)]
pub struct Proposal {
    pub creator: AccountId,
    pub description: Vec<u8>,
    pub end_timestamp: Moment,
}

/// A single unweighted vote by one account on one proposal.
#[derive(Clone, Copy, PartialEq, Eq, Debug)]
pub struct Vote {
    pub voter: AccountId,
    pub vote_is_yes: bool,
}

/// The permanent record of a finalized proposal: a snapshot of the proposal
/// together with the approval outcome.
#[derive(Debug)]
pub struct FinishedProposal {
    pub proposal: Proposal,
    pub is_approved: bool,
}

/// Why an operation was rejected.  Every error is a pure validation failure
/// detected before any mutation; a rejected operation changes no state.
#[derive(Clone, Copy, PartialEq, Eq, Debug)]
pub enum Error {
    /// The proposed end timestamp does not clear the minimum one-day horizon.
    EndTimestampTooSoon,
    /// The description exceeds [`MAX_DESCRIPTION_LEN`] bytes.
    DescriptionTooLong,
    /// Allocating another proposal id would exceed the 32-bit range.
    CounterOverflow,
    /// The referenced id is not currently active: it never existed, or it was
    /// already finalized.
    ProposalNotFound,
    /// Voting was attempted after the proposal's end timestamp passed.
    ProposalNotActive,
    /// The caller already voted on this proposal id.
    DuplicateVote,
    /// Finalization was attempted before the end timestamp passed.
    TooEarlyToFinalize,
}

/// A structured event handed to the runtime's event sink.
#[derive(Debug)]
pub enum Event {
    ProposalCreated {
        proposal_id: u32,
        creator: AccountId,
        description: Vec<u8>,
        end_timestamp: Moment,
    },
    UserVoted { proposal_id: u32, voter: AccountId, vote_is_yes: bool },
    ProposalFinalized { proposal_id: u32, is_approved: bool, total_votes: u64, yes_votes: u64 },
}

/// The mathematical shape of an [`Event`]: the description as a byte
/// sequence, everything else as the plain values the event carries.
pub enum EventView {
    ProposalCreated {
        proposal_id: u32,
        creator: AccountId,
        description: Seq<u8>,
        end_timestamp: Moment,
    },
    UserVoted { proposal_id: u32, voter: AccountId, vote_is_yes: bool },
    ProposalFinalized { proposal_id: u32, is_approved: bool, total_votes: u64, yes_votes: u64 },
}

impl View for Event {
    type V = EventView;

    open spec fn view(&self) -> EventView {
        match self {
            Event::ProposalCreated { proposal_id, creator, description, end_timestamp } => (
            EventView::ProposalCreated {
                proposal_id: *proposal_id,
                creator: *creator,
                description: description@,
                end_timestamp: *end_timestamp,
            }),
            Event::UserVoted { proposal_id, voter, vote_is_yes } => (EventView::UserVoted {
                proposal_id: *proposal_id,
                voter: *voter,
                vote_is_yes: *vote_is_yes,
            }),
            Event::ProposalFinalized { proposal_id, is_approved, total_votes, yes_votes } => (
            EventView::ProposalFinalized {
                proposal_id: *proposal_id,
                is_approved: *is_approved,
                total_votes: *total_votes,
                yes_votes: *yes_votes,
            }),
        }
    }
}

} // verus!
