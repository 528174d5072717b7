//! The entities the ledger stores: polls, candidates, and vote records.

use vstd::prelude::*;

verus! {

/// Longest allowed poll description, in bytes.
pub const MAX_DESCRIPTION_BYTES: usize = 200;

/// Longest allowed candidate name, in bytes.
pub const MAX_NAME_BYTES: usize = 32;

/// An externally authenticated voter identity.
///
/// The ledger never inspects an identity beyond equality; whoever calls in
/// has already authenticated it.
#[derive(Clone, Copy, Debug, PartialEq, Eq, Structural)]
pub struct Voter {
    pub id: u64,
}

/// A votable contest with a bounded time window and a running tally.
#[derive(Debug, PartialEq, Eq)]
pub struct Poll {
    pub poll_id: u64,
    /// Free text, at most [`MAX_DESCRIPTION_BYTES`] bytes.
    pub description: Vec<u8>,
    /// Unix timestamp from which ballots are accepted.
    pub poll_start: u64,
    /// Unix timestamp up to which ballots are accepted.
    pub poll_end: u64,
    /// How many candidates were ever registered for this poll.
    pub candidate_amount: u64,
    /// How many ballots were cast in this poll.
    pub total_votes: u64,
}

/// An option within one poll, with its own vote counter.
#[derive(Debug, PartialEq, Eq)]
pub struct Candidate {
    /// At most [`MAX_NAME_BYTES`] bytes, unique within the poll.
    pub candidate_name: Vec<u8>,
    pub candidate_votes: u64,
}

/// A candidate together with the poll that owns it, as the store keeps it.
///
/// The candidate belongs to exactly one poll; the relationship lives in the
/// key the entity is stored under, not inside [`Candidate`] itself.
#[derive(Debug, PartialEq, Eq)]
pub struct CandidateSlot {
    pub poll_id: u64,
    pub candidate: Candidate,
}

/// The durable marker of one voter's participation in one poll.
#[derive(Clone, Copy, Debug, PartialEq, Eq, Structural)]
pub struct VoteRecord {
    pub voter: Voter,
    pub poll_id: u64,
    /// Flips to `true` exactly once and never reverts.
    pub has_voted: bool,
}

} // verus!
