//! The errors that the ledger operations report.
//!
//! Every error is recoverable and user-facing; validation runs before any
//! mutation, so an operation that fails leaves the ledger exactly as it was.

use vstd::prelude::*;

verus! {

/// Rejections of the timestamps handed to poll creation.
#[derive(Clone, Copy, Debug, PartialEq, Eq, Structural)]
pub enum PollError {
    /// The requested end time is not strictly in the future.
    InvalidPollEndTime,
    /// The requested end time is zero, which is no valid unix timestamp here.
    InvalidTimestamp,
}

/// Rejection of a repeated ballot.
#[derive(Clone, Copy, Debug, PartialEq, Eq, Structural)]
pub enum CustomError {
    /// The voter has already cast a ballot in this poll.
    AlreadyVoted,
}

/// Rejections of ballots that fall outside the poll's time window.
#[derive(Clone, Copy, Debug, PartialEq, Eq, Structural)]
pub enum VotingError {
    /// The ballot arrived before the poll's start time.
    PollNotStarted,
    /// The ballot arrived after the poll's end time.
    PollEnded,
}

impl PollError {
    /// The user-facing message for this error.
    pub fn message(&self) -> (m: &'static str)
        ensures
            *self is InvalidPollEndTime ==> m@ == "Poll end time must be in the future"@,
            *self is InvalidTimestamp ==> m@ == "Invalid Unix timestamp"@,
    {
        match self {
            PollError::InvalidPollEndTime => "Poll end time must be in the future",
            PollError::InvalidTimestamp => "Invalid Unix timestamp",
        }
    }
}

impl CustomError {
    /// The user-facing message for this error.
    pub fn message(&self) -> (m: &'static str)
        ensures
            m@ == "Voter has already cast a vote in this poll"@,
    {
        match self {
            CustomError::AlreadyVoted => "Voter has already cast a vote in this poll",
        }
    }
}

impl VotingError {
    /// The user-facing message for this error.
    pub fn message(&self) -> (m: &'static str)
        ensures
            *self is PollNotStarted ==> m@ == "Poll has not started yet"@,
            *self is PollEnded ==> m@ == "Poll has already ended"@,
    {
        match self {
            VotingError::PollNotStarted => "Poll has not started yet",
            VotingError::PollEnded => "Poll has already ended",
        }
    }
}

/// Everything a ledger operation can report.
///
/// The first three variants carry the validation errors above; the last
/// three are the store-level conflicts: a key already occupied, a key with
/// no entity behind it, and an input that exceeds its length bound.
#[derive(Clone, Copy, Debug, PartialEq, Eq, Structural)]
pub enum LedgerError {
    Poll(PollError),
    Custom(CustomError),
    Voting(VotingError),
    /// An entity already resides at the derived key.
    AlreadyExists,
    /// No entity resides at the derived key.
    NotFound,
    /// A description or candidate name exceeds its byte-length bound.
    InputTooLong,
}

impl LedgerError {
    /// The user-facing message for this error.
    pub fn message(&self) -> (m: &'static str)
        ensures
            *self == LedgerError::Poll(PollError::InvalidPollEndTime) ==> m@
                == "Poll end time must be in the future"@,
            *self == LedgerError::Poll(PollError::InvalidTimestamp) ==> m@
                == "Invalid Unix timestamp"@,
            *self == LedgerError::Custom(CustomError::AlreadyVoted) ==> m@
                == "Voter has already cast a vote in this poll"@,
            *self == LedgerError::Voting(VotingError::PollNotStarted) ==> m@
                == "Poll has not started yet"@,
            *self == LedgerError::Voting(VotingError::PollEnded) ==> m@
                == "Poll has already ended"@,
            *self is AlreadyExists ==> m@ == "An entity already exists at this key"@,
            *self is NotFound ==> m@ == "No entity exists at this key"@,
            *self is InputTooLong ==> m@ == "Input exceeds its maximum length"@,
    {
        match self {
            LedgerError::Poll(e) => e.message(),
            LedgerError::Custom(e) => e.message(),
            LedgerError::Voting(e) => e.message(),
            LedgerError::AlreadyExists => "An entity already exists at this key",
            LedgerError::NotFound => "No entity exists at this key",
            LedgerError::InputTooLong => "Input exceeds its maximum length",
        }
    }
}

} // verus!
