//! A deterministic poll and voting ledger.
//!
//! The ledger records polls, the candidates within each poll, and each
//! voter's participation. It enforces that every voter casts at most one
//! ballot per poll and that ballots are only accepted inside the poll's
//! configured time window. Time is always an input (`now`): the ledger
//! never samples a clock itself. The host that authenticates voters,
//! supplies the current time, and persists state is outside this crate.

pub mod entities;
pub mod errors;
pub mod keys;
pub mod tally;
pub mod ledger;
