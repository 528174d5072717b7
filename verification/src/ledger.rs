//! The ledger: the keyed store of polls, candidates and vote records,
//! together with the three operations that mutate it.
//!
//! Each operation is one atomic transition: it validates first and touches
//! the state only when every check has passed, so a failed call leaves the
//! ledger exactly as it found it.

use vstd::prelude::*;
use crate::entities::{
    Candidate, CandidateSlot, Poll, VoteRecord, Voter, MAX_DESCRIPTION_BYTES, MAX_NAME_BYTES,
};
use crate::errors::{CustomError, LedgerError, PollError, VotingError};
use crate::tally::{
    candidate_count, lemma_candidate_count_absent, lemma_candidate_count_le_len,
    lemma_candidate_count_push, lemma_candidate_count_update, lemma_voted_count_absent,
    lemma_voted_count_le_len, lemma_voted_count_push, lemma_voted_count_update,
    lemma_votes_sum_absent, lemma_votes_sum_element, lemma_votes_sum_push,
    lemma_votes_sum_update, voted_count, votes_sum,
};

verus! {

/// The whole state this core governs: every poll, every candidate, and
/// every vote record, each kind keyed by its logical identity.
pub struct Ledger {
    pub polls: Vec<Poll>,
    pub candidates: Vec<CandidateSlot>,
    pub records: Vec<VoteRecord>,
}

impl Ledger {
    /// There is a poll with this id.
    pub open spec fn has_poll(self, poll_id: u64) -> bool {
        exists|i: int| 0 <= i < self.polls@.len() && self.polls@[i].poll_id == poll_id
    }

    /// The index of the poll with this id (meaningful when it is unique).
    pub open spec fn poll_index_of(self, poll_id: u64) -> int {
        choose|i: int| 0 <= i < self.polls@.len() && self.polls@[i].poll_id == poll_id
    }

    /// The poll with this id.
    pub open spec fn spec_poll(self, poll_id: u64) -> Poll {
        self.polls@[self.poll_index_of(poll_id)]
    }

    /// There is a candidate with this name in this poll.
    pub open spec fn has_candidate(self, poll_id: u64, name: Seq<u8>) -> bool {
        exists|i: int|
            0 <= i < self.candidates@.len() && self.candidates@[i].poll_id == poll_id
                && self.candidates@[i].candidate.candidate_name@ == name
    }

    /// The index of the candidate keyed by (poll id, name).
    pub open spec fn candidate_index_of(self, poll_id: u64, name: Seq<u8>) -> int {
        choose|i: int|
            0 <= i < self.candidates@.len() && self.candidates@[i].poll_id == poll_id
                && self.candidates@[i].candidate.candidate_name@ == name
    }

    /// The candidate keyed by (poll id, name).
    pub open spec fn spec_candidate(self, poll_id: u64, name: Seq<u8>) -> Candidate {
        self.candidates@[self.candidate_index_of(poll_id, name)].candidate
    }

    /// There is a vote record keyed by (poll id, voter).
    pub open spec fn has_record(self, poll_id: u64, voter: Voter) -> bool {
        exists|i: int|
            0 <= i < self.records@.len() && self.records@[i].poll_id == poll_id
                && self.records@[i].voter == voter
    }

    /// The index of the vote record keyed by (poll id, voter).
    pub open spec fn record_index_of(self, poll_id: u64, voter: Voter) -> int {
        choose|i: int|
            0 <= i < self.records@.len() && self.records@[i].poll_id == poll_id
                && self.records@[i].voter == voter
    }

    /// The vote record keyed by (poll id, voter).
    pub open spec fn spec_record(self, poll_id: u64, voter: Voter) -> VoteRecord {
        self.records@[self.record_index_of(poll_id, voter)]
    }

    /// This voter's ballot in this poll is recorded.
    pub open spec fn voter_has_voted(self, poll_id: u64, voter: Voter) -> bool {
        self.has_record(poll_id, voter) && self.spec_record(poll_id, voter).has_voted
    }

    /// Every invariant the ledger maintains across operations:
    /// each entity key occurs at most once; candidates and records only
    /// mention polls that exist; stored texts respect their length bounds;
    /// every poll's end time is nonzero; and each poll's counters agree
    /// with the stored candidates and records — `candidate_amount` counts
    /// its candidates, and `total_votes` equals both the number of recorded
    /// ballots and the sum of its candidates' own counters.
    pub open spec fn well_formed(self) -> bool {
        &&& forall|i: int, j: int|
            0 <= i < j < self.polls@.len() ==> self.polls@[i].poll_id != self.polls@[j].poll_id
        &&& forall|i: int, j: int|
            0 <= i < j < self.candidates@.len() ==> !(self.candidates@[i].poll_id
                == self.candidates@[j].poll_id && self.candidates@[i].candidate.candidate_name@
                == self.candidates@[j].candidate.candidate_name@)
        &&& forall|i: int, j: int|
            0 <= i < j < self.records@.len() ==> !(self.records@[i].poll_id
                == self.records@[j].poll_id && self.records@[i].voter == self.records@[j].voter)
        &&& forall|i: int|
            0 <= i < self.candidates@.len() ==> self.has_poll(#[trigger] self.candidates@[i].poll_id)
        &&& forall|i: int|
            0 <= i < self.records@.len() ==> self.has_poll(#[trigger] self.records@[i].poll_id)
        &&& forall|i: int|
            0 <= i < self.polls@.len() ==> (#[trigger] self.polls@[i].description@.len())
                <= MAX_DESCRIPTION_BYTES
        &&& forall|i: int|
            0 <= i < self.candidates@.len()
                ==> (#[trigger] self.candidates@[i].candidate.candidate_name@.len())
                <= MAX_NAME_BYTES
        &&& forall|i: int| 0 <= i < self.polls@.len() ==> (#[trigger] self.polls@[i].poll_end) > 0
        &&& forall|i: int|
            0 <= i < self.polls@.len() ==> (#[trigger] self.polls@[i].total_votes)
                == voted_count(self.records@, self.polls@[i].poll_id)
        &&& forall|i: int|
            0 <= i < self.polls@.len() ==> (#[trigger] self.polls@[i].candidate_amount)
                == candidate_count(self.candidates@, self.polls@[i].poll_id)
        &&& forall|i: int|
            0 <= i < self.polls@.len() ==> (#[trigger] self.polls@[i].total_votes)
                == votes_sum(self.candidates@, self.polls@[i].poll_id)
    }

    /// Creates an empty ledger: no polls, no candidates, no records.
    pub fn new() -> (l: Ledger)
        ensures
            l.well_formed(),
            l.polls@.len() == 0,
            l.candidates@.len() == 0,
            l.records@.len() == 0,
    {
        Ledger { polls: Vec::new(), candidates: Vec::new(), records: Vec::new() }
    }

    /// Creates a poll.
    ///
    /// The end time must be nonzero and strictly after `now`; the
    /// description must fit its byte bound; and no poll may already hold
    /// the id. On success the new poll starts with no candidates and no
    /// votes; on any failure the ledger is left untouched. Whether the
    /// start time precedes the end time, or lies in the future, is
    /// deliberately not checked: a poll may be created already started,
    /// or with a window that never opens.
    pub fn initialize_poll(
        &mut self,
        poll_id: u64,
        description: Vec<u8>,
        poll_start: u64,
        poll_end: u64,
        now: u64,
    ) -> (r: Result<Poll, LedgerError>)
        requires
            old(self).well_formed(),
        ensures
            final(self).well_formed(),
            poll_end == 0 ==> r == Err::<Poll, LedgerError>(
                LedgerError::Poll(PollError::InvalidTimestamp),
            ) && *final(self) == *old(self),
            poll_end != 0 && poll_end <= now ==> r == Err::<Poll, LedgerError>(
                LedgerError::Poll(PollError::InvalidPollEndTime),
            ) && *final(self) == *old(self),
            poll_end > now && description@.len() > MAX_DESCRIPTION_BYTES ==> r == Err::<
                Poll,
                LedgerError,
            >(LedgerError::InputTooLong) && *final(self) == *old(self),
            poll_end > now && description@.len() <= MAX_DESCRIPTION_BYTES && old(self).has_poll(
                poll_id,
            ) ==> r == Err::<Poll, LedgerError>(LedgerError::AlreadyExists) && *final(self)
                == *old(self),
            poll_end > now && description@.len() <= MAX_DESCRIPTION_BYTES && !old(self).has_poll(
                poll_id,
            ) ==> ({
                &&& r matches Ok(p) && p.poll_id == poll_id && p.description@ == description@
                    && p.poll_start == poll_start && p.poll_end == poll_end && p.candidate_amount
                    == 0 && p.total_votes == 0
                &&& final(self).polls@.len() == old(self).polls@.len() + 1
                &&& forall|i: int|
                    0 <= i < old(self).polls@.len() ==> final(self).polls@[i] == old(
                        self,
                    ).polls@[i]
                &&& final(self).polls@.last().poll_id == poll_id
                &&& final(self).polls@.last().description@ == description@
                &&& final(self).polls@.last().poll_start == poll_start
                &&& final(self).polls@.last().poll_end == poll_end
                &&& final(self).polls@.last().candidate_amount == 0
                &&& final(self).polls@.last().total_votes == 0
                &&& final(self).has_poll(poll_id)
                &&& final(self).spec_poll(poll_id) == final(self).polls@.last()
                &&& final(self).candidates@ == old(self).candidates@
                &&& final(self).records@ == old(self).records@
            }),
            forall|pid: u64, v: Voter|
                old(self).voter_has_voted(pid, v) ==> final(self).voter_has_voted(pid, v),
    {
        if poll_end == 0 {
            return Err(LedgerError::Poll(PollError::InvalidTimestamp));
        }
        if poll_end <= now {
            return Err(LedgerError::Poll(PollError::InvalidPollEndTime));
        }
        if description.len() > MAX_DESCRIPTION_BYTES {
            return Err(LedgerError::InputTooLong);
        }
        if find_poll_index(&self.polls, poll_id).is_some() {
            proof {
                assert(old(self).has_poll(poll_id));
            }
            return Err(LedgerError::AlreadyExists);
        }
        let stored = Poll {
            poll_id,
            description: copy_bytes(&description),
            poll_start,
            poll_end,
            candidate_amount: 0,
            total_votes: 0,
        };
        self.polls.push(stored);
        proof {
            let l0 = *old(self);
            let l1 = *self;
            let n = l0.polls@.len() as int;
            assert(l1.polls@[n].poll_id == poll_id);
            assert(l1.has_poll(poll_id));
            // No stored candidate or record mentions the new poll id: each
            // one's poll already existed, and this id had no poll.
            assert forall|j: int| 0 <= j < l0.candidates@.len() implies l0.candidates@[j].poll_id
                != poll_id by {
                if l0.candidates@[j].poll_id == poll_id {
                    assert(l0.has_poll(poll_id));
                }
            }
            assert forall|j: int| 0 <= j < l0.records@.len() implies l0.records@[j].poll_id
                != poll_id by {
                if l0.records@[j].poll_id == poll_id {
                    assert(l0.has_poll(poll_id));
                }
            }
            lemma_voted_count_absent(l0.records@, poll_id);
            lemma_candidate_count_absent(l0.candidates@, poll_id);
            lemma_votes_sum_absent(l0.candidates@, poll_id);
            // Every old poll keeps its place, so every existing key still
            // resolves and every counter equation still reads the same.
            assert forall|i: int| 0 <= i < l1.candidates@.len() implies l1.has_poll(
                #[trigger] l1.candidates@[i].poll_id,
            ) by {
                assert(l0.has_poll(l0.candidates@[i].poll_id));
                let w = choose|k: int|
                    0 <= k < l0.polls@.len() && l0.polls@[k].poll_id == l0.candidates@[i].poll_id;
                assert(l1.polls@[w].poll_id == l1.candidates@[i].poll_id);
            }
            assert forall|i: int| 0 <= i < l1.records@.len() implies l1.has_poll(
                #[trigger] l1.records@[i].poll_id,
            ) by {
                assert(l0.has_poll(l0.records@[i].poll_id));
                let w = choose|k: int|
                    0 <= k < l0.polls@.len() && l0.polls@[k].poll_id == l0.records@[i].poll_id;
                assert(l1.polls@[w].poll_id == l1.records@[i].poll_id);
            }
            assert(l1.well_formed());
            lemma_poll_index_is(l1, poll_id, n);
            assert forall|pid: u64, v: Voter| l0.voter_has_voted(pid, v) implies l1.voter_has_voted(
                pid,
                v,
            ) by {
                assert(l1.records@ == l0.records@);
            }
        }
        Ok(Poll { poll_id, description, poll_start, poll_end, candidate_amount: 0, total_votes: 0 })
    }

    /// Registers a candidate in an existing poll.
    ///
    /// The name must fit its byte bound, the poll must exist, and no
    /// candidate of that name may already stand in the poll. On success the
    /// candidate starts with zero votes and the poll's candidate count goes
    /// up by one, in the same transition; on any failure the ledger is left
    /// untouched.
    pub fn initialize_candidate(&mut self, poll_id: u64, candidate_name: Vec<u8>) -> (r: Result<
        Candidate,
        LedgerError,
    >)
        requires
            old(self).well_formed(),
            old(self).candidates@.len() < u64::MAX,
        ensures
            final(self).well_formed(),
            candidate_name@.len() > MAX_NAME_BYTES ==> r == Err::<Candidate, LedgerError>(
                LedgerError::InputTooLong,
            ) && *final(self) == *old(self),
            candidate_name@.len() <= MAX_NAME_BYTES && !old(self).has_poll(poll_id) ==> r == Err::<
                Candidate,
                LedgerError,
            >(LedgerError::NotFound) && *final(self) == *old(self),
            candidate_name@.len() <= MAX_NAME_BYTES && old(self).has_poll(poll_id) && old(
                self,
            ).has_candidate(poll_id, candidate_name@) ==> r == Err::<Candidate, LedgerError>(
                LedgerError::AlreadyExists,
            ) && *final(self) == *old(self),
            candidate_name@.len() <= MAX_NAME_BYTES && old(self).has_poll(poll_id) && !old(
                self,
            ).has_candidate(poll_id, candidate_name@) ==> ({
                &&& r matches Ok(c) && c.candidate_name@ == candidate_name@ && c.candidate_votes
                    == 0
                &&& final(self).candidates@.len() == old(self).candidates@.len() + 1
                &&& forall|i: int|
                    0 <= i < old(self).candidates@.len() ==> final(self).candidates@[i] == old(
                        self,
                    ).candidates@[i]
                &&& final(self).has_candidate(poll_id, candidate_name@)
                &&& final(self).spec_candidate(poll_id, candidate_name@).candidate_name@
                    == candidate_name@
                &&& final(self).spec_candidate(poll_id, candidate_name@).candidate_votes == 0
                &&& final(self).polls@.len() == old(self).polls@.len()
                &&& final(self).has_poll(poll_id)
                &&& final(self).spec_poll(poll_id).poll_id == poll_id
                &&& final(self).spec_poll(poll_id).candidate_amount == old(self).spec_poll(
                    poll_id,
                ).candidate_amount + 1
                &&& final(self).spec_poll(poll_id).total_votes == old(self).spec_poll(
                    poll_id,
                ).total_votes
                &&& final(self).spec_poll(poll_id).poll_start == old(self).spec_poll(
                    poll_id,
                ).poll_start
                &&& final(self).spec_poll(poll_id).poll_end == old(self).spec_poll(
                    poll_id,
                ).poll_end
                &&& final(self).spec_poll(poll_id).description@ == old(self).spec_poll(
                    poll_id,
                ).description@
                &&& forall|i: int|
                    0 <= i < old(self).polls@.len() && old(self).polls@[i].poll_id != poll_id
                        ==> final(self).polls@[i] == old(self).polls@[i]
                &&& final(self).records@ == old(self).records@
            }),
            forall|pid: u64, v: Voter|
                old(self).voter_has_voted(pid, v) ==> final(self).voter_has_voted(pid, v),
    {
        if candidate_name.len() > MAX_NAME_BYTES {
            return Err(LedgerError::InputTooLong);
        }
        let pi = match find_poll_index(&self.polls, poll_id) {
            None => {
                proof {
                    assert(!old(self).has_poll(poll_id));
                }
                return Err(LedgerError::NotFound);
            },
            Some(pi) => pi,
        };
        if find_candidate_index(&self.candidates, poll_id, &candidate_name).is_some() {
            proof {
                assert(old(self).has_candidate(poll_id, candidate_name@));
            }
            return Err(LedgerError::AlreadyExists);
        }
        proof {
            lemma_poll_index_is(*old(self), poll_id, pi as int);
            lemma_candidate_count_le_len(old(self).candidates@, poll_id);
        }
        let stored = CandidateSlot {
            poll_id,
            candidate: Candidate {
                candidate_name: copy_bytes(&candidate_name),
                candidate_votes: 0,
            },
        };
        self.candidates.push(stored);
        let mut p = self.polls.remove(pi);
        p.candidate_amount = p.candidate_amount + 1;
        self.polls.insert(pi, p);
        proof {
            let l0 = *old(self);
            let l1 = *self;
            let cs0 = l0.candidates@;
            let cs1 = l1.candidates@;
            let nc = cs0.len() as int;
            assert(l1.polls@ =~= l0.polls@.update(pi as int, l1.polls@[pi as int]));
            assert(forall|k: int|
                0 <= k < l1.polls@.len() ==> (#[trigger] l1.polls@[k]).poll_id
                    == l0.polls@[k].poll_id);
            assert(cs1[nc].poll_id == poll_id && cs1[nc].candidate.candidate_name@
                == candidate_name@);
            // Existing polls keep resolving, and the new slot's poll exists.
            assert forall|i: int| 0 <= i < cs1.len() implies l1.has_poll(
                #[trigger] cs1[i].poll_id,
            ) by {
                if i < nc {
                    assert(l0.has_poll(cs0[i].poll_id));
                    let w = choose|k: int|
                        0 <= k < l0.polls@.len() && l0.polls@[k].poll_id == cs0[i].poll_id;
                    assert(l1.polls@[w].poll_id == cs1[i].poll_id);
                } else {
                    assert(l1.polls@[pi as int].poll_id == poll_id);
                }
            }
            assert forall|i: int| 0 <= i < l1.records@.len() implies l1.has_poll(
                #[trigger] l1.records@[i].poll_id,
            ) by {
                assert(l0.has_poll(l0.records@[i].poll_id));
                let w = choose|k: int|
                    0 <= k < l0.polls@.len() && l0.polls@[k].poll_id == l0.records@[i].poll_id;
                assert(l1.polls@[w].poll_id == l1.records@[i].poll_id);
            }
            // The new slot adds one to this poll's candidate count and
            // nothing to any other count or to any vote sum.
            assert forall|i: int| 0 <= i < l1.polls@.len() implies (
            #[trigger] l1.polls@[i].candidate_amount) == candidate_count(
                cs1,
                l1.polls@[i].poll_id,
            ) by {
                let id = l1.polls@[i].poll_id;
                lemma_candidate_count_push(cs0, cs1[nc], id);
                if i != pi as int {
                    assert(l0.polls@[i].poll_id != l0.polls@[pi as int].poll_id);
                }
            }
            assert forall|i: int| 0 <= i < l1.polls@.len() implies (
            #[trigger] l1.polls@[i].total_votes) == votes_sum(cs1, l1.polls@[i].poll_id) by {
                let id = l1.polls@[i].poll_id;
                lemma_votes_sum_push(cs0, cs1[nc], id);
                if i != pi as int {
                    assert(l0.polls@[i].poll_id != l0.polls@[pi as int].poll_id);
                }
            }
            assert(l1.well_formed());
            lemma_poll_index_is(l1, poll_id, pi as int);
            lemma_candidate_index_is(l1, poll_id, candidate_name@, nc);
            assert forall|pid: u64, v: Voter| l0.voter_has_voted(pid, v) implies l1.voter_has_voted(
                pid,
                v,
            ) by {
                assert(l1.records@ == l0.records@);
            }
        }
        Ok(Candidate { candidate_name, candidate_votes: 0 })
    }

    /// Records one voter's ballot for one candidate.
    ///
    /// The ballot is accepted when the voter has not voted in this poll
    /// before, the poll exists and its window contains `now`, and the
    /// candidate stands in the poll. Acceptance is one indivisible
    /// transition: the voter's record flips to voted (created first if the
    /// voter had none) and the candidate's counter and the poll's total
    /// rise by one together. On any failure nothing is persisted, not even
    /// a fresh record. A recorded ballot is terminal: no later call revokes
    /// it, and every later ballot by the same voter in the same poll fails.
    pub fn vote(&mut self, poll_id: u64, candidate_name: &Vec<u8>, voter: Voter, now: u64) -> (r:
        Result<VoteRecord, LedgerError>)
        requires
            old(self).well_formed(),
            old(self).records@.len() < u64::MAX,
        ensures
            final(self).well_formed(),
            old(self).voter_has_voted(poll_id, voter) ==> r == Err::<VoteRecord, LedgerError>(
                LedgerError::Custom(CustomError::AlreadyVoted),
            ) && *final(self) == *old(self),
            !old(self).voter_has_voted(poll_id, voter) && !old(self).has_poll(poll_id) ==> r
                == Err::<VoteRecord, LedgerError>(LedgerError::NotFound) && *final(self) == *old(
                self,
            ),
            !old(self).voter_has_voted(poll_id, voter) && old(self).has_poll(poll_id) && now < old(
                self,
            ).spec_poll(poll_id).poll_start ==> r == Err::<VoteRecord, LedgerError>(
                LedgerError::Voting(VotingError::PollNotStarted),
            ) && *final(self) == *old(self),
            !old(self).voter_has_voted(poll_id, voter) && old(self).has_poll(poll_id) && now >= old(
                self,
            ).spec_poll(poll_id).poll_start && now > old(self).spec_poll(poll_id).poll_end ==> r
                == Err::<VoteRecord, LedgerError>(LedgerError::Voting(VotingError::PollEnded))
                && *final(self) == *old(self),
            !old(self).voter_has_voted(poll_id, voter) && old(self).has_poll(poll_id) && old(
                self,
            ).spec_poll(poll_id).poll_start <= now <= old(self).spec_poll(poll_id).poll_end && !old(
                self,
            ).has_candidate(poll_id, candidate_name@) ==> r == Err::<VoteRecord, LedgerError>(
                LedgerError::NotFound,
            ) && *final(self) == *old(self),
            !old(self).voter_has_voted(poll_id, voter) && old(self).has_poll(poll_id) && old(
                self,
            ).spec_poll(poll_id).poll_start <= now <= old(self).spec_poll(poll_id).poll_end && old(
                self,
            ).has_candidate(poll_id, candidate_name@) ==> ({
                &&& r == Ok::<VoteRecord, LedgerError>(
                    VoteRecord { voter, poll_id, has_voted: true },
                )
                &&& final(self).voter_has_voted(poll_id, voter)
                &&& final(self).spec_record(poll_id, voter) == (VoteRecord {
                    voter,
                    poll_id,
                    has_voted: true,
                })
                &&& final(self).records@.len() == old(self).records@.len() + (
                if old(self).has_record(poll_id, voter) {
                    0int
                } else {
                    1int
                })
                &&& forall|i: int|
                    0 <= i < old(self).records@.len() && !(old(self).records@[i].poll_id == poll_id
                        && old(self).records@[i].voter == voter) ==> final(self).records@[i] == old(
                        self,
                    ).records@[i]
                &&& final(self).has_poll(poll_id)
                &&& final(self).polls@.len() == old(self).polls@.len()
                &&& final(self).spec_poll(poll_id).poll_id == poll_id
                &&& final(self).spec_poll(poll_id).total_votes == old(self).spec_poll(
                    poll_id,
                ).total_votes + 1
                &&& final(self).spec_poll(poll_id).candidate_amount == old(self).spec_poll(
                    poll_id,
                ).candidate_amount
                &&& final(self).spec_poll(poll_id).poll_start == old(self).spec_poll(
                    poll_id,
                ).poll_start
                &&& final(self).spec_poll(poll_id).poll_end == old(self).spec_poll(
                    poll_id,
                ).poll_end
                &&& final(self).spec_poll(poll_id).description@ == old(self).spec_poll(
                    poll_id,
                ).description@
                &&& forall|i: int|
                    0 <= i < old(self).polls@.len() && old(self).polls@[i].poll_id != poll_id
                        ==> final(self).polls@[i] == old(self).polls@[i]
                &&& final(self).candidates@.len() == old(self).candidates@.len()
                &&& final(self).has_candidate(poll_id, candidate_name@)
                &&& final(self).spec_candidate(poll_id, candidate_name@).candidate_name@
                    == candidate_name@
                &&& final(self).spec_candidate(poll_id, candidate_name@).candidate_votes == old(
                    self,
                ).spec_candidate(poll_id, candidate_name@).candidate_votes + 1
                &&& forall|i: int|
                    0 <= i < old(self).candidates@.len() && !(old(self).candidates@[i].poll_id
                        == poll_id && old(self).candidates@[i].candidate.candidate_name@
                        == candidate_name@) ==> final(self).candidates@[i] == old(
                        self,
                    ).candidates@[i]
            }),
            forall|pid: u64, v: Voter|
                old(self).voter_has_voted(pid, v) ==> final(self).voter_has_voted(pid, v),
    {
        let ri_opt = find_record_index(&self.records, poll_id, voter);
        let already_voted: bool = match ri_opt {
            Some(ri) => self.records[ri].has_voted,
            None => false,
        };
        proof {
            if ri_opt is Some {
                lemma_record_index_is(*old(self), poll_id, voter, ri_opt->Some_0 as int);
            }
        }
        if already_voted {
            return Err(LedgerError::Custom(CustomError::AlreadyVoted));
        }
        let pi = match find_poll_index(&self.polls, poll_id) {
            None => {
                proof {
                    assert(!old(self).has_poll(poll_id));
                }
                return Err(LedgerError::NotFound);
            },
            Some(pi) => pi,
        };
        proof {
            lemma_poll_index_is(*old(self), poll_id, pi as int);
        }
        if now < self.polls[pi].poll_start {
            return Err(LedgerError::Voting(VotingError::PollNotStarted));
        }
        if now > self.polls[pi].poll_end {
            return Err(LedgerError::Voting(VotingError::PollEnded));
        }
        let ci = match find_candidate_index(&self.candidates, poll_id, candidate_name) {
            None => {
                proof {
                    assert(!old(self).has_candidate(poll_id, candidate_name@));
                }
                return Err(LedgerError::NotFound);
            },
            Some(ci) => ci,
        };
        proof {
            lemma_candidate_index_is(*old(self), poll_id, candidate_name@, ci as int);
            // The poll's total fits one more ballot, so the candidate's
            // counter, which the total bounds, fits one more too.
            lemma_voted_count_le_len(old(self).records@, poll_id);
            lemma_votes_sum_element(old(self).candidates@, ci as int, poll_id);
            assert(old(self).polls@[pi as int].total_votes == votes_sum(
                old(self).candidates@,
                poll_id,
            ));
            assert(old(self).polls@[pi as int].total_votes == voted_count(
                old(self).records@,
                poll_id,
            ));
            assert(old(self).candidates@[ci as int].candidate.candidate_votes < u64::MAX);
        }
        // The indivisible transition: record the ballot and raise both
        // counters; nothing below can fail.
        let returned = VoteRecord { voter, poll_id, has_voted: true };
        match ri_opt {
            Some(ri) => {
                let mut rec = self.records.remove(ri);
                rec.has_voted = true;
                self.records.insert(ri, rec);
            },
            None => {
                self.records.push(returned);
            },
        }
        let mut slot = self.candidates.remove(ci);
        slot.candidate.candidate_votes = slot.candidate.candidate_votes + 1;
        self.candidates.insert(ci, slot);
        let mut p = self.polls.remove(pi);
        p.total_votes = p.total_votes + 1;
        self.polls.insert(pi, p);
        proof {
            let l0 = *old(self);
            let l1 = *self;
            let rs0 = l0.records@;
            let rs1 = l1.records@;
            let cs0 = l0.candidates@;
            let cs1 = l1.candidates@;
            let ps0 = l0.polls@;
            let ps1 = l1.polls@;
            let ri_spec: int = if ri_opt is Some {
                ri_opt->Some_0 as int
            } else {
                rs0.len() as int
            };
            if ri_opt is Some {
                assert(rs1 =~= rs0.update(ri_spec, rs1[ri_spec]));
                assert(rs0[ri_spec].voter == voter);
            }
            assert(rs1[ri_spec] == VoteRecord { voter, poll_id, has_voted: true });
            assert(cs1 =~= cs0.update(ci as int, cs1[ci as int]));
            assert(ps1 =~= ps0.update(pi as int, ps1[pi as int]));
            assert(forall|k: int|
                0 <= k < ps1.len() ==> (#[trigger] ps1[k]).poll_id == ps0[k].poll_id
                    && ps1[k].description == ps0[k].description && ps1[k].poll_end
                    == ps0[k].poll_end && ps1[k].candidate_amount == ps0[k].candidate_amount);
            assert(forall|k: int|
                0 <= k < cs1.len() ==> (#[trigger] cs1[k]).poll_id == cs0[k].poll_id
                    && cs1[k].candidate.candidate_name == cs0[k].candidate.candidate_name);
            assert(forall|k: int|
                0 <= k < rs1.len() && k != ri_spec ==> (#[trigger] rs1[k]) == rs0[k]);
            // Every stored entity still points at a poll that exists.
            assert forall|i: int| 0 <= i < cs1.len() implies l1.has_poll(
                #[trigger] cs1[i].poll_id,
            ) by {
                assert(l0.has_poll(cs0[i].poll_id));
                let w = choose|k: int|
                    0 <= k < ps0.len() && ps0[k].poll_id == cs0[i].poll_id;
                assert(ps1[w].poll_id == cs1[i].poll_id);
            }
            assert forall|i: int| 0 <= i < rs1.len() implies l1.has_poll(
                #[trigger] rs1[i].poll_id,
            ) by {
                if i < rs0.len() && i != ri_spec {
                    assert(l0.has_poll(rs0[i].poll_id));
                    let w = choose|k: int|
                        0 <= k < ps0.len() && ps0[k].poll_id == rs0[i].poll_id;
                    assert(ps1[w].poll_id == rs1[i].poll_id);
                } else {
                    assert(rs1[i].poll_id == poll_id);
                    assert(ps1[pi as int].poll_id == poll_id);
                }
            }
            // The ballot raises this poll's recorded count by exactly one
            // and leaves every other poll's count alone.
            assert forall|i: int| 0 <= i < ps1.len() implies (#[trigger] ps1[i].total_votes)
                == voted_count(rs1, ps1[i].poll_id) by {
                let id = ps1[i].poll_id;
                if ri_opt is Some {
                    lemma_voted_count_update(rs0, ri_spec, rs1[ri_spec], id);
                } else {
                    lemma_voted_count_push(rs0, rs1[ri_spec], id);
                }
                if i != pi as int {
                    assert(ps0[i].poll_id != ps0[pi as int].poll_id);
                }
            }
            // The candidate keeps its key, so every candidate count stays.
            assert forall|i: int| 0 <= i < ps1.len() implies (#[trigger] ps1[i].candidate_amount)
                == candidate_count(cs1, ps1[i].poll_id) by {
                let id = ps1[i].poll_id;
                lemma_candidate_count_update(cs0, ci as int, cs1[ci as int], id);
            }
            // The candidate's counter raises this poll's vote sum by one
            // and leaves every other poll's sum alone.
            assert forall|i: int| 0 <= i < ps1.len() implies (#[trigger] ps1[i].total_votes)
                == votes_sum(cs1, ps1[i].poll_id) by {
                let id = ps1[i].poll_id;
                lemma_votes_sum_update(cs0, ci as int, cs1[ci as int], id);
                if i != pi as int {
                    assert(ps0[i].poll_id != ps0[pi as int].poll_id);
                }
            }
            assert(l1.well_formed());
            lemma_poll_index_is(l1, poll_id, pi as int);
            lemma_candidate_index_is(l1, poll_id, candidate_name@, ci as int);
            lemma_record_index_is(l1, poll_id, voter, ri_spec);
            // Nobody else's recorded ballot moved.
            assert forall|pid: u64, v: Voter| l0.voter_has_voted(pid, v) implies l1.voter_has_voted(
                pid,
                v,
            ) by {
                let k = l0.record_index_of(pid, v);
                assert(0 <= k < rs0.len() && rs0[k].poll_id == pid && rs0[k].voter == v
                    && rs0[k].has_voted);
                if k == ri_spec {
                    lemma_record_index_is(l1, pid, v, ri_spec);
                } else {
                    assert(rs1[k] == rs0[k]);
                    lemma_record_index_is(l1, pid, v, k);
                }
            }
        }
        Ok(returned)
    }

    /// Looks a poll up by id and hands back a copy of it.
    pub fn get_poll(&self, poll_id: u64) -> (r: Option<Poll>)
        requires
            self.well_formed(),
        ensures
            r is Some <==> self.has_poll(poll_id),
            r matches Some(p) ==> p.poll_id == poll_id && p.description@ == self.spec_poll(
                poll_id,
            ).description@ && p.poll_start == self.spec_poll(poll_id).poll_start && p.poll_end
                == self.spec_poll(poll_id).poll_end && p.candidate_amount == self.spec_poll(
                poll_id,
            ).candidate_amount && p.total_votes == self.spec_poll(poll_id).total_votes,
    {
        match find_poll_index(&self.polls, poll_id) {
            None => {
                proof {
                    assert(!self.has_poll(poll_id));
                }
                None
            },
            Some(i) => {
                proof {
                    lemma_poll_index_is(*self, poll_id, i as int);
                }
                let p = &self.polls[i];
                Some(
                    Poll {
                        poll_id: p.poll_id,
                        description: copy_bytes(&p.description),
                        poll_start: p.poll_start,
                        poll_end: p.poll_end,
                        candidate_amount: p.candidate_amount,
                        total_votes: p.total_votes,
                    },
                )
            },
        }
    }

    /// Looks a candidate up by poll id and name and hands back a copy.
    pub fn get_candidate(&self, poll_id: u64, candidate_name: &Vec<u8>) -> (r: Option<Candidate>)
        requires
            self.well_formed(),
        ensures
            r is Some <==> self.has_candidate(poll_id, candidate_name@),
            r matches Some(c) ==> c.candidate_name@ == candidate_name@ && c.candidate_votes
                == self.spec_candidate(poll_id, candidate_name@).candidate_votes,
    {
        match find_candidate_index(&self.candidates, poll_id, candidate_name) {
            None => {
                proof {
                    assert(!self.has_candidate(poll_id, candidate_name@));
                }
                None
            },
            Some(i) => {
                proof {
                    lemma_candidate_index_is(*self, poll_id, candidate_name@, i as int);
                }
                let c = &self.candidates[i].candidate;
                Some(
                    Candidate {
                        candidate_name: copy_bytes(&c.candidate_name),
                        candidate_votes: c.candidate_votes,
                    },
                )
            },
        }
    }

    /// Tells whether this voter's ballot in this poll is recorded.
    pub fn has_voter_voted(&self, poll_id: u64, voter: Voter) -> (b: bool)
        requires
            self.well_formed(),
        ensures
            b == self.voter_has_voted(poll_id, voter),
    {
        match find_record_index(&self.records, poll_id, voter) {
            None => {
                proof {
                    assert(!self.has_record(poll_id, voter));
                }
                false
            },
            Some(i) => {
                proof {
                    lemma_record_index_is(*self, poll_id, voter, i as int);
                }
                self.records[i].has_voted
            },
        }
    }
}

/// Law: in every well-formed ledger, each poll's running total equals the
/// sum of the vote counters over that poll's candidates, and equally the
/// number of ballots recorded for that poll. Every operation requires and
/// re-establishes well-formedness, so the equality holds after each one.
pub proof fn lemma_total_votes_consistent(l: Ledger, i: int)
    requires
        l.well_formed(),
        0 <= i < l.polls@.len(),
    ensures
        l.polls@[i].total_votes == votes_sum(l.candidates@, l.polls@[i].poll_id),
        l.polls@[i].total_votes == voted_count(l.records@, l.polls@[i].poll_id),
{
}

/// When poll ids are unique, the poll found at an index is the poll
/// `spec_poll` speaks of.
proof fn lemma_poll_index_is(l: Ledger, poll_id: u64, i: int)
    requires
        forall|a: int, b: int|
            0 <= a < b < l.polls@.len() ==> l.polls@[a].poll_id != l.polls@[b].poll_id,
        0 <= i < l.polls@.len(),
        l.polls@[i].poll_id == poll_id,
    ensures
        l.has_poll(poll_id),
        l.poll_index_of(poll_id) == i,
        l.spec_poll(poll_id) == l.polls@[i],
{
    assert(l.has_poll(poll_id));
    let j = l.poll_index_of(poll_id);
    assert(0 <= j < l.polls@.len() && l.polls@[j].poll_id == poll_id);
    if j < i {
        assert(l.polls@[j].poll_id != l.polls@[i].poll_id);
    }
    if i < j {
        assert(l.polls@[i].poll_id != l.polls@[j].poll_id);
    }
}

/// When candidate keys are unique, the candidate found at an index is the
/// candidate `spec_candidate` speaks of.
proof fn lemma_candidate_index_is(l: Ledger, poll_id: u64, name: Seq<u8>, i: int)
    requires
        forall|a: int, b: int|
            0 <= a < b < l.candidates@.len() ==> !(l.candidates@[a].poll_id
                == l.candidates@[b].poll_id && l.candidates@[a].candidate.candidate_name@
                == l.candidates@[b].candidate.candidate_name@),
        0 <= i < l.candidates@.len(),
        l.candidates@[i].poll_id == poll_id,
        l.candidates@[i].candidate.candidate_name@ == name,
    ensures
        l.has_candidate(poll_id, name),
        l.candidate_index_of(poll_id, name) == i,
        l.spec_candidate(poll_id, name) == l.candidates@[i].candidate,
{
    assert(l.has_candidate(poll_id, name));
    let j = l.candidate_index_of(poll_id, name);
    assert(0 <= j < l.candidates@.len() && l.candidates@[j].poll_id == poll_id
        && l.candidates@[j].candidate.candidate_name@ == name);
    if j < i {
        assert(!(l.candidates@[j].poll_id == l.candidates@[i].poll_id
            && l.candidates@[j].candidate.candidate_name@
            == l.candidates@[i].candidate.candidate_name@));
    }
    if i < j {
        assert(!(l.candidates@[i].poll_id == l.candidates@[j].poll_id
            && l.candidates@[i].candidate.candidate_name@
            == l.candidates@[j].candidate.candidate_name@));
    }
}

/// When record keys are unique, the record found at an index is the record
/// `spec_record` speaks of.
proof fn lemma_record_index_is(l: Ledger, poll_id: u64, voter: Voter, i: int)
    requires
        forall|a: int, b: int|
            0 <= a < b < l.records@.len() ==> !(l.records@[a].poll_id == l.records@[b].poll_id
                && l.records@[a].voter == l.records@[b].voter),
        0 <= i < l.records@.len(),
        l.records@[i].poll_id == poll_id,
        l.records@[i].voter == voter,
    ensures
        l.has_record(poll_id, voter),
        l.record_index_of(poll_id, voter) == i,
        l.spec_record(poll_id, voter) == l.records@[i],
{
    assert(l.has_record(poll_id, voter));
    let j = l.record_index_of(poll_id, voter);
    assert(0 <= j < l.records@.len() && l.records@[j].poll_id == poll_id && l.records@[j].voter
        == voter);
    if j < i {
        assert(!(l.records@[j].poll_id == l.records@[i].poll_id && l.records@[j].voter
            == l.records@[i].voter));
    }
    if i < j {
        assert(!(l.records@[i].poll_id == l.records@[j].poll_id && l.records@[i].voter
            == l.records@[j].voter));
    }
}

/// Copies a byte string.
pub fn copy_bytes(src: &Vec<u8>) -> (r: Vec<u8>)
    ensures
        r@ == src@,
{
    let mut r: Vec<u8> = Vec::new();
    let mut i: usize = 0;
    while i < src.len()
        invariant
            i <= src@.len(),
            r@ == src@.subrange(0, i as int),
        decreases src@.len() - i,
    {
        r.push(src[i]);
        proof {
            assert(src@.subrange(0, i + 1 as int) =~= src@.subrange(0, i as int).push(src@[i as int]));
        }
        i = i + 1;
    }
    proof {
        assert(src@.subrange(0, src@.len() as int) =~= src@);
    }
    r
}

/// Compares two byte strings for equality of their contents.
pub fn bytes_equal(a: &Vec<u8>, b: &Vec<u8>) -> (r: bool)
    ensures
        r <==> a@ == b@,
{
    if a.len() != b.len() {
        return false;
    }
    let mut i: usize = 0;
    while i < a.len()
        invariant
            i <= a@.len(),
            a@.len() == b@.len(),
            forall|j: int| 0 <= j < i ==> a@[j] == b@[j],
        decreases a@.len() - i,
    {
        if a[i] != b[i] {
            return false;
        }
        i = i + 1;
    }
    proof {
        assert(a@ =~= b@);
    }
    true
}

/// Finds the index of the poll with the given id, if one is stored.
fn find_poll_index(polls: &Vec<Poll>, poll_id: u64) -> (r: Option<usize>)
    ensures
        match r {
            Some(i) => i < polls@.len() && polls@[i as int].poll_id == poll_id,
            None => forall|j: int| 0 <= j < polls@.len() ==> polls@[j].poll_id != poll_id,
        },
{
    let mut i: usize = 0;
    while i < polls.len()
        invariant
            i <= polls@.len(),
            forall|j: int| 0 <= j < i ==> polls@[j].poll_id != poll_id,
        decreases polls@.len() - i,
    {
        if polls[i].poll_id == poll_id {
            return Some(i);
        }
        i = i + 1;
    }
    None
}

/// Finds the index of the candidate keyed by (poll id, name), if one is stored.
fn find_candidate_index(candidates: &Vec<CandidateSlot>, poll_id: u64, name: &Vec<u8>) -> (r:
    Option<usize>)
    ensures
        match r {
            Some(i) => i < candidates@.len() && candidates@[i as int].poll_id == poll_id
                && candidates@[i as int].candidate.candidate_name@ == name@,
            None => forall|j: int|
                0 <= j < candidates@.len() ==> !(candidates@[j].poll_id == poll_id
                    && candidates@[j].candidate.candidate_name@ == name@),
        },
{
    let mut i: usize = 0;
    while i < candidates.len()
        invariant
            i <= candidates@.len(),
            forall|j: int|
                0 <= j < i ==> !(candidates@[j].poll_id == poll_id
                    && candidates@[j].candidate.candidate_name@ == name@),
        decreases candidates@.len() - i,
    {
        if candidates[i].poll_id == poll_id && bytes_equal(&candidates[i].candidate.candidate_name, name) {
            return Some(i);
        }
        i = i + 1;
    }
    None
}

/// Finds the index of the vote record keyed by (poll id, voter), if one is stored.
fn find_record_index(records: &Vec<VoteRecord>, poll_id: u64, voter: Voter) -> (r: Option<usize>)
    ensures
        match r {
            Some(i) => i < records@.len() && records@[i as int].poll_id == poll_id
                && records@[i as int].voter == voter,
            None => forall|j: int|
                0 <= j < records@.len() ==> !(records@[j].poll_id == poll_id && records@[j].voter
                    == voter),
        },
{
    let mut i: usize = 0;
    while i < records.len()
        invariant
            i <= records@.len(),
            forall|j: int|
                0 <= j < i ==> !(records@[j].poll_id == poll_id && records@[j].voter == voter),
        decreases records@.len() - i,
    {
        if records[i].poll_id == poll_id && records[i].voter.id == voter.id {
            return Some(i);
        }
        i = i + 1;
    }
    None
}

} // verus!
