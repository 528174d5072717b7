//! Counting and summing over the stored entity sequences.
//!
//! These spec functions say what the counters inside a [`Poll`] must equal:
//! `candidate_count` counts the candidates registered for a poll,
//! `votes_sum` adds up their vote counters, and `voted_count` counts the
//! recorded ballots. The lemmas track how each quantity moves when the
//! underlying sequence grows by one entity or has one entity replaced.

use vstd::prelude::*;
use crate::entities::{CandidateSlot, VoteRecord};

verus! {

/// What one vote record contributes to a poll's ballot count.
pub open spec fn record_contrib(r: VoteRecord, poll_id: u64) -> nat {
    if r.poll_id == poll_id && r.has_voted {
        1nat
    } else {
        0nat
    }
}

/// How many ballots the records hold for the given poll.
pub open spec fn voted_count(rs: Seq<VoteRecord>, poll_id: u64) -> nat
    decreases rs.len(),
{
    if rs.len() == 0 {
        0nat
    } else {
        voted_count(rs.drop_last(), poll_id) + record_contrib(rs.last(), poll_id)
    }
}

/// What one stored candidate contributes to a poll's candidate count.
pub open spec fn slot_contrib(c: CandidateSlot, poll_id: u64) -> nat {
    if c.poll_id == poll_id {
        1nat
    } else {
        0nat
    }
}

/// How many candidates are registered for the given poll.
pub open spec fn candidate_count(cs: Seq<CandidateSlot>, poll_id: u64) -> nat
    decreases cs.len(),
{
    if cs.len() == 0 {
        0nat
    } else {
        candidate_count(cs.drop_last(), poll_id) + slot_contrib(cs.last(), poll_id)
    }
}

/// What one stored candidate contributes to a poll's vote total.
pub open spec fn votes_contrib(c: CandidateSlot, poll_id: u64) -> nat {
    if c.poll_id == poll_id {
        c.candidate.candidate_votes as nat
    } else {
        0nat
    }
}

/// The sum of the vote counters over the given poll's candidates.
pub open spec fn votes_sum(cs: Seq<CandidateSlot>, poll_id: u64) -> nat
    decreases cs.len(),
{
    if cs.len() == 0 {
        0nat
    } else {
        votes_sum(cs.drop_last(), poll_id) + votes_contrib(cs.last(), poll_id)
    }
}

/// A poll holds at most one ballot per stored record.
pub proof fn lemma_voted_count_le_len(rs: Seq<VoteRecord>, poll_id: u64)
    ensures
        voted_count(rs, poll_id) <= rs.len(),
    decreases rs.len(),
{
    if rs.len() > 0 {
        lemma_voted_count_le_len(rs.drop_last(), poll_id);
    }
}

/// Appending one record adds exactly its own contribution.
pub proof fn lemma_voted_count_push(rs: Seq<VoteRecord>, r: VoteRecord, poll_id: u64)
    ensures
        voted_count(rs.push(r), poll_id) == voted_count(rs, poll_id) + record_contrib(r, poll_id),
{
    assert(rs.push(r).drop_last() =~= rs);
}

/// Replacing one record swaps its old contribution for its new one.
pub proof fn lemma_voted_count_update(rs: Seq<VoteRecord>, i: int, r: VoteRecord, poll_id: u64)
    requires
        0 <= i < rs.len(),
    ensures
        voted_count(rs.update(i, r), poll_id) + record_contrib(rs[i], poll_id)
            == voted_count(rs, poll_id) + record_contrib(r, poll_id),
    decreases rs.len(),
{
    let rs2 = rs.update(i, r);
    if i == rs.len() - 1 {
        assert(rs2.drop_last() =~= rs.drop_last());
    } else {
        assert(rs2.drop_last() =~= rs.drop_last().update(i, r));
        assert(rs2.last() == rs.last());
        lemma_voted_count_update(rs.drop_last(), i, r, poll_id);
    }
}

/// A poll no record mentions holds no ballot.
pub proof fn lemma_voted_count_absent(rs: Seq<VoteRecord>, poll_id: u64)
    requires
        forall|j: int| 0 <= j < rs.len() ==> rs[j].poll_id != poll_id,
    ensures
        voted_count(rs, poll_id) == 0,
    decreases rs.len(),
{
    if rs.len() > 0 {
        lemma_voted_count_absent(rs.drop_last(), poll_id);
    }
}

/// A poll holds at most one candidate per stored slot.
pub proof fn lemma_candidate_count_le_len(cs: Seq<CandidateSlot>, poll_id: u64)
    ensures
        candidate_count(cs, poll_id) <= cs.len(),
    decreases cs.len(),
{
    if cs.len() > 0 {
        lemma_candidate_count_le_len(cs.drop_last(), poll_id);
    }
}

/// Appending one candidate adds exactly its own contribution.
pub proof fn lemma_candidate_count_push(cs: Seq<CandidateSlot>, c: CandidateSlot, poll_id: u64)
    ensures
        candidate_count(cs.push(c), poll_id)
            == candidate_count(cs, poll_id) + slot_contrib(c, poll_id),
{
    assert(cs.push(c).drop_last() =~= cs);
}

/// Replacing one candidate swaps its old contribution for its new one.
pub proof fn lemma_candidate_count_update(cs: Seq<CandidateSlot>, i: int, c: CandidateSlot, poll_id: u64)
    requires
        0 <= i < cs.len(),
    ensures
        candidate_count(cs.update(i, c), poll_id) + slot_contrib(cs[i], poll_id)
            == candidate_count(cs, poll_id) + slot_contrib(c, poll_id),
    decreases cs.len(),
{
    let cs2 = cs.update(i, c);
    if i == cs.len() - 1 {
        assert(cs2.drop_last() =~= cs.drop_last());
    } else {
        assert(cs2.drop_last() =~= cs.drop_last().update(i, c));
        assert(cs2.last() == cs.last());
        lemma_candidate_count_update(cs.drop_last(), i, c, poll_id);
    }
}

/// A poll no slot mentions has no registered candidate.
pub proof fn lemma_candidate_count_absent(cs: Seq<CandidateSlot>, poll_id: u64)
    requires
        forall|j: int| 0 <= j < cs.len() ==> cs[j].poll_id != poll_id,
    ensures
        candidate_count(cs, poll_id) == 0,
    decreases cs.len(),
{
    if cs.len() > 0 {
        lemma_candidate_count_absent(cs.drop_last(), poll_id);
    }
}

/// Appending one candidate adds exactly its own vote counter to the sum.
pub proof fn lemma_votes_sum_push(cs: Seq<CandidateSlot>, c: CandidateSlot, poll_id: u64)
    ensures
        votes_sum(cs.push(c), poll_id) == votes_sum(cs, poll_id) + votes_contrib(c, poll_id),
{
    assert(cs.push(c).drop_last() =~= cs);
}

/// Replacing one candidate swaps its old vote counter for its new one.
pub proof fn lemma_votes_sum_update(cs: Seq<CandidateSlot>, i: int, c: CandidateSlot, poll_id: u64)
    requires
        0 <= i < cs.len(),
    ensures
        votes_sum(cs.update(i, c), poll_id) + votes_contrib(cs[i], poll_id)
            == votes_sum(cs, poll_id) + votes_contrib(c, poll_id),
    decreases cs.len(),
{
    let cs2 = cs.update(i, c);
    if i == cs.len() - 1 {
        assert(cs2.drop_last() =~= cs.drop_last());
    } else {
        assert(cs2.drop_last() =~= cs.drop_last().update(i, c));
        assert(cs2.last() == cs.last());
        lemma_votes_sum_update(cs.drop_last(), i, c, poll_id);
    }
}

/// A poll no slot mentions has vote sum zero.
pub proof fn lemma_votes_sum_absent(cs: Seq<CandidateSlot>, poll_id: u64)
    requires
        forall|j: int| 0 <= j < cs.len() ==> cs[j].poll_id != poll_id,
    ensures
        votes_sum(cs, poll_id) == 0,
    decreases cs.len(),
{
    if cs.len() > 0 {
        lemma_votes_sum_absent(cs.drop_last(), poll_id);
    }
}

/// Each candidate's own counter is at most its poll's vote sum.
pub proof fn lemma_votes_sum_element(cs: Seq<CandidateSlot>, i: int, poll_id: u64)
    requires
        0 <= i < cs.len(),
        cs[i].poll_id == poll_id,
    ensures
        cs[i].candidate.candidate_votes <= votes_sum(cs, poll_id),
    decreases cs.len(),
{
    if i == cs.len() - 1 {
    } else {
        assert(cs.drop_last()[i] == cs[i]);
        lemma_votes_sum_element(cs.drop_last(), i, poll_id);
    }
}

} // verus!
