//! Deterministic storage-key derivation.
//!
//! Every entity lives in the keyed store under a key computed from its
//! logical identity alone: a tag byte naming the entity kind, the poll id
//! in little-endian bytes, and, where one applies, the candidate name or
//! the voter identity. The derivation is pure and injective: distinct
//! logical inputs always yield distinct keys, and keys of different kinds
//! never collide. The ledger itself resolves entities by the same logical
//! identities these keys encode; injectivity is what makes addressing by
//! key and addressing by identity interchangeable.

use vstd::prelude::*;
use vstd::bytes::{spec_u64_to_le_bytes, u64_to_le_bytes, lemma_auto_spec_u64_to_from_le_bytes};
use crate::entities::Voter;

verus! {

/// Tag byte opening every poll key.
pub const POLL_KEY_TAG: u8 = 1;

/// Tag byte opening every candidate key.
pub const CANDIDATE_KEY_TAG: u8 = 2;

/// Tag byte opening every vote-record key.
pub const VOTE_KEY_TAG: u8 = 3;

/// The key a poll is stored under.
pub open spec fn spec_poll_key(poll_id: u64) -> Seq<u8> {
    seq![POLL_KEY_TAG] + spec_u64_to_le_bytes(poll_id)
}

/// The key a candidate is stored under.
pub open spec fn spec_candidate_key(poll_id: u64, candidate_name: Seq<u8>) -> Seq<u8> {
    seq![CANDIDATE_KEY_TAG] + spec_u64_to_le_bytes(poll_id) + candidate_name
}

/// The key a vote record is stored under.
pub open spec fn spec_vote_key(poll_id: u64, voter: Voter) -> Seq<u8> {
    seq![VOTE_KEY_TAG] + spec_u64_to_le_bytes(poll_id) + spec_u64_to_le_bytes(voter.id)
}

/// Computes the storage key of the poll with the given id.
pub fn derive_poll_key(poll_id: u64) -> (k: Vec<u8>)
    ensures
        k@ == spec_poll_key(poll_id),
{
    let mut k: Vec<u8> = Vec::new();
    k.push(POLL_KEY_TAG);
    let mut id_bytes = u64_to_le_bytes(poll_id);
    k.append(&mut id_bytes);
    proof {
        assert(k@ =~= spec_poll_key(poll_id));
    }
    k
}

/// Computes the storage key of a candidate within a poll.
pub fn derive_candidate_key(poll_id: u64, candidate_name: &Vec<u8>) -> (k: Vec<u8>)
    ensures
        k@ == spec_candidate_key(poll_id, candidate_name@),
{
    let mut k: Vec<u8> = Vec::new();
    k.push(CANDIDATE_KEY_TAG);
    let mut id_bytes = u64_to_le_bytes(poll_id);
    k.append(&mut id_bytes);
    let mut name_bytes = crate::ledger::copy_bytes(candidate_name);
    k.append(&mut name_bytes);
    proof {
        assert(k@ =~= spec_candidate_key(poll_id, candidate_name@));
    }
    k
}

/// Computes the storage key of one voter's record within a poll.
pub fn derive_vote_key(poll_id: u64, voter: Voter) -> (k: Vec<u8>)
    ensures
        k@ == spec_vote_key(poll_id, voter),
{
    let mut k: Vec<u8> = Vec::new();
    k.push(VOTE_KEY_TAG);
    let mut id_bytes = u64_to_le_bytes(poll_id);
    k.append(&mut id_bytes);
    let mut voter_bytes = u64_to_le_bytes(voter.id);
    k.append(&mut voter_bytes);
    proof {
        assert(k@ =~= spec_vote_key(poll_id, voter));
    }
    k
}

/// Law: poll keys are injective over the poll id.
pub proof fn lemma_poll_key_injective(a: u64, b: u64)
    ensures
        spec_poll_key(a) == spec_poll_key(b) ==> a == b,
{
    lemma_auto_spec_u64_to_from_le_bytes();
    if spec_poll_key(a) == spec_poll_key(b) {
        assert(spec_poll_key(a).subrange(1, 9) =~= spec_u64_to_le_bytes(a));
        assert(spec_poll_key(b).subrange(1, 9) =~= spec_u64_to_le_bytes(b));
    }
}

/// Law: candidate keys are injective over the poll id and the name.
pub proof fn lemma_candidate_key_injective(a_id: u64, a_name: Seq<u8>, b_id: u64, b_name: Seq<u8>)
    ensures
        spec_candidate_key(a_id, a_name) == spec_candidate_key(b_id, b_name)
            ==> a_id == b_id && a_name == b_name,
{
    lemma_auto_spec_u64_to_from_le_bytes();
    if spec_candidate_key(a_id, a_name) == spec_candidate_key(b_id, b_name) {
        let ka = spec_candidate_key(a_id, a_name);
        let kb = spec_candidate_key(b_id, b_name);
        assert(ka.subrange(1, 9) =~= spec_u64_to_le_bytes(a_id));
        assert(kb.subrange(1, 9) =~= spec_u64_to_le_bytes(b_id));
        assert(ka.subrange(9, ka.len() as int) =~= a_name);
        assert(kb.subrange(9, kb.len() as int) =~= b_name);
    }
}

/// Law: vote-record keys are injective over the poll id and the voter.
pub proof fn lemma_vote_key_injective(a_id: u64, a_voter: Voter, b_id: u64, b_voter: Voter)
    ensures
        spec_vote_key(a_id, a_voter) == spec_vote_key(b_id, b_voter)
            ==> a_id == b_id && a_voter == b_voter,
{
    lemma_auto_spec_u64_to_from_le_bytes();
    if spec_vote_key(a_id, a_voter) == spec_vote_key(b_id, b_voter) {
        let ka = spec_vote_key(a_id, a_voter);
        let kb = spec_vote_key(b_id, b_voter);
        assert(ka.subrange(1, 9) =~= spec_u64_to_le_bytes(a_id));
        assert(kb.subrange(1, 9) =~= spec_u64_to_le_bytes(b_id));
        assert(ka.subrange(9, 17) =~= spec_u64_to_le_bytes(a_voter.id));
        assert(kb.subrange(9, 17) =~= spec_u64_to_le_bytes(b_voter.id));
    }
}

/// Law: keys of different entity kinds never collide, whatever the inputs.
pub proof fn lemma_key_kinds_disjoint(
    poll_id_a: u64,
    poll_id_b: u64,
    poll_id_c: u64,
    candidate_name: Seq<u8>,
    voter: Voter,
)
    ensures
        spec_poll_key(poll_id_a) != spec_candidate_key(poll_id_b, candidate_name),
        spec_poll_key(poll_id_a) != spec_vote_key(poll_id_c, voter),
        spec_candidate_key(poll_id_b, candidate_name) != spec_vote_key(poll_id_c, voter),
{
    lemma_auto_spec_u64_to_from_le_bytes();
    assert(spec_poll_key(poll_id_a)[0] == POLL_KEY_TAG);
    assert(spec_candidate_key(poll_id_b, candidate_name)[0] == CANDIDATE_KEY_TAG);
    assert(spec_vote_key(poll_id_c, voter)[0] == VOTE_KEY_TAG);
}

} // verus!
