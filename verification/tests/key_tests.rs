use voting::entities::Voter;
use voting::keys::{
    derive_candidate_key, derive_poll_key, derive_vote_key, CANDIDATE_KEY_TAG, POLL_KEY_TAG,
    VOTE_KEY_TAG,
};

#[test]
fn poll_key_layout() {
    let k = derive_poll_key(0x0102030405060708);
    assert_eq!(
        k,
        vec![POLL_KEY_TAG, 0x08, 0x07, 0x06, 0x05, 0x04, 0x03, 0x02, 0x01]
    );
}

#[test]
fn candidate_key_layout() {
    let k = derive_candidate_key(1, &b"Alice".to_vec());
    let mut expected = vec![CANDIDATE_KEY_TAG, 1, 0, 0, 0, 0, 0, 0, 0];
    expected.extend_from_slice(b"Alice");
    assert_eq!(k, expected);
}

#[test]
fn vote_key_layout() {
    let k = derive_vote_key(1, Voter { id: 2 });
    assert_eq!(
        k,
        vec![VOTE_KEY_TAG, 1, 0, 0, 0, 0, 0, 0, 0, 2, 0, 0, 0, 0, 0, 0, 0]
    );
}

#[test]
fn keys_distinct_across_inputs() {
    assert_ne!(derive_poll_key(1), derive_poll_key(2));
    assert_ne!(
        derive_candidate_key(1, &b"Alice".to_vec()),
        derive_candidate_key(1, &b"Bob".to_vec())
    );
    assert_ne!(
        derive_candidate_key(1, &b"Alice".to_vec()),
        derive_candidate_key(2, &b"Alice".to_vec())
    );
    assert_ne!(
        derive_vote_key(1, Voter { id: 1 }),
        derive_vote_key(1, Voter { id: 2 })
    );
    assert_ne!(
        derive_vote_key(1, Voter { id: 1 }),
        derive_vote_key(2, Voter { id: 1 })
    );
}

#[test]
fn keys_distinct_across_kinds() {
    // even when the trailing bytes could be confused, the tag byte differs
    let poll = derive_poll_key(1);
    let candidate = derive_candidate_key(1, &Vec::new());
    let vote = derive_vote_key(1, Voter { id: 0 });
    assert_ne!(poll, candidate);
    assert_ne!(candidate, vote[..candidate.len()].to_vec());
    assert_ne!(poll, vote[..poll.len()].to_vec());
}
