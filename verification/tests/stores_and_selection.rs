//! The stores' gating rules and the winner selector's total order.

use vrf_lottery::commitments::CommitmentStore;
use vrf_lottery::errors::{CommitError, RevealError};
use vrf_lottery::reveals::{Reveal, RevealStore};
use vrf_lottery::selector::{select, VerifiedOutput};

fn commitment(fill: u8) -> Vec<u8> {
    vec![fill; 32]
}

fn reveal_of(fill: u8) -> Reveal {
    Reveal { output: vec![fill; 32], proof_bytes: vec![fill; 64] }
}

fn entry(id: u32, output: Vec<u8>) -> VerifiedOutput {
    VerifiedOutput { participant_id: id, output, proof_bytes: vec![0u8; 64] }
}

#[test]
fn second_commitment_rejected_and_state_unchanged() {
    let mut store = CommitmentStore::new();
    assert!(store.record(4, commitment(1)).is_ok());
    let second = store.record(4, commitment(2));
    assert_eq!(second, Err(CommitError::DuplicateCommitment));
    // No partial write: the original commitment is still there, unchanged.
    assert_eq!(store.get(4), Some(&commitment(1)));
}

#[test]
fn commitments_are_per_participant() {
    let mut store = CommitmentStore::new();
    assert!(store.record(1, commitment(1)).is_ok());
    assert!(store.record(2, commitment(2)).is_ok());
    assert_eq!(store.get(1), Some(&commitment(1)));
    assert_eq!(store.get(2), Some(&commitment(2)));
    assert_eq!(store.get(3), None);
    assert!(store.all_committed(&vec![1, 2]));
    assert!(!store.all_committed(&vec![1, 2, 3]));
    // An empty expectation is trivially met.
    assert!(store.all_committed(&vec![]));
}

#[test]
fn reveal_without_commitment_rejected() {
    let commitments = CommitmentStore::new();
    let mut reveals = RevealStore::new();
    let r = reveals.record(9, reveal_of(1), &commitments);
    assert_eq!(r, Err(RevealError::NoPriorCommitment));
    assert!(reveals.get(9).is_none());
}

#[test]
fn second_reveal_rejected() {
    let mut commitments = CommitmentStore::new();
    let mut reveals = RevealStore::new();
    assert!(commitments.record(9, commitment(1)).is_ok());
    assert!(reveals.record(9, reveal_of(1), &commitments).is_ok());
    let second = reveals.record(9, reveal_of(2), &commitments);
    assert_eq!(second, Err(RevealError::DuplicateReveal));
    // The first reveal is still the recorded one.
    assert_eq!(reveals.get(9).unwrap().output, reveal_of(1).output);
    assert!(!reveals.all_revealed(&vec![9, 10]));
    assert!(reveals.all_revealed(&vec![9]));
}

#[test]
fn select_of_nothing_is_none() {
    assert_eq!(select(&Vec::new()), None);
}

#[test]
fn select_takes_the_largest_output() {
    let mut low = vec![0u8; 32];
    low[31] = 9;
    let mut mid = vec![0u8; 32];
    mid[0] = 1;
    let mut high = vec![0u8; 32];
    high[0] = 2;
    let entries = vec![entry(10, low), entry(11, high), entry(12, mid)];
    assert_eq!(select(&entries), Some(11));
}

#[test]
fn select_is_order_independent() {
    let outputs: Vec<Vec<u8>> = vec![vec![3u8; 32], vec![7u8; 32], vec![5u8; 32]];
    let ids: Vec<u32> = vec![0, 1, 2];
    let orders: Vec<Vec<usize>> = vec![
        vec![0, 1, 2],
        vec![0, 2, 1],
        vec![1, 0, 2],
        vec![1, 2, 0],
        vec![2, 0, 1],
        vec![2, 1, 0],
    ];
    for order in orders {
        let entries: Vec<VerifiedOutput> =
            order.iter().map(|&i| entry(ids[i], outputs[i].clone())).collect();
        assert_eq!(select(&entries), Some(1));
    }
}

#[test]
fn select_breaks_ties_toward_the_lower_id() {
    let same = vec![0xabu8; 32];
    let entries = vec![entry(7, same.clone()), entry(2, same.clone()), entry(9, same)];
    assert_eq!(select(&entries), Some(2));
}

#[test]
fn select_compares_big_endian() {
    // The leading byte outweighs everything after it.
    let mut a = vec![0u8; 32];
    a[0] = 1;
    let mut b = vec![0u8; 32];
    for i in 1..32 {
        b[i] = 0xff;
    }
    let entries = vec![entry(1, b), entry(2, a)];
    assert_eq!(select(&entries), Some(2));
}
