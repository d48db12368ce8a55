//! End-to-end protocol runs driven through the coordinator.

use vrf_lottery::coordinator::{Coordinator, ParticipantInfo, Phase, WinnerRecord};
use vrf_lottery::errors::{CommitError, ProtocolError, RevealError};
use vrf_lottery::reveals::Reveal;
use vrf_lottery::vrf::{evaluate, verify, KeyMaterial};

fn seed(fill: u8) -> Vec<u8> {
    vec![fill; 32]
}

fn keys(n: u8) -> Vec<KeyMaterial> {
    (0..n).map(|i| KeyMaterial::from_seed(&seed(i + 1))).collect()
}

fn coordinator_for(keys: &[KeyMaterial]) -> Coordinator {
    let participants: Vec<ParticipantInfo> = keys
        .iter()
        .enumerate()
        .map(|(i, k)| ParticipantInfo { id: i as u32, public_key: k.public_key().clone() })
        .collect();
    Coordinator::new(participants).expect("nonempty participant set")
}

fn commitment_of(id: u32) -> Vec<u8> {
    vec![id as u8 + 0x10; 32]
}

/// Runs the commitment phase for all participants.
fn commit_all(c: &mut Coordinator, n: u32) {
    for id in 0..n {
        c.submit_commitment(id, commitment_of(id)).expect("first commitment accepted");
    }
}

fn index_of_largest(outputs: &[Vec<u8>]) -> usize {
    let mut best = 0;
    for i in 1..outputs.len() {
        if outputs[i] > outputs[best] {
            best = i;
        }
    }
    best
}

#[test]
fn scenario_all_honest_largest_output_wins() {
    let keys = keys(3);
    let mut c = coordinator_for(&keys);
    assert_eq!(c.phase(), Phase::Committing);
    commit_all(&mut c, 3);
    assert_eq!(c.phase(), Phase::Revealing);

    let reveals: Vec<Reveal> =
        (0..3).map(|i| evaluate(&keys[i], &commitment_of(i as u32))).collect();
    let outputs: Vec<Vec<u8>> = reveals.iter().map(|r| r.output.clone()).collect();
    for (i, r) in reveals.into_iter().enumerate() {
        c.submit_reveal(i as u32, r).expect("first reveal accepted");
    }
    assert_eq!(c.phase(), Phase::Verifying);
    c.run_verification().expect("verification runs once");
    assert_eq!(c.phase(), Phase::Selected);
    assert_eq!(c.verified_outputs().len(), 3);
    c.select_winner().expect("selection runs once");
    assert_eq!(c.phase(), Phase::Done);

    let expected = index_of_largest(&outputs) as u32;
    match c.winner_record() {
        Some(WinnerRecord::Winner { participant_id, output, proof_bytes }) => {
            assert_eq!(*participant_id, expected);
            assert_eq!(output, &outputs[expected as usize]);
            // The record alone lets an observer re-check the outcome.
            assert!(verify(
                keys[expected as usize].public_key(),
                &commitment_of(expected),
                output,
                proof_bytes
            ));
        }
        other => panic!("expected a winner, got {:?}", other.is_some()),
    }
}

#[test]
fn scenario_tampered_reveal_is_excluded() {
    let keys = keys(3);
    let mut c = coordinator_for(&keys);
    commit_all(&mut c, 3);

    let mut outputs: Vec<Vec<u8>> = Vec::new();
    for i in 0..3u32 {
        let mut r = evaluate(&keys[i as usize], &commitment_of(i));
        if i == 2 {
            // Participant 2 tampers with its proof.
            r.proof_bytes[0] ^= 1;
        }
        outputs.push(r.output.clone());
        c.submit_reveal(i, r).expect("reveal accepted into the store");
    }
    c.run_verification().expect("verification runs once");
    // Only the two honest participants survive.
    assert_eq!(c.verified_outputs().len(), 2);
    assert!(c.verified_outputs().iter().all(|e| e.participant_id != 2));
    c.select_winner().expect("selection runs once");

    let expected = index_of_largest(&outputs[..2]) as u32;
    match c.winner_record() {
        Some(WinnerRecord::Winner { participant_id, .. }) => {
            assert_eq!(*participant_id, expected);
        }
        _ => panic!("expected a winner among the honest participants"),
    }
}

#[test]
fn scenario_nobody_reveals_no_winner() {
    let keys = keys(3);
    let mut c = coordinator_for(&keys);
    commit_all(&mut c, 3);
    // The deadline passes with no reveal recorded.
    c.close_reveals().expect("deadline ends the reveal phase");
    assert_eq!(c.phase(), Phase::Verifying);
    c.run_verification().expect("verification runs once");
    assert_eq!(c.verified_outputs().len(), 0);
    c.select_winner().expect("selection runs once");
    assert!(matches!(c.winner_record(), Some(WinnerRecord::NoWinner)));
}

#[test]
fn scenario_second_commitment_rejected() {
    let keys = keys(3);
    let mut c = coordinator_for(&keys);
    c.submit_commitment(0, commitment_of(0)).expect("first commitment accepted");
    let second = c.submit_commitment(0, vec![0x77u8; 32]);
    assert_eq!(second, Err(CommitError::DuplicateCommitment));
    // The original commitment is unchanged.
    assert_eq!(c.commitment(0), Some(&commitment_of(0)));
    assert_eq!(c.phase(), Phase::Committing);
}

#[test]
fn phase_gates_are_enforced() {
    let keys = keys(2);
    let mut c = coordinator_for(&keys);

    // No reveal, deadline, verification or selection during the commitment
    // phase.
    let early_reveal = c.submit_reveal(0, evaluate(&keys[0], &commitment_of(0)));
    assert_eq!(early_reveal, Err(RevealError::PhaseViolation));
    assert_eq!(c.close_reveals(), Err(ProtocolError::PhaseViolation));
    assert_eq!(c.run_verification(), Err(ProtocolError::PhaseViolation));
    assert_eq!(c.select_winner(), Err(ProtocolError::PhaseViolation));

    commit_all(&mut c, 2);
    assert_eq!(c.phase(), Phase::Revealing);
    // No commitment once the reveal phase has begun.
    let late_commit = c.submit_commitment(0, commitment_of(0));
    assert_eq!(late_commit, Err(CommitError::PhaseViolation));

    // A reveal for a participant that never committed is impossible here
    // (everyone committed), but one for an unknown id fails the commitment
    // gate.
    let unknown = c.submit_reveal(9, evaluate(&keys[0], &commitment_of(9)));
    assert_eq!(unknown, Err(RevealError::NoPriorCommitment));

    c.close_reveals().expect("deadline ends the reveal phase");
    // The deadline cannot fire twice.
    assert_eq!(c.close_reveals(), Err(ProtocolError::PhaseViolation));
    c.run_verification().expect("verification runs once");
    assert_eq!(c.run_verification(), Err(ProtocolError::PhaseViolation));
    c.select_winner().expect("selection runs once");
    assert_eq!(c.select_winner(), Err(ProtocolError::PhaseViolation));
    assert_eq!(c.phase(), Phase::Done);
}

#[test]
fn empty_participant_set_is_fatal() {
    let r = Coordinator::new(Vec::new());
    assert!(matches!(r, Err(ProtocolError::EmptyParticipantSet)));
}

#[test]
fn duplicate_reveal_rejected_by_coordinator() {
    let keys = keys(2);
    let mut c = coordinator_for(&keys);
    commit_all(&mut c, 2);
    c.submit_reveal(0, evaluate(&keys[0], &commitment_of(0))).expect("first reveal accepted");
    let again = c.submit_reveal(0, evaluate(&keys[0], &commitment_of(0)));
    assert_eq!(again, Err(RevealError::DuplicateReveal));
}
