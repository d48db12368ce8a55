//! Properties of the VRF wrapper pair: completeness, soundness against
//! tampering, and determinism.

use vrf_lottery::vrf::{evaluate, random_commitment, verify, KeyMaterial};

fn seed(fill: u8) -> Vec<u8> {
    vec![fill; 32]
}

#[test]
fn evaluate_then_verify_accepts() {
    let km = KeyMaterial::from_seed(&seed(7));
    let input = vec![1u8, 2, 3, 4];
    let reveal = evaluate(&km, &input);
    assert_eq!(reveal.output.len(), 32);
    assert_eq!(reveal.proof_bytes.len(), 64);
    assert!(verify(km.public_key(), &input, &reveal.output, &reveal.proof_bytes));
}

#[test]
fn generated_keys_evaluate_and_verify() {
    let km = KeyMaterial::generate().expect("entropy source available");
    let input = vec![9u8; 32];
    let reveal = evaluate(&km, &input);
    assert!(verify(km.public_key(), &input, &reveal.output, &reveal.proof_bytes));
}

#[test]
fn tampered_proof_rejected() {
    let km = KeyMaterial::from_seed(&seed(7));
    let input = vec![1u8, 2, 3, 4];
    let reveal = evaluate(&km, &input);
    for byte in 0..8 {
        let mut proof = reveal.proof_bytes.clone();
        proof[byte * 8] ^= 1;
        assert!(!verify(km.public_key(), &input, &reveal.output, &proof));
    }
}

#[test]
fn tampered_output_rejected() {
    let km = KeyMaterial::from_seed(&seed(7));
    let input = vec![1u8, 2, 3, 4];
    let reveal = evaluate(&km, &input);
    let mut output = reveal.output.clone();
    output[0] ^= 1;
    assert!(!verify(km.public_key(), &input, &output, &reveal.proof_bytes));
}

#[test]
fn wrong_public_key_rejected() {
    let km = KeyMaterial::from_seed(&seed(7));
    let other = KeyMaterial::from_seed(&seed(8));
    let input = vec![1u8, 2, 3, 4];
    let reveal = evaluate(&km, &input);
    assert!(!verify(other.public_key(), &input, &reveal.output, &reveal.proof_bytes));
}

#[test]
fn wrong_input_rejected() {
    let km = KeyMaterial::from_seed(&seed(7));
    let input = vec![1u8, 2, 3, 4];
    let other_input = vec![1u8, 2, 3, 5];
    let reveal = evaluate(&km, &input);
    assert!(!verify(km.public_key(), &other_input, &reveal.output, &reveal.proof_bytes));
}

#[test]
fn structurally_invalid_bytes_rejected_without_error() {
    let km = KeyMaterial::from_seed(&seed(7));
    let input = vec![1u8];
    // Wrong lengths everywhere: verification must answer false, not fail.
    assert!(!verify(km.public_key(), &input, &vec![0u8; 3], &vec![0u8; 5]));
    assert!(!verify(&vec![0u8; 2], &input, &vec![0u8; 32], &vec![0u8; 64]));
}

#[test]
fn evaluate_is_deterministic() {
    let km = KeyMaterial::from_seed(&seed(42));
    let input = vec![5u8; 32];
    let first = evaluate(&km, &input);
    let second = evaluate(&km, &input);
    assert_eq!(first.output, second.output);
    assert!(verify(km.public_key(), &input, &first.output, &first.proof_bytes));
    assert!(verify(km.public_key(), &input, &second.output, &second.proof_bytes));
}

#[test]
fn evaluate_depends_on_key_and_input() {
    let km = KeyMaterial::from_seed(&seed(1));
    let other = KeyMaterial::from_seed(&seed(2));
    let input = vec![5u8; 32];
    let other_input = vec![6u8; 32];
    let base = evaluate(&km, &input);
    // The output is no echo of the input, and it moves with key and input.
    assert_ne!(base.output, input);
    assert_ne!(evaluate(&other, &input).output, base.output);
    assert_ne!(evaluate(&km, &other_input).output, base.output);
}

#[test]
fn key_derivation_is_no_echo_of_the_seed() {
    let s = seed(3);
    let km = KeyMaterial::from_seed(&s);
    assert_eq!(km.public_key().len(), 32);
    assert_ne!(km.public_key(), &s);
    // Distinct seeds give distinct public keys.
    let other = KeyMaterial::from_seed(&seed(4));
    assert_ne!(km.public_key(), other.public_key());
}

#[test]
fn key_derivation_is_deterministic() {
    let a = KeyMaterial::from_seed(&seed(5));
    let b = KeyMaterial::from_seed(&seed(5));
    assert_eq!(a.public_key(), b.public_key());
    let input = vec![1u8; 32];
    assert_eq!(evaluate(&a, &input).output, evaluate(&b, &input).output);
}

#[test]
fn random_commitments_are_fresh() {
    let a = random_commitment().expect("entropy source available");
    let b = random_commitment().expect("entropy source available");
    assert_eq!(a.len(), 32);
    assert_eq!(b.len(), 32);
    assert_ne!(a, b);
}
