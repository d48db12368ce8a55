//! The verifiable random function, as the protocol sees it.
//!
//! The cryptographic primitive itself comes from the `schnorrkel` crate and
//! is not re-proved here; the handful of `external_body` functions below are
//! the only trusted boundary.  Everything the rest of the library needs from
//! the primitive is captured by a few uninterpreted names: `vrf_output_of`
//! (the deterministic output), `vrf_verify_accepts` (the deterministic
//! verification verdict), `public_key_of` and `secret_key_of_seed` (the
//! deterministic key derivations), plus the predicate `signing_key`.

use vstd::prelude::*;

use crate::errors::EntropyError;
use crate::reveals::Reveal;

verus! {

/// The VRF output that `schnorrkel`'s `Keypair::vrf_sign` derives from a
/// secret key, a domain-separation context and an input: a function of those
/// three byte strings alone.
pub uninterp spec fn vrf_output_of(secret: Seq<u8>, context: Seq<u8>, input: Seq<u8>) -> Seq<u8>;

/// The verdict of `schnorrkel`'s `PublicKey::vrf_verify` on an encoded
/// public key, context, input, output and proof: deterministic in the five
/// byte strings, false whenever one of the encodings does not decode.
pub uninterp spec fn vrf_verify_accepts(
    public_key: Seq<u8>,
    context: Seq<u8>,
    input: Seq<u8>,
    output: Seq<u8>,
    proof_bytes: Seq<u8>,
) -> bool;

/// The encoded public key that `schnorrkel`'s `SecretKey::to_public` derives
/// from an encoded secret key.
pub uninterp spec fn public_key_of(secret: Seq<u8>) -> Seq<u8>;

/// Whether the encoding is a secret key that signing is complete for:
/// `schnorrkel`'s `SecretKey::from_bytes` accepts it (64 bytes whose first
/// half is a canonical scalar) and the secret scalar is nonzero.  The zero
/// scalar must stay out: it would make every VRF pre-output the identity
/// point, which verification rejects.
pub uninterp spec fn signing_key(secret: Seq<u8>) -> bool;

/// The 64-byte secret-key encoding that `schnorrkel`'s
/// `MiniSecretKey::expand` derives, in Ed25519 mode, from a 32-byte seed: a
/// function of the seed alone.
pub uninterp spec fn secret_key_of_seed(seed: Seq<u8>) -> Seq<u8>;

/// The domain-separation label under which every VRF transcript of this
/// protocol is built, so that an evaluation cannot be reused in another
/// context: the bytes of "vrf-winner".  The label is a fixed constant of
/// this protocol; every party, independent verifiers included, must use
/// this same label, and the scheme is sound under any fixed choice of it.
pub open spec fn protocol_context() -> Seq<u8> {
    seq![118u8, 114u8, 102u8, 45u8, 119u8, 105u8, 110u8, 110u8, 101u8, 114u8]
}

/// The domain-separation label as a byte vector.
pub fn protocol_context_bytes() -> (r: Vec<u8>)
    ensures
        r@ == protocol_context(),
{
    let mut v: Vec<u8> = Vec::new();
    v.push(118);
    v.push(114);
    v.push(102);
    v.push(45);
    v.push(119);
    v.push(105);
    v.push(110);
    v.push(110);
    v.push(101);
    v.push(114);
    proof {
        assert(v@ =~= protocol_context());
    }
    v
}

/// Relies on rand's `OsRng` (`RngCore::try_fill_bytes`): fills a buffer with
/// operating-system randomness or reports failure.  Nothing is promised of
/// the bytes themselves.
#[verifier::external_body]
fn os_random_32() -> (r: Option<Vec<u8>>)
    ensures
        match r {
            Some(v) => v@.len() == 32,
            None => true,
        },
{
    let mut rng = rand::rngs::OsRng;
    let mut buf: Vec<u8> = vec![0u8; 32];
    match rand::RngCore::try_fill_bytes(&mut rng, &mut buf) {
        Ok(()) => Some(buf),
        Err(_) => None,
    }
}

/// Relies on schnorrkel's `MiniSecretKey::from_bytes` (total on 32-byte
/// input) and `expand_to_keypair`: the Ed25519-mode expansion is a
/// deterministic function of the seed; its clamping sets a high bit and
/// divides by the cofactor, so the secret scalar is nonzero, canonical and
/// below the group order, and the 64-byte encoding from
/// `SecretKey::to_bytes` decodes again through `SecretKey::from_bytes`.
/// The keypair's public half is the one `SecretKey::to_public` derives from
/// its secret half.
#[verifier::external_body]
fn keypair_from_seed(seed: &Vec<u8>) -> (r: (Vec<u8>, Vec<u8>))
    requires
        seed@.len() == 32,
    ensures
        r.0@ == secret_key_of_seed(seed@),
        r.0@.len() == 64,
        r.1@.len() == 32,
        signing_key(r.0@),
        r.1@ == public_key_of(r.0@),
{
    let mini = schnorrkel::MiniSecretKey::from_bytes(seed.as_slice()).unwrap();
    let keypair = mini.expand_to_keypair(schnorrkel::ExpansionMode::Ed25519);
    (keypair.secret.to_bytes().to_vec(), keypair.public.to_bytes().to_vec())
}

/// Relies on schnorrkel's `Keypair::vrf_sign` over a `SigningContext`
/// transcript: the pre-output (`VRFInOut::to_preout`, 32 bytes) is a
/// function of the secret key, context and input alone, and the returned
/// proof (64 bytes) passes `PublicKey::vrf_verify` for the matching public
/// key, context and input — the completeness the crate's own round-trip
/// tests exercise.  Completeness needs the nonzero scalar that
/// `signing_key` demands: verification rejects an identity pre-output,
/// which is what a zero scalar would sign.  The proof itself is built with
/// fresh witness randomness, so nothing more is claimed of it; drawing that
/// randomness aborts, like every entropy failure here, if the operating
/// system's source fails mid-call.
#[verifier::external_body]
fn vrf_sign_bytes(secret: &Vec<u8>, context: &Vec<u8>, input: &Vec<u8>) -> (r: (Vec<u8>, Vec<u8>))
    requires
        secret@.len() == 64,
        signing_key(secret@),
    ensures
        r.0@.len() == 32,
        r.1@.len() == 64,
        r.0@ == vrf_output_of(secret@, context@, input@),
        vrf_verify_accepts(public_key_of(secret@), context@, input@, r.0@, r.1@),
{
    let secret_key = schnorrkel::SecretKey::from_bytes(secret.as_slice()).unwrap();
    let keypair = secret_key.to_keypair();
    let transcript = schnorrkel::signing_context(context.as_slice()).bytes(input.as_slice());
    let (inout, pr, _batchable) = keypair.vrf_sign(transcript);
    (inout.to_preout().to_bytes().to_vec(), pr.to_bytes().to_vec())
}

/// Relies on schnorrkel's `PublicKey::vrf_verify` together with the
/// `from_bytes` decoders for `PublicKey`, `VRFPreOut` and `VRFProof`:
/// verification is deterministic in the five byte strings, and bytes that do
/// not decode are rejected.
#[verifier::external_body]
fn vrf_verify_bytes(
    public_key: &Vec<u8>,
    context: &Vec<u8>,
    input: &Vec<u8>,
    output: &Vec<u8>,
    proof_bytes: &Vec<u8>,
) -> (r: bool)
    ensures
        r == vrf_verify_accepts(public_key@, context@, input@, output@, proof_bytes@),
{
    let pk = match schnorrkel::PublicKey::from_bytes(public_key.as_slice()) {
        Ok(k) => k,
        Err(_) => return false,
    };
    let preout = match schnorrkel::vrf::VRFPreOut::from_bytes(output.as_slice()) {
        Ok(p) => p,
        Err(_) => return false,
    };
    let pr = match schnorrkel::vrf::VRFProof::from_bytes(proof_bytes.as_slice()) {
        Ok(p) => p,
        Err(_) => return false,
    };
    let transcript = schnorrkel::signing_context(context.as_slice()).bytes(input.as_slice());
    pk.vrf_verify(transcript, &preout, &pr).is_ok()
}

/// A participant's VRF keypair: the 64-byte secret encoding and the 32-byte
/// public encoding.  The secret half never leaves this type.
pub struct KeyMaterial {
    secret: Vec<u8>,
    public: Vec<u8>,
}

impl KeyMaterial {
    #[verifier::type_invariant]
    spec fn inv(self) -> bool {
        &&& self.secret@.len() == 64
        &&& self.public@.len() == 32
        &&& signing_key(self.secret@)
        &&& self.public@ == public_key_of(self.secret@)
    }

    /// The secret key's encoding; abstract to callers.
    pub closed spec fn secret_view(&self) -> Seq<u8> {
        self.secret@
    }

    /// The public key's encoding; abstract to callers.
    pub closed spec fn public_view(&self) -> Seq<u8> {
        self.public@
    }

    /// Generates a fresh keypair from operating-system randomness; fails
    /// only when the entropy source is unavailable.
    pub fn generate() -> (r: Result<KeyMaterial, EntropyError>)
        ensures
            match r {
                Ok(k) => {
                    &&& k.public_view() == public_key_of(k.secret_view())
                    &&& k.public_view().len() == 32
                    &&& exists|seed: Seq<u8>|
                        seed.len() == 32 && k.secret_view() == secret_key_of_seed(seed)
                },
                Err(e) => e == EntropyError,
            },
    {
        match os_random_32() {
            Some(seed) => Ok(KeyMaterial::from_seed(&seed)),
            None => Err(EntropyError),
        }
    }

    /// Derives a keypair deterministically from a 32-byte seed: the secret
    /// half is the named function of the seed, so two calls on one seed
    /// yield the same keypair.
    pub fn from_seed(seed: &Vec<u8>) -> (r: KeyMaterial)
        requires
            seed@.len() == 32,
        ensures
            r.secret_view() == secret_key_of_seed(seed@),
            r.public_view() == public_key_of(secret_key_of_seed(seed@)),
            r.public_view().len() == 32,
    {
        let (secret, public) = keypair_from_seed(seed);
        KeyMaterial { secret, public }
    }

    /// The public key, to be handed to whoever will verify this
    /// participant's reveals.
    pub fn public_key(&self) -> (r: &Vec<u8>)
        ensures
            r@ == self.public_view(),
            r@.len() == 32,
    {
        proof {
            use_type_invariant(&*self);
        }
        &self.public
    }
}

/// Draws a fresh 32-byte commitment value from operating-system randomness;
/// fails only when the entropy source is unavailable.
pub fn random_commitment() -> (r: Result<Vec<u8>, EntropyError>)
    ensures
        match r {
            Ok(v) => v@.len() == 32,
            Err(e) => e == EntropyError,
        },
{
    match os_random_32() {
        Some(v) => Ok(v),
        None => Err(EntropyError),
    }
}

/// Evaluates the VRF under this protocol's domain-separation label: the
/// reveal's output is the function `vrf_output_of` of the key's secret half
/// and the input, and its proof passes `verify` against the key's public
/// half and the same input.
pub fn evaluate(key: &KeyMaterial, input: &Vec<u8>) -> (r: Reveal)
    ensures
        r.wf(),
        r.output@ == vrf_output_of(key.secret_view(), protocol_context(), input@),
        vrf_verify_accepts(key.public_view(), protocol_context(), input@, r.output@, r.proof_bytes@),
{
    proof {
        use_type_invariant(&*key);
    }
    let context = protocol_context_bytes();
    let (output, proof_bytes) = vrf_sign_bytes(&key.secret, &context, input);
    Reveal { output, proof_bytes }
}

/// Checks a reveal against a public key and the input it claims to answer:
/// the verdict is exactly `vrf_verify_accepts` under this protocol's
/// domain-separation label.  Structurally invalid bytes yield `false`, never
/// an error.
pub fn verify(public_key: &Vec<u8>, input: &Vec<u8>, output: &Vec<u8>, proof_bytes: &Vec<u8>) -> (r:
    bool)
    ensures
        r == vrf_verify_accepts(public_key@, protocol_context(), input@, output@, proof_bytes@),
{
    let context = protocol_context_bytes();
    vrf_verify_bytes(public_key, &context, input, output, proof_bytes)
}

/// Law: the VRF is deterministic.  Any two outputs that `evaluate`'s
/// contract ties to the same secret key, context and input are
/// byte-identical; re-evaluating cannot "reroll" a different outcome.
pub proof fn lemma_evaluate_deterministic(
    secret: Seq<u8>,
    context: Seq<u8>,
    input: Seq<u8>,
    o1: Seq<u8>,
    o2: Seq<u8>,
)
    requires
        o1 == vrf_output_of(secret, context, input),
        o2 == vrf_output_of(secret, context, input),
    ensures
        o1 == o2,
{
}

} // verus!
