//! Errors of the protocol.
//!
//! All of these are recoverable for the round as a whole except
//! `EntropyError` and an empty participant set: a rejected submission leaves
//! every store unchanged and the protocol goes on for everyone else.

use vstd::prelude::*;

verus! {

/// Key generation failed because the operating system's entropy source was
/// unavailable.  Fatal: key generation is not retried.
#[derive(Clone, Copy, PartialEq, Eq, Structural, Debug)]
pub struct EntropyError;

/// Why a commitment submission was rejected.
#[derive(Clone, Copy, PartialEq, Eq, Structural, Debug)]
pub enum CommitError {
    /// The participant already has a recorded commitment; the original one
    /// is kept unchanged.
    DuplicateCommitment,
    /// The protocol is not in its commitment phase.
    PhaseViolation,
}

/// Why a reveal submission was rejected.
#[derive(Clone, Copy, PartialEq, Eq, Structural, Debug)]
pub enum RevealError {
    /// The participant has no recorded commitment, so there is nothing the
    /// reveal could answer to.
    NoPriorCommitment,
    /// The participant already has a recorded reveal.
    DuplicateReveal,
    /// The protocol is not in its reveal phase.
    PhaseViolation,
}

/// Why a coordinator-level step was refused.
#[derive(Clone, Copy, PartialEq, Eq, Structural, Debug)]
pub enum ProtocolError {
    /// A run needs at least one expected participant.
    EmptyParticipantSet,
    /// The step does not belong to the protocol's current phase.
    PhaseViolation,
}

} // verus!
