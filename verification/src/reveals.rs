//! Reveals and the reveal store: one (output, proof) pair per participant,
//! accepted only once and only after that participant's commitment exists.

use vstd::prelude::*;

use crate::commitments::CommitmentStore;
use crate::errors::RevealError;
use crate::store::IdMap;

verus! {

/// A VRF output together with the proof that it was honestly derived: what
/// a participant publishes in the reveal phase.
pub struct Reveal {
    /// The 32-byte VRF output encoding.
    pub output: Vec<u8>,
    /// The 64-byte VRF proof encoding.
    pub proof_bytes: Vec<u8>,
}

impl Reveal {
    /// The encodings have their fixed sizes.
    pub open spec fn wf(&self) -> bool {
        self.output@.len() == 32 && self.proof_bytes@.len() == 64
    }
}

/// Collects one reveal per participant, each gated on a prior commitment.
pub struct RevealStore {
    map: IdMap<Reveal>,
}

impl View for RevealStore {
    type V = Map<u32, Reveal>;

    open spec fn view(&self) -> Map<u32, Reveal> {
        self.spec_map()
    }
}

impl RevealStore {
    /// The reveals held, as a mathematical `Map`.
    pub closed spec fn spec_map(&self) -> Map<u32, Reveal> {
        self.map@
    }

    /// An empty store.
    pub fn new() -> (r: RevealStore)
        ensures
            r@ == Map::<u32, Reveal>::empty(),
    {
        RevealStore { map: IdMap::new() }
    }

    /// Records `participant_id`'s reveal.  A participant with no commitment
    /// in `commitments` always fails with `NoPriorCommitment`, a second
    /// reveal with `DuplicateReveal`; either failure leaves the store
    /// unchanged.
    pub fn record(
        &mut self,
        participant_id: u32,
        reveal: Reveal,
        commitments: &CommitmentStore,
    ) -> (r: Result<(), RevealError>)
        requires
            reveal.wf(),
        ensures
            match r {
                Ok(()) => commitments@.dom().contains(participant_id) && !old(
                    self,
                )@.dom().contains(participant_id) && final(self)@ == old(self)@.insert(
                    participant_id,
                    reveal,
                ),
                Err(e) => *final(self) == *old(self) && ((e == RevealError::NoPriorCommitment
                    && !commitments@.dom().contains(participant_id)) || (e
                    == RevealError::DuplicateReveal && commitments@.dom().contains(participant_id)
                    && old(self)@.dom().contains(participant_id))),
            },
    {
        if !commitments.contains(participant_id) {
            Err(RevealError::NoPriorCommitment)
        } else if self.map.contains(participant_id) {
            Err(RevealError::DuplicateReveal)
        } else {
            self.map.insert(participant_id, reveal);
            Ok(())
        }
    }

    /// Looks a participant's reveal up.
    pub fn get(&self, participant_id: u32) -> (r: Option<&Reveal>)
        ensures
            match r {
                Some(v) => self@.dom().contains(participant_id) && *v == self@[participant_id],
                None => !self@.dom().contains(participant_id),
            },
    {
        self.map.get(participant_id)
    }

    /// Whether every expected participant has a recorded reveal; gates the
    /// transition into verification when no deadline cuts the phase short.
    pub fn all_revealed(&self, expected: &Vec<u32>) -> (r: bool)
        ensures
            r == forall|i: int| 0 <= i < expected@.len() ==> self@.dom().contains(expected@[i]),
    {
        let n = expected.len();
        let mut i: usize = 0;
        while i < n
            invariant
                n == expected@.len(),
                i <= n,
                forall|j: int| 0 <= j < i ==> self@.dom().contains(expected@[j]),
            decreases n - i,
        {
            if !self.map.contains(expected[i]) {
                return false;
            }
            i = i + 1;
        }
        true
    }
}

} // verus!
