//! The commitment store: one 32-byte commitment per participant, immutable
//! once recorded.

use vstd::prelude::*;

use crate::errors::CommitError;
use crate::store::IdMap;

verus! {

/// Collects one commitment value per participant and refuses any second
/// one.
pub struct CommitmentStore {
    map: IdMap<Vec<u8>>,
}

impl View for CommitmentStore {
    type V = Map<u32, Vec<u8>>;

    open spec fn view(&self) -> Map<u32, Vec<u8>> {
        self.spec_map()
    }
}

impl CommitmentStore {
    /// The commitments held, as a mathematical `Map`.
    pub closed spec fn spec_map(&self) -> Map<u32, Vec<u8>> {
        self.map@
    }

    /// An empty store.
    pub fn new() -> (r: CommitmentStore)
        ensures
            r@ == Map::<u32, Vec<u8>>::empty(),
    {
        CommitmentStore { map: IdMap::new() }
    }

    /// Records `value` as `participant_id`'s commitment.  A second record
    /// for the same participant fails with `DuplicateCommitment` and leaves
    /// the store — the original commitment included — unchanged.
    pub fn record(&mut self, participant_id: u32, value: Vec<u8>) -> (r: Result<(), CommitError>)
        requires
            value@.len() == 32,
        ensures
            match r {
                Ok(()) => !old(self)@.dom().contains(participant_id) && final(self)@ == old(
                    self,
                )@.insert(participant_id, value),
                Err(e) => e == CommitError::DuplicateCommitment && old(self)@.dom().contains(
                    participant_id,
                ) && *final(self) == *old(self),
            },
    {
        if self.map.contains(participant_id) {
            Err(CommitError::DuplicateCommitment)
        } else {
            self.map.insert(participant_id, value);
            Ok(())
        }
    }

    /// Looks a participant's commitment up.
    pub fn get(&self, participant_id: u32) -> (r: Option<&Vec<u8>>)
        ensures
            match r {
                Some(v) => self@.dom().contains(participant_id) && *v == self@[participant_id],
                None => !self@.dom().contains(participant_id),
            },
    {
        self.map.get(participant_id)
    }

    /// Whether the store holds a commitment for `participant_id`.
    pub fn contains(&self, participant_id: u32) -> (r: bool)
        ensures
            r == self@.dom().contains(participant_id),
    {
        self.map.contains(participant_id)
    }

    /// Whether every expected participant has a recorded commitment; gates
    /// the transition out of the commitment phase.
    pub fn all_committed(&self, expected: &Vec<u32>) -> (r: bool)
        ensures
            r == forall|i: int| 0 <= i < expected@.len() ==> self@.dom().contains(expected@[i]),
    {
        let n = expected.len();
        let mut i: usize = 0;
        while i < n
            invariant
                n == expected@.len(),
                i <= n,
                forall|j: int| 0 <= j < i ==> self@.dom().contains(expected@[j]),
            decreases n - i,
        {
            if !self.map.contains(expected[i]) {
                return false;
            }
            i = i + 1;
        }
        true
    }
}

} // verus!
