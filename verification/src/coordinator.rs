//! The protocol coordinator: one commit-reveal run from the first
//! commitment to the immutable winner record.
//!
//! Construction fixes the participant set (the `Init` stage); the run then
//! moves `Committing -> Revealing -> Verifying -> Selected -> Done`, the
//! first two transitions gated by the all-committed and all-revealed
//! barriers (or the reveal deadline), the last two always taken.  No phase
//! can be re-entered; a new run needs a fresh coordinator.

use vstd::prelude::*;

use crate::commitments::CommitmentStore;
use crate::errors::CommitError;
use crate::errors::ProtocolError;
use crate::errors::RevealError;
use crate::order::bytes_lt;
use crate::order::copy_bytes;
use crate::order::lemma_bytes_lt_asymmetric;
use crate::reveals::Reveal;
use crate::reveals::RevealStore;
use crate::selector::entries_view;
use crate::selector::entry_view;
use crate::selector::is_winner;
use crate::selector::select_index;
use crate::selector::wins_over;
use crate::selector::VerifiedOutput;
use crate::vrf::protocol_context;
use crate::vrf::verify;
use crate::vrf::vrf_verify_accepts;

verus! {

/// The phases of one protocol run, in the order they are passed through.
#[derive(Clone, Copy, PartialEq, Eq, Structural, Debug)]
pub enum Phase {
    /// Commitments are being collected.
    Committing,
    /// Reveals are being collected.
    Revealing,
    /// Recorded reveals are being checked.
    Verifying,
    /// The winner is being picked from the verified outputs.
    Selected,
    /// Terminal: the winner record is available.
    Done,
}

/// A participant as the coordinator knows it: an externally assigned id and
/// the public half of the participant's keypair.
pub struct ParticipantInfo {
    /// The externally assigned identity.
    pub id: u32,
    /// The 32-byte public key encoding.
    pub public_key: Vec<u8>,
}

/// The auditable result of a run: either the winning participant with the
/// output and proof that justified the selection, or the explicit no-winner
/// outcome.
pub enum WinnerRecord {
    /// Somebody won.
    Winner {
        /// The winner's id.
        participant_id: u32,
        /// The winner's 32-byte VRF output encoding.
        output: Vec<u8>,
        /// The 64-byte proof that the output passed verification with.
        proof_bytes: Vec<u8>,
    },
    /// No reveal survived verification.
    NoWinner,
}

/// Every listed participant has an entry in the map.
pub open spec fn all_present<V>(ps: Seq<ParticipantInfo>, m: Map<u32, V>) -> bool {
    forall|i: int| 0 <= i < ps.len() ==> m.dom().contains(ps[i].id)
}

/// A participant's reveal is eligible for selection: a commitment and a
/// reveal are recorded, and the proof verifies against the participant's
/// public key with the participant's own commitment as VRF input.
pub open spec fn eligible(
    p: ParticipantInfo,
    commitments: Map<u32, Vec<u8>>,
    reveals: Map<u32, Reveal>,
) -> bool {
    &&& commitments.dom().contains(p.id)
    &&& reveals.dom().contains(p.id)
    &&& vrf_verify_accepts(
        p.public_key@,
        protocol_context(),
        commitments[p.id]@,
        reveals[p.id].output@,
        reveals[p.id].proof_bytes@,
    )
}

/// The verified outputs of a run, in participant order: for each eligible
/// participant the triple of id, output bytes and proof bytes.
pub open spec fn verified_of(
    ps: Seq<ParticipantInfo>,
    commitments: Map<u32, Vec<u8>>,
    reveals: Map<u32, Reveal>,
) -> Seq<(u32, Seq<u8>, Seq<u8>)>
    decreases ps.len(),
{
    if ps.len() == 0 {
        Seq::empty()
    } else {
        verified_of(ps.drop_last(), commitments, reveals) + (if eligible(
            ps.last(),
            commitments,
            reveals,
        ) {
            seq![
                (
                    ps.last().id,
                    reveals[ps.last().id].output@,
                    reveals[ps.last().id].proof_bytes@,
                ),
            ]
        } else {
            Seq::empty()
        })
    }
}

/// The id, output bytes and proof bytes of each entry.
pub open spec fn outputs_view(s: Seq<VerifiedOutput>) -> Seq<(u32, Seq<u8>, Seq<u8>)> {
    s.map(|i: int, e: VerifiedOutput| (e.participant_id, e.output@, e.proof_bytes@))
}

/// The record `rec` is a faithful outcome for the verified entries: the
/// explicit no-winner outcome exactly on no entries, else a winning entry
/// that beats all others, copied field for field.
pub open spec fn records_winner_of(entries: Seq<VerifiedOutput>, rec: WinnerRecord) -> bool {
    match rec {
        WinnerRecord::NoWinner => entries.len() == 0,
        WinnerRecord::Winner { participant_id, output, proof_bytes } => exists|i: int|
            0 <= i < entries.len() && entries[i].participant_id == participant_id && output@
                == entries[i].output@ && proof_bytes@ == entries[i].proof_bytes@ && is_winner(
                entries_view(entries),
                entry_view(entries[i]),
            ),
    }
}


/// Verification keeps every eligible participant: when all participants
/// are eligible, the verified outputs are exactly the participants' own
/// recorded reveals, in participant order.
pub proof fn lemma_all_eligible_kept(
    ps: Seq<ParticipantInfo>,
    commitments: Map<u32, Vec<u8>>,
    reveals: Map<u32, Reveal>,
)
    requires
        forall|i: int| 0 <= i < ps.len() ==> eligible(ps[i], commitments, reveals),
    ensures
        verified_of(ps, commitments, reveals).len() == ps.len(),
        forall|i: int|
            0 <= i < ps.len() ==> verified_of(ps, commitments, reveals)[i] == (
                ps[i].id,
                reveals[ps[i].id].output@,
                reveals[ps[i].id].proof_bytes@,
            ),
    decreases ps.len(),
{
    if ps.len() > 0 {
        let pre = ps.drop_last();
        assert(forall|i: int| 0 <= i < pre.len() ==> pre[i] == ps[i]);
        lemma_all_eligible_kept(pre, commitments, reveals);
        assert(ps.last() == ps[ps.len() - 1]);
        assert(eligible(ps.last(), commitments, reveals));
        assert forall|i: int|
            0 <= i < ps.len() implies verified_of(ps, commitments, reveals)[i] == (
            ps[i].id,
            reveals[ps[i].id].output@,
            reveals[ps[i].id].proof_bytes@,
        ) by {
            if i < ps.len() - 1 {
                assert(verified_of(ps, commitments, reveals)[i] == verified_of(
                    pre,
                    commitments,
                    reveals,
                )[i]);
                assert(pre[i] == ps[i]);
            }
        }
    }
}

/// Every verified output comes from an eligible participant and carries
/// that participant's own recorded reveal, nothing else.
pub proof fn lemma_only_eligible_kept(
    ps: Seq<ParticipantInfo>,
    commitments: Map<u32, Vec<u8>>,
    reveals: Map<u32, Reveal>,
    k: int,
)
    requires
        0 <= k < verified_of(ps, commitments, reveals).len(),
    ensures
        exists|i: int|
            0 <= i < ps.len() && eligible(ps[i], commitments, reveals) && verified_of(
                ps,
                commitments,
                reveals,
            )[k] == (ps[i].id, reveals[ps[i].id].output@, reveals[ps[i].id].proof_bytes@),
    decreases ps.len(),
{
    let v = verified_of(ps, commitments, reveals);
    let pre = ps.drop_last();
    let vp = verified_of(pre, commitments, reveals);
    if k < vp.len() {
        lemma_only_eligible_kept(pre, commitments, reveals, k);
        let i = choose|i: int|
            0 <= i < pre.len() && eligible(pre[i], commitments, reveals) && vp[k] == (
                pre[i].id,
                reveals[pre[i].id].output@,
                reveals[pre[i].id].proof_bytes@,
            );
        assert(ps[i] == pre[i]);
        assert(v[k] == vp[k]);
        assert(0 <= i < ps.len() && eligible(ps[i], commitments, reveals) && v[k] == (
            ps[i].id,
            reveals[ps[i].id].output@,
            reveals[ps[i].id].proof_bytes@,
        ));
    } else {
        assert(eligible(ps.last(), commitments, reveals));
        let i = ps.len() - 1;
        assert(ps.last() == ps[i]);
        assert(0 <= i < ps.len() && eligible(ps[i], commitments, reveals) && v[k] == (
            ps[i].id,
            reveals[ps[i].id].output@,
            reveals[ps[i].id].proof_bytes@,
        ));
    }
}

/// Law: in a fully honest run — every participant committed, revealed, and
/// the reveal verifies against the participant's own commitment — the run
/// records a winner, the winner is a participant whose recorded output and
/// proof stand in the record, no participant's output exceeds the winner's
/// under the byte order, and among byte-identical outputs the winner has
/// the lowest id.
pub proof fn lemma_honest_run_winner(
    ps: Seq<ParticipantInfo>,
    commitments: Map<u32, Vec<u8>>,
    reveals: Map<u32, Reveal>,
    entries: Seq<VerifiedOutput>,
    rec: WinnerRecord,
)
    requires
        ps.len() > 0,
        forall|i: int| 0 <= i < ps.len() ==> eligible(ps[i], commitments, reveals),
        outputs_view(entries) == verified_of(ps, commitments, reveals),
        records_winner_of(entries, rec),
    ensures
        match rec {
            WinnerRecord::Winner { participant_id, output, proof_bytes } => {
                &&& exists|i: int|
                    0 <= i < ps.len() && ps[i].id == participant_id && output@
                        == reveals[ps[i].id].output@ && proof_bytes@
                        == reveals[ps[i].id].proof_bytes@
                &&& forall|j: int|
                    0 <= j < ps.len() ==> !bytes_lt(output@, reveals[ps[j].id].output@)
                &&& forall|j: int|
                    0 <= j < ps.len() && reveals[ps[j].id].output@ == output@
                        ==> participant_id <= ps[j].id
            },
            WinnerRecord::NoWinner => false,
        },
{
    lemma_all_eligible_kept(ps, commitments, reveals);
    let v = verified_of(ps, commitments, reveals);
    assert(entries.len() == ps.len());
    match rec {
        WinnerRecord::NoWinner => {
            assert(false);
        },
        WinnerRecord::Winner { participant_id, output, proof_bytes } => {
            let k = choose|k: int|
                0 <= k < entries.len() && entries[k].participant_id == participant_id && output@
                    == entries[k].output@ && proof_bytes@ == entries[k].proof_bytes@ && is_winner(
                    entries_view(entries),
                    entry_view(entries[k]),
                );
            let w = entry_view(entries[k]);
            assert(outputs_view(entries)[k] == (
                entries[k].participant_id,
                entries[k].output@,
                entries[k].proof_bytes@,
            ));
            assert(v[k] == (ps[k].id, reveals[ps[k].id].output@, reveals[ps[k].id].proof_bytes@));
            assert(0 <= k < ps.len() && ps[k].id == participant_id && output@
                == reveals[ps[k].id].output@ && proof_bytes@ == reveals[ps[k].id].proof_bytes@);
            assert forall|j: int|
                0 <= j < ps.len() implies !bytes_lt(output@, reveals[ps[j].id].output@) by {
                let x = entry_view(entries[j]);
                assert(outputs_view(entries)[j] == v[j]);
                assert(x.1 == reveals[ps[j].id].output@);
                assert(entries_view(entries)[j] == x);
                assert(entries_view(entries).contains(x));
                if x == w {
                    lemma_bytes_lt_asymmetric(w.1, w.1);
                } else {
                    assert(wins_over(w, x));
                    lemma_bytes_lt_asymmetric(w.1, x.1);
                    if x.1 == w.1 {
                        lemma_bytes_lt_asymmetric(w.1, w.1);
                    }
                }
            }
            assert forall|j: int|
                0 <= j < ps.len() && reveals[ps[j].id].output@ == output@
                    implies participant_id <= ps[j].id by {
                let x = entry_view(entries[j]);
                assert(outputs_view(entries)[j] == v[j]);
                assert(x.1 == reveals[ps[j].id].output@);
                assert(x.0 == ps[j].id);
                assert(entries_view(entries)[j] == x);
                assert(entries_view(entries).contains(x));
                if x != w {
                    assert(wins_over(w, x));
                    lemma_bytes_lt_asymmetric(w.1, w.1);
                }
            }
        },
    }
}

/// Law: a participant whose recorded reveal fails verification — or who
/// never committed or revealed — is excluded from the verified outputs and
/// with them from selection, while the run goes on for everyone else.
pub proof fn lemma_ineligible_excluded(
    ps: Seq<ParticipantInfo>,
    commitments: Map<u32, Vec<u8>>,
    reveals: Map<u32, Reveal>,
    id: u32,
)
    requires
        forall|i: int|
            0 <= i < ps.len() && ps[i].id == id ==> !eligible(ps[i], commitments, reveals),
    ensures
        forall|k: int|
            0 <= k < verified_of(ps, commitments, reveals).len() ==> verified_of(
                ps,
                commitments,
                reveals,
            )[k].0 != id,
{
    let v = verified_of(ps, commitments, reveals);
    assert forall|k: int| 0 <= k < v.len() implies v[k].0 != id by {
        lemma_only_eligible_kept(ps, commitments, reveals, k);
    }
}

/// Drives one protocol run; owns the stores for exactly that run.  The
/// fields stay private: only the methods below can move the run along, so
/// no caller can re-enter a phase, roll a store back or touch the record.
pub struct Coordinator {
    participants: Vec<ParticipantInfo>,
    phase: Phase,
    commitments: CommitmentStore,
    reveals: RevealStore,
    verified: Vec<VerifiedOutput>,
    record: Option<WinnerRecord>,
}

impl Coordinator {
    /// The fixed participant set of the run, as the contracts see it.
    pub closed spec fn participants_view(&self) -> Seq<ParticipantInfo> {
        self.participants@
    }

    /// Where the run stands, as the contracts see it.
    pub closed spec fn spec_phase(&self) -> Phase {
        self.phase
    }

    /// The recorded commitments, as a mathematical `Map`.
    pub closed spec fn commitment_map(&self) -> Map<u32, Vec<u8>> {
        self.commitments@
    }

    /// The recorded reveals, as a mathematical `Map`.
    pub closed spec fn reveal_map(&self) -> Map<u32, Reveal> {
        self.reveals@
    }

    /// The verified outputs, as the contracts see them.
    pub closed spec fn verified_view(&self) -> Seq<VerifiedOutput> {
        self.verified@
    }

    /// The outcome, as the contracts see it.
    pub closed spec fn spec_record(&self) -> Option<WinnerRecord> {
        self.record
    }

    /// Where the run stands.
    pub fn phase(&self) -> (r: Phase)
        ensures
            r == self.spec_phase(),
    {
        self.phase
    }

    /// Looks a participant's recorded commitment up.
    pub fn commitment(&self, participant_id: u32) -> (r: Option<&Vec<u8>>)
        ensures
            match r {
                Some(v) => self.commitment_map().dom().contains(participant_id) && *v
                    == self.commitment_map()[participant_id],
                None => !self.commitment_map().dom().contains(participant_id),
            },
    {
        self.commitments.get(participant_id)
    }

    /// The reveals that passed verification, in participant order; filled
    /// by `run_verification`.
    pub fn verified_outputs(&self) -> (r: &Vec<VerifiedOutput>)
        ensures
            r@ == self.verified_view(),
    {
        &self.verified
    }

    /// Starts a run over the given participants.  An empty participant set
    /// is the one fatal setup error.
    pub fn new(participants: Vec<ParticipantInfo>) -> (r: Result<Coordinator, ProtocolError>)
        ensures
            match r {
                Ok(c) => {
                    &&& participants@.len() > 0
                    &&& c.participants_view() == participants@
                    &&& c.spec_phase() == Phase::Committing
                    &&& c.commitment_map() == Map::<u32, Vec<u8>>::empty()
                    &&& c.reveal_map() == Map::<u32, Reveal>::empty()
                    &&& c.verified_view() == Seq::<VerifiedOutput>::empty()
                    &&& c.spec_record() is None
                },
                Err(e) => e == ProtocolError::EmptyParticipantSet && participants@.len() == 0,
            },
    {
        if participants.len() == 0 {
            return Err(ProtocolError::EmptyParticipantSet);
        }
        let c = Coordinator {
            participants,
            phase: Phase::Committing,
            commitments: CommitmentStore::new(),
            reveals: RevealStore::new(),
            verified: Vec::new(),
            record: None,
        };
        proof {
            assert(c.verified@ =~= Seq::<VerifiedOutput>::empty());
        }
        Ok(c)
    }

    /// The ids of the expected participants, in order.
    fn participant_ids(&self) -> (r: Vec<u32>)
        ensures
            r@.len() == self.participants@.len(),
            forall|i: int| 0 <= i < r@.len() ==> r@[i] == self.participants@[i].id,
    {
        let n = self.participants.len();
        let mut ids: Vec<u32> = Vec::new();
        let mut i: usize = 0;
        while i < n
            invariant
                n == self.participants@.len(),
                i <= n,
                ids@.len() == i,
                forall|j: int| 0 <= j < i ==> ids@[j] == self.participants@[j].id,
            decreases n - i,
        {
            ids.push(self.participants[i].id);
            i = i + 1;
        }
        ids
    }

    /// Accepts `participant_id`'s commitment during the commitment phase.
    /// When the last expected participant commits, the run moves on to the
    /// reveal phase.
    pub fn submit_commitment(&mut self, participant_id: u32, value: Vec<u8>) -> (r: Result<
        (),
        CommitError,
    >)
        requires
            value@.len() == 32,
        ensures
            final(self).participants_view() == old(self).participants_view(),
            final(self).reveal_map() == old(self).reveal_map(),
            final(self).verified_view() == old(self).verified_view(),
            final(self).spec_record() == old(self).spec_record(),
            match r {
                Ok(()) => {
                    &&& old(self).spec_phase() == Phase::Committing
                    &&& !old(self).commitment_map().dom().contains(participant_id)
                    &&& final(self).commitment_map() == old(self).commitment_map().insert(
                        participant_id,
                        value,
                    )
                    &&& final(self).spec_phase() == (if all_present(
                        old(self).participants_view(),
                        final(self).commitment_map(),
                    ) {
                        Phase::Revealing
                    } else {
                        Phase::Committing
                    })
                },
                Err(e) => {
                    &&& final(self).commitment_map() == old(self).commitment_map()
                    &&& final(self).spec_phase() == old(self).spec_phase()
                    &&& ((e == CommitError::PhaseViolation && old(self).spec_phase() != Phase::Committing)
                        || (e == CommitError::DuplicateCommitment && old(self).spec_phase()
                        == Phase::Committing && old(self).commitment_map().dom().contains(
                        participant_id,
                    )))
                },
            },
    {
        if !matches!(self.phase, Phase::Committing) {
            return Err(CommitError::PhaseViolation);
        }
        let recorded = self.commitments.record(participant_id, value);
        match recorded {
            Err(e) => Err(e),
            Ok(()) => {
                let ids = self.participant_ids();
                let all_in = self.commitments.all_committed(&ids);
                proof {
                    if all_in {
                        assert forall|k: int|
                            0 <= k < self.participants@.len() implies self.commitments@.dom().contains(
                            self.participants@[k].id,
                        ) by {
                            assert(ids@[k] == self.participants@[k].id);
                        }
                    } else {
                        let k = choose|k: int|
                            !(0 <= k < ids@.len() ==> self.commitments@.dom().contains(ids@[k]));
                        assert(!self.commitments@.dom().contains(self.participants@[k].id));
                    }
                }
                if all_in {
                    self.phase = Phase::Revealing;
                }
                Ok(())
            },
        }
    }

    /// Accepts `participant_id`'s reveal during the reveal phase, gated on
    /// that participant's commitment existing and no reveal having been
    /// recorded yet.  When the last expected participant reveals, the run
    /// moves on to verification.
    pub fn submit_reveal(&mut self, participant_id: u32, reveal: Reveal) -> (r: Result<
        (),
        RevealError,
    >)
        requires
            reveal.wf(),
        ensures
            final(self).participants_view() == old(self).participants_view(),
            final(self).commitment_map() == old(self).commitment_map(),
            final(self).verified_view() == old(self).verified_view(),
            final(self).spec_record() == old(self).spec_record(),
            match r {
                Ok(()) => {
                    &&& old(self).spec_phase() == Phase::Revealing
                    &&& old(self).commitment_map().dom().contains(participant_id)
                    &&& !old(self).reveal_map().dom().contains(participant_id)
                    &&& final(self).reveal_map() == old(self).reveal_map().insert(participant_id, reveal)
                    &&& final(self).spec_phase() == (if all_present(
                        old(self).participants_view(),
                        final(self).reveal_map(),
                    ) {
                        Phase::Verifying
                    } else {
                        Phase::Revealing
                    })
                },
                Err(e) => {
                    &&& final(self).reveal_map() == old(self).reveal_map()
                    &&& final(self).spec_phase() == old(self).spec_phase()
                    &&& ((e == RevealError::PhaseViolation && old(self).spec_phase() != Phase::Revealing)
                        || (e == RevealError::NoPriorCommitment && old(self).spec_phase()
                        == Phase::Revealing && !old(self).commitment_map().dom().contains(
                        participant_id,
                    )) || (e == RevealError::DuplicateReveal && old(self).spec_phase() == Phase::Revealing
                        && old(self).commitment_map().dom().contains(participant_id) && old(
                        self,
                    ).reveal_map().dom().contains(participant_id)))
                },
            },
    {
        if !matches!(self.phase, Phase::Revealing) {
            return Err(RevealError::PhaseViolation);
        }
        let recorded = self.reveals.record(participant_id, reveal, &self.commitments);
        match recorded {
            Err(e) => Err(e),
            Ok(()) => {
                let ids = self.participant_ids();
                let all_in = self.reveals.all_revealed(&ids);
                proof {
                    if all_in {
                        assert forall|k: int|
                            0 <= k < self.participants@.len() implies self.reveals@.dom().contains(
                            self.participants@[k].id,
                        ) by {
                            assert(ids@[k] == self.participants@[k].id);
                        }
                    } else {
                        let k = choose|k: int|
                            !(0 <= k < ids@.len() ==> self.reveals@.dom().contains(ids@[k]));
                        assert(!self.reveals@.dom().contains(self.participants@[k].id));
                    }
                }
                if all_in {
                    self.phase = Phase::Verifying;
                }
                Ok(())
            },
        }
    }

    /// The reveal deadline: ends the reveal phase with whatever reveals
    /// came in.  Participants who never revealed are simply excluded.
    pub fn close_reveals(&mut self) -> (r: Result<(), ProtocolError>)
        ensures
            match r {
                Ok(()) => {
                    &&& old(self).spec_phase() == Phase::Revealing
                    &&& final(self).spec_phase() == Phase::Verifying
                    &&& final(self).participants_view() == old(self).participants_view()
                    &&& final(self).commitment_map() == old(self).commitment_map()
                    &&& final(self).reveal_map() == old(self).reveal_map()
                    &&& final(self).verified_view() == old(self).verified_view()
                    &&& final(self).spec_record() == old(self).spec_record()
                },
                Err(e) => e == ProtocolError::PhaseViolation && old(self).spec_phase() != Phase::Revealing
                    && *final(self) == *old(self),
            },
    {
        if !matches!(self.phase, Phase::Revealing) {
            return Err(ProtocolError::PhaseViolation);
        }
        self.phase = Phase::Verifying;
        Ok(())
    }

    /// Checks every recorded reveal against its participant's public key
    /// and commitment, and keeps exactly those that pass.  Always moves on
    /// to selection, however many reveals survived — including none.
    pub fn run_verification(&mut self) -> (r: Result<(), ProtocolError>)
        ensures
            final(self).participants_view() == old(self).participants_view(),
            final(self).commitment_map() == old(self).commitment_map(),
            final(self).reveal_map() == old(self).reveal_map(),
            final(self).spec_record() == old(self).spec_record(),
            match r {
                Ok(()) => {
                    &&& old(self).spec_phase() == Phase::Verifying
                    &&& final(self).spec_phase() == Phase::Selected
                    &&& outputs_view(final(self).verified_view()) == verified_of(
                        old(self).participants_view(),
                        old(self).commitment_map(),
                        old(self).reveal_map(),
                    )
                },
                Err(e) => e == ProtocolError::PhaseViolation && old(self).spec_phase() != Phase::Verifying
                    && *final(self) == *old(self),
            },
    {
        if !matches!(self.phase, Phase::Verifying) {
            return Err(ProtocolError::PhaseViolation);
        }
        let n = self.participants.len();
        let mut kept: Vec<VerifiedOutput> = Vec::new();
        proof {
            assert(outputs_view(kept@) =~= verified_of(
                self.participants@.take(0),
                self.commitments@,
                self.reveals@,
            ));
        }
        let mut i: usize = 0;
        while i < n
            invariant
                n == self.participants@.len(),
                i <= n,
                outputs_view(kept@) == verified_of(
                    self.participants@.take(i as int),
                    self.commitments@,
                    self.reveals@,
                ),
            decreases n - i,
        {
            let p = &self.participants[i];
            let ghost prefix = outputs_view(kept@);
            match (self.commitments.get(p.id), self.reveals.get(p.id)) {
                (Some(commitment), Some(reveal)) => {
                    if verify(&p.public_key, commitment, &reveal.output, &reveal.proof_bytes) {
                        let entry = VerifiedOutput {
                            participant_id: p.id,
                            output: copy_bytes(&reveal.output),
                            proof_bytes: copy_bytes(&reveal.proof_bytes),
                        };
                        kept.push(entry);
                        proof {
                            assert(eligible(
                                self.participants@[i as int],
                                self.commitments@,
                                self.reveals@,
                            ));
                        }
                    } else {
                        proof {
                            assert(!eligible(
                                self.participants@[i as int],
                                self.commitments@,
                                self.reveals@,
                            ));
                        }
                    }
                },
                _ => {
                    proof {
                        assert(!eligible(
                            self.participants@[i as int],
                            self.commitments@,
                            self.reveals@,
                        ));
                    }
                },
            }
            proof {
                let taken = self.participants@.take(i + 1 as int);
                assert(taken.drop_last() =~= self.participants@.take(i as int));
                assert(taken.last() == self.participants@[i as int]);
                assert(outputs_view(kept@) =~= verified_of(
                    taken,
                    self.commitments@,
                    self.reveals@,
                ));
            }
            i = i + 1;
        }
        proof {
            assert(self.participants@.take(n as int) =~= self.participants@);
        }
        self.verified = kept;
        self.phase = Phase::Selected;
        Ok(())
    }

    /// Picks the winner over the verified outputs, writes the immutable
    /// winner record — the explicit no-winner outcome when nothing survived
    /// verification — and ends the run.
    pub fn select_winner(&mut self) -> (r: Result<(), ProtocolError>)
        ensures
            final(self).participants_view() == old(self).participants_view(),
            final(self).commitment_map() == old(self).commitment_map(),
            final(self).reveal_map() == old(self).reveal_map(),
            final(self).verified_view() == old(self).verified_view(),
            match r {
                Ok(()) => {
                    &&& old(self).spec_phase() == Phase::Selected
                    &&& final(self).spec_phase() == Phase::Done
                    &&& match final(self).spec_record() {
                        Some(rec) => records_winner_of(old(self).verified_view(), rec),
                        None => false,
                    }
                },
                Err(e) => e == ProtocolError::PhaseViolation && old(self).spec_phase() != Phase::Selected
                    && *final(self) == *old(self),
            },
    {
        if !matches!(self.phase, Phase::Selected) {
            return Err(ProtocolError::PhaseViolation);
        }
        let rec = match select_index(&self.verified) {
            None => WinnerRecord::NoWinner,
            Some(i) => {
                let e = &self.verified[i];
                WinnerRecord::Winner {
                    participant_id: e.participant_id,
                    output: copy_bytes(&e.output),
                    proof_bytes: copy_bytes(&e.proof_bytes),
                }
            },
        };
        self.record = Some(rec);
        self.phase = Phase::Done;
        Ok(())
    }

    /// The outcome of the run; `Some` exactly from the end of
    /// `select_winner` on.
    pub fn winner_record(&self) -> (r: &Option<WinnerRecord>)
        ensures
            *r == self.spec_record(),
    {
        &self.record
    }
}

} // verus!
