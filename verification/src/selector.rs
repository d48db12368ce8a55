//! Winner selection: the deterministic maximum over the verified outputs.
//!
//! The winner is the entry whose output is largest under the big-endian
//! byte order; byte-identical outputs go to the lower participant id.  The
//! order is total, so any independent verifier re-running the selection over
//! the same entries — in any order — reaches the same winner.

use vstd::prelude::*;

use crate::order::bytes_compare_lt;
use crate::order::bytes_lt;
use crate::order::lemma_bytes_lt_asymmetric;
use crate::order::lemma_bytes_lt_connected;
use crate::order::lemma_bytes_lt_transitive;

verus! {

/// A reveal that passed verification: the only kind of entry eligible for
/// winner selection.
pub struct VerifiedOutput {
    /// The participant the output belongs to.
    pub participant_id: u32,
    /// The 32-byte VRF output encoding.
    pub output: Vec<u8>,
    /// The 64-byte proof that justified accepting the output.
    pub proof_bytes: Vec<u8>,
}

/// What selection looks at: the participant id and the output's bytes.
pub open spec fn entry_view(e: VerifiedOutput) -> (u32, Seq<u8>) {
    (e.participant_id, e.output@)
}

/// The strict priority order of selection: `a` beats `b` when `a`'s output
/// is larger, or the outputs are byte-identical and `a` has the lower id.
pub open spec fn wins_over(a: (u32, Seq<u8>), b: (u32, Seq<u8>)) -> bool {
    bytes_lt(b.1, a.1) || (a.1 == b.1 && a.0 < b.0)
}

/// `w` is the winner of the entries `s`: it occurs there and beats every
/// other entry.
pub open spec fn is_winner(s: Seq<(u32, Seq<u8>)>, w: (u32, Seq<u8>)) -> bool {
    s.contains(w) && forall|x: (u32, Seq<u8>)| s.contains(x) && x != w ==> wins_over(w, x)
}

/// The priority order is total: two entries are comparable or equal.
proof fn lemma_wins_over_total(a: (u32, Seq<u8>), b: (u32, Seq<u8>))
    ensures
        wins_over(a, b) || wins_over(b, a) || a == b,
{
    if !bytes_lt(a.1, b.1) && !bytes_lt(b.1, a.1) {
        lemma_bytes_lt_connected(a.1, b.1);
    }
}

/// The priority order is asymmetric: no two entries beat each other.
proof fn lemma_wins_over_asymmetric(a: (u32, Seq<u8>), b: (u32, Seq<u8>))
    ensures
        !(wins_over(a, b) && wins_over(b, a)),
{
    lemma_bytes_lt_asymmetric(a.1, b.1);
}

/// The priority order is transitive.
proof fn lemma_wins_over_transitive(a: (u32, Seq<u8>), b: (u32, Seq<u8>), c: (u32, Seq<u8>))
    requires
        wins_over(a, b),
        wins_over(b, c),
    ensures
        wins_over(a, c),
{
    if bytes_lt(b.1, a.1) && bytes_lt(c.1, b.1) {
        lemma_bytes_lt_transitive(c.1, b.1, a.1);
    }
}

/// Law: selection is a pure total-order maximum.  Two entry lists holding
/// the same entries — whatever their order or repetition — have the same
/// winner, so any observer can reproduce the selection.
pub proof fn lemma_winner_unique(
    s1: Seq<(u32, Seq<u8>)>,
    s2: Seq<(u32, Seq<u8>)>,
    w1: (u32, Seq<u8>),
    w2: (u32, Seq<u8>),
)
    requires
        forall|x: (u32, Seq<u8>)| s1.contains(x) <==> s2.contains(x),
        is_winner(s1, w1),
        is_winner(s2, w2),
    ensures
        w1 == w2,
{
    if w1 != w2 {
        assert(s1.contains(w2));
        assert(s2.contains(w1));
        assert(wins_over(w1, w2));
        assert(wins_over(w2, w1));
        lemma_wins_over_asymmetric(w1, w2);
    }
}

/// Decides the priority order on two entries.
fn beats(a: &VerifiedOutput, b: &VerifiedOutput) -> (r: bool)
    ensures
        r == wins_over(entry_view(*a), entry_view(*b)),
{
    if bytes_compare_lt(&b.output, &a.output) {
        true
    } else if bytes_compare_lt(&a.output, &b.output) {
        false
    } else {
        proof {
            lemma_bytes_lt_connected(a.output@, b.output@);
        }
        a.participant_id < b.participant_id
    }
}

/// The views of the entries a selection ranges over.
pub open spec fn entries_view(s: Seq<VerifiedOutput>) -> Seq<(u32, Seq<u8>)> {
    s.map(|i: int, e: VerifiedOutput| entry_view(e))
}

/// Picks the winning entry's index: the entry that beats every other one.
/// Returns `None` exactly on an empty list.
pub fn select_index(entries: &Vec<VerifiedOutput>) -> (r: Option<usize>)
    ensures
        match r {
            None => entries@.len() == 0,
            Some(i) => i < entries@.len() && is_winner(
                entries_view(entries@),
                entry_view(entries@[i as int]),
            ),
        },
{
    let n = entries.len();
    if n == 0 {
        return None;
    }
    let ghost view = entries_view(entries@);
    let mut best: usize = 0;
    let mut i: usize = 1;
    while i < n
        invariant
            n == entries@.len(),
            view == entries_view(entries@),
            best < i,
            i <= n,
            forall|j: int|
                0 <= j < i && j != best ==> wins_over(
                    entry_view(entries@[best as int]),
                    entry_view(entries@[j]),
                ) || entry_view(entries@[j]) == entry_view(entries@[best as int]),
        decreases n - i,
    {
        if beats(&entries[i], &entries[best]) {
            proof {
                let w = entry_view(entries@[i as int]);
                let ob = entry_view(entries@[best as int]);
                assert forall|j: int|
                    0 <= j < i + 1 && j != i as int implies wins_over(
                    w,
                    entry_view(entries@[j]),
                ) || entry_view(entries@[j]) == w by {
                    let x = entry_view(entries@[j]);
                    if j != best {
                        if wins_over(ob, x) {
                            lemma_wins_over_transitive(w, ob, x);
                        }
                    }
                }
            }
            best = i;
        } else {
            proof {
                let w = entry_view(entries@[best as int]);
                let x = entry_view(entries@[i as int]);
                lemma_wins_over_total(w, x);
            }
        }
        i = i + 1;
    }
    proof {
        let w = entry_view(entries@[best as int]);
        assert(view[best as int] == w);
        assert(view.contains(w));
        assert forall|x: (u32, Seq<u8>)| view.contains(x) && x != w implies wins_over(w, x) by {
            let j = choose|j: int| 0 <= j < view.len() && view[j] == x;
            assert(entry_view(entries@[j]) == x);
        }
    }
    Some(best)
}

/// Selects the winning participant over the verified outputs: `None` on an
/// empty list, otherwise the id whose output is maximal under the byte
/// order, ties going to the lower id.
pub fn select(entries: &Vec<VerifiedOutput>) -> (r: Option<u32>)
    ensures
        match r {
            None => entries@.len() == 0,
            Some(id) => exists|i: int|
                0 <= i < entries@.len() && entries@[i].participant_id == id && is_winner(
                    entries_view(entries@),
                    entry_view(entries@[i]),
                ),
        },
{
    match select_index(entries) {
        None => None,
        Some(i) => {
            proof {
                assert(entry_view(entries@[i as int]).0 == entries@[i as int].participant_id);
            }
            Some(entries[i].participant_id)
        },
    }
}

} // verus!
