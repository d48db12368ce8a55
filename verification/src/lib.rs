//! A commit-reveal winner-selection protocol built on a verifiable random
//! function (VRF).
//!
//! Every participant first records a 32-byte commitment, then reveals a VRF
//! output together with a proof that the output was honestly derived from the
//! participant's secret key and own commitment.  Reveals whose proofs fail
//! verification are excluded, and the winner is the participant whose verified
//! output is largest under the big-endian byte order, ties going to the lower
//! participant id.

pub mod commitments;
pub mod coordinator;
pub mod errors;
pub mod order;
pub mod reveals;
pub mod selector;
pub mod store;
pub mod vrf;
