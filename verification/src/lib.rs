//! Core of a Practical Byzantine Fault Tolerance (PBFT) replication
//! service: the three-phase agreement protocol (pre-prepare, prepare,
//! commit) run by a fixed set of n replicas, of which up to
//! f = (n - 1) / 3 may be Byzantine; the message formats exchanged among
//! replicas and with clients; the digest discipline binding requests to
//! pre-prepares; and the client's quorum-reply accounting.
//!
//! Each protocol sink is a pure state transition with a specification:
//! the network transport around it (HTTP delivery, multicast fan-out)
//! stays outside this crate and hands the sinks plain messages.

use vstd::prelude::*;

pub mod client;
pub mod digest;
pub mod laws;
pub mod message;
pub mod quorum;
pub mod replica;
pub mod table;

verus! {

/// Number of matching votes that constitutes a quorum among `n` replicas:
/// 2f + 1, where f = (n - 1) / 3 is the number of tolerated faulty
/// replicas.
pub fn quorum_threshold(n: u32) -> (t: u32)
    requires
        n >= 1,
    ensures
        t == crate::quorum::spec_quorum(n),
        t == 2 * ((n - 1) / 3) + 1,
{
    2 * ((n - 1) / 3) + 1
}

} // verus!
