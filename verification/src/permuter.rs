//! One search task ("permuter"): an immutable task payload, queues of pending
//! work and of pending results, a staleness flag, and scheduling fields.

use vstd::prelude::*;
use crate::fairness::Energy;
use crate::fairness::Priority;

verus! {

/// The immutable task payload: a source-code variant and the target compiled
/// artifact it should reproduce. Constructed once from the client's
/// submission; a task update replaces the whole payload rather than mutating
/// it in place.
pub struct PermuterData {
    pub source: String,
    pub target_o_bin: Vec<u8>,
}

/// One active search task and its scheduling state.
pub struct Permuter {
    /// The task payload (replaced wholesale by a task update).
    pub data: PermuterData,
    /// Pending candidate variations, consumed by worker dispatch.
    pub work_queue: Vec<Vec<u8>>,
    /// Pending results, drained by the connection's write half.
    pub result_queue: Vec<Vec<u8>>,
    /// Set when the task payload was superseded: queued work for the old
    /// payload should be discarded by consumers.
    pub stale: bool,
    /// The client-supplied priority of the whole batch.
    pub priority: Priority,
    /// Derived fairness weight, constant for the permuter's lifetime.
    pub energy_add: Energy,
}

/// How a permuter looks right after registration: the submitted payload,
/// empty queues, not stale, and the weight `n / p` of a batch of `n`
/// registered at priority `p`.
pub open spec fn freshly_registered(q: Permuter, d: PermuterData, n: int, p: Priority) -> bool {
    &&& q.data == d
    &&& q.work_queue@.len() == 0
    &&& q.result_queue@.len() == 0
    &&& q.stale == false
    &&& q.priority == p
    &&& q.energy_add.num == n * p.den
    &&& q.energy_add.den == p.num
}

} // verus!
