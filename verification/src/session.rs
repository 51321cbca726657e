//! Per-connection session logic: admitting a client's batch of permuters into
//! the shared registry, handling the messages of the connection's read half,
//! draining results for its write half, and deregistering everything the
//! connection registered when it ends — whatever way it ends.
//!
//! The surrounding process performs the channel I/O (reading compressed
//! blocks, writing control messages) and drives these functions with plain
//! values; every registry access here is one short critical section.

use vstd::prelude::*;
use crate::fairness::COMPONENT_MAX;
use crate::fairness::Energy;
use crate::fairness::Priority;
use crate::fairness::SessionError;
use crate::fairness::energy_add;
use crate::permuter::Permuter;
use crate::permuter::PermuterData;
use crate::permuter::freshly_registered;
use crate::registry::Registry;

verus! {

broadcast use vstd::std_specs::hash::group_hash_axioms;

/// A client's initial submission: the ordered task payloads, already read in
/// full from the channel, plus the one priority shared by the whole batch.
/// Registration sees only complete submissions, so a connection that fails
/// while still reading never registers anything.
pub struct Submission {
    pub permuters: Vec<PermuterData>,
    pub priority: Priority,
}

/// A decoded message of the read half (client to server).
pub enum ClientMessage {
    /// A result for the permuter `perm_id`, to be queued for forwarding.
    SubmitResult { perm_id: u64, result: Vec<u8> },
    /// A new task payload superseding the one of permuter `perm_id`.
    UpdateTask { perm_id: u64, source: String, target_o_bin: Vec<u8> },
}

/// The permuter identifier a message refers to.
pub open spec fn message_id(msg: ClientMessage) -> u64 {
    match msg {
        ClientMessage::SubmitResult { perm_id, .. } => perm_id,
        ClientMessage::UpdateTask { perm_id, .. } => perm_id,
    }
}

/// How a successful registration relates the registry before (`pre`) and
/// after (`post`): the batch `subs`, submitted at priority `p`, occupies
/// exactly the identifier window the counter advanced over, each entry is
/// fresh with weight `subs.len() / p`, and everything else is untouched.
pub open spec fn batch_registered(
    pre: Registry,
    post: Registry,
    ids: Seq<u64>,
    subs: Seq<PermuterData>,
    p: Priority,
) -> bool {
    let n = subs.len() as int;
    &&& ids.len() == n
    &&& forall|i: int| 0 <= i < n ==> ids[i] == pre.next_permuter_id + i
    &&& post.next_permuter_id == pre.next_permuter_id + n
    &&& forall|i: int| 0 <= i < n ==> post.entries().contains_key(#[trigger] ids[i])
    &&& forall|i: int|
        0 <= i < n ==> freshly_registered(post.entries()[#[trigger] ids[i]], subs[i], n, p)
    &&& forall|k: u64|
        post.entries().contains_key(k) <==> (pre.entries().contains_key(k)
            || pre.next_permuter_id <= k < pre.next_permuter_id + n)
    &&& forall|k: u64|
        pre.entries().contains_key(k) ==> post.entries()[k] == pre.entries()[k]
    &&& post.entries().len() == pre.entries().len() + n
}

/// Admits a whole submission: validates the priority, then registers every
/// permuter of the batch under a fresh identifier, all inside one critical
/// section of the caller. A non-positive priority is rejected before any
/// entry appears. On success the returned identifiers are the batch's, in
/// submission order.
pub fn register_batch(reg: &mut Registry, sub: Submission) -> (r: Result<Vec<u64>, SessionError>)
    requires
        old(reg).wf(),
        sub.priority.wf(),
        sub.permuters@.len() <= COMPONENT_MAX,
        old(reg).next_permuter_id + sub.permuters@.len() <= u64::MAX,
    ensures
        final(reg).wf(),
        r is Ok <==> sub.priority.is_positive(),
        r is Err ==> r == Err::<Vec<u64>, SessionError>(SessionError::Validation)
            && final(reg).entries() == old(reg).entries()
            && final(reg).next_permuter_id == old(reg).next_permuter_id,
        r matches Ok(ids) ==> batch_registered(
            *old(reg),
            *final(reg),
            ids@,
            sub.permuters@,
            sub.priority,
        ),
{
    let Submission { permuters: mut subs, priority: pri } = sub;
    let ghost subs0: Seq<PermuterData> = subs@;
    let n = subs.len();
    let e = match energy_add(n, pri) {
        Ok(e) => e,
        Err(err) => {
            return Err(err);
        },
    };
    let mut ids: Vec<u64> = Vec::new();
    let mut i: usize = 0;
    proof {
        assert(subs@ =~= subs0.skip(0));
    }
    while i < n
        invariant
            reg.wf(),
            n == subs0.len(),
            i <= n,
            n <= COMPONENT_MAX,
            subs@ == subs0.skip(i as int),
            pri.wf(),
            pri.is_positive(),
            e.wf(),
            e.num == n * pri.den,
            e.den == pri.num,
            ids@.len() == i,
            forall|j: int| 0 <= j < i ==> ids@[j] == old(reg).next_permuter_id + j,
            reg.next_permuter_id == old(reg).next_permuter_id + i,
            old(reg).next_permuter_id + n <= u64::MAX,
            forall|j: int| 0 <= j < i ==> reg.entries().contains_key(#[trigger] ids@[j]),
            forall|j: int|
                0 <= j < i ==> freshly_registered(
                    reg.entries()[#[trigger] ids@[j]],
                    subs0[j],
                    n as int,
                    pri,
                ),
            forall|k: u64|
                reg.entries().contains_key(k) <==> (old(reg).entries().contains_key(k)
                    || old(reg).next_permuter_id <= k < old(reg).next_permuter_id + i),
            forall|k: u64|
                old(reg).entries().contains_key(k) ==> reg.entries()[k] == old(
                    reg,
                ).entries()[k],
            reg.entries().len() == old(reg).entries().len() + i,
        decreases n - i,
    {
        let ghost pre_entries = reg.entries();
        let d = subs.remove(0);
        proof {
            assert(d == subs0[i as int]);
            assert(subs@ =~= subs0.skip(i as int + 1));
        }
        let id = reg.allocate_id();
        proof {
            reg.lemma_entries_finite();
            assert(!pre_entries.contains_key(id));
        }
        let q = Permuter {
            data: d,
            work_queue: Vec::new(),
            result_queue: Vec::new(),
            stale: false,
            priority: pri,
            energy_add: e,
        };
        reg.insert(id, q);
        ids.push(id);
        proof {
            vstd::set::axiom_set_insert_len(pre_entries.dom(), id);
            assert(reg.entries().dom() =~= pre_entries.dom().insert(id));
            assert(reg.entries().len() == pre_entries.len() + 1);
            assert forall|k: u64|
                reg.entries().contains_key(k) <==> (old(reg).entries().contains_key(k)
                    || old(reg).next_permuter_id <= k < old(reg).next_permuter_id + i
                    + 1) by {
                if k != id {
                    assert(reg.entries().contains_key(k) == pre_entries.contains_key(k));
                }
            }
        }
        i += 1;
    }
    Ok(ids)
}

/// Whether `x` is one of the identifiers in `owned`.
fn contains_id(owned: &Vec<u64>, x: u64) -> (r: bool)
    ensures
        r == owned@.contains(x),
{
    let mut i: usize = 0;
    while i < owned.len()
        invariant
            i <= owned@.len(),
            forall|j: int| 0 <= j < i ==> owned@[j] != x,
        decreases owned@.len() - i,
    {
        if owned[i] == x {
            return true;
        }
        i += 1;
    }
    false
}

/// How a handled result submission relates the registry contents before
/// (`pre`) and after (`post`): `result` was appended to the result queue of
/// the permuter `id`, and nothing else changed.
pub open spec fn result_appended(
    pre: Map<u64, Permuter>,
    post: Map<u64, Permuter>,
    id: u64,
    result: Vec<u8>,
) -> bool {
    &&& pre.contains_key(id)
    &&& post.dom() == pre.dom()
    &&& forall|k: u64| pre.contains_key(k) && k != id ==> post[k] == pre[k]
    &&& post[id].data == pre[id].data
    &&& post[id].work_queue == pre[id].work_queue
    &&& post[id].result_queue@ == pre[id].result_queue@.push(result)
    &&& post[id].stale == pre[id].stale
    &&& post[id].priority == pre[id].priority
    &&& post[id].energy_add == pre[id].energy_add
}

/// How a handled task update relates the registry contents before (`pre`)
/// and after (`post`): the payload of permuter `id` was replaced by
/// `source`/`target_o_bin` and the permuter was marked stale; its queues,
/// its scheduling fields, and every other permuter are untouched.
pub open spec fn task_updated(
    pre: Map<u64, Permuter>,
    post: Map<u64, Permuter>,
    id: u64,
    source: String,
    target_o_bin: Vec<u8>,
) -> bool {
    &&& pre.contains_key(id)
    &&& post.dom() == pre.dom()
    &&& forall|k: u64| pre.contains_key(k) && k != id ==> post[k] == pre[k]
    &&& post[id].data.source == source
    &&& post[id].data.target_o_bin == target_o_bin
    &&& post[id].work_queue == pre[id].work_queue
    &&& post[id].result_queue == pre[id].result_queue
    &&& post[id].stale == true
    &&& post[id].priority == pre[id].priority
    &&& post[id].energy_add == pre[id].energy_add
}

/// Handles one decoded message of the read half. A message naming an
/// identifier this connection does not own is a protocol violation and
/// mutates nothing. An owned identifier that is already gone from the
/// registry (raced by supervisory cleanup) is a no-op, not an error.
pub fn handle_message(reg: &mut Registry, owned: &Vec<u64>, msg: ClientMessage) -> (r: Result<
    (),
    SessionError,
>)
    requires
        old(reg).wf(),
    ensures
        final(reg).wf(),
        final(reg).next_permuter_id == old(reg).next_permuter_id,
        r is Err <==> !owned@.contains(message_id(msg)),
        r is Err ==> r == Err::<(), SessionError>(SessionError::Protocol)
            && final(reg).entries() == old(reg).entries(),
        !old(reg).entries().contains_key(message_id(msg)) ==> final(reg).entries() == old(
            reg,
        ).entries(),
        msg matches ClientMessage::SubmitResult { perm_id, result } ==> (owned@.contains(perm_id)
            && old(reg).entries().contains_key(perm_id) ==> result_appended(
            old(reg).entries(),
            final(reg).entries(),
            perm_id,
            result,
        )),
        msg matches ClientMessage::UpdateTask { perm_id, source, target_o_bin } ==> (
        owned@.contains(perm_id) && old(reg).entries().contains_key(perm_id) ==> task_updated(
            old(reg).entries(),
            final(reg).entries(),
            perm_id,
            source,
            target_o_bin,
        )),
{
    let id = match &msg {
        ClientMessage::SubmitResult { perm_id, .. } => *perm_id,
        ClientMessage::UpdateTask { perm_id, .. } => *perm_id,
    };
    if !contains_id(owned, id) {
        return Err(SessionError::Protocol);
    }
    match msg {
        ClientMessage::SubmitResult { perm_id, result } => {
            match reg.remove(perm_id) {
                Some(mut q) => {
                    q.result_queue.push(result);
                    reg.insert(perm_id, q);
                    proof {
                        assert(final(reg).entries().dom() =~= old(reg).entries().dom());
                    }
                },
                None => {
                    proof {
                        assert(final(reg).entries() =~= old(reg).entries());
                    }
                },
            }
        },
        ClientMessage::UpdateTask { perm_id, source, target_o_bin } => {
            match reg.remove(perm_id) {
                Some(mut q) => {
                    q.data = PermuterData { source, target_o_bin };
                    q.stale = true;
                    reg.insert(perm_id, q);
                    proof {
                        assert(final(reg).entries().dom() =~= old(reg).entries().dom());
                    }
                },
                None => {
                    proof {
                        assert(final(reg).entries() =~= old(reg).entries());
                    }
                },
            }
        },
    }
    Ok(())
}

/// Drains the pending results of the permuter `id` for forwarding by the
/// connection's write half: returns the queued results in order and leaves
/// the queue empty. A no-op returning nothing if `id` is not registered.
pub fn drain_results(reg: &mut Registry, id: u64) -> (r: Vec<Vec<u8>>)
    requires
        old(reg).wf(),
    ensures
        final(reg).wf(),
        final(reg).next_permuter_id == old(reg).next_permuter_id,
        !old(reg).entries().contains_key(id) ==> r@.len() == 0 && final(reg).entries() == old(
            reg,
        ).entries(),
        old(reg).entries().contains_key(id) ==> {
            &&& r@ == old(reg).entries()[id].result_queue@
            &&& final(reg).entries().dom() == old(reg).entries().dom()
            &&& forall|k: u64|
                old(reg).entries().contains_key(k) && k != id ==> final(reg).entries()[k]
                    == old(reg).entries()[k]
            &&& final(reg).entries()[id].result_queue@.len() == 0
            &&& final(reg).entries()[id].data == old(reg).entries()[id].data
            &&& final(reg).entries()[id].work_queue == old(reg).entries()[id].work_queue
            &&& final(reg).entries()[id].stale == old(reg).entries()[id].stale
            &&& final(reg).entries()[id].priority == old(reg).entries()[id].priority
            &&& final(reg).entries()[id].energy_add == old(reg).entries()[id].energy_add
        },
{
    match reg.remove(id) {
        Some(mut q) => {
            let out = q.result_queue;
            q.result_queue = Vec::new();
            reg.insert(id, q);
            proof {
                assert(final(reg).entries().dom() =~= old(reg).entries().dom());
            }
            out
        },
        None => {
            proof {
                assert(final(reg).entries() =~= old(reg).entries());
            }
            Vec::new()
        },
    }
}

/// Appends a candidate variation to the work queue of the permuter `id`, on
/// behalf of the dispatch that feeds workers. Returns whether the permuter
/// was registered; nothing else changes either way.
pub fn push_work(reg: &mut Registry, id: u64, item: Vec<u8>) -> (r: bool)
    requires
        old(reg).wf(),
    ensures
        final(reg).wf(),
        final(reg).next_permuter_id == old(reg).next_permuter_id,
        r == old(reg).entries().contains_key(id),
        !r ==> final(reg).entries() == old(reg).entries(),
        r ==> {
            &&& final(reg).entries().dom() == old(reg).entries().dom()
            &&& forall|k: u64|
                old(reg).entries().contains_key(k) && k != id ==> final(reg).entries()[k]
                    == old(reg).entries()[k]
            &&& final(reg).entries()[id].work_queue@ == old(
                reg,
            ).entries()[id].work_queue@.push(item)
            &&& final(reg).entries()[id].data == old(reg).entries()[id].data
            &&& final(reg).entries()[id].result_queue == old(reg).entries()[id].result_queue
            &&& final(reg).entries()[id].stale == old(reg).entries()[id].stale
            &&& final(reg).entries()[id].priority == old(reg).entries()[id].priority
            &&& final(reg).entries()[id].energy_add == old(reg).entries()[id].energy_add
        },
{
    match reg.remove(id) {
        Some(mut q) => {
            q.work_queue.push(item);
            reg.insert(id, q);
            proof {
                assert(final(reg).entries().dom() =~= old(reg).entries().dom());
            }
            true
        },
        None => {
            proof {
                assert(final(reg).entries() =~= old(reg).entries());
            }
            false
        },
    }
}

/// How a connection's deregistration relates the registry before (`pre`)
/// and after (`post`): exactly the entries under the connection's `owned`
/// identifiers are gone, everything else — entries of other connections and
/// the identifier counter — is untouched.
pub open spec fn connection_deregistered(pre: Registry, post: Registry, owned: Seq<u64>) -> bool {
    &&& post.next_permuter_id == pre.next_permuter_id
    &&& forall|k: u64|
        post.entries().contains_key(k) <==> (pre.entries().contains_key(k) && !owned.contains(k))
    &&& forall|k: u64|
        post.entries().contains_key(k) ==> post.entries()[k] == pre.entries()[k]
}

/// Removes every identifier of `owned` from the registry. Identifiers
/// already absent are no-ops; permuters of other connections are untouched.
pub fn deregister_all(reg: &mut Registry, owned: &Vec<u64>)
    requires
        old(reg).wf(),
    ensures
        final(reg).wf(),
        connection_deregistered(*old(reg), *final(reg), owned@),
{
    let mut i: usize = 0;
    while i < owned.len()
        invariant
            reg.wf(),
            i <= owned@.len(),
            reg.next_permuter_id == old(reg).next_permuter_id,
            forall|k: u64|
                reg.entries().contains_key(k) <==> (old(reg).entries().contains_key(k)
                    && !owned@.take(i as int).contains(k)),
            forall|k: u64|
                reg.entries().contains_key(k) ==> reg.entries()[k] == old(reg).entries()[k],
        decreases owned@.len() - i,
    {
        let id = owned[i];
        let ghost pre_entries = reg.entries();
        reg.remove(id);
        proof {
            let t0 = owned@.take(i as int);
            let t1 = owned@.take(i as int + 1);
            assert(t1 =~= t0.push(id));
            assert forall|k: u64|
                reg.entries().contains_key(k) <==> (old(reg).entries().contains_key(k)
                    && !t1.contains(k)) by {
                if k == id {
                    assert(t1[i as int] == id);
                    assert(t1.contains(k));
                    assert(!reg.entries().contains_key(k));
                } else {
                    assert(reg.entries().contains_key(k) == pre_entries.contains_key(k));
                    if t1.contains(k) {
                        let j = choose|j: int| 0 <= j < t1.len() && #[trigger] t1[j] == k;
                        assert(j < i);
                        assert(t0[j] == k);
                        assert(t0.contains(k));
                    }
                    if t0.contains(k) {
                        let j = choose|j: int| 0 <= j < t0.len() && #[trigger] t0[j] == k;
                        assert(t1[j] == k);
                        assert(t1.contains(k));
                    }
                }
            }
        }
        i += 1;
    }
    proof {
        assert(owned@.take(owned@.len() as int) =~= owned@);
    }
}

/// Ends a session: deregisters everything the connection registered —
/// whatever the two protocol halves' outcomes were — and then surfaces the
/// first error among them, the read half's taking precedence; both halves
/// ending cleanly is a clean shutdown. Cleanup is unconditional: it happens
/// on the success path and on every failure path alike.
pub fn finish_session(
    reg: &mut Registry,
    owned: &Vec<u64>,
    read_outcome: Result<(), SessionError>,
    write_outcome: Result<(), SessionError>,
) -> (r: Result<(), SessionError>)
    requires
        old(reg).wf(),
    ensures
        final(reg).wf(),
        connection_deregistered(*old(reg), *final(reg), owned@),
        read_outcome is Err ==> r == read_outcome,
        read_outcome is Ok && write_outcome is Err ==> r == write_outcome,
        read_outcome is Ok && write_outcome is Ok ==> r is Ok,
{
    deregister_all(reg, owned);
    match read_outcome {
        Err(e) => Err(e),
        Ok(()) => match write_outcome {
            Err(e) => Err(e),
            Ok(()) => Ok(()),
        },
    }
}

/// A terminated connection leaves no trace: if a session registered the
/// batch `subs` (receiving `ids`) and later — by any path: clean shutdown,
/// protocol error, or abrupt disconnect — deregistered those same
/// identifiers, the registry holds exactly the entries it held before the
/// session, unchanged; only the identifier counter has advanced.
pub proof fn lemma_session_leaves_no_trace(
    pre: Registry,
    mid: Registry,
    post: Registry,
    ids: Seq<u64>,
    subs: Seq<PermuterData>,
    p: Priority,
)
    requires
        pre.wf(),
        batch_registered(pre, mid, ids, subs, p),
        connection_deregistered(mid, post, ids),
    ensures
        forall|i: int| 0 <= i < ids.len() ==> !post.entries().contains_key(#[trigger] ids[i]),
        forall|k: u64| post.entries().contains_key(k) <==> pre.entries().contains_key(k),
        forall|k: u64|
            post.entries().contains_key(k) ==> post.entries()[k] == pre.entries()[k],
{
    let n = subs.len() as int;
    assert forall|k: u64|
        post.entries().contains_key(k) <==> pre.entries().contains_key(k) by {
        // mention each membership term so the quantified premises instantiate
        let pre_has = pre.entries().contains_key(k);
        let mid_has = mid.entries().contains_key(k);
        let post_has = post.entries().contains_key(k);
        let in_ids = ids.contains(k);
        assert(post.entries().contains_key(k) <==> (mid.entries().contains_key(k)
            && !ids.contains(k)));
        assert(mid.entries().contains_key(k) <==> (pre.entries().contains_key(k)
            || pre.next_permuter_id <= k < pre.next_permuter_id + n));
        if post.entries().contains_key(k) {
            assert(mid.entries().contains_key(k));
            assert(!ids.contains(k));
            if pre.next_permuter_id <= k < pre.next_permuter_id + n {
                assert(ids[k - pre.next_permuter_id] == k);
                assert(ids.contains(k));
            }
            assert(pre.entries().contains_key(k));
        }
        if pre.entries().contains_key(k) {
            assert(k < pre.next_permuter_id);
            assert(mid.entries().contains_key(k));
            if ids.contains(k) {
                let j = choose|j: int| 0 <= j < ids.len() && #[trigger] ids[j] == k;
                assert(k == pre.next_permuter_id + j);
                assert(false);
            }
            assert(post.entries().contains_key(k));
        }
    }
}

/// Identifiers issued by two registrations never coincide: a batch's
/// identifiers lie in the counter window it advanced over, and the counter
/// only moves forward, so the window of a batch registered later starts at
/// or beyond where an earlier batch's window ended. Serialized under the
/// registry's lock, any two concurrent registrations take one of the two
/// orders, so no two connections ever share an identifier.
pub proof fn lemma_issued_ids_unique(ids1: Seq<u64>, base1: int, ids2: Seq<u64>, base2: int)
    requires
        forall|i: int| 0 <= i < ids1.len() ==> ids1[i] == base1 + i,
        forall|i: int| 0 <= i < ids2.len() ==> ids2[i] == base2 + i,
        base1 + ids1.len() <= base2,
    ensures
        forall|i: int, j: int|
            0 <= i < ids1.len() && 0 <= j < ids2.len() ==> ids1[i] != ids2[j],
{
}

} // verus!

