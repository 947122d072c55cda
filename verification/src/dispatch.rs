use vstd::prelude::*;
use crate::error::HttpError;

verus! {

/// The phases of the threaded dispatch policy.
#[derive(Clone, Copy, PartialEq, Eq, Structural, Debug)]
pub enum DispatchPhase {
    /// Constructed; nothing pulled from the listener yet.
    Created,
    /// Pulling connections and spawning one worker per connection.
    Running,
    /// The incoming sequence ended; waiting for every tracked worker.
    Draining,
    /// Terminal: all workers finished, the listener's resources released.
    Stopped,
}

/// No worker id occurs twice in the live-set.
pub open spec fn distinct_ids(ids: Seq<u64>) -> bool {
    forall|i: int, j: int| 0 <= i < j < ids.len() ==> ids[i] != ids[j]
}

/// The live-set an uninterrupted run of `n` spawns leaves behind, handing out
/// ids counting up from `next`.
pub open spec fn spawn_workers(ids: Seq<u64>, next: u64, n: nat) -> Seq<u64>
    decreases n,
{
    if n == 0 {
        ids
    } else {
        spawn_workers(ids.push(next), ((next + 1) as u64), ((n - 1) as nat))
    }
}

/// Bookkeeping for thread-per-connection dispatch: each accepted connection
/// is exclusively owned by one spawned worker, and the live-set of worker
/// ids is the only state shared back — appended on spawn, removed on join.
/// The host owns the actual threads; this decides and tracks.
pub struct ThreadedDispatcher {
    phase: DispatchPhase,
    workers: Vec<u64>,
    next_worker: u64,
}

impl ThreadedDispatcher {
    /// The phase the dispatcher is in.
    pub closed spec fn spec_phase(self) -> DispatchPhase {
        self.phase
    }

    /// The ids of the workers that were spawned and not yet joined.
    pub closed spec fn spec_workers(self) -> Seq<u64> {
        self.workers@
    }

    /// The id the next spawned worker will get.
    pub closed spec fn spec_next_worker(self) -> u64 {
        self.next_worker
    }

    /// Live worker ids are distinct and all below the next id to hand out;
    /// before the first pull and after the drain barrier the live-set is
    /// empty.
    pub closed spec fn wf(self) -> bool {
        &&& forall|i: int| 0 <= i < self.workers@.len() ==> self.workers@[i] < self.next_worker
        &&& distinct_ids(self.workers@)
        &&& (self.phase == DispatchPhase::Created ==> self.workers@.len() == 0)
        &&& (self.phase == DispatchPhase::Stopped ==> self.workers@.len() == 0)
    }

    /// A fresh dispatcher: created, no workers, ids start at 0.
    pub fn new() -> (d: ThreadedDispatcher)
        ensures
            d.wf(),
            d.spec_phase() == DispatchPhase::Created,
            d.spec_workers().len() == 0,
            d.spec_next_worker() == 0,
    {
        ThreadedDispatcher { phase: DispatchPhase::Created, workers: Vec::new(), next_worker: 0 }
    }

    /// The phase the dispatcher is in.
    pub fn phase(&self) -> (p: DispatchPhase)
        ensures
            p == self.spec_phase(),
    {
        self.phase
    }

    /// How many workers are live.
    pub fn worker_count(&self) -> (n: usize)
        ensures
            n == self.spec_workers().len(),
    {
        self.workers.len()
    }

    /// The live worker ids, in spawn order.
    pub fn worker_ids(&self) -> (ids: &Vec<u64>)
        ensures
            ids@ == self.spec_workers(),
    {
        &self.workers
    }

    /// Begins pulling from the listener's incoming sequence.
    pub fn start(&mut self)
        requires
            old(self).wf(),
            old(self).spec_phase() == DispatchPhase::Created,
        ensures
            final(self).wf(),
            final(self).spec_phase() == DispatchPhase::Running,
            final(self).spec_workers() == old(self).spec_workers(),
            final(self).spec_next_worker() == old(self).spec_next_worker(),
    {
        self.phase = DispatchPhase::Running;
    }

    /// One successful pull from the incoming sequence: a worker is spawned
    /// for the new connection and tracked under a fresh id — one no live
    /// worker carries, so no two workers ever own the same connection.
    pub fn connection_accepted(&mut self) -> (id: u64)
        requires
            old(self).wf(),
            old(self).spec_phase() == DispatchPhase::Running,
            old(self).spec_next_worker() < u64::MAX,
        ensures
            final(self).wf(),
            final(self).spec_phase() == DispatchPhase::Running,
            id == old(self).spec_next_worker(),
            !old(self).spec_workers().contains(id),
            final(self).spec_workers() == old(self).spec_workers().push(id),
            final(self).spec_workers() == spawn_workers(
                old(self).spec_workers(),
                old(self).spec_next_worker(),
                1,
            ),
            final(self).spec_next_worker() == old(self).spec_next_worker() + 1,
    {
        let id = self.next_worker;
        self.workers.push(id);
        self.next_worker = self.next_worker + 1;
        proof {
            reveal_with_fuel(spawn_workers, 2);
        }
        id
    }

    /// A transient accept error while running: reported as `AcceptError`
    /// with the OS code, and nothing else — the loop and every live worker
    /// go on untouched, which taking the dispatcher read-only guarantees.
    pub fn accept_failed(&self, code: i32) -> (e: HttpError)
        requires
            self.spec_phase() == DispatchPhase::Running,
        ensures
            e == HttpError::AcceptError(code),
    {
        HttpError::AcceptError(code)
    }

    /// The incoming sequence itself ended (the listener was closed): stop
    /// pulling and start draining; every tracked worker stays tracked.
    pub fn incoming_ended(&mut self)
        requires
            old(self).wf(),
            old(self).spec_phase() == DispatchPhase::Running,
        ensures
            final(self).wf(),
            final(self).spec_phase() == DispatchPhase::Draining,
            final(self).spec_workers() == old(self).spec_workers(),
            final(self).spec_next_worker() == old(self).spec_next_worker(),
    {
        self.phase = DispatchPhase::Draining;
    }

    /// One tracked worker finished and was joined: it leaves the live-set,
    /// every other worker stays, in order. Reports whether the id was
    /// tracked at all.
    pub fn worker_finished(&mut self, id: u64) -> (found: bool)
        requires
            old(self).wf(),
            old(self).spec_phase() == DispatchPhase::Draining,
        ensures
            final(self).wf(),
            final(self).spec_phase() == DispatchPhase::Draining,
            final(self).spec_next_worker() == old(self).spec_next_worker(),
            found == old(self).spec_workers().contains(id),
            !found ==> final(self).spec_workers() == old(self).spec_workers(),
            found ==> exists|j: int|
                0 <= j < old(self).spec_workers().len() && old(self).spec_workers()[j] == id
                    && final(self).spec_workers() == old(self).spec_workers().remove(j),
            !final(self).spec_workers().contains(id),
    {
        match index_of(&self.workers, id) {
            Some(j) => {
                self.workers.remove(j);
                proof {
                    let before = old(self).spec_workers();
                    before.remove_ensures(j as int);
                    assert forall|k: int|
                        0 <= k < self.workers@.len() implies self.workers@[k] != id by {
                        if k >= j {
                            assert(self.workers@[k] == before[k + 1]);
                        }
                    }
                }
                true
            },
            None => false,
        }
    }

    /// The drain barrier is complete: every worker finished; terminal.
    pub fn finish(&mut self)
        requires
            old(self).wf(),
            old(self).spec_phase() == DispatchPhase::Draining,
            old(self).spec_workers().len() == 0,
        ensures
            final(self).wf(),
            final(self).spec_phase() == DispatchPhase::Stopped,
            final(self).spec_workers().len() == 0,
            final(self).spec_next_worker() == old(self).spec_next_worker(),
    {
        self.phase = DispatchPhase::Stopped;
    }

    /// Law (the live-set never lies): in every well-formed dispatcher the
    /// tracked worker ids are pairwise distinct — no two workers share a
    /// connection — and all lie below the next id to hand out.
    pub proof fn lemma_workers_distinct(self)
        requires
            self.wf(),
        ensures
            distinct_ids(self.spec_workers()),
            forall|i: int|
                0 <= i < self.spec_workers().len() ==> self.spec_workers()[i]
                    < self.spec_next_worker(),
    {
    }
}

/// Where `id` first occurs in the live-set, if it occurs at all.
fn index_of(ids: &Vec<u64>, id: u64) -> (r: Option<usize>)
    ensures
        r matches Some(j) ==> j < ids@.len() && ids@[j as int] == id && forall|k: int|
            0 <= k < j ==> ids@[k] != id,
        r is None ==> !ids@.contains(id),
{
    let n = ids.len();
    let mut i: usize = 0;
    while i < n
        invariant
            n == ids@.len(),
            i <= n,
            forall|k: int| 0 <= k < i ==> ids@[k] != id,
        decreases n - i,
    {
        if ids[i] == id {
            return Some(i);
        }
        i = i + 1;
    }
    None
}

/// Law (one worker per connection): `n` accepted connections in a row spawn
/// exactly `n` workers, and the live-set stays distinct — each handler
/// invocation owns its own connection. Holds for every starting live-set
/// whose ids lie below `next`.
pub proof fn lemma_spawn_workers(ids: Seq<u64>, next: u64, n: nat)
    requires
        forall|i: int| 0 <= i < ids.len() ==> ids[i] < next,
        distinct_ids(ids),
        next + n <= u64::MAX,
    ensures
        spawn_workers(ids, next, n).len() == ids.len() + n,
        distinct_ids(spawn_workers(ids, next, n)),
        forall|i: int| 0 <= i < spawn_workers(ids, next, n).len() ==> spawn_workers(ids, next, n)[i] < next + n,
    decreases n,
{
    if n > 0 {
        let pushed = ids.push(next);
        assert(forall|i: int| 0 <= i < pushed.len() ==> pushed[i] < next + 1);
        assert(distinct_ids(pushed)) by {
            assert forall|i: int, j: int| 0 <= i < j < pushed.len() implies pushed[i]
                != pushed[j] by {
                if j == pushed.len() - 1 {
                    assert(pushed[i] == ids[i]);
                    assert(pushed[j] == next);
                }
            }
        }
        lemma_spawn_workers(pushed, (next + 1) as u64, (n - 1) as nat);
    }
}

} // verus!
