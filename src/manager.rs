use vstd::prelude::*;

use crate::mesh::MeshReference;
use std::collections::HashMap;

verus! {

broadcast use vstd::std_specs::hash::group_hash_axioms;

/// What a worker finds when it checks a job's cancellation channel once,
/// without blocking.
#[derive(Clone, Copy, Debug, PartialEq, Eq, Structural)]
pub enum CancelSignal {
    /// A value was waiting; `true` asks for the job to be dropped.
    Received(bool),
    /// Nothing was sent yet.
    Empty,
    /// The sending side is gone.
    Disconnected,
}

/// Whether a worker runs a job after checking its cancellation channel: it
/// skips the job on a cancellation request or a closed channel.
pub open spec fn runs_job(signal: CancelSignal) -> bool {
    match signal {
        CancelSignal::Received(cancel) => !cancel,
        CancelSignal::Empty => true,
        CancelSignal::Disconnected => false,
    }
}

/// Decides whether a dequeued job is executed. A job whose cancellation was
/// signalled before this check never yields a mesh.
pub fn should_execute(signal: CancelSignal) -> (r: bool)
    ensures
        r == runs_job(signal),
        signal == CancelSignal::Received(true) ==> !r,
{
    match signal {
        CancelSignal::Received(true) => false,
        CancelSignal::Disconnected => false,
        _ => true,
    }
}

/// The bookkeeping of the chunk pipeline: the next job id, and for each job
/// in flight the entry (placement, cancellation handle) recorded at dispatch.
pub struct ChunkManager<T> {
    current_idx: u32,
    pending: HashMap<u32, T>,
}

/// The pending entries after dispatching `entries` in order, starting from
/// id `next`.
pub open spec fn pending_after<T>(next: int, pending: Map<u32, T>, entries: Seq<T>) -> Map<u32, T>
    decreases entries.len(),
{
    if entries.len() == 0 {
        pending
    } else {
        pending_after(next, pending, entries.drop_last()).insert(
            (next + entries.len() - 1) as u32,
            entries.last(),
        )
    }
}

impl<T> ChunkManager<T> {
    /// The id that the next dispatch hands out.
    pub closed spec fn next_id(&self) -> nat {
        self.current_idx as nat
    }

    /// The jobs in flight, by id.
    pub closed spec fn pending(&self) -> Map<u32, T> {
        self.pending@
    }

    /// Ids start at 1, and every pending id was handed out already.
    pub open spec fn wf(&self) -> bool {
        &&& 1 <= self.next_id()
        &&& forall|id: u32| #[trigger] self.pending().contains_key(id) ==> 1 <= id < self.next_id()
    }

    /// A manager with nothing in flight, whose first id is 1.
    pub fn new() -> (r: ChunkManager<T>)
        ensures
            r.wf(),
            r.next_id() == 1,
            r.pending() == Map::<u32, T>::empty(),
    {
        let r = ChunkManager { current_idx: 1, pending: HashMap::new() };
        assert(r.pending() =~= Map::<u32, T>::empty());
        r
    }

    /// Records `entry` as the pending entry of a new job and returns the job's
    /// id: the next unused id, one above every id handed out before.
    pub fn dispatch(&mut self, entry: T) -> (id: u32)
        requires
            old(self).wf(),
            old(self).next_id() < u32::MAX,
        ensures
            final(self).wf(),
            id == old(self).next_id(),
            final(self).next_id() == old(self).next_id() + 1,
            !old(self).pending().contains_key(id),
            final(self).pending() == old(self).pending().insert(id, entry),
    {
        let id = self.current_idx;
        self.pending.insert(id, entry);
        self.current_idx = id + 1;
        assert forall|k: u32| #[trigger] self.pending().contains_key(k) implies 1 <= k < self.next_id() by {
            if k != id {
                assert(old(self).pending().contains_key(k));
            }
        }
        id
    }

    /// The id that the next dispatch hands out.
    pub fn current_idx(&self) -> (r: u32)
        ensures
            r == self.next_id(),
    {
        self.current_idx
    }

    /// Whether job `id` is in flight.
    pub fn is_pending(&self, id: u32) -> (r: bool)
        ensures
            r == self.pending().contains_key(id),
    {
        self.pending.contains_key(&id)
    }

    /// The pending entry of job `id`, if it is in flight.
    pub fn pending_entry(&self, id: u32) -> (r: Option<&T>)
        ensures
            match r {
                Some(e) => self.pending().contains_key(id) && *e == self.pending()[id],
                None => !self.pending().contains_key(id),
            },
    {
        self.pending.get(&id)
    }

    /// Handles the outcome of one poll of the result channel. On a finished
    /// mesh, removes the job's pending entry and returns it with the mesh, to
    /// be placed in the world; on nothing, changes nothing.
    pub fn update(&mut self, received: Option<MeshReference>) -> (r: Option<(T, MeshReference)>)
        requires
            old(self).wf(),
            match received {
                Some(m) => old(self).pending().contains_key(m.idx),
                None => true,
            },
        ensures
            final(self).wf(),
            final(self).next_id() == old(self).next_id(),
            final(self).pending().dom().subset_of(old(self).pending().dom()),
            final(self).pending().len() + 1 >= old(self).pending().len(),
            match received {
                Some(m) => {
                    &&& final(self).pending() == old(self).pending().remove(m.idx)
                    &&& r == Some((old(self).pending()[m.idx], m))
                },
                None => {
                    &&& final(self).pending() == old(self).pending()
                    &&& r is None
                },
            },
    {
        match received {
            Some(chunk) => {
                let entry = self.pending.remove(&chunk.idx);
                proof {
                    old(self).pending@.lemma_remove_key_len(chunk.idx);
                }
                match entry {
                    Some(e) => Some((e, chunk)),
                    None => None,
                }
            },
            None => None,
        }
    }
}

/// The id that the `i`-th of a run of dispatches starting at `next` hands out.
pub open spec fn dispatched_id(next: int, i: int) -> u32 {
    (next + i) as u32
}

/// Dispatching jobs one after another hands out consecutive, strictly
/// increasing ids that were not pending before; afterwards each of them is
/// pending exactly once, with the entry it was dispatched with.
pub proof fn lemma_dispatch_ids_unique<T>(next: int, pending: Map<u32, T>, entries: Seq<T>)
    requires
        1 <= next,
        next + entries.len() <= u32::MAX,
        forall|id: u32| #[trigger] pending.contains_key(id) ==> 1 <= id < next,
    ensures
        forall|i: int, j: int|
            0 <= i < j < entries.len() ==> #[trigger] dispatched_id(next, i) < #[trigger] dispatched_id(
                next,
                j,
            ),
        forall|i: int|
            0 <= i < entries.len() ==> !pending.contains_key(#[trigger] ((next + i) as u32)),
        forall|i: int|
            0 <= i < entries.len() ==> #[trigger] pending_after(next, pending, entries).contains_key(
                (next + i) as u32,
            ) && pending_after(next, pending, entries)[(next + i) as u32] == entries[i],
        forall|id: u32| #[trigger]
            pending_after(next, pending, entries).contains_key(id) ==> 1 <= id < next
                + entries.len(),
    decreases entries.len(),
{
    if entries.len() > 0 {
        let prev = entries.drop_last();
        lemma_dispatch_ids_unique(next, pending, prev);
        let n = entries.len();
        assert forall|i: int| 0 <= i < n implies #[trigger] pending_after(
            next,
            pending,
            entries,
        ).contains_key((next + i) as u32) && pending_after(next, pending, entries)[(next + i) as u32]
            == entries[i] by {
            if i < n - 1 {
                assert(pending_after(next, pending, prev).contains_key((next + i) as u32));
                assert(prev[i] == entries[i]);
            }
        }
        assert forall|id: u32| #[trigger]
            pending_after(next, pending, entries).contains_key(id) implies 1 <= id < next + n by {
            if id != (next + n - 1) as u32 {
                assert(pending_after(next, pending, prev).contains_key(id));
            }
        }
    }
}

} // verus!
