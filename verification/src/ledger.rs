//! The asset request ledger: one per asset kind. It hands out
//! monotonically increasing request identifiers, queues the paths that
//! still await an asynchronous load, and stores finished loads until
//! the first handle use consumes them.
use vstd::prelude::*;
use std::collections::HashMap;

verus! {

broadcast use vstd::std_specs::hash::group_hash_axioms;

/// The ledger for one asset kind. `T` is the loaded resource.
///
/// Requests made by the script are appended to `to_load`; the frame
/// loop empties that queue, performs each load, and records the result
/// under its identifier; the first use of a handle removes the record.
pub struct AssetLedger<T> {
    to_load: Vec<(u64, String)>,
    next_request_id: u64,
    loaded_asset: HashMap<u64, T>,
}

impl<T> AssetLedger<T> {
    /// The identifier the next request will receive.
    pub closed spec fn spec_next_id(self) -> u64 {
        self.next_request_id
    }

    /// The queue of loads not yet performed, oldest first.
    pub closed spec fn pending(self) -> Seq<(u64, Seq<char>)> {
        self.to_load@.map(|i: int, p: (u64, String)| (p.0, p.1@))
    }

    /// The finished loads not yet consumed by a handle.
    pub closed spec fn completed(self) -> Map<u64, T> {
        self.loaded_asset@
    }

    /// Identifiers are allocated once and never reused: every queued or
    /// recorded identifier lies below the next one to be handed out,
    /// and no identifier is queued twice.
    pub closed spec fn wf(self) -> bool {
        &&& forall|i: int, j: int|
            0 <= i < j < self.to_load@.len() ==> (#[trigger] self.to_load@[i]).0 != (
            #[trigger] self.to_load@[j]).0
        &&& forall|i: int|
            0 <= i < self.to_load@.len() ==> (#[trigger] self.to_load@[i]).0
                < self.next_request_id
        &&& forall|id: u64|
            self.loaded_asset@.contains_key(id) ==> id < self.next_request_id
        &&& forall|i: int|
            0 <= i < self.to_load@.len() ==> !self.loaded_asset@.contains_key(
                (#[trigger] self.to_load@[i]).0,
            )
    }

    /// An empty ledger: no requests made, nothing queued, nothing loaded.
    pub fn new() -> (l: Self)
        ensures
            l.wf(),
            l.spec_next_id() == 0,
            l.pending() == Seq::<(u64, Seq<char>)>::empty(),
            l.completed() == Map::<u64, T>::empty(),
    {
        let l = AssetLedger { to_load: Vec::new(), next_request_id: 0, loaded_asset: HashMap::new() };
        proof {
            assert(l.pending() =~= Seq::<(u64, Seq<char>)>::empty());
        }
        l
    }

    /// Relates a ledger before and after one `request` for `path` that
    /// returned `id`: the identifier is the next one, the counter moved
    /// up by exactly one, the pair was appended to the queue, and the
    /// finished loads are untouched.
    pub open spec fn requested(pre: Self, post: Self, path: Seq<char>, id: u64) -> bool {
        &&& id == pre.spec_next_id()
        &&& post.spec_next_id() == pre.spec_next_id() + 1
        &&& post.pending() == pre.pending().push((id, path))
        &&& post.completed() == pre.completed()
    }

    /// Allocate the next identifier, queue `(identifier, path)` for
    /// loading, and return the identifier.
    pub fn request(&mut self, path: String) -> (id: u64)
        requires
            old(self).wf(),
            old(self).spec_next_id() < u64::MAX,
        ensures
            final(self).wf(),
            Self::requested(*old(self), *final(self), path@, id),
    {
        let id = self.next_request_id;
        self.next_request_id = id + 1;
        self.to_load.push((id, path));
        proof {
            assert(self.pending() =~= old(self).pending().push((id, path@)));
        }
        id
    }

    /// Remove one queued request, newest first, and hand it to the
    /// caller so the host can perform the load. Returns `None` when the
    /// queue is empty. The identifier that comes out is no longer
    /// queued and has no finished load recorded yet.
    pub fn pop_pending(&mut self) -> (r: Option<(u64, String)>)
        requires
            old(self).wf(),
        ensures
            final(self).wf(),
            final(self).spec_next_id() == old(self).spec_next_id(),
            final(self).completed() == old(self).completed(),
            match r {
                None => old(self).pending().len() == 0
                    && final(self).pending() == old(self).pending(),
                Some(p) => {
                    &&& old(self).pending().len() > 0
                    &&& (p.0, p.1@) == old(self).pending().last()
                    &&& final(self).pending() == old(self).pending().drop_last()
                    &&& !final(self).completed().contains_key(p.0)
                    &&& forall|i: int|
                        0 <= i < final(self).pending().len()
                            ==> (#[trigger] final(self).pending()[i]).0 != p.0
                },
            },
    {
        let r = self.to_load.pop();
        match r {
            None => {
                proof {
                    assert(self.pending() =~= old(self).pending());
                }
                None
            },
            Some(p) => {
                proof {
                    assert(self.pending() =~= old(self).pending().drop_last());
                    assert(forall|i: int|
                        0 <= i < self.pending().len() ==> (#[trigger] self.pending()[i]).0 == (
                        old(self).to_load@[i]).0);
                }
                Some(p)
            },
        }
    }

    /// How many identifiers this ledger has handed out so far; the next
    /// request receives exactly this number.
    pub fn requests_made(&self) -> (n: u64)
        ensures
            n == self.spec_next_id(),
    {
        self.next_request_id
    }

    /// True exactly when `id` has been handed out by `request` already.
    pub fn id_issued(&self, id: u64) -> (r: bool)
        ensures
            r <==> id < self.spec_next_id(),
    {
        id < self.next_request_id
    }

    /// True exactly when `id` still sits in the queue of loads to
    /// perform. An unverified caller checks this before `finish_load`.
    pub fn is_queued(&self, id: u64) -> (r: bool)
        ensures
            r <==> exists|i: int|
                0 <= i < self.pending().len() && (#[trigger] self.pending()[i]).0 == id,
    {
        let mut i: usize = 0;
        while i < self.to_load.len()
            invariant
                0 <= i <= self.to_load@.len(),
                forall|j: int| 0 <= j < i ==> (#[trigger] self.pending()[j]).0 != id,
            decreases self.to_load@.len() - i,
        {
            if self.to_load[i].0 == id {
                proof {
                    assert((self.pending()[i as int]).0 == id);
                }
                return true;
            }
            i = i + 1;
        }
        false
    }

    /// Record the finished load of request `id`. The resource sits in
    /// the table until the first use of a handle carrying `id` consumes
    /// it.
    pub fn finish_load(&mut self, id: u64, resource: T)
        requires
            old(self).wf(),
            id < old(self).spec_next_id(),
            forall|i: int|
                0 <= i < old(self).pending().len() ==> (#[trigger] old(self).pending()[i]).0
                    != id,
        ensures
            final(self).wf(),
            final(self).spec_next_id() == old(self).spec_next_id(),
            final(self).pending() == old(self).pending(),
            final(self).completed() == old(self).completed().insert(id, resource),
    {
        self.loaded_asset.insert(id, resource);
        proof {
            assert(self.pending() =~= old(self).pending());
            assert forall|i: int| 0 <= i < self.to_load@.len() implies !self.loaded_asset@.contains_key(
                (#[trigger] self.to_load@[i]).0,
            ) by {
                assert((old(self).pending()[i]).0 == self.to_load@[i].0);
            }
        }
    }

    /// Remove and return the finished load for `id`, if one is
    /// recorded: `Some` exactly when the table holds `id`, and the
    /// entry is gone afterwards.
    pub fn try_resolve(&mut self, id: u64) -> (r: Option<T>)
        requires
            old(self).wf(),
        ensures
            final(self).wf(),
            final(self).spec_next_id() == old(self).spec_next_id(),
            final(self).pending() == old(self).pending(),
            final(self).completed() == old(self).completed().remove(id),
            match r {
                Some(res) => old(self).completed().contains_key(id)
                    && res == old(self).completed()[id],
                None => !old(self).completed().contains_key(id),
            },
    {
        let r = self.loaded_asset.remove(&id);
        proof {
            assert(self.pending() =~= old(self).pending());
            if !old(self).completed().contains_key(id) {
                assert(self.completed() =~= old(self).completed().remove(id));
            }
        }
        r
    }

    /// How many queued requests await their load.
    pub fn pending_len(&self) -> (n: usize)
        ensures
            n == self.pending().len(),
    {
        self.to_load.len()
    }
}

impl<T> Default for AssetLedger<T> {
    /// The same empty ledger that `new` builds.
    fn default() -> (l: Self)
        ensures
            l.wf(),
            l.spec_next_id() == 0,
            l.pending() == Seq::<(u64, Seq<char>)>::empty(),
            l.completed() == Map::<u64, T>::empty(),
    {
        Self::new()
    }
}

} // verus!
