//! Asset handles: the opaque values the script holds while a resource
//! loads. A handle starts pending on its request identifier and is
//! promoted to the loaded resource at most once, by the first use that
//! finds the finished load in the ledger.
use vstd::prelude::*;
use crate::ledger::AssetLedger;
use crate::params::DrawParams;

verus! {

/// The state of one handle: still waiting on a request, or resolved.
#[derive(Clone, Copy, PartialEq, Debug)]
pub enum AssetState<T> {
    /// The load was requested under this identifier and has not been
    /// consumed by this handle yet.
    Loading(u64),
    /// The handle holds the loaded resource.
    Loaded(T),
}

/// A script-visible handle to one requested resource.
pub struct AssetHandle<T> {
    state: AssetState<T>,
}

/// What one use of a handle does, given its state and the table of
/// finished loads: a resolved handle hands out its resource and touches
/// nothing; a pending handle whose load has finished takes the entry
/// out of the table and resolves; a pending handle whose load has not
/// finished does nothing at all. The triple is (resource to use this
/// frame, state afterwards, table afterwards).
pub open spec fn use_step<T>(s: AssetState<T>, table: Map<u64, T>) -> (
    Option<T>,
    AssetState<T>,
    Map<u64, T>,
) {
    match s {
        AssetState::Loaded(res) => (Some(res), s, table),
        AssetState::Loading(id) => {
            if table.contains_key(id) {
                (Some(table[id]), AssetState::Loaded(table[id]), table.remove(id))
            } else {
                (None, s, table)
            }
        },
    }
}

impl<T> View for AssetHandle<T> {
    type V = AssetState<T>;

    closed spec fn view(&self) -> AssetState<T> {
        self.state
    }
}

impl<T: Copy> AssetHandle<T> {
    /// A fresh handle for the request `id`: always pending.
    pub fn new(id: u64) -> (h: Self)
        ensures
            h@ == AssetState::<T>::Loading(id),
    {
        AssetHandle { state: AssetState::Loading(id) }
    }

    /// What a load-request handler does: allocate the next identifier
    /// for `path`, queue the load, and hand the script a pending handle
    /// carrying that identifier.
    pub fn request(ledger: &mut AssetLedger<T>, path: String) -> (h: Self)
        requires
            old(ledger).wf(),
            old(ledger).spec_next_id() < u64::MAX,
        ensures
            final(ledger).wf(),
            AssetLedger::requested(
                *old(ledger),
                *final(ledger),
                path@,
                old(ledger).spec_next_id(),
            ),
            h@ == AssetState::<T>::Loading(old(ledger).spec_next_id()),
    {
        AssetHandle::new(ledger.request(path))
    }

    /// True exactly when the handle has been promoted to its resource.
    pub fn is_resolved(&self) -> (r: bool)
        ensures
            r <==> self@ is Loaded,
    {
        match self.state {
            AssetState::Loaded(_) => true,
            AssetState::Loading(_) => false,
        }
    }

    /// The request identifier the handle still waits on, if any.
    pub fn loading_id(&self) -> (r: Option<u64>)
        ensures
            match r {
                Some(id) => self@ == AssetState::<T>::Loading(id),
                None => self@ is Loaded,
            },
    {
        match self.state {
            AssetState::Loading(id) => Some(id),
            AssetState::Loaded(_) => None,
        }
    }

    /// Use the handle once: exactly `use_step` on the old state and the
    /// old table of finished loads. `Some` is the resource the caller
    /// should act with this frame; `None` means the load has not
    /// finished and nothing happens this frame. The request queue and
    /// the identifier counter are never touched.
    pub fn use_resource(&mut self, ledger: &mut AssetLedger<T>) -> (r: Option<T>)
        requires
            old(ledger).wf(),
        ensures
            final(ledger).wf(),
            final(ledger).spec_next_id() == old(ledger).spec_next_id(),
            final(ledger).pending() == old(ledger).pending(),
            ({
                let step = use_step(old(self)@, old(ledger).completed());
                &&& r == step.0
                &&& final(self)@ == step.1
                &&& final(ledger).completed() == step.2
            }),
    {
        match self.state {
            AssetState::Loaded(res) => Some(res),
            AssetState::Loading(id) => {
                match ledger.try_resolve(id) {
                    Some(res) => {
                        self.state = AssetState::Loaded(res);
                        Some(res)
                    },
                    None => {
                        proof {
                            assert(ledger.completed() =~= old(ledger).completed());
                        }
                        None
                    },
                }
            },
        }
    }
}

/// A texture handle as the script holds it: the asset handle together
/// with the drawing parameters every draw of this texture uses.
pub struct TextureSlot<T> {
    asset: AssetHandle<T>,
    params: DrawParams,
}

impl<T: Copy> TextureSlot<T> {
    /// The drawing parameters currently stored.
    pub closed spec fn spec_params(self) -> DrawParams {
        self.params
    }

    /// The state of the underlying asset handle.
    pub closed spec fn spec_asset(self) -> AssetState<T> {
        self.asset@
    }

    /// A fresh slot for the request `id`, with nothing-set parameters.
    pub fn new(id: u64) -> (t: Self)
        ensures
            t.spec_asset() == AssetState::<T>::Loading(id),
            t.spec_params() == DrawParams::spec_default(),
    {
        TextureSlot { asset: AssetHandle::new(id), params: DrawParams::default() }
    }

    /// A fresh slot for the request `id` with the given parameters.
    pub fn with_params(id: u64, params: DrawParams) -> (t: Self)
        ensures
            t.spec_asset() == AssetState::<T>::Loading(id),
            t.spec_params() == params,
    {
        TextureSlot { asset: AssetHandle::new(id), params }
    }

    /// What a texture-load handler does: allocate the next identifier
    /// for `path`, queue the load, and hand the script a pending slot
    /// that will draw with the given parameters.
    pub fn request(ledger: &mut AssetLedger<T>, path: String, params: DrawParams) -> (t: Self)
        requires
            old(ledger).wf(),
            old(ledger).spec_next_id() < u64::MAX,
        ensures
            final(ledger).wf(),
            AssetLedger::requested(
                *old(ledger),
                *final(ledger),
                path@,
                old(ledger).spec_next_id(),
            ),
            t.spec_asset() == AssetState::<T>::Loading(old(ledger).spec_next_id()),
            t.spec_params() == params,
    {
        TextureSlot { asset: AssetHandle::request(ledger, path), params }
    }

    /// Replace the stored drawing parameters; the asset is untouched.
    pub fn set_params(&mut self, params: DrawParams)
        ensures
            final(self).spec_params() == params,
            final(self).spec_asset() == old(self).spec_asset(),
    {
        self.params = params;
    }

    /// The stored drawing parameters.
    pub fn current_params(&self) -> (p: DrawParams)
        ensures
            p == self.spec_params(),
    {
        self.params
    }

    /// True exactly when the underlying handle has been promoted.
    pub fn is_resolved(&self) -> (r: bool)
        ensures
            r <==> self.spec_asset() is Loaded,
    {
        self.asset.is_resolved()
    }

    /// Use the texture once: one `use_step` of the underlying handle,
    /// paired with the stored parameters when there is something to
    /// draw this frame. The parameters never change here.
    pub fn draw_with(&mut self, ledger: &mut AssetLedger<T>) -> (r: Option<(T, DrawParams)>)
        requires
            old(ledger).wf(),
        ensures
            final(ledger).wf(),
            final(ledger).spec_next_id() == old(ledger).spec_next_id(),
            final(ledger).pending() == old(ledger).pending(),
            final(self).spec_params() == old(self).spec_params(),
            ({
                let step = use_step(old(self).spec_asset(), old(ledger).completed());
                &&& r == (match step.0 {
                    Some(res) => Some((res, old(self).spec_params())),
                    None => None::<(T, DrawParams)>,
                })
                &&& final(self).spec_asset() == step.1
                &&& final(ledger).completed() == step.2
            }),
    {
        match self.asset.use_resource(ledger) {
            Some(res) => Some((res, self.params)),
            None => None,
        }
    }
}

} // verus!
