//! Deterministic release of GPU object handles.
//!
//! Every object obtained from the graphics backend (an adapter, a device, a
//! queue, a buffer, ...) must be told to release itself against the instance
//! that created it, exactly once, when its owner is done with it.  An
//! [`AutoDropId`] pairs one raw handle with that obligation: it remembers the
//! owning instance, the kind of object, and whether the release has already
//! been requested.  The release itself is a backend call, so the tracker does
//! not perform it; it emits a [`ReleaseAction`] that the unverified boundary
//! carries out, and it refuses to emit the same action twice.

use vstd::prelude::*;

verus! {

/// The kind of GPU object a handle refers to.  Release is dispatched on this
/// tag: each kind has its own release operation at the backend.
#[derive(Clone, Copy, PartialEq, Eq, Structural, Debug)]
pub enum HandleKind {
    Adapter,
    Device,
    Queue,
    Surface,
    Buffer,
    Texture,
    TextureView,
    Sampler,
    BindGroup,
    BindGroupLayout,
    PipelineLayout,
    ShaderModule,
    RenderPipeline,
    CommandEncoder,
    CommandBuffer,
}

/// One release request handed to the unverified boundary: invoke the release
/// operation for `kind` on the raw handle `raw`, against the instance that
/// created it.
#[derive(Clone, Copy, PartialEq, Eq, Structural, Debug)]
pub struct ReleaseAction {
    pub instance: u64,
    pub kind: HandleKind,
    pub raw: u64,
}

/// The mathematical state of one handle wrapper.
pub struct HandleModel {
    pub instance: u64,
    pub kind: HandleKind,
    pub raw: u64,
    pub released: bool,
}

impl HandleModel {
    /// The release request this handle would emit.
    pub open spec fn action(self) -> ReleaseAction {
        ReleaseAction { instance: self.instance, kind: self.kind, raw: self.raw }
    }
}

/// What one release request does to a handle: the handle is marked released,
/// and the action is emitted only if the handle had not been released before.
pub open spec fn spec_release(h: HandleModel) -> (HandleModel, Option<ReleaseAction>) {
    (
        HandleModel { released: true, ..h },
        if h.released {
            None
        } else {
            Some(h.action())
        },
    )
}

/// Owns the obligation to release one GPU handle.  The `released` flag is
/// private: the only way to set it is [`AutoDropId::release`], which emits
/// the release action at most once over the wrapper's whole lifetime.
pub struct AutoDropId {
    instance: u64,
    kind: HandleKind,
    raw: u64,
    released: bool,
}

impl View for AutoDropId {
    type V = HandleModel;

    closed spec fn view(&self) -> HandleModel {
        HandleModel {
            instance: self.instance,
            kind: self.kind,
            raw: self.raw,
            released: self.released,
        }
    }
}

impl AutoDropId {
    /// Wrap a freshly created handle.  The handle is not validated; the
    /// wrapper only records the release obligation, which is still owed.
    pub fn new(instance: u64, kind: HandleKind, raw: u64) -> (h: Self)
        ensures
            h@ == (HandleModel { instance, kind, raw, released: false }),
    {
        AutoDropId { instance, kind, raw, released: false }
    }

    /// The raw handle, for recording backend commands that use it.
    pub fn raw(&self) -> (r: u64)
        ensures
            r == self@.raw,
    {
        self.raw
    }

    /// The kind of object this wrapper owns.
    pub fn kind(&self) -> (k: HandleKind)
        ensures
            k == self@.kind,
    {
        self.kind
    }

    /// Whether the release has already been requested.
    pub fn is_released(&self) -> (r: bool)
        ensures
            r == self@.released,
    {
        self.released
    }

    /// Request the release of the handle.  The first request emits the
    /// release action; every later request emits nothing.
    pub fn release(&mut self) -> (a: Option<ReleaseAction>)
        ensures
            final(self)@ == spec_release(old(self)@).0,
            a == spec_release(old(self)@).1,
    {
        if self.released {
            None
        } else {
            self.released = true;
            Some(ReleaseAction { instance: self.instance, kind: self.kind, raw: self.raw })
        }
    }
}

/// How many release actions fire over `n` successive release requests
/// starting from handle state `h`.
pub open spec fn releases_fired(h: HandleModel, n: nat) -> nat
    decreases n,
{
    if n == 0 {
        0
    } else {
        let (h1, a) = spec_release(h);
        (if a is Some {
            1nat
        } else {
            0nat
        }) + releases_fired(h1, (n - 1) as nat)
    }
}

/// Law: over any number of release requests, a wrapper whose release is
/// still owed fires the release action exactly once, and one whose handle
/// is already released never fires it again.  A wrapper starts with the
/// release owed ([`AutoDropId::new`]) and nothing but [`AutoDropId::release`]
/// emits an action, so no action fires before the owner lets go of the
/// wrapper.
pub proof fn lemma_release_fires_exactly_once(h: HandleModel, n: nat)
    requires
        n >= 1,
    ensures
        releases_fired(h, n) == if h.released {
            0int
        } else {
            1int
        },
    decreases n,
{
    let (h1, a) = spec_release(h);
    if n == 1 {
        assert(releases_fired(h1, 0) == 0);
    } else {
        lemma_release_fires_exactly_once(h1, (n - 1) as nat);
    }
}

} // verus!
