//! The erased handle and its four dispatch operations.
//!
//! A [`Waker`] is the pair a scheduler receives: the packed raw form of a
//! wake-capable value, plus - through the monomorphised trait impls below -
//! the four operations bound statically to the packed type.  The scheduler
//! drives the handle only through duplicate (clone), wake, wake-by-ref and
//! dispose (destroy); it never sees the packed value itself.
//!
//! Every operation reconstructs the value from the raw form, acts on it,
//! and for the borrowing operations discards the reconstruction without
//! releasing anything, so the raw bit pattern the handle stores is never
//! touched.  The proved round-trip law of [`ViaRawPointer`] is what makes
//! the reconstruction faithful.

use vstd::prelude::*;

use crate::handles::lemma_strong_raw_identity;
use crate::handles::Strong;
use crate::traits::Managed;
use crate::traits::ViaRawPointer;
use crate::traits::Wake;
use crate::traits::WakeRef;
use crate::world::World;

verus! {

/// A type-erased wake handle: an opaque raw form bound to the dispatch
/// operations of the type that was packed into it.
pub struct Waker<W: ViaRawPointer> {
    raw: W::Raw,
    packed: Ghost<W>,
}

impl<W: ViaRawPointer> Waker<W> {
    /// The wake-capable value this handle carries.
    pub closed spec fn model(self) -> W {
        self.packed@
    }

    /// The raw bit pattern this handle stores.
    pub closed spec fn raw_id(self) -> W::Raw {
        self.raw
    }

    /// The handle's one invariant: the stored raw form is exactly the
    /// packed value's raw form.
    pub open spec fn inv(self) -> bool {
        self.raw_id() == self.model().raw_of()
    }

    /// Scheduler-level "same notification target" test: compare the raw bit
    /// patterns of two handles.
    pub fn will_wake(&self, other: &Waker<W>) -> (same: bool)
        ensures
            same == (self.raw_id() == other.raw_id()),
    {
        W::raw_eq(&self.raw, &other.raw)
    }
}

/// Wake-capable values that can be converted into an erased [`Waker`].
///
/// This is the only sanctioned way to produce an erased handle, and for a
/// given type every handle it produces is driven by the same four
/// operations, so raw-form equality between two handles of the same packed
/// type is a meaningful "same target" comparison.
pub trait IntoWaker: Wake + ViaRawPointer {
    /// Pack this value into an erased handle that owns it.
    #[must_use]
    fn into_waker(self) -> (h: Waker<Self>)
        ensures
            h.inv(),
            h.model() == self,
    ;
}

impl<T: Wake + ViaRawPointer> IntoWaker for T {
    fn into_waker(self) -> (h: Waker<T>) {
        let ghost packed = self;
        let raw = self.into_raw();
        Waker { raw, packed: Ghost(packed) }
    }
}

impl<W: Wake + ViaRawPointer> Managed for Waker<W> {
    open spec fn wf(self, w: World) -> bool {
        &&& self.inv()
        &&& self.model().wf(w)
    }

    open spec fn dup_pre(self, w: World) -> bool {
        self.model().dup_pre(w)
    }

    /// Cloning an erased handle duplicates the packed value and packs the
    /// duplicate into a fresh, independently owned handle.
    open spec fn dup_rel(self, pre: World, post: World, out: Self) -> bool {
        &&& out.inv()
        &&& self.model().dup_rel(pre, post, out.model())
    }

    /// Dropping an erased handle is the destroy operation: the packed value
    /// is consumed and torn down without waking anyone.
    open spec fn dispose_rel(self, pre: World, post: World) -> bool {
        self.model().dispose_rel(pre, post)
    }

    fn duplicate(&self, w: &mut World) -> (out: Self) {
        let borrowed = W::from_raw(self.raw);
        proof {
            self.model().lemma_raw_round_trip();
        }
        let copy = borrowed.duplicate(w);
        let ghost packed = copy;
        let raw = copy.into_raw();
        Waker { raw, packed: Ghost(packed) }
    }

    fn dispose(self, w: &mut World) {
        let unpacked = W::from_raw(self.raw);
        proof {
            self.model().lemma_raw_round_trip();
        }
        unpacked.dispose(w);
    }
}

impl<W: Wake + ViaRawPointer> WakeRef for Waker<W> {
    open spec fn ref_wake_pre(self, w: World) -> bool {
        self.model().ref_wake_pre(w)
    }

    open spec fn ref_wake_rel(self, pre: World, post: World) -> bool {
        self.model().ref_wake_rel(pre, post)
    }

    /// Wake by reference through the erased handle: reconstruct the packed
    /// value, wake it, and discard the reconstruction without releasing
    /// anything.  The handle's raw bit pattern is untouched, so the handle
    /// stays valid and owned - even a wake whose effect was not the intended
    /// one leaves it ready to be woken again or dropped.
    fn wake_by_ref(&self, w: &mut World) {
        let borrowed = W::from_raw(self.raw);
        proof {
            self.model().lemma_raw_round_trip();
        }
        borrowed.wake_by_ref(w);
    }
}

impl<W: Wake + ViaRawPointer> Wake for Waker<W> {
    open spec fn value_wake_pre(self, w: World) -> bool {
        self.model().value_wake_pre(w)
    }

    open spec fn value_wake_rel(self, pre: World, post: World) -> bool {
        self.model().value_wake_rel(pre, post)
    }

    /// Consuming wake through the erased handle: the packed value is fully
    /// unpacked, woken by value, and its teardown runs.
    fn wake(self, w: &mut World) {
        let unpacked = W::from_raw(self.raw);
        proof {
            self.model().lemma_raw_round_trip();
        }
        unpacked.wake(w);
    }
}

/// Round-trip law of the erasure codec: unpacking a packed value yields a
/// value observably equal to the original, for every wake-capable value.
pub proof fn lemma_codec_round_trip<T: ViaRawPointer>(v: T)
    ensures
        T::value_of(v.raw_of()) == v,
{
    v.lemma_raw_round_trip();
}

/// Pointer-identity law for shared-handle-backed wakers: two erased
/// handles carry the same raw bit pattern exactly when they denote the
/// same underlying notification target.  It holds because the codec's
/// raw form is a stable function of the packed handle, proved by the
/// round-trip law, and injective on target identity for strong handles.
pub proof fn lemma_pointer_identity(a: Waker<Strong>, b: Waker<Strong>)
    requires
        a.inv(),
        b.inv(),
    ensures
        (a.raw_id() == b.raw_id()) <==> (a.model().target() == b.model().target()),
{
    lemma_strong_raw_identity(a.model(), b.model());
}

/// Cloning a shared-handle-backed waker preserves the raw bit pattern:
/// the clone and the original compare as "same target" under the
/// scheduler-level raw-identity test.
pub proof fn lemma_clone_preserves_identity(
    h: Waker<Strong>,
    c: Waker<Strong>,
    pre: World,
    post: World,
)
    requires
        h.inv(),
        h.dup_rel(pre, post, c),
    ensures
        c.raw_id() == h.raw_id(),
{
    lemma_strong_raw_identity(h.model(), c.model());
}

} // verus!
