//! The capability traits of a wake-capable value.
//!
//! Every operation threads the [`World`] through, and each implementor
//! describes its own effect with spec functions: `wf` says when the value is
//! a well-formed resident of the world, the `*_pre` functions say when an
//! operation may run (typically counter headroom), and the `*_rel` functions
//! relate the world before and after.  The trait contracts then promise each
//! implementor's relation, so generic code - the erased handle above all -
//! passes exact effects through without knowing the concrete type.

use vstd::prelude::*;

use crate::world::World;

verus! {

/// A value whose copies and teardown are tracked in a [`World`].
///
/// This plays the role that `Clone` and `Drop` play for ordinary wakers:
/// `duplicate` is the explicit clone and `dispose` the explicit destructor,
/// made explicit so that owner counts and teardowns are provable effects
/// rather than silent ones.
pub trait Managed: Sized {
    /// The value is a well-formed resident of `w`.
    spec fn wf(self, w: World) -> bool;

    /// When a duplicate can be made.
    spec fn dup_pre(self, w: World) -> bool;

    /// How duplicating changes the world, and what the copy is.
    spec fn dup_rel(self, pre: World, post: World, out: Self) -> bool;

    /// How disposing changes the world.
    spec fn dispose_rel(self, pre: World, post: World) -> bool;

    /// Produce an independently owned copy of this value.
    fn duplicate(&self, w: &mut World) -> (out: Self)
        requires
            old(w).wf(),
            self.wf(*old(w)),
            self.dup_pre(*old(w)),
        ensures
            final(w).wf(),
            self.wf(*final(w)),
            out.wf(*final(w)),
            self.dup_rel(*old(w), *final(w), out),
    ;

    /// Consume this value without waking anyone, releasing whatever it owns.
    fn dispose(self, w: &mut World)
        requires
            old(w).wf(),
            self.wf(*old(w)),
        ensures
            final(w).wf(),
            self.dispose_rel(*old(w), *final(w)),
    ;
}

/// Wakers that can wake by reference, without being consumed.
///
/// The operation may be repeated on logically equivalent copies any number
/// of times, and it must leave the waker itself a well-formed resident of
/// the world - a handle survives every wake-by-reference delivered through
/// it.
pub trait WakeRef: Managed {
    /// When a wake by reference can be delivered.
    spec fn ref_wake_pre(self, w: World) -> bool;

    /// How one wake by reference changes the world.
    spec fn ref_wake_rel(self, pre: World, post: World) -> bool;

    /// Wake by reference.
    fn wake_by_ref(&self, w: &mut World)
        requires
            old(w).wf(),
            self.wf(*old(w)),
            self.ref_wake_pre(*old(w)),
        ensures
            final(w).wf(),
            self.wf(*final(w)),
            self.ref_wake_rel(*old(w), *final(w)),
    ;
}

/// Wakers that can wake by value, consuming themselves.
///
/// A consuming wake must never do less than a wake by reference followed by
/// a teardown of the waker itself.  An exclusive owner may do something more
/// specific - deliver a by-value notification to its target - but a shared
/// owner must keep the forwarding behaviour, because consuming one shared
/// handle says nothing about the other owners.
pub trait Wake: WakeRef {
    /// When a consuming wake can be delivered.
    spec fn value_wake_pre(self, w: World) -> bool;

    /// How one consuming wake changes the world.
    spec fn value_wake_rel(self, pre: World, post: World) -> bool;

    /// Wake by value, consuming the waker.
    fn wake(self, w: &mut World)
        requires
            old(w).wf(),
            self.wf(*old(w)),
            self.value_wake_pre(*old(w)),
        ensures
            final(w).wf(),
            self.value_wake_rel(*old(w), *final(w)),
    ;
}

/// Types that can be converted into a pointer-like raw form and back.
///
/// This is the caller-defined half of the erasure codec: each implementor
/// chooses its own `Raw` representation, typically a nullable machine word.
/// The two proof obligations are the laws that make erasure sound: a
/// round trip through the raw form loses nothing, and - since `raw_of` is a
/// function of the value - converting an unchanged value again yields the
/// same raw bit pattern, which is what lets two handles be compared for
/// "same notification target" by raw equality alone.
pub trait ViaRawPointer: Sized {
    /// The opaque representation; copying it is what a scheduler does when
    /// it passes a handle around.
    type Raw: Copy;

    /// The raw form of this value.
    spec fn raw_of(self) -> Self::Raw;

    /// The value a raw form stands for.
    spec fn value_of(r: Self::Raw) -> Self;

    /// The one raw form that stands for no value at all.
    spec fn null() -> Self::Raw;

    /// Round-trip law: unpacking a packed value yields the value back.
    proof fn lemma_raw_round_trip(self)
        ensures
            Self::value_of(self.raw_of()) == self,
    ;

    /// Convert this value into its raw form.
    fn into_raw(self) -> (r: Self::Raw)
        ensures
            r == self.raw_of(),
    ;

    /// Convert a raw form back into the value it stands for.  Call this only
    /// on raw forms obtained from `into_raw`; on the null raw form it returns
    /// a harmless placeholder value rather than anything that was packed.
    fn from_raw(r: Self::Raw) -> (v: Self)
        ensures
            v == Self::value_of(r),
    ;

    /// The null raw form.
    fn null_raw() -> (r: Self::Raw)
        ensures
            r == Self::null(),
    ;

    /// Compare two raw forms bit for bit.
    fn raw_eq(a: &Self::Raw, b: &Self::Raw) -> (eq: bool)
        ensures
            eq == (*a == *b),
    ;
}

/// Types whose packed raw form is never the null raw form.
///
/// The optional-value wrapper spends the null raw form on "empty", so only
/// types with this guarantee can sit inside an erasable `Option`.  Nesting
/// optionals would spend null twice - `Some(None)` and `None` would collide -
/// which is exactly why `Option<T>` itself never implements this trait.
pub trait NonNullRaw: ViaRawPointer {
    /// No value packs to the null raw form.
    proof fn lemma_raw_nonnull(self)
        ensures
            self.raw_of() != Self::null(),
    ;
}

} // verus!
