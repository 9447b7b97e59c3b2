//! The optional-value wrapper.
//!
//! An `Option` of a wake-capable value is itself wake-capable: an empty
//! optional no-ops on every operation, a full one forwards each operation
//! to its content.  For the erasure codec, the empty case is encoded as the
//! inner type's null raw form - which is why the inner type must promise
//! [`NonNullRaw`], and why `Option<T>` itself never makes that promise:
//! nesting optionals would make `Some(None)` and `None` collide on null.

use vstd::prelude::*;

use crate::traits::Managed;
use crate::traits::NonNullRaw;
use crate::traits::ViaRawPointer;
use crate::traits::Wake;
use crate::traits::WakeRef;
use crate::world::World;

verus! {

impl<T: Managed> Managed for Option<T> {
    open spec fn wf(self, w: World) -> bool {
        match self {
            Some(v) => v.wf(w),
            None => true,
        }
    }

    open spec fn dup_pre(self, w: World) -> bool {
        match self {
            Some(v) => v.dup_pre(w),
            None => true,
        }
    }

    open spec fn dup_rel(self, pre: World, post: World, out: Self) -> bool {
        match self {
            Some(v) => out matches Some(o) && v.dup_rel(pre, post, o),
            None => post@ == pre@ && out is None,
        }
    }

    open spec fn dispose_rel(self, pre: World, post: World) -> bool {
        match self {
            Some(v) => v.dispose_rel(pre, post),
            None => post@ == pre@,
        }
    }

    fn duplicate(&self, w: &mut World) -> (out: Self) {
        match self {
            Some(v) => Some(v.duplicate(w)),
            None => None,
        }
    }

    fn dispose(self, w: &mut World) {
        match self {
            Some(v) => v.dispose(w),
            None => {},
        }
    }
}

impl<T: WakeRef> WakeRef for Option<T> {
    open spec fn ref_wake_pre(self, w: World) -> bool {
        match self {
            Some(v) => v.ref_wake_pre(w),
            None => true,
        }
    }

    open spec fn ref_wake_rel(self, pre: World, post: World) -> bool {
        match self {
            Some(v) => v.ref_wake_rel(pre, post),
            None => post@ == pre@,
        }
    }

    fn wake_by_ref(&self, w: &mut World) {
        match self {
            Some(v) => v.wake_by_ref(w),
            None => {},
        }
    }
}

impl<T: Wake> Wake for Option<T> {
    open spec fn value_wake_pre(self, w: World) -> bool {
        match self {
            Some(v) => v.value_wake_pre(w),
            None => true,
        }
    }

    open spec fn value_wake_rel(self, pre: World, post: World) -> bool {
        match self {
            Some(v) => v.value_wake_rel(pre, post),
            None => post@ == pre@,
        }
    }

    fn wake(self, w: &mut World) {
        match self {
            Some(v) => v.wake(w),
            None => {},
        }
    }
}

impl<T: NonNullRaw> ViaRawPointer for Option<T> {
    type Raw = T::Raw;

    open spec fn raw_of(self) -> T::Raw {
        match self {
            Some(v) => v.raw_of(),
            None => T::null(),
        }
    }

    open spec fn value_of(r: T::Raw) -> Option<T> {
        if r == T::null() {
            None
        } else {
            Some(T::value_of(r))
        }
    }

    open spec fn null() -> T::Raw {
        T::null()
    }

    proof fn lemma_raw_round_trip(self) {
        match self {
            Some(v) => {
                v.lemma_raw_nonnull();
                v.lemma_raw_round_trip();
            },
            None => {},
        }
    }

    fn into_raw(self) -> (r: T::Raw) {
        match self {
            Some(v) => v.into_raw(),
            None => T::null_raw(),
        }
    }

    fn from_raw(r: T::Raw) -> (v: Option<T>) {
        let null = T::null_raw();
        if T::raw_eq(&r, &null) {
            None
        } else {
            Some(T::from_raw(r))
        }
    }

    fn null_raw() -> (r: T::Raw) {
        T::null_raw()
    }

    fn raw_eq(a: &T::Raw, b: &T::Raw) -> (eq: bool) {
        T::raw_eq(a, b)
    }
}

/// The empty optional no-ops on every operation: whatever an operation on
/// an empty optional waker did to the world, it did nothing, and a
/// duplicate of it is empty again.
pub proof fn lemma_empty_option_noop<T: Wake>(pre: World, post: World, out: Option<T>)
    ensures
        Option::<T>::None.ref_wake_rel(pre, post) ==> post@ == pre@,
        Option::<T>::None.value_wake_rel(pre, post) ==> post@ == pre@,
        Option::<T>::None.dispose_rel(pre, post) ==> post@ == pre@,
        Option::<T>::None.dup_rel(pre, post, out) ==> post@ == pre@ && out is None,
{
}

impl<T: Managed> Managed for Box<T> {
    open spec fn wf(self, w: World) -> bool {
        (*self).wf(w)
    }

    open spec fn dup_pre(self, w: World) -> bool {
        (*self).dup_pre(w)
    }

    open spec fn dup_rel(self, pre: World, post: World, out: Self) -> bool {
        (*self).dup_rel(pre, post, *out)
    }

    open spec fn dispose_rel(self, pre: World, post: World) -> bool {
        (*self).dispose_rel(pre, post)
    }

    fn duplicate(&self, w: &mut World) -> (out: Self) {
        Box::new((**self).duplicate(w))
    }

    fn dispose(self, w: &mut World) {
        (*self).dispose(w);
    }
}

impl<T: WakeRef> WakeRef for Box<T> {
    open spec fn ref_wake_pre(self, w: World) -> bool {
        (*self).ref_wake_pre(w)
    }

    open spec fn ref_wake_rel(self, pre: World, post: World) -> bool {
        (*self).ref_wake_rel(pre, post)
    }

    fn wake_by_ref(&self, w: &mut World) {
        (**self).wake_by_ref(w);
    }
}

impl<T: Wake> Wake for Box<T> {
    open spec fn value_wake_pre(self, w: World) -> bool {
        (*self).value_wake_pre(w)
    }

    /// The exclusive-owner box: consuming it consumes the content and
    /// delivers the content's own consuming wake.
    open spec fn value_wake_rel(self, pre: World, post: World) -> bool {
        (*self).value_wake_rel(pre, post)
    }

    fn wake(self, w: &mut World) {
        (*self).wake(w);
    }
}

/// The box is transparent to the codec: a boxed waker packs as its content
/// packs, so the round-trip and stability laws carry over unchanged.
impl<T: ViaRawPointer> ViaRawPointer for Box<T> {
    type Raw = T::Raw;

    open spec fn raw_of(self) -> T::Raw {
        (*self).raw_of()
    }

    open spec fn value_of(r: T::Raw) -> Box<T> {
        Box::new(T::value_of(r))
    }

    open spec fn null() -> T::Raw {
        T::null()
    }

    proof fn lemma_raw_round_trip(self) {
        (*self).lemma_raw_round_trip();
    }

    fn into_raw(self) -> (r: T::Raw) {
        (*self).into_raw()
    }

    fn from_raw(r: T::Raw) -> (v: Box<T>) {
        Box::new(T::from_raw(r))
    }

    fn null_raw() -> (r: T::Raw) {
        T::null_raw()
    }

    fn raw_eq(a: &T::Raw, b: &T::Raw) -> (eq: bool) {
        T::raw_eq(a, b)
    }
}

impl<T: NonNullRaw> NonNullRaw for Box<T> {
    proof fn lemma_raw_nonnull(self) {
        (*self).lemma_raw_nonnull();
    }
}

} // verus!
