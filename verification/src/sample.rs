//! A small self-contained waker: a plain value with an identifier.
//!
//! It stands for the wake-capable values a caller defines: its whole state
//! is the identifier it carries, it needs no target in the world, and its
//! notifications have no world-visible effect - a program around this
//! library typically reports them at its own edge.  Packing it exercises
//! the by-value side of the codec: the value itself, not an index, travels
//! through the raw form, so duplicates of equal value compare equal under
//! the raw-identity test.

use vstd::prelude::*;

use crate::traits::Managed;
use crate::traits::NonNullRaw;
use crate::traits::ViaRawPointer;
use crate::traits::Wake;
use crate::traits::WakeRef;
use crate::world::World;

verus! {

/// A wake-capable value that carries nothing but an identifier.
#[derive(Clone, Copy)]
pub struct CustomWaker {
    id: i128,
}

impl CustomWaker {
    /// The identifier this waker carries.
    pub closed spec fn id_spec(self) -> i128 {
        self.id
    }

    /// Make a waker with the given identifier.
    pub fn new(id: i128) -> (c: CustomWaker)
        ensures
            c.id_spec() == id,
    {
        CustomWaker { id }
    }

    /// Read the identifier back.
    pub fn id(&self) -> (r: i128)
        ensures
            r == self.id_spec(),
    {
        self.id
    }
}

impl Managed for CustomWaker {
    open spec fn wf(self, w: World) -> bool {
        true
    }

    open spec fn dup_pre(self, w: World) -> bool {
        true
    }

    open spec fn dup_rel(self, pre: World, post: World, out: Self) -> bool {
        &&& post@ == pre@
        &&& out == self
    }

    open spec fn dispose_rel(self, pre: World, post: World) -> bool {
        post@ == pre@
    }

    fn duplicate(&self, w: &mut World) -> (out: Self) {
        CustomWaker { id: self.id }
    }

    fn dispose(self, w: &mut World) {
    }
}

impl WakeRef for CustomWaker {
    open spec fn ref_wake_pre(self, w: World) -> bool {
        true
    }

    /// This waker owns no target, so waking it changes nothing in the
    /// world; any report of the wake happens outside the library.
    open spec fn ref_wake_rel(self, pre: World, post: World) -> bool {
        post@ == pre@
    }

    fn wake_by_ref(&self, w: &mut World) {
    }
}

impl Wake for CustomWaker {
    open spec fn value_wake_pre(self, w: World) -> bool {
        true
    }

    open spec fn value_wake_rel(self, pre: World, post: World) -> bool {
        post@ == pre@
    }

    fn wake(self, w: &mut World) {
        self.wake_by_ref(w);
        self.dispose(w);
    }
}

impl ViaRawPointer for CustomWaker {
    type Raw = Option<CustomWaker>;

    /// A value small enough to travel as itself: its raw form is the value.
    open spec fn raw_of(self) -> Option<CustomWaker> {
        Some(self)
    }

    closed spec fn value_of(r: Option<CustomWaker>) -> CustomWaker {
        match r {
            Some(v) => v,
            None => CustomWaker { id: 0 },
        }
    }

    open spec fn null() -> Option<CustomWaker> {
        None
    }

    proof fn lemma_raw_round_trip(self) {
    }

    fn into_raw(self) -> (r: Option<CustomWaker>) {
        Some(self)
    }

    fn from_raw(r: Option<CustomWaker>) -> (v: CustomWaker) {
        match r {
            Some(v) => v,
            None => CustomWaker { id: 0 },
        }
    }

    fn null_raw() -> (r: Option<CustomWaker>) {
        None
    }

    fn raw_eq(a: &Option<CustomWaker>, b: &Option<CustomWaker>) -> (eq: bool) {
        match (a, b) {
            (Some(x), Some(y)) => x.id == y.id,
            (None, None) => true,
            _ => false,
        }
    }
}

impl NonNullRaw for CustomWaker {
    proof fn lemma_raw_nonnull(self) {
    }
}

} // verus!
