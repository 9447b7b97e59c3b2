//! The ownership wrappers: shared strong and weak handles, and an
//! instrumented exclusive owner.
//!
//! Each wrapper redefines what "wake by value" means for its ownership
//! shape.  A [`Strong`] handle shares its target, so a consuming wake
//! degrades to a wake by reference followed by letting go of the owner
//! count.  A [`Weak`] handle owns nothing: it upgrades, wakes the upgrade,
//! and no-ops when the target is gone.  A [`Probe`] owns its target
//! exclusively, so a consuming wake really delivers a by-value notification
//! and tears the target down.

use vstd::prelude::*;

use crate::traits::Managed;
use crate::traits::NonNullRaw;
use crate::traits::ViaRawPointer;
use crate::traits::Wake;
use crate::traits::WakeRef;
use crate::world::with_ref_wake;
use crate::world::with_release;
use crate::world::with_retain;
use crate::world::with_value_wake;
use crate::world::Target;
use crate::world::World;

verus! {

/// A shared strong handle: one of possibly many owners of a target.
pub struct Strong {
    idx: usize,
}

impl Strong {
    /// The index of the target this handle owns a share of.
    pub closed spec fn target(self) -> int {
        self.idx as int
    }

    /// Register a fresh target, owned by the returned handle alone.
    pub fn new(w: &mut World) -> (s: Strong)
        requires
            old(w).wf(),
            old(w)@.len() < usize::MAX,
        ensures
            final(w).wf(),
            final(w)@ == old(w)@.push(Target::fresh()),
            s.target() == old(w)@.len(),
            s.wf(*final(w)),
    {
        let i = w.register();
        Strong { idx: i }
    }

    /// A non-owning observer of the same target.
    pub fn downgrade(&self) -> (o: Weak)
        ensures
            o.target() == self.target(),
    {
        Weak { idx: self.idx }
    }
}

impl Managed for Strong {
    open spec fn wf(self, w: World) -> bool {
        &&& self.target() < w@.len()
        &&& w@[self.target()].alive
    }

    open spec fn dup_pre(self, w: World) -> bool {
        w@[self.target()].strong < u64::MAX
    }

    open spec fn dup_rel(self, pre: World, post: World, out: Self) -> bool {
        &&& post@ == with_retain(pre@, self.target())
        &&& out.target() == self.target()
    }

    open spec fn dispose_rel(self, pre: World, post: World) -> bool {
        post@ == with_release(pre@, self.target())
    }

    fn duplicate(&self, w: &mut World) -> (out: Self) {
        w.retain(self.idx);
        Strong { idx: self.idx }
    }

    fn dispose(self, w: &mut World) {
        w.release(self.idx);
    }
}

impl WakeRef for Strong {
    open spec fn ref_wake_pre(self, w: World) -> bool {
        w@[self.target()].ref_wakes < u64::MAX
    }

    open spec fn ref_wake_rel(self, pre: World, post: World) -> bool {
        post@ == with_ref_wake(pre@, self.target())
    }

    fn wake_by_ref(&self, w: &mut World) {
        w.deliver_ref_wake(self.idx);
    }
}

impl Wake for Strong {
    open spec fn value_wake_pre(self, w: World) -> bool {
        self.ref_wake_pre(w)
    }

    /// A shared handle cannot assume exclusivity of its target, so consuming
    /// it delivers a wake by reference and then just releases the owner
    /// count.
    open spec fn value_wake_rel(self, pre: World, post: World) -> bool {
        post@ == with_release(with_ref_wake(pre@, self.target()), self.target())
    }

    fn wake(self, w: &mut World) {
        self.wake_by_ref(w);
        self.dispose(w);
    }
}

impl ViaRawPointer for Strong {
    type Raw = Option<usize>;

    open spec fn raw_of(self) -> Option<usize> {
        Some(self.target() as usize)
    }

    closed spec fn value_of(r: Option<usize>) -> Strong {
        match r {
            Some(i) => Strong { idx: i },
            None => Strong { idx: 0 },
        }
    }

    open spec fn null() -> Option<usize> {
        None
    }

    proof fn lemma_raw_round_trip(self) {
    }

    fn into_raw(self) -> (r: Option<usize>) {
        Some(self.idx)
    }

    fn from_raw(r: Option<usize>) -> (v: Strong) {
        match r {
            Some(i) => Strong { idx: i },
            None => Strong { idx: 0 },
        }
    }

    fn null_raw() -> (r: Option<usize>) {
        None
    }

    fn raw_eq(a: &Option<usize>, b: &Option<usize>) -> (eq: bool) {
        match (a, b) {
            (Some(x), Some(y)) => x == y,
            (None, None) => true,
            _ => false,
        }
    }
}

impl NonNullRaw for Strong {
    proof fn lemma_raw_nonnull(self) {
    }
}

/// Raw equality coincides with target identity for strong handles: two
/// packed strong handles have the same raw bit pattern exactly when they own
/// the same target.  This is what makes the scheduler-level "same target"
/// comparison on erased handles meaningful.
pub proof fn lemma_strong_raw_identity(a: Strong, b: Strong)
    ensures
        (a.raw_of() == b.raw_of()) <==> (a.target() == b.target()),
{
}

/// A shared weak handle: an observer that can try to become an owner.
pub struct Weak {
    idx: usize,
}

impl Weak {
    /// The index of the target this handle observes.
    pub closed spec fn target(self) -> int {
        self.idx as int
    }

    /// Become a strong owner, unless the target is already gone.
    pub fn upgrade(&self, w: &mut World) -> (r: Option<Strong>)
        requires
            old(w).wf(),
            self.wf(*old(w)),
            old(w)@[self.target()].alive ==> old(w)@[self.target()].strong < u64::MAX,
        ensures
            final(w).wf(),
            old(w)@[self.target()].alive ==> {
                &&& final(w)@ == with_retain(old(w)@, self.target())
                &&& r matches Some(s) && s.target() == self.target()
            },
            !old(w)@[self.target()].alive ==> final(w)@ == old(w)@ && r is None,
    {
        if w.target(self.idx).alive {
            w.retain(self.idx);
            Some(Strong { idx: self.idx })
        } else {
            None
        }
    }

    /// Whether the target has not been torn down yet.
    pub fn is_alive(&self, w: &World) -> (b: bool)
        requires
            self.wf(*w),
        ensures
            b == w@[self.target()].alive,
    {
        w.target(self.idx).alive
    }

    /// How many strong owners the target has.
    pub fn strong_count(&self, w: &World) -> (n: u64)
        requires
            self.wf(*w),
        ensures
            n == w@[self.target()].strong,
    {
        w.target(self.idx).strong
    }

    /// How many wake-by-reference notifications the target received.
    pub fn ref_wakes(&self, w: &World) -> (n: u64)
        requires
            self.wf(*w),
        ensures
            n == w@[self.target()].ref_wakes,
    {
        w.target(self.idx).ref_wakes
    }

    /// How many wake-by-value notifications the target received.
    pub fn value_wakes(&self, w: &World) -> (n: u64)
        requires
            self.wf(*w),
        ensures
            n == w@[self.target()].value_wakes,
    {
        w.target(self.idx).value_wakes
    }

    /// How often the target's teardown ran.
    pub fn teardowns(&self, w: &World) -> (n: u64)
        requires
            self.wf(*w),
        ensures
            n == w@[self.target()].teardowns,
    {
        w.target(self.idx).teardowns
    }
}

impl Managed for Weak {
    open spec fn wf(self, w: World) -> bool {
        self.target() < w@.len()
    }

    open spec fn dup_pre(self, w: World) -> bool {
        true
    }

    open spec fn dup_rel(self, pre: World, post: World, out: Self) -> bool {
        &&& post@ == pre@
        &&& out.target() == self.target()
    }

    open spec fn dispose_rel(self, pre: World, post: World) -> bool {
        post@ == pre@
    }

    fn duplicate(&self, w: &mut World) -> (out: Self) {
        Weak { idx: self.idx }
    }

    fn dispose(self, w: &mut World) {
    }
}

impl WakeRef for Weak {
    open spec fn ref_wake_pre(self, w: World) -> bool {
        w@[self.target()].alive ==> {
            &&& w@[self.target()].strong < u64::MAX
            &&& w@[self.target()].ref_wakes < u64::MAX
        }
    }

    /// Waking through a weak handle wakes the target if it is still there
    /// and does nothing at all otherwise.
    open spec fn ref_wake_rel(self, pre: World, post: World) -> bool {
        if pre@[self.target()].alive {
            post@ == with_ref_wake(pre@, self.target())
        } else {
            post@ == pre@
        }
    }

    fn wake_by_ref(&self, w: &mut World) {
        let upgraded = self.upgrade(w);
        match upgraded {
            Some(s) => {
                s.wake(w);
                proof {
                    let t = self.target();
                    let ts = old(w)@;
                    assert(w@ =~= with_ref_wake(ts, t));
                }
            },
            None => {},
        }
    }
}

impl Wake for Weak {
    open spec fn value_wake_pre(self, w: World) -> bool {
        self.ref_wake_pre(w)
    }

    /// A weak handle owns nothing, so consuming it is no more than waking by
    /// reference.
    open spec fn value_wake_rel(self, pre: World, post: World) -> bool {
        self.ref_wake_rel(pre, post)
    }

    fn wake(self, w: &mut World) {
        self.wake_by_ref(w);
    }
}

impl ViaRawPointer for Weak {
    type Raw = Option<usize>;

    open spec fn raw_of(self) -> Option<usize> {
        Some(self.target() as usize)
    }

    closed spec fn value_of(r: Option<usize>) -> Weak {
        match r {
            Some(i) => Weak { idx: i },
            None => Weak { idx: 0 },
        }
    }

    open spec fn null() -> Option<usize> {
        None
    }

    proof fn lemma_raw_round_trip(self) {
    }

    fn into_raw(self) -> (r: Option<usize>) {
        Some(self.idx)
    }

    fn from_raw(r: Option<usize>) -> (v: Weak) {
        match r {
            Some(i) => Weak { idx: i },
            None => Weak { idx: 0 },
        }
    }

    fn null_raw() -> (r: Option<usize>) {
        None
    }

    fn raw_eq(a: &Option<usize>, b: &Option<usize>) -> (eq: bool) {
        match (a, b) {
            (Some(x), Some(y)) => x == y,
            (None, None) => true,
            _ => false,
        }
    }
}

impl NonNullRaw for Weak {
    proof fn lemma_raw_nonnull(self) {
    }
}

/// An exclusive owner of an instrumented target.
///
/// A probe's target records every event of the probe's life: duplication
/// registers a fresh target for the copy, a consuming wake delivers a
/// by-value notification and tears the target down, and disposal tears it
/// down without waking.  Watching probe targets through [`Weak`] observers
/// is how teardown counting is made observable.
pub struct Probe {
    idx: usize,
}

impl Probe {
    /// The index of the target this probe owns.
    pub closed spec fn target(self) -> int {
        self.idx as int
    }

    /// Register a fresh instrumented target.
    pub fn new(w: &mut World) -> (p: Probe)
        requires
            old(w).wf(),
            old(w)@.len() < usize::MAX,
        ensures
            final(w).wf(),
            final(w)@ == old(w)@.push(Target::fresh()),
            p.target() == old(w)@.len(),
            p.wf(*final(w)),
    {
        let i = w.register();
        Probe { idx: i }
    }

    /// A non-owning observer of this probe's target; it stays meaningful
    /// after the probe itself is gone.
    pub fn observer(&self) -> (o: Weak)
        ensures
            o.target() == self.target(),
    {
        Weak { idx: self.idx }
    }
}

impl Managed for Probe {
    open spec fn wf(self, w: World) -> bool {
        &&& self.target() < w@.len()
        &&& w@[self.target()].alive
    }

    open spec fn dup_pre(self, w: World) -> bool {
        w@.len() < usize::MAX
    }

    /// Duplicating an exclusive owner makes a genuinely new value: the copy
    /// gets a fresh instrumented target of its own.
    open spec fn dup_rel(self, pre: World, post: World, out: Self) -> bool {
        &&& post@ == pre@.push(Target::fresh())
        &&& out.target() == pre@.len()
    }

    open spec fn dispose_rel(self, pre: World, post: World) -> bool {
        post@ == with_release(pre@, self.target())
    }

    fn duplicate(&self, w: &mut World) -> (out: Self) {
        let i = w.register();
        Probe { idx: i }
    }

    fn dispose(self, w: &mut World) {
        w.release(self.idx);
    }
}

impl WakeRef for Probe {
    open spec fn ref_wake_pre(self, w: World) -> bool {
        w@[self.target()].ref_wakes < u64::MAX
    }

    open spec fn ref_wake_rel(self, pre: World, post: World) -> bool {
        post@ == with_ref_wake(pre@, self.target())
    }

    fn wake_by_ref(&self, w: &mut World) {
        w.deliver_ref_wake(self.idx);
    }
}

impl Wake for Probe {
    open spec fn value_wake_pre(self, w: World) -> bool {
        w@[self.target()].value_wakes < u64::MAX
    }

    /// An exclusive owner overrides the forwarding default: consuming it
    /// delivers a true by-value notification, then the teardown runs.
    open spec fn value_wake_rel(self, pre: World, post: World) -> bool {
        post@ == with_release(with_value_wake(pre@, self.target()), self.target())
    }

    fn wake(self, w: &mut World) {
        w.deliver_value_wake(self.idx);
        self.dispose(w);
    }
}

impl ViaRawPointer for Probe {
    type Raw = Option<usize>;

    open spec fn raw_of(self) -> Option<usize> {
        Some(self.target() as usize)
    }

    closed spec fn value_of(r: Option<usize>) -> Probe {
        match r {
            Some(i) => Probe { idx: i },
            None => Probe { idx: 0 },
        }
    }

    open spec fn null() -> Option<usize> {
        None
    }

    proof fn lemma_raw_round_trip(self) {
    }

    fn into_raw(self) -> (r: Option<usize>) {
        Some(self.idx)
    }

    fn from_raw(r: Option<usize>) -> (v: Probe) {
        match r {
            Some(i) => Probe { idx: i },
            None => Probe { idx: 0 },
        }
    }

    fn null_raw() -> (r: Option<usize>) {
        None
    }

    fn raw_eq(a: &Option<usize>, b: &Option<usize>) -> (eq: bool) {
        match (a, b) {
            (Some(x), Some(y)) => x == y,
            (None, None) => true,
            _ => false,
        }
    }
}

impl NonNullRaw for Probe {
    proof fn lemma_raw_nonnull(self) {
    }
}

/// Consuming wake on a shared handle degrades to wake-by-reference: it
/// delivers exactly one more wake-by-reference to the target and no
/// wake-by-value at all, because one shared owner cannot assume
/// exclusivity of the underlying target.
pub proof fn lemma_shared_wake_degrades(s: Strong, pre: World, post: World)
    requires
        pre.wf(),
        s.wf(pre),
        s.value_wake_pre(pre),
        s.value_wake_rel(pre, post),
    ensures
        post@[s.target()].ref_wakes == pre@[s.target()].ref_wakes + 1,
        post@[s.target()].value_wakes == pre@[s.target()].value_wakes,
{
}

/// A clone outlives the original: duplicating a strong handle and then
/// disposing of the original leaves the clone a well-formed owner of a
/// still-alive target, with the target's wake record untouched - waking
/// through the clone still reaches the underlying behaviour.
pub proof fn lemma_clone_outlives_original(s: Strong, c: Strong, w0: World, w1: World, w2: World)
    requires
        w0.wf(),
        s.wf(w0),
        s.dup_pre(w0),
        s.dup_rel(w0, w1, c),
        s.dispose_rel(w1, w2),
    ensures
        c.wf(w2),
        w2@[c.target()].ref_wakes == w0@[c.target()].ref_wakes,
        w2@[c.target()].value_wakes == w0@[c.target()].value_wakes,
{
}

/// Waking by reference leaves an exclusive owner intact, and a consuming
/// wake afterwards still runs exactly once: it delivers exactly one
/// wake-by-value and exactly one teardown, however many wakes by reference
/// came before.
pub proof fn lemma_consuming_wake_still_once(p: Probe, w0: World, w1: World, w2: World)
    requires
        w0.wf(),
        p.wf(w0),
        w0@[p.target()].strong == 1,
        p.ref_wake_pre(w0),
        p.ref_wake_rel(w0, w1),
        p.value_wake_pre(w1),
        p.value_wake_rel(w1, w2),
    ensures
        p.wf(w1),
        w2@[p.target()].value_wakes == w0@[p.target()].value_wakes + 1,
        w2@[p.target()].teardowns == 1,
{
}

} // verus!
