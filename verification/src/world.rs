//! The table of notification targets.
//!
//! Waking is a side effect on something that outlives the waker: a counter,
//! a queue, a suspended task.  This module gives those somethings an explicit
//! home.  A [`World`] owns one [`Target`] record per notification target and
//! every wake, clone and teardown is a recorded change to that table, so the
//! contracts of the dispatch operations can state the effect exactly.

use vstd::prelude::*;

verus! {

/// The recorded state of one notification target.
///
/// `strong` counts the owning handles that keep the target alive.  `alive`
/// says whether the target's value still exists.  `ref_wakes` and
/// `value_wakes` count delivered notifications, and `teardowns` counts how
/// often the target's teardown ran - never more than once, which is the
/// no-double-free half of the teardown-counting law.
pub struct Target {
    pub strong: u64,
    pub alive: bool,
    pub ref_wakes: u64,
    pub value_wakes: u64,
    pub teardowns: u64,
}

impl Target {
    /// A target is consistent when it is alive exactly while someone owns it,
    /// and its teardown has run exactly once afterwards.
    pub open spec fn inv(self) -> bool {
        &&& self.alive <==> self.strong >= 1
        &&& self.teardowns == if self.alive { 0u64 } else { 1u64 }
    }

    /// The state of a target that was just registered: one owner, alive,
    /// nothing delivered yet.
    pub open spec fn fresh() -> Target {
        Target { strong: 1, alive: true, ref_wakes: 0, value_wakes: 0, teardowns: 0 }
    }
}

/// The target table after a wake-by-reference was delivered to target `i`.
pub open spec fn with_ref_wake(ts: Seq<Target>, i: int) -> Seq<Target> {
    ts.update(i, Target { ref_wakes: (ts[i].ref_wakes + 1) as u64, ..ts[i] })
}

/// The target table after a wake-by-value was delivered to target `i`.
pub open spec fn with_value_wake(ts: Seq<Target>, i: int) -> Seq<Target> {
    ts.update(i, Target { value_wakes: (ts[i].value_wakes + 1) as u64, ..ts[i] })
}

/// The target table after one strong owner of target `i` let go: the count
/// drops, and the last owner tears the target down.
pub open spec fn with_release(ts: Seq<Target>, i: int) -> Seq<Target> {
    if ts[i].strong == 1 {
        ts.update(i, Target { strong: 0, alive: false, teardowns: 1, ..ts[i] })
    } else {
        ts.update(i, Target { strong: (ts[i].strong - 1) as u64, ..ts[i] })
    }
}

/// The target table after target `i` gained one more strong owner.
pub open spec fn with_retain(ts: Seq<Target>, i: int) -> Seq<Target> {
    ts.update(i, Target { strong: (ts[i].strong + 1) as u64, ..ts[i] })
}

/// The home of every notification target.
///
/// The table only grows: a torn-down target keeps its slot, so its wake and
/// teardown counts stay observable and target indices stay stable - the
/// pointer-identity comparison between handles relies on that stability.
pub struct World {
    targets: Vec<Target>,
}

impl View for World {
    type V = Seq<Target>;

    closed spec fn view(&self) -> Seq<Target> {
        self.targets@
    }
}

impl World {
    /// Every target in the table is consistent.
    pub open spec fn wf(self) -> bool {
        forall|i: int| 0 <= i < self@.len() ==> (#[trigger] self@[i]).inv()
    }

    /// An empty world, with no targets registered.
    pub fn new() -> (w: World)
        ensures
            w@.len() == 0,
            w.wf(),
    {
        World { targets: Vec::new() }
    }

    /// How many targets were ever registered, torn-down ones included.
    pub fn target_count(&self) -> (n: usize)
        ensures
            n == self@.len(),
    {
        self.targets.len()
    }

    /// Read one target's record.
    pub fn target(&self, i: usize) -> (t: &Target)
        requires
            i < self@.len(),
        ensures
            *t == self@[i as int],
    {
        &self.targets[i]
    }

    /// Register a fresh target and return its index.
    pub(crate) fn register(&mut self) -> (i: usize)
        requires
            old(self)@.len() < usize::MAX,
        ensures
            final(self)@ == old(self)@.push(Target::fresh()),
            i == old(self)@.len(),
    {
        let i = self.targets.len();
        self.targets.push(Target { strong: 1, alive: true, ref_wakes: 0, value_wakes: 0, teardowns: 0 });
        i
    }

    /// Deliver one wake-by-reference to target `i`.
    pub(crate) fn deliver_ref_wake(&mut self, i: usize)
        requires
            i < old(self)@.len(),
            old(self)@[i as int].ref_wakes < u64::MAX,
        ensures
            final(self)@ == with_ref_wake(old(self)@, i as int),
    {
        let t = &self.targets[i];
        let bumped = Target {
            strong: t.strong,
            alive: t.alive,
            ref_wakes: t.ref_wakes + 1,
            value_wakes: t.value_wakes,
            teardowns: t.teardowns,
        };
        self.targets.set(i, bumped);
    }

    /// Deliver one wake-by-value to target `i`.
    pub(crate) fn deliver_value_wake(&mut self, i: usize)
        requires
            i < old(self)@.len(),
            old(self)@[i as int].value_wakes < u64::MAX,
        ensures
            final(self)@ == with_value_wake(old(self)@, i as int),
    {
        let t = &self.targets[i];
        let bumped = Target {
            strong: t.strong,
            alive: t.alive,
            ref_wakes: t.ref_wakes,
            value_wakes: t.value_wakes + 1,
            teardowns: t.teardowns,
        };
        self.targets.set(i, bumped);
    }

    /// Give target `i` one more strong owner.
    pub(crate) fn retain(&mut self, i: usize)
        requires
            i < old(self)@.len(),
            old(self)@[i as int].strong < u64::MAX,
        ensures
            final(self)@ == with_retain(old(self)@, i as int),
    {
        let t = &self.targets[i];
        let bumped = Target {
            strong: t.strong + 1,
            alive: t.alive,
            ref_wakes: t.ref_wakes,
            value_wakes: t.value_wakes,
            teardowns: t.teardowns,
        };
        self.targets.set(i, bumped);
    }

    /// Take one strong owner away from target `i`; the last owner runs the
    /// teardown.
    pub(crate) fn release(&mut self, i: usize)
        requires
            i < old(self)@.len(),
            old(self)@[i as int].strong >= 1,
        ensures
            final(self)@ == with_release(old(self)@, i as int),
    {
        let t = &self.targets[i];
        let lowered = if t.strong == 1 {
            Target {
                strong: 0,
                alive: false,
                ref_wakes: t.ref_wakes,
                value_wakes: t.value_wakes,
                teardowns: 1,
            }
        } else {
            Target {
                strong: t.strong - 1,
                alive: t.alive,
                ref_wakes: t.ref_wakes,
                value_wakes: t.value_wakes,
                teardowns: t.teardowns,
            }
        };
        self.targets.set(i, lowered);
    }
}

/// A target's teardown can never have run more than once: the
/// zero-double-teardown half of the teardown-counting law, as an invariant of
/// every consistent world.
pub proof fn lemma_no_double_teardown(w: World, i: int)
    requires
        w.wf(),
        0 <= i < w@.len(),
    ensures
        w@[i].teardowns <= 1,
{
}

} // verus!
