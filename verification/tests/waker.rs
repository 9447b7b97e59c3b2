//! The erased handle driven as a scheduler would drive it: packing,
//! cloning, waking by reference and by value, dropping, and comparing
//! handles for identity, with every effect observed in the world.

use cooked_waker::CustomWaker;
use cooked_waker::IntoWaker;
use cooked_waker::Managed;
use cooked_waker::Probe;
use cooked_waker::Strong;
use cooked_waker::ViaRawPointer;
use cooked_waker::Wake;
use cooked_waker::WakeRef;
use cooked_waker::World;

#[test]
fn round_trip_value_waker() {
    let original = CustomWaker::new(11);
    let raw = original.into_raw();
    let back = CustomWaker::from_raw(raw);
    assert_eq!(back.id(), 11);
}

#[test]
fn round_trip_negative_identifier() {
    let original = CustomWaker::new(-170141183460469231731687303715884105728);
    let back = CustomWaker::from_raw(original.into_raw());
    assert_eq!(back.id(), -170141183460469231731687303715884105728);
}

#[test]
fn round_trip_strong_handle() {
    let mut w = World::new();
    let s = Strong::new(&mut w);
    let observer = s.downgrade();
    let raw = s.into_raw();
    let back = Strong::from_raw(raw);
    back.wake_by_ref(&mut w);
    assert_eq!(observer.ref_wakes(&w), 1);
    assert!(observer.is_alive(&w));
    back.dispose(&mut w);
    assert!(!observer.is_alive(&w));
}

#[test]
fn clone_keeps_waking_after_original_drops() {
    let mut w = World::new();
    let s = Strong::new(&mut w);
    let observer = s.downgrade();
    let h1 = s.into_waker();
    let h2 = h1.duplicate(&mut w);
    h1.dispose(&mut w);
    assert!(observer.is_alive(&w));
    h2.wake_by_ref(&mut w);
    assert_eq!(observer.ref_wakes(&w), 1);
    h2.dispose(&mut w);
    assert!(!observer.is_alive(&w));
}

#[test]
fn will_wake_tracks_shared_target() {
    let mut w = World::new();
    let s = Strong::new(&mut w);
    let h1 = s.duplicate(&mut w).into_waker();
    let h2 = h1.duplicate(&mut w);
    assert!(h1.will_wake(&h2));
    assert!(h2.will_wake(&h1));
    let unrelated = Strong::new(&mut w).into_waker();
    assert!(!h1.will_wake(&unrelated));
    s.dispose(&mut w);
    h1.dispose(&mut w);
    h2.dispose(&mut w);
    unrelated.dispose(&mut w);
}

#[test]
fn will_wake_on_value_wakers() {
    let h1 = CustomWaker::new(7).into_waker();
    let h2 = h1.duplicate(&mut World::new());
    assert!(h1.will_wake(&h2));
    let other = CustomWaker::new(8).into_waker();
    assert!(!h1.will_wake(&other));
}

#[test]
fn teardown_runs_once_per_handle() {
    let mut w = World::new();
    let probe = Probe::new(&mut w);
    let first = probe.observer();
    let h1 = probe.into_waker();
    let h2 = h1.duplicate(&mut w);
    assert_eq!(w.target_count(), 2);
    h1.dispose(&mut w);
    h2.dispose(&mut w);
    assert_eq!(first.teardowns(&w), 1);
    assert_eq!(w.target(1).teardowns, 1);
    assert_eq!(first.value_wakes(&w), 0);
    assert_eq!(w.target(1).value_wakes, 0);
    assert!(!first.is_alive(&w));
    assert!(!w.target(1).alive);
}

#[test]
fn consuming_wake_after_ref_wakes_runs_once() {
    let mut w = World::new();
    let probe = Probe::new(&mut w);
    let observer = probe.observer();
    let h = probe.into_waker();
    h.wake_by_ref(&mut w);
    h.wake_by_ref(&mut w);
    assert!(observer.is_alive(&w));
    assert_eq!(observer.teardowns(&w), 0);
    h.wake(&mut w);
    assert_eq!(observer.ref_wakes(&w), 2);
    assert_eq!(observer.value_wakes(&w), 1);
    assert_eq!(observer.teardowns(&w), 1);
    assert!(!observer.is_alive(&w));
}

#[test]
fn shared_delegation_counts_four() {
    let mut w = World::new();
    let counter = Strong::new(&mut w);
    let observer = counter.downgrade();
    let h = counter.duplicate(&mut w).into_waker();
    h.wake_by_ref(&mut w);
    h.wake_by_ref(&mut w);
    h.wake_by_ref(&mut w);
    h.wake(&mut w);
    assert_eq!(observer.ref_wakes(&w), 4);
    assert_eq!(observer.value_wakes(&w), 0);
    assert!(observer.is_alive(&w));
    counter.dispose(&mut w);
    assert_eq!(observer.teardowns(&w), 1);
}

#[test]
fn exclusive_owner_wakes_by_value() {
    let mut w = World::new();
    let probe = Probe::new(&mut w);
    let observer = probe.observer();
    probe.wake(&mut w);
    assert_eq!(observer.ref_wakes(&w), 0);
    assert_eq!(observer.value_wakes(&w), 1);
    assert_eq!(observer.teardowns(&w), 1);
}

#[test]
fn empty_option_noops_on_every_operation() {
    let mut w = World::new();
    let empty: Option<CustomWaker> = None;
    let h = empty.into_waker();
    h.wake_by_ref(&mut w);
    let h2 = h.duplicate(&mut w);
    assert!(h.will_wake(&h2));
    h2.wake(&mut w);
    h.dispose(&mut w);
    assert_eq!(w.target_count(), 0);
}

#[test]
fn full_option_forwards() {
    let mut w = World::new();
    let s = Strong::new(&mut w);
    let observer = s.downgrade();
    let h = Some(s).into_waker();
    h.wake_by_ref(&mut w);
    assert_eq!(observer.ref_wakes(&w), 1);
    h.wake(&mut w);
    assert_eq!(observer.ref_wakes(&w), 2);
    assert_eq!(observer.value_wakes(&w), 0);
    assert_eq!(observer.teardowns(&w), 1);
}

#[test]
fn empty_and_full_options_differ_by_identity() {
    let mut w = World::new();
    let s = Strong::new(&mut w);
    let full = Some(s.duplicate(&mut w)).into_waker();
    let empty: Option<Strong> = None;
    let e = empty.into_waker();
    assert!(!full.will_wake(&e));
    assert!(e.will_wake(&e.duplicate(&mut w)));
    full.dispose(&mut w);
    s.dispose(&mut w);
}

#[test]
fn weak_handle_wakes_while_target_lives() {
    let mut w = World::new();
    let s = Strong::new(&mut w);
    let weak = s.downgrade();
    weak.wake_by_ref(&mut w);
    assert_eq!(weak.ref_wakes(&w), 1);
    assert_eq!(weak.strong_count(&w), 1);
    s.dispose(&mut w);
    weak.wake_by_ref(&mut w);
    assert_eq!(weak.ref_wakes(&w), 1);
    assert!(!weak.is_alive(&w));
}

#[test]
fn weak_upgrade_follows_liveness() {
    let mut w = World::new();
    let s = Strong::new(&mut w);
    let weak = s.downgrade();
    let up = weak.upgrade(&mut w);
    assert!(up.is_some());
    assert_eq!(weak.strong_count(&w), 2);
    up.unwrap().dispose(&mut w);
    s.dispose(&mut w);
    let gone = weak.upgrade(&mut w);
    assert!(gone.is_none());
}

#[test]
fn erased_weak_handle_noops_on_dead_target() {
    let mut w = World::new();
    let s = Strong::new(&mut w);
    let weak = s.downgrade();
    let watcher = s.downgrade();
    let h = weak.into_waker();
    s.dispose(&mut w);
    h.wake_by_ref(&mut w);
    let h2 = h.duplicate(&mut w);
    h2.wake(&mut w);
    h.dispose(&mut w);
    assert_eq!(watcher.ref_wakes(&w), 0);
    assert_eq!(watcher.teardowns(&w), 1);
}

#[test]
fn world_records_registrations() {
    let mut w = World::new();
    assert_eq!(w.target_count(), 0);
    let s = Strong::new(&mut w);
    assert_eq!(w.target_count(), 1);
    assert_eq!(w.target(0).strong, 1);
    assert!(w.target(0).alive);
    assert_eq!(w.target(0).ref_wakes, 0);
    let d = s.duplicate(&mut w);
    assert_eq!(w.target(0).strong, 2);
    d.dispose(&mut w);
    assert_eq!(w.target(0).strong, 1);
    assert!(w.target(0).alive);
    s.dispose(&mut w);
    assert_eq!(w.target(0).strong, 0);
    assert_eq!(w.target(0).teardowns, 1);
}

#[test]
fn custom_waker_keeps_identifier_through_handle() {
    let mut w = World::new();
    let h = CustomWaker::new(42).into_waker();
    let h2 = h.duplicate(&mut w);
    h.wake(&mut w);
    h2.wake_by_ref(&mut w);
    h2.dispose(&mut w);
    assert_eq!(w.target_count(), 0);
    let back = CustomWaker::from_raw(CustomWaker::new(42).into_raw());
    assert_eq!(back.id(), 42);
}

#[test]
fn boxed_waker_forwards_and_consumes() {
    let mut w = World::new();
    let probe = Probe::new(&mut w);
    let observer = probe.observer();
    let boxed = Box::new(probe);
    boxed.wake_by_ref(&mut w);
    assert_eq!(observer.ref_wakes(&w), 1);
    boxed.wake(&mut w);
    assert_eq!(observer.value_wakes(&w), 1);
    assert_eq!(observer.teardowns(&w), 1);
}

#[test]
fn boxed_waker_erases_like_its_content() {
    let mut w = World::new();
    let s = Strong::new(&mut w);
    let observer = s.downgrade();
    let h = Box::new(s.duplicate(&mut w)).into_waker();
    let h2 = h.duplicate(&mut w);
    assert!(h.will_wake(&h2));
    h.wake_by_ref(&mut w);
    assert_eq!(observer.ref_wakes(&w), 1);
    h.dispose(&mut w);
    h2.dispose(&mut w);
    s.dispose(&mut w);
    assert_eq!(observer.teardowns(&w), 1);
}
