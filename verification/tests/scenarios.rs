use wiggle::demo::{Doubler, NestedProbe, TwoStep};
use wiggle::future::{HostFuture, Status, Step};
use wiggle::slot::Slot;
use wiggle::state::HostState;

#[test]
fn fresh_slot_is_empty() {
    let slot: Slot<u32> = Slot::new();
    assert!(!slot.is_installed());
}

#[test]
fn install_restore_round_trip() {
    let mut slot: Slot<u32> = Slot::new();
    let prev = slot.install(5);
    assert_eq!(prev, None);
    assert!(slot.is_installed());
    assert_eq!(*slot.read(), 5);
    let prev2 = slot.install(7);
    assert_eq!(prev2, Some(5));
    assert_eq!(*slot.read(), 7);
    slot.restore(prev2);
    assert_eq!(*slot.read(), 5);
    slot.restore(prev);
    assert!(!slot.is_installed());
}

#[test]
fn accessor_reads_installed_state() {
    let mut slot: Slot<u32> = Slot::new();
    let accessor: HostState<u32> = HostState::new();
    let prev = slot.install(10);
    let seen = accessor.with(&slot, |x: &u32| *x + 1);
    assert_eq!(seen, 11);
    slot.restore(prev);
    assert!(!slot.is_installed());
}

#[test]
fn doubler_reads_installed_state() {
    let mut slot: Slot<u32> = Slot::new();
    assert!(!slot.is_installed());
    let mut wrapper = HostFuture::new(42, Doubler {});
    assert_eq!(wrapper.status(), Status::NotStarted);
    let outcome = wrapper.poll(&mut slot);
    assert_eq!(outcome, Step::Ready(84));
    assert_eq!(wrapper.status(), Status::Completed);
    assert!(!slot.is_installed());
}

#[test]
fn step_restores_enclosing_installation() {
    let mut slot: Slot<u32> = Slot::new();
    let prev = slot.install(9);
    let mut wrapper = HostFuture::new(42, Doubler {});
    let outcome = wrapper.poll(&mut slot);
    assert_eq!(outcome, Step::Ready(84));
    assert_eq!(*slot.read(), 9);
    slot.restore(prev);
    assert!(!slot.is_installed());
}

#[test]
fn nested_wrappers_layer_lifo() {
    let mut slot: Slot<u32> = Slot::new();
    let sub = HostFuture::new(7, Doubler {});
    let probe = NestedProbe { sub, done: false };
    let mut outer = HostFuture::new(42, probe);
    let outcome = outer.poll(&mut slot);
    assert_eq!(outcome, Step::Ready((42, 14, 42)));
    assert!(!slot.is_installed());
}

#[test]
fn pending_then_complete() {
    let mut slot: Slot<u32> = Slot::new();
    let mut wrapper = HostFuture::new(42, TwoStep { started: false });
    let first = wrapper.poll(&mut slot);
    assert_eq!(first, Step::Pending);
    assert_eq!(wrapper.status(), Status::Suspended);
    assert!(!slot.is_installed());
    let second = wrapper.poll(&mut slot);
    assert_eq!(second, Step::Ready(42));
    assert_eq!(wrapper.status(), Status::Completed);
    assert!(!slot.is_installed());
}
