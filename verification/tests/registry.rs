use firefly_test::runtime::{get_runtime, set_runtime, MockRuntime, RuntimeSlot};
use firefly_test::HarnessError;
use std::rc::Rc;

#[test]
fn current_before_any_install_is_not_initialized() {
    let mut slot: RuntimeSlot<u32> = RuntimeSlot::new();
    assert_eq!(get_runtime(&mut slot).map(|r| *r), Err(HarnessError::NotInitialized));
}

#[test]
fn install_then_current_returns_the_instance() {
    let mut slot: RuntimeSlot<u32> = RuntimeSlot::new();
    set_runtime(&mut slot, 7).unwrap();
    assert_eq!(get_runtime(&mut slot).map(|r| *r), Ok(7));
}

#[test]
fn second_install_wins() {
    let mut slot: RuntimeSlot<u32> = RuntimeSlot::new();
    set_runtime(&mut slot, 1).unwrap();
    set_runtime(&mut slot, 2).unwrap();
    assert_eq!(get_runtime(&mut slot).map(|r| *r), Ok(2));
}

#[test]
fn replaced_instance_is_released_before_install_returns() {
    let mut slot: RuntimeSlot<Rc<u32>> = RuntimeSlot::new();
    let first = Rc::new(1u32);
    set_runtime(&mut slot, Rc::clone(&first)).unwrap();
    assert_eq!(Rc::strong_count(&first), 2);
    set_runtime(&mut slot, Rc::new(2u32)).unwrap();
    // The slot's clone of the first instance is gone by the time the
    // second install has returned.
    assert_eq!(Rc::strong_count(&first), 1);
    assert_eq!(get_runtime(&mut slot).map(|r| **r), Ok(2));
}

#[test]
fn handle_mutations_persist_until_next_install() {
    let mut slot: RuntimeSlot<u32> = RuntimeSlot::new();
    set_runtime(&mut slot, 10).unwrap();
    let handle = get_runtime(&mut slot).unwrap();
    *handle = 55;
    assert_eq!(get_runtime(&mut slot).map(|r| *r), Ok(55));
}

#[test]
fn poisoned_slot_fails_recoverably() {
    let mut slot: RuntimeSlot<u32> = RuntimeSlot::new();
    set_runtime(&mut slot, 3).unwrap();
    slot.mark_poisoned();
    assert_eq!(get_runtime(&mut slot).map(|r| *r), Err(HarnessError::LockPoisoned));
    assert_eq!(set_runtime(&mut slot, 4), Err(HarnessError::LockPoisoned));
}

#[test]
fn wrapper_keeps_the_instance() {
    let w = MockRuntime::new(42u32);
    assert_eq!(w.runtime, 42);
}
