use accelver::registry::{Registry, Slot};

#[test]
fn slot_probes_exactly_once() {
    // A double that counts open attempts: across many accesses the
    // slot asks for exactly one probe, and every access sees the same
    // memoized outcome.
    let mut slot: Slot<u32> = Slot::new();
    let mut open_attempts: u32 = 0;
    let mut seen: Vec<Option<u32>> = Vec::new();
    for _ in 0..10 {
        if slot.needs_probe() {
            open_attempts += 1;
            slot.install(Some(42));
        }
        seen.push(*slot.get());
    }
    assert_eq!(open_attempts, 1);
    assert!(seen.iter().all(|outcome| *outcome == Some(42)));
}

#[test]
fn later_installs_change_nothing() {
    let mut slot: Slot<u32> = Slot::new();
    slot.install(Some(7));
    slot.install(Some(9));
    slot.install(None);
    assert_eq!(*slot.get(), Some(7));
}

#[test]
fn absent_library_slot_is_none() {
    // The probe found no library: the slot memoizes absence and every
    // access returns it as an ordinary value, raising nothing.
    let mut slot: Slot<u32> = Slot::new();
    if slot.needs_probe() {
        slot.install(None);
    }
    assert_eq!(*slot.get(), None);
    assert!(!slot.needs_probe());
    assert_eq!(*slot.get(), None);
}

#[test]
fn registry_starts_unprobed_and_slots_are_independent() {
    let mut registry: Registry<u8, u16, u32> = Registry::new();
    assert!(registry.driver.needs_probe());
    assert!(registry.runtime.needs_probe());
    assert!(registry.primitives.needs_probe());

    registry.driver.install(None);
    registry.runtime.install(Some(5u16));
    assert!(!registry.driver.needs_probe());
    assert!(!registry.runtime.needs_probe());
    assert!(registry.primitives.needs_probe());
    assert_eq!(*registry.driver.get(), None);
    assert_eq!(*registry.runtime.get(), Some(5u16));
}
