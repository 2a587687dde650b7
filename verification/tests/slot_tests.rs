use sidecar_bridge::slot::{SharedProcessSlot, SlotOp};

#[test]
fn new_slot_is_empty() {
    let mut slot: SharedProcessSlot<u32> = SharedProcessSlot::new();
    assert!(!slot.is_installed());
    assert!(slot.handle_mut().is_none());
}

#[test]
fn default_slot_is_empty() {
    let slot: SharedProcessSlot<String> = SharedProcessSlot::default();
    assert!(!slot.is_installed());
}

#[test]
fn install_puts_the_handle_in() {
    let mut slot = SharedProcessSlot::new();
    slot.install(41u32);
    assert!(slot.is_installed());
    assert_eq!(slot.handle_mut(), Some(&mut 41u32));
}

#[test]
fn install_replaces_the_handle_that_was_there() {
    let mut slot = SharedProcessSlot::new();
    slot.install("first".to_string());
    slot.install("second".to_string());
    assert!(slot.is_installed());
    assert_eq!(slot.handle_mut().map(|h| h.clone()), Some("second".to_string()));
}

#[test]
fn clear_empties_the_slot() {
    let mut slot = SharedProcessSlot::new();
    slot.install(1u8);
    slot.clear();
    assert!(!slot.is_installed());
    assert!(slot.handle_mut().is_none());
    slot.clear();
    assert!(!slot.is_installed());
}

#[test]
fn handle_mut_reaches_the_installed_handle() {
    let mut slot = SharedProcessSlot::new();
    slot.install(Vec::<u8>::new());
    match slot.handle_mut() {
        Some(handle) => handle.push(7),
        None => panic!("a handle was installed"),
    }
    assert_eq!(slot.handle_mut(), Some(&mut vec![7u8]));
}

#[test]
fn apply_follows_the_operation() {
    let mut slot: SharedProcessSlot<u32> = SharedProcessSlot::new();
    slot.apply(SlotOp::Keep);
    assert!(!slot.is_installed());
    slot.apply(SlotOp::Install(5));
    assert_eq!(slot.handle_mut(), Some(&mut 5));
    slot.apply(SlotOp::Keep);
    assert_eq!(slot.handle_mut(), Some(&mut 5));
    slot.apply(SlotOp::Install(6));
    assert_eq!(slot.handle_mut(), Some(&mut 6));
    slot.apply(SlotOp::Clear);
    assert!(!slot.is_installed());
}
