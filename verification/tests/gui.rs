use robo::gui::{PlayerSlot, VersusSetupController};

#[test]
fn new_slot_has_no_devices() {
    let s = PlayerSlot::new(String::from("P0"));
    assert_eq!(s.name, "P0");
    assert!(s.devices.is_empty());
}

#[test]
fn slot_forgets_a_removed_device() {
    let mut s = PlayerSlot::new(String::from("P1"));
    s.devices.insert(4);
    s.devices.insert(5);
    s.remove_device(4);
    assert!(!s.devices.contains(&4));
    assert!(s.devices.contains(&5));
}

#[test]
fn setup_starts_with_named_slots_and_unassigned_joypads() {
    let c = VersusSetupController::new(2, &vec![0, 3]);
    assert_eq!(c.slots.len(), 2);
    assert_eq!(c.slots[&0].name, "P0");
    assert_eq!(c.slots[&1].name, "P1");
    assert_eq!(c.connected_devices.len(), 2);
    assert_eq!(c.connected_devices[&0], None);
    assert_eq!(c.connected_devices[&3], None);
}

#[test]
fn devices_come_go_and_change_slots() {
    let mut c = VersusSetupController::new(2, &vec![]);
    c.add_device(7);
    assert_eq!(c.connected_devices[&7], None);
    c.set_device_slot(7, Some(1));
    assert_eq!(c.connected_devices[&7], Some(1));
    c.slots.get_mut(&1).unwrap().devices.insert(7);
    c.set_device_slot(7, Some(0));
    assert!(!c.slots[&1].devices.contains(&7));
    assert_eq!(c.connected_devices[&7], Some(0));
    c.slots.get_mut(&0).unwrap().devices.insert(7);
    c.remove_device(7);
    assert!(!c.connected_devices.contains_key(&7));
    assert!(!c.slots[&0].devices.contains(&7));
}
