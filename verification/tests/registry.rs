use keylock::registry::{
    describe, is_keyboard, is_listed, reconcile_selection, scan_devices, DeviceDescriptor,
    FoundDevice, BASELINE_KEY_CODE, REFRESH_INTERVAL_SECS,
};

fn found(path: &str, name: Option<&str>, keys: Option<Vec<u16>>) -> FoundDevice {
    FoundDevice { path: path.to_string(), name: name.map(|n| n.to_string()), keys }
}

fn listed(path: &str) -> DeviceDescriptor {
    DeviceDescriptor { path: path.to_string(), name: format!("kbd ({})", path), keyboard: true }
}

#[test]
fn baseline_key_is_the_letter_a() {
    assert_eq!(BASELINE_KEY_CODE, 30);
    assert_eq!(BASELINE_KEY_CODE, evdev::Key::KEY_A.code());
    assert_eq!(REFRESH_INTERVAL_SECS, 2);
}

#[test]
fn keyboard_needs_the_baseline_key() {
    assert!(is_keyboard(&Some(vec![30])));
    assert!(is_keyboard(&Some(vec![1, 16, 30, 44])));
    assert!(is_keyboard(&Some(vec![272, 30])));
    assert!(!is_keyboard(&Some(vec![])));
    assert!(!is_keyboard(&Some(vec![29, 31, 272, 273])));
    assert!(!is_keyboard(&Some(vec![0])));
    assert!(!is_keyboard(&None));
}

#[test]
fn describe_builds_the_display_name() {
    let d = describe(&found("/dev/input/event3", Some("AT Keyboard"), Some(vec![30])));
    assert_eq!(d.path, "/dev/input/event3");
    assert_eq!(d.name, "AT Keyboard (/dev/input/event3)");
    assert!(d.keyboard);
    let m = describe(&found("/dev/input/event7", None, Some(vec![272])));
    assert_eq!(m.name, "Unknown (/dev/input/event7)");
    assert!(!m.keyboard);
    let n = describe(&found("", Some(""), None));
    assert_eq!(n.name, " ()");
    assert!(!n.keyboard);
}

#[test]
fn scan_keeps_keyboards_in_order() {
    let devices = scan_devices(&vec![
        found("/dev/input/event0", Some("Power Button"), Some(vec![116])),
        found("/dev/input/event1", Some("Keyboard One"), Some(vec![16, 30])),
        found("/dev/input/event2", Some("Mouse"), None),
        found("/dev/input/event3", None, Some(vec![30, 31])),
    ]);
    assert_eq!(devices.len(), 2);
    assert_eq!(devices[0].path, "/dev/input/event1");
    assert_eq!(devices[0].name, "Keyboard One (/dev/input/event1)");
    assert!(devices[0].keyboard);
    assert_eq!(devices[1].path, "/dev/input/event3");
    assert_eq!(devices[1].name, "Unknown (/dev/input/event3)");
    assert!(devices[1].keyboard);
}

#[test]
fn scan_of_nothing_is_empty() {
    assert!(scan_devices(&Vec::new()).is_empty());
    assert!(scan_devices(&vec![found("/dev/input/event2", Some("Mouse"), None)]).is_empty());
}

#[test]
fn is_listed_looks_at_paths() {
    let devices = vec![listed("/dev/input/event1"), listed("/dev/input/event3")];
    assert!(is_listed(&devices, &"/dev/input/event1".to_string()));
    assert!(is_listed(&devices, &"/dev/input/event3".to_string()));
    assert!(!is_listed(&devices, &"/dev/input/event2".to_string()));
    assert!(!is_listed(&devices, &"kbd (/dev/input/event1)".to_string()));
    assert!(!is_listed(&Vec::new(), &"/dev/input/event1".to_string()));
}

#[test]
fn selection_is_cleared_when_device_is_gone() {
    let devices = vec![listed("/dev/input/event1"), listed("/dev/input/event3")];
    let next = reconcile_selection(&devices, Some("/dev/input/event9".to_string()));
    assert_eq!(next, None);
    assert_eq!(reconcile_selection(&Vec::new(), Some("/dev/input/event1".to_string())), None);
}

#[test]
fn first_device_is_selected_when_nothing_is() {
    let devices = vec![listed("/dev/input/event1"), listed("/dev/input/event3")];
    assert_eq!(reconcile_selection(&devices, None), Some("/dev/input/event1".to_string()));
}

#[test]
fn selection_stays_when_device_is_listed() {
    let devices = vec![listed("/dev/input/event1"), listed("/dev/input/event3")];
    let next = reconcile_selection(&devices, Some("/dev/input/event3".to_string()));
    assert_eq!(next, Some("/dev/input/event3".to_string()));
}

#[test]
fn nothing_to_select_from_an_empty_list() {
    assert_eq!(reconcile_selection(&Vec::new(), None), None);
}
