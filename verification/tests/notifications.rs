use cosmic_connect::adapter::{CoreEvent, DeviceId, PairState};
use cosmic_connect::backend::Backend;
use cosmic_connect::models::Device;
use cosmic_connect::notifications::{pairing_summary, show_pairing_notification, PairingDetector};

fn device(id: &str, name: &str, kind: &str) -> Device {
    Device {
        id: id.to_string(),
        name: name.to_string(),
        device_type: kind.to_string(),
        is_reachable: true,
        is_paired: false,
        battery_level: None,
        is_charging: None,
        has_battery: false,
        has_ping: true,
        has_share: true,
        has_findmyphone: false,
        has_sms: false,
        has_clipboard: true,
        has_contacts: false,
        has_mpris: false,
        has_remote_keyboard: false,
        has_sftp: false,
        has_presenter: false,
        has_lockdevice: false,
        has_virtualmonitor: false,
        pairing_requests: 0,
        signal_strength: None,
        network_type: None,
    }
}

fn changed(id: &str, state: PairState) -> CoreEvent {
    CoreEvent::PairStateChanged(DeviceId(id.to_string()), state)
}

#[test]
fn pairing_request_of_a_known_device_is_notified() {
    let mut backend = Backend::new();
    backend.update_device("dev1".to_string(), device("dev1", "Pixel", "tablet"));
    let mut detector = PairingDetector::new();
    let note = detector.observe(&changed("dev1", PairState::Requested), &backend).unwrap();
    assert_eq!(note.device_id, "dev1");
    assert_eq!(note.device_name, "Pixel");
    assert_eq!(note.device_type, "tablet");
}

#[test]
fn redelivered_request_is_not_notified_again() {
    let mut backend = Backend::new();
    backend.update_device("dev1".to_string(), device("dev1", "Pixel", "phone"));
    let mut detector = PairingDetector::new();
    assert!(detector.observe(&changed("dev1", PairState::Requested), &backend).is_some());
    assert!(detector.observe(&changed("dev1", PairState::Requested), &backend).is_none());
    assert!(detector.observe(&changed("dev1", PairState::Requested), &backend).is_none());
}

#[test]
fn a_new_transition_into_requested_is_notified_again() {
    let mut backend = Backend::new();
    backend.update_device("dev1".to_string(), device("dev1", "Pixel", "phone"));
    let mut detector = PairingDetector::new();
    assert!(detector.observe(&changed("dev1", PairState::Requested), &backend).is_some());
    assert!(detector.observe(&changed("dev1", PairState::NotPaired), &backend).is_none());
    assert!(detector.observe(&changed("dev1", PairState::Requested), &backend).is_some());
    assert!(detector.observe(&changed("dev1", PairState::Paired), &backend).is_none());
    assert!(detector.observe(&changed("dev1", PairState::Requested), &backend).is_some());
}

#[test]
fn request_of_an_unknown_device_is_dropped() {
    let mut backend = Backend::new();
    let mut detector = PairingDetector::new();
    assert!(detector.observe(&changed("dev1", PairState::Requested), &backend).is_none());
    backend.update_device("dev1".to_string(), device("dev1", "Pixel", "phone"));
    assert!(detector.observe(&changed("dev1", PairState::Requested), &backend).is_some());
}

#[test]
fn devices_are_told_apart() {
    let mut backend = Backend::new();
    backend.update_device("a".to_string(), device("a", "A", "phone"));
    backend.update_device("b".to_string(), device("b", "B", "phone"));
    let mut detector = PairingDetector::new();
    assert!(detector.observe(&changed("a", PairState::Requested), &backend).is_some());
    assert_eq!(
        detector.observe(&changed("b", PairState::Requested), &backend).map(|n| n.device_name),
        Some("B".to_string())
    );
    assert!(detector.observe(&changed("a", PairState::Requested), &backend).is_none());
}

#[test]
fn other_events_are_ignored_by_the_detector() {
    let mut backend = Backend::new();
    backend.update_device("a".to_string(), device("a", "A", "phone"));
    let mut detector = PairingDetector::new();
    assert!(detector.observe(&CoreEvent::Disconnected(DeviceId("a".to_string())), &backend).is_none());
    assert!(detector.observe(&CoreEvent::ClipboardReceived("x".to_string()), &backend).is_none());
    assert!(detector.observe(&changed("a", PairState::Requested), &backend).is_some());
}

#[test]
fn desktop_notification_names_the_device() {
    assert_eq!(pairing_summary("Pixel"), "Pixel wants to pair");
    assert_eq!(
        show_pairing_notification("Pixel", "dev1"),
        vec![
            "--app-name=COSMIC KDE Connect",
            "--icon=phone",
            "--urgency=critical",
            "--category=device.added",
            "Pixel wants to pair",
            "Open COSMIC Connect to accept or reject",
        ]
    );
}
