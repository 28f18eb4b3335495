use cosmic_connect::adapter::{
    CoreEvent, Device as CoreDevice, DeviceId, PairState, SmsMessages,
};
use cosmic_connect::applet::{on_service_event, refresh_tick, AppletTask, KdeConnectApplet};
use cosmic_connect::backend::Backend;
use cosmic_connect::cache::Cache;
use cosmic_connect::dbus_client::{Device as BusDevice, ServiceEvent};
use cosmic_connect::messages::Message;
use cosmic_connect::models::Device;
use cosmic_connect::service::{handle_event, DaemonInterface, DbusDevice, ServiceSignal};

fn core_device(id: &str, name: &str, pair_state: PairState) -> CoreDevice {
    CoreDevice { device_id: DeviceId(id.to_string()), name: name.to_string(), pair_state }
}

fn connected(id: &str, name: &str, pair_state: PairState) -> CoreEvent {
    CoreEvent::Connected(DeviceId(id.to_string()), core_device(id, name, pair_state))
}

fn paired(id: &str, name: &str) -> CoreEvent {
    CoreEvent::DevicePaired(DeviceId(id.to_string()), core_device(id, name, PairState::Requested))
}

fn disconnected(id: &str) -> CoreEvent {
    CoreEvent::Disconnected(DeviceId(id.to_string()))
}

fn bus_device(id: &str, name: &str, is_paired: bool) -> BusDevice {
    BusDevice {
        id: id.to_string(),
        name: name.to_string(),
        device_type: "phone".to_string(),
        is_paired,
        is_reachable: true,
    }
}

fn listed(devices: &Cache<DbusDevice>) -> Vec<String> {
    let mut ids: Vec<String> =
        DaemonInterface {}.list_devices(devices).into_iter().map(|d| d.id).collect();
    ids.sort();
    ids
}

#[test]
fn connected_then_disconnected() {
    let mut devices: Cache<DbusDevice> = Cache::new();
    let signal = handle_event(connected("dev1", "Pixel", PairState::Paired), &mut devices);
    let all = DaemonInterface {}.list_devices(&devices);
    assert_eq!(all.len(), 1);
    assert_eq!(all[0].id, "dev1");
    assert_eq!(all[0].name, "Pixel");
    assert!(all[0].is_paired);
    assert!(all[0].is_reachable);
    assert_eq!(all[0].device_type, "phone");
    match signal {
        Some(ServiceSignal::DeviceConnected(id, device)) => {
            assert_eq!(id, "dev1");
            assert_eq!(device.name, "Pixel");
            assert!(device.is_paired);
        }
        _ => panic!("a connected device is signalled"),
    }
    let signal = handle_event(disconnected("dev1"), &mut devices);
    assert!(DaemonInterface {}.list_devices(&devices).is_empty());
    assert!(matches!(signal, Some(ServiceSignal::DeviceDisconnected(id)) if id == "dev1"));
}

#[test]
fn cache_holds_devices_whose_last_event_announced_them() {
    let mut devices: Cache<DbusDevice> = Cache::new();
    let events = vec![
        connected("a", "A", PairState::NotPaired),
        connected("b", "B", PairState::Paired),
        disconnected("a"),
        paired("c", "C"),
        disconnected("d"),
        connected("a", "A again", PairState::NotPaired),
        disconnected("b"),
        CoreEvent::ClipboardReceived("text".to_string()),
        CoreEvent::PairStateChanged(DeviceId("e".to_string()), PairState::Requested),
    ];
    for event in events {
        handle_event(event, &mut devices);
    }
    assert_eq!(listed(&devices), vec!["a", "c"]);
    assert_eq!(devices.get("a").map(|d| d.name.clone()), Some("A again".to_string()));
    assert_eq!(devices.get("c").map(|d| d.is_paired), Some(true));
}

#[test]
fn connected_device_is_paired_only_if_the_engine_says_so() {
    let mut devices: Cache<DbusDevice> = Cache::new();
    handle_event(connected("a", "A", PairState::NotPaired), &mut devices);
    handle_event(connected("b", "B", PairState::Requested), &mut devices);
    handle_event(connected("c", "C", PairState::Paired), &mut devices);
    assert_eq!(devices.get("a").map(|d| d.is_paired), Some(false));
    assert_eq!(devices.get("b").map(|d| d.is_paired), Some(false));
    assert_eq!(devices.get("c").map(|d| d.is_paired), Some(true));
}

#[test]
fn upsert_overwrites_the_whole_record() {
    let mut devices: Cache<DbusDevice> = Cache::new();
    handle_event(connected("a", "First", PairState::Paired), &mut devices);
    handle_event(connected("a", "Second", PairState::NotPaired), &mut devices);
    assert_eq!(devices.len(), 1);
    let device = devices.get("a").unwrap();
    assert_eq!(device.name, "Second");
    assert!(!device.is_paired);
}

#[test]
fn events_without_a_device_leave_the_cache_alone() {
    let mut devices: Cache<DbusDevice> = Cache::new();
    handle_event(connected("a", "A", PairState::Paired), &mut devices);
    assert!(handle_event(CoreEvent::ClipboardReceived("x".to_string()), &mut devices).is_none());
    assert!(handle_event(CoreEvent::StateUpdated("{}".to_string()), &mut devices).is_none());
    assert!(
        handle_event(CoreEvent::Mpris(DeviceId("a".to_string()), "{}".to_string()), &mut devices)
            .is_none()
    );
    assert!(handle_event(
        CoreEvent::PairStateChanged(DeviceId("a".to_string()), PairState::NotPaired),
        &mut devices
    )
    .is_none());
    let signal = handle_event(CoreEvent::SmsMessages(SmsMessages { messages: vec![] }), &mut devices);
    assert!(matches!(signal, Some(ServiceSignal::SmsMessagesReceived(_))));
    assert_eq!(listed(&devices), vec!["a"]);
}

#[test]
fn removing_an_unknown_device_is_no_error() {
    let mut devices: Cache<DbusDevice> = Cache::new();
    let signal = handle_event(disconnected("ghost"), &mut devices);
    assert!(matches!(signal, Some(ServiceSignal::DeviceDisconnected(_))));
    assert_eq!(devices.len(), 0);
}

#[test]
fn cache_keeps_order_of_first_arrival() {
    let mut cache: Cache<String> = Cache::new();
    cache.upsert("b".to_string(), "1".to_string());
    cache.upsert("a".to_string(), "2".to_string());
    cache.upsert("b".to_string(), "3".to_string());
    assert_eq!(cache.len(), 2);
    assert_eq!(cache.key_at(0), "b");
    assert_eq!(cache.value_at(0), "3");
    assert_eq!(cache.key_at(1), "a");
    assert_eq!(cache.position("a"), Some(1));
    cache.remove("b");
    assert_eq!(cache.position("a"), Some(0));
    assert_eq!(cache.get("b"), None);
    cache.clear();
    assert_eq!(cache.len(), 0);
}

#[test]
fn backend_cache_follows_service_events() {
    let mut backend = Backend::new();
    let outcome = on_service_event(
        ServiceEvent::DeviceConnected("dev1".to_string(), bus_device("dev1", "Pixel", true)),
        &mut backend,
    );
    assert!(matches!(outcome.message, Message::RefreshDevices));
    assert!(outcome.notice.is_none());
    assert!(outcome.starts_burst);
    let all = backend.fetch_devices();
    assert_eq!(all.len(), 1);
    assert_eq!(all[0].name, "Pixel");
    assert!(all[0].is_paired);
    assert!(all[0].has_sms);
    assert_eq!(all[0].is_charging, None);
    assert!(all[0].is_reachable);
    let outcome =
        on_service_event(ServiceEvent::DeviceDisconnected("dev1".to_string()), &mut backend);
    assert!(!outcome.starts_burst);
    assert!(backend.fetch_devices().is_empty());
}

#[test]
fn a_reported_device_is_reachable_whatever_the_report_says() {
    let mut unreachable = bus_device("dev1", "Pixel", false);
    unreachable.is_reachable = false;
    let mut backend = Backend::new();
    on_service_event(
        ServiceEvent::DeviceConnected("dev1".to_string(), unreachable.clone()),
        &mut backend,
    );
    assert_eq!(backend.device("dev1").map(|d| d.is_reachable), Some(true));
    assert_eq!(backend.device("dev1").map(|d| d.is_paired), Some(false));
    on_service_event(ServiceEvent::DevicePaired("dev1".to_string(), unreachable), &mut backend);
    assert_eq!(backend.device("dev1").map(|d| d.is_reachable), Some(true));
    assert_eq!(backend.device("dev1").map(|d| d.is_paired), Some(true));
}

#[test]
fn every_connected_or_paired_device_restarts_the_burst() {
    let mut backend = Backend::new();
    let connected = on_service_event(
        ServiceEvent::DeviceConnected("a".to_string(), bus_device("a", "A", false)),
        &mut backend,
    );
    let again = on_service_event(
        ServiceEvent::DeviceConnected("a".to_string(), bus_device("a", "A", false)),
        &mut backend,
    );
    let paired = on_service_event(
        ServiceEvent::DevicePaired("a".to_string(), bus_device("a", "A", false)),
        &mut backend,
    );
    let sms = on_service_event(ServiceEvent::SmsMessagesReceived("{}".to_string()), &mut backend);
    let gone = on_service_event(ServiceEvent::DeviceDisconnected("a".to_string()), &mut backend);
    assert!(connected.starts_burst && again.starts_burst && paired.starts_burst);
    assert!(!sms.starts_burst && !gone.starts_burst);
    assert!(connected.notice.is_none() && paired.notice.is_some());
}

#[test]
fn only_an_accepted_pairing_starts_the_burst_among_the_tasks() {
    let id = || "dev1".to_string();
    assert!(AppletTask::AcceptPairing(id()).starts_burst());
    assert!(!AppletTask::Pair(id()).starts_burst());
    assert!(!AppletTask::RejectPairing(id()).starts_burst());
    assert!(!AppletTask::Unpair(id()).starts_burst());
    assert!(!AppletTask::Ping(id()).starts_burst());
    assert!(!AppletTask::FetchDevices.starts_burst());
    assert!(!AppletTask::Idle.starts_burst());
}

#[test]
fn pairing_gives_a_notice_and_starts_the_burst() {
    let mut backend = Backend::new();
    let outcome = on_service_event(
        ServiceEvent::DevicePaired("dev1".to_string(), bus_device("dev1", "Pixel", false)),
        &mut backend,
    );
    assert!(outcome.starts_burst);
    assert_eq!(
        outcome.notice,
        Some(("Device Paired".to_string(), "Pixel is now paired".to_string()))
    );
    assert_eq!(backend.device("dev1").map(|d| d.is_paired), Some(true));
    let outcome =
        on_service_event(ServiceEvent::SmsMessagesReceived("{}".to_string()), &mut backend);
    assert!(matches!(outcome.message, Message::RefreshDevices));
    assert!(!outcome.starts_burst);
    assert_eq!(backend.fetch_devices().len(), 1);
}

#[test]
fn refresh_is_fast_for_ten_seconds_after_a_pairing() {
    assert!(matches!(refresh_tick(None, 5_000), (Message::RefreshDevices, 1000)));
    assert!(matches!(refresh_tick(Some(1_000), 1_000), (Message::DelayedRefresh, 0)));
    assert!(matches!(refresh_tick(Some(1_000), 10_999), (Message::DelayedRefresh, 0)));
    assert!(matches!(refresh_tick(Some(1_000), 11_000), (Message::RefreshDevices, 1000)));
    assert!(matches!(refresh_tick(Some(1_000), 500), (Message::DelayedRefresh, 0)));
    assert!(matches!(refresh_tick(Some(u64::MAX), u64::MAX), (Message::DelayedRefresh, 0)));
    assert!(matches!(refresh_tick(Some(0), u64::MAX), (Message::RefreshDevices, 1000)));
}

#[test]
fn ui_device_from_core_device() {
    let device = Device::from(core_device("dev1", "Pixel", PairState::Paired));
    assert_eq!(device.id, "dev1");
    assert_eq!(device.name, "Pixel");
    assert_eq!(device.device_type, "phone");
    assert!(device.is_paired);
    assert!(device.is_reachable);
    assert_eq!(device.is_charging, Some(false));
    assert!(device.has_ping && device.has_share && device.has_clipboard);
    assert!(!device.has_sms && !device.has_findmyphone);
    assert!(!Device::from(core_device("d", "n", PairState::Requested)).is_paired);
}

#[test]
fn applet_popup_toggles() {
    let mut applet = KdeConnectApplet::init();
    assert!(matches!(applet.update(Message::TogglePopup, 4), AppletTask::OpenPopup(4)));
    assert_eq!(applet.popup(), Some(4));
    assert!(applet.view_window(4));
    assert!(!applet.view_window(5));
    assert!(matches!(applet.update(Message::PopupClosed(9), 0), AppletTask::Idle));
    assert_eq!(applet.popup(), Some(4));
    assert!(matches!(applet.update(Message::TogglePopup, 5), AppletTask::DestroyPopup(4)));
    assert_eq!(applet.popup(), None);
    applet.update(Message::TogglePopup, 6);
    applet.update(Message::PopupClosed(6), 0);
    assert_eq!(applet.popup(), None);
}

#[test]
fn applet_keeps_the_devices_it_is_handed() {
    let mut applet = KdeConnectApplet::init();
    let mut backend = Backend::new();
    on_service_event(
        ServiceEvent::DeviceConnected("a".to_string(), bus_device("a", "A", true)),
        &mut backend,
    );
    on_service_event(
        ServiceEvent::DeviceConnected("b".to_string(), bus_device("b", "B", false)),
        &mut backend,
    );
    assert!(matches!(applet.update(Message::RefreshDevices, 0), AppletTask::FetchDevices));
    applet.update(Message::DevicesUpdated(backend.fetch_devices()), 0);
    assert_eq!(applet.device("a").map(|d| d.name.clone()), Some("A".to_string()));
    assert_eq!(applet.device("b").map(|d| d.is_paired), Some(false));
    applet.update(Message::DevicesUpdated(Vec::new()), 0);
    assert!(applet.device("a").is_none());
}

#[test]
fn applet_device_menu_toggles() {
    let mut applet = KdeConnectApplet::init();
    applet.update(Message::ToggleDeviceMenu("a".to_string()), 0);
    assert_eq!(applet.expanded_device(), Some("a".to_string()));
    applet.update(Message::ToggleDeviceMenu("b".to_string()), 0);
    assert_eq!(applet.expanded_device(), Some("b".to_string()));
    applet.update(Message::ToggleDeviceMenu("b".to_string()), 0);
    assert_eq!(applet.expanded_device(), None);
}

#[test]
fn applet_turns_actions_into_tasks() {
    let mut applet = KdeConnectApplet::init();
    let id = || "dev1".to_string();
    assert!(matches!(applet.update(Message::PingDevice(id()), 0), AppletTask::Ping(d) if d == "dev1"));
    assert!(matches!(applet.update(Message::RingDevice(id()), 0), AppletTask::Ring(d) if d == "dev1"));
    assert!(matches!(applet.update(Message::BrowseDevice(id()), 0), AppletTask::Browse(d) if d == "dev1"));
    assert!(matches!(applet.update(Message::PairDevice(id()), 0), AppletTask::Pair(d) if d == "dev1"));
    assert!(matches!(applet.update(Message::UnpairDevice(id()), 0), AppletTask::Unpair(d) if d == "dev1"));
    assert!(matches!(applet.update(Message::SendFiles(id()), 0), AppletTask::PickAndSendFiles(d) if d == "dev1"));
    assert!(matches!(applet.update(Message::ShareClipboard(id()), 0), AppletTask::ShareClipboard(d) if d == "dev1"));
    assert!(matches!(applet.update(Message::AcceptPairing(id()), 0), AppletTask::AcceptPairing(d) if d == "dev1"));
    assert!(matches!(applet.update(Message::RejectPairing(id()), 0), AppletTask::RejectPairing(d) if d == "dev1"));
    assert!(matches!(applet.update(Message::DelayedRefresh, 0), AppletTask::FetchDevices));
    assert!(matches!(applet.update(Message::OpenSettings, 0), AppletTask::Idle));
    assert!(matches!(applet.update(Message::ShareText(id()), 0), AppletTask::Idle));
    assert!(matches!(
        applet.update(Message::MprisReceived(id(), "{}".to_string()), 0),
        AppletTask::Idle
    ));
}

#[test]
fn sms_window_is_started_under_the_device_name() {
    let mut applet = KdeConnectApplet::init();
    let mut device = Device::from(core_device("dev1", "Pixel", PairState::Paired));
    device.has_sms = true;
    applet.update(Message::DevicesUpdated(vec![device]), 0);
    assert!(matches!(
        applet.update(Message::SendSMS("dev1".to_string()), 0),
        AppletTask::LaunchSms(id, name) if id == "dev1" && name == "Pixel"
    ));
    assert!(matches!(
        applet.update(Message::SendSMS("other".to_string()), 0),
        AppletTask::LaunchSms(id, name) if id == "other" && name == "Unknown"
    ));
}
