//! The applet: what it keeps, how each message changes it, and what it asks
//! its host to do next.

use vstd::prelude::*;
use crate::backend::Backend;
use crate::cache::Cache;
use crate::dbus_client::{DeviceView as BusDeviceView, ServiceEvent, ServiceEventView};
use crate::messages::{Message, MessageView};
use crate::models::{Device, DeviceView};
use crate::relay::{live_after, live_step, Presence};
use crate::text::{copy_of, push_text, same_text, text_of, views_of};

verus! {

/// How long after a pairing the fast refreshes go on, in milliseconds.
pub const BURST_WINDOW_MS: u64 = 10000;

/// The pause between two fast refreshes, in milliseconds.
pub const BURST_TICK_MS: u64 = 500;

/// The extra pause before a refresh outside the window, in milliseconds.
pub const STEADY_PAUSE_MS: u64 = 1000;

/// The pause between two refreshes of the slow, steady poll, in seconds.
pub const BACKSTOP_POLL_SECS: u64 = 30;

/// What the host of the applet is asked to do after a message.
pub enum AppletTask {
    /// Nothing.
    Idle,
    /// Close the popup with this surface identifier.
    DestroyPopup(u64),
    /// Open a popup with this surface identifier and read the devices.
    OpenPopup(u64),
    /// Read the devices and hand them back as `DevicesUpdated`.
    FetchDevices,
    Ping(String),
    Ring(String),
    Browse(String),
    Pair(String),
    Unpair(String),
    /// Let the user pick files and send them to the device.
    PickAndSendFiles(String),
    /// Read the clipboard and send it to the device.
    ShareClipboard(String),
    /// Start the SMS window for the device of this identifier and name.
    LaunchSms(String, String),
    /// Accept the pairing and note the time of it.
    AcceptPairing(String),
    RejectPairing(String),
}

/// What a `AppletTask` holds, as mathematical values.
pub ghost enum AppletTaskView {
    Idle,
    DestroyPopup(u64),
    OpenPopup(u64),
    FetchDevices,
    Ping(Seq<char>),
    Ring(Seq<char>),
    Browse(Seq<char>),
    Pair(Seq<char>),
    Unpair(Seq<char>),
    PickAndSendFiles(Seq<char>),
    ShareClipboard(Seq<char>),
    LaunchSms(Seq<char>, Seq<char>),
    AcceptPairing(Seq<char>),
    RejectPairing(Seq<char>),
}

impl View for AppletTask {
    type V = AppletTaskView;

    open spec fn view(&self) -> AppletTaskView {
        match self {
            AppletTask::Idle => AppletTaskView::Idle,
            AppletTask::DestroyPopup(id) => AppletTaskView::DestroyPopup(*id),
            AppletTask::OpenPopup(id) => AppletTaskView::OpenPopup(*id),
            AppletTask::FetchDevices => AppletTaskView::FetchDevices,
            AppletTask::Ping(id) => AppletTaskView::Ping(id@),
            AppletTask::Ring(id) => AppletTaskView::Ring(id@),
            AppletTask::Browse(id) => AppletTaskView::Browse(id@),
            AppletTask::Pair(id) => AppletTaskView::Pair(id@),
            AppletTask::Unpair(id) => AppletTaskView::Unpair(id@),
            AppletTask::PickAndSendFiles(id) => AppletTaskView::PickAndSendFiles(id@),
            AppletTask::ShareClipboard(id) => AppletTaskView::ShareClipboard(id@),
            AppletTask::LaunchSms(id, name) => AppletTaskView::LaunchSms(id@, name@),
            AppletTask::AcceptPairing(id) => AppletTaskView::AcceptPairing(id@),
            AppletTask::RejectPairing(id) => AppletTaskView::RejectPairing(id@),
        }
    }
}

impl AppletTask {
    /// Whether the window of fast refreshes opens with what the host is
    /// asked to do: it does with an accepted pairing, with nothing else.
    pub fn starts_burst(&self) -> (r: bool)
        ensures
            r == (self@ is AcceptPairing),
    {
        match self {
            AppletTask::AcceptPairing(_) => true,
            _ => false,
        }
    }
}

/// The applet's state.
pub struct KdeConnectApplet {
    popup: Option<u64>,
    devices: Cache<Device>,
    expanded_device: Option<String>,
}

/// The applet's state as mathematical values.
pub ghost struct AppletView {
    pub popup: Option<u64>,
    pub devices: Map<Seq<char>, DeviceView>,
    pub expanded_device: Option<Seq<char>>,
}

/// The devices of a list, each under its identifier; of two devices with
/// one identifier the later stays.
pub open spec fn devices_by_id(list: Seq<DeviceView>) -> Map<Seq<char>, DeviceView>
    decreases list.len(),
{
    if list.len() == 0 {
        Map::empty()
    } else {
        devices_by_id(list.drop_last()).insert(list.last().id, list.last())
    }
}

/// The name under which the SMS window is started for device `id`.
pub open spec fn sms_window_name(devices: Map<Seq<char>, DeviceView>, id: Seq<char>) -> Seq<char> {
    if devices.dom().contains(id) {
        devices[id].name
    } else {
        "Unknown"@
    }
}

/// The state after a message. `fresh` is the surface identifier to use if
/// a popup is opened.
pub open spec fn state_after(state: AppletView, message: MessageView, fresh: u64) -> AppletView {
    match message {
        MessageView::TogglePopup => AppletView {
            popup: if state.popup is Some {
                None
            } else {
                Some(fresh)
            },
            ..state
        },
        MessageView::PopupClosed(id) => AppletView {
            popup: if state.popup == Some(id) {
                None
            } else {
                state.popup
            },
            ..state
        },
        MessageView::DevicesUpdated(list) => AppletView { devices: devices_by_id(list), ..state },
        MessageView::ToggleDeviceMenu(id) => AppletView {
            expanded_device: if state.expanded_device == Some(id) {
                None
            } else {
                Some(id)
            },
            ..state
        },
        _ => state,
    }
}

/// What the host is asked to do after a message.
pub open spec fn task_after(state: AppletView, message: MessageView, fresh: u64) -> AppletTaskView {
    match message {
        MessageView::TogglePopup => match state.popup {
            Some(open) => AppletTaskView::DestroyPopup(open),
            None => AppletTaskView::OpenPopup(fresh),
        },
        MessageView::RefreshDevices => AppletTaskView::FetchDevices,
        MessageView::DelayedRefresh => AppletTaskView::FetchDevices,
        MessageView::PingDevice(id) => AppletTaskView::Ping(id),
        MessageView::RingDevice(id) => AppletTaskView::Ring(id),
        MessageView::BrowseDevice(id) => AppletTaskView::Browse(id),
        MessageView::PairDevice(id) => AppletTaskView::Pair(id),
        MessageView::UnpairDevice(id) => AppletTaskView::Unpair(id),
        MessageView::SendFiles(id) => AppletTaskView::PickAndSendFiles(id),
        MessageView::ShareClipboard(id) => AppletTaskView::ShareClipboard(id),
        MessageView::SendSMS(id) => AppletTaskView::LaunchSms(id, sms_window_name(state.devices, id)),
        MessageView::AcceptPairing(id) => AppletTaskView::AcceptPairing(id),
        MessageView::RejectPairing(id) => AppletTaskView::RejectPairing(id),
        _ => AppletTaskView::Idle,
    }
}

impl KdeConnectApplet {
    /// Every applet made by this module is well formed.
    pub closed spec fn wf(&self) -> bool {
        self.devices.wf()
    }

    /// The applet's state as mathematical values.
    pub closed spec fn view(&self) -> AppletView {
        AppletView {
            popup: self.popup,
            devices: self.devices@,
            expanded_device: text_of(self.expanded_device),
        }
    }

    /// An applet without popup, devices or expanded device.
    pub fn init() -> (r: Self)
        ensures
            r.wf(),
            r@ == (AppletView { popup: None, devices: Map::empty(), expanded_device: None }),
    {
        KdeConnectApplet { popup: None, devices: Cache::new(), expanded_device: None }
    }

    /// The surface identifier of the open popup.
    pub fn popup(&self) -> (r: Option<u64>)
        ensures
            r == self@.popup,
    {
        self.popup
    }

    /// The device whose menu is expanded.
    pub fn expanded_device(&self) -> (r: Option<String>)
        ensures
            text_of(r) == self@.expanded_device,
    {
        copy_of(&self.expanded_device)
    }

    /// The device stored under `device_id`.
    pub fn device(&self, device_id: &str) -> (r: Option<&Device>)
        requires
            self.wf(),
        ensures
            r is Some == self@.devices.dom().contains(device_id@),
            r is Some ==> r->0@ == self@.devices[device_id@],
    {
        self.devices.get(device_id)
    }

    /// Whether the popup of surface `id` is the one whose content is drawn.
    pub fn view_window(&self, id: u64) -> (r: bool)
        ensures
            r == (self@.popup == Some(id)),
    {
        match self.popup {
            Some(open) => open == id,
            None => false,
        }
    }

    /// What to notify when a surface is asked to close.
    pub fn on_close_requested(&self, id: u64) -> (r: Option<Message>)
        ensures
            r is Some && r->0@ == MessageView::PopupClosed(id),
    {
        Some(Message::PopupClosed(id))
    }

    fn replace_devices(&mut self, list: Vec<Device>)
        requires
            old(self).wf(),
        ensures
            final(self).wf(),
            final(self)@ == (AppletView { devices: devices_by_id(views_of(list@)), ..old(self)@ }),
    {
        let ghost target = views_of(list@);
        self.devices.clear();
        let mut list = list;
        let n = list.len();
        let mut i: usize = 0;
        proof {
            assert(target.take(0) =~= Seq::<DeviceView>::empty());
        }
        while i < n
            invariant
                i <= n,
                list.len() == n,
                target.len() == n,
                self.devices.wf(),
                self.popup == old(self).popup,
                self.expanded_device == old(self).expanded_device,
                forall|k: int| i <= k < n ==> (#[trigger] list@[k])@ == target[k],
                self.devices@ == devices_by_id(target.take(i as int)),
            decreases n - i,
        {
            let device = list[i].clone();
            proof {
                assert(target.take(i + 1).drop_last() =~= target.take(i as int));
                assert(target.take(i + 1).last() == target[i as int]);
            }
            self.devices.upsert(device.id.clone(), device);
            i += 1;
        }
        proof {
            assert(target.take(n as int) =~= target);
        }
    }

    /// Applies one message and says what the host is to do. `fresh` is the
    /// surface identifier to use if a popup is opened.
    pub fn update(&mut self, message: Message, fresh: u64) -> (task: AppletTask)
        requires
            old(self).wf(),
        ensures
            final(self).wf(),
            final(self)@ == state_after(old(self)@, message@, fresh),
            task@ == task_after(old(self)@, message@, fresh),
    {
        match message {
            Message::TogglePopup => {
                match self.popup {
                    Some(open) => {
                        self.popup = None;
                        AppletTask::DestroyPopup(open)
                    },
                    None => {
                        self.popup = Some(fresh);
                        AppletTask::OpenPopup(fresh)
                    },
                }
            },
            Message::PopupClosed(id) => {
                let closes = match self.popup {
                    Some(open) => open == id,
                    None => false,
                };
                if closes {
                    self.popup = None;
                }
                AppletTask::Idle
            },
            Message::RefreshDevices => AppletTask::FetchDevices,
            Message::DevicesUpdated(devices) => {
                self.replace_devices(devices);
                AppletTask::Idle
            },
            Message::DelayedRefresh => AppletTask::FetchDevices,
            Message::ToggleDeviceMenu(device_id) => {
                let same = match &self.expanded_device {
                    Some(open) => same_text(open.as_str(), device_id.as_str()),
                    None => false,
                };
                if same {
                    self.expanded_device = None;
                } else {
                    self.expanded_device = Some(device_id);
                }
                AppletTask::Idle
            },
            Message::PingDevice(device_id) => AppletTask::Ping(device_id),
            Message::RingDevice(device_id) => AppletTask::Ring(device_id),
            Message::BrowseDevice(device_id) => AppletTask::Browse(device_id),
            Message::PairDevice(device_id) => AppletTask::Pair(device_id),
            Message::UnpairDevice(device_id) => AppletTask::Unpair(device_id),
            Message::SendFiles(device_id) => AppletTask::PickAndSendFiles(device_id),
            Message::ShareClipboard(device_id) => AppletTask::ShareClipboard(device_id),
            Message::SendSMS(device_id) => {
                let device_name = match self.devices.get(device_id.as_str()) {
                    Some(device) => device.name.clone(),
                    None => String::from_str("Unknown"),
                };
                AppletTask::LaunchSms(device_id, device_name)
            },
            Message::AcceptPairing(device_id) => AppletTask::AcceptPairing(device_id),
            Message::RejectPairing(device_id) => AppletTask::RejectPairing(device_id),
            _ => AppletTask::Idle,
        }
    }
}

/// The record that the applet keeps for a device the service reports: a
/// device that is reported is reachable, whatever the report says of it.
pub open spec fn applet_record(id: Seq<char>, device: BusDeviceView, paired: bool) -> DeviceView {
    DeviceView {
        id,
        name: device.name,
        device_type: "phone"@,
        is_paired: paired,
        is_reachable: true,
        battery_level: None,
        is_charging: None,
        network_type: None,
        signal_strength: None,
        pairing_requests: 0,
        has_battery: false,
        has_ping: true,
        has_sms: true,
        has_contacts: false,
        has_clipboard: true,
        has_findmyphone: true,
        has_share: true,
        has_sftp: false,
        has_mpris: false,
        has_remote_keyboard: false,
        has_presenter: false,
        has_lockdevice: false,
        has_virtualmonitor: false,
    }
}

/// The live devices after a service event: a connected or paired device is
/// stored whole and reachable, a disconnected device is dropped.
pub open spec fn live_devices_step(
    devices: Map<Seq<char>, DeviceView>,
    event: ServiceEventView,
) -> Map<Seq<char>, DeviceView> {
    match event {
        ServiceEventView::DeviceConnected(id, d) => devices.insert(
            id,
            applet_record(id, d, d.is_paired),
        ),
        ServiceEventView::DevicePaired(id, d) => devices.insert(id, applet_record(id, d, true)),
        ServiceEventView::DeviceDisconnected(id) => devices.remove(id),
        ServiceEventView::SmsMessagesReceived(_) => devices,
    }
}

/// What follows from a service event besides the change of the cache.
pub struct RelayOutcome {
    /// The message for the applet: the devices changed.
    pub message: Message,
    /// Title and text of a desktop notification to show, if any.
    pub notice: Option<(String, String)>,
    /// Whether the window of fast refreshes starts now.
    pub starts_burst: bool,
}

/// The notice that a service event gives rise to: a paired device is
/// announced by name.
pub open spec fn notice_of(event: ServiceEventView) -> Option<(Seq<char>, Seq<char>)> {
    match event {
        ServiceEventView::DevicePaired(_, d) => Some(("Device Paired"@, d.name + " is now paired"@)),
        _ => None,
    }
}

/// The view of an optional notice.
pub open spec fn notice_view(notice: Option<(String, String)>) -> Option<(Seq<char>, Seq<char>)> {
    match notice {
        Some((title, text)) => Some((title@, text@)),
        None => None,
    }
}

fn record_of(id: &String, device: &crate::dbus_client::Device, paired: bool) -> (r: Device)
    ensures
        r@ == applet_record(id@, device@, paired),
{
    Device {
        id: id.clone(),
        name: device.name.clone(),
        device_type: String::from_str("phone"),
        is_paired: paired,
        is_reachable: true,
        battery_level: None,
        is_charging: None,
        network_type: None,
        signal_strength: None,
        pairing_requests: 0,
        has_battery: false,
        has_ping: true,
        has_sms: true,
        has_contacts: false,
        has_clipboard: true,
        has_findmyphone: true,
        has_share: true,
        has_sftp: false,
        has_mpris: false,
        has_remote_keyboard: false,
        has_presenter: false,
        has_lockdevice: false,
        has_virtualmonitor: false,
    }
}

/// Whether a service event starts the window of fast refreshes, or starts
/// it again: every event that reports a device as connected or as paired.
pub open spec fn opens_burst(event: ServiceEventView) -> bool {
    event is DeviceConnected || event is DevicePaired
}

/// Applies one service event to the cache of live devices. Every event is
/// followed by the message that the devices changed; a connected or paired
/// device starts the window of fast refreshes, and a pairing also gives a
/// notice.
pub fn on_service_event(event: ServiceEvent, backend: &mut Backend) -> (r: RelayOutcome)
    requires
        old(backend).wf(),
    ensures
        final(backend).wf(),
        final(backend).is_initialized() == old(backend).is_initialized(),
        final(backend).devices() == live_devices_step(old(backend).devices(), event@),
        r.message@ == MessageView::RefreshDevices,
        notice_view(r.notice) == notice_of(event@),
        r.starts_burst == opens_burst(event@),
{
    match event {
        ServiceEvent::DeviceConnected(device_id, device) => {
            let record = record_of(&device_id, &device, device.is_paired);
            backend.update_device(device_id, record);
            RelayOutcome { message: Message::RefreshDevices, notice: None, starts_burst: true }
        },
        ServiceEvent::DevicePaired(device_id, device) => {
            let mut text = device.name.clone();
            push_text(&mut text, " is now paired");
            let record = record_of(&device_id, &device, true);
            backend.update_device(device_id, record);
            RelayOutcome {
                message: Message::RefreshDevices,
                notice: Some((String::from_str("Device Paired"), text)),
                starts_burst: true,
            }
        },
        ServiceEvent::DeviceDisconnected(device_id) => {
            backend.remove_device(device_id.as_str());
            RelayOutcome { message: Message::RefreshDevices, notice: None, starts_burst: false }
        },
        ServiceEvent::SmsMessagesReceived(_) => {
            RelayOutcome { message: Message::RefreshDevices, notice: None, starts_burst: false }
        },
    }
}

/// What a service event means for the set of live devices.
pub open spec fn service_presence(event: ServiceEventView) -> Presence {
    match event {
        ServiceEventView::DeviceConnected(id, _) => Presence::Announce(id),
        ServiceEventView::DevicePaired(id, _) => Presence::Announce(id),
        ServiceEventView::DeviceDisconnected(id) => Presence::Withdraw(id),
        ServiceEventView::SmsMessagesReceived(_) => Presence::Other,
    }
}

/// The live devices after the events of `events`, in order.
pub open spec fn live_devices_after(
    devices: Map<Seq<char>, DeviceView>,
    events: Seq<ServiceEventView>,
) -> Map<Seq<char>, DeviceView>
    decreases events.len(),
{
    if events.len() == 0 {
        devices
    } else {
        live_devices_step(live_devices_after(devices, events.drop_last()), events.last())
    }
}

/// The applet's cache follows the rule of live devices: after any run of
/// service events it holds exactly the devices that the rule calls live.
pub proof fn lemma_live_devices(devices: Map<Seq<char>, DeviceView>, events: Seq<ServiceEventView>)
    ensures
        live_devices_after(devices, events).dom() == live_after(
            devices.dom(),
            events.map_values(|e: ServiceEventView| service_presence(e)),
        ),
    decreases events.len(),
{
    let ps = events.map_values(|e: ServiceEventView| service_presence(e));
    if events.len() > 0 {
        lemma_live_devices(devices, events.drop_last());
        assert(ps.drop_last() =~= events.drop_last().map_values(
            |e: ServiceEventView| service_presence(e),
        ));
        let before = live_devices_after(devices, events.drop_last());
        assert(live_devices_step(before, events.last()).dom() =~= live_step(
            before.dom(),
            service_presence(events.last()),
        ));
    }
}

/// Whether `now_ms` lies in the window of fast refreshes that the pairing
/// at `last_pair_ms` opened.
pub open spec fn in_burst(last_pair_ms: Option<u64>, now_ms: u64) -> bool {
    match last_pair_ms {
        Some(at) => now_ms < at + BURST_WINDOW_MS,
        None => false,
    }
}

/// One tick of the refresh timer, `BURST_TICK_MS` after the one before:
/// inside the window a delayed refresh at once, outside it an ordinary
/// refresh after a further pause. Returns the message and the pause.
pub fn refresh_tick(last_pair_ms: Option<u64>, now_ms: u64) -> (r: (Message, u64))
    ensures
        in_burst(last_pair_ms, now_ms) ==> r.0@ == MessageView::DelayedRefresh && r.1 == 0,
        !in_burst(last_pair_ms, now_ms) ==> r.0@ == MessageView::RefreshDevices && r.1
            == STEADY_PAUSE_MS,
{
    let bursting = match last_pair_ms {
        Some(at) => now_ms < at || now_ms - at < BURST_WINDOW_MS,
        None => false,
    };
    if bursting {
        (Message::DelayedRefresh, 0)
    } else {
        (Message::RefreshDevices, STEADY_PAUSE_MS)
    }
}

} // verus!
