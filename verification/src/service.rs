//! The service between the protocol engine and the clients on the bus: it
//! keeps the devices that are live and turns engine events into signals.

use vstd::prelude::*;
use crate::adapter::{
    AppEvent, AppEventView, BodyValue, BodyValueView, CoreEvent, CoreEventView, DeviceId,
    DeviceView as CoreDeviceView, PacketType, PairState, ProtocolPacket, SmsMessages,
    SmsRecordView,
};
use crate::cache::Cache;
use crate::dbus_client::DeviceView as BusDeviceView;
use crate::plugin_adapter::packet_request;
use crate::relay::{announced_last, lemma_live_from_nothing, live_after, live_step, Presence};
use crate::text::views_of;

verus! {

/// Simplified device info for the bus.
pub struct DbusDevice {
    pub id: String,
    pub name: String,
    pub device_type: String,
    pub is_paired: bool,
    pub is_reachable: bool,
}

impl View for DbusDevice {
    type V = BusDeviceView;

    open spec fn view(&self) -> BusDeviceView {
        BusDeviceView {
            id: self.id@,
            name: self.name@,
            device_type: self.device_type@,
            is_paired: self.is_paired,
            is_reachable: self.is_reachable,
        }
    }
}

impl Clone for DbusDevice {
    fn clone(&self) -> (r: Self)
        ensures
            r@ == self@,
    {
        DbusDevice {
            id: self.id.clone(),
            name: self.name.clone(),
            device_type: self.device_type.clone(),
            is_paired: self.is_paired,
            is_reachable: self.is_reachable,
        }
    }
}

/// A signal for the clients on the bus.
pub enum ServiceSignal {
    DeviceConnected(String, DbusDevice),
    DevicePaired(String, DbusDevice),
    DeviceDisconnected(String),
    SmsMessagesReceived(SmsMessages),
}

/// What a `ServiceSignal` holds, as mathematical values.
pub ghost enum ServiceSignalView {
    DeviceConnected(Seq<char>, BusDeviceView),
    DevicePaired(Seq<char>, BusDeviceView),
    DeviceDisconnected(Seq<char>),
    SmsMessagesReceived(Seq<SmsRecordView>),
}

impl View for ServiceSignal {
    type V = ServiceSignalView;

    open spec fn view(&self) -> ServiceSignalView {
        match self {
            ServiceSignal::DeviceConnected(id, d) => ServiceSignalView::DeviceConnected(id@, d@),
            ServiceSignal::DevicePaired(id, d) => ServiceSignalView::DevicePaired(id@, d@),
            ServiceSignal::DeviceDisconnected(id) => ServiceSignalView::DeviceDisconnected(id@),
            ServiceSignal::SmsMessagesReceived(m) => ServiceSignalView::SmsMessagesReceived(m@),
        }
    }
}

/// The record of a device that connected: reachable, paired if the engine
/// says so.
pub open spec fn connected_record(id: Seq<char>, device: CoreDeviceView) -> BusDeviceView {
    BusDeviceView {
        id,
        name: device.name,
        device_type: "phone"@,
        is_paired: device.pair_state == PairState::Paired,
        is_reachable: true,
    }
}

/// The record of a device that was paired: reachable and paired.
pub open spec fn paired_record(id: Seq<char>, device: CoreDeviceView) -> BusDeviceView {
    BusDeviceView { id, name: device.name, device_type: "phone"@, is_paired: true, is_reachable: true }
}

/// The devices after an engine event: a connected or paired device is
/// stored whole, a disconnected device is dropped, anything else changes
/// nothing.
pub open spec fn devices_step(
    devices: Map<Seq<char>, BusDeviceView>,
    event: CoreEventView,
) -> Map<Seq<char>, BusDeviceView> {
    match event {
        CoreEventView::Connected(id, d) => devices.insert(id, connected_record(id, d)),
        CoreEventView::DevicePaired(id, d) => devices.insert(id, paired_record(id, d)),
        CoreEventView::Disconnected(id) => devices.remove(id),
        _ => devices,
    }
}

/// The signal that an engine event gives rise to, if any.
pub open spec fn signal_of(event: CoreEventView) -> Option<ServiceSignalView> {
    match event {
        CoreEventView::Connected(id, d) => Some(
            ServiceSignalView::DeviceConnected(id, connected_record(id, d)),
        ),
        CoreEventView::DevicePaired(id, d) => Some(
            ServiceSignalView::DevicePaired(id, paired_record(id, d)),
        ),
        CoreEventView::Disconnected(id) => Some(ServiceSignalView::DeviceDisconnected(id)),
        CoreEventView::SmsMessages(m) => Some(ServiceSignalView::SmsMessagesReceived(m)),
        _ => None,
    }
}

/// The view of an optional signal.
pub open spec fn signal_view(signal: Option<ServiceSignal>) -> Option<ServiceSignalView> {
    match signal {
        Some(s) => Some(s@),
        None => None,
    }
}

/// Applies one engine event to the devices and says which signal to emit.
pub fn handle_event(event: CoreEvent, devices: &mut Cache<DbusDevice>) -> (signal: Option<
    ServiceSignal,
>)
    requires
        old(devices).wf(),
    ensures
        final(devices).wf(),
        final(devices)@ == devices_step(old(devices)@, event@),
        signal_view(signal) == signal_of(event@),
{
    match event {
        CoreEvent::Connected(device_id, device) => {
            let record = DbusDevice {
                id: device_id.0.clone(),
                name: device.name,
                device_type: String::from_str("phone"),
                is_paired: matches!(device.pair_state, PairState::Paired),
                is_reachable: true,
            };
            devices.upsert(device_id.0.clone(), record.clone());
            Some(ServiceSignal::DeviceConnected(device_id.0, record))
        },
        CoreEvent::DevicePaired(device_id, device) => {
            let record = DbusDevice {
                id: device_id.0.clone(),
                name: device.name,
                device_type: String::from_str("phone"),
                is_paired: true,
                is_reachable: true,
            };
            devices.upsert(device_id.0.clone(), record.clone());
            Some(ServiceSignal::DevicePaired(device_id.0, record))
        },
        CoreEvent::Disconnected(device_id) => {
            devices.remove(device_id.0.as_str());
            Some(ServiceSignal::DeviceDisconnected(device_id.0))
        },
        CoreEvent::SmsMessages(messages) => Some(ServiceSignal::SmsMessagesReceived(messages)),
        _ => None,
    }
}

/// What an engine event means for the set of live devices.
pub open spec fn presence_of(event: CoreEventView) -> Presence {
    match event {
        CoreEventView::Connected(id, _) => Presence::Announce(id),
        CoreEventView::DevicePaired(id, _) => Presence::Announce(id),
        CoreEventView::Disconnected(id) => Presence::Withdraw(id),
        _ => Presence::Other,
    }
}

/// The devices after the events of `events`, in order.
pub open spec fn devices_after(
    devices: Map<Seq<char>, BusDeviceView>,
    events: Seq<CoreEventView>,
) -> Map<Seq<char>, BusDeviceView>
    decreases events.len(),
{
    if events.len() == 0 {
        devices
    } else {
        devices_step(devices_after(devices, events.drop_last()), events.last())
    }
}

/// The cache follows the rule of live devices: after any run of engine
/// events it holds exactly the devices that the rule calls live.
pub proof fn lemma_devices_are_live(
    devices: Map<Seq<char>, BusDeviceView>,
    events: Seq<CoreEventView>,
)
    ensures
        devices_after(devices, events).dom() == live_after(
            devices.dom(),
            events.map_values(|e: CoreEventView| presence_of(e)),
        ),
    decreases events.len(),
{
    let ps = events.map_values(|e: CoreEventView| presence_of(e));
    if events.len() > 0 {
        lemma_devices_are_live(devices, events.drop_last());
        assert(ps.drop_last() =~= events.drop_last().map_values(|e: CoreEventView| presence_of(e)));
        let before = devices_after(devices, events.drop_last());
        assert(devices_step(before, events.last()).dom() =~= live_step(
            before.dom(),
            presence_of(events.last()),
        ));
    }
}

/// The event says that device `id` is there.
pub open spec fn announces(event: CoreEventView, id: Seq<char>) -> bool {
    match event {
        CoreEventView::Connected(d, _) => d == id,
        CoreEventView::DevicePaired(d, _) => d == id,
        _ => false,
    }
}

/// Device cache: starting empty, after any run of engine events the cache
/// holds exactly the devices whose most recent event of presence was
/// `Connected` or `DevicePaired`, with no `Disconnected` after it.
pub proof fn lemma_cache_holds_live_devices(events: Seq<CoreEventView>, id: Seq<char>)
    ensures
        devices_after(Map::empty(), events).dom().contains(id) <==> exists|i: int|
            0 <= i < events.len() && announces(#[trigger] events[i], id) && forall|j: int|
                i < j < events.len() ==> #[trigger] events[j] != CoreEventView::Disconnected(id),
{
    let ps = events.map_values(|e: CoreEventView| presence_of(e));
    lemma_devices_are_live(Map::empty(), events);
    lemma_live_from_nothing(ps, id);
    assert(Map::<Seq<char>, BusDeviceView>::empty().dom() =~= Set::<Seq<char>>::empty());
    let stated = exists|i: int|
        0 <= i < events.len() && announces(#[trigger] events[i], id) && forall|j: int|
            i < j < events.len() ==> #[trigger] events[j] != CoreEventView::Disconnected(id);
    if announced_last(ps, id) {
        let i = choose|i: int|
            0 <= i < ps.len() && #[trigger] ps[i] == Presence::Announce(id) && forall|j: int|
                i < j < ps.len() ==> #[trigger] ps[j] != Presence::Withdraw(id);
        assert(announces(events[i], id));
        assert forall|j: int| i < j < events.len() implies #[trigger] events[j]
            != CoreEventView::Disconnected(id) by {
            assert(ps[j] != Presence::Withdraw(id));
        }
        assert(stated);
    }
    if stated {
        let i = choose|i: int|
            0 <= i < events.len() && announces(#[trigger] events[i], id) && forall|j: int|
                i < j < events.len() ==> #[trigger] events[j] != CoreEventView::Disconnected(id);
        assert(ps[i] == Presence::Announce(id));
        assert forall|j: int| i < j < ps.len() implies #[trigger] ps[j] != Presence::Withdraw(
            id,
        ) by {
            assert(events[j] != CoreEventView::Disconnected(id));
        }
        assert(announced_last(ps, id));
    }
}

/// The daemon's side of the bus.
pub struct DaemonInterface {}

impl DaemonInterface {
    /// All known devices.
    pub fn list_devices(&self, devices: &Cache<DbusDevice>) -> (r: Vec<DbusDevice>)
        requires
            devices.wf(),
        ensures
            views_of(r@) == devices.values(),
    {
        let mut out: Vec<DbusDevice> = Vec::new();
        let n = devices.len();
        let mut i: usize = 0;
        while i < n
            invariant
                i <= n,
                devices.wf(),
                n == devices.keys().len(),
                n == devices.values().len(),
                views_of(out@) == devices.values().take(i as int),
            decreases n - i,
        {
            let ghost before = views_of(out@);
            out.push(devices.value_at(i).clone());
            proof {
                assert(views_of(out@) =~= before.push(devices.values()[i as int]));
                assert(devices.values().take(i + 1) =~= devices.values().take(i as int).push(
                    devices.values()[i as int],
                ));
            }
            i += 1;
        }
        proof {
            assert(devices.values().take(n as int) =~= devices.values());
        }
        out
    }

    /// Ask to pair with a device.
    pub fn pair_device(&self, device_id: String) -> (r: AppEvent)
        ensures
            r@ == AppEventView::Pair(device_id@),
    {
        AppEvent::Pair(DeviceId(device_id))
    }

    /// Unpair from a device.
    pub fn unpair_device(&self, device_id: String) -> (r: AppEvent)
        ensures
            r@ == AppEventView::Unpair(device_id@),
    {
        AppEvent::Unpair(DeviceId(device_id))
    }

    /// Send a ping with a message to a device.
    pub fn send_ping(&self, device_id: String, message: String) -> (r: AppEvent)
        ensures
            r@ == AppEventView::Ping(device_id@, message@),
    {
        AppEvent::Ping(DeviceId(device_id), message)
    }

    /// Send files to a device.
    pub fn send_files(&self, device_id: String, files: Vec<String>) -> (r: AppEvent)
        ensures
            r@ == AppEventView::SendFiles(device_id@, views_of(files@)),
    {
        AppEvent::SendFiles(DeviceId(device_id), files)
    }

    /// Send clipboard content to a device.
    pub fn send_clipboard(&self, device_id: String, content: String) -> (r: AppEvent)
        ensures
            r@ == packet_request(
                device_id@,
                PacketType::Clipboard,
                seq![("content"@, BodyValueView::Text(content@))],
            ),
    {
        let packet = ProtocolPacket::new(PacketType::Clipboard).with(
            "content",
            BodyValue::Text(content),
        );
        proof {
            assert(packet@.body =~= seq![("content"@, BodyValueView::Text(content@))]);
        }
        AppEvent::SendPacket(DeviceId(device_id), packet)
    }

    /// Ring a device so that it can be found.
    pub fn ring_device(&self, device_id: String) -> (r: AppEvent)
        ensures
            r@ == packet_request(device_id@, PacketType::FindMyPhoneRequest, Seq::empty()),
    {
        AppEvent::SendPacket(
            DeviceId(device_id),
            ProtocolPacket::new(PacketType::FindMyPhoneRequest),
        )
    }
}

/// The SMS side of the bus.
pub struct SmsInterface {}

impl SmsInterface {
    /// Request all conversations from a device.
    pub fn request_conversations(&self, device_id: String) -> (r: AppEvent)
        ensures
            r@ == packet_request(device_id@, PacketType::SmsRequest, Seq::empty()),
    {
        AppEvent::SendPacket(DeviceId(device_id), ProtocolPacket::new(PacketType::SmsRequest))
    }

    /// Request the messages of one conversation.
    pub fn request_conversation(&self, device_id: String, thread_id: i64) -> (r: AppEvent)
        ensures
            r@ == packet_request(
                device_id@,
                PacketType::SmsRequest,
                seq![("threadID"@, BodyValueView::Integer(thread_id))],
            ),
    {
        let packet = ProtocolPacket::new(PacketType::SmsRequest).with(
            "threadID",
            BodyValue::Integer(thread_id),
        );
        proof {
            assert(packet@.body =~= seq![("threadID"@, BodyValueView::Integer(thread_id))]);
        }
        AppEvent::SendPacket(DeviceId(device_id), packet)
    }

    /// Send an SMS message.
    pub fn send_sms(&self, device_id: String, phone_number: String, message: String) -> (r:
        AppEvent)
        ensures
            r@ == packet_request(
                device_id@,
                PacketType::SmsRequest,
                seq![
                    ("sendSms"@, BodyValueView::Bool(true)),
                    ("phoneNumber"@, BodyValueView::Text(phone_number@)),
                    ("messageBody"@, BodyValueView::Text(message@)),
                ],
            ),
    {
        crate::plugin_adapter::SmsAdapter {  }.send_sms(DeviceId(device_id), phone_number, message)
    }
}

} // verus!
