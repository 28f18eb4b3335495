//! The protocol engine seen from this side: the events it emits, the
//! requests it takes, and the packets that carry plugin requests.

use vstd::prelude::*;
use crate::text::views_of;

verus! {

/// The stable identifier of a remote device.
pub struct DeviceId(pub String);

impl View for DeviceId {
    type V = Seq<char>;

    open spec fn view(&self) -> Seq<char> {
        self.0@
    }
}

impl Clone for DeviceId {
    fn clone(&self) -> (r: Self)
        ensures
            r@ == self@,
    {
        DeviceId(self.0.clone())
    }
}

/// How far the pairing with a device has come.
#[derive(Clone, Copy, Debug, PartialEq, Eq, Structural)]
pub enum PairState {
    NotPaired,
    Requested,
    Paired,
}

impl View for PairState {
    type V = PairState;

    open spec fn view(&self) -> PairState {
        *self
    }
}

/// A device as the engine reports it.
pub struct Device {
    pub device_id: DeviceId,
    pub name: String,
    pub pair_state: PairState,
}

/// What a `Device` holds, as mathematical values.
pub ghost struct DeviceView {
    pub device_id: Seq<char>,
    pub name: Seq<char>,
    pub pair_state: PairState,
}

impl View for Device {
    type V = DeviceView;

    open spec fn view(&self) -> DeviceView {
        DeviceView { device_id: self.device_id@, name: self.name@, pair_state: self.pair_state }
    }
}

impl Clone for Device {
    fn clone(&self) -> (r: Self)
        ensures
            r@ == self@,
    {
        Device {
            device_id: self.device_id.clone(),
            name: self.name.clone(),
            pair_state: self.pair_state,
        }
    }
}

/// One address of an SMS message.
pub struct SmsAddress {
    pub address: String,
}

impl View for SmsAddress {
    type V = Seq<char>;

    open spec fn view(&self) -> Seq<char> {
        self.address@
    }
}

/// An SMS message as the device sends it.
pub struct SmsRecord {
    pub id: i64,
    pub thread_id: i64,
    pub addresses: Vec<SmsAddress>,
    pub body: String,
    pub date: i64,
    pub message_type: i32,
    pub read: i32,
}

/// What a `SmsRecord` holds, as mathematical values.
pub ghost struct SmsRecordView {
    pub id: i64,
    pub thread_id: i64,
    pub addresses: Seq<Seq<char>>,
    pub body: Seq<char>,
    pub date: i64,
    pub message_type: i32,
    pub read: i32,
}

impl View for SmsRecord {
    type V = SmsRecordView;

    open spec fn view(&self) -> SmsRecordView {
        SmsRecordView {
            id: self.id,
            thread_id: self.thread_id,
            addresses: views_of(self.addresses@),
            body: self.body@,
            date: self.date,
            message_type: self.message_type,
            read: self.read,
        }
    }
}

/// A batch of SMS messages.
pub struct SmsMessages {
    pub messages: Vec<SmsRecord>,
}

impl View for SmsMessages {
    type V = Seq<SmsRecordView>;

    open spec fn view(&self) -> Seq<SmsRecordView> {
        views_of(self.messages@)
    }
}

/// What the engine emits.
pub enum CoreEvent {
    Connected(DeviceId, Device),
    DevicePaired(DeviceId, Device),
    Disconnected(DeviceId),
    PairStateChanged(DeviceId, PairState),
    ClipboardReceived(String),
    StateUpdated(String),
    Mpris(DeviceId, String),
    SmsMessages(SmsMessages),
}

/// What a `CoreEvent` holds, as mathematical values.
pub ghost enum CoreEventView {
    Connected(Seq<char>, DeviceView),
    DevicePaired(Seq<char>, DeviceView),
    Disconnected(Seq<char>),
    PairStateChanged(Seq<char>, PairState),
    ClipboardReceived(Seq<char>),
    StateUpdated(Seq<char>),
    Mpris(Seq<char>, Seq<char>),
    SmsMessages(Seq<SmsRecordView>),
}

impl View for CoreEvent {
    type V = CoreEventView;

    open spec fn view(&self) -> CoreEventView {
        match self {
            CoreEvent::Connected(id, d) => CoreEventView::Connected(id@, d@),
            CoreEvent::DevicePaired(id, d) => CoreEventView::DevicePaired(id@, d@),
            CoreEvent::Disconnected(id) => CoreEventView::Disconnected(id@),
            CoreEvent::PairStateChanged(id, s) => CoreEventView::PairStateChanged(id@, *s),
            CoreEvent::ClipboardReceived(t) => CoreEventView::ClipboardReceived(t@),
            CoreEvent::StateUpdated(t) => CoreEventView::StateUpdated(t@),
            CoreEvent::Mpris(id, t) => CoreEventView::Mpris(id@, t@),
            CoreEvent::SmsMessages(m) => CoreEventView::SmsMessages(m@),
        }
    }
}

/// The kinds of packet that carry plugin requests.
#[derive(Clone, Copy, Debug, PartialEq, Eq, Structural)]
pub enum PacketType {
    BatteryRequest,
    NotificationRequest,
    NotificationReply,
    MprisRequest,
    Clipboard,
    SmsRequest,
    SmsRequestConversations,
    SftpRequest,
    RunCommandRequest,
    FindMyPhoneRequest,
}

/// A value in a packet body.
pub enum BodyValue {
    Bool(bool),
    Integer(i64),
    Text(String),
}

/// What a `BodyValue` holds, as mathematical values.
pub ghost enum BodyValueView {
    Bool(bool),
    Integer(i64),
    Text(Seq<char>),
}

impl View for BodyValue {
    type V = BodyValueView;

    open spec fn view(&self) -> BodyValueView {
        match self {
            BodyValue::Bool(b) => BodyValueView::Bool(*b),
            BodyValue::Integer(n) => BodyValueView::Integer(*n),
            BodyValue::Text(t) => BodyValueView::Text(t@),
        }
    }
}

/// One member of a packet body.
pub struct BodyField {
    pub key: String,
    pub value: BodyValue,
}

impl View for BodyField {
    type V = (Seq<char>, BodyValueView);

    open spec fn view(&self) -> (Seq<char>, BodyValueView) {
        (self.key@, self.value@)
    }
}

/// A packet for a device: its kind, and the members of its body in order.
pub struct ProtocolPacket {
    pub packet_type: PacketType,
    pub body: Vec<BodyField>,
}

/// What a `ProtocolPacket` holds, as mathematical values.
pub ghost struct PacketView {
    pub packet_type: PacketType,
    pub body: Seq<(Seq<char>, BodyValueView)>,
}

impl View for ProtocolPacket {
    type V = PacketView;

    open spec fn view(&self) -> PacketView {
        PacketView { packet_type: self.packet_type, body: views_of(self.body@) }
    }
}

impl ProtocolPacket {
    /// A packet of the given kind with an empty body.
    pub fn new(packet_type: PacketType) -> (r: Self)
        ensures
            r@ == (PacketView { packet_type, body: Seq::empty() }),
    {
        let r = ProtocolPacket { packet_type, body: Vec::new() };
        proof {
            assert(views_of(r.body@) =~= Seq::empty());
        }
        r
    }

    /// The packet with one more member at the end of its body.
    pub fn with(self, key: &str, value: BodyValue) -> (r: Self)
        ensures
            r@ == (PacketView {
                packet_type: self@.packet_type,
                body: self@.body.push((key@, value@)),
            }),
    {
        let mut body = self.body;
        let ghost before = views_of(body@);
        body.push(BodyField { key: String::from_str(key), value });
        proof {
            assert(views_of(body@) =~= before.push((key@, value@)));
        }
        ProtocolPacket { packet_type: self.packet_type, body }
    }
}

/// What the engine is asked to do.
pub enum AppEvent {
    Broadcasting,
    Pair(DeviceId),
    Unpair(DeviceId),
    Ping(DeviceId, String),
    SendFiles(DeviceId, Vec<String>),
    SendPacket(DeviceId, ProtocolPacket),
}

/// What a `AppEvent` holds, as mathematical values.
pub ghost enum AppEventView {
    Broadcasting,
    Pair(Seq<char>),
    Unpair(Seq<char>),
    Ping(Seq<char>, Seq<char>),
    SendFiles(Seq<char>, Seq<Seq<char>>),
    SendPacket(Seq<char>, PacketView),
}

impl View for AppEvent {
    type V = AppEventView;

    open spec fn view(&self) -> AppEventView {
        match self {
            AppEvent::Broadcasting => AppEventView::Broadcasting,
            AppEvent::Pair(id) => AppEventView::Pair(id@),
            AppEvent::Unpair(id) => AppEventView::Unpair(id@),
            AppEvent::Ping(id, m) => AppEventView::Ping(id@, m@),
            AppEvent::SendFiles(id, fs) => AppEventView::SendFiles(id@, views_of(fs@)),
            AppEvent::SendPacket(id, p) => AppEventView::SendPacket(id@, p@),
        }
    }
}

} // verus!
