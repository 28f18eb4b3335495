//! What the service tells its clients over the bus, and what the clients
//! can ask of it.

use vstd::prelude::*;
use crate::adapter::{
    AppEvent, AppEventView, BodyValue, BodyValueView, PacketType, PacketView, ProtocolPacket,
};
use crate::plugin_adapter::packet_request;
use crate::text::{same_text, views_of};

verus! {

/// Device information as it travels over the bus.
pub struct Device {
    pub id: String,
    pub name: String,
    pub device_type: String,
    pub is_paired: bool,
    pub is_reachable: bool,
}

/// What a `Device` holds, as mathematical values.
pub ghost struct DeviceView {
    pub id: Seq<char>,
    pub name: Seq<char>,
    pub device_type: Seq<char>,
    pub is_paired: bool,
    pub is_reachable: bool,
}

impl View for Device {
    type V = DeviceView;

    open spec fn view(&self) -> DeviceView {
        DeviceView {
            id: self.id@,
            name: self.name@,
            device_type: self.device_type@,
            is_paired: self.is_paired,
            is_reachable: self.is_reachable,
        }
    }
}

impl Clone for Device {
    fn clone(&self) -> (r: Self)
        ensures
            r@ == self@,
    {
        Device {
            id: self.id.clone(),
            name: self.name.clone(),
            device_type: self.device_type.clone(),
            is_paired: self.is_paired,
            is_reachable: self.is_reachable,
        }
    }
}

/// Events from the service.
pub enum ServiceEvent {
    DeviceConnected(String, Device),
    DevicePaired(String, Device),
    DeviceDisconnected(String),
    /// A batch of SMS messages, as JSON text.
    SmsMessagesReceived(String),
}

/// What a `ServiceEvent` holds, as mathematical values.
pub ghost enum ServiceEventView {
    DeviceConnected(Seq<char>, DeviceView),
    DevicePaired(Seq<char>, DeviceView),
    DeviceDisconnected(Seq<char>),
    SmsMessagesReceived(Seq<char>),
}

impl View for ServiceEvent {
    type V = ServiceEventView;

    open spec fn view(&self) -> ServiceEventView {
        match self {
            ServiceEvent::DeviceConnected(id, d) => ServiceEventView::DeviceConnected(id@, d@),
            ServiceEvent::DevicePaired(id, d) => ServiceEventView::DevicePaired(id@, d@),
            ServiceEvent::DeviceDisconnected(id) => ServiceEventView::DeviceDisconnected(id@),
            ServiceEvent::SmsMessagesReceived(t) => ServiceEventView::SmsMessagesReceived(t@),
        }
    }
}

/// A call that the service takes over the bus.
pub enum BusCall {
    /// Pair with a device.
    PairDevice(String),
    /// Unpair from a device.
    UnpairDevice(String),
    /// Ping a device: device, then message.
    SendPing(String, String),
    /// Send files to a device.
    SendFiles(String, Vec<String>),
    /// Send clipboard content to a device.
    SendClipboard(String, String),
    /// Ask a device for its conversations.
    RequestConversations(String),
    /// Ask a device for the messages of a thread.
    RequestConversation(String, i64),
    /// Send an SMS: device, phone number, text.
    SendSms(String, String, String),
}

/// What a `BusCall` holds, as mathematical values.
pub ghost enum BusCallView {
    PairDevice(Seq<char>),
    UnpairDevice(Seq<char>),
    SendPing(Seq<char>, Seq<char>),
    SendFiles(Seq<char>, Seq<Seq<char>>),
    SendClipboard(Seq<char>, Seq<char>),
    RequestConversations(Seq<char>),
    RequestConversation(Seq<char>, i64),
    SendSms(Seq<char>, Seq<char>, Seq<char>),
}

impl View for BusCall {
    type V = BusCallView;

    open spec fn view(&self) -> BusCallView {
        match self {
            BusCall::PairDevice(id) => BusCallView::PairDevice(id@),
            BusCall::UnpairDevice(id) => BusCallView::UnpairDevice(id@),
            BusCall::SendPing(id, m) => BusCallView::SendPing(id@, m@),
            BusCall::SendFiles(id, fs) => BusCallView::SendFiles(id@, views_of(fs@)),
            BusCall::SendClipboard(id, c) => BusCallView::SendClipboard(id@, c@),
            BusCall::RequestConversations(id) => BusCallView::RequestConversations(id@),
            BusCall::RequestConversation(id, n) => BusCallView::RequestConversation(id@, *n),
            BusCall::SendSms(id, p, m) => BusCallView::SendSms(id@, p@, m@),
        }
    }
}

/// The view of an optional call.
pub open spec fn call_view(call: Option<BusCall>) -> Option<BusCallView> {
    match call {
        Some(c) => Some(c@),
        None => None,
    }
}

/// The packet carries clipboard content and nothing else.
pub open spec fn is_clipboard_packet(p: PacketView) -> bool {
    &&& p.packet_type == PacketType::Clipboard
    &&& p.body.len() == 1
    &&& p.body[0].0 == "content"@
    &&& p.body[0].1 is Text
}

/// The packet asks for the conversations.
pub open spec fn is_conversations_packet(p: PacketView) -> bool {
    p.packet_type == PacketType::SmsRequestConversations && p.body.len() == 0
}

/// The packet asks for the messages of one thread and nothing else.
pub open spec fn is_conversation_packet(p: PacketView) -> bool {
    &&& p.packet_type == PacketType::SmsRequest
    &&& p.body.len() == 1
    &&& p.body[0].0 == "requestConversation"@
    &&& p.body[0].1 is Integer
}

/// The packet sends one SMS: the mark that it does, the number, the text.
pub open spec fn is_send_sms_packet(p: PacketView) -> bool {
    &&& p.packet_type == PacketType::SmsRequest
    &&& p.body.len() == 3
    &&& p.body[0] == ("sendSms"@, BodyValueView::Bool(true))
    &&& p.body[1].0 == "phoneNumber"@
    &&& p.body[1].1 is Text
    &&& p.body[2].0 == "messageBody"@
    &&& p.body[2].1 is Text
}

/// The call over the bus that carries a request; none for a request that
/// the service does not take from its clients.
pub open spec fn bus_call_of(request: AppEventView) -> Option<BusCallView> {
    match request {
        AppEventView::Broadcasting => None,
        AppEventView::Pair(id) => Some(BusCallView::PairDevice(id)),
        AppEventView::Unpair(id) => Some(BusCallView::UnpairDevice(id)),
        AppEventView::Ping(id, message) => Some(BusCallView::SendPing(id, message)),
        AppEventView::SendFiles(id, files) => Some(BusCallView::SendFiles(id, files)),
        AppEventView::SendPacket(id, p) => {
            if is_clipboard_packet(p) {
                Some(BusCallView::SendClipboard(id, p.body[0].1->Text_0))
            } else if is_conversations_packet(p) {
                Some(BusCallView::RequestConversations(id))
            } else if is_conversation_packet(p) {
                Some(BusCallView::RequestConversation(id, p.body[0].1->Integer_0))
            } else if is_send_sms_packet(p) {
                Some(BusCallView::SendSms(id, p.body[1].1->Text_0, p.body[2].1->Text_0))
            } else {
                None
            }
        },
    }
}

fn text_member(packet: &ProtocolPacket, at: usize, key: &str) -> (r: Option<String>)
    ensures
        match r {
            Some(t) => at < packet@.body.len() && packet@.body[at as int] == (
                key@,
                BodyValueView::Text(t@),
            ),
            None => !(at < packet@.body.len() && packet@.body[at as int].0 == key@
                && packet@.body[at as int].1 is Text),
        },
{
    if at >= packet.body.len() {
        return None;
    }
    let field = &packet.body[at];
    proof {
        assert(packet@.body[at as int] == field@);
    }
    if !same_text(field.key.as_str(), key) {
        return None;
    }
    match &field.value {
        BodyValue::Text(t) => Some(t.clone()),
        _ => None,
    }
}

fn packet_call(id: String, packet: &ProtocolPacket) -> (r: Option<BusCall>)
    ensures
        call_view(r) == bus_call_of(AppEventView::SendPacket(id@, packet@)),
{
    let n = packet.body.len();
    proof {
        assert(packet@.body.len() == n);
    }
    match packet.packet_type {
        PacketType::Clipboard => {
            if n != 1 {
                return None;
            }
            match text_member(packet, 0, "content") {
                Some(content) => Some(BusCall::SendClipboard(id, content)),
                None => None,
            }
        },
        PacketType::SmsRequestConversations => {
            if n == 0 {
                Some(BusCall::RequestConversations(id))
            } else {
                None
            }
        },
        PacketType::SmsRequest => {
            if n == 1 {
                let field = &packet.body[0];
                proof {
                    assert(packet@.body[0] == field@);
                }
                if !same_text(field.key.as_str(), "requestConversation") {
                    return None;
                }
                match &field.value {
                    BodyValue::Integer(thread) => Some(BusCall::RequestConversation(id, *thread)),
                    _ => None,
                }
            } else if n == 3 {
                let mark = &packet.body[0];
                proof {
                    assert(packet@.body[0] == mark@);
                }
                let marked = same_text(mark.key.as_str(), "sendSms") && match &mark.value {
                    BodyValue::Bool(b) => *b,
                    _ => false,
                };
                if !marked {
                    return None;
                }
                let number = match text_member(packet, 1, "phoneNumber") {
                    Some(t) => t,
                    None => {
                        return None;
                    },
                };
                match text_member(packet, 2, "messageBody") {
                    Some(text) => Some(BusCall::SendSms(id, number, text)),
                    None => None,
                }
            } else {
                None
            }
        },
        _ => None,
    }
}

/// The call over the bus that carries a request.
pub fn bus_call(request: AppEvent) -> (r: Option<BusCall>)
    ensures
        call_view(r) == bus_call_of(request@),
{
    match request {
        AppEvent::Broadcasting => None,
        AppEvent::Pair(id) => Some(BusCall::PairDevice(id.0)),
        AppEvent::Unpair(id) => Some(BusCall::UnpairDevice(id.0)),
        AppEvent::Ping(id, message) => Some(BusCall::SendPing(id.0, message)),
        AppEvent::SendFiles(id, files) => Some(BusCall::SendFiles(id.0, files)),
        AppEvent::SendPacket(id, packet) => packet_call(id.0, &packet),
    }
}

/// The bus carries the requests for the clipboard and for SMS as the calls
/// of the same name, with what the requests hold.
pub proof fn lemma_bus_carries(id: Seq<char>, a: Seq<char>, b: Seq<char>, thread: i64)
    ensures
        bus_call_of(
            packet_request(id, PacketType::Clipboard, seq![("content"@, BodyValueView::Text(a))]),
        ) == Some(BusCallView::SendClipboard(id, a)),
        bus_call_of(packet_request(id, PacketType::SmsRequestConversations, Seq::empty())) == Some(
            BusCallView::RequestConversations(id),
        ),
        bus_call_of(
            packet_request(
                id,
                PacketType::SmsRequest,
                seq![("requestConversation"@, BodyValueView::Integer(thread))],
            ),
        ) == Some(BusCallView::RequestConversation(id, thread)),
        bus_call_of(
            packet_request(
                id,
                PacketType::SmsRequest,
                seq![
                    ("sendSms"@, BodyValueView::Bool(true)),
                    ("phoneNumber"@, BodyValueView::Text(a)),
                    ("messageBody"@, BodyValueView::Text(b)),
                ],
            ),
        ) == Some(BusCallView::SendSms(id, a, b)),
{
}

} // verus!
