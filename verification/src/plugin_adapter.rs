//! The requests of the plugins: each call names one packet for one device.

use vstd::prelude::*;
use crate::adapter::{
    AppEvent, AppEventView, BodyValue, BodyValueView, DeviceId, PacketType, PacketView,
    ProtocolPacket,
};

verus! {

/// A request that carries a packet with the given members.
pub open spec fn packet_request(
    device_id: Seq<char>,
    packet_type: PacketType,
    body: Seq<(Seq<char>, BodyValueView)>,
) -> AppEventView {
    AppEventView::SendPacket(device_id, PacketView { packet_type, body })
}

fn request0(device_id: DeviceId, packet_type: PacketType) -> (r: AppEvent)
    ensures
        r@ == packet_request(device_id@, packet_type, Seq::empty()),
{
    AppEvent::SendPacket(device_id, ProtocolPacket::new(packet_type))
}

fn request1(device_id: DeviceId, packet_type: PacketType, key: &str, value: BodyValue) -> (r:
    AppEvent)
    ensures
        r@ == packet_request(device_id@, packet_type, seq![(key@, value@)]),
{
    let packet = ProtocolPacket::new(packet_type).with(key, value);
    proof {
        assert(packet@.body =~= seq![(key@, value@)]);
    }
    AppEvent::SendPacket(device_id, packet)
}

fn request2(
    device_id: DeviceId,
    packet_type: PacketType,
    key1: &str,
    value1: BodyValue,
    key2: &str,
    value2: BodyValue,
) -> (r: AppEvent)
    ensures
        r@ == packet_request(device_id@, packet_type, seq![(key1@, value1@), (key2@, value2@)]),
{
    let packet = ProtocolPacket::new(packet_type).with(key1, value1).with(key2, value2);
    proof {
        assert(packet@.body =~= seq![(key1@, value1@), (key2@, value2@)]);
    }
    AppEvent::SendPacket(device_id, packet)
}

/// Battery monitoring.
pub struct BatteryAdapter {}

impl BatteryAdapter {
    /// Ask the device for its battery status.
    pub fn request_battery_status(&self, device_id: DeviceId) -> (r: AppEvent)
        ensures
            r@ == packet_request(
                device_id@,
                PacketType::BatteryRequest,
                seq![("request"@, BodyValueView::Bool(true))],
            ),
    {
        request1(device_id, PacketType::BatteryRequest, "request", BodyValue::Bool(true))
    }
}

/// Notification management.
pub struct NotificationAdapter {}

impl NotificationAdapter {
    /// Ask the device for its notifications.
    pub fn request_notifications(&self, device_id: DeviceId) -> (r: AppEvent)
        ensures
            r@ == packet_request(
                device_id@,
                PacketType::NotificationRequest,
                seq![("request"@, BodyValueView::Bool(true))],
            ),
    {
        request1(device_id, PacketType::NotificationRequest, "request", BodyValue::Bool(true))
    }

    /// Dismiss a notification on the device.
    pub fn dismiss_notification(&self, device_id: DeviceId, notification_id: String) -> (r:
        AppEvent)
        ensures
            r@ == packet_request(
                device_id@,
                PacketType::NotificationRequest,
                seq![("cancel"@, BodyValueView::Text(notification_id@))],
            ),
    {
        request1(
            device_id,
            PacketType::NotificationRequest,
            "cancel",
            BodyValue::Text(notification_id),
        )
    }

    /// Answer a notification on the device.
    pub fn reply_to_notification(
        &self,
        device_id: DeviceId,
        notification_id: String,
        message: String,
    ) -> (r: AppEvent)
        ensures
            r@ == packet_request(
                device_id@,
                PacketType::NotificationReply,
                seq![
                    ("requestReplyId"@, BodyValueView::Text(notification_id@)),
                    ("message"@, BodyValueView::Text(message@)),
                ],
            ),
    {
        request2(
            device_id,
            PacketType::NotificationReply,
            "requestReplyId",
            BodyValue::Text(notification_id),
            "message",
            BodyValue::Text(message),
        )
    }
}

/// Media control.
pub struct MediaControlAdapter {}

impl MediaControlAdapter {
    /// Toggle playback of a player on the device.
    pub fn play_pause(&self, device_id: DeviceId, player: String) -> (r: AppEvent)
        ensures
            r@ == packet_request(
                device_id@,
                PacketType::MprisRequest,
                seq![
                    ("player"@, BodyValueView::Text(player@)),
                    ("action"@, BodyValueView::Text("PlayPause"@)),
                ],
            ),
    {
        request2(
            device_id,
            PacketType::MprisRequest,
            "player",
            BodyValue::Text(player),
            "action",
            BodyValue::Text(String::from_str("PlayPause")),
        )
    }

    /// Skip to the next track of a player on the device.
    pub fn next(&self, device_id: DeviceId, player: String) -> (r: AppEvent)
        ensures
            r@ == packet_request(
                device_id@,
                PacketType::MprisRequest,
                seq![
                    ("player"@, BodyValueView::Text(player@)),
                    ("action"@, BodyValueView::Text("Next"@)),
                ],
            ),
    {
        request2(
            device_id,
            PacketType::MprisRequest,
            "player",
            BodyValue::Text(player),
            "action",
            BodyValue::Text(String::from_str("Next")),
        )
    }

    /// Go back to the previous track of a player on the device.
    pub fn previous(&self, device_id: DeviceId, player: String) -> (r: AppEvent)
        ensures
            r@ == packet_request(
                device_id@,
                PacketType::MprisRequest,
                seq![
                    ("player"@, BodyValueView::Text(player@)),
                    ("action"@, BodyValueView::Text("Previous"@)),
                ],
            ),
    {
        request2(
            device_id,
            PacketType::MprisRequest,
            "player",
            BodyValue::Text(player),
            "action",
            BodyValue::Text(String::from_str("Previous")),
        )
    }
}

/// Clipboard synchronization.
pub struct ClipboardAdapter {}

impl ClipboardAdapter {
    /// Send clipboard content to the device.
    pub fn send_clipboard(&self, device_id: DeviceId, content: String) -> (r: AppEvent)
        ensures
            r@ == packet_request(
                device_id@,
                PacketType::Clipboard,
                seq![("content"@, BodyValueView::Text(content@))],
            ),
    {
        request1(device_id, PacketType::Clipboard, "content", BodyValue::Text(content))
    }
}

/// SMS messaging.
pub struct SmsAdapter {}

impl SmsAdapter {
    /// Send an SMS through the device.
    pub fn send_sms(&self, device_id: DeviceId, phone_number: String, message: String) -> (r:
        AppEvent)
        ensures
            r@ == packet_request(
                device_id@,
                PacketType::SmsRequest,
                seq![
                    ("sendSms"@, BodyValueView::Bool(true)),
                    ("phoneNumber"@, BodyValueView::Text(phone_number@)),
                    ("messageBody"@, BodyValueView::Text(message@)),
                ],
            ),
    {
        let packet = ProtocolPacket::new(PacketType::SmsRequest).with(
            "sendSms",
            BodyValue::Bool(true),
        ).with("phoneNumber", BodyValue::Text(phone_number)).with(
            "messageBody",
            BodyValue::Text(message),
        );
        proof {
            assert(packet@.body =~= seq![
                ("sendSms"@, BodyValueView::Bool(true)),
                ("phoneNumber"@, BodyValueView::Text(phone_number@)),
                ("messageBody"@, BodyValueView::Text(message@)),
            ]);
        }
        AppEvent::SendPacket(device_id, packet)
    }

    /// Ask the device for the messages of one conversation.
    pub fn request_conversation(&self, device_id: DeviceId, thread_id: i64) -> (r: AppEvent)
        ensures
            r@ == packet_request(
                device_id@,
                PacketType::SmsRequest,
                seq![("requestConversation"@, BodyValueView::Integer(thread_id))],
            ),
    {
        request1(
            device_id,
            PacketType::SmsRequest,
            "requestConversation",
            BodyValue::Integer(thread_id),
        )
    }

    /// Ask the device for its conversations.
    pub fn request_conversations(&self, device_id: DeviceId) -> (r: AppEvent)
        ensures
            r@ == packet_request(device_id@, PacketType::SmsRequestConversations, Seq::empty()),
    {
        request0(device_id, PacketType::SmsRequestConversations)
    }
}

/// SFTP browsing.
pub struct SftpAdapter {}

impl SftpAdapter {
    /// Start browsing the files of the device.
    pub fn start_browsing(&self, device_id: DeviceId) -> (r: AppEvent)
        ensures
            r@ == packet_request(
                device_id@,
                PacketType::SftpRequest,
                seq![("startBrowsing"@, BodyValueView::Bool(true))],
            ),
    {
        request1(device_id, PacketType::SftpRequest, "startBrowsing", BodyValue::Bool(true))
    }

    /// Mount the files of the device: the same request as browsing them.
    pub fn mount(&self, device_id: DeviceId) -> (r: AppEvent)
        ensures
            r@ == packet_request(
                device_id@,
                PacketType::SftpRequest,
                seq![("startBrowsing"@, BodyValueView::Bool(true))],
            ),
    {
        self.start_browsing(device_id)
    }
}

/// Remote command execution.
pub struct CommandAdapter {}

impl CommandAdapter {
    /// Run a command on the device.
    pub fn execute_command(&self, device_id: DeviceId, command_key: String) -> (r: AppEvent)
        ensures
            r@ == packet_request(
                device_id@,
                PacketType::RunCommandRequest,
                seq![("key"@, BodyValueView::Text(command_key@))],
            ),
    {
        request1(device_id, PacketType::RunCommandRequest, "key", BodyValue::Text(command_key))
    }

    /// Ask the device for the commands it offers.
    pub fn request_commands(&self, device_id: DeviceId) -> (r: AppEvent)
        ensures
            r@ == packet_request(
                device_id@,
                PacketType::RunCommandRequest,
                seq![("requestCommandList"@, BodyValueView::Bool(true))],
            ),
    {
        self.request_command_list(device_id)
    }

    /// Ask the device for the list of commands it offers.
    pub fn request_command_list(&self, device_id: DeviceId) -> (r: AppEvent)
        ensures
            r@ == packet_request(
                device_id@,
                PacketType::RunCommandRequest,
                seq![("requestCommandList"@, BodyValueView::Bool(true))],
            ),
    {
        request1(
            device_id,
            PacketType::RunCommandRequest,
            "requestCommandList",
            BodyValue::Bool(true),
        )
    }
}

/// The requests that need no plugin, and the way to the plugins' requests.
pub struct KdeConnectAdapter {}

impl KdeConnectAdapter {
    /// The adapter.
    pub fn new() -> (r: Self) {
        KdeConnectAdapter {  }
    }

    /// Announce this host so that devices on the network answer.
    pub fn broadcast(&self) -> (r: AppEvent)
        ensures
            r@ == AppEventView::Broadcasting,
    {
        AppEvent::Broadcasting
    }

    /// Ask to pair with a device.
    pub fn pair_device(&self, device_id: DeviceId) -> (r: AppEvent)
        ensures
            r@ == AppEventView::Pair(device_id@),
    {
        AppEvent::Pair(device_id)
    }

    /// Unpair from a device.
    pub fn unpair_device(&self, device_id: DeviceId) -> (r: AppEvent)
        ensures
            r@ == AppEventView::Unpair(device_id@),
    {
        AppEvent::Unpair(device_id)
    }

    /// Send a ping with a message to a device.
    pub fn send_ping(&self, device_id: DeviceId, message: String) -> (r: AppEvent)
        ensures
            r@ == AppEventView::Ping(device_id@, message@),
    {
        AppEvent::Ping(device_id, message)
    }

    /// Send files to a device.
    pub fn send_files(&self, device_id: DeviceId, files: Vec<String>) -> (r: AppEvent)
        ensures
            r@ == AppEventView::SendFiles(device_id@, crate::text::views_of(files@)),
    {
        AppEvent::SendFiles(device_id, files)
    }

    /// The battery plugin's requests.
    pub fn battery(&self) -> BatteryAdapter {
        BatteryAdapter {  }
    }

    /// The notification plugin's requests.
    pub fn notifications(&self) -> NotificationAdapter {
        NotificationAdapter {  }
    }

    /// The media plugin's requests.
    pub fn media_control(&self) -> MediaControlAdapter {
        MediaControlAdapter {  }
    }

    /// The clipboard plugin's requests.
    pub fn clipboard(&self) -> ClipboardAdapter {
        ClipboardAdapter {  }
    }

    /// The SMS plugin's requests.
    pub fn sms(&self) -> SmsAdapter {
        SmsAdapter {  }
    }

    /// The file plugin's requests.
    pub fn sftp(&self) -> SftpAdapter {
        SftpAdapter {  }
    }

    /// The command plugin's requests.
    pub fn commands(&self) -> CommandAdapter {
        CommandAdapter {  }
    }
}

} // verus!
