//! The backend that clients talk to: the cache of live devices, and the
//! turning of user actions into requests for the protocol engine.

use vstd::prelude::*;
use crate::adapter::{AppEvent, AppEventView, BodyValueView, Device, DeviceId, DeviceView, PacketType, PairState};
use crate::cache::Cache;
use crate::models::{Device as UiDevice, DeviceView as UiDeviceView};
use crate::plugin_adapter::{packet_request, KdeConnectAdapter};
use crate::text::views_of;

verus! {

/// Why a command was not handed to the engine.
#[derive(Clone, Copy, Debug, PartialEq, Eq, Structural)]
pub enum BackendError {
    /// The connection to the engine is not established yet.
    NotInitialized,
}

impl BackendError {
    /// The error in words.
    pub fn message(&self) -> (r: String)
        ensures
            r@ == "Adapter not initialized"@,
    {
        String::from_str("Adapter not initialized")
    }
}

/// The record that clients see for a device the engine has just reported:
/// reachable, paired if the engine says so, with the capabilities every
/// device has until it tells more.
pub open spec fn ui_device_of(device: DeviceView) -> UiDeviceView {
    UiDeviceView {
        id: device.device_id,
        name: device.name,
        device_type: "phone"@,
        is_paired: device.pair_state == PairState::Paired,
        is_reachable: true,
        battery_level: None,
        is_charging: Some(false),
        has_battery: false,
        has_ping: true,
        has_share: true,
        has_findmyphone: false,
        has_sms: false,
        has_clipboard: true,
        has_contacts: false,
        has_mpris: false,
        has_remote_keyboard: false,
        has_sftp: false,
        has_presenter: false,
        has_lockdevice: false,
        has_virtualmonitor: false,
        pairing_requests: 0,
        signal_strength: None,
        network_type: None,
    }
}

impl UiDevice {
    /// The record for a device that the engine has just reported.
    pub fn from(device: Device) -> (r: UiDevice)
        ensures
            r@ == ui_device_of(device@),
    {
        UiDevice {
            id: device.device_id.0,
            name: device.name,
            device_type: String::from_str("phone"),
            is_paired: matches!(device.pair_state, PairState::Paired),
            is_reachable: true,
            battery_level: None,
            is_charging: Some(false),
            has_battery: false,
            has_ping: true,
            has_share: true,
            has_findmyphone: false,
            has_sms: false,
            has_clipboard: true,
            has_contacts: false,
            has_mpris: false,
            has_remote_keyboard: false,
            has_sftp: false,
            has_presenter: false,
            has_lockdevice: false,
            has_virtualmonitor: false,
            pairing_requests: 0,
            signal_strength: None,
            network_type: None,
        }
    }
}

/// The state behind the client calls: whether the engine is connected, and
/// the devices that are live.
pub struct Backend {
    initialized: bool,
    devices: Cache<UiDevice>,
}

impl Backend {
    /// Every backend made by this module is well formed.
    pub closed spec fn wf(&self) -> bool {
        self.devices.wf()
    }

    /// Whether the engine is connected.
    pub closed spec fn is_initialized(&self) -> bool {
        self.initialized
    }

    /// The live devices by identifier.
    pub closed spec fn devices(&self) -> Map<Seq<char>, UiDeviceView> {
        self.devices@
    }

    /// The live devices in the order in which they are handed out.
    pub closed spec fn device_list(&self) -> Seq<UiDeviceView> {
        self.devices.values()
    }

    /// The identifiers of the live devices, in the same order.
    pub closed spec fn device_ids(&self) -> Seq<Seq<char>> {
        self.devices.keys()
    }

    /// A backend without a connection and without devices.
    pub fn new() -> (r: Self)
        ensures
            r.wf(),
            !r.is_initialized(),
            r.devices() == Map::<Seq<char>, UiDeviceView>::empty(),
            r.device_list() == Seq::<UiDeviceView>::empty(),
    {
        Backend { initialized: false, devices: Cache::new() }
    }

    /// Marks the engine as connected. The first call asks for the broadcast
    /// that starts discovery; later calls ask for nothing.
    pub fn initialize(&mut self) -> (r: Option<AppEvent>)
        requires
            old(self).wf(),
        ensures
            final(self).wf(),
            final(self).is_initialized(),
            final(self).devices() == old(self).devices(),
            final(self).device_list() == old(self).device_list(),
            old(self).is_initialized() ==> r is None,
            !old(self).is_initialized() ==> r is Some && r->0@ == AppEventView::Broadcasting,
    {
        if self.initialized {
            None
        } else {
            self.initialized = true;
            Some(KdeConnectAdapter::new().broadcast())
        }
    }

    /// All live devices: one for each identifier that the cache holds, the
    /// device stored under it.
    pub fn fetch_devices(&self) -> (r: Vec<UiDevice>)
        requires
            self.wf(),
        ensures
            views_of(r@) == self.device_list(),
            r.len() == self.device_ids().len(),
            self.device_ids().no_duplicates(),
            forall|id: Seq<char>| self.devices().dom().contains(id) <==> self.device_ids().contains(id),
            forall|i: int|
                0 <= i < r.len() ==> self.devices()[#[trigger] self.device_ids()[i]] == r@[i]@,
    {
        proof {
            self.devices.lemma_values_by_key();
        }
        let mut out: Vec<UiDevice> = Vec::new();
        let n = self.devices.len();
        let mut i: usize = 0;
        while i < n
            invariant
                i <= n,
                self.wf(),
                n == self.devices.keys().len(),
                n == self.devices.values().len(),
                views_of(out@) == self.devices.values().take(i as int),
            decreases n - i,
        {
            let ghost before = views_of(out@);
            out.push(self.devices.value_at(i).clone());
            proof {
                assert(views_of(out@) =~= before.push(self.devices.values()[i as int]));
                assert(self.devices.values().take(i + 1) =~= self.devices.values().take(
                    i as int,
                ).push(self.devices.values()[i as int]));
            }
            i += 1;
        }
        proof {
            assert(self.devices.values().take(n as int) =~= self.devices.values());
        }
        out
    }

    /// Stores `device` under `device_id`, in place of what was there.
    pub fn update_device(&mut self, device_id: String, device: UiDevice)
        requires
            old(self).wf(),
        ensures
            final(self).wf(),
            final(self).is_initialized() == old(self).is_initialized(),
            final(self).devices() == old(self).devices().insert(device_id@, device@),
    {
        self.devices.upsert(device_id, device);
    }

    /// Drops the device stored under `device_id`, if any.
    pub fn remove_device(&mut self, device_id: &str)
        requires
            old(self).wf(),
        ensures
            final(self).wf(),
            final(self).is_initialized() == old(self).is_initialized(),
            final(self).devices() == old(self).devices().remove(device_id@),
    {
        self.devices.remove(device_id);
    }

    /// The device stored under `device_id`.
    pub fn device(&self, device_id: &str) -> (r: Option<&UiDevice>)
        requires
            self.wf(),
        ensures
            r is Some == self.devices().dom().contains(device_id@),
            r is Some ==> r->0@ == self.devices()[device_id@],
    {
        self.devices.get(device_id)
    }

    /// Pair with a device.
    pub fn pair_device(&self, device_id: String) -> (r: Result<AppEvent, BackendError>)
        ensures
            self.is_initialized() ==> r is Ok && r->Ok_0@ == AppEventView::Pair(device_id@),
            !self.is_initialized() ==> r == Err::<AppEvent, BackendError>(BackendError::NotInitialized),
    {
        if self.initialized {
            Ok(KdeConnectAdapter::new().pair_device(DeviceId(device_id)))
        } else {
            Err(BackendError::NotInitialized)
        }
    }

    /// Unpair from a device.
    pub fn unpair_device(&self, device_id: String) -> (r: Result<AppEvent, BackendError>)
        ensures
            self.is_initialized() ==> r is Ok && r->Ok_0@ == AppEventView::Unpair(device_id@),
            !self.is_initialized() ==> r == Err::<AppEvent, BackendError>(BackendError::NotInitialized),
    {
        if self.initialized {
            Ok(KdeConnectAdapter::new().unpair_device(DeviceId(device_id)))
        } else {
            Err(BackendError::NotInitialized)
        }
    }

    /// Send a ping to a device.
    pub fn ping_device(&self, device_id: String) -> (r: Result<AppEvent, BackendError>)
        ensures
            self.is_initialized() ==> r is Ok && r->Ok_0@ == AppEventView::Ping(
                device_id@,
                "Hello from COSMIC!"@,
            ),
            !self.is_initialized() ==> r == Err::<AppEvent, BackendError>(BackendError::NotInitialized),
    {
        if self.initialized {
            Ok(
                KdeConnectAdapter::new().send_ping(
                    DeviceId(device_id),
                    String::from_str("Hello from COSMIC!"),
                ),
            )
        } else {
            Err(BackendError::NotInitialized)
        }
    }

    /// Send files to a device.
    pub fn send_files(&self, device_id: String, files: Vec<String>) -> (r: Result<
        AppEvent,
        BackendError,
    >)
        ensures
            self.is_initialized() ==> r is Ok && r->Ok_0@ == AppEventView::SendFiles(
                device_id@,
                views_of(files@),
            ),
            !self.is_initialized() ==> r == Err::<AppEvent, BackendError>(BackendError::NotInitialized),
    {
        if self.initialized {
            Ok(KdeConnectAdapter::new().send_files(DeviceId(device_id), files))
        } else {
            Err(BackendError::NotInitialized)
        }
    }

    /// Request the battery status.
    pub fn request_battery(&self, device_id: String) -> (r: Result<AppEvent, BackendError>)
        ensures
            self.is_initialized() ==> r is Ok && r->Ok_0@ == packet_request(
                device_id@,
                PacketType::BatteryRequest,
                seq![("request"@, BodyValueView::Bool(true))],
            ),
            !self.is_initialized() ==> r == Err::<AppEvent, BackendError>(BackendError::NotInitialized),
    {
        if self.initialized {
            Ok(KdeConnectAdapter::new().battery().request_battery_status(DeviceId(device_id)))
        } else {
            Err(BackendError::NotInitialized)
        }
    }

    /// Request the notifications of a device.
    pub fn request_notifications(&self, device_id: String) -> (r: Result<AppEvent, BackendError>)
        ensures
            self.is_initialized() ==> r is Ok && r->Ok_0@ == packet_request(
                device_id@,
                PacketType::NotificationRequest,
                seq![("request"@, BodyValueView::Bool(true))],
            ),
            !self.is_initialized() ==> r == Err::<AppEvent, BackendError>(BackendError::NotInitialized),
    {
        if self.initialized {
            Ok(KdeConnectAdapter::new().notifications().request_notifications(DeviceId(device_id)))
        } else {
            Err(BackendError::NotInitialized)
        }
    }

    /// Dismiss a notification on a device.
    pub fn dismiss_notification(&self, device_id: String, notification_id: String) -> (r: Result<
        AppEvent,
        BackendError,
    >)
        ensures
            self.is_initialized() ==> r is Ok && r->Ok_0@ == packet_request(
                device_id@,
                PacketType::NotificationRequest,
                seq![("cancel"@, BodyValueView::Text(notification_id@))],
            ),
            !self.is_initialized() ==> r == Err::<AppEvent, BackendError>(BackendError::NotInitialized),
    {
        if self.initialized {
            Ok(
                KdeConnectAdapter::new().notifications().dismiss_notification(
                    DeviceId(device_id),
                    notification_id,
                ),
            )
        } else {
            Err(BackendError::NotInitialized)
        }
    }

    /// Reply to a notification on a device.
    pub fn reply_notification(
        &self,
        device_id: String,
        notification_id: String,
        message: String,
    ) -> (r: Result<AppEvent, BackendError>)
        ensures
            self.is_initialized() ==> r is Ok && r->Ok_0@ == packet_request(
                device_id@,
                PacketType::NotificationReply,
                seq![
                    ("requestReplyId"@, BodyValueView::Text(notification_id@)),
                    ("message"@, BodyValueView::Text(message@)),
                ],
            ),
            !self.is_initialized() ==> r == Err::<AppEvent, BackendError>(BackendError::NotInitialized),
    {
        if self.initialized {
            Ok(
                KdeConnectAdapter::new().notifications().reply_to_notification(
                    DeviceId(device_id),
                    notification_id,
                    message,
                ),
            )
        } else {
            Err(BackendError::NotInitialized)
        }
    }

    /// Send clipboard content to a device.
    pub fn send_clipboard(&self, device_id: String, content: String) -> (r: Result<
        AppEvent,
        BackendError,
    >)
        ensures
            self.is_initialized() ==> r is Ok && r->Ok_0@ == packet_request(
                device_id@,
                PacketType::Clipboard,
                seq![("content"@, BodyValueView::Text(content@))],
            ),
            !self.is_initialized() ==> r == Err::<AppEvent, BackendError>(BackendError::NotInitialized),
    {
        if self.initialized {
            Ok(KdeConnectAdapter::new().clipboard().send_clipboard(DeviceId(device_id), content))
        } else {
            Err(BackendError::NotInitialized)
        }
    }

    /// Request the SMS conversations of a device.
    pub fn request_conversations(&self, device_id: String) -> (r: Result<AppEvent, BackendError>)
        ensures
            self.is_initialized() ==> r is Ok && r->Ok_0@ == packet_request(
                device_id@,
                PacketType::SmsRequestConversations,
                Seq::empty(),
            ),
            !self.is_initialized() ==> r == Err::<AppEvent, BackendError>(BackendError::NotInitialized),
    {
        if self.initialized {
            Ok(KdeConnectAdapter::new().sms().request_conversations(DeviceId(device_id)))
        } else {
            Err(BackendError::NotInitialized)
        }
    }

    /// Request the messages of one conversation.
    pub fn request_conversation(&self, device_id: String, thread_id: i64) -> (r: Result<
        AppEvent,
        BackendError,
    >)
        ensures
            self.is_initialized() ==> r is Ok && r->Ok_0@ == packet_request(
                device_id@,
                PacketType::SmsRequest,
                seq![("requestConversation"@, BodyValueView::Integer(thread_id))],
            ),
            !self.is_initialized() ==> r == Err::<AppEvent, BackendError>(BackendError::NotInitialized),
    {
        if self.initialized {
            Ok(KdeConnectAdapter::new().sms().request_conversation(DeviceId(device_id), thread_id))
        } else {
            Err(BackendError::NotInitialized)
        }
    }

    /// Send an SMS through a device.
    pub fn send_sms(&self, device_id: String, phone_number: String, message: String) -> (r: Result<
        AppEvent,
        BackendError,
    >)
        ensures
            self.is_initialized() ==> r is Ok && r->Ok_0@ == packet_request(
                device_id@,
                PacketType::SmsRequest,
                seq![
                    ("sendSms"@, BodyValueView::Bool(true)),
                    ("phoneNumber"@, BodyValueView::Text(phone_number@)),
                    ("messageBody"@, BodyValueView::Text(message@)),
                ],
            ),
            !self.is_initialized() ==> r == Err::<AppEvent, BackendError>(BackendError::NotInitialized),
    {
        if self.initialized {
            Ok(KdeConnectAdapter::new().sms().send_sms(DeviceId(device_id), phone_number, message))
        } else {
            Err(BackendError::NotInitialized)
        }
    }

    /// Start browsing the files of a device.
    pub fn start_sftp(&self, device_id: String) -> (r: Result<AppEvent, BackendError>)
        ensures
            self.is_initialized() ==> r is Ok && r->Ok_0@ == packet_request(
                device_id@,
                PacketType::SftpRequest,
                seq![("startBrowsing"@, BodyValueView::Bool(true))],
            ),
            !self.is_initialized() ==> r == Err::<AppEvent, BackendError>(BackendError::NotInitialized),
    {
        if self.initialized {
            Ok(KdeConnectAdapter::new().sftp().start_browsing(DeviceId(device_id)))
        } else {
            Err(BackendError::NotInitialized)
        }
    }

    /// Request the list of commands a device offers.
    pub fn request_commands(&self, device_id: String) -> (r: Result<AppEvent, BackendError>)
        ensures
            self.is_initialized() ==> r is Ok && r->Ok_0@ == packet_request(
                device_id@,
                PacketType::RunCommandRequest,
                seq![("requestCommandList"@, BodyValueView::Bool(true))],
            ),
            !self.is_initialized() ==> r == Err::<AppEvent, BackendError>(BackendError::NotInitialized),
    {
        if self.initialized {
            Ok(KdeConnectAdapter::new().commands().request_commands(DeviceId(device_id)))
        } else {
            Err(BackendError::NotInitialized)
        }
    }

    /// Run a command on a device.
    pub fn execute_command(&self, device_id: String, command_key: String) -> (r: Result<
        AppEvent,
        BackendError,
    >)
        ensures
            self.is_initialized() ==> r is Ok && r->Ok_0@ == packet_request(
                device_id@,
                PacketType::RunCommandRequest,
                seq![("key"@, BodyValueView::Text(command_key@))],
            ),
            !self.is_initialized() ==> r == Err::<AppEvent, BackendError>(BackendError::NotInitialized),
    {
        if self.initialized {
            Ok(KdeConnectAdapter::new().commands().execute_command(DeviceId(device_id), command_key))
        } else {
            Err(BackendError::NotInitialized)
        }
    }

    /// Ring a device: a ping with a payload of its own.
    pub fn ring_device(&self, device_id: String) -> (r: Result<AppEvent, BackendError>)
        ensures
            self.is_initialized() ==> r is Ok && r->Ok_0@ == AppEventView::Ping(device_id@, "Ring!"@),
            !self.is_initialized() ==> r == Err::<AppEvent, BackendError>(BackendError::NotInitialized),
    {
        if self.initialized {
            Ok(KdeConnectAdapter::new().send_ping(DeviceId(device_id), String::from_str("Ring!")))
        } else {
            Err(BackendError::NotInitialized)
        }
    }

    /// Browse the files of a device.
    pub fn browse_device_filesystem(&self, device_id: String) -> (r: Result<AppEvent, BackendError>)
        ensures
            self.is_initialized() ==> r is Ok && r->Ok_0@ == packet_request(
                device_id@,
                PacketType::SftpRequest,
                seq![("startBrowsing"@, BodyValueView::Bool(true))],
            ),
            !self.is_initialized() ==> r == Err::<AppEvent, BackendError>(BackendError::NotInitialized),
    {
        self.start_sftp(device_id)
    }

    /// Share files with a device.
    pub fn share_files(&self, device_id: String, files: Vec<String>) -> (r: Result<
        AppEvent,
        BackendError,
    >)
        ensures
            self.is_initialized() ==> r is Ok && r->Ok_0@ == AppEventView::SendFiles(
                device_id@,
                views_of(files@),
            ),
            !self.is_initialized() ==> r == Err::<AppEvent, BackendError>(BackendError::NotInitialized),
    {
        self.send_files(device_id, files)
    }
}

} // verus!
