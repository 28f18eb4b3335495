//! The messages that drive the applet.

use vstd::prelude::*;
use crate::models::{Device, DeviceView};
use crate::text::views_of;

verus! {

/// A message to the applet.
pub enum Message {
    TogglePopup,
    /// The popup with this surface identifier was closed.
    PopupClosed(u64),
    RefreshDevices,
    DevicesUpdated(Vec<Device>),
    ToggleDeviceMenu(String),
    // Device actions
    PingDevice(String),
    PairDevice(String),
    UnpairDevice(String),
    RingDevice(String),
    BrowseDevice(String),
    SendFiles(String),
    SendSMS(String),
    ShareClipboard(String),
    ShareText(String),
    ShareUrl(String),
    // Advanced features
    RemoteInput(String),
    LockDevice(String),
    PresenterMode(String),
    UseAsMonitor(String),
    OpenSettings,
    // Pairing
    AcceptPairing(String),
    RejectPairing(String),
    /// Device identifier, device name, device type.
    PairingRequestReceived(String, String, String),
    /// A refresh asked for while a pairing settles.
    DelayedRefresh,
    /// Device identifier, and the media data as JSON text.
    MprisReceived(String, String),
}

/// What a `Message` holds, as mathematical values.
pub ghost enum MessageView {
    TogglePopup,
    PopupClosed(u64),
    RefreshDevices,
    DevicesUpdated(Seq<DeviceView>),
    ToggleDeviceMenu(Seq<char>),
    PingDevice(Seq<char>),
    PairDevice(Seq<char>),
    UnpairDevice(Seq<char>),
    RingDevice(Seq<char>),
    BrowseDevice(Seq<char>),
    SendFiles(Seq<char>),
    SendSMS(Seq<char>),
    ShareClipboard(Seq<char>),
    ShareText(Seq<char>),
    ShareUrl(Seq<char>),
    RemoteInput(Seq<char>),
    LockDevice(Seq<char>),
    PresenterMode(Seq<char>),
    UseAsMonitor(Seq<char>),
    OpenSettings,
    AcceptPairing(Seq<char>),
    RejectPairing(Seq<char>),
    PairingRequestReceived(Seq<char>, Seq<char>, Seq<char>),
    DelayedRefresh,
    MprisReceived(Seq<char>, Seq<char>),
}

impl View for Message {
    type V = MessageView;

    open spec fn view(&self) -> MessageView {
        match self {
            Message::TogglePopup => MessageView::TogglePopup,
            Message::PopupClosed(id) => MessageView::PopupClosed(*id),
            Message::RefreshDevices => MessageView::RefreshDevices,
            Message::DevicesUpdated(ds) => MessageView::DevicesUpdated(views_of(ds@)),
            Message::ToggleDeviceMenu(id) => MessageView::ToggleDeviceMenu(id@),
            Message::PingDevice(id) => MessageView::PingDevice(id@),
            Message::PairDevice(id) => MessageView::PairDevice(id@),
            Message::UnpairDevice(id) => MessageView::UnpairDevice(id@),
            Message::RingDevice(id) => MessageView::RingDevice(id@),
            Message::BrowseDevice(id) => MessageView::BrowseDevice(id@),
            Message::SendFiles(id) => MessageView::SendFiles(id@),
            Message::SendSMS(id) => MessageView::SendSMS(id@),
            Message::ShareClipboard(id) => MessageView::ShareClipboard(id@),
            Message::ShareText(id) => MessageView::ShareText(id@),
            Message::ShareUrl(id) => MessageView::ShareUrl(id@),
            Message::RemoteInput(id) => MessageView::RemoteInput(id@),
            Message::LockDevice(id) => MessageView::LockDevice(id@),
            Message::PresenterMode(id) => MessageView::PresenterMode(id@),
            Message::UseAsMonitor(id) => MessageView::UseAsMonitor(id@),
            Message::OpenSettings => MessageView::OpenSettings,
            Message::AcceptPairing(id) => MessageView::AcceptPairing(id@),
            Message::RejectPairing(id) => MessageView::RejectPairing(id@),
            Message::PairingRequestReceived(id, name, kind) => MessageView::PairingRequestReceived(
                id@,
                name@,
                kind@,
            ),
            Message::DelayedRefresh => MessageView::DelayedRefresh,
            Message::MprisReceived(id, data) => MessageView::MprisReceived(id@, data@),
        }
    }
}

} // verus!
