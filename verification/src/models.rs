//! The device record that clients read, and the icons that stand for its
//! kind, its battery and its cellular signal.

use vstd::prelude::*;
use crate::text::same_text;

verus! {

/// A device as the clients see it.
pub struct Device {
    pub id: String,
    pub name: String,
    pub device_type: String,
    pub is_reachable: bool,
    pub is_paired: bool,
    pub battery_level: Option<i32>,
    pub is_charging: Option<bool>,
    pub has_battery: bool,
    pub has_ping: bool,
    pub has_share: bool,
    pub has_findmyphone: bool,
    pub has_sms: bool,
    pub has_clipboard: bool,
    pub has_contacts: bool,
    pub has_mpris: bool,
    pub has_remote_keyboard: bool,
    pub has_sftp: bool,
    pub has_presenter: bool,
    pub has_lockdevice: bool,
    pub has_virtualmonitor: bool,
    pub pairing_requests: i32,
    /// Bars from 0 to 4, or -1 for no signal.
    pub signal_strength: Option<i32>,
    /// "5G", "4G", "3G", "2G" and the like.
    pub network_type: Option<String>,
}

/// What a `Device` holds, as mathematical values.
pub ghost struct DeviceView {
    pub id: Seq<char>,
    pub name: Seq<char>,
    pub device_type: Seq<char>,
    pub is_reachable: bool,
    pub is_paired: bool,
    pub battery_level: Option<i32>,
    pub is_charging: Option<bool>,
    pub has_battery: bool,
    pub has_ping: bool,
    pub has_share: bool,
    pub has_findmyphone: bool,
    pub has_sms: bool,
    pub has_clipboard: bool,
    pub has_contacts: bool,
    pub has_mpris: bool,
    pub has_remote_keyboard: bool,
    pub has_sftp: bool,
    pub has_presenter: bool,
    pub has_lockdevice: bool,
    pub has_virtualmonitor: bool,
    pub pairing_requests: i32,
    pub signal_strength: Option<i32>,
    pub network_type: Option<Seq<char>>,
}

impl View for Device {
    type V = DeviceView;

    open spec fn view(&self) -> DeviceView {
        DeviceView {
            id: self.id@,
            name: self.name@,
            device_type: self.device_type@,
            is_reachable: self.is_reachable,
            is_paired: self.is_paired,
            battery_level: self.battery_level,
            is_charging: self.is_charging,
            has_battery: self.has_battery,
            has_ping: self.has_ping,
            has_share: self.has_share,
            has_findmyphone: self.has_findmyphone,
            has_sms: self.has_sms,
            has_clipboard: self.has_clipboard,
            has_contacts: self.has_contacts,
            has_mpris: self.has_mpris,
            has_remote_keyboard: self.has_remote_keyboard,
            has_sftp: self.has_sftp,
            has_presenter: self.has_presenter,
            has_lockdevice: self.has_lockdevice,
            has_virtualmonitor: self.has_virtualmonitor,
            pairing_requests: self.pairing_requests,
            signal_strength: self.signal_strength,
            network_type: match self.network_type {
                Some(t) => Some(t@),
                None => None,
            },
        }
    }
}

impl Clone for Device {
    fn clone(&self) -> (r: Self)
        ensures
            r@ == self@,
    {
        Device {
            id: self.id.clone(),
            name: self.name.clone(),
            device_type: self.device_type.clone(),
            is_reachable: self.is_reachable,
            is_paired: self.is_paired,
            battery_level: self.battery_level,
            is_charging: self.is_charging,
            has_battery: self.has_battery,
            has_ping: self.has_ping,
            has_share: self.has_share,
            has_findmyphone: self.has_findmyphone,
            has_sms: self.has_sms,
            has_clipboard: self.has_clipboard,
            has_contacts: self.has_contacts,
            has_mpris: self.has_mpris,
            has_remote_keyboard: self.has_remote_keyboard,
            has_sftp: self.has_sftp,
            has_presenter: self.has_presenter,
            has_lockdevice: self.has_lockdevice,
            has_virtualmonitor: self.has_virtualmonitor,
            pairing_requests: self.pairing_requests,
            signal_strength: self.signal_strength,
            network_type: match &self.network_type {
                Some(t) => Some(t.clone()),
                None => None,
            },
        }
    }
}

/// The icon for a kind of device: tablets and computers have their own,
/// everything else is shown as a phone.
pub open spec fn device_icon_name(device_type: Seq<char>) -> Seq<char> {
    if device_type == "tablet"@ {
        "tablet-symbolic"@
    } else if device_type == "desktop"@ || device_type == "laptop"@ {
        "computer-symbolic"@
    } else {
        "phone-symbolic"@
    }
}

/// The icon for a battery reading. Without both a level and a charging state
/// the plain battery is shown; a charging battery has one icon whatever its
/// level; otherwise the level picks a step of twenty, and a level outside
/// 0..=80 shows as full.
pub open spec fn battery_icon_name(level: Option<i32>, charging: Option<bool>) -> Seq<char> {
    if level is Some && charging is Some {
        let l = level->0;
        if charging->0 {
            "battery-full-charging-symbolic"@
        } else if 0 <= l <= 20 {
            "battery-level-20-symbolic"@
        } else if 21 <= l <= 40 {
            "battery-level-40-symbolic"@
        } else if 41 <= l <= 60 {
            "battery-level-60-symbolic"@
        } else if 61 <= l <= 80 {
            "battery-level-80-symbolic"@
        } else {
            "battery-level-100-symbolic"@
        }
    } else {
        "battery-symbolic"@
    }
}

/// The icon for a signal strength.
pub open spec fn signal_icon_name(strength: i32) -> Seq<char> {
    if strength == -1 {
        "network-cellular-offline-symbolic"@
    } else if strength == 0 {
        "network-cellular-signal-none-symbolic"@
    } else if strength == 1 {
        "network-cellular-signal-weak-symbolic"@
    } else if strength == 2 {
        "network-cellular-signal-ok-symbolic"@
    } else if strength == 3 {
        "network-cellular-signal-good-symbolic"@
    } else if strength == 4 {
        "network-cellular-signal-excellent-symbolic"@
    } else {
        "network-cellular-symbolic"@
    }
}

impl Device {
    /// The icon for this kind of device.
    pub fn device_icon(&self) -> (r: &'static str)
        ensures
            r@ == device_icon_name(self@.device_type),
    {
        let t = self.device_type.as_str();
        if same_text(t, "tablet") {
            "tablet-symbolic"
        } else if same_text(t, "desktop") || same_text(t, "laptop") {
            "computer-symbolic"
        } else {
            "phone-symbolic"
        }
    }

    /// The icon for the battery reading.
    pub fn battery_icon(&self) -> (r: &'static str)
        ensures
            r@ == battery_icon_name(self@.battery_level, self@.is_charging),
    {
        match (self.battery_level, self.is_charging) {
            (Some(level), Some(charging)) => {
                if charging {
                    "battery-full-charging-symbolic"
                } else if 0 <= level && level <= 20 {
                    "battery-level-20-symbolic"
                } else if 21 <= level && level <= 40 {
                    "battery-level-40-symbolic"
                } else if 41 <= level && level <= 60 {
                    "battery-level-60-symbolic"
                } else if 61 <= level && level <= 80 {
                    "battery-level-80-symbolic"
                } else {
                    "battery-level-100-symbolic"
                }
            },
            _ => "battery-symbolic",
        }
    }

    /// The icon for the cellular signal, if the device reports one.
    pub fn signal_icon(&self) -> (r: Option<&'static str>)
        ensures
            r is Some == self@.signal_strength is Some,
            r is Some ==> r->0@ == signal_icon_name(self@.signal_strength->0),
    {
        match self.signal_strength {
            None => None,
            Some(strength) => Some(
                if strength == -1 {
                    "network-cellular-offline-symbolic"
                } else if strength == 0 {
                    "network-cellular-signal-none-symbolic"
                } else if strength == 1 {
                    "network-cellular-signal-weak-symbolic"
                } else if strength == 2 {
                    "network-cellular-signal-ok-symbolic"
                } else if strength == 3 {
                    "network-cellular-signal-good-symbolic"
                } else if strength == 4 {
                    "network-cellular-signal-excellent-symbolic"
                } else {
                    "network-cellular-symbolic"
                },
            ),
        }
    }
}

} // verus!
