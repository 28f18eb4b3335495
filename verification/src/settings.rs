//! What a device is allowed to do on this host.

use vstd::prelude::*;

verus! {

/// Which plugins a device may use.
#[derive(Clone, Copy, Debug, PartialEq, Eq, Structural)]
pub struct DevicePermissions {
    pub battery: bool,
    pub clipboard: bool,
    pub connectivity_report: bool,
    pub contacts: bool,
    pub findmyphone: bool,
    pub lockdevice: bool,
    pub mousepad: bool,
    pub mpris: bool,
    pub notification: bool,
    pub photo: bool,
    pub ping: bool,
    pub presenter: bool,
    pub remotekeyboard: bool,
    pub remotecommands: bool,
    pub remotesystemvolume: bool,
    pub runcommand: bool,
    pub sendnotifications: bool,
    pub sftp: bool,
    pub share: bool,
    pub sms: bool,
    pub telephony: bool,
    pub virtualmonitor: bool,
}

/// The permissions every device starts with.
pub open spec fn default_permissions() -> DevicePermissions {
    DevicePermissions {
        battery: true,
        clipboard: true,
        connectivity_report: true,
        contacts: false,
        findmyphone: true,
        lockdevice: false,
        mousepad: false,
        mpris: false,
        notification: true,
        photo: false,
        ping: true,
        presenter: false,
        remotekeyboard: false,
        remotecommands: false,
        remotesystemvolume: false,
        runcommand: false,
        sendnotifications: true,
        sftp: true,
        share: true,
        sms: true,
        telephony: false,
        virtualmonitor: false,
    }
}

/// The permissions of a device. Every device has the same so far.
pub fn load_device_permissions(_device_id: &str) -> (r: DevicePermissions)
    ensures
        r == default_permissions(),
{
    DevicePermissions {
        battery: true,
        clipboard: true,
        connectivity_report: true,
        contacts: false,
        findmyphone: true,
        lockdevice: false,
        mousepad: false,
        mpris: false,
        notification: true,
        photo: false,
        ping: true,
        presenter: false,
        remotekeyboard: false,
        remotecommands: false,
        remotesystemvolume: false,
        runcommand: false,
        sendnotifications: true,
        sftp: true,
        share: true,
        sms: true,
        telephony: false,
        virtualmonitor: false,
    }
}

/// Switches a plugin on or off for a device. Nothing is stored so far, and
/// the call succeeds for every plugin.
pub fn set_plugin_enabled_internal(_device_id: &str, _plugin_name: &str, _enabled: bool) -> (r:
    Result<(), String>)
    ensures
        r is Ok,
{
    Ok(())
}

} // verus!
