//! Pairing requests: when a device asks to pair, the user is told once.

use vstd::prelude::*;
use crate::adapter::{CoreEvent, CoreEventView, PairState};
use crate::backend::Backend;
use crate::cache::Cache;
use crate::models::DeviceView;
use crate::text::{push_text, views_of};

verus! {

/// Pairing notification data for the user interface.
pub struct PairingNotification {
    pub device_id: String,
    pub device_name: String,
    pub device_type: String,
}

/// What a `PairingNotification` holds, as mathematical values.
pub ghost struct PairingNotificationView {
    pub device_id: Seq<char>,
    pub device_name: Seq<char>,
    pub device_type: Seq<char>,
}

impl View for PairingNotification {
    type V = PairingNotificationView;

    open spec fn view(&self) -> PairingNotificationView {
        PairingNotificationView {
            device_id: self.device_id@,
            device_name: self.device_name@,
            device_type: self.device_type@,
        }
    }
}

/// The view of an optional notification.
pub open spec fn notification_view(n: Option<PairingNotification>) -> Option<
    PairingNotificationView,
> {
    match n {
        Some(n) => Some(n@),
        None => None,
    }
}

/// The notification for a request of device `id`, known as `device`.
pub open spec fn request_from(id: Seq<char>, device: DeviceView) -> PairingNotificationView {
    PairingNotificationView { device_id: id, device_name: device.name, device_type: device.device_type }
}

/// The pair states after an event, by device. A request is recorded when it
/// is notified; any other pair state is recorded as it comes.
pub open spec fn recorded_after(
    recorded: Map<Seq<char>, PairState>,
    devices: Map<Seq<char>, DeviceView>,
    event: CoreEventView,
) -> Map<Seq<char>, PairState> {
    match event {
        CoreEventView::PairStateChanged(id, state) => {
            if state != PairState::Requested {
                recorded.insert(id, state)
            } else if notified_by(recorded, devices, event) is Some {
                recorded.insert(id, PairState::Requested)
            } else {
                recorded
            }
        },
        _ => recorded,
    }
}

/// The notification that an event gives rise to: a change of a device's pair
/// state to `Requested` is notified if the device is known and its last
/// recorded pair state is not `Requested` already.
pub open spec fn notified_by(
    recorded: Map<Seq<char>, PairState>,
    devices: Map<Seq<char>, DeviceView>,
    event: CoreEventView,
) -> Option<PairingNotificationView> {
    match event {
        CoreEventView::PairStateChanged(id, state) => {
            if state == PairState::Requested && devices.dom().contains(id) && !(
            recorded.dom().contains(id) && recorded[id] == PairState::Requested) {
                Some(request_from(id, devices[id]))
            } else {
                None
            }
        },
        _ => None,
    }
}

/// Watches the engine's events for pairing requests.
pub struct PairingDetector {
    recorded: Cache<PairState>,
}

impl PairingDetector {
    /// Every detector made by this module is well formed.
    pub closed spec fn wf(&self) -> bool {
        self.recorded.wf()
    }

    /// The last recorded pair state of each device.
    pub closed spec fn recorded(&self) -> Map<Seq<char>, PairState> {
        self.recorded@
    }

    /// A detector that has recorded nothing.
    pub fn new() -> (r: Self)
        ensures
            r.wf(),
            r.recorded() == Map::<Seq<char>, PairState>::empty(),
    {
        PairingDetector { recorded: Cache::new() }
    }

    /// Takes one event of the engine and says whether the user is to be told
    /// of a pairing request.
    pub fn observe(&mut self, event: &CoreEvent, backend: &Backend) -> (r: Option<
        PairingNotification,
    >)
        requires
            old(self).wf(),
            backend.wf(),
        ensures
            final(self).wf(),
            notification_view(r) == notified_by(old(self).recorded(), backend.devices(), event@),
            final(self).recorded() == recorded_after(
                old(self).recorded(),
                backend.devices(),
                event@,
            ),
    {
        match event {
            CoreEvent::PairStateChanged(device_id, state) => {
                if !matches!(state, PairState::Requested) {
                    self.recorded.upsert(device_id.0.clone(), *state);
                    return None;
                }
                let repeated = match self.recorded.get(device_id.0.as_str()) {
                    Some(last) => matches!(last, PairState::Requested),
                    None => false,
                };
                if repeated {
                    return None;
                }
                match backend.device(device_id.0.as_str()) {
                    Some(device) => {
                        let notification = PairingNotification {
                            device_id: device_id.0.clone(),
                            device_name: device.name.clone(),
                            device_type: device.device_type.clone(),
                        };
                        self.recorded.upsert(device_id.0.clone(), PairState::Requested);
                        Some(notification)
                    },
                    None => None,
                }
            },
            _ => None,
        }
    }
}

/// A pairing request that comes again while the device's recorded state is
/// still `Requested` is not notified again, whatever the devices are by then.
pub proof fn lemma_request_notified_once(
    recorded: Map<Seq<char>, PairState>,
    devices: Map<Seq<char>, DeviceView>,
    later_devices: Map<Seq<char>, DeviceView>,
    id: Seq<char>,
)
    ensures
        ({
            let request = CoreEventView::PairStateChanged(id, PairState::Requested);
            let after = recorded_after(recorded, devices, request);
            notified_by(recorded, devices, request) is Some ==> notified_by(
                after,
                later_devices,
                request,
            ) is None && recorded_after(after, later_devices, request) == after
        }),
{
}

/// A pairing request for a device that is not known is dropped, and nothing
/// is recorded.
pub proof fn lemma_unknown_device_dropped(
    recorded: Map<Seq<char>, PairState>,
    devices: Map<Seq<char>, DeviceView>,
    id: Seq<char>,
)
    requires
        !devices.dom().contains(id),
    ensures
        ({
            let request = CoreEventView::PairStateChanged(id, PairState::Requested);
            notified_by(recorded, devices, request) is None && recorded_after(
                recorded,
                devices,
                request,
            ) == recorded
        }),
{
}

/// The headline of the desktop notification for a pairing request.
pub fn pairing_summary(device_name: &str) -> (r: String)
    ensures
        r@ == device_name@ + " wants to pair"@,
{
    let mut out = String::from_str(device_name);
    push_text(&mut out, " wants to pair");
    out
}

/// The arguments of the desktop notification for a pairing request.
pub open spec fn notification_arguments(device_name: Seq<char>) -> Seq<Seq<char>> {
    seq![
        "--app-name=COSMIC KDE Connect"@,
        "--icon=phone"@,
        "--urgency=critical"@,
        "--category=device.added"@,
        device_name + " wants to pair"@,
        "Open COSMIC Connect to accept or reject"@,
    ]
}

/// The arguments with which the notification command is run to show a
/// pairing request on the desktop.
pub fn show_pairing_notification(device_name: &str, device_id: &str) -> (r: Vec<String>)
    ensures
        views_of(r@) == notification_arguments(device_name@),
{
    let mut out: Vec<String> = Vec::new();
    out.push(String::from_str("--app-name=COSMIC KDE Connect"));
    out.push(String::from_str("--icon=phone"));
    out.push(String::from_str("--urgency=critical"));
    out.push(String::from_str("--category=device.added"));
    out.push(pairing_summary(device_name));
    out.push(String::from_str("Open COSMIC Connect to accept or reject"));
    proof {
        assert(views_of(out@) =~= notification_arguments(device_name@));
    }
    out
}

} // verus!
