//! What the applet's popup shows: the devices that ask to pair, the devices
//! that are connected, and for each connected device its card and menu.

use vstd::prelude::*;
use crate::messages::{Message, MessageView};
use crate::models::{battery_icon_name, signal_icon_name, Device, DeviceView};
use crate::order::{
    is_sorted_with, is_total, is_transitive, lemma_sort_with_sorted, sort_vec, sort_with,
};
use crate::text::{
    chars_of, decimal_of, lemma_text_le_total, lemma_text_le_transitive, push_signed_decimal,
    text_le, text_precedes, views_of,
};

verus! {

/// Devices in the order of their names.
pub open spec fn name_order() -> spec_fn(DeviceView, DeviceView) -> bool {
    |x: DeviceView, y: DeviceView| text_le(x.name, y.name)
}

/// The devices that ask to pair: at least one request, not paired yet.
pub open spec fn asks_to_pair() -> spec_fn(DeviceView) -> bool {
    |d: DeviceView| d.pairing_requests > 0 && !d.is_paired
}

/// The devices that are connected: paired and reachable.
pub open spec fn is_connected() -> spec_fn(DeviceView) -> bool {
    |d: DeviceView| d.is_paired && d.is_reachable
}

/// `devices` by name; devices of one name keep their order.
pub open spec fn by_name(devices: Seq<DeviceView>) -> Seq<DeviceView> {
    sort_with(devices, name_order())
}

/// The order by name is total and transitive.
pub proof fn lemma_name_order()
    ensures
        is_total(name_order()),
        is_transitive(name_order()),
{
    assert forall|x: DeviceView, y: DeviceView| #[trigger]
        name_order()(x, y) || #[trigger] name_order()(y, x) by {
        lemma_text_le_total(x.name, y.name);
    }
    assert forall|x: DeviceView, y: DeviceView, z: DeviceView| #[trigger]
        name_order()(x, y) && #[trigger] name_order()(y, z) implies name_order()(x, z) by {
        lemma_text_le_transitive(x.name, y.name, z.name);
    }
}

/// Orders the devices by name, keeping the order of equal names.
pub fn sort_by_name(devices: &mut Vec<Device>)
    ensures
        views_of(final(devices)@) == by_name(views_of(old(devices)@)),
        is_sorted_with(views_of(final(devices)@), name_order()),
        final(devices).len() == old(devices).len(),
{
    let before = |a: &Device, b: &Device| -> (r: bool)
        ensures
            r == name_order()(a@, b@),
        { text_precedes(&chars_of(a.name.as_str()), &chars_of(b.name.as_str())) };
    sort_vec(devices, before, Ghost(name_order()));
    proof {
        lemma_name_order();
        lemma_sort_with_sorted(views_of(old(devices)@), name_order());
    }
}

/// The two lists of the popup.
pub struct PopupView {
    /// The devices that ask to pair, by name.
    pub pairing_requests: Vec<Device>,
    /// The devices that are connected, by name.
    pub devices: Vec<Device>,
}

fn asking(devices: &Vec<Device>) -> (r: Vec<Device>)
    ensures
        views_of(r@) == views_of(devices@).filter(asks_to_pair()),
{
    let ghost all = views_of(devices@);
    let mut out: Vec<Device> = Vec::new();
    let mut i: usize = 0;
    proof {
        reveal(Seq::filter);
        assert(all.take(0) =~= Seq::<DeviceView>::empty());
        assert(views_of(out@) =~= Seq::<DeviceView>::empty());
    }
    while i < devices.len()
        invariant
            i <= devices.len(),
            all == views_of(devices@),
            views_of(out@) == all.take(i as int).filter(asks_to_pair()),
        decreases devices.len() - i,
    {
        let ghost before = views_of(out@);
        let d = &devices[i];
        proof {
            reveal(Seq::filter);
            assert(all.take(i + 1).drop_last() =~= all.take(i as int));
            assert(all.take(i + 1).last() == d@);
        }
        if d.pairing_requests > 0 && !d.is_paired {
            out.push(d.clone());
            proof {
                assert(views_of(out@) =~= before.push(d@));
            }
        }
        i += 1;
    }
    proof {
        assert(all.take(devices.len() as int) =~= all);
    }
    out
}

fn connected(devices: &Vec<Device>) -> (r: Vec<Device>)
    ensures
        views_of(r@) == views_of(devices@).filter(is_connected()),
{
    let ghost all = views_of(devices@);
    let mut out: Vec<Device> = Vec::new();
    let mut i: usize = 0;
    proof {
        reveal(Seq::filter);
        assert(all.take(0) =~= Seq::<DeviceView>::empty());
        assert(views_of(out@) =~= Seq::<DeviceView>::empty());
    }
    while i < devices.len()
        invariant
            i <= devices.len(),
            all == views_of(devices@),
            views_of(out@) == all.take(i as int).filter(is_connected()),
        decreases devices.len() - i,
    {
        let ghost before = views_of(out@);
        let d = &devices[i];
        proof {
            reveal(Seq::filter);
            assert(all.take(i + 1).drop_last() =~= all.take(i as int));
            assert(all.take(i + 1).last() == d@);
        }
        if d.is_paired && d.is_reachable {
            out.push(d.clone());
            proof {
                assert(views_of(out@) =~= before.push(d@));
            }
        }
        i += 1;
    }
    proof {
        assert(all.take(devices.len() as int) =~= all);
    }
    out
}

/// The lists of the popup for the given devices: those that ask to pair and
/// those that are connected, each by name.
pub fn create_popup_view(devices: &Vec<Device>) -> (r: PopupView)
    ensures
        views_of(r.pairing_requests@) == by_name(views_of(devices@).filter(asks_to_pair())),
        views_of(r.devices@) == by_name(views_of(devices@).filter(is_connected())),
        is_sorted_with(views_of(r.pairing_requests@), name_order()),
        is_sorted_with(views_of(r.devices@), name_order()),
{
    let mut pairing_requests = asking(devices);
    sort_by_name(&mut pairing_requests);
    let mut shown = connected(devices);
    sort_by_name(&mut shown);
    PopupView { pairing_requests, devices: shown }
}

/// One line of a device's menu.
pub enum MenuItem {
    /// The title of a section.
    Heading(String),
    /// A line between two sections.
    Divider,
    /// A button: its label, and the message it sends.
    Button(String, Message),
}

/// What a `MenuItem` holds, as mathematical values.
pub ghost enum MenuItemView {
    Heading(Seq<char>),
    Divider,
    Button(Seq<char>, MessageView),
}

impl View for MenuItem {
    type V = MenuItemView;

    open spec fn view(&self) -> MenuItemView {
        match self {
            MenuItem::Heading(t) => MenuItemView::Heading(t@),
            MenuItem::Divider => MenuItemView::Divider,
            MenuItem::Button(label, message) => MenuItemView::Button(label@, message@),
        }
    }
}

/// A button, or nothing.
pub open spec fn button_if(show: bool, label: Seq<char>, message: MessageView) -> Seq<MenuItemView> {
    if show {
        seq![MenuItemView::Button(label, message)]
    } else {
        seq![]
    }
}

/// The section of the menu for talking to the device.
pub open spec fn communication_menu(d: DeviceView) -> Seq<MenuItemView> {
    if d.has_ping || d.has_findmyphone || d.has_sms || d.has_clipboard {
        seq![MenuItemView::Heading("Communication"@)] + button_if(
            d.has_ping,
            "Ping"@,
            MessageView::PingDevice(d.id),
        ) + button_if(d.has_findmyphone, "Ring device"@, MessageView::RingDevice(d.id)) + button_if(
            d.has_sms,
            "SMS Chat"@,
            MessageView::SendSMS(d.id),
        ) + button_if(d.has_clipboard, "Share clipboard"@, MessageView::ShareClipboard(d.id))
    } else {
        seq![]
    }
}

/// The section of the menu for files.
pub open spec fn files_menu(d: DeviceView) -> Seq<MenuItemView> {
    if d.has_share || d.has_sftp {
        seq![MenuItemView::Divider, MenuItemView::Heading("Files"@)] + button_if(
            d.has_share,
            "Send file"@,
            MessageView::SendFiles(d.id),
        ) + button_if(d.has_sftp, "Browse this device"@, MessageView::BrowseDevice(d.id))
    } else {
        seq![]
    }
}

/// The section of the menu for locking and for the display.
pub open spec fn security_menu(d: DeviceView) -> Seq<MenuItemView> {
    if d.has_lockdevice || d.has_virtualmonitor {
        seq![MenuItemView::Divider, MenuItemView::Heading("Security & Display"@)] + button_if(
            d.has_lockdevice,
            "Lock device"@,
            MessageView::LockDevice(d.id),
        ) + button_if(d.has_virtualmonitor, "Use as monitor"@, MessageView::UseAsMonitor(d.id))
    } else {
        seq![]
    }
}

/// The menu of a device: a button for each thing the device can do, in
/// sections.
pub open spec fn device_menu(d: DeviceView) -> Seq<MenuItemView> {
    communication_menu(d) + files_menu(d) + security_menu(d)
}

fn push_button(out: &mut Vec<MenuItem>, show: bool, label: &str, message: Message)
    ensures
        views_of(final(out)@) == views_of(old(out)@) + button_if(show, label@, message@),
{
    let ghost before = views_of(out@);
    if show {
        out.push(MenuItem::Button(String::from_str(label), message));
        proof {
            assert(views_of(out@) =~= before + button_if(show, label@, message@));
        }
    } else {
        proof {
            assert(views_of(out@) =~= before + button_if(show, label@, message@));
        }
    }
}

fn push_heading(out: &mut Vec<MenuItem>, divided: bool, title: &str)
    ensures
        views_of(final(out)@) == views_of(old(out)@) + (if divided {
            seq![MenuItemView::Divider, MenuItemView::Heading(title@)]
        } else {
            seq![MenuItemView::Heading(title@)]
        }),
{
    let ghost before = views_of(out@);
    if divided {
        out.push(MenuItem::Divider);
    }
    out.push(MenuItem::Heading(String::from_str(title)));
    proof {
        if divided {
            assert(views_of(out@) =~= before + seq![
                MenuItemView::Divider,
                MenuItemView::Heading(title@),
            ]);
        } else {
            assert(views_of(out@) =~= before + seq![MenuItemView::Heading(title@)]);
        }
    }
}

fn push_communication(out: &mut Vec<MenuItem>, device: &Device)
    ensures
        views_of(final(out)@) == views_of(old(out)@) + communication_menu(device@),
{
    let ghost before = views_of(out@);
    let ghost d = device@;
    if device.has_ping || device.has_findmyphone || device.has_sms || device.has_clipboard {
        push_heading(out, false, "Communication");
        push_button(out, device.has_ping, "Ping", Message::PingDevice(device.id.clone()));
        push_button(
            out,
            device.has_findmyphone,
            "Ring device",
            Message::RingDevice(device.id.clone()),
        );
        push_button(out, device.has_sms, "SMS Chat", Message::SendSMS(device.id.clone()));
        push_button(
            out,
            device.has_clipboard,
            "Share clipboard",
            Message::ShareClipboard(device.id.clone()),
        );
        proof {
            assert(views_of(out@) =~= before + communication_menu(d));
        }
    } else {
        proof {
            assert(views_of(out@) =~= before + communication_menu(d));
        }
    }
}

fn push_files(out: &mut Vec<MenuItem>, device: &Device)
    ensures
        views_of(final(out)@) == views_of(old(out)@) + files_menu(device@),
{
    let ghost before = views_of(out@);
    let ghost d = device@;
    if device.has_share || device.has_sftp {
        push_heading(out, true, "Files");
        push_button(out, device.has_share, "Send file", Message::SendFiles(device.id.clone()));
        push_button(
            out,
            device.has_sftp,
            "Browse this device",
            Message::BrowseDevice(device.id.clone()),
        );
        proof {
            assert(views_of(out@) =~= before + files_menu(d));
        }
    } else {
        proof {
            assert(views_of(out@) =~= before + files_menu(d));
        }
    }
}

fn push_security(out: &mut Vec<MenuItem>, device: &Device)
    ensures
        views_of(final(out)@) == views_of(old(out)@) + security_menu(device@),
{
    let ghost before = views_of(out@);
    let ghost d = device@;
    if device.has_lockdevice || device.has_virtualmonitor {
        push_heading(out, true, "Security & Display");
        push_button(
            out,
            device.has_lockdevice,
            "Lock device",
            Message::LockDevice(device.id.clone()),
        );
        push_button(
            out,
            device.has_virtualmonitor,
            "Use as monitor",
            Message::UseAsMonitor(device.id.clone()),
        );
        proof {
            assert(views_of(out@) =~= before + security_menu(d));
        }
    } else {
        proof {
            assert(views_of(out@) =~= before + security_menu(d));
        }
    }
}

/// The menu of a device.
pub fn create_device_menu(device: &Device) -> (r: Vec<MenuItem>)
    ensures
        views_of(r@) == device_menu(device@),
{
    let mut out: Vec<MenuItem> = Vec::new();
    proof {
        assert(views_of(out@) =~= Seq::<MenuItemView>::empty());
    }
    push_communication(&mut out, device);
    push_files(&mut out, device);
    push_security(&mut out, device);
    proof {
        assert(views_of(out@) =~= device_menu(device@));
    }
    out
}

/// What the card of a connected device shows.
pub struct DeviceCard {
    /// The icon of the kind of device.
    pub icon: String,
    pub name: String,
    /// The icon of the cellular signal, if the device reports one.
    pub signal_icon: Option<String>,
    /// The battery's icon and its level in words, if the device reports one.
    pub battery: Option<(String, String)>,
    /// The icon of the button that opens or closes the menu.
    pub toggle_icon: String,
    /// The menu; empty while the card is not expanded.
    pub menu: Vec<MenuItem>,
}

/// The battery's icon on a card: charging has its own, anything else goes by
/// the level.
pub open spec fn card_battery_icon(d: DeviceView) -> Seq<char> {
    if d.is_charging == Some(true) {
        "battery-full-charging-symbolic"@
    } else {
        battery_icon_name(d.battery_level, d.is_charging)
    }
}

/// The battery on a card: icon and percentage.
pub open spec fn card_battery(d: DeviceView) -> Option<(Seq<char>, Seq<char>)> {
    match d.battery_level {
        Some(level) => Some((card_battery_icon(d), decimal_of(level as int) + "%"@)),
        None => None,
    }
}

/// The view of an optional pair of strings.
pub open spec fn pair_view(p: Option<(String, String)>) -> Option<(Seq<char>, Seq<char>)> {
    match p {
        Some((a, b)) => Some((a@, b@)),
        None => None,
    }
}

/// The card of a connected device. Its menu is shown if `expanded_device`
/// names the device.
pub fn create_device_card(device: &Device, expanded_device: Option<&str>) -> (r: DeviceCard)
    ensures
        r.icon@ == crate::models::device_icon_name(device@.device_type),
        r.name@ == device@.name,
        crate::text::text_of(r.signal_icon) == match device@.signal_strength {
            Some(s) => Some(signal_icon_name(s)),
            None => None,
        },
        pair_view(r.battery) == card_battery(device@),
        expanded_device is Some && expanded_device->0@ == device@.id ==> r.toggle_icon@
            == "go-up-symbolic"@ && views_of(r.menu@) == device_menu(device@),
        !(expanded_device is Some && expanded_device->0@ == device@.id) ==> r.toggle_icon@
            == "go-down-symbolic"@ && views_of(r.menu@) == Seq::<MenuItemView>::empty(),
{
    let is_expanded = match expanded_device {
        Some(id) => crate::text::same_text(id, device.id.as_str()),
        None => false,
    };
    let battery = match device.battery_level {
        Some(level) => {
            let icon = match device.is_charging {
                Some(true) => "battery-full-charging-symbolic",
                _ => device.battery_icon(),
            };
            let mut text = String::new();
            push_signed_decimal(&mut text, level as i64);
            text.push('%');
            proof {
                reveal_strlit("%");
                assert(text@ =~= decimal_of(level as int) + "%"@);
            }
            Some((String::from_str(icon), text))
        },
        None => None,
    };
    let signal_icon = match device.signal_icon() {
        Some(icon) => Some(String::from_str(icon)),
        None => None,
    };
    let menu = if is_expanded {
        create_device_menu(device)
    } else {
        let empty: Vec<MenuItem> = Vec::new();
        proof {
            assert(views_of(empty@) =~= Seq::<MenuItemView>::empty());
        }
        empty
    };
    DeviceCard {
        icon: String::from_str(device.device_icon()),
        name: device.name.clone(),
        signal_icon,
        battery,
        toggle_icon: String::from_str(
            if is_expanded {
                "go-up-symbolic"
            } else {
                "go-down-symbolic"
            },
        ),
        menu,
    }
}

} // verus!
