use cosmic_connect::adapter::{Device as CoreDevice, DeviceId, PairState};
use cosmic_connect::cache::Cache;
use cosmic_connect::messages::Message;
use cosmic_connect::models::Device;
use cosmic_connect::popup::{
    create_device_card, create_device_menu, create_popup_view, sort_by_name, MenuItem,
};
use cosmic_connect::sms::app::{offers_contact, sort_contacts, SmsWindow};
use cosmic_connect::sms::messages::SmsMessage;
use cosmic_connect::sms::models::Conversation;
use cosmic_connect::text::{contains_text, text_precedes};

fn device(id: &str, name: &str) -> Device {
    let mut d = Device::from(CoreDevice {
        device_id: DeviceId(id.to_string()),
        name: name.to_string(),
        pair_state: PairState::Paired,
    });
    d.has_ping = false;
    d.has_share = false;
    d.has_clipboard = false;
    d
}

fn names(devices: &Vec<Device>) -> Vec<String> {
    devices.iter().map(|d| d.name.clone()).collect()
}

fn ids(devices: &Vec<Device>) -> Vec<String> {
    devices.iter().map(|d| d.id.clone()).collect()
}

fn line(item: &MenuItem) -> String {
    match item {
        MenuItem::Heading(t) => format!("# {}", t),
        MenuItem::Divider => "--".to_string(),
        MenuItem::Button(label, message) => {
            let target = match message {
                Message::PingDevice(id) => format!("ping {}", id),
                Message::RingDevice(id) => format!("ring {}", id),
                Message::SendSMS(id) => format!("sms {}", id),
                Message::ShareClipboard(id) => format!("clipboard {}", id),
                Message::SendFiles(id) => format!("files {}", id),
                Message::BrowseDevice(id) => format!("browse {}", id),
                Message::LockDevice(id) => format!("lock {}", id),
                Message::UseAsMonitor(id) => format!("monitor {}", id),
                _ => "other".to_string(),
            };
            format!("[{}] {}", label, target)
        }
    }
}

fn lines(menu: &Vec<MenuItem>) -> Vec<String> {
    menu.iter().map(line).collect()
}

#[test]
fn strings_are_ordered_as_rust_orders_them() {
    let words = ["", "a", "A", "ab", "abc", "b", "é", "z", "Zebra", "zebra", "\u{10348}", "\u{ffff}", "a\u{0}"];
    for a in words {
        for b in words {
            let x: Vec<char> = a.chars().collect();
            let y: Vec<char> = b.chars().collect();
            assert_eq!(text_precedes(&x, &y), a <= b, "{:?} {:?}", a, b);
        }
    }
}

#[test]
fn containment_is_as_rust_finds_it() {
    let words = ["", "a", "ab", "ba", "aab", "abab", "é", "aé", "xyz"];
    for a in words {
        for b in words {
            assert_eq!(contains_text(a, b), a.contains(b), "{:?} {:?}", a, b);
        }
    }
}

#[test]
fn devices_are_sorted_by_name_keeping_equal_names_in_order() {
    let mut devices = vec![device("1", "pixel"), device("2", "Galaxy"), device("3", "pixel"), device("4", "")];
    sort_by_name(&mut devices);
    assert_eq!(ids(&devices), vec!["4", "2", "1", "3"]);
}

#[test]
fn popup_lists_requests_and_connected_devices() {
    let mut asking = device("1", "Zed");
    asking.is_paired = false;
    asking.pairing_requests = 1;
    let mut asking_too = device("2", "Amy");
    asking_too.is_paired = false;
    asking_too.pairing_requests = 3;
    let mut paired_and_asking = device("3", "Bob");
    paired_and_asking.pairing_requests = 1;
    let mut unreachable = device("4", "Cy");
    unreachable.is_reachable = false;
    let mut stranger = device("5", "Dan");
    stranger.is_paired = false;
    let connected = device("6", "Abe");
    let view = create_popup_view(&vec![asking, asking_too, paired_and_asking, unreachable, stranger, connected]);
    assert_eq!(names(&view.pairing_requests), vec!["Amy", "Zed"]);
    assert_eq!(names(&view.devices), vec!["Abe", "Bob"]);
    let view = create_popup_view(&Vec::new());
    assert!(view.pairing_requests.is_empty() && view.devices.is_empty());
}

#[test]
fn menu_has_a_button_for_each_capability() {
    let mut d = device("dev1", "Pixel");
    assert!(create_device_menu(&d).is_empty());
    d.has_sms = true;
    assert_eq!(lines(&create_device_menu(&d)), vec!["# Communication", "[SMS Chat] sms dev1"]);
    d.has_sftp = true;
    d.has_virtualmonitor = true;
    assert_eq!(
        lines(&create_device_menu(&d)),
        vec![
            "# Communication",
            "[SMS Chat] sms dev1",
            "--",
            "# Files",
            "[Browse this device] browse dev1",
            "--",
            "# Security & Display",
            "[Use as monitor] monitor dev1"
        ]
    );
    d.has_ping = true;
    d.has_findmyphone = true;
    d.has_clipboard = true;
    d.has_share = true;
    d.has_lockdevice = true;
    assert_eq!(
        lines(&create_device_menu(&d)),
        vec![
            "# Communication",
            "[Ping] ping dev1",
            "[Ring device] ring dev1",
            "[SMS Chat] sms dev1",
            "[Share clipboard] clipboard dev1",
            "--",
            "# Files",
            "[Send file] files dev1",
            "[Browse this device] browse dev1",
            "--",
            "# Security & Display",
            "[Lock device] lock dev1",
            "[Use as monitor] monitor dev1"
        ]
    );
    d.has_ping = false;
    d.has_findmyphone = false;
    d.has_clipboard = false;
    d.has_sms = false;
    assert_eq!(lines(&create_device_menu(&d))[0], "--");
}

#[test]
fn card_shows_battery_signal_and_menu() {
    let mut d = device("dev1", "Pixel");
    d.device_type = "tablet".to_string();
    d.has_ping = true;
    let card = create_device_card(&d, None);
    assert_eq!(card.icon, "tablet-symbolic");
    assert_eq!(card.name, "Pixel");
    assert_eq!(card.signal_icon, None);
    assert_eq!(card.battery, None);
    assert_eq!(card.toggle_icon, "go-down-symbolic");
    assert!(card.menu.is_empty());
    d.battery_level = Some(35);
    d.is_charging = Some(false);
    d.signal_strength = Some(3);
    let card = create_device_card(&d, Some("dev1"));
    assert_eq!(card.battery, Some(("battery-level-40-symbolic".to_string(), "35%".to_string())));
    assert_eq!(card.signal_icon, Some("network-cellular-signal-good-symbolic".to_string()));
    assert_eq!(card.toggle_icon, "go-up-symbolic");
    assert_eq!(lines(&card.menu), vec!["# Communication", "[Ping] ping dev1"]);
    d.is_charging = Some(true);
    assert_eq!(
        create_device_card(&d, Some("other")).battery,
        Some(("battery-full-charging-symbolic".to_string(), "35%".to_string()))
    );
    d.is_charging = None;
    d.battery_level = Some(-3);
    assert_eq!(
        create_device_card(&d, Some("other")).battery,
        Some(("battery-symbolic".to_string(), "-3%".to_string()))
    );
    assert!(create_device_card(&d, Some("other")).menu.is_empty());
}

fn conversation(thread: &str, phone: &str, name: &str, last: &str, at: i64) -> Conversation {
    Conversation {
        thread_id: thread.to_string(),
        contact_name: name.to_string(),
        phone_number: phone.to_string(),
        last_message: last.to_string(),
        timestamp: at,
        unread: false,
    }
}

fn window() -> SmsWindow {
    let mut w = SmsWindow::init("dev1".to_string(), "Pixel".to_string());
    w.update(
        SmsMessage::ConversationsLoaded(vec![
            conversation("1", "+1 555 123", "Alice", "See you SOON", 10),
            conversation("2", "020 7946", "bob", "lunch?", 30),
            conversation("3", "999", "Carol", "ok", 20),
        ]),
        0,
    );
    w
}

fn shown(w: &SmsWindow) -> Vec<String> {
    w.view_conversations_list().iter().map(|c| c.thread_id.clone()).collect()
}

#[test]
fn search_goes_through_names_numbers_and_messages() {
    let mut w = window();
    assert_eq!(shown(&w), vec!["2", "3", "1"]);
    w.update(SmsMessage::UpdateSearch("ALICE".to_string()), 0);
    assert_eq!(shown(&w), vec!["1"]);
    w.update(SmsMessage::UpdateSearch("soon".to_string()), 0);
    assert_eq!(shown(&w), vec!["1"]);
    w.update(SmsMessage::UpdateSearch("7946".to_string()), 0);
    assert_eq!(shown(&w), vec!["2"]);
    w.update(SmsMessage::UpdateSearch("o".to_string()), 0);
    assert_eq!(shown(&w), vec!["2", "3", "1"]);
    w.update(SmsMessage::UpdateSearch("nothing like it".to_string()), 0);
    assert!(shown(&w).is_empty());
    let c = conversation("9", "555", "Ann", "Hi", 1);
    assert!(!w.conversation_matches_search(&c));
    w.update(SmsMessage::UpdateSearch("HI".to_string()), 0);
    assert!(w.conversation_matches_search(&c));
}

fn contacts() -> Cache<String> {
    let mut contacts: Cache<String> = Cache::new();
    contacts.upsert("+1 (555) 123-4567".to_string(), "Zoe".to_string());
    contacts.upsert("020 7946 0018".to_string(), "adam".to_string());
    contacts.upsert("12".to_string(), "Bea".to_string());
    contacts
}

fn offered(w: &SmsWindow) -> Vec<String> {
    w.get_filtered_contacts().into_iter().map(|(_, name)| name).collect()
}

#[test]
fn contacts_are_offered_by_name_and_filtered_by_what_is_typed() {
    let mut w = window();
    w.update(SmsMessage::ContactsLoaded(contacts()), 0);
    assert_eq!(offered(&w), vec!["Bea", "Zoe", "adam"]);
    w.update(SmsMessage::UpdateNewChatPhone("   ".to_string()), 0);
    assert_eq!(offered(&w), vec!["Bea", "Zoe", "adam"]);
    w.update(SmsMessage::UpdateNewChatPhone("555-1".to_string()), 0);
    assert_eq!(offered(&w), vec!["Zoe"]);
    w.update(SmsMessage::UpdateNewChatPhone("020 79".to_string()), 0);
    assert_eq!(offered(&w), vec!["adam"]);
    assert_eq!(
        w.get_filtered_contacts(),
        vec![("020 7946 0018".to_string(), "adam".to_string())]
    );
}

#[test]
fn a_term_without_digits_offers_every_contact() {
    // The digits of such a term are the empty string, which occurs in the
    // digits of every number.
    let mut w = window();
    w.update(SmsMessage::ContactsLoaded(contacts()), 0);
    w.update(SmsMessage::UpdateNewChatPhone(" ZO ".to_string()), 0);
    assert_eq!(offered(&w), vec!["Bea", "Zoe", "adam"]);
    assert!(offers_contact("12", "Bea", "zo"));
    assert!(offers_contact("12", "Bea", "2"));
    assert!(!offers_contact("12", "Bea", "3"));
    assert!(offers_contact("12", "Bea3", "3"));
}

#[test]
fn contacts_sort_is_stable() {
    let mut list = vec![
        ("1".to_string(), "b".to_string()),
        ("2".to_string(), "a".to_string()),
        ("3".to_string(), "b".to_string()),
        ("4".to_string(), "a".to_string()),
    ];
    sort_contacts(&mut list);
    let numbers: Vec<String> = list.into_iter().map(|(n, _)| n).collect();
    assert_eq!(numbers, vec!["2", "4", "1", "3"]);
}

#[test]
fn conversations_show_the_contact_name_if_there_is_one() {
    let mut w = window();
    w.update(SmsMessage::ContactsLoaded(contacts()), 0);
    assert_eq!(w.display_name(&conversation("1", "5551234567", "stored", "", 0)), "Zoe");
    assert_eq!(w.display_name(&conversation("1", "777", "stored", "", 0)), "stored");
}
