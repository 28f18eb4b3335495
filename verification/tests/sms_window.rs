use cosmic_connect::adapter::{SmsAddress, SmsMessages, SmsRecord};
use cosmic_connect::cache::Cache;
use cosmic_connect::sms::app::{SmsTask, SmsWindow};
use cosmic_connect::sms::dbus::{
    convert_message, events_for_payload, listen_for_sms_events_stream, messages_to_conversations,
    thread_number,
};
use cosmic_connect::sms::messages::{EmojiCategory, SmsMessage};
use cosmic_connect::sms::models::{Conversation, Message, ProtocolEvent};

fn conversation(thread: &str, phone: &str, last: &str, at: i64) -> Conversation {
    Conversation {
        thread_id: thread.to_string(),
        contact_name: phone.to_string(),
        phone_number: phone.to_string(),
        last_message: last.to_string(),
        timestamp: at,
        unread: false,
    }
}

fn message(id: &str, thread: &str, body: &str, date: i64) -> Message {
    Message {
        id: id.to_string(),
        thread_id: thread.to_string(),
        body: body.to_string(),
        address: "5551234567".to_string(),
        date,
        type_: 1,
        read: true,
    }
}

fn record(id: i64, thread: i64, address: &[&str], body: &str, date: i64, read: i32) -> SmsRecord {
    SmsRecord {
        id,
        thread_id: thread,
        addresses: address.iter().map(|a| SmsAddress { address: a.to_string() }).collect(),
        body: body.to_string(),
        date,
        message_type: 1,
        read,
    }
}

fn window() -> SmsWindow {
    SmsWindow::init("dev1".to_string(), "Pixel".to_string())
}

fn threads(w: &SmsWindow) -> Vec<String> {
    w.conversations().iter().map(|c| c.thread_id.clone()).collect()
}

fn ids(w: &SmsWindow) -> Vec<String> {
    w.messages().iter().map(|m| m.id.clone()).collect()
}

#[test]
fn window_starts_empty_and_loading() {
    let w = window();
    assert!(w.is_loading());
    assert!(w.conversations().is_empty());
    assert!(w.messages().is_empty());
    assert_eq!(w.selected_thread(), None);
    assert_eq!(w.title(), "SMS - Pixel");
    assert!(!w.show_new_chat_dialog());
    assert!(!w.show_emoji_picker());
}

#[test]
fn thread_seven_scenario() {
    let mut w = window();
    w.update(
        SmsMessage::ProtocolEventReceived(ProtocolEvent::ConversationsReceived(vec![
            conversation("7", "5551234567", "from the batch", 70),
        ])),
        0,
    );
    w.update(SmsMessage::SelectThread("7".to_string()), 0);
    w.update(SmsMessage::ProtocolEventReceived(ProtocolEvent::MessageReceived(message("a", "7", "hi", 100))), 0);
    w.update(SmsMessage::ProtocolEventReceived(ProtocolEvent::MessageReceived(message("b", "7", "yo", 50))), 0);
    assert_eq!(ids(&w), vec!["b", "a"]);
    assert_eq!(w.messages()[0].date, 50);
    assert_eq!(w.messages()[1].date, 100);
    // The conversation shows what was written to it last, which here is the
    // older message.
    assert_eq!(w.conversations()[0].last_message, "yo");
    assert_eq!(w.conversations()[0].timestamp, 50);
    w.update(
        SmsMessage::ProtocolEventReceived(ProtocolEvent::ConversationsReceived(vec![
            conversation("7", "5551234567", "batch again", 60),
        ])),
        0,
    );
    assert_eq!(w.conversations()[0].last_message, "batch again");
    assert_eq!(ids(&w), vec!["b", "a"]);
}

#[test]
fn messages_of_other_threads_stay_out_of_the_list() {
    let mut w = window();
    w.update(SmsMessage::ConversationsLoaded(vec![conversation("7", "1", "", 1), conversation("8", "2", "", 2)]), 0);
    w.update(SmsMessage::SelectThread("7".to_string()), 0);
    w.handle_protocol_event(ProtocolEvent::MessageReceived(message("a", "8", "elsewhere", 100)));
    assert!(w.messages().is_empty());
    assert_eq!(threads(&w), vec!["8", "7"]);
    assert_eq!(w.conversations()[0].last_message, "elsewhere");
}

#[test]
fn protocol_errors_change_nothing() {
    let mut w = window();
    w.update(SmsMessage::ConversationsLoaded(vec![conversation("7", "1", "x", 1)]), 0);
    w.handle_protocol_event(ProtocolEvent::Error("malformed".to_string()));
    assert_eq!(threads(&w), vec!["7"]);
    assert!(!w.is_loading());
}

#[test]
fn loading_conversations_asks_the_device() {
    let mut w = window();
    w.update(SmsMessage::ConversationsLoaded(Vec::new()), 0);
    assert!(!w.is_loading());
    assert!(matches!(w.update(SmsMessage::LoadConversations, 0), SmsTask::FetchConversations(d) if d == "dev1"));
    assert!(w.is_loading());
}

#[test]
fn selecting_a_thread_empties_list_and_input() {
    let mut w = window();
    w.update(SmsMessage::SelectThread("7".to_string()), 0);
    w.handle_protocol_event(ProtocolEvent::MessageReceived(message("a", "7", "hi", 1)));
    w.update(SmsMessage::UpdateInput("draft".to_string()), 0);
    let task = w.update(SmsMessage::SelectThread("8".to_string()), 0);
    assert!(matches!(task, SmsTask::RequestMessages(d, t) if d == "dev1" && t == "8"));
    assert!(w.messages().is_empty());
    assert_eq!(w.message_input(), "");
    assert_eq!(w.selected_thread(), Some("8".to_string()));
}

#[test]
fn sending_shows_the_message_at_once() {
    let mut w = window();
    w.update(SmsMessage::ConversationsLoaded(vec![conversation("7", "+1 555 123 4567", "", 1)]), 0);
    w.update(SmsMessage::SelectThread("7".to_string()), 0);
    w.update(SmsMessage::UpdateInput(" on my way ".to_string()), 0);
    let task = w.update(SmsMessage::SendMessage, 1234);
    assert!(matches!(
        task,
        SmsTask::SendSms(d, p, m) if d == "dev1" && p == "+1 555 123 4567" && m == " on my way "
    ));
    assert_eq!(w.message_input(), "");
    assert_eq!(w.messages().len(), 1);
    let shown = &w.messages()[0];
    assert_eq!(shown.id, "sending_1234");
    assert_eq!(shown.thread_id, "7");
    assert_eq!(shown.body, " on my way ");
    assert_eq!(shown.address, "+1 555 123 4567");
    assert_eq!(shown.date, 1234);
    assert!(shown.is_sent());
    assert!(shown.read);
}

#[test]
fn placeholder_and_echo_of_a_sent_message_coexist() {
    let mut w = window();
    w.update(SmsMessage::ConversationsLoaded(vec![conversation("7", "555", "", 1)]), 0);
    w.update(SmsMessage::SelectThread("7".to_string()), 0);
    w.update(SmsMessage::UpdateInput("hi".to_string()), 0);
    w.update(SmsMessage::SendMessage, 100);
    let mut echo = message("42", "7", "hi", 101);
    echo.type_ = 2;
    w.handle_protocol_event(ProtocolEvent::MessageReceived(echo));
    assert_eq!(ids(&w), vec!["sending_100", "42"]);
}

#[test]
fn two_sends_in_one_millisecond_show_one_placeholder() {
    let mut w = window();
    w.update(SmsMessage::ConversationsLoaded(vec![conversation("7", "555", "", 1)]), 0);
    w.update(SmsMessage::SelectThread("7".to_string()), 0);
    w.update(SmsMessage::UpdateInput("one".to_string()), 0);
    assert!(matches!(w.update(SmsMessage::SendMessage, -5), SmsTask::SendSms(_, _, m) if m == "one"));
    w.update(SmsMessage::UpdateInput("two".to_string()), 0);
    assert!(matches!(w.update(SmsMessage::SendMessage, -5), SmsTask::SendSms(_, _, m) if m == "two"));
    assert_eq!(ids(&w), vec!["sending_-5"]);
    assert_eq!(w.messages()[0].body, "one");
}

#[test]
fn nothing_is_sent_without_text_thread_or_conversation() {
    let mut w = window();
    w.update(SmsMessage::ConversationsLoaded(vec![conversation("7", "555", "", 1)]), 0);
    w.update(SmsMessage::UpdateInput("hi".to_string()), 0);
    assert!(matches!(w.update(SmsMessage::SendMessage, 1), SmsTask::Idle));
    assert_eq!(w.message_input(), "hi");
    w.update(SmsMessage::SelectThread("8".to_string()), 0);
    w.update(SmsMessage::UpdateInput("hi".to_string()), 0);
    assert!(matches!(w.update(SmsMessage::SendMessage, 1), SmsTask::Idle));
    w.update(SmsMessage::SelectThread("7".to_string()), 0);
    w.update(SmsMessage::UpdateInput(" \t\n".to_string()), 0);
    assert!(matches!(w.update(SmsMessage::SendMessage, 1), SmsTask::Idle));
    assert_eq!(w.message_input(), " \t\n");
    assert!(w.messages().is_empty());
}

#[test]
fn refreshing_asks_for_the_open_thread() {
    let mut w = window();
    assert!(matches!(w.update(SmsMessage::RefreshThread, 0), SmsTask::Idle));
    w.update(SmsMessage::SelectThread("7".to_string()), 0);
    assert!(matches!(w.refresh_thread(), SmsTask::RequestMessages(d, t) if d == "dev1" && t == "7"));
}

#[test]
fn chat_with_a_known_number_opens_its_conversation() {
    let mut w = window();
    w.update(SmsMessage::ConversationsLoaded(vec![conversation("7", "+1 (555) 123-4567", "", 1)]), 0);
    w.update(SmsMessage::OpenNewChatDialog, 0);
    assert!(w.show_new_chat_dialog());
    let task = w.update(SmsMessage::StartChatWithNumber("5551234567".to_string()), 99);
    assert!(matches!(task, SmsTask::RequestMessages(d, t) if d == "dev1" && t == "7"));
    assert_eq!(w.selected_thread(), Some("7".to_string()));
    assert!(!w.show_new_chat_dialog());
    assert_eq!(threads(&w), vec!["7"]);
}

#[test]
fn chat_with_a_new_number_makes_a_conversation_in_front() {
    let mut w = window();
    let mut contacts: Cache<String> = Cache::new();
    contacts.upsert("12".to_string(), "Short".to_string());
    w.update(SmsMessage::ContactsLoaded(contacts), 0);
    w.update(SmsMessage::ConversationsLoaded(vec![conversation("7", "5551234567", "", 1)]), 0);
    let task = w.update(SmsMessage::StartChatWithNumber("12".to_string()), 99);
    assert!(matches!(task, SmsTask::Idle));
    assert_eq!(threads(&w), vec!["new_99", "7"]);
    assert_eq!(w.selected_thread(), Some("new_99".to_string()));
    let fresh = &w.conversations()[0];
    assert_eq!(fresh.contact_name, "Short");
    assert_eq!(fresh.phone_number, "12");
    assert_eq!(fresh.last_message, "");
    assert_eq!(fresh.timestamp, 99);
    assert!(!fresh.unread);
    w.update(SmsMessage::StartChatWithNumber("34".to_string()), 99);
    assert_eq!(threads(&w), vec!["new_99", "7"]);
    w.update(SmsMessage::StartChatWithNumber("34".to_string()), 100);
    assert_eq!(threads(&w), vec!["new_100", "new_99", "7"]);
    assert_eq!(w.conversations()[0].contact_name, "34");
}

#[test]
fn contacts_rename_conversations() {
    let mut w = window();
    w.update(SmsMessage::ConversationsLoaded(vec![conversation("7", "5551234567", "", 1)]), 0);
    let mut contacts: Cache<String> = Cache::new();
    contacts.upsert("+1 555 123 4567".to_string(), "Alice".to_string());
    w.update(SmsMessage::ContactsLoaded(contacts), 0);
    assert_eq!(w.conversations()[0].contact_name, "Alice");
    assert_eq!(w.get_contact_name("555-123-4567"), Some("Alice".to_string()));
    assert_eq!(w.get_contact_name("1"), None);
    assert_eq!(w.get_current_conversation_phone(), None);
    w.update(SmsMessage::SelectThread("7".to_string()), 0);
    assert_eq!(w.get_current_conversation_phone(), Some("5551234567".to_string()));
}

#[test]
fn dialog_and_picker_switches() {
    let mut w = window();
    w.update(SmsMessage::UpdateNewChatPhone("555".to_string()), 0);
    w.update(SmsMessage::SelectContactForNewChat("777".to_string(), "Name".to_string()), 0);
    w.update(SmsMessage::CloseNewChatDialog, 0);
    assert!(!w.show_new_chat_dialog());
    w.update(SmsMessage::ToggleEmojiPicker, 0);
    assert!(w.show_emoji_picker());
    w.update(SmsMessage::SelectEmojiCategory(EmojiCategory::Food), 0);
    w.update(SmsMessage::UpdateInput("hi ".to_string()), 0);
    w.update(SmsMessage::InsertEmoji("\u{1F600}".to_string()), 0);
    assert_eq!(w.message_input(), "hi \u{1F600}");
    assert!(!w.show_emoji_picker());
    w.update(SmsMessage::UpdateSearch("x".to_string()), 0);
    assert!(matches!(w.update(SmsMessage::CloseWindow, 0), SmsTask::Idle));
}

#[test]
fn device_records_become_window_messages() {
    let m = convert_message(&record(-12, 7, &["+1 555", "other"], "hi", 100, 1));
    assert_eq!(m.id, "-12");
    assert_eq!(m.thread_id, "7");
    assert_eq!(m.address, "+1 555");
    assert_eq!(m.body, "hi");
    assert_eq!(m.date, 100);
    assert_eq!(m.type_, 1);
    assert!(m.read);
    let m = convert_message(&record(i64::MIN, i64::MAX, &[], "", 0, 0));
    assert_eq!(m.id, "-9223372036854775808");
    assert_eq!(m.thread_id, "9223372036854775807");
    assert_eq!(m.address, "");
    assert!(!m.read);
    assert!(!convert_message(&record(0, 0, &[], "", 0, 2)).read);
}

#[test]
fn conversations_are_grouped_by_thread() {
    let mut first = message("1", "7", "old", 10);
    first.read = true;
    let mut newest = message("2", "7", "newest", 30);
    newest.address = "777".to_string();
    newest.read = false;
    let tie = message("3", "7", "same date, later", 30);
    let other = message("4", "8", "other", 20);
    let conversations = messages_to_conversations(&vec![first, other, newest, tie]);
    assert_eq!(conversations.len(), 2);
    assert_eq!(conversations[0].thread_id, "7");
    assert_eq!(conversations[0].last_message, "newest");
    assert_eq!(conversations[0].timestamp, 30);
    assert_eq!(conversations[0].phone_number, "777");
    assert_eq!(conversations[0].contact_name, "777");
    assert!(conversations[0].unread);
    assert_eq!(conversations[1].thread_id, "8");
    assert_eq!(conversations[1].contact_name, "5551234567");
    assert_eq!(conversations[1].phone_number, "5551234567");
    assert!(!conversations[1].unread);
    assert!(messages_to_conversations(&Vec::new()).is_empty());
}

#[test]
fn a_conversation_goes_by_its_number_until_a_contact_is_resolved() {
    let mut older = message("1", "7", "old", 10);
    older.address = "111".to_string();
    let mut same_date = message("2", "7", "same", 10);
    same_date.address = "222".to_string();
    let conversations = messages_to_conversations(&vec![older, same_date]);
    assert_eq!(conversations.len(), 1);
    assert_eq!(conversations[0].phone_number, "111");
    assert_eq!(conversations[0].contact_name, "111");
    assert_eq!(conversations[0].last_message, "old");
    let mut no_address = message("3", "9", "x", 1);
    no_address.address = String::new();
    let conversations = messages_to_conversations(&vec![no_address]);
    assert_eq!(conversations[0].contact_name, "");
    assert_eq!(conversations[0].phone_number, "");
}

#[test]
fn a_batch_gives_its_messages_then_its_conversations() {
    let data = SmsMessages {
        messages: vec![record(1, 7, &["555"], "a", 10, 1), record(2, 7, &["555"], "b", 20, 0)],
    };
    let events = listen_for_sms_events_stream(&data);
    assert_eq!(events.len(), 3);
    assert!(matches!(&events[0], ProtocolEvent::MessageReceived(m) if m.id == "1"));
    assert!(matches!(&events[1], ProtocolEvent::MessageReceived(m) if m.id == "2"));
    match &events[2] {
        ProtocolEvent::ConversationsReceived(cs) => {
            assert_eq!(cs.len(), 1);
            assert_eq!(cs[0].last_message, "b");
            assert!(cs[0].unread);
        }
        _ => panic!("the conversations come last"),
    }
    let events = listen_for_sms_events_stream(&SmsMessages { messages: vec![] });
    assert_eq!(events.len(), 1);
}

#[test]
fn a_payload_that_could_not_be_read_gives_no_events() {
    assert!(events_for_payload(None).is_empty());
    let data = SmsMessages { messages: vec![record(1, 7, &["555"], "a", 10, 1)] };
    assert_eq!(events_for_payload(Some(data)).len(), 2);
    let mut w = window();
    w.update(SmsMessage::ConversationsLoaded(vec![conversation("7", "555", "kept", 1)]), 0);
    for event in events_for_payload(None) {
        w.handle_protocol_event(event);
    }
    assert_eq!(threads(&w), vec!["7"]);
    assert_eq!(w.conversations()[0].last_message, "kept");
}

#[test]
fn thread_of_a_converted_message_reads_back_as_its_number() {
    for thread in [0, 1, 7, -7, 10, 1234567890123, i64::MAX, i64::MIN] {
        let m = convert_message(&record(1, thread, &[], "", 0, 0));
        assert_eq!(thread_number(&m.thread_id), thread);
    }
}

#[test]
fn thread_numbers_for_requests() {
    assert_eq!(thread_number("42"), 42);
    assert_eq!(thread_number("-7"), -7);
    assert_eq!(thread_number("+7"), 7);
    assert_eq!(thread_number("007"), 7);
    assert_eq!(thread_number("new_99"), 0);
    assert_eq!(thread_number(""), 0);
    assert_eq!(thread_number("-"), 0);
    assert_eq!(thread_number(" 1"), 0);
    assert_eq!(thread_number("9223372036854775807"), i64::MAX);
    assert_eq!(thread_number("-9223372036854775808"), i64::MIN);
    assert_eq!(thread_number("9223372036854775808"), 0);
    assert_eq!(thread_number("99999999999999999999999999"), 0);
}
