use cosmic_connect::cache::Cache;
use cosmic_connect::sms::models::{Conversation, Message};
use cosmic_connect::sms::reconcile::{
    apply_contacts, find_by_number, find_conversation, has_message, ingest_message,
    load_conversations, merge_conversation, merge_conversations, note_message, resolve_contact,
    sort_conversations, sort_messages,
};

fn conversation(thread: &str, phone: &str, name: &str, last: &str, at: i64) -> Conversation {
    Conversation {
        thread_id: thread.to_string(),
        contact_name: name.to_string(),
        phone_number: phone.to_string(),
        last_message: last.to_string(),
        timestamp: at,
        unread: false,
    }
}

fn message(id: &str, thread: &str, body: &str, date: i64) -> Message {
    Message {
        id: id.to_string(),
        thread_id: thread.to_string(),
        body: body.to_string(),
        address: "5551234567".to_string(),
        date,
        type_: 1,
        read: false,
    }
}

fn summary(table: &Vec<Conversation>) -> Vec<(String, String, String, String, i64, bool)> {
    table
        .iter()
        .map(|c| {
            (
                c.thread_id.clone(),
                c.contact_name.clone(),
                c.phone_number.clone(),
                c.last_message.clone(),
                c.timestamp,
                c.unread,
            )
        })
        .collect()
}

fn threads(table: &Vec<Conversation>) -> Vec<String> {
    table.iter().map(|c| c.thread_id.clone()).collect()
}

fn ids(list: &Vec<Message>) -> Vec<String> {
    list.iter().map(|m| m.id.clone()).collect()
}

#[test]
fn merge_inserts_new_threads_and_sorts_newest_first() {
    let mut table = Vec::new();
    merge_conversations(
        &mut table,
        vec![
            conversation("1", "111", "Ann", "a", 10),
            conversation("2", "222", "Bob", "b", 30),
            conversation("3", "333", "Cy", "c", 20),
        ],
    );
    assert_eq!(threads(&table), vec!["2", "3", "1"]);
}

#[test]
fn merge_overwrites_message_time_and_name_only() {
    let mut table = vec![Conversation {
        thread_id: "7".to_string(),
        contact_name: "Old".to_string(),
        phone_number: "5551234567".to_string(),
        last_message: "old".to_string(),
        timestamp: 5,
        unread: true,
    }];
    merge_conversations(
        &mut table,
        vec![Conversation {
            thread_id: "7".to_string(),
            contact_name: "New".to_string(),
            phone_number: "other".to_string(),
            last_message: "new".to_string(),
            timestamp: 9,
            unread: false,
        }],
    );
    assert_eq!(table.len(), 1);
    assert_eq!(table[0].contact_name, "New");
    assert_eq!(table[0].last_message, "new");
    assert_eq!(table[0].timestamp, 9);
    assert_eq!(table[0].phone_number, "5551234567");
    assert!(table[0].unread);
}

#[test]
fn merge_is_idempotent() {
    let batch = || {
        vec![
            conversation("2", "222", "Bob", "hello", 40),
            conversation("9", "999", "Ida", "new", 15),
            conversation("2", "222", "Bobby", "again", 5),
        ]
    };
    let mut table = vec![
        conversation("1", "111", "Ann", "a", 30),
        conversation("2", "222", "B", "b", 20),
        conversation("3", "333", "Cy", "c", 10),
    ];
    merge_conversations(&mut table, batch());
    let once = summary(&table);
    merge_conversations(&mut table, batch());
    assert_eq!(summary(&table), once);
    assert_eq!(threads(&table), vec!["1", "9", "3", "2"]);
    assert_eq!(table[3].contact_name, "Bobby");
}

#[test]
fn merge_of_empty_batch_only_sorts() {
    let mut table = vec![conversation("1", "1", "a", "a", 1), conversation("2", "2", "b", "b", 2)];
    merge_conversations(&mut table, Vec::new());
    assert_eq!(threads(&table), vec!["2", "1"]);
}

#[test]
fn merge_one_record_does_not_sort() {
    let mut table = vec![conversation("1", "1", "a", "a", 1)];
    merge_conversation(&mut table, conversation("2", "2", "b", "b", 2));
    assert_eq!(threads(&table), vec!["1", "2"]);
}

#[test]
fn sort_keeps_order_of_equal_timestamps() {
    let mut table = vec![
        conversation("a", "1", "", "", 5),
        conversation("b", "2", "", "", 9),
        conversation("c", "3", "", "", 5),
        conversation("d", "4", "", "", 9),
    ];
    sort_conversations(&mut table);
    assert_eq!(threads(&table), vec!["b", "d", "a", "c"]);
}

#[test]
fn sort_handles_extreme_timestamps() {
    let mut table = vec![
        conversation("min", "1", "", "", i64::MIN),
        conversation("max", "2", "", "", i64::MAX),
        conversation("zero", "3", "", "", 0),
    ];
    sort_conversations(&mut table);
    assert_eq!(threads(&table), vec!["max", "zero", "min"]);
}

#[test]
fn loading_replaces_the_table() {
    let mut table = vec![conversation("old", "1", "", "", 100)];
    load_conversations(
        &mut table,
        vec![conversation("1", "1", "", "", 1), conversation("2", "2", "", "", 2)],
    );
    assert_eq!(threads(&table), vec!["2", "1"]);
}

#[test]
fn loading_keeps_one_conversation_per_thread() {
    let mut table = Vec::new();
    load_conversations(
        &mut table,
        vec![conversation("1", "111", "first", "a", 1), conversation("1", "222", "second", "b", 2)],
    );
    assert_eq!(table.len(), 1);
    assert_eq!(table[0].phone_number, "111");
    assert_eq!(table[0].contact_name, "second");
    assert_eq!(table[0].timestamp, 2);
}

#[test]
fn message_dedup_keeps_the_first() {
    let mut list = Vec::new();
    assert!(ingest_message(&mut list, message("x", "7", "first body", 10)));
    assert!(!ingest_message(&mut list, message("x", "7", "second body", 20)));
    assert_eq!(list.len(), 1);
    assert_eq!(list[0].body, "first body");
    assert_eq!(list[0].date, 10);
}

#[test]
fn messages_with_equal_bodies_are_both_kept() {
    let mut list = Vec::new();
    assert!(ingest_message(&mut list, message("1", "7", "ok", 10)));
    assert!(ingest_message(&mut list, message("2", "7", "ok", 11)));
    assert_eq!(ids(&list), vec!["1", "2"]);
}

#[test]
fn two_messages_for_thread_seven_come_out_in_date_order() {
    let mut list = Vec::new();
    assert!(ingest_message(&mut list, message("a", "7", "hi", 100)));
    assert!(ingest_message(&mut list, message("b", "7", "yo", 50)));
    assert_eq!(ids(&list), vec!["b", "a"]);
    assert_eq!(list[0].date, 50);
    assert_eq!(list[1].date, 100);
}

#[test]
fn sort_messages_is_stable() {
    let mut list = vec![
        message("a", "7", "", 3),
        message("b", "7", "", 1),
        message("c", "7", "", 3),
        message("d", "7", "", 1),
    ];
    sort_messages(&mut list);
    assert_eq!(ids(&list), vec!["b", "d", "a", "c"]);
}

#[test]
fn has_message_goes_by_identifier() {
    let list = vec![message("a", "7", "hi", 1)];
    assert!(has_message(&list, "a"));
    assert!(!has_message(&list, "A"));
    assert!(!has_message(&Vec::new(), "a"));
}

#[test]
fn noting_a_message_updates_its_conversation_and_sorts() {
    let mut table =
        vec![conversation("1", "1", "Ann", "old", 50), conversation("7", "7", "Bob", "older", 10)];
    note_message(&mut table, &message("m", "7", "hi", 100));
    assert_eq!(threads(&table), vec!["7", "1"]);
    assert_eq!(table[0].last_message, "hi");
    assert_eq!(table[0].timestamp, 100);
    assert_eq!(table[0].contact_name, "Bob");
}

#[test]
fn noting_a_message_of_an_unknown_thread_changes_nothing_but_order() {
    let mut table = vec![conversation("1", "1", "", "", 1), conversation("2", "2", "", "", 2)];
    note_message(&mut table, &message("m", "9", "hi", 100));
    assert_eq!(threads(&table), vec!["2", "1"]);
}

#[test]
fn find_conversation_by_thread() {
    let table = vec![conversation("1", "1", "", "", 1), conversation("2", "2", "", "", 2)];
    assert_eq!(find_conversation(&table, "2"), Some(1));
    assert_eq!(find_conversation(&table, "3"), None);
}

#[test]
fn find_by_number_uses_the_matching_relation() {
    let table = vec![
        conversation("1", "+44 20 7946 0018", "", "", 1),
        conversation("2", "+1 (555) 123-4567", "", "", 2),
    ];
    assert_eq!(find_by_number(&table, "5551234567"), Some(1));
    assert_eq!(find_by_number(&table, "7946 0018"), Some(0));
    assert_eq!(find_by_number(&table, "12"), None);
}

#[test]
fn contacts_backfill_names_matching_conversations() {
    let mut contacts: Cache<String> = Cache::new();
    contacts.upsert("+1-555-123-4567".to_string(), "Alice".to_string());
    contacts.upsert("7946 0018".to_string(), "Bob".to_string());
    let mut table = vec![
        conversation("1", "5551234567", "5551234567", "", 3),
        conversation("2", "020 7946 0018", "someone", "", 2),
        conversation("3", "12", "12", "", 1),
    ];
    apply_contacts(&mut table, &contacts);
    assert_eq!(table[0].contact_name, "Alice");
    assert_eq!(table[1].contact_name, "Bob");
    assert_eq!(table[2].contact_name, "12");
    assert_eq!(threads(&table), vec!["1", "2", "3"]);
}

#[test]
fn first_matching_contact_wins() {
    let mut contacts: Cache<String> = Cache::new();
    contacts.upsert("15551234567".to_string(), "First".to_string());
    contacts.upsert("5551234567".to_string(), "Second".to_string());
    assert_eq!(resolve_contact(&contacts, "555-123-4567"), Some("First".to_string()));
    assert_eq!(resolve_contact(&contacts, "000"), None);
}
