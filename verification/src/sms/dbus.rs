//! From the device's SMS payload to the events of the SMS window.

use vstd::prelude::*;
use crate::adapter::{SmsMessages, SmsRecord, SmsRecordView};
use crate::find::{first_where, has_where, lemma_first_where};
use crate::sms::models::{
    Conversation, ConversationView, Message, MessageView, ProtocolEvent, ProtocolEventView,
};
use crate::sms::reconcile::{distinct_threads, find_conversation, in_thread};
use crate::text::{
    chars_of, decimal_of, decimal_string, lemma_decimal_round_trip, parse_i64, parsed_i64, views_of,
};

verus! {

/// The number of a thread for a request to the device: the thread's
/// identifier read as an integer, or 0 where it is none.
pub open spec fn thread_number_of(thread_id: Seq<char>) -> i64 {
    match parsed_i64(thread_id) {
        Some(n) => n,
        None => 0,
    }
}

/// The number under which the device knows a thread.
pub fn thread_number(thread_id: &str) -> (r: i64)
    ensures
        r == thread_number_of(thread_id@),
{
    let chars = chars_of(thread_id);
    match parse_i64(&chars) {
        Some(n) => n,
        None => 0,
    }
}

/// The message of the window for a message of the device: identifiers in
/// decimal, the first address or none, read if the device marks it with 1.
pub open spec fn message_of(record: SmsRecordView) -> MessageView {
    MessageView {
        id: decimal_of(record.id as int),
        thread_id: decimal_of(record.thread_id as int),
        address: if record.addresses.len() > 0 {
            record.addresses[0]
        } else {
            Seq::empty()
        },
        body: record.body,
        date: record.date,
        type_: record.message_type,
        read: record.read == 1,
    }
}

/// Converts one message of the device.
pub fn convert_message(record: &SmsRecord) -> (r: Message)
    ensures
        r@ == message_of(record@),
{
    let address = if record.addresses.len() > 0 {
        proof {
            assert(views_of(record.addresses@)[0] == record.addresses@[0]@);
        }
        record.addresses[0].address.clone()
    } else {
        String::new()
    };
    Message {
        id: decimal_string(record.id),
        thread_id: decimal_string(record.thread_id),
        address,
        body: record.body.clone(),
        date: record.date,
        type_: record.message_type,
        read: record.read == 1,
    }
}

/// The thread of a converted message, read as a number for a request, is
/// the thread under which the device knows the message.
pub proof fn lemma_thread_number_of_converted(record: SmsRecordView)
    ensures
        thread_number_of(message_of(record).thread_id) == record.thread_id,
{
    lemma_decimal_round_trip(record.thread_id as int);
}

/// The messages of the window for a batch of the device, in order.
pub open spec fn messages_of(batch: Seq<SmsRecordView>) -> Seq<MessageView> {
    batch.map_values(|r: SmsRecordView| message_of(r))
}

/// Converts a batch of the device.
pub fn convert_messages(data: &SmsMessages) -> (r: Vec<Message>)
    ensures
        views_of(r@) == messages_of(data@),
{
    let mut out: Vec<Message> = Vec::new();
    let n = data.messages.len();
    let mut i: usize = 0;
    while i < n
        invariant
            i <= n,
            n == data.messages.len(),
            out.len() == i,
            forall|k: int| 0 <= k < i ==> (#[trigger] out@[k])@ == message_of(data@[k]),
        decreases n - i,
    {
        out.push(convert_message(&data.messages[i]));
        proof {
            assert(data@[i as int] == data.messages@[i as int]@);
        }
        i += 1;
    }
    proof {
        assert(views_of(out@) =~= messages_of(data@));
    }
    out
}

/// The conversation that a first message of a thread opens. Until a
/// contact is resolved, the conversation goes by its number.
pub open spec fn opened_by(m: MessageView) -> ConversationView {
    ConversationView {
        thread_id: m.thread_id,
        phone_number: m.address,
        last_message: m.body,
        timestamp: m.date,
        unread: !m.read,
        contact_name: m.address,
    }
}

/// A conversation after a further message of its thread: a message newer
/// than all before gives the conversation its text, time and number, and
/// with the number its name; an unread message makes the conversation
/// unread.
pub open spec fn joined_by(c: ConversationView, m: MessageView) -> ConversationView {
    if m.date > c.timestamp {
        ConversationView {
            phone_number: m.address,
            contact_name: m.address,
            last_message: m.body,
            timestamp: m.date,
            unread: c.unread || !m.read,
            ..c
        }
    } else {
        ConversationView { unread: c.unread || !m.read, ..c }
    }
}

/// The conversations of a list of messages: one per thread, in the order in
/// which the threads first occur, each showing its newest message (of
/// messages of one date the first).
pub open spec fn conversations_of(messages: Seq<MessageView>) -> Seq<ConversationView>
    decreases messages.len(),
{
    if messages.len() == 0 {
        Seq::empty()
    } else {
        let before = conversations_of(messages.drop_last());
        let m = messages.last();
        match first_where(before, in_thread(m.thread_id)) {
            Some(i) => before.update(i, joined_by(before[i], m)),
            None => before.push(opened_by(m)),
        }
    }
}

/// `c` sums up the messages of its thread in `messages`: it shows the
/// newest of them, is unread if one of them is, and goes by its number.
pub open spec fn sums_up(c: ConversationView, messages: Seq<MessageView>) -> bool {
    &&& exists|k: int|
        0 <= k < messages.len() && {
            let m = #[trigger] messages[k];
            &&& m.thread_id == c.thread_id
            &&& m.date == c.timestamp
            &&& m.body == c.last_message
            &&& m.address == c.phone_number
        }
    &&& forall|k: int|
        0 <= k < messages.len() && (#[trigger] messages[k]).thread_id == c.thread_id
            ==> messages[k].date <= c.timestamp
    &&& c.unread <==> exists|k: int|
        0 <= k < messages.len() && (#[trigger] messages[k]).thread_id == c.thread_id
            && !messages[k].read
    &&& c.contact_name == c.phone_number
}

/// The conversations of a list of messages are one for each thread that
/// occurs in the list, none twice, and each sums up the messages of its
/// thread.
pub proof fn lemma_conversations_of(messages: Seq<MessageView>)
    ensures
        distinct_threads(conversations_of(messages)),
        forall|k: int|
            0 <= k < messages.len() ==> has_where(
                conversations_of(messages),
                in_thread(#[trigger] messages[k].thread_id),
            ),
        forall|i: int|
            0 <= i < conversations_of(messages).len() ==> sums_up(
                #[trigger] conversations_of(messages)[i],
                messages,
            ),
    decreases messages.len(),
{
    if messages.len() > 0 {
        let front = messages.drop_last();
        let m = messages.last();
        let before = conversations_of(front);
        let after = conversations_of(messages);
        let n = front.len() as int;
        lemma_conversations_of(front);
        lemma_first_where(before, in_thread(m.thread_id));
        assert(messages[n] == m);
        assert forall|k: int| 0 <= k < n implies front[k] == messages[k] by {}
        let found = first_where(before, in_thread(m.thread_id));
        assert(distinct_threads(after)) by {
            assert forall|i: int, j: int|
                0 <= i < after.len() && 0 <= j < after.len() && i != j implies after[i].thread_id
                != after[j].thread_id by {
                if found is None {
                    if i == before.len() {
                        assert(!in_thread(m.thread_id)(before[j]));
                    } else if j == before.len() {
                        assert(!in_thread(m.thread_id)(before[i]));
                    }
                }
            }
        }
        assert forall|k: int| 0 <= k < messages.len() implies has_where(
            after,
            in_thread(#[trigger] messages[k].thread_id),
        ) by {
            if k < n {
                assert(front[k] == messages[k]);
                let w = choose|w: int|
                    0 <= w < before.len() && in_thread(front[k].thread_id)(before[w]);
                assert(in_thread(messages[k].thread_id)(after[w]));
            } else {
                match found {
                    Some(at) => {
                        assert(in_thread(m.thread_id)(after[at]));
                    },
                    None => {
                        assert(in_thread(m.thread_id)(after[before.len() as int]));
                    },
                }
            }
        }
        assert forall|i: int| 0 <= i < after.len() implies sums_up(#[trigger] after[i], messages) by {
            let c = after[i];
            if i < before.len() {
                let old_c = before[i];
                assert(sums_up(old_c, front));
                let shown = choose|k: int|
                    0 <= k < front.len() && {
                        let x = #[trigger] front[k];
                        &&& x.thread_id == old_c.thread_id
                        &&& x.date == old_c.timestamp
                        &&& x.body == old_c.last_message
                        &&& x.address == old_c.phone_number
                    };
                assert(messages[shown] == front[shown]);
                if found == Some(i) {
                    assert(c == joined_by(old_c, m));
                    assert(old_c.thread_id == m.thread_id);
                    if old_c.unread {
                        let u = choose|k: int|
                            0 <= k < front.len() && (#[trigger] front[k]).thread_id
                                == old_c.thread_id && !front[k].read;
                        assert(messages[u] == front[u]);
                    }
                    if c.unread && !old_c.unread {
                        assert(!messages[n].read);
                    }
                    assert forall|k: int|
                        0 <= k < messages.len() && (#[trigger] messages[k]).thread_id
                            == c.thread_id implies messages[k].date <= c.timestamp by {
                        if k < n {
                            assert(front[k] == messages[k]);
                        }
                    }
                    if exists|k: int|
                        0 <= k < messages.len() && (#[trigger] messages[k]).thread_id
                            == c.thread_id && !messages[k].read {
                        let u = choose|k: int|
                            0 <= k < messages.len() && (#[trigger] messages[k]).thread_id
                                == c.thread_id && !messages[k].read;
                        if u < n {
                            assert(front[u] == messages[u]);
                        }
                    }
                } else {
                    assert(c == old_c);
                    assert(c.thread_id != m.thread_id) by {
                        if c.thread_id == m.thread_id {
                            assert(in_thread(m.thread_id)(before[i]));
                            let at = found->0;
                            assert(before[at].thread_id == before[i].thread_id);
                        }
                    }
                    if old_c.unread {
                        let u = choose|k: int|
                            0 <= k < front.len() && (#[trigger] front[k]).thread_id
                                == old_c.thread_id && !front[k].read;
                        assert(messages[u] == front[u]);
                    }
                    assert forall|k: int|
                        0 <= k < messages.len() && (#[trigger] messages[k]).thread_id
                            == c.thread_id implies messages[k].date <= c.timestamp by {
                        if k < n {
                            assert(front[k] == messages[k]);
                        }
                    }
                    if exists|k: int|
                        0 <= k < messages.len() && (#[trigger] messages[k]).thread_id
                            == c.thread_id && !messages[k].read {
                        let u = choose|k: int|
                            0 <= k < messages.len() && (#[trigger] messages[k]).thread_id
                                == c.thread_id && !messages[k].read;
                        assert(front[u] == messages[u]);
                    }
                }
            } else {
                assert(found is None);
                assert(c == opened_by(m));
                assert forall|k: int|
                    0 <= k < messages.len() && (#[trigger] messages[k]).thread_id
                        == c.thread_id implies messages[k].date <= c.timestamp by {
                    if k < n {
                        assert(front[k] == messages[k]);
                        let w = choose|w: int|
                            0 <= w < before.len() && in_thread(front[k].thread_id)(before[w]);
                        assert(!in_thread(m.thread_id)(before[w]));
                    }
                }
                if exists|k: int|
                    0 <= k < messages.len() && (#[trigger] messages[k]).thread_id == c.thread_id
                        && !messages[k].read {
                    let u = choose|k: int|
                        0 <= k < messages.len() && (#[trigger] messages[k]).thread_id
                            == c.thread_id && !messages[k].read;
                    if u < n {
                        assert(front[u] == messages[u]);
                        let w = choose|w: int|
                            0 <= w < before.len() && in_thread(front[u].thread_id)(before[w]);
                        assert(!in_thread(m.thread_id)(before[w]));
                    }
                }
            }
        }
    }
}

/// Convert messages to conversations: one for each thread among the
/// messages, in the order in which the threads first occur, each showing
/// the newest message of its thread.
pub fn messages_to_conversations(messages: &Vec<Message>) -> (r: Vec<Conversation>)
    ensures
        views_of(r@) == conversations_of(views_of(messages@)),
        distinct_threads(views_of(r@)),
        forall|i: int| 0 <= i < r.len() ==> sums_up(#[trigger] views_of(r@)[i], views_of(messages@)),
        forall|k: int|
            0 <= k < messages.len() ==> has_where(
                views_of(r@),
                in_thread(#[trigger] views_of(messages@)[k].thread_id),
            ),
{
    let ghost all = views_of(messages@);
    let mut out: Vec<Conversation> = Vec::new();
    let n = messages.len();
    let mut i: usize = 0;
    proof {
        assert(all.take(0) =~= Seq::<MessageView>::empty());
        assert(views_of(out@) =~= Seq::<ConversationView>::empty());
    }
    while i < n
        invariant
            i <= n,
            n == messages.len(),
            all == views_of(messages@),
            views_of(out@) == conversations_of(all.take(i as int)),
        decreases n - i,
    {
        let m = &messages[i];
        let ghost before = views_of(out@);
        proof {
            assert(all.take(i + 1).drop_last() =~= all.take(i as int));
            assert(all.take(i + 1).last() == m@);
        }
        match find_conversation(&out, m.thread_id.as_str()) {
            Some(at) => {
                let c = &out[at];
                let newer = m.date > c.timestamp;
                let joined = Conversation {
                    thread_id: c.thread_id.clone(),
                    contact_name: if newer {
                        m.address.clone()
                    } else {
                        c.contact_name.clone()
                    },
                    phone_number: if newer {
                        m.address.clone()
                    } else {
                        c.phone_number.clone()
                    },
                    last_message: if newer {
                        m.body.clone()
                    } else {
                        c.last_message.clone()
                    },
                    timestamp: if newer {
                        m.date
                    } else {
                        c.timestamp
                    },
                    unread: c.unread || !m.read,
                };
                out.set(at, joined);
                proof {
                    assert(views_of(out@) =~= before.update(
                        at as int,
                        joined_by(before[at as int], m@),
                    ));
                }
            },
            None => {
                out.push(
                    Conversation {
                        thread_id: m.thread_id.clone(),
                        contact_name: m.address.clone(),
                        phone_number: m.address.clone(),
                        last_message: m.body.clone(),
                        timestamp: m.date,
                        unread: !m.read,
                    },
                );
                proof {
                    assert(views_of(out@) =~= before.push(opened_by(m@)));
                }
            },
        }
        i += 1;
    }
    proof {
        assert(all.take(n as int) =~= all);
        lemma_conversations_of(all);
    }
    out
}

/// The events that a batch of messages gives rise to: each message as it
/// is, in order, then the conversations of the batch.
pub open spec fn events_of(messages: Seq<MessageView>) -> Seq<ProtocolEventView> {
    messages.map_values(|m: MessageView| ProtocolEventView::MessageReceived(m)).push(
        ProtocolEventView::ConversationsReceived(conversations_of(messages)),
    )
}

/// The events of the SMS window for a batch of the device.
pub fn listen_for_sms_events_stream(data: &SmsMessages) -> (r: Vec<ProtocolEvent>)
    ensures
        views_of(r@) == events_of(messages_of(data@)),
{
    let messages = convert_messages(data);
    let ghost ms = views_of(messages@);
    let conversations = messages_to_conversations(&messages);
    let mut out: Vec<ProtocolEvent> = Vec::new();
    let n = messages.len();
    let mut i: usize = 0;
    while i < n
        invariant
            i <= n,
            n == messages.len(),
            ms == views_of(messages@),
            out.len() == i,
            forall|k: int|
                0 <= k < i ==> (#[trigger] out@[k])@ == ProtocolEventView::MessageReceived(ms[k]),
        decreases n - i,
    {
        out.push(ProtocolEvent::MessageReceived(messages[i].clone()));
        i += 1;
    }
    out.push(ProtocolEvent::ConversationsReceived(conversations));
    proof {
        assert(views_of(out@) =~= events_of(ms));
    }
    out
}

/// The events of the SMS window for a payload of the device: those of the
/// batch that it was read as, and none where it could not be read, so that
/// a malformed payload changes nothing.
pub fn events_for_payload(parsed: Option<SmsMessages>) -> (r: Vec<ProtocolEvent>)
    ensures
        views_of(r@) == match parsed {
            Some(data) => events_of(messages_of(data@)),
            None => Seq::empty(),
        },
{
    match parsed {
        Some(data) => listen_for_sms_events_stream(&data),
        None => {
            let none: Vec<ProtocolEvent> = Vec::new();
            proof {
                assert(views_of(none@) =~= Seq::<ProtocolEventView>::empty());
            }
            none
        },
    }
}

} // verus!
