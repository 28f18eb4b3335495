//! The state of the SMS window and the way each message changes it.

use vstd::prelude::*;
use crate::cache::Cache;
use crate::find::{first_where, has_where, lemma_first_where};
use crate::sms::messages::{EmojiCategory, SmsMessage, SmsMessageView};
use crate::sms::models::{
    ContactsMap, Conversation, ConversationView, Message, MessageView, ProtocolEvent,
    ProtocolEventView,
};
use crate::sms::reconcile::{
    apply_contacts, backfilled, contact_name_for, distinct_ids, distinct_threads, find_by_number,
    find_conversation, in_thread, ingest_message, ingested, load_conversations,
    merge_conversations, merged, note_message, noted, resolve_contact, with_number,
};
use crate::order::{
    is_sorted_with, is_total, is_transitive, lemma_sort_with_sorted, sort_vec, sort_with,
};
use crate::phone::{digit_chars, digits_of};
use crate::sms::reconcile::{by_recency, newest_first, sort_conversations};
use crate::text::{
    chars_of, contains_chars, contains_text, copy_of, decimal_of, has_part,
    lemma_text_le_total, lemma_text_le_transitive, lowercase_of, push_signed_decimal, push_text,
    same_text, string_of, text_le, text_of, text_precedes, to_lowercase, trim_chars, trimmed,
    views_of,
};

verus! {

/// What the host of the window is asked to do after a message.
pub enum SmsTask {
    /// Nothing.
    Idle,
    /// Ask the device for its conversations.
    FetchConversations(String),
    /// Ask the device for the messages of a thread: device, then thread.
    RequestMessages(String, String),
    /// Send a message: device, phone number, text.
    SendSms(String, String, String),
}

/// What a `SmsTask` holds, as mathematical values.
pub ghost enum SmsTaskView {
    Idle,
    FetchConversations(Seq<char>),
    RequestMessages(Seq<char>, Seq<char>),
    SendSms(Seq<char>, Seq<char>, Seq<char>),
}

impl View for SmsTask {
    type V = SmsTaskView;

    open spec fn view(&self) -> SmsTaskView {
        match self {
            SmsTask::Idle => SmsTaskView::Idle,
            SmsTask::FetchConversations(d) => SmsTaskView::FetchConversations(d@),
            SmsTask::RequestMessages(d, t) => SmsTaskView::RequestMessages(d@, t@),
            SmsTask::SendSms(d, p, m) => SmsTaskView::SendSms(d@, p@, m@),
        }
    }
}

/// The SMS window's state.
pub struct SmsWindow {
    device_id: String,
    device_name: String,
    conversations: Vec<Conversation>,
    messages: Vec<Message>,
    selected_thread: Option<String>,
    message_input: String,
    search_query: String,
    is_loading: bool,
    contacts: ContactsMap,
    show_new_chat_dialog: bool,
    new_chat_phone_input: String,
    show_emoji_picker: bool,
    emoji_category: EmojiCategory,
}

/// The window's state as mathematical values.
pub ghost struct SmsWindowView {
    pub device_id: Seq<char>,
    pub device_name: Seq<char>,
    /// The conversation table.
    pub conversations: Seq<ConversationView>,
    /// The messages of the open thread.
    pub messages: Seq<MessageView>,
    pub selected_thread: Option<Seq<char>>,
    pub message_input: Seq<char>,
    pub search_query: Seq<char>,
    pub is_loading: bool,
    /// The contacts' numbers and, at the same positions, their names.
    pub contact_numbers: Seq<Seq<char>>,
    pub contact_names: Seq<Seq<char>>,
    pub show_new_chat_dialog: bool,
    pub new_chat_phone_input: Seq<char>,
    pub show_emoji_picker: bool,
    pub emoji_category: EmojiCategory,
}

/// The window as it starts: nothing loaded, nothing selected, loading.
pub open spec fn initial_window(device_id: Seq<char>, device_name: Seq<char>) -> SmsWindowView {
    SmsWindowView {
        device_id,
        device_name,
        conversations: Seq::empty(),
        messages: Seq::empty(),
        selected_thread: None,
        message_input: Seq::empty(),
        search_query: Seq::empty(),
        is_loading: true,
        contact_numbers: Seq::empty(),
        contact_names: Seq::empty(),
        show_new_chat_dialog: false,
        new_chat_phone_input: Seq::empty(),
        show_emoji_picker: false,
        emoji_category: EmojiCategory::Smileys,
    }
}

/// The state after an event of the protocol side. A message goes into the
/// list of the open thread if it belongs to it, and onto the conversation
/// of its thread in any case; a batch of conversations is merged; an error
/// changes nothing.
pub open spec fn after_protocol_event(s: SmsWindowView, event: ProtocolEventView) -> SmsWindowView {
    match event {
        ProtocolEventView::MessageReceived(m) => SmsWindowView {
            messages: if s.selected_thread == Some(m.thread_id) {
                ingested(s.messages, m)
            } else {
                s.messages
            },
            conversations: noted(s.conversations, m),
            ..s
        },
        ProtocolEventView::ConversationsReceived(batch) => SmsWindowView {
            conversations: merged(s.conversations, batch),
            is_loading: false,
            ..s
        },
        ProtocolEventView::Error(_) => s,
    }
}

/// Whether a message can be sent: there is text, a thread is selected, and
/// the table has the conversation of that thread.
pub open spec fn can_send(s: SmsWindowView) -> bool {
    &&& trimmed(s.message_input).len() > 0
    &&& s.selected_thread is Some
    &&& has_where(s.conversations, in_thread(s.selected_thread->0))
}

/// The number that a message of the selected thread goes to.
pub open spec fn recipient(s: SmsWindowView) -> Seq<char> {
    s.conversations[first_where(s.conversations, in_thread(s.selected_thread->0))->0].phone_number
}

/// The message shown at once for a text that is being sent.
pub open spec fn optimistic_message(s: SmsWindowView, now: i64) -> MessageView {
    MessageView {
        id: "sending_"@ + decimal_of(now as int),
        thread_id: s.selected_thread->0,
        body: s.message_input,
        address: recipient(s),
        date: now,
        type_: 2,
        read: true,
    }
}

/// The state after the user asked to send the text in the input.
pub open spec fn after_send(s: SmsWindowView, now: i64) -> SmsWindowView {
    if can_send(s) {
        SmsWindowView {
            message_input: Seq::empty(),
            messages: ingested(s.messages, optimistic_message(s, now)),
            ..s
        }
    } else {
        s
    }
}

/// The conversation made for a number that has none yet.
pub open spec fn placeholder(s: SmsWindowView, phone: Seq<char>, now: i64) -> ConversationView {
    ConversationView {
        thread_id: "new_"@ + decimal_of(now as int),
        contact_name: if s.contact_numbers.contains(phone) {
            s.contact_names[s.contact_numbers.index_of(phone)]
        } else {
            phone
        },
        phone_number: phone,
        last_message: Seq::empty(),
        timestamp: now,
        unread: false,
    }
}

/// The state after the user asked for a chat with `phone`: the first
/// conversation whose number matches is opened; where there is none, a new
/// conversation is put in front of the table and opened.
pub open spec fn after_start_chat(s: SmsWindowView, phone: Seq<char>, now: i64) -> SmsWindowView {
    match first_where(s.conversations, with_number(phone)) {
        Some(i) => SmsWindowView {
            show_new_chat_dialog: false,
            selected_thread: Some(s.conversations[i].thread_id),
            messages: Seq::empty(),
            ..s
        },
        None => {
            let fresh = placeholder(s, phone, now);
            SmsWindowView {
                show_new_chat_dialog: false,
                selected_thread: Some(fresh.thread_id),
                conversations: if has_where(s.conversations, in_thread(fresh.thread_id)) {
                    s.conversations
                } else {
                    seq![fresh] + s.conversations
                },
                messages: Seq::empty(),
                ..s
            }
        },
    }
}

/// The state after a message.
pub open spec fn window_after(s: SmsWindowView, message: SmsMessageView, now: i64) -> SmsWindowView {
    match message {
        SmsMessageView::LoadConversations => SmsWindowView { is_loading: true, ..s },
        SmsMessageView::ConversationsLoaded(loaded) => SmsWindowView {
            conversations: merged(Seq::empty(), loaded),
            is_loading: false,
            ..s
        },
        SmsMessageView::ContactsLoaded(numbers, names) => SmsWindowView {
            contact_numbers: numbers,
            contact_names: names,
            conversations: backfilled(s.conversations, numbers, names),
            ..s
        },
        SmsMessageView::SelectThread(thread_id) => SmsWindowView {
            selected_thread: Some(thread_id),
            messages: Seq::empty(),
            message_input: Seq::empty(),
            ..s
        },
        SmsMessageView::UpdateInput(text) => SmsWindowView { message_input: text, ..s },
        SmsMessageView::UpdateSearch(text) => SmsWindowView { search_query: text, ..s },
        SmsMessageView::SendMessage => after_send(s, now),
        SmsMessageView::RefreshThread => s,
        SmsMessageView::CloseWindow => s,
        SmsMessageView::ProtocolEventReceived(event) => after_protocol_event(s, event),
        SmsMessageView::OpenNewChatDialog => SmsWindowView {
            show_new_chat_dialog: true,
            new_chat_phone_input: Seq::empty(),
            ..s
        },
        SmsMessageView::CloseNewChatDialog => SmsWindowView {
            show_new_chat_dialog: false,
            new_chat_phone_input: Seq::empty(),
            ..s
        },
        SmsMessageView::UpdateNewChatPhone(phone) => SmsWindowView { new_chat_phone_input: phone, ..s },
        SmsMessageView::SelectContactForNewChat(phone, _) => SmsWindowView {
            new_chat_phone_input: phone,
            ..s
        },
        SmsMessageView::StartChatWithNumber(phone) => after_start_chat(s, phone, now),
        SmsMessageView::ToggleEmojiPicker => SmsWindowView {
            show_emoji_picker: !s.show_emoji_picker,
            ..s
        },
        SmsMessageView::SelectEmojiCategory(category) => SmsWindowView {
            emoji_category: category,
            ..s
        },
        SmsMessageView::InsertEmoji(emoji) => SmsWindowView {
            message_input: s.message_input + emoji,
            show_emoji_picker: false,
            ..s
        },
    }
}

/// What the host is asked to do after a message.
pub open spec fn sms_task_after(s: SmsWindowView, message: SmsMessageView, now: i64) -> SmsTaskView {
    match message {
        SmsMessageView::LoadConversations => SmsTaskView::FetchConversations(s.device_id),
        SmsMessageView::SelectThread(thread_id) => SmsTaskView::RequestMessages(
            s.device_id,
            thread_id,
        ),
        SmsMessageView::SendMessage => if can_send(s) {
            SmsTaskView::SendSms(s.device_id, recipient(s), s.message_input)
        } else {
            SmsTaskView::Idle
        },
        SmsMessageView::RefreshThread => match s.selected_thread {
            Some(thread_id) => SmsTaskView::RequestMessages(s.device_id, thread_id),
            None => SmsTaskView::Idle,
        },
        SmsMessageView::StartChatWithNumber(phone) => match first_where(
            s.conversations,
            with_number(phone),
        ) {
            Some(i) => SmsTaskView::RequestMessages(s.device_id, s.conversations[i].thread_id),
            None => SmsTaskView::Idle,
        },
        _ => SmsTaskView::Idle,
    }
}

/// Whether a conversation is shown under a search: always under an empty
/// search; else if the search occurs in its contact name or in its last
/// message, letter case set aside, or in its number as it is written.
pub open spec fn matches_search(c: ConversationView, query: Seq<char>) -> bool {
    ||| query.len() == 0
    ||| has_part(lowercase_of(c.contact_name), lowercase_of(query))
    ||| has_part(c.phone_number, query)
    ||| has_part(lowercase_of(c.last_message), lowercase_of(query))
}

/// The conversations shown under a search.
pub open spec fn searched(query: Seq<char>) -> spec_fn(ConversationView) -> bool {
    |c: ConversationView| matches_search(c, query)
}

/// Contacts, each a number and a name, in the order of their names.
pub open spec fn contact_order() -> spec_fn((Seq<char>, Seq<char>), (Seq<char>, Seq<char>)) -> bool {
    |x: (Seq<char>, Seq<char>), y: (Seq<char>, Seq<char>)| text_le(x.1, y.1)
}

/// The order of contacts is total and transitive.
pub proof fn lemma_contact_order()
    ensures
        is_total(contact_order()),
        is_transitive(contact_order()),
{
    assert forall|x: (Seq<char>, Seq<char>), y: (Seq<char>, Seq<char>)| #[trigger]
        contact_order()(x, y) || #[trigger] contact_order()(y, x) by {
        lemma_text_le_total(x.1, y.1);
    }
    assert forall|x: (Seq<char>, Seq<char>), y: (Seq<char>, Seq<char>), z: (Seq<char>, Seq<char>)| #[trigger]
        contact_order()(x, y) && #[trigger] contact_order()(y, z) implies contact_order()(x, z) by {
        lemma_text_le_transitive(x.1, y.1, z.1);
    }
}

/// The contacts as pairs of number and name, in the order of the numbers'
/// arrival.
pub open spec fn contact_pairs(numbers: Seq<Seq<char>>, names: Seq<Seq<char>>) -> Seq<
    (Seq<char>, Seq<char>),
> {
    Seq::new(numbers.len(), |i: int| (numbers[i], names[i]))
}

/// Whether a contact is offered for a term typed into the dialog for a new
/// chat: if the term occurs in its name, letter case set aside, or in its
/// number as written, or the digits of the term in the digits of the number.
pub open spec fn contact_offered(contact: (Seq<char>, Seq<char>), term: Seq<char>) -> bool {
    ||| has_part(lowercase_of(contact.1), term)
    ||| has_part(contact.0, term)
    ||| has_part(digits_of(contact.0), digits_of(term))
}

/// The contacts offered for a term.
pub open spec fn offered(term: Seq<char>) -> spec_fn((Seq<char>, Seq<char>)) -> bool {
    |c: (Seq<char>, Seq<char>)| contact_offered(c, term)
}

/// The contacts offered in the dialog for a new chat: all contacts by name
/// while nothing is typed, else those offered for what is typed, without
/// the white space around it and in lowercase.
pub open spec fn filtered_contacts(s: SmsWindowView) -> Seq<(Seq<char>, Seq<char>)> {
    let sorted = sort_with(contact_pairs(s.contact_numbers, s.contact_names), contact_order());
    let term = lowercase_of(trimmed(s.new_chat_phone_input));
    if term.len() == 0 {
        sorted
    } else {
        sorted.filter(offered(term))
    }
}

/// Orders contacts by name, keeping the order of equal names.
pub fn sort_contacts(contacts: &mut Vec<(String, String)>)
    ensures
        views_of(final(contacts)@) == sort_with(views_of(old(contacts)@), contact_order()),
        is_sorted_with(views_of(final(contacts)@), contact_order()),
        final(contacts).len() == old(contacts).len(),
{
    let before = |a: &(String, String), b: &(String, String)| -> (r: bool)
        ensures
            r == contact_order()(a@, b@),
        { text_precedes(&chars_of(a.1.as_str()), &chars_of(b.1.as_str())) };
    sort_vec(contacts, before, Ghost(contact_order()));
    proof {
        lemma_contact_order();
        lemma_sort_with_sorted(views_of(old(contacts)@), contact_order());
    }
}

/// Whether a contact is offered for a term.
pub fn offers_contact(phone: &str, name: &str, term: &str) -> (r: bool)
    ensures
        r == contact_offered((phone@, name@), term@),
{
    let lowered = to_lowercase(name);
    if contains_text(lowered.as_str(), term) || contains_text(phone, term) {
        return true;
    }
    let phone_digits = digit_chars(phone);
    let term_digits = digit_chars(term);
    contains_chars(&phone_digits, &term_digits)
}

impl SmsWindow {
    /// No thread occurs twice in the table, no identifier twice among the
    /// messages, no number twice among the contacts. Every window made by
    /// this module is well formed.
    pub closed spec fn wf(&self) -> bool {
        &&& distinct_threads(views_of(self.conversations@))
        &&& distinct_ids(views_of(self.messages@))
        &&& self.contacts.wf()
    }

    /// The window's state as mathematical values.
    pub closed spec fn view(&self) -> SmsWindowView {
        SmsWindowView {
            device_id: self.device_id@,
            device_name: self.device_name@,
            conversations: views_of(self.conversations@),
            messages: views_of(self.messages@),
            selected_thread: text_of(self.selected_thread),
            message_input: self.message_input@,
            search_query: self.search_query@,
            is_loading: self.is_loading,
            contact_numbers: self.contacts.keys(),
            contact_names: self.contacts.values(),
            show_new_chat_dialog: self.show_new_chat_dialog,
            new_chat_phone_input: self.new_chat_phone_input@,
            show_emoji_picker: self.show_emoji_picker,
            emoji_category: self.emoji_category,
        }
    }

    /// The window of a device as it starts.
    pub fn init(device_id: String, device_name: String) -> (r: Self)
        ensures
            r.wf(),
            r@ == initial_window(device_id@, device_name@),
    {
        let r = SmsWindow {
            device_id,
            device_name,
            conversations: Vec::new(),
            messages: Vec::new(),
            selected_thread: None,
            message_input: String::new(),
            search_query: String::new(),
            is_loading: true,
            contacts: Cache::new(),
            show_new_chat_dialog: false,
            new_chat_phone_input: String::new(),
            show_emoji_picker: false,
            emoji_category: EmojiCategory::Smileys,
        };
        proof {
            assert(views_of(r.conversations@) =~= Seq::<ConversationView>::empty());
            assert(views_of(r.messages@) =~= Seq::<MessageView>::empty());
        }
        r
    }

    /// The window's title.
    pub fn title(&self) -> (r: String)
        ensures
            r@ == "SMS - "@ + self@.device_name,
    {
        let mut out = String::from_str("SMS - ");
        push_text(&mut out, self.device_name.as_str());
        out
    }

    /// The conversation table, newest first after every merge; no thread
    /// occurs twice in it.
    pub fn conversations(&self) -> (r: &Vec<Conversation>)
        requires
            self.wf(),
        ensures
            views_of(r@) == self@.conversations,
            distinct_threads(views_of(r@)),
    {
        &self.conversations
    }

    /// The messages of the open thread; no identifier occurs twice in it.
    pub fn messages(&self) -> (r: &Vec<Message>)
        requires
            self.wf(),
        ensures
            views_of(r@) == self@.messages,
            distinct_ids(views_of(r@)),
    {
        &self.messages
    }

    /// The thread that is open.
    pub fn selected_thread(&self) -> (r: Option<String>)
        ensures
            text_of(r) == self@.selected_thread,
    {
        copy_of(&self.selected_thread)
    }

    /// The text in the input.
    pub fn message_input(&self) -> (r: &str)
        ensures
            r@ == self@.message_input,
    {
        self.message_input.as_str()
    }

    /// Whether conversations are being loaded.
    pub fn is_loading(&self) -> (r: bool)
        ensures
            r == self@.is_loading,
    {
        self.is_loading
    }

    /// Whether the dialog for a new chat is shown.
    pub fn show_new_chat_dialog(&self) -> (r: bool)
        ensures
            r == self@.show_new_chat_dialog,
    {
        self.show_new_chat_dialog
    }

    /// Whether the emoji picker is shown.
    pub fn show_emoji_picker(&self) -> (r: bool)
        ensures
            r == self@.show_emoji_picker,
    {
        self.show_emoji_picker
    }

    /// Takes an event of the protocol side into the tables.
    pub fn handle_protocol_event(&mut self, event: ProtocolEvent)
        requires
            old(self).wf(),
        ensures
            final(self).wf(),
            final(self)@ == after_protocol_event(old(self)@, event@),
    {
        match event {
            ProtocolEvent::MessageReceived(msg) => {
                let open = match &self.selected_thread {
                    Some(thread_id) => same_text(thread_id.as_str(), msg.thread_id.as_str()),
                    None => false,
                };
                note_message(&mut self.conversations, &msg);
                if open {
                    let _ = ingest_message(&mut self.messages, msg);
                }
            },
            ProtocolEvent::ConversationsReceived(conversations) => {
                merge_conversations(&mut self.conversations, conversations);
                self.is_loading = false;
            },
            ProtocolEvent::Error(_) => {},
        }
    }

    /// Starts loading the conversations.
    pub fn load_conversations(&mut self) -> (task: SmsTask)
        requires
            old(self).wf(),
        ensures
            final(self).wf(),
            final(self)@ == (SmsWindowView { is_loading: true, ..old(self)@ }),
            task@ == SmsTaskView::FetchConversations(old(self)@.device_id),
    {
        self.is_loading = true;
        SmsTask::FetchConversations(self.device_id.clone())
    }

    /// Takes a freshly loaded list in place of the table.
    pub fn on_conversations_loaded(&mut self, conversations: Vec<Conversation>)
        requires
            old(self).wf(),
        ensures
            final(self).wf(),
            final(self)@ == (SmsWindowView {
                conversations: merged(Seq::empty(), views_of(conversations@)),
                is_loading: false,
                ..old(self)@
            }),
    {
        load_conversations(&mut self.conversations, conversations);
        self.is_loading = false;
    }

    /// Takes a fresh batch of contacts and re-evaluates the contact name of
    /// every conversation against it.
    pub fn on_contacts_loaded(&mut self, contacts: ContactsMap)
        requires
            old(self).wf(),
            contacts.wf(),
        ensures
            final(self).wf(),
            final(self)@ == (SmsWindowView {
                contact_numbers: contacts.keys(),
                contact_names: contacts.values(),
                conversations: backfilled(
                    old(self)@.conversations,
                    contacts.keys(),
                    contacts.values(),
                ),
                ..old(self)@
            }),
    {
        self.contacts = contacts;
        apply_contacts(&mut self.conversations, &self.contacts);
    }

    /// Opens a thread: its messages are asked for, the list and the input
    /// are emptied.
    pub fn on_select_thread(&mut self, thread_id: String) -> (task: SmsTask)
        requires
            old(self).wf(),
        ensures
            final(self).wf(),
            final(self)@ == (SmsWindowView {
                selected_thread: Some(thread_id@),
                messages: Seq::empty(),
                message_input: Seq::empty(),
                ..old(self)@
            }),
            task@ == SmsTaskView::RequestMessages(old(self)@.device_id, thread_id@),
    {
        let task = SmsTask::RequestMessages(self.device_id.clone(), thread_id.clone());
        self.selected_thread = Some(thread_id);
        self.messages.clear();
        self.message_input = String::new();
        proof {
            assert(views_of(self.messages@) =~= Seq::<MessageView>::empty());
        }
        task
    }

    /// Sends the text in the input to the number of the open thread. The
    /// message shows in the list at once, under an identifier made from the
    /// time, unless that identifier is taken.
    pub fn send_message(&mut self, now: i64) -> (task: SmsTask)
        requires
            old(self).wf(),
        ensures
            final(self).wf(),
            final(self)@ == after_send(old(self)@, now),
            task@ == sms_task_after(old(self)@, SmsMessageView::SendMessage, now),
    {
        let ghost s = self@;
        proof {
            lemma_first_where(s.conversations, in_thread(s.selected_thread->0));
        }
        let typed = chars_of(self.message_input.as_str());
        if trim_chars(&typed).len() == 0 {
            return SmsTask::Idle;
        }
        let thread_id = match &self.selected_thread {
            Some(t) => t.clone(),
            None => {
                return SmsTask::Idle;
            },
        };
        let at = match find_conversation(&self.conversations, thread_id.as_str()) {
            Some(i) => i,
            None => {
                return SmsTask::Idle;
            },
        };
        let phone_number = self.conversations[at].phone_number.clone();
        let message = self.message_input.clone();
        let mut id = String::from_str("sending_");
        push_signed_decimal(&mut id, now);
        let optimistic = Message {
            id,
            thread_id,
            body: message.clone(),
            address: phone_number.clone(),
            date: now,
            type_: 2,
            read: true,
        };
        proof {
            assert(optimistic@ == optimistic_message(s, now));
        }
        self.message_input = String::new();
        let _ = ingest_message(&mut self.messages, optimistic);
        SmsTask::SendSms(self.device_id.clone(), phone_number, message)
    }

    /// Asks again for the messages of the open thread.
    pub fn refresh_thread(&self) -> (task: SmsTask)
        ensures
            task@ == sms_task_after(self@, SmsMessageView::RefreshThread, 0),
    {
        match &self.selected_thread {
            Some(thread_id) => SmsTask::RequestMessages(self.device_id.clone(), thread_id.clone()),
            None => SmsTask::Idle,
        }
    }

    /// Opens the chat with a phone number.
    pub fn start_chat_with_number(&mut self, phone_number: String, now: i64) -> (task: SmsTask)
        requires
            old(self).wf(),
        ensures
            final(self).wf(),
            final(self)@ == after_start_chat(old(self)@, phone_number@, now),
            task@ == sms_task_after(
                old(self)@,
                SmsMessageView::StartChatWithNumber(phone_number@),
                now,
            ),
    {
        let ghost s = self@;
        self.show_new_chat_dialog = false;
        match find_by_number(&self.conversations, phone_number.as_str()) {
            Some(i) => {
                let thread_id = self.conversations[i].thread_id.clone();
                self.selected_thread = Some(thread_id.clone());
                self.messages.clear();
                proof {
                    assert(views_of(self.messages@) =~= Seq::<MessageView>::empty());
                }
                SmsTask::RequestMessages(self.device_id.clone(), thread_id)
            },
            None => {
                let mut thread_id = String::from_str("new_");
                push_signed_decimal(&mut thread_id, now);
                let contact_name = match self.contacts.get(phone_number.as_str()) {
                    Some(name) => name.clone(),
                    None => phone_number.clone(),
                };
                let fresh = Conversation {
                    thread_id: thread_id.clone(),
                    contact_name,
                    phone_number,
                    last_message: String::new(),
                    timestamp: now,
                    unread: false,
                };
                proof {
                    assert(fresh@ == placeholder(s, phone_number@, now));
                }
                self.selected_thread = Some(thread_id);
                let taken = find_conversation(&self.conversations, fresh.thread_id.as_str());
                proof {
                    lemma_first_where(s.conversations, in_thread(fresh@.thread_id));
                }
                if taken.is_none() {
                    let ghost fv = fresh@;
                    self.conversations.insert(0, fresh);
                    proof {
                        let after = views_of(self.conversations@);
                        assert(after =~= seq![fv] + s.conversations);
                        assert forall|i: int, j: int|
                            0 <= i < after.len() && 0 <= j < after.len() && i != j implies after[i].thread_id
                            != after[j].thread_id by {
                            if i == 0 {
                                assert(!in_thread(fv.thread_id)(s.conversations[j - 1]));
                            } else if j == 0 {
                                assert(!in_thread(fv.thread_id)(s.conversations[i - 1]));
                            } else {
                                assert(after[i] == s.conversations[i - 1]);
                                assert(after[j] == s.conversations[j - 1]);
                            }
                        }
                    }
                }
                self.messages.clear();
                proof {
                    assert(views_of(self.messages@) =~= Seq::<MessageView>::empty());
                }
                SmsTask::Idle
            },
        }
    }

    /// Applies one message and says what the host is to do. `now` is the
    /// time in milliseconds since the epoch.
    pub fn update(&mut self, message: SmsMessage, now: i64) -> (task: SmsTask)
        requires
            old(self).wf(),
            message matches SmsMessage::ContactsLoaded(contacts) ==> contacts.wf(),
        ensures
            final(self).wf(),
            final(self)@ == window_after(old(self)@, message@, now),
            task@ == sms_task_after(old(self)@, message@, now),
    {
        match message {
            SmsMessage::LoadConversations => self.load_conversations(),
            SmsMessage::ConversationsLoaded(conversations) => {
                self.on_conversations_loaded(conversations);
                SmsTask::Idle
            },
            SmsMessage::ContactsLoaded(contacts) => {
                self.on_contacts_loaded(contacts);
                SmsTask::Idle
            },
            SmsMessage::SelectThread(thread_id) => self.on_select_thread(thread_id),
            SmsMessage::UpdateInput(input) => {
                self.message_input = input;
                SmsTask::Idle
            },
            SmsMessage::UpdateSearch(query) => {
                self.search_query = query;
                SmsTask::Idle
            },
            SmsMessage::SendMessage => self.send_message(now),
            SmsMessage::RefreshThread => self.refresh_thread(),
            SmsMessage::CloseWindow => SmsTask::Idle,
            SmsMessage::ProtocolEventReceived(event) => {
                self.handle_protocol_event(event);
                SmsTask::Idle
            },
            SmsMessage::OpenNewChatDialog => {
                self.show_new_chat_dialog = true;
                self.new_chat_phone_input = String::new();
                SmsTask::Idle
            },
            SmsMessage::CloseNewChatDialog => {
                self.show_new_chat_dialog = false;
                self.new_chat_phone_input = String::new();
                SmsTask::Idle
            },
            SmsMessage::UpdateNewChatPhone(phone) => {
                self.new_chat_phone_input = phone;
                SmsTask::Idle
            },
            SmsMessage::SelectContactForNewChat(phone, _) => {
                self.new_chat_phone_input = phone;
                SmsTask::Idle
            },
            SmsMessage::StartChatWithNumber(phone_number) => self.start_chat_with_number(
                phone_number,
                now,
            ),
            SmsMessage::ToggleEmojiPicker => {
                self.show_emoji_picker = !self.show_emoji_picker;
                SmsTask::Idle
            },
            SmsMessage::SelectEmojiCategory(category) => {
                self.emoji_category = category;
                SmsTask::Idle
            },
            SmsMessage::InsertEmoji(emoji) => {
                push_text(&mut self.message_input, emoji.as_str());
                self.show_emoji_picker = false;
                SmsTask::Idle
            },
        }
    }

    /// The display name for a phone number: that of the first contact whose
    /// number matches it.
    pub fn get_contact_name(&self, phone_number: &str) -> (r: Option<String>)
        requires
            self.wf(),
        ensures
            text_of(r) == contact_name_for(
                self@.contact_numbers,
                self@.contact_names,
                phone_number@,
            ),
    {
        resolve_contact(&self.contacts, phone_number)
    }

    /// The phone number of the open thread's conversation.
    pub fn get_current_conversation_phone(&self) -> (r: Option<String>)
        ensures
            text_of(r) == if self@.selected_thread is Some && has_where(
                self@.conversations,
                in_thread(self@.selected_thread->0),
            ) {
                Some(recipient(self@))
            } else {
                None
            },
    {
        proof {
            lemma_first_where(self@.conversations, in_thread(self@.selected_thread->0));
        }
        match &self.selected_thread {
            Some(thread_id) => match find_conversation(&self.conversations, thread_id.as_str()) {
                Some(i) => Some(self.conversations[i].phone_number.clone()),
                None => None,
            },
            None => None,
        }
    }

    /// Whether a conversation is shown under the current search.
    pub fn conversation_matches_search(&self, conv: &Conversation) -> (r: bool)
        ensures
            r == matches_search(conv@, self@.search_query),
    {
        if self.search_query.as_str().unicode_len() == 0 {
            return true;
        }
        let query = to_lowercase(self.search_query.as_str());
        let name = to_lowercase(conv.contact_name.as_str());
        if contains_text(name.as_str(), query.as_str()) {
            return true;
        }
        if contains_text(conv.phone_number.as_str(), self.search_query.as_str()) {
            return true;
        }
        let last = to_lowercase(conv.last_message.as_str());
        contains_text(last.as_str(), query.as_str())
    }

    /// The conversations of the list: those shown under the current search,
    /// newest first.
    pub fn view_conversations_list(&self) -> (r: Vec<Conversation>)
        ensures
            views_of(r@) == by_recency(self@.conversations.filter(searched(self@.search_query))),
            newest_first(views_of(r@)),
    {
        let ghost all = views_of(self.conversations@);
        let ghost p = searched(self@.search_query);
        let mut out: Vec<Conversation> = Vec::new();
        let mut i: usize = 0;
        proof {
            reveal(Seq::filter);
            assert(all.take(0) =~= Seq::<ConversationView>::empty());
            assert(views_of(out@) =~= Seq::<ConversationView>::empty());
        }
        while i < self.conversations.len()
            invariant
                i <= self.conversations.len(),
                all == views_of(self.conversations@),
                p == searched(self@.search_query),
                views_of(out@) == all.take(i as int).filter(p),
            decreases self.conversations.len() - i,
        {
            let ghost before = views_of(out@);
            let c = &self.conversations[i];
            proof {
                reveal(Seq::filter);
                assert(all.take(i + 1).drop_last() =~= all.take(i as int));
                assert(all.take(i + 1).last() == c@);
            }
            if self.conversation_matches_search(c) {
                out.push(c.clone());
                proof {
                    assert(views_of(out@) =~= before.push(c@));
                }
            }
            i += 1;
        }
        proof {
            assert(all.take(self.conversations.len() as int) =~= all);
        }
        sort_conversations(&mut out);
        out
    }

    /// The name shown for a conversation: that of the first contact whose
    /// number matches, else the name the conversation carries.
    pub fn display_name(&self, conv: &Conversation) -> (r: String)
        requires
            self.wf(),
        ensures
            r@ == match contact_name_for(
                self@.contact_numbers,
                self@.contact_names,
                conv@.phone_number,
            ) {
                Some(name) => name,
                None => conv@.contact_name,
            },
    {
        match resolve_contact(&self.contacts, conv.phone_number.as_str()) {
            Some(name) => name,
            None => conv.contact_name.clone(),
        }
    }

    /// The contacts offered in the dialog for a new chat, each as number and
    /// name.
    pub fn get_filtered_contacts(&self) -> (r: Vec<(String, String)>)
        requires
            self.wf(),
        ensures
            views_of(r@) == filtered_contacts(self@),
    {
        let ghost pairs = contact_pairs(self.contacts.keys(), self.contacts.values());
        let mut sorted: Vec<(String, String)> = Vec::new();
        let n = self.contacts.len();
        let mut i: usize = 0;
        while i < n
            invariant
                i <= n,
                self.contacts.wf(),
                n == self.contacts.keys().len(),
                n == self.contacts.values().len(),
                sorted.len() == i,
                forall|k: int|
                    0 <= k < i ==> (#[trigger] sorted@[k])@ == (
                        self.contacts.keys()[k],
                        self.contacts.values()[k],
                    ),
            decreases n - i,
        {
            sorted.push(
                (String::from_str(self.contacts.key_at(i)), self.contacts.value_at(i).clone()),
            );
            i += 1;
        }
        proof {
            assert(views_of(sorted@) =~= pairs);
        }
        sort_contacts(&mut sorted);
        let typed = chars_of(self.new_chat_phone_input.as_str());
        let term = to_lowercase(string_of(&trim_chars(&typed)).as_str());
        if term.as_str().unicode_len() == 0 {
            return sorted;
        }
        let ghost all = views_of(sorted@);
        let ghost p = offered(term@);
        let mut out: Vec<(String, String)> = Vec::new();
        let mut i: usize = 0;
        proof {
            reveal(Seq::filter);
            assert(all.take(0) =~= Seq::<(Seq<char>, Seq<char>)>::empty());
            assert(views_of(out@) =~= Seq::<(Seq<char>, Seq<char>)>::empty());
        }
        while i < sorted.len()
            invariant
                i <= sorted.len(),
                all == views_of(sorted@),
                p == offered(term@),
                views_of(out@) == all.take(i as int).filter(p),
            decreases sorted.len() - i,
        {
            let ghost before = views_of(out@);
            let c = &sorted[i];
            proof {
                reveal(Seq::filter);
                assert(all.take(i + 1).drop_last() =~= all.take(i as int));
                assert(all.take(i + 1).last() == c@);
            }
            if offers_contact(c.0.as_str(), c.1.as_str(), term.as_str()) {
                out.push((c.0.clone(), c.1.clone()));
                proof {
                    assert(views_of(out@) =~= before.push(c@));
                }
            }
            i += 1;
        }
        proof {
            assert(all.take(sorted.len() as int) =~= all);
        }
        out
    }
}

} // verus!
