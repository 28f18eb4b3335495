//! Data models for the SMS feature.

use vstd::prelude::*;
use crate::cache::Cache;
use crate::text::views_of;

verus! {

/// An SMS conversation thread.
pub struct Conversation {
    pub thread_id: String,
    pub contact_name: String,
    /// The number as the device sent it.
    pub phone_number: String,
    pub last_message: String,
    /// Milliseconds since the epoch.
    pub timestamp: i64,
    pub unread: bool,
}

/// What a `Conversation` holds, as mathematical values.
pub ghost struct ConversationView {
    pub thread_id: Seq<char>,
    pub contact_name: Seq<char>,
    pub phone_number: Seq<char>,
    pub last_message: Seq<char>,
    pub timestamp: i64,
    pub unread: bool,
}

impl View for Conversation {
    type V = ConversationView;

    open spec fn view(&self) -> ConversationView {
        ConversationView {
            thread_id: self.thread_id@,
            contact_name: self.contact_name@,
            phone_number: self.phone_number@,
            last_message: self.last_message@,
            timestamp: self.timestamp,
            unread: self.unread,
        }
    }
}

impl Clone for Conversation {
    fn clone(&self) -> (r: Self)
        ensures
            r@ == self@,
    {
        Conversation {
            thread_id: self.thread_id.clone(),
            contact_name: self.contact_name.clone(),
            phone_number: self.phone_number.clone(),
            last_message: self.last_message.clone(),
            timestamp: self.timestamp,
            unread: self.unread,
        }
    }
}

/// An individual SMS message.
pub struct Message {
    pub id: String,
    pub thread_id: String,
    pub body: String,
    pub address: String,
    /// Milliseconds since the epoch.
    pub date: i64,
    /// Message type: 1 = received, 2 = sent.
    pub type_: i32,
    pub read: bool,
}

/// What a `Message` holds, as mathematical values.
pub ghost struct MessageView {
    pub id: Seq<char>,
    pub thread_id: Seq<char>,
    pub body: Seq<char>,
    pub address: Seq<char>,
    pub date: i64,
    pub type_: i32,
    pub read: bool,
}

impl View for Message {
    type V = MessageView;

    open spec fn view(&self) -> MessageView {
        MessageView {
            id: self.id@,
            thread_id: self.thread_id@,
            body: self.body@,
            address: self.address@,
            date: self.date,
            type_: self.type_,
            read: self.read,
        }
    }
}

impl Clone for Message {
    fn clone(&self) -> (r: Self)
        ensures
            r@ == self@,
    {
        Message {
            id: self.id.clone(),
            thread_id: self.thread_id.clone(),
            body: self.body.clone(),
            address: self.address.clone(),
            date: self.date,
            type_: self.type_,
            read: self.read,
        }
    }
}

impl Message {
    /// Returns true if this is a sent message.
    pub fn is_sent(&self) -> (r: bool)
        ensures
            r == (self@.type_ == 2),
    {
        self.type_ == 2
    }
}

/// Events received from the protocol side.
pub enum ProtocolEvent {
    MessageReceived(Message),
    ConversationsReceived(Vec<Conversation>),
    Error(String),
}

/// What a `ProtocolEvent` holds, as mathematical values.
pub ghost enum ProtocolEventView {
    MessageReceived(MessageView),
    ConversationsReceived(Seq<ConversationView>),
    Error(Seq<char>),
}

impl View for ProtocolEvent {
    type V = ProtocolEventView;

    open spec fn view(&self) -> ProtocolEventView {
        match self {
            ProtocolEvent::MessageReceived(m) => ProtocolEventView::MessageReceived(m@),
            ProtocolEvent::ConversationsReceived(cs) => ProtocolEventView::ConversationsReceived(
                views_of(cs@),
            ),
            ProtocolEvent::Error(e) => ProtocolEventView::Error(e@),
        }
    }
}

/// Contacts by phone number: phone number to display name.
pub type ContactsMap = Cache<String>;

} // verus!
