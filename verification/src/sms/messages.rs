//! Message types for the SMS window.

use vstd::prelude::*;
use crate::sms::models::{ContactsMap, Conversation, ConversationView, ProtocolEvent, ProtocolEventView};
use crate::text::views_of;

verus! {

/// The groups of the emoji picker.
#[derive(Clone, Copy, Debug, PartialEq, Eq, Structural)]
pub enum EmojiCategory {
    Smileys,
    People,
    Nature,
    Food,
    Activities,
    Travel,
    Objects,
    Symbols,
    Flags,
}

/// All messages that the SMS window can receive and process.
pub enum SmsMessage {
    // Conversation management
    LoadConversations,
    ConversationsLoaded(Vec<Conversation>),
    ContactsLoaded(ContactsMap),
    SelectThread(String),
    // Message input
    UpdateInput(String),
    UpdateSearch(String),
    SendMessage,
    RefreshThread,
    // Window control
    CloseWindow,
    // Protocol events
    ProtocolEventReceived(ProtocolEvent),
    // New chat dialog
    OpenNewChatDialog,
    CloseNewChatDialog,
    UpdateNewChatPhone(String),
    /// Select a contact for a new chat: phone number, then name.
    SelectContactForNewChat(String, String),
    /// Start a chat with a phone number.
    StartChatWithNumber(String),
    // Emoji picker
    ToggleEmojiPicker,
    SelectEmojiCategory(EmojiCategory),
    InsertEmoji(String),
}

/// What a `SmsMessage` holds, as mathematical values.
pub ghost enum SmsMessageView {
    LoadConversations,
    ConversationsLoaded(Seq<ConversationView>),
    /// The contacts' numbers and, at the same positions, their names.
    ContactsLoaded(Seq<Seq<char>>, Seq<Seq<char>>),
    SelectThread(Seq<char>),
    UpdateInput(Seq<char>),
    UpdateSearch(Seq<char>),
    SendMessage,
    RefreshThread,
    CloseWindow,
    ProtocolEventReceived(ProtocolEventView),
    OpenNewChatDialog,
    CloseNewChatDialog,
    UpdateNewChatPhone(Seq<char>),
    SelectContactForNewChat(Seq<char>, Seq<char>),
    StartChatWithNumber(Seq<char>),
    ToggleEmojiPicker,
    SelectEmojiCategory(EmojiCategory),
    InsertEmoji(Seq<char>),
}

impl View for SmsMessage {
    type V = SmsMessageView;

    open spec fn view(&self) -> SmsMessageView {
        match self {
            SmsMessage::LoadConversations => SmsMessageView::LoadConversations,
            SmsMessage::ConversationsLoaded(cs) => SmsMessageView::ConversationsLoaded(views_of(cs@)),
            SmsMessage::ContactsLoaded(contacts) => SmsMessageView::ContactsLoaded(
                contacts.keys(),
                contacts.values(),
            ),
            SmsMessage::SelectThread(t) => SmsMessageView::SelectThread(t@),
            SmsMessage::UpdateInput(t) => SmsMessageView::UpdateInput(t@),
            SmsMessage::UpdateSearch(t) => SmsMessageView::UpdateSearch(t@),
            SmsMessage::SendMessage => SmsMessageView::SendMessage,
            SmsMessage::RefreshThread => SmsMessageView::RefreshThread,
            SmsMessage::CloseWindow => SmsMessageView::CloseWindow,
            SmsMessage::ProtocolEventReceived(e) => SmsMessageView::ProtocolEventReceived(e@),
            SmsMessage::OpenNewChatDialog => SmsMessageView::OpenNewChatDialog,
            SmsMessage::CloseNewChatDialog => SmsMessageView::CloseNewChatDialog,
            SmsMessage::UpdateNewChatPhone(t) => SmsMessageView::UpdateNewChatPhone(t@),
            SmsMessage::SelectContactForNewChat(phone, name) => {
                SmsMessageView::SelectContactForNewChat(phone@, name@)
            },
            SmsMessage::StartChatWithNumber(t) => SmsMessageView::StartChatWithNumber(t@),
            SmsMessage::ToggleEmojiPicker => SmsMessageView::ToggleEmojiPicker,
            SmsMessage::SelectEmojiCategory(c) => SmsMessageView::SelectEmojiCategory(*c),
            SmsMessage::InsertEmoji(t) => SmsMessageView::InsertEmoji(t@),
        }
    }
}

} // verus!
