use vstd::prelude::*;
use vstd::string::StringExecFns;

verus! {

/// What an envelope announces.
#[derive(Clone, Copy, Debug, PartialEq, Eq, Structural)]
pub enum MessageType {
    UserMessage,
    SystemNotification,
}

/// One chat event as it travels through the hub and over the wire.
#[derive(Debug)]
pub struct ChatMessage {
    pub username: String,
    pub content: String,
    pub timestamp: String,
    pub message_type: MessageType,
}

/// The mathematical value of a `ChatMessage`.
pub struct MessageView {
    pub username: Seq<char>,
    pub content: Seq<char>,
    pub timestamp: Seq<char>,
    pub message_type: MessageType,
}

impl View for ChatMessage {
    type V = MessageView;

    open spec fn view(&self) -> MessageView {
        MessageView {
            username: self.username@,
            content: self.content@,
            timestamp: self.timestamp@,
            message_type: self.message_type,
        }
    }
}

/// Content of the notification sent when a user joins.
pub open spec fn joined_text() -> Seq<char> {
    "joined the chat"@
}

/// Content of the notification sent when a user leaves.
pub open spec fn left_text() -> Seq<char> {
    "left the chat"@
}

pub open spec fn user_message_view(username: Seq<char>, content: Seq<char>, timestamp: Seq<char>) -> MessageView {
    MessageView { username, content, timestamp, message_type: MessageType::UserMessage }
}

pub open spec fn join_notice_view(username: Seq<char>, timestamp: Seq<char>) -> MessageView {
    MessageView {
        username,
        content: joined_text(),
        timestamp,
        message_type: MessageType::SystemNotification,
    }
}

pub open spec fn leave_notice_view(username: Seq<char>, timestamp: Seq<char>) -> MessageView {
    MessageView {
        username,
        content: left_text(),
        timestamp,
        message_type: MessageType::SystemNotification,
    }
}

impl MessageView {
    pub open spec fn is_join_notice(self) -> bool {
        self.message_type == MessageType::SystemNotification && self.content == joined_text()
    }

    pub open spec fn is_leave_notice(self) -> bool {
        self.message_type == MessageType::SystemNotification && self.content == left_text()
    }
}

impl ChatMessage {
    /// An envelope made of the given parts.
    pub fn new(username: String, content: String, timestamp: String, message_type: MessageType) -> (r: ChatMessage)
        ensures
            r@ == (MessageView { username: username@, content: content@, timestamp: timestamp@, message_type }),
    {
        ChatMessage { username, content, timestamp, message_type }
    }

    /// A message typed by `username`.
    pub fn user_message(username: &str, content: &str, timestamp: &str) -> (r: ChatMessage)
        ensures
            r@ == user_message_view(username@, content@, timestamp@),
    {
        ChatMessage {
            username: String::from_str(username),
            content: String::from_str(content),
            timestamp: String::from_str(timestamp),
            message_type: MessageType::UserMessage,
        }
    }

    /// The notification that `username` joined.
    pub fn join_notice(username: &str, timestamp: &str) -> (r: ChatMessage)
        ensures
            r@ == join_notice_view(username@, timestamp@),
    {
        ChatMessage {
            username: String::from_str(username),
            content: String::from_str("joined the chat"),
            timestamp: String::from_str(timestamp),
            message_type: MessageType::SystemNotification,
        }
    }

    /// The notification that `username` left.
    pub fn leave_notice(username: &str, timestamp: &str) -> (r: ChatMessage)
        ensures
            r@ == leave_notice_view(username@, timestamp@),
    {
        ChatMessage {
            username: String::from_str(username),
            content: String::from_str("left the chat"),
            timestamp: String::from_str(timestamp),
            message_type: MessageType::SystemNotification,
        }
    }
}

} // verus!
