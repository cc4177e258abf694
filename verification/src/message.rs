//! The messages of a conversation and the events that the model service's
//! stream produces.

use vstd::prelude::*;

verus! {

/// Who wrote a message of the conversation.
#[derive(Clone, Copy, Debug, PartialEq, Eq, Structural)]
pub enum MessageRole {
    User,
    Assistant,
    System,
}

/// One message of the conversation.
#[derive(Clone, Debug)]
pub struct ChatMessage {
    pub role: MessageRole,
    pub content: String,
}

/// What a message is: its role and its text.
#[verifier::ext_equal]
pub struct MessageModel {
    pub role: MessageRole,
    pub content: Seq<char>,
}

impl View for ChatMessage {
    type V = MessageModel;

    open spec fn view(&self) -> MessageModel {
        MessageModel { role: self.role, content: self.content@ }
    }
}

/// The models of a list of messages.
pub open spec fn messages_model(messages: Seq<ChatMessage>) -> Seq<MessageModel> {
    messages.map_values(|m: ChatMessage| m@)
}

/// An event of a reply that is being streamed: a piece of text, the end of the
/// reply, or a failure described by a text.
#[derive(Debug, Clone)]
pub enum RuntimeEvent {
    Token(String),
    Finished,
    Error(String),
}

} // verus!
