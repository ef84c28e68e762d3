//! Chat messages as a provider receives them.

use vstd::prelude::*;

use crate::text::text_of;

verus! {

/// Who a chat message speaks for.
#[derive(Debug, Clone, Copy, PartialEq, Eq, Structural)]
pub enum ChatRole {
    /// The model's interlocutor.
    User,
    /// The model itself.
    Assistant,
}

/// What a chat message carries.
#[derive(Debug, Clone, Copy, PartialEq, Eq, Structural)]
#[non_exhaustive]
pub enum MessageType {
    /// Plain text.
    Text,
}

/// One message of a chat request.
#[derive(Debug, PartialEq, Eq)]
pub struct ChatMessage {
    /// Who speaks.
    pub role: ChatRole,
    /// What the message carries.
    pub message_type: MessageType,
    /// The text.
    pub content: String,
    /// The reasoning that led to the text, where the model gave any.
    pub reasoning_content: Option<String>,
}

/// A chat message, as the contracts see it.
pub struct ChatMessageView {
    pub role: ChatRole,
    pub message_type: MessageType,
    pub content: Seq<char>,
    pub reasoning_content: Option<Seq<char>>,
}

impl View for ChatMessage {
    type V = ChatMessageView;

    open spec fn view(&self) -> ChatMessageView {
        ChatMessageView {
            role: self.role,
            message_type: self.message_type,
            content: self.content@,
            reasoning_content: text_of(self.reasoning_content),
        }
    }
}

/// A text message without reasoning.
pub open spec fn text_message(role: ChatRole, content: Seq<char>) -> ChatMessageView {
    ChatMessageView {
        role,
        message_type: MessageType::Text,
        content,
        reasoning_content: None,
    }
}

impl ChatMessage {
    /// Creates a text message without reasoning.
    pub fn text(role: ChatRole, content: String) -> (message: Self)
        ensures
            message@ == text_message(role, content@),
    {
        ChatMessage { role, message_type: MessageType::Text, content, reasoning_content: None }
    }
}

/// How many of the tokens that a model wrote were of a special kind.
#[derive(Debug, Clone, Copy, PartialEq, Eq, Structural)]
pub struct CompletionTokensDetails {
    /// Tokens spent on reasoning.
    pub reasoning_tokens: Option<u32>,
    /// Tokens of audio.
    pub audio_tokens: Option<u32>,
}

/// How many of the tokens that a model read were of a special kind.
#[derive(Debug, Clone, Copy, PartialEq, Eq, Structural)]
pub struct PromptTokensDetails {
    /// Tokens served from a cache.
    pub cached_tokens: Option<u32>,
    /// Tokens of audio.
    pub audio_tokens: Option<u32>,
}

/// The tokens that one turn used.
#[derive(Debug, Clone, Copy, PartialEq, Eq, Structural)]
pub struct Usage {
    /// Tokens that the model read.
    pub prompt_tokens: u32,
    /// Tokens that the model wrote.
    pub completion_tokens: u32,
    /// Tokens in all.
    pub total_tokens: u32,
    /// A breakdown of the tokens written.
    pub completion_tokens_details: Option<CompletionTokensDetails>,
    /// A breakdown of the tokens read.
    pub prompt_tokens_details: Option<PromptTokensDetails>,
}

/// A text message holds the text and the role, and no reasoning.
pub proof fn law_text_message_holds_the_text(role: ChatRole, content: Seq<char>)
    ensures
        text_message(role, content).role == role,
        text_message(role, content).message_type == MessageType::Text,
        text_message(role, content).content == content,
        text_message(role, content).reasoning_content is None,
{
}

} // verus!
