//! What a dialogue participant is told of the conversation.

use vstd::prelude::*;

use crate::chat::{text_message, ChatMessage, ChatMessageView, ChatRole, MessageType};
use crate::conversation::{
    Conversation, ConversationMessage, ConversationMessageView, ConversationView, MessageKind,
    MessageKindView, MessageRole,
};
use crate::text::{attributed, attributed_text};

verus! {

/// Who a message speaks for when it is told to the participant that goes by the name `current`.
/// What the participant said itself is the assistant's; what another one said is the user's, so
/// that it is something to respond to. Tools and errors are not told.
pub open spec fn told_role(message: ConversationMessageView, current: Seq<char>) -> Option<
    ChatRole,
> {
    match message.role {
        MessageRole::User => Some(ChatRole::User),
        MessageRole::Assistant => match message.participant_name {
            Some(name) => if name == current {
                Some(ChatRole::Assistant)
            } else {
                Some(ChatRole::User)
            },
            None => Some(ChatRole::Assistant),
        },
        MessageRole::Tool | MessageRole::Error => None,
    }
}

/// A message, as the participant that goes by the name `current` is told it, if it is. The name
/// of the participant it comes from stands before the text.
pub open spec fn told_message(message: ConversationMessageView, current: Seq<char>) -> Option<
    ChatMessageView,
> {
    match message.kind {
        MessageKindView::Text(content) => match told_role(message, current) {
            Some(role) => if content.len() == 0 {
                None
            } else {
                Some(
                    text_message(
                        role,
                        match message.participant_name {
                            Some(name) => attributed_text(name, content),
                            None => content,
                        },
                    ),
                )
            },
            None => None,
        },
        _ => None,
    }
}

/// The messages that a participant is told, in order.
pub open spec fn told_messages(
    messages: Seq<ConversationMessageView>,
    current: Seq<char>,
) -> Seq<ChatMessageView>
    decreases messages.len(),
{
    if messages.len() == 0 {
        Seq::empty()
    } else {
        let earlier = told_messages(messages.drop_last(), current);
        match told_message(messages.last(), current) {
            Some(told) => earlier.push(told),
            None => earlier,
        }
    }
}

/// The prompt that a dialogue starts from, as the user's message, unless there is none or it is
/// empty.
pub open spec fn told_prompt(conversation: ConversationView) -> Seq<ChatMessageView> {
    match conversation.dialogue_config {
        Some(config) => if config.initial_prompt.len() == 0 {
            Seq::empty()
        } else {
            seq![text_message(ChatRole::User, config.initial_prompt)]
        },
        None => Seq::empty(),
    }
}

/// All that a participant is told of a conversation: the prompt, then the messages.
pub open spec fn told_conversation(
    conversation: ConversationView,
    current: Seq<char>,
) -> Seq<ChatMessageView> {
    told_prompt(conversation) + told_messages(conversation.messages, current)
}

/// Tells a participant one message.
fn tell_message(message: &ConversationMessage, current: &String) -> (told: Option<ChatMessage>)
    ensures
        match told {
            Some(said) => told_message(message@, current@) == Some(said@),
            None => told_message(message@, current@) is None,
        },
{
    if let MessageKind::Text(content) = &message.kind {
        if content.as_str().is_empty() {
            return None;
        }
        let role = match message.role {
            MessageRole::User => ChatRole::User,
            MessageRole::Assistant => {
                if let Some(name) = &message.metadata.participant_name {
                    if *name == *current {
                        ChatRole::Assistant
                    } else {
                        ChatRole::User
                    }
                } else {
                    ChatRole::Assistant
                }
            },
            MessageRole::Tool | MessageRole::Error => {
                return None;
            },
        };
        let text = if let Some(name) = &message.metadata.participant_name {
            attributed(name.as_str(), content.as_str())
        } else {
            content.clone()
        };
        Some(ChatMessage::text(role, text))
    } else {
        None
    }
}

/// Builds chat messages from a conversation for a dialogue participant.
pub fn tell_conversation(conversation: &Conversation, current: &str) -> (messages: Vec<ChatMessage>)
    ensures
        messages@.map_values(|message: ChatMessage| message@) == told_conversation(
            conversation@,
            current@,
        ),
{
    let mut messages: Vec<ChatMessage> = Vec::new();
    let current_name = current.to_string();
    let ghost viewed = |message: ChatMessage| message@;
    if let Some(config) = &conversation.dialogue_config {
        if !config.initial_prompt.as_str().is_empty() {
            messages.push(ChatMessage::text(ChatRole::User, config.initial_prompt.clone()));
        }
    }
    assert(messages@.map_values(viewed) =~= told_prompt(conversation@));
    assert(conversation@.messages.take(0) =~= Seq::empty());
    for i in 0..conversation.messages.len()
        invariant
            current_name@ == current@,
            viewed == (|message: ChatMessage| message@),
            messages@.map_values(viewed) =~= told_prompt(conversation@) + told_messages(
                conversation@.messages.take(i as int),
                current@,
            ),
    {
        let ghost before = messages@;
        let ghost taken = conversation@.messages.take(i + 1);
        assert(taken.drop_last() =~= conversation@.messages.take(i as int));
        assert(taken.last() == conversation.messages@[i as int]@);
        if let Some(told) = tell_message(&conversation.messages[i], &current_name) {
            messages.push(told);
            assert(messages@.map_values(viewed) =~= before.map_values(viewed).push(told@));
        }
    }
    assert(conversation@.messages.take(conversation.messages.len() as int)
        =~= conversation@.messages);
    messages
}

/// A message that is told to nobody, such as one without text, changes nothing of what a
/// participant is told.
pub proof fn law_untold_message_changes_nothing(
    conversation: ConversationView,
    message: ConversationMessageView,
    current: Seq<char>,
)
    requires
        told_message(message, current) is None,
    ensures
        told_conversation(conversation.message_pushed(message), current) == told_conversation(
            conversation,
            current,
        ),
{
    assert(conversation.messages.push(message).drop_last() =~= conversation.messages);
}

/// A participant finds its own messages under the assistant's role and everybody else's, the
/// user's among them, under the user's role, so that they are something to respond to.
pub proof fn law_others_speak_as_user(message: ConversationMessageView, current: Seq<char>)
    requires
        told_message(message, current) is Some,
        message.role == MessageRole::User || message.participant_name is Some,
    ensures
        told_message(message, current)->0.role == ChatRole::Assistant <==> {
            &&& message.role == MessageRole::Assistant
            &&& message.participant_name == Some(current)
        },
{
}

/// A message is told exactly if it is a text that is not empty and comes from the user or an
/// assistant. It is told as a text without reasoning: under the assistant's role if an assistant
/// wrote it for no participant or for the one that is told, else under the user's. The name of the
/// participant it comes from, if it has one, stands before the text in brackets.
pub proof fn law_message_is_told_if_it_says_something(
    message: ConversationMessageView,
    current: Seq<char>,
)
    ensures
        told_message(message, current) is Some <==> {
            &&& message.kind is Text
            &&& message.kind->Text_0.len() > 0
            &&& message.role == MessageRole::User || message.role == MessageRole::Assistant
        },
        told_message(message, current) matches Some(told) ==> {
            &&& told.message_type == MessageType::Text
            &&& told.reasoning_content is None
            &&& told.role == ChatRole::Assistant <==> message.role == MessageRole::Assistant && (
            message.participant_name is None || message.participant_name == Some(current))
            &&& told.content == match message.participant_name {
                Some(name) => "["@ + name + "] "@ + message.kind->Text_0,
                None => message.kind->Text_0,
            }
        },
{
}

/// One more message adds what it says, if it is told, at the end of what a participant is told,
/// and nothing else.
pub proof fn law_messages_are_told_one_by_one(
    messages: Seq<ConversationMessageView>,
    message: ConversationMessageView,
    current: Seq<char>,
)
    ensures
        told_messages(Seq::empty(), current).len() == 0,
        told_messages(messages.push(message), current) == match told_message(message, current) {
            Some(told) => told_messages(messages, current).push(told),
            None => told_messages(messages, current),
        },
{
    assert(messages.push(message).drop_last() =~= messages);
}

/// The messages that a participant is told are those texts, in order, that say something and come
/// from the user or an assistant. Which they are is `keep`, and what each becomes is `say`.
proof fn lemma_told_messages_are_those_kept(
    messages: Seq<ConversationMessageView>,
    current: Seq<char>,
    keep: spec_fn(ConversationMessageView) -> bool,
    say: spec_fn(ConversationMessageView) -> ChatMessageView,
)
    requires
        forall|m: ConversationMessageView| #[trigger]
            keep(m) <==> (told_message(m, current) is Some),
        forall|m: ConversationMessageView| #[trigger]
            say(m) == told_message(m, current)->0,
    ensures
        told_messages(messages, current) == messages.filter(keep).map_values(say),
    decreases messages.len(),
{
    reveal(Seq::filter);
    if messages.len() > 0 {
        let earlier = messages.drop_last();
        lemma_told_messages_are_those_kept(earlier, current, keep, say);
        assert(keep(messages.last()) <==> (told_message(messages.last(), current) is Some));
        if keep(messages.last()) {
            assert(earlier.filter(keep).push(messages.last()).map_values(say) =~= earlier.filter(
                keep,
            ).map_values(say).push(say(messages.last())));
        }
    } else {
        assert(messages.filter(keep).map_values(say) =~= Seq::empty());
    }
}

/// A prompt that is not empty is told first, as the user's, word for word, whatever the
/// conversation holds. After it, or from the start where there is none, comes one told message, in
/// order, for each text that is not empty and is the user's or an assistant's; so the length is the
/// number of those, and one more for the prompt. `keep` says which messages those are.
pub proof fn law_prompt_first_and_each_message_once(
    conversation: ConversationView,
    current: Seq<char>,
    keep: spec_fn(ConversationMessageView) -> bool,
)
    requires
        forall|m: ConversationMessageView| #[trigger]
            keep(m) <==> {
                &&& m.kind is Text
                &&& m.kind->Text_0.len() > 0
                &&& m.role == MessageRole::User || m.role == MessageRole::Assistant
            },
    ensures
        ({
            let told = told_conversation(conversation, current);
            let kept = conversation.messages.filter(keep);
            let prompted = conversation.dialogue_config is Some
                && conversation.dialogue_config->0.initial_prompt.len() > 0;
            let start: int = if prompted {
                1
            } else {
                0
            };
            &&& told.len() == start + kept.len()
            &&& prompted ==> {
                &&& told[0].role == ChatRole::User
                &&& told[0].message_type == MessageType::Text
                &&& told[0].content == conversation.dialogue_config->0.initial_prompt
                &&& told[0].reasoning_content is None
            }
            &&& forall|i: int|
                0 <= i < kept.len() ==> {
                    let said = #[trigger] told[start + i];
                    let message = kept[i];
                    &&& said.message_type == MessageType::Text
                    &&& said.reasoning_content is None
                    &&& said.role == ChatRole::Assistant <==> message.role == MessageRole::Assistant
                        && (message.participant_name is None || message.participant_name == Some(
                        current,
                    ))
                    &&& said.content == match message.participant_name {
                        Some(name) => "["@ + name + "] "@ + message.kind->Text_0,
                        None => message.kind->Text_0,
                    }
                }
        }),
{
    let told = told_conversation(conversation, current);
    let kept = conversation.messages.filter(keep);
    let say = |m: ConversationMessageView| told_message(m, current)->0;
    assert forall|m: ConversationMessageView| #[trigger] keep(m) <==> (told_message(
        m,
        current,
    ) is Some) by {
        law_message_is_told_if_it_says_something(m, current);
    }
    lemma_told_messages_are_those_kept(conversation.messages, current, keep, say);
    let start: int = told.len() - kept.len();
    assert forall|i: int| 0 <= i < kept.len() implies #[trigger] told[start + i]
        == told_message(kept[i], current)->0 && keep(kept[i]) by {
        assert(told[start + i] == told_messages(conversation.messages, current)[i]);
        lemma_kept_is_wanted(conversation.messages, keep, i);
    }
    assert forall|i: int| 0 <= i < kept.len() implies {
        let said = #[trigger] told[start + i];
        let message = kept[i];
        &&& said.message_type == MessageType::Text
        &&& said.reasoning_content is None
        &&& said.role == ChatRole::Assistant <==> message.role == MessageRole::Assistant && (
        message.participant_name is None || message.participant_name == Some(current))
        &&& said.content == match message.participant_name {
            Some(name) => "["@ + name + "] "@ + message.kind->Text_0,
            None => message.kind->Text_0,
        }
    } by {
        assert(told[start + i] == told_message(kept[i], current)->0 && keep(kept[i]));
        law_message_is_told_if_it_says_something(kept[i], current);
    }
}

/// What is kept of some messages is what was to be kept.
proof fn lemma_kept_is_wanted(
    messages: Seq<ConversationMessageView>,
    keep: spec_fn(ConversationMessageView) -> bool,
    i: int,
)
    requires
        0 <= i < messages.filter(keep).len(),
    ensures
        keep(messages.filter(keep)[i]),
    decreases messages.len(),
{
    reveal(Seq::filter);
    if messages.len() > 0 && i < messages.drop_last().filter(keep).len() {
        lemma_kept_is_wanted(messages.drop_last(), keep, i);
    }
}

} // verus!
