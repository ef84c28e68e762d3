//! What the contracts see of a value is what the value holds, field by field and item by item.

use vstd::prelude::*;

use crate::app::{AppController, AppStatus, AppStatusView, StreamRequest};
use crate::chat::ChatMessage;
use crate::config::DialogueConfig;
use crate::controller::DialogueTurn;
use crate::conversation::{
    Conversation, ConversationMessage, ConversationStore, MessageKind, MessageKindView,
};
use crate::events::{DialogueEvent, DialogueEventView};
use crate::overlay::{
    DialogueBuilderResult, DialogueBuilderState, OverlayState, OverlayView, ParticipantDraft,
};
use crate::participant::{ActiveParticipant, DialogueParticipant};
use crate::provider::{ProviderId, ProviderOverrides, ProviderRegistry, ProviderSelection};

verus! {

/// A participant is seen with everything that it holds.
pub proof fn law_participant_is_seen_whole<P>(
    participant: DialogueParticipant,
    active: ActiveParticipant<P>,
)
    ensures
        participant@.id == participant.id,
        participant@.provider_id == participant.provider_id@,
        participant@.model_id == participant.model_id@,
        participant@.display_name == participant.display_name@,
        match participant.system_prompt {
            Some(prompt) => participant@.system_prompt == Some(prompt@),
            None => participant@.system_prompt is None,
        },
        participant@.params == participant.params,
        participant@.color == participant.color,
        participant@.active == participant.active,
        active@.config == active.config@,
        active@.provider == active.provider,
{
}

/// A dialogue's setup and its turns are seen with everything that they hold.
pub proof fn law_config_and_turn_are_seen_whole(config: DialogueConfig, turn: DialogueTurn)
    ensures
        config@.mode == config.mode,
        config@.initial_prompt == config.initial_prompt@,
        config@.turn_mode == config.turn_mode,
        turn@.participant_id == turn.participant_id,
        turn@.content == turn.content@,
        turn@.timestamp == turn.timestamp,
        turn@.usage == turn.usage,
{
}

/// A chat message is seen with everything that it holds.
pub proof fn law_chat_message_is_seen_whole(message: ChatMessage)
    ensures
        message@.role == message.role,
        message@.message_type == message.message_type,
        message@.content == message.content@,
        match message.reasoning_content {
            Some(reasoning) => message@.reasoning_content == Some(reasoning@),
            None => message@.reasoning_content is None,
        },
{
}

/// An event is seen as what it is, with everything that it holds.
pub proof fn law_event_is_seen_whole(event: DialogueEvent)
    ensures
        match event {
            DialogueEvent::Started => event@ == DialogueEventView::Started,
            DialogueEvent::Stopped { reason } => event@ == (DialogueEventView::Stopped { reason }),
            DialogueEvent::ParticipantJoined { participant_id, participant_name } => event@ == (
            DialogueEventView::ParticipantJoined {
                participant_id,
                participant_name: participant_name@,
            }),
            DialogueEvent::ParticipantLeft { participant_id } => event@ == (
            DialogueEventView::ParticipantLeft { participant_id }),
            DialogueEvent::UserMessage { content } => event@ == (DialogueEventView::UserMessage {
                content: content@,
            }),
            DialogueEvent::TurnCompleted { participant_id, content, usage } => event@ == (
            DialogueEventView::TurnCompleted { participant_id, content: content@, usage }),
        },
{
}

/// A message of a conversation is seen with everything that it holds.
pub proof fn law_conversation_message_is_seen_whole(message: ConversationMessage)
    ensures
        message@.id == message.id,
        message@.role == message.role,
        match message.kind {
            MessageKind::Text(text) => message@.kind == MessageKindView::Text(text@),
            MessageKind::ToolCall(text) => message@.kind == MessageKindView::ToolCall(text@),
            MessageKind::ToolResult(text) => message@.kind == MessageKindView::ToolResult(text@),
        },
        message@.state == message.state,
        match message.metadata.participant_name {
            Some(name) => message@.participant_name == Some(name@),
            None => message@.participant_name is None,
        },
        message@.participant_color == message.metadata.participant_color,
{
}

/// A conversation is seen with all its messages and participants, in order.
pub proof fn law_conversation_is_seen_whole(conversation: Conversation)
    ensures
        conversation@.id == conversation.id,
        conversation@.messages.len() == conversation.messages@.len(),
        forall|i: int|
            0 <= i < conversation.messages@.len() ==> #[trigger] conversation@.messages[i]
                == conversation.messages@[i]@,
        conversation@.dialogue_mode == conversation.dialogue_mode,
        match conversation.dialogue_config {
            Some(config) => conversation@.dialogue_config == Some(config@),
            None => conversation@.dialogue_config is None,
        },
        conversation@.participants.len() == conversation.participants@.len(),
        forall|i: int|
            0 <= i < conversation.participants@.len() ==> #[trigger] conversation@.participants[i]
                == conversation.participants@[i]@,
{
}

/// The open conversations are seen in order, with the one that is active.
pub proof fn law_conversations_are_seen_whole(store: ConversationStore)
    ensures
        store@.conversations.len() == store.conversations@.len(),
        forall|i: int|
            0 <= i < store.conversations@.len() ==> #[trigger] store@.conversations[i]
                == store.conversations@[i]@,
        forall|i: int|
            store@.active == Some(i) <==> (0 <= i < store.conversations@.len()
                && store.active is Some && store.active->0 == i),
        store@.well_formed(),
{
}

/// A builder and what came of it are seen with all drafts, in order and whole.
pub proof fn law_builder_is_seen_whole(
    draft: ParticipantDraft,
    builder: DialogueBuilderState,
    result: DialogueBuilderResult,
)
    ensures
        draft@.provider_id == draft.provider_id@,
        draft@.model_id == draft.model_id@,
        draft@.display_name == draft.display_name@,
        match draft.system_prompt {
            Some(prompt) => draft@.system_prompt == Some(prompt@),
            None => draft@.system_prompt is None,
        },
        draft@.color == draft.color,
        builder@.mode == builder.mode,
        builder@.initial_prompt == builder.initial_prompt@,
        builder@.participants.len() == builder.participants@.len(),
        forall|i: int|
            0 <= i < builder.participants@.len() ==> #[trigger] builder@.participants[i]
                == builder.participants@[i]@,
        result@.mode == result.mode,
        result@.initial_prompt == result.initial_prompt@,
        result@.participants.len() == result.participants@.len(),
        forall|i: int|
            0 <= i < result.participants@.len() ==> #[trigger] result@.participants[i]
                == result.participants@[i]@,
{
}

/// What is asked of a provider is seen whole, and the known providers in order.
pub proof fn law_provider_requests_are_seen_whole(
    id: ProviderId,
    selection: ProviderSelection,
    overrides: ProviderOverrides,
    registry: ProviderRegistry,
)
    ensures
        id@ == id.value@,
        selection@.provider_id == selection.provider_id.value@,
        match selection.model {
            Some(model) => selection@.model == Some(model@),
            None => selection@.model is None,
        },
        match overrides.system {
            Some(system) => overrides@.system == Some(system@),
            None => overrides@.system is None,
        },
        registry@.len() == registry.providers@.len(),
        forall|i: int|
            0 <= i < registry.providers@.len() ==> #[trigger] registry@[i]
                == registry.providers@[i].value@,
{
}

/// A stream request is seen with everything that it holds, its messages in order.
pub proof fn law_stream_request_is_seen_whole<P, C>(request: StreamRequest<P, C>)
    ensures
        request@.conversation_id == request.conversation_id,
        request@.message_id == request.message_id,
        request@.provider == request.provider,
        request@.messages.len() == request.messages@.len(),
        forall|i: int|
            0 <= i < request.messages@.len() ==> #[trigger] request@.messages[i]
                == request.messages@[i]@,
        request@.capabilities == request.capabilities,
{
}

/// The application is seen with everything that its state holds.
pub proof fn law_application_is_seen_whole<P>(app: AppController<P>)
    ensures
        match app.state.overlay {
            OverlayState::Hidden => app@.overlay == OverlayView::Hidden,
            OverlayState::DialogueBuilder(builder) => app@.overlay == OverlayView::DialogueBuilder(
                builder@,
            ),
        },
        match app.state.status {
            AppStatus::Idle => app@.status == AppStatusView::Idle,
            AppStatus::Streaming => app@.status == AppStatusView::Streaming,
            AppStatus::Error(message) => app@.status == AppStatusView::Error(message@),
        },
        app@.notices.len() == app.state.notices@.len(),
        forall|i: int|
            0 <= i < app.state.notices@.len() ==> #[trigger] app@.notices[i]
                == app.state.notices@[i]@,
        app@.providers == app.state.provider_registry@,
        app@.conversations == app.state.conversations@,
        match app.state.dialogue_controller {
            Some(controller) => app@.dialogue == Some(controller@),
            None => app@.dialogue is None,
        },
{
}

} // verus!
