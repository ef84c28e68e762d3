use dialogue::app::{AppController, AppState, AppStatus, StreamRequest};
use dialogue::chat::{ChatMessage, ChatRole};
use dialogue::config::{DialogueConfig, DialogueMode, TurnMode};
use dialogue::controller::DialogueState;
use dialogue::conversation::{
    Conversation, ConversationId, ConversationMessage, ConversationStore, MessageId, MessageKind,
    MessageRole, MessageState,
};
use dialogue::events::{DialogueEvent, StopReason};
use dialogue::overlay::{
    DialogueBuilderResult, DialogueBuilderState, OverlayState, ParticipantDraft,
};
use dialogue::participant::{ParticipantColor, ParticipantId, ParticipantParams};
use dialogue::provider::{
    ProviderId, ProviderInstance, ProviderOverrides, ProviderRegistry, ProviderSelection,
};
use std::cell::RefCell;

type Asked = RefCell<Vec<(ProviderSelection, ProviderOverrides)>>;

fn ids(count: u128) -> Vec<ParticipantId> {
    (0..count).map(|value| ParticipantId { value }).collect()
}

fn app() -> AppController<String> {
    let mut other = Conversation::new(ConversationId { value: 100 });
    other.push_message(said(1, MessageRole::User, "elsewhere", None));
    let active = Conversation::new(ConversationId { value: 200 });
    AppController {
        state: AppState {
            overlay: OverlayState::Hidden,
            status: AppStatus::Streaming,
            notices: Vec::new(),
            provider_registry: ProviderRegistry {
                providers: vec![ProviderId::new("openai"), ProviderId::new("ollama")],
            },
            conversations: ConversationStore { conversations: vec![other, active], active: Some(1) },
            dialogue_controller: None,
        },
    }
}

fn said(id: u128, role: MessageRole, text: &str, name: Option<&str>) -> ConversationMessage {
    let mut message = ConversationMessage::new(
        MessageId { value: id },
        role,
        MessageKind::Text(text.to_string()),
    );
    message.metadata.participant_name = name.map(|n| n.to_string());
    message
}

fn speak(selection: &ProviderSelection) -> Option<ProviderInstance<String, u8>> {
    let model = selection.model.clone().unwrap();
    if model == "broken" {
        None
    } else {
        let provider = format!("{}/{}", selection.provider_id.value, model);
        Some(ProviderInstance { provider, capabilities: 8 })
    }
}

fn start(app: &mut AppController<String>, names: Vec<&str>) -> (bool, Asked) {
    let asked: Asked = RefCell::new(Vec::new());
    let started = app.start_dialogue(names, &ids(5), |s: &ProviderSelection, o: ProviderOverrides| {
        let answer = speak(s);
        asked.borrow_mut().push((
            ProviderSelection {
                provider_id: ProviderId::new(&s.provider_id.value),
                model: s.model.clone(),
            },
            o,
        ));
        answer
    });
    (started, asked)
}

fn advance(app: &mut AppController<String>) -> Option<StreamRequest<String, u8>> {
    app.continue_dialogue(MessageId { value: 9 }, |s: &ProviderSelection, _: ProviderOverrides| {
        speak(s)
    })
}

fn error(message: &str) -> AppStatus {
    AppStatus::Error(message.to_string())
}

fn told(role: ChatRole, content: &str) -> ChatMessage {
    ChatMessage::text(role, content.to_string())
}

#[test]
fn the_builder_opens_fresh() {
    let mut app = app();
    assert!(app.open_dialogue_builder());
    assert_eq!(app.state.overlay, OverlayState::DialogueBuilder(DialogueBuilderState::new()));
    assert_eq!(
        DialogueBuilderState::new(),
        DialogueBuilderState {
            mode: DialogueMode::FreeForm,
            initial_prompt: String::new(),
            participants: Vec::new(),
        }
    );
}

#[test]
fn starting_needs_two_participants() {
    let mut app = app();
    let (started, asked) = start(&mut app, vec!["openai:gpt"]);
    assert!(!started);
    assert_eq!(asked.borrow().len(), 0);
    assert_eq!(
        app.state.status,
        error("Multi-LLM dialogue requires at least 2 participants")
    );
    assert!(!app.is_dialogue_active());
}

#[test]
fn starting_refuses_a_malformed_participant() {
    let mut app = app();
    let (started, asked) = start(&mut app, vec!["openai:gpt", "nonsense", "openai:broken"]);
    assert!(!started);
    assert_eq!(asked.borrow().len(), 1);
    assert_eq!(
        app.state.status,
        error("Invalid participant format: nonsense. Use provider:model")
    );
    assert!(app.state.notices.is_empty());
    assert!(app.dialogue_controller().is_none());
    assert_eq!(app.state.conversations.conversations[1].participants.len(), 0);
}

#[test]
fn starting_refuses_a_provider_that_cannot_be_made() {
    let mut app = app();
    let (started, asked) = start(&mut app, vec!["openai:gpt", "openai:broken", "nonsense"]);
    assert!(!started);
    assert_eq!(asked.borrow().len(), 2);
    assert_eq!(app.state.status, error("Failed to create provider for openai:broken"));
}

#[test]
fn starting_sets_up_dialogue_and_conversation() {
    let mut app = app();
    let (started, asked) = start(&mut app, vec!["openai:gpt", "ollama:llama3:8b"]);
    assert!(started);
    let wanted = asked.into_inner();
    assert_eq!(wanted.len(), 2);
    assert_eq!(wanted[1].0.provider_id, ProviderId::new("ollama"));
    assert_eq!(wanted[1].0.model, Some("llama3:8b".to_string()));
    assert_eq!(wanted[1].1, ProviderOverrides::default());
    assert_eq!(app.state.status, AppStatus::Idle);
    assert_eq!(
        app.state.notices,
        vec!["Dialogue started with 2 participants. Type /continue to begin or send a message."
            .to_string()]
    );
    let controller = app.dialogue_controller().unwrap();
    assert_eq!(controller.state(), DialogueState::Idle);
    let speakers = controller.participants();
    assert_eq!(speakers.len(), 2);
    assert_eq!(speakers[1].provider, "ollama/llama3:8b");
    assert_eq!(speakers[1].config.id, ParticipantId { value: 1 });
    assert_eq!(speakers[1].config.color, ParticipantColor::Magenta);
    let conversation = &app.state.conversations.conversations[1];
    assert_eq!(conversation.dialogue_mode, Some(DialogueMode::FreeForm));
    assert_eq!(
        conversation.dialogue_config,
        Some(DialogueConfig {
            mode: DialogueMode::FreeForm,
            initial_prompt: String::new(),
            turn_mode: TurnMode::RoundRobin,
        })
    );
    assert_eq!(conversation.participants.len(), 2);
    assert_eq!(conversation.participants[0], speakers[0].config);
    assert_eq!(conversation.participants[1], speakers[1].config);
    let other = &app.state.conversations.conversations[0];
    assert_eq!(other.messages.len(), 1);
    assert_eq!(other.participants.len(), 0);
}

fn draft(model: &str) -> ParticipantDraft {
    ParticipantDraft {
        provider_id: "openai".to_string(),
        model_id: model.to_string(),
        display_name: format!("The {}", model),
        system_prompt: Some("Be brief.".to_string()),
        color: ParticipantColor::Yellow,
    }
}

fn build(app: &mut AppController<String>, models: &[&str]) -> bool {
    let result = DialogueBuilderResult {
        mode: DialogueMode::Debate,
        initial_prompt: "Tea or coffee?".to_string(),
        participants: models.iter().map(|m| draft(m)).collect(),
    };
    app.start_dialogue_from_builder(
        result,
        &ids(3),
        |s: &ProviderSelection, _: ProviderOverrides| speak(s),
    )
}

#[test]
fn building_needs_two_participants() {
    let mut app = app();
    assert!(!build(&mut app, &["gpt"]));
    assert_eq!(
        app.state.status,
        error("Multi-LLM dialogue requires at least 2 participants")
    );
}

#[test]
fn building_refuses_a_provider_that_cannot_be_made() {
    let mut app = app();
    assert!(!build(&mut app, &["gpt", "broken"]));
    assert_eq!(app.state.status, error("Failed to create provider for openai:broken"));
    assert!(!app.is_dialogue_active());
}

#[test]
fn building_keeps_what_was_chosen() {
    let mut app = app();
    assert!(build(&mut app, &["gpt", "mini"]));
    let controller = app.dialogue_controller().unwrap();
    assert_eq!(controller.config().mode, DialogueMode::Debate);
    assert_eq!(controller.config().initial_prompt, "Tea or coffee?");
    assert_eq!(controller.config().turn_mode, TurnMode::RoundRobin);
    let second = &controller.participants()[1].config;
    assert_eq!(second.display_name, "The mini");
    assert_eq!(second.system_prompt, Some("Be brief.".to_string()));
    assert_eq!(second.params, ParticipantParams::default());
    assert_eq!(second.params.max_tokens, None);
    assert_eq!(second.color, ParticipantColor::Yellow);
    assert!(second.active);
    assert_eq!(controller.active_participant_count(), 2);
    assert_eq!(controller.next_participant().unwrap().config.display_name, "The gpt");
    assert_eq!(
        app.state.conversations.conversations[1].dialogue_mode,
        Some(DialogueMode::Debate)
    );
}

fn invite(app: &mut AppController<String>, name: &str) -> bool {
    app.invite_dialogue_participant(
        name,
        ParticipantId { value: 50 },
        |s: &ProviderSelection, _: ProviderOverrides| speak(s),
    )
}

#[test]
fn inviting_is_refused_for_its_reasons() {
    let mut app = app();
    assert!(!invite(&mut app, "openai:mini"));
    assert_eq!(app.state.status, error("No active dialogue"));
    start(&mut app, vec!["openai:gpt", "ollama:llama"]);
    assert!(!invite(&mut app, "mini"));
    assert_eq!(
        app.state.status,
        error("Invalid participant format: mini. Use provider:model")
    );
    assert!(!invite(&mut app, "acme:mini"));
    assert_eq!(app.state.status, error("Unknown provider: acme"));
    assert!(!invite(&mut app, "openai:broken"));
    assert_eq!(app.state.status, error("Failed to create provider for openai:broken"));
    assert_eq!(app.dialogue_controller().unwrap().participants().len(), 2);
}

#[test]
fn inviting_adds_to_dialogue_and_conversation() {
    let mut app = app();
    start(&mut app, vec!["openai:gpt", "ollama:llama"]);
    let mut receiver = app.dialogue_controller_mut().unwrap().create_event_channel();
    assert!(invite(&mut app, "openai:mini"));
    let third = &app.dialogue_controller().unwrap().participants()[2];
    assert_eq!(third.provider, "openai/mini");
    assert_eq!(third.config.color, ParticipantColor::Green);
    assert_eq!(app.state.conversations.conversations[1].participants[2], third.config);
    assert_eq!(app.state.notices[1], "Invited openai:mini to dialogue");
    assert_eq!(app.state.status, AppStatus::Idle);
    assert_eq!(
        receiver.try_recv().unwrap(),
        DialogueEvent::ParticipantJoined {
            participant_id: ParticipantId { value: 50 },
            participant_name: "openai:mini".to_string(),
        }
    );
}

#[test]
fn kicking_goes_by_name() {
    let mut app = app();
    assert!(!app.kick_dialogue_participant("openai:gpt"));
    assert_eq!(app.state.status, error("No active dialogue"));
    start(&mut app, vec!["openai:gpt", "ollama:llama"]);
    assert!(!app.kick_dialogue_participant("gpt"));
    assert_eq!(app.state.status, error("Participant 'gpt' not found"));
    assert!(app.kick_dialogue_participant("OpenAI:GPT"));
    assert_eq!(app.state.notices[1], "Kicked openai:gpt from dialogue");
    let controller = app.dialogue_controller().unwrap();
    assert!(!controller.participants()[0].config.active);
    assert!(controller.participants()[1].config.active);
    assert_eq!(controller.state(), DialogueState::Idle);
    let conversation = &app.state.conversations.conversations[1];
    assert!(!conversation.participants[0].active);
    assert!(conversation.participants[1].active);
    assert!(app.kick_dialogue_participant("ollama:llama"));
    assert_eq!(app.dialogue_controller().unwrap().state(), DialogueState::Stopped);
}

#[test]
fn stopping_clears_and_tells() {
    let mut app = app();
    assert!(app.stop_dialogue().is_none());
    assert_eq!(app.state.status, error("No active dialogue"));
    start(&mut app, vec!["openai:gpt", "ollama:llama"]);
    assert!(app.is_dialogue_active());
    let mut receiver = app.dialogue_controller_mut().unwrap().create_event_channel();
    let stopped = app.stop_dialogue().unwrap();
    assert_eq!(stopped.state(), DialogueState::Stopped);
    assert_eq!(
        receiver.try_recv().unwrap(),
        DialogueEvent::Stopped { reason: StopReason::UserRequested }
    );
    assert!(!app.is_dialogue_active());
    assert!(app.dialogue_controller_mut().is_none());
    assert_eq!(app.state.status, AppStatus::Idle);
    assert_eq!(app.state.notices[1], "Dialogue stopped");
    let conversation = &app.state.conversations.conversations[1];
    assert_eq!(conversation.dialogue_mode, None);
    assert_eq!(conversation.dialogue_config, None);
    assert_eq!(conversation.participants.len(), 0);
}

#[test]
fn continuing_is_refused_for_its_reasons() {
    let mut app = app();
    assert!(advance(&mut app).is_none());
    assert_eq!(app.state.status, error("No active dialogue"));
    start(&mut app, vec!["openai:gpt", "ollama:llama"]);
    let refused: Option<StreamRequest<String, u8>> = app.continue_dialogue(
        MessageId { value: 9 },
        |_: &ProviderSelection, _: ProviderOverrides| None,
    );
    assert!(refused.is_none());
    assert_eq!(app.state.status, error("Failed to create provider for openai:gpt"));
    app.kick_dialogue_participant("openai:gpt");
    app.kick_dialogue_participant("ollama:llama");
    assert!(advance(&mut app).is_none());
    assert_eq!(app.state.status, error("No active participants"));
    assert_eq!(app.state.conversations.conversations[1].messages.len(), 0);
}

#[test]
fn continuing_without_a_conversation_does_nothing() {
    let mut app = app();
    start(&mut app, vec!["openai:gpt", "ollama:llama"]);
    for active in [None, Some(2)] {
        app.state.conversations.active = active;
        assert!(advance(&mut app).is_none());
        assert_eq!(app.state.status, AppStatus::Idle);
        assert_eq!(app.state.notices.len(), 1);
    }
}

#[test]
fn continuing_asks_with_the_system_prompt() {
    let mut app = app();
    build(&mut app, &["gpt", "mini"]);
    let asked: RefCell<Option<ProviderOverrides>> = RefCell::new(None);
    let request = app.continue_dialogue(
        MessageId { value: 9 },
        |s: &ProviderSelection, o: ProviderOverrides| {
            *asked.borrow_mut() = Some(o);
            speak(s)
        },
    );
    assert_eq!(
        asked.into_inner(),
        Some(ProviderOverrides { system: Some("Be brief.".to_string()) })
    );
    let request = request.unwrap();
    assert_eq!(request.messages, vec![told(ChatRole::User, "Tea or coffee?")]);
    assert_eq!(request.provider, "openai/gpt");
    assert_eq!(request.capabilities, 8);
    assert_eq!(request.conversation_id, ConversationId { value: 200 });
    assert_eq!(request.message_id, MessageId { value: 9 });
}

#[test]
fn continuing_leaves_a_placeholder() {
    let mut app = app();
    start(&mut app, vec!["openai:gpt", "ollama:llama"]);
    app.dialogue_controller_mut().unwrap().advance_turn();
    let request = advance(&mut app).unwrap();
    assert_eq!(request.provider, "ollama/llama");
    assert_eq!(request.messages, vec![]);
    assert_eq!(app.state.status, AppStatus::Streaming);
    assert_eq!(app.state.notices[1], "ollama:llama is responding...");
    let messages = &app.state.conversations.conversations[1].messages;
    assert_eq!(messages.len(), 1);
    assert_eq!(messages[0].id, MessageId { value: 9 });
    assert_eq!(messages[0].role, MessageRole::Assistant);
    assert_eq!(messages[0].kind, MessageKind::Text(String::new()));
    assert_eq!(messages[0].state, MessageState::Streaming);
    assert_eq!(messages[0].metadata.participant_name, Some("ollama:llama".to_string()));
    assert_eq!(messages[0].metadata.participant_color, Some(ParticipantColor::Magenta));
    assert_eq!(app.state.conversations.conversations[0].messages.len(), 1);
}

#[test]
fn placeholders_go_only_to_the_conversation_meant() {
    let mut app = app();
    let id = app.append_dialogue_placeholder(
        MessageId { value: 4 },
        ConversationId { value: 100 },
        "Ann",
        ParticipantColor::Red,
    );
    assert_eq!(id, MessageId { value: 4 });
    assert_eq!(app.state.conversations.conversations[0].messages.len(), 1);
    assert_eq!(app.state.conversations.conversations[1].messages.len(), 0);
}

#[test]
fn others_are_told_as_the_user() {
    let app = app();
    let mut conversation = Conversation::new(ConversationId { value: 1 });
    conversation.push_message(said(1, MessageRole::User, "Hi all", None));
    conversation.push_message(said(2, MessageRole::Assistant, "I am Ann", Some("Ann")));
    conversation.push_message(said(3, MessageRole::Assistant, "I am Bob", Some("Bob")));
    conversation.push_message(said(4, MessageRole::Assistant, "Who am I?", None));
    conversation.push_message(said(5, MessageRole::User, "As Eve", Some("Eve")));
    conversation.push_message(said(6, MessageRole::Tool, "tool", None));
    conversation.push_message(said(7, MessageRole::Error, "oops", Some("Ann")));
    conversation.push_message(said(8, MessageRole::Assistant, "", Some("Ann")));
    conversation.push_message(ConversationMessage::new(
        MessageId { value: 10 },
        MessageRole::Assistant,
        MessageKind::ToolCall("run".to_string()),
    ));
    conversation.push_message(ConversationMessage::new(
        MessageId { value: 11 },
        MessageRole::Assistant,
        MessageKind::ToolResult("ran".to_string()),
    ));
    assert_eq!(
        app.build_dialogue_messages(&conversation, "Ann"),
        vec![
            told(ChatRole::User, "Hi all"),
            told(ChatRole::Assistant, "[Ann] I am Ann"),
            told(ChatRole::User, "[Bob] I am Bob"),
            told(ChatRole::Assistant, "Who am I?"),
            told(ChatRole::User, "[Eve] As Eve"),
        ]
    );
    assert_eq!(app.build_dialogue_messages(&conversation, "ann").len(), 5);
    assert_eq!(
        app.build_dialogue_messages(&conversation, "ann")[1],
        told(ChatRole::User, "[Ann] I am Ann")
    );
}

#[test]
fn an_empty_prompt_is_not_told() {
    let app = app();
    let mut conversation = Conversation::new(ConversationId { value: 1 });
    let config = DialogueConfig {
        mode: DialogueMode::Critique,
        initial_prompt: String::new(),
        turn_mode: TurnMode::Free,
    };
    conversation.start_dialogue(DialogueMode::Critique, config, Vec::new());
    assert_eq!(app.build_dialogue_messages(&conversation, "Ann"), vec![]);
}
