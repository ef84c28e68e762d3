use dialogue::chat::{ChatMessage, ChatRole, MessageType, Usage};
use dialogue::clock::Timestamp;
use dialogue::config::{DialogueConfig, DialogueMode, TurnMode};
use dialogue::controller::{DialogueController, DialogueState};
use dialogue::events::{DialogueEvent, StopReason};
use dialogue::participant::{DialogueParticipant, ParticipantColor, ParticipantId, ParticipantParams};
use tokio::sync::mpsc::UnboundedReceiver;

fn id(value: u128) -> ParticipantId {
    ParticipantId { value }
}

fn participant(value: u128, name: &str) -> DialogueParticipant {
    DialogueParticipant {
        id: id(value),
        provider_id: "openai".to_string(),
        model_id: "gpt".to_string(),
        display_name: name.to_string(),
        system_prompt: None,
        params: ParticipantParams::default(),
        color: ParticipantColor::Green,
        active: true,
    }
}

fn config(prompt: &str) -> DialogueConfig {
    DialogueConfig {
        mode: DialogueMode::FreeForm,
        initial_prompt: prompt.to_string(),
        turn_mode: TurnMode::RoundRobin,
    }
}

fn table(names: &[&str]) -> DialogueController<u32> {
    let mut controller = DialogueController::new(config(""));
    for (i, name) in names.iter().enumerate() {
        controller.add_participant(participant(i as u128, name), i as u32);
    }
    controller
}

fn heard(receiver: &mut UnboundedReceiver<DialogueEvent>) -> Vec<DialogueEvent> {
    let mut events = Vec::new();
    while let Ok(event) = receiver.try_recv() {
        events.push(event);
    }
    events
}

fn next_name(controller: &DialogueController<u32>) -> Option<String> {
    controller.next_participant().map(|p| p.config.display_name.clone())
}

fn usage() -> Usage {
    Usage {
        prompt_tokens: 3,
        completion_tokens: 4,
        total_tokens: 7,
        completion_tokens_details: None,
        prompt_tokens_details: None,
    }
}

#[test]
fn new_controller_is_idle_and_empty() {
    let controller: DialogueController<u32> = DialogueController::new(config("Hello"));
    assert_eq!(controller.state(), DialogueState::Idle);
    assert_eq!(controller.state(), DialogueState::default());
    assert_eq!(controller.config(), &config("Hello"));
    assert_eq!(controller.participants().len(), 0);
    assert_eq!(controller.history().len(), 0);
    assert_eq!(controller.active_participant_count(), 0);
    assert!(controller.next_participant().is_none());
    assert_eq!(TurnMode::default(), TurnMode::RoundRobin);
}

#[test]
fn adding_returns_the_id_and_tells_listeners() {
    let mut controller: DialogueController<u32> = DialogueController::new(config(""));
    let mut receiver = controller.create_event_channel();
    assert_eq!(controller.add_participant(participant(9, "Ann"), 5), id(9));
    assert_eq!(
        heard(&mut receiver),
        vec![DialogueEvent::ParticipantJoined {
            participant_id: id(9),
            participant_name: "Ann".to_string(),
        }]
    );
    assert_eq!(controller.get_participant(id(9)).unwrap().provider, 5);
    assert_eq!(controller.get_participant_by_index(0).unwrap().config, participant(9, "Ann"));
    assert!(controller.get_participant_by_index(1).is_none());
    assert!(controller.get_participant(id(8)).is_none());
}

#[test]
fn events_go_to_the_sender_that_was_set_last() {
    let mut controller: DialogueController<u32> = DialogueController::new(config(""));
    let mut first = controller.create_event_channel();
    let (sender, mut second) = tokio::sync::mpsc::unbounded_channel();
    controller.set_event_sender(sender);
    controller.stop(StopReason::UserRequested);
    assert_eq!(heard(&mut first), vec![]);
    assert_eq!(
        heard(&mut second),
        vec![DialogueEvent::Stopped { reason: StopReason::UserRequested }]
    );
}

#[test]
fn events_without_a_listener_are_dropped() {
    let mut controller = table(&["Ann", "Bob"]);
    let receiver = controller.create_event_channel();
    drop(receiver);
    controller.inject_user_message("anyone?".to_string());
    assert_eq!(controller.drain_user_messages(), vec!["anyone?".to_string()]);
}

#[test]
fn removing_keeps_the_turn_in_range() {
    let mut controller = table(&["Ann", "Bob", "Cid"]);
    controller.advance_turn();
    controller.advance_turn();
    assert_eq!(next_name(&controller), Some("Cid".to_string()));
    assert!(controller.remove_participant(id(2)));
    assert_eq!(next_name(&controller), Some("Ann".to_string()));
    controller.advance_turn();
    assert!(controller.remove_participant(id(0)));
    assert_eq!(next_name(&controller), Some("Bob".to_string()));
    assert!(!controller.remove_participant(id(0)));
    assert_eq!(controller.state(), DialogueState::Idle);
}

#[test]
fn removing_the_last_active_participant_stops_the_dialogue() {
    let mut controller = table(&["Ann", "Bob"]);
    controller.kick_participant(id(1));
    let mut receiver = controller.create_event_channel();
    assert!(controller.remove_participant(id(0)));
    assert_eq!(controller.state(), DialogueState::Stopped);
    assert_eq!(
        heard(&mut receiver),
        vec![
            DialogueEvent::ParticipantLeft { participant_id: id(0) },
            DialogueEvent::Stopped { reason: StopReason::AllParticipantsLeft },
        ]
    );
    assert!(controller.remove_participant(id(1)));
    assert_eq!(controller.participants().len(), 0);
    controller.advance_turn();
    assert!(controller.next_participant().is_none());
    controller.add_participant(participant(7, "Dan"), 7);
    assert_eq!(next_name(&controller), Some("Dan".to_string()));
}

#[test]
fn removing_before_the_current_seat_keeps_the_turn() {
    let mut controller = table(&["Ann", "Bob", "Cid"]);
    controller.advance_turn();
    assert_eq!(next_name(&controller), Some("Bob".to_string()));
    assert!(controller.remove_participant(id(0)));
    assert_eq!(next_name(&controller), Some("Bob".to_string()));
    controller.advance_turn();
    assert_eq!(next_name(&controller), Some("Cid".to_string()));
}

#[test]
fn removing_does_not_bring_a_turn_back() {
    let mut controller = table(&["Ann", "Bob", "Cid"]);
    controller.advance_turn();
    controller.advance_turn();
    assert_eq!(next_name(&controller), Some("Cid".to_string()));
    assert!(controller.remove_participant(id(0)));
    assert_eq!(next_name(&controller), Some("Cid".to_string()));
    controller.advance_turn();
    assert_eq!(next_name(&controller), Some("Bob".to_string()));
}

#[test]
fn removing_after_the_current_seat_keeps_the_turn() {
    let mut controller = table(&["Ann", "Bob", "Cid"]);
    controller.advance_turn();
    assert!(controller.remove_participant(id(2)));
    assert_eq!(next_name(&controller), Some("Bob".to_string()));
}

#[test]
fn removing_whoever_has_the_turn_passes_it_on() {
    let mut controller = table(&["Ann", "Bob", "Cid"]);
    controller.kick_participant(id(0));
    assert_eq!(next_name(&controller), Some("Bob".to_string()));
    assert!(controller.remove_participant(id(1)));
    assert_eq!(next_name(&controller), Some("Cid".to_string()));
}

#[test]
fn kicking_deactivates_and_inviting_restores() {
    let mut controller = table(&["Ann", "Bob"]);
    controller.record_turn(id(1), "hi".to_string(), None);
    let mut receiver = controller.create_event_channel();
    assert!(controller.kick_participant(id(1)));
    assert_eq!(controller.active_participant_count(), 1);
    assert_eq!(controller.participants().len(), 2);
    assert_eq!(controller.history().len(), 1);
    assert!(!controller.get_participant(id(1)).unwrap().config.active);
    assert_eq!(controller.state(), DialogueState::Idle);
    assert!(controller.invite_participant(id(1)));
    assert_eq!(controller.participants()[1].config, participant(1, "Bob"));
    assert_eq!(
        heard(&mut receiver),
        vec![
            DialogueEvent::ParticipantLeft { participant_id: id(1) },
            DialogueEvent::ParticipantJoined {
                participant_id: id(1),
                participant_name: "Bob".to_string(),
            },
        ]
    );
    assert!(!controller.kick_participant(id(5)));
    assert!(!controller.invite_participant(id(5)));
    assert_eq!(heard(&mut receiver), vec![]);
}

#[test]
fn kicking_everybody_stops_the_dialogue() {
    let mut controller = table(&["Ann", "Bob"]);
    controller.start();
    controller.kick_participant(id(0));
    assert_eq!(controller.state(), DialogueState::WaitingNext);
    controller.kick_participant(id(1));
    assert_eq!(controller.state(), DialogueState::Stopped);
    assert!(controller.next_participant().is_none());
    controller.invite_participant(id(1));
    assert_eq!(controller.state(), DialogueState::Stopped);
    assert_eq!(next_name(&controller), Some("Bob".to_string()));
}

#[test]
fn starting_queues_the_prompt() {
    let mut controller: DialogueController<u32> = DialogueController::new(config("Begin!"));
    let mut receiver = controller.create_event_channel();
    controller.start();
    assert_eq!(controller.state(), DialogueState::Idle);
    controller.add_participant(participant(0, "Ann"), 0);
    controller.start();
    assert_eq!(controller.state(), DialogueState::WaitingNext);
    assert_eq!(controller.drain_user_messages(), vec!["Begin!".to_string()]);
    assert_eq!(controller.drain_user_messages(), Vec::<String>::new());
    let events = heard(&mut receiver);
    assert_eq!(events.len(), 2);
    assert_eq!(events[1], DialogueEvent::Started);
}

#[test]
fn starting_without_a_prompt_queues_nothing() {
    let mut controller = table(&["Ann"]);
    controller.start();
    assert_eq!(controller.drain_user_messages(), Vec::<String>::new());
}

#[test]
fn pausing_holds_only_a_waiting_dialogue() {
    let mut controller = table(&["Ann"]);
    controller.pause();
    assert_eq!(controller.state(), DialogueState::Idle);
    controller.resume();
    assert_eq!(controller.state(), DialogueState::Idle);
    controller.start();
    controller.pause();
    assert_eq!(controller.state(), DialogueState::Paused);
    controller.pause();
    assert_eq!(controller.state(), DialogueState::Paused);
    controller.resume();
    assert_eq!(controller.state(), DialogueState::WaitingNext);
    controller.set_state(DialogueState::Streaming);
    controller.pause();
    assert_eq!(controller.state(), DialogueState::Streaming);
}

#[test]
fn turns_go_round_the_table() {
    let mut controller = table(&["Ann", "Bob", "Cid"]);
    let mut spoken = Vec::new();
    for _ in 0..7 {
        spoken.push(next_name(&controller).unwrap());
        controller.advance_turn();
    }
    assert_eq!(spoken, vec!["Ann", "Bob", "Cid", "Ann", "Bob", "Cid", "Ann"]);
}

#[test]
fn turns_skip_the_inactive() {
    let mut controller = table(&["Ann", "Bob", "Cid", "Dan"]);
    controller.kick_participant(id(1));
    controller.kick_participant(id(2));
    let mut spoken = Vec::new();
    for _ in 0..4 {
        spoken.push(next_name(&controller).unwrap());
        controller.advance_turn();
    }
    assert_eq!(spoken, vec!["Ann", "Dan", "Ann", "Dan"]);
}

#[test]
fn nobody_speaks_twice_running_when_the_current_seat_was_kicked() {
    let mut controller = table(&["Ann", "Bob", "Cid"]);
    controller.kick_participant(id(0));
    let mut spoken = Vec::new();
    for _ in 0..4 {
        spoken.push(next_name(&controller).unwrap());
        controller.advance_turn();
    }
    assert_eq!(spoken, vec!["Bob", "Cid", "Bob", "Cid"]);
}

#[test]
fn nobody_speaks_twice_running_across_the_end_of_the_table() {
    let mut controller = table(&["Ann", "Bob", "Cid", "Dan"]);
    for _ in 0..3 {
        controller.advance_turn();
    }
    controller.kick_participant(id(3));
    controller.kick_participant(id(0));
    assert_eq!(next_name(&controller), Some("Bob".to_string()));
    controller.advance_turn();
    assert_eq!(next_name(&controller), Some("Cid".to_string()));
    controller.advance_turn();
    assert_eq!(next_name(&controller), Some("Bob".to_string()));
}

#[test]
fn a_new_channel_takes_over_from_the_earlier_one() {
    let mut controller = table(&["Ann", "Bob"]);
    let mut first = controller.create_event_channel();
    controller.inject_user_message("one".to_string());
    let mut second = controller.create_event_channel();
    controller.inject_user_message("two".to_string());
    controller.inject_user_message("three".to_string());
    assert_eq!(
        heard(&mut first),
        vec![DialogueEvent::UserMessage { content: "one".to_string() }]
    );
    assert_eq!(
        heard(&mut second),
        vec![
            DialogueEvent::UserMessage { content: "two".to_string() },
            DialogueEvent::UserMessage { content: "three".to_string() },
        ]
    );
    assert_eq!(controller.participants().len(), 2);
}

#[test]
fn a_lone_participant_keeps_the_turn() {
    let mut controller = table(&["Ann", "Bob"]);
    controller.kick_participant(id(0));
    assert_eq!(next_name(&controller), Some("Bob".to_string()));
    controller.advance_turn();
    assert_eq!(next_name(&controller), Some("Bob".to_string()));
    controller.advance_turn();
    assert_eq!(next_name(&controller), Some("Bob".to_string()));
}

#[test]
fn turns_move_on_by_one_where_nobody_is_active() {
    let mut controller = table(&["Ann", "Bob", "Cid"]);
    for i in 0..3 {
        controller.kick_participant(id(i));
    }
    controller.advance_turn();
    assert!(controller.next_participant().is_none());
    assert_eq!(
        controller.debug_text(),
        "DialogueController { participants: 3, state: Stopped, current_index: 1, history_len: 0 }"
    );
}

#[test]
fn recording_keeps_and_tells_the_turn() {
    let mut controller = table(&["Ann"]);
    let mut receiver = controller.create_event_channel();
    let before = chrono::Utc::now().timestamp();
    controller.record_turn(id(0), "Hello".to_string(), Some(usage()));
    let after = chrono::Utc::now().timestamp();
    let turn = &controller.history()[0];
    assert_eq!(turn.participant_id, id(0));
    assert_eq!(turn.content, "Hello");
    assert_eq!(turn.usage, Some(usage()));
    assert!(before <= turn.timestamp.seconds && turn.timestamp.seconds <= after);
    assert!(turn.timestamp.nanoseconds < 1_000_000_000);
    assert_eq!(
        heard(&mut receiver),
        vec![DialogueEvent::TurnCompleted {
            participant_id: id(0),
            content: "Hello".to_string(),
            usage: Some(usage()),
        }]
    );
}

#[test]
fn recording_at_a_time_keeps_that_time() {
    let mut controller = table(&["Ann"]);
    let noon = Timestamp { seconds: 43_200, nanoseconds: 5 };
    controller.record_turn_at(id(0), "Hello".to_string(), noon, None);
    assert_eq!(controller.history()[0].timestamp, noon);
    assert_eq!(controller.history()[0].clone(), controller.history()[0]);
}

#[test]
fn injected_messages_are_drained_in_order() {
    let mut controller = table(&["Ann"]);
    let mut receiver = controller.create_event_channel();
    controller.inject_user_message("one".to_string());
    controller.inject_user_message("two".to_string());
    assert_eq!(
        heard(&mut receiver),
        vec![
            DialogueEvent::UserMessage { content: "one".to_string() },
            DialogueEvent::UserMessage { content: "two".to_string() },
        ]
    );
    assert_eq!(controller.drain_user_messages(), vec!["one".to_string(), "two".to_string()]);
    assert_eq!(controller.drain_user_messages(), Vec::<String>::new());
}

fn message(role: ChatRole, content: &str) -> ChatMessage {
    ChatMessage {
        role,
        message_type: MessageType::Text,
        content: content.to_string(),
        reasoning_content: None,
    }
}

#[test]
fn context_tells_turns_then_queued_messages() {
    let mut controller = table(&["Ann", "Bob"]);
    controller.record_turn(id(0), "I am Ann".to_string(), None);
    controller.record_turn(id(1), "I am Bob".to_string(), None);
    controller.record_turn(id(9), "I left".to_string(), None);
    controller.inject_user_message("Go on".to_string());
    let bob = controller.get_participant(id(1)).unwrap();
    assert_eq!(
        controller.build_context_messages(bob),
        vec![
            message(ChatRole::User, "[Ann] I am Ann"),
            message(ChatRole::Assistant, "[Bob] I am Bob"),
            message(ChatRole::User, "[Unknown] I left"),
            message(ChatRole::User, "Go on"),
        ]
    );
}

#[test]
fn names_are_found_in_any_ascii_case() {
    let controller = table(&["Ann", "Zoë"]);
    assert_eq!(controller.find_participant_by_name("aNN").unwrap().config.id, id(0));
    assert_eq!(controller.find_participant_by_name("zOë").unwrap().config.id, id(1));
    assert!(controller.find_participant_by_name("ZOË").is_none());
    assert!(controller.find_participant_by_name("An").is_none());
    assert!(controller.find_participant_by_name("").is_none());
}

#[test]
fn the_first_of_equal_ids_or_names_is_found() {
    let mut controller = table(&["Ann", "Bob"]);
    controller.add_participant(participant(0, "ANN"), 77);
    assert_eq!(controller.get_participant(id(0)).unwrap().provider, 0);
    assert_eq!(controller.find_participant_by_name("ANN").unwrap().provider, 0);
    assert!(controller.remove_participant(id(0)));
    assert_eq!(controller.get_participant(id(0)).unwrap().provider, 77);
}

#[test]
fn debug_text_counts() {
    let mut controller = table(&["Ann", "Bob"]);
    assert_eq!(
        controller.debug_text(),
        "DialogueController { participants: 2, state: Idle, current_index: 0, history_len: 0 }"
    );
    for _ in 0..12 {
        controller.record_turn(id(0), String::new(), None);
    }
    controller.start();
    controller.advance_turn();
    assert_eq!(
        controller.debug_text(),
        "DialogueController { participants: 2, state: WaitingNext, current_index: 1, history_len: 12 }"
    );
}
