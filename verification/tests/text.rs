use dialogue::participant::{DialogueParticipant, ParticipantColor, ParticipantId, ParticipantParams};
use dialogue::text::{attributed, characters, decimal, eq_ignore_ascii_case};
use dialogue::turn_order::next_seat;

#[test]
fn decimals_match_the_standard_library() {
    for number in [0usize, 7, 9, 10, 42, 99, 100, 1234567890, usize::MAX] {
        assert_eq!(decimal(number), number.to_string());
    }
}

#[test]
fn attribution_puts_the_name_in_brackets() {
    assert_eq!(attributed("Ann", "Hello"), "[Ann] Hello");
    assert_eq!(attributed("", ""), "[] ");
}

#[test]
fn case_folding_matches_the_standard_library() {
    let texts = ["", "a", "A", "[", "{", "@", "`", "Zoë", "zoë", "ZOË", "abc", "aBC", "ab", "Kelvin"];
    for a in texts {
        for b in texts {
            assert_eq!(eq_ignore_ascii_case(a, b), a.eq_ignore_ascii_case(b));
        }
    }
}

#[test]
fn characters_are_unicode_scalars() {
    assert_eq!(characters("aë→"), vec!['a', 'ë', '→']);
}

#[test]
fn seats_go_round() {
    assert_eq!(next_seat(0, 3), 1);
    assert_eq!(next_seat(2, 3), 0);
    assert_eq!(next_seat(0, 1), 0);
}

fn read(designation: &str, index: usize) -> Option<DialogueParticipant> {
    DialogueParticipant::from_provider_model(designation, index, ParticipantId { value: 3 })
}

#[test]
fn designations_name_a_provider_and_a_model() {
    let participant = read("ollama:llama3:8b", 7).unwrap();
    assert_eq!(
        participant,
        DialogueParticipant {
            id: ParticipantId { value: 3 },
            provider_id: "ollama".to_string(),
            model_id: "llama3:8b".to_string(),
            display_name: "ollama:llama3:8b".to_string(),
            system_prompt: None,
            params: ParticipantParams::default(),
            color: ParticipantColor::Magenta,
            active: true,
        }
    );
    assert_eq!(participant.clone(), participant);
    assert_eq!(read("é:m", 0).unwrap().provider_id, "é");
}

#[test]
fn designations_without_both_names_are_refused() {
    for designation in ["", ":", "openai", "openai:", ":gpt", "::"] {
        assert!(read(designation, 0).is_none());
    }
}

#[test]
fn colors_repeat() {
    assert_eq!(ParticipantColor::from_index(0), ParticipantColor::Cyan);
    assert_eq!(ParticipantColor::from_index(5), ParticipantColor::Red);
    assert_eq!(ParticipantColor::from_index(6), ParticipantColor::Cyan);
}
