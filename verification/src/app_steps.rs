//! What each request about a dialogue does to the application: when it succeeds, which parts of the
//! state change, and into what.

use vstd::prelude::*;

use crate::app::{
    are_answers, asked, designated_participants, drafted_participants, is_answer, placeholder,
    seated, setup, setup_from, AppStatusView, AppView, Setup,
};
use crate::app_laws::law_placeholder_is_not_told;
use crate::config::{DialogueConfigView, DialogueMode, TurnMode};
use crate::controller::DialogueState;
use crate::conversation::{
    law_conversation_puts_out_the_first, ConversationId, MessageId, MessageRole, MessageState,
};
use crate::dialogue_steps::{
    law_newcomer_sits_last, law_next_turn_is_of_the_nearest_active, law_putting_out_deactivates_one,
};
use crate::events::DialogueEventView;
use crate::messages::told_conversation;
use crate::overlay::DialogueBuilderView;
use crate::participant::{
    color_at, designated, law_designation_is_provider_colon_model, lemma_position_of_name,
    position_of_name, ActiveParticipantView,
    DialogueParticipantView, ParticipantColor, ParticipantId,
};
use crate::provider::{
    selection_of, ProviderInstance, ProviderOverrides, ProviderSelection, ProviderSelectionView,
};
use crate::text::{decimal_text, same_ignoring_ascii_case};

verus! {

/// A dialogue that is held has its current index at a participant, or at nought where it has none.
pub proof fn law_held_dialogue_is_well_formed<P>(app: AppView<P>)
    ensures
        app.well_formed() <==> match app.dialogue {
            Some(d) => 0 <= d.current_index && (d.current_index < d.participants.len() || (
            d.participants.len() == 0 && d.current_index == 0)),
            None => true,
        },
{
}

/// The first participant that cannot be named, or has no provider, ends the setup; it is ready
/// exactly if there is no such participant.
pub proof fn law_setup_ends_at_the_first_failure<P, C>(
    entries: Seq<Option<DialogueParticipantView>>,
    outcomes: Seq<Option<ProviderInstance<P, C>>>,
)
    ensures
        match setup(entries, outcomes) {
            Setup::Malformed(place) => {
                &&& 0 <= place < entries.len()
                &&& entries[place] is None
                &&& forall|j: int|
                    0 <= j < place ==> (#[trigger] entries[j]) is Some && outcomes[j] is Some
            },
            Setup::Unbuilt(place) => {
                &&& 0 <= place < entries.len()
                &&& entries[place] is Some
                &&& outcomes[place] is None
                &&& forall|j: int|
                    0 <= j < place ==> (#[trigger] entries[j]) is Some && outcomes[j] is Some
            },
            Setup::Ready => forall|j: int|
                0 <= j < entries.len() ==> (#[trigger] entries[j]) is Some && outcomes[j] is Some,
        },
        asked(entries, outcomes) == match setup(entries, outcomes) {
            Setup::Malformed(place) => place,
            Setup::Unbuilt(place) => place + 1,
            Setup::Ready => entries.len() as int,
        },
{
    lemma_setup_from_ends_at_the_first_failure(entries, outcomes, 0);
}

proof fn lemma_setup_from_ends_at_the_first_failure<P, C>(
    entries: Seq<Option<DialogueParticipantView>>,
    outcomes: Seq<Option<ProviderInstance<P, C>>>,
    position: int,
)
    requires
        0 <= position <= entries.len(),
    ensures
        match setup_from(entries, outcomes, position) {
            Setup::Malformed(place) => {
                &&& position <= place < entries.len()
                &&& entries[place] is None
                &&& forall|j: int|
                    position <= j < place ==> (#[trigger] entries[j]) is Some && outcomes[j] is Some
            },
            Setup::Unbuilt(place) => {
                &&& position <= place < entries.len()
                &&& entries[place] is Some
                &&& outcomes[place] is None
                &&& forall|j: int|
                    position <= j < place ==> (#[trigger] entries[j]) is Some && outcomes[j] is Some
            },
            Setup::Ready => forall|j: int|
                position <= j < entries.len() ==> (#[trigger] entries[j]) is Some
                    && outcomes[j] is Some,
        },
    decreases entries.len() - position,
{
    if position < entries.len() && entries[position] is Some && outcomes[position] is Some {
        lemma_setup_from_ends_at_the_first_failure(entries, outcomes, position + 1);
    }
}

/// An answer is what the maker of providers gave when it was asked for the provider and the model
/// that are wanted, with the prompt that is wanted.
pub proof fn law_answer_is_what_was_given<
    P,
    C,
    F: Fn(&ProviderSelection, ProviderOverrides) -> Option<ProviderInstance<P, C>>,
>(
    build: F,
    selection: ProviderSelectionView,
    system: Option<Seq<char>>,
    outcome: Option<ProviderInstance<P, C>>,
)
    requires
        is_answer(build, selection, system, outcome),
    ensures
        exists|s: ProviderSelection, o: ProviderOverrides|
            {
                &&& s.provider_id.value@ == selection.provider_id
                &&& match s.model {
                    Some(model) => selection.model == Some(model@),
                    None => selection.model is None,
                }
                &&& match o.system {
                    Some(prompt) => system == Some(prompt@),
                    None => system is None,
                }
                &&& #[trigger] call_ensures(build, (&s, o), outcome)
            },
{
}

/// The answers are as many as participants were asked for. Each is what the maker of providers gave
/// when it was asked, without a prompt, for the provider and the model of the participant at the
/// same place.
pub proof fn law_answers_belong_to_their_participants<
    P,
    C,
    F: Fn(&ProviderSelection, ProviderOverrides) -> Option<ProviderInstance<P, C>>,
>(
    build: F,
    entries: Seq<Option<DialogueParticipantView>>,
    outcomes: Seq<Option<ProviderInstance<P, C>>>,
    i: int,
)
    requires
        are_answers(build, entries, outcomes),
    ensures
        outcomes.len() == match setup(entries, outcomes) {
            Setup::Malformed(place) => place,
            Setup::Unbuilt(place) => place + 1,
            Setup::Ready => entries.len() as int,
        },
        0 <= i < outcomes.len() ==> entries[i] is Some && exists|
            s: ProviderSelection,
            o: ProviderOverrides,
        |
            {
                &&& s.provider_id.value@ == entries[i]->0.provider_id
                &&& s.model is Some
                &&& s.model->0@ == entries[i]->0.model_id
                &&& o.system is None
                &&& #[trigger] call_ensures(build, (&s, o), outcomes[i])
            },
{
    law_setup_ends_at_the_first_failure(entries, outcomes);
    if 0 <= i < outcomes.len() {
        assert(entries[i] is Some);
        assert(is_answer(build, selection_of(entries[i]->0), None, outcomes[i]));
        let (s, o) = choose|s: ProviderSelection, o: ProviderOverrides|
            {
                &&& s@ == selection_of(entries[i]->0)
                &&& o@.system is None
                &&& #[trigger] call_ensures(build, (&s, o), outcomes[i])
            };
        assert(call_ensures(build, (&s, o), outcomes[i]));
    }
}

/// A dialogue that begins has exactly the participants it is given, each at its place with its own
/// provider. It is idle, the first seat has the turn, nothing was said in it and nobody listens.
/// The active conversation lists the same participants, is set up as the dialogue is, and keeps its
/// messages. The user is told how many take part.
pub proof fn law_dialogue_begins_with_who_is_given<P>(
    app: AppView<P>,
    config: DialogueConfigView,
    participants: Seq<ActiveParticipantView<P>>,
)
    requires
        app.conversations.well_formed(),
    ensures
        ({
            let after = app.dialogue_begun(config, participants);
            let dialogue = after.dialogue->0;
            &&& after.dialogue is Some
            &&& dialogue.participants.len() == participants.len()
            &&& forall|i: int|
                0 <= i < participants.len() ==> {
                    &&& (#[trigger] dialogue.participants[i]).config == participants[i].config
                    &&& dialogue.participants[i].provider == participants[i].provider
                }
            &&& dialogue.config == config
            &&& dialogue.current_index == 0
            &&& dialogue.state == DialogueState::Idle
            &&& dialogue.queue.len() == 0
            &&& dialogue.history.len() == 0
            &&& dialogue.listener is None
            &&& after.status == AppStatusView::Idle
            &&& after.overlay == app.overlay
            &&& after.providers == app.providers
            &&& after.notices.len() == app.notices.len() + 1
            &&& forall|i: int|
                0 <= i < app.notices.len() ==> #[trigger] after.notices[i] == app.notices[i]
            &&& after.notices.last() == "Dialogue started with "@ + decimal_text(participants.len())
                + " participants. Type /continue to begin or send a message."@
            &&& after.conversations.active == app.conversations.active
            &&& after.conversations.conversations.len() == app.conversations.conversations.len()
            &&& forall|i: int|
                0 <= i < app.conversations.conversations.len() && app.conversations.active != Some(i)
                    ==> #[trigger] after.conversations.conversations[i]
                    == app.conversations.conversations[i]
            &&& app.conversations.active matches Some(place) ==> {
                let before = app.conversations.conversations[place];
                let now = after.conversations.conversations[place];
                &&& now.id == before.id
                &&& now.messages == before.messages
                &&& now.dialogue_mode == Some(config.mode)
                &&& now.dialogue_config is Some
                &&& now.dialogue_config->0.mode == config.mode
                &&& now.dialogue_config->0.initial_prompt == config.initial_prompt
                &&& now.dialogue_config->0.turn_mode == config.turn_mode
                &&& now.participants.len() == participants.len()
                &&& forall|i: int|
                    0 <= i < participants.len() ==> #[trigger] now.participants[i]
                        == dialogue.participants[i].config
            }
        }),
{
}

/// A dialogue that is asked for by designations starts exactly if at least two are given, each
/// names a provider and a model, and for each a provider was made.
pub proof fn law_start_succeeds_when<P, C>(
    app: AppView<P>,
    designations: Seq<Seq<char>>,
    ids: Seq<ParticipantId>,
    outcomes: Seq<Option<ProviderInstance<P, C>>>,
)
    ensures
        app.dialogue_started(designations, ids, outcomes).1 <==> designations.len() >= 2 && (
        forall|i: int|
            0 <= i < designations.len() ==> designated(#[trigger] designations[i]) is Some
                && outcomes[i] is Some),
{
    let entries = designated_participants(designations, ids);
    law_setup_ends_at_the_first_failure(entries, outcomes);
    assert forall|i: int| 0 <= i < designations.len() implies (designated(
        #[trigger] designations[i],
    ) is Some <==> entries[i] is Some) by {}
    if setup(entries, outcomes) is Ready {
        assert forall|i: int| 0 <= i < designations.len() implies designated(
            #[trigger] designations[i],
        ) is Some && outcomes[i] is Some by {
            assert(entries[i] is Some);
        }
    } else {
        match setup(entries, outcomes) {
            Setup::Malformed(place) => {
                assert(designated(designations[place]) is None);
            },
            Setup::Unbuilt(place) => {
                assert(designated(designations[place]) is Some);
            },
            Setup::Ready => {},
        }
    }
}

/// The participants of a dialogue that was asked for by designations are those that the
/// designations stand for, in the order asked for. Each has the identifier at its place, the
/// provider and the model that its designation names, no prompt, no parameters of its own, the
/// colour of its place, and takes turns; what speaks for it is the answer for that very
/// participant.
/// The dialogue is free, without a prompt, and goes round.
pub proof fn law_started_participants_have_their_own_providers<P, C>(
    app: AppView<P>,
    designations: Seq<Seq<char>>,
    ids: Seq<ParticipantId>,
    outcomes: Seq<Option<ProviderInstance<P, C>>>,
)
    requires
        app.dialogue_started(designations, ids, outcomes).1,
    ensures
        ({
            let after = app.dialogue_started(designations, ids, outcomes).0;
            let dialogue = after.dialogue->0;
            &&& after.dialogue is Some
            &&& dialogue.participants.len() == designations.len()
            &&& forall|i: int|
                0 <= i < designations.len() ==> {
                    let participant = #[trigger] dialogue.participants[i];
                    &&& outcomes[i] is Some
                    &&& participant.provider == outcomes[i]->0.provider
                    &&& participant.config.id == ids[i]
                    &&& participant.config.display_name == designations[i]
                    &&& designations[i] == participant.config.provider_id + seq![':']
                        + participant.config.model_id
                    &&& !participant.config.provider_id.contains(':')
                    &&& participant.config.system_prompt is None
                    &&& participant.config.params.max_tokens is None
                    &&& participant.config.params.temperature_thousandths is None
                    &&& participant.config.color == color_at(i as nat)
                    &&& participant.config.active
                }
            &&& dialogue.config.mode == DialogueMode::FreeForm
            &&& dialogue.config.initial_prompt.len() == 0
            &&& dialogue.config.turn_mode == TurnMode::RoundRobin
            &&& dialogue.current_index == 0
            &&& dialogue.state == DialogueState::Idle
            &&& dialogue.queue.len() == 0
            &&& dialogue.history.len() == 0
            &&& dialogue.listener is None
        }),
{
    let entries = designated_participants(designations, ids);
    law_setup_ends_at_the_first_failure(entries, outcomes);
    let dialogue = app.dialogue_started(designations, ids, outcomes).0.dialogue->0;
    assert forall|i: int| 0 <= i < designations.len() implies {
        let participant = #[trigger] dialogue.participants[i];
        &&& outcomes[i] is Some
        &&& designated(designations[i]) == Some(
            (participant.config.provider_id, participant.config.model_id),
        )
        &&& designations[i] == participant.config.provider_id + seq![':']
            + participant.config.model_id
        &&& !participant.config.provider_id.contains(':')
    } by {
        assert(entries[i] is Some);
        law_designation_is_provider_colon_model(designations[i]);
    }
}

/// Starting by designations tells the user how many take part, sets the status back, and has the
/// active conversation list the dialogue's participants and its setup. Nothing else changes.
pub proof fn law_started_dialogue_is_in_the_conversation<P, C>(
    app: AppView<P>,
    designations: Seq<Seq<char>>,
    ids: Seq<ParticipantId>,
    outcomes: Seq<Option<ProviderInstance<P, C>>>,
)
    requires
        app.conversations.well_formed(),
        app.dialogue_started(designations, ids, outcomes).1,
    ensures
        ({
            let after = app.dialogue_started(designations, ids, outcomes).0;
            let dialogue = after.dialogue->0;
            &&& after.status == AppStatusView::Idle
            &&& after.overlay == app.overlay
            &&& after.providers == app.providers
            &&& after.notices.len() == app.notices.len() + 1
            &&& forall|i: int|
                0 <= i < app.notices.len() ==> #[trigger] after.notices[i] == app.notices[i]
            &&& after.notices.last() == "Dialogue started with "@ + decimal_text(designations.len())
                + " participants. Type /continue to begin or send a message."@
            &&& after.conversations.active == app.conversations.active
            &&& after.conversations.conversations.len() == app.conversations.conversations.len()
            &&& forall|i: int|
                0 <= i < app.conversations.conversations.len() && app.conversations.active != Some(i)
                    ==> #[trigger] after.conversations.conversations[i]
                    == app.conversations.conversations[i]
            &&& app.conversations.active matches Some(place) ==> {
                let before = app.conversations.conversations[place];
                let now = after.conversations.conversations[place];
                &&& now.id == before.id
                &&& now.messages == before.messages
                &&& now.dialogue_mode == Some(DialogueMode::FreeForm)
                &&& now.dialogue_config is Some
                &&& now.dialogue_config->0.mode == DialogueMode::FreeForm
                &&& now.dialogue_config->0.initial_prompt.len() == 0
                &&& now.dialogue_config->0.turn_mode == TurnMode::RoundRobin
                &&& now.participants.len() == designations.len()
                &&& forall|i: int|
                    0 <= i < designations.len() ==> #[trigger] now.participants[i]
                        == dialogue.participants[i].config
            }
        }),
{
    let entries = designated_participants(designations, ids);
    law_dialogue_begins_with_who_is_given(
        app,
        app.dialogue_started(designations, ids, outcomes).0.dialogue->0.config,
        seated(entries, outcomes),
    );
}

/// Fewer than two designations are refused with the reason, whatever they are.
pub proof fn law_fewer_than_two_are_refused<P, C>(
    app: AppView<P>,
    designations: Seq<Seq<char>>,
    builder: DialogueBuilderView,
    ids: Seq<ParticipantId>,
    outcomes: Seq<Option<ProviderInstance<P, C>>>,
)
    ensures
        designations.len() < 2 ==> {
            let (after, started) = app.dialogue_started(designations, ids, outcomes);
            &&& !started
            &&& after.status == AppStatusView::Error(
                "Multi-LLM dialogue requires at least 2 participants"@,
            )
            &&& after == (AppView { status: after.status, ..app })
        },
        builder.participants.len() < 2 ==> {
            let (after, started) = app.dialogue_built(builder, ids, outcomes);
            &&& !started
            &&& after.status == AppStatusView::Error(
                "Multi-LLM dialogue requires at least 2 participants"@,
            )
            &&& after == (AppView { status: after.status, ..app })
        },
{
}

/// Where all before a place have their providers, and the designation there names nobody or its
/// provider could not be made, starting is refused with that reason and that designation.
pub proof fn law_start_is_refused_for_the_first_failure<P, C>(
    app: AppView<P>,
    designations: Seq<Seq<char>>,
    ids: Seq<ParticipantId>,
    outcomes: Seq<Option<ProviderInstance<P, C>>>,
    place: int,
)
    requires
        designations.len() >= 2,
        0 <= place < designations.len(),
        forall|j: int|
            0 <= j < place ==> designated(#[trigger] designations[j]) is Some && outcomes[j] is Some,
        designated(designations[place]) is None || outcomes[place] is None,
    ensures
        ({
            let (after, started) = app.dialogue_started(designations, ids, outcomes);
            &&& !started
            &&& after.status == AppStatusView::Error(
                if designated(designations[place]) is None {
                    "Invalid participant format: "@ + designations[place]
                        + ". Use provider:model"@
                } else {
                    "Failed to create provider for "@ + designations[place]
                },
            )
            &&& after == (AppView { status: after.status, ..app })
        }),
{
    let entries = designated_participants(designations, ids);
    assert forall|j: int| 0 <= j < place implies (#[trigger] entries[j]) is Some
        && outcomes[j] is Some by {
        assert(designated(designations[j]) is Some);
    }
    law_setup_ends_at_the_first_failure(entries, outcomes);
    assert(designated(designations[place]) is Some <==> entries[place] is Some);
    match setup(entries, outcomes) {
        Setup::Malformed(found) => {
            if found < place {
                assert(entries[found] is Some);
            }
        },
        Setup::Unbuilt(found) => {
            if found < place {
                assert(entries[found] is Some);
            }
        },
        Setup::Ready => {
            assert(entries[place] is Some);
        },
    }
}

/// A dialogue that is asked for through the builder starts exactly if at least two participants are
/// drafted and for each a provider was made.
pub proof fn law_build_succeeds_when<P, C>(
    app: AppView<P>,
    builder: DialogueBuilderView,
    ids: Seq<ParticipantId>,
    outcomes: Seq<Option<ProviderInstance<P, C>>>,
)
    ensures
        app.dialogue_built(builder, ids, outcomes).1 <==> builder.participants.len() >= 2 && (
        forall|i: int|
            0 <= i < builder.participants.len() ==> (#[trigger] outcomes[i]) is Some),
{
    let entries = drafted_participants(builder, ids);
    law_setup_ends_at_the_first_failure(entries, outcomes);
    assert forall|i: int| 0 <= i < entries.len() implies (#[trigger] entries[i]) is Some by {}
    if setup(entries, outcomes) is Ready {
        assert forall|i: int| 0 <= i < builder.participants.len() implies (
        #[trigger] outcomes[i]) is Some by {
            assert(entries[i] is Some);
        }
    }
}

/// The participants of a dialogue that was asked for through the builder are those drafted, in
/// order, each with the identifier at its place; what speaks for one is the answer for that very
/// participant. The dialogue has the builder's mode and prompt, and goes round.
pub proof fn law_built_participants_have_their_own_providers<P, C>(
    app: AppView<P>,
    builder: DialogueBuilderView,
    ids: Seq<ParticipantId>,
    outcomes: Seq<Option<ProviderInstance<P, C>>>,
)
    requires
        app.dialogue_built(builder, ids, outcomes).1,
    ensures
        ({
            let after = app.dialogue_built(builder, ids, outcomes).0;
            let dialogue = after.dialogue->0;
            let drafts = builder.participants;
            &&& after.dialogue is Some
            &&& dialogue.participants.len() == drafts.len()
            &&& forall|i: int|
                0 <= i < drafts.len() ==> {
                    let participant = #[trigger] dialogue.participants[i];
                    &&& outcomes[i] is Some
                    &&& participant.provider == outcomes[i]->0.provider
                    &&& participant.config.id == ids[i]
                    &&& participant.config.provider_id == drafts[i].provider_id
                    &&& participant.config.model_id == drafts[i].model_id
                    &&& participant.config.display_name == drafts[i].display_name
                    &&& participant.config.system_prompt == drafts[i].system_prompt
                    &&& participant.config.params.max_tokens is None
                    &&& participant.config.params.temperature_thousandths is None
                    &&& participant.config.color == drafts[i].color
                    &&& participant.config.active
                }
            &&& dialogue.config.mode == builder.mode
            &&& dialogue.config.initial_prompt == builder.initial_prompt
            &&& dialogue.config.turn_mode == TurnMode::RoundRobin
            &&& dialogue.current_index == 0
            &&& dialogue.state == DialogueState::Idle
            &&& dialogue.queue.len() == 0
            &&& dialogue.history.len() == 0
            &&& dialogue.listener is None
        }),
{
    law_build_succeeds_when(app, builder, ids, outcomes);
}

/// Starting through the builder tells the user how many take part, sets the status back, and has
/// the active conversation list the dialogue's participants and its setup. Nothing else changes.
pub proof fn law_built_dialogue_is_in_the_conversation<P, C>(
    app: AppView<P>,
    builder: DialogueBuilderView,
    ids: Seq<ParticipantId>,
    outcomes: Seq<Option<ProviderInstance<P, C>>>,
)
    requires
        app.conversations.well_formed(),
        app.dialogue_built(builder, ids, outcomes).1,
    ensures
        ({
            let after = app.dialogue_built(builder, ids, outcomes).0;
            let dialogue = after.dialogue->0;
            &&& after.status == AppStatusView::Idle
            &&& after.overlay == app.overlay
            &&& after.providers == app.providers
            &&& after.notices.len() == app.notices.len() + 1
            &&& forall|i: int|
                0 <= i < app.notices.len() ==> #[trigger] after.notices[i] == app.notices[i]
            &&& after.notices.last() == "Dialogue started with "@ + decimal_text(
                builder.participants.len(),
            ) + " participants. Type /continue to begin or send a message."@
            &&& after.conversations.active == app.conversations.active
            &&& after.conversations.conversations.len() == app.conversations.conversations.len()
            &&& forall|i: int|
                0 <= i < app.conversations.conversations.len() && app.conversations.active != Some(i)
                    ==> #[trigger] after.conversations.conversations[i]
                    == app.conversations.conversations[i]
            &&& app.conversations.active matches Some(place) ==> {
                let before = app.conversations.conversations[place];
                let now = after.conversations.conversations[place];
                &&& now.id == before.id
                &&& now.messages == before.messages
                &&& now.dialogue_mode == Some(builder.mode)
                &&& now.dialogue_config is Some
                &&& now.dialogue_config->0.mode == builder.mode
                &&& now.dialogue_config->0.initial_prompt == builder.initial_prompt
                &&& now.dialogue_config->0.turn_mode == TurnMode::RoundRobin
                &&& now.participants.len() == builder.participants.len()
                &&& forall|i: int|
                    0 <= i < builder.participants.len() ==> #[trigger] now.participants[i]
                        == dialogue.participants[i].config
            }
        }),
{
    let entries = drafted_participants(builder, ids);
    law_dialogue_begins_with_who_is_given(
        app,
        app.dialogue_built(builder, ids, outcomes).0.dialogue->0.config,
        seated(entries, outcomes),
    );
}

/// Where all before a place have their providers and the one there could not be made, starting
/// through the builder is refused with the provider and the model of that draft.
pub proof fn law_build_is_refused_for_the_first_failure<P, C>(
    app: AppView<P>,
    builder: DialogueBuilderView,
    ids: Seq<ParticipantId>,
    outcomes: Seq<Option<ProviderInstance<P, C>>>,
    place: int,
)
    requires
        builder.participants.len() >= 2,
        0 <= place < builder.participants.len(),
        forall|j: int| 0 <= j < place ==> (#[trigger] outcomes[j]) is Some,
        outcomes[place] is None,
    ensures
        ({
            let (after, started) = app.dialogue_built(builder, ids, outcomes);
            &&& !started
            &&& after.status == AppStatusView::Error(
                "Failed to create provider for "@ + (builder.participants[place].provider_id + ":"@
                    + builder.participants[place].model_id),
            )
            &&& after == (AppView { status: after.status, ..app })
        }),
{
    let entries = drafted_participants(builder, ids);
    law_setup_ends_at_the_first_failure(entries, outcomes);
    assert forall|i: int| 0 <= i < entries.len() implies (#[trigger] entries[i]) is Some by {}
    assert(entries[place] is Some);
    if let Setup::Unbuilt(found) = setup(entries, outcomes) {
        if found < place {
            assert(outcomes[found] is Some);
        }
    }
}

/// What speaks for a participant of a dialogue that was asked for by designations is what the maker
/// of providers gave when it was asked for the provider and the model of that very participant.
pub proof fn law_started_participant_speaks_through_its_own_answer<
    P,
    C,
    F: Fn(&ProviderSelection, ProviderOverrides) -> Option<ProviderInstance<P, C>>,
>(
    app: AppView<P>,
    designations: Seq<Seq<char>>,
    ids: Seq<ParticipantId>,
    outcomes: Seq<Option<ProviderInstance<P, C>>>,
    build: F,
    i: int,
)
    requires
        app.dialogue_started(designations, ids, outcomes).1,
        are_answers(build, designated_participants(designations, ids), outcomes),
        0 <= i < designations.len(),
    ensures
        ({
            let after = app.dialogue_started(designations, ids, outcomes).0;
            let participant = after.dialogue->0.participants[i];
            exists|
                s: ProviderSelection,
                o: ProviderOverrides,
                instance: ProviderInstance<P, C>,
            |
                {
                    &&& #[trigger] call_ensures(build, (&s, o), Some(instance))
                    &&& s.provider_id.value@ == participant.config.provider_id
                    &&& s.model is Some
                    &&& s.model->0@ == participant.config.model_id
                    &&& o.system is None
                    &&& participant.provider == instance.provider
                }
        }),
{
    let entries = designated_participants(designations, ids);
    law_setup_ends_at_the_first_failure(entries, outcomes);
    assert(entries[i] is Some);
    law_answers_belong_to_their_participants(build, entries, outcomes, i);
    let (s, o) = choose|s: ProviderSelection, o: ProviderOverrides|
        {
            &&& s.provider_id.value@ == entries[i]->0.provider_id
            &&& s.model is Some
            &&& s.model->0@ == entries[i]->0.model_id
            &&& o.system is None
            &&& #[trigger] call_ensures(build, (&s, o), outcomes[i])
        };
    assert(outcomes[i] == Some(outcomes[i]->0));
    assert(call_ensures(build, (&s, o), Some(outcomes[i]->0)));
}

/// What speaks for a participant of a dialogue that was asked for through the builder is what the
/// maker of providers gave when it was asked for the provider and the model of that very
/// participant.
pub proof fn law_built_participant_speaks_through_its_own_answer<
    P,
    C,
    F: Fn(&ProviderSelection, ProviderOverrides) -> Option<ProviderInstance<P, C>>,
>(
    app: AppView<P>,
    builder: DialogueBuilderView,
    ids: Seq<ParticipantId>,
    outcomes: Seq<Option<ProviderInstance<P, C>>>,
    build: F,
    i: int,
)
    requires
        app.dialogue_built(builder, ids, outcomes).1,
        are_answers(build, drafted_participants(builder, ids), outcomes),
        0 <= i < builder.participants.len(),
    ensures
        ({
            let after = app.dialogue_built(builder, ids, outcomes).0;
            let participant = after.dialogue->0.participants[i];
            exists|
                s: ProviderSelection,
                o: ProviderOverrides,
                instance: ProviderInstance<P, C>,
            |
                {
                    &&& #[trigger] call_ensures(build, (&s, o), Some(instance))
                    &&& s.provider_id.value@ == participant.config.provider_id
                    &&& s.model is Some
                    &&& s.model->0@ == participant.config.model_id
                    &&& o.system is None
                    &&& participant.provider == instance.provider
                }
        }),
{
    let entries = drafted_participants(builder, ids);
    law_setup_ends_at_the_first_failure(entries, outcomes);
    law_build_succeeds_when(app, builder, ids, outcomes);
    assert(entries[i] is Some);
    law_answers_belong_to_their_participants(build, entries, outcomes, i);
    let (s, o) = choose|s: ProviderSelection, o: ProviderOverrides|
        {
            &&& s.provider_id.value@ == entries[i]->0.provider_id
            &&& s.model is Some
            &&& s.model->0@ == entries[i]->0.model_id
            &&& o.system is None
            &&& #[trigger] call_ensures(build, (&s, o), outcomes[i])
        };
    assert(outcomes[i] == Some(outcomes[i]->0));
    assert(call_ensures(build, (&s, o), Some(outcomes[i]->0)));
}

/// An invitation succeeds exactly if a dialogue is held, the designation names a provider and a
/// model, that provider is known, and what speaks for the participant could be made. Else it is
/// refused with the first of the reasons that holds.
pub proof fn law_invitation_succeeds_when<P, C>(
    app: AppView<P>,
    designation: Seq<char>,
    id: ParticipantId,
    outcome: Option<ProviderInstance<P, C>>,
)
    ensures
        ({
            let (after, invited) = app.participant_invited(designation, id, outcome);
            let named = designated(designation);
            &&& invited <==> app.dialogue is Some && named is Some && app.providers.contains(
                (named->0).0,
            ) && outcome is Some
            &&& !invited ==> {
                &&& after == (AppView { status: after.status, ..app })
                &&& after.status == AppStatusView::Error(
                    if app.dialogue is None {
                        "No active dialogue"@
                    } else if named is None {
                        "Invalid participant format: "@ + designation + ". Use provider:model"@
                    } else if !app.providers.contains((named->0).0) {
                        "Unknown provider: "@ + (named->0).0
                    } else {
                        "Failed to create provider for "@ + designation
                    },
                )
            }
        }),
{
}

/// Whoever is invited is named by the designation: its provider and model are the two parts, it
/// goes by the whole, has the identifier, no prompt, no parameters of its own and the colour of the
/// seat it gets, and takes turns.
pub proof fn law_invited_participant_is_as_designated<P>(
    app: AppView<P>,
    designation: Seq<char>,
    id: ParticipantId,
)
    ensures
        app.dialogue is None ==> app.invited_participant(designation, id) is None,
        app.dialogue is Some ==> (app.invited_participant(designation, id) is Some <==> designated(
            designation,
        ) is Some),
        app.invited_participant(designation, id) matches Some(participant) ==> {
            &&& designation == participant.provider_id + seq![':'] + participant.model_id
            &&& !participant.provider_id.contains(':')
            &&& participant.id == id
            &&& participant.display_name == designation
            &&& participant.system_prompt is None
            &&& participant.params.max_tokens is None
            &&& participant.params.temperature_thousandths is None
            &&& participant.color == color_at(app.dialogue->0.participants.len())
            &&& participant.active
        },
{
    if designated(designation) is Some {
        law_designation_is_provider_colon_model(designation);
    }
}

/// When a participant is admitted the dialogue has exactly one more, at the end: the one that is
/// given, as it is given, with the provider that is given. Everybody before it is unchanged. The
/// number of active participants grows by one if the newcomer is active. The listener is told who
/// joined, the active conversation lists the newcomer last, and the user is told. Nothing else
/// changes.
pub proof fn law_admission_adds_exactly_one<P>(
    app: AppView<P>,
    participant: DialogueParticipantView,
    provider: P,
)
    requires
        app.dialogue is Some,
        app.conversations.well_formed(),
    ensures
        ({
            let after = app.participant_admitted(participant, provider);
            let held = app.dialogue->0;
            let dialogue = after.dialogue->0;
            let count = held.participants.len() as int;
            let newcomer = dialogue.participants[count];
            &&& after.dialogue is Some
            &&& dialogue.participants.len() == count + 1
            &&& forall|i: int|
                0 <= i < count ==> #[trigger] dialogue.participants[i] == held.participants[i]
            &&& newcomer.config == participant
            &&& dialogue.active_count() == held.active_count() + if participant.active {
                1int
            } else {
                0
            }
            &&& newcomer.provider == provider
            &&& dialogue.config == held.config
            &&& dialogue.current_index == held.current_index
            &&& dialogue.state == held.state
            &&& dialogue.queue == held.queue
            &&& dialogue.history == held.history
            &&& match held.listener {
                Some(listener) => {
                    &&& dialogue.listener is Some
                    &&& dialogue.listener->0.channel == listener.channel
                    &&& dialogue.listener->0.sent == listener.sent.push(
                        DialogueEventView::ParticipantJoined {
                            participant_id: participant.id,
                            participant_name: participant.display_name,
                        },
                    )
                },
                None => dialogue.listener is None,
            }
            &&& after.overlay == app.overlay
            &&& after.status == app.status
            &&& after.providers == app.providers
            &&& after.notices.len() == app.notices.len() + 1
            &&& forall|i: int|
                0 <= i < app.notices.len() ==> #[trigger] after.notices[i] == app.notices[i]
            &&& after.notices.last() == "Invited "@ + participant.display_name + " to dialogue"@
            &&& after.conversations.active == app.conversations.active
            &&& after.conversations.conversations.len() == app.conversations.conversations.len()
            &&& forall|i: int|
                0 <= i < app.conversations.conversations.len() && app.conversations.active != Some(i)
                    ==> #[trigger] after.conversations.conversations[i]
                    == app.conversations.conversations[i]
            &&& app.conversations.active matches Some(place) ==> {
                let before = app.conversations.conversations[place];
                let now = after.conversations.conversations[place];
                &&& now.id == before.id
                &&& now.messages == before.messages
                &&& now.dialogue_mode == before.dialogue_mode
                &&& now.dialogue_config == before.dialogue_config
                &&& now.participants.len() == before.participants.len() + 1
                &&& forall|i: int|
                    0 <= i < before.participants.len() ==> #[trigger] now.participants[i]
                        == before.participants[i]
                &&& now.participants.last() == newcomer.config
            }
        }),
{
    law_newcomer_sits_last(app.dialogue->0, participant, provider);
}

/// When an invitation succeeds the dialogue has exactly one more participant, at the end. It is
/// active, goes by the designation, has the identifier and the provider that was made for it;
/// the number of active participants grew by one; and everybody before it is unchanged. The
/// listener is told who joined, the active conversation lists the newcomer last, and the user is
/// told. Nothing else changes.
pub proof fn law_invitation_adds_exactly_one_active<P, C>(
    app: AppView<P>,
    designation: Seq<char>,
    id: ParticipantId,
    outcome: Option<ProviderInstance<P, C>>,
)
    requires
        app.conversations.well_formed(),
        app.participant_invited(designation, id, outcome).1,
    ensures
        ({
            let after = app.participant_invited(designation, id, outcome).0;
            let held = app.dialogue->0;
            let dialogue = after.dialogue->0;
            let count = held.participants.len() as int;
            let newcomer = dialogue.participants[count];
            &&& after.dialogue is Some
            &&& dialogue.participants.len() == count + 1
            &&& forall|i: int|
                0 <= i < count ==> #[trigger] dialogue.participants[i] == held.participants[i]
            &&& newcomer.config.active
            &&& newcomer.config.display_name == designation
            &&& newcomer.config.id == id
            &&& designation == newcomer.config.provider_id + seq![':'] + newcomer.config.model_id
            &&& newcomer.config.system_prompt is None
            &&& newcomer.config.params.max_tokens is None
            &&& newcomer.config.params.temperature_thousandths is None
            &&& newcomer.config.color == color_at(count as nat)
            &&& dialogue.active_count() == held.active_count() + 1
            &&& outcome is Some
            &&& newcomer.provider == outcome->0.provider
            &&& dialogue.config == held.config
            &&& dialogue.current_index == held.current_index
            &&& dialogue.state == held.state
            &&& dialogue.queue == held.queue
            &&& dialogue.history == held.history
            &&& match held.listener {
                Some(listener) => {
                    &&& dialogue.listener is Some
                    &&& dialogue.listener->0.channel == listener.channel
                    &&& dialogue.listener->0.sent == listener.sent.push(
                        DialogueEventView::ParticipantJoined {
                            participant_id: id,
                            participant_name: designation,
                        },
                    )
                },
                None => dialogue.listener is None,
            }
            &&& after.overlay == app.overlay
            &&& after.status == app.status
            &&& after.providers == app.providers
            &&& after.notices.len() == app.notices.len() + 1
            &&& forall|i: int|
                0 <= i < app.notices.len() ==> #[trigger] after.notices[i] == app.notices[i]
            &&& after.notices.last() == "Invited "@ + designation + " to dialogue"@
            &&& after.conversations.active == app.conversations.active
            &&& after.conversations.conversations.len() == app.conversations.conversations.len()
            &&& forall|i: int|
                0 <= i < app.conversations.conversations.len() && app.conversations.active != Some(i)
                    ==> #[trigger] after.conversations.conversations[i]
                    == app.conversations.conversations[i]
            &&& app.conversations.active matches Some(place) ==> {
                let before = app.conversations.conversations[place];
                let now = after.conversations.conversations[place];
                &&& now.id == before.id
                &&& now.messages == before.messages
                &&& now.dialogue_mode == before.dialogue_mode
                &&& now.dialogue_config == before.dialogue_config
                &&& now.participants.len() == before.participants.len() + 1
                &&& forall|i: int|
                    0 <= i < before.participants.len() ==> #[trigger] now.participants[i]
                        == before.participants[i]
                &&& now.participants.last() == newcomer.config
            }
        }),
{
    let participant = app.invited_participant(designation, id)->0;
    law_invited_participant_is_as_designated(app, designation, id);
    law_admission_adds_exactly_one(app, participant, outcome->0.provider);
}

/// Putting out by name is refused, with the reason, if no dialogue is held or nobody goes by the
/// name, upper or lower case alike.
pub proof fn law_putting_out_is_refused_when<P>(app: AppView<P>, name: Seq<char>)
    ensures
        ({
            let (after, kicked) = app.participant_kicked(name);
            &&& kicked <==> app.dialogue is Some && exists|i: int|
                0 <= i < app.dialogue->0.participants.len() && same_ignoring_ascii_case(
                    (#[trigger] app.dialogue->0.participants[i]).config.display_name,
                    name,
                )
            &&& !kicked ==> {
                &&& after == (AppView { status: after.status, ..app })
                &&& after.status == AppStatusView::Error(
                    if app.dialogue is None {
                        "No active dialogue"@
                    } else {
                        "Participant '"@ + name + "' not found"@
                    },
                )
            }
        }),
{
    if let Some(dialogue) = app.dialogue {
        lemma_position_of_name(dialogue.roster(), name);
        assert forall|i: int| 0 <= i < dialogue.participants.len() implies (
        #[trigger] dialogue.participants[i]).config == dialogue.roster()[i] by {}
        match position_of_name(dialogue.roster(), name) {
            Some(position) => {
                assert(same_ignoring_ascii_case(
                    dialogue.participants[position].config.display_name,
                    name,
                ));
            },
            None => {},
        }
    }
}

/// Putting out by name takes the first participant at `position` that goes by the name. Of the
/// dialogue's participants the one at `first`, who is the first with that one's identifier, becomes
/// inactive and keeps everything else; everybody else is unchanged. The active conversation does
/// the same, its messages stay, and the user is told the name the participant goes by. Nothing else
/// changes.
pub proof fn law_putting_out_by_name_deactivates_one<P>(
    app: AppView<P>,
    name: Seq<char>,
    position: int,
    first: int,
)
    requires
        app.conversations.well_formed(),
        app.dialogue is Some,
        0 <= first <= position < app.dialogue->0.participants.len(),
        same_ignoring_ascii_case(app.dialogue->0.participants[position].config.display_name, name),
        forall|j: int|
            0 <= j < position ==> !same_ignoring_ascii_case(
                (#[trigger] app.dialogue->0.participants[j]).config.display_name,
                name,
            ),
        app.dialogue->0.participants[first].config.id
            == app.dialogue->0.participants[position].config.id,
        forall|j: int|
            0 <= j < first ==> (#[trigger] app.dialogue->0.participants[j]).config.id
                != app.dialogue->0.participants[position].config.id,
    ensures
        ({
            let (after, kicked) = app.participant_kicked(name);
            let held = app.dialogue->0;
            let dialogue = after.dialogue->0;
            let id = held.participants[position].config.id;
            &&& kicked
            &&& after.dialogue is Some
            &&& dialogue.participants.len() == held.participants.len()
            &&& forall|i: int|
                0 <= i < held.participants.len() && i != first ==> #[trigger] dialogue.participants[i]
                    == held.participants[i]
            &&& !dialogue.participants[first].config.active
            &&& dialogue.participants[first].provider == held.participants[first].provider
            &&& dialogue.participants[first].config == (DialogueParticipantView {
                active: false,
                ..held.participants[first].config
            })
            &&& dialogue == held.kicked(id)
            &&& after.overlay == app.overlay
            &&& after.status == app.status
            &&& after.providers == app.providers
            &&& after.notices.len() == app.notices.len() + 1
            &&& forall|i: int|
                0 <= i < app.notices.len() ==> #[trigger] after.notices[i] == app.notices[i]
            &&& after.notices.last() == "Kicked "@ + held.participants[position].config.display_name
                + " from dialogue"@
            &&& after.conversations.active == app.conversations.active
            &&& after.conversations.conversations.len() == app.conversations.conversations.len()
            &&& forall|i: int|
                0 <= i < app.conversations.conversations.len() && app.conversations.active != Some(i)
                    ==> #[trigger] after.conversations.conversations[i]
                    == app.conversations.conversations[i]
            &&& app.conversations.active matches Some(place) ==> {
                let before = app.conversations.conversations[place];
                let now = after.conversations.conversations[place];
                &&& now.id == before.id
                &&& now.messages == before.messages
                &&& now.dialogue_mode == before.dialogue_mode
                &&& now.dialogue_config == before.dialogue_config
                &&& now.participants.len() == before.participants.len()
                &&& forall|i: int|
                    0 <= i < before.participants.len() ==> #[trigger] now.participants[i]
                        == if before.participants[i].id == id && forall|j: int|
                        0 <= j < i ==> (#[trigger] before.participants[j]).id != id {
                        DialogueParticipantView { active: false, ..before.participants[i] }
                    } else {
                        before.participants[i]
                    }
            }
        }),
{
    let held = app.dialogue->0;
    let id = held.participants[position].config.id;
    lemma_position_of_name(held.roster(), name);
    assert forall|i: int| 0 <= i < held.participants.len() implies (
    #[trigger] held.participants[i]).config == held.roster()[i] by {}
    let found = position_of_name(held.roster(), name)->0;
    assert(same_ignoring_ascii_case(held.roster()[position].display_name, name));
    assert(found == position) by {
        if found < position {
            assert(!same_ignoring_ascii_case(held.participants[found].config.display_name, name));
        }
    }
    law_putting_out_deactivates_one(held, first, id);
    if let Some(place) = app.conversations.active {
        law_conversation_puts_out_the_first(app.conversations.conversations[place], id);
    }
}

/// Stopping leaves no dialogue, clears it from the active conversation, whose messages stay, sets
/// the status back and tells the user. Nothing else changes.
pub proof fn law_stopping_leaves_the_messages<P>(app: AppView<P>)
    requires
        app.conversations.well_formed(),
    ensures
        ({
            let after = app.dialogue_stopped();
            &&& after.dialogue is None
            &&& after.status == AppStatusView::Idle
            &&& after.overlay == app.overlay
            &&& after.providers == app.providers
            &&& after.notices.len() == app.notices.len() + 1
            &&& forall|i: int|
                0 <= i < app.notices.len() ==> #[trigger] after.notices[i] == app.notices[i]
            &&& after.notices.last() == "Dialogue stopped"@
            &&& after.conversations.active == app.conversations.active
            &&& after.conversations.conversations.len() == app.conversations.conversations.len()
            &&& forall|i: int|
                0 <= i < app.conversations.conversations.len() && app.conversations.active != Some(i)
                    ==> #[trigger] after.conversations.conversations[i]
                    == app.conversations.conversations[i]
            &&& app.conversations.active matches Some(place) ==> {
                let before = app.conversations.conversations[place];
                let now = after.conversations.conversations[place];
                &&& now.id == before.id
                &&& now.messages == before.messages
                &&& now.dialogue_mode is None
                &&& now.dialogue_config is None
                &&& now.participants.len() == 0
            }
        }),
{
}

/// The next speaker is who has the next turn in the dialogue that is held: the active participant
/// that is reached first from the current seat on, round the table. There is none exactly if no
/// dialogue is held or nobody is active.
pub proof fn law_next_speaker_is_the_nearest_active<P>(app: AppView<P>)
    requires
        app.well_formed(),
    ensures
        match app.next_speaker() {
            Some(speaker) => {
                let d = app.dialogue->0;
                let count = d.participants.len() as int;
                &&& app.dialogue is Some
                &&& exists|next: int|
                    {
                        &&& 0 <= next < count
                        &&& speaker == (#[trigger] d.participants[next]).config
                        &&& speaker.active
                        &&& forall|i: int|
                            0 <= i < count && (i - d.current_index) % count < (next
                                - d.current_index) % count ==> !(
                            #[trigger] d.participants[i]).config.active
                    }
            },
            None => app.dialogue is None || forall|i: int|
                0 <= i < app.dialogue->0.participants.len() ==> !(
                #[trigger] app.dialogue->0.participants[i]).config.active,
        },
{
    if let Some(dialogue) = app.dialogue {
        law_next_turn_is_of_the_nearest_active(dialogue);
        if let Some(next) = dialogue.next_position() {
            assert(app.next_speaker() == Some(dialogue.participants[next].config));
        }
    }
}

/// Continuing hands out a request exactly if a dialogue is held, somebody has the next turn, what
/// speaks for that participant could be made, and a conversation is active. Else nothing changes
/// but the status, which gives the first of the reasons that holds; that no conversation is active
/// changes nothing at all.
pub proof fn law_continuing_succeeds_when<P, C>(
    app: AppView<P>,
    message_id: MessageId,
    outcome: Option<ProviderInstance<P, C>>,
)
    ensures
        ({
            let (after, request) = app.dialogue_continued(message_id, outcome);
            let ready = app.dialogue is Some && app.next_speaker() is Some && outcome is Some;
            &&& request is Some <==> ready && app.conversations.active is Some
            &&& request is None ==> after == (AppView { status: after.status, ..app })
            &&& ready && request is None ==> after == app
            &&& !ready ==> after.status == AppStatusView::Error(
                if app.dialogue is None {
                    "No active dialogue"@
                } else if app.next_speaker() is None {
                    "No active participants"@
                } else {
                    "Failed to create provider for "@ + app.next_speaker()->0.display_name
                },
            )
        }),
{
}

/// When continuing hands out a request, the messages of the active conversation are those before
/// with exactly one more at the end: it is empty, is being streamed, comes from an assistant, has
/// the given identifier and the next speaker's name and colour. No other conversation changes, nor
/// anything else of the active one, nor the dialogue. The user is told who responds.
pub proof fn law_continuing_adds_one_empty_message<P, C>(
    app: AppView<P>,
    message_id: MessageId,
    outcome: Option<ProviderInstance<P, C>>,
)
    requires
        app.conversations.well_formed(),
        app.dialogue_continued(message_id, outcome).1 is Some,
    ensures
        ({
            let after = app.dialogue_continued(message_id, outcome).0;
            let speaker = app.next_speaker()->0;
            &&& app.next_speaker() is Some
            &&& app.conversations.active is Some
            &&& after.status == AppStatusView::Streaming
            &&& after.dialogue == app.dialogue
            &&& after.overlay == app.overlay
            &&& after.providers == app.providers
            &&& after.notices.len() == app.notices.len() + 1
            &&& forall|i: int|
                0 <= i < app.notices.len() ==> #[trigger] after.notices[i] == app.notices[i]
            &&& after.notices.last() == speaker.display_name + " is responding..."@
            &&& after.conversations.active == app.conversations.active
            &&& after.conversations.conversations.len() == app.conversations.conversations.len()
            &&& forall|i: int|
                0 <= i < app.conversations.conversations.len() && app.conversations.active != Some(i)
                    ==> #[trigger] after.conversations.conversations[i]
                    == app.conversations.conversations[i]
            &&& app.conversations.active matches Some(place) ==> {
                let before = app.conversations.conversations[place];
                let now = after.conversations.conversations[place];
                &&& now.id == before.id
                &&& now.dialogue_mode == before.dialogue_mode
                &&& now.dialogue_config == before.dialogue_config
                &&& now.participants == before.participants
                &&& now.messages.len() == before.messages.len() + 1
                &&& forall|i: int|
                    0 <= i < before.messages.len() ==> #[trigger] now.messages[i] == before.messages[i]
                &&& now.messages.last().id == message_id
                &&& now.messages.last().role == MessageRole::Assistant
                &&& now.messages.last().kind is Text
                &&& now.messages.last().kind->Text_0.len() == 0
                &&& now.messages.last().state == MessageState::Streaming
                &&& now.messages.last().participant_name == Some(speaker.display_name)
                &&& now.messages.last().participant_color == Some(speaker.color)
            }
        }),
{
}

/// The request is for the active conversation and the given message, with what was made to speak
/// for the next speaker. That one is told the conversation as it stood before.
pub proof fn law_request_is_for_the_active_conversation<P, C>(
    app: AppView<P>,
    message_id: MessageId,
    outcome: Option<ProviderInstance<P, C>>,
)
    requires
        app.conversations.well_formed(),
        app.dialogue_continued(message_id, outcome).1 is Some,
    ensures
        ({
            let request = app.dialogue_continued(message_id, outcome).1->0;
            let conversation = app.conversations.conversations[app.conversations.active->0];
            &&& app.conversations.active is Some
            &&& outcome is Some
            &&& request.conversation_id == conversation.id
            &&& request.message_id == message_id
            &&& request.provider == outcome->0.provider
            &&& request.capabilities == outcome->0.capabilities
            &&& request.messages == told_conversation(
                conversation,
                app.next_speaker()->0.display_name,
            )
        }),
{
    law_placeholder_is_not_told(app, message_id, outcome);
}

/// A placeholder for the active conversation is added after all its messages: it is empty, is being
/// streamed, comes from an assistant, and has the given identifier, name and colour. Nothing else
/// changes; and nothing at all does where another conversation is meant or none is active.
pub proof fn law_placeholder_is_added_last<P>(
    app: AppView<P>,
    message_id: MessageId,
    conversation_id: ConversationId,
    name: Seq<char>,
    color: ParticipantColor,
)
    requires
        app.conversations.well_formed(),
    ensures
        ({
            let after = app.with_placeholder(conversation_id, placeholder(message_id, name, color));
            let meant = app.conversations.active is Some
                && app.conversations.conversations[app.conversations.active->0].id
                == conversation_id;
            &&& !meant ==> after == app
            &&& meant ==> {
                &&& after.overlay == app.overlay
                &&& after.status == app.status
                &&& after.notices == app.notices
                &&& after.providers == app.providers
                &&& after.dialogue == app.dialogue
                &&& after.conversations.active == app.conversations.active
                &&& after.conversations.conversations.len() == app.conversations.conversations.len()
                &&& forall|i: int|
                    0 <= i < app.conversations.conversations.len() && app.conversations.active != Some(i)
                        ==> #[trigger] after.conversations.conversations[i]
                        == app.conversations.conversations[i]
                &&& app.conversations.active matches Some(place) ==> {
                    let before = app.conversations.conversations[place];
                    let now = after.conversations.conversations[place];
                    &&& now.id == before.id
                    &&& now.dialogue_mode == before.dialogue_mode
                    &&& now.dialogue_config == before.dialogue_config
                    &&& now.participants == before.participants
                    &&& now.messages.len() == before.messages.len() + 1
                    &&& forall|i: int|
                        0 <= i < before.messages.len() ==> #[trigger] now.messages[i] == before.messages[i]
                    &&& now.messages.last().id == message_id
                    &&& now.messages.last().role == MessageRole::Assistant
                    &&& now.messages.last().kind is Text
                    &&& now.messages.last().kind->Text_0.len() == 0
                    &&& now.messages.last().state == MessageState::Streaming
                    &&& now.messages.last().participant_name == Some(name)
                    &&& now.messages.last().participant_color == Some(color)
                }
            }
        }),
{
}

} // verus!
