//! What holds of the application's requests about a dialogue.

use vstd::prelude::*;

use crate::app::{
    designated_participants, drafted_participants, placeholder, setup, setup_from, AppStatusView,
    AppView,
};
use crate::config::TurnMode;
use crate::controller::DialogueState;
use crate::conversation::{ConversationStoreView, MessageId};
use crate::dialogue_laws::{ids_distinct, lemma_all_active};
use crate::messages::{law_untold_message_changes_nothing, told_conversation, told_message};
use crate::overlay::DialogueBuilderView;
use crate::participant::{
    activity, default_params, lemma_position_of_id, lemma_position_of_name, position_of_id,
    position_of_name, with_activity_at, DialogueParticipantView, ParticipantId,
};
use crate::provider::ProviderInstance;

verus! {

/// Whether the active conversation, if there is one, lists the participants of the dialogue that
/// is held, if one is.
pub open spec fn roster_mirrored<P>(app: AppView<P>) -> bool {
    match app.dialogue {
        Some(dialogue) => match app.conversations.active_conversation() {
            Some(conversation) => conversation.participants == dialogue.roster(),
            None => true,
        },
        None => true,
    }
}

/// Whether two states differ in no conversation but the active one.
pub open spec fn others_untouched(
    before: ConversationStoreView,
    after: ConversationStoreView,
) -> bool {
    &&& after.active == before.active
    &&& after.conversations.len() == before.conversations.len()
    &&& forall|i: int|
        0 <= i < before.conversations.len() && before.active != Some(i)
            ==> #[trigger] after.conversations[i] == before.conversations[i]
}

/// A request that is refused changes nothing but the status that is shown.
pub proof fn law_refused_request_changes_only_the_status<P, C>(
    app: AppView<P>,
    designations: Seq<Seq<char>>,
    builder: DialogueBuilderView,
    ids: Seq<ParticipantId>,
    outcomes: Seq<Option<ProviderInstance<P, C>>>,
    name: Seq<char>,
    id: ParticipantId,
    message_id: MessageId,
    outcome: Option<ProviderInstance<P, C>>,
)
    ensures
        ({
            let (after, started) = app.dialogue_started(designations, ids, outcomes);
            !started ==> after == (AppView { status: after.status, ..app })
        }),
        ({
            let (after, started) = app.dialogue_built(builder, ids, outcomes);
            !started ==> after == (AppView { status: after.status, ..app })
        }),
        ({
            let (after, invited) = app.participant_invited(name, id, outcome);
            !invited ==> after == (AppView { status: after.status, ..app })
        }),
        ({
            let (after, kicked) = app.participant_kicked(name);
            !kicked ==> after == (AppView { status: after.status, ..app })
        }),
        ({
            let (after, request) = app.dialogue_continued(message_id, outcome);
            request is None ==> after == (AppView { status: after.status, ..app })
        }),
{
}

/// A dialogue that was started is held, waits to be begun, has at least two participants, and has
/// exactly those that were asked for, all of them active and in the order asked for. The first of
/// them has the first turn.
pub proof fn law_started_dialogue_has_who_was_asked_for<P, C>(
    app: AppView<P>,
    designations: Seq<Seq<char>>,
    ids: Seq<ParticipantId>,
    outcomes: Seq<Option<ProviderInstance<P, C>>>,
)
    requires
        app.dialogue_started(designations, ids, outcomes).1,
    ensures
        ({
            let after = app.dialogue_started(designations, ids, outcomes).0;
            &&& after.status == AppStatusView::Idle
            &&& after.dialogue matches Some(dialogue) && {
                &&& dialogue.well_formed()
                &&& dialogue.state == DialogueState::Idle
                &&& dialogue.config.turn_mode == TurnMode::RoundRobin
                &&& dialogue.participants.len() == designations.len()
                &&& designations.len() >= 2
                &&& forall|i: int|
                    0 <= i < designations.len() ==> {
                        let config = (#[trigger] dialogue.participants[i]).config;
                        &&& config.id == ids[i]
                        &&& config.display_name == designations[i]
                        &&& config.active
                    }
                &&& dialogue.active_count() == designations.len()
                &&& dialogue.next_position() == Some(0int)
            }
        }),
{
    let entries = designated_participants(designations, ids);
    lemma_ready_means_all_named(entries, outcomes, 0);
    let dialogue = app.dialogue_started(designations, ids, outcomes).0.dialogue->0;
    let active = activity(dialogue.roster());
    assert forall|i: int| 0 <= i < active.len() implies #[trigger] active[i] by {
        assert(entries[i] is Some);
    }
    lemma_all_active(active);
}

/// A dialogue that was started from the builder is held, and has exactly the participants that
/// were drafted, in order: as drafted, with default parameters, all of them active. The first of
/// them has the first turn.
pub proof fn law_built_dialogue_has_who_was_drafted<P, C>(
    app: AppView<P>,
    builder: DialogueBuilderView,
    ids: Seq<ParticipantId>,
    outcomes: Seq<Option<ProviderInstance<P, C>>>,
)
    requires
        app.dialogue_built(builder, ids, outcomes).1,
    ensures
        ({
            let after = app.dialogue_built(builder, ids, outcomes).0;
            let drafts = builder.participants;
            &&& after.status == AppStatusView::Idle
            &&& after.dialogue matches Some(dialogue) && {
                &&& dialogue.well_formed()
                &&& dialogue.state == DialogueState::Idle
                &&& dialogue.config.mode == builder.mode
                &&& dialogue.config.initial_prompt == builder.initial_prompt
                &&& dialogue.config.turn_mode == TurnMode::RoundRobin
                &&& dialogue.participants.len() == drafts.len()
                &&& drafts.len() >= 2
                &&& forall|i: int|
                    0 <= i < drafts.len() ==> (#[trigger] dialogue.participants[i]).config == (
                    DialogueParticipantView {
                        id: ids[i],
                        provider_id: drafts[i].provider_id,
                        model_id: drafts[i].model_id,
                        display_name: drafts[i].display_name,
                        system_prompt: drafts[i].system_prompt,
                        params: default_params(),
                        color: drafts[i].color,
                        active: true,
                    })
                &&& dialogue.active_count() == drafts.len()
                &&& dialogue.next_position() == Some(0int)
            }
        }),
{
    let dialogue = app.dialogue_built(builder, ids, outcomes).0.dialogue->0;
    lemma_all_active(activity(dialogue.roster()));
}

proof fn lemma_ready_means_all_named<P, C>(
    entries: Seq<Option<DialogueParticipantView>>,
    outcomes: Seq<Option<ProviderInstance<P, C>>>,
    position: int,
)
    requires
        0 <= position <= entries.len(),
        setup_from(entries, outcomes, position) is Ready,
    ensures
        forall|i: int| position <= i < entries.len() ==> #[trigger] entries[i] is Some,
    decreases entries.len() - position,
{
    if position < entries.len() {
        lemma_ready_means_all_named(entries, outcomes, position + 1);
    }
}

/// The builder's participants are never refused for their form: starting fails only for too few of
/// them, or for a provider that could not be made.
pub proof fn law_drafts_are_never_malformed<P, C>(
    builder: DialogueBuilderView,
    ids: Seq<ParticipantId>,
    outcomes: Seq<Option<ProviderInstance<P, C>>>,
)
    ensures
        !(setup(drafted_participants(builder, ids), outcomes) is Malformed),
{
    lemma_named_means_not_malformed(drafted_participants(builder, ids), outcomes, 0);
}

proof fn lemma_named_means_not_malformed<P, C>(
    entries: Seq<Option<DialogueParticipantView>>,
    outcomes: Seq<Option<ProviderInstance<P, C>>>,
    position: int,
)
    requires
        0 <= position <= entries.len(),
        forall|i: int| 0 <= i < entries.len() ==> #[trigger] entries[i] is Some,
    ensures
        !(setup_from(entries, outcomes, position) is Malformed),
    decreases entries.len() - position,
{
    if position < entries.len() {
        assert(entries[position] is Some);
        lemma_named_means_not_malformed(entries, outcomes, position + 1);
    }
}

/// The active conversation lists the dialogue's participants from the start of the dialogue, and
/// inviting, putting out and continuing keep it so.
pub proof fn law_conversation_mirrors_the_roster<P, C>(
    app: AppView<P>,
    designations: Seq<Seq<char>>,
    builder: DialogueBuilderView,
    ids: Seq<ParticipantId>,
    outcomes: Seq<Option<ProviderInstance<P, C>>>,
    name: Seq<char>,
    id: ParticipantId,
    message_id: MessageId,
    outcome: Option<ProviderInstance<P, C>>,
)
    requires
        app.conversations.well_formed(),
    ensures
        app.dialogue_started(designations, ids, outcomes).1 ==> roster_mirrored(
            app.dialogue_started(designations, ids, outcomes).0,
        ),
        app.dialogue_built(builder, ids, outcomes).1 ==> roster_mirrored(
            app.dialogue_built(builder, ids, outcomes).0,
        ),
        roster_mirrored(app) ==> roster_mirrored(app.participant_invited(name, id, outcome).0),
        roster_mirrored(app) ==> roster_mirrored(app.participant_kicked(name).0),
        roster_mirrored(app) ==> roster_mirrored(app.dialogue_continued(message_id, outcome).0),
        roster_mirrored(app.dialogue_stopped()),
{
    if let (Some(dialogue), Some(conversation)) = (
        app.dialogue,
        app.conversations.active_conversation(),
    ) {
        if roster_mirrored(app) {
            if let Some(participant) = app.invited_participant(name, id) {
                if let Some(instance) = outcome {
                    assert(dialogue.joined(participant, instance.provider).roster()
                        =~= conversation.participants.push(participant));
                }
            }
            if let Some(position) = position_of_name(dialogue.roster(), name) {
                let gone = dialogue.participants[position].config.id;
                lemma_position_of_name(dialogue.roster(), name);
                lemma_position_of_id(dialogue.roster(), gone);
                assert(dialogue.roster()[position].id == gone);
                let first = position_of_id(dialogue.roster(), gone)->0;
                assert(dialogue.kicked(gone).roster() =~= with_activity_at(
                    conversation.participants,
                    first,
                    false,
                ));
            }
        }
    }
}

/// No request about the dialogue touches a conversation other than the active one, nor which one
/// is active.
pub proof fn law_other_conversations_are_untouched<P, C>(
    app: AppView<P>,
    designations: Seq<Seq<char>>,
    builder: DialogueBuilderView,
    ids: Seq<ParticipantId>,
    outcomes: Seq<Option<ProviderInstance<P, C>>>,
    name: Seq<char>,
    id: ParticipantId,
    message_id: MessageId,
    outcome: Option<ProviderInstance<P, C>>,
)
    requires
        app.conversations.well_formed(),
    ensures
        others_untouched(
            app.conversations,
            app.dialogue_started(designations, ids, outcomes).0.conversations,
        ),
        others_untouched(
            app.conversations,
            app.dialogue_built(builder, ids, outcomes).0.conversations,
        ),
        others_untouched(
            app.conversations,
            app.participant_invited(name, id, outcome).0.conversations,
        ),
        others_untouched(app.conversations, app.participant_kicked(name).0.conversations),
        others_untouched(
            app.conversations,
            app.dialogue_continued(message_id, outcome).0.conversations,
        ),
        others_untouched(app.conversations, app.dialogue_stopped().conversations),
{
}

/// Putting out succeeds exactly if somebody goes by the name. Where no two participants share an
/// identifier, it is that participant who takes no more turns.
pub proof fn law_kick_puts_out_who_goes_by_the_name<P>(app: AppView<P>, name: Seq<char>)
    requires
        app.dialogue is Some,
    ensures
        ({
            let before = app.dialogue->0;
            let (after, kicked) = app.participant_kicked(name);
            &&& kicked == (position_of_name(before.roster(), name) is Some)
            &&& kicked && ids_distinct(before.roster()) ==> !after.dialogue->0.participants[position_of_name(
                before.roster(),
                name,
            )->0].config.active
        }),
{
    let dialogue = app.dialogue->0;
    let roster = dialogue.roster();
    lemma_position_of_name(roster, name);
    if let Some(position) = position_of_name(roster, name) {
        let id = roster[position].id;
        lemma_position_of_id(roster, id);
        if ids_distinct(roster) {
            let first = position_of_id(roster, id)->0;
            if first < position {
                assert(roster[first].id != roster[position].id);
            }
            assert(first == position);
        }
    }
}

/// Stopping ends the dialogue and clears it from the active conversation, whose messages stay.
pub proof fn law_stopping_clears_the_dialogue<P>(app: AppView<P>)
    requires
        app.conversations.well_formed(),
    ensures
        app.dialogue_stopped().dialogue is None,
        app.conversations.active_conversation() matches Some(before) ==> {
            &&& app.dialogue_stopped().conversations.active_conversation() matches Some(after) && {
                &&& after.messages == before.messages
                &&& after.dialogue_mode is None
                &&& after.dialogue_config is None
                &&& after.participants.len() == 0
            }
        },
{
}

/// What a participant is told when the dialogue is continued is what was said before: the
/// placeholder for its response, which is empty, is not told.
pub proof fn law_placeholder_is_not_told<P, C>(
    app: AppView<P>,
    message_id: MessageId,
    outcome: Option<ProviderInstance<P, C>>,
)
    requires
        app.dialogue_continued(message_id, outcome).1 is Some,
    ensures
        ({
            let request = app.dialogue_continued(message_id, outcome).1->0;
            let conversation = app.conversations.active_conversation()->0;
            &&& request.messages == told_conversation(
                conversation,
                app.next_speaker()->0.display_name,
            )
            &&& request.conversation_id == conversation.id
            &&& request.message_id == message_id
        }),
{
    let speaker = app.next_speaker()->0;
    let message = placeholder(message_id, speaker.display_name, speaker.color);
    let conversation = app.conversations.active_conversation()->0;
    assert(told_message(message, speaker.display_name) is None);
    law_untold_message_changes_nothing(conversation, message, speaker.display_name);
}

} // verus!
