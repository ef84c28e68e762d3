//! What each operation does to a dialogue: which of its parts change, and into what.

use vstd::prelude::*;

use crate::chat::{ChatRole, MessageType};
use crate::controller::{DialogueState, DialogueTurnView, DialogueView};
use crate::events::{DialogueEventView, StopReason};
use crate::participant::{
    activity, lemma_position_of_id, position_of_id, ActiveParticipantView, DialogueParticipantView,
    ParticipantId,
};
use crate::turn_order::{
    law_count_goes_seat_by_seat, law_first_active_is_the_nearest,
    law_next_turn_is_the_nearest, law_seats_go_round, lemma_distance,
};

verus! {

/// The current index is that of a participant; where there is none it is nought.
pub proof fn law_current_index_names_a_participant<P>(d: DialogueView<P>)
    ensures
        d.well_formed() <==> 0 <= d.current_index && (d.current_index < d.participants.len() || (
        d.participants.len() == 0 && d.current_index == 0)),
{
}

/// The roster lists who everybody is, in order.
pub proof fn law_roster_lists_everybody<P>(d: DialogueView<P>)
    ensures
        d.roster().len() == d.participants.len(),
        forall|i: int|
            0 <= i < d.participants.len() ==> #[trigger] d.roster()[i] == d.participants[i].config,
{
}

/// The count of active participants is the number of those who are active, which `is_active` tells.
pub proof fn law_count_is_of_the_active_ones<P>(
    d: DialogueView<P>,
    is_active: spec_fn(ActiveParticipantView<P>) -> bool,
)
    requires
        forall|p: ActiveParticipantView<P>| #[trigger] is_active(p) <==> p.config.active,
    ensures
        d.active_count() == d.participants.filter(is_active).len(),
    decreases d.participants.len(),
{
    reveal(Seq::filter);
    if d.participants.len() > 0 {
        let fewer = DialogueView { participants: d.participants.drop_last(), ..d };
        law_count_is_of_the_active_ones(fewer, is_active);
        assert(activity(d.roster()).drop_last() =~= activity(fewer.roster()));
        assert(is_active(d.participants.last()) <==> d.participants.last().config.active);
    } else {
        assert(activity(d.roster()) =~= Seq::empty());
    }
}

proof fn lemma_nobody_is_active<P>(d: DialogueView<P>)
    ensures
        d.active_count() == 0 <==> forall|i: int|
            0 <= i < d.participants.len() ==> !(#[trigger] d.participants[i]).config.active,
    decreases d.participants.len(),
{
    if d.participants.len() > 0 {
        let fewer = DialogueView { participants: d.participants.drop_last(), ..d };
        lemma_nobody_is_active(fewer);
        assert(activity(d.roster()).drop_last() =~= activity(fewer.roster()));
        let last = d.participants.len() - 1;
        assert(activity(d.roster()).last() == d.participants[last].config.active);
        if d.active_count() == 0 {
            assert forall|i: int| 0 <= i < d.participants.len() implies !(
            #[trigger] d.participants[i]).config.active by {
                if i < last {
                    assert(fewer.participants[i] == d.participants[i]);
                }
            }
        } else if forall|i: int|
            0 <= i < d.participants.len() ==> !(#[trigger] d.participants[i]).config.active {
            assert(!d.participants[last].config.active);
            assert forall|i: int| 0 <= i < fewer.participants.len() implies !(
            #[trigger] fewer.participants[i]).config.active by {
                assert(!d.participants[i].config.active);
            }
        }
    }
}

proof fn lemma_first_with_id<P>(d: DialogueView<P>, position: int, id: ParticipantId)
    requires
        0 <= position < d.participants.len(),
        d.participants[position].config.id == id,
        forall|j: int| 0 <= j < position ==> (#[trigger] d.participants[j]).config.id != id,
    ensures
        position_of_id(d.roster(), id) == Some(position),
{
    lemma_position_of_id(d.roster(), id);
    assert(d.roster()[position].id == id);
    let found = position_of_id(d.roster(), id)->0;
    assert(d.roster()[found].id == id);
    if found < position {
        assert(d.participants[found].config.id != id);
    }
}

/// What a listener is told comes after all that it was told before, on the same channel. Nothing
/// else changes.
pub proof fn law_event_is_told_last<P>(d: DialogueView<P>, event: DialogueEventView)
    ensures
        ({
            let after = d.telling(event);
            &&& after.participants == d.participants
            &&& after.config == d.config
            &&& after.current_index == d.current_index
            &&& after.state == d.state
            &&& after.queue == d.queue
            &&& after.history == d.history
            &&& match d.listener {
                Some(listener) => {
                    &&& after.listener is Some
                    &&& after.listener->0.channel == listener.channel
                    &&& after.listener->0.sent == listener.sent.push(event)
                },
                None => after.listener is None,
            }
        }),
{
}

/// Who joins sits last, with its provider, after everybody who was there; they stay as they were.
/// The number of active participants grows by one if it is active, else it stays. The listener is
/// told who joined.
pub proof fn law_newcomer_sits_last<P>(
    d: DialogueView<P>,
    config: DialogueParticipantView,
    provider: P,
)
    ensures
        ({
            let after = d.joined(config, provider);
            let count = d.participants.len() as int;
            &&& after.participants.len() == count + 1
            &&& forall|i: int|
                0 <= i < count ==> #[trigger] after.participants[i] == d.participants[i]
            &&& after.participants[count].config == config
            &&& after.participants[count].provider == provider
            &&& after.active_count() == d.active_count() + if config.active {
                1int
            } else {
                0
            }
            &&& after.config == d.config
            &&& after.current_index == d.current_index
            &&& after.state == d.state
            &&& after.queue == d.queue
            &&& after.history == d.history
            &&& match d.listener {
                Some(listener) => {
                    &&& after.listener is Some
                    &&& after.listener->0.channel == listener.channel
                    &&& after.listener->0.sent == listener.sent.push(
                        DialogueEventView::ParticipantJoined {
                            participant_id: config.id,
                            participant_name: config.display_name,
                        },
                    )
                },
                None => after.listener is None,
            }
        }),
{
    let after = d.joined(config, provider);
    law_count_goes_seat_by_seat(activity(d.roster()), config.active);
    assert(activity(after.roster()) =~= activity(d.roster()).push(config.active));
}

/// Where nobody has an identifier, taking out, putting out and asking back change nothing.
pub proof fn law_unknown_identifier_changes_nothing<P>(d: DialogueView<P>, id: ParticipantId)
    requires
        forall|j: int| 0 <= j < d.participants.len() ==> (#[trigger] d.participants[j]).config.id
            != id,
    ensures
        position_of_id(d.roster(), id) is None,
        d.removed(id) == d,
        d.kicked(id) == d,
        d.invited(id) == d,
{
    lemma_position_of_id(d.roster(), id);
    if let Some(found) = position_of_id(d.roster(), id) {
        assert(d.participants[found].config.id != id);
    }
}

/// Taking out removes the first participant with the identifier and nobody else, and keeps the
/// order. The turn stays with whoever had it; if that was who is taken out, it goes to the one who
/// sat next, round the table. The listener is told who left. If nobody active is left the dialogue
/// stops, and the listener is told that too.
pub proof fn law_taking_out_removes_one<P>(d: DialogueView<P>, position: int, id: ParticipantId)
    requires
        d.well_formed(),
        0 <= position < d.participants.len(),
        d.participants[position].config.id == id,
        forall|j: int| 0 <= j < position ==> (#[trigger] d.participants[j]).config.id != id,
    ensures
        ({
            let after = d.removed(id);
            let rest = d.participants.len() - 1;
            &&& after.participants.len() == rest
            &&& forall|i: int|
                0 <= i < position ==> #[trigger] after.participants[i] == d.participants[i]
            &&& forall|i: int|
                position <= i < rest ==> #[trigger] after.participants[i] == d.participants[i + 1]
            &&& after.well_formed()
            &&& d.current_index != position ==> after.participants[after.current_index]
                == d.participants[d.current_index]
            &&& d.current_index < position ==> after.current_index == d.current_index
            &&& d.current_index > position ==> after.current_index == d.current_index - 1
            &&& d.current_index == position && position < rest ==> after.current_index == position
            &&& d.current_index == position && position == rest ==> after.current_index == 0
            &&& after.config == d.config
            &&& after.queue == d.queue
            &&& after.history == d.history
            &&& if forall|i: int|
                0 <= i < after.participants.len() ==> !(#[trigger] after.participants[i]).config.active {
                &&& after.state == DialogueState::Stopped
                &&& match d.listener {
                    Some(listener) => {
                        &&& after.listener is Some
                        &&& after.listener->0.channel == listener.channel
                        &&& after.listener->0.sent == listener.sent.push(
                            DialogueEventView::ParticipantLeft { participant_id: id },
                        ).push(DialogueEventView::Stopped { reason: StopReason::AllParticipantsLeft })
                    },
                    None => after.listener is None,
                }
            } else {
                &&& after.state == d.state
                &&& match d.listener {
                    Some(listener) => {
                        &&& after.listener is Some
                        &&& after.listener->0.channel == listener.channel
                        &&& after.listener->0.sent == listener.sent.push(DialogueEventView::ParticipantLeft { participant_id: id })
                    },
                    None => after.listener is None,
                }
            }
        }),
{
    lemma_first_with_id(d, position, id);
    let gone = d.without(position).telling(DialogueEventView::ParticipantLeft { participant_id: id });
    lemma_nobody_is_active(gone);
    assert(d.removed(id).participants == gone.participants);
}

/// Putting out makes the first participant with the identifier inactive and keeps everything else
/// of it, and everybody else, as they are. The listener is told who left. If nobody active is left
/// the dialogue stops, and the listener is told that too.
pub proof fn law_putting_out_deactivates_one<P>(d: DialogueView<P>, position: int, id: ParticipantId)
    requires
        0 <= position < d.participants.len(),
        d.participants[position].config.id == id,
        forall|j: int| 0 <= j < position ==> (#[trigger] d.participants[j]).config.id != id,
    ensures
        ({
            let after = d.kicked(id);
            &&& after.participants.len() == d.participants.len()
            &&& forall|i: int|
                0 <= i < d.participants.len() && i != position ==> #[trigger] after.participants[i]
                    == d.participants[i]
            &&& after.participants[position].provider == d.participants[position].provider
            &&& after.participants[position].config.active == false
            &&& after.participants[position].config.id == d.participants[position].config.id
            &&& after.participants[position].config.provider_id == d.participants[position].config.provider_id
            &&& after.participants[position].config.model_id == d.participants[position].config.model_id
            &&& after.participants[position].config.display_name == d.participants[position].config.display_name
            &&& after.participants[position].config.system_prompt == d.participants[position].config.system_prompt
            &&& after.participants[position].config.params == d.participants[position].config.params
            &&& after.participants[position].config.color == d.participants[position].config.color
            &&& after.config == d.config
            &&& after.current_index == d.current_index
            &&& after.queue == d.queue
            &&& after.history == d.history
            &&& if forall|i: int|
                0 <= i < after.participants.len() ==> !(#[trigger] after.participants[i]).config.active {
                &&& after.state == DialogueState::Stopped
                &&& match d.listener {
                    Some(listener) => {
                        &&& after.listener is Some
                        &&& after.listener->0.channel == listener.channel
                        &&& after.listener->0.sent == listener.sent.push(
                            DialogueEventView::ParticipantLeft { participant_id: id },
                        ).push(DialogueEventView::Stopped { reason: StopReason::AllParticipantsLeft })
                    },
                    None => after.listener is None,
                }
            } else {
                &&& after.state == d.state
                &&& match d.listener {
                    Some(listener) => {
                        &&& after.listener is Some
                        &&& after.listener->0.channel == listener.channel
                        &&& after.listener->0.sent == listener.sent.push(DialogueEventView::ParticipantLeft { participant_id: id })
                    },
                    None => after.listener is None,
                }
            }
        }),
{
    lemma_first_with_id(d, position, id);
    let gone = d.with_activity(position, false).telling(
        DialogueEventView::ParticipantLeft { participant_id: id },
    );
    lemma_nobody_is_active(gone);
    assert(d.kicked(id).participants == gone.participants);
}

/// Asking back makes the first participant with the identifier active and keeps everything else of
/// it, and everybody else, as they are. The listener is told who joined.
pub proof fn law_asking_back_activates_one<P>(d: DialogueView<P>, position: int, id: ParticipantId)
    requires
        0 <= position < d.participants.len(),
        d.participants[position].config.id == id,
        forall|j: int| 0 <= j < position ==> (#[trigger] d.participants[j]).config.id != id,
    ensures
        ({
            let after = d.invited(id);
            &&& after.participants.len() == d.participants.len()
            &&& forall|i: int|
                0 <= i < d.participants.len() && i != position ==> #[trigger] after.participants[i]
                    == d.participants[i]
            &&& after.participants[position].provider == d.participants[position].provider
            &&& after.participants[position].config.active == true
            &&& after.participants[position].config.id == d.participants[position].config.id
            &&& after.participants[position].config.provider_id == d.participants[position].config.provider_id
            &&& after.participants[position].config.model_id == d.participants[position].config.model_id
            &&& after.participants[position].config.display_name == d.participants[position].config.display_name
            &&& after.participants[position].config.system_prompt == d.participants[position].config.system_prompt
            &&& after.participants[position].config.params == d.participants[position].config.params
            &&& after.participants[position].config.color == d.participants[position].config.color
            &&& after.config == d.config
            &&& after.current_index == d.current_index
            &&& after.state == d.state
            &&& after.queue == d.queue
            &&& after.history == d.history
            &&& match d.listener {
                Some(listener) => {
                    &&& after.listener is Some
                    &&& after.listener->0.channel == listener.channel
                    &&& after.listener->0.sent == listener.sent.push(
                        DialogueEventView::ParticipantJoined {
                            participant_id: id,
                            participant_name: d.participants[position].config.display_name,
                        },
                    )
                },
                None => after.listener is None,
            }
        }),
{
    lemma_first_with_id(d, position, id);
}

/// What the user says waits behind all that the user said before. The listener is told it. Nothing
/// else changes.
pub proof fn law_user_message_is_queued_last<P>(d: DialogueView<P>, content: Seq<char>)
    ensures
        ({
            let after = d.injected(content);
            let waiting = d.queue.len() as int;
            &&& after.queue.len() == waiting + 1
            &&& forall|i: int| 0 <= i < waiting ==> #[trigger] after.queue[i] == d.queue[i]
            &&& after.queue[waiting] == content
            &&& after.participants == d.participants
            &&& after.config == d.config
            &&& after.current_index == d.current_index
            &&& after.state == d.state
            &&& after.history == d.history
            &&& match d.listener {
                Some(listener) => {
                    &&& after.listener is Some
                    &&& after.listener->0.channel == listener.channel
                    &&& after.listener->0.sent == listener.sent.push(DialogueEventView::UserMessage { content })
                },
                None => after.listener is None,
            }
        }),
{
}

/// Starting makes a dialogue that has participants wait for its first turn, with the prompt, if
/// there is one, behind all that the user said before, and tells the listener. A dialogue without
/// participants stays as it is.
pub proof fn law_starting_waits_for_the_first_turn<P>(d: DialogueView<P>)
    ensures
        d.participants.len() == 0 ==> d.started() == d,
        d.participants.len() > 0 ==> {
            let after = d.started();
            let waiting = d.queue.len() as int;
            &&& after.state == DialogueState::WaitingNext
            &&& d.config.initial_prompt.len() == 0 ==> after.queue == d.queue
            &&& d.config.initial_prompt.len() > 0 ==> {
                &&& after.queue.len() == waiting + 1
                &&& forall|i: int| 0 <= i < waiting ==> #[trigger] after.queue[i] == d.queue[i]
                &&& after.queue[waiting] == d.config.initial_prompt
            }
            &&& after.participants == d.participants
            &&& after.config == d.config
            &&& after.current_index == d.current_index
            &&& after.history == d.history
            &&& match d.listener {
                Some(listener) => {
                    &&& after.listener is Some
                    &&& after.listener->0.channel == listener.channel
                    &&& after.listener->0.sent == listener.sent.push(DialogueEventView::Started)
                },
                None => after.listener is None,
            }
        },
{
}

/// Stopping stops, from every state, and tells the listener why. Nothing else changes.
pub proof fn law_stopping_tells_why<P>(d: DialogueView<P>, reason: StopReason)
    ensures
        ({
            let after = d.stopped(reason);
            &&& after.state == DialogueState::Stopped
            &&& after.participants == d.participants
            &&& after.config == d.config
            &&& after.current_index == d.current_index
            &&& after.queue == d.queue
            &&& after.history == d.history
            &&& match d.listener {
                Some(listener) => {
                    &&& after.listener is Some
                    &&& after.listener->0.channel == listener.channel
                    &&& after.listener->0.sent == listener.sent.push(DialogueEventView::Stopped { reason })
                },
                None => after.listener is None,
            }
        }),
{
}

/// Pausing pauses a dialogue that waits for a turn and no other; resuming lets a paused one wait
/// again and no other. Neither changes anything but the state.
pub proof fn law_pausing_changes_only_the_state<P>(d: DialogueView<P>)
    ensures
        ({
            let after = d.paused();
            &&& d.state == DialogueState::WaitingNext ==> after.state == DialogueState::Paused
            &&& d.state != DialogueState::WaitingNext ==> after.state == d.state
            &&& after.participants == d.participants
            &&& after.config == d.config
            &&& after.current_index == d.current_index
            &&& after.queue == d.queue
            &&& after.history == d.history
            &&& after.listener == d.listener
        }),
        ({
            let after = d.resumed();
            &&& d.state == DialogueState::Paused ==> after.state == DialogueState::WaitingNext
            &&& d.state != DialogueState::Paused ==> after.state == d.state
            &&& after.participants == d.participants
            &&& after.config == d.config
            &&& after.current_index == d.current_index
            &&& after.queue == d.queue
            &&& after.history == d.history
            &&& after.listener == d.listener
        }),
{
}

/// The next turn is of the active participant that is reached first from the current seat on,
/// round the table. It is nobody's exactly if nobody is active.
pub proof fn law_next_turn_is_of_the_nearest_active<P>(d: DialogueView<P>)
    requires
        d.well_formed(),
    ensures
        match d.next_position() {
            Some(next) => {
                let count = d.participants.len() as int;
                &&& 0 <= next < count
                &&& d.participants[next].config.active
                &&& forall|i: int|
                    0 <= i < count && (i - d.current_index) % count < (next - d.current_index)
                        % count ==> !(#[trigger] d.participants[i]).config.active
            },
            None => forall|i: int|
                0 <= i < d.participants.len() ==> !(#[trigger] d.participants[i]).config.active,
        },
{
    let active = activity(d.roster());
    assert forall|i: int| 0 <= i < d.participants.len() implies (
    #[trigger] d.participants[i]).config.active == active[i] by {}
    if d.participants.len() > 0 {
        law_first_active_is_the_nearest(active, d.current_index);
    }
}

/// The turn passes from `here`, whose it is, to the active participant that is reached first from
/// the seat after it on, round the table. Nothing changes but whose turn it is.
pub proof fn law_turn_passes_to_the_next_active<P>(d: DialogueView<P>, here: int)
    requires
        d.well_formed(),
        0 <= here < d.participants.len(),
        d.participants[here].config.active,
        forall|i: int|
            0 <= i < d.participants.len() && (i - d.current_index) % (d.participants.len() as int)
                < (here - d.current_index) % (d.participants.len() as int) ==> !(
            #[trigger] d.participants[i]).config.active,
    ensures
        ({
            let after = d.advanced();
            let count = d.participants.len() as int;
            let next = after.current_index;
            &&& 0 <= next < count
            &&& d.participants[next].config.active
            &&& forall|i: int|
                0 <= i < count && (i - here - 1) % count < (next - here - 1) % count ==> !(
                #[trigger] d.participants[i]).config.active
            &&& after.participants == d.participants
            &&& after.config == d.config
            &&& after.state == d.state
            &&& after.queue == d.queue
            &&& after.history == d.history
            &&& after.listener == d.listener
        }),
{
    let active = activity(d.roster());
    let count = d.participants.len() as int;
    assert forall|i: int| 0 <= i < count implies (#[trigger] d.participants[i]).config.active
        == active[i] by {}
    law_next_turn_is_of_the_nearest_active(d);
    assert(d.next_position() == Some(here)) by {
        let found = d.next_position()->0;
        assert(d.participants[here].config.active);
        assert(d.participants[found].config.active);
        assert((found - d.current_index) % count == (here - d.current_index) % count);
        lemma_same_distance(found, here, d.current_index, count);
    }
    law_next_turn_is_the_nearest(active, here);
    assert(active[here]);
}

proof fn lemma_same_distance(a: int, b: int, start: int, count: int)
    requires
        0 <= a < count,
        0 <= b < count,
        0 <= start < count,
        (a - start) % count == (b - start) % count,
    ensures
        a == b,
{
    lemma_distance(start, a, count);
    lemma_distance(start, b, count);
}

/// Where nobody is active the turn moves on by one seat, round the table; where nobody is there it
/// stays.
pub proof fn law_turn_moves_on_by_one_where_nobody_is_active<P>(d: DialogueView<P>)
    requires
        d.well_formed(),
        forall|i: int|
            0 <= i < d.participants.len() ==> !(#[trigger] d.participants[i]).config.active,
    ensures
        d.participants.len() == 0 ==> d.advanced() == d,
        d.participants.len() > 0 ==> {
            let after = d.advanced();
            &&& after.current_index == (d.current_index + 1) % (d.participants.len() as int)
            &&& after.participants == d.participants
            &&& after.config == d.config
            &&& after.state == d.state
            &&& after.queue == d.queue
            &&& after.history == d.history
            &&& after.listener == d.listener
        },
{
    let active = activity(d.roster());
    if d.participants.len() > 0 {
        law_first_active_is_the_nearest(active, d.current_index);
        if let Some(found) = d.next_position() {
            assert(active[found] == d.participants[found].config.active);
        }
        law_seats_go_round(d.current_index, 1, active.len() as int);
    }
}

/// A recorded turn comes after all that were recorded before. The listener is told it. Nothing else
/// changes.
pub proof fn law_turn_is_recorded_last<P>(d: DialogueView<P>, turn: DialogueTurnView)
    ensures
        ({
            let after = d.recorded(turn);
            let count = d.history.len() as int;
            &&& after.history.len() == count + 1
            &&& forall|i: int| 0 <= i < count ==> #[trigger] after.history[i] == d.history[i]
            &&& after.history[count] == turn
            &&& after.participants == d.participants
            &&& after.config == d.config
            &&& after.current_index == d.current_index
            &&& after.state == d.state
            &&& after.queue == d.queue
            &&& match d.listener {
                Some(listener) => {
                    &&& after.listener is Some
                    &&& after.listener->0.channel == listener.channel
                    &&& after.listener->0.sent == listener.sent.push(
                        DialogueEventView::TurnCompleted {
                            participant_id: turn.participant_id,
                            content: turn.content,
                            usage: turn.usage,
                        },
                    )
                },
                None => after.listener is None,
            }
        }),
{
}

/// A participant is told one message for each recorded turn, in order, and then one for each
/// message of the user that waits, word for word. What the listener itself said is the assistant's,
/// everything else the user's. All of it is text without reasoning.
pub proof fn law_turns_are_told_before_what_waits<P>(d: DialogueView<P>, listener: ParticipantId)
    ensures
        ({
            let told = d.context(listener);
            let turns = d.history.len() as int;
            &&& told.len() == turns + d.queue.len()
            &&& forall|i: int|
                0 <= i < turns ==> {
                    &&& (#[trigger] told[i]).role == ChatRole::Assistant
                        <==> d.history[i].participant_id == listener
                    &&& told[i].message_type == MessageType::Text
                    &&& told[i].reasoning_content is None
                }
            &&& forall|i: int|
                turns <= i < told.len() ==> {
                    &&& (#[trigger] told[i]).content == d.queue[i - turns]
                    &&& told[i].role == ChatRole::User
                    &&& told[i].message_type == MessageType::Text
                    &&& told[i].reasoning_content is None
                }
        }),
{
}

/// A recorded turn, whichever it is, is told under the name of the first participant with the
/// speaker's identifier, wherever that one sits: the name in brackets, a space, and what was said.
pub proof fn law_turn_is_told_under_its_speakers_name<P>(
    d: DialogueView<P>,
    listener: ParticipantId,
    i: int,
    p: int,
)
    requires
        0 <= i < d.history.len(),
        0 <= p < d.participants.len(),
        d.participants[p].config.id == d.history[i].participant_id,
        forall|j: int|
            0 <= j < p ==> (#[trigger] d.participants[j]).config.id != d.history[i].participant_id,
    ensures
        d.context(listener)[i].content == "["@ + d.participants[p].config.display_name + "] "@
            + d.history[i].content,
{
    lemma_first_with_id(d, p, d.history[i].participant_id);
}

/// A recorded turn, whichever it is, whose speaker's identifier nobody has, is told under the name
/// `Unknown`.
pub proof fn law_turn_of_a_stranger_is_told_as_unknown<P>(
    d: DialogueView<P>,
    listener: ParticipantId,
    i: int,
)
    requires
        0 <= i < d.history.len(),
        forall|j: int|
            0 <= j < d.participants.len() ==> (#[trigger] d.participants[j]).config.id
                != d.history[i].participant_id,
    ensures
        d.context(listener)[i].content == "["@ + "Unknown"@ + "] "@ + d.history[i].content,
{
    law_unknown_identifier_changes_nothing(d, d.history[i].participant_id);
}

} // verus!
