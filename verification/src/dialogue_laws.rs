//! What holds of a dialogue whatever is done to it.

use vstd::prelude::*;

use crate::chat::{text_message, ChatRole};
use crate::controller::{DialogueState, DialogueTurnView, DialogueView, ListenerView};
use crate::events::{DialogueEventView, StopReason};
use crate::participant::{
    activity, lemma_position_of_id, position_of_id, ActiveParticipantView, DialogueParticipantView,
    ParticipantId,
};
use crate::turn_order::{
    after_turns, count_active, first_active, is_turn_step,
    law_every_active_participant_gets_a_turn, law_one_turn_each_per_round,
    law_round_returns_to_its_start, law_turn_leaves_its_seat, law_turn_passes_to_nearest_active,
    lemma_first_active_from, lemma_first_active_is, next_turn, seat,
};

verus! {

/// Whether no two participants share an identifier.
pub open spec fn ids_distinct(roster: Seq<DialogueParticipantView>) -> bool {
    forall|i: int, j: int|
        0 <= i < j < roster.len() ==> (#[trigger] roster[i]).id != (#[trigger] roster[j]).id
}

/// Whether whoever listened to `before` still listens to `after`, and has heard at least as much
/// and nothing different.
pub open spec fn heard_on<P>(before: DialogueView<P>, after: DialogueView<P>) -> bool {
    match before.listener {
        Some(earlier) => match after.listener {
            Some(later) => earlier.channel == later.channel && earlier.sent.is_prefix_of(
                later.sent,
            ),
            None => false,
        },
        None => after.listener is None,
    }
}

proof fn lemma_count_active_is_zero(active: Seq<bool>)
    ensures
        count_active(active) == 0 <==> forall|i: int|
            0 <= i < active.len() ==> !#[trigger] active[i],
    decreases active.len(),
{
    if active.len() > 0 {
        let earlier = active.drop_last();
        lemma_count_active_is_zero(earlier);
        assert forall|i: int| 0 <= i < earlier.len() implies earlier[i] == #[trigger] active[i] by {
        }
        if count_active(earlier) > 0 {
            let i = choose|i: int| 0 <= i < earlier.len() && #[trigger] earlier[i];
            assert(active[i]);
        }
        if count_active(active) == 0 {
            assert forall|i: int| 0 <= i < active.len() implies !#[trigger] active[i] by {
                if i < earlier.len() {
                    assert(!earlier[i]);
                }
            }
        }
        if forall|i: int| 0 <= i < active.len() ==> !#[trigger] active[i] {
            assert(!active[active.len() - 1]);
        }
    }
}

/// When a participant leaves, for good or only from the turns, the dialogue stops exactly if
/// nobody active is left, whoever is left active goes on, and the history stays.
pub proof fn law_dialogue_stops_when_deserted<P>(dialogue: DialogueView<P>, id: ParticipantId)
    requires
        position_of_id(dialogue.roster(), id) is Some,
    ensures
        dialogue.kicked(id).state == if dialogue.kicked(id).active_count() == 0 {
            DialogueState::Stopped
        } else {
            dialogue.state
        },
        dialogue.removed(id).state == if dialogue.removed(id).active_count() == 0 {
            DialogueState::Stopped
        } else {
            dialogue.state
        },
        dialogue.kicked(id).history == dialogue.history,
        dialogue.removed(id).history == dialogue.history,
{
}

/// Putting a participant out of the turns changes no participant but that one, and of that one
/// only whether it is active.
pub proof fn law_kick_only_deactivates<P>(dialogue: DialogueView<P>, id: ParticipantId, other: int)
    requires
        0 <= other < dialogue.participants.len(),
    ensures
        dialogue.kicked(id).participants.len() == dialogue.participants.len(),
        ({
            let before = dialogue.participants[other];
            let after = dialogue.kicked(id).participants[other];
            if position_of_id(dialogue.roster(), id) == Some(other) {
                after == (ActiveParticipantView {
                    config: DialogueParticipantView { active: false, ..before.config },
                    ..before
                })
            } else {
                after == before
            }
        }),
        dialogue.kicked(id).current_index == dialogue.current_index,
        dialogue.kicked(id).queue == dialogue.queue,
        dialogue.kicked(id).config == dialogue.config,
{
    lemma_position_of_id(dialogue.roster(), id);
}

/// Asking back a participant that was active before it was put out restores the participants.
pub proof fn law_invite_undoes_kick<P>(dialogue: DialogueView<P>, id: ParticipantId)
    requires
        position_of_id(dialogue.roster(), id) matches Some(position)
            && dialogue.participants[position].config.active,
    ensures
        dialogue.kicked(id).invited(id).participants == dialogue.participants,
{
    let roster = dialogue.roster();
    lemma_position_of_id(roster, id);
    let position = position_of_id(roster, id)->0;
    let kicked = dialogue.kicked(id);
    assert forall|i: int| 0 <= i < roster.len() implies (#[trigger] kicked.roster()[i]).id
        == roster[i].id by {}
    lemma_position_of_id(kicked.roster(), id);
    let again = position_of_id(kicked.roster(), id);
    assert(kicked.roster()[position].id == id);
    if again->0 < position {
        assert(kicked.roster()[again->0].id == roster[again->0].id);
    }
    assert(again == Some(position));
    assert(kicked.invited(id).participants =~= dialogue.participants);
}

/// Pausing holds only a dialogue that waits for a turn, resuming only a paused one, and each
/// undoes the other there.
pub proof fn law_pause_and_resume<P>(dialogue: DialogueView<P>)
    ensures
        dialogue.state == DialogueState::WaitingNext ==> dialogue.paused().state
            == DialogueState::Paused && dialogue.paused().resumed() == dialogue,
        dialogue.state == DialogueState::Paused ==> dialogue.resumed().state
            == DialogueState::WaitingNext && dialogue.resumed().paused() == dialogue,
        dialogue.state != DialogueState::WaitingNext ==> dialogue.paused() == dialogue,
        dialogue.state != DialogueState::Paused ==> dialogue.resumed() == dialogue,
{
}

/// A listener stays with the dialogue and is only ever told more.
pub proof fn law_listener_is_only_told_more<P>(
    dialogue: DialogueView<P>,
    config: DialogueParticipantView,
    provider: P,
    id: ParticipantId,
    content: Seq<char>,
    reason: StopReason,
    turn: DialogueTurnView,
)
    ensures
        heard_on(dialogue, dialogue.joined(config, provider)),
        heard_on(dialogue, dialogue.removed(id)),
        heard_on(dialogue, dialogue.kicked(id)),
        heard_on(dialogue, dialogue.invited(id)),
        heard_on(dialogue, dialogue.injected(content)),
        heard_on(dialogue, dialogue.started()),
        heard_on(dialogue, dialogue.stopped(reason)),
        heard_on(dialogue, dialogue.recorded(turn)),
        heard_on(dialogue, dialogue.paused()),
        heard_on(dialogue, dialogue.resumed()),
        heard_on(dialogue, dialogue.advanced()),
{
}

/// The history only grows, and only by recording a turn.
pub proof fn law_history_grows_only_by_recording<P>(
    dialogue: DialogueView<P>,
    config: DialogueParticipantView,
    provider: P,
    id: ParticipantId,
    content: Seq<char>,
    reason: StopReason,
    turn: DialogueTurnView,
)
    ensures
        dialogue.joined(config, provider).history == dialogue.history,
        dialogue.removed(id).history == dialogue.history,
        dialogue.kicked(id).history == dialogue.history,
        dialogue.invited(id).history == dialogue.history,
        dialogue.injected(content).history == dialogue.history,
        dialogue.started().history == dialogue.history,
        dialogue.stopped(reason).history == dialogue.history,
        dialogue.paused().history == dialogue.history,
        dialogue.resumed().history == dialogue.history,
        dialogue.advanced().history == dialogue.history,
        dialogue.recorded(turn).history == dialogue.history.push(turn),
{
}

/// Somebody has the next turn exactly if somebody is active, and is then active itself.
pub proof fn law_next_turn_is_an_active_ones<P>(dialogue: DialogueView<P>)
    requires
        dialogue.well_formed(),
    ensures
        dialogue.next_position() is None <==> dialogue.active_count() == 0,
        dialogue.next_position() matches Some(position) ==> 0 <= position
            < dialogue.participants.len() && dialogue.participants[position].config.active,
{
    let active = activity(dialogue.roster());
    lemma_count_active_is_zero(active);
    if active.len() > 0 {
        let size = active.len() as int;
        let start = dialogue.current_index;
        lemma_first_active_from(active, start, 0);
        if dialogue.next_position() is None {
            assert forall|i: int| 0 <= i < size implies !#[trigger] active[i] by {
                let step = if i >= start {
                    i - start
                } else {
                    i - start + size
                };
                assert(seat(start, step, size) == i);
            }
        } else {
            let position = dialogue.next_position()->0;
            assert(active[position]);
            assert(active[position] == dialogue.participants[position].config.active);
        }
    }
}

/// When the turn has passed on and anybody is active, the one in the current seat has the next
/// turn.
pub proof fn law_turn_passes_to_the_current_seat<P>(dialogue: DialogueView<P>)
    requires
        dialogue.well_formed(),
        dialogue.active_count() > 0,
    ensures
        dialogue.advanced().well_formed(),
        dialogue.advanced().next_position() == Some(dialogue.advanced().current_index),
        dialogue.advanced().current_index == next_turn(
            activity(dialogue.roster()),
            dialogue.next_position()->0,
        ),
{
    let active = activity(dialogue.roster());
    let size = active.len() as int;
    law_next_turn_is_an_active_ones(dialogue);
    let here = dialogue.next_position()->0;
    assert(active[here] == dialogue.participants[here].config.active);
    law_turn_passes_to_nearest_active(active, here);
    let next = next_turn(active, here);
    assert(active[next]);
    assert(dialogue.advanced().roster() == dialogue.roster());
    assert(seat(next, 0, size) == next);
    lemma_first_active_is(active, next, 0);
}

/// Where everybody is active, all are counted, and the first seat has the first turn.
pub proof fn lemma_all_active(active: Seq<bool>)
    requires
        forall|i: int| 0 <= i < active.len() ==> #[trigger] active[i],
    ensures
        count_active(active) == active.len(),
        active.len() > 0 ==> first_active(active, 0) == Some(0int),
    decreases active.len(),
{
    if active.len() > 0 {
        let earlier = active.drop_last();
        assert forall|i: int| 0 <= i < earlier.len() implies #[trigger] earlier[i] by {
            assert(active[i]);
        }
        lemma_all_active(earlier);
        assert(seat(0, 0, active.len() as int) == 0);
        assert(active[active.len() - 1]);
        lemma_first_active_is(active, 0, 0);
    }
}

proof fn lemma_count_at_most_one(active: Seq<bool>, only: int)
    requires
        forall|i: int| 0 <= i < active.len() && i != only ==> !#[trigger] active[i],
    ensures
        count_active(active) <= 1,
    decreases active.len(),
{
    if active.len() > 0 {
        let earlier = active.drop_last();
        assert forall|i: int| 0 <= i < earlier.len() implies earlier[i] == #[trigger] active[i] by {
        }
        if only == active.len() - 1 {
            lemma_count_active_is_zero(earlier);
        } else {
            assert(!active[active.len() - 1]);
            lemma_count_at_most_one(earlier, only);
        }
    }
}

/// Strict alternation: while at least two participants are active, whoever has the turn does not
/// have it again when it has passed on.
pub proof fn law_nobody_speaks_twice_running<P>(dialogue: DialogueView<P>)
    requires
        dialogue.well_formed(),
        dialogue.active_count() >= 2,
    ensures
        dialogue.advanced().next_position() is Some,
        dialogue.advanced().next_position() != dialogue.next_position(),
{
    let active = activity(dialogue.roster());
    law_next_turn_is_an_active_ones(dialogue);
    law_turn_passes_to_the_current_seat(dialogue);
    let here = dialogue.next_position()->0;
    if forall|i: int| 0 <= i < active.len() && i != here ==> !#[trigger] active[i] {
        lemma_count_at_most_one(active, here);
    }
    let other = choose|i: int| 0 <= i < active.len() && i != here && #[trigger] active[i];
    law_turn_leaves_its_seat(active, here, other);
}

/// The dialogue when the turn has passed on a number of times.
pub open spec fn passed_on<P>(dialogue: DialogueView<P>, turns: nat) -> DialogueView<P>
    decreases turns,
{
    if turns == 0 {
        dialogue
    } else {
        passed_on(dialogue, (turns - 1) as nat).advanced()
    }
}

/// Passing the turn on takes it from whoever has it round the table as the order of turns says,
/// and changes nothing but whose turn it is.
pub proof fn law_turns_follow_the_order<P>(dialogue: DialogueView<P>, turns: nat)
    requires
        dialogue.well_formed(),
        dialogue.active_count() > 0,
    ensures
        passed_on(dialogue, turns).well_formed(),
        passed_on(dialogue, turns) == (DialogueView {
            current_index: passed_on(dialogue, turns).current_index,
            ..dialogue
        }),
        passed_on(dialogue, turns).next_position() == Some(
            after_turns(
                activity(dialogue.roster()),
                dialogue.next_position()->0,
                turns,
            ),
        ),
    decreases turns,
{
    law_next_turn_is_an_active_ones(dialogue);
    if turns > 0 {
        law_turns_follow_the_order(dialogue, (turns - 1) as nat);
        law_turn_passes_to_the_current_seat(passed_on(dialogue, (turns - 1) as nat));
    }
}

/// Strict alternation: when the turn has passed on once for each active participant, it is back
/// with whoever had it.
pub proof fn law_round_ends_where_it_began<P>(dialogue: DialogueView<P>)
    requires
        dialogue.well_formed(),
        dialogue.active_count() > 0,
    ensures
        passed_on(dialogue, dialogue.active_count()).next_position() == dialogue.next_position(),
{
    let active = activity(dialogue.roster());
    law_next_turn_is_an_active_ones(dialogue);
    law_turns_follow_the_order(dialogue, dialogue.active_count());
    assert(active[dialogue.next_position()->0]);
    law_round_returns_to_its_start(active, dialogue.next_position()->0);
}

/// Every active participant has a turn before the turn has passed on as many times as there are
/// active participants.
pub proof fn law_round_reaches_every_active_participant<P>(
    dialogue: DialogueView<P>,
    participant: int,
)
    requires
        dialogue.well_formed(),
        0 <= participant < dialogue.participants.len(),
        dialogue.participants[participant].config.active,
    ensures
        exists|turns: nat|
            1 <= turns <= dialogue.active_count() && (#[trigger] passed_on(
                dialogue,
                turns,
            )).next_position() == Some(participant),
{
    let active = activity(dialogue.roster());
    assert(active[participant]);
    lemma_count_active_is_zero(active);
    law_next_turn_is_an_active_ones(dialogue);
    let here = dialogue.next_position()->0;
    law_every_active_participant_gets_a_turn(active, here, participant);
    let turns = choose|turns: nat|
        1 <= turns <= count_active(active) && #[trigger] after_turns(active, here, turns)
            == participant;
    law_turns_follow_the_order(dialogue, turns);
}

/// Nobody has two turns while the turn passes on once for each active participant.
pub proof fn law_round_gives_nobody_two_turns<P>(
    dialogue: DialogueView<P>,
    earlier: nat,
    later: nat,
)
    requires
        dialogue.well_formed(),
        1 <= earlier < later <= dialogue.active_count(),
    ensures
        passed_on(dialogue, earlier).next_position() != passed_on(dialogue, later).next_position(),
{
    law_next_turn_is_an_active_ones(dialogue);
    law_turns_follow_the_order(dialogue, earlier);
    law_turns_follow_the_order(dialogue, later);
    law_one_turn_each_per_round(
        activity(dialogue.roster()),
        dialogue.next_position()->0,
        earlier,
        later,
    );
}

/// Where a seat is found when another one was taken out.
spec fn moved_up(i: int, taken_out: int) -> int {
    if i > taken_out {
        i - 1
    } else {
        i
    }
}

/// How many seats `i` is after `start`, round the table.
spec fn steps_to(start: int, i: int, size: int) -> int {
    if i >= start {
        i - start
    } else {
        i - start + size
    }
}

/// Taking a seat out leaves the turn with the first active one of the others.
proof fn lemma_first_active_without(active: Seq<bool>, start: int, taken_out: int, found: int)
    requires
        0 <= start < active.len(),
        0 <= taken_out < active.len(),
        0 <= found < active.len(),
        found != taken_out,
        active[found],
        forall|i: int|
            0 <= i < active.len() && i != taken_out && steps_to(start, i, active.len() as int)
                < steps_to(start, found, active.len() as int) ==> !#[trigger] active[i],
    ensures
        ({
            let rest = active.remove(taken_out);
            let from = if taken_out < start {
                start - 1
            } else if start >= rest.len() {
                0
            } else {
                start
            };
            first_active(rest, from) == Some(moved_up(found, taken_out))
        }),
{
    let rest = active.remove(taken_out);
    let size = rest.len() as int;
    let from = if taken_out < start {
        start - 1
    } else if start >= rest.len() {
        0
    } else {
        start
    };
    let target = moved_up(found, taken_out);
    let step = steps_to(from, target, size);
    assert(seat(from, step, size) == target);
    assert(rest[target] == active[found]);
    assert forall|j: int| 0 <= j < step implies !rest[#[trigger] seat(from, j, size)] by {
        let here = seat(from, j, size);
        let before = if here >= taken_out {
            here + 1
        } else {
            here
        };
        assert(rest[here] == active[before]);
        assert(!active[before]);
    }
    lemma_first_active_is(rest, from, step);
}

/// What `first_active` passes over is not active.
proof fn lemma_passed_over(active: Seq<bool>, start: int)
    requires
        0 <= start < active.len(),
        first_active(active, start) is Some,
    ensures
        ({
            let found = first_active(active, start)->0;
            let size = active.len() as int;
            &&& 0 <= found < size
            &&& active[found]
            &&& forall|i: int|
                0 <= i < size && steps_to(start, i, size) < steps_to(start, found, size)
                    ==> !#[trigger] active[i]
        }),
{
    let size = active.len() as int;
    let found = first_active(active, start)->0;
    lemma_first_active_from(active, start, 0);
    let k = choose|k: int|
        #![trigger seat(start, k, size)]
        {
            &&& 0 <= k < size
            &&& found == seat(start, k, size)
            &&& active[found]
            &&& forall|j: int| 0 <= j < k ==> !active[#[trigger] seat(start, j, size)]
        };
    assert forall|i: int|
        0 <= i < size && steps_to(start, i, size) < steps_to(
            start,
            found,
            size,
        ) implies !#[trigger] active[i] by {
        assert(seat(start, steps_to(start, i, size), size) == i);
    }
}

/// Taking out, or putting out of the turns, somebody who does not have the turn leaves it with
/// whoever has it.
pub proof fn law_turn_stays_when_another_leaves<P>(dialogue: DialogueView<P>, id: ParticipantId)
    requires
        dialogue.well_formed(),
        position_of_id(dialogue.roster(), id) is Some,
        dialogue.next_position() is Some,
        position_of_id(dialogue.roster(), id) != dialogue.next_position(),
    ensures
        ({
            let holder = dialogue.participants[dialogue.next_position()->0];
            &&& dialogue.kicked(id).next_position() == dialogue.next_position()
            &&& dialogue.kicked(id).participants[dialogue.next_position()->0] == holder
            &&& dialogue.removed(id).next_position() matches Some(position) && 0 <= position
                < dialogue.removed(id).participants.len()
                && dialogue.removed(id).participants[position] == holder
        }),
{
    let roster = dialogue.roster();
    let active = activity(roster);
    let size = active.len() as int;
    let start = dialogue.current_index;
    lemma_position_of_id(roster, id);
    let gone = position_of_id(roster, id)->0;
    lemma_passed_over(active, start);
    let here = dialogue.next_position()->0;
    lemma_first_active_without(active, start, gone, here);
    assert(activity(dialogue.removed(id).roster()) =~= active.remove(gone));
    let kicked = activity(dialogue.kicked(id).roster());
    assert(kicked =~= active.update(gone, false));
    let step = steps_to(start, here, size);
    assert(seat(start, step, size) == here);
    assert forall|j: int| 0 <= j < step implies !kicked[#[trigger] seat(start, j, size)] by {
        let i = seat(start, j, size);
        assert(steps_to(start, i, size) == j);
        assert(!active[i]);
    }
    lemma_first_active_is(kicked, start, step);
}

/// Taking out whoever has the turn, or putting them out of the turns, passes it to the one it
/// would have passed to anyway.
pub proof fn law_turn_passes_on_when_its_holder_leaves<P>(
    dialogue: DialogueView<P>,
    id: ParticipantId,
)
    requires
        dialogue.well_formed(),
        dialogue.active_count() >= 2,
        position_of_id(dialogue.roster(), id) is Some,
        position_of_id(dialogue.roster(), id) == dialogue.next_position(),
    ensures
        dialogue.removed(id).next_position() matches Some(position) && 0 <= position
            < dialogue.removed(id).participants.len()
            && dialogue.removed(id).participants[position]
            == dialogue.participants[dialogue.advanced().next_position()->0],
        dialogue.kicked(id).next_position() == dialogue.advanced().next_position(),
{
    let roster = dialogue.roster();
    let active = activity(roster);
    let size = active.len() as int;
    let start = dialogue.current_index;
    lemma_passed_over(active, start);
    law_nobody_speaks_twice_running(dialogue);
    law_turn_passes_to_the_current_seat(dialogue);
    let gone = dialogue.next_position()->0;
    law_turn_passes_to_nearest_active(active, gone);
    let next = next_turn(active, gone);
    assert(active[gone]);
    let step = choose|step: int|
        #![trigger seat(gone, step, size)]
        is_turn_step(active, gone, step) && next == seat(gone, step, size);
    assert(active[next]);
    assert forall|i: int|
        0 <= i < size && i != gone && steps_to(start, i, size) < steps_to(
            start,
            next,
            size,
        ) implies !#[trigger] active[i] by {
        let after = steps_to(gone, i, size);
        assert(seat(gone, after, size) == i);
        if steps_to(start, i, size) > steps_to(start, gone, size) {
            assert(1 <= after < step);
        }
    }
    lemma_first_active_without(active, start, gone, next);
    assert(activity(dialogue.removed(id).roster()) =~= active.remove(gone));
    let kicked = activity(dialogue.kicked(id).roster());
    assert(kicked =~= active.update(gone, false));
    let far = steps_to(start, next, size);
    assert(seat(start, far, size) == next);
    assert forall|j: int| 0 <= j < far implies !kicked[#[trigger] seat(start, j, size)] by {
        let i = seat(start, j, size);
        assert(steps_to(start, i, size) == j);
        if i != gone {
            assert(!active[i]);
        }
    }
    lemma_first_active_is(kicked, start, far);
}

/// The dialogue when its listener was told a number of events.
pub open spec fn told_all<P>(
    dialogue: DialogueView<P>,
    events: Seq<DialogueEventView>,
) -> DialogueView<P>
    decreases events.len(),
{
    if events.len() == 0 {
        dialogue
    } else {
        told_all(dialogue, events.drop_last()).telling(events.last())
    }
}

/// Whoever listens hears every event once and in the order told, on the one channel, and telling
/// changes nothing else.
pub proof fn law_listener_hears_every_event_in_order<P>(
    dialogue: DialogueView<P>,
    events: Seq<DialogueEventView>,
)
    ensures
        told_all(dialogue, events) == (DialogueView {
            listener: match dialogue.listener {
                Some(listener) => Some(
                    ListenerView { sent: listener.sent + events, ..listener },
                ),
                None => None,
            },
            ..dialogue
        }),
    decreases events.len(),
{
    if events.len() == 0 {
        if let Some(listener) = dialogue.listener {
            assert(listener.sent + events =~= listener.sent);
        }
    } else {
        law_listener_hears_every_event_in_order(dialogue, events.drop_last());
        if let Some(listener) = dialogue.listener {
            assert((listener.sent + events.drop_last()).push(events.last()) =~= listener.sent
                + events);
        }
    }
}

/// When a dialogue got a new channel, as `create_event_channel` gives it one, the new channel
/// carries every event from then on and nothing else, and the earlier one no more of them.
pub proof fn law_new_channel_takes_over<P>(
    before: DialogueView<P>,
    channel: int,
    events: Seq<DialogueEventView>,
)
    requires
        before.listener matches Some(earlier) ==> earlier.channel != channel,
    ensures
        ({
            let after = DialogueView {
                listener: Some(ListenerView { channel, sent: Seq::empty() }),
                ..before
            };
            &&& told_all(after, events).listener == Some(ListenerView { channel, sent: events })
            &&& before.listener matches Some(earlier) ==> told_all(
                after,
                events,
            ).listener->0.channel != earlier.channel
        }),
{
    let after = DialogueView {
        listener: Some(ListenerView { channel, sent: Seq::empty() }),
        ..before
    };
    law_listener_hears_every_event_in_order(after, events);
    assert(Seq::<DialogueEventView>::empty() + events =~= events);
}

/// A participant that comes in under an identifier of its own is found under it, and everybody
/// else as before.
pub proof fn law_newcomer_is_found<P>(
    dialogue: DialogueView<P>,
    config: DialogueParticipantView,
    provider: P,
    other: ParticipantId,
)
    requires
        position_of_id(dialogue.roster(), config.id) is None,
        other != config.id,
    ensures
        position_of_id(dialogue.joined(config, provider).roster(), config.id) == Some(
            dialogue.participants.len() as int,
        ),
        position_of_id(dialogue.joined(config, provider).roster(), other) == position_of_id(
            dialogue.roster(),
            other,
        ),
{
    let before = dialogue.roster();
    let after = dialogue.joined(config, provider).roster();
    let last = before.len() as int;
    assert(after =~= before.push(config));
    lemma_position_of_id(before, config.id);
    lemma_position_of_id(after, config.id);
    lemma_position_of_id(before, other);
    lemma_position_of_id(after, other);
    assert(after[last].id == config.id);
    let found = position_of_id(after, config.id)->0;
    if found < last {
        assert(before[found].id == after[found].id);
    }
    match position_of_id(before, other) {
        Some(there) => {
            assert(after[there].id == other);
            let now = position_of_id(after, other)->0;
            if now < there {
                assert(before[now].id == after[now].id);
            } else if there < now {
                assert(after[there].id != other);
            }
        },
        None => {
            if let Some(now) = position_of_id(after, other) {
                if now < last {
                    assert(before[now].id == after[now].id);
                }
            }
        },
    }
}

/// Where no two participants share an identifier, one that was taken out is not found any more,
/// and the identifiers of the others stay distinct.
pub proof fn law_removed_participant_is_gone<P>(dialogue: DialogueView<P>, id: ParticipantId)
    requires
        ids_distinct(dialogue.roster()),
    ensures
        position_of_id(dialogue.removed(id).roster(), id) is None,
        ids_distinct(dialogue.removed(id).roster()),
{
    let before = dialogue.roster();
    let after = dialogue.removed(id).roster();
    lemma_position_of_id(before, id);
    lemma_position_of_id(after, id);
    if let Some(position) = position_of_id(before, id) {
        assert(after =~= before.remove(position));
        if let Some(still) = position_of_id(after, id) {
            if still < position {
                assert(after[still].id == before[still].id);
            } else {
                assert(after[still].id == before[still + 1].id);
            }
        }
    }
}

/// Identifiers stay distinct when a participant comes in under a new one, is put out of the turns
/// or is asked back.
pub proof fn law_ids_stay_distinct<P>(
    dialogue: DialogueView<P>,
    config: DialogueParticipantView,
    provider: P,
    id: ParticipantId,
)
    requires
        ids_distinct(dialogue.roster()),
        position_of_id(dialogue.roster(), config.id) is None,
    ensures
        ids_distinct(dialogue.joined(config, provider).roster()),
        ids_distinct(dialogue.kicked(id).roster()),
        ids_distinct(dialogue.invited(id).roster()),
{
    let before = dialogue.roster();
    lemma_position_of_id(before, config.id);
    lemma_position_of_id(before, id);
    assert(dialogue.joined(config, provider).roster() =~= before.push(config));
    assert forall|i: int| 0 <= i < before.len() implies (#[trigger] dialogue.kicked(
        id,
    ).roster()[i]).id == before[i].id by {}
    assert forall|i: int| 0 <= i < before.len() implies (#[trigger] dialogue.invited(
        id,
    ).roster()[i]).id == before[i].id by {}
}

/// A participant is told every turn so far, in order, then every queued message of the user. Of
/// the turns exactly its own speak as the assistant; the user's messages never do.
pub proof fn law_context_tells_everything<P>(
    dialogue: DialogueView<P>,
    listener: ParticipantId,
    i: int,
)
    requires
        0 <= i < dialogue.history.len() + dialogue.queue.len(),
    ensures
        dialogue.context(listener).len() == dialogue.history.len() + dialogue.queue.len(),
        dialogue.context(listener)[i].role == ChatRole::Assistant <==> i < dialogue.history.len()
            && dialogue.history[i].participant_id == listener,
        i >= dialogue.history.len() ==> dialogue.context(listener)[i].content
            == dialogue.queue[i - dialogue.history.len()],
{
}

/// A recorded turn follows the earlier ones in what a participant is told, and comes before the
/// user's queued messages.
pub proof fn law_recorded_turn_is_told<P>(
    dialogue: DialogueView<P>,
    turn: DialogueTurnView,
    listener: ParticipantId,
)
    ensures
        dialogue.recorded(turn).context(listener) == dialogue.context(listener).insert(
            dialogue.history.len() as int,
            dialogue.retold(turn, listener),
        ),
{
    let recorded = dialogue.recorded(turn);
    assert(recorded.roster() == dialogue.roster());
    assert forall|t: DialogueTurnView| recorded.retold(t, listener) == #[trigger] dialogue.retold(
        t,
        listener,
    ) by {}
    assert(recorded.context(listener) =~= dialogue.context(listener).insert(
        dialogue.history.len() as int,
        dialogue.retold(turn, listener),
    ));
}

/// A dialogue that starts with a prompt tells it to everybody, as the last of the user's messages.
pub proof fn law_prompt_is_told_at_the_start<P>(dialogue: DialogueView<P>, listener: ParticipantId)
    requires
        dialogue.participants.len() > 0,
        dialogue.config.initial_prompt.len() > 0,
    ensures
        dialogue.started().state == DialogueState::WaitingNext,
        dialogue.started().context(listener).last() == text_message(
            ChatRole::User,
            dialogue.config.initial_prompt,
        ),
{
}

} // verus!
