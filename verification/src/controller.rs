//! The controller of a dialogue between several models.

use std::collections::VecDeque;

use vstd::prelude::*;

use tokio::sync::mpsc::{UnboundedReceiver, UnboundedSender};

use crate::chat::{text_message, ChatMessage, ChatMessageView, ChatRole, Usage};
use crate::clock::{utc_now, Timestamp};
use crate::config::{DialogueConfig, DialogueConfigView};
use crate::events::{
    event_channel, receiver_channel, send_event, sender_channel, sent_events, DialogueEvent,
    DialogueEventView, StopReason,
};
use crate::participant::{
    activity, lemma_position_of_id, lemma_position_of_name, position_of_id, position_of_name,
    ActiveParticipant, ActiveParticipantView, DialogueParticipant, DialogueParticipantView,
    ParticipantId,
};
use crate::text::{
    attributed, attributed_text, decimal, decimal_text, eq_ignore_ascii_case,
    same_ignoring_ascii_case,
};
use crate::turn_order::{count_active, first_active, first_active_from, next_seat, next_turn, seat};

verus! {

/// State of the dialogue.
#[derive(Debug, Clone, Copy, PartialEq, Eq, Structural)]
pub enum DialogueState {
    /// Dialogue not yet started.
    Idle,
    /// A participant is currently streaming a response.
    Streaming,
    /// Waiting for the next turn.
    WaitingNext,
    /// Dialogue is paused.
    Paused,
    /// Dialogue has stopped.
    Stopped,
}

impl Default for DialogueState {
    fn default() -> (state: Self)
        ensures
            state == DialogueState::Idle,
    {
        DialogueState::Idle
    }
}

/// A recorded turn in the dialogue history.
#[derive(Debug, PartialEq, Eq)]
pub struct DialogueTurn {
    /// ID of the participant who spoke.
    pub participant_id: ParticipantId,
    /// Content of the turn.
    pub content: String,
    /// When the turn occurred.
    pub timestamp: Timestamp,
    /// Token usage for this turn.
    pub usage: Option<Usage>,
}

/// A recorded turn, as the contracts see it.
pub struct DialogueTurnView {
    pub participant_id: ParticipantId,
    pub content: Seq<char>,
    pub timestamp: Timestamp,
    pub usage: Option<Usage>,
}

impl View for DialogueTurn {
    type V = DialogueTurnView;

    open spec fn view(&self) -> DialogueTurnView {
        DialogueTurnView {
            participant_id: self.participant_id,
            content: self.content@,
            timestamp: self.timestamp,
            usage: self.usage,
        }
    }
}

impl Clone for DialogueTurn {
    fn clone(&self) -> (copy: Self)
        ensures
            copy@ == self@,
    {
        DialogueTurn {
            participant_id: self.participant_id,
            content: self.content.clone(),
            timestamp: self.timestamp,
            usage: self.usage,
        }
    }
}

/// The channel that a dialogue tells its events to, and what it was told.
pub struct ListenerView {
    pub channel: int,
    pub sent: Seq<DialogueEventView>,
}

/// A dialogue, as the contracts see it.
pub struct DialogueView<P> {
    pub participants: Seq<ActiveParticipantView<P>>,
    pub config: DialogueConfigView,
    pub current_index: int,
    pub state: DialogueState,
    pub queue: Seq<Seq<char>>,
    pub history: Seq<DialogueTurnView>,
    pub listener: Option<ListenerView>,
}

impl<P> DialogueView<P> {
    /// The current index names a participant, or is nought where there is none.
    pub open spec fn well_formed(self) -> bool {
        if self.participants.len() == 0 {
            self.current_index == 0
        } else {
            0 <= self.current_index < self.participants.len()
        }
    }

    /// Who the participants are.
    pub open spec fn roster(self) -> Seq<DialogueParticipantView> {
        self.participants.map_values(|p: ActiveParticipantView<P>| p.config)
    }

    /// How many participants take turns.
    pub open spec fn active_count(self) -> nat {
        count_active(activity(self.roster()))
    }

    /// The dialogue when its listener, if it has one, was told an event.
    pub open spec fn telling(self, event: DialogueEventView) -> Self {
        DialogueView {
            listener: match self.listener {
                Some(listener) => Some(
                    ListenerView { sent: listener.sent.push(event), ..listener },
                ),
                None => None,
            },
            ..self
        }
    }

    /// The dialogue when it was stopped.
    pub open spec fn stopped(self, reason: StopReason) -> Self {
        DialogueView { state: DialogueState::Stopped, ..self }.telling(
            DialogueEventView::Stopped { reason },
        )
    }

    /// The dialogue when it was stopped in case nobody is left to take turns.
    pub open spec fn stopped_if_deserted(self) -> Self {
        if self.active_count() == 0 {
            self.stopped(StopReason::AllParticipantsLeft)
        } else {
            self
        }
    }

    /// The dialogue when a participant came in.
    pub open spec fn joined(self, config: DialogueParticipantView, provider: P) -> Self {
        DialogueView {
            participants: self.participants.push(ActiveParticipantView { config, provider }),
            ..self
        }.telling(
            DialogueEventView::ParticipantJoined {
                participant_id: config.id,
                participant_name: config.display_name,
            },
        )
    }

    /// The dialogue without the participant at a position. The turn stays with whoever has it;
    /// from the seat that is taken out it goes to the one after it, round the table.
    pub open spec fn without(self, position: int) -> Self {
        let rest = self.participants.remove(position);
        DialogueView {
            participants: rest,
            current_index: if position < self.current_index {
                self.current_index - 1
            } else if rest.len() > 0 && self.current_index >= rest.len() {
                0
            } else {
                self.current_index
            },
            ..self
        }
    }

    /// The dialogue when the participant at a position was set active or inactive.
    pub open spec fn with_activity(self, position: int, active: bool) -> Self {
        let p = self.participants[position];
        DialogueView {
            participants: self.participants.update(
                position,
                ActiveParticipantView {
                    config: DialogueParticipantView { active, ..p.config },
                    ..p
                },
            ),
            ..self
        }
    }

    /// The dialogue when the first participant with an identifier was taken out.
    pub open spec fn removed(self, id: ParticipantId) -> Self {
        match position_of_id(self.roster(), id) {
            Some(position) => self.without(position).telling(
                DialogueEventView::ParticipantLeft { participant_id: id },
            ).stopped_if_deserted(),
            None => self,
        }
    }

    /// The dialogue when the first participant with an identifier was put out of the turns.
    pub open spec fn kicked(self, id: ParticipantId) -> Self {
        match position_of_id(self.roster(), id) {
            Some(position) => self.with_activity(position, false).telling(
                DialogueEventView::ParticipantLeft { participant_id: id },
            ).stopped_if_deserted(),
            None => self,
        }
    }

    /// The dialogue when the first participant with an identifier was asked back.
    pub open spec fn invited(self, id: ParticipantId) -> Self {
        match position_of_id(self.roster(), id) {
            Some(position) => self.with_activity(position, true).telling(
                DialogueEventView::ParticipantJoined {
                    participant_id: id,
                    participant_name: self.participants[position].config.display_name,
                },
            ),
            None => self,
        }
    }

    /// The dialogue when the user's message was put at the end of the queue.
    pub open spec fn injected(self, content: Seq<char>) -> Self {
        DialogueView { queue: self.queue.push(content), ..self }.telling(
            DialogueEventView::UserMessage { content },
        )
    }

    /// The dialogue when it was started. The prompt, unless empty, is queued as if the user had
    /// said it. Without participants nothing starts.
    pub open spec fn started(self) -> Self {
        if self.participants.len() == 0 {
            self
        } else {
            let prompt = self.config.initial_prompt;
            DialogueView {
                state: DialogueState::WaitingNext,
                queue: if prompt.len() == 0 {
                    self.queue
                } else {
                    self.queue.push(prompt)
                },
                ..self
            }.telling(DialogueEventView::Started)
        }
    }

    /// The dialogue when it was paused, which only a dialogue that waits for a turn can be.
    pub open spec fn paused(self) -> Self {
        if self.state == DialogueState::WaitingNext {
            DialogueView { state: DialogueState::Paused, ..self }
        } else {
            self
        }
    }

    /// The dialogue when it was resumed, which only a paused dialogue can be.
    pub open spec fn resumed(self) -> Self {
        if self.state == DialogueState::Paused {
            DialogueView { state: DialogueState::WaitingNext, ..self }
        } else {
            self
        }
    }

    /// Where the participant sits whose turn is next: the first active one from the current seat
    /// on.
    pub open spec fn next_position(self) -> Option<int> {
        first_active(activity(self.roster()), self.current_index)
    }

    /// The dialogue when the turn passed on: from whoever has it to the next active participant.
    /// Where nobody is active it moves on by one seat.
    pub open spec fn advanced(self) -> Self {
        let active = activity(self.roster());
        if self.participants.len() == 0 {
            self
        } else {
            DialogueView {
                current_index: match first_active(active, self.current_index) {
                    Some(here) => next_turn(active, here),
                    None => seat(self.current_index, 1, active.len() as int),
                },
                ..self
            }
        }
    }

    /// The dialogue when a turn was recorded.
    pub open spec fn recorded(self, turn: DialogueTurnView) -> Self {
        DialogueView { history: self.history.push(turn), ..self }.telling(
            DialogueEventView::TurnCompleted {
                participant_id: turn.participant_id,
                content: turn.content,
                usage: turn.usage,
            },
        )
    }

    /// The name that a speaker goes by: the one of the first participant with the identifier.
    pub open spec fn speaker_name(self, id: ParticipantId) -> Seq<char> {
        match position_of_id(self.roster(), id) {
            Some(position) => self.participants[position].config.display_name,
            None => "Unknown"@,
        }
    }

    /// A turn, as the participant with the identifier `listener` is told it: what it said itself
    /// is the assistant's, what anybody else said is the user's.
    pub open spec fn retold(self, turn: DialogueTurnView, listener: ParticipantId) -> ChatMessageView {
        text_message(
            if turn.participant_id == listener {
                ChatRole::Assistant
            } else {
                ChatRole::User
            },
            attributed_text(self.speaker_name(turn.participant_id), turn.content),
        )
    }

    /// All that a participant is told before its turn: the turns so far, then the queued messages
    /// of the user.
    pub open spec fn context(self, listener: ParticipantId) -> Seq<ChatMessageView> {
        self.history.map_values(|turn: DialogueTurnView| self.retold(turn, listener))
            + self.queue.map_values(|content: Seq<char>| text_message(ChatRole::User, content))
    }
}

/// Controller for managing a multi-LLM dialogue. `P` is what speaks for a participant.
pub struct DialogueController<P> {
    /// Active participants with live providers.
    participants: Vec<ActiveParticipant<P>>,
    /// Configuration for the dialogue.
    config: DialogueConfig,
    /// Current participant index (for round-robin).
    current_index: usize,
    /// Current state of the dialogue.
    state: DialogueState,
    /// Queue of user messages to inject.
    user_message_queue: VecDeque<String>,
    /// History of turns.
    history: Vec<DialogueTurn>,
    /// Event sender for notifying listeners.
    event_sender: Option<UnboundedSender<DialogueEvent>>,
}

impl<P> View for DialogueController<P> {
    type V = DialogueView<P>;

    closed spec fn view(&self) -> DialogueView<P> {
        DialogueView {
            participants: self.participants@.map_values(|p: ActiveParticipant<P>| p@),
            config: self.config@,
            current_index: self.current_index as int,
            state: self.state,
            queue: self.user_message_queue@.map_values(|content: String| content@),
            history: self.history@.map_values(|turn: DialogueTurn| turn@),
            listener: match self.event_sender {
                Some(sender) => Some(
                    ListenerView { channel: sender_channel(sender), sent: sent_events(sender) },
                ),
                None => None,
            },
        }
    }
}

/// A controller is seen with everything that it holds: participants, queue and history in order,
/// and as its listener the channel of its sender with all that was handed to that sender.
proof fn law_controller_is_seen_whole<P>(controller: DialogueController<P>)
    ensures
        controller@.participants.len() == controller.participants@.len(),
        forall|i: int|
            0 <= i < controller.participants@.len() ==> #[trigger] controller@.participants[i]
                == controller.participants@[i]@,
        controller@.config == controller.config@,
        controller@.current_index == controller.current_index,
        controller@.state == controller.state,
        controller@.queue.len() == controller.user_message_queue@.len(),
        forall|i: int|
            0 <= i < controller.user_message_queue@.len() ==> #[trigger] controller@.queue[i]
                == controller.user_message_queue@[i]@,
        controller@.history.len() == controller.history@.len(),
        forall|i: int|
            0 <= i < controller.history@.len() ==> #[trigger] controller@.history[i]
                == controller.history@[i]@,
        match controller.event_sender {
            Some(sender) => controller@.listener matches Some(listener) && listener.channel
                == sender_channel(sender) && listener.sent == sent_events(sender),
            None => controller@.listener is None,
        },
{
}

impl<P> DialogueController<P> {
    /// Creates a new dialogue controller.
    #[must_use]
    pub fn new(config: DialogueConfig) -> (controller: Self)
        ensures
            controller@ == (DialogueView::<P> {
                participants: Seq::empty(),
                config: config@,
                current_index: 0,
                state: DialogueState::Idle,
                queue: Seq::empty(),
                history: Seq::empty(),
                listener: None,
            }),
            controller@.well_formed(),
    {
        let controller = DialogueController {
            participants: Vec::new(),
            config,
            current_index: 0,
            state: DialogueState::Idle,
            user_message_queue: VecDeque::new(),
            history: Vec::new(),
            event_sender: None,
        };
        assert(controller@.participants =~= Seq::empty());
        assert(controller@.queue =~= Seq::empty());
        assert(controller@.history =~= Seq::empty());
        controller
    }

    /// Sets the event sender for receiving dialogue events.
    pub fn set_event_sender(&mut self, sender: UnboundedSender<DialogueEvent>)
        ensures
            final(self)@ == (DialogueView {
                listener: Some(
                    ListenerView { channel: sender_channel(sender), sent: sent_events(sender) },
                ),
                ..old(self)@
            }),
    {
        self.event_sender = Some(sender);
    }

    /// Creates an event receiver channel.
    #[must_use]
    pub fn create_event_channel(&mut self) -> (receiver: UnboundedReceiver<DialogueEvent>)
        ensures
            final(self)@ == (DialogueView {
                listener: Some(
                    ListenerView { channel: receiver_channel(receiver), sent: Seq::empty() },
                ),
                ..old(self)@
            }),
            old(self)@.listener matches Some(before) ==> receiver_channel(receiver)
                != before.channel,
    {
        let (sender, receiver) = event_channel(&self.event_sender);
        self.event_sender = Some(sender);
        receiver
    }

    /// Emits an event to listeners.
    fn emit_event(&mut self, event: DialogueEvent)
        ensures
            final(self)@ == old(self)@.telling(event@),
    {
        if let Some(sender) = &mut self.event_sender {
            send_event(sender, event);
        }
    }

    /// Finds the first participant with an identifier.
    fn position(&self, id: ParticipantId) -> (position: Option<usize>)
        ensures
            match position {
                Some(found) => position_of_id(self@.roster(), id) == Some(found as int) && found
                    < self@.participants.len(),
                None => position_of_id(self@.roster(), id) is None,
            },
    {
        proof {
            lemma_position_of_id(self@.roster(), id);
        }
        for i in 0..self.participants.len()
            invariant
                forall|j: int| 0 <= j < i ==> (#[trigger] self@.roster()[j]).id != id,
        {
            if self.participants[i].config.id == id {
                assert(self@.roster()[i as int].id == id);
                proof {
                    lemma_position_of_id(self@.roster(), id);
                }
                return Some(i);
            }
        }
        None
    }

    /// Returns the current state.
    #[must_use]
    pub fn state(&self) -> (state: DialogueState)
        ensures
            state == self@.state,
    {
        self.state
    }

    /// Returns the configuration.
    #[must_use]
    pub fn config(&self) -> (config: &DialogueConfig)
        ensures
            config@ == self@.config,
    {
        &self.config
    }

    /// Returns the participants.
    #[must_use]
    pub fn participants(&self) -> (participants: &[ActiveParticipant<P>])
        ensures
            participants@.map_values(|p: ActiveParticipant<P>| p@) == self@.participants,
    {
        self.participants.as_slice()
    }

    /// Returns the dialogue history.
    #[must_use]
    pub fn history(&self) -> (history: &[DialogueTurn])
        ensures
            history@.map_values(|turn: DialogueTurn| turn@) == self@.history,
    {
        self.history.as_slice()
    }

    /// Returns the number of active participants.
    #[must_use]
    pub fn active_participant_count(&self) -> (count: usize)
        ensures
            count == self@.active_count(),
    {
        let mut count: usize = 0;
        let ghost active = activity(self@.roster());
        for i in 0..self.participants.len()
            invariant
                active == activity(self@.roster()),
                count == count_active(active.take(i as int)),
                count <= i,
        {
            proof {
                let counted = active.take(i + 1);
                assert(counted.drop_last() =~= active.take(i as int));
                assert(counted.last() == self.participants@[i as int].config.active);
            }
            if self.participants[i].config.active {
                count = count + 1;
            }
        }
        assert(active.take(self.participants.len() as int) =~= active);
        count
    }

    /// Adds a participant to the dialogue.
    pub fn add_participant(&mut self, config: DialogueParticipant, provider: P) -> (id:
        ParticipantId)
        ensures
            id == config.id,
            final(self)@ == old(self)@.joined(config@, provider),
            old(self)@.well_formed() ==> final(self)@.well_formed(),
    {
        let id = config.id;
        let name = config.display_name.clone();
        self.participants.push(ActiveParticipant { config, provider });
        assert(self@.participants =~= old(self)@.participants.push(
            ActiveParticipantView { config: config@, provider },
        ));
        self.emit_event(
            DialogueEvent::ParticipantJoined { participant_id: id, participant_name: name },
        );
        id
    }

    /// Removes a participant from the dialogue.
    pub fn remove_participant(&mut self, id: ParticipantId) -> (found: bool)
        requires
            old(self)@.well_formed(),
        ensures
            found == (position_of_id(old(self)@.roster(), id) is Some),
            final(self)@ == old(self)@.removed(id),
            final(self)@.well_formed(),
    {
        if let Some(pos) = self.position(id) {
            self.participants.remove(pos);
            if pos < self.current_index {
                self.current_index = self.current_index - 1;
            } else if self.current_index >= self.participants.len()
                && !self.participants.is_empty() {
                self.current_index = 0;
            }
            assert(self@.participants =~= old(self)@.participants.remove(pos as int));
            self.emit_event(DialogueEvent::ParticipantLeft { participant_id: id });
            if self.active_participant_count() == 0 {
                self.stop(StopReason::AllParticipantsLeft);
            }
            true
        } else {
            false
        }
    }

    /// Sets the participant at a position active or inactive.
    fn set_activity(&mut self, pos: usize, active: bool)
        requires
            pos < old(self)@.participants.len(),
        ensures
            final(self)@ == old(self)@.with_activity(pos as int, active),
    {
        self.participants[pos].config.active = active;
        assert(self@.participants =~= old(self)@.with_activity(pos as int, active).participants);
    }

    /// Deactivates a participant (kick without removing history).
    pub fn kick_participant(&mut self, id: ParticipantId) -> (found: bool)
        ensures
            found == (position_of_id(old(self)@.roster(), id) is Some),
            final(self)@ == old(self)@.kicked(id),
            old(self)@.well_formed() ==> final(self)@.well_formed(),
    {
        if let Some(pos) = self.position(id) {
            self.set_activity(pos, false);
            self.emit_event(DialogueEvent::ParticipantLeft { participant_id: id });
            if self.active_participant_count() == 0 {
                self.stop(StopReason::AllParticipantsLeft);
            }
            true
        } else {
            false
        }
    }

    /// Reactivates a participant (invite back).
    pub fn invite_participant(&mut self, id: ParticipantId) -> (found: bool)
        ensures
            found == (position_of_id(old(self)@.roster(), id) is Some),
            final(self)@ == old(self)@.invited(id),
            old(self)@.well_formed() ==> final(self)@.well_formed(),
    {
        if let Some(pos) = self.position(id) {
            let name = self.participants[pos].config.display_name.clone();
            self.set_activity(pos, true);
            self.emit_event(
                DialogueEvent::ParticipantJoined { participant_id: id, participant_name: name },
            );
            true
        } else {
            false
        }
    }

    /// Queues a user message to be injected into the dialogue.
    pub fn inject_user_message(&mut self, content: String)
        ensures
            final(self)@ == old(self)@.injected(content@),
            old(self)@.well_formed() ==> final(self)@.well_formed(),
    {
        self.user_message_queue.push_back(content.clone());
        assert(self@.queue =~= old(self)@.queue.push(content@));
        self.emit_event(DialogueEvent::UserMessage { content });
    }

    /// Starts the dialogue with the initial prompt.
    pub fn start(&mut self)
        ensures
            final(self)@ == old(self)@.started(),
            old(self)@.well_formed() ==> final(self)@.well_formed(),
    {
        if self.participants.is_empty() {
            return;
        }
        self.state = DialogueState::WaitingNext;
        self.emit_event(DialogueEvent::Started);
        if !self.config.initial_prompt.as_str().is_empty() {
            let ghost before = self@;
            self.user_message_queue.push_back(self.config.initial_prompt.clone());
            assert(self@.queue =~= before.queue.push(self@.config.initial_prompt));
        }
    }

    /// Stops the dialogue.
    pub fn stop(&mut self, reason: StopReason)
        ensures
            final(self)@ == old(self)@.stopped(reason),
            old(self)@.well_formed() ==> final(self)@.well_formed(),
    {
        self.state = DialogueState::Stopped;
        self.emit_event(DialogueEvent::Stopped { reason });
    }

    /// Pauses the dialogue.
    pub fn pause(&mut self)
        ensures
            final(self)@ == old(self)@.paused(),
            old(self)@.well_formed() ==> final(self)@.well_formed(),
    {
        if self.state == DialogueState::WaitingNext {
            self.state = DialogueState::Paused;
        }
    }

    /// Resumes a paused dialogue.
    pub fn resume(&mut self)
        ensures
            final(self)@ == old(self)@.resumed(),
            old(self)@.well_formed() ==> final(self)@.well_formed(),
    {
        if self.state == DialogueState::Paused {
            self.state = DialogueState::WaitingNext;
        }
    }

    /// Finds the first active participant at a seat or after it, round the table.
    fn first_active_seat(&self, start: usize) -> (found: Option<usize>)
        requires
            start < self@.participants.len(),
        ensures
            match found {
                Some(idx) => first_active(activity(self@.roster()), start as int) == Some(
                    idx as int,
                ) && idx < self@.participants.len(),
                None => first_active(activity(self@.roster()), start as int) is None,
            },
    {
        let mut idx: usize = start;
        let ghost active = activity(self@.roster());
        let ghost mut step: int = 0;
        loop
            invariant
                active == activity(self@.roster()),
                0 <= step < active.len(),
                active.len() == self.participants.len(),
                start < self.participants.len(),
                idx < self.participants.len(),
                idx == seat(start as int, step, active.len() as int),
                first_active(active, start as int) == first_active_from(
                    active,
                    start as int,
                    step,
                ),
            decreases active.len() - step,
        {
            assert(active[idx as int] == self.participants@[idx as int].config.active);
            if self.participants[idx].config.active {
                return Some(idx);
            }
            idx = next_seat(idx, self.participants.len());
            proof {
                step = step + 1;
            }
            if idx == start {
                return None;
            }
        }
    }

    /// Returns the next participant for a turn.
    #[must_use]
    pub fn next_participant(&self) -> (next: Option<&ActiveParticipant<P>>)
        requires
            self@.well_formed(),
        ensures
            match next {
                Some(found) => self@.next_position() matches Some(position) && 0 <= position
                    < self@.participants.len() && found@ == self@.participants[position],
                None => self@.next_position() is None,
            },
    {
        if self.participants.is_empty() {
            return None;
        }
        match self.first_active_seat(self.current_index) {
            Some(idx) => Some(&self.participants[idx]),
            None => None,
        }
    }

    /// Advances to the next turn.
    pub fn advance_turn(&mut self)
        requires
            old(self)@.well_formed(),
        ensures
            final(self)@ == old(self)@.advanced(),
            final(self)@.well_formed(),
    {
        if self.participants.is_empty() {
            return;
        }
        let size = self.participants.len();
        let next: usize = match self.first_active_seat(self.current_index) {
            Some(here) => {
                let start = next_seat(here, size);
                match self.first_active_seat(start) {
                    Some(found) => found,
                    None => start,
                }
            },
            None => next_seat(self.current_index, size),
        };
        self.current_index = next;
    }

    /// Records a completed turn, with the time that the clock shows.
    pub fn record_turn(
        &mut self,
        participant_id: ParticipantId,
        content: String,
        usage: Option<Usage>,
    )
        ensures
            exists|timestamp: Timestamp|
                timestamp.is_reading() && final(self)@ == old(self)@.recorded(
                    DialogueTurnView {
                        participant_id,
                        content: content@,
                        timestamp,
                        usage,
                    },
                ),
            old(self)@.well_formed() ==> final(self)@.well_formed(),
    {
        let now = utc_now();
        self.record_turn_at(participant_id, content, now, usage);
    }

    /// Records a turn that was completed at a given time.
    pub fn record_turn_at(
        &mut self,
        participant_id: ParticipantId,
        content: String,
        timestamp: Timestamp,
        usage: Option<Usage>,
    )
        ensures
            final(self)@ == old(self)@.recorded(
                DialogueTurnView { participant_id, content: content@, timestamp, usage },
            ),
            old(self)@.well_formed() ==> final(self)@.well_formed(),
    {
        let turn = DialogueTurn { participant_id, content: content.clone(), timestamp, usage };
        self.history.push(turn);
        assert(self@.history =~= old(self)@.history.push(turn@));
        self.emit_event(DialogueEvent::TurnCompleted { participant_id, content, usage });
    }

    /// Drains any queued user messages.
    pub fn drain_user_messages(&mut self) -> (messages: Vec<String>)
        ensures
            messages@.map_values(|content: String| content@) == old(self)@.queue,
            final(self)@ == (DialogueView { queue: Seq::empty(), ..old(self)@ }),
    {
        let mut messages: Vec<String> = Vec::new();
        let ghost queued = self.user_message_queue@;
        while self.user_message_queue.len() > 0
            invariant
                queued == old(self).user_message_queue@,
                messages@ + self.user_message_queue@ == queued,
                self.participants == old(self).participants,
                self.config == old(self).config,
                self.current_index == old(self).current_index,
                self.state == old(self).state,
                self.history == old(self).history,
                self.event_sender == old(self).event_sender,
            decreases self.user_message_queue.len(),
        {
            let ghost before = messages@ + self.user_message_queue@;
            if let Some(content) = self.user_message_queue.pop_front() {
                messages.push(content);
            }
            assert(messages@ + self.user_message_queue@ =~= before);
        }
        assert(messages@ =~= queued);
        assert(self@.queue =~= Seq::empty());
        messages
    }

    /// Builds the message context for a participant's turn.
    #[must_use]
    pub fn build_context_messages(&self, participant: &ActiveParticipant<P>) -> (messages: Vec<
        ChatMessage,
    >)
        ensures
            messages@.map_values(|message: ChatMessage| message@) == self@.context(
                participant.config.id,
            ),
    {
        let mut messages: Vec<ChatMessage> = Vec::new();
        let ghost id = participant.config.id;
        for i in 0..self.history.len()
            invariant
                id == participant.config.id,
                messages.len() == i,
                forall|j: int|
                    0 <= j < i ==> (#[trigger] messages@[j])@ == self@.retold(
                        self@.history[j],
                        id,
                    ),
        {
            let turn = &self.history[i];
            let role = if turn.participant_id == participant.config.id {
                ChatRole::Assistant
            } else {
                ChatRole::User
            };
            let content = match self.position(turn.participant_id) {
                Some(position) => attributed(
                    self.participants[position].config.display_name.as_str(),
                    turn.content.as_str(),
                ),
                None => attributed("Unknown", turn.content.as_str()),
            };
            messages.push(ChatMessage::text(role, content));
        }
        let ghost told = messages@.len() as int;
        for i in 0..self.user_message_queue.len()
            invariant
                id == participant.config.id,
                told == self@.history.len(),
                messages.len() == told + i,
                forall|j: int|
                    0 <= j < told ==> (#[trigger] messages@[j])@ == self@.retold(
                        self@.history[j],
                        id,
                    ),
                forall|j: int|
                    told <= j < told + i ==> (#[trigger] messages@[j])@ == text_message(
                        ChatRole::User,
                        self@.queue[j - told],
                    ),
        {
            messages.push(ChatMessage::text(ChatRole::User, self.user_message_queue[i].clone()));
        }
        assert(messages@.map_values(|message: ChatMessage| message@) =~= self@.context(id));
        messages
    }

    /// Sets the dialogue state.
    pub fn set_state(&mut self, state: DialogueState)
        ensures
            final(self)@ == (DialogueView { state, ..old(self)@ }),
    {
        self.state = state;
    }

    /// Gets participant by ID.
    #[must_use]
    pub fn get_participant(&self, id: ParticipantId) -> (participant: Option<&ActiveParticipant<P>>)
        ensures
            match participant {
                Some(found) => position_of_id(self@.roster(), id) matches Some(position) && 0
                    <= position < self@.participants.len() && found@
                    == self@.participants[position],
                None => position_of_id(self@.roster(), id) is None,
            },
    {
        match self.position(id) {
            Some(position) => Some(&self.participants[position]),
            None => None,
        }
    }

    /// Gets participant by index.
    #[must_use]
    pub fn get_participant_by_index(&self, index: usize) -> (participant: Option<
        &ActiveParticipant<P>,
    >)
        ensures
            match participant {
                Some(found) => index < self@.participants.len() && found@
                    == self@.participants[index as int],
                None => index >= self@.participants.len(),
            },
    {
        if index < self.participants.len() {
            Some(&self.participants[index])
        } else {
            None
        }
    }

    /// Finds a participant by display name.
    #[must_use]
    pub fn find_participant_by_name(&self, name: &str) -> (participant: Option<
        &ActiveParticipant<P>,
    >)
        ensures
            match participant {
                Some(found) => position_of_name(self@.roster(), name@) matches Some(position) && 0
                    <= position < self@.participants.len() && found@
                    == self@.participants[position],
                None => position_of_name(self@.roster(), name@) is None,
            },
    {
        proof {
            lemma_position_of_name(self@.roster(), name@);
        }
        for i in 0..self.participants.len()
            invariant
                forall|j: int|
                    0 <= j < i ==> !same_ignoring_ascii_case(
                        (#[trigger] self@.roster()[j]).display_name,
                        name@,
                    ),
        {
            assert(self@.roster()[i as int] == self.participants@[i as int].config@);
            if eq_ignore_ascii_case(self.participants[i].config.display_name.as_str(), name) {
                proof {
                    lemma_position_of_name(self@.roster(), name@);
                }
                return Some(&self.participants[i]);
            }
        }
        None
    }

    /// Describes the controller for diagnostics.
    pub fn debug_text(&self) -> (text: String)
        ensures
            text@ == "DialogueController { participants: "@ + decimal_text(
                self@.participants.len(),
            ) + ", state: "@ + state_name(self@.state) + ", current_index: "@ + decimal_text(
                self@.current_index as nat,
            ) + ", history_len: "@ + decimal_text(self@.history.len()) + " }"@,
    {
        let state: &str = match self.state {
            DialogueState::Idle => "Idle",
            DialogueState::Streaming => "Streaming",
            DialogueState::WaitingNext => "WaitingNext",
            DialogueState::Paused => "Paused",
            DialogueState::Stopped => "Stopped",
        };
        "DialogueController { participants: ".to_string().concat(
            decimal(self.participants.len()).as_str(),
        ).concat(", state: ").concat(state).concat(", current_index: ").concat(
            decimal(self.current_index).as_str(),
        ).concat(", history_len: ").concat(decimal(self.history.len()).as_str()).concat(" }")
    }
}

/// What a state is called in diagnostics.
pub open spec fn state_name(state: DialogueState) -> Seq<char> {
    match state {
        DialogueState::Idle => "Idle"@,
        DialogueState::Streaming => "Streaming"@,
        DialogueState::WaitingNext => "WaitingNext"@,
        DialogueState::Paused => "Paused"@,
        DialogueState::Stopped => "Stopped"@,
    }
}

/// Every state is called by its own name.
pub proof fn law_states_are_called_by_name()
    ensures
        state_name(DialogueState::Idle) == "Idle"@,
        state_name(DialogueState::Streaming) == "Streaming"@,
        state_name(DialogueState::WaitingNext) == "WaitingNext"@,
        state_name(DialogueState::Paused) == "Paused"@,
        state_name(DialogueState::Stopped) == "Stopped"@,
{
}

} // verus!
