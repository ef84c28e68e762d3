//! The application's side of a dialogue: starting, changing, continuing and stopping it.

use vstd::prelude::*;

use crate::chat::{ChatMessage, ChatMessageView};
use crate::config::{DialogueConfig, DialogueConfigView, DialogueMode, TurnMode};
use crate::controller::{DialogueController, DialogueState, DialogueView};
use crate::conversation::{
    Conversation, ConversationId, ConversationMessage, ConversationMessageView, ConversationStore,
    ConversationStoreView, MessageId, MessageKind, MessageKindView, MessageRole, MessageState,
};
use crate::events::StopReason;
use crate::messages::{tell_conversation, told_conversation};
use crate::overlay::{
    drafted_participant, fresh_builder, DialogueBuilderResult, DialogueBuilderState,
    DialogueBuilderView, OverlayState, OverlayView,
};
use crate::participant::{
    designated_participant, position_of_name, ActiveParticipant, ActiveParticipantView,
    DialogueParticipant, DialogueParticipantView, ParticipantColor, ParticipantId,
};
use crate::provider::{
    selection_of, ProviderId, ProviderInstance, ProviderOverrides, ProviderOverridesView,
    ProviderRegistry, ProviderSelection, ProviderSelectionView,
};
use crate::text::{decimal, decimal_text};

verus! {

/// What the application is doing.
#[derive(Debug, PartialEq, Eq)]
pub enum AppStatus {
    /// Nothing.
    Idle,
    /// A response is being streamed.
    Streaming,
    /// The last request failed.
    Error(String),
}

/// What the application is doing, as the contracts see it.
pub enum AppStatusView {
    Idle,
    Streaming,
    Error(Seq<char>),
}

impl View for AppStatus {
    type V = AppStatusView;

    open spec fn view(&self) -> AppStatusView {
        match *self {
            AppStatus::Idle => AppStatusView::Idle,
            AppStatus::Streaming => AppStatusView::Streaming,
            AppStatus::Error(message) => AppStatusView::Error(message@),
        }
    }
}

/// The application's state. `P` is what speaks for a participant.
pub struct AppState<P> {
    /// What is shown over the conversation.
    pub overlay: OverlayState,
    /// What the application is doing.
    pub status: AppStatus,
    /// What the user was told, oldest first.
    pub notices: Vec<String>,
    /// The providers that are known.
    pub provider_registry: ProviderRegistry,
    /// The open conversations.
    pub conversations: ConversationStore,
    /// The dialogue that is held.
    pub dialogue_controller: Option<DialogueController<P>>,
}

/// The application's state, as the contracts see it.
pub struct AppView<P> {
    pub overlay: OverlayView,
    pub status: AppStatusView,
    pub notices: Seq<Seq<char>>,
    pub providers: Seq<Seq<char>>,
    pub conversations: ConversationStoreView,
    pub dialogue: Option<DialogueView<P>>,
}

/// A response that is to be streamed. `C` is what a provider can do.
#[derive(Debug)]
pub struct StreamRequest<P, C> {
    /// The conversation that the response belongs to.
    pub conversation_id: ConversationId,
    /// The message that the response fills.
    pub message_id: MessageId,
    /// Speaks.
    pub provider: P,
    /// What the provider is told.
    pub messages: Vec<ChatMessage>,
    /// What the provider can do.
    pub capabilities: C,
}

/// A response that is to be streamed, as the contracts see it.
pub struct StreamRequestView<P, C> {
    pub conversation_id: ConversationId,
    pub message_id: MessageId,
    pub provider: P,
    pub messages: Seq<ChatMessageView>,
    pub capabilities: C,
}

impl<P, C> View for StreamRequest<P, C> {
    type V = StreamRequestView<P, C>;

    open spec fn view(&self) -> StreamRequestView<P, C> {
        StreamRequestView {
            conversation_id: self.conversation_id,
            message_id: self.message_id,
            provider: self.provider,
            messages: self.messages@.map_values(|message: ChatMessage| message@),
            capabilities: self.capabilities,
        }
    }
}

/// How far the participants of a dialogue could be set up.
pub enum Setup {
    /// The designation at a position names nobody.
    Malformed(int),
    /// The provider for the participant at a position could not be made.
    Unbuilt(int),
    /// Every participant has a provider.
    Ready,
}

/// How far participants are set up, from a position on, when `outcomes` came of asking for their
/// providers in turn. The first failure ends it.
pub open spec fn setup_from<P, C>(
    entries: Seq<Option<DialogueParticipantView>>,
    outcomes: Seq<Option<ProviderInstance<P, C>>>,
    position: int,
) -> Setup
    decreases entries.len() - position,
{
    if position >= entries.len() {
        Setup::Ready
    } else if entries[position] is None {
        Setup::Malformed(position)
    } else if outcomes[position] is None {
        Setup::Unbuilt(position)
    } else {
        setup_from(entries, outcomes, position + 1)
    }
}

/// How far participants are set up.
pub open spec fn setup<P, C>(
    entries: Seq<Option<DialogueParticipantView>>,
    outcomes: Seq<Option<ProviderInstance<P, C>>>,
) -> Setup {
    setup_from(entries, outcomes, 0)
}

/// For how many participants a provider was asked for.
pub open spec fn asked<P, C>(
    entries: Seq<Option<DialogueParticipantView>>,
    outcomes: Seq<Option<ProviderInstance<P, C>>>,
) -> int {
    match setup(entries, outcomes) {
        Setup::Malformed(position) => position,
        Setup::Unbuilt(position) => position + 1,
        Setup::Ready => entries.len() as int,
    }
}

/// Whether `outcome` is what `build` gave when it was asked for a model.
pub open spec fn is_answer<
    P,
    C,
    F: Fn(&ProviderSelection, ProviderOverrides) -> Option<ProviderInstance<P, C>>,
>(
    build: F,
    selection: ProviderSelectionView,
    system: Option<Seq<char>>,
    outcome: Option<ProviderInstance<P, C>>,
) -> bool {
    exists|s: ProviderSelection, o: ProviderOverrides|
        s@ == selection && o@ == (ProviderOverridesView { system }) && #[trigger] call_ensures(
            build,
            (&s, o),
            outcome,
        )
}

/// Whether `outcomes` are what `build` gave for the participants for whom a provider was asked
/// for, and for no other.
pub open spec fn are_answers<
    P,
    C,
    F: Fn(&ProviderSelection, ProviderOverrides) -> Option<ProviderInstance<P, C>>,
>(
    build: F,
    entries: Seq<Option<DialogueParticipantView>>,
    outcomes: Seq<Option<ProviderInstance<P, C>>>,
) -> bool {
    &&& outcomes.len() == asked(entries, outcomes)
    &&& forall|i: int|
        0 <= i < outcomes.len() ==> is_answer(
            build,
            selection_of(entries[i]->0),
            None,
            #[trigger] outcomes[i],
        )
}

/// The participants with their providers.
pub open spec fn seated<P, C>(
    entries: Seq<Option<DialogueParticipantView>>,
    outcomes: Seq<Option<ProviderInstance<P, C>>>,
) -> Seq<ActiveParticipantView<P>> {
    Seq::new(
        entries.len(),
        |i: int|
            ActiveParticipantView { config: entries[i]->0, provider: outcomes[i]->0.provider },
    )
}

/// The participants that designations stand for.
pub open spec fn designated_participants(
    designations: Seq<Seq<char>>,
    ids: Seq<ParticipantId>,
) -> Seq<Option<DialogueParticipantView>> {
    Seq::new(
        designations.len(),
        |i: int| designated_participant(designations[i], i as nat, ids[i]),
    )
}

/// The participants that a builder proposes.
pub open spec fn drafted_participants(
    builder: DialogueBuilderView,
    ids: Seq<ParticipantId>,
) -> Seq<Option<DialogueParticipantView>> {
    Seq::new(
        builder.participants.len(),
        |i: int| Some(drafted_participant(builder.participants[i], ids[i])),
    )
}

/// The message that takes the place of a response until it comes.
pub open spec fn placeholder(
    id: MessageId,
    participant_name: Seq<char>,
    color: ParticipantColor,
) -> ConversationMessageView {
    ConversationMessageView {
        id,
        role: MessageRole::Assistant,
        kind: MessageKindView::Text(Seq::empty()),
        state: MessageState::Streaming,
        participant_name: Some(participant_name),
        participant_color: Some(color),
    }
}

/// What the user is told when fewer than two participants are named.
pub open spec fn too_few_text() -> Seq<char> {
    "Multi-LLM dialogue requires at least 2 participants"@
}

/// What the user is told when no dialogue is held.
pub open spec fn no_dialogue_text() -> Seq<char> {
    "No active dialogue"@
}

/// What the user is told when nobody takes turns.
pub open spec fn nobody_active_text() -> Seq<char> {
    "No active participants"@
}

/// What the user is told of a designation that names nobody.
pub open spec fn malformed_text(designation: Seq<char>) -> Seq<char> {
    "Invalid participant format: "@ + designation + ". Use provider:model"@
}

/// What the user is told when a provider could not be made.
pub open spec fn unbuilt_text(name: Seq<char>) -> Seq<char> {
    "Failed to create provider for "@ + name
}

/// What the user is told of a provider that is not known.
pub open spec fn unknown_provider_text(provider: Seq<char>) -> Seq<char> {
    "Unknown provider: "@ + provider
}

/// What the user is told of a name that nobody goes by.
pub open spec fn not_found_text(name: Seq<char>) -> Seq<char> {
    "Participant '"@ + name + "' not found"@
}

/// What the user is told when a dialogue was started.
pub open spec fn started_text(participants: nat) -> Seq<char> {
    "Dialogue started with "@ + decimal_text(participants)
        + " participants. Type /continue to begin or send a message."@
}

/// What the user is told when a participant came in.
pub open spec fn invited_text(name: Seq<char>) -> Seq<char> {
    "Invited "@ + name + " to dialogue"@
}

/// What the user is told when a participant was put out.
pub open spec fn kicked_text(name: Seq<char>) -> Seq<char> {
    "Kicked "@ + name + " from dialogue"@
}

/// What the user is told when a dialogue was stopped.
pub open spec fn stopped_text() -> Seq<char> {
    "Dialogue stopped"@
}

/// What the user is told when a participant's turn begins.
pub open spec fn responding_text(name: Seq<char>) -> Seq<char> {
    name + " is responding..."@
}

impl<P> AppView<P> {
    /// The dialogue, if one is held, is well formed.
    pub open spec fn well_formed(self) -> bool {
        self.dialogue matches Some(dialogue) ==> dialogue.well_formed()
    }

    /// The state when a request failed: nothing but the status changes.
    pub open spec fn failed(self, message: Seq<char>) -> Self {
        AppView { status: AppStatusView::Error(message), ..self }
    }

    /// The state when the user was told something.
    pub open spec fn noticed(self, text: Seq<char>) -> Self {
        AppView { notices: self.notices.push(text), ..self }
    }

    /// The state when a dialogue was started with participants that have their providers. It is
    /// idle, and nobody listens to it yet. The active conversation, if there is one, takes part.
    pub open spec fn dialogue_begun(
        self,
        config: DialogueConfigView,
        participants: Seq<ActiveParticipantView<P>>,
    ) -> Self {
        let roster = participants.map_values(|p: ActiveParticipantView<P>| p.config);
        AppView {
            conversations: match self.conversations.active_conversation() {
                Some(conversation) => self.conversations.with_active(
                    conversation.dialogue_started(config.mode, config, roster),
                ),
                None => self.conversations,
            },
            dialogue: Some(
                DialogueView {
                    participants,
                    config,
                    current_index: 0,
                    state: DialogueState::Idle,
                    queue: Seq::empty(),
                    history: Seq::empty(),
                    listener: None,
                },
            ),
            status: AppStatusView::Idle,
            ..self
        }.noticed(started_text(participants.len()))
    }

    /// The state and the answer when a dialogue was asked for by designations.
    pub open spec fn dialogue_started<C>(
        self,
        designations: Seq<Seq<char>>,
        ids: Seq<ParticipantId>,
        outcomes: Seq<Option<ProviderInstance<P, C>>>,
    ) -> (Self, bool) {
        let entries = designated_participants(designations, ids);
        let config = DialogueConfigView {
            mode: DialogueMode::FreeForm,
            initial_prompt: Seq::empty(),
            turn_mode: TurnMode::RoundRobin,
        };
        if designations.len() < 2 {
            (self.failed(too_few_text()), false)
        } else {
            match setup(entries, outcomes) {
                Setup::Malformed(i) => (self.failed(malformed_text(designations[i])), false),
                Setup::Unbuilt(i) => (self.failed(unbuilt_text(designations[i])), false),
                Setup::Ready => (self.dialogue_begun(config, seated(entries, outcomes)), true),
            }
        }
    }

    /// The state and the answer when a dialogue was asked for through the builder.
    pub open spec fn dialogue_built<C>(
        self,
        builder: DialogueBuilderView,
        ids: Seq<ParticipantId>,
        outcomes: Seq<Option<ProviderInstance<P, C>>>,
    ) -> (Self, bool) {
        let entries = drafted_participants(builder, ids);
        let config = DialogueConfigView {
            mode: builder.mode,
            initial_prompt: builder.initial_prompt,
            turn_mode: TurnMode::RoundRobin,
        };
        if builder.participants.len() < 2 {
            (self.failed(too_few_text()), false)
        } else {
            match setup(entries, outcomes) {
                Setup::Unbuilt(i) => {
                    let draft = builder.participants[i];
                    (self.failed(unbuilt_text(draft.provider_id + ":"@ + draft.model_id)), false)
                },
                _ => (self.dialogue_begun(config, seated(entries, outcomes)), true),
            }
        }
    }

    /// The participant that a designation stands for when it is invited to the dialogue that is
    /// held.
    pub open spec fn invited_participant(
        self,
        designation: Seq<char>,
        id: ParticipantId,
    ) -> Option<DialogueParticipantView> {
        match self.dialogue {
            Some(dialogue) => designated_participant(designation, dialogue.participants.len(), id),
            None => None,
        }
    }

    /// The state when a participant with its provider came into the dialogue that is held.
    pub open spec fn participant_admitted(
        self,
        participant: DialogueParticipantView,
        provider: P,
    ) -> Self {
        AppView {
            dialogue: Some(self.dialogue->0.joined(participant, provider)),
            conversations: match self.conversations.active_conversation() {
                Some(conversation) => self.conversations.with_active(
                    conversation.participant_joined(participant),
                ),
                None => self.conversations,
            },
            ..self
        }.noticed(invited_text(participant.display_name))
    }

    /// The state and the answer when a participant was invited.
    pub open spec fn participant_invited<C>(
        self,
        designation: Seq<char>,
        id: ParticipantId,
        outcome: Option<ProviderInstance<P, C>>,
    ) -> (Self, bool) {
        if self.dialogue is None {
            (self.failed(no_dialogue_text()), false)
        } else {
            match self.invited_participant(designation, id) {
                None => (self.failed(malformed_text(designation)), false),
                Some(participant) => if !self.providers.contains(participant.provider_id) {
                    (self.failed(unknown_provider_text(participant.provider_id)), false)
                } else {
                    match outcome {
                        None => (self.failed(unbuilt_text(designation)), false),
                        Some(instance) => (
                            self.participant_admitted(participant, instance.provider),
                            true,
                        ),
                    }
                },
            }
        }
    }

    /// The state and the answer when a participant was put out by name.
    pub open spec fn participant_kicked(self, name: Seq<char>) -> (Self, bool) {
        match self.dialogue {
            None => (self.failed(no_dialogue_text()), false),
            Some(dialogue) => match position_of_name(dialogue.roster(), name) {
                None => (self.failed(not_found_text(name)), false),
                Some(position) => {
                    let config = dialogue.participants[position].config;
                    (
                        AppView {
                            dialogue: Some(dialogue.kicked(config.id)),
                            conversations: match self.conversations.active_conversation() {
                                Some(conversation) => self.conversations.with_active(
                                    conversation.participant_kicked(config.id),
                                ),
                                None => self.conversations,
                            },
                            ..self
                        }.noticed(kicked_text(config.display_name)),
                        true,
                    )
                },
            },
        }
    }

    /// The state when the dialogue that is held was stopped.
    pub open spec fn dialogue_stopped(self) -> Self {
        AppView {
            dialogue: None,
            conversations: match self.conversations.active_conversation() {
                Some(conversation) => self.conversations.with_active(
                    conversation.dialogue_ended(),
                ),
                None => self.conversations,
            },
            status: AppStatusView::Idle,
            ..self
        }.noticed(stopped_text())
    }

    /// The participant whose turn is next in the dialogue that is held.
    pub open spec fn next_speaker(self) -> Option<DialogueParticipantView> {
        match self.dialogue {
            Some(dialogue) => match dialogue.next_position() {
                Some(position) => Some(dialogue.participants[position].config),
                None => None,
            },
            None => None,
        }
    }

    /// The conversations with a placeholder in the active one, if that is the one meant.
    pub open spec fn with_placeholder(
        self,
        conversation_id: ConversationId,
        message: ConversationMessageView,
    ) -> Self {
        AppView {
            conversations: match self.conversations.active_conversation() {
                Some(conversation) => if conversation.id == conversation_id {
                    self.conversations.with_active(conversation.message_pushed(message))
                } else {
                    self.conversations
                },
                None => self.conversations,
            },
            ..self
        }
    }

    /// The state and the response to be streamed, if any, when the dialogue was continued. The
    /// provider is told the conversation with the placeholder in it.
    pub open spec fn dialogue_continued<C>(
        self,
        message_id: MessageId,
        outcome: Option<ProviderInstance<P, C>>,
    ) -> (Self, Option<StreamRequestView<P, C>>) {
        if self.dialogue is None {
            (self.failed(no_dialogue_text()), None)
        } else {
            match self.next_speaker() {
                None => (self.failed(nobody_active_text()), None),
                Some(speaker) => match outcome {
                    None => (self.failed(unbuilt_text(speaker.display_name)), None),
                    Some(instance) => match self.conversations.active_conversation() {
                        None => (self, None),
                        Some(conversation) => {
                            let message = placeholder(
                                message_id,
                                speaker.display_name,
                                speaker.color,
                            );
                            (
                                AppView {
                                    status: AppStatusView::Streaming,
                                    ..self.with_placeholder(conversation.id, message)
                                }.noticed(responding_text(speaker.display_name)),
                                Some(
                                    StreamRequestView {
                                        conversation_id: conversation.id,
                                        message_id,
                                        provider: instance.provider,
                                        messages: told_conversation(
                                            conversation.message_pushed(message),
                                            speaker.display_name,
                                        ),
                                        capabilities: instance.capabilities,
                                    },
                                ),
                            )
                        },
                    },
                },
            }
        }
    }
}

/// Controls the application.
pub struct AppController<P> {
    /// The application's state.
    pub state: AppState<P>,
}

impl<P> View for AppController<P> {
    type V = AppView<P>;

    open spec fn view(&self) -> AppView<P> {
        AppView {
            overlay: self.state.overlay@,
            status: self.state.status@,
            notices: self.state.notices@.map_values(|text: String| text@),
            providers: self.state.provider_registry@,
            conversations: self.state.conversations@,
            dialogue: match self.state.dialogue_controller {
                Some(controller) => Some(controller@),
                None => None,
            },
        }
    }
}

/// Asks for the provider of a participant.
fn ask_provider<
    P,
    C,
    F: Fn(&ProviderSelection, ProviderOverrides) -> Option<ProviderInstance<P, C>>,
>(build: &F, config: &DialogueParticipant, overrides: ProviderOverrides) -> (outcome: Option<
    ProviderInstance<P, C>,
>)
    requires
        forall|s: &ProviderSelection, o: ProviderOverrides| call_requires(*build, (s, o)),
    ensures
        is_answer(*build, selection_of(config@), overrides@.system, outcome),
{
    let selection = ProviderSelection::of_participant(config);
    let outcome = build(&selection, overrides);
    assert(call_ensures(*build, (&selection, overrides), outcome));
    outcome
}

impl<P> AppController<P> {
    /// Shows what the application is doing.
    fn set_status(&mut self, status: AppStatus)
        ensures
            final(self)@ == (AppView { status: status@, ..old(self)@ }),
    {
        self.state.status = status;
    }

    /// Tells the user something.
    fn push_notice(&mut self, text: String)
        ensures
            final(self)@ == old(self)@.noticed(text@),
    {
        self.state.notices.push(text);
        assert(self@.notices =~= old(self)@.notices.push(text@));
    }

    /// Opens the dialogue builder overlay.
    pub fn open_dialogue_builder(&mut self) -> (opened: bool)
        ensures
            opened,
            final(self)@ == (AppView {
                overlay: OverlayView::DialogueBuilder(fresh_builder()),
                ..old(self)@
            }),
    {
        self.state.overlay = OverlayState::DialogueBuilder(DialogueBuilderState::new());
        true
    }

    /// Returns whether a dialogue is currently active.
    pub fn is_dialogue_active(&self) -> (active: bool)
        ensures
            active == (self@.dialogue is Some),
    {
        self.state.dialogue_controller.is_some()
    }

    /// Gets the active dialogue controller.
    pub fn dialogue_controller(&self) -> (controller: Option<&DialogueController<P>>)
        ensures
            match controller {
                Some(found) => self@.dialogue == Some(found@),
                None => self@.dialogue is None,
            },
    {
        self.state.dialogue_controller.as_ref()
    }

    /// Gets a mutable reference to the active dialogue controller.
    pub fn dialogue_controller_mut(&mut self) -> (controller: Option<&mut DialogueController<P>>)
        ensures
            match controller {
                Some(found) => {
                    &&& old(self)@.dialogue == Some(found@)
                    &&& final(self)@ == (AppView { dialogue: Some(final(found)@), ..old(self)@ })
                },
                None => old(self)@.dialogue is None && final(self)@ == old(self)@,
            },
    {
        self.state.dialogue_controller.as_mut()
    }

    /// Builds chat messages from dialogue history for context.
    ///
    /// For dialogue mode, messages from OTHER participants are sent as User role
    /// so the current participant sees them as input to respond to.
    pub fn build_dialogue_messages(
        &self,
        conversation: &Conversation,
        current_participant: &str,
    ) -> (messages: Vec<ChatMessage>)
        ensures
            messages@.map_values(|message: ChatMessage| message@) == told_conversation(
                conversation@,
                current_participant@,
            ),
    {
        tell_conversation(conversation, current_participant)
    }

    /// Appends a placeholder message for a dialogue participant.
    pub fn append_dialogue_placeholder(
        &mut self,
        message_id: MessageId,
        conv_id: ConversationId,
        participant_name: &str,
        color: ParticipantColor,
    ) -> (id: MessageId)
        ensures
            id == message_id,
            final(self)@ == old(self)@.with_placeholder(
                conv_id,
                placeholder(message_id, participant_name@, color),
            ),
    {
        let mut message = ConversationMessage::new(
            message_id,
            MessageRole::Assistant,
            MessageKind::Text(String::new()),
        );
        message.state = MessageState::Streaming;
        message.metadata.participant_name = Some(participant_name.to_string());
        message.metadata.participant_color = Some(color);
        if let Some(conv) = self.state.conversations.active_mut() {
            if conv.id == conv_id {
                conv.push_message(message);
            }
        }
        proof {
            let before = old(self)@.conversations;
            if let Some(conversation) = before.active_conversation() {
                assert(before.with_active(conversation).conversations =~= before.conversations);
            }
        }
        message_id
    }

    /// Starts a dialogue with participants that have their providers.
    pub fn begin_dialogue(
        &mut self,
        config: DialogueConfig,
        participants: Vec<ActiveParticipant<P>>,
    )
        ensures
            final(self)@ == old(self)@.dialogue_begun(
                config@,
                participants@.map_values(|p: ActiveParticipant<P>| p@),
            ),
            final(self)@.well_formed(),
    {
        let count = participants.len();
        let ghost views = participants@.map_values(|p: ActiveParticipant<P>| p@);
        let mut roster: Vec<DialogueParticipant> = Vec::new();
        for i in 0..participants.len()
            invariant
                roster.len() == i,
                forall|j: int|
                    0 <= j < i ==> (#[trigger] roster@[j])@ == participants@[j].config@,
        {
            roster.push(participants[i].config.clone());
        }
        assert(roster@.map_values(|p: DialogueParticipant| p@) =~= views.map_values(
            |p: ActiveParticipantView<P>| p.config,
        ));
        if let Some(conv) = self.state.conversations.active_mut() {
            conv.start_dialogue(config.mode, config.clone(), roster);
        }
        let mut controller: DialogueController<P> = DialogueController::new(config);
        let ghost fresh = controller@;
        assert(views.take(0) =~= Seq::empty());
        for participant in it: participants
            invariant
                it.seq() == participants@,
                views == participants@.map_values(|p: ActiveParticipant<P>| p@),
                fresh.listener is None,
                controller@.well_formed(),
                controller@ == (DialogueView {
                    participants: views.take(it.index()),
                    ..fresh
                }),
        {
            let ghost place = it.index();
            assert(views.take(place + 1) =~= views.take(place).push(participant@));
            controller.add_participant(participant.config, participant.provider);
        }
        assert(views.take(views.len() as int) =~= views);
        self.state.dialogue_controller = Some(controller);
        self.push_notice(
            "Dialogue started with ".to_string().concat(decimal(count).as_str()).concat(
                " participants. Type /continue to begin or send a message.",
            ),
        );
        self.set_status(AppStatus::Idle);
    }

    /// Starts a dialogue with the specified participants.
    ///
    /// The participants get the identifiers in order. `build` makes a provider, if it can.
    pub fn start_dialogue<
        C,
        F: Fn(&ProviderSelection, ProviderOverrides) -> Option<ProviderInstance<P, C>>,
    >(&mut self, participants: Vec<&str>, ids: &Vec<ParticipantId>, build: F) -> (started: bool)
        requires
            participants.len() <= ids.len(),
            forall|s: &ProviderSelection, o: ProviderOverrides| call_requires(build, (s, o)),
        ensures
            ({
                let designations = participants@.map_values(|d: &str| d@);
                let entries = designated_participants(designations, ids@);
                if designations.len() < 2 {
                    !started && final(self)@ == old(self)@.failed(too_few_text())
                } else {
                    exists|outcomes: Seq<Option<ProviderInstance<P, C>>>|
                        #[trigger] are_answers(build, entries, outcomes) && (final(self)@, started)
                            == old(self)@.dialogue_started(designations, ids@, outcomes)
                }
            }),
            old(self)@.well_formed() ==> final(self)@.well_formed(),
    {
        let ghost designations = participants@.map_values(|d: &str| d@);
        let ghost entries = designated_participants(designations, ids@);
        if participants.len() < 2 {
            self.set_status(
                AppStatus::Error("Multi-LLM dialogue requires at least 2 participants".to_string()),
            );
            return false;
        }
        let mut ready: Vec<ActiveParticipant<P>> = Vec::new();
        let ghost mut outcomes: Seq<Option<ProviderInstance<P, C>>> = Seq::empty();
        for index in 0..participants.len()
            invariant
                *self == *old(self),
                participants.len() <= ids.len(),
                participants.len() >= 2,
                forall|s: &ProviderSelection, o: ProviderOverrides| call_requires(build, (s, o)),
                designations == participants@.map_values(|d: &str| d@),
                entries == designated_participants(designations, ids@),
                ready.len() == index,
                outcomes.len() == index,
                all_ready(entries, outcomes, index as int),
                forall|j: int|
                    0 <= j < index ==> is_answer(
                        build,
                        selection_of(entries[j]->0),
                        None,
                        #[trigger] outcomes[j],
                    ),
                forall|j: int|
                    0 <= j < index ==> (#[trigger] ready@[j])@ == seated(entries, outcomes)[j],
        {
            let provider_model: &str = participants[index];
            assert(designations[index as int] == provider_model@);
            let found = DialogueParticipant::from_provider_model(provider_model, index, ids[index]);
            let participant = match found {
                Some(participant) => participant,
                None => {
                    self.set_status(
                        AppStatus::Error(
                            "Invalid participant format: ".to_string().concat(
                                provider_model,
                            ).concat(". Use provider:model"),
                        ),
                    );
                    proof {
                        lemma_setup_reaches(entries, outcomes, index as int);
                        assert(are_answers(build, entries, outcomes));
                    }
                    return false;
                },
            };
            let outcome = ask_provider(&build, &participant, ProviderOverrides::default());
            proof {
                lemma_ready_prefix(entries, outcomes, outcomes.push(outcome), index as int);
                outcomes = outcomes.push(outcome);
            }
            match outcome {
                Some(instance) => {
                    ready.push(
                        ActiveParticipant { config: participant, provider: instance.provider },
                    );
                },
                None => {
                    self.set_status(
                        AppStatus::Error(
                            "Failed to create provider for ".to_string().concat(provider_model),
                        ),
                    );
                    proof {
                        lemma_setup_reaches(entries, outcomes, index as int);
                        assert(are_answers(build, entries, outcomes));
                    }
                    return false;
                },
            }
        }
        proof {
            lemma_setup_reaches(entries, outcomes, entries.len() as int);
            assert(are_answers(build, entries, outcomes));
            assert(ready@.map_values(|p: ActiveParticipant<P>| p@) =~= seated(entries, outcomes));
        }
        let config = DialogueConfig {
            mode: DialogueMode::FreeForm,
            initial_prompt: String::new(),
            turn_mode: TurnMode::RoundRobin,
        };
        self.begin_dialogue(config, ready);
        true
    }

    /// Starts a dialogue from the builder result.
    ///
    /// The participants get the identifiers in order. `build` makes a provider, if it can.
    pub fn start_dialogue_from_builder<
        C,
        F: Fn(&ProviderSelection, ProviderOverrides) -> Option<ProviderInstance<P, C>>,
    >(&mut self, result: DialogueBuilderResult, ids: &Vec<ParticipantId>, build: F) -> (started:
        bool)
        requires
            result.participants.len() <= ids.len(),
            forall|s: &ProviderSelection, o: ProviderOverrides| call_requires(build, (s, o)),
        ensures
            ({
                let entries = drafted_participants(result@, ids@);
                if result@.participants.len() < 2 {
                    !started && final(self)@ == old(self)@.failed(too_few_text())
                } else {
                    exists|outcomes: Seq<Option<ProviderInstance<P, C>>>|
                        #[trigger] are_answers(build, entries, outcomes) && (final(self)@, started)
                            == old(self)@.dialogue_built(result@, ids@, outcomes)
                }
            }),
            old(self)@.well_formed() ==> final(self)@.well_formed(),
    {
        let ghost entries = drafted_participants(result@, ids@);
        if result.participants.len() < 2 {
            self.set_status(
                AppStatus::Error("Multi-LLM dialogue requires at least 2 participants".to_string()),
            );
            return false;
        }
        let mut ready: Vec<ActiveParticipant<P>> = Vec::new();
        let ghost mut outcomes: Seq<Option<ProviderInstance<P, C>>> = Seq::empty();
        for index in 0..result.participants.len()
            invariant
                *self == *old(self),
                result.participants.len() <= ids.len(),
                result.participants.len() >= 2,
                forall|s: &ProviderSelection, o: ProviderOverrides| call_requires(build, (s, o)),
                entries == drafted_participants(result@, ids@),
                ready.len() == index,
                outcomes.len() == index,
                all_ready(entries, outcomes, index as int),
                forall|j: int|
                    0 <= j < index ==> is_answer(
                        build,
                        selection_of(entries[j]->0),
                        None,
                        #[trigger] outcomes[j],
                    ),
                forall|j: int|
                    0 <= j < index ==> (#[trigger] ready@[j])@ == seated(entries, outcomes)[j],
        {
            let draft = &result.participants[index];
            assert(result@.participants[index as int] == draft@);
            let participant = draft.to_participant(ids[index]);
            let outcome = ask_provider(&build, &participant, ProviderOverrides::default());
            proof {
                lemma_ready_prefix(entries, outcomes, outcomes.push(outcome), index as int);
                outcomes = outcomes.push(outcome);
            }
            match outcome {
                Some(instance) => {
                    ready.push(
                        ActiveParticipant { config: participant, provider: instance.provider },
                    );
                },
                None => {
                    let name = draft.provider_id.clone().concat(":").concat(
                        draft.model_id.as_str(),
                    );
                    self.set_status(
                        AppStatus::Error(
                            "Failed to create provider for ".to_string().concat(name.as_str()),
                        ),
                    );
                    proof {
                        lemma_setup_reaches(entries, outcomes, index as int);
                        assert(are_answers(build, entries, outcomes));
                    }
                    return false;
                },
            }
        }
        proof {
            lemma_setup_reaches(entries, outcomes, entries.len() as int);
            assert(are_answers(build, entries, outcomes));
            assert(ready@.map_values(|p: ActiveParticipant<P>| p@) =~= seated(entries, outcomes));
        }
        let config = DialogueConfig {
            mode: result.mode,
            initial_prompt: result.initial_prompt.clone(),
            turn_mode: TurnMode::RoundRobin,
        };
        self.begin_dialogue(config, ready);
        true
    }

    /// Brings a participant with its provider into the active dialogue.
    pub fn admit_participant(&mut self, participant: DialogueParticipant, provider: P)
        requires
            old(self)@.dialogue is Some,
        ensures
            final(self)@ == old(self)@.participant_admitted(participant@, provider),
            old(self)@.well_formed() ==> final(self)@.well_formed(),
    {
        let name = participant.display_name.clone();
        if let Some(controller) = &mut self.state.dialogue_controller {
            controller.add_participant(participant.clone(), provider);
        }
        if let Some(conv) = self.state.conversations.active_mut() {
            conv.add_participant(participant);
        }
        self.push_notice("Invited ".to_string().concat(name.as_str()).concat(" to dialogue"));
    }

    /// Invites a new participant to the active dialogue.
    ///
    /// The participant gets the identifier. `build` makes a provider, if it can; it is asked only
    /// for a participant whose provider is known.
    pub fn invite_dialogue_participant<
        C,
        F: Fn(&ProviderSelection, ProviderOverrides) -> Option<ProviderInstance<P, C>>,
    >(&mut self, provider_model: &str, id: ParticipantId, build: F) -> (invited: bool)
        requires
            forall|s: &ProviderSelection, o: ProviderOverrides| call_requires(build, (s, o)),
        ensures
            exists|outcome: Option<ProviderInstance<P, C>>|
                {
                    &&& (final(self)@, invited) == #[trigger] old(self)@.participant_invited(
                        provider_model@,
                        id,
                        outcome,
                    )
                    &&& match old(self)@.invited_participant(provider_model@, id) {
                        Some(participant) => old(self)@.providers.contains(participant.provider_id)
                            ==> is_answer(build, selection_of(participant), None, outcome),
                        None => true,
                    }
                },
            old(self)@.well_formed() ==> final(self)@.well_formed(),
    {
        let ghost unasked: Option<ProviderInstance<P, C>> = None;
        let index = match &self.state.dialogue_controller {
            Some(controller) => controller.participants().len(),
            None => {
                self.set_status(AppStatus::Error("No active dialogue".to_string()));
                assert((self@, false) == old(self)@.participant_invited(
                    provider_model@,
                    id,
                    unasked,
                ));
                return false;
            },
        };
        assert(index == self@.dialogue->0.participants.len());
        let found = DialogueParticipant::from_provider_model(provider_model, index, id);
        let participant = match found {
            Some(participant) => participant,
            None => {
                self.set_status(
                    AppStatus::Error(
                        "Invalid participant format: ".to_string().concat(provider_model).concat(
                            ". Use provider:model",
                        ),
                    ),
                );
                assert((self@, false) == old(self)@.participant_invited(
                    provider_model@,
                    id,
                    unasked,
                ));
                return false;
            },
        };
        let provider_id = ProviderId::new(participant.provider_id.as_str());
        if self.state.provider_registry.get(&provider_id).is_none() {
            self.set_status(
                AppStatus::Error(
                    "Unknown provider: ".to_string().concat(participant.provider_id.as_str()),
                ),
            );
            assert((self@, false) == old(self)@.participant_invited(provider_model@, id, unasked));
            return false;
        }
        let outcome = ask_provider(&build, &participant, ProviderOverrides::default());
        match outcome {
            Some(instance) => {
                self.admit_participant(participant, instance.provider);
                assert((self@, true) == old(self)@.participant_invited(
                    provider_model@,
                    id,
                    outcome,
                ));
                true
            },
            None => {
                self.set_status(
                    AppStatus::Error(
                        "Failed to create provider for ".to_string().concat(provider_model),
                    ),
                );
                assert((self@, false) == old(self)@.participant_invited(
                    provider_model@,
                    id,
                    outcome,
                ));
                false
            },
        }
    }

    /// Kicks a participant from the active dialogue.
    pub fn kick_dialogue_participant(&mut self, name: &str) -> (kicked: bool)
        ensures
            (final(self)@, kicked) == old(self)@.participant_kicked(name@),
            old(self)@.well_formed() ==> final(self)@.well_formed(),
    {
        let (id, display_name) = match &self.state.dialogue_controller {
            Some(controller) => match controller.find_participant_by_name(name) {
                Some(participant) => (
                    participant.config.id,
                    participant.config.display_name.clone(),
                ),
                None => {
                    self.set_status(
                        AppStatus::Error(
                            "Participant '".to_string().concat(name).concat("' not found"),
                        ),
                    );
                    return false;
                },
            },
            None => {
                self.set_status(AppStatus::Error("No active dialogue".to_string()));
                return false;
            },
        };
        if let Some(controller) = &mut self.state.dialogue_controller {
            controller.kick_participant(id);
        }
        if let Some(conv) = self.state.conversations.active_mut() {
            conv.kick_participant(id);
        }
        self.push_notice(
            "Kicked ".to_string().concat(display_name.as_str()).concat(" from dialogue"),
        );
        true
    }

    /// Stops the active dialogue, and hands it back where there was one.
    pub fn stop_dialogue(&mut self) -> (stopped: Option<DialogueController<P>>)
        ensures
            match old(self)@.dialogue {
                Some(dialogue) => {
                    &&& stopped matches Some(controller) && controller@ == dialogue.stopped(
                        StopReason::UserRequested,
                    )
                    &&& final(self)@ == old(self)@.dialogue_stopped()
                },
                None => stopped is None && final(self)@ == old(self)@.failed(no_dialogue_text()),
            },
            final(self)@.dialogue is None,
    {
        match self.state.dialogue_controller.take() {
            Some(mut controller) => {
                controller.stop(StopReason::UserRequested);
                if let Some(conv) = self.state.conversations.active_mut() {
                    conv.end_dialogue();
                }
                self.push_notice("Dialogue stopped".to_string());
                self.set_status(AppStatus::Idle);
                Some(controller)
            },
            None => {
                self.set_status(AppStatus::Error("No active dialogue".to_string()));
                None
            },
        }
    }

    /// Continues the dialogue with the next participant's turn. Where that can be done, hands back
    /// the response to be streamed.
    ///
    /// The response fills the message with the given identifier. `build` makes a provider, if it
    /// can.
    pub fn continue_dialogue<
        C,
        F: Fn(&ProviderSelection, ProviderOverrides) -> Option<ProviderInstance<P, C>>,
    >(&mut self, message_id: MessageId, build: F) -> (request: Option<StreamRequest<P, C>>)
        requires
            old(self)@.well_formed(),
            forall|s: &ProviderSelection, o: ProviderOverrides| call_requires(build, (s, o)),
        ensures
            exists|outcome: Option<ProviderInstance<P, C>>|
                {
                    &&& final(self)@ == (#[trigger] old(self)@.dialogue_continued(
                        message_id,
                        outcome,
                    )).0
                    &&& match request {
                        Some(wanted) => old(self)@.dialogue_continued(message_id, outcome).1
                            == Some(wanted@),
                        None => old(self)@.dialogue_continued(message_id, outcome).1 is None,
                    }
                    &&& match old(self)@.next_speaker() {
                        Some(speaker) => is_answer(
                            build,
                            selection_of(speaker),
                            speaker.system_prompt,
                            outcome,
                        ),
                        None => true,
                    }
                },
            final(self)@.well_formed(),
    {
        let ghost unasked: Option<ProviderInstance<P, C>> = None;
        let speaker = match &self.state.dialogue_controller {
            Some(dialogue) => match dialogue.next_participant() {
                Some(next) => next.config.clone(),
                None => {
                    self.set_status(AppStatus::Error("No active participants".to_string()));
                    assert(self@ == old(self)@.dialogue_continued(message_id, unasked).0);
                    return None;
                },
            },
            None => {
                self.set_status(AppStatus::Error("No active dialogue".to_string()));
                assert(self@ == old(self)@.dialogue_continued(message_id, unasked).0);
                return None;
            },
        };
        let overrides = ProviderOverrides { system: speaker.system_prompt.clone() };
        let outcome = ask_provider(&build, &speaker, overrides);
        let ghost answer = outcome;
        let instance = match outcome {
            Some(instance) => instance,
            None => {
                self.set_status(
                    AppStatus::Error(
                        "Failed to create provider for ".to_string().concat(
                            speaker.display_name.as_str(),
                        ),
                    ),
                );
                assert(self@ == old(self)@.dialogue_continued(message_id, answer).0);
                return None;
            },
        };
        let conv_id = match self.state.conversations.active() {
            Some(conv) => conv.id,
            None => {
                assert(self@ == old(self)@.dialogue_continued(message_id, answer).0);
                return None;
            },
        };
        let assistant_id = self.append_dialogue_placeholder(
            message_id,
            conv_id,
            speaker.display_name.as_str(),
            speaker.color,
        );
        let messages = match self.state.conversations.active() {
            Some(conversation) => self.build_dialogue_messages(
                conversation,
                speaker.display_name.as_str(),
            ),
            None => {
                return None;
            },
        };
        self.set_status(AppStatus::Streaming);
        self.push_notice(speaker.display_name.clone().concat(" is responding..."));
        assert(self@ == old(self)@.dialogue_continued(message_id, answer).0);
        Some(
            StreamRequest {
                conversation_id: conv_id,
                message_id: assistant_id,
                provider: instance.provider,
                messages,
                capabilities: instance.capabilities,
            },
        )
    }
}

/// Whether the participants before a position have their providers.
spec fn all_ready<P, C>(
    entries: Seq<Option<DialogueParticipantView>>,
    outcomes: Seq<Option<ProviderInstance<P, C>>>,
    position: int,
) -> bool {
    forall|j: int|
        #![trigger entries[j]]
        #![trigger outcomes[j]]
        0 <= j < position ==> entries[j] is Some && outcomes[j] is Some
}

/// Where the participants before a position have their providers, what becomes of the setup is
/// decided from there on.
proof fn lemma_setup_reaches<P, C>(
    entries: Seq<Option<DialogueParticipantView>>,
    outcomes: Seq<Option<ProviderInstance<P, C>>>,
    position: int,
)
    requires
        0 <= position <= entries.len(),
        all_ready(entries, outcomes, position),
    ensures
        setup(entries, outcomes) == setup_from(entries, outcomes, position),
    decreases position,
{
    if position > 0 {
        lemma_setup_reaches(entries, outcomes, position - 1);
        assert(entries[position - 1] is Some);
    }
}

/// Who has a provider stays so when more answers come.
proof fn lemma_ready_prefix<P, C>(
    entries: Seq<Option<DialogueParticipantView>>,
    fewer: Seq<Option<ProviderInstance<P, C>>>,
    more: Seq<Option<ProviderInstance<P, C>>>,
    position: int,
)
    requires
        position <= fewer.len() <= more.len(),
        forall|j: int| 0 <= j < fewer.len() ==> #[trigger] more[j] == fewer[j],
        all_ready(entries, fewer, position),
    ensures
        all_ready(entries, more, position),
{
    assert forall|j: int|
        #![trigger entries[j]]
        #![trigger more[j]]
        0 <= j < position implies entries[j] is Some && more[j] is Some by {
        assert(more[j] == fewer[j]);
    }
}

} // verus!
