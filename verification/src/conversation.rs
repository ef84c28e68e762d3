//! Conversations and their messages.

use vstd::prelude::*;

use crate::config::{DialogueConfig, DialogueConfigView, DialogueMode};
use crate::participant::{
    lemma_position_of_id, position_of_id, with_activity_at, DialogueParticipant,
    DialogueParticipantView, ParticipantColor, ParticipantId,
};
use crate::text::text_of;

verus! {

/// Identifies a conversation.
#[derive(Debug, Clone, Copy, PartialEq, Eq, Hash, Structural)]
pub struct ConversationId {
    /// The identifying number.
    pub value: u128,
}

/// Identifies a message.
#[derive(Debug, Clone, Copy, PartialEq, Eq, Hash, Structural)]
pub struct MessageId {
    /// The identifying number.
    pub value: u128,
}

/// Who a message comes from.
#[derive(Debug, Clone, Copy, PartialEq, Eq, Structural)]
pub enum MessageRole {
    User,
    Assistant,
    Tool,
    Error,
}

/// What a message holds.
#[derive(Debug, PartialEq, Eq)]
pub enum MessageKind {
    /// Text.
    Text(String),
    /// A request to run a tool.
    ToolCall(String),
    /// What a tool gave back.
    ToolResult(String),
}

/// What a message holds, as the contracts see it.
pub enum MessageKindView {
    Text(Seq<char>),
    ToolCall(Seq<char>),
    ToolResult(Seq<char>),
}

impl View for MessageKind {
    type V = MessageKindView;

    open spec fn view(&self) -> MessageKindView {
        match *self {
            MessageKind::Text(text) => MessageKindView::Text(text@),
            MessageKind::ToolCall(text) => MessageKindView::ToolCall(text@),
            MessageKind::ToolResult(text) => MessageKindView::ToolResult(text@),
        }
    }
}

/// How far a message has come.
#[derive(Debug, Clone, Copy, PartialEq, Eq, Structural)]
pub enum MessageState {
    /// All of it is there.
    Complete,
    /// More of it is on the way.
    Streaming,
}

/// What is known of a message beside its content.
#[derive(Debug, PartialEq, Eq)]
pub struct MessageMetadata {
    /// The dialogue participant that the message comes from.
    pub participant_name: Option<String>,
    /// The colour of that participant.
    pub participant_color: Option<ParticipantColor>,
}

/// A message of a conversation.
#[derive(Debug, PartialEq, Eq)]
pub struct ConversationMessage {
    /// Identifies the message.
    pub id: MessageId,
    /// Who it comes from.
    pub role: MessageRole,
    /// What it holds.
    pub kind: MessageKind,
    /// How far it has come.
    pub state: MessageState,
    /// What else is known of it.
    pub metadata: MessageMetadata,
}

/// A message of a conversation, as the contracts see it.
pub struct ConversationMessageView {
    pub id: MessageId,
    pub role: MessageRole,
    pub kind: MessageKindView,
    pub state: MessageState,
    pub participant_name: Option<Seq<char>>,
    pub participant_color: Option<ParticipantColor>,
}

impl View for ConversationMessage {
    type V = ConversationMessageView;

    open spec fn view(&self) -> ConversationMessageView {
        ConversationMessageView {
            id: self.id,
            role: self.role,
            kind: self.kind@,
            state: self.state,
            participant_name: text_of(self.metadata.participant_name),
            participant_color: self.metadata.participant_color,
        }
    }
}

impl ConversationMessage {
    /// Creates a complete message that no participant is known for.
    pub fn new(id: MessageId, role: MessageRole, kind: MessageKind) -> (message: Self)
        ensures
            message@ == (ConversationMessageView {
                id,
                role,
                kind: kind@,
                state: MessageState::Complete,
                participant_name: None,
                participant_color: None,
            }),
    {
        ConversationMessage {
            id,
            role,
            kind,
            state: MessageState::Complete,
            metadata: MessageMetadata { participant_name: None, participant_color: None },
        }
    }
}

/// A conversation, with the dialogue that is held in it.
#[derive(Debug, PartialEq, Eq)]
pub struct Conversation {
    /// Identifies the conversation.
    pub id: ConversationId,
    /// The messages, oldest first.
    pub messages: Vec<ConversationMessage>,
    /// What the dialogue is for.
    pub dialogue_mode: Option<DialogueMode>,
    /// How the dialogue is set up.
    pub dialogue_config: Option<DialogueConfig>,
    /// Who takes part in the dialogue.
    pub participants: Vec<DialogueParticipant>,
}

/// A conversation, as the contracts see it.
pub struct ConversationView {
    pub id: ConversationId,
    pub messages: Seq<ConversationMessageView>,
    pub dialogue_mode: Option<DialogueMode>,
    pub dialogue_config: Option<DialogueConfigView>,
    pub participants: Seq<DialogueParticipantView>,
}

impl View for Conversation {
    type V = ConversationView;

    open spec fn view(&self) -> ConversationView {
        ConversationView {
            id: self.id,
            messages: self.messages@.map_values(|message: ConversationMessage| message@),
            dialogue_mode: self.dialogue_mode,
            dialogue_config: match self.dialogue_config {
                Some(config) => Some(config@),
                None => None,
            },
            participants: self.participants@.map_values(|p: DialogueParticipant| p@),
        }
    }
}

impl ConversationView {
    /// The conversation when a dialogue was started in it.
    pub open spec fn dialogue_started(
        self,
        mode: DialogueMode,
        config: DialogueConfigView,
        participants: Seq<DialogueParticipantView>,
    ) -> Self {
        ConversationView {
            dialogue_mode: Some(mode),
            dialogue_config: Some(config),
            participants,
            ..self
        }
    }

    /// The conversation without its dialogue. The messages stay.
    pub open spec fn dialogue_ended(self) -> Self {
        ConversationView {
            dialogue_mode: None,
            dialogue_config: None,
            participants: Seq::empty(),
            ..self
        }
    }

    /// The conversation when a participant came in.
    pub open spec fn participant_joined(self, participant: DialogueParticipantView) -> Self {
        ConversationView { participants: self.participants.push(participant), ..self }
    }

    /// The conversation when the first participant with an identifier was put out of the turns.
    pub open spec fn participant_kicked(self, id: ParticipantId) -> Self {
        match position_of_id(self.participants, id) {
            Some(position) => ConversationView {
                participants: with_activity_at(self.participants, position, false),
                ..self
            },
            None => self,
        }
    }

    /// The conversation with one more message.
    pub open spec fn message_pushed(self, message: ConversationMessageView) -> Self {
        ConversationView { messages: self.messages.push(message), ..self }
    }
}

impl Conversation {
    /// Creates an empty conversation.
    pub fn new(id: ConversationId) -> (conversation: Self)
        ensures
            conversation@ == (ConversationView {
                id,
                messages: Seq::empty(),
                dialogue_mode: None,
                dialogue_config: None,
                participants: Seq::empty(),
            }),
    {
        let conversation = Conversation {
            id,
            messages: Vec::new(),
            dialogue_mode: None,
            dialogue_config: None,
            participants: Vec::new(),
        };
        assert(conversation@.messages =~= Seq::empty());
        assert(conversation@.participants =~= Seq::empty());
        conversation
    }

    /// Starts a dialogue in the conversation.
    pub fn start_dialogue(
        &mut self,
        mode: DialogueMode,
        config: DialogueConfig,
        participants: Vec<DialogueParticipant>,
    )
        ensures
            final(self)@ == old(self)@.dialogue_started(
                mode,
                config@,
                participants@.map_values(|p: DialogueParticipant| p@),
            ),
    {
        self.dialogue_mode = Some(mode);
        self.dialogue_config = Some(config);
        self.participants = participants;
    }

    /// Ends the dialogue of the conversation.
    pub fn end_dialogue(&mut self)
        ensures
            final(self)@ == old(self)@.dialogue_ended(),
    {
        self.dialogue_mode = None;
        self.dialogue_config = None;
        self.participants = Vec::new();
        assert(self@.participants =~= Seq::empty());
    }

    /// Adds a participant to the dialogue.
    pub fn add_participant(&mut self, participant: DialogueParticipant)
        ensures
            final(self)@ == old(self)@.participant_joined(participant@),
    {
        self.participants.push(participant);
        assert(self@.participants =~= old(self)@.participants.push(participant@));
    }

    /// Puts the first participant with an identifier out of the turns.
    pub fn kick_participant(&mut self, id: ParticipantId)
        ensures
            final(self)@ == old(self)@.participant_kicked(id),
    {
        proof {
            lemma_position_of_id(self@.participants, id);
        }
        let mut i: usize = 0;
        while i < self.participants.len()
            invariant
                i <= self.participants.len(),
                *self == *old(self),
                forall|j: int| 0 <= j < i ==> (#[trigger] self@.participants[j]).id != id,
            decreases self.participants.len() - i,
        {
            assert(self@.participants[i as int] == self.participants@[i as int]@);
            if self.participants[i].id == id {
                proof {
                    lemma_position_of_id(self@.participants, id);
                }
                self.participants[i].active = false;
                assert(self@.participants =~= with_activity_at(
                    old(self)@.participants,
                    i as int,
                    false,
                ));
                return;
            }
            i = i + 1;
        }
    }

    /// Adds a message.
    pub fn push_message(&mut self, message: ConversationMessage)
        ensures
            final(self)@ == old(self)@.message_pushed(message@),
    {
        self.messages.push(message);
        assert(self@.messages =~= old(self)@.messages.push(message@));
    }
}

/// The conversations that are open, one of which may be active.
#[derive(Debug)]
pub struct ConversationStore {
    /// The conversations.
    pub conversations: Vec<Conversation>,
    /// Where the active one stands. A place where none stands counts as no active one.
    pub active: Option<usize>,
}

/// The open conversations, as the contracts see them.
pub struct ConversationStoreView {
    pub conversations: Seq<ConversationView>,
    pub active: Option<int>,
}

impl View for ConversationStore {
    type V = ConversationStoreView;

    open spec fn view(&self) -> ConversationStoreView {
        ConversationStoreView {
            conversations: self.conversations@.map_values(|c: Conversation| c@),
            active: match self.active {
                Some(place) => if place < self.conversations@.len() {
                    Some(place as int)
                } else {
                    None
                },
                None => None,
            },
        }
    }
}

impl ConversationStoreView {
    /// The active conversation, if there is one, is one of those that are open.
    pub open spec fn well_formed(self) -> bool {
        self.active matches Some(place) ==> 0 <= place < self.conversations.len()
    }

    /// The active conversation.
    pub open spec fn active_conversation(self) -> Option<ConversationView> {
        match self.active {
            Some(place) => Some(self.conversations[place]),
            None => None,
        }
    }

    /// The conversations with another one in place of the active one, which there is.
    pub open spec fn with_active(self, conversation: ConversationView) -> Self {
        ConversationStoreView {
            conversations: self.conversations.update(self.active->0, conversation),
            ..self
        }
    }
}

impl ConversationStore {
    /// Returns the active conversation.
    pub fn active(&self) -> (conversation: Option<&Conversation>)
        ensures
            match conversation {
                Some(found) => self@.active_conversation() == Some(found@),
                None => self@.active_conversation() is None,
            },
    {
        match self.active {
            Some(place) => if place < self.conversations.len() {
                Some(&self.conversations[place])
            } else {
                None
            },
            None => None,
        }
    }

    /// Returns the active conversation to be changed.
    pub fn active_mut(&mut self) -> (conversation: Option<&mut Conversation>)
        ensures
            match conversation {
                Some(found) => {
                    &&& old(self)@.active_conversation() == Some(found@)
                    &&& final(self)@.conversations =~= old(self)@.with_active(
                        final(found)@,
                    ).conversations
                    &&& final(self)@.active == old(self)@.active
                },
                None => old(self)@.active_conversation() is None && final(self)@ == old(self)@,
            },
    {
        match self.active {
            Some(place) => if place < self.conversations.len() {
                Some(&mut self.conversations[place])
            } else {
                None
            },
            None => None,
        }
    }
}

/// Starting a dialogue sets what it is for, how it is set up and who takes part; ending it clears
/// all three. Neither touches a message.
pub proof fn law_dialogue_comes_and_goes_without_messages(
    conversation: ConversationView,
    mode: DialogueMode,
    config: DialogueConfigView,
    participants: Seq<DialogueParticipantView>,
)
    ensures
        ({
            let after = conversation.dialogue_started(mode, config, participants);
            &&& after.id == conversation.id
            &&& after.messages == conversation.messages
            &&& after.dialogue_mode == Some(mode)
            &&& after.dialogue_config == Some(config)
            &&& after.participants == participants
        }),
        ({
            let after = conversation.dialogue_ended();
            &&& after.id == conversation.id
            &&& after.messages == conversation.messages
            &&& after.dialogue_mode is None
            &&& after.dialogue_config is None
            &&& after.participants.len() == 0
        }),
{
}

/// Who comes in is listed last, after everybody who was there, and nothing else changes.
pub proof fn law_newcomer_is_listed_last(
    conversation: ConversationView,
    participant: DialogueParticipantView,
)
    ensures
        ({
            let after = conversation.participant_joined(participant);
            let count = conversation.participants.len() as int;
            &&& after.id == conversation.id
            &&& after.messages == conversation.messages
            &&& after.dialogue_mode == conversation.dialogue_mode
            &&& after.dialogue_config == conversation.dialogue_config
            &&& after.participants.len() == count + 1
            &&& forall|i: int|
                0 <= i < count ==> #[trigger] after.participants[i] == conversation.participants[i]
            &&& after.participants[count] == participant
        }),
{
}

/// Putting out makes the first participant with the identifier inactive and changes nothing else.
/// Where nobody has the identifier nothing changes.
pub proof fn law_conversation_puts_out_the_first(conversation: ConversationView, id: ParticipantId)
    ensures
        ({
            let after = conversation.participant_kicked(id);
            let before = conversation.participants;
            &&& after.id == conversation.id
            &&& after.messages == conversation.messages
            &&& after.dialogue_mode == conversation.dialogue_mode
            &&& after.dialogue_config == conversation.dialogue_config
            &&& after.participants.len() == before.len()
            &&& forall|i: int|
                0 <= i < before.len() ==> #[trigger] after.participants[i] == if before[i].id == id
                    && forall|j: int| 0 <= j < i ==> (#[trigger] before[j]).id != id {
                    DialogueParticipantView { active: false, ..before[i] }
                } else {
                    before[i]
                }
        }),
{
    lemma_position_of_id(conversation.participants, id);
    let before = conversation.participants;
    let after = conversation.participant_kicked(id).participants;
    assert forall|i: int| 0 <= i < before.len() implies #[trigger] after[i] == if before[i].id == id
        && forall|j: int| 0 <= j < i ==> (#[trigger] before[j]).id != id {
        DialogueParticipantView { active: false, ..before[i] }
    } else {
        before[i]
    } by {
        if let Some(position) = position_of_id(before, id) {
            assert(before[position].id == id);
            if position < i {
                assert(!forall|j: int| 0 <= j < i ==> (#[trigger] before[j]).id != id);
            }
        }
    }
}

/// A message is added after all that were there, and nothing else changes.
pub proof fn law_message_is_added_last(
    conversation: ConversationView,
    message: ConversationMessageView,
)
    ensures
        ({
            let after = conversation.message_pushed(message);
            let count = conversation.messages.len() as int;
            &&& after.id == conversation.id
            &&& after.messages.len() == count + 1
            &&& forall|i: int|
                0 <= i < count ==> #[trigger] after.messages[i] == conversation.messages[i]
            &&& after.messages[count] == message
            &&& after.dialogue_mode == conversation.dialogue_mode
            &&& after.dialogue_config == conversation.dialogue_config
            &&& after.participants == conversation.participants
        }),
{
}

/// The active conversation is the one at the active place. Putting another one there changes
/// neither the place nor what stands elsewhere.
pub proof fn law_active_conversation_is_at_its_place(
    store: ConversationStoreView,
    conversation: ConversationView,
)
    requires
        store.well_formed(),
    ensures
        store.active is None ==> store.active_conversation() is None,
        store.active matches Some(place) ==> {
            let after = store.with_active(conversation);
            &&& 0 <= place < store.conversations.len()
            &&& store.active_conversation() == Some(store.conversations[place])
            &&& after.active == store.active
            &&& after.conversations.len() == store.conversations.len()
            &&& after.conversations[place] == conversation
            &&& forall|i: int|
                0 <= i < store.conversations.len() && i != place
                    ==> #[trigger] after.conversations[i] == store.conversations[i]
        },
{
}

/// What the active place may be is a place where a conversation stands, or none.
pub proof fn law_store_is_well_formed_by_its_place(store: ConversationStoreView)
    ensures
        store.well_formed() <==> match store.active {
            Some(place) => 0 <= place < store.conversations.len(),
            None => true,
        },
{
}

} // verus!
