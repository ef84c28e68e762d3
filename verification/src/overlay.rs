//! What is shown over a conversation.

use vstd::prelude::*;

use crate::config::DialogueMode;
use crate::participant::{
    default_params, DialogueParticipant, DialogueParticipantView, ParticipantColor, ParticipantId,
    ParticipantParams,
};
use crate::text::text_of;

verus! {

/// A participant that the dialogue builder proposes.
#[derive(Debug, PartialEq, Eq)]
pub struct ParticipantDraft {
    /// The provider that runs the model.
    pub provider_id: String,
    /// The model.
    pub model_id: String,
    /// The name that the participant is to go by.
    pub display_name: String,
    /// What the model is to be told before the dialogue.
    pub system_prompt: Option<String>,
    /// The colour of the participant's messages.
    pub color: ParticipantColor,
}

/// A proposed participant, as the contracts see it.
pub struct ParticipantDraftView {
    pub provider_id: Seq<char>,
    pub model_id: Seq<char>,
    pub display_name: Seq<char>,
    pub system_prompt: Option<Seq<char>>,
    pub color: ParticipantColor,
}

impl View for ParticipantDraft {
    type V = ParticipantDraftView;

    open spec fn view(&self) -> ParticipantDraftView {
        ParticipantDraftView {
            provider_id: self.provider_id@,
            model_id: self.model_id@,
            display_name: self.display_name@,
            system_prompt: text_of(self.system_prompt),
            color: self.color,
        }
    }
}

/// The participant that a draft proposes.
pub open spec fn drafted_participant(
    draft: ParticipantDraftView,
    id: ParticipantId,
) -> DialogueParticipantView {
    DialogueParticipantView {
        id,
        provider_id: draft.provider_id,
        model_id: draft.model_id,
        display_name: draft.display_name,
        system_prompt: draft.system_prompt,
        params: default_params(),
        color: draft.color,
        active: true,
    }
}

impl ParticipantDraft {
    /// Makes the proposed participant, an active one with default parameters.
    pub fn to_participant(&self, id: ParticipantId) -> (participant: DialogueParticipant)
        ensures
            participant@ == drafted_participant(self@, id),
    {
        DialogueParticipant {
            id,
            provider_id: self.provider_id.clone(),
            model_id: self.model_id.clone(),
            display_name: self.display_name.clone(),
            system_prompt: self.system_prompt.clone(),
            params: ParticipantParams::default(),
            color: self.color,
            active: true,
        }
    }
}

/// What the user has chosen in the dialogue builder so far.
#[derive(Debug, PartialEq, Eq)]
pub struct DialogueBuilderState {
    /// What the dialogue is to be for.
    pub mode: DialogueMode,
    /// What the dialogue is to start from.
    pub initial_prompt: String,
    /// Who is to take part.
    pub participants: Vec<ParticipantDraft>,
}

/// The dialogue builder, as the contracts see it.
pub struct DialogueBuilderView {
    pub mode: DialogueMode,
    pub initial_prompt: Seq<char>,
    pub participants: Seq<ParticipantDraftView>,
}

impl View for DialogueBuilderState {
    type V = DialogueBuilderView;

    open spec fn view(&self) -> DialogueBuilderView {
        DialogueBuilderView {
            mode: self.mode,
            initial_prompt: self.initial_prompt@,
            participants: self.participants@.map_values(|draft: ParticipantDraft| draft@),
        }
    }
}

/// A builder in which nothing was chosen yet.
pub open spec fn fresh_builder() -> DialogueBuilderView {
    DialogueBuilderView {
        mode: DialogueMode::FreeForm,
        initial_prompt: Seq::empty(),
        participants: Seq::empty(),
    }
}

impl DialogueBuilderState {
    /// Creates a builder in which nothing was chosen yet.
    pub fn new() -> (builder: Self)
        ensures
            builder@ == fresh_builder(),
    {
        let builder = DialogueBuilderState {
            mode: DialogueMode::FreeForm,
            initial_prompt: String::new(),
            participants: Vec::new(),
        };
        assert(builder@.participants =~= Seq::empty());
        builder
    }
}

/// What the user settled on in the dialogue builder.
#[derive(Debug, PartialEq, Eq)]
pub struct DialogueBuilderResult {
    /// What the dialogue is for.
    pub mode: DialogueMode,
    /// What the dialogue starts from.
    pub initial_prompt: String,
    /// Who takes part.
    pub participants: Vec<ParticipantDraft>,
}

impl View for DialogueBuilderResult {
    type V = DialogueBuilderView;

    open spec fn view(&self) -> DialogueBuilderView {
        DialogueBuilderView {
            mode: self.mode,
            initial_prompt: self.initial_prompt@,
            participants: self.participants@.map_values(|draft: ParticipantDraft| draft@),
        }
    }
}

/// What is shown over the conversation.
#[derive(Debug, PartialEq, Eq)]
pub enum OverlayState {
    /// Nothing.
    Hidden,
    /// The dialogue builder.
    DialogueBuilder(DialogueBuilderState),
}

/// What is shown over the conversation, as the contracts see it.
pub enum OverlayView {
    Hidden,
    DialogueBuilder(DialogueBuilderView),
}

impl View for OverlayState {
    type V = OverlayView;

    open spec fn view(&self) -> OverlayView {
        match *self {
            OverlayState::Hidden => OverlayView::Hidden,
            OverlayState::DialogueBuilder(builder) => OverlayView::DialogueBuilder(builder@),
        }
    }
}

/// A drafted participant is as drafted, has the identifier and no parameters of its own, and takes
/// turns.
pub proof fn law_drafted_participant_is_as_drafted(draft: ParticipantDraftView, id: ParticipantId)
    ensures
        ({
            let participant = drafted_participant(draft, id);
            &&& participant.id == id
            &&& participant.provider_id == draft.provider_id
            &&& participant.model_id == draft.model_id
            &&& participant.display_name == draft.display_name
            &&& participant.system_prompt == draft.system_prompt
            &&& participant.params.max_tokens is None
            &&& participant.params.temperature_thousandths is None
            &&& participant.color == draft.color
            &&& participant.active
        }),
{
}

/// In a fresh builder the dialogue is free, without a prompt and without participants.
pub proof fn law_fresh_builder_is_empty()
    ensures
        fresh_builder().mode == DialogueMode::FreeForm,
        fresh_builder().initial_prompt.len() == 0,
        fresh_builder().participants.len() == 0,
{
}

} // verus!
