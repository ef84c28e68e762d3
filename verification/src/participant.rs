//! The participants of a dialogue.

use vstd::prelude::*;

use crate::text::{characters, same_ignoring_ascii_case, text_of};

verus! {

/// Identifies a participant.
#[derive(Debug, Clone, Copy, PartialEq, Eq, Hash, Structural)]
pub struct ParticipantId {
    /// The identifying number.
    pub value: u128,
}

/// The colour that a participant's messages are shown in.
#[derive(Debug, Clone, Copy, PartialEq, Eq, Structural)]
pub enum ParticipantColor {
    Cyan,
    Magenta,
    Green,
    Yellow,
    Blue,
    Red,
}

/// The colour of the participant at a position: the palette, over and over.
pub open spec fn color_at(index: nat) -> ParticipantColor {
    let place = index % 6;
    if place == 0 {
        ParticipantColor::Cyan
    } else if place == 1 {
        ParticipantColor::Magenta
    } else if place == 2 {
        ParticipantColor::Green
    } else if place == 3 {
        ParticipantColor::Yellow
    } else if place == 4 {
        ParticipantColor::Blue
    } else {
        ParticipantColor::Red
    }
}

impl ParticipantColor {
    /// Picks the colour of the participant at a position.
    pub fn from_index(index: usize) -> (color: Self)
        ensures
            color == color_at(index as nat),
    {
        match index % 6 {
            0 => ParticipantColor::Cyan,
            1 => ParticipantColor::Magenta,
            2 => ParticipantColor::Green,
            3 => ParticipantColor::Yellow,
            4 => ParticipantColor::Blue,
            _ => ParticipantColor::Red,
        }
    }
}

/// How a participant's model is to generate text. What is absent is left to the provider.
#[derive(Debug, Clone, Copy, PartialEq, Eq, Structural)]
pub struct ParticipantParams {
    /// How many tokens a turn may have.
    pub max_tokens: Option<u32>,
    /// The sampling temperature, in thousandths.
    pub temperature_thousandths: Option<u32>,
}

/// Parameters that leave everything to the provider.
pub open spec fn default_params() -> ParticipantParams {
    ParticipantParams { max_tokens: None, temperature_thousandths: None }
}

impl Default for ParticipantParams {
    fn default() -> (params: Self)
        ensures
            params == default_params(),
    {
        ParticipantParams { max_tokens: None, temperature_thousandths: None }
    }
}

/// A participant of a dialogue.
#[derive(Debug, PartialEq, Eq)]
pub struct DialogueParticipant {
    /// Identifies the participant.
    pub id: ParticipantId,
    /// The provider that runs the model.
    pub provider_id: String,
    /// The model.
    pub model_id: String,
    /// The name that the participant goes by.
    pub display_name: String,
    /// What the model is told before the dialogue.
    pub system_prompt: Option<String>,
    /// How the model is to generate text.
    pub params: ParticipantParams,
    /// The colour of the participant's messages.
    pub color: ParticipantColor,
    /// Whether the participant takes turns.
    pub active: bool,
}

/// A participant, as the contracts see it.
pub struct DialogueParticipantView {
    pub id: ParticipantId,
    pub provider_id: Seq<char>,
    pub model_id: Seq<char>,
    pub display_name: Seq<char>,
    pub system_prompt: Option<Seq<char>>,
    pub params: ParticipantParams,
    pub color: ParticipantColor,
    pub active: bool,
}

impl View for DialogueParticipant {
    type V = DialogueParticipantView;

    open spec fn view(&self) -> DialogueParticipantView {
        DialogueParticipantView {
            id: self.id,
            provider_id: self.provider_id@,
            model_id: self.model_id@,
            display_name: self.display_name@,
            system_prompt: text_of(self.system_prompt),
            params: self.params,
            color: self.color,
            active: self.active,
        }
    }
}

impl Clone for DialogueParticipant {
    fn clone(&self) -> (copy: Self)
        ensures
            copy@ == self@,
    {
        DialogueParticipant {
            id: self.id,
            provider_id: self.provider_id.clone(),
            model_id: self.model_id.clone(),
            display_name: self.display_name.clone(),
            system_prompt: self.system_prompt.clone(),
            params: self.params,
            color: self.color,
            active: self.active,
        }
    }
}

/// The provider and the model that a designation `provider:model` names. The first colon parts
/// them, so a model's name may hold colons; neither may be empty.
pub open spec fn designated(designation: Seq<char>) -> Option<(Seq<char>, Seq<char>)> {
    match designation.index_of_first(':') {
        Some(colon) => if 0 < colon && colon + 1 < designation.len() {
            Some((designation.take(colon), designation.skip(colon + 1)))
        } else {
            None
        },
        None => None,
    }
}

/// The participant that a designation stands for, at a position of the roster.
pub open spec fn designated_participant(
    designation: Seq<char>,
    index: nat,
    id: ParticipantId,
) -> Option<DialogueParticipantView> {
    match designated(designation) {
        Some((provider_id, model_id)) => Some(
            DialogueParticipantView {
                id,
                provider_id,
                model_id,
                display_name: designation,
                system_prompt: None,
                params: default_params(),
                color: color_at(index),
                active: true,
            },
        ),
        None => None,
    }
}

impl DialogueParticipant {
    /// Reads a designation `provider:model`. The participant goes by the whole designation, is
    /// active, and has no system prompt and default parameters.
    pub fn from_provider_model(
        provider_model: &str,
        index: usize,
        id: ParticipantId,
    ) -> (participant: Option<Self>)
        ensures
            match participant {
                Some(found) => designated_participant(provider_model@, index as nat, id) == Some(
                    found@,
                ),
                None => designated_participant(provider_model@, index as nat, id) is None,
            },
    {
        let chars = characters(provider_model);
        proof {
            chars@.index_of_first_ensures(':');
        }
        let mut colon: usize = 0;
        while colon < chars.len() && chars[colon] != ':'
            invariant
                colon <= chars.len(),
                forall|j: int| 0 <= j < colon ==> chars@[j] != ':',
            decreases chars.len() - colon,
        {
            colon = colon + 1;
        }
        if colon == 0 || chars.len() - colon < 2 {
            return None;
        }
        let provider = provider_model.substring_char(0, colon);
        let model = provider_model.substring_char(colon + 1, chars.len());
        Some(
            DialogueParticipant {
                id,
                provider_id: provider.to_string(),
                model_id: model.to_string(),
                display_name: provider_model.to_string(),
                system_prompt: None,
                params: ParticipantParams::default(),
                color: ParticipantColor::from_index(index),
                active: true,
            },
        )
    }
}

/// Where the first participant with an identifier stands in a roster.
pub open spec fn position_of_id(
    roster: Seq<DialogueParticipantView>,
    id: ParticipantId,
) -> Option<int> {
    roster.map_values(|p: DialogueParticipantView| p.id).index_of_first(id)
}

/// Where the first participant that goes by a name stands in a roster. The case of ASCII letters
/// does not count.
pub open spec fn position_of_name(
    roster: Seq<DialogueParticipantView>,
    name: Seq<char>,
) -> Option<int> {
    roster.map_values(
        |p: DialogueParticipantView| same_ignoring_ascii_case(p.display_name, name),
    ).index_of_first(true)
}

/// Who of a roster takes turns.
pub open spec fn activity(roster: Seq<DialogueParticipantView>) -> Seq<bool> {
    roster.map_values(|p: DialogueParticipantView| p.active)
}

/// A roster in which the participant at a position is set active or inactive.
pub open spec fn with_activity_at(
    roster: Seq<DialogueParticipantView>,
    position: int,
    active: bool,
) -> Seq<DialogueParticipantView> {
    roster.update(position, DialogueParticipantView { active, ..roster[position] })
}

/// What `position_of_id` finds is the first participant with the identifier.
pub proof fn lemma_position_of_id(roster: Seq<DialogueParticipantView>, id: ParticipantId)
    ensures
        match position_of_id(roster, id) {
            Some(position) => {
                &&& 0 <= position < roster.len()
                &&& roster[position].id == id
                &&& forall|j: int| 0 <= j < position ==> (#[trigger] roster[j]).id != id
            },
            None => forall|j: int| 0 <= j < roster.len() ==> (#[trigger] roster[j]).id != id,
        },
{
    let ids = roster.map_values(|p: DialogueParticipantView| p.id);
    ids.index_of_first_ensures(id);
    assert forall|j: int| 0 <= j < roster.len() implies (#[trigger] roster[j]).id == ids[j] by {}
}

/// What `position_of_name` finds is the first participant that goes by the name.
pub proof fn lemma_position_of_name(roster: Seq<DialogueParticipantView>, name: Seq<char>)
    ensures
        match position_of_name(roster, name) {
            Some(position) => {
                &&& 0 <= position < roster.len()
                &&& same_ignoring_ascii_case(roster[position].display_name, name)
                &&& forall|j: int|
                    0 <= j < position ==> !same_ignoring_ascii_case(
                        (#[trigger] roster[j]).display_name,
                        name,
                    )
            },
            None => forall|j: int|
                0 <= j < roster.len() ==> !same_ignoring_ascii_case(
                    (#[trigger] roster[j]).display_name,
                    name,
                ),
        },
{
    let matching = roster.map_values(
        |p: DialogueParticipantView| same_ignoring_ascii_case(p.display_name, name),
    );
    matching.index_of_first_ensures(true);
    assert forall|j: int| 0 <= j < roster.len() implies same_ignoring_ascii_case(
        (#[trigger] roster[j]).display_name,
        name,
    ) == matching[j] by {}
}

/// A participant with the provider that speaks for it.
#[derive(Debug)]
pub struct ActiveParticipant<P> {
    /// Who the participant is.
    pub config: DialogueParticipant,
    /// Speaks for the participant.
    pub provider: P,
}

/// A participant with its provider, as the contracts see it.
pub struct ActiveParticipantView<P> {
    pub config: DialogueParticipantView,
    pub provider: P,
}

impl<P> View for ActiveParticipant<P> {
    type V = ActiveParticipantView<P>;

    open spec fn view(&self) -> ActiveParticipantView<P> {
        ActiveParticipantView { config: self.config@, provider: self.provider }
    }
}

/// A designation that names a provider and a model is those two with a colon between them, and
/// the provider's name holds no colon.
pub proof fn law_designation_is_provider_colon_model(designation: Seq<char>)
    requires
        designated(designation) is Some,
    ensures
        ({
            let (provider, model) = designated(designation)->0;
            &&& designation == provider + seq![':'] + model
            &&& !provider.contains(':')
            &&& provider.len() > 0
            &&& model.len() > 0
        }),
{
    designation.index_of_first_ensures(':');
    let (provider, model) = designated(designation)->0;
    assert(designation =~= provider + seq![':'] + model);
}

/// Joining a provider's name without colons and a model's name by a colon gives a designation
/// that names exactly the two.
pub proof fn law_designation_names_its_parts(provider: Seq<char>, model: Seq<char>)
    requires
        provider.len() > 0,
        model.len() > 0,
        !provider.contains(':'),
    ensures
        designated(provider + seq![':'] + model) == Some((provider, model)),
{
    let designation = provider + seq![':'] + model;
    designation.index_of_first_ensures(':');
    assert(designation[provider.len() as int] == ':');
    let colon = designation.index_of_first(':')->0;
    if colon < provider.len() {
        assert(provider[colon] == ':');
    }
    assert(designation.take(colon) =~= provider);
    assert(designation.skip(colon + 1) =~= model);
}

/// The palette goes round: six colours in a fixed order, then again from the first.
pub proof fn law_palette_goes_round(index: nat)
    ensures
        color_at(index + 6) == color_at(index),
        index % 6 == 0 ==> color_at(index) == ParticipantColor::Cyan,
        index % 6 == 1 ==> color_at(index) == ParticipantColor::Magenta,
        index % 6 == 2 ==> color_at(index) == ParticipantColor::Green,
        index % 6 == 3 ==> color_at(index) == ParticipantColor::Yellow,
        index % 6 == 4 ==> color_at(index) == ParticipantColor::Blue,
        index % 6 == 5 ==> color_at(index) == ParticipantColor::Red,
{
}

/// A participant comes of a provider's name without colons, a colon and a model's name, neither
/// name empty, and of nothing else. It goes by the whole designation, has the identifier, the
/// names' provider and model, no prompt, no parameters of its own and the colour of its position,
/// and takes turns.
pub proof fn law_designated_participant_is_as_asked(
    designation: Seq<char>,
    index: nat,
    id: ParticipantId,
)
    ensures
        match designated_participant(designation, index, id) {
            Some(participant) => {
                &&& designation == participant.provider_id + seq![':'] + participant.model_id
                &&& participant.provider_id.len() > 0
                &&& participant.model_id.len() > 0
                &&& forall|j: int|
                    0 <= j < participant.provider_id.len() ==> #[trigger] participant.provider_id[j]
                        != ':'
                &&& participant.id == id
                &&& participant.display_name == designation
                &&& participant.system_prompt is None
                &&& participant.params.max_tokens is None
                &&& participant.params.temperature_thousandths is None
                &&& participant.color == color_at(index)
                &&& participant.active
            },
            None => forall|colon: int|
                0 < colon && colon + 1 < designation.len() && #[trigger] designation[colon] == ':'
                    ==> exists|j: int| 0 <= j < colon && #[trigger] designation[j] == ':',
        },
{
    designation.index_of_first_ensures(':');
    match designated_participant(designation, index, id) {
        Some(participant) => {
            law_designation_is_provider_colon_model(designation);
            assert forall|j: int| 0 <= j < participant.provider_id.len() implies #[trigger]
            participant.provider_id[j] != ':' by {
                if participant.provider_id[j] == ':' {
                    assert(participant.provider_id.contains(':'));
                }
            }
        },
        None => {
            assert forall|colon: int|
                0 < colon && colon + 1 < designation.len() && #[trigger] designation[colon]
                    == ':' implies exists|j: int|
                0 <= j < colon && #[trigger] designation[j] == ':' by {
                assert(designation.contains(':'));
                let first = designation.index_of_first(':')->0;
                assert(designation[first] == ':');
                assert(first <= colon);
            }
        },
    }
}

/// Setting one participant active or inactive leaves the others as they are, and of that one
/// everything else.
pub proof fn law_activity_is_set_at_one_position(
    roster: Seq<DialogueParticipantView>,
    position: int,
    active: bool,
)
    requires
        0 <= position < roster.len(),
    ensures
        ({
            let after = with_activity_at(roster, position, active);
            &&& after.len() == roster.len()
            &&& forall|i: int|
                0 <= i < roster.len() && i != position ==> #[trigger] after[i] == roster[i]
            &&& after[position].active == active
            &&& after[position].id == roster[position].id
            &&& after[position].provider_id == roster[position].provider_id
            &&& after[position].model_id == roster[position].model_id
            &&& after[position].display_name == roster[position].display_name
            &&& after[position].system_prompt == roster[position].system_prompt
            &&& after[position].params == roster[position].params
            &&& after[position].color == roster[position].color
        }),
{
}

/// A roster's activity tells of every participant, in order, whether it takes turns.
pub proof fn law_activity_tells_of_everybody(roster: Seq<DialogueParticipantView>)
    ensures
        activity(roster).len() == roster.len(),
        forall|i: int| 0 <= i < roster.len() ==> #[trigger] activity(roster)[i] == roster[i].active,
{
}

} // verus!
