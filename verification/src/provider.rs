//! Which model a participant speaks with.

use vstd::prelude::*;

use crate::participant::{DialogueParticipant, DialogueParticipantView};
use crate::text::text_of;

verus! {

/// Identifies a provider of models.
#[derive(Debug, PartialEq, Eq)]
pub struct ProviderId {
    /// The provider's name.
    pub value: String,
}

impl View for ProviderId {
    type V = Seq<char>;

    open spec fn view(&self) -> Seq<char> {
        self.value@
    }
}

impl ProviderId {
    /// Takes a name as an identifier.
    pub fn new(value: &str) -> (id: Self)
        ensures
            id@ == value@,
    {
        ProviderId { value: value.to_string() }
    }
}

/// The model that is wanted.
#[derive(Debug, PartialEq, Eq)]
pub struct ProviderSelection {
    /// Who provides the model.
    pub provider_id: ProviderId,
    /// The model; the provider's choice where absent.
    pub model: Option<String>,
}

/// The model that is wanted, as the contracts see it.
pub struct ProviderSelectionView {
    pub provider_id: Seq<char>,
    pub model: Option<Seq<char>>,
}

impl View for ProviderSelection {
    type V = ProviderSelectionView;

    open spec fn view(&self) -> ProviderSelectionView {
        ProviderSelectionView { provider_id: self.provider_id@, model: text_of(self.model) }
    }
}

/// The model of a participant.
pub open spec fn selection_of(config: DialogueParticipantView) -> ProviderSelectionView {
    ProviderSelectionView { provider_id: config.provider_id, model: Some(config.model_id) }
}

impl ProviderSelection {
    /// Selects the model of a participant.
    pub fn of_participant(config: &DialogueParticipant) -> (selection: Self)
        ensures
            selection@ == selection_of(config@),
    {
        ProviderSelection {
            provider_id: ProviderId::new(config.provider_id.as_str()),
            model: Some(config.model_id.clone()),
        }
    }
}

/// What a participant's provider is told beyond its usual settings.
#[derive(Debug, PartialEq, Eq)]
pub struct ProviderOverrides {
    /// The system prompt.
    pub system: Option<String>,
}

/// What a provider is told beyond its usual settings, as the contracts see it.
pub struct ProviderOverridesView {
    pub system: Option<Seq<char>>,
}

impl View for ProviderOverrides {
    type V = ProviderOverridesView;

    open spec fn view(&self) -> ProviderOverridesView {
        ProviderOverridesView { system: text_of(self.system) }
    }
}

impl Default for ProviderOverrides {
    fn default() -> (overrides: Self)
        ensures
            overrides@ == (ProviderOverridesView { system: None }),
    {
        ProviderOverrides { system: None }
    }
}

/// A provider that is ready to speak, and what it can do.
#[derive(Debug)]
pub struct ProviderInstance<P, C> {
    /// Speaks.
    pub provider: P,
    /// What it can do.
    pub capabilities: C,
}

/// The providers that are known.
#[derive(Debug)]
pub struct ProviderRegistry {
    /// The known providers.
    pub providers: Vec<ProviderId>,
}

impl View for ProviderRegistry {
    type V = Seq<Seq<char>>;

    open spec fn view(&self) -> Seq<Seq<char>> {
        self.providers@.map_values(|id: ProviderId| id@)
    }
}

impl ProviderRegistry {
    /// Looks up a provider.
    pub fn get(&self, id: &ProviderId) -> (provider: Option<&ProviderId>)
        ensures
            match provider {
                Some(found) => found@ == id@ && self@.contains(id@),
                None => !self@.contains(id@),
            },
    {
        for i in 0..self.providers.len()
            invariant
                forall|j: int| 0 <= j < i ==> #[trigger] self@[j] != id@,
        {
            assert(self@[i as int] == self.providers@[i as int]@);
            if self.providers[i].value == id.value {
                return Some(&self.providers[i]);
            }
        }
        None
    }
}

/// A participant is asked for with its own provider and its own model.
pub proof fn law_participant_asks_for_its_own_model(config: DialogueParticipantView)
    ensures
        selection_of(config).provider_id == config.provider_id,
        selection_of(config).model == Some(config.model_id),
{
}

} // verus!
