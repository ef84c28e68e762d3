//! How a dialogue is set up.

use vstd::prelude::*;

verus! {

/// What a dialogue is for.
#[derive(Debug, Clone, Copy, PartialEq, Eq, Structural)]
pub enum DialogueMode {
    /// An open conversation.
    FreeForm,
    /// Participants work on one task together.
    Collaboration,
    /// Participants argue for opposite positions.
    Debate,
    /// Participants comment on each other's work.
    Critique,
}

/// Turn mode for participant ordering.
#[derive(Debug, Clone, Copy, PartialEq, Eq, Structural)]
pub enum TurnMode {
    /// Strict alternation between participants.
    RoundRobin,
    /// The current speaker designates the next.
    Directed,
    /// Any participant can speak.
    Free,
}

impl Default for TurnMode {
    fn default() -> (mode: Self)
        ensures
            mode == TurnMode::RoundRobin,
    {
        TurnMode::RoundRobin
    }
}

/// How a dialogue is set up.
#[derive(Debug, PartialEq, Eq)]
pub struct DialogueConfig {
    /// What the dialogue is for.
    pub mode: DialogueMode,
    /// What the dialogue starts from; empty for nothing.
    pub initial_prompt: String,
    /// How turns pass.
    pub turn_mode: TurnMode,
}

/// A dialogue's setup, as the contracts see it.
pub struct DialogueConfigView {
    pub mode: DialogueMode,
    pub initial_prompt: Seq<char>,
    pub turn_mode: TurnMode,
}

impl View for DialogueConfig {
    type V = DialogueConfigView;

    open spec fn view(&self) -> DialogueConfigView {
        DialogueConfigView {
            mode: self.mode,
            initial_prompt: self.initial_prompt@,
            turn_mode: self.turn_mode,
        }
    }
}

impl Clone for DialogueConfig {
    fn clone(&self) -> (copy: Self)
        ensures
            copy@ == self@,
    {
        DialogueConfig {
            mode: self.mode,
            initial_prompt: self.initial_prompt.clone(),
            turn_mode: self.turn_mode,
        }
    }
}

} // verus!
