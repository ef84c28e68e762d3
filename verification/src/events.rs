//! What a dialogue tells its listeners, and the channel that carries it.

use vstd::prelude::*;

use tokio::sync::mpsc::{UnboundedReceiver, UnboundedSender};

use crate::chat::Usage;
use crate::participant::ParticipantId;

verus! {

/// Why a dialogue stopped.
#[derive(Debug, Clone, Copy, PartialEq, Eq, Structural)]
pub enum StopReason {
    /// The user asked for it.
    UserRequested,
    /// No active participant is left.
    AllParticipantsLeft,
}

/// Something that happened in a dialogue.
#[derive(Debug, PartialEq, Eq)]
pub enum DialogueEvent {
    /// The dialogue started.
    Started,
    /// The dialogue stopped.
    Stopped {
        /// Why it stopped.
        reason: StopReason,
    },
    /// A participant came in, for the first time or again.
    ParticipantJoined {
        /// Who came in.
        participant_id: ParticipantId,
        /// The name that the participant goes by.
        participant_name: String,
    },
    /// A participant left or was put out.
    ParticipantLeft {
        /// Who left.
        participant_id: ParticipantId,
    },
    /// The user said something.
    UserMessage {
        /// What the user said.
        content: String,
    },
    /// A participant finished a turn.
    TurnCompleted {
        /// Who spoke.
        participant_id: ParticipantId,
        /// What was said.
        content: String,
        /// The tokens that the turn used, where known.
        usage: Option<Usage>,
    },
}

/// An event, as the contracts see it.
pub enum DialogueEventView {
    Started,
    Stopped { reason: StopReason },
    ParticipantJoined { participant_id: ParticipantId, participant_name: Seq<char> },
    ParticipantLeft { participant_id: ParticipantId },
    UserMessage { content: Seq<char> },
    TurnCompleted { participant_id: ParticipantId, content: Seq<char>, usage: Option<Usage> },
}

impl View for DialogueEvent {
    type V = DialogueEventView;

    open spec fn view(&self) -> DialogueEventView {
        match *self {
            DialogueEvent::Started => DialogueEventView::Started,
            DialogueEvent::Stopped { reason } => DialogueEventView::Stopped { reason },
            DialogueEvent::ParticipantJoined { participant_id, participant_name } =>
                DialogueEventView::ParticipantJoined {
                    participant_id,
                    participant_name: participant_name@,
                },
            DialogueEvent::ParticipantLeft { participant_id } =>
                DialogueEventView::ParticipantLeft { participant_id },
            DialogueEvent::UserMessage { content } =>
                DialogueEventView::UserMessage { content: content@ },
            DialogueEvent::TurnCompleted { participant_id, content, usage } =>
                DialogueEventView::TurnCompleted { participant_id, content: content@, usage },
        }
    }
}

/// Tokio's sending half of an unbounded channel.
#[verifier::external_type_specification]
#[verifier::external_body]
#[verifier::reject_recursive_types(T)]
pub struct ExUnboundedSender<T>(tokio::sync::mpsc::UnboundedSender<T>);

/// Tokio's receiving half of an unbounded channel.
#[verifier::external_type_specification]
#[verifier::external_body]
#[verifier::reject_recursive_types(T)]
pub struct ExUnboundedReceiver<T>(tokio::sync::mpsc::UnboundedReceiver<T>);

/// The events that were handed to a sender for its channel, oldest first.
pub uninterp spec fn sent_events(sender: UnboundedSender<DialogueEvent>) -> Seq<DialogueEventView>;

/// A number that stands for the channel that a sender feeds.
pub uninterp spec fn sender_channel(sender: UnboundedSender<DialogueEvent>) -> int;

/// A number that stands for the channel that a receiver reads.
pub uninterp spec fn receiver_channel(receiver: UnboundedReceiver<DialogueEvent>) -> int;

/// Makes a channel with `tokio::sync::mpsc::unbounded_channel`: the two halves belong to one
/// channel, nothing was handed to the sender yet, and the channel is another one than that of a
/// sender that is still held.
#[verifier::external_body]
#[allow(unused_variables)]
pub(crate) fn event_channel(held: &Option<UnboundedSender<DialogueEvent>>) -> (halves: (
    UnboundedSender<DialogueEvent>,
    UnboundedReceiver<DialogueEvent>,
))
    ensures
        sent_events(halves.0) == Seq::<DialogueEventView>::empty(),
        sender_channel(halves.0) == receiver_channel(halves.1),
        held matches Some(other) ==> sender_channel(*other) != sender_channel(halves.0),
{
    tokio::sync::mpsc::unbounded_channel()
}

/// Hands an event to `tokio::sync::mpsc::UnboundedSender::send`, which puts it at the end of the
/// same channel. Tokio drops the event where the receiving half is closed; whether it is, is not
/// known here.
#[verifier::external_body]
pub(crate) fn send_event(sender: &mut UnboundedSender<DialogueEvent>, event: DialogueEvent)
    ensures
        sent_events(*final(sender)) == sent_events(*old(sender)).push(event@),
        sender_channel(*final(sender)) == sender_channel(*old(sender)),
{
    let _ = sender.send(event);
}

} // verus!
