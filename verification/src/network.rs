//! The connection handler: what its two duties decide.
//!
//! Each connection has a reader duty, which turns frames into queued client
//! messages, and a writer duty, which forwards snapshots. Both are given
//! here as step functions: the caller waits on the transport, says what
//! happened, and is told what to do next.

use crate::messages::{ClientMessage, ClientMessageType, ConnectionId, ServerMessage};
use vstd::prelude::*;

verus! {

/// `tokio::sync::mpsc::Sender`, the sending half of the bounded input
/// queue. Trusted as an opaque handle.
#[verifier::external_type_specification]
#[verifier::external_body]
#[verifier::reject_recursive_types(T)]
pub struct ExInputSender<T>(tokio::sync::mpsc::Sender<T>);

/// What the reader duty saw on the transport.
#[derive(Debug, Clone, PartialEq, Eq)]
pub enum ReaderEvent {
    /// A text frame whose payload was decoded.
    Decoded(ClientMessageType),
    /// A text frame whose payload could not be decoded.
    Malformed,
    /// A binary frame.
    Binary,
    /// A control frame that needs no answer from this layer.
    Other,
    /// A close frame.
    Close,
    /// The transport failed.
    Failed,
    /// The stream ended.
    EndOfStream,
}

/// What the reader duty does about an event.
#[derive(Debug, Clone, PartialEq, Eq)]
pub enum ReaderAction {
    /// Offer the message to the input queue without waiting, then read on.
    Offer(ClientMessage),
    /// Read on.
    Ignore,
    /// Put the message into the input queue, waiting if need be, and stop.
    Farewell(ClientMessage),
}

/// How the input queue took an offered message.
#[derive(Clone, Copy, Debug, PartialEq, Eq, Structural)]
pub enum OfferOutcome {
    /// The message is queued.
    Accepted,
    /// The queue was full; the message is lost.
    Full,
    /// The queue is closed; the message is lost.
    Closed,
}

/// How one event of the reader duty ended.
#[derive(Debug, Clone, PartialEq, Eq)]
pub enum ReaderStep {
    /// The message is queued; read on.
    Enqueued,
    /// The queue was full and the message is lost; read on.
    Dropped,
    /// There was nothing to queue; read on.
    Ignored,
    /// The queue is closed; stop.
    QueueClosed,
    /// Put the message into the input queue, waiting if need be, and stop.
    Farewell(ClientMessage),
}

/// The `Disconnect` that a reader leaves behind for its connection.
pub open spec fn farewell(address: ConnectionId) -> ClientMessage {
    ClientMessage { message_type: ClientMessageType::Disconnect, address }
}

/// What the reader duty of the connection `address` does about `event`.
///
/// A decoded message is offered to the queue under the connection's
/// identity. A frame that cannot be decoded, a binary frame and a control
/// frame are passed over. A close frame, a transport failure and the end
/// of the stream end the duty with a `Disconnect` for the connection.
pub open spec fn reader_action(address: ConnectionId, event: ReaderEvent) -> ReaderAction {
    match event {
        ReaderEvent::Decoded(message_type) => ReaderAction::Offer(
            ClientMessage { message_type, address },
        ),
        ReaderEvent::Malformed | ReaderEvent::Binary | ReaderEvent::Other => ReaderAction::Ignore,
        ReaderEvent::Close | ReaderEvent::Failed | ReaderEvent::EndOfStream => {
            ReaderAction::Farewell(farewell(address))
        },
    }
}

/// How the reader duty goes on once the queue has answered an offer.
pub open spec fn after_offer(outcome: OfferOutcome) -> ReaderStep {
    match outcome {
        OfferOutcome::Accepted => ReaderStep::Enqueued,
        OfferOutcome::Full => ReaderStep::Dropped,
        OfferOutcome::Closed => ReaderStep::QueueClosed,
    }
}

/// The one step that the reader duty of `address` takes on `event` when the
/// queue answers an offer with `outcome`.
pub open spec fn reader_step(
    address: ConnectionId,
    event: ReaderEvent,
    outcome: OfferOutcome,
) -> ReaderStep {
    match reader_action(address, event) {
        ReaderAction::Offer(_) => after_offer(outcome),
        ReaderAction::Ignore => ReaderStep::Ignored,
        ReaderAction::Farewell(message) => ReaderStep::Farewell(message),
    }
}

impl ReaderStep {
    /// Whether the reader duty reads another frame after this step.
    pub open spec fn reads_on(&self) -> bool {
        self is Enqueued || self is Dropped || self is Ignored
    }

    /// Whether the reader duty reads another frame after this step.
    pub fn continues(&self) -> (more: bool)
        ensures
            more == self.reads_on(),
    {
        match self {
            ReaderStep::Enqueued | ReaderStep::Dropped | ReaderStep::Ignored => true,
            ReaderStep::QueueClosed | ReaderStep::Farewell(_) => false,
        }
    }
}

/// Offers `message` to the input queue with `tokio::sync::mpsc::Sender::try_send`.
///
/// Trusted: the call returns at once and tells a queued message, a full
/// queue and a closed queue apart. Which of the three comes back depends on
/// the other users of the queue, so nothing is claimed about the result.
#[verifier::external_body]
fn offer(tx: &tokio::sync::mpsc::Sender<ClientMessage>, message: ClientMessage) -> (outcome:
    OfferOutcome)
{
    match tx.try_send(message) {
        Ok(()) => OfferOutcome::Accepted,
        Err(tokio::sync::mpsc::error::TrySendError::Full(_)) => OfferOutcome::Full,
        Err(tokio::sync::mpsc::error::TrySendError::Closed(_)) => OfferOutcome::Closed,
    }
}

/// Decides what the reader duty of the connection `address` does about `event`.
pub fn decide_read(address: ConnectionId, event: ReaderEvent) -> (action: ReaderAction)
    ensures
        action == reader_action(address, event),
{
    match event {
        ReaderEvent::Decoded(message_type) => ReaderAction::Offer(
            ClientMessage { message_type, address },
        ),
        ReaderEvent::Malformed | ReaderEvent::Binary | ReaderEvent::Other => ReaderAction::Ignore,
        ReaderEvent::Close | ReaderEvent::Failed | ReaderEvent::EndOfStream => {
            ReaderAction::Farewell(
                ClientMessage { message_type: ClientMessageType::Disconnect, address },
            )
        },
    }
}

/// Decides how the reader duty goes on once the queue has answered an offer:
/// a full queue costs the message and nothing else, a closed queue ends
/// the duty.
pub fn settle_offer(outcome: OfferOutcome) -> (step: ReaderStep)
    ensures
        step == after_offer(outcome),
{
    match outcome {
        OfferOutcome::Accepted => ReaderStep::Enqueued,
        OfferOutcome::Full => ReaderStep::Dropped,
        OfferOutcome::Closed => ReaderStep::QueueClosed,
    }
}

/// One step of the reader duty of the connection `address`: decides about
/// `event` and, where a message is to be offered, offers it to the input
/// queue behind `tx`.
pub fn read_step(
    tx: &tokio::sync::mpsc::Sender<ClientMessage>,
    address: ConnectionId,
    event: ReaderEvent,
) -> (step: ReaderStep)
    ensures
        exists|outcome: OfferOutcome| step == #[trigger] reader_step(address, event, outcome),
{
    match decide_read(address, event) {
        ReaderAction::Offer(message) => {
            let outcome = offer(tx, message);
            assert(after_offer(outcome) == reader_step(address, event, outcome));
            settle_offer(outcome)
        },
        ReaderAction::Ignore => {
            assert(ReaderStep::Ignored == reader_step(address, event, OfferOutcome::Accepted));
            ReaderStep::Ignored
        },
        ReaderAction::Farewell(message) => {
            assert(ReaderStep::Farewell(message) == reader_step(
                address,
                event,
                OfferOutcome::Accepted,
            ));
            ReaderStep::Farewell(message)
        },
    }
}

/// The messages that the reader duty of the connection `address` hands to
/// the input queue over the events `events`, while the queue stays open.
/// Nothing follows the farewell.
pub open spec fn handed_over(address: ConnectionId, events: Seq<ReaderEvent>) -> Seq<ClientMessage>
    decreases events.len(),
{
    if events.len() == 0 {
        Seq::empty()
    } else {
        match reader_action(address, events.first()) {
            ReaderAction::Offer(message) => seq![message] + handed_over(
                address,
                events.drop_first(),
            ),
            ReaderAction::Ignore => handed_over(address, events.drop_first()),
            ReaderAction::Farewell(message) => seq![message],
        }
    }
}

/// A frame that cannot be decoded does not end the connection and costs no
/// other frame: the reader hands over what it would have handed over had
/// the frame never come.
pub proof fn lemma_malformed_frame_is_passed_over(
    address: ConnectionId,
    before: Seq<ReaderEvent>,
    after: Seq<ReaderEvent>,
)
    ensures
        handed_over(address, before + seq![ReaderEvent::Malformed] + after) == handed_over(
            address,
            before + after,
        ),
    decreases before.len(),
{
    let with = before + seq![ReaderEvent::Malformed] + after;
    let without = before + after;
    if before.len() == 0 {
        assert(with.first() == ReaderEvent::Malformed);
        assert(with.drop_first() =~= after);
        assert(without =~= after);
    } else {
        assert(with.first() == before.first());
        assert(without.first() == before.first());
        assert(with.drop_first() =~= before.drop_first() + seq![ReaderEvent::Malformed] + after);
        assert(without.drop_first() =~= before.drop_first() + after);
        lemma_malformed_frame_is_passed_over(address, before.drop_first(), after);
    }
}

/// What happened to the writer duty: what it received from the fan-out, or
/// how its last write to the transport ended.
#[derive(Debug, Clone, PartialEq, Eq)]
pub enum WriterEvent {
    /// The fan-out delivered the next snapshot.
    Snapshot(ServerMessage),
    /// The writer fell behind and this many snapshots were lost to it.
    Lagged(u64),
    /// The fan-out is closed.
    Closed,
    /// The transport refused the last snapshot.
    WriteFailed,
}

/// What the writer duty does about an event.
#[derive(Debug, Clone, PartialEq, Eq)]
pub enum WriterAction {
    /// Serialise the snapshot, write it to the transport, then wait for
    /// the next event.
    Forward(ServerMessage),
    /// Wait for the next event.
    Skip,
    /// Stop.
    Stop,
}

/// What the writer duty does about `event`: a snapshot is forwarded, a gap
/// is tolerated, and a closed fan-out or a failed write ends the duty.
pub open spec fn writer_action(event: WriterEvent) -> WriterAction {
    match event {
        WriterEvent::Snapshot(message) => WriterAction::Forward(message),
        WriterEvent::Lagged(_) => WriterAction::Skip,
        WriterEvent::Closed | WriterEvent::WriteFailed => WriterAction::Stop,
    }
}

/// Decides what the writer duty does about `event`.
pub fn decide_write(event: WriterEvent) -> (action: WriterAction)
    ensures
        action == writer_action(event),
{
    match event {
        WriterEvent::Snapshot(message) => WriterAction::Forward(message),
        WriterEvent::Lagged(_) => WriterAction::Skip,
        WriterEvent::Closed | WriterEvent::WriteFailed => WriterAction::Stop,
    }
}

} // verus!
