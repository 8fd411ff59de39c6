//! The way of a snapshot from the update source into the frame loop: a channel
//! that the source fills from its own thread and that the loop empties once
//! per tick, without ever waiting.

use vstd::prelude::*;
use crate::structure::{Atom, UpdateStructure};

verus! {

/// `crossbeam_channel::Receiver`, the reading end of a channel. Nothing of its
/// state is visible to contracts: another thread may fill it at any moment.
#[verifier::external_type_specification]
#[verifier::external_body]
#[verifier::reject_recursive_types(T)]
pub struct ExReceiver<T>(crossbeam_channel::Receiver<T>);

/// `crossbeam_channel::Sender`, the writing end of a channel.
#[verifier::external_type_specification]
#[verifier::external_body]
#[verifier::reject_recursive_types(T)]
pub struct ExSender<T>(crossbeam_channel::Sender<T>);

/// `crossbeam_channel::unbounded` makes a channel of unbounded capacity and
/// returns its two ends. Nothing is claimed of them.
pub assume_specification<T>[ crossbeam_channel::unbounded::<T> ]() -> (ends: (
    crossbeam_channel::Sender<T>,
    crossbeam_channel::Receiver<T>,
));

/// Calls `Receiver::try_recv`, which returns at once: a message if one is
/// waiting, an error if the channel is empty or disconnected. The error is
/// mapped to `None`. What comes back depends on the sending thread, so the
/// contract promises nothing.
#[verifier::external_body]
fn try_receive(
    receiver: &crossbeam_channel::Receiver<UpdateStructure>,
) -> (received: Option<UpdateStructure>) {
    receiver.try_recv().ok()
}

/// Calls `Sender::send` and tells whether the message was taken. On a channel
/// of unbounded capacity the call does not wait; it fails only where every
/// receiver is gone, which no contract can foresee.
#[verifier::external_body]
fn send_update(
    sender: &crossbeam_channel::Sender<UpdateStructure>,
    update: UpdateStructure,
) -> (delivered: bool) {
    sender.send(update).is_ok()
}

/// The reading end of the update channel, held by the frame loop.
pub struct WebSocketStream {
    receiver: crossbeam_channel::Receiver<UpdateStructure>,
}

/// Opens the update channel. The sender goes to the update source; the stream
/// stays with the frame loop.
pub fn setup_websocket_stream() -> (ends: (
    crossbeam_channel::Sender<UpdateStructure>,
    WebSocketStream,
)) {
    let (sender, receiver) = crossbeam_channel::unbounded::<UpdateStructure>();
    (sender, WebSocketStream { receiver })
}

/// Takes the outcome of one attempt to receive. A snapshot is appended to the
/// events of this tick and more may follow; `None` ends the tick's intake.
pub fn publish(received: Option<UpdateStructure>, events: &mut Vec<UpdateStructure>) -> (more: bool)
    ensures
        match received {
            Some(update) => more && final(events)@ == old(events)@.push(update),
            None => !more && final(events)@ == old(events)@,
        },
{
    match received {
        Some(update) => {
            events.push(update);
            true
        },
        None => false,
    }
}

/// Empties the channel into `events`, in arrival order, and returns as soon as
/// the channel has nothing more to give. Events already in the list stay in
/// front, untouched.
pub fn poll_websocket_stream(stream: &WebSocketStream, events: &mut Vec<UpdateStructure>)
    ensures
        old(events)@.len() <= final(events)@.len(),
        final(events)@.take(old(events)@.len() as int) == old(events)@,
{
    // A vector never holds `usize::MAX` items, so the bound only serves as the
    // measure by which the loop ends.
    while events.len() < usize::MAX
        invariant
            old(events)@.len() <= events@.len(),
            events@.take(old(events)@.len() as int) == old(events)@,
        decreases usize::MAX - events.len(),
    {
        let received = try_receive(&stream.receiver);
        let ghost before = events@;
        let more = publish(received, events);
        if !more {
            break;
        }
        assert(events@.take(old(events)@.len() as int) =~= before.take(
            old(events)@.len() as int,
        ));
    }
}

/// What the update source has read from its connection.
pub enum SocketMessage {
    /// A text payload that decoded to a snapshot.
    Snapshot(Vec<Atom>),
    /// A text payload that did not decode.
    Malformed,
    /// The server closed the connection.
    Closed,
    /// Reading failed.
    Failed,
    /// Any other kind of message.
    Other,
}

/// Whether the update source goes on reading.
#[derive(Clone, Copy, Debug, PartialEq, Eq, Structural)]
pub enum ConnectorStep {
    Continue,
    Stop,
}

/// The step after an attempt to hand a snapshot to the channel: a channel
/// that no longer takes messages ends the session.
pub open spec fn step_after_send(delivered: bool) -> ConnectorStep {
    if delivered {
        ConnectorStep::Continue
    } else {
        ConnectorStep::Stop
    }
}

/// Decides the step after an attempt to hand a snapshot to the channel.
pub fn after_send(delivered: bool) -> (step: ConnectorStep)
    ensures
        step == step_after_send(delivered),
{
    if delivered {
        ConnectorStep::Continue
    } else {
        ConnectorStep::Stop
    }
}

/// Hands a decoded snapshot to the channel and tells whether it was taken.
pub fn forward_snapshot(
    sender: &crossbeam_channel::Sender<UpdateStructure>,
    atoms: Vec<Atom>,
) -> (delivered: bool) {
    send_update(sender, UpdateStructure { atoms })
}

/// Handles one message of the connection. A snapshot goes to the channel, and
/// the source stops if the channel did not take it. A malformed payload is
/// dropped and any other message ignored; the source reads on. A close or a
/// read failure ends the session.
pub fn handle_socket_message(
    sender: &crossbeam_channel::Sender<UpdateStructure>,
    message: SocketMessage,
) -> (step: ConnectorStep)
    ensures
        message is Closed || message is Failed ==> step == ConnectorStep::Stop,
        message is Malformed || message is Other ==> step == ConnectorStep::Continue,
{
    match message {
        SocketMessage::Snapshot(atoms) => after_send(forward_snapshot(sender, atoms)),
        SocketMessage::Malformed => ConnectorStep::Continue,
        SocketMessage::Closed => ConnectorStep::Stop,
        SocketMessage::Failed => ConnectorStep::Stop,
        SocketMessage::Other => ConnectorStep::Continue,
    }
}

} // verus!
