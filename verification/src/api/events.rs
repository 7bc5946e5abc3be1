//! The lifecycle of one subscriber connection: what to do with what the bus
//! yields, and what to do with what the client sends. The connection runs
//! both; it ends as soon as either says so.

use vstd::prelude::*;
use crate::bus::RecvOutcome;
use crate::live::LiveEvent;

verus! {

/// What the connection does after a receive attempt on the bus.
#[derive(Debug, Clone, PartialEq, Eq)]
pub enum BusStep {
    /// Send the event to the client.
    Forward(LiveEvent),
    /// The subscriber lagged by this many events: note it and go on.
    NoteLag(u64),
    /// Nothing to send: wait for the next event.
    Wait,
    /// The bus is closed: end the connection.
    Stop,
}

/// The step that follows a receive attempt.
pub open spec fn bus_step_of(outcome: RecvOutcome) -> BusStep {
    match outcome {
        RecvOutcome::Event(e) => BusStep::Forward(e),
        RecvOutcome::Lagged(n) => BusStep::NoteLag(n),
        RecvOutcome::Empty => BusStep::Wait,
        RecvOutcome::Closed => BusStep::Stop,
    }
}

/// Decides what follows a receive attempt: an event is forwarded, a lag is
/// noted without ending the connection, and only a closed bus ends it.
pub fn on_bus_outcome(outcome: RecvOutcome) -> (step: BusStep)
    ensures
        step == bus_step_of(outcome),
{
    match outcome {
        RecvOutcome::Event(e) => BusStep::Forward(e),
        RecvOutcome::Lagged(n) => BusStep::NoteLag(n),
        RecvOutcome::Empty => BusStep::Wait,
        RecvOutcome::Closed => BusStep::Stop,
    }
}

/// What a read on the client's side of the connection gave.
#[derive(Debug, Clone, PartialEq, Eq)]
pub enum ClientInput {
    /// The client went away without a word.
    Ended,
    /// The read failed.
    Failed,
    /// The client asked to close.
    Close,
    /// The client sent a ping with this payload.
    Ping(Vec<u8>),
    /// Any other frame.
    Other,
}

/// What the connection does after a read on the client's side.
#[derive(Debug, Clone, PartialEq, Eq)]
pub enum ClientStep {
    /// Answer with a pong that carries this payload.
    Pong(Vec<u8>),
    /// Nothing to do.
    Ignore,
    /// End the connection.
    Stop,
}

/// The step that follows a read on the client's side.
pub open spec fn client_step_of(input: ClientInput) -> ClientStep {
    match input {
        ClientInput::Ended => ClientStep::Stop,
        ClientInput::Close => ClientStep::Stop,
        ClientInput::Ping(data) => ClientStep::Pong(data),
        ClientInput::Failed => ClientStep::Ignore,
        ClientInput::Other => ClientStep::Ignore,
    }
}

/// Decides what follows a read on the client's side: a client that closed
/// or went away ends the connection, a ping is answered with its own
/// payload, and everything else is ignored.
pub fn on_client_input(input: ClientInput) -> (step: ClientStep)
    ensures
        step == client_step_of(input),
{
    match input {
        ClientInput::Ended => ClientStep::Stop,
        ClientInput::Close => ClientStep::Stop,
        ClientInput::Ping(data) => ClientStep::Pong(data),
        ClientInput::Failed => ClientStep::Ignore,
        ClientInput::Other => ClientStep::Ignore,
    }
}

/// Whether the connection goes on after it tried to send a frame: a send
/// that failed ends it.
pub fn continues_after_send(sent: bool) -> (go_on: bool)
    ensures
        go_on == sent,
{
    sent
}

} // verus!
