//! How a streamed reply is relayed to the client: each outcome of the stream
//! becomes a stream event, and the relay stops at the first failure or at the
//! end of the stream.

use vstd::prelude::*;

use crate::message::RuntimeEvent;

verus! {

/// What the model service's stream gave next.
pub enum StreamOutcome {
    /// A piece of the reply.
    Piece(String),
    /// A failure, described by a text.
    Failed(String),
    /// The stream has no more items.
    Ended,
}

/// The event that relays `outcome`, and whether the relay goes on.
pub open spec fn relay_step(outcome: StreamOutcome) -> (RuntimeEvent, bool) {
    match outcome {
        StreamOutcome::Piece(text) => (RuntimeEvent::Token(text), true),
        StreamOutcome::Failed(text) => (RuntimeEvent::Error(text), false),
        StreamOutcome::Ended => (RuntimeEvent::Finished, false),
    }
}

/// The events that the relay sends when the stream gives `outcomes` in order:
/// one per outcome, up to and including the first that stops it.
pub open spec fn relay_run(outcomes: Seq<StreamOutcome>) -> Seq<RuntimeEvent>
    decreases outcomes.len(),
{
    if outcomes.len() == 0 {
        Seq::empty()
    } else {
        let (event, go_on) = relay_step(outcomes[0]);
        if go_on {
            seq![event] + relay_run(outcomes.drop_first())
        } else {
            seq![event]
        }
    }
}

/// The event that relays `outcome`, and whether the relay goes on reading the
/// stream: a piece becomes a piece of text and the relay goes on; a failure
/// becomes an error with the same text and the relay stops; the end becomes
/// the end of the reply and the relay stops.
pub fn relay(outcome: StreamOutcome) -> (step: (RuntimeEvent, bool))
    ensures
        step == relay_step(outcome),
{
    match outcome {
        StreamOutcome::Piece(text) => (RuntimeEvent::Token(text), true),
        StreamOutcome::Failed(text) => (RuntimeEvent::Error(text), false),
        StreamOutcome::Ended => (RuntimeEvent::Finished, false),
    }
}

} // verus!
