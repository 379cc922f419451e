//! The subscription façade's decision layer: the typed outcomes of a
//! channel registration and of one receive on a handle, and the step a
//! consumer loop takes for each.
//!
//! The transport engine performs the joins and delivers raw messages on
//! its own task; the functions here decide, from plain values, what
//! each delivery means. A bad message degrades that one message only,
//! a lagging consumer is told so explicitly, and closure of the
//! connection surfaces as an ended stream, never as a crash.

use vstd::prelude::*;
use crate::decode::{DecodeError, DecodeModel, decode, spec_decode};
use crate::json::{JsonValue, body_model};
use crate::schema::{StreamEvent, wf_stream_event};

verus! {

/// Why a channel registration failed. Returned to the immediate
/// caller; this layer never retries on its own.
#[derive(Clone, Copy, Debug, PartialEq, Eq, Structural)]
pub enum RegistrationError {
    /// The transport rejected the join or is no longer there.
    TransportRejected,
    /// The topic is already joined, with a configuration this request
    /// does not match.
    DuplicateTopic,
}

/// What one receive on a handle yielded, as plain values.
#[derive(Debug, PartialEq)]
pub enum RecvOutcome {
    /// A raw message: discriminator string and untyped body.
    Message {
        /// The discriminator the message was delivered under.
        discriminator: String,
        /// The raw body.
        body: JsonValue,
    },
    /// The consumer fell behind and missed messages.
    Lagged {
        /// How many messages were missed.
        missed: u64,
    },
    /// The channel is closed; nothing more will arrive.
    Closed,
}

/// The step a consumer takes for one receive outcome.
#[derive(Debug, PartialEq)]
pub enum StreamStep {
    /// Deliver this decoded envelope to the consumer.
    Deliver(StreamEvent),
    /// Skip one undecodable message, with the reason and the offending
    /// input; the channel and every other consumer are unaffected.
    Skip(DecodeError),
    /// Tell the consumer it lagged: it missed this many messages, and
    /// the stream goes on.
    ConsumerLagged {
        /// How many messages were missed.
        missed: u64,
    },
    /// The stream is over.
    Ended,
}

/// Decides the consumer's step for one receive outcome. A message is
/// decoded against the payload schema; lag and closure pass through
/// explicitly, so no message loss is ever silent.
pub fn next_step(outcome: RecvOutcome) -> (r: StreamStep)
    ensures
        match outcome {
            RecvOutcome::Message { discriminator: d, body: bd } => match r {
                StreamStep::Deliver(ev) => {
                    &&& spec_decode(d@, body_model(bd)) == DecodeModel::Decoded(ev@)
                    &&& wf_stream_event(ev@)
                },
                StreamStep::Skip(e) => match e {
                    DecodeError::UnknownDiscriminator { discriminator: d2, body: b2 } => {
                        &&& spec_decode(d@, body_model(bd)) is Unknown
                        &&& d2@ == d@
                        &&& b2 == bd
                    },
                    DecodeError::MalformedPayload { event, body: b2 } => {
                        &&& spec_decode(d@, body_model(bd)) == DecodeModel::Malformed(event)
                        &&& b2 == bd
                    },
                },
                _ => false,
            },
            RecvOutcome::Lagged { missed } => r == (StreamStep::ConsumerLagged { missed }),
            RecvOutcome::Closed => r is Ended,
        },
{
    match outcome {
        RecvOutcome::Message { discriminator, body } => {
            match decode(discriminator.as_str(), body) {
                Ok(ev) => StreamStep::Deliver(ev),
                Err(e) => StreamStep::Skip(e),
            }
        },
        RecvOutcome::Lagged { missed } => StreamStep::ConsumerLagged { missed },
        RecvOutcome::Closed => StreamStep::Ended,
    }
}

} // verus!
