//! The error taxonomy of the relay core.
//!
//! Every failure the core can report is one of these closed kinds; nothing in
//! the core panics or aborts.  A store key that is simply absent is the
//! `StoreMiss` kind, handled locally with a default and never surfaced to the
//! caller.

use vstd::prelude::*;

verus! {

/// The closed set of failure kinds the core distinguishes.
#[derive(Clone, Copy, PartialEq, Eq, Structural, Debug)]
pub enum ServiceError {
    /// A composer operation was called in a state that forbids it.
    InvalidState,
    /// `build` was called before the draft had a type and a body.
    IncompleteMessage,
    /// The outbound transport failed.
    DeliveryError,
    /// The provider response could not be decoded into the expected shape.
    ParseError,
    /// A store key was absent; a normal "not yet initialized" signal.
    StoreMiss,
    /// Any other store failure.
    StoreError,
    /// User input did not match the expected shape.
    ValidationError,
    /// A message-kind tag was not one of the recognized names.
    UnrecognizedKind,
}

impl ServiceError {
    /// A short description of the kind, usable where the kind itself cannot be
    /// printed.
    pub fn message(&self) -> (r: &'static str)
        ensures
            *self is InvalidState ==> r@ == "invalid state"@,
            *self is IncompleteMessage ==> r@ == "incomplete message"@,
            *self is DeliveryError ==> r@ == "delivery error"@,
            *self is ParseError ==> r@ == "parse error"@,
            *self is StoreMiss ==> r@ == "store miss"@,
            *self is StoreError ==> r@ == "store error"@,
            *self is ValidationError ==> r@ == "validation error"@,
            *self is UnrecognizedKind ==> r@ == "unrecognized kind"@,
    {
        match self {
            ServiceError::InvalidState => "invalid state",
            ServiceError::IncompleteMessage => "incomplete message",
            ServiceError::DeliveryError => "delivery error",
            ServiceError::ParseError => "parse error",
            ServiceError::StoreMiss => "store miss",
            ServiceError::StoreError => "store error",
            ServiceError::ValidationError => "validation error",
            ServiceError::UnrecognizedKind => "unrecognized kind",
        }
    }
}

/// The one message shown to end users for an internal failure: the exact kind
/// stays in the server log, never in a chat reply.
pub fn get_public_error(error: &ServiceError) -> (r: String)
    ensures
        r@ == "Couldn't connect to server, retry later"@,
{
    let _ = error;
    "Couldn't connect to server, retry later".to_owned()
}

} // verus!
