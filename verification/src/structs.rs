//! Data shapes shared across the core: the inbound provider event, the
//! append-only activity record, and the result envelope every request
//! produces.
//!
//! The inbound event keeps the provider's nesting (entries, changes, a change
//! value holding either user messages or delivery-status callbacks), trimmed
//! to the fields the core reads.  Serialization of the wire shape is not the
//! core's concern.

use vstd::prelude::*;

verus! {

/// One inbound push event from the chat provider.
pub struct Event {
    pub object: String,
    pub entry: Vec<Entry>,
}

/// One entry of an inbound event.
pub struct Entry {
    pub id: String,
    pub changes: Vec<Change>,
}

/// One change of an entry.
pub struct Change {
    pub field: String,
    pub value: ChangeValue,
}

/// The payload of a change: user messages, or delivery-status callbacks.
/// Only the former reach the webhook processor's state machine.
pub struct ChangeValue {
    pub messages: Option<Vec<Message>>,
    pub statuses: Option<Vec<Status>>,
}

/// A delivery-status callback; carried through but never acted on.
pub struct Status {
    pub id: String,
    pub status: String,
    pub timestamp: String,
    pub recipient_id: String,
}

/// One user message inside an event.
pub struct Message {
    pub from: String,
    pub id: String,
    pub timestamp: String,
    pub message_type: String,
    pub text: Option<Text>,
}

/// The body of a plain text message.
pub struct Text {
    pub body: String,
}

/// Marker for values the session store accepts as documents.
pub trait Storable {

}

impl Storable for Event {

}

impl Storable for MessageLog {

}

/// One side effect performed while handling a request: which system it
/// touched and the reference it left behind.
pub struct ModifiedReference {
    pub system: String,
    pub reference: String,
}

/// The envelope every request returns: every reference produced, and the
/// errors met on the way.  Success is "no errors", not "every action
/// succeeded".
pub struct StandardResponse {
    pub references: Vec<ModifiedReference>,
    pub errors: Option<Vec<String>>,
}

impl StandardResponse {
    /// A fresh envelope: no references, no errors.
    pub fn new() -> (r: StandardResponse)
        ensures
            r.references@ == Seq::<ModifiedReference>::empty(),
            r.errors is None,
    {
        StandardResponse { references: Vec::new(), errors: None }
    }
}

/// One activity record: the audit entry of one processed message, and also
/// the payload of a routing notification.
pub struct MessageLog {
    pub timestamp: String,
    pub destination_systems: Vec<String>,
    pub phone_number: String,
    pub origin: String,
    pub register_id: String,
}

/// The first user message of an event, if the event carries one.
pub open spec fn spec_first_message(e: Event) -> Option<Message> {
    if e.entry@.len() > 0 && e.entry@[0].changes@.len() > 0
        && e.entry@[0].changes@[0].value.messages is Some
        && e.entry@[0].changes@[0].value.messages->0@.len() > 0 {
        Some(e.entry@[0].changes@[0].value.messages->0@[0])
    } else {
        None
    }
}

/// The text body a message carries, if it is a text message.
pub open spec fn spec_body(m: Message) -> Option<Seq<char>> {
    match m.text {
        Some(t) => Some(t.body@),
        None => None,
    }
}

/// Walks the event's nesting to its first user message.  `None` means the
/// event is a delivery-status callback or is otherwise empty.
pub fn first_message(e: &Event) -> (r: Option<&Message>)
    ensures
        match r {
            Some(m) => spec_first_message(*e) == Some(*m),
            None => spec_first_message(*e) is None,
        },
{
    if e.entry.len() == 0 {
        return None;
    }
    if e.entry[0].changes.len() == 0 {
        return None;
    }
    match &e.entry[0].changes[0].value.messages {
        None => None,
        Some(messages) => {
            if messages.len() == 0 {
                None
            } else {
                Some(&messages[0])
            }
        },
    }
}

} // verus!
