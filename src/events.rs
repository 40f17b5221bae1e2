//! Events exchanged over the message broker: reports and sanctions recorded
//! by other services.
use vstd::prelude::*;

verus! {

/// An event envelope.
pub struct Event {
    /// Version of the envelope format.
    pub specversion: String,
    /// Type of the event.
    pub event_type: String,
    /// Source of the event.
    pub source: String,
    /// Unique identifier of the event, used as its storage key.
    pub id: String,
    /// When the event occurred, as an RFC 3339 timestamp.
    pub time: String,
    /// Media type of the data; always `application/json`.
    pub datacontenttype: String,
    /// What the event carries.
    pub data: Data,
}

/// What an event carries.
pub struct Data {
    /// Account that reported or sanctioned.
    pub from: String,
    /// Account affected by the report or sanction.
    pub to: String,
    /// Why the report or sanction was made.
    pub reason: Reason,
    /// How the event is processed.
    pub kind: Type,
    /// Sanction taken against the account, if any.
    pub sanction: Option<Sanction>,
}

/// How an event is processed.
#[derive(Debug, Clone, Copy, PartialEq, Eq, Structural)]
pub enum Type {
    Report,
    Sanction,
}

impl Default for Type {
    /// An event is a report unless it says otherwise.
    fn default() -> (r: Type)
        ensures
            r == Type::Report,
    {
        Type::Report
    }
}

/// Reason of a report or sanction.
pub enum Reason {
    Copyright,
    Defamation,
    Hate,
    Harassment,
    Nudity,
    Spam,
    Violence,
    Other(String),
}

/// Sanction taken against an account.
#[derive(Debug, Clone, Copy, PartialEq, Eq, Structural)]
pub enum Sanction {
    /// The account no longer has access to services.
    Suspension,
    /// Content (publication, comment, etc.) is permanently removed.
    Removal,
}

} // verus!
