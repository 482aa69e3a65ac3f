//! Client-side core of a JSON-over-HTTP "box" service protocol.
//!
//! Every box answers requests with an envelope of the shape
//! `{ "success": bool, "error"?: string, ...payload }`.  This crate holds
//! the decoding rules that turn such envelopes into domain values or typed
//! errors, the status-code policy shared by all transport helpers, and the
//! byte-exact state-blob transfer logic.  The HTTP exchanges themselves are
//! left to the surrounding application.
use vstd::prelude::*;

pub mod envelope;
pub mod facebox;
pub mod info;
pub mod json;
pub mod suggestionbox;
pub mod tagbox;
pub mod textbox;
pub mod utils;
pub mod videobox;

pub use info::{BoxError, BoxInfo, BoxMetadata, Health};

verus! {

/// The kind of failure a box operation can report, each carrying a
/// human-readable message.
#[derive(Debug, Clone, PartialEq)]
pub enum Kind {
    /// The request itself could not be completed (connection, DNS, timeout).
    Transport(String),
    /// The response body was not valid JSON or did not match the wire shape.
    Decode(String),
    /// The call completed but the service rejected it: a failing HTTP status,
    /// or an envelope with `success == false`.
    Service(String),
}

/// Represents an error communicating with a box service.
#[derive(Debug, Clone, PartialEq)]
pub struct Error {
    pub kind: Kind,
}

impl Kind {
    /// The message carried by this failure, as a specification value.
    pub open spec fn message_seq(&self) -> Seq<char> {
        match self {
            Kind::Transport(m) => m@,
            Kind::Decode(m) => m@,
            Kind::Service(m) => m@,
        }
    }
}

impl Error {
    pub open spec fn is_transport(&self) -> bool {
        self.kind is Transport
    }

    pub open spec fn is_decode(&self) -> bool {
        self.kind is Decode
    }

    pub open spec fn is_service(&self) -> bool {
        self.kind is Service
    }

    pub open spec fn message_seq(&self) -> Seq<char> {
        self.kind.message_seq()
    }

    /// A transport failure carrying the underlying transport message.
    pub fn transport(message: String) -> (r: Error)
        ensures
            r.is_transport(),
            r.message_seq() == message@,
    {
        Error { kind: Kind::Transport(message) }
    }

    /// A decode failure carrying the underlying parse message.
    pub fn decode(message: String) -> (r: Error)
        ensures
            r.is_decode(),
            r.message_seq() == message@,
    {
        Error { kind: Kind::Decode(message) }
    }

    /// A service-level failure carrying the message the box reported.
    pub fn service(message: String) -> (r: Error)
        ensures
            r.is_service(),
            r.message_seq() == message@,
    {
        Error { kind: Kind::Service(message) }
    }

    /// The message carried by this error.
    pub fn message(&self) -> (r: &str)
        ensures
            r@ == self.message_seq(),
    {
        match &self.kind {
            Kind::Transport(m) => m.as_str(),
            Kind::Decode(m) => m.as_str(),
            Kind::Service(m) => m.as_str(),
        }
    }
}

} // verus!
