//! The uniform envelope-decoding rule.
//!
//! Every box response is an envelope `{ "success": bool, "error"?: string,
//! ...payload }`.  After the body has been parsed, each field of interest is
//! one of three things: absent, present with the wrong type, or present with
//! a usable value.  The rule that collapses an envelope to either a domain
//! value or a typed error is stated and proved here, once, for every
//! operation.
use vstd::prelude::*;

use crate::Error;

verus! {

/// How one named field of a parsed response body was read.
#[derive(Debug, Clone, PartialEq)]
pub enum Field<T> {
    /// The field does not occur in the JSON object.
    Absent,
    /// The field occurs but does not carry a value of the expected type.
    Invalid,
    /// The field occurs and carries a value of the expected type.
    Present(T),
}

impl<T> Field<T> {
    /// A field that defaults when absent.
    pub fn or(self, default: T) -> (r: Field<T>)
        ensures
            r == (match self {
                Field::Absent => Field::<T>::Present(default),
                Field::Invalid => Field::<T>::Invalid,
                Field::Present(v) => Field::<T>::Present(v),
            }),
    {
        match self {
            Field::Absent => Field::Present(default),
            Field::Invalid => Field::Invalid,
            Field::Present(v) => Field::Present(v),
        }
    }

    /// An optional field: absence is a value in its own right.
    pub fn optional(self) -> (r: Field<Option<T>>)
        ensures
            r == (match self {
                Field::Absent => Field::<Option<T>>::Present(None),
                Field::Invalid => Field::<Option<T>>::Invalid,
                Field::Present(v) => Field::<Option<T>>::Present(Some(v)),
            }),
    {
        match self {
            Field::Absent => Field::Present(None),
            Field::Invalid => Field::Invalid,
            Field::Present(v) => Field::Present(Some(v)),
        }
    }
}

/// The success flag and error string that every envelope carries.
#[derive(Debug, Clone, PartialEq)]
pub struct Header {
    pub success: Field<bool>,
    pub error: Field<String>,
}

/// The message a rejecting envelope reports: its `error` string when one is
/// present, else the fixed fallback text.
pub open spec fn header_message(h: Header) -> Seq<char> {
    match h.error {
        Field::Present(m) => m@,
        _ => "Request failed"@,
    }
}

/// An envelope is undecodable when its mandatory `success` flag is missing
/// or mistyped, when its `error` field is mistyped, or when the payload
/// fields could not be read.  Callers resolve a payload field that may
/// default with [`Field::or`] before deciding, so a payload that is still
/// `Absent` here is as undecodable as a mistyped one.
pub open spec fn undecodable<P>(h: Header, payload: Field<P>) -> bool {
    ||| !(h.success is Present)
    ||| h.error is Invalid
    ||| !(payload is Present)
}

/// What decoding an envelope must produce, as a function of its parsed
/// fields alone.
pub open spec fn envelope_accepts<P>(h: Header, payload: Field<P>) -> bool {
    !undecodable(h, payload) && h.success == Field::<bool>::Present(true)
}

pub open spec fn envelope_rejects<P>(h: Header, payload: Field<P>) -> bool {
    !undecodable(h, payload) && h.success == Field::<bool>::Present(false)
}

/// Collapses a parsed envelope to a domain value or a typed error, by the
/// one rule every operation shares:
/// - a malformed envelope is a decode failure;
/// - `success == false` is a service failure carrying the envelope's
///   `error` string, or the fallback text when none was sent;
/// - `success == true` yields the payload and nothing else, whatever the
///   `error` field holds.
pub fn decode_payload<P>(h: Header, payload: Field<P>) -> (r: Result<P, Error>)
    ensures
        envelope_accepts(h, payload) ==> r == Ok::<P, Error>(payload->Present_0),
        envelope_rejects(h, payload) ==> r is Err && r->Err_0.is_service()
            && r->Err_0.message_seq() == header_message(h),
        undecodable(h, payload) ==> r is Err && r->Err_0.is_decode(),
{
    let Header { success: flag, error: err } = h;
    let success = match flag {
        Field::Present(b) => b,
        _ => {
            return Err(Error::decode("missing or mistyped success field".to_owned()));
        },
    };
    let error = match err {
        Field::Absent => None,
        Field::Invalid => {
            return Err(Error::decode("mistyped error field".to_owned()));
        },
        Field::Present(m) => Some(m),
    };
    let value = match payload {
        Field::Present(p) => p,
        _ => {
            return Err(Error::decode("mistyped payload field".to_owned()));
        },
    };
    if success {
        Ok(value)
    } else {
        match error {
            Some(m) => Err(Error::service(m)),
            None => Err(Error::service("Request failed".to_owned())),
        }
    }
}

/// Turns a success flag and optional error string into the envelope
/// header the uniform rule expects.
pub fn header_from_parts(success: bool, error: Option<String>) -> (h: Header)
    ensures
        h.success == Field::<bool>::Present(success),
        h.error == (match error {
            Some(m) => Field::<String>::Present(m),
            None => Field::<String>::Absent,
        }),
{
    Header {
        success: Field::Present(success),
        error: match error {
            Some(m) => Field::Present(m),
            None => Field::Absent,
        },
    }
}

/// The message a parsed envelope reports on failure: its error string, or
/// the fixed fallback text.
pub open spec fn reported_message(error: Option<String>) -> Seq<char> {
    match error {
        Some(m) => m@,
        None => "Request failed"@,
    }
}

/// An envelope without a usable `success` flag never decodes: whatever its
/// other fields hold, the uniform rule classifies it as undecodable, and
/// [`decode_payload`] then reports a decode failure, never a service one.
pub proof fn lemma_missing_success_is_undecodable<P>(h: Header, payload: Field<P>)
    requires
        !(h.success is Present),
    ensures
        undecodable(h, payload),
        !envelope_accepts(h, payload),
        !envelope_rejects(h, payload),
{
}

/// An accepting envelope is insensitive to its `error` field: two envelopes
/// that agree on `success == true` decode to the same domain value no
/// matter what either one's `error` string says.
pub proof fn lemma_success_ignores_error<P>(h1: Header, h2: Header, payload: Field<P>)
    requires
        h1.success == Field::<bool>::Present(true),
        h2.success == Field::<bool>::Present(true),
        !(h1.error is Invalid),
        !(h2.error is Invalid),
        payload is Present,
    ensures
        envelope_accepts(h1, payload),
        envelope_accepts(h2, payload),
{
}

} // verus!
