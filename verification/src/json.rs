//! The JSON model the decoder is specified against.
//!
//! A response body is parsed once, by serde_json, into the library's own
//! document tree, and the parse is named: `json_of` stands for exactly
//! the tree a given text yields, so every decoder's contract can say what
//! it returns for every body.  Everything that reads fields out of a
//! document is ordinary verified code over that tree, proved against the
//! specification twins written beside it.
use vstd::prelude::*;

use crate::Error;
use crate::envelope::{reported_message, Field};
use crate::utils::RawBoxResponse;

verus! {

/// A JSON number, as serde_json reads it: its integer interpretations
/// when it has them, and its literal text.
#[derive(Debug, Clone, PartialEq)]
pub struct JsonNumber {
    /// The value when the number is an integer that fits a `u64`.
    pub unsigned: Option<u64>,
    /// The value when the number is an integer that fits an `i64`.
    pub signed: Option<i64>,
    /// The literal text of the number.
    pub text: String,
}

/// A parsed JSON document.
#[derive(Debug, PartialEq)]
pub enum Json {
    Null,
    Bool(bool),
    Number(JsonNumber),
    Text(String),
    Array(Vec<Json>),
    Object(Vec<(String, Json)>),
}

#[verifier::external_type_specification]
#[verifier::external_body]
pub struct ExValue(serde_json::Value);

/// Names what serde_json's parser makes of a body text: the document
/// depends on the text alone, and `None` stands for the texts the parser
/// rejects.
pub uninterp spec fn json_of(text: Seq<char>) -> Option<Json>;

/// Relies on `serde_json::Value`'s variants: rebuilds a parsed value,
/// arm by arm, as the library's document tree; a number keeps its
/// integer readings and its literal text.
#[verifier::external_body]
fn json_tree(v: serde_json::Value) -> Json {
    match v {
        serde_json::Value::Null => Json::Null,
        serde_json::Value::Bool(b) => Json::Bool(b),
        serde_json::Value::Number(n) => Json::Number(
            JsonNumber { unsigned: n.as_u64(), signed: n.as_i64(), text: n.to_string() },
        ),
        serde_json::Value::String(s) => Json::Text(s),
        serde_json::Value::Array(items) => Json::Array(items.into_iter().map(json_tree).collect()),
        serde_json::Value::Object(fields) => Json::Object(
            fields.into_iter().map(|(k, f)| (k, json_tree(f))).collect(),
        ),
    }
}

/// Relies on `serde_json::from_str::<Value>`: parses a body into the
/// named document tree; a rejected text comes back as the parser's
/// display message.
#[verifier::external_body]
fn parse_json(text: &str) -> (r: Result<Json, String>)
    ensures
        r is Ok <==> json_of(text@) is Some,
        r is Ok ==> r->Ok_0 == json_of(text@)->0,
{
    match serde_json::from_str::<serde_json::Value>(text) {
        Ok(v) => Ok(json_tree(v)),
        Err(e) => Err(e.to_string()),
    }
}

/// Parses a response body, mapping a rejected text to a decode failure
/// that carries the parser's message.
pub fn parse_document(raw: &str) -> (r: Result<Json, Error>)
    ensures
        match json_of(raw@) {
            Some(doc) => r == Ok::<Json, Error>(doc),
            None => r is Err && r->Err_0.is_decode(),
        },
{
    match parse_json(raw) {
        Ok(doc) => Ok(doc),
        Err(m) => Err(Error::decode(m)),
    }
}

/// The value under a key in a field list, first match.
pub open spec fn spec_member(fields: Seq<(String, Json)>, key: Seq<char>) -> Option<Json>
    decreases fields.len(),
{
    if fields.len() == 0 {
        None
    } else if fields[0].0@ == key {
        Some(fields[0].1)
    } else {
        spec_member(fields.drop_first(), key)
    }
}

/// The raw value under a key: `None` when the document is not an object
/// or has no such key.
pub open spec fn spec_field(doc: Json, key: Seq<char>) -> Option<Json> {
    match doc {
        Json::Object(fields) => spec_member(fields@, key),
        _ => None,
    }
}

fn member<'a>(fields: &'a Vec<(String, Json)>, key: &str) -> (r: Option<&'a Json>)
    ensures
        match r {
            Some(j) => spec_member(fields@, key@) == Some(*j),
            None => spec_member(fields@, key@) is None,
        },
{
    let key_string = key.to_owned();
    let mut i: usize = 0;
    proof {
        assert(fields@.skip(0) =~= fields@);
    }
    while i < fields.len()
        invariant
            i <= fields@.len(),
            key_string@ == key@,
            spec_member(fields@, key@) == spec_member(fields@.skip(i as int), key@),
        decreases fields@.len() - i,
    {
        proof {
            assert(fields@.skip(i as int)[0] == fields@[i as int]);
        }
        if fields[i].0 == key_string {
            return Some(&fields[i].1);
        }
        proof {
            assert(fields@.skip(i as int).drop_first() =~= fields@.skip(i as int + 1));
        }
        i = i + 1;
    }
    None
}

/// Reads a named field as the raw value it holds, for nested shapes.
pub fn raw_field<'a>(doc: &'a Json, key: &str) -> (r: Option<&'a Json>)
    ensures
        match r {
            Some(j) => spec_field(*doc, key@) == Some(*j),
            None => spec_field(*doc, key@) is None,
        },
{
    match doc {
        Json::Object(fields) => member(fields, key),
        _ => None,
    }
}

/// A named boolean field.
pub open spec fn spec_bool_field(doc: Json, key: Seq<char>) -> Field<bool> {
    match spec_field(doc, key) {
        None => Field::Absent,
        Some(j) => match j {
            Json::Bool(b) => Field::Present(b),
            _ => Field::Invalid,
        },
    }
}

pub fn bool_field(doc: &Json, key: &str) -> (r: Field<bool>)
    ensures
        r == spec_bool_field(*doc, key@),
{
    match raw_field(doc, key) {
        None => Field::Absent,
        Some(j) => match j {
            Json::Bool(b) => Field::Present(*b),
            _ => Field::Invalid,
        },
    }
}

/// A named string field that must be a string when it occurs.
pub open spec fn spec_text_field(doc: Json, key: Seq<char>) -> Field<String> {
    match spec_field(doc, key) {
        None => Field::Absent,
        Some(j) => match j {
            Json::Text(s) => Field::Present(s),
            _ => Field::Invalid,
        },
    }
}

pub fn text_field(doc: &Json, key: &str) -> (r: Field<String>)
    ensures
        r == spec_text_field(*doc, key@),
{
    match raw_field(doc, key) {
        None => Field::Absent,
        Some(j) => match j {
            Json::Text(s) => Field::Present(s.clone()),
            _ => Field::Invalid,
        },
    }
}

/// A named optional string field: absence and JSON null both mean no
/// value.
pub open spec fn spec_opt_text_field(doc: Json, key: Seq<char>) -> Field<Option<String>> {
    match spec_field(doc, key) {
        None => Field::Present(None),
        Some(j) => match j {
            Json::Null => Field::Present(None),
            Json::Text(s) => Field::Present(Some(s)),
            _ => Field::Invalid,
        },
    }
}

pub fn opt_text_field(doc: &Json, key: &str) -> (r: Field<Option<String>>)
    ensures
        r == spec_opt_text_field(*doc, key@),
{
    match raw_field(doc, key) {
        None => Field::Present(None),
        Some(j) => match j {
            Json::Null => Field::Present(None),
            Json::Text(s) => Field::Present(Some(s.clone())),
            _ => Field::Invalid,
        },
    }
}

/// A named field holding an integer that fits a `u64`.
pub open spec fn spec_u64_field(doc: Json, key: Seq<char>) -> Field<u64> {
    match spec_field(doc, key) {
        None => Field::Absent,
        Some(j) => match j {
            Json::Number(n) => match n.unsigned {
                Some(x) => Field::Present(x),
                None => Field::Invalid,
            },
            _ => Field::Invalid,
        },
    }
}

pub fn u64_field(doc: &Json, key: &str) -> (r: Field<u64>)
    ensures
        r == spec_u64_field(*doc, key@),
{
    match raw_field(doc, key) {
        None => Field::Absent,
        Some(j) => match j {
            Json::Number(n) => match n.unsigned {
                Some(x) => Field::Present(x),
                None => Field::Invalid,
            },
            _ => Field::Invalid,
        },
    }
}

/// A named field holding an integer that fits the platform's
/// pointer-sized integer.
pub open spec fn spec_isize_field(doc: Json, key: Seq<char>) -> Field<isize> {
    match spec_field(doc, key) {
        None => Field::Absent,
        Some(j) => match j {
            Json::Number(n) => match n.signed {
                Some(x) => if isize::MIN as i64 <= x && x <= isize::MAX as i64 {
                    Field::Present(x as isize)
                } else {
                    Field::Invalid
                },
                None => Field::Invalid,
            },
            _ => Field::Invalid,
        },
    }
}

pub fn isize_field(doc: &Json, key: &str) -> (r: Field<isize>)
    ensures
        r == spec_isize_field(*doc, key@),
{
    match raw_field(doc, key) {
        None => Field::Absent,
        Some(j) => match j {
            Json::Number(n) => match n.signed {
                Some(x) => {
                    if isize::MIN as i64 <= x && x <= isize::MAX as i64 {
                        Field::Present(x as isize)
                    } else {
                        Field::Invalid
                    }
                },
                None => Field::Invalid,
            },
            _ => Field::Invalid,
        },
    }
}

/// A named optional integer field, as the platform's pointer-sized
/// integer: absence and JSON null both mean no value.
pub open spec fn spec_opt_isize_field(doc: Json, key: Seq<char>) -> Field<Option<isize>> {
    match spec_field(doc, key) {
        None => Field::Present(None),
        Some(j) => match j {
            Json::Null => Field::Present(None),
            _ => match spec_isize_field(doc, key) {
                Field::Present(x) => Field::Present(Some(x)),
                _ => Field::Invalid,
            },
        },
    }
}

pub fn opt_isize_field(doc: &Json, key: &str) -> (r: Field<Option<isize>>)
    ensures
        r == spec_opt_isize_field(*doc, key@),
{
    match raw_field(doc, key) {
        None => Field::Present(None),
        Some(j) => match j {
            Json::Null => Field::Present(None),
            _ => match isize_field(doc, key) {
                Field::Present(x) => Field::Present(Some(x)),
                _ => Field::Invalid,
            },
        },
    }
}

/// A named optional integer field that fits an `i64`: absence and JSON
/// null both mean no value.
pub open spec fn spec_opt_i64_field(doc: Json, key: Seq<char>) -> Field<Option<i64>> {
    match spec_field(doc, key) {
        None => Field::Present(None),
        Some(j) => match j {
            Json::Null => Field::Present(None),
            Json::Number(n) => match n.signed {
                Some(x) => Field::Present(Some(x)),
                None => Field::Invalid,
            },
            _ => Field::Invalid,
        },
    }
}

pub fn opt_i64_field(doc: &Json, key: &str) -> (r: Field<Option<i64>>)
    ensures
        r == spec_opt_i64_field(*doc, key@),
{
    match raw_field(doc, key) {
        None => Field::Present(None),
        Some(j) => match j {
            Json::Null => Field::Present(None),
            Json::Number(n) => match n.signed {
                Some(x) => Field::Present(Some(x)),
                None => Field::Invalid,
            },
            _ => Field::Invalid,
        },
    }
}

/// A named number field, read as the literal text of the number.
pub open spec fn spec_number_field(doc: Json, key: Seq<char>) -> Field<String> {
    match spec_field(doc, key) {
        None => Field::Absent,
        Some(j) => match j {
            Json::Number(n) => Field::Present(n.text),
            _ => Field::Invalid,
        },
    }
}

pub fn number_field(doc: &Json, key: &str) -> (r: Field<String>)
    ensures
        r == spec_number_field(*doc, key@),
{
    match raw_field(doc, key) {
        None => Field::Absent,
        Some(j) => match j {
            Json::Number(n) => Field::Present(n.text.clone()),
            _ => Field::Invalid,
        },
    }
}

/// A named optional number field, as literal text: absence and JSON null
/// both mean no value.
pub open spec fn spec_opt_number_field(doc: Json, key: Seq<char>) -> Field<Option<String>> {
    match spec_field(doc, key) {
        None => Field::Present(None),
        Some(j) => match j {
            Json::Null => Field::Present(None),
            Json::Number(n) => Field::Present(Some(n.text)),
            _ => Field::Invalid,
        },
    }
}

pub fn opt_number_field(doc: &Json, key: &str) -> (r: Field<Option<String>>)
    ensures
        r == spec_opt_number_field(*doc, key@),
{
    match raw_field(doc, key) {
        None => Field::Present(None),
        Some(j) => match j {
            Json::Null => Field::Present(None),
            Json::Number(n) => Field::Present(Some(n.text.clone())),
            _ => Field::Invalid,
        },
    }
}

/// A named array field, as the items it holds.
pub open spec fn spec_array_field(doc: Json, key: Seq<char>) -> Field<Seq<Json>> {
    match spec_field(doc, key) {
        None => Field::Absent,
        Some(j) => match j {
            Json::Array(items) => Field::Present(items@),
            _ => Field::Invalid,
        },
    }
}

pub fn array_field<'a>(doc: &'a Json, key: &str) -> (r: Field<&'a Vec<Json>>)
    ensures
        match r {
            Field::Absent => spec_array_field(*doc, key@) is Absent,
            Field::Invalid => spec_array_field(*doc, key@) is Invalid,
            Field::Present(items) => spec_array_field(*doc, key@) == Field::Present(items@),
        },
{
    match raw_field(doc, key) {
        None => Field::Absent,
        Some(j) => match j {
            Json::Array(items) => Field::Present(items),
            _ => Field::Invalid,
        },
    }
}

/// The success flag and error string every envelope carries: the flag is
/// mandatory, the error string optional; `None` stands for a header that
/// does not decode.
pub open spec fn spec_header(doc: Json) -> Option<(bool, Option<String>)> {
    match spec_bool_field(doc, "success"@) {
        Field::Present(b) => match spec_opt_text_field(doc, "error"@) {
            Field::Present(e) => Some((b, e)),
            _ => None,
        },
        _ => None,
    }
}

/// Reads the envelope header out of a document.
pub fn read_header(doc: &Json) -> (r: Result<(bool, Option<String>), Error>)
    ensures
        match spec_header(*doc) {
            Some(h) => r == Ok::<(bool, Option<String>), Error>(h),
            None => r is Err && r->Err_0.is_decode(),
        },
{
    let success = match bool_field(doc, "success") {
        Field::Present(b) => b,
        _ => {
            return Err(Error::decode("missing or mistyped success field".to_owned()));
        },
    };
    let error = match opt_text_field(doc, "error") {
        Field::Present(e) => e,
        _ => {
            return Err(Error::decode("mistyped error field".to_owned()));
        },
    };
    Ok((success, error))
}

/// What a bare acknowledgement body decodes to: its envelope header, or
/// nothing when the text or the header does not decode.
pub open spec fn spec_ack(text: Seq<char>) -> Option<(bool, Option<String>)> {
    match json_of(text) {
        Some(doc) => spec_header(doc),
        None => None,
    }
}

/// Parses a bare acknowledgement body into its wire shape.
pub fn parse_raw_response(raw: &str) -> (r: Result<RawBoxResponse, Error>)
    ensures
        match spec_ack(raw@) {
            Some(h) => r == Ok::<RawBoxResponse, Error>(
                RawBoxResponse { success: h.0, error: h.1 },
            ),
            None => r is Err && r->Err_0.is_decode(),
        },
{
    let doc = match parse_document(raw) {
        Ok(doc) => doc,
        Err(e) => {
            return Err(e);
        },
    };
    let (success, error) = match read_header(&doc) {
        Ok(p) => p,
        Err(e) => {
            return Err(e);
        },
    };
    Ok(RawBoxResponse { success, error })
}

/// Decodes an acknowledgement-only response body: parse, then apply the
/// uniform envelope rule with an empty payload.
pub fn decode_ack(raw: &str) -> (r: Result<(), Error>)
    ensures
        match spec_ack(raw@) {
            None => r is Err && r->Err_0.is_decode(),
            Some(h) => {
                &&& h.0 ==> r is Ok
                &&& !h.0 ==> r is Err && r->Err_0.is_service() && r->Err_0.message_seq()
                    == reported_message(h.1)
            },
        },
{
    let parsed = match parse_raw_response(raw) {
        Ok(p) => p,
        Err(e) => {
            return Err(e);
        },
    };
    parsed.into_result()
}

} // verus!
