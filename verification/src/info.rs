//! The probes every box answers regardless of its type: identification,
//! health, liveness and readiness.
use vstd::prelude::*;

use crate::Error;
use crate::envelope::Field;
use crate::json;
use crate::json::{json_of, Json};

verus! {

/// Information a box provides about itself.
#[derive(Debug, Clone, PartialEq)]
pub struct BoxInfo {
    pub success: bool,
    pub name: String,
    pub version: u64,
    pub build: String,
    pub status: String,
    pub plan: String,
    pub error: Option<String>,
}

/// Metadata about a particular box.
#[derive(Debug, Clone, PartialEq)]
pub struct BoxMetadata {
    pub boxname: String,
    pub build: String,
}

/// Structured error information returned when checking a box's health.
#[derive(Debug, Clone, PartialEq)]
pub struct BoxError {
    pub error: String,
    pub description: String,
}

/// Health details of a box.
#[derive(Debug, Clone, PartialEq)]
pub struct Health {
    pub success: bool,
    pub hostname: String,
    pub metadata: BoxMetadata,
    pub errors: Vec<BoxError>,
}

/// What an identification body decodes to: every field but the error
/// string is required, and the document is handed on as sent, success
/// flag included.
pub open spec fn spec_info_body(text: Seq<char>) -> Option<BoxInfo> {
    match json_of(text) {
        None => None,
        Some(doc) => match json::spec_bool_field(doc, "success"@) {
            Field::Present(success) => match json::spec_text_field(doc, "name"@) {
                Field::Present(name) => match json::spec_u64_field(doc, "version"@) {
                    Field::Present(version) => match json::spec_text_field(doc, "build"@) {
                        Field::Present(build) => match json::spec_text_field(doc, "status"@) {
                            Field::Present(status) => match json::spec_text_field(doc, "plan"@) {
                                Field::Present(plan) => match json::spec_opt_text_field(
                                    doc,
                                    "error"@,
                                ) {
                                    Field::Present(error) => Some(
                                        BoxInfo {
                                            success,
                                            name,
                                            version,
                                            build,
                                            status,
                                            plan,
                                            error,
                                        },
                                    ),
                                    _ => None,
                                },
                                _ => None,
                            },
                            _ => None,
                        },
                        _ => None,
                    },
                    _ => None,
                },
                _ => None,
            },
            _ => None,
        },
    }
}

/// Builds an identification document from its parsed fields: every field
/// read cleanly, and the document is exactly what was read; any unusable
/// field is a decode failure.
pub fn assemble_info(
    success: Field<bool>,
    name: Field<String>,
    version: Field<u64>,
    build: Field<String>,
    status: Field<String>,
    plan: Field<String>,
    error: Field<Option<String>>,
) -> (r: Result<BoxInfo, Error>)
    ensures
        (success is Present && name is Present && version is Present && build is Present
            && status is Present && plan is Present && error is Present) ==> r == Ok::<
            BoxInfo,
            Error,
        >(
            BoxInfo {
                success: success->Present_0,
                name: name->Present_0,
                version: version->Present_0,
                build: build->Present_0,
                status: status->Present_0,
                plan: plan->Present_0,
                error: error->Present_0,
            },
        ),
        !(success is Present && name is Present && version is Present && build is Present
            && status is Present && plan is Present && error is Present) ==> r is Err
            && r->Err_0.is_decode(),
{
    match (success, name, version, build, status, plan, error) {
        (
            Field::Present(success),
            Field::Present(name),
            Field::Present(version),
            Field::Present(build),
            Field::Present(status),
            Field::Present(plan),
            Field::Present(error),
        ) => Ok(BoxInfo { success, name, version, build, status, plan, error }),
        _ => Err(Error::decode("mistyped identification document".to_owned())),
    }
}

/// Decodes an identification body.
pub fn decode_info(raw: &str) -> (r: Result<BoxInfo, Error>)
    ensures
        match spec_info_body(raw@) {
            Some(info) => r == Ok::<BoxInfo, Error>(info),
            None => r is Err && r->Err_0.is_decode(),
        },
{
    let doc = match json::parse_document(raw) {
        Ok(doc) => doc,
        Err(e) => {
            return Err(e);
        },
    };
    assemble_info(
        json::bool_field(&doc, "success"),
        json::text_field(&doc, "name"),
        json::u64_field(&doc, "version"),
        json::text_field(&doc, "build"),
        json::text_field(&doc, "status"),
        json::text_field(&doc, "plan"),
        json::opt_text_field(&doc, "error"),
    )
}

/// One health error entry; both fields are required.
pub open spec fn spec_box_error(doc: Json) -> Option<BoxError> {
    match json::spec_text_field(doc, "error"@) {
        Field::Present(error) => match json::spec_text_field(doc, "description"@) {
            Field::Present(description) => Some(BoxError { error, description }),
            _ => None,
        },
        _ => None,
    }
}

fn box_error_of(doc: &Json) -> (r: Option<BoxError>)
    ensures
        r == spec_box_error(*doc),
{
    let error = match json::text_field(doc, "error") {
        Field::Present(s) => s,
        _ => {
            return None;
        },
    };
    let description = match json::text_field(doc, "description") {
        Field::Present(s) => s,
        _ => {
            return None;
        },
    };
    Some(BoxError { error, description })
}

/// A whole list of health error entries, read element-wise.
pub open spec fn spec_box_error_list(items: Seq<Json>) -> Option<Seq<BoxError>> {
    if forall|i: int| 0 <= i < items.len() ==> (#[trigger] spec_box_error(items[i])) is Some {
        Some(Seq::new(items.len(), |i: int| spec_box_error(items[i])->0))
    } else {
        None
    }
}

fn box_errors_of(items: &Vec<Json>) -> (r: Option<Vec<BoxError>>)
    ensures
        match r {
            Some(out) => spec_box_error_list(items@) == Some(out@),
            None => spec_box_error_list(items@) is None,
        },
{
    let mut out: Vec<BoxError> = Vec::new();
    let mut i: usize = 0;
    while i < items.len()
        invariant
            i <= items@.len(),
            out@.len() == i,
            forall|j: int|
                0 <= j < i ==> (#[trigger] spec_box_error(items@[j])) is Some && out@[j]
                    == spec_box_error(items@[j])->0,
        decreases items@.len() - i,
    {
        match box_error_of(&items[i]) {
            Some(e) => out.push(e),
            None => {
                return None;
            },
        }
        i = i + 1;
    }
    proof {
        assert(out@ =~= Seq::new(items@.len(), |j: int| spec_box_error(items@[j])->0));
    }
    Some(out)
}

/// The box metadata block; both fields are required.
pub open spec fn spec_metadata(doc: Json) -> Option<BoxMetadata> {
    match json::spec_text_field(doc, "boxname"@) {
        Field::Present(boxname) => match json::spec_text_field(doc, "build"@) {
            Field::Present(build) => Some(BoxMetadata { boxname, build }),
            _ => None,
        },
        _ => None,
    }
}

fn metadata_of(doc: &Json) -> (r: Option<BoxMetadata>)
    ensures
        r == spec_metadata(*doc),
{
    let boxname = match json::text_field(doc, "boxname") {
        Field::Present(s) => s,
        _ => {
            return None;
        },
    };
    let build = match json::text_field(doc, "build") {
        Field::Present(s) => s,
        _ => {
            return None;
        },
    };
    Some(BoxMetadata { boxname, build })
}

/// What a health body decodes to: every field is required.
pub open spec fn spec_health_body(text: Seq<char>) -> Option<
    (bool, String, BoxMetadata, Seq<BoxError>),
> {
    match json_of(text) {
        None => None,
        Some(doc) => match json::spec_bool_field(doc, "success"@) {
            Field::Present(success) => match json::spec_text_field(doc, "hostname"@) {
                Field::Present(hostname) => match json::spec_field(doc, "metadata"@) {
                    Some(mdoc) => match spec_metadata(mdoc) {
                        Some(metadata) => match json::spec_array_field(doc, "errors"@) {
                            Field::Present(items) => match spec_box_error_list(items) {
                                Some(errors) => Some((success, hostname, metadata, errors)),
                                None => None,
                            },
                            _ => None,
                        },
                        None => None,
                    },
                    None => None,
                },
                _ => None,
            },
            _ => None,
        },
    }
}

/// Decodes a health body; the document is handed on as sent, success
/// flag included.
pub fn decode_health(raw: &str) -> (r: Result<Health, Error>)
    ensures
        match spec_health_body(raw@) {
            None => r is Err && r->Err_0.is_decode(),
            Some(h) => r is Ok && r->Ok_0.success == h.0 && r->Ok_0.hostname == h.1
                && r->Ok_0.metadata == h.2 && r->Ok_0.errors@ == h.3,
        },
{
    let doc = match json::parse_document(raw) {
        Ok(doc) => doc,
        Err(e) => {
            return Err(e);
        },
    };
    let success = match json::bool_field(&doc, "success") {
        Field::Present(b) => b,
        _ => {
            return Err(Error::decode("missing or mistyped success field".to_owned()));
        },
    };
    let hostname = match json::text_field(&doc, "hostname") {
        Field::Present(s) => s,
        _ => {
            return Err(Error::decode("mistyped hostname field".to_owned()));
        },
    };
    let metadata = match json::raw_field(&doc, "metadata") {
        Some(mdoc) => match metadata_of(mdoc) {
            Some(m) => m,
            None => {
                return Err(Error::decode("mistyped metadata field".to_owned()));
            },
        },
        None => {
            return Err(Error::decode("missing metadata field".to_owned()));
        },
    };
    let errors = match json::array_field(&doc, "errors") {
        Field::Present(items) => match box_errors_of(items) {
            Some(es) => es,
            None => {
                return Err(Error::decode("mistyped error entry".to_owned()));
            },
        },
        _ => {
            return Err(Error::decode("mistyped errors field".to_owned()));
        },
    };
    Ok(Health { success, hostname, metadata, errors })
}

/// The probe endpoint paths every box exposes.
pub fn info_endpoint(base: &str) -> (r: String)
    ensures
        r@ == base@ + "/info"@,
{
    crate::utils::join_url(base, "/info")
}

pub fn health_endpoint(base: &str) -> (r: String)
    ensures
        r@ == base@ + "/healthz"@,
{
    crate::utils::join_url(base, "/healthz")
}

pub fn liveness_endpoint(base: &str) -> (r: String)
    ensures
        r@ == base@ + "/liveness"@,
{
    crate::utils::join_url(base, "/liveness")
}

pub fn readiness_endpoint(base: &str) -> (r: String)
    ensures
        r@ == base@ + "/readyz"@,
{
    crate::utils::join_url(base, "/readyz")
}

} // verus!
