//! The client core for the face-recognition box.
//!
//! Endpoint URLs are built here; response bodies come back as raw text
//! and are decoded against the named parse of the body, so each decoder's
//! contract says exactly what it returns for a given body.  The HTTP
//! exchange itself is the caller's concern.
use vstd::prelude::*;

use crate::Error;
use crate::envelope::{decode_payload, header_from_parts, reported_message, Field};
use crate::json;
use crate::json::{json_of, spec_header, Json};
use crate::utils::join_url;

verus! {

/// The client for the face-recognition box: a base URL and the rules for
/// each of its endpoints.
#[derive(Debug, Clone, PartialEq)]
pub struct Facebox {
    pub url: String,
}

/// The bounds and position of a rectangle in which a face was detected.
#[derive(Debug, Clone, PartialEq)]
pub struct Rect {
    /// Vertical offset of the top of the rectangle.
    pub top: isize,
    /// Horizontal offset of the left side of the rectangle.
    pub left: isize,
    /// Width of the rectangle.
    pub width: isize,
    /// Height of the rectangle.
    pub height: isize,
}

/// Represents a detected face in an image.
#[derive(Debug, Clone, PartialEq)]
pub struct Face {
    /// Bounds and position of the detected face.
    pub rect: Rect,
    /// ID of the face.
    pub id: Option<String>,
    /// Trained/taught name of the face.
    pub name: Option<String>,
    /// Indicates whether the face was matched.
    pub matched: bool,
    /// Confidence rating of the match, as the literal text of the number
    /// the box sent.
    pub confidence: String,
}

/// The name and ID of a face detected as similar to a search target.
#[derive(Debug, Clone, PartialEq)]
pub struct Similar {
    /// ID of the face.
    pub id: String,
    /// Name of the detected face.
    pub name: String,
}

/// The payload of a face check, stripped of the envelope wrapper.
#[derive(Debug, Clone, PartialEq)]
pub struct CheckResponse {
    /// List of identified faces.
    pub faces: Vec<Face>,
}

/// The payload of a similarity search, stripped of the envelope wrapper.
#[derive(Debug, Clone, PartialEq)]
pub struct SimilarResponse {
    /// Vector of similar faces.
    pub similar: Vec<Similar>,
}

/// The full wire shape of a face check response.
#[derive(Debug, Clone, PartialEq)]
pub struct CheckResponseFull {
    pub success: bool,
    pub error: Option<String>,
    pub faces: Vec<Face>,
}

/// The full wire shape of a similarity search response.
#[derive(Debug, Clone, PartialEq)]
pub struct SimilarResponseFull {
    pub success: bool,
    pub error: Option<String>,
    pub similar: Vec<Similar>,
}

/// The body of a rename request.
#[derive(Debug, Clone, PartialEq)]
pub struct RenameRequest {
    pub name: String,
}

impl CheckResponseFull {
    /// Collapses the wire shape by the uniform rule: success keeps exactly
    /// the payload, failure carries the reported message.
    pub fn into_result(self) -> (r: Result<CheckResponse, Error>)
        ensures
            self.success ==> r == Ok::<CheckResponse, Error>(
                CheckResponse { faces: self.faces },
            ),
            !self.success ==> r is Err && r->Err_0.is_service()
                && r->Err_0.message_seq() == reported_message(self.error),
    {
        let CheckResponseFull { success, error, faces } = self;
        let h = header_from_parts(success, error);
        match decode_payload(h, Field::Present(faces)) {
            Ok(fs) => Ok(CheckResponse { faces: fs }),
            Err(e) => Err(e),
        }
    }
}

impl SimilarResponseFull {
    /// Collapses the wire shape by the uniform rule.
    pub fn into_result(self) -> (r: Result<SimilarResponse, Error>)
        ensures
            self.success ==> r == Ok::<SimilarResponse, Error>(
                SimilarResponse { similar: self.similar },
            ),
            !self.success ==> r is Err && r->Err_0.is_service()
                && r->Err_0.message_seq() == reported_message(self.error),
    {
        let SimilarResponseFull { success, error, similar } = self;
        let h = header_from_parts(success, error);
        match decode_payload(h, Field::Present(similar)) {
            Ok(ss) => Ok(SimilarResponse { similar: ss }),
            Err(e) => Err(e),
        }
    }
}

/// One rectangle, read out of a document; every bound is required.
pub open spec fn spec_rect(doc: Json) -> Option<Rect> {
    match json::spec_isize_field(doc, "top"@) {
        Field::Present(top) => match json::spec_isize_field(doc, "left"@) {
            Field::Present(left) => match json::spec_isize_field(doc, "width"@) {
                Field::Present(width) => match json::spec_isize_field(doc, "height"@) {
                    Field::Present(height) => Some(Rect { top, left, width, height }),
                    _ => None,
                },
                _ => None,
            },
            _ => None,
        },
        _ => None,
    }
}

fn rect_of(doc: &Json) -> (r: Option<Rect>)
    ensures
        r == spec_rect(*doc),
{
    let top = match json::isize_field(doc, "top") {
        Field::Present(n) => n,
        _ => {
            return None;
        },
    };
    let left = match json::isize_field(doc, "left") {
        Field::Present(n) => n,
        _ => {
            return None;
        },
    };
    let width = match json::isize_field(doc, "width") {
        Field::Present(n) => n,
        _ => {
            return None;
        },
    };
    let height = match json::isize_field(doc, "height") {
        Field::Present(n) => n,
        _ => {
            return None;
        },
    };
    Some(Rect { top, left, width, height })
}

/// One face, read out of a document; the rectangle, match flag and
/// confidence are required, the ID and name optional.
pub open spec fn spec_face(doc: Json) -> Option<Face> {
    match json::spec_field(doc, "rect"@) {
        Some(rdoc) => match spec_rect(rdoc) {
            Some(rect) => match json::spec_opt_text_field(doc, "id"@) {
                Field::Present(id) => match json::spec_opt_text_field(doc, "name"@) {
                    Field::Present(name) => match json::spec_bool_field(doc, "matched"@) {
                        Field::Present(matched) => match json::spec_number_field(
                            doc,
                            "confidence"@,
                        ) {
                            Field::Present(confidence) => Some(
                                Face { rect, id, name, matched, confidence },
                            ),
                            _ => None,
                        },
                        _ => None,
                    },
                    _ => None,
                },
                _ => None,
            },
            None => None,
        },
        None => None,
    }
}

fn face_of(doc: &Json) -> (r: Option<Face>)
    ensures
        r == spec_face(*doc),
{
    let rect = match json::raw_field(doc, "rect") {
        Some(rdoc) => match rect_of(rdoc) {
            Some(rc) => rc,
            None => {
                return None;
            },
        },
        None => {
            return None;
        },
    };
    let id = match json::opt_text_field(doc, "id") {
        Field::Present(o) => o,
        _ => {
            return None;
        },
    };
    let name = match json::opt_text_field(doc, "name") {
        Field::Present(o) => o,
        _ => {
            return None;
        },
    };
    let matched = match json::bool_field(doc, "matched") {
        Field::Present(b) => b,
        _ => {
            return None;
        },
    };
    let confidence = match json::number_field(doc, "confidence") {
        Field::Present(s) => s,
        _ => {
            return None;
        },
    };
    Some(Face { rect, id, name, matched, confidence })
}

/// A whole face list, read element-wise; one unreadable element spoils
/// it.
pub open spec fn spec_face_list(items: Seq<Json>) -> Option<Seq<Face>> {
    if forall|i: int| 0 <= i < items.len() ==> (#[trigger] spec_face(items[i])) is Some {
        Some(Seq::new(items.len(), |i: int| spec_face(items[i])->0))
    } else {
        None
    }
}

fn faces_of(items: &Vec<Json>) -> (r: Option<Vec<Face>>)
    ensures
        match r {
            Some(out) => spec_face_list(items@) == Some(out@),
            None => spec_face_list(items@) is None,
        },
{
    let mut out: Vec<Face> = Vec::new();
    let mut i: usize = 0;
    while i < items.len()
        invariant
            i <= items@.len(),
            out@.len() == i,
            forall|j: int|
                0 <= j < i ==> (#[trigger] spec_face(items@[j])) is Some && out@[j] == spec_face(
                    items@[j],
                )->0,
        decreases items@.len() - i,
    {
        match face_of(&items[i]) {
            Some(f) => out.push(f),
            None => {
                return None;
            },
        }
        i = i + 1;
    }
    proof {
        assert(out@ =~= Seq::new(items@.len(), |j: int| spec_face(items@[j])->0));
    }
    Some(out)
}

/// The face payload of a check body: an empty list when the field is
/// absent, unreadable when it is mistyped.
pub open spec fn spec_faces_field(doc: Json) -> Option<Seq<Face>> {
    match json::spec_field(doc, "faces"@) {
        None => Some(Seq::empty()),
        Some(j) => match j {
            Json::Array(items) => spec_face_list(items@),
            _ => None,
        },
    }
}

/// What a face check body decodes to: the envelope header and the face
/// list, or nothing when the body does not decode.
pub open spec fn spec_check_body(text: Seq<char>) -> Option<(bool, Option<String>, Seq<Face>)> {
    match json_of(text) {
        None => None,
        Some(doc) => match spec_header(doc) {
            None => None,
            Some((success, error)) => match spec_faces_field(doc) {
                None => None,
                Some(faces) => Some((success, error, faces)),
            },
        },
    }
}

/// One similar-face entry; both fields are required.
pub open spec fn spec_similar(doc: Json) -> Option<Similar> {
    match json::spec_text_field(doc, "id"@) {
        Field::Present(id) => match json::spec_text_field(doc, "name"@) {
            Field::Present(name) => Some(Similar { id, name }),
            _ => None,
        },
        _ => None,
    }
}

fn similar_of(doc: &Json) -> (r: Option<Similar>)
    ensures
        r == spec_similar(*doc),
{
    let id = match json::text_field(doc, "id") {
        Field::Present(s) => s,
        _ => {
            return None;
        },
    };
    let name = match json::text_field(doc, "name") {
        Field::Present(s) => s,
        _ => {
            return None;
        },
    };
    Some(Similar { id, name })
}

/// A whole list of similar faces, read element-wise.
pub open spec fn spec_similar_list(items: Seq<Json>) -> Option<Seq<Similar>> {
    if forall|i: int| 0 <= i < items.len() ==> (#[trigger] spec_similar(items[i])) is Some {
        Some(Seq::new(items.len(), |i: int| spec_similar(items[i])->0))
    } else {
        None
    }
}

fn similars_of(items: &Vec<Json>) -> (r: Option<Vec<Similar>>)
    ensures
        match r {
            Some(out) => spec_similar_list(items@) == Some(out@),
            None => spec_similar_list(items@) is None,
        },
{
    let mut out: Vec<Similar> = Vec::new();
    let mut i: usize = 0;
    while i < items.len()
        invariant
            i <= items@.len(),
            out@.len() == i,
            forall|j: int|
                0 <= j < i ==> (#[trigger] spec_similar(items@[j])) is Some && out@[j]
                    == spec_similar(items@[j])->0,
        decreases items@.len() - i,
    {
        match similar_of(&items[i]) {
            Some(s) => out.push(s),
            None => {
                return None;
            },
        }
        i = i + 1;
    }
    proof {
        assert(out@ =~= Seq::new(items@.len(), |j: int| spec_similar(items@[j])->0));
    }
    Some(out)
}

/// The similar payload of a search body: empty when absent.
pub open spec fn spec_similar_field(doc: Json) -> Option<Seq<Similar>> {
    match json::spec_field(doc, "similar"@) {
        None => Some(Seq::empty()),
        Some(j) => match j {
            Json::Array(items) => spec_similar_list(items@),
            _ => None,
        },
    }
}

/// What a similarity search body decodes to.
pub open spec fn spec_similar_body(text: Seq<char>) -> Option<
    (bool, Option<String>, Seq<Similar>),
> {
    match json_of(text) {
        None => None,
        Some(doc) => match spec_header(doc) {
            None => None,
            Some((success, error)) => match spec_similar_field(doc) {
                None => None,
                Some(similar) => Some((success, error, similar)),
            },
        },
    }
}

/// Parses a face check body into its full wire shape.
pub fn parse_check_full(raw: &str) -> (r: Result<CheckResponseFull, Error>)
    ensures
        match spec_check_body(raw@) {
            None => r is Err && r->Err_0.is_decode(),
            Some(b) => r is Ok && r->Ok_0.success == b.0 && r->Ok_0.error == b.1
                && r->Ok_0.faces@ == b.2,
        },
{
    let doc = match json::parse_document(raw) {
        Ok(doc) => doc,
        Err(e) => {
            return Err(e);
        },
    };
    let (success, error) = match json::read_header(&doc) {
        Ok(p) => p,
        Err(e) => {
            return Err(e);
        },
    };
    let faces = match json::array_field(&doc, "faces") {
        Field::Absent => Vec::new(),
        Field::Invalid => {
            return Err(Error::decode("mistyped faces field".to_owned()));
        },
        Field::Present(arr) => match faces_of(arr) {
            Some(fs) => fs,
            None => {
                return Err(Error::decode("mistyped faces field".to_owned()));
            },
        },
    };
    Ok(CheckResponseFull { success, error, faces })
}

/// Parses a similarity search body into its full wire shape.
pub fn parse_similar_full(raw: &str) -> (r: Result<SimilarResponseFull, Error>)
    ensures
        match spec_similar_body(raw@) {
            None => r is Err && r->Err_0.is_decode(),
            Some(b) => r is Ok && r->Ok_0.success == b.0 && r->Ok_0.error == b.1
                && r->Ok_0.similar@ == b.2,
        },
{
    let doc = match json::parse_document(raw) {
        Ok(doc) => doc,
        Err(e) => {
            return Err(e);
        },
    };
    let (success, error) = match json::read_header(&doc) {
        Ok(p) => p,
        Err(e) => {
            return Err(e);
        },
    };
    let similar = match json::array_field(&doc, "similar") {
        Field::Absent => Vec::new(),
        Field::Invalid => {
            return Err(Error::decode("mistyped similar field".to_owned()));
        },
        Field::Present(arr) => match similars_of(arr) {
            Some(ss) => ss,
            None => {
                return Err(Error::decode("mistyped similar field".to_owned()));
            },
        },
    };
    Ok(SimilarResponseFull { success, error, similar })
}

/// Decodes a face check body: parse the wire shape, then apply the
/// uniform envelope rule.
pub fn decode_check(raw: &str) -> (r: Result<CheckResponse, Error>)
    ensures
        match spec_check_body(raw@) {
            None => r is Err && r->Err_0.is_decode(),
            Some(b) => {
                &&& b.0 ==> r is Ok && r->Ok_0.faces@ == b.2
                &&& !b.0 ==> r is Err && r->Err_0.is_service() && r->Err_0.message_seq()
                    == reported_message(b.1)
            },
        },
{
    match parse_check_full(raw) {
        Ok(full) => full.into_result(),
        Err(e) => Err(e),
    }
}

/// Decodes a similarity search body.
pub fn decode_similar(raw: &str) -> (r: Result<SimilarResponse, Error>)
    ensures
        match spec_similar_body(raw@) {
            None => r is Err && r->Err_0.is_decode(),
            Some(b) => {
                &&& b.0 ==> r is Ok && r->Ok_0.similar@ == b.2
                &&& !b.0 ==> r is Err && r->Err_0.is_service() && r->Err_0.message_seq()
                    == reported_message(b.1)
            },
        },
{
    match parse_similar_full(raw) {
        Ok(full) => full.into_result(),
        Err(e) => Err(e),
    }
}

impl Facebox {
    /// Creates a new face box client for the box at the supplied URL.
    pub fn new(url: &str) -> (r: Facebox)
        ensures
            r.url@ == url@,
    {
        Facebox { url: url.to_owned() }
    }

    /// The base URL of the box.
    pub fn url(&self) -> (r: &str)
        ensures
            r@ == self.url@,
    {
        self.url.as_str()
    }

    /// The endpoint that checks an image for faces.
    pub fn check_endpoint(&self) -> (r: String)
        ensures
            r@ == self.url@ + "/facebox/check"@,
    {
        join_url(self.url.as_str(), "/facebox/check")
    }

    /// The endpoint that searches for similar faces.
    pub fn similar_endpoint(&self) -> (r: String)
        ensures
            r@ == self.url@ + "/facebox/similar"@,
    {
        join_url(self.url.as_str(), "/facebox/similar")
    }

    /// The endpoint that searches for faces similar to an already taught
    /// image.
    pub fn similar_id_endpoint(&self, id: &str) -> (r: String)
        ensures
            r@ == self.url@ + "/facebox/similar?id="@ + id@,
    {
        let s = join_url(self.url.as_str(), "/facebox/similar?id=");
        s.concat(id)
    }

    /// The endpoint holding the box's state blob.
    pub fn state_endpoint(&self) -> (r: String)
        ensures
            r@ == self.url@ + "/facebox/state"@,
    {
        join_url(self.url.as_str(), "/facebox/state")
    }

    /// The endpoint that teaches the box a face.
    pub fn teach_endpoint(&self) -> (r: String)
        ensures
            r@ == self.url@ + "/facebox/teach"@,
    {
        join_url(self.url.as_str(), "/facebox/teach")
    }

    /// The endpoint for one taught face, used to remove or rename it.
    pub fn teach_id_endpoint(&self, id: &str) -> (r: String)
        ensures
            r@ == self.url@ + "/facebox/teach/"@ + id@,
    {
        let s = join_url(self.url.as_str(), "/facebox/teach/");
        s.concat(id)
    }

    /// The endpoint that renames every face sharing a name.
    pub fn rename_all_endpoint(&self) -> (r: String)
        ensures
            r@ == self.url@ + "/facebox/rename"@,
    {
        join_url(self.url.as_str(), "/facebox/rename")
    }
}

} // verus!
