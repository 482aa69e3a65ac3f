//! The client core for the image-tagging box.
use vstd::prelude::*;

use crate::Error;
use crate::envelope::{decode_payload, header_from_parts, reported_message, Field};
use crate::json;
use crate::json::{json_of, spec_header, Json};
use crate::utils::join_url;

verus! {

/// The client for the image-tagging box: a base URL and the rules for
/// each of its endpoints.
#[derive(Debug, Clone, PartialEq)]
pub struct Tagbox {
    pub url: String,
}

/// A tag that describes an image.
#[derive(Debug, Clone, PartialEq)]
pub struct Tag {
    /// The user-friendly description of the tag.
    pub tag: String,
    /// A probability score between 0 and 1 when one was supplied, as the
    /// literal text of the number the box sent; absent and zero scores
    /// stay distinguishable.
    pub confidence: Option<String>,
    /// A unique identifier for the image supplied during teaching.
    pub id: Option<String>,
}

/// The payload of a tag check, stripped of the envelope wrapper.
#[derive(Debug, Clone, PartialEq)]
pub struct CheckResponse {
    /// The list of identified tags.
    pub tags: Vec<Tag>,
    /// The list of custom, manually taught tags identified with this
    /// image.
    pub custom_tags: Vec<Tag>,
}

/// The full wire shape of a tag check response.
#[derive(Debug, Clone, PartialEq)]
pub struct CheckResponseFull {
    pub success: bool,
    pub error: Option<String>,
    pub tags: Vec<Tag>,
    pub custom_tags: Vec<Tag>,
}

/// The wire shape of a teaching acknowledgement.
#[derive(Debug, Clone, PartialEq)]
pub struct TeachResponse {
    pub success: bool,
    pub error: Option<String>,
}

/// The full wire shape of a tag similarity response.
#[derive(Debug, Clone, PartialEq)]
pub struct SimilarResponse {
    pub success: bool,
    pub error: Option<String>,
    pub similar: Vec<Tag>,
}

/// The body of a teaching request.
#[derive(Debug, Clone, PartialEq)]
pub struct TrainTag {
    pub tag: String,
    pub id: Option<String>,
    pub url: String,
}

impl CheckResponseFull {
    /// Collapses the wire shape by the uniform rule: success keeps exactly
    /// the two tag lists, failure carries the reported message.
    pub fn into_result(self) -> (r: Result<CheckResponse, Error>)
        ensures
            self.success ==> r == Ok::<CheckResponse, Error>(
                CheckResponse { tags: self.tags, custom_tags: self.custom_tags },
            ),
            !self.success ==> r is Err && r->Err_0.is_service()
                && r->Err_0.message_seq() == reported_message(self.error),
    {
        let CheckResponseFull { success, error, tags, custom_tags } = self;
        let h = header_from_parts(success, error);
        match decode_payload(h, Field::Present((tags, custom_tags))) {
            Ok(p) => Ok(CheckResponse { tags: p.0, custom_tags: p.1 }),
            Err(e) => Err(e),
        }
    }
}

impl TeachResponse {
    /// Collapses the acknowledgement by the uniform rule.
    pub fn into_result(self) -> (r: Result<(), Error>)
        ensures
            self.success ==> r is Ok,
            !self.success ==> r is Err && r->Err_0.is_service()
                && r->Err_0.message_seq() == reported_message(self.error),
    {
        let TeachResponse { success, error } = self;
        let h = header_from_parts(success, error);
        decode_payload(h, Field::Present(()))
    }
}

impl SimilarResponse {
    /// Collapses the wire shape by the uniform rule: success keeps exactly
    /// the list of similar tags.
    pub fn into_result(self) -> (r: Result<Vec<Tag>, Error>)
        ensures
            self.success ==> r == Ok::<Vec<Tag>, Error>(self.similar),
            !self.success ==> r is Err && r->Err_0.is_service()
                && r->Err_0.message_seq() == reported_message(self.error),
    {
        let SimilarResponse { success, error, similar } = self;
        let h = header_from_parts(success, error);
        decode_payload(h, Field::Present(similar))
    }
}

/// One tag, read out of a document; the description is required, the
/// score and ID optional.
pub open spec fn spec_tag(doc: Json) -> Option<Tag> {
    match json::spec_text_field(doc, "tag"@) {
        Field::Present(tag) => match json::spec_opt_number_field(doc, "confidence"@) {
            Field::Present(confidence) => match json::spec_opt_text_field(doc, "id"@) {
                Field::Present(id) => Some(Tag { tag, confidence, id }),
                _ => None,
            },
            _ => None,
        },
        _ => None,
    }
}

fn tag_of(doc: &Json) -> (r: Option<Tag>)
    ensures
        r == spec_tag(*doc),
{
    let tag = match json::text_field(doc, "tag") {
        Field::Present(s) => s,
        _ => {
            return None;
        },
    };
    let confidence = match json::opt_number_field(doc, "confidence") {
        Field::Present(o) => o,
        _ => {
            return None;
        },
    };
    let id = match json::opt_text_field(doc, "id") {
        Field::Present(o) => o,
        _ => {
            return None;
        },
    };
    Some(Tag { tag, confidence, id })
}

/// A whole tag list, read element-wise; one unreadable element spoils
/// it.
pub open spec fn spec_tag_list(items: Seq<Json>) -> Option<Seq<Tag>> {
    if forall|i: int| 0 <= i < items.len() ==> (#[trigger] spec_tag(items[i])) is Some {
        Some(Seq::new(items.len(), |i: int| spec_tag(items[i])->0))
    } else {
        None
    }
}

fn tags_of(items: &Vec<Json>) -> (r: Option<Vec<Tag>>)
    ensures
        match r {
            Some(out) => spec_tag_list(items@) == Some(out@),
            None => spec_tag_list(items@) is None,
        },
{
    let mut out: Vec<Tag> = Vec::new();
    let mut i: usize = 0;
    while i < items.len()
        invariant
            i <= items@.len(),
            out@.len() == i,
            forall|j: int|
                0 <= j < i ==> (#[trigger] spec_tag(items@[j])) is Some && out@[j] == spec_tag(
                    items@[j],
                )->0,
        decreases items@.len() - i,
    {
        match tag_of(&items[i]) {
            Some(t) => out.push(t),
            None => {
                return None;
            },
        }
        i = i + 1;
    }
    proof {
        assert(out@ =~= Seq::new(items@.len(), |j: int| spec_tag(items@[j])->0));
    }
    Some(out)
}

/// A named tag-list payload field: empty when absent, unreadable when
/// mistyped.
pub open spec fn spec_tag_list_field(doc: Json, key: Seq<char>) -> Option<Seq<Tag>> {
    match json::spec_field(doc, key) {
        None => Some(Seq::empty()),
        Some(j) => match j {
            Json::Array(items) => spec_tag_list(items@),
            _ => None,
        },
    }
}

fn tag_list_field(doc: &Json, key: &str) -> (r: Option<Vec<Tag>>)
    ensures
        match r {
            Some(out) => spec_tag_list_field(*doc, key@) == Some(out@),
            None => spec_tag_list_field(*doc, key@) is None,
        },
{
    match json::array_field(doc, key) {
        Field::Absent => Some(Vec::new()),
        Field::Invalid => None,
        Field::Present(items) => tags_of(items),
    }
}

/// What a tag check body decodes to: the envelope header and both tag
/// lists.
pub open spec fn spec_check_body(text: Seq<char>) -> Option<
    (bool, Option<String>, Seq<Tag>, Seq<Tag>),
> {
    match json_of(text) {
        None => None,
        Some(doc) => match spec_header(doc) {
            None => None,
            Some((success, error)) => match spec_tag_list_field(doc, "tags"@) {
                None => None,
                Some(tags) => match spec_tag_list_field(doc, "custom_tags"@) {
                    None => None,
                    Some(custom_tags) => Some((success, error, tags, custom_tags)),
                },
            },
        },
    }
}

/// What a tag similarity body decodes to.
pub open spec fn spec_similar_body(text: Seq<char>) -> Option<(bool, Option<String>, Seq<Tag>)> {
    match json_of(text) {
        None => None,
        Some(doc) => match spec_header(doc) {
            None => None,
            Some((success, error)) => match spec_tag_list_field(doc, "similar"@) {
                None => None,
                Some(similar) => Some((success, error, similar)),
            },
        },
    }
}

/// Parses a tag check body into its full wire shape.
pub fn parse_check_full(raw: &str) -> (r: Result<CheckResponseFull, Error>)
    ensures
        match spec_check_body(raw@) {
            None => r is Err && r->Err_0.is_decode(),
            Some(b) => r is Ok && r->Ok_0.success == b.0 && r->Ok_0.error == b.1
                && r->Ok_0.tags@ == b.2 && r->Ok_0.custom_tags@ == b.3,
        },
{
    let doc = match json::parse_document(raw) {
        Ok(doc) => doc,
        Err(e) => {
            return Err(e);
        },
    };
    let (success, error) = match json::read_header(&doc) {
        Ok(p) => p,
        Err(e) => {
            return Err(e);
        },
    };
    let tags = match tag_list_field(&doc, "tags") {
        Some(ts) => ts,
        None => {
            return Err(Error::decode("mistyped tags field".to_owned()));
        },
    };
    let custom_tags = match tag_list_field(&doc, "custom_tags") {
        Some(ts) => ts,
        None => {
            return Err(Error::decode("mistyped custom_tags field".to_owned()));
        },
    };
    Ok(CheckResponseFull { success, error, tags, custom_tags })
}

/// Parses a teaching acknowledgement body into its wire shape.
pub fn parse_teach_response(raw: &str) -> (r: Result<TeachResponse, Error>)
    ensures
        match json::spec_ack(raw@) {
            Some(h) => r == Ok::<TeachResponse, Error>(
                TeachResponse { success: h.0, error: h.1 },
            ),
            None => r is Err && r->Err_0.is_decode(),
        },
{
    match json::parse_raw_response(raw) {
        Ok(p) => Ok(TeachResponse { success: p.success, error: p.error }),
        Err(e) => Err(e),
    }
}

/// Parses a tag similarity body into its full wire shape.
pub fn parse_similar_response(raw: &str) -> (r: Result<SimilarResponse, Error>)
    ensures
        match spec_similar_body(raw@) {
            None => r is Err && r->Err_0.is_decode(),
            Some(b) => r is Ok && r->Ok_0.success == b.0 && r->Ok_0.error == b.1
                && r->Ok_0.similar@ == b.2,
        },
{
    let doc = match json::parse_document(raw) {
        Ok(doc) => doc,
        Err(e) => {
            return Err(e);
        },
    };
    let (success, error) = match json::read_header(&doc) {
        Ok(p) => p,
        Err(e) => {
            return Err(e);
        },
    };
    let similar = match tag_list_field(&doc, "similar") {
        Some(ts) => ts,
        None => {
            return Err(Error::decode("mistyped similar field".to_owned()));
        },
    };
    Ok(SimilarResponse { success, error, similar })
}

/// Decodes a tag check body: parse the wire shape, then apply the
/// uniform envelope rule.
pub fn decode_check(raw: &str) -> (r: Result<CheckResponse, Error>)
    ensures
        match spec_check_body(raw@) {
            None => r is Err && r->Err_0.is_decode(),
            Some(b) => {
                &&& b.0 ==> r is Ok && r->Ok_0.tags@ == b.2 && r->Ok_0.custom_tags@ == b.3
                &&& !b.0 ==> r is Err && r->Err_0.is_service() && r->Err_0.message_seq()
                    == reported_message(b.1)
            },
        },
{
    match parse_check_full(raw) {
        Ok(full) => full.into_result(),
        Err(e) => Err(e),
    }
}

/// Decodes a teaching acknowledgement body.
pub fn decode_teach(raw: &str) -> (r: Result<(), Error>)
    ensures
        match json::spec_ack(raw@) {
            None => r is Err && r->Err_0.is_decode(),
            Some(h) => {
                &&& h.0 ==> r is Ok
                &&& !h.0 ==> r is Err && r->Err_0.is_service() && r->Err_0.message_seq()
                    == reported_message(h.1)
            },
        },
{
    match parse_teach_response(raw) {
        Ok(full) => full.into_result(),
        Err(e) => Err(e),
    }
}

/// Decodes a tag similarity body.
pub fn decode_similar(raw: &str) -> (r: Result<Vec<Tag>, Error>)
    ensures
        match spec_similar_body(raw@) {
            None => r is Err && r->Err_0.is_decode(),
            Some(b) => {
                &&& b.0 ==> r is Ok && r->Ok_0@ == b.2
                &&& !b.0 ==> r is Err && r->Err_0.is_service() && r->Err_0.message_seq()
                    == reported_message(b.1)
            },
        },
{
    match parse_similar_response(raw) {
        Ok(full) => full.into_result(),
        Err(e) => Err(e),
    }
}

impl Tagbox {
    /// Creates a new tag box client for the box at the supplied URL.
    pub fn new(url: &str) -> (r: Tagbox)
        ensures
            r.url@ == url@,
    {
        Tagbox { url: url.to_owned() }
    }

    /// The base URL of the box.
    pub fn url(&self) -> (r: &str)
        ensures
            r@ == self.url@,
    {
        self.url.as_str()
    }

    /// The endpoint that tags an image.
    pub fn check_endpoint(&self) -> (r: String)
        ensures
            r@ == self.url@ + "/tagbox/check"@,
    {
        join_url(self.url.as_str(), "/tagbox/check")
    }

    /// The endpoint that teaches the box a custom tag.
    pub fn teach_endpoint(&self) -> (r: String)
        ensures
            r@ == self.url@ + "/tagbox/teach"@,
    {
        join_url(self.url.as_str(), "/tagbox/teach")
    }

    /// The endpoint for one custom tag, used to remove or rename it.
    pub fn teach_id_endpoint(&self, id: &str) -> (r: String)
        ensures
            r@ == self.url@ + "/tagbox/teach/"@ + id@,
    {
        let s = join_url(self.url.as_str(), "/tagbox/teach/");
        s.concat(id)
    }

    /// The endpoint that searches for similar images.
    pub fn similar_endpoint(&self) -> (r: String)
        ensures
            r@ == self.url@ + "/tagbox/similar"@,
    {
        join_url(self.url.as_str(), "/tagbox/similar")
    }

    /// The endpoint holding the box's state blob.
    pub fn state_endpoint(&self) -> (r: String)
        ensures
            r@ == self.url@ + "/tagbox/state"@,
    {
        join_url(self.url.as_str(), "/tagbox/state")
    }
}

} // verus!
