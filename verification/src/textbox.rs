//! The client core for the natural-language analysis box.
use vstd::prelude::*;

use crate::Error;
use crate::envelope::Field;
use crate::json;
use crate::json::{json_of, Json};
use crate::utils::join_url;

verus! {

/// The client for the text box: a base URL and the rule for its one
/// endpoint.
#[derive(Debug, Clone, PartialEq)]
pub struct Textbox {
    pub url: String,
}

/// A typed entity discovered within a sentence.
#[derive(Debug, Clone, PartialEq)]
pub struct Entity {
    pub entity_type: String,
    pub text: String,
    pub start: u32,
    pub end: u32,
}

/// A keyword token identified within the text.
#[derive(Debug, Clone, PartialEq)]
pub struct Keyword {
    pub keyword: String,
}

/// A sentence identified in an analysis, with its sentiment score and the
/// entities discovered within.
#[derive(Debug, Clone, PartialEq)]
pub struct Sentence {
    pub text: String,
    pub start: u32,
    pub end: u32,
    /// Sentiment score, as the literal text of the number the box sent.
    pub sentiment: String,
    pub entities: Vec<Entity>,
}

/// The results of one text analysis.
#[derive(Debug, Clone, PartialEq)]
pub struct Analysis {
    pub sentences: Vec<Sentence>,
    pub keywords: Vec<Keyword>,
}

/// A named counter field that must fit a `u32`.
pub open spec fn spec_u32_field(doc: Json, key: Seq<char>) -> Field<u32> {
    match json::spec_u64_field(doc, key) {
        Field::Absent => Field::Absent,
        Field::Invalid => Field::Invalid,
        Field::Present(n) => if n <= u32::MAX as u64 {
            Field::Present(n as u32)
        } else {
            Field::Invalid
        },
    }
}

fn u32_field(doc: &Json, key: &str) -> (r: Field<u32>)
    ensures
        r == spec_u32_field(*doc, key@),
{
    match json::u64_field(doc, key) {
        Field::Absent => Field::Absent,
        Field::Invalid => Field::Invalid,
        Field::Present(n) => {
            if n <= u32::MAX as u64 {
                Field::Present(n as u32)
            } else {
                Field::Invalid
            }
        },
    }
}

/// One entity, read out of a document; every field is required.
pub open spec fn spec_entity(doc: Json) -> Option<Entity> {
    match json::spec_text_field(doc, "type"@) {
        Field::Present(entity_type) => match json::spec_text_field(doc, "text"@) {
            Field::Present(text) => match spec_u32_field(doc, "start"@) {
                Field::Present(start) => match spec_u32_field(doc, "end"@) {
                    Field::Present(end) => Some(Entity { entity_type, text, start, end }),
                    _ => None,
                },
                _ => None,
            },
            _ => None,
        },
        _ => None,
    }
}

fn entity_of(doc: &Json) -> (r: Option<Entity>)
    ensures
        r == spec_entity(*doc),
{
    let entity_type = match json::text_field(doc, "type") {
        Field::Present(s) => s,
        _ => {
            return None;
        },
    };
    let text = match json::text_field(doc, "text") {
        Field::Present(s) => s,
        _ => {
            return None;
        },
    };
    let start = match u32_field(doc, "start") {
        Field::Present(n) => n,
        _ => {
            return None;
        },
    };
    let end = match u32_field(doc, "end") {
        Field::Present(n) => n,
        _ => {
            return None;
        },
    };
    Some(Entity { entity_type, text, start, end })
}

/// A whole entity list, read element-wise.
pub open spec fn spec_entity_list(items: Seq<Json>) -> Option<Seq<Entity>> {
    if forall|i: int| 0 <= i < items.len() ==> (#[trigger] spec_entity(items[i])) is Some {
        Some(Seq::new(items.len(), |i: int| spec_entity(items[i])->0))
    } else {
        None
    }
}

fn entities_of(items: &Vec<Json>) -> (r: Option<Vec<Entity>>)
    ensures
        match r {
            Some(out) => spec_entity_list(items@) == Some(out@),
            None => spec_entity_list(items@) is None,
        },
{
    let mut out: Vec<Entity> = Vec::new();
    let mut i: usize = 0;
    while i < items.len()
        invariant
            i <= items@.len(),
            out@.len() == i,
            forall|j: int|
                0 <= j < i ==> (#[trigger] spec_entity(items@[j])) is Some && out@[j]
                    == spec_entity(items@[j])->0,
        decreases items@.len() - i,
    {
        match entity_of(&items[i]) {
            Some(e) => out.push(e),
            None => {
                return None;
            },
        }
        i = i + 1;
    }
    proof {
        assert(out@ =~= Seq::new(items@.len(), |j: int| spec_entity(items@[j])->0));
    }
    Some(out)
}

/// What one sentence's fields must hold; the entity list rides along as
/// a sequence because the sentence carries it in a vector.
pub open spec fn spec_sentence(doc: Json) -> Option<(String, u32, u32, String, Seq<Entity>)> {
    match json::spec_text_field(doc, "text"@) {
        Field::Present(text) => match spec_u32_field(doc, "start"@) {
            Field::Present(start) => match spec_u32_field(doc, "end"@) {
                Field::Present(end) => match json::spec_number_field(doc, "sentiment"@) {
                    Field::Present(sentiment) => match json::spec_array_field(doc, "entities"@) {
                        Field::Present(items) => match spec_entity_list(items) {
                            Some(entities) => Some((text, start, end, sentiment, entities)),
                            None => None,
                        },
                        _ => None,
                    },
                    _ => None,
                },
                _ => None,
            },
            _ => None,
        },
        _ => None,
    }
}

/// Whether a sentence value carries exactly the fields read from a
/// document.
pub open spec fn sentence_matches(s: Sentence, p: (String, u32, u32, String, Seq<Entity>)) -> bool {
    &&& s.text == p.0
    &&& s.start == p.1
    &&& s.end == p.2
    &&& s.sentiment == p.3
    &&& s.entities@ == p.4
}

fn sentence_of(doc: &Json) -> (r: Option<Sentence>)
    ensures
        match spec_sentence(*doc) {
            Some(p) => r is Some && sentence_matches(r->0, p),
            None => r is None,
        },
{
    let text = match json::text_field(doc, "text") {
        Field::Present(s) => s,
        _ => {
            return None;
        },
    };
    let start = match u32_field(doc, "start") {
        Field::Present(n) => n,
        _ => {
            return None;
        },
    };
    let end = match u32_field(doc, "end") {
        Field::Present(n) => n,
        _ => {
            return None;
        },
    };
    let sentiment = match json::number_field(doc, "sentiment") {
        Field::Present(s) => s,
        _ => {
            return None;
        },
    };
    let entities = match json::array_field(doc, "entities") {
        Field::Present(items) => match entities_of(items) {
            Some(es) => es,
            None => {
                return None;
            },
        },
        _ => {
            return None;
        },
    };
    Some(Sentence { text, start, end, sentiment, entities })
}

/// A whole sentence list, read element-wise.
pub open spec fn spec_sentence_list(items: Seq<Json>) -> Option<
    Seq<(String, u32, u32, String, Seq<Entity>)>,
> {
    if forall|i: int| 0 <= i < items.len() ==> (#[trigger] spec_sentence(items[i])) is Some {
        Some(Seq::new(items.len(), |i: int| spec_sentence(items[i])->0))
    } else {
        None
    }
}

/// Whether a sentence vector carries exactly the list read from a
/// document.
pub open spec fn sentences_match(
    out: Seq<Sentence>,
    ps: Seq<(String, u32, u32, String, Seq<Entity>)>,
) -> bool {
    out.len() == ps.len() && forall|i: int|
        0 <= i < out.len() ==> sentence_matches(#[trigger] out[i], ps[i])
}

fn sentences_of(items: &Vec<Json>) -> (r: Option<Vec<Sentence>>)
    ensures
        match r {
            Some(out) => spec_sentence_list(items@) is Some && sentences_match(
                out@,
                spec_sentence_list(items@)->0,
            ),
            None => spec_sentence_list(items@) is None,
        },
{
    let mut out: Vec<Sentence> = Vec::new();
    let mut i: usize = 0;
    while i < items.len()
        invariant
            i <= items@.len(),
            out@.len() == i,
            forall|j: int|
                0 <= j < i ==> (#[trigger] spec_sentence(items@[j])) is Some && sentence_matches(
                    out@[j],
                    spec_sentence(items@[j])->0,
                ),
        decreases items@.len() - i,
    {
        match sentence_of(&items[i]) {
            Some(s) => out.push(s),
            None => {
                return None;
            },
        }
        i = i + 1;
    }
    Some(out)
}

/// One keyword entry; the keyword text is required.
pub open spec fn spec_keyword(doc: Json) -> Option<Keyword> {
    match json::spec_text_field(doc, "keyword"@) {
        Field::Present(keyword) => Some(Keyword { keyword }),
        _ => None,
    }
}

/// A whole keyword list, read element-wise.
pub open spec fn spec_keyword_list(items: Seq<Json>) -> Option<Seq<Keyword>> {
    if forall|i: int| 0 <= i < items.len() ==> (#[trigger] spec_keyword(items[i])) is Some {
        Some(Seq::new(items.len(), |i: int| spec_keyword(items[i])->0))
    } else {
        None
    }
}

fn keywords_of(items: &Vec<Json>) -> (r: Option<Vec<Keyword>>)
    ensures
        match r {
            Some(out) => spec_keyword_list(items@) == Some(out@),
            None => spec_keyword_list(items@) is None,
        },
{
    let mut out: Vec<Keyword> = Vec::new();
    let mut i: usize = 0;
    while i < items.len()
        invariant
            i <= items@.len(),
            out@.len() == i,
            forall|j: int|
                0 <= j < i ==> (#[trigger] spec_keyword(items@[j])) is Some && out@[j]
                    == spec_keyword(items@[j])->0,
        decreases items@.len() - i,
    {
        match json::text_field(&items[i], "keyword") {
            Field::Present(s) => out.push(Keyword { keyword: s }),
            _ => {
                proof {
                    assert(spec_keyword(items@[i as int]) is None);
                }
                return None;
            },
        }
        i = i + 1;
    }
    proof {
        assert(out@ =~= Seq::new(items@.len(), |j: int| spec_keyword(items@[j])->0));
    }
    Some(out)
}

/// What a text analysis body decodes to: the sentence and keyword lists
/// are both required.
pub open spec fn spec_analysis_body(text: Seq<char>) -> Option<
    (Seq<(String, u32, u32, String, Seq<Entity>)>, Seq<Keyword>),
> {
    match json_of(text) {
        None => None,
        Some(doc) => match json::spec_array_field(doc, "sentences"@) {
            Field::Present(sitems) => match spec_sentence_list(sitems) {
                Some(sentences) => match json::spec_array_field(doc, "keywords"@) {
                    Field::Present(kitems) => match spec_keyword_list(kitems) {
                        Some(keywords) => Some((sentences, keywords)),
                        None => None,
                    },
                    _ => None,
                },
                None => None,
            },
            _ => None,
        },
    }
}

/// Decodes a text analysis body.
pub fn decode_analysis(raw: &str) -> (r: Result<Analysis, Error>)
    ensures
        match spec_analysis_body(raw@) {
            None => r is Err && r->Err_0.is_decode(),
            Some(b) => r is Ok && sentences_match(r->Ok_0.sentences@, b.0)
                && r->Ok_0.keywords@ == b.1,
        },
{
    let doc = match json::parse_document(raw) {
        Ok(doc) => doc,
        Err(e) => {
            return Err(e);
        },
    };
    let sentences = match json::array_field(&doc, "sentences") {
        Field::Present(items) => match sentences_of(items) {
            Some(ss) => ss,
            None => {
                return Err(Error::decode("mistyped sentence entry".to_owned()));
            },
        },
        _ => {
            return Err(Error::decode("mistyped sentences field".to_owned()));
        },
    };
    let keywords = match json::array_field(&doc, "keywords") {
        Field::Present(items) => match keywords_of(items) {
            Some(ks) => ks,
            None => {
                return Err(Error::decode("mistyped keyword entry".to_owned()));
            },
        },
        _ => {
            return Err(Error::decode("mistyped keywords field".to_owned()));
        },
    };
    Ok(Analysis { sentences, keywords })
}

impl Textbox {
    /// Creates a new text box client for the box at the supplied URL.
    pub fn new(url: &str) -> (r: Textbox)
        ensures
            r.url@ == url@,
    {
        Textbox { url: url.to_owned() }
    }

    /// The base URL of the box.
    pub fn url(&self) -> (r: &str)
        ensures
            r@ == self.url@,
    {
        self.url.as_str()
    }

    /// The endpoint that analyses a text.
    pub fn check_endpoint(&self) -> (r: String)
        ensures
            r@ == self.url@ + "/textbox/check"@,
    {
        join_url(self.url.as_str(), "/textbox/check")
    }
}

} // verus!
