//! The client core for the suggestion-modelling box.
//!
//! Models are created, fetched, listed and rewarded; the box answers
//! with plain JSON documents (a model, statistics or a batch of
//! predictions) or with a model-list envelope, and each decoder's
//! contract says what it returns for a given body, over the named parse.
use vstd::prelude::*;

use crate::Error;
use crate::envelope::{decode_payload, header_from_parts, reported_message, Field};
use crate::json;
use crate::json::{json_of, spec_header, Json};
use crate::utils::join_url;

verus! {

/// The client for the suggestion box: a base URL and the rules for each
/// of its endpoints.
#[derive(Debug, Clone, PartialEq)]
pub struct Suggestionbox {
    pub url: String,
}

/// Tells the box how to treat a feature value when making predictions.
#[derive(Debug, Clone, PartialEq, Eq, Structural)]
pub enum FeatureType {
    /// A numerical feature.
    Number,
    /// A textual feature that will be tokenized.
    Text,
    /// A non-tokenized textual feature.
    Keyword,
    /// A list of non-tokenized keywords.
    List,
    /// A feature value that is a URL.
    ImageURL,
    /// A feature value that is a binary image encoded with Base64.
    ImageBase64,
}

/// A feature describes an input or a choice, such as a title or an age.
#[derive(Debug, Clone, PartialEq)]
pub struct Feature {
    /// The feature's key.
    pub key: String,
    /// The value of the feature.
    pub value: String,
    /// The type of this feature.
    pub feature_type: FeatureType,
}

/// A choice is a value the model can predict, with its describing
/// features.
#[derive(Debug, Clone, PartialEq)]
pub struct Choice {
    /// The ID of the choice.
    pub id: String,
    /// List of features for this choice.
    pub features: Vec<Feature>,
}

/// Configuration parameters that tweak a model's learning behaviour.
#[derive(Debug, Clone, PartialEq)]
pub struct ModelOptions {
    /// The maximum time in seconds between a prediction and its reward.
    pub reward_expiration_seconds: u64,
    /// Proportionate exploiting/exploring ratio, as the literal text of
    /// the number the box uses.
    pub epsilon: String,
    /// Adaptive exploiting/exploring ratio, as literal number text.
    pub softmax_lambda: String,
    /// The n-grams used for analysis.
    pub ngrams: i32,
    /// Skip-grams used for text analysis.
    pub skipgrams: i32,
}

/// A single model inside the suggestion box.
#[derive(Debug, Clone, PartialEq)]
pub struct Model {
    /// The ID of the model.
    pub id: Option<String>,
    /// The name of the model.
    pub name: String,
    /// Model options.
    pub options: Option<ModelOptions>,
    /// The choices this model will select from.
    pub choices: Vec<Choice>,
}

/// Fluent creation of new models for submission to the box.
#[derive(Debug, Clone, PartialEq)]
pub struct ModelBuilder {
    pub name: String,
    pub id: Option<String>,
    pub choices: Vec<Choice>,
    pub options: Option<ModelOptions>,
}

/// Statistics for one model.
#[derive(Debug, Clone, PartialEq)]
pub struct ModelStats {
    /// The number of predictions this model has made.
    pub predictions: u64,
    /// The number of rewards this model has received.
    pub rewards: u64,
    /// The ratio between predictions and rewards, as literal number text.
    pub reward_ratio: String,
    /// The number of times the model has explored to learn new things.
    pub explores: u64,
    /// The number of times the model has exploited learning.
    pub exploits: u64,
    /// The ratio between exploring and exploiting, as literal number
    /// text.
    pub explore_ratio: String,
}

/// The wire shape wrapping a list of models.
#[derive(Debug, Clone, PartialEq)]
pub struct ModelList {
    pub models: Vec<Model>,
    pub success: bool,
}

/// A predicted choice.
#[derive(Debug, Clone, PartialEq)]
pub struct Prediction {
    /// The choice identifier being predicted.
    pub id: String,
    /// The ID of the reward to submit if this prediction works out.
    pub reward_id: String,
    /// How this prediction relates to the others, as literal number text.
    pub score: String,
}

/// A batch of predictions produced by the box.
#[derive(Debug, Clone, PartialEq)]
pub struct PredictionResponse {
    /// List of predicted choices.
    pub choices: Vec<Prediction>,
}

/// A request for a prediction.
#[derive(Debug, Clone, PartialEq)]
pub struct PredictionRequest {
    /// Inputs used in the prediction request.
    pub inputs: Vec<Feature>,
}

/// Informs the box of a successful prediction.
#[derive(Debug, Clone, PartialEq)]
pub struct Reward {
    /// The ID of the reward as presented during the prediction.
    pub reward_id: String,
    /// The weight of the reward, as literal number text.
    pub value: String,
}

/// The feature type named by its wire text, when the text is one of the
/// six known names.
pub open spec fn feature_type_spec(s: Seq<char>) -> Option<FeatureType> {
    if s == "number"@ {
        Some(FeatureType::Number)
    } else if s == "text"@ {
        Some(FeatureType::Text)
    } else if s == "keyword"@ {
        Some(FeatureType::Keyword)
    } else if s == "list"@ {
        Some(FeatureType::List)
    } else if s == "image_url"@ {
        Some(FeatureType::ImageURL)
    } else if s == "image_base64"@ {
        Some(FeatureType::ImageBase64)
    } else {
        None
    }
}

/// Maps a feature type's wire text to the type it names.
pub fn feature_type_of(s: &String) -> (r: Option<FeatureType>)
    ensures
        r == feature_type_spec(s@),
{
    if *s == "number".to_owned() {
        Some(FeatureType::Number)
    } else if *s == "text".to_owned() {
        Some(FeatureType::Text)
    } else if *s == "keyword".to_owned() {
        Some(FeatureType::Keyword)
    } else if *s == "list".to_owned() {
        Some(FeatureType::List)
    } else if *s == "image_url".to_owned() {
        Some(FeatureType::ImageURL)
    } else if *s == "image_base64".to_owned() {
        Some(FeatureType::ImageBase64)
    } else {
        None
    }
}

/// The first `k` items joined with commas.
pub open spec fn comma_join_prefix(items: Seq<&str>, k: int) -> Seq<char>
    decreases k,
{
    if k <= 0 {
        Seq::empty()
    } else if k == 1 {
        items[0]@
    } else {
        comma_join_prefix(items, k - 1) + ","@ + items[k - 1]@
    }
}

/// Joins keywords with commas, the way a list feature carries them.
fn comma_join(list: &Vec<&str>) -> (r: String)
    ensures
        r@ == comma_join_prefix(list@, list@.len() as int),
{
    let mut s = String::new();
    let mut i: usize = 0;
    while i < list.len()
        invariant
            i <= list@.len(),
            s@ == comma_join_prefix(list@, i as int),
        decreases list@.len() - i,
    {
        if i > 0 {
            s.append(",");
        }
        s.append(list[i]);
        i = i + 1;
    }
    s
}

impl Feature {
    /// Shortcut for producing a new text feature.
    pub fn text(key: &str, text: &str) -> (r: Feature)
        ensures
            r.key@ == key@,
            r.value@ == text@,
            r.feature_type == FeatureType::Text,
    {
        Feature { key: key.to_owned(), value: text.to_owned(), feature_type: FeatureType::Text }
    }

    /// Shortcut for producing a numerical feature; the number travels as
    /// its literal text.
    pub fn number(key: &str, number: &str) -> (r: Feature)
        ensures
            r.key@ == key@,
            r.value@ == number@,
            r.feature_type == FeatureType::Number,
    {
        Feature {
            key: key.to_owned(),
            value: number.to_owned(),
            feature_type: FeatureType::Number,
        }
    }

    /// Shortcut for producing a keyword feature.
    pub fn keyword(key: &str, keyword: &str) -> (r: Feature)
        ensures
            r.key@ == key@,
            r.value@ == keyword@,
            r.feature_type == FeatureType::Keyword,
    {
        Feature {
            key: key.to_owned(),
            value: keyword.to_owned(),
            feature_type: FeatureType::Keyword,
        }
    }

    /// Shortcut for producing a keyword list feature: the keywords are
    /// joined with commas.
    pub fn list(key: &str, list: Vec<&str>) -> (r: Feature)
        ensures
            r.key@ == key@,
            r.value@ == comma_join_prefix(list@, list@.len() as int),
            r.feature_type == FeatureType::List,
    {
        Feature {
            key: key.to_owned(),
            value: comma_join(&list),
            feature_type: FeatureType::List,
        }
    }

    /// Shortcut for producing an image URL feature.
    pub fn image_url(key: &str, url: &str) -> (r: Feature)
        ensures
            r.key@ == key@,
            r.value@ == url@,
            r.feature_type == FeatureType::ImageURL,
    {
        Feature { key: key.to_owned(), value: url.to_owned(), feature_type: FeatureType::ImageURL }
    }

    /// Shortcut for producing a base64-encoded image feature.
    pub fn image_base64(key: &str, data: &str) -> (r: Feature)
        ensures
            r.key@ == key@,
            r.value@ == data@,
            r.feature_type == FeatureType::ImageBase64,
    {
        Feature {
            key: key.to_owned(),
            value: data.to_owned(),
            feature_type: FeatureType::ImageBase64,
        }
    }
}

impl ModelBuilder {
    /// Creates a new model builder with its defaults set.
    pub fn new() -> (r: ModelBuilder)
        ensures
            r.name@ == "default"@,
            r.id is None,
            r.choices@.len() == 0,
            r.options is None,
    {
        ModelBuilder { name: "default".to_owned(), id: None, choices: Vec::new(), options: None }
    }

    /// Provides a name for the model.
    pub fn named(self, name: &str) -> (r: ModelBuilder)
        ensures
            r.name@ == name@,
            r.id == self.id,
            r.choices == self.choices,
            r.options == self.options,
    {
        ModelBuilder { name: name.to_owned(), ..self }
    }

    /// Sets the ID of the model; without one the box assigns an ID
    /// itself.
    pub fn id(self, id: &str) -> (r: ModelBuilder)
        ensures
            r.name == self.name,
            r.id is Some && r.id->0@ == id@,
            r.choices == self.choices,
            r.options == self.options,
    {
        ModelBuilder { id: Some(id.to_owned()), ..self }
    }

    /// Adds a new choice with the indicated list of features.
    pub fn choice(self, id: &str, features: Vec<Feature>) -> (r: ModelBuilder)
        ensures
            r.name == self.name,
            r.id == self.id,
            r.choices@.len() == self.choices@.len() + 1,
            r.choices@ == self.choices@.push(r.choices@.last()),
            r.choices@.last().id@ == id@,
            r.choices@.last().features == features,
            r.options == self.options,
    {
        let mut choices = self.choices;
        choices.push(Choice { id: id.to_owned(), features });
        ModelBuilder { choices, ..self }
    }

    /// Sets the options for the model.
    pub fn options(self, options: ModelOptions) -> (r: ModelBuilder)
        ensures
            r.name == self.name,
            r.id == self.id,
            r.choices == self.choices,
            r.options == Some(options),
    {
        ModelBuilder { options: Some(options), ..self }
    }

    /// Creates the model; the builder's values move into it.
    pub fn finish(self) -> (r: Model)
        ensures
            r.name == self.name,
            r.id == self.id,
            r.choices == self.choices,
            r.options == self.options,
    {
        Model { name: self.name, id: self.id, choices: self.choices, options: self.options }
    }
}

/// A named signed integer field that must fit an `i32`.
pub open spec fn spec_i32_field(doc: Json, key: Seq<char>) -> Field<i32> {
    match json::spec_field(doc, key) {
        None => Field::Absent,
        Some(j) => match j {
            Json::Number(n) => match n.signed {
                Some(x) => if i32::MIN as i64 <= x && x <= i32::MAX as i64 {
                    Field::Present(x as i32)
                } else {
                    Field::Invalid
                },
                None => Field::Invalid,
            },
            _ => Field::Invalid,
        },
    }
}

fn i32_field(doc: &Json, key: &str) -> (r: Field<i32>)
    ensures
        r == spec_i32_field(*doc, key@),
{
    match json::raw_field(doc, key) {
        None => Field::Absent,
        Some(j) => match j {
            Json::Number(n) => match n.signed {
                Some(x) => {
                    if i32::MIN as i64 <= x && x <= i32::MAX as i64 {
                        Field::Present(x as i32)
                    } else {
                        Field::Invalid
                    }
                },
                None => Field::Invalid,
            },
            _ => Field::Invalid,
        },
    }
}

/// One feature, read out of a document; every field is required and the
/// type name must be one of the six known ones.
pub open spec fn spec_feature(doc: Json) -> Option<Feature> {
    match json::spec_text_field(doc, "key"@) {
        Field::Present(key) => match json::spec_text_field(doc, "value"@) {
            Field::Present(value) => match json::spec_text_field(doc, "type"@) {
                Field::Present(type_text) => match feature_type_spec(type_text@) {
                    Some(feature_type) => Some(Feature { key, value, feature_type }),
                    None => None,
                },
                _ => None,
            },
            _ => None,
        },
        _ => None,
    }
}

fn feature_of(doc: &Json) -> (r: Option<Feature>)
    ensures
        r == spec_feature(*doc),
{
    let key = match json::text_field(doc, "key") {
        Field::Present(s) => s,
        _ => {
            return None;
        },
    };
    let value = match json::text_field(doc, "value") {
        Field::Present(s) => s,
        _ => {
            return None;
        },
    };
    let type_text = match json::text_field(doc, "type") {
        Field::Present(s) => s,
        _ => {
            return None;
        },
    };
    let feature_type = match feature_type_of(&type_text) {
        Some(t) => t,
        None => {
            return None;
        },
    };
    Some(Feature { key, value, feature_type })
}

/// A whole feature list, read element-wise.
pub open spec fn spec_feature_list(items: Seq<Json>) -> Option<Seq<Feature>> {
    if forall|i: int| 0 <= i < items.len() ==> (#[trigger] spec_feature(items[i])) is Some {
        Some(Seq::new(items.len(), |i: int| spec_feature(items[i])->0))
    } else {
        None
    }
}

fn features_of(items: &Vec<Json>) -> (r: Option<Vec<Feature>>)
    ensures
        match r {
            Some(out) => spec_feature_list(items@) == Some(out@),
            None => spec_feature_list(items@) is None,
        },
{
    let mut out: Vec<Feature> = Vec::new();
    let mut i: usize = 0;
    while i < items.len()
        invariant
            i <= items@.len(),
            out@.len() == i,
            forall|j: int|
                0 <= j < i ==> (#[trigger] spec_feature(items@[j])) is Some && out@[j]
                    == spec_feature(items@[j])->0,
        decreases items@.len() - i,
    {
        match feature_of(&items[i]) {
            Some(f) => out.push(f),
            None => {
                return None;
            },
        }
        i = i + 1;
    }
    proof {
        assert(out@ =~= Seq::new(items@.len(), |j: int| spec_feature(items@[j])->0));
    }
    Some(out)
}

/// What one choice's fields must hold; the feature list rides along as a
/// sequence because the choice carries it in a vector.
pub open spec fn spec_choice(doc: Json) -> Option<(String, Seq<Feature>)> {
    match json::spec_text_field(doc, "id"@) {
        Field::Present(id) => match json::spec_array_field(doc, "features"@) {
            Field::Present(items) => match spec_feature_list(items) {
                Some(features) => Some((id, features)),
                None => None,
            },
            _ => None,
        },
        _ => None,
    }
}

/// Whether a choice value carries exactly the fields read from a
/// document.
pub open spec fn choice_matches(c: Choice, p: (String, Seq<Feature>)) -> bool {
    c.id == p.0 && c.features@ == p.1
}

fn choice_of(doc: &Json) -> (r: Option<Choice>)
    ensures
        match spec_choice(*doc) {
            Some(p) => r is Some && choice_matches(r->0, p),
            None => r is None,
        },
{
    let id = match json::text_field(doc, "id") {
        Field::Present(s) => s,
        _ => {
            return None;
        },
    };
    let features = match json::array_field(doc, "features") {
        Field::Present(items) => match features_of(items) {
            Some(fs) => fs,
            None => {
                return None;
            },
        },
        _ => {
            return None;
        },
    };
    Some(Choice { id, features })
}

/// A whole choice list, read element-wise.
pub open spec fn spec_choice_list(items: Seq<Json>) -> Option<Seq<(String, Seq<Feature>)>> {
    if forall|i: int| 0 <= i < items.len() ==> (#[trigger] spec_choice(items[i])) is Some {
        Some(Seq::new(items.len(), |i: int| spec_choice(items[i])->0))
    } else {
        None
    }
}

/// Whether a choice vector carries exactly the list read from a
/// document.
pub open spec fn choices_match(out: Seq<Choice>, ps: Seq<(String, Seq<Feature>)>) -> bool {
    out.len() == ps.len() && forall|i: int|
        0 <= i < out.len() ==> choice_matches(#[trigger] out[i], ps[i])
}

fn choices_of(items: &Vec<Json>) -> (r: Option<Vec<Choice>>)
    ensures
        match r {
            Some(out) => spec_choice_list(items@) is Some && choices_match(
                out@,
                spec_choice_list(items@)->0,
            ),
            None => spec_choice_list(items@) is None,
        },
{
    let mut out: Vec<Choice> = Vec::new();
    let mut i: usize = 0;
    while i < items.len()
        invariant
            i <= items@.len(),
            out@.len() == i,
            forall|j: int|
                0 <= j < i ==> (#[trigger] spec_choice(items@[j])) is Some && choice_matches(
                    out@[j],
                    spec_choice(items@[j])->0,
                ),
        decreases items@.len() - i,
    {
        match choice_of(&items[i]) {
            Some(c) => out.push(c),
            None => {
                return None;
            },
        }
        i = i + 1;
    }
    Some(out)
}

/// What a model's options block holds; every field defaults when absent,
/// and the two ratio texts ride along as character sequences because of
/// their defaults.
pub open spec fn spec_options(doc: Json) -> Option<(u64, Seq<char>, Seq<char>, i32, i32)> {
    match json::spec_u64_field(doc, "reward_expiration_seconds"@) {
        Field::Invalid => None,
        rew => match json::spec_number_field(doc, "epsilon"@) {
            Field::Invalid => None,
            eps => match json::spec_number_field(doc, "softmax_lambda"@) {
                Field::Invalid => None,
                lam => match spec_i32_field(doc, "ngrams"@) {
                    Field::Invalid => None,
                    ngr => match spec_i32_field(doc, "skipgrams"@) {
                        Field::Invalid => None,
                        skp => Some(
                            (
                                (match rew {
                                    Field::Present(n) => n,
                                    _ => 0,
                                }),
                                (match eps {
                                    Field::Present(s) => s@,
                                    _ => "0.0"@,
                                }),
                                (match lam {
                                    Field::Present(s) => s@,
                                    _ => "0.0"@,
                                }),
                                (match ngr {
                                    Field::Present(n) => n,
                                    _ => 0,
                                }),
                                (match skp {
                                    Field::Present(n) => n,
                                    _ => 0,
                                }),
                            ),
                        ),
                    },
                },
            },
        },
    }
}

/// Whether an options value carries exactly the fields read from a
/// document.
pub open spec fn options_match(o: ModelOptions, p: (u64, Seq<char>, Seq<char>, i32, i32)) -> bool {
    &&& o.reward_expiration_seconds == p.0
    &&& o.epsilon@ == p.1
    &&& o.softmax_lambda@ == p.2
    &&& o.ngrams == p.3
    &&& o.skipgrams == p.4
}

fn model_options_of(doc: &Json) -> (r: Option<ModelOptions>)
    ensures
        match spec_options(*doc) {
            Some(p) => r is Some && options_match(r->0, p),
            None => r is None,
        },
{
    let reward_expiration_seconds = match json::u64_field(doc, "reward_expiration_seconds").or(0) {
        Field::Present(n) => n,
        _ => {
            return None;
        },
    };
    let epsilon = match json::number_field(doc, "epsilon").or("0.0".to_owned()) {
        Field::Present(s) => s,
        _ => {
            return None;
        },
    };
    let softmax_lambda = match json::number_field(doc, "softmax_lambda").or("0.0".to_owned()) {
        Field::Present(s) => s,
        _ => {
            return None;
        },
    };
    let ngrams = match i32_field(doc, "ngrams").or(0) {
        Field::Present(n) => n,
        _ => {
            return None;
        },
    };
    let skipgrams = match i32_field(doc, "skipgrams").or(0) {
        Field::Present(n) => n,
        _ => {
            return None;
        },
    };
    Some(ModelOptions { reward_expiration_seconds, epsilon, softmax_lambda, ngrams, skipgrams })
}

/// What one model document holds: the name is required, the ID and
/// options optional, and the choice list defaults to empty.
pub open spec fn spec_model_doc(doc: Json) -> Option<
    (Option<String>, String, Option<(u64, Seq<char>, Seq<char>, i32, i32)>, Seq<
        (String, Seq<Feature>),
    >),
> {
    match json::spec_opt_text_field(doc, "id"@) {
        Field::Present(id) => match json::spec_text_field(doc, "name"@) {
            Field::Present(name) => match (match json::spec_field(doc, "options"@) {
                None => Some(None),
                Some(od) => match od {
                    Json::Null => Some(None),
                    _ => match spec_options(od) {
                        Some(p) => Some(Some(p)),
                        None => None,
                    },
                },
            }) {
                Some(options) => match (match json::spec_field(doc, "choices"@) {
                    None => Some(Seq::<(String, Seq<Feature>)>::empty()),
                    Some(cd) => match cd {
                        Json::Array(items) => spec_choice_list(items@),
                        _ => None,
                    },
                }) {
                    Some(choices) => Some((id, name, options, choices)),
                    None => None,
                },
                None => None,
            },
            _ => None,
        },
        _ => None,
    }
}

/// Whether a model value carries exactly the fields read from a
/// document.
pub open spec fn model_matches(
    m: Model,
    p: (Option<String>, String, Option<(u64, Seq<char>, Seq<char>, i32, i32)>, Seq<
        (String, Seq<Feature>),
    >),
) -> bool {
    &&& m.id == p.0
    &&& m.name == p.1
    &&& match (m.options, p.2) {
        (None, None) => true,
        (Some(o), Some(q)) => options_match(o, q),
        _ => false,
    }
    &&& choices_match(m.choices@, p.3)
}

fn model_of(doc: &Json) -> (r: Option<Model>)
    ensures
        match spec_model_doc(*doc) {
            Some(p) => r is Some && model_matches(r->0, p),
            None => r is None,
        },
{
    let id = match json::opt_text_field(doc, "id") {
        Field::Present(o) => o,
        _ => {
            return None;
        },
    };
    let name = match json::text_field(doc, "name") {
        Field::Present(s) => s,
        _ => {
            return None;
        },
    };
    let options = match json::raw_field(doc, "options") {
        None => None,
        Some(od) => match od {
            Json::Null => None,
            _ => match model_options_of(od) {
                Some(o) => Some(o),
                None => {
                    return None;
                },
            },
        },
    };
    let choices = match json::raw_field(doc, "choices") {
        None => Vec::new(),
        Some(cd) => match cd {
            Json::Array(items) => match choices_of(items) {
                Some(cs) => cs,
                None => {
                    return None;
                },
            },
            _ => {
                return None;
            },
        },
    };
    Some(Model { id, name, options, choices })
}

/// What a single-model body decodes to.
pub open spec fn spec_model_body(text: Seq<char>) -> Option<
    (Option<String>, String, Option<(u64, Seq<char>, Seq<char>, i32, i32)>, Seq<
        (String, Seq<Feature>),
    >),
> {
    match json_of(text) {
        None => None,
        Some(doc) => spec_model_doc(doc),
    }
}

/// Decodes a body that carries a single model document.
pub fn decode_model(raw: &str) -> (r: Result<Model, Error>)
    ensures
        match spec_model_body(raw@) {
            None => r is Err && r->Err_0.is_decode(),
            Some(p) => r is Ok && model_matches(r->Ok_0, p),
        },
{
    let doc = match json::parse_document(raw) {
        Ok(doc) => doc,
        Err(e) => {
            return Err(e);
        },
    };
    match model_of(&doc) {
        Some(m) => Ok(m),
        None => Err(Error::decode("mistyped model document".to_owned())),
    }
}

/// A whole model list, read element-wise.
pub open spec fn spec_model_list(items: Seq<Json>) -> Option<
    Seq<(Option<String>, String, Option<(u64, Seq<char>, Seq<char>, i32, i32)>, Seq<
        (String, Seq<Feature>),
    >)>,
> {
    if forall|i: int| 0 <= i < items.len() ==> (#[trigger] spec_model_doc(items[i])) is Some {
        Some(Seq::new(items.len(), |i: int| spec_model_doc(items[i])->0))
    } else {
        None
    }
}

/// Whether a model vector carries exactly the list read from a document.
pub open spec fn models_match(
    out: Seq<Model>,
    ps: Seq<(Option<String>, String, Option<(u64, Seq<char>, Seq<char>, i32, i32)>, Seq<
        (String, Seq<Feature>),
    >)>,
) -> bool {
    out.len() == ps.len() && forall|i: int|
        0 <= i < out.len() ==> model_matches(#[trigger] out[i], ps[i])
}

fn models_of(items: &Vec<Json>) -> (r: Option<Vec<Model>>)
    ensures
        match r {
            Some(out) => spec_model_list(items@) is Some && models_match(
                out@,
                spec_model_list(items@)->0,
            ),
            None => spec_model_list(items@) is None,
        },
{
    let mut out: Vec<Model> = Vec::new();
    let mut i: usize = 0;
    while i < items.len()
        invariant
            i <= items@.len(),
            out@.len() == i,
            forall|j: int|
                0 <= j < i ==> (#[trigger] spec_model_doc(items@[j])) is Some && model_matches(
                    out@[j],
                    spec_model_doc(items@[j])->0,
                ),
        decreases items@.len() - i,
    {
        match model_of(&items[i]) {
            Some(m) => out.push(m),
            None => {
                return None;
            },
        }
        i = i + 1;
    }
    Some(out)
}

/// What a model-list body decodes to: the envelope header and the
/// required model list.
pub open spec fn spec_model_list_body(text: Seq<char>) -> Option<
    (bool, Option<String>, Seq<
        (Option<String>, String, Option<(u64, Seq<char>, Seq<char>, i32, i32)>, Seq<
            (String, Seq<Feature>),
        >),
    >),
> {
    match json_of(text) {
        None => None,
        Some(doc) => match spec_header(doc) {
            None => None,
            Some((success, error)) => match json::spec_array_field(doc, "models"@) {
                Field::Present(items) => match spec_model_list(items) {
                    Some(models) => Some((success, error, models)),
                    None => None,
                },
                _ => None,
            },
        },
    }
}

/// Decodes a body that wraps a list of models, by the uniform envelope
/// rule: a rejecting wrapper is a service failure.
pub fn decode_model_list(raw: &str) -> (r: Result<Vec<Model>, Error>)
    ensures
        match spec_model_list_body(raw@) {
            None => r is Err && r->Err_0.is_decode(),
            Some(b) => {
                &&& b.0 ==> r is Ok && models_match(r->Ok_0@, b.2)
                &&& !b.0 ==> r is Err && r->Err_0.is_service() && r->Err_0.message_seq()
                    == reported_message(b.1)
            },
        },
{
    let doc = match json::parse_document(raw) {
        Ok(doc) => doc,
        Err(e) => {
            return Err(e);
        },
    };
    let (success, error) = match json::read_header(&doc) {
        Ok(p) => p,
        Err(e) => {
            return Err(e);
        },
    };
    let models = match json::array_field(&doc, "models") {
        Field::Present(items) => match models_of(items) {
            Some(ms) => ms,
            None => {
                return Err(Error::decode("mistyped model document".to_owned()));
            },
        },
        _ => {
            return Err(Error::decode("mistyped models field".to_owned()));
        },
    };
    let h = header_from_parts(success, error);
    decode_payload(h, Field::Present(models))
}

/// What a statistics body decodes to; every field is required.
pub open spec fn spec_stats_body(text: Seq<char>) -> Option<ModelStats> {
    match json_of(text) {
        None => None,
        Some(doc) => match json::spec_u64_field(doc, "predictions"@) {
            Field::Present(predictions) => match json::spec_u64_field(doc, "rewards"@) {
                Field::Present(rewards) => match json::spec_number_field(doc, "reward_ratio"@) {
                    Field::Present(reward_ratio) => match json::spec_u64_field(doc, "explores"@) {
                        Field::Present(explores) => match json::spec_u64_field(doc, "exploits"@) {
                            Field::Present(exploits) => match json::spec_number_field(
                                doc,
                                "explore_ratio"@,
                            ) {
                                Field::Present(explore_ratio) => Some(
                                    ModelStats {
                                        predictions,
                                        rewards,
                                        reward_ratio,
                                        explores,
                                        exploits,
                                        explore_ratio,
                                    },
                                ),
                                _ => None,
                            },
                            _ => None,
                        },
                        _ => None,
                    },
                    _ => None,
                },
                _ => None,
            },
            _ => None,
        },
    }
}

/// Decodes a body that carries one model's statistics.
pub fn decode_model_stats(raw: &str) -> (r: Result<ModelStats, Error>)
    ensures
        match spec_stats_body(raw@) {
            Some(stats) => r == Ok::<ModelStats, Error>(stats),
            None => r is Err && r->Err_0.is_decode(),
        },
{
    let doc = match json::parse_document(raw) {
        Ok(doc) => doc,
        Err(e) => {
            return Err(e);
        },
    };
    let predictions = match json::u64_field(&doc, "predictions") {
        Field::Present(n) => n,
        _ => {
            return Err(Error::decode("mistyped predictions field".to_owned()));
        },
    };
    let rewards = match json::u64_field(&doc, "rewards") {
        Field::Present(n) => n,
        _ => {
            return Err(Error::decode("mistyped rewards field".to_owned()));
        },
    };
    let reward_ratio = match json::number_field(&doc, "reward_ratio") {
        Field::Present(s) => s,
        _ => {
            return Err(Error::decode("mistyped reward_ratio field".to_owned()));
        },
    };
    let explores = match json::u64_field(&doc, "explores") {
        Field::Present(n) => n,
        _ => {
            return Err(Error::decode("mistyped explores field".to_owned()));
        },
    };
    let exploits = match json::u64_field(&doc, "exploits") {
        Field::Present(n) => n,
        _ => {
            return Err(Error::decode("mistyped exploits field".to_owned()));
        },
    };
    let explore_ratio = match json::number_field(&doc, "explore_ratio") {
        Field::Present(s) => s,
        _ => {
            return Err(Error::decode("mistyped explore_ratio field".to_owned()));
        },
    };
    Ok(ModelStats { predictions, rewards, reward_ratio, explores, exploits, explore_ratio })
}

/// What one prediction's fields must hold; the score rides along as a
/// character sequence because of its default.
pub open spec fn spec_prediction(doc: Json) -> Option<(String, String, Seq<char>)> {
    match json::spec_text_field(doc, "id"@) {
        Field::Present(id) => match json::spec_text_field(doc, "reward_id"@) {
            Field::Present(reward_id) => match json::spec_number_field(doc, "score"@) {
                Field::Absent => Some((id, reward_id, "0.0"@)),
                Field::Present(s) => Some((id, reward_id, s@)),
                Field::Invalid => None,
            },
            _ => None,
        },
        _ => None,
    }
}

/// Whether a prediction value carries exactly the fields read from a
/// document.
pub open spec fn prediction_matches(p: Prediction, t: (String, String, Seq<char>)) -> bool {
    p.id == t.0 && p.reward_id == t.1 && p.score@ == t.2
}

fn prediction_of(doc: &Json) -> (r: Option<Prediction>)
    ensures
        match spec_prediction(*doc) {
            Some(t) => r is Some && prediction_matches(r->0, t),
            None => r is None,
        },
{
    let id = match json::text_field(doc, "id") {
        Field::Present(s) => s,
        _ => {
            return None;
        },
    };
    let reward_id = match json::text_field(doc, "reward_id") {
        Field::Present(s) => s,
        _ => {
            return None;
        },
    };
    let score = match json::number_field(doc, "score") {
        Field::Absent => "0.0".to_owned(),
        Field::Present(s) => s,
        Field::Invalid => {
            return None;
        },
    };
    Some(Prediction { id, reward_id, score })
}

/// A whole prediction list, read element-wise.
pub open spec fn spec_prediction_list(items: Seq<Json>) -> Option<Seq<(String, String, Seq<char>)>> {
    if forall|i: int| 0 <= i < items.len() ==> (#[trigger] spec_prediction(items[i])) is Some {
        Some(Seq::new(items.len(), |i: int| spec_prediction(items[i])->0))
    } else {
        None
    }
}

/// Whether a prediction vector carries exactly the list read from a
/// document.
pub open spec fn predictions_match(out: Seq<Prediction>, ts: Seq<(String, String, Seq<char>)>) -> bool {
    out.len() == ts.len() && forall|i: int|
        0 <= i < out.len() ==> prediction_matches(#[trigger] out[i], ts[i])
}

fn predictions_of(items: &Vec<Json>) -> (r: Option<Vec<Prediction>>)
    ensures
        match r {
            Some(out) => spec_prediction_list(items@) is Some && predictions_match(
                out@,
                spec_prediction_list(items@)->0,
            ),
            None => spec_prediction_list(items@) is None,
        },
{
    let mut out: Vec<Prediction> = Vec::new();
    let mut i: usize = 0;
    while i < items.len()
        invariant
            i <= items@.len(),
            out@.len() == i,
            forall|j: int|
                0 <= j < i ==> (#[trigger] spec_prediction(items@[j])) is Some
                    && prediction_matches(out@[j], spec_prediction(items@[j])->0),
        decreases items@.len() - i,
    {
        match prediction_of(&items[i]) {
            Some(p) => out.push(p),
            None => {
                return None;
            },
        }
        i = i + 1;
    }
    Some(out)
}

/// What a prediction batch body decodes to: the choice list defaults to
/// empty.
pub open spec fn spec_prediction_body(text: Seq<char>) -> Option<Seq<(String, String, Seq<char>)>> {
    match json_of(text) {
        None => None,
        Some(doc) => match json::spec_field(doc, "choices"@) {
            None => Some(Seq::empty()),
            Some(cd) => match cd {
                Json::Array(items) => spec_prediction_list(items@),
                _ => None,
            },
        },
    }
}

/// Decodes a prediction batch.
pub fn decode_prediction(raw: &str) -> (r: Result<PredictionResponse, Error>)
    ensures
        match spec_prediction_body(raw@) {
            None => r is Err && r->Err_0.is_decode(),
            Some(ts) => r is Ok && predictions_match(r->Ok_0.choices@, ts),
        },
{
    let doc = match json::parse_document(raw) {
        Ok(doc) => doc,
        Err(e) => {
            return Err(e);
        },
    };
    let choices = match json::raw_field(&doc, "choices") {
        None => Vec::new(),
        Some(cd) => match cd {
            Json::Array(items) => match predictions_of(items) {
                Some(ps) => ps,
                None => {
                    return Err(Error::decode("mistyped prediction entry".to_owned()));
                },
            },
            _ => {
                return Err(Error::decode("mistyped choices field".to_owned()));
            },
        },
    };
    Ok(PredictionResponse { choices })
}

impl Suggestionbox {
    /// Creates a new suggestion box client for the box at the supplied
    /// URL.
    pub fn new(url: &str) -> (r: Suggestionbox)
        ensures
            r.url@ == url@,
    {
        Suggestionbox { url: url.to_owned() }
    }

    /// The base URL of the box.
    pub fn url(&self) -> (r: &str)
        ensures
            r@ == self.url@,
    {
        self.url.as_str()
    }

    /// The endpoint that creates and lists models.
    pub fn models_endpoint(&self) -> (r: String)
        ensures
            r@ == self.url@ + "/suggestionbox/models"@,
    {
        join_url(self.url.as_str(), "/suggestionbox/models")
    }

    /// The endpoint for one model.
    pub fn model_endpoint(&self, id: &str) -> (r: String)
        ensures
            r@ == self.url@ + "/suggestionbox/models/"@ + id@,
    {
        let s = join_url(self.url.as_str(), "/suggestionbox/models/");
        s.concat(id)
    }

    /// The endpoint for one model's statistics.
    pub fn stats_endpoint(&self, id: &str) -> (r: String)
        ensures
            r@ == self.url@ + "/suggestionbox/models/"@ + id@ + "/stats"@,
    {
        let s = self.model_endpoint(id);
        s.concat("/stats")
    }

    /// The endpoint that asks one model for predictions.
    pub fn predict_endpoint(&self, id: &str) -> (r: String)
        ensures
            r@ == self.url@ + "/suggestionbox/models/"@ + id@ + "/predict"@,
    {
        let s = self.model_endpoint(id);
        s.concat("/predict")
    }

    /// The endpoint that rewards one model's prediction.
    pub fn rewards_endpoint(&self, id: &str) -> (r: String)
        ensures
            r@ == self.url@ + "/suggestionbox/models/"@ + id@ + "/rewards"@,
    {
        let s = self.model_endpoint(id);
        s.concat("/rewards")
    }

    /// The endpoint that accepts a posted state blob.
    pub fn state_endpoint(&self) -> (r: String)
        ensures
            r@ == self.url@ + "/suggestionbox/state"@,
    {
        join_url(self.url.as_str(), "/suggestionbox/state")
    }

    /// The endpoint holding one model's state blob.
    pub fn state_model_endpoint(&self, id: &str) -> (r: String)
        ensures
            r@ == self.url@ + "/suggestionbox/state/"@ + id@,
    {
        let s = join_url(self.url.as_str(), "/suggestionbox/state/");
        s.concat(id)
    }
}

} // verus!
