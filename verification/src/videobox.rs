//! The client core for the video frame-dispatch box.
//!
//! Video processing is asynchronous: a check starts a job, its status is
//! polled, and the results are fetched once complete.
use vstd::prelude::*;

use crate::Error;
use crate::envelope::{decode_payload, header_from_parts, reported_message, Field};
use crate::json;
use crate::json::{json_of, spec_header, Json};
use crate::utils::{i64_string, join_url, signed_decimal_seq};

verus! {

/// The client for the video box: a base URL and the rules for each of
/// its endpoints.
#[derive(Debug, Clone, PartialEq)]
pub struct Videobox {
    pub url: String,
}

/// Indicates the status of a video processing job.
#[derive(Debug, Clone, PartialEq, Eq, Structural)]
pub enum Status {
    Pending,
    Downloading,
    Processing,
    Complete,
    Failed,
    Unknown,
}

/// The status named by its wire text.
pub open spec fn status_spec(s: Seq<char>) -> Result<Status, ()> {
    if s == "pending"@ {
        Ok(Status::Pending)
    } else if s == "downloading"@ {
        Ok(Status::Downloading)
    } else if s == "processing"@ {
        Ok(Status::Processing)
    } else if s == "complete"@ {
        Ok(Status::Complete)
    } else if s == "failed"@ {
        Ok(Status::Failed)
    } else if s == "unknown"@ {
        Ok(Status::Unknown)
    } else {
        Err(())
    }
}

impl Status {
    /// Maps a status's wire text to the status it names.
    pub fn from_str(s: &str) -> (r: Result<Status, ()>)
        ensures
            r == status_spec(s@),
    {
        let o = s.to_owned();
        if o == "pending".to_owned() {
            Ok(Status::Pending)
        } else if o == "downloading".to_owned() {
            Ok(Status::Downloading)
        } else if o == "processing".to_owned() {
            Ok(Status::Processing)
        } else if o == "complete".to_owned() {
            Ok(Status::Complete)
        } else if o == "failed".to_owned() {
            Ok(Status::Failed)
        } else if o == "unknown".to_owned() {
            Ok(Status::Unknown)
        } else {
            Err(())
        }
    }
}

/// Represents a video processing job as the box reports it.
#[derive(Debug, Clone, PartialEq)]
pub struct Video {
    pub id: String,
    pub status: Status,
    pub download_total: i64,
    pub download_complete: i64,
    pub download_complete_estimate: String,
    pub frames_count: isize,
    pub frames_complete: isize,
    pub last_frame_base64: String,
    pub milliseconds_complete: isize,
    pub expires: String,
}

/// The full wire shape of a video status response: beyond the envelope,
/// only the job ID is mandatory.
#[derive(Debug, Clone, PartialEq)]
pub struct VideoResponse {
    pub success: bool,
    pub error: Option<String>,
    pub id: String,
    pub status: Option<String>,
    pub download_total: Option<i64>,
    pub download_complete: Option<i64>,
    pub download_complete_estimate: Option<String>,
    pub frames_count: Option<isize>,
    pub frames_complete: Option<isize>,
    pub last_frame_base64: Option<String>,
    pub milliseconds_complete: Option<isize>,
    pub expires: Option<String>,
}

/// The status a wire response reports: the named status, with an absent
/// field and text the box does not document both counting as unknown.
pub open spec fn effective_status(status: Option<String>) -> Status {
    match status {
        Some(s) => match status_spec(s@) {
            Ok(st) => st,
            Err(_) => Status::Unknown,
        },
        None => Status::Unknown,
    }
}

pub open spec fn or_zero_i64(n: Option<i64>) -> i64 {
    match n {
        Some(v) => v,
        None => 0,
    }
}

pub open spec fn or_zero_isize(n: Option<isize>) -> isize {
    match n {
        Some(v) => v,
        None => 0,
    }
}

/// The text of an optional string field, with its documented default.
pub open spec fn or_text(s: Option<String>, default: Seq<char>) -> Seq<char> {
    match s {
        Some(v) => v@,
        None => default,
    }
}

impl VideoResponse {
    /// Collapses the wire shape by the uniform rule: success yields the
    /// job with every optional field at its documented default, failure
    /// carries the reported message.
    pub fn into_result(self) -> (r: Result<Video, Error>)
        ensures
            self.success ==> r is Ok && r->Ok_0.id == self.id
                && r->Ok_0.status == effective_status(self.status)
                && r->Ok_0.download_total == or_zero_i64(self.download_total)
                && r->Ok_0.download_complete == or_zero_i64(self.download_complete)
                && r->Ok_0.download_complete_estimate@ == or_text(
                self.download_complete_estimate,
                "unknown"@,
            ) && r->Ok_0.frames_count == or_zero_isize(self.frames_count)
                && r->Ok_0.frames_complete == or_zero_isize(self.frames_complete)
                && r->Ok_0.last_frame_base64@ == or_text(self.last_frame_base64, ""@)
                && r->Ok_0.milliseconds_complete == or_zero_isize(self.milliseconds_complete)
                && r->Ok_0.expires@ == or_text(self.expires, ""@),
            !self.success ==> r is Err && r->Err_0.is_service()
                && r->Err_0.message_seq() == reported_message(self.error),
    {
        let VideoResponse {
            success,
            error,
            id,
            status,
            download_total,
            download_complete,
            download_complete_estimate,
            frames_count,
            frames_complete,
            last_frame_base64,
            milliseconds_complete,
            expires,
        } = self;
        let st = match &status {
            Some(s) => match Status::from_str(s.as_str()) {
                Ok(t) => t,
                Err(_) => Status::Unknown,
            },
            None => Status::Unknown,
        };
        let video = Video {
            id,
            status: st,
            download_total: (match download_total {
                Some(n) => n,
                None => 0,
            }),
            download_complete: (match download_complete {
                Some(n) => n,
                None => 0,
            }),
            download_complete_estimate: (match download_complete_estimate {
                Some(s) => s,
                None => "unknown".to_owned(),
            }),
            frames_count: (match frames_count {
                Some(n) => n,
                None => 0,
            }),
            frames_complete: (match frames_complete {
                Some(n) => n,
                None => 0,
            }),
            last_frame_base64: (match last_frame_base64 {
                Some(s) => s,
                None => "".to_owned(),
            }),
            milliseconds_complete: (match milliseconds_complete {
                Some(n) => n,
                None => 0,
            }),
            expires: (match expires {
                Some(s) => s,
                None => "".to_owned(),
            }),
        };
        let h = header_from_parts(success, error);
        decode_payload(h, Field::Present(video))
    }
}

/// An item is a single entity discovered at one or many instances within
/// a video.
#[derive(Debug, Clone, PartialEq)]
pub struct Item {
    pub key: String,
    pub instances: Vec<Range>,
}

/// A range describes a period of time within a video.
#[derive(Debug, Clone, PartialEq)]
pub struct Range {
    pub start: isize,
    pub end: isize,
    pub start_ms: isize,
    pub end_ms: isize,
    /// Confidence of the detection when one was supplied, as literal
    /// number text.
    pub confidence: Option<String>,
}

/// Face-recognition results for a processed video.
#[derive(Debug, Clone, PartialEq)]
pub struct Facebox {
    pub faces: Vec<Item>,
    pub errors_count: isize,
    pub last_error: Option<String>,
}

/// Tagging results for a processed video.
#[derive(Debug, Clone, PartialEq)]
pub struct Tagbox {
    pub tags: Vec<Item>,
    pub error_count: isize,
    pub last_error: Option<String>,
}

/// Nudity-detection results for a processed video.
#[derive(Debug, Clone, PartialEq)]
pub struct Nudebox {
    pub nudity: Vec<Item>,
    pub error_count: isize,
    pub last_error: Option<String>,
}

/// The results of a video analysis.
#[derive(Debug, Clone, PartialEq)]
pub struct VideoAnalysis {
    /// Indicates whether the results are ready.
    pub ready: bool,
    /// Face-recognition results.
    pub facebox: Option<Facebox>,
    /// Tagging results.
    pub tagbox: Option<Tagbox>,
    /// Nudity-detection results.
    pub nudebox: Option<Nudebox>,
}

/// The full wire shape of a video results response.
#[derive(Debug, Clone, PartialEq)]
pub struct VideoAnalysisResponse {
    pub success: bool,
    pub error: Option<String>,
    pub ready: bool,
    pub facebox: Option<Facebox>,
    pub tagbox: Option<Tagbox>,
    pub nudebox: Option<Nudebox>,
}

impl VideoAnalysisResponse {
    /// Collapses the wire shape by the uniform rule: success keeps
    /// exactly the per-box results.
    pub fn into_result(self) -> (r: Result<VideoAnalysis, Error>)
        ensures
            self.success ==> r == Ok::<VideoAnalysis, Error>(
                VideoAnalysis {
                    ready: self.ready,
                    facebox: self.facebox,
                    tagbox: self.tagbox,
                    nudebox: self.nudebox,
                },
            ),
            !self.success ==> r is Err && r->Err_0.is_service()
                && r->Err_0.message_seq() == reported_message(self.error),
    {
        let VideoAnalysisResponse { success, error, ready, facebox, tagbox, nudebox } = self;
        let h = header_from_parts(success, error);
        match decode_payload(h, Field::Present((ready, facebox, tagbox, nudebox))) {
            Ok(p) => Ok(VideoAnalysis { ready: p.0, facebox: p.1, tagbox: p.2, nudebox: p.3 }),
            Err(e) => Err(e),
        }
    }
}

/// One time range, read out of a document; the bounds are required, the
/// confidence optional.
pub open spec fn spec_range(doc: Json) -> Option<Range> {
    match json::spec_isize_field(doc, "start"@) {
        Field::Present(start) => match json::spec_isize_field(doc, "end"@) {
            Field::Present(end) => match json::spec_isize_field(doc, "start_ms"@) {
                Field::Present(start_ms) => match json::spec_isize_field(doc, "end_ms"@) {
                    Field::Present(end_ms) => match json::spec_opt_number_field(
                        doc,
                        "confidence"@,
                    ) {
                        Field::Present(confidence) => Some(
                            Range { start, end, start_ms, end_ms, confidence },
                        ),
                        _ => None,
                    },
                    _ => None,
                },
                _ => None,
            },
            _ => None,
        },
        _ => None,
    }
}

fn range_of(doc: &Json) -> (r: Option<Range>)
    ensures
        r == spec_range(*doc),
{
    let start = match json::isize_field(doc, "start") {
        Field::Present(n) => n,
        _ => {
            return None;
        },
    };
    let end = match json::isize_field(doc, "end") {
        Field::Present(n) => n,
        _ => {
            return None;
        },
    };
    let start_ms = match json::isize_field(doc, "start_ms") {
        Field::Present(n) => n,
        _ => {
            return None;
        },
    };
    let end_ms = match json::isize_field(doc, "end_ms") {
        Field::Present(n) => n,
        _ => {
            return None;
        },
    };
    let confidence = match json::opt_number_field(doc, "confidence") {
        Field::Present(o) => o,
        _ => {
            return None;
        },
    };
    Some(Range { start, end, start_ms, end_ms, confidence })
}

/// A whole range list, read element-wise.
pub open spec fn spec_range_list(items: Seq<Json>) -> Option<Seq<Range>> {
    if forall|i: int| 0 <= i < items.len() ==> (#[trigger] spec_range(items[i])) is Some {
        Some(Seq::new(items.len(), |i: int| spec_range(items[i])->0))
    } else {
        None
    }
}

fn ranges_of(items: &Vec<Json>) -> (r: Option<Vec<Range>>)
    ensures
        match r {
            Some(out) => spec_range_list(items@) == Some(out@),
            None => spec_range_list(items@) is None,
        },
{
    let mut out: Vec<Range> = Vec::new();
    let mut i: usize = 0;
    while i < items.len()
        invariant
            i <= items@.len(),
            out@.len() == i,
            forall|j: int|
                0 <= j < i ==> (#[trigger] spec_range(items@[j])) is Some && out@[j] == spec_range(
                    items@[j],
                )->0,
        decreases items@.len() - i,
    {
        match range_of(&items[i]) {
            Some(rg) => out.push(rg),
            None => {
                return None;
            },
        }
        i = i + 1;
    }
    proof {
        assert(out@ =~= Seq::new(items@.len(), |j: int| spec_range(items@[j])->0));
    }
    Some(out)
}

/// What one discovered item's fields must hold; the key is required and
/// the instance list defaults to empty.
pub open spec fn spec_item(doc: Json) -> Option<(String, Seq<Range>)> {
    match json::spec_text_field(doc, "key"@) {
        Field::Present(key) => match json::spec_field(doc, "instances"@) {
            None => Some((key, Seq::empty())),
            Some(j) => match j {
                Json::Array(items) => match spec_range_list(items@) {
                    Some(instances) => Some((key, instances)),
                    None => None,
                },
                _ => None,
            },
        },
        _ => None,
    }
}

/// Whether an item value carries exactly the fields read from a
/// document.
pub open spec fn item_matches(it: Item, p: (String, Seq<Range>)) -> bool {
    it.key == p.0 && it.instances@ == p.1
}

fn item_of(doc: &Json) -> (r: Option<Item>)
    ensures
        match spec_item(*doc) {
            Some(p) => r is Some && item_matches(r->0, p),
            None => r is None,
        },
{
    let key = match json::text_field(doc, "key") {
        Field::Present(s) => s,
        _ => {
            return None;
        },
    };
    let instances = match json::raw_field(doc, "instances") {
        None => Vec::new(),
        Some(j) => match j {
            Json::Array(items) => match ranges_of(items) {
                Some(rs) => rs,
                None => {
                    return None;
                },
            },
            _ => {
                return None;
            },
        },
    };
    Some(Item { key, instances })
}

/// A whole item list, read element-wise.
pub open spec fn spec_item_list(items: Seq<Json>) -> Option<Seq<(String, Seq<Range>)>> {
    if forall|i: int| 0 <= i < items.len() ==> (#[trigger] spec_item(items[i])) is Some {
        Some(Seq::new(items.len(), |i: int| spec_item(items[i])->0))
    } else {
        None
    }
}

/// Whether an item vector carries exactly the list read from a document.
pub open spec fn items_match(out: Seq<Item>, ps: Seq<(String, Seq<Range>)>) -> bool {
    out.len() == ps.len() && forall|i: int|
        0 <= i < out.len() ==> item_matches(#[trigger] out[i], ps[i])
}

fn items_of(items: &Vec<Json>) -> (r: Option<Vec<Item>>)
    ensures
        match r {
            Some(out) => spec_item_list(items@) is Some && items_match(
                out@,
                spec_item_list(items@)->0,
            ),
            None => spec_item_list(items@) is None,
        },
{
    let mut out: Vec<Item> = Vec::new();
    let mut i: usize = 0;
    while i < items.len()
        invariant
            i <= items@.len(),
            out@.len() == i,
            forall|j: int|
                0 <= j < i ==> (#[trigger] spec_item(items@[j])) is Some && item_matches(
                    out@[j],
                    spec_item(items@[j])->0,
                ),
        decreases items@.len() - i,
    {
        match item_of(&items[i]) {
            Some(it) => out.push(it),
            None => {
                return None;
            },
        }
        i = i + 1;
    }
    Some(out)
}

/// What one per-box result block holds: the item list under the given
/// key and the error count are required, the last error optional.
pub open spec fn spec_box_results(doc: Json, items_key: Seq<char>) -> Option<
    (Seq<(String, Seq<Range>)>, isize, Option<String>),
> {
    match json::spec_array_field(doc, items_key) {
        Field::Present(items) => match spec_item_list(items) {
            Some(ps) => match json::spec_isize_field(doc, "errorsCount"@) {
                Field::Present(errors_count) => match json::spec_opt_text_field(
                    doc,
                    "lastError"@,
                ) {
                    Field::Present(last_error) => Some((ps, errors_count, last_error)),
                    _ => None,
                },
                _ => None,
            },
            None => None,
        },
        _ => None,
    }
}

fn box_results_of(doc: &Json, items_key: &str) -> (r: Option<(Vec<Item>, isize, Option<String>)>)
    ensures
        match r {
            Some(b) => spec_box_results(*doc, items_key@) is Some && items_match(
                b.0@,
                (spec_box_results(*doc, items_key@)->0).0,
            ) && b.1 == (spec_box_results(*doc, items_key@)->0).1 && b.2 == (spec_box_results(
                *doc,
                items_key@,
            )->0).2,
            None => spec_box_results(*doc, items_key@) is None,
        },
{
    let items = match json::array_field(doc, items_key) {
        Field::Present(arr) => match items_of(arr) {
            Some(its) => its,
            None => {
                return None;
            },
        },
        _ => {
            return None;
        },
    };
    let errors_count = match json::isize_field(doc, "errorsCount") {
        Field::Present(n) => n,
        _ => {
            return None;
        },
    };
    let last_error = match json::opt_text_field(doc, "lastError") {
        Field::Present(o) => o,
        _ => {
            return None;
        },
    };
    Some((items, errors_count, last_error))
}

/// What a video status body decodes to: its full wire shape.
pub open spec fn spec_video_body(text: Seq<char>) -> Option<VideoResponse> {
    match json_of(text) {
        None => None,
        Some(doc) => match spec_header(doc) {
            None => None,
            Some((success, error)) => match json::spec_text_field(doc, "id"@) {
                Field::Present(id) => match json::spec_opt_text_field(doc, "status"@) {
                    Field::Present(status) => match json::spec_opt_i64_field(
                        doc,
                        "downloadTotal"@,
                    ) {
                        Field::Present(download_total) => match json::spec_opt_i64_field(
                            doc,
                            "downloadComplete"@,
                        ) {
                            Field::Present(download_complete) => match json::spec_opt_text_field(
                                doc,
                                "downloadCompleteEstimate"@,
                            ) {
                                Field::Present(download_complete_estimate) => match json::spec_opt_isize_field(
                                    doc,
                                    "framesCount"@,
                                ) {
                                    Field::Present(frames_count) => match json::spec_opt_isize_field(
                                        doc,
                                        "framesComplete"@,
                                    ) {
                                        Field::Present(frames_complete) => match json::spec_opt_text_field(
                                            doc,
                                            "lastFrameBase64"@,
                                        ) {
                                            Field::Present(last_frame_base64) => match json::spec_opt_isize_field(
                                                doc,
                                                "millisecondsComplete"@,
                                            ) {
                                                Field::Present(milliseconds_complete) => match json::spec_opt_text_field(
                                                    doc,
                                                    "expires"@,
                                                ) {
                                                    Field::Present(expires) => Some(
                                                        VideoResponse {
                                                            success,
                                                            error,
                                                            id,
                                                            status,
                                                            download_total,
                                                            download_complete,
                                                            download_complete_estimate,
                                                            frames_count,
                                                            frames_complete,
                                                            last_frame_base64,
                                                            milliseconds_complete,
                                                            expires,
                                                        },
                                                    ),
                                                    _ => None,
                                                },
                                                _ => None,
                                            },
                                            _ => None,
                                        },
                                        _ => None,
                                    },
                                    _ => None,
                                },
                                _ => None,
                            },
                            _ => None,
                        },
                        _ => None,
                    },
                    _ => None,
                },
                _ => None,
            },
        },
    }
}

/// Parses a video status body into its full wire shape.
pub fn parse_video_response(raw: &str) -> (r: Result<VideoResponse, Error>)
    ensures
        match spec_video_body(raw@) {
            Some(w) => r == Ok::<VideoResponse, Error>(w),
            None => r is Err && r->Err_0.is_decode(),
        },
{
    let doc = match json::parse_document(raw) {
        Ok(doc) => doc,
        Err(e) => {
            return Err(e);
        },
    };
    let (success, error) = match json::read_header(&doc) {
        Ok(p) => p,
        Err(e) => {
            return Err(e);
        },
    };
    let id = match json::text_field(&doc, "id") {
        Field::Present(s) => s,
        _ => {
            return Err(Error::decode("missing or mistyped id field".to_owned()));
        },
    };
    let status = match json::opt_text_field(&doc, "status") {
        Field::Present(o) => o,
        _ => {
            return Err(Error::decode("mistyped status field".to_owned()));
        },
    };
    let download_total = match json::opt_i64_field(&doc, "downloadTotal") {
        Field::Present(o) => o,
        _ => {
            return Err(Error::decode("mistyped downloadTotal field".to_owned()));
        },
    };
    let download_complete = match json::opt_i64_field(&doc, "downloadComplete") {
        Field::Present(o) => o,
        _ => {
            return Err(Error::decode("mistyped downloadComplete field".to_owned()));
        },
    };
    let download_complete_estimate = match json::opt_text_field(&doc, "downloadCompleteEstimate") {
        Field::Present(o) => o,
        _ => {
            return Err(Error::decode("mistyped downloadCompleteEstimate field".to_owned()));
        },
    };
    let frames_count = match json::opt_isize_field(&doc, "framesCount") {
        Field::Present(o) => o,
        _ => {
            return Err(Error::decode("mistyped framesCount field".to_owned()));
        },
    };
    let frames_complete = match json::opt_isize_field(&doc, "framesComplete") {
        Field::Present(o) => o,
        _ => {
            return Err(Error::decode("mistyped framesComplete field".to_owned()));
        },
    };
    let last_frame_base64 = match json::opt_text_field(&doc, "lastFrameBase64") {
        Field::Present(o) => o,
        _ => {
            return Err(Error::decode("mistyped lastFrameBase64 field".to_owned()));
        },
    };
    let milliseconds_complete = match json::opt_isize_field(&doc, "millisecondsComplete") {
        Field::Present(o) => o,
        _ => {
            return Err(Error::decode("mistyped millisecondsComplete field".to_owned()));
        },
    };
    let expires = match json::opt_text_field(&doc, "expires") {
        Field::Present(o) => o,
        _ => {
            return Err(Error::decode("mistyped expires field".to_owned()));
        },
    };
    Ok(
        VideoResponse {
            success,
            error,
            id,
            status,
            download_total,
            download_complete,
            download_complete_estimate,
            frames_count,
            frames_complete,
            last_frame_base64,
            milliseconds_complete,
            expires,
        },
    )
}

/// What a video results body decodes to: the envelope header, the ready
/// flag, and the three optional per-box blocks.
pub open spec fn spec_analysis_body(text: Seq<char>) -> Option<
    (
        bool,
        Option<String>,
        bool,
        Option<(Seq<(String, Seq<Range>)>, isize, Option<String>)>,
        Option<(Seq<(String, Seq<Range>)>, isize, Option<String>)>,
        Option<(Seq<(String, Seq<Range>)>, isize, Option<String>)>,
    ),
> {
    match json_of(text) {
        None => None,
        Some(doc) => match spec_header(doc) {
            None => None,
            Some((success, error)) => match json::spec_bool_field(doc, "ready"@) {
                Field::Present(ready) => match (match json::spec_field(doc, "facebox"@) {
                    None => Some(None),
                    Some(Json::Null) => Some(None),
                    Some(bd) => match spec_box_results(bd, "faces"@) {
                        Some(p) => Some(Some(p)),
                        None => None,
                    },
                }) {
                    Some(facebox) => match (match json::spec_field(doc, "tagbox"@) {
                        None => Some(None),
                        Some(Json::Null) => Some(None),
                        Some(bd) => match spec_box_results(bd, "tags"@) {
                            Some(p) => Some(Some(p)),
                            None => None,
                        },
                    }) {
                        Some(tagbox) => match (match json::spec_field(doc, "nudebox"@) {
                            None => Some(None),
                            Some(Json::Null) => Some(None),
                            Some(bd) => match spec_box_results(bd, "nudity"@) {
                                Some(p) => Some(Some(p)),
                                None => None,
                            },
                        }) {
                            Some(nudebox) => Some(
                                (success, error, ready, facebox, tagbox, nudebox),
                            ),
                            None => None,
                        },
                        None => None,
                    },
                    None => None,
                },
                _ => None,
            },
        },
    }
}

/// Whether an optional per-box result block carries exactly what was
/// read from a document.
pub open spec fn opt_box_matches(
    items: Option<Seq<Item>>,
    errors: Option<(isize, Option<String>)>,
    p: Option<(Seq<(String, Seq<Range>)>, isize, Option<String>)>,
) -> bool {
    match (items, errors, p) {
        (None, None, None) => true,
        (Some(its), Some((count, last)), Some(q)) => items_match(its, q.0) && count == q.1 && last
            == q.2,
        _ => false,
    }
}

/// The three optional blocks of a parsed analysis, viewed uniformly.
pub open spec fn facebox_parts(b: Option<Facebox>) -> (Option<Seq<Item>>, Option<
    (isize, Option<String>),
>) {
    match b {
        None => (None, None),
        Some(fb) => (Some(fb.faces@), Some((fb.errors_count, fb.last_error))),
    }
}

pub open spec fn tagbox_parts(b: Option<Tagbox>) -> (Option<Seq<Item>>, Option<
    (isize, Option<String>),
>) {
    match b {
        None => (None, None),
        Some(tb) => (Some(tb.tags@), Some((tb.error_count, tb.last_error))),
    }
}

pub open spec fn nudebox_parts(b: Option<Nudebox>) -> (Option<Seq<Item>>, Option<
    (isize, Option<String>),
>) {
    match b {
        None => (None, None),
        Some(nb) => (Some(nb.nudity@), Some((nb.error_count, nb.last_error))),
    }
}

/// Whether a parsed analysis wire value carries exactly what was read.
pub open spec fn analysis_matches(
    w: VideoAnalysisResponse,
    b: (
        bool,
        Option<String>,
        bool,
        Option<(Seq<(String, Seq<Range>)>, isize, Option<String>)>,
        Option<(Seq<(String, Seq<Range>)>, isize, Option<String>)>,
        Option<(Seq<(String, Seq<Range>)>, isize, Option<String>)>,
    ),
) -> bool {
    &&& w.success == b.0
    &&& w.error == b.1
    &&& w.ready == b.2
    &&& opt_box_matches(facebox_parts(w.facebox).0, facebox_parts(w.facebox).1, b.3)
    &&& opt_box_matches(tagbox_parts(w.tagbox).0, tagbox_parts(w.tagbox).1, b.4)
    &&& opt_box_matches(nudebox_parts(w.nudebox).0, nudebox_parts(w.nudebox).1, b.5)
}

/// Parses a video results body into its full wire shape.
pub fn parse_analysis_response(raw: &str) -> (r: Result<VideoAnalysisResponse, Error>)
    ensures
        match spec_analysis_body(raw@) {
            None => r is Err && r->Err_0.is_decode(),
            Some(b) => r is Ok && analysis_matches(r->Ok_0, b),
        },
{
    let doc = match json::parse_document(raw) {
        Ok(doc) => doc,
        Err(e) => {
            return Err(e);
        },
    };
    let (success, error) = match json::read_header(&doc) {
        Ok(p) => p,
        Err(e) => {
            return Err(e);
        },
    };
    let ready = match json::bool_field(&doc, "ready") {
        Field::Present(b) => b,
        _ => {
            return Err(Error::decode("missing or mistyped ready field".to_owned()));
        },
    };
    let facebox = match json::raw_field(&doc, "facebox") {
        None => None,
        Some(bd) => match bd {
            Json::Null => None,
            _ => match box_results_of(bd, "faces") {
                Some((faces, errors_count, last_error)) => Some(
                    Facebox { faces, errors_count, last_error },
                ),
                None => {
                    return Err(Error::decode("mistyped facebox field".to_owned()));
                },
            },
        },
    };
    let tagbox = match json::raw_field(&doc, "tagbox") {
        None => None,
        Some(bd) => match bd {
            Json::Null => None,
            _ => match box_results_of(bd, "tags") {
                Some((tags, error_count, last_error)) => Some(
                    Tagbox { tags, error_count, last_error },
                ),
                None => {
                    return Err(Error::decode("mistyped tagbox field".to_owned()));
                },
            },
        },
    };
    let nudebox = match json::raw_field(&doc, "nudebox") {
        None => None,
        Some(bd) => match bd {
            Json::Null => None,
            _ => match box_results_of(bd, "nudity") {
                Some((nudity, error_count, last_error)) => Some(
                    Nudebox { nudity, error_count, last_error },
                ),
                None => {
                    return Err(Error::decode("mistyped nudebox field".to_owned()));
                },
            },
        },
    };
    Ok(VideoAnalysisResponse { success, error, ready, facebox, tagbox, nudebox })
}

/// Decodes a video status body: parse the wire shape, then apply the
/// uniform envelope rule.
pub fn decode_video(raw: &str) -> (r: Result<Video, Error>)
    ensures
        match spec_video_body(raw@) {
            None => r is Err && r->Err_0.is_decode(),
            Some(w) => {
                &&& w.success ==> r is Ok && r->Ok_0.id == w.id && r->Ok_0.status
                    == effective_status(w.status) && r->Ok_0.download_total == or_zero_i64(
                    w.download_total,
                ) && r->Ok_0.download_complete == or_zero_i64(w.download_complete)
                    && r->Ok_0.download_complete_estimate@ == or_text(
                    w.download_complete_estimate,
                    "unknown"@,
                ) && r->Ok_0.frames_count == or_zero_isize(w.frames_count)
                    && r->Ok_0.frames_complete == or_zero_isize(w.frames_complete)
                    && r->Ok_0.last_frame_base64@ == or_text(w.last_frame_base64, ""@)
                    && r->Ok_0.milliseconds_complete == or_zero_isize(w.milliseconds_complete)
                    && r->Ok_0.expires@ == or_text(w.expires, ""@)
                &&& !w.success ==> r is Err && r->Err_0.is_service() && r->Err_0.message_seq()
                    == reported_message(w.error)
            },
        },
{
    match parse_video_response(raw) {
        Ok(full) => full.into_result(),
        Err(e) => Err(e),
    }
}

/// Decodes a video results body.
pub fn decode_analysis(raw: &str) -> (r: Result<VideoAnalysis, Error>)
    ensures
        match spec_analysis_body(raw@) {
            None => r is Err && r->Err_0.is_decode(),
            Some(b) => {
                &&& b.0 ==> r is Ok && r->Ok_0.ready == b.2 && opt_box_matches(
                    facebox_parts(r->Ok_0.facebox).0,
                    facebox_parts(r->Ok_0.facebox).1,
                    b.3,
                ) && opt_box_matches(
                    tagbox_parts(r->Ok_0.tagbox).0,
                    tagbox_parts(r->Ok_0.tagbox).1,
                    b.4,
                ) && opt_box_matches(
                    nudebox_parts(r->Ok_0.nudebox).0,
                    nudebox_parts(r->Ok_0.nudebox).1,
                    b.5,
                )
                &&& !b.0 ==> r is Err && r->Err_0.is_service() && r->Err_0.message_seq()
                    == reported_message(b.1)
            },
        },
{
    match parse_analysis_response(raw) {
        Ok(full) => full.into_result(),
        Err(e) => Err(e),
    }
}

impl Videobox {
    /// Creates a new video box client for the box at the supplied URL.
    pub fn new(url: &str) -> (r: Videobox)
        ensures
            r.url@ == url@,
    {
        Videobox { url: url.to_owned() }
    }

    /// The base URL of the box.
    pub fn url(&self) -> (r: &str)
        ensures
            r@ == self.url@,
    {
        self.url.as_str()
    }

    /// The endpoint that starts processing a video.
    pub fn check_endpoint(&self) -> (r: String)
        ensures
            r@ == self.url@ + "/videobox/check"@,
    {
        join_url(self.url.as_str(), "/videobox/check")
    }

    /// The endpoint holding one job's results, used to fetch or remove
    /// them.
    pub fn results_endpoint(&self, id: &str) -> (r: String)
        ensures
            r@ == self.url@ + "/videobox/results/"@ + id@,
    {
        let s = join_url(self.url.as_str(), "/videobox/results/");
        s.concat(id)
    }

    /// The endpoint reporting one job's status.
    pub fn status_endpoint(&self, id: &str) -> (r: String)
        ensures
            r@ == self.url@ + "/videobox/status/"@ + id@,
    {
        let s = join_url(self.url.as_str(), "/videobox/status/");
        s.concat(id)
    }
}

/// The key of one option pair.
pub open spec fn key_at(pairs: Seq<(String, String)>, i: int) -> Seq<char> {
    pairs[i].0@
}

/// No two option pairs share a key.
pub open spec fn distinct_keys(pairs: Seq<(String, String)>) -> bool {
    forall|i: int, j: int|
        0 <= i < j < pairs.len() ==> #[trigger] key_at(pairs, i) != #[trigger] key_at(pairs, j)
}

/// What writing one option must do: the key now carries the value, every
/// pair under another key is kept, nothing else appears, and keys stay
/// distinct.
pub open spec fn sets_option(
    before: Seq<(String, String)>,
    after: Seq<(String, String)>,
    key: Seq<char>,
    value: Seq<char>,
) -> bool {
    &&& distinct_keys(after)
    &&& exists|i: int|
        0 <= i < after.len() && #[trigger] key_at(after, i) == key && after[i].1@ == value
    &&& forall|i: int|
        0 <= i < after.len() && #[trigger] key_at(after, i) != key ==> before.contains(after[i])
    &&& forall|j: int|
        0 <= j < before.len() && #[trigger] key_at(before, j) != key ==> after.contains(before[j])
}

/// Writes one option, replacing any earlier value under the same key.
fn set_option(kvs: &mut Vec<(String, String)>, key: &str, value: String)
    requires
        distinct_keys(old(kvs)@),
    ensures
        sets_option(old(kvs)@, final(kvs)@, key@, value@),
{
    let key_string = key.to_owned();
    let mut i: usize = 0;
    while i < kvs.len()
        invariant
            i <= kvs@.len(),
            kvs@ == old(kvs)@,
            distinct_keys(old(kvs)@),
            key_string@ == key@,
            forall|j: int| 0 <= j < i ==> #[trigger] key_at(kvs@, j) != key@,
        decreases kvs@.len() - i,
    {
        if kvs[i].0 == key_string {
            let ghost before = kvs@;
            kvs[i] = (key_string, value);
            proof {
                assert(key_at(before, i as int) == key@);
                assert forall|a: int, b: int|
                    0 <= a < b < kvs@.len() implies #[trigger] key_at(kvs@, a)
                    != #[trigger] key_at(kvs@, b) by {
                    assert(key_at(kvs@, a) == key_at(before, a));
                    assert(key_at(kvs@, b) == key_at(before, b));
                    assert(key_at(before, a) != key_at(before, b));
                }
                assert(key_at(kvs@, i as int) == key@ && kvs@[i as int].1@ == value@);
                assert forall|a: int|
                    0 <= a < kvs@.len() && #[trigger] key_at(kvs@, a) != key@ implies before
                    .contains(kvs@[a]) by {
                    assert(a != i as int);
                    assert(kvs@[a] == before[a]);
                    assert(before.contains(before[a]));
                }
                assert forall|b: int|
                    0 <= b < before.len() && #[trigger] key_at(before, b) != key@ implies kvs@
                    .contains(before[b]) by {
                    assert(b != i as int);
                    assert(kvs@[b] == before[b]);
                    assert(kvs@.contains(kvs@[b]));
                }
            }
            return;
        }
        i = i + 1;
    }
    let ghost before = kvs@;
    kvs.push((key_string, value));
    proof {
        let ghost last: int = kvs@.len() - 1;
        assert(kvs@[last] == (key_string, value));
        assert(key_at(kvs@, last) == key@);
        assert forall|a: int, b: int|
            0 <= a < b < kvs@.len() implies #[trigger] key_at(kvs@, a) != #[trigger] key_at(
            kvs@,
            b,
        ) by {
            assert(kvs@[a] == before[a]);
            assert(key_at(kvs@, a) == key_at(before, a));
            if b < last {
                assert(kvs@[b] == before[b]);
                assert(key_at(kvs@, b) == key_at(before, b));
                assert(key_at(before, a) != key_at(before, b));
            } else {
                assert(key_at(kvs@, b) == key@);
                assert(key_at(before, a) != key@);
            }
        }
        assert forall|a: int|
            0 <= a < kvs@.len() && #[trigger] key_at(kvs@, a) != key@ implies before.contains(
            kvs@[a],
        ) by {
            assert(a != last);
            assert(kvs@[a] == before[a]);
            assert(before.contains(before[a]));
        }
        assert forall|b: int|
            0 <= b < before.len() && #[trigger] key_at(before, b) != key@ implies kvs@.contains(
            before[b],
        ) by {
            assert(kvs@[b] == before[b]);
            assert(kvs@.contains(kvs@[b]));
        }
    }
}

/// The set of options to pass when starting a video analysis.
#[derive(Debug, Clone, PartialEq)]
pub struct CheckOptions {
    pub kvs: Vec<(String, String)>,
}

impl CheckOptions {
    /// The options as form parameters, in the order they were first set.
    pub fn pairs(&self) -> (r: &Vec<(String, String)>)
        ensures
            r == &self.kvs,
    {
        &self.kvs
    }
}

/// A builder that allows for fluent creation of check options.
#[derive(Debug, Clone, PartialEq)]
pub struct CheckOptionsBuilder {
    pub kvs: Vec<(String, String)>,
}

impl CheckOptionsBuilder {
    /// Creates a new check options builder with nothing set.
    pub fn new() -> (r: CheckOptionsBuilder)
        ensures
            r.kvs@.len() == 0,
            distinct_keys(r.kvs@),
    {
        CheckOptionsBuilder { kvs: Vec::new() }
    }

    /// Sets how long results are kept before being garbage collected.
    pub fn result_duration(self, duration: &str) -> (r: CheckOptionsBuilder)
        requires
            distinct_keys(self.kvs@),
        ensures
            sets_option(self.kvs@, r.kvs@, "resultDuration"@, duration@),
    {
        let mut kvs = self.kvs;
        set_option(&mut kvs, "resultDuration", duration.to_owned());
        CheckOptionsBuilder { kvs }
    }

    /// The number of frames to skip between extractions.
    pub fn skip_frames(self, frames: isize) -> (r: CheckOptionsBuilder)
        requires
            distinct_keys(self.kvs@),
        ensures
            sets_option(self.kvs@, r.kvs@, "skipframes"@, signed_decimal_seq(frames as int)),
    {
        let mut kvs = self.kvs;
        set_option(&mut kvs, "skipframes", i64_string(frames as i64));
        CheckOptionsBuilder { kvs }
    }

    /// The number of seconds to skip between frame extractions.
    pub fn skip_seconds(self, seconds: isize) -> (r: CheckOptionsBuilder)
        requires
            distinct_keys(self.kvs@),
        ensures
            sets_option(self.kvs@, r.kvs@, "skipseconds"@, signed_decimal_seq(seconds as int)),
    {
        let mut kvs = self.kvs;
        set_option(&mut kvs, "skipseconds", i64_string(seconds as i64));
        CheckOptionsBuilder { kvs }
    }

    /// Sets the width of the frame to extract.
    pub fn frame_width(self, width: isize) -> (r: CheckOptionsBuilder)
        requires
            distinct_keys(self.kvs@),
        ensures
            sets_option(self.kvs@, r.kvs@, "frameWidth"@, signed_decimal_seq(width as int)),
    {
        let mut kvs = self.kvs;
        set_option(&mut kvs, "frameWidth", i64_string(width as i64));
        CheckOptionsBuilder { kvs }
    }

    /// Sets the height of the frame to extract.
    pub fn frame_height(self, height: isize) -> (r: CheckOptionsBuilder)
        requires
            distinct_keys(self.kvs@),
        ensures
            sets_option(self.kvs@, r.kvs@, "frameHeight"@, signed_decimal_seq(height as int)),
    {
        let mut kvs = self.kvs;
        set_option(&mut kvs, "frameHeight", i64_string(height as i64));
        CheckOptionsBuilder { kvs }
    }

    /// Sets the number of frames to process concurrently.
    pub fn frame_concurrency(self, concurrency: isize) -> (r: CheckOptionsBuilder)
        requires
            distinct_keys(self.kvs@),
        ensures
            sets_option(
                self.kvs@,
                r.kvs@,
                "frameConcurrency"@,
                signed_decimal_seq(concurrency as int),
            ),
    {
        let mut kvs = self.kvs;
        set_option(&mut kvs, "frameConcurrency", i64_string(concurrency as i64));
        CheckOptionsBuilder { kvs }
    }

    /// Sets the face-recognition confidence threshold for a frame to be
    /// included; the threshold travels as its literal number text.
    pub fn facebox_threshold(self, threshold: &str) -> (r: CheckOptionsBuilder)
        requires
            distinct_keys(self.kvs@),
        ensures
            sets_option(self.kvs@, r.kvs@, "faceboxThreshold"@, threshold@),
    {
        let mut kvs = self.kvs;
        set_option(&mut kvs, "faceboxThreshold", threshold.to_owned());
        CheckOptionsBuilder { kvs }
    }

    /// Sets which tags to report, such as every tag or only custom ones.
    pub fn tagbox_include(self, selection: &str) -> (r: CheckOptionsBuilder)
        requires
            distinct_keys(self.kvs@),
        ensures
            sets_option(self.kvs@, r.kvs@, "tagboxInclude"@, selection@),
    {
        let mut kvs = self.kvs;
        set_option(&mut kvs, "tagboxInclude", selection.to_owned());
        CheckOptionsBuilder { kvs }
    }

    /// Sets the tagging confidence threshold for a frame to be included.
    pub fn tagbox_threshold(self, threshold: &str) -> (r: CheckOptionsBuilder)
        requires
            distinct_keys(self.kvs@),
        ensures
            sets_option(self.kvs@, r.kvs@, "tagboxThreshold"@, threshold@),
    {
        let mut kvs = self.kvs;
        set_option(&mut kvs, "tagboxThreshold", threshold.to_owned());
        CheckOptionsBuilder { kvs }
    }

    /// Sets the nudity-detection confidence threshold for a frame to be
    /// included.
    pub fn nudebox_threshold(self, threshold: &str) -> (r: CheckOptionsBuilder)
        requires
            distinct_keys(self.kvs@),
        ensures
            sets_option(self.kvs@, r.kvs@, "nudeboxThreshold"@, threshold@),
    {
        let mut kvs = self.kvs;
        set_option(&mut kvs, "nudeboxThreshold", threshold.to_owned());
        CheckOptionsBuilder { kvs }
    }

    /// Converts the builder into the options a check submits.
    pub fn finish(self) -> (r: CheckOptions)
        ensures
            r.kvs == self.kvs,
    {
        CheckOptions { kvs: self.kvs }
    }
}

} // verus!
