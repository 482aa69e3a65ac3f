//! Shared transport-side rules: the status-code policy every helper
//! follows, the message built for a failing status, the bare
//! acknowledgement envelope, and byte-exact blob transfer.
use vstd::prelude::*;

use crate::Error;
use crate::envelope::{decode_payload, Field, Header};

verus! {

/// The one HTTP status code the protocol treats as success.
pub const OK_STATUS: u16 = 200;

/// The character for a single decimal digit.
pub open spec fn digit_char(d: nat) -> char {
    if d == 0 {
        '0'
    } else if d == 1 {
        '1'
    } else if d == 2 {
        '2'
    } else if d == 3 {
        '3'
    } else if d == 4 {
        '4'
    } else if d == 5 {
        '5'
    } else if d == 6 {
        '6'
    } else if d == 7 {
        '7'
    } else if d == 8 {
        '8'
    } else {
        '9'
    }
}

/// The decimal representation of a number, most significant digit first.
pub open spec fn decimal_seq(n: nat) -> Seq<char>
    decreases n,
{
    if n < 10 {
        seq![digit_char(n)]
    } else {
        decimal_seq(n / 10) + seq![digit_char(n % 10)]
    }
}

fn digit_str(d: u64) -> (r: &'static str)
    requires
        d < 10,
    ensures
        r@ == seq![digit_char(d as nat)],
{
    proof {
        reveal_strlit("0");
        reveal_strlit("1");
        reveal_strlit("2");
        reveal_strlit("3");
        reveal_strlit("4");
        reveal_strlit("5");
        reveal_strlit("6");
        reveal_strlit("7");
        reveal_strlit("8");
        reveal_strlit("9");
    }
    let r: &'static str = match d {
        0 => "0",
        1 => "1",
        2 => "2",
        3 => "3",
        4 => "4",
        5 => "5",
        6 => "6",
        7 => "7",
        8 => "8",
        _ => "9",
    };
    proof {
        assert(r@ =~= seq![digit_char(d as nat)]);
    }
    r
}

/// Renders a number in decimal.
pub fn u64_string(n: u64) -> (s: String)
    ensures
        s@ == decimal_seq(n as nat),
    decreases n,
{
    if n < 10 {
        digit_str(n).to_owned()
    } else {
        let mut s = u64_string(n / 10);
        s.append(digit_str(n % 10));
        s
    }
}

/// The decimal representation of a signed number.
pub open spec fn signed_decimal_seq(n: int) -> Seq<char> {
    if n >= 0 {
        decimal_seq(n as nat)
    } else {
        "-"@ + decimal_seq((-n) as nat)
    }
}

/// Renders a signed number in decimal.
pub fn i64_string(n: i64) -> (s: String)
    ensures
        s@ == signed_decimal_seq(n as int),
{
    if n >= 0 {
        u64_string(n as u64)
    } else {
        let mag: u64 = ((-(n + 1)) as u64) + 1;
        proof {
            assert(mag == (-(n as int)) as nat);
        }
        let digits = u64_string(mag);
        let mut s = "-".to_owned();
        s.append(digits.as_str());
        s
    }
}

/// The message reported when an HTTP exchange completes with a failing
/// status: the status code followed by the raw body.
pub open spec fn http_failure_message(status: u16, body: Seq<char>) -> Seq<char> {
    "HTTP "@ + decimal_seq(status as nat) + ": "@ + body
}

/// The status-code policy every transport helper shares: exactly one
/// status is success and hands the raw body on for decoding; every other
/// status is a service failure whose message embeds the status code and
/// the raw body.
pub fn require_ok(status: u16, body: String) -> (r: Result<String, Error>)
    ensures
        status == OK_STATUS ==> r == Ok::<String, Error>(body),
        status != OK_STATUS ==> r is Err && r->Err_0.is_service()
            && r->Err_0.message_seq() == http_failure_message(status, body@),
{
    if status == OK_STATUS {
        Ok(body)
    } else {
        let digits = u64_string(status as u64);
        let mut m = "HTTP ".to_owned();
        m.append(digits.as_str());
        m.append(": ");
        m.append(body.as_str());
        Err(Error::service(m))
    }
}

/// Whether a status code counts as success; liveness and readiness probes
/// are decided by this alone.
pub fn status_is_ok(status: u16) -> (r: bool)
    ensures
        r == (status == OK_STATUS),
{
    status == OK_STATUS
}

/// Joins a box's base URL with an endpoint path.
pub fn join_url(base: &str, path: &str) -> (r: String)
    ensures
        r@ == base@ + path@,
{
    let mut s = base.to_owned();
    s.append(path);
    s
}

/// The bare acknowledgement envelope: a success flag and an optional error
/// string, with no payload fields.
#[derive(Debug, Clone, PartialEq)]
pub struct RawBoxResponse {
    pub success: bool,
    pub error: Option<String>,
}

impl RawBoxResponse {
    /// The message this envelope reports on failure.
    pub open spec fn message_seq(&self) -> Seq<char> {
        match self.error {
            Some(m) => m@,
            None => "Request failed"@,
        }
    }

    /// Collapses the acknowledgement to `Ok(())` or a service failure, by
    /// the uniform envelope rule.
    pub fn into_result(self) -> (r: Result<(), Error>)
        ensures
            self.success ==> r is Ok,
            !self.success ==> r is Err && r->Err_0.is_service()
                && r->Err_0.message_seq() == self.message_seq(),
    {
        let h = Header {
            success: Field::Present(self.success),
            error: match self.error {
                Some(m) => Field::Present(m),
                None => Field::Absent,
            },
        };
        decode_payload(h, Field::Present(()))
    }
}

/// A form payload carrying a single URL parameter.
#[derive(Debug, Clone, PartialEq)]
pub struct URLWrapper {
    pub url: String,
}

/// Names what `String::from_utf8_lossy` makes of a byte sequence; the text
/// depends on the bytes alone.
pub uninterp spec fn utf8_lossy_text(bytes: Seq<u8>) -> Seq<char>;

/// Relies on `String::from_utf8_lossy`: decodes bytes as UTF-8, replacing
/// invalid sequences; used only to embed a non-text body in a message.
#[verifier::external_body]
fn utf8_lossy(bytes: &Vec<u8>) -> (s: String)
    ensures
        s@ == utf8_lossy_text(bytes@),
{
    String::from_utf8_lossy(bytes).into_owned()
}

/// Appends a whole blob to a sink, reporting exactly how many bytes were
/// written.
pub fn write_blob(sink: &mut Vec<u8>, body: &Vec<u8>) -> (count: u64)
    ensures
        final(sink)@ == old(sink)@ + body@,
        count == body@.len(),
{
    let mut i: usize = 0;
    while i < body.len()
        invariant
            i <= body@.len(),
            sink@ == old(sink)@ + body@.subrange(0, i as int),
        decreases body@.len() - i,
    {
        sink.push(body[i]);
        i = i + 1;
        proof {
            assert(sink@ =~= old(sink)@ + body@.subrange(0, i as int));
        }
    }
    proof {
        assert(body@.subrange(0, i as int) =~= body@);
    }
    body.len() as u64
}

/// One blob download, decided: a success status writes the whole body to
/// the sink and reports the byte count; any other status leaves the sink
/// untouched and fails with the shared status-policy message.
pub fn accept_download(status: u16, body: Vec<u8>, sink: &mut Vec<u8>) -> (r: Result<
    u64,
    Error,
>)
    ensures
        status == OK_STATUS ==> r is Ok && r->Ok_0 == body@.len()
            && final(sink)@ == old(sink)@ + body@,
        status != OK_STATUS ==> final(sink)@ == old(sink)@ && r is Err
            && r->Err_0.is_service()
            && r->Err_0.message_seq() == http_failure_message(status, utf8_lossy_text(body@)),
{
    if status == OK_STATUS {
        let count = write_blob(sink, &body);
        Ok(count)
    } else {
        let text = utf8_lossy(&body);
        match require_ok(status, text) {
            Ok(_) => Err(Error::service("Request failed".to_owned())),
            Err(e) => Err(e),
        }
    }
}

} // verus!
