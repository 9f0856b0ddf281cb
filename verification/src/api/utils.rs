//! The response envelope shared by every endpoint, and a text utility.

use vstd::prelude::*;
use vstd::std_specs::iter::IteratorSpec;
use vstd::string::StrSliceExecFns;
use crate::models::data::Row;

verus! {

/// The HTTP status of a response.
#[derive(Clone, Copy, Debug, PartialEq, Eq, Structural)]
pub enum Status {
    /// 200: the request succeeded.
    Success,
    /// 400: the payload did not have the expected shape.
    BadRequest,
    /// 401: the caller could not be authenticated.
    Unauthorized,
    /// 404: nothing is stored under the key that was asked for.
    NotFound,
    /// 500: the store or an internal step failed.
    InternalServerError,
}

impl Status {
    /// The number of the status.
    pub open spec fn spec_code(self) -> u16 {
        match self {
            Status::Success => 200,
            Status::BadRequest => 400,
            Status::Unauthorized => 401,
            Status::NotFound => 404,
            Status::InternalServerError => 500,
        }
    }

    /// The number of the status.
    pub fn code(self) -> (code: u16)
        ensures
            code == self.spec_code(),
    {
        match self {
            Status::Success => 200,
            Status::BadRequest => 400,
            Status::Unauthorized => 401,
            Status::NotFound => 404,
            Status::InternalServerError => 500,
        }
    }
}

/// What a successful response carries.
#[derive(Clone, Debug, PartialEq, Eq)]
pub enum Payload {
    /// The state of the service.
    Health { health: String },
    /// The state of the service and the server's time.
    HealthAt { health: String, server_time: String },
    /// A freshly issued token and its type.
    Token { token: String, token_type: String },
    /// Records of one category.
    Rows(Vec<Row>),
}

/// A payload as plain mathematical values.
pub enum PayloadView {
    Health { health: Seq<char> },
    HealthAt { health: Seq<char>, server_time: Seq<char> },
    Token { token: Seq<char>, token_type: Seq<char> },
    Rows(Seq<Row>),
}

impl View for Payload {
    type V = PayloadView;

    open spec fn view(&self) -> PayloadView {
        match self {
            Payload::Health { health } => PayloadView::Health { health: health@ },
            Payload::HealthAt { health, server_time } => PayloadView::HealthAt {
                health: health@,
                server_time: server_time@,
            },
            Payload::Token { token, token_type } => PayloadView::Token {
                token: token@,
                token_type: token_type@,
            },
            Payload::Rows(rows) => PayloadView::Rows(rows@),
        }
    }
}

/// The uniform answer of every endpoint: a status, a message, and either
/// the data (possibly none) or the text of an error, never both.
#[derive(Clone, Debug, PartialEq, Eq)]
pub struct Envelope {
    pub code: Status,
    pub message: String,
    pub data: Option<Payload>,
    pub error: Option<String>,
}

/// An envelope as plain mathematical values.
pub struct EnvelopeView {
    pub code: Status,
    pub message: Seq<char>,
    pub data: Option<PayloadView>,
    pub error: Option<Seq<char>>,
}

impl View for Envelope {
    type V = EnvelopeView;

    open spec fn view(&self) -> EnvelopeView {
        EnvelopeView {
            code: self.code,
            message: self.message@,
            data: match self.data {
                Some(payload) => Some(payload@),
                None => None,
            },
            error: match self.error {
                Some(text) => Some(text@),
                None => None,
            },
        }
    }
}

/// The envelope that reports success with `data`.
pub open spec fn success(code: Status, message: Seq<char>, data: Option<PayloadView>) -> EnvelopeView {
    EnvelopeView { code, message, data, error: None }
}

/// The envelope that reports the error `error`. It carries no data.
pub open spec fn failure(code: Status, message: Seq<char>, error: Seq<char>) -> EnvelopeView {
    EnvelopeView { code, message, data: None, error: Some(error) }
}

/// The words that report a failure of the store or of an internal step.
/// They are the same for every such failure: what failed is for the log,
/// not for the caller.
pub open spec fn internal_error_text() -> Seq<char> {
    "internal server error"@
}

/// Shapes a response. Where an error text is given the envelope reports it
/// and drops the data; otherwise it carries the data, which may be absent.
pub fn response_handler(
    code: Status,
    message: String,
    data: Option<Payload>,
    err: Option<String>,
) -> (envelope: Envelope)
    ensures
        envelope@ == (match err {
            Some(text) => failure(code, message@, text@),
            None => success(
                code,
                message@,
                match data {
                    Some(payload) => Some(payload@),
                    None => None,
                },
            ),
        }),
{
    match err {
        Some(text) => Envelope { code, message, data: None, error: Some(text) },
        None => Envelope { code, message, data, error: None },
    }
}

/// The answer to a request that the store, or an internal step, failed:
/// 500 and the same words for every such failure.
pub fn internal_error() -> (envelope: Envelope)
    ensures
        envelope@ == failure(Status::InternalServerError, "error"@, internal_error_text()),
{
    response_handler(
        Status::InternalServerError,
        "error".to_string(),
        None,
        Some("internal server error".to_string()),
    )
}

/// Whether the Unicode script of `c` is Han, by the tables of the
/// `unicode-script` crate.
pub uninterp spec fn han_script(c: char) -> bool;

/// Calls `unicode_script::Script::from` on the character and compares the
/// script with `Script::Han`.
///
/// Trusted: the answer is the one named by [`han_script`].
#[verifier::external_body]
fn is_han(c: char) -> (han: bool)
    ensures
        han == han_script(c),
{
    unicode_script::Script::from(c) == unicode_script::Script::Han
}

/// The number of Han characters in a text.
pub open spec fn kanji_count(text: Seq<char>) -> nat {
    text.filter(|c: char| han_script(c)).len()
}

/// Counts the Han characters of `s`.
pub fn kanji_len(s: &str) -> (count: usize)
    ensures
        count == kanji_count(s@),
{
    broadcast use vstd::string::group_string_axioms;

    // The count stays below the number of characters, which fits a `usize`.
    let total = s.unicode_len();
    let mut count: usize = 0;
    for c in it: s.chars()
        invariant
            it.seq() == s@,
            total == s@.len(),
            count <= it.index(),
            count == kanji_count(s@.take(it.index())),
    {
        proof {
            let seen = s@.take(it.index());
            assert(s@.take(it.index() + 1).drop_last() == seen);
            reveal(Seq::filter);
        }
        if is_han(c) {
            count = count + 1;
        }
    }
    proof {
        assert(s@.take(s@.len() as int) == s@);
    }
    count
}

} // verus!
