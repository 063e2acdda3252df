//! The ways a request can fail, and the message each failure carries.

use vstd::prelude::*;
use vstd::string::*;
use crate::text::{decimal, decimal_string};

verus! {

/// The two requests this library knows.
#[derive(Debug, Clone, Copy, PartialEq, Eq, Structural)]
pub enum RequestKind {
    /// Audio sent for transcription or translation.
    Transcription,
    /// A query for the provider's models.
    ModelList,
}

/// A failed transcription or model listing.
#[derive(Debug, Clone, PartialEq, Eq)]
pub enum SttError {
    /// The API key cannot stand in an `Authorization` header.
    HeaderConstruction { detail: String },
    /// The HTTP client could not be set up.
    ClientBuild { detail: String },
    /// The audio container could not be written.
    Encoding { detail: String },
    /// The audio could not be attached to the form.
    Multipart { detail: String },
    /// The request did not reach the provider, or no answer came back.
    Network { request: RequestKind, detail: String },
    /// The provider answered with a status outside the 2xx range.
    HttpStatus { request: RequestKind, status: u16, body: String },
    /// The provider's answer does not have the expected shape.
    ResponseParse { request: RequestKind, detail: String },
}

/// A failure as a mathematical value: the same cases, with texts as sequences
/// of characters.
pub enum Failure {
    HeaderConstruction { detail: Seq<char> },
    ClientBuild { detail: Seq<char> },
    Encoding { detail: Seq<char> },
    Multipart { detail: Seq<char> },
    Network { request: RequestKind, detail: Seq<char> },
    HttpStatus { request: RequestKind, status: u16, body: Seq<char> },
    ResponseParse { request: RequestKind, detail: Seq<char> },
}

impl View for SttError {
    type V = Failure;

    open spec fn view(&self) -> Failure {
        match *self {
            SttError::HeaderConstruction { detail } => Failure::HeaderConstruction {
                detail: detail@,
            },
            SttError::ClientBuild { detail } => Failure::ClientBuild { detail: detail@ },
            SttError::Encoding { detail } => Failure::Encoding { detail: detail@ },
            SttError::Multipart { detail } => Failure::Multipart { detail: detail@ },
            SttError::Network { request, detail } => Failure::Network { request, detail: detail@ },
            SttError::HttpStatus { request, status, body } => Failure::HttpStatus {
                request,
                status,
                body: body@,
            },
            SttError::ResponseParse { request, detail } => Failure::ResponseParse {
                request,
                detail: detail@,
            },
        }
    }
}

/// The reason phrase that HTTP registers for a status code, where it
/// registers one.
pub uninterp spec fn status_reason(code: u16) -> Option<Seq<char>>;

/// The phrase shown after a status code.
pub open spec fn reason_phrase(code: u16) -> Seq<char> {
    if 100 <= code <= 999 && status_reason(code) is Some {
        status_reason(code)->0
    } else {
        "<unknown status code>"@
    }
}

/// A status as it is shown in messages: the code in decimal, a space, and
/// the reason phrase.
pub open spec fn status_text(code: u16) -> Seq<char> {
    decimal(code as nat) + " "@ + reason_phrase(code)
}

/// Looks a status code up with `reqwest::StatusCode::from_u16` and
/// `StatusCode::canonical_reason`. Trusted: the phrase is the one the `http`
/// crate's table holds for the code, and there is none where the table has no
/// entry.
#[verifier::external_body]
fn canonical_reason(code: u16) -> (r: Option<&'static str>)
    requires
        100 <= code <= 999,
    ensures
        r matches Some(phrase) ==> status_reason(code) == Some(phrase@),
        r is None ==> status_reason(code) is None,
{
    match reqwest::StatusCode::from_u16(code) {
        Ok(status) => status.canonical_reason(),
        Err(_) => None,
    }
}

/// Renders a status code for a message.
pub fn status_string(code: u16) -> (r: String)
    ensures
        r@ == status_text(code),
{
    let mut text = decimal_string(code);
    text.append(" ");
    let phrase = if 100 <= code && code <= 999 {
        canonical_reason(code)
    } else {
        None
    };
    match phrase {
        Some(p) => text.append(p),
        None => text.append("<unknown status code>"),
    }
    text
}

impl Failure {
    /// The text of the failure.
    pub open spec fn message_text(self) -> Seq<char> {
        match self {
            Failure::HeaderConstruction { detail } => "Invalid authorization header value: "@
                + detail,
            Failure::ClientBuild { detail } => "Failed to build HTTP client: "@ + detail,
            Failure::Encoding { detail } => "Failed to encode WAV data: "@ + detail,
            Failure::Multipart { detail } => "Failed to build multipart file: "@ + detail,
            Failure::Network { request: RequestKind::Transcription, detail } =>
                "HTTP request failed: "@ + detail,
            Failure::Network { request: RequestKind::ModelList, detail } =>
                "Failed to fetch models: "@ + detail,
            Failure::HttpStatus { request: RequestKind::Transcription, status, body } =>
                "Transcription request failed with status "@ + status_text(status) + ": "@ + body,
            Failure::HttpStatus { request: RequestKind::ModelList, status, body } =>
                "Model list request failed ("@ + status_text(status) + "): "@ + body,
            Failure::ResponseParse { request: RequestKind::Transcription, detail } =>
                "Failed to parse transcription response: "@ + detail,
            Failure::ResponseParse { request: RequestKind::ModelList, detail } =>
                "Failed to parse response: "@ + detail,
        }
    }
}

impl SttError {
    /// Renders the failure for people to read.
    pub fn message(&self) -> (r: String)
        ensures
            r@ == self@.message_text(),
    {
        match self {
            SttError::HeaderConstruction { detail } => prefixed(
                "Invalid authorization header value: ",
                detail.as_str(),
            ),
            SttError::ClientBuild { detail } => prefixed(
                "Failed to build HTTP client: ",
                detail.as_str(),
            ),
            SttError::Encoding { detail } => prefixed("Failed to encode WAV data: ", detail.as_str()),
            SttError::Multipart { detail } => prefixed(
                "Failed to build multipart file: ",
                detail.as_str(),
            ),
            SttError::Network { request: RequestKind::Transcription, detail } => prefixed(
                "HTTP request failed: ",
                detail.as_str(),
            ),
            SttError::Network { request: RequestKind::ModelList, detail } => prefixed(
                "Failed to fetch models: ",
                detail.as_str(),
            ),
            SttError::HttpStatus { request: RequestKind::Transcription, status, body } => {
                let mut text = String::from_str("Transcription request failed with status ");
                text.append(status_string(*status).as_str());
                text.append(": ");
                text.append(body.as_str());
                text
            },
            SttError::HttpStatus { request: RequestKind::ModelList, status, body } => {
                let mut text = String::from_str("Model list request failed (");
                text.append(status_string(*status).as_str());
                text.append("): ");
                text.append(body.as_str());
                text
            },
            SttError::ResponseParse { request: RequestKind::Transcription, detail } => prefixed(
                "Failed to parse transcription response: ",
                detail.as_str(),
            ),
            SttError::ResponseParse { request: RequestKind::ModelList, detail } => prefixed(
                "Failed to parse response: ",
                detail.as_str(),
            ),
        }
    }
}

/// `prefix` followed by `rest`.
fn prefixed(prefix: &str, rest: &str) -> (r: String)
    ensures
        r@ == prefix@ + rest@,
{
    let mut text = String::from_str(prefix);
    text.append(rest);
    text
}

/// Whether `part` occurs in `whole` as a run of consecutive characters.
pub open spec fn contains_text(whole: Seq<char>, part: Seq<char>) -> bool {
    exists|at: int|
        0 <= at && at + part.len() <= whole.len() && #[trigger] whole.subrange(
            at,
            at + part.len(),
        ) == part
}

/// The message of a failure status holds the status code and the body that
/// came with it, for both kinds of request.
pub proof fn lemma_status_failure_message_shows_code_and_body(
    request: RequestKind,
    status: u16,
    body: Seq<char>,
)
    ensures
        contains_text(
            (Failure::HttpStatus { request, status, body }).message_text(),
            decimal(status as nat),
        ),
        contains_text((Failure::HttpStatus { request, status, body }).message_text(), body),
{
    let code = decimal(status as nat);
    let m = (Failure::HttpStatus { request, status, body }).message_text();
    let prefix = match request {
        RequestKind::Transcription => "Transcription request failed with status "@,
        RequestKind::ModelList => "Model list request failed ("@,
    };
    assert(m.subrange(prefix.len() as int, (prefix.len() + code.len()) as int) =~= code);
    assert(m.subrange(m.len() - body.len(), m.len() - body.len() + body.len()) =~= body);
}

} // verus!
