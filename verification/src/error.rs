//! The error envelope: the taxonomy of failures that a handler can signal, and
//! the one rendering that maps each of them to an HTTP status, a wire body and
//! a log record for the operator.

use crate::text::concatenate;
use vstd::prelude::*;

verus! {

/// Status of a rendered sample error.
pub const IM_A_TEAPOT: u16 = 418;

/// Status of a rendered template failure, and of the serialization fallback.
pub const INTERNAL_SERVER_ERROR: u16 = 500;

/// Status of a rendered validation failure or malformed request.
pub const BAD_REQUEST: u16 = 400;

/// Where an error was raised. It is supplied by the code that raises the error
/// and reaches the operator's log only, never the client.
#[derive(Debug, PartialEq, Eq)]
pub struct CallSite {
    pub file: String,
    pub line: u32,
    pub column: u32,
}

/// The mathematical content of a [`CallSite`].
pub struct CallSiteView {
    pub file: Seq<char>,
    pub line: u32,
    pub column: u32,
}

impl View for CallSite {
    type V = CallSiteView;

    open spec fn view(&self) -> CallSiteView {
        CallSiteView { file: self.file@, line: self.line, column: self.column }
    }
}

impl CallSite {
    /// The call site in `file` at the given line and column.
    pub fn new(file: &str, line: u32, column: u32) -> (r: CallSite)
        ensures
            r@ == (CallSiteView { file: file@, line, column }),
    {
        CallSite { file: file.to_owned(), line, column }
    }

    /// A copy of this call site.
    pub fn duplicate(&self) -> (r: CallSite)
        ensures
            r@ == self@,
    {
        CallSite { file: self.file.clone(), line: self.line, column: self.column }
    }
}

/// A failure that a handler signals. Every variant carries the place where it
/// was raised; all but the first carry the text of the underlying cause.
#[derive(Debug, PartialEq, Eq)]
pub enum AppError {
    SampleError { message: String, location: CallSite },
    TemplateRenderError { location: CallSite, source: String },
    ValidationError { location: CallSite, source: String },
    BadRequestError { location: CallSite, source: String },
}

/// The mathematical content of an [`AppError`].
pub enum ErrorKind {
    SampleError { message: Seq<char>, location: CallSiteView },
    TemplateRenderError { location: CallSiteView, source: Seq<char> },
    ValidationError { location: CallSiteView, source: Seq<char> },
    BadRequestError { location: CallSiteView, source: Seq<char> },
}

impl View for AppError {
    type V = ErrorKind;

    open spec fn view(&self) -> ErrorKind {
        match self {
            AppError::SampleError { message, location } => ErrorKind::SampleError {
                message: message@,
                location: location@,
            },
            AppError::TemplateRenderError { location, source } => ErrorKind::TemplateRenderError {
                location: location@,
                source: source@,
            },
            AppError::ValidationError { location, source } => ErrorKind::ValidationError {
                location: location@,
                source: source@,
            },
            AppError::BadRequestError { location, source } => ErrorKind::BadRequestError {
                location: location@,
                source: source@,
            },
        }
    }
}

impl ErrorKind {
    /// The stable identifier of the kind, as it appears on the wire.
    pub open spec fn name(self) -> Seq<char> {
        match self {
            ErrorKind::SampleError { .. } => "SampleError"@,
            ErrorKind::TemplateRenderError { .. } => "TemplateRenderError"@,
            ErrorKind::ValidationError { .. } => "ValidationError"@,
            ErrorKind::BadRequestError { .. } => "BadRequestError"@,
        }
    }

    /// The HTTP status that the kind is rendered with.
    pub open spec fn status(self) -> u16 {
        match self {
            ErrorKind::SampleError { .. } => IM_A_TEAPOT,
            ErrorKind::TemplateRenderError { .. } => INTERNAL_SERVER_ERROR,
            ErrorKind::ValidationError { .. } => BAD_REQUEST,
            ErrorKind::BadRequestError { .. } => BAD_REQUEST,
        }
    }

    /// The display string: a fixed prefix for the kind, then the caller's
    /// message or the text of the cause. It is the message shown to the client.
    pub open spec fn display(self) -> Seq<char> {
        match self {
            ErrorKind::SampleError { message, .. } => "Sample error: "@ + message,
            ErrorKind::TemplateRenderError { source, .. } => "Template error: "@ + source,
            ErrorKind::ValidationError { source, .. } => "Validation error: "@ + source,
            ErrorKind::BadRequestError { source, .. } => "Form rejection: "@ + source,
        }
    }

    /// The text of the underlying cause, where there is one.
    pub open spec fn source(self) -> Option<Seq<char>> {
        match self {
            ErrorKind::SampleError { .. } => None,
            ErrorKind::TemplateRenderError { source, .. } => Some(source),
            ErrorKind::ValidationError { source, .. } => Some(source),
            ErrorKind::BadRequestError { source, .. } => Some(source),
        }
    }

    /// The place where the error was raised.
    pub open spec fn location(self) -> CallSiteView {
        match self {
            ErrorKind::SampleError { location, .. } => location,
            ErrorKind::TemplateRenderError { location, .. } => location,
            ErrorKind::ValidationError { location, .. } => location,
            ErrorKind::BadRequestError { location, .. } => location,
        }
    }

    /// The same error, raised at `location` instead.
    pub open spec fn at(self, location: CallSiteView) -> ErrorKind {
        match self {
            ErrorKind::SampleError { message, .. } => ErrorKind::SampleError { message, location },
            ErrorKind::TemplateRenderError { source, .. } => ErrorKind::TemplateRenderError {
                location,
                source,
            },
            ErrorKind::ValidationError { source, .. } => ErrorKind::ValidationError {
                location,
                source,
            },
            ErrorKind::BadRequestError { source, .. } => ErrorKind::BadRequestError {
                location,
                source,
            },
        }
    }

    /// The wire-visible part of the error.
    pub open spec fn response(self) -> ErrorRespView {
        ErrorRespView { name: self.name(), message: self.display() }
    }

    /// The record that rendering the error hands to the operator's log.
    pub open spec fn record(self) -> LogRecordView {
        LogRecordView { location: self.location(), error: self.display(), source: self.source() }
    }
}

/// The name and message of an error, as the client sees them.
#[derive(Debug, PartialEq, Eq)]
pub struct ErrorDetails {
    pub name: &'static str,
    pub message: String,
}

/// The body of an error response: `{"error": {"name": .., "message": ..}}`.
#[derive(Debug, PartialEq, Eq)]
pub struct ErrorResp {
    pub error: ErrorDetails,
}

/// The mathematical content of an [`ErrorResp`].
pub struct ErrorRespView {
    pub name: Seq<char>,
    pub message: Seq<char>,
}

impl View for ErrorResp {
    type V = ErrorRespView;

    open spec fn view(&self) -> ErrorRespView {
        ErrorRespView { name: self.error.name@, message: self.error.message@ }
    }
}

/// What one rendering tells the operator: where the error was raised, its
/// display string and the text of its cause.
#[derive(Debug, PartialEq, Eq)]
pub struct LogRecord {
    pub location: CallSite,
    pub error: String,
    pub source: Option<String>,
}

/// The mathematical content of a [`LogRecord`].
pub struct LogRecordView {
    pub location: CallSiteView,
    pub error: Seq<char>,
    pub source: Option<Seq<char>>,
}

impl View for LogRecord {
    type V = LogRecordView;

    open spec fn view(&self) -> LogRecordView {
        LogRecordView {
            location: self.location@,
            error: self.error@,
            source: match self.source {
                Some(s) => Some(s@),
                None => None,
            },
        }
    }
}

/// An error as rendered: the status, the body, and the log record that is to be
/// emitted before the response leaves.
#[derive(Debug, PartialEq, Eq)]
pub struct Rendered {
    pub status: u16,
    pub resp: ErrorResp,
    pub record: LogRecord,
}

/// A response ready for the HTTP layer.
#[derive(Debug, PartialEq, Eq)]
pub struct HttpResponse {
    pub status: u16,
    pub content_type: &'static str,
    pub body: String,
}

/// The mathematical content of a [`HttpResponse`].
pub struct HttpResponseView {
    pub status: u16,
    pub content_type: Seq<char>,
    pub body: Seq<char>,
}

impl View for HttpResponse {
    type V = HttpResponseView;

    open spec fn view(&self) -> HttpResponseView {
        HttpResponseView {
            status: self.status,
            content_type: self.content_type@,
            body: self.body@,
        }
    }
}

/// The response for an error of kind `kind`, given the outcome of serializing
/// its body: the serialized body under the kind's status, or, where the body
/// could not be serialized, a fixed plain-text 500.
pub open spec fn response_for(kind: ErrorKind, serialized: Option<Seq<char>>) -> HttpResponseView {
    match serialized {
        Some(json) => HttpResponseView {
            status: kind.status(),
            content_type: "application/json"@,
            body: json,
        },
        None => HttpResponseView {
            status: INTERNAL_SERVER_ERROR,
            content_type: "text/plain; charset=utf-8"@,
            body: "Internal Server Error"@,
        },
    }
}

impl AppError {
    /// The stable identifier of the error's kind.
    pub fn name(&self) -> (r: &'static str)
        ensures
            r@ == self@.name(),
    {
        match self {
            AppError::SampleError { .. } => "SampleError",
            AppError::TemplateRenderError { .. } => "TemplateRenderError",
            AppError::ValidationError { .. } => "ValidationError",
            AppError::BadRequestError { .. } => "BadRequestError",
        }
    }

    /// The HTTP status that the error is rendered with.
    pub fn status(&self) -> (r: u16)
        ensures
            r == self@.status(),
    {
        match self {
            AppError::SampleError { .. } => IM_A_TEAPOT,
            AppError::TemplateRenderError { .. } => INTERNAL_SERVER_ERROR,
            AppError::ValidationError { .. } => BAD_REQUEST,
            AppError::BadRequestError { .. } => BAD_REQUEST,
        }
    }

    /// The display string of the error.
    pub fn to_string(&self) -> (r: String)
        ensures
            r@ == self@.display(),
    {
        match self {
            AppError::SampleError { message, .. } => concatenate("Sample error: ", message.as_str()),
            AppError::TemplateRenderError { source, .. } => concatenate(
                "Template error: ",
                source.as_str(),
            ),
            AppError::ValidationError { source, .. } => concatenate(
                "Validation error: ",
                source.as_str(),
            ),
            AppError::BadRequestError { source, .. } => concatenate("Form rejection: ", source.as_str()),
        }
    }

    /// The text of the underlying cause, where there is one.
    pub fn source(&self) -> (r: Option<String>)
        ensures
            match r {
                Some(s) => self@.source() == Some(s@),
                None => self@.source() is None,
            },
    {
        match self {
            AppError::SampleError { .. } => None,
            AppError::TemplateRenderError { source, .. } => Some(source.clone()),
            AppError::ValidationError { source, .. } => Some(source.clone()),
            AppError::BadRequestError { source, .. } => Some(source.clone()),
        }
    }

    /// The place where the error was raised.
    pub fn location(&self) -> (r: &CallSite)
        ensures
            r@ == self@.location(),
    {
        match self {
            AppError::SampleError { location, .. } => location,
            AppError::TemplateRenderError { location, .. } => location,
            AppError::ValidationError { location, .. } => location,
            AppError::BadRequestError { location, .. } => location,
        }
    }

    /// Renders the error: the status of its kind, the body with the kind's name
    /// and the display string, and the record for the log. The body never
    /// depends on the call site.
    pub fn to_response(&self) -> (r: Rendered)
        ensures
            r.status == self@.status(),
            r.resp@ == self@.response(),
            r.record@ == self@.record(),
    {
        let resp = Self::error_resp(self.name(), self.to_string());
        let (status, location) = match self {
            AppError::SampleError { location, .. } => (IM_A_TEAPOT, location),
            AppError::TemplateRenderError { location, .. } => (INTERNAL_SERVER_ERROR, location),
            AppError::ValidationError { location, .. } => (BAD_REQUEST, location),
            AppError::BadRequestError { location, .. } => (BAD_REQUEST, location),
        };
        let record = LogRecord {
            location: location.duplicate(),
            error: self.to_string(),
            source: self.source(),
        };
        Rendered { status, resp, record }
    }

    /// The body with the given name and message.
    pub fn error_resp(error_name: &'static str, message: String) -> (r: ErrorResp)
        ensures
            r@ == (ErrorRespView { name: error_name@, message: message@ }),
    {
        ErrorResp { error: ErrorDetails { name: error_name, message } }
    }

    /// The final response, given the outcome of serializing the body: `Some`
    /// with the JSON text, or `None` where serialization failed. It is total:
    /// a failed serialization yields the fixed plain-text 500.
    pub fn into_response(&self, serialized: Option<String>) -> (r: HttpResponse)
        ensures
            r@ == response_for(
                self@,
                match serialized {
                    Some(json) => Some(json@),
                    None => None,
                },
            ),
    {
        match serialized {
            Some(json) => HttpResponse {
                status: self.status(),
                content_type: "application/json",
                body: json,
            },
            None => HttpResponse {
                status: INTERNAL_SERVER_ERROR,
                content_type: "text/plain; charset=utf-8",
                body: "Internal Server Error".to_owned(),
            },
        }
    }
}

/// A sample error with the caller's message, raised at `location`.
pub fn sample_error(message: String, location: CallSite) -> (e: AppError)
    ensures
        e@ == (ErrorKind::SampleError { message: message@, location: location@ }),
{
    AppError::SampleError { message, location }
}

/// The error for a template that failed to render; `source` is the text of the
/// render failure.
pub fn template_error(location: CallSite, source: String) -> (e: AppError)
    ensures
        e@ == (ErrorKind::TemplateRenderError { location: location@, source: source@ }),
{
    AppError::TemplateRenderError { location, source }
}

/// The error for a form that failed validation; `source` is the text of the
/// validation failure.
pub fn validation_error(location: CallSite, source: String) -> (e: AppError)
    ensures
        e@ == (ErrorKind::ValidationError { location: location@, source: source@ }),
{
    AppError::ValidationError { location, source }
}

/// The error for a form or body that could not be decoded; `source` is the text
/// of the decode failure.
pub fn axum_form_rejection(location: CallSite, source: String) -> (e: AppError)
    ensures
        e@ == (ErrorKind::BadRequestError { location: location@, source: source@ }),
{
    AppError::BadRequestError { location, source }
}

/// A sample error is rendered as a teapot under the name `SampleError`,
/// whatever its message and call site.
pub proof fn lemma_sample_error_is_teapot(message: Seq<char>, location: CallSiteView)
    ensures
        (ErrorKind::SampleError { message, location }).status() == 418,
        (ErrorKind::SampleError { message, location }).response().name == "SampleError"@,
        (ErrorKind::SampleError { message, location }).response().message == "Sample error: "@
            + message,
{
}

/// A template failure is rendered with status 500, and what the client receives
/// is the same wherever the failure was raised: the body is made of the cause
/// alone.
pub proof fn lemma_template_failure_hides_call_site(
    source: Seq<char>,
    raised: CallSiteView,
    elsewhere: CallSiteView,
)
    ensures
        (ErrorKind::TemplateRenderError { location: raised, source }).status() == 500,
        (ErrorKind::TemplateRenderError { location: raised, source }).response() == (
        ErrorKind::TemplateRenderError { location: elsewhere, source }).response(),
        (ErrorKind::TemplateRenderError { location: raised, source }).response().message
            == "Template error: "@ + source,
{
}

/// The call site never reaches the client: an error raised elsewhere is
/// rendered with the same status and the same body. Only the log record tells
/// the two apart.
pub proof fn lemma_client_never_sees_call_site(kind: ErrorKind, elsewhere: CallSiteView)
    ensures
        kind.at(elsewhere).status() == kind.status(),
        kind.at(elsewhere).response() == kind.response(),
        forall|serialized: Option<Seq<char>>|
            response_for(kind.at(elsewhere), serialized) == response_for(kind, serialized),
        kind.at(elsewhere).record().location == elsewhere,
{
}

/// The name is a stable identifier of the kind: two errors have the same name
/// exactly where they are of the same kind.
pub proof fn lemma_names_tell_kinds_apart(a: ErrorKind, b: ErrorKind)
    ensures
        a.name() == b.name() <==> {
            ||| a is SampleError && b is SampleError
            ||| a is TemplateRenderError && b is TemplateRenderError
            ||| a is ValidationError && b is ValidationError
            ||| a is BadRequestError && b is BadRequestError
        },
{
    reveal_strlit("SampleError");
    reveal_strlit("TemplateRenderError");
    reveal_strlit("ValidationError");
    reveal_strlit("BadRequestError");
    assert("SampleError"@.len() == 11);
    assert("TemplateRenderError"@.len() == 19);
    assert("ValidationError"@.len() == 15);
    assert("BadRequestError"@.len() == 15);
    assert("ValidationError"@[0] != "BadRequestError"@[0]);
}

/// A validation failure is rendered with status 400 and a message that is never
/// empty, whatever the failed fields were.
pub proof fn lemma_validation_failure_is_bad_request(source: Seq<char>, location: CallSiteView)
    ensures
        (ErrorKind::ValidationError { location, source }).status() == 400,
        (ErrorKind::ValidationError { location, source }).response().name == "ValidationError"@,
        (ErrorKind::ValidationError { location, source }).response().message.len() > 0,
{
    reveal_strlit("Validation error: ");
}

} // verus!
