//! The failures of the service, what each one says in the log, and the
//! status and message that a client gets for it.
use crate::decimal::{append_decimal, decimal, ParseFailure};
use crate::status;
use vstd::prelude::*;
use vstd::string::*;

verus! {

/// An identity that cannot be read, or that differs from the one it has to
/// match.
#[derive(Debug, Clone, Copy, PartialEq, Eq, Structural)]
pub struct InvalidId;

impl InvalidId {
    pub fn to_string(&self) -> (r: String)
        ensures
            r@ == "Invalid id"@,
    {
        String::from_str("Invalid id")
    }
}

/// What the moderation service answered when it refused a text.
#[derive(Debug)]
pub struct APILayerError {
    pub status: u16,
    pub message: String,
}

pub struct APILayerErrorView {
    pub status: int,
    pub message: Seq<char>,
}

impl APILayerErrorView {
    pub open spec fn display(self) -> Seq<char> {
        "Status: "@ + decimal(self.status as nat) + ", Message: "@ + self.message
    }
}

impl View for APILayerError {
    type V = APILayerErrorView;

    open spec fn view(&self) -> APILayerErrorView {
        APILayerErrorView { status: self.status as int, message: self.message@ }
    }
}

impl Clone for APILayerError {
    fn clone(&self) -> (r: Self)
        ensures
            r@ == self@,
    {
        APILayerError { status: self.status, message: self.message.clone() }
    }
}

impl APILayerError {
    pub fn to_string(&self) -> (r: String)
        ensures
            r@ == self@.display(),
    {
        let mut out = String::from_str("Status: ");
        append_decimal(&mut out, self.status as u64);
        out.append(", Message: ");
        out.append(self.message.as_str());
        out
    }
}

/// Every way in which a request can fail.
#[derive(Debug)]
pub enum Error {
    /// The transport refused a cross-origin request; the text is its message.
    CORSForbidden(String),
    /// The transport could not decode the request body; the text is its
    /// message.
    BodyDeserializeError(String),
    /// A pagination parameter is not a number.
    ParseError(ParseFailure),
    InvalidId(InvalidId),
    /// A pair of parameters that has to be there is not.
    MissingParameters,
    /// The lower bound of a page is above the upper one.
    StartGreaterThanEnd,
    QuestionNotFound,
    QuestionAlreadyExists,
    /// The store failed; the cause stays in the log.
    DatabaseQueryError,
    /// The moderation service gave no usable answer; the text says why.
    ExternalAPIError(String),
    /// The moderation service refused the request as wrong.
    ClientError(APILayerError),
    /// The moderation service failed on its side.
    ServerError(APILayerError),
}

pub enum ErrorView {
    CORSForbidden(Seq<char>),
    BodyDeserializeError(Seq<char>),
    ParseError(ParseFailure),
    InvalidId,
    MissingParameters,
    StartGreaterThanEnd,
    QuestionNotFound,
    QuestionAlreadyExists,
    DatabaseQueryError,
    ExternalAPIError(Seq<char>),
    ClientError(APILayerErrorView),
    ServerError(APILayerErrorView),
}

impl View for Error {
    type V = ErrorView;

    open spec fn view(&self) -> ErrorView {
        match self {
            Error::CORSForbidden(m) => ErrorView::CORSForbidden(m@),
            Error::BodyDeserializeError(m) => ErrorView::BodyDeserializeError(m@),
            Error::ParseError(e) => ErrorView::ParseError(*e),
            Error::InvalidId(_) => ErrorView::InvalidId,
            Error::MissingParameters => ErrorView::MissingParameters,
            Error::StartGreaterThanEnd => ErrorView::StartGreaterThanEnd,
            Error::QuestionNotFound => ErrorView::QuestionNotFound,
            Error::QuestionAlreadyExists => ErrorView::QuestionAlreadyExists,
            Error::DatabaseQueryError => ErrorView::DatabaseQueryError,
            Error::ExternalAPIError(m) => ErrorView::ExternalAPIError(m@),
            Error::ClientError(e) => ErrorView::ClientError(e@),
            Error::ServerError(e) => ErrorView::ServerError(e@),
        }
    }
}

/// A result as contracts speak of it: the view of the value, or the view of
/// the failure.
pub open spec fn outcome<T: View>(r: Result<T, Error>) -> Result<T::V, ErrorView> {
    match r {
        Ok(v) => Ok(v@),
        Err(e) => Err(e@),
    }
}

/// How loud a failure is in the log.
#[derive(Debug, Clone, Copy, PartialEq, Eq, Structural)]
pub enum Severity {
    /// The client made a mistake.
    Warn,
    /// The service or something behind it is at fault.
    Error,
}

impl ErrorView {
    /// The line that the log gets, with the detail that a client never sees.
    pub open spec fn display(self) -> Seq<char> {
        match self {
            ErrorView::CORSForbidden(m) => "CORS error: "@ + m,
            ErrorView::BodyDeserializeError(m) => "Body deserialize error: "@ + m,
            ErrorView::ParseError(e) => "Parse error: "@ + e.message(),
            ErrorView::InvalidId => "Invalid id: "@ + "Invalid id"@,
            ErrorView::MissingParameters => "Missing parameters"@,
            ErrorView::StartGreaterThanEnd => "Start cannot be greater than end"@,
            ErrorView::QuestionNotFound => "Question not found"@,
            ErrorView::QuestionAlreadyExists => "Question already exists"@,
            ErrorView::DatabaseQueryError => "Query could not be executed"@,
            ErrorView::ExternalAPIError(m) => "External API error: "@ + m,
            ErrorView::ClientError(e) => "External Client error: "@ + e.display(),
            ErrorView::ServerError(e) => "External Server error: "@ + e.display(),
        }
    }

    /// A failure of the store or of the moderation service is the service's
    /// fault, every other one the client's.
    pub open spec fn severity(self) -> Severity {
        match self {
            ErrorView::DatabaseQueryError => Severity::Error,
            ErrorView::ExternalAPIError(_) => Severity::Error,
            ErrorView::ServerError(_) => Severity::Error,
            _ => Severity::Warn,
        }
    }
}

impl Error {
    pub fn to_string(&self) -> (r: String)
        ensures
            r@ == self@.display(),
    {
        match self {
            Error::CORSForbidden(m) => String::from_str("CORS error: ").concat(m.as_str()),
            Error::BodyDeserializeError(m) => String::from_str("Body deserialize error: ").concat(
                m.as_str(),
            ),
            Error::ParseError(e) => {
                let detail = e.to_string();
                String::from_str("Parse error: ").concat(detail.as_str())
            },
            Error::InvalidId(e) => {
                let detail = e.to_string();
                String::from_str("Invalid id: ").concat(detail.as_str())
            },
            Error::MissingParameters => String::from_str("Missing parameters"),
            Error::StartGreaterThanEnd => String::from_str("Start cannot be greater than end"),
            Error::QuestionNotFound => String::from_str("Question not found"),
            Error::QuestionAlreadyExists => String::from_str("Question already exists"),
            Error::DatabaseQueryError => String::from_str("Query could not be executed"),
            Error::ExternalAPIError(m) => String::from_str("External API error: ").concat(
                m.as_str(),
            ),
            Error::ClientError(e) => {
                let detail = e.to_string();
                String::from_str("External Client error: ").concat(detail.as_str())
            },
            Error::ServerError(e) => {
                let detail = e.to_string();
                String::from_str("External Server error: ").concat(detail.as_str())
            },
        }
    }

    pub fn severity(&self) -> (r: Severity)
        ensures
            r == self@.severity(),
    {
        match self {
            Error::DatabaseQueryError => Severity::Error,
            Error::ExternalAPIError(_) => Severity::Error,
            Error::ServerError(_) => Severity::Error,
            _ => Severity::Warn,
        }
    }
}

/// What a client is told about a failed request.
#[derive(Debug)]
pub struct ErrorReply {
    pub status: u16,
    pub message: String,
}

/// The status for a failure, and for a rejection that holds none (`None`).
pub open spec fn status_of(found: Option<ErrorView>) -> int {
    match found {
        Some(ErrorView::CORSForbidden(_)) => status::FORBIDDEN as int,
        Some(ErrorView::BodyDeserializeError(_)) => status::UNPROCESSABLE_ENTITY as int,
        Some(ErrorView::InvalidId) => status::UNPROCESSABLE_ENTITY as int,
        Some(ErrorView::MissingParameters) => status::BAD_REQUEST as int,
        Some(ErrorView::StartGreaterThanEnd) => status::BAD_REQUEST as int,
        Some(ErrorView::ParseError(_)) => status::BAD_REQUEST as int,
        Some(ErrorView::QuestionNotFound) => status::NOT_FOUND as int,
        Some(ErrorView::QuestionAlreadyExists) => status::CONFLICT as int,
        Some(ErrorView::DatabaseQueryError) => status::INTERNAL_SERVER_ERROR as int,
        Some(ErrorView::ExternalAPIError(_)) => status::BAD_GATEWAY as int,
        Some(ErrorView::ClientError(_)) => status::BAD_GATEWAY as int,
        Some(ErrorView::ServerError(_)) => status::BAD_GATEWAY as int,
        None => status::NOT_FOUND as int,
    }
}

/// The message for a failure. Only a refused cross-origin request has its
/// own text repeated; every other message is fixed.
pub open spec fn message_of(found: Option<ErrorView>) -> Seq<char> {
    match found {
        Some(ErrorView::CORSForbidden(m)) => m,
        Some(ErrorView::BodyDeserializeError(_)) => "Body deserialize error"@,
        Some(ErrorView::InvalidId) => "No valid id provided"@,
        Some(ErrorView::MissingParameters) => "Missing parameters"@,
        Some(ErrorView::StartGreaterThanEnd) => "Start cannot be greater than end"@,
        Some(ErrorView::ParseError(_)) => "Parse error"@,
        Some(ErrorView::QuestionNotFound) => "Question not found"@,
        Some(ErrorView::QuestionAlreadyExists) => "Question already exists"@,
        Some(ErrorView::DatabaseQueryError) => "Query could not be executed"@,
        Some(ErrorView::ExternalAPIError(_)) => "External API error"@,
        Some(ErrorView::ClientError(_)) => "External Client error"@,
        Some(ErrorView::ServerError(_)) => "External Server error"@,
        None => "Route not found"@,
    }
}

/// The view of a failure that may be there.
pub open spec fn found_view(found: Option<&Error>) -> Option<ErrorView> {
    match found {
        Some(e) => Some(e@),
        None => None,
    }
}

/// The reply for a rejected request: for the failure found in it, or for a
/// rejection that holds none, which is answered as a route that is not there.
pub fn return_error(found: Option<&Error>) -> (r: ErrorReply)
    ensures
        r.status == status_of(found_view(found)),
        r.message@ == message_of(found_view(found)),
{
    match found {
        Some(Error::CORSForbidden(m)) => ErrorReply {
            status: status::FORBIDDEN,
            message: m.clone(),
        },
        Some(Error::BodyDeserializeError(_)) => ErrorReply {
            status: status::UNPROCESSABLE_ENTITY,
            message: String::from_str("Body deserialize error"),
        },
        Some(Error::InvalidId(_)) => ErrorReply {
            status: status::UNPROCESSABLE_ENTITY,
            message: String::from_str("No valid id provided"),
        },
        Some(Error::MissingParameters) => ErrorReply {
            status: status::BAD_REQUEST,
            message: String::from_str("Missing parameters"),
        },
        Some(Error::StartGreaterThanEnd) => ErrorReply {
            status: status::BAD_REQUEST,
            message: String::from_str("Start cannot be greater than end"),
        },
        Some(Error::ParseError(_)) => ErrorReply {
            status: status::BAD_REQUEST,
            message: String::from_str("Parse error"),
        },
        Some(Error::QuestionNotFound) => ErrorReply {
            status: status::NOT_FOUND,
            message: String::from_str("Question not found"),
        },
        Some(Error::QuestionAlreadyExists) => ErrorReply {
            status: status::CONFLICT,
            message: String::from_str("Question already exists"),
        },
        Some(Error::DatabaseQueryError) => ErrorReply {
            status: status::INTERNAL_SERVER_ERROR,
            message: String::from_str("Query could not be executed"),
        },
        Some(Error::ExternalAPIError(_)) => ErrorReply {
            status: status::BAD_GATEWAY,
            message: String::from_str("External API error"),
        },
        Some(Error::ClientError(_)) => ErrorReply {
            status: status::BAD_GATEWAY,
            message: String::from_str("External Client error"),
        },
        Some(Error::ServerError(_)) => ErrorReply {
            status: status::BAD_GATEWAY,
            message: String::from_str("External Server error"),
        },
        None => ErrorReply {
            status: status::NOT_FOUND,
            message: String::from_str("Route not found"),
        },
    }
}

/// Every reply to a failure has a message. The one reply that repeats a
/// text of the transport has one where that text is not empty.
pub proof fn lemma_reply_has_a_message(found: Option<ErrorView>)
    requires
        found matches Some(ErrorView::CORSForbidden(m)) ==> m.len() > 0,
    ensures
        message_of(found).len() > 0,
{
    reveal_strlit("Body deserialize error");
    reveal_strlit("No valid id provided");
    reveal_strlit("Missing parameters");
    reveal_strlit("Start cannot be greater than end");
    reveal_strlit("Parse error");
    reveal_strlit("Question not found");
    reveal_strlit("Question already exists");
    reveal_strlit("Query could not be executed");
    reveal_strlit("External API error");
    reveal_strlit("External Client error");
    reveal_strlit("External Server error");
    reveal_strlit("Route not found");
}

/// Two failures of one kind, other than a refused cross-origin request, are
/// answered alike: nothing that a failure carries reaches the client.
pub proof fn lemma_reply_hides_detail(a: ErrorView, b: ErrorView)
    requires
        !(a is CORSForbidden),
        a is BodyDeserializeError <==> b is BodyDeserializeError,
        a is ParseError <==> b is ParseError,
        a is InvalidId <==> b is InvalidId,
        a is MissingParameters <==> b is MissingParameters,
        a is StartGreaterThanEnd <==> b is StartGreaterThanEnd,
        a is QuestionNotFound <==> b is QuestionNotFound,
        a is QuestionAlreadyExists <==> b is QuestionAlreadyExists,
        a is DatabaseQueryError <==> b is DatabaseQueryError,
        a is ExternalAPIError <==> b is ExternalAPIError,
        a is ClientError <==> b is ClientError,
        a is ServerError <==> b is ServerError,
    ensures
        status_of(Some(a)) == status_of(Some(b)),
        message_of(Some(a)) == message_of(Some(b)),
{
}

} // verus!
