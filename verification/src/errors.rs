//! The failure taxonomy of the gateway and its mapping to HTTP replies.

use crate::response::{Body, BodyView, GenericResponse, GenericResponseView, HttpReply, HttpReplyView};
use vstd::prelude::*;
use vstd::string::StringExecFns;

verus! {

/// Everything that can go wrong in the gateway. "No such note" is not among
/// them: the operations return it as a value.
#[derive(Debug, PartialEq)]
pub enum Error {
    /// The store could not be reached or prepared; carries the store's description.
    MongoError(String),
    /// The store failed while executing an operation.
    MongoQueryError(String),
    /// An insert violated the uniqueness constraint on titles.
    MongoDuplicateError(String),
    /// A request body could not be encoded as a document.
    MongoSerializeBsonError(String),
    /// A stored document lacks a required field or holds it with another
    /// type; carries the field's name.
    MongoDataError(String),
    /// The identifier string is not in the store's native format; carries
    /// the offending string.
    InvalidIDError(String),
    /// A page number or a page size that is not positive, or a window that
    /// starts beyond what the store can skip.
    InvalidPaginationError,
}

pub enum ErrorView {
    MongoError(Seq<char>),
    MongoQueryError(Seq<char>),
    MongoDuplicateError(Seq<char>),
    MongoSerializeBsonError(Seq<char>),
    MongoDataError(Seq<char>),
    InvalidIDError(Seq<char>),
    InvalidPaginationError,
}

impl View for Error {
    type V = ErrorView;

    open spec fn view(&self) -> ErrorView {
        match self {
            Error::MongoError(d) => ErrorView::MongoError(d@),
            Error::MongoQueryError(d) => ErrorView::MongoQueryError(d@),
            Error::MongoDuplicateError(d) => ErrorView::MongoDuplicateError(d@),
            Error::MongoSerializeBsonError(d) => ErrorView::MongoSerializeBsonError(d@),
            Error::MongoDataError(d) => ErrorView::MongoDataError(d@),
            Error::InvalidIDError(d) => ErrorView::InvalidIDError(d@),
            Error::InvalidPaginationError => ErrorView::InvalidPaginationError,
        }
    }
}

/// The text that describes an error.
pub open spec fn error_text(e: ErrorView) -> Seq<char> {
    match e {
        ErrorView::MongoError(d) => "mongodb error: "@ + d,
        ErrorView::MongoQueryError(d) => "error during mongodb query: "@ + d,
        ErrorView::MongoDuplicateError(d) => "duplicate key error occurred: "@ + d,
        ErrorView::MongoSerializeBsonError(d) => "could not serialize data: "@ + d,
        ErrorView::MongoDataError(d) => "could not access field in document: "@ + d,
        ErrorView::InvalidIDError(d) => "invalid id used: "@ + d,
        ErrorView::InvalidPaginationError => "invalid pagination"@,
    }
}

/// The HTTP status code that an error is reported with.
pub open spec fn error_code(e: ErrorView) -> int {
    match e {
        ErrorView::MongoError(_) => 500,
        ErrorView::MongoQueryError(_) => 500,
        ErrorView::MongoDuplicateError(_) => 409,
        ErrorView::MongoSerializeBsonError(_) => 500,
        ErrorView::MongoDataError(_) => 400,
        ErrorView::InvalidIDError(_) => 400,
        ErrorView::InvalidPaginationError => 400,
    }
}

/// The message that a client is shown for an error.
pub open spec fn error_message(e: ErrorView) -> Seq<char> {
    match e {
        ErrorView::MongoError(_) => "MongoDB error"@,
        ErrorView::MongoQueryError(_) => "Error during mongodb query"@,
        ErrorView::MongoDuplicateError(_) => "Duplicate key error"@,
        ErrorView::MongoSerializeBsonError(_) => "Error serializing BSON"@,
        ErrorView::MongoDataError(_) => "validation error"@,
        ErrorView::InvalidIDError(raw) => raw,
        ErrorView::InvalidPaginationError => "Invalid pagination"@,
    }
}

/// The code under which the store reports a violated uniqueness constraint.
pub const DUPLICATE_KEY: i32 = 11000;

/// A failure of the store, reduced to what the gateway decides on.
#[derive(Debug, PartialEq)]
pub struct StoreFailure {
    /// The code of the write error, where the failure is one.
    pub code: Option<i32>,
    /// The store's description of the failure.
    pub detail: String,
}

pub struct StoreFailureView {
    pub code: Option<i32>,
    pub detail: Seq<char>,
}

impl View for StoreFailure {
    type V = StoreFailureView;

    open spec fn view(&self) -> StoreFailureView {
        StoreFailureView { code: self.code, detail: self.detail@ }
    }
}

/// How a failed insert is reported: as a duplicate where the store names the
/// uniqueness constraint, as a query failure otherwise.
pub open spec fn insert_error(f: StoreFailureView) -> ErrorView {
    if f.code == Some(DUPLICATE_KEY) {
        ErrorView::MongoDuplicateError(f.detail)
    } else {
        ErrorView::MongoQueryError(f.detail)
    }
}

impl Error {
    /// Classifies the failure of an insert by the store's code, not by the
    /// wording of its message.
    pub fn from_insert_failure(f: StoreFailure) -> (e: Error)
        ensures
            e@ == insert_error(f@),
    {
        match f.code {
            Some(code) => {
                if code == DUPLICATE_KEY {
                    Error::MongoDuplicateError(f.detail)
                } else {
                    Error::MongoQueryError(f.detail)
                }
            },
            None => Error::MongoQueryError(f.detail),
        }
    }

    /// Classifies the failure of any operation but an insert.
    pub fn from_query_failure(f: StoreFailure) -> (e: Error)
        ensures
            e@ == ErrorView::MongoQueryError(f@.detail),
    {
        Error::MongoQueryError(f.detail)
    }

    /// Describes the error in one line.
    pub fn to_string(&self) -> (text: String)
        ensures
            text@ == error_text(self@),
    {
        match self {
            Error::MongoError(d) => String::from_str("mongodb error: ").concat(d.as_str()),
            Error::MongoQueryError(d) => String::from_str("error during mongodb query: ").concat(
                d.as_str(),
            ),
            Error::MongoDuplicateError(d) => String::from_str(
                "duplicate key error occurred: ",
            ).concat(d.as_str()),
            Error::MongoSerializeBsonError(d) => String::from_str(
                "could not serialize data: ",
            ).concat(d.as_str()),
            Error::MongoDataError(d) => String::from_str(
                "could not access field in document: ",
            ).concat(d.as_str()),
            Error::InvalidIDError(d) => String::from_str("invalid id used: ").concat(d.as_str()),
            Error::InvalidPaginationError => String::from_str("invalid pagination"),
        }
    }

    /// The HTTP status code the error is reported with: 409 for a duplicate
    /// title, 400 for what the client got wrong, 500 for the rest.
    pub fn status_code(&self) -> (code: u16)
        ensures
            code as int == error_code(self@),
    {
        match self {
            Error::MongoDuplicateError(_) => 409,
            Error::MongoDataError(_) => 400,
            Error::InvalidIDError(_) => 400,
            Error::InvalidPaginationError => 400,
            _ => 500,
        }
    }
}

/// Why a request was turned away before or while it was handled.
#[derive(Debug, PartialEq)]
pub enum Rejection {
    /// No route matches the request.
    NotFound,
    /// The request body could not be read as the expected schema.
    InvalidBody,
    /// The gateway failed.
    Custom(Error),
    /// The route exists, but not for this method.
    MethodNotAllowed,
    /// Anything else.
    Unhandled,
}

pub enum RejectionView {
    NotFound,
    InvalidBody,
    Custom(ErrorView),
    MethodNotAllowed,
    Unhandled,
}

impl View for Rejection {
    type V = RejectionView;

    open spec fn view(&self) -> RejectionView {
        match self {
            Rejection::NotFound => RejectionView::NotFound,
            Rejection::InvalidBody => RejectionView::InvalidBody,
            Rejection::Custom(e) => RejectionView::Custom(e@),
            Rejection::MethodNotAllowed => RejectionView::MethodNotAllowed,
            Rejection::Unhandled => RejectionView::Unhandled,
        }
    }
}

/// A reply that carries a status word and a message under a status code.
pub open spec fn generic_reply(code: int, status: Seq<char>, message: Seq<char>) -> HttpReplyView {
    HttpReplyView {
        code,
        body: BodyView::Generic(GenericResponseView { status, message }),
    }
}

/// The reply that answers a rejection.
pub open spec fn rejection_reply(r: RejectionView) -> HttpReplyView {
    match r {
        RejectionView::NotFound => generic_reply(
            404,
            "failed"@,
            "Route does not exist on the server"@,
        ),
        RejectionView::InvalidBody => generic_reply(400, "failed"@, "Invalid Body"@),
        RejectionView::Custom(e) => generic_reply(error_code(e), "fail"@, error_message(e)),
        RejectionView::MethodNotAllowed => generic_reply(405, "failed"@, "Method Not Allowed"@),
        RejectionView::Unhandled => generic_reply(500, "error"@, "Internal Server Error"@),
    }
}

fn reply_with(code: u16, status: &str, message: String) -> (reply: HttpReply)
    ensures
        reply@ == generic_reply(code as int, status@, message@),
{
    HttpReply {
        code,
        body: Body::Generic(GenericResponse { status: String::from_str(status), message }),
    }
}

/// Turns a rejection into the reply the client gets: the status code,
/// a status word and a message.
pub fn handle_rejection(err: &Rejection) -> (reply: HttpReply)
    ensures
        reply@ == rejection_reply(err@),
{
    match err {
        Rejection::NotFound => reply_with(
            404,
            "failed",
            String::from_str("Route does not exist on the server"),
        ),
        Rejection::InvalidBody => reply_with(400, "failed", String::from_str("Invalid Body")),
        Rejection::Custom(e) => {
            let message = match e {
                Error::MongoError(_) => String::from_str("MongoDB error"),
                Error::MongoDuplicateError(_) => String::from_str("Duplicate key error"),
                Error::MongoQueryError(_) => String::from_str("Error during mongodb query"),
                Error::MongoSerializeBsonError(_) => String::from_str("Error serializing BSON"),
                Error::MongoDataError(_) => String::from_str("validation error"),
                Error::InvalidIDError(raw) => raw.clone(),
                Error::InvalidPaginationError => String::from_str("Invalid pagination"),
            };
            reply_with(e.status_code(), "fail", message)
        },
        Rejection::MethodNotAllowed => reply_with(
            405,
            "failed",
            String::from_str("Method Not Allowed"),
        ),
        Rejection::Unhandled => reply_with(500, "error", String::from_str("Internal Server Error")),
    }
}

} // verus!
