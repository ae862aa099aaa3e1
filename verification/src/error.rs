//! The errors of the service and what a client gets to see of each.

use vstd::prelude::*;

verus! {

/// Everything that can go wrong while a request is served.
#[derive(Debug)]
pub enum ApplicationError {
    /// Bad credentials, an unknown or expired session, a missing permission.
    Unauthorized,
    /// The request itself is malformed; the text says how.
    BadRequest(String),
    /// The request is understood and refused; the text says why.
    Forbidden(String),
    /// The password hasher failed; the text is its message.
    HashError(String),
    /// The clock could not be read; the text is its message.
    SystemTimeError(String),
    /// The database failed; the text is its message.
    SurrealdbError(String),
    /// The stored data is not what it has to be.
    InternalServerError,
    /// Reading or writing failed; the text is its message.
    IoError(String),
}

/// An `ApplicationError` with its texts as sequences of characters.
pub ghost enum ErrorView {
    Unauthorized,
    BadRequest(Seq<char>),
    Forbidden(Seq<char>),
    HashError(Seq<char>),
    SystemTimeError(Seq<char>),
    SurrealdbError(Seq<char>),
    InternalServerError,
    IoError(Seq<char>),
}

/// The kind of an error, without its text.
pub ghost enum ErrorKind {
    Unauthorized,
    BadRequest,
    Forbidden,
    HashError,
    SystemTimeError,
    SurrealdbError,
    InternalServerError,
    IoError,
}

impl View for ApplicationError {
    type V = ErrorView;

    open spec fn view(&self) -> ErrorView {
        match self {
            ApplicationError::Unauthorized => ErrorView::Unauthorized,
            ApplicationError::BadRequest(m) => ErrorView::BadRequest(m@),
            ApplicationError::Forbidden(m) => ErrorView::Forbidden(m@),
            ApplicationError::HashError(m) => ErrorView::HashError(m@),
            ApplicationError::SystemTimeError(m) => ErrorView::SystemTimeError(m@),
            ApplicationError::SurrealdbError(m) => ErrorView::SurrealdbError(m@),
            ApplicationError::InternalServerError => ErrorView::InternalServerError,
            ApplicationError::IoError(m) => ErrorView::IoError(m@),
        }
    }
}

/// The body of an error response.
#[derive(Debug)]
pub struct ApplicationErrorResponse {
    pub error: String,
}

/// HTTP status of a request that lacks valid credentials.
pub const STATUS_UNAUTHORIZED: u16 = 401;

/// HTTP status of a malformed request.
pub const STATUS_BAD_REQUEST: u16 = 400;

/// HTTP status of a refused request.
pub const STATUS_FORBIDDEN: u16 = 403;

/// HTTP status of a failure inside the service.
pub const STATUS_INTERNAL_SERVER_ERROR: u16 = 500;

impl ErrorView {
    /// The kind of this error.
    pub open spec fn kind(self) -> ErrorKind {
        match self {
            ErrorView::Unauthorized => ErrorKind::Unauthorized,
            ErrorView::BadRequest(_) => ErrorKind::BadRequest,
            ErrorView::Forbidden(_) => ErrorKind::Forbidden,
            ErrorView::HashError(_) => ErrorKind::HashError,
            ErrorView::SystemTimeError(_) => ErrorKind::SystemTimeError,
            ErrorView::SurrealdbError(_) => ErrorKind::SurrealdbError,
            ErrorView::InternalServerError => ErrorKind::InternalServerError,
            ErrorView::IoError(_) => ErrorKind::IoError,
        }
    }

    /// The HTTP status that answers this error.
    pub open spec fn status_code(self) -> u16 {
        match self {
            ErrorView::Unauthorized => STATUS_UNAUTHORIZED,
            ErrorView::BadRequest(_) => STATUS_BAD_REQUEST,
            ErrorView::Forbidden(_) => STATUS_FORBIDDEN,
            _ => STATUS_INTERNAL_SERVER_ERROR,
        }
    }

    /// The text that describes this error in full, as it goes to the log.
    pub open spec fn text(self) -> Seq<char> {
        match self {
            ErrorView::Unauthorized => "Unauthorized"@,
            ErrorView::BadRequest(m) => m,
            ErrorView::Forbidden(m) => m,
            ErrorView::HashError(m) => m,
            ErrorView::SystemTimeError(m) => m,
            ErrorView::SurrealdbError(m) => m,
            ErrorView::InternalServerError => "Internal error occurred"@,
            ErrorView::IoError(m) => m,
        }
    }

    /// The text that the client is shown: the error's own only where it says
    /// nothing of the service's inside.
    pub open spec fn public_text(self) -> Seq<char> {
        match self {
            ErrorView::Unauthorized => "Unauthorized"@,
            ErrorView::BadRequest(m) => m,
            ErrorView::Forbidden(m) => m,
            _ => "Error occurred while processing the request"@,
        }
    }
}

impl ApplicationError {
    /// The HTTP status that answers this error.
    pub fn status_code(&self) -> (code: u16)
        ensures
            code == self@.status_code(),
    {
        match self {
            ApplicationError::Unauthorized => STATUS_UNAUTHORIZED,
            ApplicationError::BadRequest(_) => STATUS_BAD_REQUEST,
            ApplicationError::Forbidden(_) => STATUS_FORBIDDEN,
            _ => STATUS_INTERNAL_SERVER_ERROR,
        }
    }

    /// The text that describes this error in full.
    pub fn to_string(&self) -> (text: String)
        ensures
            text@ == self@.text(),
    {
        match self {
            ApplicationError::Unauthorized => "Unauthorized".to_owned(),
            ApplicationError::BadRequest(m) => m.clone(),
            ApplicationError::Forbidden(m) => m.clone(),
            ApplicationError::HashError(m) => m.clone(),
            ApplicationError::SystemTimeError(m) => m.clone(),
            ApplicationError::SurrealdbError(m) => m.clone(),
            ApplicationError::InternalServerError => "Internal error occurred".to_owned(),
            ApplicationError::IoError(m) => m.clone(),
        }
    }

    /// The status and the body that answer a request which ended in this error.
    /// Nothing of an internal failure reaches the body.
    pub fn into_response(self) -> (response: (u16, ApplicationErrorResponse))
        ensures
            response.0 == self@.status_code(),
            response.1.error@ == self@.public_text(),
    {
        let code = self.status_code();
        let error = match self {
            ApplicationError::Unauthorized => "Unauthorized".to_owned(),
            ApplicationError::BadRequest(m) => m,
            ApplicationError::Forbidden(m) => m,
            _ => "Error occurred while processing the request".to_owned(),
        };
        (code, ApplicationErrorResponse { error })
    }
}

} // verus!
