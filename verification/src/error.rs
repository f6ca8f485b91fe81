//! The service's error values and the HTTP status that answers each of them.

use vstd::prelude::*;

verus! {

/// The category of an [`AppError`], which decides the HTTP status.
#[derive(Clone, Copy, PartialEq, Eq, Debug, Structural)]
pub enum ErrorKind {
    BadRequest,
    Conflict,
    NotFound,
    Unauthorized,
    Internal,
}

/// An error returned to a client: a category and a human-readable message.
#[derive(Debug)]
pub enum AppError {
    BadRequest(String),
    Conflict(String),
    NotFound(String),
    Unauthorized(String),
    Internal(String),
}

/// The HTTP status code that answers an error of the given kind.
pub open spec fn status_of(kind: ErrorKind) -> u16 {
    match kind {
        ErrorKind::BadRequest => 400,
        ErrorKind::Conflict => 409,
        ErrorKind::NotFound => 404,
        ErrorKind::Unauthorized => 401,
        ErrorKind::Internal => 500,
    }
}

impl AppError {
    /// The category of this error.
    pub open spec fn kind(&self) -> ErrorKind {
        match self {
            AppError::BadRequest(_) => ErrorKind::BadRequest,
            AppError::Conflict(_) => ErrorKind::Conflict,
            AppError::NotFound(_) => ErrorKind::NotFound,
            AppError::Unauthorized(_) => ErrorKind::Unauthorized,
            AppError::Internal(_) => ErrorKind::Internal,
        }
    }

    /// The message of this error, as characters.
    pub open spec fn text(&self) -> Seq<char> {
        match self {
            AppError::BadRequest(m) => m@,
            AppError::Conflict(m) => m@,
            AppError::NotFound(m) => m@,
            AppError::Unauthorized(m) => m@,
            AppError::Internal(m) => m@,
        }
    }

    /// The kind and the message of this error.
    pub open spec fn report(&self) -> (ErrorKind, Seq<char>) {
        (self.kind(), self.text())
    }

    /// Whether this error has the given kind and message.
    pub open spec fn is(&self, kind: ErrorKind, text: Seq<char>) -> bool {
        self.kind() == kind && self.text() == text
    }

    /// Builds an error of the given kind carrying a copy of `message`.
    pub fn new(kind: ErrorKind, message: &str) -> (e: AppError)
        ensures
            e.is(kind, message@),
    {
        let m = message.to_owned();
        match kind {
            ErrorKind::BadRequest => AppError::BadRequest(m),
            ErrorKind::Conflict => AppError::Conflict(m),
            ErrorKind::NotFound => AppError::NotFound(m),
            ErrorKind::Unauthorized => AppError::Unauthorized(m),
            ErrorKind::Internal => AppError::Internal(m),
        }
    }

    /// The category of this error.
    pub fn error_kind(&self) -> (k: ErrorKind)
        ensures
            k == self.kind(),
    {
        match self {
            AppError::BadRequest(_) => ErrorKind::BadRequest,
            AppError::Conflict(_) => ErrorKind::Conflict,
            AppError::NotFound(_) => ErrorKind::NotFound,
            AppError::Unauthorized(_) => ErrorKind::Unauthorized,
            AppError::Internal(_) => ErrorKind::Internal,
        }
    }

    /// The message carried by this error.
    pub fn message(&self) -> (m: &String)
        ensures
            m@ == self.text(),
    {
        match self {
            AppError::BadRequest(m) => m,
            AppError::Conflict(m) => m,
            AppError::NotFound(m) => m,
            AppError::Unauthorized(m) => m,
            AppError::Internal(m) => m,
        }
    }

    /// The HTTP status code that answers this error.
    pub fn status_code(&self) -> (c: u16)
        ensures
            c == status_of(self.kind()),
    {
        match self {
            AppError::BadRequest(_) => 400,
            AppError::Conflict(_) => 409,
            AppError::NotFound(_) => 404,
            AppError::Unauthorized(_) => 401,
            AppError::Internal(_) => 500,
        }
    }
}

} // verus!
