//! The application's error type.
use vstd::prelude::*;

verus! {

/// An error of the application, with a message for the caller.
#[derive(Debug)]
pub enum AppError {
    NotFound(String),
    BadRequest(String),
    Unauthorized(String),
    Forbidden(String),
    Conflict(String),
    Internal(String),
    Database(String),
    Validation(String),
}

/// The variant of an error together with its message.
pub enum ErrorKind {
    NotFound,
    BadRequest,
    Unauthorized,
    Forbidden,
    Conflict,
    Internal,
    Database,
    Validation,
}

impl AppError {
    /// The kind and message of the error, for contracts.
    pub open spec fn kind_and_message(&self) -> (ErrorKind, Seq<char>) {
        match self {
            AppError::NotFound(m) => (ErrorKind::NotFound, m@),
            AppError::BadRequest(m) => (ErrorKind::BadRequest, m@),
            AppError::Unauthorized(m) => (ErrorKind::Unauthorized, m@),
            AppError::Forbidden(m) => (ErrorKind::Forbidden, m@),
            AppError::Conflict(m) => (ErrorKind::Conflict, m@),
            AppError::Internal(m) => (ErrorKind::Internal, m@),
            AppError::Database(m) => (ErrorKind::Database, m@),
            AppError::Validation(m) => (ErrorKind::Validation, m@),
        }
    }

    /// The text that the error displays: the kind's prefix and the message.
    pub fn to_string(&self) -> (r: String)
        ensures
            r@ == error_text(self.kind_and_message().0) + self.kind_and_message().1,
    {
        let (mut out, m) = match self {
            AppError::NotFound(m) => ("Not found: ".to_owned(), m),
            AppError::BadRequest(m) => ("Bad request: ".to_owned(), m),
            AppError::Unauthorized(m) => ("Unauthorized: ".to_owned(), m),
            AppError::Forbidden(m) => ("Forbidden: ".to_owned(), m),
            AppError::Conflict(m) => ("Conflict: ".to_owned(), m),
            AppError::Internal(m) => ("Internal error: ".to_owned(), m),
            AppError::Database(m) => ("Database error: ".to_owned(), m),
            AppError::Validation(m) => ("Validation error: ".to_owned(), m),
        };
        out.append(m.as_str());
        out
    }
}

/// The prefix that each kind of error displays before its message.
pub open spec fn error_text(k: ErrorKind) -> Seq<char> {
    match k {
        ErrorKind::NotFound => "Not found: "@,
        ErrorKind::BadRequest => "Bad request: "@,
        ErrorKind::Unauthorized => "Unauthorized: "@,
        ErrorKind::Forbidden => "Forbidden: "@,
        ErrorKind::Conflict => "Conflict: "@,
        ErrorKind::Internal => "Internal error: "@,
        ErrorKind::Database => "Database error: "@,
        ErrorKind::Validation => "Validation error: "@,
    }
}

/// A message made of a fixed prefix and a detail.
pub fn message(prefix: &str, detail: &str) -> (r: String)
    ensures
        r@ == prefix@ + detail@,
{
    let mut out = prefix.to_owned();
    out.append(detail);
    out
}

/// The HTTP status with which each kind of error is answered.
pub open spec fn status_of(k: ErrorKind) -> u16 {
    match k {
        ErrorKind::NotFound => 404,
        ErrorKind::BadRequest => 400,
        ErrorKind::Validation => 400,
        ErrorKind::Unauthorized => 401,
        ErrorKind::Forbidden => 403,
        ErrorKind::Conflict => 409,
        ErrorKind::Internal => 500,
        ErrorKind::Database => 500,
    }
}

/// The error type named in the body of the answer.
pub open spec fn error_type_of(k: ErrorKind) -> Seq<char> {
    match k {
        ErrorKind::NotFound => "not_found"@,
        ErrorKind::BadRequest => "bad_request"@,
        ErrorKind::Validation => "bad_request"@,
        ErrorKind::Unauthorized => "unauthorized"@,
        ErrorKind::Forbidden => "forbidden"@,
        ErrorKind::Conflict => "conflict"@,
        ErrorKind::Internal => "internal_error"@,
        ErrorKind::Database => "database_error"@,
    }
}

/// Whether errors of this kind keep their message from the caller.
pub open spec fn hides_message(k: ErrorKind) -> bool {
    matches!(k, ErrorKind::Internal | ErrorKind::Database)
}

/// The message that the answer carries: the error's own, or a generic one
/// for internal and database errors.
pub open spec fn public_message(k: ErrorKind, m: Seq<char>) -> Seq<char> {
    if hides_message(k) {
        "An internal error occurred"@
    } else {
        m
    }
}

impl AppError {
    /// The HTTP status, the error type and the message with which the error
    /// is answered.
    pub fn response_parts(&self) -> (r: (u16, String, String))
        ensures
            r.0 == status_of(self.kind_and_message().0),
            r.1@ == error_type_of(self.kind_and_message().0),
            r.2@ == public_message(self.kind_and_message().0, self.kind_and_message().1),
    {
        match self {
            AppError::NotFound(m) => (404, "not_found".to_owned(), m.clone()),
            AppError::BadRequest(m) => (400, "bad_request".to_owned(), m.clone()),
            AppError::Validation(m) => (400, "bad_request".to_owned(), m.clone()),
            AppError::Unauthorized(m) => (401, "unauthorized".to_owned(), m.clone()),
            AppError::Forbidden(m) => (403, "forbidden".to_owned(), m.clone()),
            AppError::Conflict(m) => (409, "conflict".to_owned(), m.clone()),
            AppError::Internal(_) => (
                500,
                "internal_error".to_owned(),
                "An internal error occurred".to_owned(),
            ),
            AppError::Database(_) => (
                500,
                "database_error".to_owned(),
                "An internal error occurred".to_owned(),
            ),
        }
    }
}

/// An answer never carries the message of an internal or database error,
/// and every error is answered with a client or server error status.
pub proof fn lemma_answers_hide_internal_messages(e: AppError)
    ensures
        hides_message(e.kind_and_message().0) ==> public_message(
            e.kind_and_message().0,
            e.kind_and_message().1,
        ) == "An internal error occurred"@,
        400 <= status_of(e.kind_and_message().0) < 600,
        hides_message(e.kind_and_message().0) <==> status_of(e.kind_and_message().0) == 500,
{
}

} // verus!
