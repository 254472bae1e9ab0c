use vstd::prelude::*;

verus! {

/// The closed set of failures that the service reports to its clients.
#[derive(Debug, Clone, PartialEq, Eq)]
pub enum AppError {
    NotFoundError,
    UnathorizedError,
    InternalServiceError,
    /// A request the service refuses; the message is safe to show to the caller.
    BadRequest(String),
    JWKSFetchError,
}

/// What a client receives for an error: the status code, a stable name and a
/// human-readable message.
pub struct ErrorResponse {
    pub status_code: u16,
    pub name: String,
    pub message: String,
}

impl View for ErrorResponse {
    type V = (u16, Seq<char>, Seq<char>);

    open spec fn view(&self) -> (u16, Seq<char>, Seq<char>) {
        (self.status_code, self.name@, self.message@)
    }
}

pub open spec fn status_of(e: AppError) -> u16 {
    match e {
        AppError::NotFoundError => 404,
        AppError::UnathorizedError => 401,
        AppError::InternalServiceError => 500,
        AppError::BadRequest(_) => 400,
        AppError::JWKSFetchError => 500,
    }
}

pub open spec fn name_of(e: AppError) -> Seq<char> {
    match e {
        AppError::NotFoundError => "NotFoundError"@,
        AppError::UnathorizedError => "UnathorizedError"@,
        AppError::InternalServiceError => "InternalServiceError"@,
        AppError::BadRequest(_) => "BadRequest"@,
        AppError::JWKSFetchError => "JWKSFetchError"@,
    }
}

pub open spec fn internal_message() -> Seq<char> {
    "Something went wrong on our side. Please, try again after some time"@
}

pub open spec fn message_of(e: AppError) -> Seq<char> {
    match e {
        AppError::NotFoundError => "Requested resource not found"@,
        AppError::UnathorizedError => "Unauthorized"@,
        AppError::InternalServiceError => internal_message(),
        AppError::BadRequest(m) => m@,
        AppError::JWKSFetchError => "Could not fetch JWKS"@,
    }
}

/// The status code, name and message that a client receives for `e`.
pub open spec fn response_of(e: AppError) -> (u16, Seq<char>, Seq<char>) {
    (status_of(e), name_of(e), message_of(e))
}

impl AppError {
    /// The stable name under which clients see this error.
    pub fn name(&self) -> (r: &str)
        ensures
            r@ == name_of(*self),
    {
        match self {
            AppError::NotFoundError => "NotFoundError",
            AppError::UnathorizedError => "UnathorizedError",
            AppError::InternalServiceError => "InternalServiceError",
            AppError::BadRequest(_) => "BadRequest",
            AppError::JWKSFetchError => "JWKSFetchError",
        }
    }

    /// The message shown to clients: a fixed text for each kind, or the
    /// caller-supplied text of a bad request.
    pub fn message(&self) -> (r: &str)
        ensures
            r@ == message_of(*self),
    {
        match self {
            AppError::NotFoundError => "Requested resource not found",
            AppError::UnathorizedError => "Unauthorized",
            AppError::InternalServiceError =>
                "Something went wrong on our side. Please, try again after some time",
            AppError::BadRequest(m) => m.as_str(),
            AppError::JWKSFetchError => "Could not fetch JWKS",
        }
    }

    /// The HTTP status code for this error.
    pub fn status_code(&self) -> (r: u16)
        ensures
            r == status_of(*self),
            *self == AppError::NotFoundError ==> r == 404,
            *self == AppError::UnathorizedError ==> r == 401,
            *self == AppError::InternalServiceError ==> r == 500,
            self is BadRequest ==> r == 400,
            *self == AppError::JWKSFetchError ==> r == 500,
    {
        match self {
            AppError::NotFoundError => 404,
            AppError::UnathorizedError => 401,
            AppError::InternalServiceError => 500,
            AppError::BadRequest(_) => 400,
            AppError::JWKSFetchError => 500,
        }
    }

    /// The body sent to the client for this error.
    pub fn error_response(&self) -> (r: ErrorResponse)
        ensures
            r.status_code == status_of(*self),
            r.name@ == name_of(*self),
            r.message@ == message_of(*self),
            r@ == response_of(*self),
    {
        ErrorResponse {
            status_code: self.status_code(),
            name: self.name().to_owned(),
            message: self.message().to_owned(),
        }
    }
}

/// Classifies an error: the status line to send, and the body to send with it.
pub fn classify(err: &AppError) -> (r: (u16, ErrorResponse))
    ensures
        r.0 == status_of(*err),
        r.1@ == response_of(*err),
{
    (err.status_code(), err.error_response())
}

} // verus!
