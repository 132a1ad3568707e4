use vstd::prelude::*;
use vstd::string::*;

verus! {

/// The closed set of failure kinds that every upstream failure is classified into.
#[derive(Debug, Clone, Copy, PartialEq, Eq, Structural)]
pub enum ErrorStatus {
    BadRequest,
    DecodingError,
    RequestTimeout,
    TooManyRequests,
    InternalServerError,
}

/// A failure of a lookup or a translation: its kind and a human-readable message.
#[derive(Debug)]
pub struct Error {
    pub status: ErrorStatus,
    pub message: String,
}

impl Error {
    pub fn new(status: ErrorStatus, message: String) -> (r: Self)
        ensures
            r.status == status,
            r.message@ == message@,
    {
        Self { status: status, message: message }
    }
}

/// What a failed HTTP exchange reports about itself, as plain facts.
pub struct TransportFailure {
    /// The response body could not be decoded into the expected shape.
    pub is_decode: bool,
    /// The request could not be built or sent.
    pub is_request: bool,
    /// The request ran past its deadline.
    pub is_timeout: bool,
    /// The response carried an error status.
    pub is_status: bool,
    /// That status, where it could be read.
    pub status: Option<u16>,
    pub message: String,
}

/// The kind that a failed exchange is classified into, by the first rule that applies.
/// A timeout is classified as a bad request, not as `RequestTimeout`.
pub open spec fn transport_status(f: TransportFailure) -> ErrorStatus {
    if f.is_decode {
        ErrorStatus::DecodingError
    } else if f.is_request {
        ErrorStatus::BadRequest
    } else if f.is_timeout {
        ErrorStatus::BadRequest
    } else if f.is_status {
        match f.status {
            Some(code) => if code == 429 {
                ErrorStatus::TooManyRequests
            } else {
                ErrorStatus::BadRequest
            },
            None => ErrorStatus::InternalServerError,
        }
    } else {
        ErrorStatus::InternalServerError
    }
}

impl Error {
    /// Classifies a failed HTTP exchange; the message is kept.
    pub fn from_transport(failure: TransportFailure) -> (r: Error)
        ensures
            r.status == transport_status(failure),
            r.message@ == failure.message@,
    {
        let status = if failure.is_decode {
            ErrorStatus::DecodingError
        } else if failure.is_request {
            ErrorStatus::BadRequest
        } else if failure.is_timeout {
            ErrorStatus::BadRequest
        } else if failure.is_status {
            match failure.status {
                Some(code) => if code == 429 {
                    ErrorStatus::TooManyRequests
                } else {
                    ErrorStatus::BadRequest
                },
                None => ErrorStatus::InternalServerError,
            }
        } else {
            ErrorStatus::InternalServerError
        };
        Error::new(status, failure.message)
    }

    /// A failure inside the caching layer itself, which is an internal error.
    pub fn from_middleware(message: String) -> (r: Error)
        ensures
            r.status == ErrorStatus::InternalServerError,
            r.message@ == message@,
    {
        Error::new(ErrorStatus::InternalServerError, message)
    }
}

/// An error as the HTTP endpoints report it.
#[derive(Debug)]
pub enum MyError {
    BadRequest(String),
    InternalServerError,
    DecodingError,
    TooManyRequests,
}

impl MyError {
    /// The endpoint error for a failure: a bad request says the creature was not found, a
    /// timeout is an internal error, and the other kinds keep their name.
    pub fn from(error: Error) -> (r: MyError)
        ensures
            match error.status {
                ErrorStatus::BadRequest => r matches MyError::BadRequest(m) && m@
                    == "Pokemon not found!"@,
                ErrorStatus::DecodingError => r is DecodingError,
                ErrorStatus::RequestTimeout => r is InternalServerError,
                ErrorStatus::TooManyRequests => r is TooManyRequests,
                ErrorStatus::InternalServerError => r is InternalServerError,
            },
    {
        match error.status {
            ErrorStatus::BadRequest => MyError::BadRequest(String::from_str("Pokemon not found!")),
            ErrorStatus::DecodingError => MyError::DecodingError,
            ErrorStatus::RequestTimeout => MyError::InternalServerError,
            ErrorStatus::TooManyRequests => MyError::TooManyRequests,
            ErrorStatus::InternalServerError => MyError::InternalServerError,
        }
    }

    /// The HTTP status code of the error response.
    pub fn status_code(&self) -> (r: u16)
        ensures
            r == match self {
                MyError::BadRequest(_) => 400u16,
                MyError::InternalServerError => 500u16,
                MyError::DecodingError => 500u16,
                MyError::TooManyRequests => 429u16,
            },
    {
        match self {
            MyError::BadRequest(_) => 400,
            MyError::InternalServerError => 500,
            MyError::DecodingError => 500,
            MyError::TooManyRequests => 429,
        }
    }

    /// The text that describes the error.
    pub fn message(&self) -> (r: String)
        ensures
            match self {
                MyError::BadRequest(m) => r@ == "Bad Request: "@ + m@,
                MyError::InternalServerError => r@ == "Internal server error"@,
                MyError::DecodingError => r@ == "Failed to decode body"@,
                MyError::TooManyRequests => r@ == "Too many requests!"@,
            },
    {
        match self {
            MyError::BadRequest(m) => String::from_str("Bad Request: ").concat(m.as_str()),
            MyError::InternalServerError => String::from_str("Internal server error"),
            MyError::DecodingError => String::from_str("Failed to decode body"),
            MyError::TooManyRequests => String::from_str("Too many requests!"),
        }
    }
}

} // verus!
