//! The closed set of failure kinds and their mapping to an HTTP status and
//! the uniform JSON error envelope.

use vstd::prelude::*;

verus! {

/// Every failure a handler can produce.
///
/// `Storage` stands for a downstream persistence fault and `Internal` for any
/// other non-recoverable failure (a hashing or signing fault); neither kind
/// ever shows its detail to the client.
#[derive(Debug)]
pub enum ApiError {
    BadRequest(String),
    Unauthorized,
    Conflict(String),
    Storage,
    Internal,
}

/// The uniform JSON envelope every error response is rendered as.
pub open spec fn json_error_body(msg: Seq<char>) -> Seq<char> {
    "{\"error\":\""@ + msg + "\"}"@
}

impl ApiError {
    /// The HTTP status code this failure maps to.
    pub open spec fn spec_status(&self) -> u16 {
        match self {
            ApiError::BadRequest(_) => 400,
            ApiError::Unauthorized => 401,
            ApiError::Conflict(_) => 409,
            ApiError::Storage => 500,
            ApiError::Internal => 500,
        }
    }

    /// The message rendered to the client; internal detail is never shown.
    pub open spec fn spec_message(&self) -> Seq<char> {
        match self {
            ApiError::BadRequest(m) => m@,
            ApiError::Unauthorized => "unauthorized"@,
            ApiError::Conflict(m) => m@,
            ApiError::Storage => "internal error"@,
            ApiError::Internal => "internal error"@,
        }
    }

    /// Maps the failure to its HTTP status code and the uniform body
    /// `{"error":"<message>"}`; a storage or internal fault renders only
    /// `internal error`.
    pub fn into_response(self) -> (r: (u16, String))
        ensures
            r.0 == self.spec_status(),
            r.1@ == json_error_body(self.spec_message()),
    {
        let status: u16 = match &self {
            ApiError::BadRequest(_) => 400,
            ApiError::Unauthorized => 401,
            ApiError::Conflict(_) => 409,
            ApiError::Storage => 500,
            ApiError::Internal => 500,
        };
        let msg: String = match self {
            ApiError::BadRequest(m) => m,
            ApiError::Unauthorized => String::from_str("unauthorized"),
            ApiError::Conflict(m) => m,
            ApiError::Storage => String::from_str("internal error"),
            ApiError::Internal => String::from_str("internal error"),
        };
        let mut body = String::from_str("{\"error\":\"");
        body.append(msg.as_str());
        body.append("\"}");
        proof {
            assert(body@ =~= json_error_body(msg@));
        }
        (status, body)
    }
}

} // verus!
