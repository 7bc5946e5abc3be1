//! Error taxonomy of the gateway and its mapping to the HTTP boundary.

use vstd::prelude::*;
use vstd::string::*;
use crate::text::{decimal, i64_text, join2};

verus! {

/// A failure of a gateway request.
#[derive(Debug, Clone, PartialEq, Eq)]
pub enum AppError {
    /// The node answered with a structured error.
    Rpc { code: i32, message: String },
    /// The artifact does not exist.
    NotFound(String),
    /// The caller's input is malformed.
    BadRequest(String),
    /// Transport failure, unreadable body or protocol violation.
    Internal(String),
}

/// The four kinds a failure is classified into; the kind is what the
/// boundary maps to a status.
#[derive(Debug, Clone, Copy, PartialEq, Eq, Structural)]
pub enum ErrorKind {
    NotFound,
    UpstreamError,
    InternalError,
    BadRequest,
}

/// The node's "not found" family of error codes.
pub open spec fn is_not_found_code(code: int) -> bool {
    code == -5 || code == -8
}

/// Kind of an error: an upstream error whose code is in the "not found"
/// family counts as not found.
pub open spec fn kind_of(e: AppError) -> ErrorKind {
    match e {
        AppError::Rpc { code, .. } => if is_not_found_code(code as int) {
            ErrorKind::NotFound
        } else {
            ErrorKind::UpstreamError
        },
        AppError::NotFound(_) => ErrorKind::NotFound,
        AppError::BadRequest(_) => ErrorKind::BadRequest,
        AppError::Internal(_) => ErrorKind::InternalError,
    }
}

/// HTTP status that a kind maps to.
pub open spec fn status_of(k: ErrorKind) -> int {
    match k {
        ErrorKind::NotFound => 404,
        ErrorKind::UpstreamError => 502,
        ErrorKind::BadRequest => 400,
        ErrorKind::InternalError => 500,
    }
}

/// Text shown for an upstream error that is not in the "not found" family.
pub open spec fn rpc_error_text(code: int, message: Seq<char>) -> Seq<char> {
    "RPC error "@ + decimal(code) + ": "@ + message
}

/// Message placed in the error body at the boundary.
pub open spec fn response_message_of(e: AppError) -> Seq<char> {
    match e {
        AppError::Rpc { code, message } => if is_not_found_code(code as int) {
            message@
        } else {
            rpc_error_text(code as int, message@)
        },
        AppError::NotFound(m) => m@,
        AppError::BadRequest(m) => m@,
        AppError::Internal(m) => m@,
    }
}

/// One-line description of an error, with its variant's prefix.
pub open spec fn description_of(e: AppError) -> Seq<char> {
    match e {
        AppError::Rpc { code, message } => rpc_error_text(code as int, message@),
        AppError::NotFound(m) => "Not found: "@ + m@,
        AppError::BadRequest(m) => "Bad request: "@ + m@,
        AppError::Internal(m) => "Internal error: "@ + m@,
    }
}

fn rpc_error_string(code: i32, message: &String) -> (r: String)
    ensures
        r@ == rpc_error_text(code as int, message@),
{
    let mut out = String::from_str("RPC error ");
    let digits = i64_text(code as i64);
    out.append(digits.as_str());
    out.append(": ");
    out.append(message.as_str());
    out
}

impl AppError {
    /// Copy of the error.
    pub fn duplicate(&self) -> (r: AppError)
        ensures
            r == *self,
    {
        match self {
            AppError::Rpc { code, message } => AppError::Rpc {
                code: *code,
                message: message.clone(),
            },
            AppError::NotFound(m) => AppError::NotFound(m.clone()),
            AppError::BadRequest(m) => AppError::BadRequest(m.clone()),
            AppError::Internal(m) => AppError::Internal(m.clone()),
        }
    }

    /// Classifies the error.
    pub fn kind(&self) -> (k: ErrorKind)
        ensures
            k == kind_of(*self),
    {
        match self {
            AppError::Rpc { code, .. } => {
                if *code == -5 || *code == -8 {
                    ErrorKind::NotFound
                } else {
                    ErrorKind::UpstreamError
                }
            },
            AppError::NotFound(_) => ErrorKind::NotFound,
            AppError::BadRequest(_) => ErrorKind::BadRequest,
            AppError::Internal(_) => ErrorKind::InternalError,
        }
    }

    /// HTTP status for the error: 404, 502, 400 or 500 by kind.
    pub fn status_code(&self) -> (s: u16)
        ensures
            s as int == status_of(kind_of(*self)),
    {
        match self.kind() {
            ErrorKind::NotFound => 404,
            ErrorKind::UpstreamError => 502,
            ErrorKind::BadRequest => 400,
            ErrorKind::InternalError => 500,
        }
    }

    /// Message for the error body: the bare message, except that an
    /// upstream error outside the "not found" family is prefixed with its code.
    pub fn response_message(&self) -> (r: String)
        ensures
            r@ == response_message_of(*self),
    {
        match self {
            AppError::Rpc { code, message } => {
                if *code == -5 || *code == -8 {
                    message.clone()
                } else {
                    rpc_error_string(*code, message)
                }
            },
            AppError::NotFound(m) => m.clone(),
            AppError::BadRequest(m) => m.clone(),
            AppError::Internal(m) => m.clone(),
        }
    }

    /// Description of the error with its variant's prefix.
    pub fn describe(&self) -> (r: String)
        ensures
            r@ == description_of(*self),
    {
        match self {
            AppError::Rpc { code, message } => rpc_error_string(*code, message),
            AppError::NotFound(m) => join2("Not found: ", m.as_str()),
            AppError::BadRequest(m) => join2("Bad request: ", m.as_str()),
            AppError::Internal(m) => join2("Internal error: ", m.as_str()),
        }
    }

    /// Internal error for a failure of the HTTP transport.
    pub fn http_client(detail: &str) -> (r: AppError)
        ensures
            r == AppError::Internal(r->Internal_0),
            r->Internal_0@ == "HTTP client error: "@ + detail@,
    {
        AppError::Internal(join2("HTTP client error: ", detail))
    }

    /// Internal error for a failure to read or write JSON.
    pub fn json(detail: &str) -> (r: AppError)
        ensures
            r == AppError::Internal(r->Internal_0),
            r->Internal_0@ == "JSON error: "@ + detail@,
    {
        AppError::Internal(join2("JSON error: ", detail))
    }
}

} // verus!
