//! The single chokepoint for upstream calls: request correlation and the
//! classification of what came back. Sending the request is the caller's part.

use vstd::prelude::*;
use vstd::string::*;
use crate::error::AppError;
use crate::text::{excerpt, excerpt_of, EXCERPT_BYTES};

verus! {

/// Seconds after which an upstream call is abandoned.
pub const RPC_TIMEOUT_SECS: u64 = 30;

/// Identifier of the first request of a process.
pub const FIRST_REQUEST_ID: u64 = 1;

/// Source of request identifiers, used for correlation only.
pub struct RequestIds {
    next: u64,
}

impl RequestIds {
    /// The identifier that the next request will carry.
    pub closed spec fn upcoming(&self) -> u64 {
        self.next
    }

    /// A fresh source, starting at `FIRST_REQUEST_ID`.
    pub fn new() -> (r: RequestIds)
        ensures
            r.upcoming() == FIRST_REQUEST_ID,
    {
        RequestIds { next: FIRST_REQUEST_ID }
    }

    /// Takes the next identifier. Identifiers increase by one per call and
    /// wrap to zero after `u64::MAX`.
    pub fn next_id(&mut self) -> (id: u64)
        ensures
            id == old(self).upcoming(),
            old(self).upcoming() < u64::MAX ==> final(self).upcoming() == old(self).upcoming() + 1,
            old(self).upcoming() == u64::MAX ==> final(self).upcoming() == 0,
    {
        let id = self.next;
        self.next = if id == u64::MAX {
            0
        } else {
            id + 1
        };
        id
    }
}

/// The structured error of a response envelope.
#[derive(Debug, Clone, PartialEq, Eq)]
pub struct RpcError {
    pub code: i32,
    pub message: String,
}

/// A response envelope: a result payload, a structured error, or neither.
#[derive(Debug, Clone, PartialEq, Eq)]
pub struct RpcResponse<T> {
    pub result: Option<T>,
    pub error: Option<RpcError>,
}

/// Message for a response that carries neither result nor error.
pub open spec fn null_result_text(method: Seq<char>) -> Seq<char> {
    "RPC "@ + method + " returned null result"@
}

/// Message for a body that could not be read as an envelope.
pub open spec fn parse_failure_text(method: Seq<char>, detail: Seq<char>, body: Seq<char>) -> Seq<
    char,
> {
    "Failed to parse RPC response for "@ + method + ": "@ + detail + " -- response: "@
        + excerpt_of(body, EXCERPT_BYTES as nat)
}

/// Classifies a response envelope.
pub fn classify<T>(method: &str, resp: RpcResponse<T>) -> (r: Result<T, AppError>)
    ensures
        resp.error matches Some(err) ==> r == Err::<T, AppError>(
            AppError::Rpc { code: err.code, message: err.message },
        ),
        resp.error is None ==> (resp.result matches Some(v) ==> r == Ok::<T, AppError>(v)),
        resp.error is None && resp.result is None ==> (r matches Err(AppError::Internal(m))
            && m@ == null_result_text(method@)),
{
    match resp.error {
        Some(err) => Err(AppError::Rpc { code: err.code, message: err.message }),
        None => match resp.result {
            Some(v) => Ok(v),
            None => {
                let mut m = String::from_str("RPC ");
                m.append(method);
                m.append(" returned null result");
                Err(AppError::Internal(m))
            },
        },
    }
}

/// The internal error for a body that is no envelope: names the method, the
/// parser's complaint and the beginning of the body, at most
/// `EXCERPT_BYTES` bytes of it, cut between two characters.
pub fn parse_failure(method: &str, detail: &str, body: &str) -> (e: AppError)
    ensures
        e matches AppError::Internal(m) && m@ == parse_failure_text(method@, detail@, body@),
{
    let mut m = String::from_str("Failed to parse RPC response for ");
    m.append(method);
    m.append(": ");
    m.append(detail);
    m.append(" -- response: ");
    let cut = excerpt(body, EXCERPT_BYTES);
    m.append(cut.as_str());
    AppError::Internal(m)
}

/// Outcome of reading a response body: the envelope, or the parser's complaint.
pub enum ParsedBody<T> {
    Envelope(RpcResponse<T>),
    Unreadable(String),
}

/// Finishes a call from what the transport returned: an unreadable body is an
/// internal error carrying an excerpt of it; an envelope is classified.
pub fn finish_call<T>(method: &str, parsed: ParsedBody<T>, body: &str) -> (r: Result<T, AppError>)
    ensures
        parsed matches ParsedBody::Unreadable(detail) ==> (r matches Err(AppError::Internal(m))
            && m@ == parse_failure_text(method@, detail@, body@)),
        parsed matches ParsedBody::Envelope(resp) ==> {
            &&& resp.error matches Some(err) ==> r == Err::<T, AppError>(
                AppError::Rpc { code: err.code, message: err.message },
            )
            &&& resp.error is None ==> (resp.result matches Some(v) ==> r == Ok::<T, AppError>(v))
            &&& resp.error is None && resp.result is None ==> (r matches Err(AppError::Internal(m))
                && m@ == null_result_text(method@))
        },
{
    match parsed {
        ParsedBody::Unreadable(detail) => Err(parse_failure(method, detail.as_str(), body)),
        ParsedBody::Envelope(resp) => classify(method, resp),
    }
}

} // verus!
