//! Error model of the pipeline.
//!
//! Every failure of the upload pipeline falls in one of four kinds:
//! a missing credential for a restricted host (`BadRequest`), a remote
//! fetch failure (`Gateway`), an object-store or metadata write failure
//! (`Storage`), and everything unexpected (`Internal`).  Each kind maps
//! to one HTTP status code, and an error carries at most a short canned
//! message; no internal detail ever reaches a response body.

use vstd::prelude::*;

verus! {

/// The four failure classes of the upload pipeline.
#[derive(Clone, Copy, PartialEq, Eq, Structural, Debug)]
pub enum ErrorKind {
    BadRequest,
    Gateway,
    Storage,
    Internal,
}

/// The HTTP status code a failure class maps to.
pub open spec fn spec_status_code(kind: ErrorKind) -> u16 {
    match kind {
        ErrorKind::BadRequest => 400,
        ErrorKind::Gateway => 502,
        ErrorKind::Storage => 500,
        ErrorKind::Internal => 500,
    }
}

/// The canned reason reported when an error carries no message of its own.
pub open spec fn spec_canonical_reason(kind: ErrorKind) -> Seq<char> {
    match kind {
        ErrorKind::BadRequest => "Bad Request"@,
        ErrorKind::Gateway => "Bad Gateway"@,
        ErrorKind::Storage => "Internal Server Error"@,
        ErrorKind::Internal => "Internal Server Error"@,
    }
}

/// An error as surfaced to the HTTP layer: a failure class plus an
/// optional short message.  The message is always a canned string chosen
/// by this crate, never text taken from an underlying driver error.
#[derive(Clone, Copy, Debug)]
pub struct APIError {
    pub kind: ErrorKind,
    pub body: Option<&'static str>,
}

impl APIError {
    /// A missing-credential failure, reported before any network call.
    pub fn bad_request(message: &'static str) -> (r: APIError)
        ensures
            r.kind == ErrorKind::BadRequest,
            r.body == Some(message),
    {
        APIError { kind: ErrorKind::BadRequest, body: Some(message) }
    }

    /// A remote-fetch failure.
    pub fn gateway(message: &'static str) -> (r: APIError)
        ensures
            r.kind == ErrorKind::Gateway,
            r.body == Some(message),
    {
        APIError { kind: ErrorKind::Gateway, body: Some(message) }
    }

    /// An object-store or metadata persistence failure.
    pub fn storage(message: &'static str) -> (r: APIError)
        ensures
            r.kind == ErrorKind::Storage,
            r.body == Some(message),
    {
        APIError { kind: ErrorKind::Storage, body: Some(message) }
    }

    /// Any other unexpected failure.
    pub fn internal() -> (r: APIError)
        ensures
            r.kind == ErrorKind::Internal,
            r.body is None,
    {
        APIError { kind: ErrorKind::Internal, body: None }
    }

    /// The HTTP status code of this error.
    pub fn status_code(&self) -> (code: u16)
        ensures
            code == spec_status_code(self.kind),
    {
        match self.kind {
            ErrorKind::BadRequest => 400,
            ErrorKind::Gateway => 502,
            ErrorKind::Storage => 500,
            ErrorKind::Internal => 500,
        }
    }

    /// The short reason reported to the caller: the error's own message
    /// where it has one, the canned reason of its class otherwise.
    pub fn reason(&self) -> (r: &'static str)
        ensures
            self.body is Some ==> r@ == self.body->0@,
            self.body is None ==> r@ == spec_canonical_reason(self.kind),
    {
        match self.body {
            Some(message) => message,
            None => match self.kind {
                ErrorKind::BadRequest => "Bad Request",
                ErrorKind::Gateway => "Bad Gateway",
                ErrorKind::Storage => "Internal Server Error",
                ErrorKind::Internal => "Internal Server Error",
            },
        }
    }

    /// The JSON response body for this error: the reason and nothing
    /// else — never stack traces or driver error text.
    pub fn body_json(&self) -> (body: String)
        ensures
            body@ == "{\"error\":\""@ + (if self.body is Some {
                self.body->0@
            } else {
                spec_canonical_reason(self.kind)
            }) + "\"}"@,
    {
        let mut body = String::from_str("{\"error\":\"");
        body.append(self.reason());
        body.append("\"}");
        body
    }
}

} // verus!
