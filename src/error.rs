//! The typed error envelope that every failure becomes before it reaches a
//! caller: a discrete code, a human-readable message and optional details.

use vstd::prelude::*;
use crate::classify::same_text;

verus! {

/// serde_json's `Value`, declared so that error details and the contexts of
/// remote results can be carried through; nothing is assumed of what it holds.
#[verifier::external_type_specification]
#[verifier::external_body]
pub struct ExJsonValue(serde_json::Value);

/// An error as callers see it.
#[derive(Debug)]
pub struct ApiError {
    pub code: String,
    pub message: String,
    pub details: Option<serde_json::Value>,
}

/// The HTTP status that an error code maps to.
pub open spec fn status_of(code: Seq<char>) -> u16 {
    if code == "UNAUTHORIZED"@ {
        401
    } else if code == "FORBIDDEN"@ {
        403
    } else if code == "NOT_FOUND"@ {
        404
    } else if code == "BAD_REQUEST"@ {
        400
    } else if code == "VALIDATION_ERROR"@ {
        422
    } else if code == "CONFLICT"@ {
        409
    } else {
        500
    }
}

/// `e` has the given code and message and no details.
pub open spec fn is_error(e: ApiError, code: Seq<char>, message: Seq<char>) -> bool {
    e.code@ == code && e.message@ == message && e.details is None
}

impl ApiError {
    pub fn new(code: &str, message: &str) -> (r: ApiError)
        ensures
            is_error(r, code@, message@),
    {
        ApiError { code: String::from_str(code), message: String::from_str(message), details: None }
    }

    /// Attaches structured details, keeping code and message.
    pub fn with_details(self, details: serde_json::Value) -> (r: ApiError)
        ensures
            r.code == self.code,
            r.message == self.message,
            r.details == Some(details),
    {
        ApiError { code: self.code, message: self.message, details: Some(details) }
    }

    pub fn unauthorized() -> (r: ApiError)
        ensures
            is_error(r, "UNAUTHORIZED"@, "Authentication required"@),
    {
        ApiError::new("UNAUTHORIZED", "Authentication required")
    }

    pub fn forbidden() -> (r: ApiError)
        ensures
            is_error(r, "FORBIDDEN"@, "Access denied"@),
    {
        ApiError::new("FORBIDDEN", "Access denied")
    }

    /// `"<resource> not found"`.
    pub fn not_found(resource: &str) -> (r: ApiError)
        ensures
            is_error(r, "NOT_FOUND"@, resource@ + " not found"@),
    {
        let mut message = String::from_str(resource);
        message.append(" not found");
        ApiError { code: String::from_str("NOT_FOUND"), message, details: None }
    }

    pub fn bad_request(message: &str) -> (r: ApiError)
        ensures
            is_error(r, "BAD_REQUEST"@, message@),
    {
        ApiError::new("BAD_REQUEST", message)
    }

    pub fn validation_error(message: &str) -> (r: ApiError)
        ensures
            is_error(r, "VALIDATION_ERROR"@, message@),
    {
        ApiError::new("VALIDATION_ERROR", message)
    }

    pub fn conflict(message: &str) -> (r: ApiError)
        ensures
            is_error(r, "CONFLICT"@, message@),
    {
        ApiError::new("CONFLICT", message)
    }

    pub fn internal(message: &str) -> (r: ApiError)
        ensures
            is_error(r, "INTERNAL_ERROR"@, message@),
    {
        ApiError::new("INTERNAL_ERROR", message)
    }

    /// A failure reported by, or on the way to, the remote service.
    pub fn rstmdb_error(message: &str) -> (r: ApiError)
        ensures
            is_error(r, "RSTMDB_ERROR"@, message@),
    {
        ApiError::new("RSTMDB_ERROR", message)
    }

    /// `"<code>: <message>"`, the error's one-line rendering.
    pub fn text(&self) -> (r: String)
        ensures
            r@ == self.code@ + ": "@ + self.message@,
    {
        let mut r = self.code.clone();
        r.append(": ");
        r.append(self.message.as_str());
        r
    }

    /// The HTTP status that this error is answered with.
    pub fn status_code(&self) -> (r: u16)
        ensures
            r == status_of(self.code@),
    {
        let c = self.code.as_str();
        if same_text(c, "UNAUTHORIZED") {
            401
        } else if same_text(c, "FORBIDDEN") {
            403
        } else if same_text(c, "NOT_FOUND") {
            404
        } else if same_text(c, "BAD_REQUEST") {
            400
        } else if same_text(c, "VALIDATION_ERROR") {
            422
        } else if same_text(c, "CONFLICT") {
            409
        } else {
            500
        }
    }
}

} // verus!
