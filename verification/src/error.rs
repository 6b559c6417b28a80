//! The service's error taxonomy and the uniform error envelope handed to the
//! boundary layer.
//!
//! "Not found" outcomes are ordinary results of the store; they become errors
//! only where an operation's contract makes the caller reject the request.
//! The boundary maps each kind to a status-code category and never leaks
//! internals beyond the stored message.

use vstd::prelude::*;

verus! {

/// What went wrong, by category.
#[derive(Clone, Copy, Debug, PartialEq, Eq, Structural)]
pub enum ErrorKind {
    /// The requested entity does not exist.
    NotFound,
    /// Malformed input, rejected before reaching the store.
    Validation,
    /// A uniqueness constraint of the store refused the write.
    Conflict,
    /// The persistence layer failed.
    Storage,
    /// The object-storage upstream failed.
    Upstream,
}

/// Status-code category of each error kind: not-found maps to 404,
/// validation to 400, everything else to 500.
pub open spec fn spec_status_code(k: ErrorKind) -> u16 {
    match k {
        ErrorKind::NotFound => 404u16,
        ErrorKind::Validation => 400u16,
        _ => 500u16,
    }
}

/// The uniform error envelope: a kind and a client-safe message.
#[derive(Debug)]
pub struct ApiError {
    pub kind: ErrorKind,
    pub message: String,
}

impl ApiError {
    pub fn new(kind: ErrorKind, message: String) -> (r: ApiError)
        ensures
            r.kind == kind,
            r.message@ == message@,
    {
        ApiError { kind, message }
    }

    /// The status-code category the boundary should answer with.
    pub fn status_code(&self) -> (r: u16)
        ensures
            r == spec_status_code(self.kind),
    {
        match self.kind {
            ErrorKind::NotFound => 404,
            ErrorKind::Validation => 400,
            ErrorKind::Conflict => 500,
            ErrorKind::Storage => 500,
            ErrorKind::Upstream => 500,
        }
    }

    /// The client-safe message.
    pub fn describe(&self) -> (r: String)
        ensures
            r@ == self.message@,
    {
        self.message.clone()
    }
}

} // verus!
