//! The error that every operation of the crate reports.

use vstd::prelude::*;
use vstd::string::StringExecFns;

verus! {

/// The class of a failure. Callers branch on this, never on the message.
#[derive(Clone, Copy, Debug, PartialEq, Eq, Structural)]
pub enum ErrorKind {
    /// The caller is the anonymous identity.
    Unauthenticated,
    /// The record asked for does not exist.
    NotFound,
    /// The record to create exists already.
    Conflict,
    /// The caller has no right to the operation.
    PermissionDenied,
    /// An argument is malformed.
    InvalidArgument,
    /// The record is not in the state that the operation needs.
    FailedPrecondition,
    /// A collaborator failed.
    Internal,
}

/// A failure: its class and a detail for people to read.
#[derive(Debug, PartialEq, Eq)]
pub struct ApiError {
    pub kind: ErrorKind,
    pub message: String,
}

/// The class of the failure that a result reports; none where it is `Ok`.
pub open spec fn failure_of<T>(r: Result<T, ApiError>) -> Option<ErrorKind> {
    match r {
        Ok(_) => None,
        Err(e) => Some(e.kind),
    }
}

impl ApiError {
    /// Whether this error has the given class and detail.
    pub open spec fn is(&self, kind: ErrorKind, message: Seq<char>) -> bool {
        self.kind == kind && self.message@ == message
    }

    /// An error of the given class with the given detail.
    pub fn new(kind: ErrorKind, message: &str) -> (e: ApiError)
        ensures
            e.is(kind, message@),
    {
        ApiError { kind, message: String::from_str(message) }
    }

    pub fn unauthenticated() -> (e: ApiError)
        ensures
            e.is(ErrorKind::Unauthenticated, "Anonymous principals are not allowed"@),
    {
        ApiError::new(ErrorKind::Unauthenticated, "Anonymous principals are not allowed")
    }

    pub fn not_found(message: &str) -> (e: ApiError)
        ensures
            e.is(ErrorKind::NotFound, message@),
    {
        ApiError::new(ErrorKind::NotFound, message)
    }

    pub fn conflict(message: &str) -> (e: ApiError)
        ensures
            e.is(ErrorKind::Conflict, message@),
    {
        ApiError::new(ErrorKind::Conflict, message)
    }

    pub fn permission_denied(message: &str) -> (e: ApiError)
        ensures
            e.is(ErrorKind::PermissionDenied, message@),
    {
        ApiError::new(ErrorKind::PermissionDenied, message)
    }

    pub fn invalid_argument(message: &str) -> (e: ApiError)
        ensures
            e.is(ErrorKind::InvalidArgument, message@),
    {
        ApiError::new(ErrorKind::InvalidArgument, message)
    }

    pub fn failed_precondition(message: &str) -> (e: ApiError)
        ensures
            e.is(ErrorKind::FailedPrecondition, message@),
    {
        ApiError::new(ErrorKind::FailedPrecondition, message)
    }

    pub fn internal(message: &str) -> (e: ApiError)
        ensures
            e.is(ErrorKind::Internal, message@),
    {
        ApiError::new(ErrorKind::Internal, message)
    }

    /// The class of this error.
    pub fn kind(&self) -> (k: ErrorKind)
        ensures
            k == self.kind,
    {
        self.kind
    }

    /// The detail of this error.
    pub fn message(&self) -> (m: &str)
        ensures
            m@ == self.message@,
    {
        self.message.as_str()
    }
}

impl Clone for ApiError {
    fn clone(&self) -> (copy: ApiError)
        ensures
            copy.is(self.kind, self.message@),
    {
        ApiError { kind: self.kind, message: self.message.clone() }
    }
}

} // verus!
