//! The error taxonomy of the query service.
use vstd::prelude::*;

verus! {

/// What can go wrong while serving a query.
#[derive(Debug, Clone, Copy, PartialEq, Eq)]
pub enum Error {
    /// The runtime's read capability could not complete the read.
    RuntimeError,
}

/// The stable numeric code under which each error is reported.
pub open spec fn error_code(e: Error) -> i64 {
    match e {
        Error::RuntimeError => 1,
    }
}

impl From<Error> for i64 {
    fn from(e: Error) -> (r: i64) {
        match e {
            Error::RuntimeError => 1,
        }
    }
}

impl vstd::std_specs::convert::FromSpecImpl<Error> for i64 {
    open spec fn obeys_from_spec() -> bool {
        true
    }

    open spec fn from_spec(e: Error) -> i64 {
        error_code(e)
    }
}


/// The message that accompanies a runtime failure.
pub const UNAVAILABLE_MESSAGE: &'static str = "Unable to get value.";

/// The error returned to the caller of a query: a stable code, a message and
/// diagnostic text taken from the underlying cause.
#[derive(Debug, Clone, PartialEq, Eq)]
pub struct ServiceError {
    pub code: i64,
    pub message: String,
    pub data: Option<String>,
}

/// A service error with its text seen as character sequences.
pub struct ServiceErrorView {
    pub code: i64,
    pub message: Seq<char>,
    pub data: Option<Seq<char>>,
}

pub open spec fn optional_text(s: Option<String>) -> Option<Seq<char>> {
    match s {
        Some(t) => Some(t@),
        None => None,
    }
}

impl View for ServiceError {
    type V = ServiceErrorView;

    open spec fn view(&self) -> ServiceErrorView {
        ServiceErrorView { code: self.code, message: self.message@, data: optional_text(self.data) }
    }
}

/// The error reported when the runtime could not complete a read whose cause
/// reads as `diagnostic`.
pub open spec fn runtime_failure_view(diagnostic: Seq<char>) -> ServiceErrorView {
    ServiceErrorView {
        code: error_code(Error::RuntimeError),
        message: UNAVAILABLE_MESSAGE@,
        data: Some(diagnostic),
    }
}

impl ServiceError {
    /// The error for a runtime failure whose cause reads as `diagnostic`.
    pub fn runtime_failure(diagnostic: String) -> (r: ServiceError)
        ensures
            r@ == runtime_failure_view(diagnostic@),
    {
        ServiceError {
            code: i64::from(Error::RuntimeError),
            message: UNAVAILABLE_MESSAGE.to_owned(),
            data: Some(diagnostic),
        }
    }
}

} // verus!
