//! The kinds of error that the live-view subsystem reports.

use vstd::prelude::*;

verus! {

/// What went wrong, as far as the party that is told needs to know.
#[derive(Clone, Copy, Debug, PartialEq, Eq, Structural)]
pub enum ErrorKind {
    /// The caller may not do what it asked for.
    PermissionDenied,
    /// What the request names does not exist.
    NotFound,
    /// The system is in no state to serve the request.
    FailedPrecondition,
    /// The system contradicted itself.
    Internal,
}

impl ErrorKind {
    /// The HTTP status that answers a request which failed with this kind.
    pub open spec fn spec_http_status(self) -> u16 {
        match self {
            ErrorKind::PermissionDenied => 403,
            ErrorKind::NotFound => 404,
            ErrorKind::FailedPrecondition => 400,
            ErrorKind::Internal => 500,
        }
    }

    /// The HTTP status that answers a request which failed with this kind.
    #[verifier::when_used_as_spec(spec_http_status)]
    pub fn http_status(self) -> (status: u16)
        ensures
            status == self.spec_http_status(),
            400 <= status < 600,
    {
        match self {
            ErrorKind::PermissionDenied => 403,
            ErrorKind::NotFound => 404,
            ErrorKind::FailedPrecondition => 400,
            ErrorKind::Internal => 500,
        }
    }
}

} // verus!
