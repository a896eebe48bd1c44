use vstd::prelude::*;

verus! {

/// HTTP status code attached to failures that indicate a server-side bug.
pub const INTERNAL_SERVER_ERROR: u16 = 500;

/// The closed failure taxonomy shared by the response envelope and the
/// readiness probe.
#[derive(Clone, Copy, PartialEq, Eq, Structural, Debug)]
pub enum ErrorKind {
    /// A payload could not be encoded for the wire.
    SerializationFailure,
    /// The readiness deadline passed before the endpoint answered.
    Timeout,
}

/// A typed failure surfaced to the immediate caller: a kind, an HTTP-style
/// status code, and a human-readable message.
#[derive(Clone, Debug)]
pub struct ApiError {
    pub kind: ErrorKind,
    pub status_code: u16,
    pub message: String,
}

impl ApiError {
    pub fn new(kind: ErrorKind, status_code: u16, message: String) -> (r: ApiError)
        ensures
            r.kind == kind,
            r.status_code == status_code,
            r.message@ == message@,
    {
        ApiError { kind, status_code, message }
    }
}

} // verus!
