use vstd::prelude::*;

verus! {

/// The controller operations, named in the errors they report.
#[derive(Debug, Clone, Copy, PartialEq, Eq)]
pub enum Operation {
    GetStatus,
    ListNetworks,
    GetNetwork,
    CreateNetwork,
    ListMembers,
    GetMember,
}

/// The domain errors that every controller operation reports.
#[derive(Debug, Clone, PartialEq, Eq)]
pub enum ControllerError {
    /// The token path cannot be resolved, the token is not a valid header
    /// value, or the transport cannot be set up.
    Config(String),
    /// The token file at the given path cannot be read.
    Io(String),
    /// The daemon could not be reached (refused, timed out, reset).
    Transport(String),
    /// The daemon reports that the requested network or member does not exist.
    NotFound,
    /// The response of `operation` does not match the expected schema.
    Decode { operation: Operation, detail: String },
    /// The daemon answered with a failure status of its own, and this body.
    Daemon { status: u16, body: String },
}

/// A failed API round trip, as plain values.
#[derive(Debug, Clone, PartialEq, Eq)]
pub enum ApiFailure {
    /// The request could not be formed (for instance a bad path parameter).
    InvalidRequest(String),
    /// The connection failed before a response arrived.
    Communication(String),
    /// The daemon answered with a non-success HTTP status and this body.
    Status { code: u16, body: String },
    /// The body of a success response could not be read or decoded.
    InvalidPayload(String),
}

/// The HTTP status by which the daemon says that a resource does not exist.
pub const STATUS_NOT_FOUND: u16 = 404;

/// How a failed round trip of `op` is reported to callers.
pub open spec fn failure_error(op: Operation, f: ApiFailure) -> ControllerError {
    match f {
        ApiFailure::InvalidRequest(m) => ControllerError::Config(m),
        ApiFailure::Communication(m) => ControllerError::Transport(m),
        ApiFailure::Status { code, body } => if code == STATUS_NOT_FOUND {
            ControllerError::NotFound
        } else {
            ControllerError::Daemon { status: code, body }
        },
        ApiFailure::InvalidPayload(m) => ControllerError::Decode { operation: op, detail: m },
    }
}

/// Translates one failed round trip of `op` into the domain error reported
/// for it.
pub fn classify_failure(op: Operation, f: ApiFailure) -> (r: ControllerError)
    ensures
        r == failure_error(op, f),
{
    match f {
        ApiFailure::InvalidRequest(m) => ControllerError::Config(m),
        ApiFailure::Communication(m) => ControllerError::Transport(m),
        ApiFailure::Status { code, body } => if code == STATUS_NOT_FOUND {
            ControllerError::NotFound
        } else {
            ControllerError::Daemon { status: code, body }
        },
        ApiFailure::InvalidPayload(m) => ControllerError::Decode { operation: op, detail: m },
    }
}

/// The outcome of one round trip of `op` as callers see it: a value passes
/// through unchanged, a failure becomes its domain error.
pub fn api_result<T>(op: Operation, r: Result<T, ApiFailure>) -> (out: Result<T, ControllerError>)
    ensures
        out == match r {
            Ok(v) => Ok::<T, ControllerError>(v),
            Err(f) => Err(failure_error(op, f)),
        },
{
    match r {
        Ok(v) => Ok(v),
        Err(f) => Err(classify_failure(op, f)),
    }
}

} // verus!
