use vstd::prelude::*;
use crate::error::ControllerError;

verus! {

/// What the daemon reports of itself, as far as this client reads it.
#[derive(Debug, Clone, PartialEq, Eq)]
pub struct StatusInfo {
    pub address: Option<String>,
    pub version: Option<String>,
    pub primary_port: Option<u64>,
}

/// The node address that a status snapshot names, as it came (an empty one
/// included; only a network creation, which puts it in a request path,
/// needs it non-empty); a snapshot without one is a decode error of
/// `GetStatus`.
pub fn status_address(status: &StatusInfo) -> (r: Result<String, ControllerError>)
    ensures
        status.address is Some ==> r == Ok::<String, ControllerError>(status.address->Some_0),
        status.address is None ==> r is Err && r->Err_0 is Decode
            && r->Err_0->operation == crate::error::Operation::GetStatus,
{
    match &status.address {
        Some(a) => Ok(a.clone()),
        None => Err(
            ControllerError::Decode {
                operation: crate::error::Operation::GetStatus,
                detail: String::from_str("the status names no node address"),
            },
        ),
    }
}

} // verus!
