use vstd::prelude::*;
use crate::controller::StatusInfo;
use crate::error::{classify_failure, failure_error, ApiFailure, ControllerError, Operation};

verus! {

/// Where a network creation stands.
#[derive(Debug, Clone, Copy, PartialEq, Eq)]
pub enum CreatePhase {
    AwaitStatus,
    AwaitCreated,
    Done,
}

/// The answer to the request that the last action asked for; `N` is the
/// network record that the daemon hands back.
#[derive(Debug)]
pub enum CreateEvent<N> {
    Status(Result<StatusInfo, ApiFailure>),
    Created(Result<N, ApiFailure>),
}

/// What the caller is to do next.
#[derive(Debug)]
pub enum CreateAction<N> {
    /// Fetch the daemon's status.
    FetchStatus,
    /// Ask the controller at `controller` to create a network; with no id
    /// the daemon picks one.
    Generate { controller: String, network_id: Option<String> },
    /// The creation is over, with this outcome.
    Finish(Result<N, ControllerError>),
}

/// A status whose node address can scope the creation request: the address
/// is a path component, so it must be present and non-empty.
pub open spec fn can_scope(st: StatusInfo) -> bool {
    st.address is Some && st.address->Some_0@.len() > 0
}

/// The decisions of `create_network`: first the status is fetched for the
/// node address, then the creation is requested under that address, and
/// every failure on the way is the outcome.
#[derive(Debug)]
pub struct NetworkCreation {
    pub network_id: Option<String>,
    pub phase: CreatePhase,
}

impl NetworkCreation {
    /// Starts a creation of the network `network_id` (or of one that the
    /// daemon names): the first step is to fetch the status.
    pub fn begin<N>(network_id: Option<String>) -> (r: (NetworkCreation, CreateAction<N>))
        ensures
            r.0.network_id == network_id,
            r.0.phase == CreatePhase::AwaitStatus,
            r.1 is FetchStatus,
    {
        (NetworkCreation { network_id, phase: CreatePhase::AwaitStatus }, CreateAction::FetchStatus)
    }

    /// Takes the answer to the last request and says what comes next. A
    /// status without a usable address ends the creation with a decode
    /// error; a daemon failure is always the outcome, never masked.
    pub fn step<N>(&mut self, event: CreateEvent<N>) -> (a: CreateAction<N>)
        ensures
            final(self).network_id == old(self).network_id,
            match (old(self).phase, event) {
                (CreatePhase::AwaitStatus, CreateEvent::Status(Ok(st))) => if can_scope(st) {
                    final(self).phase == CreatePhase::AwaitCreated && a == (CreateAction::<
                        N,
                    >::Generate { controller: st.address->Some_0, network_id: old(self).network_id })
                } else {
                    final(self).phase == CreatePhase::Done && a is Finish && a->Finish_0 is Err
                        && a->Finish_0->Err_0 is Decode && a->Finish_0->Err_0->operation
                        == Operation::GetStatus
                },
                (CreatePhase::AwaitStatus, CreateEvent::Status(Err(f))) => final(self).phase
                    == CreatePhase::Done && a == CreateAction::<N>::Finish(
                    Err(failure_error(Operation::GetStatus, f)),
                ),
                (CreatePhase::AwaitCreated, CreateEvent::Created(Ok(n))) => final(self).phase
                    == CreatePhase::Done && a == CreateAction::Finish(Ok(n)),
                (CreatePhase::AwaitCreated, CreateEvent::Created(Err(f))) => final(self).phase
                    == CreatePhase::Done && a == CreateAction::<N>::Finish(
                    Err(failure_error(Operation::CreateNetwork, f)),
                ),
                _ => final(self).phase == CreatePhase::Done && a is Finish && a->Finish_0 is Err
                    && a->Finish_0->Err_0 is Config,
            },
    {
        match (self.phase, event) {
            (CreatePhase::AwaitStatus, CreateEvent::Status(Ok(st))) => {
                self.phase = CreatePhase::Done;
                match st.address {
                    Some(addr) => {
                        if addr.as_str().is_empty() {
                            CreateAction::Finish(
                                Err(
                                    ControllerError::Decode {
                                        operation: Operation::GetStatus,
                                        detail: String::from_str("the status names an empty node address"),
                                    },
                                ),
                            )
                        } else {
                            self.phase = CreatePhase::AwaitCreated;
                            CreateAction::Generate {
                                controller: addr,
                                network_id: self.network_id.clone(),
                            }
                        }
                    },
                    None => CreateAction::Finish(
                        Err(
                            ControllerError::Decode {
                                operation: Operation::GetStatus,
                                detail: String::from_str("the status names no node address"),
                            },
                        ),
                    ),
                }
            },
            (CreatePhase::AwaitStatus, CreateEvent::Status(Err(f))) => {
                self.phase = CreatePhase::Done;
                CreateAction::Finish(Err(classify_failure(Operation::GetStatus, f)))
            },
            (CreatePhase::AwaitCreated, CreateEvent::Created(Ok(n))) => {
                self.phase = CreatePhase::Done;
                CreateAction::Finish(Ok(n))
            },
            (CreatePhase::AwaitCreated, CreateEvent::Created(Err(f))) => {
                self.phase = CreatePhase::Done;
                CreateAction::Finish(Err(classify_failure(Operation::CreateNetwork, f)))
            },
            _ => {
                self.phase = CreatePhase::Done;
                CreateAction::Finish(
                    Err(ControllerError::Config(String::from_str("no such request is outstanding"))),
                )
            },
        }
    }
}

} // verus!
