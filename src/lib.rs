//! Client core for administering a local network-controller daemon over its
//! loopback HTTP API: token discovery, an authenticated transport, and the
//! decisions behind each controller operation.
pub mod controller;
pub mod create;
pub mod error;
pub mod members;
pub mod token;
pub mod transport;

pub use controller::{status_address, StatusInfo};
pub use create::{CreateAction, CreateEvent, CreatePhase, NetworkCreation};
pub use error::{
    api_result, classify_failure, ApiFailure, ControllerError, Operation, STATUS_NOT_FOUND,
};
pub use members::{has_duplicate, MemberHydration, MembersAction};
pub use token::{authtoken_path, default_token_path, platform_of, Platform};
pub use transport::{
    auth_client, local_client, AUTH_HEADER, BAD_TOKEN, BASE_URL, REQUEST_TIMEOUT_SECS,
};
