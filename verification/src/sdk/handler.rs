//! What a sidecar author implements.

use crate::json::Json;
use crate::protocol::error::{ProtocolError, METHOD_NOT_FOUND};
use crate::protocol::sidecar::{CancelResponse, HealthResponse, StatusResponse, SubmitResponse};
use crate::wire::Wire;
use vstd::prelude::*;

verus! {

/// Answers the requests of one sidecar.
///
/// A sidecar that finishes every task at once implements `health` and `submit`;
/// one that takes tasks on and is polled implements `status` and `cancel` too.
pub trait SidecarHandler: Send + Sync + 'static {
    /// The sidecar's name, for the log.
    fn name(&self) -> &str;

    /// Tells how the sidecar is.
    fn health(&self) -> HealthResponse;

    /// Runs a task with the parameters that came with it.
    fn submit(&self, params: Json) -> Result<SubmitResponse, ProtocolError>;

    /// Tells how a task is going. Refused unless the sidecar says otherwise.
    fn status(&self, task_id: &str) -> (r: Result<StatusResponse, ProtocolError>)
        default_ensures
            r is Err,
            r->Err_0.model() == ProtocolError::plain(
                METHOD_NOT_FOUND,
                "method not found: "@ + "status"@,
            ),
    {
        Err(ProtocolError::method_not_found("status"))
    }

    /// Gives a task up. Refused unless the sidecar says otherwise.
    fn cancel(&self, task_id: &str) -> (r: Result<CancelResponse, ProtocolError>)
        default_ensures
            r is Err,
            r->Err_0.model() == ProtocolError::plain(
                METHOD_NOT_FOUND,
                "method not found: "@ + "cancel"@,
            ),
    {
        Err(ProtocolError::method_not_found("cancel"))
    }
}

} // verus!
