//! A sidecar that answers with what it was sent.

use crate::json::{self, Json};
use crate::protocol::error::ProtocolError;
use crate::protocol::sidecar::{
    HealthResponse, HealthResponseModel, HealthStatus, SubmitResponse, SubmitResponseModel,
};
use crate::sdk::handler::SidecarHandler;
use crate::wire::Wire;
use vstd::prelude::*;
use vstd::string::*;

verus! {

/// Where the sidecar listens unless told otherwise.
pub const DEFAULT_SOCKET: &'static str = "/run/vasal/echo-ctrl.sock";

/// Answers every task with its own parameters.
#[derive(Debug)]
pub struct EchoHandler {
    version: String,
}

impl EchoHandler {
    /// The sidecar's version.
    pub closed spec fn version(&self) -> Seq<char> {
        self.version@
    }

    /// A handler of the given version.
    pub fn new(version: &str) -> (r: EchoHandler)
        ensures
            r.version() == version@,
    {
        EchoHandler { version: version.to_owned() }
    }
}

impl SidecarHandler for EchoHandler {
    fn name(&self) -> (r: &str)
        ensures
            r@ == "echo-ctrl"@,
    {
        "echo-ctrl"
    }

    /// It is always well.
    fn health(&self) -> (r: HealthResponse)
        ensures
            r.model() == (HealthResponseModel {
                status: HealthStatus::Healthy,
                version: Some(self.version()),
                error: None,
                metadata: None,
            }),
    {
        HealthResponse {
            status: HealthStatus::Healthy,
            version: Some(self.version.clone()),
            error: None,
            metadata: None,
        }
    }

    /// The task is done at once; its output is its parameters over indented
    /// lines.
    fn submit(&self, params: Json) -> (r: Result<SubmitResponse, ProtocolError>)
        ensures
            r is Ok,
            r->Ok_0.model() == (SubmitResponseModel::Completed {
                stdout: json::pretty_text(params@),
                stderr: Seq::<char>::empty(),
                truncated: false,
            }),
            json::rereadable(params@) ==> json::parsed_text(r->Ok_0->stdout@) == Ok::<
                json::JsonView,
                Seq<char>,
            >(params@),
    {
        Ok(
            SubmitResponse::Completed {
                stdout: params.to_text_pretty(),
                stderr: String::new(),
                truncated: false,
            },
        )
    }
}

} // verus!
