//! Every type of the protocol survives a round trip through its JSON text.
//!
//! [`crate::wire::encode_text`] and its siblings promise that what survives is
//! read as it was written. The laws here say what survives: any value at all,
//! where JSON that the protocol does not look into holds no float, is nested no
//! deeper than it can be read, and is not a `null` that stands for no value.

use crate::json::{self, JsonView};
use crate::protocol::credential::{CredentialRef, CredentialRefModel};
use crate::protocol::heartbeat::{Heartbeat, HeartbeatModel, UnitReport};
use crate::protocol::jsonrpc::{
    ErrorObject, ErrorObjectModel, Request, RequestModel, Response, ResponseModel,
};
use crate::protocol::sidecar::{
    CancelParams, CancelParamsModel, CancelResponse, CancelResponseModel, HealthResponse,
    HealthResponseModel, StatusParams, StatusParamsModel, StatusResponse, StatusResponseModel,
    SubmitResponse, SubmitResponseModel,
};
use crate::protocol::task::{
    ChainStep, ExecTask, ExecTaskModel, Task, TaskChain, TaskChainModel, TaskModel, TaskResult,
    TaskResultModel,
};
use crate::protocol::unit::{ManagedUnit, ManagedUnitModel};
use crate::string_map::StringMap;
use crate::wire::{self, Wire};
use vstd::prelude::*;

verus! {

/// An optional JSON value that is read as it was written, at the given depth.
pub open spec fn kept_json(v: Option<JsonView>, depth: nat) -> bool {
    match v {
        Some(t) => !(t is Null) && json::plain_within(t, depth),
        None => true,
    }
}

/// A credential whose parameters are kept, at the given depth.
pub open spec fn kept_credential(m: CredentialRefModel, depth: nat) -> bool {
    depth > 1 && kept_json(m.params, (depth - 1) as nat)
}

/// An exec task whose payload and credentials are kept, at the given depth.
pub open spec fn kept_exec(m: ExecTaskModel, depth: nat) -> bool {
    &&& depth > 3
    &&& json::plain_within(m.payload, (depth - 1) as nat)
    &&& forall|i: int|
        0 <= i < m.credentials.len() ==> kept_credential(
            #[trigger] m.credentials[i],
            (depth - 2) as nat,
        )
}

/// A unit whose configuration is kept, at the given depth.
pub open spec fn kept_unit(m: ManagedUnitModel, depth: nat) -> bool {
    depth > 1 && kept_json(m.config, (depth - 1) as nat)
}

/// A task whose JSON parts are kept.
pub open spec fn kept_task(m: TaskModel) -> bool {
    match m {
        TaskModel::Exec(x) => kept_exec(x, json::MAX_DEPTH as nat),
        TaskModel::Install(x) => kept_unit(x.unit, (json::MAX_DEPTH - 1) as nat),
        _ => true,
    }
}

proof fn lemma_exec_fits(m: ExecTaskModel, depth: nat)
    requires
        kept_exec(m, depth),
    ensures
        ExecTask::lossless(m),
        ExecTask::fits(m, depth),
{
    assert forall|i: int| 0 <= i < m.credentials.len() implies CredentialRef::lossless(
        #[trigger] m.credentials[i],
    ) && CredentialRef::fits(m.credentials[i], (depth - 2) as nat) by {
        assert(kept_credential(m.credentials[i], (depth - 2) as nat));
    }
}

/// Every task result survives.
pub proof fn law_results_survive(m: TaskResultModel)
    ensures
        wire::survives::<TaskResult>(m),
{
}

/// Every heartbeat survives.
pub proof fn law_heartbeats_survive(m: HeartbeatModel)
    ensures
        wire::survives::<Heartbeat>(m),
{
    assert forall|i: int| 0 <= i < m.units.len() implies UnitReport::lossless(
        #[trigger] m.units[i],
    ) && UnitReport::fits(m.units[i], 125) by {}
}

/// Every answer to `submit`, `status` and `cancel` survives, and so do the
/// parameters of the last two.
pub proof fn law_sidecar_messages_survive(
    submit: SubmitResponseModel,
    status: StatusResponseModel,
    status_params: StatusParamsModel,
    cancel: CancelResponseModel,
    cancel_params: CancelParamsModel,
)
    ensures
        wire::survives::<SubmitResponse>(submit),
        wire::survives::<StatusResponse>(status),
        wire::survives::<StatusParams>(status_params),
        wire::survives::<CancelResponse>(cancel),
        wire::survives::<CancelParams>(cancel_params),
{
}

/// An answer to `health` survives with metadata that is kept.
pub proof fn law_health_answers_survive(m: HealthResponseModel)
    requires
        kept_json(m.metadata, 126),
    ensures
        wire::survives::<HealthResponse>(m),
{
}

/// A request survives with parameters that are kept.
pub proof fn law_requests_survive(m: RequestModel)
    requires
        kept_json(m.params, 126),
    ensures
        wire::survives::<Request>(m),
{
}

/// A response survives with a result and error data that are kept.
pub proof fn law_responses_survive(m: ResponseModel)
    requires
        kept_json(m.result, 126),
        m.error matches Some(e) ==> kept_json(e.data, 125),
    ensures
        wire::survives::<Response>(m),
{
}

/// A task survives with JSON parts that are kept.
pub proof fn law_tasks_survive(m: TaskModel)
    requires
        kept_task(m),
    ensures
        wire::survives::<Task>(m),
{
    if let TaskModel::Exec(x) = m {
        lemma_exec_fits(x, json::MAX_DEPTH as nat);
    }
}

/// A chain survives with steps and rollbacks that are kept.
pub proof fn law_chains_survive(m: TaskChainModel)
    requires
        forall|i: int|
            0 <= i < m.steps.len() ==> kept_exec((#[trigger] m.steps[i]).task, 124) && (
            m.steps[i].rollback matches Some(r) ==> kept_exec(r, 124)),
    ensures
        wire::survives::<TaskChain>(m),
{
    assert forall|i: int| 0 <= i < m.steps.len() implies ChainStep::lossless(#[trigger] m.steps[i])
        && ChainStep::fits(m.steps[i], 125) by {
        lemma_exec_fits(m.steps[i].task, 124);
        if let Some(r) = m.steps[i].rollback {
            lemma_exec_fits(r, 124);
        }
    }
}

} // verus!
