//! What the types of the wire are made of: the names of their members, which of
//! them may be missing, and what is taken for one that is.

use crate::agent::auth::{BootstrapConfig, BootstrapConfigModel, BootstrapKey, BootstrapKeyModel, PersistedTokens, PersistedTokensModel, TokenResponse, TokenResponseModel};
use crate::agent::config::{AgentConfig, AgentConfigModel, AuditConfig, AuditConfigModel, AuthConfig, AuthConfigModel, Config, ConfigModel, GrpcConfig, GrpcConfigModel, HeartbeatConfig, HeartbeatConfigModel, PollConfig, PollConfigModel, ShellConfig, ShellConfigModel, TelemetryConfig, TelemetryConfigModel, TransportConfig, TransportConfigModel, TransportMode, UnitsConfig, UnitsConfigModel};
use crate::agent::self_upgrade::{PendingUpgrade, PendingUpgradeModel};
use crate::ids::Uuid;
use crate::json::{Json, JsonView, NumberView};
use crate::protocol::credential::{CredentialProvider, CredentialProviderModel, CredentialRef, CredentialRefModel, ResolveMode};
use crate::protocol::error::{ProtocolError, ProtocolErrorModel};
use crate::protocol::heartbeat::{ActiveTaskCounts, ActiveTaskCountsModel, Heartbeat, HeartbeatModel, UnitReport, UnitReportModel};
use crate::protocol::jsonrpc::{ErrorObject, ErrorObjectModel, Request, RequestId, RequestIdModel, RequestModel, Response, ResponseModel};
use crate::protocol::sidecar::{CancelParams, CancelParamsModel, CancelResponse, CancelResponseModel, HealthResponse, HealthResponseModel, HealthStatus, StatusParams, StatusParamsModel, StatusResponse, StatusResponseModel, SubmitResponse, SubmitResponseModel};
use crate::protocol::task::{CancelTask, CancelTaskModel, ChainStep, ChainStepModel, ExecKind, ExecTask, ExecTaskModel, Executor, InstallTask, InstallTaskModel, Priority, RemoveTask, RemoveTaskModel, RollbackSpec, RollbackSpecModel, RollbackStrategy, SelfUpgradeTask, SelfUpgradeTaskModel, Task, TaskChain, TaskChainModel, TaskModel, TaskResult, TaskResultModel, TaskResultStatus, UpgradeTask, UpgradeTaskModel};
use crate::protocol::unit::{Artifact, ArtifactModel, HealthCheck, HealthCheckModel, ManagedUnit, ManagedUnitModel, UnitKind, UnitState};
use crate::sidecars::ebpf_observer::{ProbeParams, ProbeParamsModel};
use crate::sidecars::sql_ctrl::{SqlParams, SqlParamsModel};
use crate::string_map::StringMap;
use crate::wire::{self, Fault, Form, Wire};
use vstd::prelude::*;
use vstd::string::*;

verus! {

/// Whether a member is there and is this.
pub open spec fn holds<T: Wire>(t: JsonView, key: Seq<char>, form: Form, m: T::Model) -> bool {
    t.field(key) is Some && T::read(t.field(key)->0, key, form) == Ok::<T::Model, Fault>(m)
}

/// Whether a member is this, or is missing and this is what is taken for it.
pub open spec fn holds_or<T: Wire>(
    t: JsonView,
    key: Seq<char>,
    form: Form,
    missing: T::Model,
    m: T::Model,
) -> bool {
    holds::<T>(t, key, form, m) || (t.field(key) is None && m == missing)
}

/// Whether a member is this, or there is none: it is missing, or it is `null` in a
/// form that has one.
pub open spec fn may_hold<T: Wire>(
    t: JsonView,
    key: Seq<char>,
    form: Form,
    m: Option<T::Model>,
) -> bool {
    let absent = t.field(key) is None || (t.field(key)->0 is Null && !(form is Toml));
    if absent {
        m is None
    } else {
        m is Some && holds::<T>(t, key, form, m->0)
    }
}

/// What is written of a member that there may not be.
pub open spec fn written<T: Wire>(m: Option<T::Model>) -> Option<JsonView> {
    if m is Some {
        Some(T::tree(m->0))
    } else {
        None
    }
}

/// What is written, or `null` where nothing is.
pub open spec fn or_null(v: Option<JsonView>) -> JsonView {
    if v is Some {
        v->0
    } else {
        JsonView::Null
    }
}

/// The names of [`ResolveMode`]: each value has its own, and no other name stands for any.
pub proof fn law_names_of_resolve_mode(m: ResolveMode, s: Seq<char>, at: Seq<char>)
    ensures
        ResolveMode::of_name(s) == Some(ResolveMode::Eager) <==> s == "eager"@,
        m == ResolveMode::Eager <==> m.wire_name() == "eager"@,
        ResolveMode::of_name(s) == Some(ResolveMode::Lazy) <==> s == "lazy"@,
        m == ResolveMode::Lazy <==> m.wire_name() == "lazy"@,
        ResolveMode::tree(m) == JsonView::Text(m.wire_name()),
        ResolveMode::read(JsonView::Text(s), at, Form::Plain) is Ok <==> s == "eager"@ || s == "lazy"@,
        ResolveMode::read(JsonView::Text(m.wire_name()), at, Form::Plain) == Ok::<ResolveMode, Fault>(m),
{
    reveal_strlit("eager");
    reveal_strlit("lazy");
    assert("eager"@.len() == 5);
    assert("lazy"@.len() == 4);
}

/// The members of [`CredentialRef`]: a value is read exactly where each of its members can
/// be, and then it has them.
pub proof fn law_members_of_credential_ref(t: JsonView, at: Seq<char>, form: Form, m: CredentialRefModel)
    requires
        t is Object,
    ensures
        CredentialRef::read(t, at, form) == Ok::<CredentialRefModel, Fault>(m) <==> ({
            &&& holds::<String>(t, "name"@, form, m.name)
            &&& holds::<ResolveMode>(t, "resolve"@, form, m.resolve)
            &&& holds::<CredentialProvider>(t, "provider"@, form, m.provider)
            &&& may_hold::<Json>(t, "params"@, form, m.params)
        }),
{
}

/// What is written of [`CredentialRef`]: each of its members under its name, and nothing else.
pub proof fn law_credential_ref_is_written(m: CredentialRefModel, other: Seq<char>)
    requires
        other != "name"@,
        other != "resolve"@,
        other != "provider"@,
        other != "params"@,
    ensures
        CredentialRef::tree(m) is Object,
        CredentialRef::tree(m).field("name"@) == Some(String::tree(m.name)),
        CredentialRef::tree(m).field("resolve"@) == Some(ResolveMode::tree(m.resolve)),
        CredentialRef::tree(m).field("provider"@) == Some(CredentialProvider::tree(m.provider)),
        CredentialRef::tree(m).field("params"@) == written::<Json>(m.params),
        CredentialRef::tree(m).field(other) is None,
{
    reveal_strlit("name");
    reveal_strlit("resolve");
    reveal_strlit("provider");
    reveal_strlit("params");
    assert("name"@.len() == 4);
    assert("resolve"@.len() == 7);
    assert("provider"@.len() == 8);
    assert("params"@.len() == 6);
}

/// The members of [`ProtocolError`]: a value is read exactly where each of its members can
/// be, and then it has them.
pub proof fn law_members_of_protocol_error(t: JsonView, at: Seq<char>, form: Form, m: ProtocolErrorModel)
    requires
        t is Object,
    ensures
        ProtocolError::read(t, at, form) == Ok::<ProtocolErrorModel, Fault>(m) <==> ({
            &&& holds::<i32>(t, "code"@, form, m.code)
            &&& holds::<String>(t, "message"@, form, m.message)
            &&& may_hold::<Json>(t, "data"@, form, m.data)
        }),
{
}

/// What is written of [`ProtocolError`]: each of its members under its name, and nothing else.
pub proof fn law_protocol_error_is_written(m: ProtocolErrorModel, other: Seq<char>)
    requires
        other != "code"@,
        other != "message"@,
        other != "data"@,
    ensures
        ProtocolError::tree(m) is Object,
        ProtocolError::tree(m).field("code"@) == Some(i32::tree(m.code)),
        ProtocolError::tree(m).field("message"@) == Some(String::tree(m.message)),
        ProtocolError::tree(m).field("data"@) == written::<Json>(m.data),
        ProtocolError::tree(m).field(other) is None,
{
    reveal_strlit("code");
    reveal_strlit("message");
    reveal_strlit("data");
    assert("code"@.len() == 4);
    assert("message"@.len() == 7);
    assert("data"@.len() == 4);
    assert("data"@[0] == 'd');
    assert("code"@[0] == 'c');
}

/// The members of [`UnitReport`]: a value is read exactly where each of its members can
/// be, and then it has them.
pub proof fn law_members_of_unit_report(t: JsonView, at: Seq<char>, form: Form, m: UnitReportModel)
    requires
        t is Object,
    ensures
        UnitReport::read(t, at, form) == Ok::<UnitReportModel, Fault>(m) <==> ({
            &&& holds::<String>(t, "name"@, form, m.name)
            &&& holds::<UnitKind>(t, "kind"@, form, m.kind)
            &&& holds::<String>(t, "version"@, form, m.version)
            &&& holds::<String>(t, "state"@, form, m.state)
            &&& may_hold::<HealthStatus>(t, "health"@, form, m.health)
            &&& may_hold::<u32>(t, "pid"@, form, m.pid)
            &&& may_hold::<String>(t, "health_error"@, form, m.health_error)
        }),
{
}

/// What is written of [`UnitReport`]: each of its members under its name, and nothing else.
pub proof fn law_unit_report_is_written(m: UnitReportModel, other: Seq<char>)
    requires
        other != "name"@,
        other != "kind"@,
        other != "version"@,
        other != "state"@,
        other != "health"@,
        other != "pid"@,
        other != "health_error"@,
    ensures
        UnitReport::tree(m) is Object,
        UnitReport::tree(m).field("name"@) == Some(String::tree(m.name)),
        UnitReport::tree(m).field("kind"@) == Some(UnitKind::tree(m.kind)),
        UnitReport::tree(m).field("version"@) == Some(String::tree(m.version)),
        UnitReport::tree(m).field("state"@) == Some(String::tree(m.state)),
        UnitReport::tree(m).field("health"@) == written::<HealthStatus>(m.health),
        UnitReport::tree(m).field("pid"@) == written::<u32>(m.pid),
        UnitReport::tree(m).field("health_error"@) == written::<String>(m.health_error),
        UnitReport::tree(m).field(other) is None,
{
    reveal_strlit("name");
    reveal_strlit("kind");
    reveal_strlit("version");
    reveal_strlit("state");
    reveal_strlit("health");
    reveal_strlit("pid");
    reveal_strlit("health_error");
    assert("name"@.len() == 4);
    assert("kind"@.len() == 4);
    assert("version"@.len() == 7);
    assert("state"@.len() == 5);
    assert("health"@.len() == 6);
    assert("pid"@.len() == 3);
    assert("health_error"@.len() == 12);
    assert("kind"@[0] == 'k');
    assert("name"@[0] == 'n');
}

/// The members of [`ActiveTaskCounts`]: a value is read exactly where each of its members can
/// be, and then it has them.
pub proof fn law_members_of_active_task_counts(t: JsonView, at: Seq<char>, form: Form, m: ActiveTaskCountsModel)
    requires
        t is Object,
    ensures
        ActiveTaskCounts::read(t, at, form) == Ok::<ActiveTaskCountsModel, Fault>(m) <==> ({
            &&& holds::<u32>(t, "oneshot"@, form, m.oneshot)
            &&& holds::<u32>(t, "continuous"@, form, m.continuous)
            &&& holds::<u32>(t, "total"@, form, m.total)
        }),
{
}

/// What is written of [`ActiveTaskCounts`]: each of its members under its name, and nothing else.
pub proof fn law_active_task_counts_is_written(m: ActiveTaskCountsModel, other: Seq<char>)
    requires
        other != "oneshot"@,
        other != "continuous"@,
        other != "total"@,
    ensures
        ActiveTaskCounts::tree(m) is Object,
        ActiveTaskCounts::tree(m).field("oneshot"@) == Some(u32::tree(m.oneshot)),
        ActiveTaskCounts::tree(m).field("continuous"@) == Some(u32::tree(m.continuous)),
        ActiveTaskCounts::tree(m).field("total"@) == Some(u32::tree(m.total)),
        ActiveTaskCounts::tree(m).field(other) is None,
{
    reveal_strlit("oneshot");
    reveal_strlit("continuous");
    reveal_strlit("total");
    assert("oneshot"@.len() == 7);
    assert("continuous"@.len() == 10);
    assert("total"@.len() == 5);
}

/// The members of [`Heartbeat`]: a value is read exactly where each of its members can
/// be, and then it has them.
pub proof fn law_members_of_heartbeat(t: JsonView, at: Seq<char>, form: Form, m: HeartbeatModel)
    requires
        t is Object,
    ensures
        Heartbeat::read(t, at, form) == Ok::<HeartbeatModel, Fault>(m) <==> ({
            &&& holds::<Uuid>(t, "agent_id"@, form, m.agent_id)
            &&& holds::<String>(t, "agent_version"@, form, m.agent_version)
            &&& holds::<u64>(t, "uptime_sec"@, form, m.uptime_sec)
            &&& holds::<u64>(t, "timestamp"@, form, m.timestamp)
            &&& holds_or::<Vec<UnitReport>>(t, "units"@, form, Seq::<UnitReportModel>::empty(), m.units)
            &&& holds_or::<ActiveTaskCounts>(t, "active_tasks"@, form, (ActiveTaskCountsModel { oneshot: 0, continuous: 0, total: 0 }), m.active_tasks)
        }),
{
}

/// What is written of [`Heartbeat`]: each of its members under its name, and nothing else.
pub proof fn law_heartbeat_is_written(m: HeartbeatModel, other: Seq<char>)
    requires
        other != "agent_id"@,
        other != "agent_version"@,
        other != "uptime_sec"@,
        other != "timestamp"@,
        other != "units"@,
        other != "active_tasks"@,
    ensures
        Heartbeat::tree(m) is Object,
        Heartbeat::tree(m).field("agent_id"@) == Some(Uuid::tree(m.agent_id)),
        Heartbeat::tree(m).field("agent_version"@) == Some(String::tree(m.agent_version)),
        Heartbeat::tree(m).field("uptime_sec"@) == Some(u64::tree(m.uptime_sec)),
        Heartbeat::tree(m).field("timestamp"@) == Some(u64::tree(m.timestamp)),
        Heartbeat::tree(m).field("units"@) == Some(Vec::<UnitReport>::tree(m.units)),
        Heartbeat::tree(m).field("active_tasks"@) == Some(ActiveTaskCounts::tree(m.active_tasks)),
        Heartbeat::tree(m).field(other) is None,
{
    reveal_strlit("agent_id");
    reveal_strlit("agent_version");
    reveal_strlit("uptime_sec");
    reveal_strlit("timestamp");
    reveal_strlit("units");
    reveal_strlit("active_tasks");
    assert("agent_id"@.len() == 8);
    assert("agent_version"@.len() == 13);
    assert("uptime_sec"@.len() == 10);
    assert("timestamp"@.len() == 9);
    assert("units"@.len() == 5);
    assert("active_tasks"@.len() == 12);
}

/// The members of [`Request`]: a value is read exactly where each of its members can
/// be, and then it has them.
pub proof fn law_members_of_request(t: JsonView, at: Seq<char>, form: Form, m: RequestModel)
    requires
        t is Object,
    ensures
        Request::read(t, at, form) == Ok::<RequestModel, Fault>(m) <==> ({
            &&& holds::<String>(t, "jsonrpc"@, form, m.jsonrpc)
            &&& holds::<String>(t, "method"@, form, m.method)
            &&& may_hold::<Json>(t, "params"@, form, m.params)
            &&& holds::<RequestId>(t, "id"@, form, m.id)
        }),
{
}

/// What is written of [`Request`]: each of its members under its name, and nothing else.
pub proof fn law_request_is_written(m: RequestModel, other: Seq<char>)
    requires
        other != "jsonrpc"@,
        other != "method"@,
        other != "params"@,
        other != "id"@,
    ensures
        Request::tree(m) is Object,
        Request::tree(m).field("jsonrpc"@) == Some(String::tree(m.jsonrpc)),
        Request::tree(m).field("method"@) == Some(String::tree(m.method)),
        Request::tree(m).field("params"@) == written::<Json>(m.params),
        Request::tree(m).field("id"@) == Some(RequestId::tree(m.id)),
        Request::tree(m).field(other) is None,
{
    reveal_strlit("jsonrpc");
    reveal_strlit("method");
    reveal_strlit("params");
    reveal_strlit("id");
    assert("jsonrpc"@.len() == 7);
    assert("method"@.len() == 6);
    assert("params"@.len() == 6);
    assert("id"@.len() == 2);
    assert("params"@[0] == 'p');
    assert("method"@[0] == 'm');
}

/// The members of [`ErrorObject`]: a value is read exactly where each of its members can
/// be, and then it has them.
pub proof fn law_members_of_error_object(t: JsonView, at: Seq<char>, form: Form, m: ErrorObjectModel)
    requires
        t is Object,
    ensures
        ErrorObject::read(t, at, form) == Ok::<ErrorObjectModel, Fault>(m) <==> ({
            &&& holds::<i32>(t, "code"@, form, m.code)
            &&& holds::<String>(t, "message"@, form, m.message)
            &&& may_hold::<Json>(t, "data"@, form, m.data)
        }),
{
}

/// What is written of [`ErrorObject`]: each of its members under its name, and nothing else.
pub proof fn law_error_object_is_written(m: ErrorObjectModel, other: Seq<char>)
    requires
        other != "code"@,
        other != "message"@,
        other != "data"@,
    ensures
        ErrorObject::tree(m) is Object,
        ErrorObject::tree(m).field("code"@) == Some(i32::tree(m.code)),
        ErrorObject::tree(m).field("message"@) == Some(String::tree(m.message)),
        ErrorObject::tree(m).field("data"@) == written::<Json>(m.data),
        ErrorObject::tree(m).field(other) is None,
{
    reveal_strlit("code");
    reveal_strlit("message");
    reveal_strlit("data");
    assert("code"@.len() == 4);
    assert("message"@.len() == 7);
    assert("data"@.len() == 4);
    assert("data"@[0] == 'd');
    assert("code"@[0] == 'c');
}

/// The members of [`Response`]: a value is read exactly where each of its members can
/// be, and then it has them.
pub proof fn law_members_of_response(t: JsonView, at: Seq<char>, form: Form, m: ResponseModel)
    requires
        t is Object,
    ensures
        Response::read(t, at, form) == Ok::<ResponseModel, Fault>(m) <==> ({
            &&& holds::<String>(t, "jsonrpc"@, form, m.jsonrpc)
            &&& may_hold::<Json>(t, "result"@, form, m.result)
            &&& may_hold::<ErrorObject>(t, "error"@, form, m.error)
            &&& holds::<RequestId>(t, "id"@, form, m.id)
        }),
{
}

/// What is written of [`Response`]: each of its members under its name, and nothing else.
pub proof fn law_response_is_written(m: ResponseModel, other: Seq<char>)
    requires
        other != "jsonrpc"@,
        other != "result"@,
        other != "error"@,
        other != "id"@,
    ensures
        Response::tree(m) is Object,
        Response::tree(m).field("jsonrpc"@) == Some(String::tree(m.jsonrpc)),
        Response::tree(m).field("result"@) == written::<Json>(m.result),
        Response::tree(m).field("error"@) == written::<ErrorObject>(m.error),
        Response::tree(m).field("id"@) == Some(RequestId::tree(m.id)),
        Response::tree(m).field(other) is None,
{
    reveal_strlit("jsonrpc");
    reveal_strlit("result");
    reveal_strlit("error");
    reveal_strlit("id");
    assert("jsonrpc"@.len() == 7);
    assert("result"@.len() == 6);
    assert("error"@.len() == 5);
    assert("id"@.len() == 2);
}

/// The members of [`StatusParams`]: a value is read exactly where each of its members can
/// be, and then it has them.
pub proof fn law_members_of_status_params(t: JsonView, at: Seq<char>, form: Form, m: StatusParamsModel)
    requires
        t is Object,
    ensures
        StatusParams::read(t, at, form) == Ok::<StatusParamsModel, Fault>(m) <==> ({
            &&& holds::<String>(t, "task_id"@, form, m.task_id)
        }),
{
}

/// What is written of [`StatusParams`]: each of its members under its name, and nothing else.
pub proof fn law_status_params_is_written(m: StatusParamsModel, other: Seq<char>)
    requires
        other != "task_id"@,
    ensures
        StatusParams::tree(m) is Object,
        StatusParams::tree(m).field("task_id"@) == Some(String::tree(m.task_id)),
        StatusParams::tree(m).field(other) is None,
{
    reveal_strlit("task_id");
    assert("task_id"@.len() == 7);
}

/// The members of [`CancelParams`]: a value is read exactly where each of its members can
/// be, and then it has them.
pub proof fn law_members_of_cancel_params(t: JsonView, at: Seq<char>, form: Form, m: CancelParamsModel)
    requires
        t is Object,
    ensures
        CancelParams::read(t, at, form) == Ok::<CancelParamsModel, Fault>(m) <==> ({
            &&& holds::<String>(t, "task_id"@, form, m.task_id)
        }),
{
}

/// What is written of [`CancelParams`]: each of its members under its name, and nothing else.
pub proof fn law_cancel_params_is_written(m: CancelParamsModel, other: Seq<char>)
    requires
        other != "task_id"@,
    ensures
        CancelParams::tree(m) is Object,
        CancelParams::tree(m).field("task_id"@) == Some(String::tree(m.task_id)),
        CancelParams::tree(m).field(other) is None,
{
    reveal_strlit("task_id");
    assert("task_id"@.len() == 7);
}

/// The members of [`CancelResponse`]: a value is read exactly where each of its members can
/// be, and then it has them.
pub proof fn law_members_of_cancel_response(t: JsonView, at: Seq<char>, form: Form, m: CancelResponseModel)
    requires
        t is Object,
    ensures
        CancelResponse::read(t, at, form) == Ok::<CancelResponseModel, Fault>(m) <==> ({
            &&& holds::<bool>(t, "cancelled"@, form, m.cancelled)
        }),
{
}

/// What is written of [`CancelResponse`]: each of its members under its name, and nothing else.
pub proof fn law_cancel_response_is_written(m: CancelResponseModel, other: Seq<char>)
    requires
        other != "cancelled"@,
    ensures
        CancelResponse::tree(m) is Object,
        CancelResponse::tree(m).field("cancelled"@) == Some(bool::tree(m.cancelled)),
        CancelResponse::tree(m).field(other) is None,
{
    reveal_strlit("cancelled");
    assert("cancelled"@.len() == 9);
}

/// The names of [`HealthStatus`]: each value has its own, and no other name stands for any.
pub proof fn law_names_of_health_status(m: HealthStatus, s: Seq<char>, at: Seq<char>)
    ensures
        HealthStatus::of_name(s) == Some(HealthStatus::Healthy) <==> s == "ok"@,
        m == HealthStatus::Healthy <==> m.wire_name() == "ok"@,
        HealthStatus::of_name(s) == Some(HealthStatus::Degraded) <==> s == "degraded"@,
        m == HealthStatus::Degraded <==> m.wire_name() == "degraded"@,
        HealthStatus::of_name(s) == Some(HealthStatus::Unhealthy) <==> s == "unhealthy"@,
        m == HealthStatus::Unhealthy <==> m.wire_name() == "unhealthy"@,
        HealthStatus::tree(m) == JsonView::Text(m.wire_name()),
        HealthStatus::read(JsonView::Text(s), at, Form::Plain) is Ok <==> s == "ok"@ || s == "degraded"@ || s == "unhealthy"@,
        HealthStatus::read(JsonView::Text(m.wire_name()), at, Form::Plain) == Ok::<HealthStatus, Fault>(m),
{
    reveal_strlit("ok");
    reveal_strlit("degraded");
    reveal_strlit("unhealthy");
    assert("ok"@.len() == 2);
    assert("degraded"@.len() == 8);
    assert("unhealthy"@.len() == 9);
}

/// The members of [`HealthResponse`]: a value is read exactly where each of its members can
/// be, and then it has them.
pub proof fn law_members_of_health_response(t: JsonView, at: Seq<char>, form: Form, m: HealthResponseModel)
    requires
        t is Object,
    ensures
        HealthResponse::read(t, at, form) == Ok::<HealthResponseModel, Fault>(m) <==> ({
            &&& holds::<HealthStatus>(t, "status"@, form, m.status)
            &&& may_hold::<String>(t, "version"@, form, m.version)
            &&& may_hold::<String>(t, "error"@, form, m.error)
            &&& may_hold::<Json>(t, "metadata"@, form, m.metadata)
        }),
{
}

/// What is written of [`HealthResponse`]: each of its members under its name, and nothing else.
pub proof fn law_health_response_is_written(m: HealthResponseModel, other: Seq<char>)
    requires
        other != "status"@,
        other != "version"@,
        other != "error"@,
        other != "metadata"@,
    ensures
        HealthResponse::tree(m) is Object,
        HealthResponse::tree(m).field("status"@) == Some(HealthStatus::tree(m.status)),
        HealthResponse::tree(m).field("version"@) == written::<String>(m.version),
        HealthResponse::tree(m).field("error"@) == written::<String>(m.error),
        HealthResponse::tree(m).field("metadata"@) == written::<Json>(m.metadata),
        HealthResponse::tree(m).field(other) is None,
{
    reveal_strlit("status");
    reveal_strlit("version");
    reveal_strlit("error");
    reveal_strlit("metadata");
    assert("status"@.len() == 6);
    assert("version"@.len() == 7);
    assert("error"@.len() == 5);
    assert("metadata"@.len() == 8);
}

/// The names of [`Priority`]: each value has its own, and no other name stands for any.
pub proof fn law_names_of_priority(m: Priority, s: Seq<char>, at: Seq<char>)
    ensures
        Priority::of_name(s) == Some(Priority::Critical) <==> s == "critical"@,
        m == Priority::Critical <==> m.wire_name() == "critical"@,
        Priority::of_name(s) == Some(Priority::High) <==> s == "high"@,
        m == Priority::High <==> m.wire_name() == "high"@,
        Priority::of_name(s) == Some(Priority::Normal) <==> s == "normal"@,
        m == Priority::Normal <==> m.wire_name() == "normal"@,
        Priority::of_name(s) == Some(Priority::Low) <==> s == "low"@,
        m == Priority::Low <==> m.wire_name() == "low"@,
        Priority::tree(m) == JsonView::Text(m.wire_name()),
        Priority::read(JsonView::Text(s), at, Form::Plain) is Ok <==> s == "critical"@ || s == "high"@ || s == "normal"@ || s == "low"@,
        Priority::read(JsonView::Text(m.wire_name()), at, Form::Plain) == Ok::<Priority, Fault>(m),
{
    reveal_strlit("critical");
    reveal_strlit("high");
    reveal_strlit("normal");
    reveal_strlit("low");
    assert("critical"@.len() == 8);
    assert("high"@.len() == 4);
    assert("normal"@.len() == 6);
    assert("low"@.len() == 3);
}

/// The names of [`Executor`]: each value has its own, and no other name stands for any.
pub proof fn law_names_of_executor(m: Executor, s: Seq<char>, at: Seq<char>)
    ensures
        Executor::of_name(s) == Some(Executor::Shell) <==> s == "shell"@,
        m == Executor::Shell <==> m.wire_name() == "shell"@,
        Executor::of_name(s) == Some(Executor::Sidecar) <==> s == "sidecar"@,
        m == Executor::Sidecar <==> m.wire_name() == "sidecar"@,
        Executor::tree(m) == JsonView::Text(m.wire_name()),
        Executor::read(JsonView::Text(s), at, Form::Plain) is Ok <==> s == "shell"@ || s == "sidecar"@,
        Executor::read(JsonView::Text(m.wire_name()), at, Form::Plain) == Ok::<Executor, Fault>(m),
{
    reveal_strlit("shell");
    reveal_strlit("sidecar");
    assert("shell"@.len() == 5);
    assert("sidecar"@.len() == 7);
}

/// The names of [`ExecKind`]: each value has its own, and no other name stands for any.
pub proof fn law_names_of_exec_kind(m: ExecKind, s: Seq<char>, at: Seq<char>)
    ensures
        ExecKind::of_name(s) == Some(ExecKind::Oneshot) <==> s == "oneshot"@,
        m == ExecKind::Oneshot <==> m.wire_name() == "oneshot"@,
        ExecKind::of_name(s) == Some(ExecKind::Continuous) <==> s == "continuous"@,
        m == ExecKind::Continuous <==> m.wire_name() == "continuous"@,
        ExecKind::tree(m) == JsonView::Text(m.wire_name()),
        ExecKind::read(JsonView::Text(s), at, Form::Plain) is Ok <==> s == "oneshot"@ || s == "continuous"@,
        ExecKind::read(JsonView::Text(m.wire_name()), at, Form::Plain) == Ok::<ExecKind, Fault>(m),
{
    reveal_strlit("oneshot");
    reveal_strlit("continuous");
    assert("oneshot"@.len() == 7);
    assert("continuous"@.len() == 10);
}

/// The members of [`ExecTask`]: a value is read exactly where each of its members can
/// be, and then it has them.
pub proof fn law_members_of_exec_task(t: JsonView, at: Seq<char>, form: Form, m: ExecTaskModel)
    requires
        t is Object,
    ensures
        ExecTask::read(t, at, form) == Ok::<ExecTaskModel, Fault>(m) <==> ({
            &&& holds::<Uuid>(t, "id"@, form, m.id)
            &&& holds_or::<Priority>(t, "priority"@, form, Priority::Normal, m.priority)
            &&& holds_or::<StringMap>(t, "tags"@, form, Map::<Seq<char>, Seq<char>>::empty(), m.tags)
            &&& holds::<ExecKind>(t, "kind"@, form, m.kind)
            &&& holds::<Executor>(t, "executor"@, form, m.executor)
            &&& may_hold::<String>(t, "target"@, form, m.target)
            &&& may_hold::<String>(t, "method"@, form, m.method)
            &&& holds_or::<Json>(t, "payload"@, form, JsonView::Null, m.payload)
            &&& may_hold::<u64>(t, "interval_ms"@, form, m.interval_ms)
            &&& holds::<u64>(t, "timeout_ms"@, form, m.timeout_ms)
            &&& holds_or::<Vec<CredentialRef>>(t, "credentials"@, form, Seq::<CredentialRefModel>::empty(), m.credentials)
        }),
{
}

/// What is written of [`ExecTask`]: each of its members under its name, and nothing else.
pub proof fn law_exec_task_is_written(m: ExecTaskModel, other: Seq<char>)
    requires
        other != "id"@,
        other != "priority"@,
        other != "tags"@,
        other != "kind"@,
        other != "executor"@,
        other != "target"@,
        other != "method"@,
        other != "payload"@,
        other != "interval_ms"@,
        other != "timeout_ms"@,
        other != "credentials"@,
    ensures
        ExecTask::tree(m) is Object,
        ExecTask::tree(m).field("id"@) == Some(Uuid::tree(m.id)),
        ExecTask::tree(m).field("priority"@) == Some(Priority::tree(m.priority)),
        ExecTask::tree(m).field("tags"@) == Some(StringMap::tree(m.tags)),
        ExecTask::tree(m).field("kind"@) == Some(ExecKind::tree(m.kind)),
        ExecTask::tree(m).field("executor"@) == Some(Executor::tree(m.executor)),
        ExecTask::tree(m).field("target"@) == written::<String>(m.target),
        ExecTask::tree(m).field("method"@) == written::<String>(m.method),
        ExecTask::tree(m).field("payload"@) == Some(Json::tree(m.payload)),
        ExecTask::tree(m).field("interval_ms"@) == written::<u64>(m.interval_ms),
        ExecTask::tree(m).field("timeout_ms"@) == Some(u64::tree(m.timeout_ms)),
        ExecTask::tree(m).field("credentials"@) == Some(Vec::<CredentialRef>::tree(m.credentials)),
        ExecTask::tree(m).field(other) is None,
{
    reveal_strlit("id");
    reveal_strlit("priority");
    reveal_strlit("tags");
    reveal_strlit("kind");
    reveal_strlit("executor");
    reveal_strlit("target");
    reveal_strlit("method");
    reveal_strlit("payload");
    reveal_strlit("interval_ms");
    reveal_strlit("timeout_ms");
    reveal_strlit("credentials");
    assert("id"@.len() == 2);
    assert("priority"@.len() == 8);
    assert("tags"@.len() == 4);
    assert("kind"@.len() == 4);
    assert("executor"@.len() == 8);
    assert("target"@.len() == 6);
    assert("method"@.len() == 6);
    assert("payload"@.len() == 7);
    assert("interval_ms"@.len() == 11);
    assert("timeout_ms"@.len() == 10);
    assert("credentials"@.len() == 11);
    assert("kind"@[0] == 'k');
    assert("tags"@[0] == 't');
    assert("executor"@[0] == 'e');
    assert("priority"@[0] == 'p');
    assert("method"@[0] == 'm');
    assert("target"@[0] == 't');
    assert("credentials"@[0] == 'c');
    assert("interval_ms"@[0] == 'i');
}

/// The members of [`CancelTask`]: a value is read exactly where each of its members can
/// be, and then it has them.
pub proof fn law_members_of_cancel_task(t: JsonView, at: Seq<char>, form: Form, m: CancelTaskModel)
    requires
        t is Object,
    ensures
        CancelTask::read(t, at, form) == Ok::<CancelTaskModel, Fault>(m) <==> ({
            &&& holds::<Uuid>(t, "id"@, form, m.id)
            &&& holds_or::<Priority>(t, "priority"@, form, Priority::Normal, m.priority)
            &&& holds_or::<StringMap>(t, "tags"@, form, Map::<Seq<char>, Seq<char>>::empty(), m.tags)
            &&& holds::<Uuid>(t, "target_task_id"@, form, m.target_task_id)
        }),
{
}

/// What is written of [`CancelTask`]: each of its members under its name, and nothing else.
pub proof fn law_cancel_task_is_written(m: CancelTaskModel, other: Seq<char>)
    requires
        other != "id"@,
        other != "priority"@,
        other != "tags"@,
        other != "target_task_id"@,
    ensures
        CancelTask::tree(m) is Object,
        CancelTask::tree(m).field("id"@) == Some(Uuid::tree(m.id)),
        CancelTask::tree(m).field("priority"@) == Some(Priority::tree(m.priority)),
        CancelTask::tree(m).field("tags"@) == Some(StringMap::tree(m.tags)),
        CancelTask::tree(m).field("target_task_id"@) == Some(Uuid::tree(m.target_task_id)),
        CancelTask::tree(m).field(other) is None,
{
    reveal_strlit("id");
    reveal_strlit("priority");
    reveal_strlit("tags");
    reveal_strlit("target_task_id");
    assert("id"@.len() == 2);
    assert("priority"@.len() == 8);
    assert("tags"@.len() == 4);
    assert("target_task_id"@.len() == 14);
}

/// The members of [`InstallTask`]: a value is read exactly where each of its members can
/// be, and then it has them.
pub proof fn law_members_of_install_task(t: JsonView, at: Seq<char>, form: Form, m: InstallTaskModel)
    requires
        t is Object,
    ensures
        InstallTask::read(t, at, form) == Ok::<InstallTaskModel, Fault>(m) <==> ({
            &&& holds::<Uuid>(t, "id"@, form, m.id)
            &&& holds_or::<Priority>(t, "priority"@, form, Priority::Normal, m.priority)
            &&& holds_or::<StringMap>(t, "tags"@, form, Map::<Seq<char>, Seq<char>>::empty(), m.tags)
            &&& holds::<ManagedUnit>(t, "unit"@, form, m.unit)
        }),
{
}

/// What is written of [`InstallTask`]: each of its members under its name, and nothing else.
pub proof fn law_install_task_is_written(m: InstallTaskModel, other: Seq<char>)
    requires
        other != "id"@,
        other != "priority"@,
        other != "tags"@,
        other != "unit"@,
    ensures
        InstallTask::tree(m) is Object,
        InstallTask::tree(m).field("id"@) == Some(Uuid::tree(m.id)),
        InstallTask::tree(m).field("priority"@) == Some(Priority::tree(m.priority)),
        InstallTask::tree(m).field("tags"@) == Some(StringMap::tree(m.tags)),
        InstallTask::tree(m).field("unit"@) == Some(ManagedUnit::tree(m.unit)),
        InstallTask::tree(m).field(other) is None,
{
    reveal_strlit("id");
    reveal_strlit("priority");
    reveal_strlit("tags");
    reveal_strlit("unit");
    assert("id"@.len() == 2);
    assert("priority"@.len() == 8);
    assert("tags"@.len() == 4);
    assert("unit"@.len() == 4);
    assert("unit"@[0] == 'u');
    assert("tags"@[0] == 't');
}

/// The members of [`RollbackSpec`]: a value is read exactly where each of its members can
/// be, and then it has them.
pub proof fn law_members_of_rollback_spec(t: JsonView, at: Seq<char>, form: Form, m: RollbackSpecModel)
    requires
        t is Object,
    ensures
        RollbackSpec::read(t, at, form) == Ok::<RollbackSpecModel, Fault>(m) <==> ({
            &&& holds::<String>(t, "version"@, form, m.version)
            &&& holds::<Artifact>(t, "artifact"@, form, m.artifact)
        }),
{
}

/// What is written of [`RollbackSpec`]: each of its members under its name, and nothing else.
pub proof fn law_rollback_spec_is_written(m: RollbackSpecModel, other: Seq<char>)
    requires
        other != "version"@,
        other != "artifact"@,
    ensures
        RollbackSpec::tree(m) is Object,
        RollbackSpec::tree(m).field("version"@) == Some(String::tree(m.version)),
        RollbackSpec::tree(m).field("artifact"@) == Some(Artifact::tree(m.artifact)),
        RollbackSpec::tree(m).field(other) is None,
{
    reveal_strlit("version");
    reveal_strlit("artifact");
    assert("version"@.len() == 7);
    assert("artifact"@.len() == 8);
}

/// The members of [`UpgradeTask`]: a value is read exactly where each of its members can
/// be, and then it has them.
pub proof fn law_members_of_upgrade_task(t: JsonView, at: Seq<char>, form: Form, m: UpgradeTaskModel)
    requires
        t is Object,
    ensures
        UpgradeTask::read(t, at, form) == Ok::<UpgradeTaskModel, Fault>(m) <==> ({
            &&& holds::<Uuid>(t, "id"@, form, m.id)
            &&& holds_or::<Priority>(t, "priority"@, form, Priority::Normal, m.priority)
            &&& holds_or::<StringMap>(t, "tags"@, form, Map::<Seq<char>, Seq<char>>::empty(), m.tags)
            &&& holds::<String>(t, "unit_name"@, form, m.unit_name)
            &&& holds::<String>(t, "target_version"@, form, m.target_version)
            &&& holds::<Artifact>(t, "artifact"@, form, m.artifact)
            &&& may_hold::<RollbackSpec>(t, "rollback"@, form, m.rollback)
        }),
{
}

/// What is written of [`UpgradeTask`]: each of its members under its name, and nothing else.
pub proof fn law_upgrade_task_is_written(m: UpgradeTaskModel, other: Seq<char>)
    requires
        other != "id"@,
        other != "priority"@,
        other != "tags"@,
        other != "unit_name"@,
        other != "target_version"@,
        other != "artifact"@,
        other != "rollback"@,
    ensures
        UpgradeTask::tree(m) is Object,
        UpgradeTask::tree(m).field("id"@) == Some(Uuid::tree(m.id)),
        UpgradeTask::tree(m).field("priority"@) == Some(Priority::tree(m.priority)),
        UpgradeTask::tree(m).field("tags"@) == Some(StringMap::tree(m.tags)),
        UpgradeTask::tree(m).field("unit_name"@) == Some(String::tree(m.unit_name)),
        UpgradeTask::tree(m).field("target_version"@) == Some(String::tree(m.target_version)),
        UpgradeTask::tree(m).field("artifact"@) == Some(Artifact::tree(m.artifact)),
        UpgradeTask::tree(m).field("rollback"@) == written::<RollbackSpec>(m.rollback),
        UpgradeTask::tree(m).field(other) is None,
{
    reveal_strlit("id");
    reveal_strlit("priority");
    reveal_strlit("tags");
    reveal_strlit("unit_name");
    reveal_strlit("target_version");
    reveal_strlit("artifact");
    reveal_strlit("rollback");
    assert("id"@.len() == 2);
    assert("priority"@.len() == 8);
    assert("tags"@.len() == 4);
    assert("unit_name"@.len() == 9);
    assert("target_version"@.len() == 14);
    assert("artifact"@.len() == 8);
    assert("rollback"@.len() == 8);
    assert("artifact"@[0] == 'a');
    assert("priority"@[0] == 'p');
    assert("rollback"@[0] == 'r');
}

/// The members of [`RemoveTask`]: a value is read exactly where each of its members can
/// be, and then it has them.
pub proof fn law_members_of_remove_task(t: JsonView, at: Seq<char>, form: Form, m: RemoveTaskModel)
    requires
        t is Object,
    ensures
        RemoveTask::read(t, at, form) == Ok::<RemoveTaskModel, Fault>(m) <==> ({
            &&& holds::<Uuid>(t, "id"@, form, m.id)
            &&& holds_or::<Priority>(t, "priority"@, form, Priority::Normal, m.priority)
            &&& holds_or::<StringMap>(t, "tags"@, form, Map::<Seq<char>, Seq<char>>::empty(), m.tags)
            &&& holds::<String>(t, "unit_name"@, form, m.unit_name)
            &&& holds_or::<bool>(t, "purge"@, form, false, m.purge)
        }),
{
}

/// What is written of [`RemoveTask`]: each of its members under its name, and nothing else.
pub proof fn law_remove_task_is_written(m: RemoveTaskModel, other: Seq<char>)
    requires
        other != "id"@,
        other != "priority"@,
        other != "tags"@,
        other != "unit_name"@,
        other != "purge"@,
    ensures
        RemoveTask::tree(m) is Object,
        RemoveTask::tree(m).field("id"@) == Some(Uuid::tree(m.id)),
        RemoveTask::tree(m).field("priority"@) == Some(Priority::tree(m.priority)),
        RemoveTask::tree(m).field("tags"@) == Some(StringMap::tree(m.tags)),
        RemoveTask::tree(m).field("unit_name"@) == Some(String::tree(m.unit_name)),
        RemoveTask::tree(m).field("purge"@) == Some(bool::tree(m.purge)),
        RemoveTask::tree(m).field(other) is None,
{
    reveal_strlit("id");
    reveal_strlit("priority");
    reveal_strlit("tags");
    reveal_strlit("unit_name");
    reveal_strlit("purge");
    assert("id"@.len() == 2);
    assert("priority"@.len() == 8);
    assert("tags"@.len() == 4);
    assert("unit_name"@.len() == 9);
    assert("purge"@.len() == 5);
}

/// The members of [`SelfUpgradeTask`]: a value is read exactly where each of its members can
/// be, and then it has them.
pub proof fn law_members_of_self_upgrade_task(t: JsonView, at: Seq<char>, form: Form, m: SelfUpgradeTaskModel)
    requires
        t is Object,
    ensures
        SelfUpgradeTask::read(t, at, form) == Ok::<SelfUpgradeTaskModel, Fault>(m) <==> ({
            &&& holds::<Uuid>(t, "id"@, form, m.id)
            &&& holds_or::<Priority>(t, "priority"@, form, Priority::Normal, m.priority)
            &&& holds_or::<StringMap>(t, "tags"@, form, Map::<Seq<char>, Seq<char>>::empty(), m.tags)
            &&& holds::<String>(t, "target_version"@, form, m.target_version)
            &&& holds::<Artifact>(t, "artifact"@, form, m.artifact)
            &&& may_hold::<RollbackSpec>(t, "rollback"@, form, m.rollback)
        }),
{
}

/// What is written of [`SelfUpgradeTask`]: each of its members under its name, and nothing else.
pub proof fn law_self_upgrade_task_is_written(m: SelfUpgradeTaskModel, other: Seq<char>)
    requires
        other != "id"@,
        other != "priority"@,
        other != "tags"@,
        other != "target_version"@,
        other != "artifact"@,
        other != "rollback"@,
    ensures
        SelfUpgradeTask::tree(m) is Object,
        SelfUpgradeTask::tree(m).field("id"@) == Some(Uuid::tree(m.id)),
        SelfUpgradeTask::tree(m).field("priority"@) == Some(Priority::tree(m.priority)),
        SelfUpgradeTask::tree(m).field("tags"@) == Some(StringMap::tree(m.tags)),
        SelfUpgradeTask::tree(m).field("target_version"@) == Some(String::tree(m.target_version)),
        SelfUpgradeTask::tree(m).field("artifact"@) == Some(Artifact::tree(m.artifact)),
        SelfUpgradeTask::tree(m).field("rollback"@) == written::<RollbackSpec>(m.rollback),
        SelfUpgradeTask::tree(m).field(other) is None,
{
    reveal_strlit("id");
    reveal_strlit("priority");
    reveal_strlit("tags");
    reveal_strlit("target_version");
    reveal_strlit("artifact");
    reveal_strlit("rollback");
    assert("id"@.len() == 2);
    assert("priority"@.len() == 8);
    assert("tags"@.len() == 4);
    assert("target_version"@.len() == 14);
    assert("artifact"@.len() == 8);
    assert("rollback"@.len() == 8);
    assert("artifact"@[0] == 'a');
    assert("priority"@[0] == 'p');
    assert("rollback"@[0] == 'r');
}

/// The names of [`RollbackStrategy`]: each value has its own, and no other name stands for any.
pub proof fn law_names_of_rollback_strategy(m: RollbackStrategy, s: Seq<char>, at: Seq<char>)
    ensures
        RollbackStrategy::of_name(s) == Some(RollbackStrategy::RollbackFailed) <==> s == "rollback_failed"@,
        m == RollbackStrategy::RollbackFailed <==> m.wire_name() == "rollback_failed"@,
        RollbackStrategy::of_name(s) == Some(RollbackStrategy::RollbackAll) <==> s == "rollback_all"@,
        m == RollbackStrategy::RollbackAll <==> m.wire_name() == "rollback_all"@,
        RollbackStrategy::tree(m) == JsonView::Text(m.wire_name()),
        RollbackStrategy::read(JsonView::Text(s), at, Form::Plain) is Ok <==> s == "rollback_failed"@ || s == "rollback_all"@,
        RollbackStrategy::read(JsonView::Text(m.wire_name()), at, Form::Plain) == Ok::<RollbackStrategy, Fault>(m),
{
    reveal_strlit("rollback_failed");
    reveal_strlit("rollback_all");
    assert("rollback_failed"@.len() == 15);
    assert("rollback_all"@.len() == 12);
}

/// The members of [`ChainStep`]: a value is read exactly where each of its members can
/// be, and then it has them.
pub proof fn law_members_of_chain_step(t: JsonView, at: Seq<char>, form: Form, m: ChainStepModel)
    requires
        t is Object,
    ensures
        ChainStep::read(t, at, form) == Ok::<ChainStepModel, Fault>(m) <==> ({
            &&& holds::<ExecTask>(t, "task"@, form, m.task)
            &&& may_hold::<ExecTask>(t, "rollback"@, form, m.rollback)
        }),
{
}

/// What is written of [`ChainStep`]: each of its members under its name, and nothing else.
pub proof fn law_chain_step_is_written(m: ChainStepModel, other: Seq<char>)
    requires
        other != "task"@,
        other != "rollback"@,
    ensures
        ChainStep::tree(m) is Object,
        ChainStep::tree(m).field("task"@) == Some(ExecTask::tree(m.task)),
        ChainStep::tree(m).field("rollback"@) == written::<ExecTask>(m.rollback),
        ChainStep::tree(m).field(other) is None,
{
    reveal_strlit("task");
    reveal_strlit("rollback");
    assert("task"@.len() == 4);
    assert("rollback"@.len() == 8);
}

/// The members of [`TaskChain`]: a value is read exactly where each of its members can
/// be, and then it has them.
pub proof fn law_members_of_task_chain(t: JsonView, at: Seq<char>, form: Form, m: TaskChainModel)
    requires
        t is Object,
    ensures
        TaskChain::read(t, at, form) == Ok::<TaskChainModel, Fault>(m) <==> ({
            &&& holds::<Uuid>(t, "id"@, form, m.id)
            &&& holds::<Vec<ChainStep>>(t, "steps"@, form, m.steps)
            &&& holds_or::<RollbackStrategy>(t, "on_failure"@, form, RollbackStrategy::RollbackAll, m.on_failure)
            &&& holds_or::<StringMap>(t, "tags"@, form, Map::<Seq<char>, Seq<char>>::empty(), m.tags)
        }),
{
}

/// What is written of [`TaskChain`]: each of its members under its name, and nothing else.
pub proof fn law_task_chain_is_written(m: TaskChainModel, other: Seq<char>)
    requires
        other != "id"@,
        other != "steps"@,
        other != "on_failure"@,
        other != "tags"@,
    ensures
        TaskChain::tree(m) is Object,
        TaskChain::tree(m).field("id"@) == Some(Uuid::tree(m.id)),
        TaskChain::tree(m).field("steps"@) == Some(Vec::<ChainStep>::tree(m.steps)),
        TaskChain::tree(m).field("on_failure"@) == Some(RollbackStrategy::tree(m.on_failure)),
        TaskChain::tree(m).field("tags"@) == Some(StringMap::tree(m.tags)),
        TaskChain::tree(m).field(other) is None,
{
    reveal_strlit("id");
    reveal_strlit("steps");
    reveal_strlit("on_failure");
    reveal_strlit("tags");
    assert("id"@.len() == 2);
    assert("steps"@.len() == 5);
    assert("on_failure"@.len() == 10);
    assert("tags"@.len() == 4);
}

/// The names of [`TaskResultStatus`]: each value has its own, and no other name stands for any.
pub proof fn law_names_of_task_result_status(m: TaskResultStatus, s: Seq<char>, at: Seq<char>)
    ensures
        TaskResultStatus::of_name(s) == Some(TaskResultStatus::Success) <==> s == "success"@,
        m == TaskResultStatus::Success <==> m.wire_name() == "success"@,
        TaskResultStatus::of_name(s) == Some(TaskResultStatus::Failed) <==> s == "failed"@,
        m == TaskResultStatus::Failed <==> m.wire_name() == "failed"@,
        TaskResultStatus::of_name(s) == Some(TaskResultStatus::Cancelled) <==> s == "cancelled"@,
        m == TaskResultStatus::Cancelled <==> m.wire_name() == "cancelled"@,
        TaskResultStatus::of_name(s) == Some(TaskResultStatus::Timeout) <==> s == "timeout"@,
        m == TaskResultStatus::Timeout <==> m.wire_name() == "timeout"@,
        TaskResultStatus::of_name(s) == Some(TaskResultStatus::RolledBack) <==> s == "rolled_back"@,
        m == TaskResultStatus::RolledBack <==> m.wire_name() == "rolled_back"@,
        TaskResultStatus::tree(m) == JsonView::Text(m.wire_name()),
        TaskResultStatus::read(JsonView::Text(s), at, Form::Plain) is Ok <==> s == "success"@ || s == "failed"@ || s == "cancelled"@ || s == "timeout"@ || s == "rolled_back"@,
        TaskResultStatus::read(JsonView::Text(m.wire_name()), at, Form::Plain) == Ok::<TaskResultStatus, Fault>(m),
{
    reveal_strlit("success");
    reveal_strlit("failed");
    reveal_strlit("cancelled");
    reveal_strlit("timeout");
    reveal_strlit("rolled_back");
    assert("success"@.len() == 7);
    assert("failed"@.len() == 6);
    assert("cancelled"@.len() == 9);
    assert("timeout"@.len() == 7);
    assert("rolled_back"@.len() == 11);
    assert("timeout"@[0] == 't');
    assert("success"@[0] == 's');
}

/// The members of [`TaskResult`]: a value is read exactly where each of its members can
/// be, and then it has them.
pub proof fn law_members_of_task_result(t: JsonView, at: Seq<char>, form: Form, m: TaskResultModel)
    requires
        t is Object,
    ensures
        TaskResult::read(t, at, form) == Ok::<TaskResultModel, Fault>(m) <==> ({
            &&& holds::<Uuid>(t, "task_id"@, form, m.task_id)
            &&& may_hold::<Uuid>(t, "chain_id"@, form, m.chain_id)
            &&& may_hold::<u32>(t, "step_index"@, form, m.step_index)
            &&& holds::<TaskResultStatus>(t, "status"@, form, m.status)
            &&& may_hold::<i32>(t, "exit_code"@, form, m.exit_code)
            &&& holds_or::<String>(t, "stdout"@, form, Seq::<char>::empty(), m.stdout)
            &&& holds_or::<String>(t, "stderr"@, form, Seq::<char>::empty(), m.stderr)
            &&& holds::<u64>(t, "duration_ms"@, form, m.duration_ms)
            &&& holds::<u64>(t, "timestamp"@, form, m.timestamp)
            &&& may_hold::<String>(t, "error"@, form, m.error)
        }),
{
}

/// What is written of [`TaskResult`]: each of its members under its name, and nothing else.
pub proof fn law_task_result_is_written(m: TaskResultModel, other: Seq<char>)
    requires
        other != "task_id"@,
        other != "chain_id"@,
        other != "step_index"@,
        other != "status"@,
        other != "exit_code"@,
        other != "stdout"@,
        other != "stderr"@,
        other != "duration_ms"@,
        other != "timestamp"@,
        other != "error"@,
    ensures
        TaskResult::tree(m) is Object,
        TaskResult::tree(m).field("task_id"@) == Some(Uuid::tree(m.task_id)),
        TaskResult::tree(m).field("chain_id"@) == written::<Uuid>(m.chain_id),
        TaskResult::tree(m).field("step_index"@) == written::<u32>(m.step_index),
        TaskResult::tree(m).field("status"@) == Some(TaskResultStatus::tree(m.status)),
        TaskResult::tree(m).field("exit_code"@) == written::<i32>(m.exit_code),
        TaskResult::tree(m).field("stdout"@) == Some(String::tree(m.stdout)),
        TaskResult::tree(m).field("stderr"@) == Some(String::tree(m.stderr)),
        TaskResult::tree(m).field("duration_ms"@) == Some(u64::tree(m.duration_ms)),
        TaskResult::tree(m).field("timestamp"@) == Some(u64::tree(m.timestamp)),
        TaskResult::tree(m).field("error"@) == written::<String>(m.error),
        TaskResult::tree(m).field(other) is None,
{
    reveal_strlit("task_id");
    reveal_strlit("chain_id");
    reveal_strlit("step_index");
    reveal_strlit("status");
    reveal_strlit("exit_code");
    reveal_strlit("stdout");
    reveal_strlit("stderr");
    reveal_strlit("duration_ms");
    reveal_strlit("timestamp");
    reveal_strlit("error");
    assert("task_id"@.len() == 7);
    assert("chain_id"@.len() == 8);
    assert("step_index"@.len() == 10);
    assert("status"@.len() == 6);
    assert("exit_code"@.len() == 9);
    assert("stdout"@.len() == 6);
    assert("stderr"@.len() == 6);
    assert("duration_ms"@.len() == 11);
    assert("timestamp"@.len() == 9);
    assert("error"@.len() == 5);
    assert("stdout"@[2] == 'd');
    assert("status"@[2] == 'a');
    assert("stderr"@[2] == 'd');
    assert("stderr"@[3] == 'e');
    assert("stdout"@[3] == 'o');
    assert("timestamp"@[0] == 't');
    assert("exit_code"@[0] == 'e');
}

/// The names of [`UnitKind`]: each value has its own, and no other name stands for any.
pub proof fn law_names_of_unit_kind(m: UnitKind, s: Seq<char>, at: Seq<char>)
    ensures
        UnitKind::of_name(s) == Some(UnitKind::Sidecar) <==> s == "sidecar"@,
        m == UnitKind::Sidecar <==> m.wire_name() == "sidecar"@,
        UnitKind::of_name(s) == Some(UnitKind::Package) <==> s == "package"@,
        m == UnitKind::Package <==> m.wire_name() == "package"@,
        UnitKind::tree(m) == JsonView::Text(m.wire_name()),
        UnitKind::read(JsonView::Text(s), at, Form::Plain) is Ok <==> s == "sidecar"@ || s == "package"@,
        UnitKind::read(JsonView::Text(m.wire_name()), at, Form::Plain) == Ok::<UnitKind, Fault>(m),
{
    reveal_strlit("sidecar");
    reveal_strlit("package");
    assert("sidecar"@.len() == 7);
    assert("package"@.len() == 7);
    assert("package"@[0] == 'p');
    assert("sidecar"@[0] == 's');
}

/// The names of [`UnitState`]: each value has its own, and no other name stands for any.
pub proof fn law_names_of_unit_state(m: UnitState, s: Seq<char>, at: Seq<char>)
    ensures
        UnitState::of_name(s) == Some(UnitState::Installed) <==> s == "installed"@,
        m == UnitState::Installed <==> m.wire_name() == "installed"@,
        UnitState::of_name(s) == Some(UnitState::Running) <==> s == "running"@,
        m == UnitState::Running <==> m.wire_name() == "running"@,
        UnitState::of_name(s) == Some(UnitState::Stopped) <==> s == "stopped"@,
        m == UnitState::Stopped <==> m.wire_name() == "stopped"@,
        UnitState::of_name(s) == Some(UnitState::Absent) <==> s == "absent"@,
        m == UnitState::Absent <==> m.wire_name() == "absent"@,
        UnitState::tree(m) == JsonView::Text(m.wire_name()),
        UnitState::read(JsonView::Text(s), at, Form::Plain) is Ok <==> s == "installed"@ || s == "running"@ || s == "stopped"@ || s == "absent"@,
        UnitState::read(JsonView::Text(m.wire_name()), at, Form::Plain) == Ok::<UnitState, Fault>(m),
{
    reveal_strlit("installed");
    reveal_strlit("running");
    reveal_strlit("stopped");
    reveal_strlit("absent");
    assert("installed"@.len() == 9);
    assert("running"@.len() == 7);
    assert("stopped"@.len() == 7);
    assert("absent"@.len() == 6);
    assert("stopped"@[0] == 's');
    assert("running"@[0] == 'r');
}

/// The members of [`Artifact`]: a value is read exactly where each of its members can
/// be, and then it has them.
pub proof fn law_members_of_artifact(t: JsonView, at: Seq<char>, form: Form, m: ArtifactModel)
    requires
        t is Object,
    ensures
        Artifact::read(t, at, form) == Ok::<ArtifactModel, Fault>(m) <==> ({
            &&& holds::<String>(t, "url"@, form, m.url)
            &&& holds::<String>(t, "sha256"@, form, m.sha256)
        }),
{
}

/// What is written of [`Artifact`]: each of its members under its name, and nothing else.
pub proof fn law_artifact_is_written(m: ArtifactModel, other: Seq<char>)
    requires
        other != "url"@,
        other != "sha256"@,
    ensures
        Artifact::tree(m) is Object,
        Artifact::tree(m).field("url"@) == Some(String::tree(m.url)),
        Artifact::tree(m).field("sha256"@) == Some(String::tree(m.sha256)),
        Artifact::tree(m).field(other) is None,
{
    reveal_strlit("url");
    reveal_strlit("sha256");
    assert("url"@.len() == 3);
    assert("sha256"@.len() == 6);
}

/// The members of [`HealthCheck`]: a value is read exactly where each of its members can
/// be, and then it has them.
pub proof fn law_members_of_health_check(t: JsonView, at: Seq<char>, form: Form, m: HealthCheckModel)
    requires
        t is Object,
    ensures
        HealthCheck::read(t, at, form) == Ok::<HealthCheckModel, Fault>(m) <==> ({
            &&& holds::<String>(t, "command"@, form, m.command)
            &&& holds_or::<u64>(t, "timeout_ms"@, form, 5_000u64, m.timeout_ms)
        }),
{
}

/// What is written of [`HealthCheck`]: each of its members under its name, and nothing else.
pub proof fn law_health_check_is_written(m: HealthCheckModel, other: Seq<char>)
    requires
        other != "command"@,
        other != "timeout_ms"@,
    ensures
        HealthCheck::tree(m) is Object,
        HealthCheck::tree(m).field("command"@) == Some(String::tree(m.command)),
        HealthCheck::tree(m).field("timeout_ms"@) == Some(u64::tree(m.timeout_ms)),
        HealthCheck::tree(m).field(other) is None,
{
    reveal_strlit("command");
    reveal_strlit("timeout_ms");
    assert("command"@.len() == 7);
    assert("timeout_ms"@.len() == 10);
}

/// The members of [`ManagedUnit`]: a value is read exactly where each of its members can
/// be, and then it has them.
pub proof fn law_members_of_managed_unit(t: JsonView, at: Seq<char>, form: Form, m: ManagedUnitModel)
    requires
        t is Object,
    ensures
        ManagedUnit::read(t, at, form) == Ok::<ManagedUnitModel, Fault>(m) <==> ({
            &&& holds::<String>(t, "name"@, form, m.name)
            &&& holds::<UnitKind>(t, "kind"@, form, m.kind)
            &&& holds::<String>(t, "version"@, form, m.version)
            &&& holds::<Artifact>(t, "artifact"@, form, m.artifact)
            &&& holds_or::<UnitState>(t, "state"@, form, UnitState::Absent, m.state)
            &&& may_hold::<HealthCheck>(t, "health_check"@, form, m.health_check)
            &&& may_hold::<Json>(t, "config"@, form, m.config)
            &&& may_hold::<String>(t, "socket_path"@, form, m.socket_path)
        }),
{
}

/// What is written of [`ManagedUnit`]: each of its members under its name, and nothing else.
pub proof fn law_managed_unit_is_written(m: ManagedUnitModel, other: Seq<char>)
    requires
        other != "name"@,
        other != "kind"@,
        other != "version"@,
        other != "artifact"@,
        other != "state"@,
        other != "health_check"@,
        other != "config"@,
        other != "socket_path"@,
    ensures
        ManagedUnit::tree(m) is Object,
        ManagedUnit::tree(m).field("name"@) == Some(String::tree(m.name)),
        ManagedUnit::tree(m).field("kind"@) == Some(UnitKind::tree(m.kind)),
        ManagedUnit::tree(m).field("version"@) == Some(String::tree(m.version)),
        ManagedUnit::tree(m).field("artifact"@) == Some(Artifact::tree(m.artifact)),
        ManagedUnit::tree(m).field("state"@) == Some(UnitState::tree(m.state)),
        ManagedUnit::tree(m).field("health_check"@) == written::<HealthCheck>(m.health_check),
        ManagedUnit::tree(m).field("config"@) == written::<Json>(m.config),
        ManagedUnit::tree(m).field("socket_path"@) == written::<String>(m.socket_path),
        ManagedUnit::tree(m).field(other) is None,
{
    reveal_strlit("name");
    reveal_strlit("kind");
    reveal_strlit("version");
    reveal_strlit("artifact");
    reveal_strlit("state");
    reveal_strlit("health_check");
    reveal_strlit("config");
    reveal_strlit("socket_path");
    assert("name"@.len() == 4);
    assert("kind"@.len() == 4);
    assert("version"@.len() == 7);
    assert("artifact"@.len() == 8);
    assert("state"@.len() == 5);
    assert("health_check"@.len() == 12);
    assert("config"@.len() == 6);
    assert("socket_path"@.len() == 11);
    assert("kind"@[0] == 'k');
    assert("name"@[0] == 'n');
}

/// The members of [`TokenResponse`]: a value is read exactly where each of its members can
/// be, and then it has them.
pub proof fn law_members_of_token_response(t: JsonView, at: Seq<char>, form: Form, m: TokenResponseModel)
    requires
        t is Object,
    ensures
        TokenResponse::read(t, at, form) == Ok::<TokenResponseModel, Fault>(m) <==> ({
            &&& holds::<String>(t, "access_token"@, form, m.access_token)
            &&& may_hold::<String>(t, "refresh_token"@, form, m.refresh_token)
            &&& may_hold::<u64>(t, "expires_in"@, form, m.expires_in)
            &&& may_hold::<String>(t, "token_type"@, form, m.token_type)
        }),
{
}

/// What is written of [`TokenResponse`]: each of its members under its name, and nothing else.
pub proof fn law_token_response_is_written(m: TokenResponseModel, other: Seq<char>)
    requires
        other != "access_token"@,
        other != "refresh_token"@,
        other != "expires_in"@,
        other != "token_type"@,
    ensures
        TokenResponse::tree(m) is Object,
        TokenResponse::tree(m).field("access_token"@) == Some(String::tree(m.access_token)),
        TokenResponse::tree(m).field("refresh_token"@) == Some(or_null(written::<String>(m.refresh_token))),
        TokenResponse::tree(m).field("expires_in"@) == Some(or_null(written::<u64>(m.expires_in))),
        TokenResponse::tree(m).field("token_type"@) == Some(or_null(written::<String>(m.token_type))),
        TokenResponse::tree(m).field(other) is None,
{
    reveal_strlit("access_token");
    reveal_strlit("refresh_token");
    reveal_strlit("expires_in");
    reveal_strlit("token_type");
    assert("access_token"@.len() == 12);
    assert("refresh_token"@.len() == 13);
    assert("expires_in"@.len() == 10);
    assert("token_type"@.len() == 10);
    assert("token_type"@[0] == 't');
    assert("expires_in"@[0] == 'e');
}

/// The members of [`PersistedTokens`]: a value is read exactly where each of its members can
/// be, and then it has them.
pub proof fn law_members_of_persisted_tokens(t: JsonView, at: Seq<char>, form: Form, m: PersistedTokensModel)
    requires
        t is Object,
    ensures
        PersistedTokens::read(t, at, form) == Ok::<PersistedTokensModel, Fault>(m) <==> ({
            &&& holds::<String>(t, "access_token"@, form, m.access_token)
            &&& may_hold::<String>(t, "refresh_token"@, form, m.refresh_token)
            &&& may_hold::<u64>(t, "expires_at"@, form, m.expires_at)
        }),
{
}

/// What is written of [`PersistedTokens`]: each of its members under its name, and nothing else.
pub proof fn law_persisted_tokens_is_written(m: PersistedTokensModel, other: Seq<char>)
    requires
        other != "access_token"@,
        other != "refresh_token"@,
        other != "expires_at"@,
    ensures
        PersistedTokens::tree(m) is Object,
        PersistedTokens::tree(m).field("access_token"@) == Some(String::tree(m.access_token)),
        PersistedTokens::tree(m).field("refresh_token"@) == Some(or_null(written::<String>(m.refresh_token))),
        PersistedTokens::tree(m).field("expires_at"@) == Some(or_null(written::<u64>(m.expires_at))),
        PersistedTokens::tree(m).field(other) is None,
{
    reveal_strlit("access_token");
    reveal_strlit("refresh_token");
    reveal_strlit("expires_at");
    assert("access_token"@.len() == 12);
    assert("refresh_token"@.len() == 13);
    assert("expires_at"@.len() == 10);
}

/// The members of [`BootstrapKey`]: a value is read exactly where each of its members can
/// be, and then it has them.
pub proof fn law_members_of_bootstrap_key(t: JsonView, at: Seq<char>, form: Form, m: BootstrapKeyModel)
    requires
        t is Object,
    ensures
        BootstrapKey::read(t, at, form) == Ok::<BootstrapKeyModel, Fault>(m) <==> ({
            &&& holds::<String>(t, "key"@, form, m.key)
            &&& holds::<String>(t, "auth_endpoint"@, form, m.auth_endpoint)
        }),
{
}

/// What is written of [`BootstrapKey`]: each of its members under its name, and nothing else.
pub proof fn law_bootstrap_key_is_written(m: BootstrapKeyModel, other: Seq<char>)
    requires
        other != "key"@,
        other != "auth_endpoint"@,
    ensures
        BootstrapKey::tree(m) is Object,
        BootstrapKey::tree(m).field("key"@) == Some(String::tree(m.key)),
        BootstrapKey::tree(m).field("auth_endpoint"@) == Some(String::tree(m.auth_endpoint)),
        BootstrapKey::tree(m).field(other) is None,
{
    reveal_strlit("key");
    reveal_strlit("auth_endpoint");
    assert("key"@.len() == 3);
    assert("auth_endpoint"@.len() == 13);
}

/// The members of [`BootstrapConfig`]: a value is read exactly where each of its members can
/// be, and then it has them.
pub proof fn law_members_of_bootstrap_config(t: JsonView, at: Seq<char>, form: Form, m: BootstrapConfigModel)
    requires
        t is Object,
    ensures
        BootstrapConfig::read(t, at, form) == Ok::<BootstrapConfigModel, Fault>(m) <==> ({
            &&& holds::<BootstrapKey>(t, "bootstrap"@, form, m.bootstrap)
        }),
{
}

/// What is written of [`BootstrapConfig`]: each of its members under its name, and nothing else.
pub proof fn law_bootstrap_config_is_written(m: BootstrapConfigModel, other: Seq<char>)
    requires
        other != "bootstrap"@,
    ensures
        BootstrapConfig::tree(m) is Object,
        BootstrapConfig::tree(m).field("bootstrap"@) == Some(BootstrapKey::tree(m.bootstrap)),
        BootstrapConfig::tree(m).field(other) is None,
{
    reveal_strlit("bootstrap");
    assert("bootstrap"@.len() == 9);
}

/// The names of [`TransportMode`]: each value has its own, and no other name stands for any.
pub proof fn law_names_of_transport_mode(m: TransportMode, s: Seq<char>, at: Seq<char>)
    ensures
        TransportMode::of_name(s) == Some(TransportMode::Poll) <==> s == "poll"@,
        m == TransportMode::Poll <==> m.wire_name() == "poll"@,
        TransportMode::of_name(s) == Some(TransportMode::Grpc) <==> s == "grpc"@,
        m == TransportMode::Grpc <==> m.wire_name() == "grpc"@,
        TransportMode::tree(m) == JsonView::Text(m.wire_name()),
        TransportMode::read(JsonView::Text(s), at, Form::Plain) is Ok <==> s == "poll"@ || s == "grpc"@,
        TransportMode::read(JsonView::Text(m.wire_name()), at, Form::Plain) == Ok::<TransportMode, Fault>(m),
{
    reveal_strlit("poll");
    reveal_strlit("grpc");
    assert("poll"@.len() == 4);
    assert("grpc"@.len() == 4);
    assert("grpc"@[0] == 'g');
    assert("poll"@[0] == 'p');
}

/// The members of [`PollConfig`]: a value is read exactly where each of its members can
/// be, and then it has them.
pub proof fn law_members_of_poll_config(t: JsonView, at: Seq<char>, form: Form, m: PollConfigModel)
    requires
        t is Object,
    ensures
        PollConfig::read(t, at, form) == Ok::<PollConfigModel, Fault>(m) <==> ({
            &&& holds::<String>(t, "endpoint"@, form, m.endpoint)
            &&& holds_or::<u64>(t, "interval_sec"@, form, 10u64, m.interval_sec)
        }),
{
}

/// What is written of [`PollConfig`]: each of its members under its name, and nothing else.
pub proof fn law_poll_config_is_written(m: PollConfigModel, other: Seq<char>)
    requires
        other != "endpoint"@,
        other != "interval_sec"@,
    ensures
        PollConfig::tree(m) is Object,
        PollConfig::tree(m).field("endpoint"@) == Some(String::tree(m.endpoint)),
        PollConfig::tree(m).field("interval_sec"@) == Some(u64::tree(m.interval_sec)),
        PollConfig::tree(m).field(other) is None,
{
    reveal_strlit("endpoint");
    reveal_strlit("interval_sec");
    assert("endpoint"@.len() == 8);
    assert("interval_sec"@.len() == 12);
}

/// The members of [`GrpcConfig`]: a value is read exactly where each of its members can
/// be, and then it has them.
pub proof fn law_members_of_grpc_config(t: JsonView, at: Seq<char>, form: Form, m: GrpcConfigModel)
    requires
        t is Object,
    ensures
        GrpcConfig::read(t, at, form) == Ok::<GrpcConfigModel, Fault>(m) <==> ({
            &&& holds::<String>(t, "endpoint"@, form, m.endpoint)
            &&& holds_or::<u64>(t, "reconnect_interval_sec"@, form, 5u64, m.reconnect_interval_sec)
        }),
{
}

/// What is written of [`GrpcConfig`]: each of its members under its name, and nothing else.
pub proof fn law_grpc_config_is_written(m: GrpcConfigModel, other: Seq<char>)
    requires
        other != "endpoint"@,
        other != "reconnect_interval_sec"@,
    ensures
        GrpcConfig::tree(m) is Object,
        GrpcConfig::tree(m).field("endpoint"@) == Some(String::tree(m.endpoint)),
        GrpcConfig::tree(m).field("reconnect_interval_sec"@) == Some(u64::tree(m.reconnect_interval_sec)),
        GrpcConfig::tree(m).field(other) is None,
{
    reveal_strlit("endpoint");
    reveal_strlit("reconnect_interval_sec");
    assert("endpoint"@.len() == 8);
    assert("reconnect_interval_sec"@.len() == 22);
}

/// The members of [`TransportConfig`]: a value is read exactly where each of its members can
/// be, and then it has them.
pub proof fn law_members_of_transport_config(t: JsonView, at: Seq<char>, form: Form, m: TransportConfigModel)
    requires
        t is Object,
    ensures
        TransportConfig::read(t, at, form) == Ok::<TransportConfigModel, Fault>(m) <==> ({
            &&& holds_or::<TransportMode>(t, "mode"@, form, TransportMode::Poll, m.mode)
            &&& may_hold::<PollConfig>(t, "poll"@, form, m.poll)
            &&& may_hold::<GrpcConfig>(t, "grpc"@, form, m.grpc)
        }),
{
}

/// What is written of [`TransportConfig`]: each of its members under its name, and nothing else.
pub proof fn law_transport_config_is_written(m: TransportConfigModel, other: Seq<char>)
    requires
        other != "mode"@,
        other != "poll"@,
        other != "grpc"@,
    ensures
        TransportConfig::tree(m) is Object,
        TransportConfig::tree(m).field("mode"@) == Some(TransportMode::tree(m.mode)),
        TransportConfig::tree(m).field("poll"@) == written::<PollConfig>(m.poll),
        TransportConfig::tree(m).field("grpc"@) == written::<GrpcConfig>(m.grpc),
        TransportConfig::tree(m).field(other) is None,
{
    reveal_strlit("mode");
    reveal_strlit("poll");
    reveal_strlit("grpc");
    assert("mode"@.len() == 4);
    assert("poll"@.len() == 4);
    assert("grpc"@.len() == 4);
    assert("poll"@[0] == 'p');
    assert("mode"@[0] == 'm');
    assert("grpc"@[0] == 'g');
}

/// The members of [`AgentConfig`]: a value is read exactly where each of its members can
/// be, and then it has them.
pub proof fn law_members_of_agent_config(t: JsonView, at: Seq<char>, form: Form, m: AgentConfigModel)
    requires
        t is Object,
    ensures
        AgentConfig::read(t, at, form) == Ok::<AgentConfigModel, Fault>(m) <==> ({
            &&& may_hold::<Uuid>(t, "id"@, form, m.id)
            &&& may_hold::<String>(t, "name"@, form, m.name)
            &&& holds_or::<String>(t, "data_dir"@, form, "/var/lib/vasal"@, m.data_dir)
            &&& holds_or::<String>(t, "socket_dir"@, form, "/run/vasal"@, m.socket_dir)
            &&& holds_or::<String>(t, "log_level"@, form, "info"@, m.log_level)
        }),
{
}

/// What is written of [`AgentConfig`]: each of its members under its name, and nothing else.
pub proof fn law_agent_config_is_written(m: AgentConfigModel, other: Seq<char>)
    requires
        other != "id"@,
        other != "name"@,
        other != "data_dir"@,
        other != "socket_dir"@,
        other != "log_level"@,
    ensures
        AgentConfig::tree(m) is Object,
        AgentConfig::tree(m).field("id"@) == written::<Uuid>(m.id),
        AgentConfig::tree(m).field("name"@) == written::<String>(m.name),
        AgentConfig::tree(m).field("data_dir"@) == Some(String::tree(m.data_dir)),
        AgentConfig::tree(m).field("socket_dir"@) == Some(String::tree(m.socket_dir)),
        AgentConfig::tree(m).field("log_level"@) == Some(String::tree(m.log_level)),
        AgentConfig::tree(m).field(other) is None,
{
    reveal_strlit("id");
    reveal_strlit("name");
    reveal_strlit("data_dir");
    reveal_strlit("socket_dir");
    reveal_strlit("log_level");
    assert("id"@.len() == 2);
    assert("name"@.len() == 4);
    assert("data_dir"@.len() == 8);
    assert("socket_dir"@.len() == 10);
    assert("log_level"@.len() == 9);
}

/// The members of [`HeartbeatConfig`]: a value is read exactly where each of its members can
/// be, and then it has them.
pub proof fn law_members_of_heartbeat_config(t: JsonView, at: Seq<char>, form: Form, m: HeartbeatConfigModel)
    requires
        t is Object,
    ensures
        HeartbeatConfig::read(t, at, form) == Ok::<HeartbeatConfigModel, Fault>(m) <==> ({
            &&& holds_or::<u64>(t, "interval_sec"@, form, 10u64, m.interval_sec)
            &&& holds::<String>(t, "endpoint"@, form, m.endpoint)
        }),
{
}

/// What is written of [`HeartbeatConfig`]: each of its members under its name, and nothing else.
pub proof fn law_heartbeat_config_is_written(m: HeartbeatConfigModel, other: Seq<char>)
    requires
        other != "interval_sec"@,
        other != "endpoint"@,
    ensures
        HeartbeatConfig::tree(m) is Object,
        HeartbeatConfig::tree(m).field("interval_sec"@) == Some(u64::tree(m.interval_sec)),
        HeartbeatConfig::tree(m).field("endpoint"@) == Some(String::tree(m.endpoint)),
        HeartbeatConfig::tree(m).field(other) is None,
{
    reveal_strlit("interval_sec");
    reveal_strlit("endpoint");
    assert("interval_sec"@.len() == 12);
    assert("endpoint"@.len() == 8);
}

/// The members of [`AuditConfig`]: a value is read exactly where each of its members can
/// be, and then it has them.
pub proof fn law_members_of_audit_config(t: JsonView, at: Seq<char>, form: Form, m: AuditConfigModel)
    requires
        t is Object,
    ensures
        AuditConfig::read(t, at, form) == Ok::<AuditConfigModel, Fault>(m) <==> ({
            &&& holds::<String>(t, "endpoint"@, form, m.endpoint)
            &&& holds_or::<usize>(t, "batch_size"@, form, 50usize, m.batch_size)
            &&& holds_or::<u64>(t, "flush_interval_sec"@, form, 5u64, m.flush_interval_sec)
        }),
{
}

/// What is written of [`AuditConfig`]: each of its members under its name, and nothing else.
pub proof fn law_audit_config_is_written(m: AuditConfigModel, other: Seq<char>)
    requires
        other != "endpoint"@,
        other != "batch_size"@,
        other != "flush_interval_sec"@,
    ensures
        AuditConfig::tree(m) is Object,
        AuditConfig::tree(m).field("endpoint"@) == Some(String::tree(m.endpoint)),
        AuditConfig::tree(m).field("batch_size"@) == Some(usize::tree(m.batch_size)),
        AuditConfig::tree(m).field("flush_interval_sec"@) == Some(u64::tree(m.flush_interval_sec)),
        AuditConfig::tree(m).field(other) is None,
{
    reveal_strlit("endpoint");
    reveal_strlit("batch_size");
    reveal_strlit("flush_interval_sec");
    assert("endpoint"@.len() == 8);
    assert("batch_size"@.len() == 10);
    assert("flush_interval_sec"@.len() == 18);
}

/// The members of [`AuthConfig`]: a value is read exactly where each of its members can
/// be, and then it has them.
pub proof fn law_members_of_auth_config(t: JsonView, at: Seq<char>, form: Form, m: AuthConfigModel)
    requires
        t is Object,
    ensures
        AuthConfig::read(t, at, form) == Ok::<AuthConfigModel, Fault>(m) <==> ({
            &&& holds::<String>(t, "provider"@, form, m.provider)
            &&& holds_or::<String>(t, "token_file"@, form, "/var/lib/vasal/token.json"@, m.token_file)
        }),
{
}

/// What is written of [`AuthConfig`]: each of its members under its name, and nothing else.
pub proof fn law_auth_config_is_written(m: AuthConfigModel, other: Seq<char>)
    requires
        other != "provider"@,
        other != "token_file"@,
    ensures
        AuthConfig::tree(m) is Object,
        AuthConfig::tree(m).field("provider"@) == Some(String::tree(m.provider)),
        AuthConfig::tree(m).field("token_file"@) == Some(String::tree(m.token_file)),
        AuthConfig::tree(m).field(other) is None,
{
    reveal_strlit("provider");
    reveal_strlit("token_file");
    assert("provider"@.len() == 8);
    assert("token_file"@.len() == 10);
}

/// The members of [`ShellConfig`]: a value is read exactly where each of its members can
/// be, and then it has them.
pub proof fn law_members_of_shell_config(t: JsonView, at: Seq<char>, form: Form, m: ShellConfigModel)
    requires
        t is Object,
    ensures
        ShellConfig::read(t, at, form) == Ok::<ShellConfigModel, Fault>(m) <==> ({
            &&& holds_or::<u64>(t, "default_timeout_ms"@, form, 300_000u64, m.default_timeout_ms)
            &&& holds_or::<usize>(t, "max_concurrent"@, form, 4usize, m.max_concurrent)
            &&& holds_or::<String>(t, "working_dir"@, form, "/tmp/vasal"@, m.working_dir)
        }),
{
}

/// What is written of [`ShellConfig`]: each of its members under its name, and nothing else.
pub proof fn law_shell_config_is_written(m: ShellConfigModel, other: Seq<char>)
    requires
        other != "default_timeout_ms"@,
        other != "max_concurrent"@,
        other != "working_dir"@,
    ensures
        ShellConfig::tree(m) is Object,
        ShellConfig::tree(m).field("default_timeout_ms"@) == Some(u64::tree(m.default_timeout_ms)),
        ShellConfig::tree(m).field("max_concurrent"@) == Some(usize::tree(m.max_concurrent)),
        ShellConfig::tree(m).field("working_dir"@) == Some(String::tree(m.working_dir)),
        ShellConfig::tree(m).field(other) is None,
{
    reveal_strlit("default_timeout_ms");
    reveal_strlit("max_concurrent");
    reveal_strlit("working_dir");
    assert("default_timeout_ms"@.len() == 18);
    assert("max_concurrent"@.len() == 14);
    assert("working_dir"@.len() == 11);
}

/// The members of [`UnitsConfig`]: a value is read exactly where each of its members can
/// be, and then it has them.
pub proof fn law_members_of_units_config(t: JsonView, at: Seq<char>, form: Form, m: UnitsConfigModel)
    requires
        t is Object,
    ensures
        UnitsConfig::read(t, at, form) == Ok::<UnitsConfigModel, Fault>(m) <==> ({
            &&& holds_or::<String>(t, "artifact_cache_dir"@, form, "/var/cache/vasal"@, m.artifact_cache_dir)
            &&& holds_or::<u64>(t, "health_check_interval_sec"@, form, 30u64, m.health_check_interval_sec)
        }),
{
}

/// What is written of [`UnitsConfig`]: each of its members under its name, and nothing else.
pub proof fn law_units_config_is_written(m: UnitsConfigModel, other: Seq<char>)
    requires
        other != "artifact_cache_dir"@,
        other != "health_check_interval_sec"@,
    ensures
        UnitsConfig::tree(m) is Object,
        UnitsConfig::tree(m).field("artifact_cache_dir"@) == Some(String::tree(m.artifact_cache_dir)),
        UnitsConfig::tree(m).field("health_check_interval_sec"@) == Some(u64::tree(m.health_check_interval_sec)),
        UnitsConfig::tree(m).field(other) is None,
{
    reveal_strlit("artifact_cache_dir");
    reveal_strlit("health_check_interval_sec");
    assert("artifact_cache_dir"@.len() == 18);
    assert("health_check_interval_sec"@.len() == 25);
}

/// The members of [`TelemetryConfig`]: a value is read exactly where each of its members can
/// be, and then it has them.
pub proof fn law_members_of_telemetry_config(t: JsonView, at: Seq<char>, form: Form, m: TelemetryConfigModel)
    requires
        t is Object,
    ensures
        TelemetryConfig::read(t, at, form) == Ok::<TelemetryConfigModel, Fault>(m) <==> ({
            &&& holds_or::<bool>(t, "enabled"@, form, false, m.enabled)
            &&& holds_or::<String>(t, "otlp_endpoint"@, form, "http://localhost:4318"@, m.otlp_endpoint)
            &&& holds_or::<String>(t, "service_name"@, form, "vasal"@, m.service_name)
        }),
{
}

/// What is written of [`TelemetryConfig`]: each of its members under its name, and nothing else.
pub proof fn law_telemetry_config_is_written(m: TelemetryConfigModel, other: Seq<char>)
    requires
        other != "enabled"@,
        other != "otlp_endpoint"@,
        other != "service_name"@,
    ensures
        TelemetryConfig::tree(m) is Object,
        TelemetryConfig::tree(m).field("enabled"@) == Some(bool::tree(m.enabled)),
        TelemetryConfig::tree(m).field("otlp_endpoint"@) == Some(String::tree(m.otlp_endpoint)),
        TelemetryConfig::tree(m).field("service_name"@) == Some(String::tree(m.service_name)),
        TelemetryConfig::tree(m).field(other) is None,
{
    reveal_strlit("enabled");
    reveal_strlit("otlp_endpoint");
    reveal_strlit("service_name");
    assert("enabled"@.len() == 7);
    assert("otlp_endpoint"@.len() == 13);
    assert("service_name"@.len() == 12);
}

/// The members of [`Config`]: a value is read exactly where each of its members can
/// be, and then it has them.
pub proof fn law_members_of_config(t: JsonView, at: Seq<char>, form: Form, m: ConfigModel)
    requires
        t is Object,
    ensures
        Config::read(t, at, form) == Ok::<ConfigModel, Fault>(m) <==> ({
            &&& holds::<AgentConfig>(t, "agent"@, form, m.agent)
            &&& holds::<TransportConfig>(t, "transport"@, form, m.transport)
            &&& holds::<HeartbeatConfig>(t, "heartbeat"@, form, m.heartbeat)
            &&& holds::<AuditConfig>(t, "audit"@, form, m.audit)
            &&& holds::<AuthConfig>(t, "auth"@, form, m.auth)
            &&& holds::<ShellConfig>(t, "shell"@, form, m.shell)
            &&& holds::<UnitsConfig>(t, "units"@, form, m.units)
            &&& holds_or::<TelemetryConfig>(t, "telemetry"@, form, (TelemetryConfigModel { enabled: false, otlp_endpoint: "http://localhost:4318"@, service_name: "vasal"@ }), m.telemetry)
        }),
{
}

/// What is written of [`Config`]: each of its members under its name, and nothing else.
pub proof fn law_config_is_written(m: ConfigModel, other: Seq<char>)
    requires
        other != "agent"@,
        other != "transport"@,
        other != "heartbeat"@,
        other != "audit"@,
        other != "auth"@,
        other != "shell"@,
        other != "units"@,
        other != "telemetry"@,
    ensures
        Config::tree(m) is Object,
        Config::tree(m).field("agent"@) == Some(AgentConfig::tree(m.agent)),
        Config::tree(m).field("transport"@) == Some(TransportConfig::tree(m.transport)),
        Config::tree(m).field("heartbeat"@) == Some(HeartbeatConfig::tree(m.heartbeat)),
        Config::tree(m).field("audit"@) == Some(AuditConfig::tree(m.audit)),
        Config::tree(m).field("auth"@) == Some(AuthConfig::tree(m.auth)),
        Config::tree(m).field("shell"@) == Some(ShellConfig::tree(m.shell)),
        Config::tree(m).field("units"@) == Some(UnitsConfig::tree(m.units)),
        Config::tree(m).field("telemetry"@) == Some(TelemetryConfig::tree(m.telemetry)),
        Config::tree(m).field(other) is None,
{
    reveal_strlit("agent");
    reveal_strlit("transport");
    reveal_strlit("heartbeat");
    reveal_strlit("audit");
    reveal_strlit("auth");
    reveal_strlit("shell");
    reveal_strlit("units");
    reveal_strlit("telemetry");
    assert("agent"@.len() == 5);
    assert("transport"@.len() == 9);
    assert("heartbeat"@.len() == 9);
    assert("audit"@.len() == 5);
    assert("auth"@.len() == 4);
    assert("shell"@.len() == 5);
    assert("units"@.len() == 5);
    assert("telemetry"@.len() == 9);
    assert("heartbeat"@[0] == 'h');
    assert("transport"@[0] == 't');
    assert("audit"@[1] == 'u');
    assert("agent"@[1] == 'g');
    assert("shell"@[0] == 's');
    assert("agent"@[0] == 'a');
    assert("audit"@[0] == 'a');
    assert("units"@[0] == 'u');
    assert("telemetry"@[1] == 'e');
    assert("transport"@[1] == 'r');
    assert("telemetry"@[0] == 't');
}

/// The members of [`PendingUpgrade`]: a value is read exactly where each of its members can
/// be, and then it has them.
pub proof fn law_members_of_pending_upgrade(t: JsonView, at: Seq<char>, form: Form, m: PendingUpgradeModel)
    requires
        t is Object,
    ensures
        PendingUpgrade::read(t, at, form) == Ok::<PendingUpgradeModel, Fault>(m) <==> ({
            &&& holds::<String>(t, "target_version"@, form, m.target_version)
            &&& holds::<String>(t, "previous_version"@, form, m.previous_version)
            &&& holds::<String>(t, "rollback_path"@, form, m.rollback_path)
            &&& holds::<i64>(t, "initiated_at"@, form, m.initiated_at)
        }),
{
}

/// What is written of [`PendingUpgrade`]: each of its members under its name, and nothing else.
pub proof fn law_pending_upgrade_is_written(m: PendingUpgradeModel, other: Seq<char>)
    requires
        other != "target_version"@,
        other != "previous_version"@,
        other != "rollback_path"@,
        other != "initiated_at"@,
    ensures
        PendingUpgrade::tree(m) is Object,
        PendingUpgrade::tree(m).field("target_version"@) == Some(String::tree(m.target_version)),
        PendingUpgrade::tree(m).field("previous_version"@) == Some(String::tree(m.previous_version)),
        PendingUpgrade::tree(m).field("rollback_path"@) == Some(String::tree(m.rollback_path)),
        PendingUpgrade::tree(m).field("initiated_at"@) == Some(i64::tree(m.initiated_at)),
        PendingUpgrade::tree(m).field(other) is None,
{
    reveal_strlit("target_version");
    reveal_strlit("previous_version");
    reveal_strlit("rollback_path");
    reveal_strlit("initiated_at");
    assert("target_version"@.len() == 14);
    assert("previous_version"@.len() == 16);
    assert("rollback_path"@.len() == 13);
    assert("initiated_at"@.len() == 12);
}

/// The members of [`SqlParams`]: a value is read exactly where each of its members can
/// be, and then it has them.
pub proof fn law_members_of_sql_params(t: JsonView, at: Seq<char>, form: Form, m: SqlParamsModel)
    requires
        t is Object,
    ensures
        SqlParams::read(t, at, form) == Ok::<SqlParamsModel, Fault>(m) <==> ({
            &&& holds::<String>(t, "action"@, form, m.action)
            &&& may_hold::<String>(t, "dsn"@, form, m.dsn)
            &&& may_hold::<String>(t, "sql"@, form, m.sql)
            &&& holds_or::<Vec<Json>>(t, "params"@, form, Seq::<JsonView>::empty(), m.params)
        }),
{
}

/// What is written of [`SqlParams`]: each of its members under its name, and nothing else.
pub proof fn law_sql_params_is_written(m: SqlParamsModel, other: Seq<char>)
    requires
        other != "action"@,
        other != "dsn"@,
        other != "sql"@,
        other != "params"@,
    ensures
        SqlParams::tree(m) is Object,
        SqlParams::tree(m).field("action"@) == Some(String::tree(m.action)),
        SqlParams::tree(m).field("dsn"@) == written::<String>(m.dsn),
        SqlParams::tree(m).field("sql"@) == written::<String>(m.sql),
        SqlParams::tree(m).field("params"@) == Some(Vec::<Json>::tree(m.params)),
        SqlParams::tree(m).field(other) is None,
{
    reveal_strlit("action");
    reveal_strlit("dsn");
    reveal_strlit("sql");
    reveal_strlit("params");
    assert("action"@.len() == 6);
    assert("dsn"@.len() == 3);
    assert("sql"@.len() == 3);
    assert("params"@.len() == 6);
    assert("sql"@[0] == 's');
    assert("dsn"@[0] == 'd');
    assert("params"@[0] == 'p');
    assert("action"@[0] == 'a');
}

/// The members of [`ProbeParams`]: a value is read exactly where each of its members can
/// be, and then it has them.
pub proof fn law_members_of_probe_params(t: JsonView, at: Seq<char>, form: Form, m: ProbeParamsModel)
    requires
        t is Object,
    ensures
        ProbeParams::read(t, at, form) == Ok::<ProbeParamsModel, Fault>(m) <==> ({
            &&& holds::<String>(t, "action"@, form, m.action)
            &&& holds_or::<Vec<String>>(t, "probes"@, form, Seq::<Seq<char>>::empty(), m.probes)
        }),
{
}

/// What is written of [`ProbeParams`]: each of its members under its name, and nothing else.
pub proof fn law_probe_params_is_written(m: ProbeParamsModel, other: Seq<char>)
    requires
        other != "action"@,
        other != "probes"@,
    ensures
        ProbeParams::tree(m) is Object,
        ProbeParams::tree(m).field("action"@) == Some(String::tree(m.action)),
        ProbeParams::tree(m).field("probes"@) == Some(Vec::<String>::tree(m.probes)),
        ProbeParams::tree(m).field(other) is None,
{
    reveal_strlit("action");
    reveal_strlit("probes");
    assert("action"@.len() == 6);
    assert("probes"@.len() == 6);
    assert("probes"@[0] == 'p');
    assert("action"@[0] == 'a');
}

/// Where a credential is fetched: what is read is what the tag says, with the
/// members that it has.
pub proof fn law_members_of_credential_provider(
    t: JsonView,
    at: Seq<char>,
    form: Form,
    tag: Seq<char>,
    m: CredentialProviderModel,
)
    requires
        t is Object,
        t.field("type"@) == Some(JsonView::Text(tag)),
    ensures
        CredentialProvider::read(t, at, form) == Ok::<CredentialProviderModel, Fault>(m) <==> (
        match m {
            CredentialProviderModel::Http { endpoint } => tag == "http"@ && holds::<String>(
                t,
                "endpoint"@,
                Form::Buffered,
                endpoint,
            ),
            CredentialProviderModel::Sidecar { endpoint, method } => tag == "sidecar"@
                && holds::<String>(t, "endpoint"@, Form::Buffered, endpoint) && holds::<String>(
                t,
                "method"@,
                Form::Buffered,
                method,
            ),
        }),
{
    reveal_strlit("http");
    reveal_strlit("sidecar");
    assert("http"@.len() == 4);
    assert("sidecar"@.len() == 7);
}

/// What is written of where a credential is fetched: its tag and its members.
pub proof fn law_credential_provider_is_written(m: CredentialProviderModel)
    ensures
        ({
            let t = CredentialProvider::tree(m);
            &&& t.field("type"@) == Some(
                JsonView::Text(
                    if m is Http {
                        "http"@
                    } else {
                        "sidecar"@
                    },
                ),
            )
            &&& m matches CredentialProviderModel::Http { endpoint } ==> t.field("endpoint"@)
                == Some(JsonView::Text(endpoint)) && t.field("method"@) is None
            &&& m matches CredentialProviderModel::Sidecar { endpoint, method } ==> t.field(
                "endpoint"@,
            ) == Some(JsonView::Text(endpoint)) && t.field("method"@) == Some(
                JsonView::Text(method),
            )
        }),
{
    reveal_strlit("type");
    reveal_strlit("endpoint");
    reveal_strlit("method");
    assert("type"@.len() == 4);
    assert("endpoint"@.len() == 8);
    assert("method"@.len() == 6);
}

/// A sidecar's answer to a submission: what is read is what its status says, with
/// the members that it has; output that is missing is empty and was not cut.
pub proof fn law_members_of_submit_response(
    t: JsonView,
    at: Seq<char>,
    form: Form,
    tag: Seq<char>,
    m: SubmitResponseModel,
)
    requires
        t is Object,
        t.field("status"@) == Some(JsonView::Text(tag)),
    ensures
        SubmitResponse::read(t, at, form) == Ok::<SubmitResponseModel, Fault>(m) <==> (match m {
            SubmitResponseModel::Completed { stdout, stderr, truncated } => {
                &&& tag == "completed"@
                &&& holds_or::<String>(t, "stdout"@, Form::Buffered, Seq::<char>::empty(), stdout)
                &&& holds_or::<String>(t, "stderr"@, Form::Buffered, Seq::<char>::empty(), stderr)
                &&& holds_or::<bool>(t, "truncated"@, Form::Buffered, false, truncated)
            },
            SubmitResponseModel::Failed { error, stderr } => {
                &&& tag == "failed"@
                &&& holds::<String>(t, "error"@, Form::Buffered, error)
                &&& holds_or::<String>(t, "stderr"@, Form::Buffered, Seq::<char>::empty(), stderr)
            },
            SubmitResponseModel::Accepted { task_id } => tag == "accepted"@ && holds::<String>(
                t,
                "task_id"@,
                Form::Buffered,
                task_id,
            ),
        }),
{
    reveal_strlit("completed");
    reveal_strlit("failed");
    reveal_strlit("accepted");
    assert("completed"@.len() == 9);
    assert("failed"@.len() == 6);
    assert("accepted"@.len() == 8);
}

/// What is written of a sidecar's answer to a submission.
pub proof fn law_submit_response_is_written(m: SubmitResponseModel)
    ensures
        ({
            let t = SubmitResponse::tree(m);
            match m {
                SubmitResponseModel::Completed { stdout, stderr, truncated } => {
                    &&& t.field("status"@) == Some(JsonView::Text("completed"@))
                    &&& t.field("stdout"@) == Some(JsonView::Text(stdout))
                    &&& t.field("stderr"@) == Some(JsonView::Text(stderr))
                    &&& t.field("truncated"@) == Some(JsonView::Bool(truncated))
                },
                SubmitResponseModel::Failed { error, stderr } => {
                    &&& t.field("status"@) == Some(JsonView::Text("failed"@))
                    &&& t.field("error"@) == Some(JsonView::Text(error))
                    &&& t.field("stderr"@) == Some(JsonView::Text(stderr))
                },
                SubmitResponseModel::Accepted { task_id } => {
                    &&& t.field("status"@) == Some(JsonView::Text("accepted"@))
                    &&& t.field("task_id"@) == Some(JsonView::Text(task_id))
                },
            }
        }),
{
    lemma_answer_members();
}

/// The members of a sidecar's answers have names of their own.
proof fn lemma_answer_members()
    ensures
        "status"@ != "stdout"@,
        "status"@ != "stderr"@,
        "stdout"@ != "stderr"@,
        "status"@ != "truncated"@,
        "stdout"@ != "truncated"@,
        "stderr"@ != "truncated"@,
        "status"@ != "error"@,
        "stderr"@ != "error"@,
        "status"@ != "task_id"@,
{
    reveal_strlit("status");
    reveal_strlit("stdout");
    reveal_strlit("stderr");
    reveal_strlit("truncated");
    reveal_strlit("error");
    reveal_strlit("task_id");
    assert("status"@[2] == 'a');
    assert("stdout"@[2] == 'd');
    assert("stderr"@[2] == 'd');
    assert("stdout"@[3] == 'o');
    assert("stderr"@[3] == 'e');
    assert("status"@.len() == 6);
    assert("stdout"@.len() == 6);
    assert("stderr"@.len() == 6);
    assert("truncated"@.len() == 9);
    assert("error"@.len() == 5);
    assert("task_id"@.len() == 7);
}

/// A sidecar's answer to a poll: what is read is what its status says, with the
/// members that it has; output that is missing is empty and was not cut.
pub proof fn law_members_of_status_response(
    t: JsonView,
    at: Seq<char>,
    form: Form,
    tag: Seq<char>,
    m: StatusResponseModel,
)
    requires
        t is Object,
        t.field("status"@) == Some(JsonView::Text(tag)),
    ensures
        StatusResponse::read(t, at, form) == Ok::<StatusResponseModel, Fault>(m) <==> (match m {
            StatusResponseModel::Running => tag == "running"@,
            StatusResponseModel::Completed { stdout, stderr, truncated } => {
                &&& tag == "completed"@
                &&& holds_or::<String>(t, "stdout"@, Form::Buffered, Seq::<char>::empty(), stdout)
                &&& holds_or::<String>(t, "stderr"@, Form::Buffered, Seq::<char>::empty(), stderr)
                &&& holds_or::<bool>(t, "truncated"@, Form::Buffered, false, truncated)
            },
            StatusResponseModel::Failed { error, stderr } => {
                &&& tag == "failed"@
                &&& holds::<String>(t, "error"@, Form::Buffered, error)
                &&& holds_or::<String>(t, "stderr"@, Form::Buffered, Seq::<char>::empty(), stderr)
            },
            StatusResponseModel::Cancelled => tag == "cancelled"@,
        }),
{
    reveal_strlit("running");
    reveal_strlit("completed");
    reveal_strlit("failed");
    reveal_strlit("cancelled");
    assert("running"@.len() == 7);
    assert("completed"@.len() == 9);
    assert("failed"@.len() == 6);
    assert("cancelled"@.len() == 9);
    assert("completed"@[1] == 'o');
    assert("cancelled"@[1] == 'a');
}

/// What is written of a sidecar's answer to a poll.
pub proof fn law_status_response_is_written(m: StatusResponseModel)
    ensures
        ({
            let t = StatusResponse::tree(m);
            match m {
                StatusResponseModel::Running => t.field("status"@) == Some(
                    JsonView::Text("running"@),
                ),
                StatusResponseModel::Completed { stdout, stderr, truncated } => {
                    &&& t.field("status"@) == Some(JsonView::Text("completed"@))
                    &&& t.field("stdout"@) == Some(JsonView::Text(stdout))
                    &&& t.field("stderr"@) == Some(JsonView::Text(stderr))
                    &&& t.field("truncated"@) == Some(JsonView::Bool(truncated))
                },
                StatusResponseModel::Failed { error, stderr } => {
                    &&& t.field("status"@) == Some(JsonView::Text("failed"@))
                    &&& t.field("error"@) == Some(JsonView::Text(error))
                    &&& t.field("stderr"@) == Some(JsonView::Text(stderr))
                },
                StatusResponseModel::Cancelled => t.field("status"@) == Some(
                    JsonView::Text("cancelled"@),
                ),
            }
        }),
{
    lemma_answer_members();
}

/// A task is read as what its type says.
pub proof fn law_task_is_what_its_type_says(
    t: JsonView,
    at: Seq<char>,
    form: Form,
    tag: Seq<char>,
    m: TaskModel,
)
    requires
        t is Object,
        t.field("type"@) == Some(JsonView::Text(tag)),
    ensures
        Task::read(t, at, form) == Ok::<TaskModel, Fault>(m) <==> (match m {
            TaskModel::Exec(x) => tag == "exec"@ && ExecTask::read(t, at, Form::Buffered) == Ok::<
                ExecTaskModel,
                Fault,
            >(x),
            TaskModel::Cancel(x) => tag == "cancel"@ && CancelTask::read(t, at, Form::Buffered)
                == Ok::<CancelTaskModel, Fault>(x),
            TaskModel::Install(x) => tag == "install"@ && InstallTask::read(t, at, Form::Buffered)
                == Ok::<InstallTaskModel, Fault>(x),
            TaskModel::Upgrade(x) => tag == "upgrade"@ && UpgradeTask::read(t, at, Form::Buffered)
                == Ok::<UpgradeTaskModel, Fault>(x),
            TaskModel::Remove(x) => tag == "remove"@ && RemoveTask::read(t, at, Form::Buffered)
                == Ok::<RemoveTaskModel, Fault>(x),
            TaskModel::SelfUpgrade(x) => tag == "self_upgrade"@ && SelfUpgradeTask::read(
                t,
                at,
                Form::Buffered,
            ) == Ok::<SelfUpgradeTaskModel, Fault>(x),
        }),
{
    reveal_strlit("exec");
    reveal_strlit("cancel");
    reveal_strlit("install");
    reveal_strlit("upgrade");
    reveal_strlit("remove");
    reveal_strlit("self_upgrade");
    assert("exec"@.len() == 4);
    assert("cancel"@.len() == 6);
    assert("install"@.len() == 7);
    assert("upgrade"@.len() == 7);
    assert("remove"@.len() == 6);
    assert("self_upgrade"@.len() == 12);
    assert("cancel"@[0] == 'c');
    assert("remove"@[0] == 'r');
    assert("install"@[0] == 'i');
    assert("upgrade"@[0] == 'u');
}

/// What is written of a task: its type, and beside it what is written of what it
/// is.
pub proof fn law_task_is_written_with_its_type(m: TaskModel, key: Seq<char>)
    requires
        key != "type"@,
    ensures
        Task::tree(m).field("type"@) == Some(
            JsonView::Text(
                match m {
                    TaskModel::Exec(_) => "exec"@,
                    TaskModel::Cancel(_) => "cancel"@,
                    TaskModel::Install(_) => "install"@,
                    TaskModel::Upgrade(_) => "upgrade"@,
                    TaskModel::Remove(_) => "remove"@,
                    TaskModel::SelfUpgrade(_) => "self_upgrade"@,
                },
            ),
        ),
        Task::tree(m).field(key) == (match m {
            TaskModel::Exec(x) => ExecTask::tree(x).field(key),
            TaskModel::Cancel(x) => CancelTask::tree(x).field(key),
            TaskModel::Install(x) => InstallTask::tree(x).field(key),
            TaskModel::Upgrade(x) => UpgradeTask::tree(x).field(key),
            TaskModel::Remove(x) => RemoveTask::tree(x).field(key),
            TaskModel::SelfUpgrade(x) => SelfUpgradeTask::tree(x).field(key),
        }),
{
}

/// A request's identifier is a text or a whole number, and is written as it is.
pub proof fn law_identifiers_are_texts_or_numbers(
    t: JsonView,
    at: Seq<char>,
    form: Form,
    m: RequestIdModel,
)
    ensures
        RequestId::read(t, at, form) == Ok::<RequestIdModel, Fault>(m) <==> t == RequestId::tree(m),
        RequestId::tree(m) == (match m {
            RequestIdModel::Integer(n) => JsonView::Number(NumberView::Int(n as int)),
            RequestIdModel::String(s) => JsonView::Text(s),
        }),
{
}

/// Numbers, truth values and texts are read exactly from what is written of them.
pub proof fn law_plain_values_are_read_as_they_are(
    t: JsonView,
    at: Seq<char>,
    form: Form,
    b: bool,
    long: u64,
    size: usize,
    short: u32,
    signed: i64,
    code: i32,
    s: Seq<char>,
)
    ensures
        bool::read(t, at, form) == Ok::<bool, Fault>(b) <==> t == JsonView::Bool(b),
        u64::read(t, at, form) == Ok::<u64, Fault>(long) <==> t == JsonView::Number(
            NumberView::Int(long as int),
        ),
        usize::read(t, at, form) == Ok::<usize, Fault>(size) <==> t == JsonView::Number(
            NumberView::Int(size as int),
        ),
        u32::read(t, at, form) == Ok::<u32, Fault>(short) <==> t == JsonView::Number(
            NumberView::Int(short as int),
        ),
        i64::read(t, at, form) == Ok::<i64, Fault>(signed) <==> t == JsonView::Number(
            NumberView::Int(signed as int),
        ),
        i32::read(t, at, form) == Ok::<i32, Fault>(code) <==> t == JsonView::Number(
            NumberView::Int(code as int),
        ),
        String::read(t, at, form) == Ok::<Seq<char>, Fault>(s) <==> t == JsonView::Text(s),
{
}

/// What cannot be read as a plain value is said to be wrong where it stands.
pub proof fn law_unfit_values_are_named(t: JsonView, at: Seq<char>, form: Form)
    ensures
        bool::read(t, at, form) is Err ==> bool::read(t, at, form)->Err_0 == Fault::Invalid(at),
        u64::read(t, at, form) is Err ==> u64::read(t, at, form)->Err_0 == Fault::Invalid(at),
        usize::read(t, at, form) is Err ==> usize::read(t, at, form)->Err_0 == Fault::Invalid(at),
        u32::read(t, at, form) is Err ==> u32::read(t, at, form)->Err_0 == Fault::Invalid(at),
        i64::read(t, at, form) is Err ==> i64::read(t, at, form)->Err_0 == Fault::Invalid(at),
        i32::read(t, at, form) is Err ==> i32::read(t, at, form)->Err_0 == Fault::Invalid(at),
        String::read(t, at, form) is Err ==> String::read(t, at, form)->Err_0 == Fault::Invalid(
            at,
        ),
        Fault::Invalid(at).text() == "invalid value for field `"@ + at + "`"@,
        Fault::Missing(at).text() == "missing field `"@ + at + "`"@,
{
}

/// A list is read exactly where each of its elements can be, and then it has them
/// in order.
pub proof fn law_lists_are_read_element_by_element<T: Wire>(
    s: Seq<JsonView>,
    at: Seq<char>,
    form: Form,
    m: Seq<T::Model>,
)
    ensures
        Vec::<T>::read(JsonView::Array(s), at, form) == Ok::<Seq<T::Model>, Fault>(m) <==> (
        m.len() == s.len() && forall|i: int|
            0 <= i < s.len() ==> T::read(#[trigger] s[i], at, form) == Ok::<T::Model, Fault>(m[i])),
    decreases s.len(),
{
    if s.len() == 0 {
        assert(m.len() == 0 ==> m =~= Seq::<T::Model>::empty());
    } else {
        let front = s.drop_last();
        if m.len() == s.len() {
            law_lists_are_read_element_by_element::<T>(front, at, form, m.drop_last());
            assert(m.drop_last().push(m.last()) =~= m);
            if Vec::<T>::read(JsonView::Array(s), at, form) == Ok::<Seq<T::Model>, Fault>(m) {
                let f = wire::read_elements::<T>(front, at, form)->Ok_0;
                assert(m.drop_last() =~= f);
                assert forall|i: int| 0 <= i < s.len() implies T::read(#[trigger] s[i], at, form)
                    == Ok::<T::Model, Fault>(m[i]) by {
                    if i < front.len() {
                        assert(front[i] == s[i]);
                        assert(m.drop_last()[i] == m[i]);
                    }
                }
            }
            if forall|i: int|
                0 <= i < s.len() ==> T::read(#[trigger] s[i], at, form) == Ok::<T::Model, Fault>(
                    m[i],
                ) {
                assert forall|i: int|
                    0 <= i < front.len() implies T::read(#[trigger] front[i], at, form) == Ok::<
                    T::Model,
                    Fault,
                >(m.drop_last()[i]) by {
                    assert(front[i] == s[i]);
                }
                assert(T::read(s[s.len() - 1], at, form) == Ok::<T::Model, Fault>(m.last()));
            }
        } else {
            if Vec::<T>::read(JsonView::Array(s), at, form) == Ok::<Seq<T::Model>, Fault>(m) {
                let f = wire::read_elements::<T>(front, at, form)->Ok_0;
                law_lists_are_read_element_by_element::<T>(front, at, form, f);
            }
        }
    }
}

/// Labels are read exactly from an object of texts, each as it is.
pub proof fn law_labels_are_read_as_they_are(
    o: Map<Seq<char>, JsonView>,
    at: Seq<char>,
    form: Form,
    key: Seq<char>,
)
    ensures
        ({
            let r = StringMap::read(JsonView::Object(o), at, form);
            &&& r is Ok <==> forall|k: Seq<char>| #[trigger] o.contains_key(k) ==> o[k] is Text
            &&& r is Ok ==> (r->Ok_0.contains_key(key) <==> o.contains_key(key))
            &&& r is Ok && o.contains_key(key) ==> o[key] == JsonView::Text(r->Ok_0[key])
        }),
{
}

/// A parsed text is taken for a value exactly where the value can be read from it;
/// otherwise the complaint of the parser, or that of the reader, is handed on.
pub proof fn law_decoding_hands_on_what_went_wrong<T: Wire>(
    parsed: Result<JsonView, Seq<char>>,
    at: Seq<char>,
    form: Form,
)
    ensures
        wire::decoded::<T>(parsed, at) == wire::decoded_in::<T>(parsed, at, Form::Plain),
        parsed matches Err(e) ==> wire::decoded_in::<T>(parsed, at, form) == Err::<
            T::Model,
            Seq<char>,
        >(e),
        parsed matches Ok(t) ==> match T::read(t, at, form) {
            Ok(m) => wire::decoded_in::<T>(parsed, at, form) == Ok::<T::Model, Seq<char>>(m),
            Err(f) => wire::decoded_in::<T>(parsed, at, form) == Err::<T::Model, Seq<char>>(
                f.text(),
            ),
        },
{
}

/// A structure may be written as the list of its members: what stands at a place
/// is the member that has the name at that place. There may be fewer than it has
/// as long as the ones that have to be there are, and more only in TOML.
pub proof fn law_listed_members_have_their_names(
    s: Seq<JsonView>,
    names: Seq<Seq<char>>,
    least: nat,
    form: Form,
    at: int,
)
    requires
        names.no_duplicates(),
    ensures
        ({
            let t = wire::unlisted(JsonView::Array(s), names, least, form);
            &&& t is Object <==> least <= s.len() && (s.len() <= names.len() || form is Toml)
            &&& t is Object && 0 <= at < names.len() ==> t.field(names[at]) == (if at < s.len() {
                Some(s[at])
            } else {
                None
            })
        }),
{
    let n = wire::named_count(names.len(), s.len());
    if 0 <= at < names.len() {
        lemma_named(names, s, n, at);
    }
}

/// The names of a list's members are those of their places.
proof fn lemma_named(names: Seq<Seq<char>>, s: Seq<JsonView>, n: nat, at: int)
    requires
        names.no_duplicates(),
        n <= names.len(),
        n <= s.len(),
        0 <= at < names.len(),
    ensures
        JsonView::Object(wire::named(names, s, n)).field(names[at]) == (if at < n {
            Some(s[at])
        } else {
            None
        }),
    decreases n,
{
    if n > 0 {
        lemma_named(names, s, (n - 1) as nat, at);
    }
}

/// Whatever a task is, its identifier, its priority and its labels are those of
/// what it is.
pub proof fn law_tasks_have_what_they_are_made_of(t: Task)
    ensures
        match t {
            Task::Exec(x) => t.spec_id() == x.id && t.spec_priority() == x.priority
                && t.spec_tags() == x.tags,
            Task::Cancel(x) => t.spec_id() == x.id && t.spec_priority() == x.priority
                && t.spec_tags() == x.tags,
            Task::Install(x) => t.spec_id() == x.id && t.spec_priority() == x.priority
                && t.spec_tags() == x.tags,
            Task::Upgrade(x) => t.spec_id() == x.id && t.spec_priority() == x.priority
                && t.spec_tags() == x.tags,
            Task::Remove(x) => t.spec_id() == x.id && t.spec_priority() == x.priority
                && t.spec_tags() == x.tags,
            Task::SelfUpgrade(x) => t.spec_id() == x.id && t.spec_priority() == x.priority
                && t.spec_tags() == x.tags,
        },
{
}

/// The name of a variant is a text, or the one member of an object with nothing
/// under it: `null` in JSON, an empty object where the value is buffered, and an
/// empty object or list in TOML. Anything else names none.
pub proof fn law_names_are_texts_or_lone_members(
    s: Seq<char>,
    key: Seq<char>,
    v: JsonView,
    form: Form,
)
    ensures
        ({
            let lone = wire::name_in(JsonView::Object(Map::empty().insert(key, v)), form);
            let nothing = (v is Null && !(form is Toml)) || (v is Object && v->Object_0
                == Map::<Seq<char>, JsonView>::empty() && !(form is Plain)) || (v is Array
                && v->Array_0.len() == 0 && form is Toml);
            &&& wire::name_in(JsonView::Text(s), form) == Some(s)
            &&& lone == (if nothing {
                Some(key)
            } else {
                None
            })
            &&& !(v is Text) && !(v is Object) ==> wire::name_in(v, form) is None
        }),
{
    let o = Map::<Seq<char>, JsonView>::empty().insert(key, v);
    assert(wire::only_member(o, key));
    assert(forall|k: Seq<char>| #[trigger] wire::only_member(o, k) ==> k == key);
    assert(o[key] == v);
    if v is Array {
        assert(v->Array_0.len() == 0 ==> v->Array_0 =~= Seq::<JsonView>::empty());
    }
    assert(wire::hollow(v, form) <==> (v is Null && !(form is Toml)) || (v is Object && v->Object_0
        == Map::<Seq<char>, JsonView>::empty() && !(form is Plain)) || (v is Array
        && v->Array_0.len() == 0 && form is Toml));
    if wire::hollow(v, form) {
        assert(wire::only_member(o, key) && wire::hollow(o[key], form));
    }
}

/// A tag stands under its key or first in a list. It is a name, or, inside a value
/// that is tagged itself, the place of a name among the names.
pub proof fn law_tags_are_names_or_their_places(
    tag: JsonView,
    t: JsonView,
    rest: Seq<JsonView>,
    key: Seq<char>,
    names: Seq<Seq<char>>,
    form: Form,
)
    requires
        t is Object && t.field(key) == Some(tag) || t == JsonView::Array(seq![tag] + rest),
    ensures
        ({
            let r = wire::tag_in(t, key, names, form);
            let place = tag.integer();
            &&& tag matches JsonView::Text(s) ==> r == Ok::<Seq<char>, Fault>(s)
            &&& !(tag is Text) && form is Buffered && place is Some && 0 <= place->0 < names.len()
                ==> r == Ok::<Seq<char>, Fault>(names[place->0])
            &&& !(tag is Text) && !(form is Buffered && place is Some && 0 <= place->0
                < names.len()) ==> r == Err::<Seq<char>, Fault>(Fault::Invalid(key))
            &&& wire::untagged(t) == (if t is Array {
                JsonView::Array(rest)
            } else {
                t
            })
        }),
{
    if t is Array {
        assert((seq![tag] + rest).skip(1) =~= rest);
    }
}

/// Without a tag it is the tag that is missing.
pub proof fn law_missing_tags_are_told(
    t: JsonView,
    key: Seq<char>,
    names: Seq<Seq<char>>,
    form: Form,
)
    requires
        !(t is Array) && t.field(key) is None || t == JsonView::Array(Seq::empty()),
    ensures
        wire::tag_in(t, key, names, form) == Err::<Seq<char>, Fault>(Fault::Missing(key)),
{
}

} // verus!
