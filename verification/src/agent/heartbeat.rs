//! The heartbeat: what the control plane is told of the units.

use crate::agent::state::{self, UnitRow};
use crate::ids::Uuid;
use crate::protocol::heartbeat::{
    ActiveTaskCounts, Heartbeat, HeartbeatModel, UnitReport, UnitReportModel,
};
use crate::protocol::sidecar::HealthStatus;
use crate::protocol::unit::UnitKind;
use crate::text;
use crate::wire::{self, Wire};
use vstd::prelude::*;
use vstd::string::*;

verus! {

/// The kind that a stored name stands for.
pub open spec fn kind_named(s: Seq<char>) -> UnitKind {
    if s == "sidecar"@ {
        UnitKind::Sidecar
    } else {
        UnitKind::Package
    }
}

/// The health that a stored name stands for.
pub open spec fn health_named(s: Seq<char>) -> HealthStatus {
    if s == "ok"@ {
        HealthStatus::Healthy
    } else if s == "degraded"@ {
        HealthStatus::Degraded
    } else {
        HealthStatus::Unhealthy
    }
}

/// What is reported of a stored unit.
pub open spec fn report_of(row: state::UnitRowModel) -> UnitReportModel {
    UnitReportModel {
        name: row.name,
        kind: kind_named(row.kind),
        version: row.version,
        state: row.state,
        health: match row.health {
            Some(h) => Some(health_named(h)),
            None => None,
        },
        pid: row.pid,
        health_error: row.health_error,
    }
}

/// Reports a stored unit.
pub fn report(row: UnitRow) -> (r: UnitReport)
    ensures
        r.model() == report_of(row@),
{
    let kind = if text::same(row.kind.as_str(), "sidecar") {
        UnitKind::Sidecar
    } else {
        UnitKind::Package
    };
    let health = match &row.health {
        Some(h) => Some(
            if text::same(h.as_str(), "ok") {
                HealthStatus::Healthy
            } else if text::same(h.as_str(), "degraded") {
                HealthStatus::Degraded
            } else {
                HealthStatus::Unhealthy
            },
        ),
        None => None,
    };
    UnitReport {
        name: row.name,
        kind,
        version: row.version,
        state: row.state,
        health,
        pid: row.pid,
        health_error: row.health_error,
    }
}

/// The reports of stored units, in their order.
pub open spec fn reports_of(rows: Seq<UnitRow>) -> Seq<UnitReportModel> {
    Seq::new(rows.len(), |i: int| report_of(rows[i]@))
}

/// Puts a heartbeat together. Units that could not be read are not reported.
pub fn beat(
    agent_id: Uuid,
    agent_version: &str,
    uptime_sec: u64,
    timestamp: u64,
    rows: Option<Vec<UnitRow>>,
    active_tasks: ActiveTaskCounts,
) -> (r: Heartbeat)
    ensures
        r.model() == (HeartbeatModel {
            agent_id,
            agent_version: agent_version@,
            uptime_sec,
            timestamp,
            units: match rows {
                Some(v) => reports_of(v@),
                None => Seq::empty(),
            },
            active_tasks: active_tasks.model(),
        }),
{
    let mut units: Vec<UnitReport> = Vec::new();
    if let Some(rows) = rows {
        for i in 0..rows.len()
            invariant
                units@.len() == i,
                forall|k: int|
                    0 <= k < i ==> (#[trigger] units@[k]).model() == reports_of(rows@)[k],
        {
            units.push(report(rows[i].duplicate()));
        }
        proof {
            assert(wire::models(units@) =~= reports_of(rows@));
        }
    } else {
        proof {
            assert(wire::models(units@) =~= Seq::empty());
        }
    }
    Heartbeat {
        agent_id,
        agent_version: agent_version.to_owned(),
        uptime_sec,
        timestamp,
        units,
        active_tasks,
    }
}

/// What a unit is and how it is survives its way through the store into the
/// heartbeat.
pub proof fn law_kind_and_health_survive_storage(kind: UnitKind, health: HealthStatus)
    ensures
        kind_named(kind.wire_name()) == kind,
        health_named(health.wire_name()) == health,
{
    reveal_strlit("sidecar");
    reveal_strlit("package");
    reveal_strlit("ok");
    reveal_strlit("degraded");
    reveal_strlit("unhealthy");
    assert("sidecar"@[0] != "package"@[0]);
    assert("ok"@.len() == 2);
    assert("degraded"@.len() == 8);
    assert("unhealthy"@.len() == 9);
}

/// What is reported of a unit is what is stored of it: everything as it is, its
/// kind and its health as the values that the stored names stand for. A health
/// that is not stored is not reported.
pub proof fn law_report_says_what_is_stored(row: state::UnitRowModel)
    ensures
        ({
            let r = report_of(row);
            &&& r.name == row.name
            &&& r.version == row.version
            &&& r.state == row.state
            &&& r.pid == row.pid
            &&& r.health_error == row.health_error
            &&& r.kind == UnitKind::Sidecar <==> row.kind == "sidecar"@
            &&& r.health is Some <==> row.health is Some
            &&& row.health == Some("ok"@) <==> r.health == Some(HealthStatus::Healthy)
            &&& row.health == Some("degraded"@) <==> r.health == Some(HealthStatus::Degraded)
        }),
{
    reveal_strlit("ok");
    reveal_strlit("degraded");
    assert("ok"@.len() == 2);
    assert("degraded"@.len() == 8);
}

/// Every stored unit is reported once, in the order of the store.
pub proof fn law_every_unit_is_reported(rows: Seq<UnitRow>, i: int)
    requires
        0 <= i < rows.len(),
    ensures
        reports_of(rows).len() == rows.len(),
        reports_of(rows)[i].name == rows[i].name@,
        reports_of(rows)[i] == report_of(rows[i]@),
{
}

} // verus!
