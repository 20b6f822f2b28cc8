//! Health of units: how a sidecar's answer or a package's command is judged, and
//! when a unit's row changes.

use crate::agent::credential;
use crate::agent::error::{joined, Error, ErrorModel};
use crate::agent::state::{self, UnitRow, UnitRowModel};
use crate::agent::task::{shell, sidecar};
use crate::agent::unit::artifact::{self, show_code};
use crate::agent::unit::rows::{self, copy_text};
use crate::json::{self, Json, JsonView};
use crate::protocol::jsonrpc::{Response, ResponseModel};
use crate::protocol::sidecar::{HealthResponse, HealthStatus};
use crate::protocol::unit::{default_health_timeout_ms, HealthCheck, HealthCheckModel};
use crate::text;
use crate::wire::{Form, Wire};
use vstd::prelude::*;
use vstd::string::*;

verus! {

/// What a check found: how a unit is and what it complains of.
#[derive(Debug)]
pub struct Finding {
    pub status: HealthStatus,
    pub error: Option<String>,
}

/// What a value of [`Finding`] is.
#[verifier::ext_equal]
pub struct FindingModel {
    pub status: HealthStatus,
    pub error: Option<Seq<char>>,
}

impl View for Finding {
    type V = FindingModel;

    open spec fn view(&self) -> FindingModel {
        FindingModel { status: self.status, error: state::optional_text(self.error) }
    }
}

/// A unit that is well.
pub open spec fn well() -> FindingModel {
    FindingModel { status: HealthStatus::Healthy, error: None }
}

/// A unit that does not work.
pub open spec fn unwell(error: Seq<char>) -> FindingModel {
    FindingModel { status: HealthStatus::Unhealthy, error: Some(error) }
}

/// How a sidecar is, by its answer to `health`: what it says of itself; what its
/// error says; well, if it says nothing that can be understood; not working, if
/// it does not answer.
pub open spec fn sidecar_finding(answer: Result<ResponseModel, ErrorModel>) -> FindingModel {
    match answer {
        Err(e) => unwell(e.text()),
        Ok(m) => match said_health(m) {
            Some(f) => f,
            None => match m.error {
                Some(e) => unwell(e.message),
                None => well(),
            },
        },
    }
}

/// What a sidecar says of its health. A sidecar that is well has no complaint.
pub open spec fn said_health(m: ResponseModel) -> Option<FindingModel> {
    match m.result {
        Some(v) => match HealthResponse::read(v, "result"@, Form::Plain) {
            Ok(h) => Some(
                FindingModel {
                    status: h.status,
                    error: if h.status == HealthStatus::Healthy {
                        None
                    } else {
                        h.error
                    },
                },
            ),
            Err(_) => None,
        },
        None => None,
    }
}

/// Judges a sidecar by its answer to `health`.
pub fn judge_sidecar(answer: Result<Response, Error>) -> (r: Finding)
    ensures
        r@ == sidecar_finding(sidecar::answer_model(answer)),
{
    let response = match answer {
        Ok(p) => p,
        Err(e) => return Finding { status: HealthStatus::Unhealthy, error: Some(e.to_text()) },
    };
    if let Some(v) = &response.result {
        if let Ok(h) = HealthResponse::from_json(v, "result", Form::Plain) {
            return match h.status {
                HealthStatus::Healthy => Finding { status: h.status, error: None },
                _ => Finding { status: h.status, error: h.error },
            };
        }
    }
    match response.error {
        Some(e) => Finding { status: HealthStatus::Unhealthy, error: Some(e.message) },
        None => Finding { status: HealthStatus::Healthy, error: None },
    }
}

/// The check that a package's stored configuration asks for.
pub open spec fn check_in(config: JsonView) -> Option<HealthCheckModel> {
    match config.field("health_check"@) {
        Some(hc) => match hc.text_field("command"@) {
            Some(command) => Some(
                HealthCheckModel {
                    command,
                    timeout_ms: match hc.field("timeout_ms"@) {
                        Some(t) => match t.integer() {
                            Some(i) => if 0 <= i <= u64::MAX {
                                i as u64
                            } else {
                                5_000
                            },
                            None => 5_000,
                        },
                        None => 5_000,
                    },
                },
            ),
            None => None,
        },
        None => None,
    }
}

/// Finds the check that a package's configuration asks for.
pub fn find_check(config: &Json) -> (r: Option<HealthCheck>)
    ensures
        crate::wire::optional_model(r) == check_in(config@),
{
    let hc = match config.get("health_check") {
        Some(hc) => hc,
        None => return None,
    };
    let command = match hc.get_str("command") {
        Some(c) => c.to_owned(),
        None => return None,
    };
    let timeout_ms: u64 = match hc.get("timeout_ms") {
        Some(t) => match t.as_u64() {
            Some(n) => n,
            None => default_health_timeout_ms(),
        },
        None => default_health_timeout_ms(),
    };
    Some(HealthCheck { command, timeout_ms })
}

/// The check that a package's stored configuration asks for, where there is one
/// that can be read.
pub fn package_check(config_json: &Option<String>) -> (r: Option<HealthCheck>)
    ensures
        crate::wire::optional_model(r) == (match config_json {
            Some(s) => match json::parsed_text(s@) {
                Ok(v) => check_in(v),
                Err(_) => None,
            },
            None => None,
        }),
{
    match config_json {
        Some(s) => match json::parse_text(s.as_str()) {
            Ok(v) => find_check(&v),
            Err(_) => None,
        },
        None => None,
    }
}

/// A check that was stored with a unit is the check that is found there again.
pub proof fn law_stored_check_is_found(config: Option<JsonView>, check: HealthCheckModel)
    ensures
        rows::kept_config(config, Some(check)) is Some,
        check_in(rows::kept_config(config, Some(check))->0) == Some(check),
{
    reveal_strlit("command");
    reveal_strlit("timeout_ms");
    assert("command"@.len() == 7);
    assert("timeout_ms"@.len() == 10);
    let t = HealthCheck::tree(check);
    assert(t.field("command"@) == Some(JsonView::Text(check.command)));
    assert(t.field("timeout_ms"@) == Some(u64::tree(check.timeout_ms)));
}

/// How a package's check command fared.
#[derive(Debug)]
pub enum CheckOutcome {
    /// It ended, with the given code unless a signal ended it.
    Exited { code: Option<i32>, stderr: Vec<u8> },
    /// It could not be run.
    Failed(String),
    /// It took too long.
    TimedOut,
}

/// How a package is, by its check command.
pub open spec fn package_finding(outcome: CheckOutcome) -> FindingModel {
    match outcome {
        CheckOutcome::Exited { code, stderr } => if code == Some(0i32) {
            well()
        } else {
            unwell(
                "exit code "@ + artifact::code_text(code) + ": "@ + text::trimmed(
                    shell::lossy_text(stderr@),
                ),
            )
        },
        CheckOutcome::Failed(e) => unwell(e@),
        CheckOutcome::TimedOut => unwell("health check timed out"@),
    }
}

/// Judges a package by its check command.
pub fn judge_package(outcome: CheckOutcome) -> (r: Finding)
    ensures
        r@ == package_finding(outcome),
{
    match outcome {
        CheckOutcome::Exited { code, stderr } => {
            if let Some(c) = code {
                if c == 0 {
                    return Finding { status: HealthStatus::Healthy, error: None };
                }
            }
            let complaint = text::trim(shell::from_utf8_lossy(stderr.as_slice()).as_str());
            let mut s: String = joined("exit code ", show_code(code).as_str());
            s.append(": ");
            s.append(complaint.as_str());
            Finding { status: HealthStatus::Unhealthy, error: Some(s) }
        },
        CheckOutcome::Failed(e) => Finding { status: HealthStatus::Unhealthy, error: Some(e) },
        CheckOutcome::TimedOut => Finding {
            status: HealthStatus::Unhealthy,
            error: Some("health check timed out".to_owned()),
        },
    }
}

/// How a unit is checked.
#[derive(Debug, Clone, Copy, PartialEq, Eq, Structural)]
pub enum CheckKind {
    /// By the sidecar protocol.
    Ipc,
    /// By a command, where there is one.
    Command,
    /// Not at all.
    Skip,
}

/// How a unit is checked: only while it runs or is installed, and by its kind.
pub open spec fn check_kind_of(row: UnitRowModel) -> CheckKind {
    if row.state != "running"@ && row.state != "installed"@ {
        CheckKind::Skip
    } else if row.kind == "sidecar"@ {
        CheckKind::Ipc
    } else if row.kind == "package"@ {
        CheckKind::Command
    } else {
        CheckKind::Skip
    }
}

/// How a unit is checked.
pub fn check_kind(row: &UnitRow) -> (r: CheckKind)
    ensures
        r == check_kind_of(row@),
{
    if !text::same(row.state.as_str(), "running") && !text::same(row.state.as_str(), "installed") {
        CheckKind::Skip
    } else if text::same(row.kind.as_str(), "sidecar") {
        CheckKind::Ipc
    } else if text::same(row.kind.as_str(), "package") {
        CheckKind::Command
    } else {
        CheckKind::Skip
    }
}

/// The row of a unit with what a check found. A package without a check has no
/// finding: its health is unknown.
pub open spec fn checked_row(row: UnitRowModel, finding: Option<FindingModel>, now_ms: i64) -> UnitRowModel {
    match finding {
        Some(f) => UnitRowModel {
            health: Some(f.status.wire_name()),
            health_error: f.error,
            updated_at: now_ms,
            ..row
        },
        None => UnitRowModel { health: None, health_error: None, updated_at: now_ms, ..row },
    }
}

/// Whether a check found a unit other than its row says.
pub open spec fn health_differs(row: UnitRowModel, finding: Option<FindingModel>) -> bool {
    match finding {
        Some(f) => row.health != Some(f.status.wire_name()) || row.health_error != f.error,
        None => row.health is Some || row.health_error is Some,
    }
}

/// Whether two optional texts are the same.
pub fn same_optional(a: &Option<String>, b: &Option<String>) -> (r: bool)
    ensures
        r == (state::optional_text(*a) == state::optional_text(*b)),
{
    match (a, b) {
        (Some(x), Some(y)) => text::same(x.as_str(), y.as_str()),
        (None, None) => true,
        _ => false,
    }
}

/// The row to store after a check, where the check found something new.
pub fn after_check(row: &UnitRow, finding: Option<Finding>, now_ms: i64) -> (r: Option<UnitRow>)
    ensures
        ({
            let f = match finding {
                Some(f) => Some(f@),
                None => None,
            };
            match r {
                Some(n) => health_differs(row@, f) && n@ == checked_row(row@, f, now_ms),
                None => !health_differs(row@, f),
            }
        }),
{
    let (health, health_error) = match finding {
        Some(f) => (Some(f.status.as_str().to_owned()), f.error),
        None => (None, None),
    };
    if same_optional(&row.health, &health) && same_optional(&row.health_error, &health_error) {
        return None;
    }
    let mut n = row.duplicate();
    n.health = health;
    n.health_error = health_error;
    n.updated_at = now_ms;
    Some(n)
}

/// Storing what a check found settles the matter: the same finding once more
/// changes nothing.
pub proof fn law_same_finding_changes_nothing(
    row: UnitRowModel,
    finding: Option<FindingModel>,
    now_ms: i64,
)
    ensures
        !health_differs(checked_row(row, finding, now_ms), finding),
{
}

/// What a probe does next.
#[derive(Debug, Clone, Copy, PartialEq, Eq, Structural)]
pub enum ProbeStep {
    /// The time is up: the sidecar has not come to be well.
    GiveUp,
    /// Ask the sidecar how it is.
    Ask,
}

/// Milliseconds between two questions of a probe.
pub const PROBE_PAUSE_MS: u64 = 500;

/// What a probe does next, by how long it has been going on.
pub fn probe_step(elapsed_ms: u64, timeout_sec: u64) -> (r: ProbeStep)
    ensures
        r == (if elapsed_ms >= timeout_sec * 1000 {
            ProbeStep::GiveUp
        } else {
            ProbeStep::Ask
        }),
{
    if elapsed_ms as u128 >= timeout_sec as u128 * 1000 {
        ProbeStep::GiveUp
    } else {
        ProbeStep::Ask
    }
}

/// Whether a probe is content: a sidecar in trouble still works.
pub fn probe_passes(finding: &Finding) -> (r: bool)
    ensures
        r == (finding.status != HealthStatus::Unhealthy),
{
    match finding.status {
        HealthStatus::Unhealthy => false,
        _ => true,
    }
}

/// How a sidecar is judged: by what it says of itself, where that can be
/// understood, with its complaint unless it says that it is well; else as not
/// working where it answered with an error or did not answer, with the words of
/// that; else as well.
pub proof fn law_sidecar_is_what_it_says(answer: Result<ResponseModel, ErrorModel>)
    ensures
        ({
            let f = sidecar_finding(answer);
            let said = if answer is Ok && answer->Ok_0.result is Some {
                match HealthResponse::read(answer->Ok_0.result->0, "result"@, Form::Plain) {
                    Ok(h) => Some(h),
                    Err(_) => None,
                }
            } else {
                None
            };
            &&& f.status == HealthStatus::Healthy ==> f.error is None
            &&& said matches Some(h) ==> f.status == h.status && (h.status != HealthStatus::Healthy
                ==> f.error == h.error)
            &&& answer matches Err(e) ==> f.status == HealthStatus::Unhealthy && f.error == Some(
                e.text(),
            )
            &&& (said is None && answer is Ok && answer->Ok_0.error is Some) ==> f.status
                == HealthStatus::Unhealthy && f.error == Some(answer->Ok_0.error->0.message)
            &&& (said is None && answer is Ok && answer->Ok_0.error is None) ==> f.status
                == HealthStatus::Healthy
        }),
{
}

/// A package is well exactly when its check command exits with code zero; any
/// other end of the command is a complaint that says what it was.
pub proof fn law_package_is_well_by_exit_code_zero(outcome: CheckOutcome)
    ensures
        ({
            let f = package_finding(outcome);
            &&& f.status == HealthStatus::Healthy <==> (outcome is Exited
                && outcome->Exited_code == Some(0i32))
            &&& f.status != HealthStatus::Healthy ==> f.status == HealthStatus::Unhealthy
            &&& f.error is None <==> f.status == HealthStatus::Healthy
            &&& outcome matches CheckOutcome::Failed(e) ==> f.error == Some(e@)
            &&& outcome is TimedOut ==> f.error == Some("health check timed out"@)
            &&& (outcome is Exited && f.error is Some) ==> f.error->0 == "exit code "@ + (
            match outcome->Exited_code {
                Some(c) => "Some("@ + text::signed_decimal(c as int) + ")"@,
                None => "None"@,
            }) + ": "@ + text::trimmed(shell::lossy_text(outcome->Exited_stderr@))
        }),
{
}

/// A unit is checked exactly while it runs or is installed: a sidecar by asking
/// it, a package by its command, and nothing else in any way.
pub proof fn law_units_in_use_are_checked(row: UnitRowModel)
    ensures
        ({
            let used = row.state == "running"@ || row.state == "installed"@;
            &&& check_kind_of(row) == CheckKind::Ipc <==> used && row.kind == "sidecar"@
            &&& check_kind_of(row) == CheckKind::Command <==> used && row.kind == "package"@
        }),
{
    reveal_strlit("sidecar");
    reveal_strlit("package");
    assert("sidecar"@[0] != "package"@[0]);
}

/// What a check changes of a unit's row: its health by name and its complaint, or
/// neither where there was nothing to check by, and the time. It is a change
/// exactly where one of the two is another than before.
pub proof fn law_check_changes_health_alone(
    row: UnitRowModel,
    finding: Option<FindingModel>,
    now_ms: i64,
)
    ensures
        ({
            let n = checked_row(row, finding, now_ms);
            &&& n.name == row.name
            &&& n.kind == row.kind
            &&& n.version == row.version
            &&& n.state == row.state
            &&& n.pid == row.pid
            &&& n.socket_path == row.socket_path
            &&& n.config_json == row.config_json
            &&& n.updated_at == now_ms
            &&& finding is None ==> n.health is None && n.health_error is None
            &&& finding matches Some(f) ==> n.health_error == f.error && n.health == Some(
                match f.status {
                    HealthStatus::Healthy => "ok"@,
                    HealthStatus::Degraded => "degraded"@,
                    HealthStatus::Unhealthy => "unhealthy"@,
                },
            )
            &&& health_differs(row, finding) <==> n.health != row.health || n.health_error
                != row.health_error
        }),
{
}

/// The check that is found in a configuration is the one under `health_check`: its
/// command as it is, and its time limit, or five seconds where it has none that
/// is a number; without a command there is no check.
pub proof fn law_check_is_what_the_configuration_says(config: JsonView)
    ensures
        ({
            let hc = config.field("health_check"@);
            let command = if hc is Some {
                hc->0.field("command"@)
            } else {
                None
            };
            let limit = if hc is Some {
                hc->0.field("timeout_ms"@)
            } else {
                None
            };
            let r = check_in(config);
            &&& r is Some <==> command is Some && command->0 is Text
            &&& r matches Some(c) ==> c.command == command->0->Text_0
            &&& (r is Some && limit is Some && limit->0.integer() is Some && 0
                <= limit->0.integer()->0 <= u64::MAX) ==> r->0.timeout_ms == limit->0.integer()->0
            &&& (r is Some && !(limit is Some && limit->0.integer() is Some && 0
                <= limit->0.integer()->0 <= u64::MAX)) ==> r->0.timeout_ms == 5_000
        }),
{
}

} // verus!
