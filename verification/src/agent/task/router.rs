//! Routing of tasks, and the results they end in.

use crate::agent::error::{joined, Error, ErrorModel};
use crate::ids::Uuid;
use crate::protocol::task::{
    ExecTask, Executor, Task, TaskResult, TaskResultModel, TaskResultStatus,
};
use crate::wire::{self, Wire};
use vstd::prelude::*;
use vstd::string::*;

verus! {

/// When something ended and how long it took.
#[derive(Debug, Clone, Copy, PartialEq, Eq, Structural)]
pub struct Timing {
    /// Milliseconds it took.
    pub elapsed_ms: u64,
    /// Milliseconds since the Unix epoch at its end.
    pub timestamp: u64,
}

/// What a result outside any chain is.
pub open spec fn result_of(
    task_id: Uuid,
    status: TaskResultStatus,
    exit_code: Option<i32>,
    stdout: Seq<char>,
    stderr: Seq<char>,
    timing: Timing,
    error: Option<Seq<char>>,
) -> TaskResultModel {
    TaskResultModel {
        task_id,
        chain_id: None,
        step_index: None,
        status,
        exit_code,
        stdout,
        stderr,
        duration_ms: timing.elapsed_ms,
        timestamp: timing.timestamp,
        error,
    }
}

/// A result outside any chain.
pub fn make_result(
    task_id: Uuid,
    status: TaskResultStatus,
    exit_code: Option<i32>,
    stdout: String,
    stderr: String,
    timing: Timing,
    error: Option<String>,
) -> (r: TaskResult)
    ensures
        r.model() == result_of(
            task_id,
            status,
            exit_code,
            stdout@,
            stderr@,
            timing,
            wire::optional_model(error),
        ),
{
    TaskResult {
        task_id,
        chain_id: None,
        step_index: None,
        status,
        exit_code,
        stdout,
        stderr,
        duration_ms: timing.elapsed_ms,
        timestamp: timing.timestamp,
        error,
    }
}

/// What runs an exec task.
#[derive(Debug)]
pub enum ExecPlan {
    /// A shell.
    Shell,
    /// A method of a sidecar.
    Sidecar { target: String, method: String },
}

/// The sidecar that an exec task names.
pub open spec fn target_of(exec: ExecTask) -> Seq<char> {
    match exec.target {
        Some(t) => t@,
        None => "unknown"@,
    }
}

/// The sidecar's method that an exec task names.
pub open spec fn method_of(exec: ExecTask) -> Seq<char> {
    match exec.method {
        Some(m) => m@,
        None => "submit"@,
    }
}

/// Decides what runs an exec task.
pub fn plan_exec(exec: &ExecTask) -> (r: ExecPlan)
    ensures
        match exec.executor {
            Executor::Shell => r is Shell,
            Executor::Sidecar => r matches ExecPlan::Sidecar { target, method } && target@
                == target_of(*exec) && method@ == method_of(*exec),
        },
{
    match exec.executor {
        Executor::Shell => ExecPlan::Shell,
        Executor::Sidecar => {
            let target = match &exec.target {
                Some(t) => t.clone(),
                None => "unknown".to_owned(),
            };
            let method = match &exec.method {
                Some(m) => m.clone(),
                None => "submit".to_owned(),
            };
            ExecPlan::Sidecar { target, method }
        },
    }
}

/// The result of a task whose credentials could not be had.
pub fn unresolved_result(task_id: Uuid, e: &Error, timing: Timing) -> (r: TaskResult)
    ensures
        r.model() == result_of(
            task_id,
            TaskResultStatus::Failed,
            None,
            Seq::empty(),
            e@.text(),
            timing,
            Some(e@.text()),
        ),
{
    let words = e.to_text();
    make_result(
        task_id,
        TaskResultStatus::Failed,
        None,
        String::new(),
        words.clone(),
        timing,
        Some(words),
    )
}

/// The work that a task other than exec and cancel stands for.
#[derive(Debug, Clone, Copy, PartialEq, Eq, Structural)]
pub enum Route {
    /// A unit is installed.
    Install,
    /// A unit is upgraded.
    Upgrade,
    /// A unit is removed.
    Remove,
    /// The agent is upgraded.
    SelfUpgrade,
    /// None: the task is not routed this way.
    Misrouted,
}

/// The work that a task stands for.
pub open spec fn route_of(task: Task) -> Route {
    match task {
        Task::Install(_) => Route::Install,
        Task::Upgrade(_) => Route::Upgrade,
        Task::Remove(_) => Route::Remove,
        Task::SelfUpgrade(_) => Route::SelfUpgrade,
        Task::Exec(_) => Route::Misrouted,
        Task::Cancel(_) => Route::Misrouted,
    }
}

/// The work that a task stands for.
pub fn route(task: &Task) -> (r: Route)
    ensures
        r == route_of(*task),
{
    match task {
        Task::Install(_) => Route::Install,
        Task::Upgrade(_) => Route::Upgrade,
        Task::Remove(_) => Route::Remove,
        Task::SelfUpgrade(_) => Route::SelfUpgrade,
        Task::Exec(_) => Route::Misrouted,
        Task::Cancel(_) => Route::Misrouted,
    }
}

/// What is said of a routed task that was done.
pub open spec fn done_text(task: Task) -> Seq<char> {
    match task {
        Task::Install(t) => "installed unit "@ + t.unit.name@,
        Task::Upgrade(t) => "upgraded unit "@ + t.unit_name@ + " to "@ + t.target_version@,
        Task::Remove(t) => "removed unit "@ + t.unit_name@,
        Task::SelfUpgrade(t) => "self-upgrade to "@ + t.target_version@
            + " prepared — restart required"@,
        _ => Seq::empty(),
    }
}

/// The result of a routed task, by how the work went.
pub open spec fn routed_result(
    task: Task,
    outcome: Result<(), ErrorModel>,
    timing: Timing,
) -> TaskResultModel {
    let id = task.spec_id();
    let none = Seq::<char>::empty();
    if route_of(task) == Route::Misrouted {
        result_of(
            id,
            TaskResultStatus::Failed,
            None,
            none,
            "internal routing error"@,
            timing,
            Some("exec/cancel should not reach route_task"@),
        )
    } else {
        match outcome {
            Ok(_) => result_of(
                id,
                TaskResultStatus::Success,
                None,
                done_text(task),
                none,
                timing,
                None,
            ),
            Err(e) => result_of(
                id,
                TaskResultStatus::Failed,
                None,
                none,
                e.text(),
                timing,
                Some(e.text()),
            ),
        }
    }
}

/// How work went.
pub open spec fn outcome_model(outcome: Result<(), Error>) -> Result<(), ErrorModel> {
    match outcome {
        Ok(_) => Ok(()),
        Err(e) => Err(e@),
    }
}

/// The result of a routed task, by how the work went.
pub fn route_task(task: &Task, outcome: Result<(), Error>, timing: Timing) -> (r: TaskResult)
    ensures
        r.model() == routed_result(*task, outcome_model(outcome), timing),
{
    let id = task.id();
    let done = match task {
        Task::Install(t) => joined("installed unit ", t.unit.name.as_str()),
        Task::Upgrade(t) => {
            let mut s: String = joined("upgraded unit ", t.unit_name.as_str());
            s.append(" to ");
            s.append(t.target_version.as_str());
            s
        },
        Task::Remove(t) => joined("removed unit ", t.unit_name.as_str()),
        Task::SelfUpgrade(t) => {
            let mut s: String = joined("self-upgrade to ", t.target_version.as_str());
            s.append(" prepared — restart required");
            s
        },
        Task::Exec(_) | Task::Cancel(_) => {
            return make_result(
                id,
                TaskResultStatus::Failed,
                None,
                String::new(),
                "internal routing error".to_owned(),
                timing,
                Some("exec/cancel should not reach route_task".to_owned()),
            );
        },
    };
    match outcome {
        Ok(_) => make_result(
            id,
            TaskResultStatus::Success,
            None,
            done,
            String::new(),
            timing,
            None,
        ),
        Err(e) => unresolved_result(id, &e, timing),
    }
}

/// A result says what it was made from, and belongs to no chain.
pub proof fn law_result_says_what_it_is_made_of(
    task_id: Uuid,
    status: TaskResultStatus,
    exit_code: Option<i32>,
    stdout: Seq<char>,
    stderr: Seq<char>,
    timing: Timing,
    error: Option<Seq<char>>,
)
    ensures
        ({
            let r = result_of(task_id, status, exit_code, stdout, stderr, timing, error);
            &&& r.task_id == task_id
            &&& r.chain_id is None
            &&& r.step_index is None
            &&& r.status == status
            &&& r.exit_code == exit_code
            &&& r.stdout == stdout
            &&& r.stderr == stderr
            &&& r.duration_ms == timing.elapsed_ms
            &&& r.timestamp == timing.timestamp
            &&& r.error == error
        }),
{
}

/// The sidecar and the method of a task are those that it names; the method that
/// goes without saying is `submit`.
pub proof fn law_sidecar_task_is_sent_where_it_says(exec: ExecTask)
    ensures
        exec.target matches Some(t) ==> target_of(exec) == t@,
        exec.method matches Some(m) ==> method_of(exec) == m@,
        exec.method is None ==> method_of(exec) == "submit"@,
        exec.target is None ==> target_of(exec) == "unknown"@,
{
}

/// A routed task succeeds exactly when its work did, and then says what was done
/// to which unit, at which version; where the work failed, the task fails for
/// that reason. A task that is not routed this way always fails. The result is
/// under the task's own identifier, with the time that it took.
pub proof fn law_routed_task_is_reported_as_it_went(
    task: Task,
    outcome: Result<(), ErrorModel>,
    timing: Timing,
)
    ensures
        ({
            let r = routed_result(task, outcome, timing);
            let routed = task is Install || task is Upgrade || task is Remove || task
                is SelfUpgrade;
            &&& r.task_id == task.spec_id()
            &&& r.chain_id is None
            &&& r.step_index is None
            &&& r.exit_code is None
            &&& r.duration_ms == timing.elapsed_ms
            &&& r.timestamp == timing.timestamp
            &&& r.status == TaskResultStatus::Success <==> routed && outcome is Ok
            &&& r.status != TaskResultStatus::Success ==> r.status == TaskResultStatus::Failed
            &&& r.error is None <==> r.status == TaskResultStatus::Success
            &&& r.status == TaskResultStatus::Success ==> r.stderr.len() == 0
            &&& r.status == TaskResultStatus::Failed ==> r.stdout.len() == 0
            &&& (routed && outcome is Err) ==> r.stderr == outcome->Err_0.text() && r.error == Some(
                outcome->Err_0.text(),
            )
            &&& (outcome is Ok && task is Install) ==> r.stdout == "installed unit "@
                + task->Install_0.unit.name@
            &&& (outcome is Ok && task is Upgrade) ==> r.stdout == "upgraded unit "@
                + task->Upgrade_0.unit_name@ + " to "@ + task->Upgrade_0.target_version@
            &&& (outcome is Ok && task is Remove) ==> r.stdout == "removed unit "@
                + task->Remove_0.unit_name@
            &&& (outcome is Ok && task is SelfUpgrade) ==> r.stdout == "self-upgrade to "@
                + task->SelfUpgrade_0.target_version@ + " prepared — restart required"@
            &&& !routed ==> r.stderr == "internal routing error"@
        }),
{
}

/// Each kind of unit work goes its own way, and nothing else does.
pub proof fn law_routes(task: Task)
    ensures
        route_of(task) == Route::Install <==> task is Install,
        route_of(task) == Route::Upgrade <==> task is Upgrade,
        route_of(task) == Route::Remove <==> task is Remove,
        route_of(task) == Route::SelfUpgrade <==> task is SelfUpgrade,
        route_of(task) == Route::Misrouted <==> task is Exec || task is Cancel,
{
}

} // verus!
