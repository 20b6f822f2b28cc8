//! Continuous tasks: run over and over at an interval, every run reported, until
//! cancelled.

use crate::agent::task::router::{self, make_result, Timing};
use crate::ids::Uuid;
use crate::protocol::task::{ExecTask, TaskResult, TaskResultModel, TaskResultStatus};
use crate::wire::Wire;
use vstd::prelude::*;
use vstd::string::*;

verus! {

/// Milliseconds between the runs of a task that does not say.
pub const DEFAULT_INTERVAL_MS: u64 = 30_000;

/// Where a continuous task stands.
#[derive(Debug, Clone, Copy, PartialEq, Eq, Structural)]
pub enum ContinuousPhase {
    /// Waiting for the next run.
    Waiting,
    /// Credentials for a run are being fetched.
    Resolving,
    /// A run is under way.
    Ticking,
    /// Over.
    Over,
}

/// What came of the latest wait or action.
#[derive(Debug)]
pub enum ContinuousEvent {
    /// The task was cancelled while it waited.
    Cancelled,
    /// The agent is shutting down.
    ShuttingDown,
    /// The interval is over.
    IntervalPassed,
    /// The credentials are there.
    Resolved,
    /// The credentials could not be had, for the given reason.
    Unresolved(String),
    /// The run ended.
    Ticked(TaskResult),
}

/// Where a continuous task stands, in full: the phase and the latest result.
#[verifier::ext_equal]
pub struct ContinuousState {
    pub phase: ContinuousPhase,
    pub last: TaskResultModel,
}

/// Milliseconds between the runs of a task.
pub open spec fn interval_of(exec: ExecTask) -> u64 {
    match exec.interval_ms {
        Some(ms) => ms,
        None => DEFAULT_INTERVAL_MS,
    }
}

/// A result without output that took no time.
pub open spec fn blank(task_id: Uuid, status: TaskResultStatus, timestamp: u64) -> TaskResultModel {
    router::result_of(
        task_id,
        status,
        None,
        Seq::empty(),
        Seq::empty(),
        Timing { elapsed_ms: 0, timestamp },
        None,
    )
}

/// Where an event takes a task, and the result that is to be journalled and
/// reported for it. An event that the task does not wait for changes nothing.
pub open spec fn continuous_next(
    task_id: Uuid,
    s: ContinuousState,
    event: ContinuousEvent,
    timing: Timing,
) -> (ContinuousState, Option<TaskResultModel>) {
    match (s.phase, event) {
        (ContinuousPhase::Waiting, ContinuousEvent::Cancelled) => (
            ContinuousState {
                phase: ContinuousPhase::Over,
                last: blank(task_id, TaskResultStatus::Cancelled, timing.timestamp),
            },
            None,
        ),
        (ContinuousPhase::Waiting, ContinuousEvent::ShuttingDown) => (
            ContinuousState { phase: ContinuousPhase::Over, ..s },
            None,
        ),
        (ContinuousPhase::Waiting, ContinuousEvent::IntervalPassed) => (
            ContinuousState { phase: ContinuousPhase::Resolving, ..s },
            None,
        ),
        (ContinuousPhase::Resolving, ContinuousEvent::Resolved) => (
            ContinuousState { phase: ContinuousPhase::Ticking, ..s },
            None,
        ),
        (ContinuousPhase::Resolving, ContinuousEvent::Unresolved(e)) => {
            let failure = router::result_of(
                task_id,
                TaskResultStatus::Failed,
                None,
                Seq::empty(),
                e@,
                timing,
                Some(e@),
            );
            (ContinuousState { phase: ContinuousPhase::Waiting, last: failure }, Some(failure))
        },
        (ContinuousPhase::Ticking, ContinuousEvent::Ticked(r)) => (
            ContinuousState { phase: ContinuousPhase::Waiting, last: r.model() },
            Some(r.model()),
        ),
        _ => (s, None),
    }
}

/// A continuous task under way.
#[derive(Debug)]
pub struct ContinuousRun {
    task_id: Uuid,
    interval_ms: u64,
    phase: ContinuousPhase,
    last: TaskResult,
}

impl ContinuousRun {
    /// The task.
    pub closed spec fn task_id(&self) -> Uuid {
        self.task_id
    }

    /// Milliseconds between its runs.
    pub closed spec fn interval(&self) -> u64 {
        self.interval_ms
    }

    /// Where it stands.
    pub closed spec fn state(&self) -> ContinuousState {
        ContinuousState { phase: self.phase, last: self.last.model() }
    }

    /// A task that waits for its first run.
    pub fn new(exec: &ExecTask, timestamp: u64) -> (r: ContinuousRun)
        ensures
            r.task_id() == exec.id,
            r.interval() == interval_of(*exec),
            exec.interval_ms matches Some(ms) ==> r.interval() == ms,
            exec.interval_ms is None ==> r.interval() == DEFAULT_INTERVAL_MS,
            r.state() == (ContinuousState {
                phase: ContinuousPhase::Waiting,
                last: blank(exec.id, TaskResultStatus::Success, timestamp),
            }),
    {
        let interval_ms: u64 = match exec.interval_ms {
            Some(ms) => ms,
            None => DEFAULT_INTERVAL_MS,
        };
        ContinuousRun {
            task_id: exec.id,
            interval_ms,
            phase: ContinuousPhase::Waiting,
            last: make_result(
                exec.id,
                TaskResultStatus::Success,
                None,
                String::new(),
                String::new(),
                Timing { elapsed_ms: 0, timestamp },
                None,
            ),
        }
    }

    /// Milliseconds between runs.
    pub fn interval_ms(&self) -> (r: u64)
        ensures
            r == self.interval(),
    {
        self.interval_ms
    }

    /// Where the task stands.
    pub fn phase(&self) -> (r: ContinuousPhase)
        ensures
            r == self.state().phase,
    {
        self.phase
    }

    /// The latest result; when the task is over, its last word.
    pub fn into_last(self) -> (r: TaskResult)
        ensures
            r.model() == self.state().last,
    {
        self.last
    }

    /// Takes note of what happened; the result of a run is handed back to be
    /// journalled and reported.
    pub fn on_event(&mut self, event: ContinuousEvent, timing: Timing) -> (report: Option<
        TaskResult,
    >)
        ensures
            final(self).task_id() == old(self).task_id(),
            final(self).interval() == old(self).interval(),
            ({
                let (n, out) = continuous_next(
                    old(self).task_id(),
                    old(self).state(),
                    event,
                    timing,
                );
                final(self).state() == n && crate::wire::optional_model(report) == out
            }),
    {
        match (self.phase, event) {
            (ContinuousPhase::Waiting, ContinuousEvent::Cancelled) => {
                self.phase = ContinuousPhase::Over;
                self.last =
                make_result(
                    self.task_id,
                    TaskResultStatus::Cancelled,
                    None,
                    String::new(),
                    String::new(),
                    Timing { elapsed_ms: 0, timestamp: timing.timestamp },
                    None,
                );
                None
            },
            (ContinuousPhase::Waiting, ContinuousEvent::ShuttingDown) => {
                self.phase = ContinuousPhase::Over;
                None
            },
            (ContinuousPhase::Waiting, ContinuousEvent::IntervalPassed) => {
                self.phase = ContinuousPhase::Resolving;
                None
            },
            (ContinuousPhase::Resolving, ContinuousEvent::Resolved) => {
                self.phase = ContinuousPhase::Ticking;
                None
            },
            (ContinuousPhase::Resolving, ContinuousEvent::Unresolved(e)) => {
                let failure = make_result(
                    self.task_id,
                    TaskResultStatus::Failed,
                    None,
                    String::new(),
                    e.clone(),
                    timing,
                    Some(e),
                );
                self.phase = ContinuousPhase::Waiting;
                self.last = failure.duplicate();
                Some(failure)
            },
            (ContinuousPhase::Ticking, ContinuousEvent::Ticked(r)) => {
                self.phase = ContinuousPhase::Waiting;
                self.last = r.duplicate();
                Some(r)
            },
            _ => None,
        }
    }
}

/// Every run is reported, whatever it came to: the end of a run, or of the
/// fetching of its credentials, hands back a result, which is also the latest
/// one, and the task waits for the next run.
pub proof fn law_every_tick_is_reported(
    task_id: Uuid,
    s: ContinuousState,
    event: ContinuousEvent,
    timing: Timing,
)
    ensures
        ({
            let (n, report) = continuous_next(task_id, s, event, timing);
            &&& (s.phase == ContinuousPhase::Ticking && event is Ticked) ==> report == Some(
                event->Ticked_0.model(),
            ) && n.phase == ContinuousPhase::Waiting
            &&& (s.phase == ContinuousPhase::Resolving && event is Unresolved) ==> report is Some
                && n.phase == ContinuousPhase::Waiting
            &&& report matches Some(r) ==> n.last == r
        }),
{
}

/// A continuous task goes on until it is cancelled or the agent shuts down: no
/// outcome of a run ends it. Cancelled, it says so; at a shutdown its last word
/// is the result of its latest run.
pub proof fn law_only_cancel_or_shutdown_ends_it(
    task_id: Uuid,
    s: ContinuousState,
    event: ContinuousEvent,
    timing: Timing,
)
    requires
        s.phase != ContinuousPhase::Over,
    ensures
        ({
            let (n, report) = continuous_next(task_id, s, event, timing);
            n.phase == ContinuousPhase::Over ==> {
                ||| event is Cancelled && n.last.status == TaskResultStatus::Cancelled
                ||| event is ShuttingDown && n.last == s.last
            }
        }),
{
}

/// A task that says how often it runs is run that often, be it more or less often
/// than the default; only one that does not say waits thirty seconds.
pub proof fn law_interval_is_what_the_task_says(exec: ExecTask)
    ensures
        exec.interval_ms matches Some(ms) ==> interval_of(exec) == ms,
        exec.interval_ms is None ==> interval_of(exec) == 30_000,
{
}

/// The life of a continuous task: when its interval has passed it fetches its
/// credentials, and once it has them it runs; then it waits again. What it waits
/// for decides what an event does: others change nothing and report nothing. A
/// run is reported as it came; credentials that cannot be had are reported as a
/// failure of the task for that reason.
pub proof fn law_continuous_task_goes_round(
    task_id: Uuid,
    s: ContinuousState,
    event: ContinuousEvent,
    timing: Timing,
)
    ensures
        ({
            let (n, report) = continuous_next(task_id, s, event, timing);
            &&& n.phase == ContinuousPhase::Resolving && s.phase != n.phase <==> s.phase
                == ContinuousPhase::Waiting && event is IntervalPassed
            &&& n.phase == ContinuousPhase::Ticking && s.phase != n.phase <==> s.phase
                == ContinuousPhase::Resolving && event is Resolved
            &&& n.phase == ContinuousPhase::Waiting && s.phase != n.phase <==> (s.phase
                == ContinuousPhase::Resolving && event is Unresolved) || (s.phase
                == ContinuousPhase::Ticking && event is Ticked)
            &&& n.phase == ContinuousPhase::Over && s.phase != n.phase <==> s.phase
                == ContinuousPhase::Waiting && (event is Cancelled || event is ShuttingDown)
            &&& report is Some <==> n.phase == ContinuousPhase::Waiting && s.phase != n.phase
            &&& n.last != s.last ==> report == Some(n.last) || event is Cancelled
            &&& (report is Some && event is Ticked) ==> report->0 == event->Ticked_0.model()
            &&& (report is Some && event is Unresolved) ==> {
                let e = event->Unresolved_0@;
                &&& report->0.task_id == task_id
                &&& report->0.chain_id is None
                &&& report->0.step_index is None
                &&& report->0.status == TaskResultStatus::Failed
                &&& report->0.exit_code is None
                &&& report->0.stdout.len() == 0
                &&& report->0.stderr == e
                &&& report->0.error == Some(e)
                &&& report->0.duration_ms == timing.elapsed_ms
                &&& report->0.timestamp == timing.timestamp
            }
            &&& (s.phase == ContinuousPhase::Waiting && event is Cancelled) ==> {
                &&& n.last.task_id == task_id
                &&& n.last.status == TaskResultStatus::Cancelled
                &&& n.last.exit_code is None
                &&& n.last.stdout.len() == 0
                &&& n.last.stderr.len() == 0
                &&& n.last.error is None
                &&& n.last.duration_ms == 0
                &&& n.last.timestamp == timing.timestamp
            }
        }),
{
}

/// The last word of a task that never ran: a success without output.
pub proof fn law_first_word_is_a_blank_success(task_id: Uuid, timestamp: u64)
    ensures
        ({
            let r = blank(task_id, TaskResultStatus::Success, timestamp);
            &&& r.task_id == task_id
            &&& r.chain_id is None
            &&& r.step_index is None
            &&& r.status == TaskResultStatus::Success
            &&& r.exit_code is None
            &&& r.stdout.len() == 0
            &&& r.stderr.len() == 0
            &&& r.error is None
            &&& r.duration_ms == 0
            &&& r.timestamp == timestamp
        }),
{
}

} // verus!
