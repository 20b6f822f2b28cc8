//! Chains: exec tasks one after the other, and what is undone when one fails.
//!
//! [`ChainRun`] decides; whoever drives it resolves credentials and runs tasks
//! as [`ChainRun::action`] says and reports back with [`ChainRun::on_event`].

use crate::agent::audit;
use crate::agent::task::router::{self, make_result, Timing};
use crate::ids::Uuid;
use crate::json::{Json, JsonObject, JsonView, NumberView};
use crate::protocol::task::{
    RollbackStrategy, TaskChain, TaskResult, TaskResultModel, TaskResultStatus,
};
use crate::wire::{self, Wire};
use vstd::prelude::*;
use vstd::string::*;

verus! {

/// Where a chain stands.
#[derive(Debug, Clone, Copy, PartialEq, Eq, Structural)]
pub enum ChainPhase {
    /// Not begun.
    Fresh,
    /// The credentials of a step are being fetched.
    Resolving { step: usize },
    /// A step is running.
    Running { step: usize },
    /// The credentials for undoing a step are being fetched.
    UndoResolving { failed: usize, step: usize },
    /// A step is being undone.
    Undoing { failed: usize, step: usize },
    /// Over.
    Over,
}

/// What a chain wants done.
#[derive(Debug, Clone, Copy, PartialEq, Eq, Structural)]
pub enum ChainAction {
    /// Begin the chain.
    Begin,
    /// Fetch the credentials of a step's task.
    ResolveStep { step: usize },
    /// Run a step's task.
    RunStep { step: usize },
    /// Fetch the credentials of a step's rollback.
    ResolveRollback { step: usize },
    /// Run a step's rollback.
    RunRollback { step: usize },
    /// Nothing more.
    Finish,
}

/// What came of the latest action.
#[derive(Debug)]
pub enum ChainEvent {
    /// The chain is begun.
    Begun,
    /// The credentials are there.
    Resolved,
    /// The credentials could not be had, for the given reason.
    Unresolved(String),
    /// The task ended.
    Finished(TaskResult),
}

/// What the audit trail is told of a chain.
#[derive(Debug, Clone, Copy, PartialEq, Eq, Structural)]
pub enum ChainRecord {
    /// It has begun, with so many steps.
    Started { steps: usize },
    /// It has run to its end, with so many steps completed.
    Completed { steps_completed: usize },
    /// A step failed and the chain is undone.
    Rollback { strategy: RollbackStrategy, failed_step: usize },
}

/// The greatest index up to `from` at which there is something to undo.
pub open spec fn undo_at_or_below(undoable: Seq<bool>, from: int) -> Option<usize>
    decreases from + 1,
{
    if from < 0 {
        None
    } else if undoable[from] {
        Some(from as usize)
    } else {
        undo_at_or_below(undoable, from - 1)
    }
}

/// The step to undo first once step `failed` has failed.
pub open spec fn first_undo(undoable: Seq<bool>, strategy: RollbackStrategy, failed: int) -> Option<
    usize,
> {
    match strategy {
        RollbackStrategy::RollbackFailed => if undoable[failed] {
            Some(failed as usize)
        } else {
            None
        },
        RollbackStrategy::RollbackAll => undo_at_or_below(undoable, failed),
    }
}

/// The step to undo after `step` has been dealt with.
pub open spec fn next_undo(undoable: Seq<bool>, strategy: RollbackStrategy, step: int) -> Option<
    usize,
> {
    match strategy {
        RollbackStrategy::RollbackFailed => None,
        RollbackStrategy::RollbackAll => undo_at_or_below(undoable, step - 1),
    }
}

/// Which steps of a chain can be undone.
pub open spec fn undoable_steps(chain: TaskChain) -> Seq<bool> {
    Seq::new(chain.steps@.len(), |i: int| chain.steps@[i].rollback is Some)
}

/// Where a chain stands, in full.
#[verifier::ext_equal]
pub struct ChainState {
    pub phase: ChainPhase,
    pub results: Seq<TaskResultModel>,
}

/// The result of a step, as it is reported: marked with the chain and the place
/// in it.
pub open spec fn marked(m: TaskResultModel, chain_id: Uuid, step: usize) -> TaskResultModel {
    TaskResultModel { chain_id: Some(chain_id), step_index: Some(step as u32), ..m }
}

/// Goes on to a step, unless the chain is at its end or has been cancelled.
pub open spec fn go_on(
    chain: TaskChain,
    results: Seq<TaskResultModel>,
    step: int,
    cancelled: bool,
) -> (ChainState, Seq<ChainRecord>) {
    if step < chain.steps@.len() && !cancelled {
        (ChainState { phase: ChainPhase::Resolving { step: step as usize }, results }, Seq::empty())
    } else {
        (
            ChainState { phase: ChainPhase::Over, results },
            seq![ChainRecord::Completed { steps_completed: results.len() as usize }],
        )
    }
}

/// The phase in which a step is about to be undone.
pub open spec fn undo_phase(failed: usize, target: Option<usize>) -> ChainPhase {
    match target {
        Some(step) => ChainPhase::UndoResolving { failed, step },
        None => ChainPhase::Over,
    }
}

/// Turns to undoing once a step has failed.
pub open spec fn turn_back(chain: TaskChain, results: Seq<TaskResultModel>, failed: usize) -> (
    ChainState,
    Seq<ChainRecord>,
) {
    (
        ChainState {
            phase: undo_phase(
                failed,
                first_undo(undoable_steps(chain), chain.on_failure, failed as int),
            ),
            results,
        },
        seq![ChainRecord::Rollback { strategy: chain.on_failure, failed_step: failed }],
    )
}

/// Where an event takes a chain, and what the audit trail is told. An event that
/// the chain does not wait for changes nothing.
pub open spec fn chain_next(
    chain: TaskChain,
    s: ChainState,
    event: ChainEvent,
    cancelled: bool,
    timestamp: u64,
) -> (ChainState, Seq<ChainRecord>) {
    match (s.phase, event) {
        (ChainPhase::Fresh, ChainEvent::Begun) => {
            let (n, records) = go_on(chain, s.results, 0, cancelled);
            (
                n,
                seq![ChainRecord::Started { steps: chain.steps@.len() as usize }] + records,
            )
        },
        (ChainPhase::Resolving { step }, ChainEvent::Resolved) => (
            ChainState { phase: ChainPhase::Running { step }, ..s },
            Seq::empty(),
        ),
        (ChainPhase::Resolving { step }, ChainEvent::Unresolved(e)) => {
            let failure = router::result_of(
                chain.steps@[step as int].task.id,
                TaskResultStatus::Failed,
                None,
                Seq::empty(),
                e@,
                Timing { elapsed_ms: 0, timestamp },
                Some(e@),
            );
            turn_back(chain, s.results.push(marked(failure, chain.id, step)), step)
        },
        (ChainPhase::Running { step }, ChainEvent::Finished(r)) => {
            let results = s.results.push(marked(r.model(), chain.id, step));
            if r.status == TaskResultStatus::Success {
                go_on(chain, results, step + 1, cancelled)
            } else {
                turn_back(chain, results, step)
            }
        },
        (ChainPhase::UndoResolving { failed, step }, ChainEvent::Resolved) => (
            ChainState { phase: ChainPhase::Undoing { failed, step }, ..s },
            Seq::empty(),
        ),
        (ChainPhase::UndoResolving { failed, step }, ChainEvent::Unresolved(_)) => (
            ChainState {
                phase: undo_phase(
                    failed,
                    next_undo(undoable_steps(chain), chain.on_failure, step as int),
                ),
                ..s
            },
            Seq::empty(),
        ),
        (ChainPhase::Undoing { failed, step }, ChainEvent::Finished(_)) => (
            ChainState {
                phase: undo_phase(
                    failed,
                    next_undo(undoable_steps(chain), chain.on_failure, step as int),
                ),
                ..s
            },
            Seq::empty(),
        ),
        _ => (s, Seq::empty()),
    }
}

/// What holds of a chain at every moment: each step so far has one result, in
/// order, marked with the chain and its place; all but the last succeeded; the
/// last one failed exactly when the chain is being undone.
pub open spec fn chain_inv(chain: TaskChain, s: ChainState) -> bool {
    let n = s.results.len();
    let undoable = undoable_steps(chain);
    &&& n <= chain.steps@.len()
    &&& forall|i: int|
        0 <= i < n ==> (#[trigger] s.results[i]).chain_id == Some(chain.id)
            && s.results[i].step_index == Some(i as u32)
    &&& forall|i: int|
        0 <= i < n - 1 ==> (#[trigger] s.results[i]).status == TaskResultStatus::Success
    &&& match s.phase {
        ChainPhase::Fresh => n == 0,
        ChainPhase::Resolving { step } | ChainPhase::Running { step } => n == step && step
            < chain.steps@.len() && (n > 0 ==> s.results[n - 1].status
            == TaskResultStatus::Success),
        ChainPhase::UndoResolving { failed, step } | ChainPhase::Undoing { failed, step } => n
            == failed + 1 && step <= failed && undoable[step as int] && s.results[n - 1].status
            != TaskResultStatus::Success && (chain.on_failure == RollbackStrategy::RollbackFailed
            ==> step == failed),
        ChainPhase::Over => true,
    }
}

/// A chain under way.
#[derive(Debug)]
pub struct ChainRun {
    chain: TaskChain,
    results: Vec<TaskResult>,
    phase: ChainPhase,
}

impl ChainRun {
    /// The chain.
    pub closed spec fn chain(&self) -> TaskChain {
        self.chain
    }

    /// Where it stands.
    pub closed spec fn state(&self) -> ChainState {
        ChainState { phase: self.phase, results: wire::models(self.results@) }
    }

    /// Its invariant.
    pub open spec fn wf(&self) -> bool {
        chain_inv(self.chain(), self.state())
    }

    /// A chain that has not begun.
    pub fn new(chain: TaskChain) -> (r: ChainRun)
        ensures
            r.chain() == chain,
            r.state() == (ChainState { phase: ChainPhase::Fresh, results: Seq::empty() }),
            r.wf(),
    {
        let r = ChainRun { chain, results: Vec::new(), phase: ChainPhase::Fresh };
        proof {
            assert(r.state().results =~= Seq::empty());
        }
        r
    }

    /// The chain.
    pub fn task_chain(&self) -> (r: &TaskChain)
        ensures
            *r == self.chain(),
    {
        &self.chain
    }

    /// The results so far, one for each step that was run.
    pub fn results(&self) -> (r: &Vec<TaskResult>)
        ensures
            wire::models(r@) == self.state().results,
    {
        &self.results
    }

    /// The results, when the chain is over.
    pub fn into_results(self) -> (r: Vec<TaskResult>)
        ensures
            wire::models(r@) == self.state().results,
    {
        self.results
    }

    /// What the chain wants done now.
    pub fn action(&self) -> (r: ChainAction)
        ensures
            r == action_in(self.state().phase),
    {
        match self.phase {
            ChainPhase::Fresh => ChainAction::Begin,
            ChainPhase::Resolving { step } => ChainAction::ResolveStep { step },
            ChainPhase::Running { step } => ChainAction::RunStep { step },
            ChainPhase::UndoResolving { step, .. } => ChainAction::ResolveRollback { step },
            ChainPhase::Undoing { step, .. } => ChainAction::RunRollback { step },
            ChainPhase::Over => ChainAction::Finish,
        }
    }

    /// Takes note of what came of the latest action. `cancelled` says whether
    /// the chain has been cancelled by now; a cancelled chain starts no further
    /// step.
    pub fn on_event(&mut self, event: ChainEvent, cancelled: bool, timestamp: u64) -> (records: Vec<
        ChainRecord,
    >)
        requires
            old(self).wf(),
        ensures
            final(self).wf(),
            final(self).chain() == old(self).chain(),
            (final(self).state(), records@) == chain_next(
                old(self).chain(),
                old(self).state(),
                event,
                cancelled,
                timestamp,
            ),
    {
        let ghost before = self.state();
        let steps: usize = self.chain.steps.len();
        proof {
            lemma_chain_inv_kept(self.chain, before, event, cancelled, timestamp);
        }
        let mut records: Vec<ChainRecord> = Vec::new();
        match (self.phase, event) {
            (ChainPhase::Fresh, ChainEvent::Begun) => {
                records.push(ChainRecord::Started { steps });
                self.advance(0, cancelled, &mut records);
            },
            (ChainPhase::Resolving { step }, ChainEvent::Resolved) => {
                self.phase = ChainPhase::Running { step };
            },
            (ChainPhase::Resolving { step }, ChainEvent::Unresolved(e)) => {
                let failure = make_result(
                    self.chain.steps[step].task.id,
                    TaskResultStatus::Failed,
                    None,
                    String::new(),
                    e.clone(),
                    Timing { elapsed_ms: 0, timestamp },
                    Some(e),
                );
                self.keep(failure, step);
                self.turn_back(step, &mut records);
            },
            (ChainPhase::Running { step }, ChainEvent::Finished(r)) => {
                let succeeded = r.status == TaskResultStatus::Success;
                self.keep(r, step);
                if succeeded {
                    self.advance(step + 1, cancelled, &mut records);
                } else {
                    self.turn_back(step, &mut records);
                }
            },
            (ChainPhase::UndoResolving { failed, step }, ChainEvent::Resolved) => {
                self.phase = ChainPhase::Undoing { failed, step };
            },
            (ChainPhase::UndoResolving { failed, step }, ChainEvent::Unresolved(_)) => {
                self.undo_next(failed, step);
            },
            (ChainPhase::Undoing { failed, step }, ChainEvent::Finished(_)) => {
                self.undo_next(failed, step);
            },
            _ => {},
        }
        records
    }

    /// Keeps the result of a step.
    fn keep(&mut self, result: TaskResult, step: usize)
        ensures
            final(self).chain == old(self).chain,
            final(self).state() == (ChainState {
                results: old(self).state().results.push(
                    marked(result.model(), old(self).chain.id, step),
                ),
                ..old(self).state()
            }),
            final(self).results@.len() == old(self).results@.len() + 1,
    {
        let ghost before = self.results@;
        let kept = TaskResult {
            task_id: result.task_id,
            chain_id: Some(self.chain.id),
            step_index: Some(
                #[verifier::truncate]
                (step as u32),
            ),
            status: result.status,
            exit_code: result.exit_code,
            stdout: result.stdout,
            stderr: result.stderr,
            duration_ms: result.duration_ms,
            timestamp: result.timestamp,
            error: result.error,
        };
        self.results.push(kept);
        proof {
            assert(wire::models(self.results@) =~= wire::models(before).push(
                marked(result.model(), self.chain.id, step),
            ));
        }
    }

    /// Goes on to a step, unless the chain is at its end or cancelled.
    fn advance(&mut self, step: usize, cancelled: bool, records: &mut Vec<ChainRecord>)
        ensures
            final(self).chain == old(self).chain,
            ({
                let (n, more) = go_on(
                    old(self).chain,
                    old(self).state().results,
                    step as int,
                    cancelled,
                );
                final(self).state() == n && final(records)@ == old(records)@ + more
            }),
    {
        if step < self.chain.steps.len() && !cancelled {
            self.phase = ChainPhase::Resolving { step };
        } else {
            self.phase = ChainPhase::Over;
            records.push(ChainRecord::Completed { steps_completed: self.results.len() });
        }
    }

    /// Turns to undoing.
    fn turn_back(&mut self, failed: usize, records: &mut Vec<ChainRecord>)
        requires
            failed < old(self).chain.steps@.len(),
        ensures
            final(self).chain == old(self).chain,
            ({
                let (n, more) = turn_back(old(self).chain, old(self).state().results, failed);
                final(self).state() == n && final(records)@ == old(records)@ + more
            }),
    {
        let steps: usize = self.chain.steps.len();
        assert(failed < steps);
        records.push(
            ChainRecord::Rollback { strategy: self.chain.on_failure, failed_step: failed },
        );
        match self.chain.on_failure {
            RollbackStrategy::RollbackFailed => {
                if self.chain.steps[failed].rollback.is_some() {
                    self.phase = ChainPhase::UndoResolving { failed, step: failed };
                } else {
                    self.phase = ChainPhase::Over;
                }
            },
            RollbackStrategy::RollbackAll => {
                let target = self.find_undo(failed + 1);
                self.phase = match target {
                    Some(step) => ChainPhase::UndoResolving { failed, step },
                    None => ChainPhase::Over,
                };
            },
        }
    }

    /// Turns to what is to be undone after `step`.
    fn undo_next(&mut self, failed: usize, step: usize)
        requires
            step < old(self).chain.steps@.len(),
        ensures
            final(self).chain == old(self).chain,
            final(self).state() == (ChainState {
                phase: undo_phase(
                    failed,
                    next_undo(
                        undoable_steps(old(self).chain),
                        old(self).chain.on_failure,
                        step as int,
                    ),
                ),
                ..old(self).state()
            }),
    {
        self.phase = match self.chain.on_failure {
            RollbackStrategy::RollbackFailed => ChainPhase::Over,
            RollbackStrategy::RollbackAll => match self.find_undo(step) {
                Some(next) => ChainPhase::UndoResolving { failed, step: next },
                None => ChainPhase::Over,
            },
        };
    }

    /// The greatest step below `end` that can be undone.
    fn find_undo(&self, end: usize) -> (r: Option<usize>)
        requires
            end <= self.chain.steps@.len(),
        ensures
            r == undo_at_or_below(undoable_steps(self.chain), end - 1),
    {
        let mut n: usize = end;
        while n > 0
            invariant
                n <= end <= self.chain.steps@.len(),
                undo_at_or_below(undoable_steps(self.chain), end - 1) == undo_at_or_below(
                    undoable_steps(self.chain),
                    n - 1,
                ),
            decreases n,
        {
            if self.chain.steps[n - 1].rollback.is_some() {
                return Some(n - 1);
            }
            n = n - 1;
        }
        None
    }
}

/// What a chain wants done in a phase.
pub open spec fn action_in(phase: ChainPhase) -> ChainAction {
    match phase {
        ChainPhase::Fresh => ChainAction::Begin,
        ChainPhase::Resolving { step } => ChainAction::ResolveStep { step },
        ChainPhase::Running { step } => ChainAction::RunStep { step },
        ChainPhase::UndoResolving { failed, step } => ChainAction::ResolveRollback { step },
        ChainPhase::Undoing { failed, step } => ChainAction::RunRollback { step },
        ChainPhase::Over => ChainAction::Finish,
    }
}

/// What is found to undo lies within bounds, can be undone, and nothing between
/// it and the start of the search can.
proof fn lemma_undo_found(undoable: Seq<bool>, from: int)
    requires
        from < undoable.len() <= usize::MAX,
    ensures
        match undo_at_or_below(undoable, from) {
            Some(t) => 0 <= t <= from && undoable[t as int] && forall|k: int|
                t < k <= from ==> !undoable[k],
            None => forall|k: int| 0 <= k <= from ==> !undoable[k],
        },
    decreases from + 1,
{
    if from >= 0 && !undoable[from] {
        lemma_undo_found(undoable, from - 1);
    }
}

/// Every event keeps the invariant.
proof fn lemma_chain_inv_kept(
    chain: TaskChain,
    s: ChainState,
    event: ChainEvent,
    cancelled: bool,
    timestamp: u64,
)
    requires
        chain_inv(chain, s),
        chain.steps@.len() <= usize::MAX,
    ensures
        chain_inv(chain, chain_next(chain, s, event, cancelled, timestamp).0),
{
    let undoable = undoable_steps(chain);
    match s.phase {
        ChainPhase::Resolving { step } | ChainPhase::Running { step } => {
            lemma_undo_found(undoable, step as int);
        },
        ChainPhase::UndoResolving { failed, step } | ChainPhase::Undoing { failed, step } => {
            lemma_undo_found(undoable, step - 1);
        },
        _ => {},
    }
}

/// The audit event of a record.
pub open spec fn record_event(record: ChainRecord) -> Seq<char> {
    match record {
        ChainRecord::Started { .. } => audit::CHAIN_STARTED@,
        ChainRecord::Completed { .. } => audit::CHAIN_COMPLETED@,
        ChainRecord::Rollback { .. } => audit::CHAIN_ROLLBACK@,
    }
}

/// The name of a strategy in the audit trail.
pub open spec fn strategy_name(strategy: RollbackStrategy) -> Seq<char> {
    match strategy {
        RollbackStrategy::RollbackFailed => "RollbackFailed"@,
        RollbackStrategy::RollbackAll => "RollbackAll"@,
    }
}

/// The detail of a record in the audit trail.
pub open spec fn record_detail(record: ChainRecord) -> JsonView {
    let o = Map::<Seq<char>, JsonView>::empty();
    match record {
        ChainRecord::Started { steps } => JsonView::Object(
            o.insert("steps"@, JsonView::Number(NumberView::Int(steps as int))),
        ),
        ChainRecord::Completed { steps_completed } => JsonView::Object(
            o.insert(
                "steps_completed"@,
                JsonView::Number(NumberView::Int(steps_completed as int)),
            ),
        ),
        ChainRecord::Rollback { strategy, failed_step } => JsonView::Object(
            o.insert("strategy"@, JsonView::Text(strategy_name(strategy))).insert(
                "failed_step"@,
                JsonView::Number(NumberView::Int(failed_step as int)),
            ),
        ),
    }
}

impl ChainRecord {
    /// The audit event of this record.
    pub fn event(&self) -> (r: &'static str)
        ensures
            r@ == record_event(*self),
    {
        match self {
            ChainRecord::Started { .. } => audit::CHAIN_STARTED,
            ChainRecord::Completed { .. } => audit::CHAIN_COMPLETED,
            ChainRecord::Rollback { .. } => audit::CHAIN_ROLLBACK,
        }
    }

    /// The detail of this record in the audit trail.
    pub fn detail(&self) -> (r: Json)
        ensures
            r@ == record_detail(*self),
    {
        let mut o = JsonObject::new();
        match self {
            ChainRecord::Started { steps } => {
                o.set("steps", Json::unsigned(*steps as u64));
            },
            ChainRecord::Completed { steps_completed } => {
                o.set("steps_completed", Json::unsigned(*steps_completed as u64));
            },
            ChainRecord::Rollback { strategy, failed_step } => {
                let name = match strategy {
                    RollbackStrategy::RollbackFailed => "RollbackFailed",
                    RollbackStrategy::RollbackAll => "RollbackAll",
                };
                o.set("strategy", Json::text(name));
                o.set("failed_step", Json::unsigned(*failed_step as u64));
            },
        }
        o.finish()
    }
}

/// What a driver reports: an event, whether the chain was cancelled by then, and
/// the time.
pub struct Report {
    pub event: ChainEvent,
    pub cancelled: bool,
    pub timestamp: u64,
}

/// Where a chain stands after a history of reports.
pub open spec fn chain_after(chain: TaskChain, history: Seq<Report>) -> ChainState
    decreases history.len(),
{
    if history.len() == 0 {
        ChainState { phase: ChainPhase::Fresh, results: Seq::empty() }
    } else {
        let r = history.last();
        chain_next(
            chain,
            chain_after(chain, history.drop_last()),
            r.event,
            r.cancelled,
            r.timestamp,
        ).0
    }
}

/// Whatever the world does to a chain, its results are those of its first steps
/// in their order, each marked with the chain and its place, and no step is run
/// after one that did not succeed.
pub proof fn law_steps_run_in_order(chain: TaskChain, history: Seq<Report>)
    requires
        chain.steps@.len() <= usize::MAX,
    ensures
        chain_inv(chain, chain_after(chain, history)),
    decreases history.len(),
{
    if history.len() > 0 {
        law_steps_run_in_order(chain, history.drop_last());
        let r = history.last();
        lemma_chain_inv_kept(
            chain,
            chain_after(chain, history.drop_last()),
            r.event,
            r.cancelled,
            r.timestamp,
        );
    }
}

/// Whether what is reported as finished while a step runs is that step's task.
pub open spec fn reports_own_task(chain: TaskChain, s: ChainState, event: ChainEvent) -> bool {
    match (s.phase, event) {
        (ChainPhase::Running { step }, ChainEvent::Finished(r)) => r.task_id
            == chain.steps@[step as int].task.id,
        _ => true,
    }
}

/// Whether that holds of every report of a history.
pub open spec fn reports_own_tasks(chain: TaskChain, history: Seq<Report>) -> bool
    decreases history.len(),
{
    history.len() > 0 ==> {
        &&& reports_own_tasks(chain, history.drop_last())
        &&& reports_own_task(
            chain,
            chain_after(chain, history.drop_last()),
            history.last().event,
        )
    }
}

/// Where each step that runs is answered with the result of its own task, every
/// result of the chain is that of the task in its place.
pub proof fn law_results_are_of_their_steps(chain: TaskChain, history: Seq<Report>)
    requires
        chain.steps@.len() <= usize::MAX,
        reports_own_tasks(chain, history),
    ensures
        ({
            let results = chain_after(chain, history).results;
            &&& results.len() <= chain.steps@.len()
            &&& forall|i: int|
                0 <= i < results.len() ==> (#[trigger] results[i]).task_id
                    == chain.steps@[i].task.id
        }),
    decreases history.len(),
{
    law_steps_run_in_order(chain, history);
    if history.len() > 0 {
        law_results_are_of_their_steps(chain, history.drop_last());
        law_steps_run_in_order(chain, history.drop_last());
    }
}

/// A chain that is reported as completed has not failed in any step, and unless
/// it was cancelled it has run all of them.
pub proof fn law_completed_chain_succeeded(
    chain: TaskChain,
    s: ChainState,
    event: ChainEvent,
    cancelled: bool,
    timestamp: u64,
)
    requires
        chain_inv(chain, s),
    ensures
        ({
            let (n, records) = chain_next(chain, s, event, cancelled, timestamp);
            forall|k: int|
                0 <= k < records.len() ==> match #[trigger] records[k] {
                    ChainRecord::Completed { steps_completed } => {
                        &&& n.phase == ChainPhase::Over
                        &&& steps_completed == n.results.len() as usize
                        &&& !cancelled ==> n.results.len() == chain.steps@.len()
                        &&& forall|i: int|
                            0 <= i < n.results.len() ==> (#[trigger] n.results[i]).status
                                == TaskResultStatus::Success
                    },
                    _ => true,
                }
        }),
{
}

/// The steps that are undone once step `failed` has failed, in order.
pub open spec fn undo_order(undoable: Seq<bool>, strategy: RollbackStrategy, failed: int) -> Seq<
    usize,
> {
    match strategy {
        RollbackStrategy::RollbackFailed => if undoable[failed] {
            seq![failed as usize]
        } else {
            Seq::empty()
        },
        RollbackStrategy::RollbackAll => undo_from(undoable, failed),
    }
}

/// The steps that are undone from `from` downwards.
pub open spec fn undo_from(undoable: Seq<bool>, from: int) -> Seq<usize>
    decreases from + 1,
{
    if from < 0 {
        Seq::empty()
    } else if undoable[from] {
        seq![from as usize] + undo_from(undoable, from - 1)
    } else {
        undo_from(undoable, from - 1)
    }
}

/// The machine undoes the steps of that order one by one: it begins with the
/// first of them and goes from each to the next.
pub proof fn law_undo_follows_its_order(
    undoable: Seq<bool>,
    strategy: RollbackStrategy,
    failed: int,
)
    requires
        0 <= failed < undoable.len() <= usize::MAX,
    ensures
        ({
            let order = undo_order(undoable, strategy, failed);
            &&& first_undo(undoable, strategy, failed) == (if order.len() > 0 {
                Some(order[0])
            } else {
                None
            })
            &&& forall|k: int|
                0 <= k < order.len() ==> next_undo(
                    undoable,
                    strategy,
                    #[trigger] order[k] as int,
                ) == (if k + 1 < order.len() {
                    Some(order[k + 1])
                } else {
                    None
                })
        }),
{
    if strategy == RollbackStrategy::RollbackAll {
        lemma_undo_from(undoable, failed);
    }
}

proof fn lemma_undo_from(undoable: Seq<bool>, from: int)
    requires
        from < undoable.len() <= usize::MAX,
    ensures
        ({
            let order = undo_from(undoable, from);
            &&& undo_at_or_below(undoable, from) == (if order.len() > 0 {
                Some(order[0])
            } else {
                None
            })
            &&& forall|k: int|
                0 <= k < order.len() ==> undo_at_or_below(
                    undoable,
                    (#[trigger] order[k]) as int - 1,
                ) == (if k + 1 < order.len() {
                    Some(order[k + 1])
                } else {
                    None
                })
            &&& forall|k: int|
                0 <= k < order.len() ==> 0 <= #[trigger] order[k] <= from
                    && undoable[order[k] as int]
            &&& forall|j: int, k: int|
                0 <= j < k < order.len() ==> #[trigger] order[j] > #[trigger] order[k]
            &&& forall|i: int|
                0 <= i <= from && #[trigger] undoable[i] ==> order.contains(i as usize)
        }),
    decreases from + 1,
{
    if from >= 0 {
        lemma_undo_from(undoable, from - 1);
        let rest = undo_from(undoable, from - 1);
        let order = undo_from(undoable, from);
        if undoable[from] {
            assert(order[0] == from);
            assert(forall|k: int| 1 <= k < order.len() ==> order[k] == rest[k - 1]);
            assert forall|i: int| 0 <= i <= from && #[trigger] undoable[i] implies order.contains(
                i as usize,
            ) by {
                if i < from {
                    let k = choose|k: int| 0 <= k < rest.len() && rest[k] == i as usize;
                    assert(order[k + 1] == i as usize);
                }
            }
        }
    }
}

/// `rollback_all` undoes the failed step and every step before it that can be
/// undone, each once and the latest first; `rollback_failed` undoes the failed
/// step alone.
pub proof fn law_undo_is_complete_and_reversed(
    undoable: Seq<bool>,
    strategy: RollbackStrategy,
    failed: int,
)
    requires
        0 <= failed < undoable.len() <= usize::MAX,
    ensures
        ({
            let order = undo_order(undoable, strategy, failed);
            &&& forall|j: int, k: int|
                0 <= j < k < order.len() ==> #[trigger] order[j] > #[trigger] order[k]
            &&& forall|i: int|
                0 <= i < undoable.len() ==> (order.contains(#[trigger] (i as usize)) <==> (
                undoable[i] && i <= failed && (strategy == RollbackStrategy::RollbackFailed ==> i
                    == failed)))
        }),
{
    let order = undo_order(undoable, strategy, failed);
    match strategy {
        RollbackStrategy::RollbackAll => {
            lemma_undo_from(undoable, failed);
            assert forall|i: int| 0 <= i < undoable.len() implies (order.contains(
                #[trigger] (i as usize),
            ) <==> (undoable[i] && i <= failed)) by {
                if order.contains(i as usize) {
                    let k = choose|k: int| 0 <= k < order.len() && order[k] == i as usize;
                    assert(order[k] <= failed);
                }
            }
        },
        RollbackStrategy::RollbackFailed => {
            if undoable[failed] {
                assert(order[0] == failed as usize);
            }
        },
    }
}

/// Whether a chain in this phase waits for this event.
pub open spec fn awaits(phase: ChainPhase, event: ChainEvent) -> bool {
    match (phase, event) {
        (ChainPhase::Fresh, ChainEvent::Begun) => true,
        (ChainPhase::Resolving { .. }, ChainEvent::Resolved) => true,
        (ChainPhase::Resolving { .. }, ChainEvent::Unresolved(_)) => true,
        (ChainPhase::Running { .. }, ChainEvent::Finished(_)) => true,
        (ChainPhase::UndoResolving { .. }, ChainEvent::Resolved) => true,
        (ChainPhase::UndoResolving { .. }, ChainEvent::Unresolved(_)) => true,
        (ChainPhase::Undoing { .. }, ChainEvent::Finished(_)) => true,
        _ => false,
    }
}

/// How many events a chain of so many steps can still wait for.
pub open spec fn events_left(steps: int, phase: ChainPhase) -> int {
    match phase {
        ChainPhase::Fresh => 4 * steps + 2,
        ChainPhase::Resolving { step } => 2 * steps + 2 * (steps - step) + 1,
        ChainPhase::Running { step } => 2 * steps + 2 * (steps - step),
        ChainPhase::UndoResolving { failed, step } => 2 * step + 2,
        ChainPhase::Undoing { failed, step } => 2 * step + 1,
        ChainPhase::Over => 0,
    }
}

/// A chain comes to an end: every event it waits for brings it nearer, and every
/// other leaves it where it is.
pub proof fn law_chain_terminates(
    chain: TaskChain,
    s: ChainState,
    event: ChainEvent,
    cancelled: bool,
    timestamp: u64,
)
    requires
        chain_inv(chain, s),
        chain.steps@.len() <= usize::MAX,
    ensures
        ({
            let n = chain_next(chain, s, event, cancelled, timestamp).0;
            let steps = chain.steps@.len() as int;
            &&& awaits(s.phase, event) ==> 0 <= events_left(steps, n.phase) < events_left(
                steps,
                s.phase,
            )
            &&& !awaits(s.phase, event) ==> n == s
        }),
{
    let undoable = undoable_steps(chain);
    match s.phase {
        ChainPhase::Resolving { step } | ChainPhase::Running { step } => {
            lemma_undo_found(undoable, step as int);
        },
        ChainPhase::UndoResolving { failed, step } | ChainPhase::Undoing { failed, step } => {
            lemma_undo_found(undoable, step - 1);
        },
        _ => {},
    }
}

/// A step that does not succeed is followed by undoing, whatever it came to: a
/// failure, a timeout, a cancellation or credentials that cannot be had, and
/// whether or not the chain has been cancelled. The chain turns to the latest
/// step, the failed one or before it, that has a rollback, or under
/// `rollback_failed` to the failed step alone; it is over at once only where
/// there is none.
pub proof fn law_failed_step_is_undone(
    chain: TaskChain,
    s: ChainState,
    event: ChainEvent,
    cancelled: bool,
    timestamp: u64,
)
    requires
        chain_inv(chain, s),
        chain.steps@.len() <= usize::MAX,
        match (s.phase, event) {
            (ChainPhase::Running { .. }, ChainEvent::Finished(r)) => r.status
                != TaskResultStatus::Success,
            (ChainPhase::Resolving { .. }, ChainEvent::Unresolved(_)) => true,
            _ => false,
        },
    ensures
        ({
            let (n, records) = chain_next(chain, s, event, cancelled, timestamp);
            let failed = s.results.len() as int;
            let all = chain.on_failure == RollbackStrategy::RollbackAll;
            &&& n.results.len() == failed + 1
            &&& n.results.last().status != TaskResultStatus::Success
            &&& records.len() == 1
            &&& records[0] matches ChainRecord::Rollback { strategy, failed_step } && strategy
                == chain.on_failure && failed_step == failed
            &&& match action_in(n.phase) {
                ChainAction::ResolveRollback { step } => {
                    &&& step <= failed
                    &&& chain.steps@[step as int].rollback is Some
                    &&& all ==> forall|j: int|
                        step < j <= failed ==> (#[trigger] chain.steps@[j]).rollback is None
                    &&& !all ==> step == failed
                },
                ChainAction::Finish => {
                    &&& chain.steps@[failed].rollback is None
                    &&& all ==> forall|j: int|
                        0 <= j <= failed ==> (#[trigger] chain.steps@[j]).rollback is None
                },
                _ => false,
            }
        }),
{
    let undoable = undoable_steps(chain);
    let failed = s.results.len() as int;
    lemma_undo_found(undoable, failed);
    assert forall|j: int| 0 <= j <= failed implies undoable[j] == ((
    #[trigger] chain.steps@[j]).rollback is Some) by {}
}

/// Undoing goes on downwards, whether the rollback of a step could be run or not
/// and whatever it came to: to the next earlier step with a rollback, none of
/// them passed over; `rollback_failed` undoes no other step. Nothing of this
/// changes the results or tells the audit trail anything.
pub proof fn law_undoing_goes_on_downwards(
    chain: TaskChain,
    s: ChainState,
    event: ChainEvent,
    cancelled: bool,
    timestamp: u64,
)
    requires
        chain_inv(chain, s),
        chain.steps@.len() <= usize::MAX,
        s.phase is UndoResolving || s.phase is Undoing,
    ensures
        ({
            let (n, records) = chain_next(chain, s, event, cancelled, timestamp);
            let all = chain.on_failure == RollbackStrategy::RollbackAll;
            &&& n.results == s.results
            &&& records.len() == 0
            &&& match (action_in(s.phase), event) {
                (ChainAction::ResolveRollback { step }, ChainEvent::Resolved) => action_in(n.phase)
                    == (ChainAction::RunRollback { step }),
                (ChainAction::ResolveRollback { step }, ChainEvent::Unresolved(_))
                | (ChainAction::RunRollback { step }, ChainEvent::Finished(_)) => match action_in(
                    n.phase,
                ) {
                    ChainAction::ResolveRollback { step: next } => {
                        &&& all
                        &&& next < step
                        &&& chain.steps@[next as int].rollback is Some
                        &&& forall|j: int|
                            next < j < step ==> (#[trigger] chain.steps@[j]).rollback is None
                    },
                    ChainAction::Finish => all ==> forall|j: int|
                        0 <= j < step ==> (#[trigger] chain.steps@[j]).rollback is None,
                    _ => false,
                },
                _ => n == s,
            }
        }),
{
    let undoable = undoable_steps(chain);
    let step = match s.phase {
        ChainPhase::UndoResolving { step, .. } => step as int,
        ChainPhase::Undoing { step, .. } => step as int,
        _ => 0,
    };
    lemma_undo_found(undoable, step - 1);
    assert forall|j: int| 0 <= j < chain.steps@.len() implies undoable[j] == ((
    #[trigger] chain.steps@[j]).rollback is Some) by {}
}

/// A chain goes on to the next step exactly when the last one succeeded, there is
/// another and nobody has cancelled the chain; where it stops without a failure
/// it says how many steps it completed.
pub proof fn law_chain_goes_on_after_success(
    chain: TaskChain,
    s: ChainState,
    event: ChainEvent,
    cancelled: bool,
    timestamp: u64,
)
    requires
        chain_inv(chain, s),
        chain.steps@.len() <= usize::MAX,
        match (s.phase, event) {
            (ChainPhase::Running { .. }, ChainEvent::Finished(r)) => r.status
                == TaskResultStatus::Success,
            (ChainPhase::Fresh, ChainEvent::Begun) => true,
            _ => false,
        },
    ensures
        ({
            let (n, records) = chain_next(chain, s, event, cancelled, timestamp);
            let begins = event is Begun;
            let done = s.results.len() + if begins {
                0int
            } else {
                1
            };
            let more = done < chain.steps@.len() && !cancelled;
            &&& n.results.len() == done
            &&& more ==> action_in(n.phase) == (ChainAction::ResolveStep { step: done as usize })
            &&& !more ==> action_in(n.phase) == ChainAction::Finish
            &&& records.len() == (if begins {
                1int
            } else {
                0
            }) + (if more {
                0int
            } else {
                1
            })
            &&& begins ==> records[0] == (ChainRecord::Started {
                steps: chain.steps@.len() as usize,
            })
            &&& !more ==> records.last() == (ChainRecord::Completed {
                steps_completed: done as usize,
            })
        }),
{
}

/// A step's task is run once its credentials are there, and before that only they
/// are asked for.
pub proof fn law_step_runs_with_its_credentials(
    chain: TaskChain,
    s: ChainState,
    event: ChainEvent,
    cancelled: bool,
    timestamp: u64,
)
    ensures
        ({
            let (n, records) = chain_next(chain, s, event, cancelled, timestamp);
            &&& forall|step: usize| #[trigger]
                is_action(n.phase, ChainAction::RunStep { step }) && n.phase != s.phase
                    ==> action_in(s.phase) == (ChainAction::ResolveStep { step })
                    && event is Resolved
            &&& (s.phase is Resolving && event is Resolved) ==> action_in(n.phase) is RunStep
                && n.results == s.results && records.len() == 0
            &&& s.phase == ChainPhase::Over ==> n == s && records.len() == 0
        }),
{
}

/// Whether this is what a chain wants done in a phase.
pub open spec fn is_action(phase: ChainPhase, action: ChainAction) -> bool {
    action_in(phase) == action
}

/// The result of a step is reported as it came: all of it but the chain and the
/// place, which are filled in. A step whose credentials could not be had is
/// reported as failed for that reason. Other events report nothing, and no result
/// is ever changed.
pub proof fn law_results_are_reported_as_they_came(
    chain: TaskChain,
    s: ChainState,
    event: ChainEvent,
    cancelled: bool,
    timestamp: u64,
)
    requires
        chain_inv(chain, s),
    ensures
        ({
            let n = chain_next(chain, s, event, cancelled, timestamp).0;
            let at = s.results.len() as int;
            match (s.phase, event) {
                (ChainPhase::Running { .. }, ChainEvent::Finished(r)) => {
                    &&& n.results.len() == at + 1
                    &&& n.results.take(at) == s.results
                    &&& n.results[at].task_id == r.task_id
                    &&& n.results[at].chain_id == Some(chain.id)
                    &&& n.results[at].step_index == Some(at as u32)
                    &&& n.results[at].status == r.status
                    &&& n.results[at].exit_code == r.exit_code
                    &&& n.results[at].stdout == r.stdout@
                    &&& n.results[at].stderr == r.stderr@
                    &&& n.results[at].duration_ms == r.duration_ms
                    &&& n.results[at].timestamp == r.timestamp
                    &&& n.results[at].error == (match r.error {
                        Some(e) => Some(e@),
                        None => None,
                    })
                },
                (ChainPhase::Resolving { .. }, ChainEvent::Unresolved(e)) => {
                    &&& n.results.len() == at + 1
                    &&& n.results.take(at) == s.results
                    &&& n.results[at].task_id == chain.steps@[at].task.id
                    &&& n.results[at].chain_id == Some(chain.id)
                    &&& n.results[at].step_index == Some(at as u32)
                    &&& n.results[at].status == TaskResultStatus::Failed
                    &&& n.results[at].exit_code is None
                    &&& n.results[at].stdout.len() == 0
                    &&& n.results[at].stderr == e@
                    &&& n.results[at].duration_ms == 0
                    &&& n.results[at].timestamp == timestamp
                    &&& n.results[at].error == Some(e@)
                },
                _ => n.results == s.results,
            }
        }),
{
    let n = chain_next(chain, s, event, cancelled, timestamp).0;
    let at = s.results.len() as int;
    if n.results.len() == at + 1 {
        assert(n.results.take(at) =~= s.results);
    }
}

/// The steps whose rollback was dealt with in a history, in order: it was run, or
/// its credentials could not be had.
pub open spec fn undone(chain: TaskChain, history: Seq<Report>) -> Seq<usize>
    decreases history.len(),
{
    if history.len() == 0 {
        Seq::empty()
    } else {
        let before = undone(chain, history.drop_last());
        match (
            action_in(chain_after(chain, history.drop_last()).phase),
            history.last().event,
        ) {
            (ChainAction::RunRollback { step }, ChainEvent::Finished(_)) => before.push(step),
            (ChainAction::ResolveRollback { step }, ChainEvent::Unresolved(_)) => before.push(step),
            _ => before,
        }
    }
}

/// Whether a chain has a step that did not succeed.
pub open spec fn has_failed(s: ChainState) -> bool {
    s.results.len() > 0 && s.results.last().status != TaskResultStatus::Success
}

/// What has been undone is how the order of undoing begins; what comes next in it
/// is what the chain turns to; and the chain is over when nothing is left of it.
proof fn lemma_undone_so_far(chain: TaskChain, history: Seq<Report>)
    requires
        chain.steps@.len() <= usize::MAX,
    ensures
        ({
            let s = chain_after(chain, history);
            let gone = undone(chain, history);
            let order = undo_order(
                undoable_steps(chain),
                chain.on_failure,
                s.results.len() as int - 1,
            );
            &&& chain_inv(chain, s)
            &&& !has_failed(s) ==> gone.len() == 0
            &&& has_failed(s) ==> {
                &&& gone.len() <= order.len()
                &&& gone == order.take(gone.len() as int)
                &&& gone.len() == order.len() <==> s.phase == ChainPhase::Over
                &&& match s.phase {
                    ChainPhase::UndoResolving { step, .. } | ChainPhase::Undoing { step, .. } =>
                        gone.len() < order.len() && order[gone.len() as int] == step,
                    ChainPhase::Over => true,
                    _ => false,
                }
            }
        }),
    decreases history.len(),
{
    law_steps_run_in_order(chain, history);
    if history.len() > 0 {
        let earlier = history.drop_last();
        lemma_undone_so_far(chain, earlier);
        let p = chain_after(chain, earlier);
        let s = chain_after(chain, history);
        let undoable = undoable_steps(chain);
        let order = undo_order(undoable, chain.on_failure, s.results.len() as int - 1);
        if has_failed(s) {
            law_undo_follows_its_order(undoable, chain.on_failure, s.results.len() as int - 1);
            let gone = undone(chain, history);
            if has_failed(p) {
                assert(s.results == p.results);
                let before = undone(chain, earlier);
                if gone.len() > before.len() {
                    assert(order[before.len() as int] == gone.last());
                    assert(gone =~= order.take(gone.len() as int));
                }
            } else {
                assert(gone =~= order.take(0));
            }
        }
    }
}

/// Whatever happens to a chain, once it is over after a step that did not
/// succeed, it has undone what its strategy asks for: the failed step and every
/// step before it that has a rollback, or the failed step alone, each once and
/// the latest first. A chain without a failed step has undone nothing.
pub proof fn law_over_means_undone(chain: TaskChain, history: Seq<Report>)
    requires
        chain.steps@.len() <= usize::MAX,
    ensures
        ({
            let s = chain_after(chain, history);
            let gone = undone(chain, history);
            let failed = s.results.len() as int - 1;
            &&& !has_failed(s) ==> gone.len() == 0
            &&& forall|j: int, k: int|
                0 <= j < k < gone.len() ==> #[trigger] gone[j] > #[trigger] gone[k]
            &&& has_failed(s) && s.phase == ChainPhase::Over ==> forall|i: int|
                0 <= i < chain.steps@.len() ==> (gone.contains(i as usize) <==> i <= failed && (
                #[trigger] chain.steps@[i]).rollback is Some && (chain.on_failure
                    == RollbackStrategy::RollbackFailed ==> i == failed))
        }),
{
    lemma_undone_so_far(chain, history);
    let s = chain_after(chain, history);
    let gone = undone(chain, history);
    let failed = s.results.len() as int - 1;
    let undoable = undoable_steps(chain);
    if has_failed(s) {
        let order = undo_order(undoable, chain.on_failure, failed);
        law_undo_is_complete_and_reversed(undoable, chain.on_failure, failed);
        assert forall|j: int, k: int| 0 <= j < k < gone.len() implies #[trigger] gone[j]
            > #[trigger] gone[k] by {
            assert(gone[j] == order[j]);
            assert(gone[k] == order[k]);
        }
        if s.phase == ChainPhase::Over {
            assert(gone =~= order);
            assert forall|i: int| 0 <= i < chain.steps@.len() implies (gone.contains(i as usize)
                <==> i <= failed && (#[trigger] chain.steps@[i]).rollback is Some && (
            chain.on_failure == RollbackStrategy::RollbackFailed ==> i == failed)) by {
                assert(undoable[i] == (chain.steps@[i].rollback is Some));
                assert(order.contains(i as usize) <==> (undoable[i] && i <= failed && (
                chain.on_failure == RollbackStrategy::RollbackFailed ==> i == failed)));
            }
        }
    }
}

/// A chain that is over and was never cancelled has either run all of its steps
/// with success or stopped at the first that did not succeed.
pub proof fn law_uncancelled_chain_runs_to_its_end(chain: TaskChain, history: Seq<Report>)
    requires
        chain.steps@.len() <= usize::MAX,
        forall|i: int| 0 <= i < history.len() ==> !(#[trigger] history[i]).cancelled,
    ensures
        ({
            let s = chain_after(chain, history);
            s.phase == ChainPhase::Over ==> has_failed(s) || s.results.len()
                == chain.steps@.len()
        }),
    decreases history.len(),
{
    if history.len() > 0 {
        let earlier = history.drop_last();
        assert forall|i: int| 0 <= i < earlier.len() implies !(#[trigger] earlier[i]).cancelled by {
            assert(earlier[i] == history[i]);
        }
        law_uncancelled_chain_runs_to_its_end(chain, earlier);
        law_steps_run_in_order(chain, earlier);
        assert(!history[history.len() - 1].cancelled);
    }
}

} // verus!
