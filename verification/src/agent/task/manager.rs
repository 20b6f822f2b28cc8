//! The task manager's books: which tasks are under way, what becomes of a task
//! that comes in, and what is done when one ends.

use crate::agent::audit;
use crate::agent::state::{TaskResultRow, TaskResultRowModel};
use crate::agent::task::permits::{self, PermitEvent, Permits, PermitsModel};
use crate::ids::{self, Uuid};
use crate::json::{Json, JsonObject, JsonView, NumberView};
use crate::protocol::heartbeat::ActiveTaskCounts;
use crate::protocol::task::{
    ExecKind, Task, TaskChain, TaskResult, TaskResultModel, TaskResultStatus,
};
use crate::wire::{self, Wire};
use vstd::prelude::*;
use vstd::string::*;

verus! {

/// A task that is under way, with what it takes to cancel it.
#[derive(Debug)]
pub struct ActiveTask<T> {
    pub id: Uuid,
    pub kind: ExecKind,
    pub token: T,
}

/// The tasks that are under way, each once.
#[derive(Debug)]
pub struct ActiveTasks<T> {
    tasks: Vec<ActiveTask<T>>,
}

/// How many of the listed tasks are of a kind.
pub open spec fn count_kind<T>(tasks: Seq<ActiveTask<T>>, kind: ExecKind) -> nat
    decreases tasks.len(),
{
    if tasks.len() == 0 {
        0
    } else {
        count_kind(tasks.drop_last(), kind) + if tasks.last().kind == kind {
            1nat
        } else {
            0
        }
    }
}

/// No task is listed twice.
pub open spec fn listed_once<T>(tasks: Seq<ActiveTask<T>>) -> bool {
    forall|i: int, j: int|
        0 <= i < j < tasks.len() ==> (#[trigger] tasks[i]).id != (#[trigger] tasks[j]).id
}

impl<T> ActiveTasks<T> {
    /// The tasks, in the order in which they came.
    pub closed spec fn listed(&self) -> Seq<ActiveTask<T>> {
        self.tasks@
    }

    /// No task is there twice.
    pub open spec fn wf(&self) -> bool {
        listed_once(self.listed())
    }

    /// No tasks.
    pub fn new() -> (r: ActiveTasks<T>)
        ensures
            r.wf(),
            r.listed() == Seq::<ActiveTask<T>>::empty(),
    {
        ActiveTasks { tasks: Vec::new() }
    }

    /// Where a task is listed.
    fn find(&self, id: Uuid) -> (r: Option<usize>)
        ensures
            match r {
                Some(i) => i < self.tasks@.len() && self.tasks@[i as int].id == id,
                None => forall|i: int| 0 <= i < self.tasks@.len() ==> (#[trigger] self.tasks@[i]).id
                    != id,
            },
    {
        for i in 0..self.tasks.len()
            invariant
                forall|k: int| 0 <= k < i ==> (#[trigger] self.tasks@[k]).id != id,
        {
            if self.tasks[i].id == id {
                return Some(i);
            }
        }
        None
    }

    /// Lists a task. One of the same identifier is replaced.
    pub fn register(&mut self, id: Uuid, kind: ExecKind, token: T)
        requires
            old(self).wf(),
        ensures
            final(self).wf(),
            final(self).listed() == without(old(self).listed(), id).push(
                ActiveTask { id, kind, token },
            ),
    {
        self.deregister(id);
        self.tasks.push(ActiveTask { id, kind, token });
    }

    /// Takes a task off the list.
    pub fn deregister(&mut self, id: Uuid)
        requires
            old(self).wf(),
        ensures
            final(self).wf(),
            final(self).listed() == without(old(self).listed(), id),
            forall|i: int|
                0 <= i < final(self).listed().len() ==> (#[trigger] final(self).listed()[i]).id
                    != id,
    {
        proof {
            lemma_without(self.tasks@, id);
        }
        match self.find(id) {
            Some(i) => {
                let ghost before = self.tasks@;
                self.tasks.remove(i);
                proof {
                    assert(self.tasks@ =~= before.remove(i as int));
                    lemma_without_one(before, i as int);
                }
            },
            None => {
                proof {
                    lemma_without_none(self.tasks@, id);
                }
            },
        }
    }

    /// What it takes to cancel a task, where it is under way.
    pub fn token(&self, id: Uuid) -> (r: Option<&T>)
        requires
            self.wf(),
        ensures
            match r {
                Some(t) => exists|i: int|
                    0 <= i < self.listed().len() && (#[trigger] self.listed()[i]).id == id
                        && self.listed()[i].token == *t,
                None => forall|i: int|
                    0 <= i < self.listed().len() ==> (#[trigger] self.listed()[i]).id != id,
            },
    {
        match self.find(id) {
            Some(i) => Some(&self.tasks[i].token),
            None => None,
        }
    }

    /// How many tasks are under way.
    pub fn len(&self) -> (r: usize)
        ensures
            r == self.listed().len(),
    {
        self.tasks.len()
    }

    /// The counts that the heartbeat carries, in 32 bits each.
    pub fn counts(&self) -> (r: ActiveTaskCounts)
        ensures
            r.oneshot == count_kind(self.listed(), ExecKind::Oneshot) as u32,
            r.continuous == count_kind(self.listed(), ExecKind::Continuous) as u32,
            r.total == r.oneshot.wrapping_add(r.continuous),
    {
        let mut oneshot: usize = 0;
        let mut continuous: usize = 0;
        for i in 0..self.tasks.len()
            invariant
                oneshot == count_kind(self.tasks@.take(i as int), ExecKind::Oneshot),
                continuous == count_kind(self.tasks@.take(i as int), ExecKind::Continuous),
                oneshot + continuous == i,
        {
            proof {
                assert(self.tasks@.take(i + 1).drop_last() =~= self.tasks@.take(i as int));
            }
            match self.tasks[i].kind {
                ExecKind::Oneshot => {
                    oneshot = oneshot + 1;
                },
                ExecKind::Continuous => {
                    continuous = continuous + 1;
                },
            }
        }
        assert(self.tasks@.take(self.tasks@.len() as int) =~= self.tasks@);
        let oneshot: u32 = #[verifier::truncate]
        (oneshot as u32);
        let continuous: u32 = #[verifier::truncate]
        (continuous as u32);
        ActiveTaskCounts { oneshot, continuous, total: oneshot.wrapping_add(continuous) }
    }
}

/// The list without a task.
pub open spec fn without<T>(tasks: Seq<ActiveTask<T>>, id: Uuid) -> Seq<ActiveTask<T>>
    decreases tasks.len(),
{
    if tasks.len() == 0 {
        Seq::empty()
    } else {
        let front = without(tasks.drop_last(), id);
        if tasks.last().id == id {
            front
        } else {
            front.push(tasks.last())
        }
    }
}

/// Taking a task off keeps the others, each once, and in their order.
proof fn lemma_without<T>(tasks: Seq<ActiveTask<T>>, id: Uuid)
    ensures
        forall|i: int|
            0 <= i < without(tasks, id).len() ==> (#[trigger] without(tasks, id)[i]).id != id
                && tasks.contains(without(tasks, id)[i]),
        listed_once(tasks) ==> listed_once(without(tasks, id)),
    decreases tasks.len(),
{
    if tasks.len() > 0 {
        let front = tasks.drop_last();
        lemma_without(front, id);
        assert forall|i: int| 0 <= i < without(tasks, id).len() implies (#[trigger] without(
            tasks,
            id,
        )[i]).id != id && tasks.contains(without(tasks, id)[i]) by {
            if i < without(front, id).len() {
                let k = choose|k: int| 0 <= k < front.len() && front[k] == without(front, id)[i];
                assert(tasks[k] == without(front, id)[i]);
            } else {
                assert(tasks[tasks.len() - 1] == without(tasks, id)[i]);
            }
        }
        if listed_once(tasks) {
            assert(listed_once(front)) by {
                assert forall|i: int, j: int| 0 <= i < j < front.len() implies (
                #[trigger] front[i]).id != (#[trigger] front[j]).id by {
                    assert(tasks[i] == front[i] && tasks[j] == front[j]);
                }
            }
            let w = without(tasks, id);
            assert forall|i: int, j: int| 0 <= i < j < w.len() implies (#[trigger] w[i]).id != (
            #[trigger] w[j]).id by {
                let f = without(front, id);
                if j < f.len() {
                    assert(f[i].id != f[j].id);
                } else {
                    let k = choose|k: int| 0 <= k < front.len() && front[k] == f[i];
                    assert(tasks[k].id != tasks[tasks.len() - 1].id);
                }
            }
        }
    }
}

/// Without a task that is not there, the list is what it was.
proof fn lemma_without_none<T>(tasks: Seq<ActiveTask<T>>, id: Uuid)
    requires
        forall|i: int| 0 <= i < tasks.len() ==> (#[trigger] tasks[i]).id != id,
    ensures
        without(tasks, id) == tasks,
    decreases tasks.len(),
{
    if tasks.len() > 0 {
        let front = tasks.drop_last();
        assert forall|i: int| 0 <= i < front.len() implies (#[trigger] front[i]).id != id by {
            assert(tasks[i].id != id);
        }
        lemma_without_none(front, id);
        assert(tasks[tasks.len() - 1].id != id);
        assert(front.push(tasks.last()) =~= tasks);
    } else {
        assert(without(tasks, id) =~= tasks);
    }
}

/// Without a task that is there once, the list lacks just that place.
proof fn lemma_without_one<T>(tasks: Seq<ActiveTask<T>>, at: int)
    requires
        0 <= at < tasks.len(),
        listed_once(tasks),
    ensures
        without(tasks, tasks[at].id) == tasks.remove(at),
    decreases tasks.len(),
{
    let id = tasks[at].id;
    let front = tasks.drop_last();
    assert(listed_once(front)) by {
        assert forall|i: int, j: int| 0 <= i < j < front.len() implies (#[trigger] front[i]).id != (
        #[trigger] front[j]).id by {
            assert(tasks[i] == front[i] && tasks[j] == front[j]);
        }
    }
    if at == tasks.len() - 1 {
        assert forall|i: int| 0 <= i < front.len() implies (#[trigger] front[i]).id != id by {
            assert(tasks[i].id != tasks[at].id);
        }
        lemma_without_none(front, id);
        assert(tasks.remove(at) =~= front);
    } else {
        assert(front[at] == tasks[at]);
        lemma_without_one(front, at);
        assert(tasks[at].id != tasks[tasks.len() - 1].id);
        assert(front.remove(at).push(tasks.last()) =~= tasks.remove(at));
    }
}

/// Taking off what has just been listed leaves the others as they were.
pub proof fn law_deregister_undoes_register<T>(tasks: Seq<ActiveTask<T>>, task: ActiveTask<T>)
    requires
        listed_once(tasks),
    ensures
        without(without(tasks, task.id).push(task), task.id) == without(tasks, task.id),
{
    let w = without(tasks, task.id);
    lemma_without(tasks, task.id);
    assert(w.push(task).drop_last() =~= w);
    lemma_without_none(w, task.id);
}

/// One-shot and continuous tasks together are all the tasks there are.
pub proof fn law_counts_add_up<T>(tasks: Seq<ActiveTask<T>>)
    ensures
        count_kind(tasks, ExecKind::Oneshot) + count_kind(tasks, ExecKind::Continuous)
            == tasks.len(),
    decreases tasks.len(),
{
    if tasks.len() > 0 {
        law_counts_add_up(tasks.drop_last());
    }
}

/// What becomes of a task that comes in.
#[derive(Debug, Clone, Copy, PartialEq, Eq, Structural)]
pub enum Dispatch {
    /// Another task is to be cancelled.
    Cancel { target: Uuid },
    /// It is run under a permit, and counted as the given kind.
    Execute { kind: ExecKind },
    /// It is routed to unit management or self-upgrade, and counted as one-shot.
    Route,
}

/// What becomes of a task that comes in.
pub fn dispatch(task: &Task) -> (r: Dispatch)
    ensures
        match task {
            Task::Cancel(t) => r == (Dispatch::Cancel { target: t.target_task_id }),
            Task::Exec(t) => r == (Dispatch::Execute { kind: t.kind }),
            _ => r == Dispatch::Route,
        },
{
    match task {
        Task::Cancel(t) => Dispatch::Cancel { target: t.target_task_id },
        Task::Exec(t) => Dispatch::Execute { kind: t.kind },
        _ => Dispatch::Route,
    }
}

/// What the audit trail is told of a task that comes in, by a description of the
/// task.
pub fn received_detail(description: &str) -> (r: Json)
    ensures
        r@ == JsonView::Object(
            Map::<Seq<char>, JsonView>::empty().insert("type"@, JsonView::Text(description@)),
        ),
{
    let mut o = JsonObject::new();
    o.set("type", Json::text(description));
    o.finish()
}

/// What the audit trail is told of a chain that comes in.
pub fn chain_received_detail(chain: &TaskChain) -> (r: Json)
    ensures
        r@ == JsonView::Object(
            Map::<Seq<char>, JsonView>::empty().insert("type"@, JsonView::Text("chain"@)).insert(
                "steps"@,
                JsonView::Number(NumberView::Int(chain.steps@.len() as int)),
            ),
        ),
{
    let mut o = JsonObject::new();
    o.set("type", Json::text("chain"));
    o.set("steps", Json::unsigned(chain.steps.len() as u64));
    o.finish()
}

/// The audit event for how a task ended.
pub open spec fn end_event(status: TaskResultStatus) -> Seq<char> {
    match status {
        TaskResultStatus::Success => audit::TASK_COMPLETED@,
        TaskResultStatus::Failed => audit::TASK_FAILED@,
        TaskResultStatus::Cancelled => audit::TASK_CANCELLED@,
        TaskResultStatus::Timeout => audit::TASK_TIMEOUT@,
        TaskResultStatus::RolledBack => audit::TASK_FAILED@,
    }
}

/// The audit event for how a task ended.
pub fn event_for(status: TaskResultStatus) -> (r: &'static str)
    ensures
        r@ == end_event(status),
{
    match status {
        TaskResultStatus::Success => audit::TASK_COMPLETED,
        TaskResultStatus::Failed => audit::TASK_FAILED,
        TaskResultStatus::Cancelled => audit::TASK_CANCELLED,
        TaskResultStatus::Timeout => audit::TASK_TIMEOUT,
        TaskResultStatus::RolledBack => audit::TASK_FAILED,
    }
}

/// The name of a status in the journal.
pub open spec fn status_name(status: TaskResultStatus) -> Seq<char> {
    match status {
        TaskResultStatus::Success => "Success"@,
        TaskResultStatus::Failed => "Failed"@,
        TaskResultStatus::Cancelled => "Cancelled"@,
        TaskResultStatus::Timeout => "Timeout"@,
        TaskResultStatus::RolledBack => "RolledBack"@,
    }
}

/// The journal's row for a result. Numbers that the journal keeps in a narrower
/// or signed type lose what does not fit.
pub open spec fn row_of(m: TaskResultModel) -> TaskResultRowModel {
    TaskResultRowModel {
        task_id: ids::uuid_text(m.task_id.bits),
        chain_id: match m.chain_id {
            Some(id) => Some(ids::uuid_text(id.bits)),
            None => None,
        },
        step_index: match m.step_index {
            Some(k) => Some(k as i32),
            None => None,
        },
        status: status_name(m.status),
        exit_code: m.exit_code,
        stdout: m.stdout,
        stderr: m.stderr,
        duration_ms: m.duration_ms as i64,
        created_at: m.timestamp as i64,
    }
}

/// The journal's row for a result.
pub fn result_to_journal_row(result: &TaskResult) -> (r: TaskResultRow)
    ensures
        r@ == row_of(result.model()),
{
    let status = match result.status {
        TaskResultStatus::Success => "Success",
        TaskResultStatus::Failed => "Failed",
        TaskResultStatus::Cancelled => "Cancelled",
        TaskResultStatus::Timeout => "Timeout",
        TaskResultStatus::RolledBack => "RolledBack",
    };
    TaskResultRow {
        task_id: result.task_id.to_text(),
        chain_id: match result.chain_id {
            Some(id) => Some(id.to_text()),
            None => None,
        },
        step_index: match result.step_index {
            Some(i) => Some(
                #[verifier::truncate]
                (i as i32),
            ),
            None => None,
        },
        status: status.to_owned(),
        exit_code: result.exit_code,
        stdout: result.stdout.clone(),
        stderr: result.stderr.clone(),
        duration_ms: #[verifier::truncate]
        (result.duration_ms as i64),
        created_at: #[verifier::truncate]
        (result.timestamp as i64),
    }
}

/// An event for the audit trail.
#[derive(Debug)]
pub struct AuditNote {
    pub event: &'static str,
    pub task_id: String,
    pub detail: Json,
}

/// What a value of [`AuditNote`] is.
#[verifier::ext_equal]
pub struct NoteModel {
    pub event: Seq<char>,
    pub task_id: Seq<char>,
    pub detail: JsonView,
}

impl View for AuditNote {
    type V = NoteModel;

    open spec fn view(&self) -> NoteModel {
        NoteModel { event: self.event@, task_id: self.task_id@, detail: self.detail@ }
    }
}

/// What the audit trail is told when work begins.
pub fn started_note(id: Uuid) -> (r: AuditNote)
    ensures
        r@ == (NoteModel {
            event: audit::TASK_STARTED@,
            task_id: ids::uuid_text(id.bits),
            detail: JsonView::Object(Map::<Seq<char>, JsonView>::empty()),
        }),
{
    AuditNote {
        event: audit::TASK_STARTED,
        task_id: id.to_text(),
        detail: JsonObject::new().finish(),
    }
}

/// The event and the unit of a routed task that was done.
pub open spec fn unit_event(task: Task) -> Option<(Seq<char>, Seq<char>)> {
    match task {
        Task::Install(t) => Some((audit::UNIT_INSTALLED@, t.unit.name@)),
        Task::Upgrade(t) => Some((audit::UNIT_UPGRADED@, t.unit_name@)),
        Task::Remove(t) => Some((audit::UNIT_REMOVED@, t.unit_name@)),
        Task::SelfUpgrade(t) => Some((audit::SELF_UPGRADE_STARTED@, "vasal"@)),
        _ => None,
    }
}

/// What the audit trail is told of a routed task that was done.
pub fn unit_note(task: &Task) -> (r: Option<AuditNote>)
    ensures
        match unit_event(*task) {
            Some((event, unit)) => r is Some && r->0@ == (NoteModel {
                event,
                task_id: ids::uuid_text(task.spec_id().bits),
                detail: JsonView::Object(
                    Map::<Seq<char>, JsonView>::empty().insert("unit"@, JsonView::Text(unit)),
                ),
            }),
            None => r is None,
        },
{
    let (event, unit): (&'static str, &str) = match task {
        Task::Install(t) => (audit::UNIT_INSTALLED, t.unit.name.as_str()),
        Task::Upgrade(t) => (audit::UNIT_UPGRADED, t.unit_name.as_str()),
        Task::Remove(t) => (audit::UNIT_REMOVED, t.unit_name.as_str()),
        Task::SelfUpgrade(_) => (audit::SELF_UPGRADE_STARTED, "vasal"),
        _ => return None,
    };
    let mut o = JsonObject::new();
    o.set("unit", Json::text(unit));
    Some(AuditNote { event, task_id: task.id().to_text(), detail: o.finish() })
}

/// The forms of work that are spawned.
#[derive(Debug, Clone, Copy, PartialEq, Eq, Structural)]
pub enum WorkForm {
    /// An exec task.
    Exec,
    /// A task of unit management or self-upgrade.
    Routed,
    /// A chain.
    Chain,
}

impl WorkForm {
    /// Whether the work waits for a permit: one for an exec task, one for all of
    /// a chain.
    pub fn needs_permit(&self) -> (r: bool)
        ensures
            r == (*self != WorkForm::Routed),
    {
        match self {
            WorkForm::Routed => false,
            _ => true,
        }
    }
}

/// What is done about the result of work.
#[derive(Debug)]
pub enum EndEffect {
    /// A result goes into the journal.
    Journal(TaskResultRow),
    /// The end of a task goes into the audit trail.
    Audit(AuditNote),
    /// A result goes to the control plane.
    Forward(TaskResult),
    /// The work is taken off the list and the counts are published.
    Deregister { id: Uuid },
}

/// What a value of [`EndEffect`] is.
#[verifier::ext_equal]
pub enum EndEffectModel {
    Journal(TaskResultRowModel),
    Audit(NoteModel),
    Forward(TaskResultModel),
    Deregister { id: Uuid },
}

impl View for EndEffect {
    type V = EndEffectModel;

    open spec fn view(&self) -> EndEffectModel {
        match self {
            EndEffect::Journal(row) => EndEffectModel::Journal(row@),
            EndEffect::Audit(note) => EndEffectModel::Audit(note@),
            EndEffect::Forward(r) => EndEffectModel::Forward(r.model()),
            EndEffect::Deregister { id } => EndEffectModel::Deregister { id: *id },
        }
    }
}

/// What a list of effects is.
pub open spec fn effects_view(s: Seq<EndEffect>) -> Seq<EndEffectModel> {
    Seq::new(s.len(), |i: int| s[i]@)
}

/// What the audit trail is told of the end of a task.
pub open spec fn end_note(id: Uuid, m: TaskResultModel) -> NoteModel {
    NoteModel {
        event: end_event(m.status),
        task_id: ids::uuid_text(id.bits),
        detail: TaskResult::tree(m),
    }
}

/// What is done about one result: it is journalled; unless it is a step of a
/// chain, its end is audited; and it is forwarded where there is a way to the
/// control plane.
pub open spec fn result_effects(
    form: WorkForm,
    id: Uuid,
    forward: bool,
    m: TaskResultModel,
) -> Seq<EndEffectModel> {
    let kept = seq![EndEffectModel::Journal(row_of(m))];
    let told = if form == WorkForm::Chain {
        kept
    } else {
        kept.push(EndEffectModel::Audit(end_note(id, m)))
    };
    if forward {
        told.push(EndEffectModel::Forward(m))
    } else {
        told
    }
}

/// What is done about results, one after the other.
pub open spec fn results_effects(
    form: WorkForm,
    id: Uuid,
    forward: bool,
    results: Seq<TaskResultModel>,
) -> Seq<EndEffectModel>
    decreases results.len(),
{
    if results.len() == 0 {
        Seq::empty()
    } else {
        results_effects(form, id, forward, results.drop_last()) + result_effects(
            form,
            id,
            forward,
            results.last(),
        )
    }
}

/// What is done when work ends: each result is seen to, then the work is taken
/// off the list.
pub open spec fn end_effects_of(
    form: WorkForm,
    id: Uuid,
    forward: bool,
    results: Seq<TaskResultModel>,
) -> Seq<EndEffectModel> {
    results_effects(form, id, forward, results).push(EndEffectModel::Deregister { id })
}

/// What is done when work ends, in order.
pub fn end_effects(form: WorkForm, id: Uuid, forward: bool, results: &Vec<TaskResult>) -> (r: Vec<
    EndEffect,
>)
    ensures
        effects_view(r@) == end_effects_of(form, id, forward, wire::models(results@)),
{
    let ghost all = wire::models(results@);
    let mut out: Vec<EndEffect> = Vec::new();
    proof {
        assert(effects_view(out@) =~= Seq::empty());
    }
    for i in 0..results.len()
        invariant
            all == wire::models(results@),
            effects_view(out@) == results_effects(form, id, forward, all.take(i as int)),
    {
        let ghost before = out@;
        let ghost m = results@[i as int].model();
        proof {
            assert(all.take(i + 1).drop_last() =~= all.take(i as int));
            assert(all.take(i + 1).last() == m);
        }
        out.push(EndEffect::Journal(result_to_journal_row(&results[i])));
        if form != WorkForm::Chain {
            out.push(
                EndEffect::Audit(
                    AuditNote {
                        event: event_for(results[i].status),
                        task_id: id.to_text(),
                        detail: results[i].to_json(),
                    },
                ),
            );
        }
        if forward {
            out.push(EndEffect::Forward(results[i].duplicate()));
        }
        proof {
            assert(effects_view(out@) =~= effects_view(before) + result_effects(
                form,
                id,
                forward,
                m,
            ));
        }
    }
    let ghost before = out@;
    out.push(EndEffect::Deregister { id });
    proof {
        assert(all.take(all.len() as int) =~= all);
        assert(effects_view(out@) =~= effects_view(before).push(EndEffectModel::Deregister { id }));
    }
    out
}

/// A result is in the journal before it is sent, so nothing is lost on the way.
pub proof fn law_journal_comes_before_forwarding(
    form: WorkForm,
    id: Uuid,
    results: Seq<TaskResultModel>,
    i: int,
)
    requires
        0 <= i < end_effects_of(form, id, true, results).len(),
    ensures
        end_effects_of(form, id, true, results)[i] matches EndEffectModel::Forward(m)
            ==> exists|j: int|
            0 <= j < i && #[trigger] end_effects_of(form, id, true, results)[j]
                == EndEffectModel::Journal(row_of(m)),
{
    let effects = end_effects_of(form, id, true, results);
    if let EndEffectModel::Forward(m) = effects[i] {
        let inner = results_effects(form, id, true, results);
        assert(effects[i] == inner[i]);
        lemma_journal_first(form, id, results, i);
        let j = choose|j: int|
            0 <= j < i && #[trigger] inner[j] == EndEffectModel::Journal(row_of(m));
        assert(effects[j] == inner[j]);
    }
}

proof fn lemma_journal_first(form: WorkForm, id: Uuid, results: Seq<TaskResultModel>, i: int)
    requires
        0 <= i < results_effects(form, id, true, results).len(),
        results_effects(form, id, true, results)[i] is Forward,
    ensures
        exists|j: int|
            0 <= j < i && #[trigger] results_effects(form, id, true, results)[j]
                == EndEffectModel::Journal(
                row_of(results_effects(form, id, true, results)[i]->Forward_0),
            ),
    decreases results.len(),
{
    let all = results_effects(form, id, true, results);
    let front = results_effects(form, id, true, results.drop_last());
    if i < front.len() {
        assert(all[i] == front[i]);
        lemma_journal_first(form, id, results.drop_last(), i);
        let j = choose|j: int|
            0 <= j < i && #[trigger] front[j] == EndEffectModel::Journal(
                row_of(front[i]->Forward_0),
            );
        assert(all[j] == front[j]);
    } else {
        let one = result_effects(form, id, true, results.last());
        assert(all[i] == one[i - front.len()]);
        assert(all[front.len() as int] == one[0]);
    }
}

/// The work is listed until all else is done, and is taken off once.
pub proof fn law_work_is_listed_to_the_end(
    form: WorkForm,
    id: Uuid,
    forward: bool,
    results: Seq<TaskResultModel>,
    i: int,
)
    requires
        0 <= i < end_effects_of(form, id, forward, results).len(),
    ensures
        end_effects_of(form, id, forward, results)[i] is Deregister <==> i == end_effects_of(
            form,
            id,
            forward,
            results,
        ).len() - 1,
{
    let inner = results_effects(form, id, forward, results);
    if i < inner.len() {
        lemma_no_early_deregister(form, id, forward, results, i);
    }
}

proof fn lemma_no_early_deregister(
    form: WorkForm,
    id: Uuid,
    forward: bool,
    results: Seq<TaskResultModel>,
    i: int,
)
    requires
        0 <= i < results_effects(form, id, forward, results).len(),
    ensures
        !(results_effects(form, id, forward, results)[i] is Deregister),
    decreases results.len(),
{
    let front = results_effects(form, id, forward, results.drop_last());
    if i < front.len() {
        lemma_no_early_deregister(form, id, forward, results.drop_last(), i);
    }
}

/// What becomes of a task that was taken in.
#[derive(Debug, Clone, Copy, PartialEq, Eq, Structural)]
pub enum Next {
    /// The task of this identifier is to be cancelled.
    Cancel { target: Uuid },
    /// The task is to be run; its counts are to be published.
    Spawn { id: Uuid, form: WorkForm },
}

/// The tasks under way, the permits of those that run, and whether results go to
/// the control plane.
#[derive(Debug)]
pub struct TaskManager<T, W> {
    active: ActiveTasks<T>,
    permits: Permits<W>,
    forward: bool,
}

impl<T, W> TaskManager<T, W> {
    /// The tasks under way.
    pub closed spec fn active(&self) -> Seq<ActiveTask<T>> {
        self.active.listed()
    }

    /// Who may run and who waits.
    pub closed spec fn permits(&self) -> PermitsModel<W> {
        self.permits.model()
    }

    /// Whether results go to the control plane.
    pub closed spec fn forwards(&self) -> bool {
        self.forward
    }

    /// No task is under way twice.
    pub open spec fn wf(&self) -> bool {
        listed_once(self.active())
    }

    /// A manager with nothing under way.
    pub fn new(max_concurrent: usize, forward: bool) -> (r: TaskManager<T, W>)
        ensures
            r.wf(),
            r.active() == Seq::<ActiveTask<T>>::empty(),
            r.permits() == permits::unused::<W>(max_concurrent as nat),
            r.forwards() == forward,
    {
        TaskManager { active: ActiveTasks::new(), permits: Permits::new(max_concurrent), forward }
    }

    /// Takes a task in. `description` says in the audit trail what the task is;
    /// `token` cancels it. A task that asks for the cancelling of another is not
    /// itself under way.
    pub fn submit(&mut self, task: &Task, description: &str, token: T) -> (r: (AuditNote, Next))
        requires
            old(self).wf(),
        ensures
            final(self).wf(),
            final(self).permits() == old(self).permits(),
            final(self).forwards() == old(self).forwards(),
            r.0@ == (NoteModel {
                event: audit::TASK_RECEIVED@,
                task_id: ids::uuid_text(task.spec_id().bits),
                detail: JsonView::Object(
                    Map::<Seq<char>, JsonView>::empty().insert(
                        "type"@,
                        JsonView::Text(description@),
                    ),
                ),
            }),
            match task {
                Task::Cancel(t) => r.1 == (Next::Cancel { target: t.target_task_id })
                    && final(self).active() == old(self).active(),
                Task::Exec(t) => r.1 == (Next::Spawn { id: t.id, form: WorkForm::Exec })
                    && final(self).active() == without(old(self).active(), t.id).push(
                    ActiveTask { id: t.id, kind: t.kind, token },
                ),
                _ => r.1 == (Next::Spawn { id: task.spec_id(), form: WorkForm::Routed })
                    && final(self).active() == without(old(self).active(), task.spec_id()).push(
                    ActiveTask { id: task.spec_id(), kind: ExecKind::Oneshot, token },
                ),
            },
    {
        let id = task.id();
        let note = AuditNote {
            event: audit::TASK_RECEIVED,
            task_id: id.to_text(),
            detail: received_detail(description),
        };
        let next = match dispatch(task) {
            Dispatch::Cancel { target } => Next::Cancel { target },
            Dispatch::Execute { kind } => {
                self.active.register(id, kind, token);
                Next::Spawn { id, form: WorkForm::Exec }
            },
            Dispatch::Route => {
                self.active.register(id, ExecKind::Oneshot, token);
                Next::Spawn { id, form: WorkForm::Routed }
            },
        };
        (note, next)
    }

    /// Takes a chain in. It counts as one one-shot task and is cancelled under
    /// its own identifier.
    pub fn submit_chain(&mut self, chain: &TaskChain, token: T) -> (r: AuditNote)
        requires
            old(self).wf(),
        ensures
            final(self).wf(),
            final(self).permits() == old(self).permits(),
            final(self).forwards() == old(self).forwards(),
            final(self).active() == without(old(self).active(), chain.id).push(
                ActiveTask { id: chain.id, kind: ExecKind::Oneshot, token },
            ),
            r@ == (NoteModel {
                event: audit::TASK_RECEIVED@,
                task_id: ids::uuid_text(chain.id.bits),
                detail: JsonView::Object(
                    Map::<Seq<char>, JsonView>::empty().insert(
                        "type"@,
                        JsonView::Text("chain"@),
                    ).insert(
                        "steps"@,
                        JsonView::Number(NumberView::Int(chain.steps@.len() as int)),
                    ),
                ),
            }),
    {
        self.active.register(chain.id, ExecKind::Oneshot, token);
        AuditNote {
            event: audit::TASK_RECEIVED,
            task_id: chain.id.to_text(),
            detail: chain_received_detail(chain),
        }
    }

    /// What cancels a task, where it is under way.
    pub fn token(&self, id: Uuid) -> (r: Option<&T>)
        requires
            self.wf(),
        ensures
            match r {
                Some(t) => exists|i: int|
                    0 <= i < self.active().len() && (#[trigger] self.active()[i]).id == id
                        && self.active()[i].token == *t,
                None => forall|i: int|
                    0 <= i < self.active().len() ==> (#[trigger] self.active()[i]).id != id,
            },
    {
        self.active.token(id)
    }

    /// What is done when work ends, in order. The last of it is
    /// [`TaskManager::deregister`].
    pub fn finish(&self, form: WorkForm, id: Uuid, results: &Vec<TaskResult>) -> (r: Vec<EndEffect>)
        ensures
            effects_view(r@) == end_effects_of(form, id, self.forwards(), wire::models(results@)),
    {
        end_effects(form, id, self.forward, results)
    }

    /// Takes work off the list.
    pub fn deregister(&mut self, id: Uuid)
        requires
            old(self).wf(),
        ensures
            final(self).wf(),
            final(self).permits() == old(self).permits(),
            final(self).forwards() == old(self).forwards(),
            final(self).active() == without(old(self).active(), id),
    {
        self.active.deregister(id);
    }

    /// The counts that the heartbeat carries, in 32 bits each.
    pub fn counts(&self) -> (r: ActiveTaskCounts)
        ensures
            r.oneshot == count_kind(self.active(), ExecKind::Oneshot) as u32,
            r.continuous == count_kind(self.active(), ExecKind::Continuous) as u32,
            r.total == r.oneshot.wrapping_add(r.continuous),
    {
        self.active.counts()
    }

    /// Asks for a permit to run. Whoever is handed out may run, in that order.
    pub fn ask(&mut self, waiter: W) -> (r: Vec<W>)
        ensures
            final(self).active() == old(self).active(),
            final(self).forwards() == old(self).forwards(),
            (final(self).permits(), r@) == permits::permits_next(
                old(self).permits(),
                PermitEvent::Ask(waiter),
            ),
    {
        self.permits.ask(waiter)
    }

    /// Gives a permit back. Whoever is handed out may run.
    pub fn release(&mut self) -> (r: Vec<W>)
        ensures
            final(self).active() == old(self).active(),
            final(self).forwards() == old(self).forwards(),
            (final(self).permits(), r@) == permits::permits_next(
                old(self).permits(),
                PermitEvent::Release,
            ),
    {
        self.permits.release()
    }

    /// Takes a new limit over. Whoever is handed out may run.
    pub fn set_limit(&mut self, limit: usize) -> (r: Vec<W>)
        ensures
            final(self).active() == old(self).active(),
            final(self).forwards() == old(self).forwards(),
            (final(self).permits(), r@) == permits::permits_next(
                old(self).permits(),
                PermitEvent::Limit(limit as nat),
            ),
    {
        self.permits.set_limit(limit)
    }
}

/// A task that comes and goes leaves the list as it was.
pub proof fn law_finished_work_leaves_no_trace<T>(tasks: Seq<ActiveTask<T>>, task: ActiveTask<T>)
    requires
        listed_once(tasks),
        forall|i: int| 0 <= i < tasks.len() ==> (#[trigger] tasks[i]).id != task.id,
    ensures
        without(without(tasks, task.id).push(task), task.id) == tasks,
{
    law_deregister_undoes_register(tasks, task);
    lemma_without_none(tasks, task.id);
}

/// The counts add up, as long as they fit.
pub proof fn law_total_is_the_number_of_tasks<T>(tasks: Seq<ActiveTask<T>>)
    requires
        tasks.len() <= u32::MAX,
    ensures
        (count_kind(tasks, ExecKind::Oneshot) as u32).wrapping_add(
            count_kind(tasks, ExecKind::Continuous) as u32,
        ) == tasks.len(),
{
    law_counts_add_up(tasks);
}

/// What becomes of each result when work ends, one after the other and in this
/// order: it goes into the journal; unless it is a step of a chain, its end goes
/// into the audit trail under the identifier of the work, with the whole result;
/// and it goes to the control plane where there is a way there. Last of all the
/// work is taken off the list. Nothing else is done.
pub proof fn law_each_result_is_seen_to(
    form: WorkForm,
    id: Uuid,
    forward: bool,
    results: Seq<TaskResultModel>,
    i: int,
)
    requires
        0 <= i < results.len(),
    ensures
        ({
            let effects = end_effects_of(form, id, forward, results);
            let audited = form != WorkForm::Chain;
            let width = 1 + (if audited {
                1int
            } else {
                0
            }) + (if forward {
                1int
            } else {
                0
            });
            &&& effects.len() == width * results.len() + 1
            &&& effects.last() == (EndEffectModel::Deregister { id })
            &&& 0 <= width * i && width * i + width < effects.len()
            &&& effects[width * i] == EndEffectModel::Journal(row_of(results[i]))
            &&& audited ==> {
                let told = effects[width * i + 1];
                &&& told is Audit
                &&& told->Audit_0.event == end_event(results[i].status)
                &&& told->Audit_0.task_id == ids::uuid_text(id.bits)
                &&& told->Audit_0.detail == TaskResult::tree(results[i])
            }
            &&& forward ==> effects[width * i + width - 1] == EndEffectModel::Forward(results[i])
        }),
{
    lemma_result_effects_at(form, id, forward, results, i);
    let audited = form != WorkForm::Chain;
    let width = 1 + (if audited {
        1int
    } else {
        0
    }) + (if forward {
        1int
    } else {
        0
    });
    let inner = results_effects(form, id, forward, results);
    let n = results.len() as int;
    assert(width * i + width <= width * n && 0 <= width * i) by (nonlinear_arith)
        requires
            0 <= i < n,
            1 <= width <= 3,
    ;
    let one = result_effects(form, id, forward, results[i]);
    assert(inner.subrange(width * i, width * i + width)[0] == one[0]);
    assert(inner.subrange(width * i, width * i + width)[width - 1] == one[width - 1]);
    if audited {
        assert(inner.subrange(width * i, width * i + width)[1] == one[1]);
    }
}

proof fn lemma_result_effects_at(
    form: WorkForm,
    id: Uuid,
    forward: bool,
    results: Seq<TaskResultModel>,
    i: int,
)
    requires
        0 <= i < results.len(),
    ensures
        ({
            let width = result_effects(form, id, forward, results[i]).len() as int;
            let inner = results_effects(form, id, forward, results);
            &&& inner.len() == width * results.len()
            &&& 0 <= width * i
            &&& width * i + width <= inner.len()
            &&& inner.subrange(width * i, width * i + width) == result_effects(
                form,
                id,
                forward,
                results[i],
            )
        }),
    decreases results.len(),
{
    let width = result_effects(form, id, forward, results[i]).len() as int;
    let n = results.len() as int;
    let front = results_effects(form, id, forward, results.drop_last());
    let last = result_effects(form, id, forward, results.last());
    let inner = results_effects(form, id, forward, results);
    assert(last.len() == width);
    if n == 1 {
        assert(results.drop_last().len() == 0);
        assert(front.len() == 0);
        assert(inner =~= last);
        assert(width * 1 == width && width * 0 == 0);
        assert(inner.subrange(0, width) =~= last);
    } else {
        let k = if i < n - 1 {
            i
        } else {
            0
        };
        lemma_result_effects_at(form, id, forward, results.drop_last(), k);
        assert(result_effects(form, id, forward, results[k]).len() == width);
        assert(width * (n - 1) + width == width * n) by (nonlinear_arith);
        assert(front.len() == width * (n - 1));
        assert(width * i + width <= width * n && 0 <= width * i && (i < n - 1 ==> width * i + width
            <= width * (n - 1))) by (nonlinear_arith)
            requires
                0 <= i < n,
                0 <= width,
        ;
        if i < n - 1 {
            assert(inner.subrange(width * i, width * i + width) =~= front.subrange(
                width * i,
                width * i + width,
            ));
        } else {
            assert(inner.subrange(width * i, width * i + width) =~= last);
        }
    }
}

/// Work without results leaves nothing behind but its place on the list.
pub proof fn law_no_result_no_trace(form: WorkForm, id: Uuid, forward: bool)
    ensures
        end_effects_of(form, id, forward, Seq::empty()) == seq![EndEffectModel::Deregister { id }],
{
    assert(end_effects_of(form, id, forward, Seq::empty()) =~= seq![
        EndEffectModel::Deregister { id },
    ]);
}

/// The journal's row says what the result says: its identifiers as texts, its
/// status by name, its output and exit code as they are, and its numbers as long
/// as they fit the journal's types.
pub proof fn law_journal_row_says_what_the_result_says(m: TaskResultModel)
    ensures
        ({
            let r = row_of(m);
            &&& r.task_id == ids::uuid_text(m.task_id.bits)
            &&& r.chain_id is Some <==> m.chain_id is Some
            &&& m.chain_id is Some ==> r.chain_id->0 == ids::uuid_text(m.chain_id->0.bits)
            &&& r.step_index is Some <==> m.step_index is Some
            &&& m.step_index matches Some(k) ==> k <= i32::MAX ==> r.step_index->0 == k
            &&& r.exit_code == m.exit_code
            &&& r.stdout == m.stdout
            &&& r.stderr == m.stderr
            &&& m.duration_ms <= i64::MAX ==> r.duration_ms == m.duration_ms
            &&& m.timestamp <= i64::MAX ==> r.created_at == m.timestamp
            &&& m.status == TaskResultStatus::Success ==> r.status == "Success"@
            &&& m.status == TaskResultStatus::Failed ==> r.status == "Failed"@
            &&& m.status == TaskResultStatus::Cancelled ==> r.status == "Cancelled"@
            &&& m.status == TaskResultStatus::Timeout ==> r.status == "Timeout"@
            &&& m.status == TaskResultStatus::RolledBack ==> r.status == "RolledBack"@
        }),
{
}

/// The audit trail tells how a task ended: completed exactly when it succeeded,
/// and a timeout and a cancellation apart from a failure.
pub proof fn law_audit_tells_the_ends_apart(status: TaskResultStatus)
    ensures
        status == TaskResultStatus::Success ==> end_event(status) == "task.completed"@,
        status == TaskResultStatus::Timeout ==> end_event(status) == "task.timeout"@,
        status == TaskResultStatus::Cancelled ==> end_event(status) == "task.cancelled"@,
        status == TaskResultStatus::Failed || status == TaskResultStatus::RolledBack ==> end_event(
            status,
        ) == "task.failed"@,
{
}

/// Work on a unit is told of under the unit's own name, each kind as its own
/// event; other tasks are not told of this way.
pub proof fn law_unit_work_is_told_under_its_name(task: Task)
    ensures
        task matches Task::Install(t) ==> unit_event(task) == Some(
            ("unit.installed"@, t.unit.name@),
        ),
        task matches Task::Upgrade(t) ==> unit_event(task) == Some(("unit.upgraded"@, t.unit_name@)),
        task matches Task::Remove(t) ==> unit_event(task) == Some(("unit.removed"@, t.unit_name@)),
        task is SelfUpgrade ==> unit_event(task) == Some(("self_upgrade.started"@, "vasal"@)),
        task is Exec || task is Cancel ==> unit_event(task) is None,
{
}

/// The list without a task is the list of the others, in their order; and a count
/// is the number of tasks of its kind.
pub proof fn law_list_and_counts<T>(tasks: Seq<ActiveTask<T>>, id: Uuid, kind: ExecKind)
    ensures
        without(tasks, id) == tasks.filter(|t: ActiveTask<T>| t.id != id),
        count_kind(tasks, kind) == tasks.filter(|t: ActiveTask<T>| t.kind == kind).len(),
    decreases tasks.len(),
{
    reveal(Seq::filter);
    if tasks.len() > 0 {
        law_list_and_counts(tasks.drop_last(), id, kind);
    }
}

} // verus!
