//! Work over HTTP: what is asked for, what the answers hold.

use crate::agent::error::{joined, Error, ErrorModel};
use crate::agent::transport::work::{self, ReceivedWork, WorkModel};
use crate::json::{self, Json, JsonView};
use crate::protocol::task::{Task, TaskChain, TaskChainModel, TaskModel};
use crate::text;
use crate::wire::{self, Form, Wire};
use vstd::prelude::*;
use vstd::string::*;

verus! {

/// Where work is asked for, and how often.
#[derive(Debug)]
pub struct PollTransport {
    endpoint: String,
    interval_sec: u64,
}

impl PollTransport {
    /// The control plane's address.
    pub closed spec fn endpoint(&self) -> Seq<char> {
        self.endpoint@
    }

    /// Seconds before each poll.
    pub closed spec fn interval(&self) -> u64 {
        self.interval_sec
    }

    /// Polls the given address.
    pub fn new(endpoint: String, poll_interval_sec: u64) -> (r: PollTransport)
        ensures
            r.endpoint() == endpoint@,
            r.interval() == poll_interval_sec,
    {
        PollTransport { endpoint, interval_sec: poll_interval_sec }
    }

    /// Seconds before each poll.
    pub fn interval_sec(&self) -> (r: u64)
        ensures
            r == self.interval(),
    {
        self.interval_sec
    }

    /// Where pending work is.
    pub fn pending_url(&self) -> (r: String)
        ensures
            r@ == self.endpoint() + "/tasks/pending"@,
    {
        joined(self.endpoint.as_str(), "/tasks/pending")
    }

    /// Where results go.
    pub fn result_url(&self) -> (r: String)
        ensures
            r@ == self.endpoint() + "/tasks/result"@,
    {
        joined(self.endpoint.as_str(), "/tasks/result")
    }
}

/// The work that an item of an answer stands for: one with steps is a chain, any
/// other a task. Other items stand for none.
pub open spec fn work_of(item: JsonView) -> Option<WorkModel> {
    if item.field("steps"@) is Some {
        match TaskChain::read(item, "task chain"@, Form::Plain) {
            Ok(m) => Some(WorkModel::Chain(m)),
            Err(_) => None,
        }
    } else {
        match Task::read(item, "task"@, Form::Plain) {
            Ok(m) => Some(WorkModel::Single(m)),
            Err(_) => None,
        }
    }
}

/// Reads an item of an answer.
pub fn read_work(item: &Json) -> (r: Option<ReceivedWork>)
    ensures
        match work_of(item@) {
            Some(w) => r is Some && r->0@ == w,
            None => r is None,
        },
{
    if item.get("steps").is_some() {
        match TaskChain::from_json(item, "task chain", Form::Plain) {
            Ok(c) => Some(ReceivedWork::Chain(c)),
            Err(_) => None,
        }
    } else {
        match Task::from_json(item, "task", Form::Plain) {
            Ok(t) => Some(ReceivedWork::Single(t)),
            Err(_) => None,
        }
    }
}

/// The work that the items of an answer stand for, in order.
pub open spec fn works_of(items: Seq<JsonView>) -> Seq<WorkModel>
    decreases items.len(),
{
    if items.len() == 0 {
        Seq::empty()
    } else {
        let front = works_of(items.drop_last());
        match work_of(items.last()) {
            Some(w) => front.push(w),
            None => front,
        }
    }
}

/// What an answer comes to, by its status code, its body and what the body holds
/// as JSON.
pub open spec fn poll_outcome(
    code: u16,
    status: Seq<char>,
    body: Seq<char>,
    parsed: Result<JsonView, Seq<char>>,
) -> Result<Seq<WorkModel>, ErrorModel> {
    if !(200 <= code < 300) {
        Err(ErrorModel::Transport("task poll returned HTTP "@ + status))
    } else if text::trimmed(body) == Seq::<char>::empty() || text::trimmed(body) == "[]"@ {
        Ok(Seq::empty())
    } else {
        match wire::decoded::<Vec<Json>>(parsed, "tasks"@) {
            Ok(items) => Ok(works_of(items)),
            Err(e) => Err(ErrorModel::Json(e)),
        }
    }
}

/// Judges an answer whose JSON has been read.
pub fn judge_poll(code: u16, status: &str, body: &str, parsed: Result<Json, String>) -> (r: Result<
    Vec<ReceivedWork>,
    Error,
>)
    ensures
        match poll_outcome(code, status@, body@, wire::parsed_view(parsed)) {
            Ok(w) => r is Ok && work::works_view(r->Ok_0@) == w,
            Err(e) => r is Err && r->Err_0@ == e,
        },
{
    let mut out: Vec<ReceivedWork> = Vec::new();
    proof {
        assert(work::works_view(out@) =~= Seq::empty());
        reveal_strlit("");
        assert(""@ =~= Seq::<char>::empty());
    }
    if !(200 <= code && code < 300) {
        return Err(Error::Transport(joined("task poll returned HTTP ", status)));
    }
    let trimmed = text::trim(body);
    if text::same(trimmed.as_str(), "") || text::same(trimmed.as_str(), "[]") {
        return Ok(out);
    }
    let items = match wire::decode_parsed::<Vec<Json>>(parsed, "tasks") {
        Ok(items) => items,
        Err(e) => return Err(Error::Json(e)),
    };
    let ghost trees = items.model();
    for i in 0..items.len()
        invariant
            trees == items.model(),
            trees.len() == items@.len(),
            work::works_view(out@) == works_of(trees.take(i as int)),
    {
        proof {
            assert(trees.take(i + 1).drop_last() =~= trees.take(i as int));
            assert(trees.take(i + 1).last() == items@[i as int]@);
        }
        match read_work(&items[i]) {
            Some(w) => {
                let ghost before = out@;
                out.push(w);
                proof {
                    assert(work::works_view(out@) =~= work::works_view(before).push(w@));
                }
            },
            None => {},
        }
    }
    assert(trees.take(trees.len() as int) =~= trees);
    Ok(out)
}

/// Reads the answer to a poll.
pub fn read_poll(code: u16, status: &str, body: &str) -> (r: Result<Vec<ReceivedWork>, Error>)
    ensures
        match poll_outcome(code, status@, body@, json::parsed_text(body@)) {
            Ok(w) => r is Ok && work::works_view(r->Ok_0@) == w,
            Err(e) => r is Err && r->Err_0@ == e,
        },
{
    judge_poll(code, status, body, json::parse_text(body))
}

/// Judges the answer to a report.
pub fn judge_report(code: u16, status: &str) -> (r: Result<(), Error>)
    ensures
        r is Ok <==> 200 <= code < 300,
        r matches Err(e) ==> e@ == ErrorModel::Transport("result report returned HTTP "@ + status@),
{
    if 200 <= code && code < 300 {
        Ok(())
    } else {
        Err(Error::Transport(joined("result report returned HTTP ", status)))
    }
}

/// An item that cannot be read costs no other item: the work of two lists, one
/// behind the other, is the work of each.
pub proof fn law_items_are_read_apart(a: Seq<JsonView>, b: Seq<JsonView>)
    ensures
        works_of(a + b) == works_of(a) + works_of(b),
    decreases b.len(),
{
    if b.len() == 0 {
        assert(a + b =~= a);
        assert(works_of(a) + works_of(b) =~= works_of(a));
    } else {
        law_items_are_read_apart(a, b.drop_last());
        assert((a + b).drop_last() =~= a + b.drop_last());
        assert((a + b).last() == b.last());
        assert(works_of(a + b) =~= works_of(a) + works_of(b));
    }
}

/// No task has steps.
proof fn lemma_task_has_no_steps(m: TaskModel)
    ensures
        Task::tree(m).field("steps"@) is None,
{
    reveal_strlit("steps");
    assert("steps"@.len() == 5);
    reveal_strlit("artifact");
    assert("artifact"@.len() == 8);
    reveal_strlit("credentials");
    assert("credentials"@.len() == 11);
    reveal_strlit("executor");
    assert("executor"@.len() == 8);
    reveal_strlit("id");
    assert("id"@.len() == 2);
    reveal_strlit("interval_ms");
    assert("interval_ms"@.len() == 11);
    reveal_strlit("kind");
    assert("kind"@.len() == 4);
    reveal_strlit("method");
    assert("method"@.len() == 6);
    reveal_strlit("payload");
    assert("payload"@.len() == 7);
    reveal_strlit("priority");
    assert("priority"@.len() == 8);
    reveal_strlit("purge");
    assert("purge"@.len() == 5);
    assert("purge"@[0] != "steps"@[0]);
    reveal_strlit("rollback");
    assert("rollback"@.len() == 8);
    reveal_strlit("tags");
    assert("tags"@.len() == 4);
    reveal_strlit("target");
    assert("target"@.len() == 6);
    reveal_strlit("target_task_id");
    assert("target_task_id"@.len() == 14);
    reveal_strlit("target_version");
    assert("target_version"@.len() == 14);
    reveal_strlit("timeout_ms");
    assert("timeout_ms"@.len() == 10);
    reveal_strlit("type");
    assert("type"@.len() == 4);
    reveal_strlit("unit");
    assert("unit"@.len() == 4);
    reveal_strlit("unit_name");
    assert("unit_name"@.len() == 9);
}

/// A task that was written is read as that task.
pub proof fn law_written_task_is_received(m: TaskModel)
    requires
        Task::lossless(m),
    ensures
        work_of(Task::tree(m)) == Some(WorkModel::Single(m)),
{
    lemma_task_has_no_steps(m);
    Task::law_reads_what_it_writes(m, "task"@, Form::Plain);
}

/// A chain that was written is read as that chain.
pub proof fn law_written_chain_is_received(m: TaskChainModel)
    requires
        TaskChain::lossless(m),
    ensures
        work_of(TaskChain::tree(m)) == Some(WorkModel::Chain(m)),
{
    TaskChain::law_reads_what_it_writes(m, "task chain"@, Form::Plain);
}

/// What an item stands for: with steps it is a chain, without any a task, each as
/// it can be read; where it cannot, it stands for nothing.
pub proof fn law_items_with_steps_are_chains(item: JsonView)
    ensures
        ({
            let task = Task::read(item, "task"@, Form::Plain);
            let chain = TaskChain::read(item, "task chain"@, Form::Plain);
            &&& item.field("steps"@) is Some ==> (work_of(item) is Some <==> chain is Ok)
            &&& item.field("steps"@) is Some && chain is Ok ==> work_of(item) == Some(
                WorkModel::Chain(chain->Ok_0),
            )
            &&& item.field("steps"@) is None ==> (work_of(item) is Some <==> task is Ok)
            &&& item.field("steps"@) is None && task is Ok ==> work_of(item) == Some(
                WorkModel::Single(task->Ok_0),
            )
        }),
{
}

/// Every item that stands for work is received, and nothing else is.
#[verifier::rlimit(40)]
pub proof fn law_received_work_is_that_of_the_items(items: Seq<JsonView>, w: WorkModel)
    ensures
        works_of(items).contains(w) <==> exists|i: int|
            0 <= i < items.len() && work_of(#[trigger] items[i]) == Some(w),
        works_of(items).len() <= items.len(),
        (forall|i: int| 0 <= i < items.len() ==> work_of(#[trigger] items[i]) is Some)
            ==> works_of(items).len() == items.len(),
    decreases items.len(),
{
    if items.len() > 0 {
        let front = items.drop_last();
        law_received_work_is_that_of_the_items(front, w);
        let all = works_of(items);
        let some = works_of(front);
        if some.contains(w) {
            let k = choose|k: int| 0 <= k < some.len() && some[k] == w;
            assert(all[k] == w);
        }
        if work_of(items.last()) == Some(w) {
            assert(all[all.len() - 1] == w);
            assert(work_of(items[items.len() - 1]) == Some(w));
        }
        if exists|i: int| 0 <= i < front.len() && work_of(#[trigger] front[i]) == Some(w) {
            let i = choose|i: int| 0 <= i < front.len() && work_of(#[trigger] front[i]) == Some(w);
            assert(work_of(items[i]) == Some(w));
        }
        if all.contains(w) {
            let k = choose|k: int| 0 <= k < all.len() && all[k] == w;
            if k < some.len() {
                assert(some[k] == w);
            }
        }
        if exists|i: int| 0 <= i < items.len() && work_of(#[trigger] items[i]) == Some(w) {
            let i = choose|i: int| 0 <= i < items.len() && work_of(#[trigger] items[i]) == Some(w);
            if i < front.len() {
                assert(work_of(front[i]) == Some(w));
            }
        }
        if forall|i: int| 0 <= i < items.len() ==> work_of(#[trigger] items[i]) is Some {
            assert forall|i: int| 0 <= i < front.len() implies work_of(
                #[trigger] front[i],
            ) is Some by {
                assert(front[i] == items[i]);
            }
            assert(work_of(items[items.len() - 1]) is Some);
        }
    }
}

/// What a poll comes to: an error where it was not answered with success; no work
/// where the body is blank or an empty list; otherwise the work of the items, or
/// an error where the body is no list.
pub proof fn law_poll_answers(
    code: u16,
    status: Seq<char>,
    body: Seq<char>,
    parsed: Result<JsonView, Seq<char>>,
)
    ensures
        ({
            let r = poll_outcome(code, status, body, parsed);
            let blank = text::trimmed(body).len() == 0 || text::trimmed(body) == "[]"@;
            let items = if parsed is Ok && parsed->Ok_0 is Array {
                Some(parsed->Ok_0->Array_0)
            } else {
                None
            };
            &&& !(200 <= code < 300) ==> r == Err::<Seq<WorkModel>, ErrorModel>(
                ErrorModel::Transport("task poll returned HTTP "@ + status),
            )
            &&& 200 <= code < 300 && blank ==> r == Ok::<Seq<WorkModel>, ErrorModel>(Seq::empty())
            &&& 200 <= code < 300 && !blank ==> (r is Ok <==> items is Some)
            &&& 200 <= code < 300 && !blank && items is Some ==> r->Ok_0 == works_of(items->0)
            &&& 200 <= code < 300 && !blank && items is None ==> r->Err_0 is Json
        }),
{
    let t = text::trimmed(body);
    assert(t.len() == 0 ==> t =~= Seq::<char>::empty());
    if parsed is Ok && parsed->Ok_0 is Array {
        let s = parsed->Ok_0->Array_0;
        assert forall|i: int| 0 <= i < s.len() implies Json::read(
            #[trigger] s[i],
            "tasks"@,
            Form::Plain,
        ) == Ok::<JsonView, wire::Fault>(s[i]) by {}
        crate::members::law_lists_are_read_element_by_element::<Json>(s, "tasks"@, Form::Plain, s);
    }
}

} // verus!
