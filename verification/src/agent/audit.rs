//! The audit trail: events, the rows that keep them, and their way to the
//! control plane.

use crate::agent::error::{joined, Error, ErrorModel};
use crate::agent::state::{now_ms, AuditRow};
use crate::json::{self, Json, JsonObject, JsonView, NumberView};
use crate::text;
use vstd::prelude::*;
use vstd::string::*;

verus! {

pub const TASK_RECEIVED: &'static str = "task.received";

pub const TASK_STARTED: &'static str = "task.started";

pub const TASK_COMPLETED: &'static str = "task.completed";

pub const TASK_FAILED: &'static str = "task.failed";

pub const TASK_CANCELLED: &'static str = "task.cancelled";

pub const TASK_TIMEOUT: &'static str = "task.timeout";

pub const CHAIN_STARTED: &'static str = "chain.started";

pub const CHAIN_COMPLETED: &'static str = "chain.completed";

pub const CHAIN_ROLLBACK: &'static str = "chain.rollback";

pub const UNIT_INSTALLED: &'static str = "unit.installed";

pub const UNIT_UPGRADED: &'static str = "unit.upgraded";

pub const UNIT_REMOVED: &'static str = "unit.removed";

pub const UNIT_HEALTH_CHANGED: &'static str = "unit.health_changed";

pub const CREDENTIAL_FETCHED: &'static str = "credential.fetched";

pub const SELF_UPGRADE_STARTED: &'static str = "self_upgrade.started";

pub const SELF_UPGRADE_COMPLETED: &'static str = "self_upgrade.completed";

pub const CONFIG_RELOADED: &'static str = "config.reloaded";

pub const AGENT_STARTED: &'static str = "agent.started";

pub const AGENT_SHUTDOWN: &'static str = "agent.shutdown";

/// The row that keeps an event.
pub fn audit_row(event_type: &str, task_id: Option<String>, detail: &Json, timestamp: i64) -> (r:
    AuditRow)
    ensures
        r.id is None,
        r.timestamp == timestamp,
        r.event_type@ == event_type@,
        r.task_id == task_id,
        r.detail_json@ == json::compact_text(detail@),
        json::rereadable(detail@) ==> detail_of(r.detail_json@) == detail@,
{
    AuditRow {
        id: None,
        timestamp,
        event_type: event_type.to_owned(),
        task_id,
        detail_json: detail.to_text(),
    }
}

/// The row that keeps an event of this moment.
pub fn record(event_type: &str, task_id: Option<String>, detail: &Json) -> (r: AuditRow)
    ensures
        r.id is None,
        r.event_type@ == event_type@,
        r.task_id == task_id,
        r.detail_json@ == json::compact_text(detail@),
        json::rereadable(detail@) ==> detail_of(r.detail_json@) == detail@,
{
    audit_row(event_type, task_id, detail, now_ms())
}

/// The detail of an event as the control plane gets it: the JSON value that was
/// kept, `null` where what was kept is no JSON.
pub open spec fn detail_of(detail_json: Seq<char>) -> JsonView {
    match json::parsed_text(detail_json) {
        Ok(v) => v,
        Err(_) => JsonView::Null,
    }
}

/// An event as the control plane gets it, with its detail.
pub open spec fn forwarded_event(e: AuditRow, detail: JsonView) -> JsonView {
    let o = Map::<Seq<char>, JsonView>::empty();
    let o = o.insert("timestamp"@, JsonView::Number(NumberView::Int(e.timestamp as int)));
    let o = o.insert("event_type"@, JsonView::Text(e.event_type@));
    let o = o.insert(
        "task_id"@,
        match e.task_id {
            Some(id) => JsonView::Text(id@),
            None => JsonView::Null,
        },
    );
    JsonView::Object(o.insert("detail"@, detail))
}

/// A batch of events as the control plane gets it.
pub open spec fn forwarded_batch(events: Seq<AuditRow>) -> Seq<JsonView> {
    Seq::new(events.len(), |i: int| forwarded_event(events[i], detail_of(events[i].detail_json@)))
}

/// The numbers of the stored events of a batch.
pub open spec fn batch_numbers(events: Seq<AuditRow>) -> Seq<i64>
    decreases events.len(),
{
    if events.len() == 0 {
        Seq::empty()
    } else {
        let front = batch_numbers(events.drop_last());
        match events.last().id {
            Some(id) => front.push(id),
            None => front,
        }
    }
}

/// Words an event for the control plane, with its detail.
pub fn forward_event(e: &AuditRow, detail: Json) -> (r: Json)
    ensures
        r@ == forwarded_event(*e, detail@),
{
    let mut o = JsonObject::new();
    o.set("timestamp", Json::signed(e.timestamp));
    o.set("event_type", Json::Text(e.event_type.clone()));
    let task_id = match &e.task_id {
        Some(id) => Json::Text(id.clone()),
        None => Json::Null,
    };
    o.set("task_id", task_id);
    o.set("detail", detail);
    o.finish()
}

/// What a flush does first.
#[derive(Debug)]
pub enum Flush {
    /// There is nothing to send.
    Nothing,
    /// This body is to be posted; once it is accepted, these numbers are to be
    /// marked as forwarded.
    Post { body: Json, ids: Vec<i64> },
}

/// Prepares a batch of events for the control plane.
pub fn prepare_flush(events: &Vec<AuditRow>) -> (r: Flush)
    ensures
        events@.len() == 0 <==> r is Nothing,
        r matches Flush::Post { body, ids } ==> body@ == JsonView::Array(forwarded_batch(events@))
            && ids@ == batch_numbers(events@),
{
    if events.len() == 0 {
        return Flush::Nothing;
    }
    let mut body: Vec<Json> = Vec::new();
    let mut ids: Vec<i64> = Vec::new();
    for i in 0..events.len()
        invariant
            body@.len() == i,
            forall|k: int| 0 <= k < i ==> (#[trigger] body@[k])@ == forwarded_batch(events@)[k],
            ids@ == batch_numbers(events@.take(i as int)),
    {
        proof {
            assert(events@.take(i + 1).drop_last() =~= events@.take(i as int));
        }
        let detail = match json::parse_text(events[i].detail_json.as_str()) {
            Ok(v) => v,
            Err(_) => Json::Null,
        };
        body.push(forward_event(&events[i], detail));
        match events[i].id {
            Some(id) => ids.push(id),
            None => {},
        }
    }
    proof {
        assert(events@.take(events@.len() as int) =~= events@);
        json::lemma_elements_view(body@);
        assert(json::elements_view(body@) =~= forwarded_batch(events@));
    }
    Flush::Post { body: Json::Array(body), ids }
}

/// Whether an HTTP status code reports success.
pub open spec fn is_success_code(code: u16) -> bool {
    200 <= code < 300
}

/// The error for a flush that was answered with anything but success.
pub open spec fn refused_flush(status: Seq<char>) -> ErrorModel {
    ErrorModel::Transport("audit endpoint returned HTTP "@ + status)
}

/// Judges the answer to a flush by its status code and the text of the code.
pub fn check_flush_answer(code: u16, status: &str) -> (r: Result<(), Error>)
    ensures
        r is Ok <==> is_success_code(code),
        r matches Err(e) ==> e@ == refused_flush(status@),
{
    if 200 <= code && code < 300 {
        Ok(())
    } else {
        Err(Error::Transport(joined("audit endpoint returned HTTP ", status)))
    }
}

/// Seconds the forwarder waits after its first failure.
pub const FIRST_BACKOFF_SEC: u64 = 1;

/// Seconds the forwarder waits at most.
pub const MAX_BACKOFF_SEC: u64 = 60;

/// Where the forwarder stands. A flush is the last one when the agent is
/// shutting down.
#[derive(Debug, Clone, Copy, PartialEq, Eq, Structural)]
pub enum ForwardPhase {
    /// Waiting for the next flush.
    Waiting,
    /// Reading the events that have not been forwarded.
    Reading { last: bool },
    /// Posting a batch of them.
    Posting { last: bool },
    /// Marking the batch, which has been accepted.
    Marking { last: bool },
    /// Waiting after a failure.
    BackingOff { wait_sec: u64 },
    /// Done.
    Over,
}

/// What the forwarder has to do.
#[derive(Debug)]
pub enum ForwardAction {
    /// Wait for the time of the next flush, or for the shutdown.
    Wait,
    /// Read the oldest events that have not been forwarded.
    Read,
    /// Post this to the control plane.
    Post(Json),
    /// Mark the events with these numbers as forwarded.
    Mark(Vec<i64>),
    /// Wait these seconds.
    BackOff(u64),
    /// Nothing more.
    Finish,
}

/// What has happened.
#[derive(Debug)]
pub enum ForwardEvent {
    IntervalPassed,
    ShuttingDown,
    Read(Vec<AuditRow>),
    Answered { code: u16, status: String },
    Marked,
    Rested,
    /// The action failed.
    Failed(Error),
}

/// Where the forwarder stands, in full: the phase, the seconds that it would
/// wait after a failure now, and the batch on its way.
#[verifier::ext_equal]
pub struct ForwardState {
    pub phase: ForwardPhase,
    pub backoff_sec: u64,
    pub batch: Seq<AuditRow>,
}

/// A forwarder that has done nothing.
pub open spec fn forward_start() -> ForwardState {
    ForwardState {
        phase: ForwardPhase::Waiting,
        backoff_sec: FIRST_BACKOFF_SEC,
        batch: Seq::empty(),
    }
}

/// After a flush that succeeded, the wait after the next failure is the first
/// one again.
pub open spec fn flushed(last: bool) -> ForwardState {
    ForwardState {
        phase: if last {
            ForwardPhase::Over
        } else {
            ForwardPhase::Waiting
        },
        backoff_sec: FIRST_BACKOFF_SEC,
        batch: Seq::empty(),
    }
}

/// After a flush that failed there are seconds to wait, and the next wait is
/// twice as long up to the limit; the last flush is not tried again.
pub open spec fn not_flushed(s: ForwardState, last: bool) -> ForwardState {
    ForwardState {
        phase: if last {
            ForwardPhase::Over
        } else {
            ForwardPhase::BackingOff { wait_sec: s.backoff_sec }
        },
        backoff_sec: doubled(s.backoff_sec, MAX_BACKOFF_SEC),
        batch: Seq::empty(),
    }
}

/// Where an event takes the forwarder, and what has gone wrong. An event that is
/// not waited for changes nothing.
pub open spec fn forward_next(s: ForwardState, event: ForwardEvent) -> (
    ForwardState,
    Option<ErrorModel>,
) {
    match (s.phase, event) {
        (ForwardPhase::Waiting, ForwardEvent::IntervalPassed) => (
            ForwardState { phase: ForwardPhase::Reading { last: false }, ..s },
            None,
        ),
        (ForwardPhase::Waiting, ForwardEvent::ShuttingDown) => (
            ForwardState { phase: ForwardPhase::Reading { last: true }, ..s },
            None,
        ),
        (ForwardPhase::Reading { last }, ForwardEvent::Read(events)) => if events@.len() == 0 {
            (flushed(last), None)
        } else {
            (ForwardState { phase: ForwardPhase::Posting { last }, batch: events@, ..s }, None)
        },
        (ForwardPhase::Posting { last }, ForwardEvent::Answered { code, status }) => {
            if is_success_code(code) {
                (ForwardState { phase: ForwardPhase::Marking { last }, ..s }, None)
            } else {
                (not_flushed(s, last), Some(refused_flush(status@)))
            }
        },
        (ForwardPhase::Marking { last }, ForwardEvent::Marked) => (flushed(last), None),
        (ForwardPhase::Reading { last }, ForwardEvent::Failed(e)) => (
            not_flushed(s, last),
            Some(e@),
        ),
        (ForwardPhase::Posting { last }, ForwardEvent::Failed(e)) => (
            not_flushed(s, last),
            Some(e@),
        ),
        (ForwardPhase::Marking { last }, ForwardEvent::Failed(e)) => (
            not_flushed(s, last),
            Some(e@),
        ),
        (ForwardPhase::BackingOff { wait_sec }, ForwardEvent::Rested) => (
            ForwardState { phase: ForwardPhase::Waiting, ..s },
            None,
        ),
        _ => (s, None),
    }
}

/// What is to be done where the forwarder stands.
pub open spec fn forward_action(s: ForwardState, action: ForwardAction) -> bool {
    match s.phase {
        ForwardPhase::Waiting => action is Wait,
        ForwardPhase::Reading { last } => action is Read,
        ForwardPhase::Posting { last } => action matches ForwardAction::Post(body) && body@
            == JsonView::Array(forwarded_batch(s.batch)),
        ForwardPhase::Marking { last } => action matches ForwardAction::Mark(ids) && ids@
            == batch_numbers(s.batch),
        ForwardPhase::BackingOff { wait_sec } => action == ForwardAction::BackOff(wait_sec),
        ForwardPhase::Over => action is Finish,
    }
}

/// What holds of the forwarder at every moment: the wait after a failure is
/// within its bounds, and a batch that is posted or marked is not empty.
pub open spec fn forward_inv(s: ForwardState) -> bool {
    &&& FIRST_BACKOFF_SEC <= s.backoff_sec <= MAX_BACKOFF_SEC
    &&& (s.phase is Posting || s.phase is Marking) ==> s.batch.len() > 0
    &&& s.phase matches ForwardPhase::BackingOff { wait_sec } ==> FIRST_BACKOFF_SEC <= wait_sec
        <= MAX_BACKOFF_SEC
}

/// Forwards the audit trail: reads what has not been forwarded, posts it, and
/// marks it once it is accepted.
#[derive(Debug)]
pub struct Forwarder {
    phase: ForwardPhase,
    backoff_sec: u64,
    batch: Vec<AuditRow>,
}

impl Forwarder {
    /// Where it stands.
    pub closed spec fn state(&self) -> ForwardState {
        ForwardState { phase: self.phase, backoff_sec: self.backoff_sec, batch: self.batch@ }
    }

    /// Its invariant.
    pub open spec fn wf(&self) -> bool {
        forward_inv(self.state())
    }

    /// A forwarder that has done nothing.
    pub fn new() -> (r: Forwarder)
        ensures
            r.wf(),
            r.state() == forward_start(),
    {
        Forwarder {
            phase: ForwardPhase::Waiting,
            backoff_sec: FIRST_BACKOFF_SEC,
            batch: Vec::new(),
        }
    }

    /// What it has to do.
    pub fn action(&self) -> (r: ForwardAction)
        requires
            self.wf(),
        ensures
            forward_action(self.state(), r),
    {
        match self.phase {
            ForwardPhase::Waiting => ForwardAction::Wait,
            ForwardPhase::Reading { .. } => ForwardAction::Read,
            ForwardPhase::Posting { .. } => match prepare_flush(&self.batch) {
                Flush::Post { body, .. } => ForwardAction::Post(body),
                Flush::Nothing => ForwardAction::Finish,
            },
            ForwardPhase::Marking { .. } => match prepare_flush(&self.batch) {
                Flush::Post { ids, .. } => ForwardAction::Mark(ids),
                Flush::Nothing => ForwardAction::Finish,
            },
            ForwardPhase::BackingOff { wait_sec } => ForwardAction::BackOff(wait_sec),
            ForwardPhase::Over => ForwardAction::Finish,
        }
    }

    /// A flush has succeeded.
    fn flushed(&mut self, last: bool)
        ensures
            final(self).state() == flushed(last),
    {
        self.phase =
        if last {
            ForwardPhase::Over
        } else {
            ForwardPhase::Waiting
        };
        self.backoff_sec = FIRST_BACKOFF_SEC;
        self.batch = Vec::new();
    }

    /// A flush has failed.
    fn not_flushed(&mut self, last: bool)
        requires
            old(self).wf(),
        ensures
            final(self).state() == not_flushed(old(self).state(), last),
            final(self).wf(),
    {
        let wait: u64 = self.backoff_sec;
        let twice: u64 = wait * 2;
        self.phase =
        if last {
            ForwardPhase::Over
        } else {
            ForwardPhase::BackingOff { wait_sec: wait }
        };
        self.backoff_sec = if twice <= MAX_BACKOFF_SEC {
            twice
        } else {
            MAX_BACKOFF_SEC
        };
        self.batch = Vec::new();
    }

    /// Takes note of what has happened; what has gone wrong is handed back.
    pub fn on_event(&mut self, event: ForwardEvent) -> (fault: Option<Error>)
        requires
            old(self).wf(),
        ensures
            final(self).wf(),
            ({
                let (n, out) = forward_next(old(self).state(), event);
                final(self).state() == n && match fault {
                    Some(e) => out == Some(e@),
                    None => out is None,
                }
            }),
    {
        match (self.phase, event) {
            (ForwardPhase::Waiting, ForwardEvent::IntervalPassed) => {
                self.phase = ForwardPhase::Reading { last: false };
                None
            },
            (ForwardPhase::Waiting, ForwardEvent::ShuttingDown) => {
                self.phase = ForwardPhase::Reading { last: true };
                None
            },
            (ForwardPhase::Reading { last }, ForwardEvent::Read(events)) => {
                if events.len() == 0 {
                    self.flushed(last);
                } else {
                    self.phase = ForwardPhase::Posting { last };
                    self.batch = events;
                }
                None
            },
            (ForwardPhase::Posting { last }, ForwardEvent::Answered { code, status }) => {
                match check_flush_answer(code, status.as_str()) {
                    Ok(_) => {
                        self.phase = ForwardPhase::Marking { last };
                        None
                    },
                    Err(e) => {
                        self.not_flushed(last);
                        Some(e)
                    },
                }
            },
            (ForwardPhase::Marking { last }, ForwardEvent::Marked) => {
                self.flushed(last);
                None
            },
            (ForwardPhase::Reading { last }, ForwardEvent::Failed(e)) => {
                self.not_flushed(last);
                Some(e)
            },
            (ForwardPhase::Posting { last }, ForwardEvent::Failed(e)) => {
                self.not_flushed(last);
                Some(e)
            },
            (ForwardPhase::Marking { last }, ForwardEvent::Failed(e)) => {
                self.not_flushed(last);
                Some(e)
            },
            (ForwardPhase::BackingOff { .. }, ForwardEvent::Rested) => {
                self.phase = ForwardPhase::Waiting;
                None
            },
            _ => None,
        }
    }
}

/// Twice a wait, up to a limit.
pub open spec fn doubled(wait: u64, limit: u64) -> u64 {
    if wait * 2 <= limit {
        (wait * 2) as u64
    } else {
        limit
    }
}

/// The wait after `failures` failures in a row.
pub open spec fn wait_after(failures: nat, first: u64, limit: u64) -> u64
    decreases failures,
{
    if failures == 0 {
        first
    } else {
        doubled(wait_after((failures - 1) as nat, first, limit), limit)
    }
}

/// However often an attempt fails, the wait never shrinks and never passes the
/// limit.
pub proof fn law_backoff_grows_to_its_limit(failures: nat, first: u64, limit: u64)
    requires
        first <= limit,
    ensures
        wait_after(failures, first, limit) <= wait_after(failures + 1, first, limit) <= limit,
    decreases failures,
{
    if failures > 0 {
        law_backoff_grows_to_its_limit((failures - 1) as nat, first, limit);
    }
}

/// Every stored event of a batch is marked, and nothing else: a batch of
/// numbered events gives exactly their numbers, in order.
pub proof fn law_a_batch_marks_its_events(events: Seq<AuditRow>)
    requires
        forall|i: int| 0 <= i < events.len() ==> (#[trigger] events[i]).id is Some,
    ensures
        batch_numbers(events) == Seq::new(events.len(), |i: int| events[i].id->0),
    decreases events.len(),
{
    if events.len() > 0 {
        law_a_batch_marks_its_events(events.drop_last());
    }
    assert(batch_numbers(events) =~= Seq::new(events.len(), |i: int| events[i].id->0));
}

/// Where a sequence of events takes the forwarder.
pub open spec fn forward_after(events: Seq<ForwardEvent>) -> ForwardState
    decreases events.len(),
{
    if events.len() == 0 {
        forward_start()
    } else {
        forward_next(forward_after(events.drop_last()), events.last()).0
    }
}

/// Whatever happens, in whatever order, the invariant is kept.
pub proof fn law_forwarder_keeps_its_bounds(events: Seq<ForwardEvent>)
    ensures
        forward_inv(forward_after(events)),
    decreases events.len(),
{
    if events.len() > 0 {
        law_forwarder_keeps_its_bounds(events.drop_last());
    }
}

/// No event is lost: only a batch that was posted and accepted is marked, whole
/// and as it was read. A flush that fails marks nothing, so its events are read
/// again.
pub proof fn law_only_accepted_events_are_marked(s: ForwardState, event: ForwardEvent)
    requires
        !(s.phase is Marking),
    ensures
        forward_next(s, event).0.phase is Marking ==> {
            &&& s.phase is Posting
            &&& event matches ForwardEvent::Answered { code, .. } && is_success_code(code)
            &&& forward_next(s, event).0.batch == s.batch
        },
        forward_next(s, event).0.phase is Posting && !(s.phase is Posting) ==> {
            &&& event matches ForwardEvent::Read(events) && forward_next(s, event).0.batch
                == events@
        },
        forward_next(s, event).1 is Some ==> forward_next(s, event).0.batch.len() == 0,
{
}

/// Whether the flush under way is the last one, or is over.
pub open spec fn ending(phase: ForwardPhase) -> bool {
    match phase {
        ForwardPhase::Reading { last } => last,
        ForwardPhase::Posting { last } => last,
        ForwardPhase::Marking { last } => last,
        ForwardPhase::Over => true,
        _ => false,
    }
}

/// At a shutdown one more flush is tried, and the forwarder ends with it,
/// whatever comes of it; without a shutdown it never ends.
pub proof fn law_shutdown_flushes_once_more(s: ForwardState, event: ForwardEvent)
    ensures
        s.phase == ForwardPhase::Waiting && event is ShuttingDown ==> forward_next(s, event).0.phase
            == (ForwardPhase::Reading { last: true }),
        ending(s.phase) ==> ending(forward_next(s, event).0.phase),
        ending(s.phase) && event is Failed ==> forward_next(s, event).0.phase
            == ForwardPhase::Over,
        !ending(s.phase) && ending(forward_next(s, event).0.phase) ==> event is ShuttingDown,
{
}

/// The forwarder after so many flushes in a row that failed.
pub open spec fn after_failed_flushes(failures: nat) -> ForwardState
    decreases failures,
{
    if failures == 0 {
        forward_start()
    } else {
        not_flushed(after_failed_flushes((failures - 1) as nat), false)
    }
}

/// The waits after failures double from one second to the limit of sixty.
pub proof fn law_failed_flushes_wait_longer(failures: nat)
    ensures
        after_failed_flushes(failures).backoff_sec == wait_after(
            failures,
            FIRST_BACKOFF_SEC,
            MAX_BACKOFF_SEC,
        ),
        failures > 0 ==> after_failed_flushes(failures).phase == (ForwardPhase::BackingOff {
            wait_sec: wait_after((failures - 1) as nat, FIRST_BACKOFF_SEC, MAX_BACKOFF_SEC),
        }),
    decreases failures,
{
    if failures > 0 {
        law_failed_flushes_wait_longer((failures - 1) as nat);
    }
}

/// An event reaches the control plane as it was kept: its time, its type, its
/// task, `null` where it has none, and its detail; and nothing else of it.
pub proof fn law_event_is_forwarded_whole(e: AuditRow, detail: JsonView, other: Seq<char>)
    requires
        other != "timestamp"@ && other != "event_type"@ && other != "task_id"@ && other
            != "detail"@,
    ensures
        ({
            let t = forwarded_event(e, detail);
            &&& t.field("timestamp"@) == Some(
                JsonView::Number(NumberView::Int(e.timestamp as int)),
            )
            &&& t.field("event_type"@) == Some(JsonView::Text(e.event_type@))
            &&& t.field("task_id"@) == Some(
                match e.task_id {
                    Some(id) => JsonView::Text(id@),
                    None => JsonView::Null,
                },
            )
            &&& t.field("detail"@) == Some(detail)
            &&& t.field(other) is None
        }),
{
    reveal_strlit("timestamp");
    reveal_strlit("event_type");
    reveal_strlit("task_id");
    reveal_strlit("detail");
    assert("timestamp"@.len() == 9);
    assert("event_type"@.len() == 10);
    assert("task_id"@.len() == 7);
    assert("detail"@.len() == 6);
}

/// A batch has every event that was read, in order, each with the detail that was
/// kept for it.
pub proof fn law_batch_has_every_event(events: Seq<AuditRow>, i: int)
    requires
        0 <= i < events.len(),
    ensures
        forwarded_batch(events).len() == events.len(),
        forwarded_batch(events)[i].field("detail"@) == Some(
            match json::parsed_text(events[i].detail_json@) {
                Ok(v) => v,
                Err(_) => JsonView::Null,
            },
        ),
        forwarded_batch(events)[i] == forwarded_event(events[i], detail_of(events[i].detail_json@)),
{
}

/// A number is marked exactly where an event of the batch has it.
pub proof fn law_marks_are_of_the_batch(events: Seq<AuditRow>, number: i64)
    ensures
        batch_numbers(events).contains(number) <==> exists|i: int|
            0 <= i < events.len() && (#[trigger] events[i]).id == Some(number),
    decreases events.len(),
{
    if events.len() > 0 {
        let front = events.drop_last();
        law_marks_are_of_the_batch(front, number);
        let all = batch_numbers(events);
        let some = batch_numbers(front);
        if some.contains(number) {
            let k = choose|k: int| 0 <= k < some.len() && some[k] == number;
            assert(all[k] == number);
        }
        if events.last().id == Some(number) {
            assert(all[all.len() - 1] == number);
            assert(events[events.len() - 1].id == Some(number));
        }
        if exists|i: int| 0 <= i < front.len() && (#[trigger] front[i]).id == Some(number) {
            let i = choose|i: int| 0 <= i < front.len() && (#[trigger] front[i]).id == Some(number);
            assert(events[i].id == Some(number));
        }
        if all.contains(number) {
            let k = choose|k: int| 0 <= k < all.len() && all[k] == number;
            if k < some.len() {
                assert(some[k] == number);
            }
        }
        if exists|i: int| 0 <= i < events.len() && (#[trigger] events[i]).id == Some(number) {
            let i = choose|i: int|
                0 <= i < events.len() && (#[trigger] events[i]).id == Some(number);
            if i < front.len() {
                assert(front[i].id == Some(number));
            }
        }
    }
}

/// A flush step by step: when the interval has passed or at a shutdown, events
/// are read; where there are any they are posted, and once they are accepted they
/// are marked. It has succeeded when they are marked or there are none, and
/// failed when any of these fails or the post is not answered with success. After
/// a failure the forwarder waits, a second at first and twice as long each time
/// up to a minute, and a success starts that over; the fault is handed back.
pub proof fn law_flush_takes_its_steps(s: ForwardState, event: ForwardEvent)
    requires
        forward_inv(s),
    ensures
        ({
            let (n, fault) = forward_next(s, event);
            let refused = s.phase is Posting && event is Answered && !(200 <= event->Answered_code
                < 300);
            let flushing = s.phase is Reading || s.phase is Posting || s.phase is Marking;
            let failed = (flushing && event is Failed) || refused;
            let succeeded = (s.phase is Reading && event is Read && event->Read_0@.len() == 0) || (
            s.phase is Marking && event is Marked);
            &&& n.phase is Reading && !(s.phase is Reading) <==> s.phase == ForwardPhase::Waiting
                && (event is IntervalPassed || event is ShuttingDown)
            &&& n.phase is Posting && !(s.phase is Posting) <==> s.phase is Reading && event is Read
                && event->Read_0@.len() > 0
            &&& n.phase is Marking && !(s.phase is Marking) <==> s.phase is Posting && event
                is Answered && 200 <= event->Answered_code < 300
            &&& (n.phase is Posting || n.phase is Marking) && n.phase != s.phase ==> ending(n.phase)
                == ending(s.phase)
            &&& fault is Some <==> failed
            &&& (failed && event is Failed) ==> fault == Some(event->Failed_0@)
            &&& refused ==> fault == Some(
                ErrorModel::Transport(
                    "audit endpoint returned HTTP "@ + event->Answered_status@,
                ),
            )
            &&& failed ==> n.phase == (if ending(s.phase) {
                ForwardPhase::Over
            } else {
                ForwardPhase::BackingOff { wait_sec: s.backoff_sec }
            })
            &&& failed ==> n.backoff_sec == (if s.backoff_sec <= 30 {
                (2 * s.backoff_sec) as u64
            } else {
                60
            })
            &&& succeeded ==> n.backoff_sec == 1 && n.phase == (if ending(s.phase) {
                ForwardPhase::Over
            } else {
                ForwardPhase::Waiting
            })
            &&& !failed && !succeeded ==> n.backoff_sec == s.backoff_sec
            &&& s.phase is BackingOff && event is Rested ==> n.phase == ForwardPhase::Waiting
            &&& s.phase == ForwardPhase::Over ==> n == s
        }),
{
}

} // verus!
