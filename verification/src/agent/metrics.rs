//! Counters of what the agent did, and how they are exported.

use crate::json::{Json, JsonObject, JsonView, NumberView};
use crate::protocol::task::TaskResultStatus;
use crate::text;
use vstd::prelude::*;
use vstd::string::*;

verus! {

/// What the agent has counted since it started.
#[derive(Debug, Clone, PartialEq)]
pub struct Metrics {
    pub tasks_received: u64,
    pub tasks_succeeded: u64,
    pub tasks_failed: u64,
    pub tasks_cancelled: u64,
    pub tasks_timed_out: u64,
    pub sidecar_calls: u64,
    pub sidecar_call_failures: u64,
    pub heartbeats_sent: u64,
    pub heartbeat_failures: u64,
    pub audit_events_recorded: u64,
    pub audit_events_forwarded: u64,
    pub credential_resolutions: u64,
    pub credential_failures: u64,
    pub config_reloads: u64,
    pub active_tasks: u64,
}

/// What is exported of one metric: its help, its type, its value.
pub open spec fn metric_text(
    name: Seq<char>,
    help: Seq<char>,
    kind: Seq<char>,
    value: u64,
) -> Seq<char> {
    "# HELP "@ + name + " "@ + help + "\n# TYPE "@ + name + " "@ + kind + "\n"@ + name + " "@
        + text::decimal(value as nat) + "\n"@
}

/// Exports one metric.
fn append_metric(out: &mut String, name: &str, help: &str, kind: &str, value: u64)
    ensures
        final(out)@ == old(out)@ + metric_text(name@, help@, kind@, value),
{
    let ghost before = out@;
    out.append("# HELP ");
    out.append(name);
    out.append(" ");
    out.append(help);
    out.append("\n# TYPE ");
    out.append(name);
    out.append(" ");
    out.append(kind);
    out.append("\n");
    out.append(name);
    out.append(" ");
    text::push_u64(out, value);
    out.append("\n");
    proof {
        assert(out@ =~= before + metric_text(name@, help@, kind@, value));
    }
}

/// What is exported of a counter.
pub open spec fn counter_text(name: Seq<char>, help: Seq<char>, value: u64) -> Seq<char> {
    metric_text(name, help, "counter"@, value)
}

impl Metrics {
    /// Nothing counted.
    pub open spec fn zero() -> Metrics {
        Metrics {
            tasks_received: 0,
            tasks_succeeded: 0,
            tasks_failed: 0,
            tasks_cancelled: 0,
            tasks_timed_out: 0,
            sidecar_calls: 0,
            sidecar_call_failures: 0,
            heartbeats_sent: 0,
            heartbeat_failures: 0,
            audit_events_recorded: 0,
            audit_events_forwarded: 0,
            credential_resolutions: 0,
            credential_failures: 0,
            config_reloads: 0,
            active_tasks: 0,
        }
    }

    /// Nothing counted.
    pub fn new() -> (r: Metrics)
        ensures
            r == Metrics::zero(),
    {
        Metrics {
            tasks_received: 0,
            tasks_succeeded: 0,
            tasks_failed: 0,
            tasks_cancelled: 0,
            tasks_timed_out: 0,
            sidecar_calls: 0,
            sidecar_call_failures: 0,
            heartbeats_sent: 0,
            heartbeat_failures: 0,
            audit_events_recorded: 0,
            audit_events_forwarded: 0,
            credential_resolutions: 0,
            credential_failures: 0,
            config_reloads: 0,
            active_tasks: 0,
        }
    }

    /// The counters once a result of this status has been counted. They start
    /// over after their largest value.
    pub open spec fn counted(self, status: TaskResultStatus) -> Metrics {
        match status {
            TaskResultStatus::Success => Metrics {
                tasks_succeeded: self.tasks_succeeded.wrapping_add(1),
                ..self
            },
            TaskResultStatus::Failed | TaskResultStatus::RolledBack => Metrics {
                tasks_failed: self.tasks_failed.wrapping_add(1),
                ..self
            },
            TaskResultStatus::Cancelled => Metrics {
                tasks_cancelled: self.tasks_cancelled.wrapping_add(1),
                ..self
            },
            TaskResultStatus::Timeout => Metrics {
                tasks_timed_out: self.tasks_timed_out.wrapping_add(1),
                ..self
            },
        }
    }

    /// Counts a result by its status.
    pub fn count_result(&mut self, status: TaskResultStatus)
        ensures
            *final(self) == old(self).counted(status),
    {
        match status {
            TaskResultStatus::Success => {
                self.tasks_succeeded = self.tasks_succeeded.wrapping_add(1);
            },
            TaskResultStatus::Failed | TaskResultStatus::RolledBack => {
                self.tasks_failed = self.tasks_failed.wrapping_add(1);
            },
            TaskResultStatus::Cancelled => {
                self.tasks_cancelled = self.tasks_cancelled.wrapping_add(1);
            },
            TaskResultStatus::Timeout => {
                self.tasks_timed_out = self.tasks_timed_out.wrapping_add(1);
            },
        }
    }

    /// The export in the text format of Prometheus: the counters, then the gauge
    /// of active tasks.
    pub open spec fn prometheus(&self) -> Seq<char> {
        counter_text(
            "vasal_tasks_received_total"@,
            "Total tasks received"@,
            self.tasks_received,
        ) + counter_text(
            "vasal_tasks_succeeded_total"@,
            "Total tasks completed successfully"@,
            self.tasks_succeeded,
        ) + counter_text(
            "vasal_tasks_failed_total"@,
            "Total tasks failed"@,
            self.tasks_failed,
        ) + counter_text(
            "vasal_tasks_cancelled_total"@,
            "Total tasks cancelled"@,
            self.tasks_cancelled,
        ) + counter_text(
            "vasal_tasks_timed_out_total"@,
            "Total tasks timed out"@,
            self.tasks_timed_out,
        ) + counter_text(
            "vasal_sidecar_calls_total"@,
            "Total sidecar IPC calls"@,
            self.sidecar_calls,
        ) + counter_text(
            "vasal_sidecar_call_failures_total"@,
            "Total sidecar IPC failures"@,
            self.sidecar_call_failures,
        ) + counter_text(
            "vasal_heartbeats_sent_total"@,
            "Total heartbeats sent"@,
            self.heartbeats_sent,
        ) + counter_text(
            "vasal_heartbeat_failures_total"@,
            "Total heartbeat failures"@,
            self.heartbeat_failures,
        ) + counter_text(
            "vasal_audit_events_recorded_total"@,
            "Total audit events recorded"@,
            self.audit_events_recorded,
        ) + counter_text(
            "vasal_audit_events_forwarded_total"@,
            "Total audit events forwarded"@,
            self.audit_events_forwarded,
        ) + counter_text(
            "vasal_credential_resolutions_total"@,
            "Total credential resolutions"@,
            self.credential_resolutions,
        ) + counter_text(
            "vasal_credential_failures_total"@,
            "Total credential resolution failures"@,
            self.credential_failures,
        ) + counter_text(
            "vasal_config_reloads_total"@,
            "Total config reloads via SIGHUP"@,
            self.config_reloads,
        ) + metric_text(
            "vasal_active_tasks"@,
            "Number of currently active tasks"@,
            "gauge"@,
            self.active_tasks,
        )
    }

    /// Exports in the text format of Prometheus.
    pub fn to_prometheus(&self) -> (r: String)
        ensures
            r@ == self.prometheus(),
    {
        let mut out: String = String::new();
        append_metric(
            &mut out,
            "vasal_tasks_received_total",
            "Total tasks received",
            "counter",
            self.tasks_received,
        );
        append_metric(
            &mut out,
            "vasal_tasks_succeeded_total",
            "Total tasks completed successfully",
            "counter",
            self.tasks_succeeded,
        );
        append_metric(
            &mut out,
            "vasal_tasks_failed_total",
            "Total tasks failed",
            "counter",
            self.tasks_failed,
        );
        append_metric(
            &mut out,
            "vasal_tasks_cancelled_total",
            "Total tasks cancelled",
            "counter",
            self.tasks_cancelled,
        );
        append_metric(
            &mut out,
            "vasal_tasks_timed_out_total",
            "Total tasks timed out",
            "counter",
            self.tasks_timed_out,
        );
        append_metric(
            &mut out,
            "vasal_sidecar_calls_total",
            "Total sidecar IPC calls",
            "counter",
            self.sidecar_calls,
        );
        append_metric(
            &mut out,
            "vasal_sidecar_call_failures_total",
            "Total sidecar IPC failures",
            "counter",
            self.sidecar_call_failures,
        );
        append_metric(
            &mut out,
            "vasal_heartbeats_sent_total",
            "Total heartbeats sent",
            "counter",
            self.heartbeats_sent,
        );
        append_metric(
            &mut out,
            "vasal_heartbeat_failures_total",
            "Total heartbeat failures",
            "counter",
            self.heartbeat_failures,
        );
        append_metric(
            &mut out,
            "vasal_audit_events_recorded_total",
            "Total audit events recorded",
            "counter",
            self.audit_events_recorded,
        );
        append_metric(
            &mut out,
            "vasal_audit_events_forwarded_total",
            "Total audit events forwarded",
            "counter",
            self.audit_events_forwarded,
        );
        append_metric(
            &mut out,
            "vasal_credential_resolutions_total",
            "Total credential resolutions",
            "counter",
            self.credential_resolutions,
        );
        append_metric(
            &mut out,
            "vasal_credential_failures_total",
            "Total credential resolution failures",
            "counter",
            self.credential_failures,
        );
        append_metric(
            &mut out,
            "vasal_config_reloads_total",
            "Total config reloads via SIGHUP",
            "counter",
            self.config_reloads,
        );
        append_metric(
            &mut out,
            "vasal_active_tasks",
            "Number of currently active tasks",
            "gauge",
            self.active_tasks,
        );
        proof {
            assert(out@ =~= self.prometheus());
        }
        out
    }

    /// The summary for the control plane.
    pub open spec fn summary(&self) -> JsonView {
        JsonView::Object(
            Map::<Seq<char>, JsonView>::empty()
                .insert("tasks_received"@, JsonView::Number(NumberView::Int(self.tasks_received as int)))
                .insert("tasks_succeeded"@, JsonView::Number(NumberView::Int(self.tasks_succeeded as int)))
                .insert("tasks_failed"@, JsonView::Number(NumberView::Int(self.tasks_failed as int)))
                .insert("tasks_cancelled"@, JsonView::Number(NumberView::Int(self.tasks_cancelled as int)))
                .insert("tasks_timed_out"@, JsonView::Number(NumberView::Int(self.tasks_timed_out as int)))
                .insert("sidecar_calls"@, JsonView::Number(NumberView::Int(self.sidecar_calls as int)))
                .insert("heartbeats_sent"@, JsonView::Number(NumberView::Int(self.heartbeats_sent as int)))
                .insert("audit_events_forwarded"@, JsonView::Number(NumberView::Int(self.audit_events_forwarded as int)))
                .insert("active_tasks"@, JsonView::Number(NumberView::Int(self.active_tasks as int))),
        )
    }

    /// Summarises for the control plane.
    pub fn to_json(&self) -> (r: Json)
        ensures
            r@ == self.summary(),
    {
        let mut o = JsonObject::new();
        o.set("tasks_received", Json::unsigned(self.tasks_received));
        o.set("tasks_succeeded", Json::unsigned(self.tasks_succeeded));
        o.set("tasks_failed", Json::unsigned(self.tasks_failed));
        o.set("tasks_cancelled", Json::unsigned(self.tasks_cancelled));
        o.set("tasks_timed_out", Json::unsigned(self.tasks_timed_out));
        o.set("sidecar_calls", Json::unsigned(self.sidecar_calls));
        o.set("heartbeats_sent", Json::unsigned(self.heartbeats_sent));
        o.set("audit_events_forwarded", Json::unsigned(self.audit_events_forwarded));
        o.set("active_tasks", Json::unsigned(self.active_tasks));
        o.finish()
    }
}

impl Default for Metrics {
    fn default() -> (r: Metrics)
        ensures
            r == Metrics::zero(),
    {
        Metrics::new()
    }
}

/// Where the export is written first, and where it is moved to.
pub fn textfile_paths(dir: &str) -> (r: (String, String))
    ensures
        r.0@ == text::joined_path(dir@, "vasal.prom.tmp"@),
        r.1@ == text::joined_path(dir@, "vasal.prom"@),
{
    (text::join_path(dir, "vasal.prom.tmp"), text::join_path(dir, "vasal.prom"))
}

/// A result is counted once, under its own status; a task that was rolled back
/// has failed. Nothing else is counted with it.
pub proof fn law_each_result_is_counted_once(m: Metrics, status: TaskResultStatus)
    ensures
        ({
            let n = m.counted(status);
            &&& n.tasks_succeeded == (if status is Success {
                m.tasks_succeeded.wrapping_add(1)
            } else {
                m.tasks_succeeded
            })
            &&& n.tasks_failed == (if status is Failed || status is RolledBack {
                m.tasks_failed.wrapping_add(1)
            } else {
                m.tasks_failed
            })
            &&& n.tasks_cancelled == (if status is Cancelled {
                m.tasks_cancelled.wrapping_add(1)
            } else {
                m.tasks_cancelled
            })
            &&& n.tasks_timed_out == (if status is Timeout {
                m.tasks_timed_out.wrapping_add(1)
            } else {
                m.tasks_timed_out
            })
            &&& n.tasks_received == m.tasks_received
            &&& n.sidecar_calls == m.sidecar_calls
            &&& n.sidecar_call_failures == m.sidecar_call_failures
            &&& n.heartbeats_sent == m.heartbeats_sent
            &&& n.heartbeat_failures == m.heartbeat_failures
            &&& n.audit_events_recorded == m.audit_events_recorded
            &&& n.audit_events_forwarded == m.audit_events_forwarded
            &&& n.credential_resolutions == m.credential_resolutions
            &&& n.credential_failures == m.credential_failures
            &&& n.config_reloads == m.config_reloads
            &&& n.active_tasks == m.active_tasks
        }),
{
}

/// The summary says of each of its counters what was counted.
pub proof fn law_summary_says_what_was_counted(m: Metrics)
    ensures
        ({
            let s = m.summary();
            let number = |n: u64| Some(JsonView::Number(NumberView::Int(n as int)));
            &&& s.field("tasks_received"@) == number(m.tasks_received)
            &&& s.field("tasks_succeeded"@) == number(m.tasks_succeeded)
            &&& s.field("tasks_failed"@) == number(m.tasks_failed)
            &&& s.field("tasks_cancelled"@) == number(m.tasks_cancelled)
            &&& s.field("tasks_timed_out"@) == number(m.tasks_timed_out)
            &&& s.field("sidecar_calls"@) == number(m.sidecar_calls)
            &&& s.field("heartbeats_sent"@) == number(m.heartbeats_sent)
            &&& s.field("audit_events_forwarded"@) == number(m.audit_events_forwarded)
            &&& s.field("active_tasks"@) == number(m.active_tasks)
        }),
{
    reveal_strlit("tasks_received");
    reveal_strlit("tasks_succeeded");
    reveal_strlit("tasks_failed");
    reveal_strlit("tasks_cancelled");
    reveal_strlit("tasks_timed_out");
    reveal_strlit("sidecar_calls");
    reveal_strlit("heartbeats_sent");
    reveal_strlit("audit_events_forwarded");
    reveal_strlit("active_tasks");
    assert("tasks_received"@.len() == 14);
    assert("tasks_succeeded"@.len() == 15);
    assert("tasks_failed"@.len() == 12);
    assert("tasks_cancelled"@.len() == 15);
    assert("tasks_timed_out"@.len() == 15);
    assert("sidecar_calls"@.len() == 13);
    assert("heartbeats_sent"@.len() == 15);
    assert("audit_events_forwarded"@.len() == 22);
    assert("active_tasks"@.len() == 12);
    assert("tasks_succeeded"@[6] == 's');
    assert("tasks_cancelled"@[6] == 'c');
    assert("tasks_timed_out"@[6] == 't');
    assert("heartbeats_sent"@[6] == 'e');
    assert("tasks_failed"@[0] == 't');
    assert("active_tasks"@[0] == 'a');
    assert("heartbeats_sent"@[0] == 'h');
}

/// Whether a text stands somewhere in another.
#[verifier::opaque]
pub open spec fn stands_in(part: Seq<char>, whole: Seq<char>) -> bool {
    exists|a: Seq<char>, b: Seq<char>| whole == #[trigger] (a + part + b)
}

/// What stands in one of two texts stands in them together.
proof fn lemma_stands_in_both(a: Seq<char>, b: Seq<char>)
    ensures
        forall|part: Seq<char>| #[trigger] stands_in(part, a) ==> stands_in(part, a + b),
        forall|part: Seq<char>| #[trigger] stands_in(part, b) ==> stands_in(part, a + b),
{
    reveal(stands_in);
    assert forall|part: Seq<char>| #[trigger] stands_in(part, a) implies stands_in(
        part,
        a + b,
    ) by {
        let (x, y) = choose|x: Seq<char>, y: Seq<char>| a == #[trigger] (x + part + y);
        assert(a + b =~= x + part + (y + b));
    }
    assert forall|part: Seq<char>| #[trigger] stands_in(part, b) implies stands_in(
        part,
        a + b,
    ) by {
        let (x, y) = choose|x: Seq<char>, y: Seq<char>| b == #[trigger] (x + part + y);
        assert(a + b =~= (a + x) + part + y);
    }
}

/// The line of a metric stands in what is exported of it, and so does its kind.
proof fn lemma_line_stands_in_metric(
    name: Seq<char>,
    help: Seq<char>,
    kind: Seq<char>,
    value: u64,
)
    ensures
        stands_in(
            "\n"@ + name + " "@ + text::decimal(value as nat) + "\n"@,
            metric_text(name, help, kind, value),
        ),
        stands_in("# TYPE "@ + name + " "@ + kind + "\n"@, metric_text(name, help, kind, value)),
{
    reveal(stands_in);
    reveal_strlit("\n");
    reveal_strlit("\n# TYPE ");
    reveal_strlit("# TYPE ");
    assert("\n# TYPE "@ =~= "\n"@ + "# TYPE "@);
    let whole = metric_text(name, help, kind, value);
    let line = "\n"@ + name + " "@ + text::decimal(value as nat) + "\n"@;
    let head = "# HELP "@ + name + " "@ + help + "\n# TYPE "@ + name + " "@ + kind;
    assert(whole =~= head + line + Seq::<char>::empty());
    let typed = "# TYPE "@ + name + " "@ + kind + "\n"@;
    let head = "# HELP "@ + name + " "@ + help + "\n"@;
    let rest = name + " "@ + text::decimal(value as nat) + "\n"@;
    assert(whole =~= head + typed + rest);
}

/// The export has a line for each counter that says what was counted, and one for
/// the gauge of active tasks.
pub proof fn law_export_says_what_was_counted(m: Metrics)
    ensures
        ({
            let line = |name: Seq<char>, value: u64|
                stands_in(
                    "\n"@ + name + " "@ + text::decimal(value as nat) + "\n"@,
                    m.prometheus(),
                );
            &&& line("vasal_tasks_received_total"@, m.tasks_received)
            &&& line("vasal_tasks_succeeded_total"@, m.tasks_succeeded)
            &&& line("vasal_tasks_failed_total"@, m.tasks_failed)
            &&& line("vasal_tasks_cancelled_total"@, m.tasks_cancelled)
            &&& line("vasal_tasks_timed_out_total"@, m.tasks_timed_out)
            &&& line("vasal_sidecar_calls_total"@, m.sidecar_calls)
            &&& line("vasal_sidecar_call_failures_total"@, m.sidecar_call_failures)
            &&& line("vasal_heartbeats_sent_total"@, m.heartbeats_sent)
            &&& line("vasal_heartbeat_failures_total"@, m.heartbeat_failures)
            &&& line("vasal_audit_events_recorded_total"@, m.audit_events_recorded)
            &&& line("vasal_audit_events_forwarded_total"@, m.audit_events_forwarded)
            &&& line("vasal_credential_resolutions_total"@, m.credential_resolutions)
            &&& line("vasal_credential_failures_total"@, m.credential_failures)
            &&& line("vasal_config_reloads_total"@, m.config_reloads)
            &&& line("vasal_active_tasks"@, m.active_tasks)
            &&& stands_in("# TYPE "@ + "vasal_active_tasks"@ + " "@ + "gauge"@ + "\n"@, m.prometheus())
        }),
{
    let t0 = metric_text("vasal_tasks_received_total"@, "Total tasks received"@, "counter"@, m.tasks_received);
    lemma_line_stands_in_metric("vasal_tasks_received_total"@, "Total tasks received"@, "counter"@, m.tasks_received);
    let p0 = t0;
    let t1 = metric_text("vasal_tasks_succeeded_total"@, "Total tasks completed successfully"@, "counter"@, m.tasks_succeeded);
    lemma_line_stands_in_metric("vasal_tasks_succeeded_total"@, "Total tasks completed successfully"@, "counter"@, m.tasks_succeeded);
    let p1 = p0 + t1;
    lemma_stands_in_both(p0, t1);
    let t2 = metric_text("vasal_tasks_failed_total"@, "Total tasks failed"@, "counter"@, m.tasks_failed);
    lemma_line_stands_in_metric("vasal_tasks_failed_total"@, "Total tasks failed"@, "counter"@, m.tasks_failed);
    let p2 = p1 + t2;
    lemma_stands_in_both(p1, t2);
    let t3 = metric_text("vasal_tasks_cancelled_total"@, "Total tasks cancelled"@, "counter"@, m.tasks_cancelled);
    lemma_line_stands_in_metric("vasal_tasks_cancelled_total"@, "Total tasks cancelled"@, "counter"@, m.tasks_cancelled);
    let p3 = p2 + t3;
    lemma_stands_in_both(p2, t3);
    let t4 = metric_text("vasal_tasks_timed_out_total"@, "Total tasks timed out"@, "counter"@, m.tasks_timed_out);
    lemma_line_stands_in_metric("vasal_tasks_timed_out_total"@, "Total tasks timed out"@, "counter"@, m.tasks_timed_out);
    let p4 = p3 + t4;
    lemma_stands_in_both(p3, t4);
    let t5 = metric_text("vasal_sidecar_calls_total"@, "Total sidecar IPC calls"@, "counter"@, m.sidecar_calls);
    lemma_line_stands_in_metric("vasal_sidecar_calls_total"@, "Total sidecar IPC calls"@, "counter"@, m.sidecar_calls);
    let p5 = p4 + t5;
    lemma_stands_in_both(p4, t5);
    let t6 = metric_text("vasal_sidecar_call_failures_total"@, "Total sidecar IPC failures"@, "counter"@, m.sidecar_call_failures);
    lemma_line_stands_in_metric("vasal_sidecar_call_failures_total"@, "Total sidecar IPC failures"@, "counter"@, m.sidecar_call_failures);
    let p6 = p5 + t6;
    lemma_stands_in_both(p5, t6);
    let t7 = metric_text("vasal_heartbeats_sent_total"@, "Total heartbeats sent"@, "counter"@, m.heartbeats_sent);
    lemma_line_stands_in_metric("vasal_heartbeats_sent_total"@, "Total heartbeats sent"@, "counter"@, m.heartbeats_sent);
    let p7 = p6 + t7;
    lemma_stands_in_both(p6, t7);
    let t8 = metric_text("vasal_heartbeat_failures_total"@, "Total heartbeat failures"@, "counter"@, m.heartbeat_failures);
    lemma_line_stands_in_metric("vasal_heartbeat_failures_total"@, "Total heartbeat failures"@, "counter"@, m.heartbeat_failures);
    let p8 = p7 + t8;
    lemma_stands_in_both(p7, t8);
    let t9 = metric_text("vasal_audit_events_recorded_total"@, "Total audit events recorded"@, "counter"@, m.audit_events_recorded);
    lemma_line_stands_in_metric("vasal_audit_events_recorded_total"@, "Total audit events recorded"@, "counter"@, m.audit_events_recorded);
    let p9 = p8 + t9;
    lemma_stands_in_both(p8, t9);
    let t10 = metric_text("vasal_audit_events_forwarded_total"@, "Total audit events forwarded"@, "counter"@, m.audit_events_forwarded);
    lemma_line_stands_in_metric("vasal_audit_events_forwarded_total"@, "Total audit events forwarded"@, "counter"@, m.audit_events_forwarded);
    let p10 = p9 + t10;
    lemma_stands_in_both(p9, t10);
    let t11 = metric_text("vasal_credential_resolutions_total"@, "Total credential resolutions"@, "counter"@, m.credential_resolutions);
    lemma_line_stands_in_metric("vasal_credential_resolutions_total"@, "Total credential resolutions"@, "counter"@, m.credential_resolutions);
    let p11 = p10 + t11;
    lemma_stands_in_both(p10, t11);
    let t12 = metric_text("vasal_credential_failures_total"@, "Total credential resolution failures"@, "counter"@, m.credential_failures);
    lemma_line_stands_in_metric("vasal_credential_failures_total"@, "Total credential resolution failures"@, "counter"@, m.credential_failures);
    let p12 = p11 + t12;
    lemma_stands_in_both(p11, t12);
    let t13 = metric_text("vasal_config_reloads_total"@, "Total config reloads via SIGHUP"@, "counter"@, m.config_reloads);
    lemma_line_stands_in_metric("vasal_config_reloads_total"@, "Total config reloads via SIGHUP"@, "counter"@, m.config_reloads);
    let p13 = p12 + t13;
    lemma_stands_in_both(p12, t13);
    let t14 = metric_text("vasal_active_tasks"@, "Number of currently active tasks"@, "gauge"@, m.active_tasks);
    lemma_line_stands_in_metric("vasal_active_tasks"@, "Number of currently active tasks"@, "gauge"@, m.active_tasks);
    let p14 = p13 + t14;
    lemma_stands_in_both(p13, t14);
    assert(m.prometheus() == p14);
}

/// At first nothing has been counted.
pub proof fn law_counters_start_at_zero()
    ensures
        ({
            let m = Metrics::zero();
            &&& m.tasks_received == 0 && m.tasks_succeeded == 0 && m.tasks_failed == 0
            &&& m.tasks_cancelled == 0 && m.tasks_timed_out == 0
            &&& m.sidecar_calls == 0 && m.sidecar_call_failures == 0
            &&& m.heartbeats_sent == 0 && m.heartbeat_failures == 0
            &&& m.audit_events_recorded == 0 && m.audit_events_forwarded == 0
            &&& m.credential_resolutions == 0 && m.credential_failures == 0
            &&& m.config_reloads == 0 && m.active_tasks == 0
        }),
{
}

} // verus!
