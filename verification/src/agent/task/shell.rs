//! Shell tasks: the command that is run and the result it ends in.

use crate::agent::error::joined;
use crate::agent::task::router::{self, make_result, Timing};
use crate::ids::Uuid;
use crate::json::JsonView;
use crate::protocol::task::{ExecTask, TaskResult, TaskResultModel, TaskResultStatus};
use crate::string_map::StringMap;
use crate::text;
use crate::wire::Wire;
use vstd::prelude::*;
use vstd::string::*;
use vstd::utf8::*;

verus! {

/// Bytes of each output stream that are kept: 1 MiB.
pub const MAX_OUTPUT_SIZE: usize = 1_048_576;

/// The text of bytes that should be UTF-8, with what is not replaced.
pub uninterp spec fn lossy_text(bytes: Seq<u8>) -> Seq<char>;

/// `String::from_utf8_lossy`: the text of the bytes, by the bytes alone; valid
/// UTF-8 is taken as it is.
#[verifier::external_body]
pub(crate) fn from_utf8_lossy(bytes: &[u8]) -> (r: String)
    ensures
        r@ == lossy_text(bytes@),
        valid_utf8(bytes@) ==> r@ == decode_utf8(bytes@),
{
    String::from_utf8_lossy(bytes).into_owned()
}

/// An output stream as it is reported: in full up to the limit, cut and marked
/// beyond it.
pub open spec fn kept_output(bytes: Seq<u8>) -> Seq<char> {
    if bytes.len() <= MAX_OUTPUT_SIZE {
        lossy_text(bytes)
    } else {
        lossy_text(bytes.take(MAX_OUTPUT_SIZE as int)) + "\n... [truncated]"@
    }
}

/// Cuts an output stream to what is reported of it.
pub fn truncate_output(bytes: &[u8]) -> (r: String)
    ensures
        r@ == kept_output(bytes@),
        bytes@.len() <= MAX_OUTPUT_SIZE && valid_utf8(bytes@) ==> r@ == decode_utf8(bytes@),
{
    if bytes.len() <= MAX_OUTPUT_SIZE {
        from_utf8_lossy(bytes)
    } else {
        let head = vstd::slice::slice_subrange(bytes, 0, MAX_OUTPUT_SIZE);
        proof {
            assert(head@ =~= bytes@.take(MAX_OUTPUT_SIZE as int));
        }
        let mut s: String = from_utf8_lossy(head);
        s.append("\n... [truncated]");
        s
    }
}

/// A process to start.
#[derive(Debug)]
pub struct ShellCommand {
    /// The program.
    pub program: String,
    /// Its arguments.
    pub args: Vec<String>,
    /// What is added to its environment.
    pub env: StringMap,
    /// Where it runs; nowhere in particular if nothing is said.
    pub working_dir: Option<String>,
    /// Milliseconds it may take.
    pub timeout_ms: u64,
}

/// What is said of a shell task without a script.
pub open spec fn no_script_text() -> Seq<char> {
    "missing 'script' field in payload"@
}

/// Whether a command is the one for a task: the shell runs the task's script,
/// credentials reach it in the environment alone, and it runs where the payload
/// says or else in the default directory.
pub open spec fn is_command_for(
    c: ShellCommand,
    payload: JsonView,
    script: Seq<char>,
    creds: Map<Seq<char>, Seq<char>>,
    default_dir: Option<Seq<char>>,
    timeout_ms: u64,
) -> bool {
    &&& c.program@ == "/bin/sh"@
    &&& c.args@.len() == 2
    &&& c.args@[0]@ == "-c"@
    &&& c.args@[1]@ == script
    &&& c.env@ == creds
    &&& c.timeout_ms == timeout_ms
    &&& match (c.working_dir, payload.text_field("working_dir"@)) {
        (Some(d), Some(named)) => d@ == named,
        (Some(d), None) => default_dir == Some(d@),
        (None, Some(_)) => false,
        (None, None) => default_dir is None,
    }
}

/// The command for a shell task, or the result of a task that has no script.
pub fn prepare(
    exec: &ExecTask,
    creds: &StringMap,
    default_dir: Option<&str>,
    timing: Timing,
) -> (r: Result<ShellCommand, TaskResult>)
    ensures
        match exec.payload@.text_field("script"@) {
            Some(script) => r is Ok && is_command_for(
                r->Ok_0,
                exec.payload@,
                script,
                creds@,
                match default_dir {
                    Some(d) => Some(d@),
                    None => None,
                },
                exec.timeout_ms,
            ),
            None => r is Err && r->Err_0.model() == router::result_of(
                exec.id,
                TaskResultStatus::Failed,
                None,
                Seq::empty(),
                no_script_text(),
                timing,
                Some(no_script_text()),
            ),
        },
{
    let script = match exec.payload.get_str("script") {
        Some(s) => s,
        None => {
            let missing = "missing 'script' field in payload";
            return Err(
                make_result(
                    exec.id,
                    TaskResultStatus::Failed,
                    None,
                    String::new(),
                    missing.to_owned(),
                    timing,
                    Some(missing.to_owned()),
                ),
            );
        },
    };
    let working_dir = match exec.payload.get_str("working_dir") {
        Some(d) => Some(d.to_owned()),
        None => match default_dir {
            Some(d) => Some(d.to_owned()),
            None => None,
        },
    };
    let mut args: Vec<String> = Vec::new();
    args.push("-c".to_owned());
    args.push(script.to_owned());
    Ok(
        ShellCommand {
            program: "/bin/sh".to_owned(),
            args,
            env: creds.duplicate(),
            working_dir,
            timeout_ms: exec.timeout_ms,
        },
    )
}

/// How a shell process fared. Of a cancellation, a timeout and an exit that come
/// together, the earlier named counts.
#[derive(Debug)]
pub enum ShellOutcome {
    /// It was cancelled and killed.
    Cancelled,
    /// It took too long and was killed.
    TimedOut,
    /// It ended, with the given code unless a signal ended it.
    Exited { code: Option<i32>, stdout: Vec<u8>, stderr: Vec<u8> },
    /// It could not be started.
    SpawnFailed(String),
    /// It could not be waited for.
    WaitFailed(String),
}

/// The text for a task that took too long.
pub open spec fn timeout_text(timeout_ms: u64) -> Seq<char> {
    "timeout after "@ + text::decimal(timeout_ms as nat) + "ms"@
}

/// The result that an outcome amounts to.
pub open spec fn outcome_of(
    task_id: Uuid,
    timeout_ms: u64,
    outcome: ShellOutcome,
    timing: Timing,
) -> TaskResultModel {
    let none = Seq::<char>::empty();
    match outcome {
        ShellOutcome::Cancelled => router::result_of(
            task_id,
            TaskResultStatus::Cancelled,
            None,
            none,
            none,
            timing,
            None,
        ),
        ShellOutcome::TimedOut => router::result_of(
            task_id,
            TaskResultStatus::Timeout,
            None,
            none,
            none,
            timing,
            Some(timeout_text(timeout_ms)),
        ),
        ShellOutcome::Exited { code, stdout, stderr } => {
            let shown = match code {
                Some(c) => c,
                None => -1i32,
            };
            let succeeded = code == Some(0i32);
            router::result_of(
                task_id,
                if succeeded {
                    TaskResultStatus::Success
                } else {
                    TaskResultStatus::Failed
                },
                Some(shown),
                kept_output(stdout@),
                kept_output(stderr@),
                timing,
                if succeeded {
                    None
                } else {
                    Some("exit code "@ + text::signed_decimal(shown as int))
                },
            )
        },
        ShellOutcome::SpawnFailed(e) => router::result_of(
            task_id,
            TaskResultStatus::Failed,
            None,
            none,
            e@,
            timing,
            Some("failed to spawn shell: "@ + e@),
        ),
        ShellOutcome::WaitFailed(e) => router::result_of(
            task_id,
            TaskResultStatus::Failed,
            None,
            none,
            e@,
            timing,
            Some("failed to wait for shell: "@ + e@),
        ),
    }
}

/// Words the timeout of a task.
pub fn timeout_message(timeout_ms: u64) -> (r: String)
    ensures
        r@ == timeout_text(timeout_ms),
{
    let mut s: String = "timeout after ".to_owned();
    text::push_u64(&mut s, timeout_ms);
    s.append("ms");
    s
}

/// The result that an outcome amounts to.
pub fn conclude(task_id: Uuid, timeout_ms: u64, outcome: ShellOutcome, timing: Timing) -> (r:
    TaskResult)
    ensures
        r.model() == outcome_of(task_id, timeout_ms, outcome, timing),
        outcome matches ShellOutcome::Exited { code, stdout, stderr } ==> {
            &&& stdout@.len() <= MAX_OUTPUT_SIZE && valid_utf8(stdout@) ==> r.stdout@
                == decode_utf8(stdout@)
            &&& stderr@.len() <= MAX_OUTPUT_SIZE && valid_utf8(stderr@) ==> r.stderr@
                == decode_utf8(stderr@)
            &&& code matches Some(c) ==> r.exit_code == Some(c)
        },
{
    let none: String = String::new();
    match outcome {
        ShellOutcome::Cancelled => make_result(
            task_id,
            TaskResultStatus::Cancelled,
            None,
            none,
            String::new(),
            timing,
            None,
        ),
        ShellOutcome::TimedOut => make_result(
            task_id,
            TaskResultStatus::Timeout,
            None,
            none,
            String::new(),
            timing,
            Some(timeout_message(timeout_ms)),
        ),
        ShellOutcome::Exited { code, stdout, stderr } => {
            let shown: i32 = match code {
                Some(c) => c,
                None => -1,
            };
            let succeeded = match code {
                Some(c) => c == 0,
                None => false,
            };
            let out = truncate_output(stdout.as_slice());
            let err = truncate_output(stderr.as_slice());
            if succeeded {
                make_result(
                    task_id,
                    TaskResultStatus::Success,
                    Some(shown),
                    out,
                    err,
                    timing,
                    None,
                )
            } else {
                let mut why: String = "exit code ".to_owned();
                text::push_i64(&mut why, shown as i64);
                make_result(
                    task_id,
                    TaskResultStatus::Failed,
                    Some(shown),
                    out,
                    err,
                    timing,
                    Some(why),
                )
            }
        },
        ShellOutcome::SpawnFailed(e) => {
            let why = joined("failed to spawn shell: ", e.as_str());
            make_result(task_id, TaskResultStatus::Failed, None, none, e, timing, Some(why))
        },
        ShellOutcome::WaitFailed(e) => {
            let why = joined("failed to wait for shell: ", e.as_str());
            make_result(task_id, TaskResultStatus::Failed, None, none, e, timing, Some(why))
        },
    }
}

/// A shell task succeeds exactly when its process exits with code zero.
pub proof fn law_success_is_exit_code_zero(
    task_id: Uuid,
    timeout_ms: u64,
    outcome: ShellOutcome,
    timing: Timing,
)
    ensures
        outcome_of(task_id, timeout_ms, outcome, timing).status == TaskResultStatus::Success <==> (
        outcome matches ShellOutcome::Exited { code, .. } && code == Some(0i32)),
        outcome_of(task_id, timeout_ms, outcome, timing).error is None <==> (
        outcome is Cancelled || (outcome matches ShellOutcome::Exited { code, .. } && code == Some(
            0i32,
        ))),
{
}

/// What two tasks with the same payload pass to the shell as arguments is the
/// same whatever their credentials are: no credential shows in the process list.
pub proof fn law_credentials_stay_out_of_the_arguments(
    a: ShellCommand,
    b: ShellCommand,
    payload: JsonView,
    script: Seq<char>,
    creds_a: Map<Seq<char>, Seq<char>>,
    creds_b: Map<Seq<char>, Seq<char>>,
    default_dir: Option<Seq<char>>,
    timeout_ms: u64,
)
    requires
        is_command_for(a, payload, script, creds_a, default_dir, timeout_ms),
        is_command_for(b, payload, script, creds_b, default_dir, timeout_ms),
    ensures
        a.program@ == b.program@,
        a.args@.len() == b.args@.len(),
        forall|i: int| 0 <= i < a.args@.len() ==> (#[trigger] a.args@[i])@ == b.args@[i]@,
        a.env@ == creds_a,
        b.env@ == creds_b,
{
    assert forall|i: int| 0 <= i < a.args@.len() implies (#[trigger] a.args@[i])@ == b.args@[i]@ by {
        assert(i == 0 || i == 1);
    }
}

/// Whatever a process exits with, its result carries what it printed: either
/// stream in full up to one MiB, and its beginning and a mark beyond that; and the
/// code it exited with, or -1 where a signal ended it. The result is that of the
/// task, outside any chain, with the time that it took.
pub proof fn law_output_is_reported_for_every_exit(
    task_id: Uuid,
    timeout_ms: u64,
    code: Option<i32>,
    stdout: Vec<u8>,
    stderr: Vec<u8>,
    timing: Timing,
)
    ensures
        ({
            let r = outcome_of(
                task_id,
                timeout_ms,
                ShellOutcome::Exited { code, stdout, stderr },
                timing,
            );
            let limit = 1_048_576int;
            let shown = match code {
                Some(c) => c as int,
                None => -1,
            };
            &&& stdout@.len() <= limit ==> r.stdout == lossy_text(stdout@)
            &&& stderr@.len() <= limit ==> r.stderr == lossy_text(stderr@)
            &&& stdout@.len() > limit ==> r.stdout == lossy_text(stdout@.take(limit))
                + "\n... [truncated]"@
            &&& stderr@.len() > limit ==> r.stderr == lossy_text(stderr@.take(limit))
                + "\n... [truncated]"@
            &&& r.exit_code is Some
            &&& r.exit_code->0 == shown
            &&& code == Some(0i32) ==> r.status == TaskResultStatus::Success && r.error is None
            &&& code != Some(0i32) ==> r.status == TaskResultStatus::Failed && r.error == Some(
                "exit code "@ + text::signed_decimal(shown),
            )
        }),
{
}

/// What was cancelled, took too long or never ran printed nothing that is
/// reported and has no exit code, and the result says which of these it was and,
/// where something went wrong, what.
pub proof fn law_other_ends_are_told_apart(
    task_id: Uuid,
    timeout_ms: u64,
    outcome: ShellOutcome,
    timing: Timing,
)
    ensures
        ({
            let r = outcome_of(task_id, timeout_ms, outcome, timing);
            &&& r.task_id == task_id
            &&& r.chain_id is None
            &&& r.step_index is None
            &&& r.duration_ms == timing.elapsed_ms
            &&& r.timestamp == timing.timestamp
            &&& r.status == TaskResultStatus::Cancelled <==> outcome is Cancelled
            &&& r.status == TaskResultStatus::Timeout <==> outcome is TimedOut
            &&& r.status != TaskResultStatus::RolledBack
            &&& !(outcome is Exited) ==> r.exit_code is None && r.stdout.len() == 0
            &&& outcome is Cancelled ==> r.stderr.len() == 0 && r.error is None
            &&& outcome is TimedOut ==> r.stderr.len() == 0 && r.error == Some(
                "timeout after "@ + text::decimal(timeout_ms as nat) + "ms"@,
            )
            &&& outcome matches ShellOutcome::SpawnFailed(e) ==> r.stderr == e@ && r.error == Some(
                "failed to spawn shell: "@ + e@,
            ) && r.status == TaskResultStatus::Failed
            &&& outcome matches ShellOutcome::WaitFailed(e) ==> r.stderr == e@ && r.error == Some(
                "failed to wait for shell: "@ + e@,
            ) && r.status == TaskResultStatus::Failed
        }),
{
}

/// The command for a task says what the task says: `/bin/sh -c` with the script
/// as it is, the credentials as its environment, the task's own time limit, and
/// the directory that the payload names before the default one.
pub proof fn law_command_says_what_the_task_says(
    c: ShellCommand,
    payload: JsonView,
    script: Seq<char>,
    creds: Map<Seq<char>, Seq<char>>,
    default_dir: Option<Seq<char>>,
    timeout_ms: u64,
)
    requires
        is_command_for(c, payload, script, creds, default_dir, timeout_ms),
    ensures
        c.program@ == "/bin/sh"@,
        text::texts(c.args@) == seq!["-c"@, script],
        c.env@ == creds,
        c.timeout_ms == timeout_ms,
        payload.text_field("working_dir"@) is Some ==> c.working_dir is Some && c.working_dir->0@
            == payload.text_field("working_dir"@)->0,
        payload.text_field("working_dir"@) is None ==> (c.working_dir is Some <==> default_dir
            is Some) && (c.working_dir is Some ==> c.working_dir->0@ == default_dir->0),
{
    assert(text::texts(c.args@) =~= seq!["-c"@, script]);
}

} // verus!
