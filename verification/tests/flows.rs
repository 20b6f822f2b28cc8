//! Tasks from the control plane's order to their result. A stand-in shell knows
//! a few commands; sidecars are called over real frames.

use bytes::{Bytes, BytesMut};
use vasal::agent::error::Error;
use vasal::agent::task::chain::{ChainAction, ChainEvent, ChainRun};
use vasal::agent::task::continuous::{ContinuousEvent, ContinuousPhase, ContinuousRun};
use vasal::agent::task::manager::{AuditNote, EndEffect, Next, TaskManager};
use vasal::agent::task::router::{plan_exec, ExecPlan, Timing};
use vasal::agent::task::shell::{conclude, prepare, ShellCommand, ShellOutcome};
use vasal::agent::task::sidecar::{
    build_params, read_response, request_bytes, SidecarAction, SidecarEvent, SidecarRun,
};
use vasal::ids::Uuid;
use vasal::json::{parse_text, Json};
use vasal::protocol::jsonrpc::Response;
use vasal::protocol::task::{
    CancelTask, ChainStep, ExecKind, ExecTask, Executor, Priority, RollbackStrategy, Task,
    TaskChain, TaskResult, TaskResultStatus,
};
use vasal::sdk::codec::LengthPrefixCodec;
use vasal::sdk::server::SidecarServer;
use vasal::sidecars::echo_ctrl::EchoHandler;
use vasal::string_map::StringMap;
use vasal::wire::encode_bytes;

const AT: Timing = Timing { elapsed_ms: 3, timestamp: 1_000 };

fn task(id: u128, executor: Executor, payload: &str) -> ExecTask {
    ExecTask {
        id: Uuid::from_u128(id),
        priority: Priority::Normal,
        tags: StringMap::new(),
        kind: ExecKind::Oneshot,
        executor,
        target: None,
        method: None,
        payload: parse_text(payload).unwrap(),
        interval_ms: None,
        timeout_ms: 5000,
        credentials: vec![],
    }
}

fn make_exec(script: &str) -> ExecTask {
    let payload = Json::Object(vec![("script".into(), Json::text(script))]);
    ExecTask { payload, ..task(7, Executor::Shell, "null") }
}

/// What the stand-in shell does with a command, and the files it leaves.
fn shell(command: &ShellCommand, files: &mut Vec<String>) -> ShellOutcome {
    assert_eq!(command.program, "/bin/sh");
    assert_eq!(command.args[0], "-c");
    let script = command.args[1].as_str();
    let exited = |code, out: String, err: String| ShellOutcome::Exited {
        code: Some(code),
        stdout: out.into_bytes(),
        stderr: err.into_bytes(),
    };
    if let Some(code) = script.strip_prefix("exit ") {
        exited(code.parse().unwrap(), String::new(), String::new())
    } else if let Some(file) = script.strip_prefix("touch ") {
        files.push(file.to_string());
        exited(0, String::new(), String::new())
    } else if let Some(name) = script.strip_prefix("echo $") {
        exited(0, format!("{}\n", command.env.get(name).unwrap()), String::new())
    } else if let Some(text) = script.strip_suffix(" >&2") {
        exited(0, String::new(), format!("{}\n", &text["echo ".len()..]))
    } else if let Some(text) = script.strip_prefix("echo ") {
        exited(0, format!("{text}\n"), String::new())
    } else if script == "sleep 60" {
        ShellOutcome::TimedOut
    } else {
        exited(127, String::new(), "not found".into())
    }
}

fn execute(exec: &ExecTask, creds: &StringMap, files: &mut Vec<String>) -> TaskResult {
    let command = match prepare(exec, creds, None, AT) {
        Ok(c) => c,
        Err(result) => return result,
    };
    let outcome = shell(&command, files);
    conclude(exec.id, command.timeout_ms, outcome, AT)
}

fn run(script: &str) -> TaskResult {
    execute(&make_exec(script), &StringMap::new(), &mut vec![])
}

#[test]
fn echo_hello() {
    let result = run("echo hello");
    assert_eq!(result.status, TaskResultStatus::Success);
    assert_eq!(result.exit_code, Some(0));
    assert_eq!(result.stdout.trim(), "hello");
}

#[test]
fn exit_code_propagated() {
    let result = run("exit 42");
    assert_eq!(result.status, TaskResultStatus::Failed);
    assert_eq!(result.exit_code, Some(42));
}

#[test]
fn timeout_kills_process() {
    let mut exec = make_exec("sleep 60");
    exec.timeout_ms = 100;
    let result = execute(&exec, &StringMap::new(), &mut vec![]);
    assert_eq!(result.status, TaskResultStatus::Timeout);
    assert_eq!(result.error.as_deref(), Some("timeout after 100ms"));
}

#[test]
fn cancellation() {
    let exec = make_exec("sleep 60");
    let result = conclude(exec.id, 60000, ShellOutcome::Cancelled, AT);
    assert_eq!(result.status, TaskResultStatus::Cancelled);
}

#[test]
fn credentials_as_env_vars() {
    let mut creds = StringMap::new();
    creds.insert("DB_PASSWORD".into(), "secret123".into());
    let result = execute(&make_exec("echo $DB_PASSWORD"), &creds, &mut vec![]);
    assert_eq!(result.status, TaskResultStatus::Success);
    assert_eq!(result.stdout.trim(), "secret123");
}

#[test]
fn missing_script_field() {
    let exec = task(7, Executor::Shell, r#"{"command":"echo hi"}"#);
    let result = execute(&exec, &StringMap::new(), &mut vec![]);
    assert_eq!(result.status, TaskResultStatus::Failed);
    assert!(result.error.unwrap().contains("missing 'script'"));
}

#[test]
fn stderr_captured() {
    let result = run("echo error >&2");
    assert_eq!(result.status, TaskResultStatus::Success);
    assert_eq!(result.stderr.trim(), "error");
}

fn step(script: &str, rollback: Option<&str>) -> ChainStep {
    ChainStep { task: make_exec(script), rollback: rollback.map(make_exec) }
}

fn run_chain(on_failure: RollbackStrategy, steps: Vec<ChainStep>) -> (Vec<TaskResult>, Vec<String>) {
    let chain = TaskChain { id: Uuid::from_u128(9), steps, on_failure, tags: StringMap::new() };
    let mut run = ChainRun::new(chain);
    let mut files = vec![];
    let none = StringMap::new();
    loop {
        let steps = &run.task_chain().steps;
        let event = match run.action() {
            ChainAction::Begin => ChainEvent::Begun,
            ChainAction::ResolveStep { .. } | ChainAction::ResolveRollback { .. } => {
                ChainEvent::Resolved
            }
            ChainAction::RunStep { step } => {
                ChainEvent::Finished(execute(&steps[step].task, &none, &mut files))
            }
            ChainAction::RunRollback { step } => {
                let undo = steps[step].rollback.as_ref().unwrap();
                ChainEvent::Finished(execute(undo, &none, &mut files))
            }
            ChainAction::Finish => return (run.into_results(), files),
        };
        run.on_event(event, false, 1);
    }
}

#[test]
fn all_steps_succeed() {
    let (results, _) = run_chain(
        RollbackStrategy::RollbackAll,
        vec![step("echo step1", None), step("echo step2", None), step("echo step3", None)],
    );
    assert_eq!(results.len(), 3);
    for r in &results {
        assert_eq!(r.status, TaskResultStatus::Success);
        assert_eq!(r.chain_id, Some(Uuid::from_u128(9)));
    }
    assert_eq!(results[0].step_index, Some(0));
    assert_eq!(results[1].step_index, Some(1));
    assert_eq!(results[2].step_index, Some(2));
}

#[test]
fn step_fails_aborts_chain() {
    let (results, _) = run_chain(
        RollbackStrategy::RollbackFailed,
        vec![
            step("echo step1", Some("echo rollback1")),
            step("exit 1", Some("echo rollback2")),
            step("echo step3", None),
        ],
    );
    assert_eq!(results.len(), 2);
    assert_eq!(results[0].status, TaskResultStatus::Success);
    assert_eq!(results[1].status, TaskResultStatus::Failed);
}

#[test]
fn chain_rollback_all_on_failure() {
    let (results, files) = run_chain(
        RollbackStrategy::RollbackAll,
        vec![
            step("echo step1", Some("touch rollback_step0_ran")),
            step("exit 1", Some("echo rollback2")),
            step("echo step3_never", None),
        ],
    );
    assert_eq!(results.len(), 2);
    assert_eq!(results[0].status, TaskResultStatus::Success);
    assert_eq!(results[1].status, TaskResultStatus::Failed);
    assert_eq!(files, ["rollback_step0_ran"]);
}

#[test]
fn chain_rollback_failed_only() {
    let (results, files) = run_chain(
        RollbackStrategy::RollbackFailed,
        vec![
            step("echo step1", Some("touch should_not_exist")),
            step("exit 1", Some("echo only_this_rollback")),
            step("echo step3_never", None),
        ],
    );
    assert_eq!(results.len(), 2);
    assert_eq!(results[0].status, TaskResultStatus::Success);
    assert_eq!(results[1].status, TaskResultStatus::Failed);
    assert!(files.is_empty());
}

#[test]
fn cancellation_stops_continuous_task() {
    let mut exec = make_exec("echo tick");
    exec.kind = ExecKind::Continuous;
    exec.interval_ms = Some(50);
    let mut run = ContinuousRun::new(&exec, 1);
    assert_eq!(run.interval_ms(), 50);
    let mut ticks = 0;
    loop {
        let event = match run.phase() {
            ContinuousPhase::Waiting if ticks == 3 => ContinuousEvent::Cancelled,
            ContinuousPhase::Waiting => ContinuousEvent::IntervalPassed,
            ContinuousPhase::Resolving => ContinuousEvent::Resolved,
            ContinuousPhase::Ticking => {
                ContinuousEvent::Ticked(execute(&exec, &StringMap::new(), &mut vec![]))
            }
            ContinuousPhase::Over => break,
        };
        if let Some(tick) = run.on_event(event, AT) {
            assert_eq!(tick.stdout.trim(), "tick");
            ticks += 1;
        }
    }
    assert_eq!(ticks, 3);
    assert_eq!(run.into_last().status, TaskResultStatus::Cancelled);
}

/// Calls the echo sidecar as the agent does: a request in a frame, and the
/// response in another.
fn call(method: &str, params: Option<Json>) -> Result<Response, Error> {
    let server = SidecarServer::new(EchoHandler::new("0.1.0"), "/run/vasal/echo-ctrl.sock");
    let mut codec = LengthPrefixCodec::new();
    let mut wire = BytesMut::new();
    codec.encode(Bytes::from(request_bytes(method, params)), &mut wire).unwrap();
    let frame = codec.decode(&mut wire).unwrap().unwrap();
    let response = server.handle(&frame);
    codec.encode(Bytes::from(encode_bytes(&response)), &mut wire).unwrap();
    let frame = codec.decode(&mut wire).unwrap().unwrap();
    assert!(wire.is_empty());
    read_response(&frame)
}

#[test]
fn sidecar_health_check() {
    let response = call("health", None).expect("health call failed");
    assert!(response.error.is_none());
    let result = response.result.unwrap();
    assert_eq!(result.get_str("status"), Some("ok"));
    assert!(result.get_str("version").is_some());
}

#[test]
fn sidecar_submit_echo() {
    let params = parse_text(r#"{"message":"hello from integration test","count":42}"#).unwrap();
    let response = call("submit", Some(params)).expect("submit call failed");
    assert!(response.error.is_none());
    let result = response.result.unwrap();
    assert_eq!(result.get_str("status"), Some("completed"));
    let echoed = parse_text(result.get_str("stdout").unwrap()).unwrap();
    assert_eq!(echoed.get_str("message"), Some("hello from integration test"));
    assert_eq!(echoed.get("count").unwrap().as_u64(), Some(42));
}

fn execute_sidecar(exec: &ExecTask) -> TaskResult {
    let (target, method) = match plan_exec(exec) {
        ExecPlan::Sidecar { target, method } => (target, method),
        other => panic!("{other:?}"),
    };
    assert_eq!(target, "echo-ctrl");
    let mut run = SidecarRun::new(exec.id, &target, exec.timeout_ms);
    while let SidecarAction::Submit = run.action() {
        let params = build_params(&exec.payload, &StringMap::new(), &[]);
        run.on_event(SidecarEvent::Answered(call(&method, Some(params))), AT);
    }
    run.into_result().unwrap()
}

#[test]
fn sidecar_execute_full_flow() {
    let mut exec = task(8, Executor::Sidecar, r#"{"action":"discover","target":"db-01"}"#);
    exec.target = Some("echo-ctrl".into());
    exec.method = Some("submit".into());
    let result = execute_sidecar(&exec);
    assert_eq!(result.status, TaskResultStatus::Success);
    assert_eq!(result.task_id, exec.id);
    let echoed = parse_text(&result.stdout).expect("stdout should be valid JSON");
    assert_eq!(echoed.get_str("action"), Some("discover"));
    assert_eq!(echoed.get_str("target"), Some("db-01"));
    assert!(result.duration_ms < 5000);
}

#[test]
fn sidecar_unknown_method_returns_error() {
    let response = call("nonexistent_method", None).expect("should still get a response");
    assert!(response.error.is_some(), "unknown method should return an error");
}

/// Sees a task through as the agent does, and gives what the audit trail heard.
fn see_through(exec: ExecTask, outcome: impl FnOnce(&ExecTask) -> TaskResult) -> Vec<AuditNote> {
    let mut manager: TaskManager<u8, ()> = TaskManager::new(4, false);
    let (received, next) = manager.submit(&Task::Exec(exec.clone()), "exec", 0);
    let mut notes = vec![received];
    let (id, form) = match next {
        Next::Spawn { id, form } => (id, form),
        other => panic!("{other:?}"),
    };
    assert_eq!(manager.counts().total, 1);
    for effect in manager.finish(form, id, &vec![outcome(&exec)]) {
        match effect {
            EndEffect::Journal(row) => assert_eq!(row.task_id, id.to_text()),
            EndEffect::Audit(note) => notes.push(note),
            EndEffect::Forward(_) => panic!("nobody waits for results"),
            EndEffect::Deregister { id } => manager.deregister(id),
        }
    }
    assert_eq!(manager.counts().total, 0);
    notes
}

#[test]
fn task_manager_shell_submit_and_journal() {
    let exec = make_exec("echo task_manager_test");
    let notes = see_through(exec, |e| execute(e, &StringMap::new(), &mut vec![]));
    assert!(
        notes.iter().any(|n| n.event == "task.received"),
        "should have a task.received audit event"
    );
    assert!(notes.iter().any(|n| n.event == "task.completed" || n.event == "task.failed"));
}

#[test]
fn task_manager_cancel_running_task() {
    let mut manager: TaskManager<&'static str, ()> = TaskManager::new(4, false);
    let exec = make_exec("sleep 60");
    manager.submit(&Task::Exec(exec.clone()), "exec", "token of the task");
    let cancel = Task::Cancel(CancelTask {
        id: Uuid::from_u128(99),
        priority: Priority::Normal,
        tags: StringMap::new(),
        target_task_id: exec.id,
    });
    let (_, next) = manager.submit(&cancel, "cancel", "token of the order");
    match next {
        Next::Cancel { target } => {
            assert_eq!(manager.token(target), Some(&"token of the task"));
        }
        other => panic!("{other:?}"),
    }
    let notes = see_through(exec, |e| conclude(e.id, 60_000, ShellOutcome::Cancelled, AT));
    let cancelled = notes.iter().any(|n| n.event == "task.cancelled");
    assert!(cancelled, "should have a task.cancelled audit event");
}

#[test]
fn task_manager_sidecar_submit() {
    let mut exec = task(8, Executor::Sidecar, r#"{"action":"ping"}"#);
    exec.target = Some("echo-ctrl".into());
    exec.method = Some("submit".into());
    let notes = see_through(exec, execute_sidecar);
    assert!(notes.iter().any(|n| n.event == "task.completed"));
}
