//! How tasks are run, chained, repeated and counted.

use vasal::agent::credential::{
    filter_lazy, lazy_credentials_as_json, read_http_credential, read_sidecar_credential, EagerRun,
};
use vasal::agent::error::Error;
use vasal::agent::task::chain::{ChainAction, ChainEvent, ChainRecord, ChainRun};
use vasal::agent::task::continuous::{ContinuousEvent, ContinuousPhase, ContinuousRun};
use vasal::agent::task::manager::{
    chain_received_detail, dispatch, event_for, received_detail, result_to_journal_row,
    started_note, unit_note, ActiveTasks, Dispatch, EndEffect, Next, TaskManager, WorkForm,
};
use vasal::agent::task::permits::Permits;
use vasal::agent::task::router::{
    make_result, plan_exec, route, route_task, unresolved_result, ExecPlan, Route, Timing,
};
use vasal::agent::task::shell::{conclude, prepare, truncate_output, ShellOutcome, MAX_OUTPUT_SIZE};
use vasal::agent::task::sidecar::{
    build_params, oversized_response, poll_delay_ms, read_response, request_bytes, socket_path,
    CallFault, SidecarAction, SidecarEvent, SidecarRun,
};
use vasal::ids::Uuid;
use vasal::json::{parse_bytes, Json};
use vasal::protocol::credential::{CredentialProvider, CredentialRef, ResolveMode};
use vasal::protocol::error::ProtocolError;
use vasal::protocol::jsonrpc::{RequestId, Response};
use vasal::protocol::task::{
    CancelTask, ChainStep, ExecKind, ExecTask, Executor, Priority, RemoveTask, RollbackStrategy,
    Task, TaskChain, TaskResult, TaskResultStatus,
};
use vasal::sdk::codec::CodecError;
use vasal::string_map::StringMap;

const AT: Timing = Timing { elapsed_ms: 3, timestamp: 1_000 };

fn object(members: &[(&str, Json)]) -> Json {
    Json::Object(members.iter().map(|(k, v)| (k.to_string(), v.clone())).collect())
}

fn shell(id: u128, script: &str) -> ExecTask {
    ExecTask {
        id: Uuid::from_u128(id),
        priority: Priority::Normal,
        tags: StringMap::new(),
        kind: ExecKind::Oneshot,
        executor: Executor::Shell,
        target: None,
        method: None,
        payload: object(&[("script", Json::text(script))]),
        interval_ms: None,
        timeout_ms: 5_000,
        credentials: vec![],
    }
}

fn credential(name: &str, resolve: ResolveMode) -> CredentialRef {
    CredentialRef {
        name: name.into(),
        resolve,
        provider: CredentialProvider::Http { endpoint: "https://vault/v1/secret".into() },
        params: None,
    }
}

fn done(id: u128, status: TaskResultStatus) -> TaskResult {
    make_result(Uuid::from_u128(id), status, Some(0), "out".into(), String::new(), AT, None)
}

#[test]
fn filter_lazy_credentials() {
    let refs = vec![
        credential("DB_PASS", ResolveMode::Eager),
        CredentialRef {
            name: "TLS_CERT".into(),
            resolve: ResolveMode::Lazy,
            provider: CredentialProvider::Sidecar {
                endpoint: "vault-ctrl".into(),
                method: "fetch_cert".into(),
            },
            params: None,
        },
    ];

    let lazy = filter_lazy(&refs);
    assert_eq!(lazy.len(), 1);
    assert_eq!(lazy[0].name, "TLS_CERT");
}

#[test]
fn lazy_credentials_json_empty() {
    let result = lazy_credentials_as_json(&[]);
    assert!(result.is_null());
}

#[test]
fn eager_credentials_are_fetched_in_order() {
    let refs = vec![
        credential("A", ResolveMode::Lazy),
        credential("B", ResolveMode::Eager),
        credential("C", ResolveMode::Lazy),
        credential("D", ResolveMode::Eager),
    ];
    let mut run = EagerRun::new(&refs);
    assert_eq!(run.wanted(&refs), Some(1));
    run.on_fetched(&refs, "b".into());
    assert_eq!(run.wanted(&refs), Some(3));
    run.on_fetched(&refs, "d".into());
    assert_eq!(run.wanted(&refs), None);
    let found = run.into_found();
    assert_eq!(found.get("B").unwrap(), "b");
    assert_eq!(found.get("D").unwrap(), "d");
    assert!(found.get("A").is_none());
}

#[test]
fn credentials_are_picked_out_of_answers() {
    let http = |code, body: &str| read_http_credential(code, "status", body.into());
    assert_eq!(http(200, r#"{"value":"s"}"#).unwrap(), "s");
    assert_eq!(http(200, r#"{"value":7}"#).unwrap(), r#"{"value":7}"#);
    assert_eq!(http(200, "plain").unwrap(), "plain");
    assert_eq!(
        http(403, "x").unwrap_err().to_text(),
        "authentication: credential provider returned HTTP status"
    );
    let answer = |result, error: Option<ProtocolError>| Response {
        jsonrpc: "2.0".into(),
        result,
        error: error.map(|e| e.into()),
        id: RequestId::Integer(1),
    };
    let named = answer(Some(object(&[("value", Json::text("v"))])), None);
    assert_eq!(read_sidecar_credential(&named).unwrap(), "v");
    let whole = answer(Some(object(&[("k", Json::unsigned(1))])), None);
    assert_eq!(read_sidecar_credential(&whole).unwrap(), r#"{"k":1}"#);
    let refused = answer(None, Some(ProtocolError::credential_error("no")));
    assert_eq!(
        read_sidecar_credential(&refused).unwrap_err().to_text(),
        "authentication: credential sidecar error: [-32003] no"
    );
    assert_eq!(
        read_sidecar_credential(&answer(None, None)).unwrap_err().to_text(),
        "authentication: credential sidecar returned empty response"
    );
}

#[test]
fn shell_task_is_prepared_and_concluded() {
    let mut creds = StringMap::new();
    creds.insert("DB_PASSWORD".into(), "secret123".into());
    let exec = shell(1, "echo hello");
    let command = prepare(&exec, &creds, Some("/tmp/vasal"), AT).unwrap();
    assert_eq!(command.program, "/bin/sh");
    assert_eq!(command.args, ["-c", "echo hello"]);
    assert_eq!(command.env.get("DB_PASSWORD").unwrap(), "secret123");
    assert_eq!(command.working_dir.as_deref(), Some("/tmp/vasal"));
    assert_eq!(command.timeout_ms, 5_000);
    let mut elsewhere = shell(1, "pwd");
    elsewhere.payload =
        object(&[("script", Json::text("pwd")), ("working_dir", Json::text("/srv"))]);
    let command = prepare(&elsewhere, &creds, None, AT).unwrap();
    assert_eq!(command.working_dir.as_deref(), Some("/srv"));

    let end = |outcome| conclude(exec.id, exec.timeout_ms, outcome, AT);
    let ok = end(ShellOutcome::Exited {
        code: Some(0),
        stdout: b"hello\n".to_vec(),
        stderr: b"error\n".to_vec(),
    });
    assert_eq!(ok.status, TaskResultStatus::Success);
    assert_eq!(ok.exit_code, Some(0));
    assert_eq!(ok.stdout.trim(), "hello");
    assert_eq!(ok.stderr.trim(), "error");
    assert_eq!(ok.duration_ms, 3);
    let failed = end(ShellOutcome::Exited { code: Some(42), stdout: vec![], stderr: vec![] });
    assert_eq!(failed.status, TaskResultStatus::Failed);
    assert_eq!(failed.exit_code, Some(42));
    assert_eq!(failed.error.as_deref(), Some("exit code 42"));
    let killed = end(ShellOutcome::Exited { code: None, stdout: vec![], stderr: vec![] });
    assert_eq!(killed.exit_code, Some(-1));
    let timeout = end(ShellOutcome::TimedOut);
    assert_eq!(timeout.status, TaskResultStatus::Timeout);
    assert_eq!(timeout.error.as_deref(), Some("timeout after 5000ms"));
    assert_eq!(end(ShellOutcome::Cancelled).status, TaskResultStatus::Cancelled);
    assert_eq!(
        end(ShellOutcome::SpawnFailed("no sh".into())).error.as_deref(),
        Some("failed to spawn shell: no sh")
    );
    assert_eq!(
        end(ShellOutcome::WaitFailed("lost".into())).error.as_deref(),
        Some("failed to wait for shell: lost")
    );
}

#[test]
fn shell_task_needs_a_script() {
    let mut exec = shell(1, "");
    exec.payload = object(&[("command", Json::text("echo hi"))]);
    let result = prepare(&exec, &StringMap::new(), None, AT).unwrap_err();
    assert_eq!(result.status, TaskResultStatus::Failed);
    assert!(result.error.unwrap().contains("missing 'script'"));
}

#[test]
fn long_output_is_cut() {
    assert_eq!(truncate_output(b"abc"), "abc");
    assert_eq!(truncate_output(b"a\xffb"), "a\u{fffd}b");
    let full = vec![b'x'; MAX_OUTPUT_SIZE];
    assert_eq!(truncate_output(&full).len(), MAX_OUTPUT_SIZE);
    let over = vec![b'x'; MAX_OUTPUT_SIZE + 1];
    let cut = truncate_output(&over);
    assert_eq!(cut.len(), MAX_OUTPUT_SIZE + "\n... [truncated]".len());
    assert!(cut.ends_with("x\n... [truncated]"));
}

fn chain(strategy: RollbackStrategy, steps: &[(&str, Option<&str>)]) -> TaskChain {
    TaskChain {
        id: Uuid::from_u128(100),
        steps: steps
            .iter()
            .enumerate()
            .map(|(i, (script, rollback))| ChainStep {
                task: shell(i as u128, script),
                rollback: rollback.map(|s| shell(50 + i as u128, s)),
            })
            .collect(),
        on_failure: strategy,
        tags: StringMap::new(),
    }
}

/// Runs a chain to its end; the named step fails. Gives the results, the steps
/// that were undone and what the audit trail was told.
fn drive(chain: TaskChain, failing: Option<usize>) -> (Vec<TaskResult>, Vec<usize>, Vec<ChainRecord>) {
    let mut run = ChainRun::new(chain);
    let mut undone = vec![];
    let mut records = vec![];
    loop {
        let event = match run.action() {
            ChainAction::Begin => ChainEvent::Begun,
            ChainAction::ResolveStep { .. } | ChainAction::ResolveRollback { .. } => {
                ChainEvent::Resolved
            }
            ChainAction::RunStep { step } => {
                let status = if failing == Some(step) {
                    TaskResultStatus::Failed
                } else {
                    TaskResultStatus::Success
                };
                ChainEvent::Finished(done(step as u128, status))
            }
            ChainAction::RunRollback { step } => {
                undone.push(step);
                ChainEvent::Finished(done(50 + step as u128, TaskResultStatus::Success))
            }
            ChainAction::Finish => break,
        };
        records.extend(run.on_event(event, false, 1));
    }
    (run.into_results(), undone, records)
}

#[test]
fn chain_runs_every_step() {
    let steps = [("echo step1", None), ("echo step2", None), ("echo step3", None)];
    let (results, undone, records) = drive(chain(RollbackStrategy::RollbackAll, &steps), None);
    assert_eq!(results.len(), 3);
    for (i, r) in results.iter().enumerate() {
        assert_eq!(r.status, TaskResultStatus::Success);
        assert_eq!(r.chain_id, Some(Uuid::from_u128(100)));
        assert_eq!(r.step_index, Some(i as u32));
        assert_eq!(r.task_id, Uuid::from_u128(i as u128));
    }
    assert!(undone.is_empty());
    assert_eq!(
        records,
        [ChainRecord::Started { steps: 3 }, ChainRecord::Completed { steps_completed: 3 }]
    );
    assert_eq!(records[0].event(), "chain.started");
    assert_eq!(records[0].detail().to_text(), r#"{"steps":3}"#);
}

#[test]
fn chain_undoes_all_in_reverse() {
    let steps = [
        ("one", Some("undo one")),
        ("two", None),
        ("three", Some("undo three")),
        ("four", Some("undo four")),
    ];
    let (results, undone, records) = drive(chain(RollbackStrategy::RollbackAll, &steps), Some(2));
    assert_eq!(results.len(), 3);
    assert_eq!(results[2].status, TaskResultStatus::Failed);
    assert_eq!(undone, [2, 0]);
    assert!(records.contains(&ChainRecord::Rollback {
        strategy: RollbackStrategy::RollbackAll,
        failed_step: 2
    }));
}

#[test]
fn chain_undoes_only_the_failed_step() {
    let steps = [("one", Some("undo one")), ("exit 1", Some("undo two")), ("three", None)];
    let (results, undone, _) = drive(chain(RollbackStrategy::RollbackFailed, &steps), Some(1));
    assert_eq!(results.len(), 2);
    assert_eq!(results[0].status, TaskResultStatus::Success);
    assert_eq!(results[1].status, TaskResultStatus::Failed);
    assert_eq!(undone, [1]);
}

#[test]
fn chain_stops_when_cancelled() {
    let mut run = ChainRun::new(chain(RollbackStrategy::RollbackAll, &[("a", None), ("b", None)]));
    run.on_event(ChainEvent::Begun, false, 1);
    run.on_event(ChainEvent::Resolved, false, 1);
    run.on_event(ChainEvent::Finished(done(0, TaskResultStatus::Success)), true, 1);
    assert_eq!(run.action(), ChainAction::Finish);
    assert_eq!(run.results().len(), 1);
    assert_eq!(run.task_chain().steps.len(), 2);
}

#[test]
fn chain_fails_without_credentials() {
    let mut run = ChainRun::new(chain(RollbackStrategy::RollbackAll, &[("a", None)]));
    run.on_event(ChainEvent::Begun, false, 1);
    run.on_event(ChainEvent::Unresolved("no vault".into()), false, 9);
    assert_eq!(run.action(), ChainAction::Finish);
    let results = run.into_results();
    assert_eq!(results[0].status, TaskResultStatus::Failed);
    assert_eq!(results[0].error.as_deref(), Some("no vault"));
    assert_eq!(results[0].timestamp, 9);
}

#[test]
fn continuous_task_reports_every_tick_until_cancelled() {
    let mut exec = shell(1, "echo tick");
    exec.kind = ExecKind::Continuous;
    exec.interval_ms = Some(50);
    let mut run = ContinuousRun::new(&exec, 0);
    assert_eq!(run.interval_ms(), 50);
    for _ in 0..3 {
        assert!(run.on_event(ContinuousEvent::IntervalPassed, AT).is_none());
        assert!(run.on_event(ContinuousEvent::Resolved, AT).is_none());
        assert_eq!(run.phase(), ContinuousPhase::Ticking);
        let tick = ContinuousEvent::Ticked(done(1, TaskResultStatus::Failed));
        assert_eq!(run.on_event(tick, AT).unwrap().status, TaskResultStatus::Failed);
        assert_eq!(run.phase(), ContinuousPhase::Waiting);
    }
    run.on_event(ContinuousEvent::IntervalPassed, AT);
    let lost = run.on_event(ContinuousEvent::Unresolved("no vault".into()), AT).unwrap();
    assert_eq!(lost.error.as_deref(), Some("no vault"));
    run.on_event(ContinuousEvent::Cancelled, AT);
    assert_eq!(run.phase(), ContinuousPhase::Over);
    assert_eq!(run.into_last().status, TaskResultStatus::Cancelled);
    exec.interval_ms = None;
    let mut run = ContinuousRun::new(&exec, 0);
    assert_eq!(run.interval_ms(), 30_000);
    run.on_event(ContinuousEvent::ShuttingDown, AT);
    assert_eq!(run.into_last().status, TaskResultStatus::Success);
}

#[test]
fn active_tasks_are_counted() {
    let mut active: ActiveTasks<&str> = ActiveTasks::new();
    active.register(Uuid::from_u128(1), ExecKind::Oneshot, "one");
    active.register(Uuid::from_u128(2), ExecKind::Continuous, "two");
    active.register(Uuid::from_u128(3), ExecKind::Oneshot, "three");
    let counts = active.counts();
    assert_eq!((counts.oneshot, counts.continuous, counts.total), (2, 1, 3));
    assert_eq!(active.token(Uuid::from_u128(2)), Some(&"two"));
    active.register(Uuid::from_u128(2), ExecKind::Oneshot, "again");
    assert_eq!(active.token(Uuid::from_u128(2)), Some(&"again"));
    assert_eq!(active.len(), 3);
    active.deregister(Uuid::from_u128(2));
    active.deregister(Uuid::from_u128(9));
    assert_eq!(active.token(Uuid::from_u128(2)), None);
    assert_eq!(active.counts().total, 2);
}

#[test]
fn tasks_are_dispatched_by_type() {
    let exec = Task::Exec(shell(1, "x"));
    let cancel = Task::Cancel(CancelTask {
        id: Uuid::from_u128(2),
        priority: Priority::Normal,
        tags: StringMap::new(),
        target_task_id: Uuid::from_u128(1),
    });
    let remove = Task::Remove(RemoveTask {
        id: Uuid::from_u128(3),
        priority: Priority::Normal,
        tags: StringMap::new(),
        unit_name: "u".into(),
        purge: false,
    });
    assert_eq!(dispatch(&exec), Dispatch::Execute { kind: ExecKind::Oneshot });
    assert_eq!(dispatch(&cancel), Dispatch::Cancel { target: Uuid::from_u128(1) });
    assert_eq!(dispatch(&remove), Dispatch::Route);
    assert_eq!(route(&remove), Route::Remove);
    assert_eq!(route(&exec), Route::Misrouted);
    let ok = route_task(&remove, Ok(()), AT);
    assert_eq!(ok.status, TaskResultStatus::Success);
    assert_eq!(ok.stdout, "removed unit u");
    let bad = route_task(&remove, Err(Error::Unit("stuck".into())), AT);
    assert_eq!(bad.error.as_deref(), Some("unit management: stuck"));
    let lost = route_task(&exec, Ok(()), AT);
    assert_eq!(lost.error.as_deref(), Some("exec/cancel should not reach route_task"));
    let unresolved = unresolved_result(Uuid::from_u128(1), &Error::Auth("no".into()), AT);
    assert_eq!(unresolved.stderr, "authentication: no");
    assert_eq!(received_detail("exec").to_text(), r#"{"type":"exec"}"#);
    let two = chain(RollbackStrategy::RollbackAll, &[("a", None), ("b", None)]);
    assert_eq!(chain_received_detail(&two).to_text(), r#"{"steps":2,"type":"chain"}"#);
}

#[test]
fn executors_are_planned() {
    assert!(matches!(plan_exec(&shell(1, "x")), ExecPlan::Shell));
    let mut exec = shell(1, "x");
    exec.executor = Executor::Sidecar;
    match plan_exec(&exec) {
        ExecPlan::Sidecar { target, method } => {
            assert_eq!(target, "unknown");
            assert_eq!(method, "submit");
        }
        other => panic!("{other:?}"),
    }
    exec.target = Some("sql-ctrl".into());
    exec.method = Some("query".into());
    assert!(matches!(plan_exec(&exec), ExecPlan::Sidecar { target, method }
        if target == "sql-ctrl" && method == "query"));
}

#[test]
fn results_are_journalled() {
    let mut result = done(7, TaskResultStatus::RolledBack);
    result.chain_id = Some(Uuid::from_u128(8));
    result.step_index = Some(2);
    let row = result_to_journal_row(&result);
    assert_eq!(row.task_id, "00000000-0000-0000-0000-000000000007");
    assert_eq!(row.chain_id.as_deref(), Some("00000000-0000-0000-0000-000000000008"));
    assert_eq!(row.step_index, Some(2));
    assert_eq!(row.status, "RolledBack");
    assert_eq!(row.duration_ms, 3);
    assert_eq!(row.created_at, 1_000);
    assert_eq!(event_for(TaskResultStatus::Success), "task.completed");
    assert_eq!(event_for(TaskResultStatus::Timeout), "task.timeout");
    assert_eq!(event_for(TaskResultStatus::Cancelled), "task.cancelled");
    assert_eq!(event_for(TaskResultStatus::RolledBack), "task.failed");
}

fn remove(id: u128) -> Task {
    Task::Remove(RemoveTask {
        id: Uuid::from_u128(id),
        priority: Priority::Normal,
        tags: StringMap::new(),
        unit_name: "u".into(),
        purge: false,
    })
}

#[test]
fn manager_lists_work_until_it_is_seen_to() {
    let mut manager: TaskManager<u8, &str> = TaskManager::new(4, true);
    let (note, next) = manager.submit(&Task::Exec(shell(1, "x")), "exec", 10);
    assert_eq!(note.event, "task.received");
    assert_eq!(note.task_id, "00000000-0000-0000-0000-000000000001");
    assert_eq!(note.detail.to_text(), r#"{"type":"exec"}"#);
    assert_eq!(next, Next::Spawn { id: Uuid::from_u128(1), form: WorkForm::Exec });
    let (_, next) = manager.submit(&remove(2), "remove", 20);
    assert_eq!(next, Next::Spawn { id: Uuid::from_u128(2), form: WorkForm::Routed });
    let two = chain(RollbackStrategy::RollbackAll, &[("a", None), ("b", None)]);
    let note = manager.submit_chain(&two, 30);
    assert_eq!(note.detail.to_text(), r#"{"steps":2,"type":"chain"}"#);
    let cancel = Task::Cancel(CancelTask {
        id: Uuid::from_u128(9),
        priority: Priority::Normal,
        tags: StringMap::new(),
        target_task_id: two.id,
    });
    let (_, next) = manager.submit(&cancel, "cancel", 40);
    assert_eq!(next, Next::Cancel { target: two.id });
    assert_eq!(manager.token(two.id), Some(&30));
    assert_eq!(manager.counts().total, 3);

    let effects = manager.finish(
        WorkForm::Exec,
        Uuid::from_u128(1),
        &vec![done(1, TaskResultStatus::Timeout)],
    );
    assert_eq!(effects.len(), 4);
    assert!(matches!(&effects[0], EndEffect::Journal(row) if row.status == "Timeout"));
    match &effects[1] {
        EndEffect::Audit(note) => {
            assert_eq!(note.event, "task.timeout");
            assert_eq!(note.detail.get_str("status"), Some("timeout"));
        }
        other => panic!("{other:?}"),
    }
    assert!(matches!(&effects[2], EndEffect::Forward(_)));
    assert!(matches!(&effects[3], EndEffect::Deregister { id } if *id == Uuid::from_u128(1)));
    manager.deregister(Uuid::from_u128(1));
    assert_eq!(manager.counts().total, 2);

    let results = vec![done(1, TaskResultStatus::Success), done(2, TaskResultStatus::Failed)];
    let effects = manager.finish(WorkForm::Chain, two.id, &results);
    assert_eq!(effects.len(), 5);
    assert!(!effects.iter().any(|e| matches!(e, EndEffect::Audit(_))));
    let quiet: TaskManager<u8, &str> = TaskManager::new(4, false);
    assert_eq!(quiet.finish(WorkForm::Exec, Uuid::nil(), &results).len(), 5);
    assert!(WorkForm::Exec.needs_permit());
    assert!(WorkForm::Chain.needs_permit());
    assert!(!WorkForm::Routed.needs_permit());
    for name in ["a", "b", "c", "d"] {
        assert_eq!(manager.ask(name), [name]);
    }
    assert!(manager.ask("e").is_empty());
    assert!(manager.ask("f").is_empty());
    assert_eq!(manager.set_limit(5), ["e"]);
    assert!(manager.set_limit(2).is_empty());
    assert!(manager.release().is_empty());
    assert_eq!(manager.set_limit(6), ["f"]);
}

#[test]
fn permits_follow_the_limit() {
    let mut permits: Permits<u32> = Permits::new(2);
    assert_eq!(permits.ask(1), [1]);
    assert_eq!(permits.ask(2), [2]);
    for waiter in 3..=6 {
        assert!(permits.ask(waiter).is_empty());
    }
    assert_eq!((permits.limit(), permits.held(), permits.waiting()), (2, 2, 4));
    assert_eq!(permits.set_limit(4), [3, 4]);
    assert_eq!((permits.limit(), permits.held(), permits.waiting()), (4, 4, 2));
    assert!(permits.set_limit(1).is_empty());
    for held in [3, 2, 1] {
        assert!(permits.release().is_empty());
        assert_eq!(permits.held(), held);
    }
    assert_eq!(permits.release(), [5]);
    assert_eq!((permits.held(), permits.waiting()), (1, 1));
    assert!(permits.set_limit(0).is_empty());
    assert!(permits.release().is_empty());
    assert_eq!((permits.held(), permits.waiting()), (0, 1));
    assert_eq!(permits.set_limit(3), [6]);
    assert!(permits.release().is_empty());
    assert!(permits.release().is_empty());
    assert_eq!((permits.limit(), permits.held(), permits.waiting()), (3, 0, 0));
}

#[test]
fn units_and_starts_are_noted() {
    let note = started_note(Uuid::from_u128(3));
    assert_eq!((note.event, note.detail.to_text().as_str()), ("task.started", "{}"));
    let note = unit_note(&remove(2)).unwrap();
    assert_eq!(note.event, "unit.removed");
    assert_eq!(note.detail.to_text(), r#"{"unit":"u"}"#);
    assert!(unit_note(&Task::Exec(shell(1, "x"))).is_none());
}

fn answered(result: Json) -> SidecarEvent {
    SidecarEvent::Answered(Ok(Response::success(RequestId::Integer(1), result)))
}

#[test]
fn sidecar_calls_are_framed_as_requests() {
    let bytes = request_bytes("submit", Some(object(&[("a", Json::unsigned(1))])));
    assert_eq!(
        parse_bytes(&bytes).unwrap().to_text(),
        r#"{"id":1,"jsonrpc":"2.0","method":"submit","params":{"a":1}}"#
    );
    let health = request_bytes("health", None);
    assert_eq!(
        parse_bytes(&health).unwrap().to_text(),
        r#"{"id":1,"jsonrpc":"2.0","method":"health"}"#
    );
    assert_eq!(socket_path("/run/vasal", "echo-ctrl"), "/run/vasal/echo-ctrl.sock");
    let response = read_response(br#"{"jsonrpc":"2.0","result":1,"id":1}"#).unwrap();
    assert!(response.is_success());
    assert!(matches!(read_response(b"junk"), Err(Error::Json(_))));
    assert!(matches!(read_response(b"{}"), Err(Error::Json(_))));
    let big = oversized_response(&CodecError::InvalidData("too big".into()));
    assert_eq!(big.to_text(), "protocol: [-32600] too big");
}

#[test]
fn sidecar_params_carry_credentials() {
    let mut creds = StringMap::new();
    creds.insert("K".into(), "v".into());
    let refs = [credential("LATER", ResolveMode::Lazy)];
    let params = build_params(&object(&[("x", Json::Null)]), &creds, &refs);
    assert_eq!(
        params.to_text(),
        "{\"_credentials\":{\"K\":\"v\"},\"_lazy_credentials\":[{\"name\":\"LATER\",\"provider\":{\"endpoint\":\"https://vault/v1/secret\",\"type\":\"http\"},\"resolve\":\"lazy\"}],\"x\":null}"
    );
    let plain = build_params(&Json::text("no object"), &creds, &refs);
    assert_eq!(plain.to_text(), "\"no object\"");
    let bare = build_params(&object(&[]), &StringMap::new(), &[]);
    assert_eq!(bare.to_text(), "{}");
}

#[test]
fn sidecar_task_is_done_at_once() {
    let mut run = SidecarRun::new(Uuid::from_u128(1), "echo-ctrl", 5_000);
    assert!(matches!(run.action(), SidecarAction::Submit));
    let value = object(&[("status", Json::text("completed")), ("stdout", Json::text("hi"))]);
    run.on_event(answered(value), AT);
    assert!(matches!(run.action(), SidecarAction::Finish));
    let result = run.into_result().unwrap();
    assert_eq!(result.status, TaskResultStatus::Success);
    assert_eq!(result.stdout, "hi");
}

#[test]
fn accepted_sidecar_task_is_polled() {
    assert_eq!(
        (0..6).map(poll_delay_ms).collect::<Vec<u64>>(),
        [0, 100, 200, 500, 1_000, 1_000]
    );
    let mut run = SidecarRun::new(Uuid::from_u128(1), "slow", 5_000);
    let accepted = object(&[("status", Json::text("accepted")), ("task_id", Json::text("t"))]);
    run.on_event(answered(accepted), AT);
    for expected in [0, 100, 200] {
        if expected > 0 {
            match run.action() {
                SidecarAction::Pause(ms) => assert_eq!(ms, expected),
                other => panic!("{other:?}"),
            }
            run.on_event(SidecarEvent::Rested, AT);
        }
        match run.action() {
            SidecarAction::Poll(p) => assert_eq!(p.to_text(), r#"{"task_id":"t"}"#),
            other => panic!("{other:?}"),
        }
        run.on_event(answered(object(&[("status", Json::text("running"))])), AT);
    }
    run.on_event(SidecarEvent::Interrupted, AT);
    match run.action() {
        SidecarAction::Cancel(p) => assert_eq!(p.to_text(), r#"{"task_id":"t"}"#),
        other => panic!("{other:?}"),
    }
    run.on_event(SidecarEvent::Answered(Err(Error::Io("gone".into()))), AT);
    assert_eq!(run.into_result().unwrap().status, TaskResultStatus::Cancelled);
}

#[test]
fn accepted_sidecar_task_times_out() {
    let mut run = SidecarRun::new(Uuid::from_u128(1), "slow", 10);
    let accepted = object(&[("status", Json::text("accepted")), ("task_id", Json::text("t"))]);
    let late = Timing { elapsed_ms: 11, timestamp: 0 };
    run.on_event(answered(accepted), AT);
    run.on_event(answered(object(&[("status", Json::text("running"))])), late);
    assert!(matches!(run.action(), SidecarAction::Cancel(_)));
    run.on_event(answered(Json::Null), late);
    let result = run.into_result().unwrap();
    assert_eq!(result.status, TaskResultStatus::Timeout);
    assert_eq!(result.error.as_deref(), Some("timeout after 10ms"));
}

#[test]
fn sidecar_failures_are_results() {
    let end = |event| {
        let mut run = SidecarRun::new(Uuid::from_u128(1), "s", 10);
        run.on_event(event, AT);
        run.into_result().unwrap()
    };
    let gone = end(SidecarEvent::Answered(Err(Error::Io("refused".into()))));
    assert_eq!(gone.error.as_deref(), Some("sidecar s: I/O: refused"));
    let failed = end(answered(object(&[
        ("status", Json::text("failed")),
        ("error", Json::text("boom")),
        ("stderr", Json::text("trace")),
    ])));
    assert_eq!(failed.error.as_deref(), Some("boom"));
    assert_eq!(failed.stderr, "trace");
    let odd = end(answered(Json::unsigned(5)));
    assert_eq!(odd.stdout, "5");
    let words = |text: &str| {
        let r = end(answered(parse_bytes(text.as_bytes()).unwrap()));
        assert_eq!(r.error, Some(format!("failed to parse sidecar response: {}", r.stderr)));
        r.stderr
    };
    assert_eq!(
        odd.error.unwrap(),
        "failed to parse sidecar response: invalid type: integer `5`, expected internally tagged enum SubmitResponse"
    );
    assert_eq!(words("{}"), "missing field `status`");
    assert_eq!(words("[]"), "missing field `status`");
    assert_eq!(
        words(r#"{"status": 1}"#),
        "invalid type: integer `1`, expected variant identifier"
    );
    assert_eq!(
        words(r#"{"status": "done"}"#),
        "unknown variant `done`, expected one of `completed`, `failed`, `accepted`"
    );
    assert_eq!(
        words(r#"{"status": "completed", "truncated": "yes", "stdout": 1.5}"#),
        "invalid type: floating point `1.5`, expected a string"
    );
    assert_eq!(
        words(r#"{"status": "completed", "truncated": "yes"}"#),
        r#"invalid type: string "yes", expected a boolean"#
    );
    assert_eq!(words(r#"{"status": "failed", "stderr": ""}"#), "missing field `error`");
    assert_eq!(
        words(r#"["failed"]"#),
        "invalid length 0, expected struct variant SubmitResponse::Failed with 2 elements"
    );
    assert_eq!(
        words(r#"["accepted", "t", 1]"#),
        "invalid length 2, expected 1 element in sequence"
    );
    let refused = end(SidecarEvent::Answered(Ok(Response::error(
        RequestId::Integer(1),
        ProtocolError::capacity_exceeded("full").into(),
    ))));
    assert_eq!(refused.status, TaskResultStatus::Failed);
    assert!(refused.error.unwrap().contains("full"));
}

#[test]
fn failed_sidecar_calls_in_words() {
    let path = "/run/vasal/x.sock";
    assert_eq!(
        CallFault::Connect.error(path, "refused").to_text(),
        "transport: failed to connect to sidecar at /run/vasal/x.sock: refused",
    );
    assert_eq!(
        CallFault::Send.error(path, "broken pipe").to_text(),
        "transport: failed to send to sidecar: broken pipe",
    );
    assert_eq!(
        CallFault::Closed.error(path, "").to_text(),
        "transport: sidecar closed connection without responding",
    );
    assert_eq!(
        CallFault::Receive.error(path, "reset").to_text(),
        "transport: failed to read sidecar response: reset",
    );
}
