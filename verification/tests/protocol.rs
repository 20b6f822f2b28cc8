//! The protocol's types and their JSON texts.

use vasal::ids::Uuid;
use vasal::json::{parse_text, Json, JsonFloat, JsonNumber};
use vasal::protocol::credential::{CredentialProvider, CredentialRef, ResolveMode};
use vasal::protocol::error::{
    ProtocolError, CAPACITY_EXCEEDED, CREDENTIAL_ERROR, EXECUTION_TIMEOUT, INTERNAL_ERROR,
    INVALID_PARAMS, INVALID_REQUEST, METHOD_NOT_FOUND, PARSE_ERROR, TARGET_UNREACHABLE,
    TASK_ALREADY_CANCELLED, TASK_NOT_FOUND,
};
use vasal::protocol::heartbeat::{ActiveTaskCounts, Heartbeat, UnitReport};
use vasal::protocol::jsonrpc::{ErrorObject, Request, RequestId, Response};
use vasal::protocol::sidecar::{
    CancelResponse, HealthResponse, HealthStatus, StatusResponse, SubmitResponse,
};
use vasal::protocol::task::{
    CancelTask, ChainStep, ExecKind, ExecTask, Executor, InstallTask, Priority, RemoveTask,
    RollbackSpec, RollbackStrategy, SelfUpgradeTask, Task, TaskChain, TaskResult, TaskResultStatus,
    UpgradeTask,
};
use vasal::protocol::unit::{Artifact, HealthCheck, ManagedUnit, UnitKind, UnitState};
use vasal::string_map::StringMap;
use vasal::wire::{decode_bytes, decode_text, encode_bytes, encode_text, encode_text_pretty, Wire};

fn object(members: &[(&str, Json)]) -> Json {
    Json::Object(members.iter().map(|(k, v)| (k.to_string(), v.clone())).collect())
}

fn tags(members: &[(&str, &str)]) -> StringMap {
    let mut m = StringMap::new();
    for (k, v) in members {
        m.insert(k.to_string(), v.to_string());
    }
    m
}

fn read<T: Wire>(text: &str) -> T {
    match decode_text::<T>(text, "value") {
        Ok(v) => v,
        Err(e) => panic!("{e}: {text}"),
    }
}

fn shell(id: u128, script: &str) -> ExecTask {
    ExecTask {
        id: Uuid::from_u128(id),
        priority: Priority::Normal,
        tags: StringMap::new(),
        kind: ExecKind::Oneshot,
        executor: Executor::Shell,
        target: None,
        method: None,
        payload: object(&[("script", Json::text(script))]),
        interval_ms: None,
        timeout_ms: 5_000,
        credentials: vec![],
    }
}

#[test]
fn eager_http_roundtrip() {
    let cred = CredentialRef {
        name: "DB_PASSWORD".into(),
        resolve: ResolveMode::Eager,
        provider: CredentialProvider::Http {
            endpoint: "https://vault.internal/v1/secret/db".into(),
        },
        params: Some(object(&[("key", Json::text("password"))])),
    };
    let parsed: CredentialRef = read(&encode_text(&cred));
    assert_eq!(cred, parsed);
}

#[test]
fn lazy_sidecar_roundtrip() {
    let cred = CredentialRef {
        name: "TLS_CERT".into(),
        resolve: ResolveMode::Lazy,
        provider: CredentialProvider::Sidecar {
            endpoint: "vault-ctrl".into(),
            method: "fetch_cert".into(),
        },
        params: None,
    };
    let parsed: CredentialRef = read(&encode_text(&cred));
    assert_eq!(cred, parsed);
}

#[test]
fn provider_type_discriminator() {
    let provider: CredentialProvider =
        read(r#"{"type":"http","endpoint":"https://vault.internal"}"#);
    assert!(matches!(provider, CredentialProvider::Http { .. }));

    let provider: CredentialProvider =
        read(r#"{"type":"sidecar","endpoint":"vault-ctrl","method":"get"}"#);
    assert!(matches!(provider, CredentialProvider::Sidecar { .. }));
}

#[test]
fn display_format() {
    let err = ProtocolError::method_not_found("frobnicate");
    assert_eq!(err.to_text(), "[-32601] method not found: frobnicate");
}

#[test]
fn with_data() {
    let err = ProtocolError::internal_error("boom")
        .with_data(object(&[("detail", Json::text("stack trace"))]));
    assert!(err.data.is_some());
}

#[test]
fn roundtrip_through_error_object() {
    let original = ProtocolError::credential_error("expired token");
    let obj: ErrorObject = original.clone().into();
    let recovered: ProtocolError = obj.into();
    assert_eq!(original.code, recovered.code);
    assert_eq!(original.message, recovered.message);
}

#[test]
fn error_code_values() {
    assert_eq!(PARSE_ERROR, -32700);
    assert_eq!(INVALID_REQUEST, -32600);
    assert_eq!(METHOD_NOT_FOUND, -32601);
    assert_eq!(INVALID_PARAMS, -32602);
    assert_eq!(INTERNAL_ERROR, -32603);
    assert_eq!(EXECUTION_TIMEOUT, -32000);
    assert_eq!(TASK_NOT_FOUND, -32001);
    assert_eq!(TASK_ALREADY_CANCELLED, -32002);
    assert_eq!(CREDENTIAL_ERROR, -32003);
    assert_eq!(TARGET_UNREACHABLE, -32004);
    assert_eq!(CAPACITY_EXCEEDED, -32005);
}

#[test]
fn every_error_has_its_code_and_words() {
    let cases = [
        (ProtocolError::parse_error("x"), PARSE_ERROR, "x"),
        (ProtocolError::invalid_request("x"), INVALID_REQUEST, "x"),
        (ProtocolError::invalid_params("x"), INVALID_PARAMS, "x"),
        (ProtocolError::internal_error("x"), INTERNAL_ERROR, "x"),
        (ProtocolError::credential_error("x"), CREDENTIAL_ERROR, "x"),
        (ProtocolError::target_unreachable("x"), TARGET_UNREACHABLE, "x"),
        (ProtocolError::capacity_exceeded("x"), CAPACITY_EXCEEDED, "x"),
    ];
    for (e, code, text) in cases {
        assert_eq!(e.code, code);
        assert_eq!(e.message, text);
        assert!(e.data.is_none());
    }
    assert_eq!(ProtocolError::execution_timeout().code, EXECUTION_TIMEOUT);
    assert_eq!(ProtocolError::task_not_found("t").code, TASK_NOT_FOUND);
    assert_eq!(ProtocolError::task_already_cancelled("t").code, TASK_ALREADY_CANCELLED);
}

#[test]
fn heartbeat_roundtrip() {
    let hb = Heartbeat {
        agent_id: Uuid::nil(),
        agent_version: "0.1.0".into(),
        uptime_sec: 3600,
        timestamp: 1_700_000_000_000,
        units: vec![
            UnitReport {
                name: "mysql-ctrl".into(),
                kind: UnitKind::Sidecar,
                version: "1.2.0".into(),
                state: "running".into(),
                health: Some(HealthStatus::Healthy),
                pid: Some(4521),
                health_error: None,
            },
            UnitReport {
                name: "mariadb-server".into(),
                kind: UnitKind::Package,
                version: "10.6.12".into(),
                state: "installed".into(),
                health: None,
                pid: None,
                health_error: None,
            },
        ],
        active_tasks: ActiveTaskCounts { oneshot: 2, continuous: 3, total: 5 },
    };
    let parsed: Heartbeat = read(&encode_text_pretty(&hb));
    assert_eq!(hb, parsed);
}

#[test]
fn active_task_counts_default() {
    let counts = ActiveTaskCounts::default();
    assert_eq!(counts.oneshot, 0);
    assert_eq!(counts.continuous, 0);
    assert_eq!(counts.total, 0);
}

#[test]
fn unit_report_optional_fields_absent_when_none() {
    let report = UnitReport {
        name: "test".into(),
        kind: UnitKind::Package,
        version: "1.0.0".into(),
        state: "installed".into(),
        health: None,
        pid: None,
        health_error: None,
    };
    let json = encode_text(&report);
    assert!(!json.contains("health"));
    assert!(!json.contains("pid"));
    assert!(!json.contains("health_error"));
}

#[test]
fn request_roundtrip() {
    let req = Request::new("submit", Some(object(&[("key", Json::text("value"))])), 42i64.into());
    let parsed: Request = read(&encode_text(&req));
    assert_eq!(req, parsed);
}

#[test]
fn request_without_params() {
    let req = Request::new("health", None, 1i64.into());
    let json = encode_text(&req);
    assert!(!json.contains("params"));
    let parsed: Request = read(&json);
    assert_eq!(parsed.params, None);
}

#[test]
fn success_response_roundtrip() {
    let resp = Response::success(RequestId::Integer(1), object(&[("status", Json::text("ok"))]));
    assert!(resp.is_success());
    let parsed: Response = read(&encode_text(&resp));
    assert_eq!(resp, parsed);
    assert!(parsed.is_success());
}

#[test]
fn error_response_roundtrip() {
    let resp = Response::error(
        RequestId::String("abc".into()),
        ErrorObject { code: -32601, message: "method not found".into(), data: None },
    );
    assert!(!resp.is_success());
    let parsed: Response = read(&encode_text(&resp));
    assert_eq!(resp, parsed);
}

#[test]
fn request_id_integer() {
    let id: RequestId = 42i64.into();
    let json = encode_text(&id);
    assert_eq!(json, "42");
    let parsed: RequestId = read(&json);
    assert_eq!(id, parsed);
}

#[test]
fn request_id_string() {
    let id: RequestId = RequestId::from_text("req-001");
    let json = encode_text(&id);
    assert_eq!(json, r#""req-001""#);
    let parsed: RequestId = read(&json);
    assert_eq!(id, parsed);
}

#[test]
fn request_id_display() {
    assert_eq!(RequestId::Integer(7).to_text(), "7");
    assert_eq!(RequestId::String("x".into()).to_text(), "x");
}

#[test]
fn submit_completed_roundtrip() {
    let resp = SubmitResponse::Completed {
        stdout: "hello world".into(),
        stderr: String::new(),
        truncated: false,
    };
    let json = encode_text(&resp);
    assert!(json.contains(r#""status":"completed""#));
    let parsed: SubmitResponse = read(&json);
    assert_eq!(resp, parsed);
    assert!(resp.is_terminal());
}

#[test]
fn submit_accepted_roundtrip() {
    let resp = SubmitResponse::Accepted { task_id: "task-001".into() };
    let json = encode_text(&resp);
    assert!(json.contains(r#""status":"accepted""#));
    let parsed: SubmitResponse = read(&json);
    assert_eq!(resp, parsed);
    assert!(!resp.is_terminal());
}

#[test]
fn submit_failed_roundtrip() {
    let resp = SubmitResponse::Failed {
        error: "connection refused".into(),
        stderr: "dial tcp: timeout".into(),
    };
    let parsed: SubmitResponse = read(&encode_text(&resp));
    assert_eq!(resp, parsed);
    assert!(resp.is_terminal());
}

#[test]
fn status_terminal_states() {
    assert!(!StatusResponse::Running.is_terminal());
    assert!(StatusResponse::Cancelled.is_terminal());
    assert!((StatusResponse::Completed {
        stdout: String::new(),
        stderr: String::new(),
        truncated: false,
    })
    .is_terminal());
    assert!((StatusResponse::Failed { error: "err".into(), stderr: String::new() }).is_terminal());
}

#[test]
fn health_response_minimal() {
    let resp = HealthResponse {
        status: HealthStatus::Healthy,
        version: None,
        error: None,
        metadata: None,
    };
    let json = encode_text(&resp);
    assert!(!json.contains("version"));
    assert!(!json.contains("error"));
    assert!(!json.contains("metadata"));
}

#[test]
fn health_status_values() {
    assert_eq!(encode_text(&HealthStatus::Healthy), r#""ok""#);
    assert_eq!(encode_text(&HealthStatus::Degraded), r#""degraded""#);
    assert_eq!(encode_text(&HealthStatus::Unhealthy), r#""unhealthy""#);
}

#[test]
fn cancel_response_roundtrip() {
    let resp = CancelResponse { cancelled: true };
    let parsed: CancelResponse = read(&encode_text(&resp));
    assert_eq!(resp, parsed);
}

#[test]
fn exec_task_serialization_has_type_field() {
    let task = Task::Exec(ExecTask { timeout_ms: 30_000, ..shell(0, "echo hello") });
    assert!(encode_text(&task).contains(r#""type":"exec""#));
}

#[test]
fn exec_task_roundtrip() {
    let task = Task::Exec(ExecTask {
        priority: Priority::High,
        tags: tags(&[("env", "prod")]),
        ..shell(0, "uptime")
    });
    let parsed: Task = read(&encode_text(&task));
    assert_eq!(task, parsed);
}

#[test]
fn continuous_exec_task_roundtrip() {
    let task = Task::Exec(ExecTask {
        id: Uuid::nil(),
        priority: Priority::Normal,
        tags: StringMap::new(),
        kind: ExecKind::Continuous,
        executor: Executor::Sidecar,
        target: Some("mysql-ctrl".into()),
        method: Some("submit".into()),
        payload: object(&[("action", Json::text("discover"))]),
        interval_ms: Some(30_000),
        timeout_ms: 5_000,
        credentials: vec![],
    });
    let parsed: Task = read(&encode_text(&task));
    assert_eq!(task, parsed);
}

#[test]
fn cancel_task_roundtrip() {
    let task = Task::Cancel(CancelTask {
        id: Uuid::nil(),
        priority: Priority::Critical,
        tags: StringMap::new(),
        target_task_id: Uuid::from_u128(1),
    });
    let json = encode_text(&task);
    assert!(json.contains(r#""type":"cancel""#));
    let parsed: Task = read(&json);
    assert_eq!(task, parsed);
}

#[test]
fn install_task_roundtrip() {
    let task = Task::Install(InstallTask {
        id: Uuid::nil(),
        priority: Priority::Normal,
        tags: StringMap::new(),
        unit: ManagedUnit {
            name: "echo-ctrl".into(),
            kind: UnitKind::Sidecar,
            version: "0.1.0".into(),
            artifact: Artifact {
                url: "https://example.com/echo-ctrl.tar.gz".into(),
                sha256: "abc123".into(),
            },
            state: Default::default(),
            health_check: None,
            config: None,
            socket_path: Some("/run/vasal/echo-ctrl.sock".into()),
        },
    });
    let parsed: Task = read(&encode_text(&task));
    assert_eq!(task, parsed);
}

#[test]
fn self_upgrade_task_roundtrip() {
    let task = Task::SelfUpgrade(SelfUpgradeTask {
        id: Uuid::nil(),
        priority: Priority::Critical,
        tags: StringMap::new(),
        target_version: "0.2.0".into(),
        artifact: Artifact {
            url: "https://example.com/vasal-0.2.0".into(),
            sha256: "deadbeef".into(),
        },
        rollback: Some(RollbackSpec {
            version: "0.1.0".into(),
            artifact: Artifact {
                url: "https://example.com/vasal-0.1.0".into(),
                sha256: "cafebabe".into(),
            },
        }),
    });
    let parsed: Task = read(&encode_text(&task));
    assert_eq!(task, parsed);
}

#[test]
fn upgrade_task_survives_as_bytes() {
    let task = Task::Upgrade(UpgradeTask {
        id: Uuid::from_u128(9),
        priority: Priority::Low,
        tags: tags(&[("a", "1"), ("b", "2")]),
        unit_name: "echo-ctrl".into(),
        target_version: "2.0".into(),
        artifact: Artifact { url: "u".into(), sha256: "s".into() },
        rollback: None,
    });
    let bytes = encode_bytes(&task);
    assert_eq!(bytes, encode_text(&task).into_bytes());
    assert_eq!(decode_bytes::<Task>(&bytes, "task"), Ok(task));
}

#[test]
fn task_accessors() {
    let id = Uuid::from_u128(42);
    let task = Task::Remove(RemoveTask {
        id,
        priority: Priority::Low,
        tags: tags(&[("key", "val")]),
        unit_name: "old-sidecar".into(),
        purge: true,
    });
    assert_eq!(task.id(), id);
    assert_eq!(task.priority(), Priority::Low);
    assert_eq!(task.tags().get("key").unwrap(), "val");
}

#[test]
fn task_chain_roundtrip() {
    let chain = TaskChain {
        id: Uuid::nil(),
        steps: vec![
            ChainStep { task: shell(1, "step1"), rollback: Some(shell(10, "undo step1")) },
            ChainStep { task: shell(2, "step2"), rollback: None },
        ],
        on_failure: RollbackStrategy::RollbackAll,
        tags: StringMap::new(),
    };
    let parsed: TaskChain = read(&encode_text_pretty(&chain));
    assert_eq!(chain, parsed);
}

#[test]
fn rollback_strategy_default_is_rollback_all() {
    assert_eq!(RollbackStrategy::default(), RollbackStrategy::RollbackAll);
}

#[test]
fn task_result_roundtrip() {
    let result = TaskResult {
        task_id: Uuid::nil(),
        chain_id: None,
        step_index: None,
        status: TaskResultStatus::Success,
        exit_code: Some(0),
        stdout: "hello\n".into(),
        stderr: String::new(),
        duration_ms: 42,
        timestamp: 1_700_000_000_000,
        error: None,
    };
    let parsed: TaskResult = read(&encode_text(&result));
    assert_eq!(result, parsed);
}

#[test]
fn task_result_chain_step() {
    let result = TaskResult {
        task_id: Uuid::from_u128(1),
        chain_id: Some(Uuid::from_u128(100)),
        step_index: Some(2),
        status: TaskResultStatus::RolledBack,
        exit_code: None,
        stdout: String::new(),
        stderr: "step failed".into(),
        duration_ms: 150,
        timestamp: 1_700_000_000_000,
        error: Some("connection refused".into()),
    };
    let json = encode_text(&result);
    assert!(json.contains(r#""chain_id""#));
    assert!(json.contains(r#""step_index":2"#));
}

#[test]
fn extreme_results_survive() {
    for status in [
        TaskResultStatus::Success,
        TaskResultStatus::Failed,
        TaskResultStatus::Cancelled,
        TaskResultStatus::Timeout,
        TaskResultStatus::RolledBack,
    ] {
        let result = TaskResult {
            task_id: Uuid::from_u128(u128::MAX),
            chain_id: Some(Uuid::nil()),
            step_index: Some(u32::MAX),
            status,
            exit_code: Some(i32::MIN),
            stdout: "\u{0}\"\\\n\u{1F600}".into(),
            stderr: "\t/".into(),
            duration_ms: u64::MAX,
            timestamp: u64::MAX,
            error: Some(String::new()),
        };
        let parsed: TaskResult = read(&encode_text(&result));
        assert_eq!(result, parsed);
    }
}

#[test]
fn priority_default_is_normal() {
    assert_eq!(Priority::default(), Priority::Normal);
}

#[test]
fn deserialize_exec_from_raw_json() {
    let raw = r#"{
        "type": "exec",
        "id": "00000000-0000-0000-0000-000000000001",
        "kind": "oneshot",
        "executor": "shell",
        "payload": { "script": "echo hello" },
        "timeout_ms": 30000
    }"#;
    let task: Task = read(raw);
    assert!(matches!(task, Task::Exec(ref t) if t.executor == Executor::Shell));
    assert_eq!(task.priority(), Priority::Normal);
}

#[test]
fn deserialize_remove_from_raw_json() {
    let raw = r#"{
        "type": "remove",
        "id": "00000000-0000-0000-0000-000000000002",
        "priority": "high",
        "unit_name": "old-ctrl",
        "purge": true
    }"#;
    let task: Task = read(raw);
    assert!(matches!(task, Task::Remove(ref t) if t.purge));
}

#[test]
fn managed_unit_sidecar_roundtrip() {
    let unit = ManagedUnit {
        name: "mysql-ctrl".into(),
        kind: UnitKind::Sidecar,
        version: "1.2.0".into(),
        artifact: Artifact {
            url: "https://artifacts.internal/mysql-ctrl-1.2.0.tar.gz".into(),
            sha256: "abcdef1234567890".into(),
        },
        state: UnitState::Running,
        health_check: None,
        config: Some(object(&[("port", Json::unsigned(3306))])),
        socket_path: Some("/run/vasal/mysql-ctrl.sock".into()),
    };
    let parsed: ManagedUnit = read(&encode_text_pretty(&unit));
    assert_eq!(unit, parsed);
}

#[test]
fn managed_unit_package_roundtrip() {
    let unit = ManagedUnit {
        name: "mariadb-server".into(),
        kind: UnitKind::Package,
        version: "10.6.12".into(),
        artifact: Artifact {
            url: "https://artifacts.internal/mariadb-10.6.12.deb".into(),
            sha256: "deadbeef".into(),
        },
        state: UnitState::Installed,
        health_check: Some(HealthCheck {
            command: "systemctl is-active mariadb".into(),
            timeout_ms: 3000,
        }),
        config: None,
        socket_path: None,
    };
    let parsed: ManagedUnit = read(&encode_text(&unit));
    assert_eq!(unit, parsed);
}

#[test]
fn unit_state_default_is_absent() {
    assert_eq!(UnitState::default(), UnitState::Absent);
}

#[test]
fn health_check_default_timeout() {
    let hc: HealthCheck = read(r#"{"command":"true"}"#);
    assert_eq!(hc.timeout_ms, 5_000);
}

#[test]
fn unit_kind_serialization() {
    assert_eq!(encode_text(&UnitKind::Sidecar), r#""sidecar""#);
    assert_eq!(encode_text(&UnitKind::Package), r#""package""#);
}

#[test]
fn faults_name_the_member() {
    let missing = decode_text::<Task>(r#"{"type":"cancel"}"#, "task");
    assert_eq!(missing, Err("missing field `id`".to_string()));
    let wrong = decode_text::<HealthCheck>(r#"{"command":7}"#, "check");
    assert_eq!(wrong, Err("invalid value for field `command`".to_string()));
    let unknown = decode_text::<Task>(r#"{"type":"dance"}"#, "task");
    assert_eq!(unknown, Err("invalid value for field `type`".to_string()));
    assert!(decode_text::<Task>("{", "task").is_err());
}

#[test]
fn null_params_read_as_none() {
    let request: Request = read(r#"{"jsonrpc":"2.0","method":"m","params":null,"id":1}"#);
    assert_eq!(request.params, None);
}

#[test]
fn later_member_counts() {
    let j = parse_text(r#"{"a":1,"a":2}"#).unwrap();
    assert_eq!(j.get("a").unwrap().as_u64(), Some(2));
}

#[test]
fn numbers_keep_their_kind() {
    let j = parse_text("[0, -1, 18446744073709551615, -9223372036854775808, 1.5]").unwrap();
    let items = match &j {
        Json::Array(a) => a,
        other => panic!("{other:?}"),
    };
    assert_eq!(items[0].as_u64(), Some(0));
    assert_eq!(items[1].as_i64(), Some(-1));
    assert_eq!(items[1].as_u64(), None);
    assert_eq!(items[2].as_u64(), Some(u64::MAX));
    assert_eq!(items[2].as_i64(), None);
    assert_eq!(items[3].as_i64(), Some(i64::MIN));
    match &items[4] {
        Json::Number(JsonNumber::Float(f)) => assert_eq!(f.number().as_f64(), Some(1.5)),
        other => panic!("{other:?}"),
    }
    assert_eq!(j.to_text(), "[0,-1,18446744073709551615,-9223372036854775808,1.5]");
}

#[test]
fn only_floats_are_carried_as_floats() {
    assert!(JsonFloat::new(serde_json::Number::from(3u64)).is_none());
    let half = JsonFloat::new(serde_json::Number::from_f64(0.5).unwrap()).unwrap();
    assert_eq!(half.duplicate().number().as_f64(), Some(0.5));
}

#[test]
fn texts_are_written_in_the_order_of_keys() {
    let j = object(&[("b", Json::Bool(true)), ("a", Json::Null)]);
    assert_eq!(j.to_text(), r#"{"a":null,"b":true}"#);
    assert_eq!(j.to_text_pretty(), "{\n  \"a\": null,\n  \"b\": true\n}");
    assert_eq!(j.to_bytes(), br#"{"a":null,"b":true}"#.to_vec());
}

#[test]
fn deep_texts_are_not_read() {
    let nested = |n: usize| format!("{}{}", "[".repeat(n), "]".repeat(n));
    assert!(parse_text(&nested(127)).is_ok());
    assert!(parse_text(&nested(128)).is_err());
}

#[test]
fn uuids_read_their_text() {
    for bits in [0u128, 1, u128::MAX, 0x0123_4567_89ab_cdef_0123_4567_89ab_cdef] {
        let id = Uuid::from_u128(bits);
        assert_eq!(Uuid::parse(&id.to_text()), Some(id));
        assert_eq!(id.as_u128(), bits);
    }
    let id = Uuid::from_u128(0x0123_4567_89ab_cdef_0123_4567_89ab_cdef);
    assert_eq!(id.to_text(), "01234567-89ab-cdef-0123-456789abcdef");
    for text in [
        "0123456789abcdef0123456789ABCDEF",
        "{01234567-89ab-cdef-0123-456789abcdef}",
        "urn:uuid:01234567-89ab-cdef-0123-456789abcdef",
    ] {
        assert_eq!(Uuid::parse(text), Some(id), "{text}");
    }
    for text in ["", "01234567", "01234567-89ab-cdef-0123-456789abcdeg", "not a uuid"] {
        assert_eq!(Uuid::parse(text), None, "{text}");
    }
}

fn refused<T: Wire>(text: &str) {
    assert!(decode_text::<T>(text, "value").is_err(), "{text}");
}

#[test]
fn structures_are_read_from_lists() {
    let request: Request = read(r#"["2.0", "health", null, 5]"#);
    assert_eq!(request, Request::new("health", None, RequestId::Integer(5)));
    refused::<Request>(r#"["2.0", "health", null]"#);
    refused::<Request>(r#"["2.0", "health", null, 5, 6]"#);
    let check: HealthCheck = read(r#"["true"]"#);
    assert_eq!(check, HealthCheck { command: "true".into(), timeout_ms: 5_000 });
    refused::<HealthCheck>("[]");
    refused::<HealthCheck>(r#"[1]"#);
    let chain = r#"["00000000-0000-0000-0000-000000000001", []]"#;
    assert_eq!(read::<TaskChain>(chain).on_failure, RollbackStrategy::RollbackAll);
}

#[test]
fn tagged_values_are_read_from_lists() {
    let id = "00000000-0000-0000-0000-000000000001";
    let text = format!(r#"["cancel", "{id}", "high", {{}}, "{id}"]"#);
    match read::<Task>(&text) {
        Task::Cancel(t) => assert_eq!(t.priority, Priority::High),
        other => panic!("{other:?}"),
    }
    refused::<Task>(&format!(r#"[1, "{id}", "high", {{}}, "{id}"]"#));
    refused::<Task>("[]");
    assert_eq!(read::<StatusResponse>(r#"["running", 1, 2]"#), StatusResponse::Running);
    assert_eq!(
        read::<SubmitResponse>(r#"["failed", "no"]"#),
        SubmitResponse::Failed { error: "no".into(), stderr: "".into() }
    );
    refused::<SubmitResponse>(r#"["failed"]"#);
    refused::<SubmitResponse>(r#"["failed", "no", "", 1]"#);
}

#[test]
fn names_are_read_from_objects() {
    assert_eq!(read::<Priority>(r#"{"high": null}"#), Priority::High);
    refused::<Priority>(r#"{"high": {}}"#);
    refused::<Priority>(r#"{"high": null, "low": null}"#);
    refused::<Priority>(r#"{"highest": null}"#);
    refused::<Priority>("{}");
    let id = "00000000-0000-0000-0000-000000000001";
    let cancel = |priority: &str| {
        format!(r#"{{"type": "cancel", "id": "{id}", "priority": {priority}, "target_task_id": "{id}"}}"#)
    };
    for form in [r#"{"high": null}"#, r#"{"high": {}}"#, r#""high""#] {
        assert!(matches!(read::<Task>(&cancel(form)), Task::Cancel(t) if t.priority == Priority::High));
    }
    refused::<Task>(&cancel(r#"{"high": []}"#));
}

#[test]
fn a_tag_beside_a_tag_may_be_a_number() {
    refused::<CredentialProvider>(r#"{"type": 0, "endpoint": "http://x"}"#);
    let id = "00000000-0000-0000-0000-000000000001";
    let exec = |kind: &str| {
        format!(
            r#"{{"type": "exec", "id": "{id}", "kind": "oneshot", "executor": "shell", "timeout_ms": 1,
            "credentials": [{{"name": "c", "resolve": "eager", "provider": {{"type": {kind}, "endpoint": "e", "method": "m"}}}}]}}"#
        )
    };
    match read::<Task>(&exec("1")) {
        Task::Exec(t) => assert_eq!(
            t.credentials[0].provider,
            CredentialProvider::Sidecar { endpoint: "e".into(), method: "m".into() }
        ),
        other => panic!("{other:?}"),
    }
    refused::<Task>(&exec("2"));
    refused::<Task>(&exec("-1"));
}
