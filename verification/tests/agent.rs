//! The agent's configuration, tokens, counters, transports and life.

use vasal::agent::audit::{
    audit_row, check_flush_answer, prepare_flush, record, Flush, ForwardAction, ForwardEvent,
    Forwarder, AGENT_STARTED,
    TASK_RECEIVED,
};
use vasal::agent::auth::{
    bootstrap_request, bootstrap_unreadable, read_token_answer, refresh_request, start,
    AuthManager, AuthStart, PersistedTokens, TokenResponse, TokenStore, BOOTSTRAP_PATH,
};
use vasal::agent::bootstrap::{Bootstrap, BootstrapAction, BootstrapEvent};
use vasal::agent::config::{
    change_text, config_diff_lines, log_config_diff, read_failure, warn_restart_required, Config,
    LintSeverity, RestartField, RuntimeField, TransportMode,
};
use vasal::agent::error::Error;
use vasal::agent::heartbeat::beat;
use vasal::agent::metrics::{textfile_paths, Metrics};
use vasal::agent::run::{
    choose_transport, reload, resolve_agent_id, shutdown_detail, started_detail, user_agent,
    ChosenTransport, LoopAction, LoopEvent, MainLoop, Reload,
};
use vasal::agent::self_upgrade::{
    check_pending, completed_detail, judge_download, judge_pending, plan_replacement, rollback,
    unknown_executable, FileStep, PendingFile, PendingUpgrade, Verdict,
};
use vasal::agent::state::{
    now_ms, now_sec, stored_ms, stored_pid, whole_seconds, AuditRow, UnitRow,
};
use vasal::agent::transport::grpc::{
    decode_work, ControlPayload, GrpcLink, LinkAction, LinkEvent, LinkFault, LinkOutcome,
};
use vasal::agent::transport::poll::{judge_report, read_poll, PollTransport};
use vasal::agent::transport::work::ReceivedWork;
use vasal::ids::Uuid;
use vasal::json::{parse_text, Json};
use vasal::text::same_path;
use vasal::protocol::error::ProtocolError;
use vasal::protocol::heartbeat::ActiveTaskCounts;
use vasal::protocol::sidecar::HealthStatus;
use vasal::protocol::task::{TaskResult, TaskResultStatus};
use vasal::protocol::unit::UnitKind;
use vasal::wire::{encode_text, Form, Wire};

const MINIMAL_CONFIG: &str = r#"
[agent]

[transport]
mode = "poll"

[transport.poll]
endpoint = "https://cp.internal/api/v1"

[heartbeat]
endpoint = "https://cp.internal/api/v1/heartbeat"

[audit]
endpoint = "https://cp.internal/api/v1/audit"

[auth]
provider = "https://auth.internal/v1/token"

[shell]

[units]
"#;

fn minimal() -> Config {
    Config::load("config.toml", MINIMAL_CONFIG).unwrap()
}

#[test]
fn toml_tables_and_lists_stand_for_names_and_structures() {
    let load = |from: &str, to: &str| {
        assert!(MINIMAL_CONFIG.contains(from));
        Config::load("config.toml", &MINIMAL_CONFIG.replace(from, to))
    };
    let mode = "mode = \"poll\"";
    for form in ["mode = { grpc = {} }", "mode = { grpc = [] }"] {
        assert_eq!(load(mode, form).unwrap().transport.mode, TransportMode::Grpc);
    }
    assert!(load(mode, "mode = { grpc = 1 }").is_err());
    assert!(load(mode, "mode = { grpc = {}, poll = {} }").is_err());
    let poll = "[transport.poll]\nendpoint = \"https://cp.internal/api/v1\"\n";
    let listed = load(poll, "poll = [\"https://cp\", 7, \"more\"]\n").unwrap();
    assert_eq!(listed.transport.poll.unwrap().interval_sec, 7);
    assert!(load(poll, "poll = []\n").is_err());
}

#[test]
fn numbers_without_a_value_are_refused() {
    let with = |line: &str| {
        let text = MINIMAL_CONFIG.replace("[agent]", &format!("[agent]\n{line}"));
        Config::load("config.toml", &text)
    };
    assert!(with("name = \"a\"").is_ok());
    assert!(with("name = nan").is_err());
    assert!(with("id = inf").is_err());
    assert!(with("unheard_of = nan").is_ok());
}

fn response(access: &str, refresh: Option<&str>, expires_in: Option<u64>) -> TokenResponse {
    TokenResponse {
        access_token: access.into(),
        refresh_token: refresh.map(|s| s.into()),
        expires_in,
        token_type: None,
    }
}

#[test]
fn auth_empty_store_has_no_token() {
    let store = TokenStore::empty();
    assert!(store.access_token().is_none());
}

#[test]
fn auth_from_response_and_access() {
    let store = TokenStore::from_response(TokenResponse {
        access_token: "abc123".into(),
        refresh_token: Some("refresh456".into()),
        expires_in: Some(3600),
        token_type: Some("Bearer".into()),
    });
    assert_eq!(store.access_token().unwrap(), "abc123");
}

#[test]
fn auth_save_and_load_roundtrip() {
    let store = TokenStore::from_response(response("tok", Some("ref"), Some(7200)));
    let text = store.save().unwrap();
    let loaded = TokenStore::load(&text).unwrap();
    assert_eq!(loaded.access_token().unwrap(), "tok");
}

#[test]
fn auth_expired_token_returns_none() {
    let store = TokenStore::with_tokens(PersistedTokens {
        access_token: "expired".into(),
        refresh_token: None,
        expires_at: Some(0),
    });
    assert!(store.access_token().is_none());
}

#[test]
fn token_empty_store_has_no_token() {
    let auth = AuthManager::new(TokenStore::empty());
    assert!(auth.access_token().is_none());
    assert!(auth.token_store().access_token().is_none());
}

#[test]
fn token_from_response_and_access() {
    let auth = AuthManager::new(TokenStore::from_response(TokenResponse {
        access_token: "abc123".into(),
        refresh_token: Some("refresh456".into()),
        expires_in: Some(3600),
        token_type: Some("Bearer".into()),
    }));
    assert_eq!(auth.access_token().unwrap(), "abc123");
}

#[test]
fn token_save_and_load_roundtrip() {
    let store = TokenStore::from_response_at(response("tok", Some("ref"), Some(7200)), 1_000);
    let text = store.save().unwrap();
    assert_eq!(
        text,
        "{\n  \"access_token\": \"tok\",\n  \"expires_at\": 8200,\n  \"refresh_token\": \"ref\"\n}"
    );
    let loaded = TokenStore::load(&text).unwrap();
    assert_eq!(loaded.access_token_at(1_000).unwrap(), "tok");
    assert_eq!(loaded.refresh_token().unwrap(), "ref");
}

#[test]
fn token_expired_token_returns_none() {
    let auth = AuthManager::new(TokenStore::with_tokens(PersistedTokens {
        access_token: "expired".into(),
        refresh_token: None,
        expires_at: Some(0),
    }));
    assert!(auth.access_token().is_none());
}

#[test]
fn tokens_end_thirty_seconds_early() {
    let store = TokenStore::from_response_at(response("t", Some("r"), Some(100)), 1_000);
    assert_eq!(store.access_token_at(1_069).as_deref(), Some("t"));
    assert_eq!(store.access_token_at(1_070), None);
    assert!(!store.refresh_due_at(1_069));
    assert!(store.refresh_due_at(1_070));
    let endless = TokenStore::from_response_at(response("t", None, None), 0);
    assert_eq!(endless.access_token_at(u64::MAX).as_deref(), Some("t"));
    assert!(!endless.refresh_due_at(u64::MAX));
    let auth = AuthManager::new(store);
    assert_eq!(auth.authorization_at(1_000).as_deref(), Some("Bearer t"));
    assert_eq!(auth.authorization_at(2_000), None);
}

#[test]
fn refresh_keeps_the_refresh_token() {
    let mut store = TokenStore::from_response_at(response("a", Some("r1"), Some(10)), 0);
    store.on_refreshed_at("r1".into(), Ok(response("b", None, Some(1_000))), 100).unwrap();
    assert_eq!(store.access_token_at(100).as_deref(), Some("b"));
    assert_eq!(store.refresh_token().unwrap(), "r1");
    store.on_refreshed_at("r1".into(), Ok(response("c", Some("r2"), None)), 100).unwrap();
    assert_eq!(store.refresh_token().unwrap(), "r2");
    let failed = store.on_refreshed_at("r2".into(), Err(Error::Http("down".into())), 100);
    assert_eq!(failed.unwrap_err().to_text(), "HTTP: down");
    assert_eq!(store.access_token_at(100).as_deref(), Some("c"));
    let none = TokenStore::empty().refresh_token().unwrap_err();
    assert_eq!(none.to_text(), "authentication: no refresh token available");
    assert!(TokenStore::empty().save().is_none());
    assert_eq!(
        refresh_request("r2").to_text(),
        r#"{"grant_type":"refresh_token","refresh_token":"r2"}"#
    );
}

#[test]
fn token_answers_are_judged() {
    let good = read_token_answer("token refresh", 200, "200 OK", br#"{"access_token":"x"}"#);
    assert_eq!(good.unwrap().access_token, "x");
    let refused = read_token_answer("token refresh", 401, "401 Unauthorized", b"").unwrap_err();
    assert_eq!(
        refused.to_text(),
        "authentication: token refresh returned HTTP 401 Unauthorized"
    );
    let bad = read_token_answer("bootstrap auth", 200, "200 OK", b"{}").unwrap_err();
    assert_eq!(bad.to_text(), "HTTP: error decoding response body");
}

#[test]
fn bootstrap_presents_the_one_time_key() {
    assert_eq!(BOOTSTRAP_PATH, "/etc/vasal/onetimeauth.toml");
    let key = "[bootstrap]\nkey = \"k1\"\nauth_endpoint = \"https://auth\"\n";
    let body = bootstrap_request(key).unwrap();
    assert_eq!(body.to_text(), r#"{"grant_type":"one_time_key","key":"k1"}"#);
    let bad = bootstrap_request("[bootstrap]\nkey = \"k1\"\n").unwrap_err();
    assert_eq!(
        bad.to_text(),
        "authentication: failed to parse bootstrap config: missing field `auth_endpoint`"
    );
    assert!(bootstrap_request("= nonsense").is_err());
    assert_eq!(
        bootstrap_unreadable("/p", "denied").to_text(),
        "authentication: failed to read bootstrap config /p: denied"
    );
}

#[test]
fn start_prefers_kept_tokens() {
    let text = TokenStore::from_response_at(response("t", None, None), 0).save();
    match start(text, true) {
        AuthStart::Kept(auth) => assert_eq!(auth.access_token().as_deref(), Some("t")),
        other => panic!("{other:?}"),
    }
    assert!(matches!(start(Some("garbage".into()), true), AuthStart::Bootstrap));
    assert!(matches!(start(None, true), AuthStart::Bootstrap));
    match start(None, false) {
        AuthStart::Unauthenticated(auth) => assert!(auth.access_token().is_none()),
        other => panic!("{other:?}"),
    }
}

#[test]
fn parse_minimal_config() {
    let config = minimal();
    assert_eq!(config.transport.mode, TransportMode::Poll);
    assert_eq!(config.shell.max_concurrent, 4);
    assert_eq!(config.shell.default_timeout_ms, 300_000);
    assert_eq!(config.agent.log_level, "info");
}

#[test]
fn every_default_is_filled_in() {
    let c = minimal();
    assert_eq!(c.agent.id, None);
    assert_eq!(c.agent.name, None);
    assert_eq!(c.agent.data_dir, "/var/lib/vasal");
    assert_eq!(c.agent.socket_dir, "/run/vasal");
    assert_eq!(c.transport.poll.as_ref().unwrap().interval_sec, 10);
    assert_eq!(c.transport.grpc, None);
    assert_eq!(c.heartbeat.interval_sec, 10);
    assert_eq!(c.audit.batch_size, 50);
    assert_eq!(c.audit.flush_interval_sec, 5);
    assert_eq!(c.auth.token_file, "/var/lib/vasal/token.json");
    assert_eq!(c.shell.working_dir, "/tmp/vasal");
    assert_eq!(c.units.artifact_cache_dir, "/var/cache/vasal");
    assert_eq!(c.units.health_check_interval_sec, 30);
    assert!(!c.telemetry.enabled);
    assert_eq!(c.telemetry.otlp_endpoint, "http://localhost:4318");
    assert_eq!(c.telemetry.service_name, "vasal");
}

#[test]
fn runtime_config_extraction() {
    let rt = minimal().runtime();
    assert_eq!(rt.log_level, "info");
    assert_eq!(rt.max_concurrent, 4);
    assert_eq!(rt.heartbeat_interval_sec, 10);
}

#[test]
fn transport_mode_default() {
    assert_eq!(TransportMode::default(), TransportMode::Poll);
}

#[test]
fn config_lint_catches_disabled_auth() {
    let mut config = minimal();
    config.auth.provider = "none".into();
    let lints = config.lint(true);
    assert!(lints
        .iter()
        .any(|l| l.severity == LintSeverity::Warning && l.message.contains("unauthenticated")));
}

#[test]
fn config_lint_catches_zero_concurrency() {
    let mut config = minimal();
    config.shell.max_concurrent = 0;
    let lints = config.lint(true);
    assert!(lints
        .iter()
        .any(|l| l.severity == LintSeverity::Error && l.message.contains("max_concurrent")));
}

#[test]
fn config_lint_finds_all_there_is() {
    assert!(minimal().lint(true).is_empty());
    let missing = minimal().lint(false);
    assert_eq!(missing.len(), 1);
    assert_eq!(
        missing[0].message,
        "agent.data_dir \"/var/lib/vasal\" does not exist — it will be created on startup"
    );
    let mut config = minimal();
    config.auth.provider = String::new();
    config.transport.poll = None;
    config.heartbeat.endpoint = String::new();
    let messages: Vec<String> = config.lint(true).into_iter().map(|l| l.message).collect();
    assert_eq!(
        messages,
        [
            "auth.provider is disabled — the agent will run unauthenticated. Set auth.provider to an auth endpoint for production deployments.",
            "transport.mode = \"poll\" but [transport.poll] section is missing",
            "heartbeat.endpoint is empty — heartbeats will fail",
        ]
    );
    config.transport.mode = TransportMode::Grpc;
    assert!(config
        .lint(true)
        .iter()
        .any(|l| l.message == "transport.mode = \"grpc\" but [transport.grpc] section is missing"));
}

#[test]
fn config_load_from_toml_file() {
    let text = r#"
[agent]
log_level = "debug"

[transport]
mode = "poll"

[transport.poll]
endpoint = "https://cp.example.com/api/v1"
interval_sec = 5

[heartbeat]
interval_sec = 15
endpoint = "https://cp.example.com/api/v1/heartbeat"

[audit]
endpoint = "https://cp.example.com/api/v1/audit"
batch_size = 100

[auth]
provider = "https://auth.example.com/v1/token"

[shell]
max_concurrent = 8
default_timeout_ms = 60000

[units]
health_check_interval_sec = 60
"#;
    let config = Config::load("config.toml", text).unwrap();
    assert_eq!(config.agent.log_level, "debug");
    assert_eq!(config.shell.max_concurrent, 8);
    assert_eq!(config.shell.default_timeout_ms, 60_000);
    assert_eq!(config.heartbeat.interval_sec, 15);

    let rt = config.runtime();
    assert_eq!(rt.log_level, "debug");
    assert_eq!(rt.max_concurrent, 8);
    assert_eq!(rt.heartbeat_interval_sec, 15);
    assert_eq!(rt.health_check_interval_sec, 60);
    assert_eq!(rt.audit_batch_size, 100);
}

#[test]
fn config_load_invalid_toml_returns_error() {
    let e = Config::load("bad.toml", "this is not valid toml [[[").unwrap_err();
    assert!(e.to_text().starts_with("configuration: failed to parse bad.toml: "));
}

#[test]
fn config_load_missing_file_returns_error() {
    let e = read_failure("/tmp/vasal-nonexistent-config.toml", "gone");
    assert_eq!(
        e.to_text(),
        "configuration: failed to read /tmp/vasal-nonexistent-config.toml: gone"
    );
}

#[test]
fn config_without_a_section_is_refused() {
    let text = MINIMAL_CONFIG.replace("[units]\n", "");
    let e = Config::load("c.toml", &text).unwrap_err();
    assert_eq!(e.to_text(), "configuration: failed to parse c.toml: missing field `units`");
}

#[test]
fn reload_applies_what_changed() {
    let old = minimal();
    match reload(&old, &Ok(minimal())) {
        Reload::Applied { restart, changes, runtime } => {
            assert!(restart.is_empty() && changes.is_empty() && runtime.is_none());
        }
        other => panic!("{other:?}"),
    }
    let mut new = minimal();
    new.agent.log_level = "debug".into();
    new.shell.max_concurrent = 9;
    new.agent.data_dir = "/elsewhere".into();
    new.transport.poll.as_mut().unwrap().endpoint = "https://other".into();
    match reload(&old, &Ok(new)) {
        Reload::Applied { restart, changes, runtime } => {
            assert_eq!(restart, [RestartField::PollEndpoint, RestartField::DataDir]);
            assert_eq!(changes, [RuntimeField::LogLevel, RuntimeField::MaxConcurrent]);
            assert_eq!(runtime.unwrap().max_concurrent, 9);
        }
        other => panic!("{other:?}"),
    }
    match reload(&old, &Err(Error::Config("bad".into()))) {
        Reload::Kept(e) => assert_eq!(e.to_text(), "configuration: bad"),
        other => panic!("{other:?}"),
    }
}

#[test]
fn every_change_has_its_field() {
    let old = minimal();
    let mut new = minimal();
    new.heartbeat.interval_sec = 1;
    new.units.health_check_interval_sec = 2;
    new.audit.batch_size = 3;
    new.audit.flush_interval_sec = 4;
    assert_eq!(
        log_config_diff(&old.runtime(), &new.runtime()),
        [
            RuntimeField::HeartbeatIntervalSec,
            RuntimeField::HealthCheckIntervalSec,
            RuntimeField::AuditBatchSize,
            RuntimeField::AuditFlushIntervalSec,
        ]
    );
    assert_eq!(
        config_diff_lines(&old.runtime(), &new.runtime()),
        [
            "heartbeat_interval_sec changed: 10 -> 1",
            "health_check_interval_sec changed: 30 -> 2",
            "audit_batch_size changed: 50 -> 3",
            "audit_flush_interval_sec changed: 5 -> 4",
        ]
    );
    assert!(config_diff_lines(&old.runtime(), &old.runtime()).is_empty());
    new.agent.log_level = "debug".into();
    new.shell.max_concurrent = 9;
    let (before, after) = (old.runtime(), new.runtime());
    assert_eq!(
        change_text(RuntimeField::LogLevel, &before, &after),
        "log_level changed: info -> debug"
    );
    assert_eq!(
        change_text(RuntimeField::MaxConcurrent, &after, &before),
        "max_concurrent changed: 9 -> 4"
    );
    new.transport.mode = TransportMode::Grpc;
    new.transport.grpc = Some(vasal::agent::config::GrpcConfig {
        endpoint: "http://cp".into(),
        reconnect_interval_sec: 5,
    });
    new.agent.socket_dir = "/s".into();
    new.auth.provider = "none".into();
    let fields = warn_restart_required(&old, &new);
    assert_eq!(
        fields,
        [
            RestartField::TransportMode,
            RestartField::GrpcEndpoint,
            RestartField::SocketDir,
            RestartField::AuthProvider,
        ]
    );
    assert_eq!(fields[0].warning(), "transport.mode changed — restart required");
}

#[test]
fn a_path_spelled_otherwise_is_no_change() {
    let old = minimal();
    let mut new = minimal();
    new.agent.data_dir = format!("{}/", old.agent.data_dir);
    new.agent.socket_dir = old.agent.socket_dir.replace("/", "//./");
    assert!(warn_restart_required(&old, &new).is_empty());
    for (a, b) in [("a/b", "a//b/"), ("/", "//"), ("./a", "./a/."), ("/a/./b", "/a/b"), ("", "")] {
        assert!(same_path(a, b), "{a} {b}");
        assert_eq!(std::path::Path::new(a), std::path::Path::new(b));
    }
    for (a, b) in [("/a", "a"), ("./a", "a"), ("a/..", "."), ("a", "ab"), ("", "/"), ("", ".")] {
        assert!(!same_path(a, b), "{a} {b}");
        assert_ne!(std::path::Path::new(a), std::path::Path::new(b));
    }
}

#[test]
fn metrics_increment_and_export() {
    let mut m = Metrics::new();
    m.tasks_received += 5;
    m.tasks_succeeded += 3;
    m.tasks_failed += 2;
    m.active_tasks = 1;

    let prom = m.to_prometheus();
    assert!(prom.contains("vasal_tasks_received_total 5"));
    assert!(prom.contains("vasal_tasks_succeeded_total 3"));
    assert!(prom.contains("vasal_tasks_failed_total 2"));
    assert!(prom.contains("vasal_active_tasks 1"));
    assert!(prom.contains("# TYPE vasal_tasks_received_total counter"));
    assert!(prom.contains("# TYPE vasal_active_tasks gauge"));
}

#[test]
fn metrics_to_json() {
    let mut m = Metrics::new();
    m.tasks_received += 10;
    let json = m.to_json();
    assert_eq!(json.get("tasks_received").unwrap().as_u64(), Some(10));
    assert_eq!(
        Metrics::default().to_json().to_text(),
        "{\"active_tasks\":0,\"audit_events_forwarded\":0,\"heartbeats_sent\":0,\"sidecar_calls\":0,\"tasks_cancelled\":0,\"tasks_failed\":0,\"tasks_received\":0,\"tasks_succeeded\":0,\"tasks_timed_out\":0}"
    );
}

#[test]
fn results_are_counted_by_status() {
    let mut m = Metrics::new();
    for status in [
        TaskResultStatus::Success,
        TaskResultStatus::Failed,
        TaskResultStatus::RolledBack,
        TaskResultStatus::Cancelled,
        TaskResultStatus::Timeout,
        TaskResultStatus::Timeout,
        TaskResultStatus::Timeout,
    ] {
        m.count_result(status);
    }
    assert_eq!((m.tasks_succeeded, m.tasks_failed), (1, 2));
    assert_eq!((m.tasks_cancelled, m.tasks_timed_out), (1, 3));
    assert_eq!((m.tasks_received, m.active_tasks), (0, 0));
    m.tasks_failed = u64::MAX;
    m.count_result(TaskResultStatus::Failed);
    assert_eq!(m.tasks_failed, 0);
}

#[test]
fn metrics_are_exported_line_by_line() {
    let prom = Metrics::default().to_prometheus();
    let lines: Vec<&str> = prom.lines().collect();
    assert_eq!(lines.len(), 45);
    assert_eq!(lines[0], "# HELP vasal_tasks_received_total Total tasks received");
    assert_eq!(lines[1], "# TYPE vasal_tasks_received_total counter");
    assert_eq!(lines[2], "vasal_tasks_received_total 0");
    assert_eq!(lines[41], "vasal_config_reloads_total 0");
    assert_eq!(lines[42], "# HELP vasal_active_tasks Number of currently active tasks");
    assert!(prom.ends_with("vasal_active_tasks 0\n"));
    assert_eq!(
        textfile_paths("/var/lib"),
        ("/var/lib/vasal.prom.tmp".to_string(), "/var/lib/vasal.prom".to_string())
    );
}

#[test]
fn check_pending_no_file() {
    let (pending, remove) = check_pending(&PendingFile::Absent);
    assert!(pending.is_none());
    assert!(!remove);
}

#[test]
fn check_pending_valid_file() {
    let state = PendingUpgrade {
        target_version: "0.2.0".into(),
        previous_version: "0.1.0".into(),
        rollback_path: "/data/vasal.0.1.0.bak".into(),
        initiated_at: 1_700_000_000_000,
    };
    let (result, remove) = check_pending(&PendingFile::Text(encode_text(&state)));
    let result = result.unwrap();
    assert_eq!(result.target_version, "0.2.0");
    assert_eq!(result.previous_version, "0.1.0");
    assert!(remove);
}

#[test]
fn check_pending_corrupt_file() {
    let (pending, remove) = check_pending(&PendingFile::Text("not json".into()));
    assert!(pending.is_none());
    assert!(remove);
    let (pending, remove) = check_pending(&PendingFile::Unreadable);
    assert!(pending.is_none());
    assert!(remove);
}

#[test]
fn replacement_keeps_the_program_first() {
    let steps = plan_replacement("0.2.0", "0.1.0", "/data", "/usr/bin/vasal", 7);
    assert_eq!(steps.len(), 5);
    match &steps[0] {
        FileStep::Copy { from, to } => {
            assert_eq!(from, "/usr/bin/vasal");
            assert_eq!(to, "/data/vasal.0.1.0.bak");
        }
        other => panic!("{other:?}"),
    }
    let pending = match &steps[1] {
        FileStep::WriteText { path, text } => {
            assert_eq!(path, "/data/pending-upgrade.json");
            check_pending(&PendingFile::Text(text.clone())).0.unwrap()
        }
        other => panic!("{other:?}"),
    };
    assert_eq!(pending.rollback_path, "/data/vasal.0.1.0.bak");
    assert_eq!(pending.initiated_at, 7);
    assert!(matches!(&steps[2], FileStep::WriteProgram { path } if path == "/data/vasal.new"));
    assert!(matches!(&steps[3], FileStep::MakeExecutable { path } if path == "/data/vasal.new"));
    assert!(matches!(&steps[4], FileStep::Rename { from, to }
        if from == "/data/vasal.new" && to == "/usr/bin/vasal"));
    match rollback(&pending, true, "/usr/bin/vasal").unwrap() {
        FileStep::Rename { from, to } => {
            assert_eq!(from, "/data/vasal.0.1.0.bak");
            assert_eq!(to, "/usr/bin/vasal");
        }
        other => panic!("{other:?}"),
    }
    assert_eq!(judge_pending(&pending, &pending.target_version, true), Verdict::Completed);
    assert_eq!(judge_pending(&pending, &pending.target_version, false), Verdict::RollBack);
    assert_eq!(judge_pending(&pending, &pending.previous_version, true), Verdict::RollBack);
    assert_eq!(
        completed_detail(&pending).to_text(),
        format!(
            r#"{{"previous_version":"0.1.0","version":"{}"}}"#,
            pending.target_version
        )
    );
    let gone = rollback(&pending, false, "/usr/bin/vasal").unwrap_err();
    assert_eq!(gone.to_text(), "unit management: rollback binary not found");
    assert_eq!(
        unknown_executable("why").to_text(),
        "I/O: cannot determine current executable path: why"
    );
}

#[test]
fn upgrades_are_checked_by_digest() {
    let abc = "ba7816bf8f01cfea414140de5dae2223b00361a396177a9cb410ff61f20015ad";
    assert!(judge_download(200, "200 OK", b"abc", abc).is_ok());
    let wrong = judge_download(200, "200 OK", b"abd", abc).unwrap_err();
    assert!(wrong.to_text().starts_with(&format!("SHA-256 mismatch: expected {abc}, got ")));
    let refused = judge_download(404, "404 Not Found", b"abc", abc).unwrap_err();
    assert_eq!(
        refused.to_text(),
        "transport: artifact download returned HTTP 404 Not Found"
    );
}

#[test]
fn polled_work_is_read_item_by_item() {
    let poll = PollTransport::new("https://cp/api".into(), 10);
    assert_eq!(poll.pending_url(), "https://cp/api/tasks/pending");
    assert_eq!(poll.result_url(), "https://cp/api/tasks/result");
    assert_eq!(poll.interval_sec(), 10);
    assert!(read_poll(200, "200 OK", " \n").unwrap().is_empty());
    assert!(read_poll(200, "200 OK", " [] ").unwrap().is_empty());
    assert!(read_poll(204, "204 No Content", "").unwrap().is_empty());
    let body = r#"[
        {"type":"cancel","id":"00000000-0000-0000-0000-000000000001",
         "target_task_id":"00000000-0000-0000-0000-000000000002"},
        {"type":"unheard of"},
        {"id":"00000000-0000-0000-0000-000000000003","steps":[]},
        {"steps":"none"}
    ]"#;
    let work = read_poll(200, "200 OK", body).unwrap();
    assert_eq!(work.len(), 2);
    assert!(matches!(&work[0], ReceivedWork::Single(t) if t.id() == Uuid::from_u128(1)));
    assert!(matches!(&work[1], ReceivedWork::Chain(c) if c.id == Uuid::from_u128(3)));
    assert!(matches!(read_poll(200, "200 OK", "{}"), Err(Error::Json(_))));
    assert!(matches!(read_poll(200, "200 OK", "[1"), Err(Error::Json(_))));
    assert_eq!(
        read_poll(500, "500 Internal Server Error", "[]").unwrap_err().to_text(),
        "transport: task poll returned HTTP 500 Internal Server Error"
    );
    assert!(judge_report(201, "201 Created").is_ok());
    assert_eq!(
        judge_report(503, "503 Service Unavailable").unwrap_err().to_text(),
        "transport: result report returned HTTP 503 Service Unavailable"
    );
}

#[test]
fn stream_is_opened_again_with_longer_waits() {
    let mut link = GrpcLink::new();
    let mut waits = vec![];
    for _ in 0..7 {
        assert_eq!(link.action(), LinkAction::Connect);
        match link.on_event(LinkEvent::ConnectFailed) {
            LinkOutcome::Received { work, wait_sec } => {
                assert!(work.is_empty());
                waits.push(wait_sec.unwrap());
            }
            other => panic!("{other:?}"),
        }
    }
    assert_eq!(waits, [1, 2, 4, 8, 16, 30, 30]);
    assert_eq!(
        link.check_send().unwrap_err().to_text(),
        "transport: gRPC not connected"
    );
    assert!(matches!(link.on_event(LinkEvent::Connected), LinkOutcome::Again));
    assert_eq!(link.action(), LinkAction::Read);
    assert!(link.check_send().is_ok());
    let broken = LinkEvent::Broken { complaint: "reset".into() };
    match link.on_event(broken) {
        LinkOutcome::Failed(e) => assert_eq!(e.to_text(), "transport: gRPC stream error: reset"),
        other => panic!("{other:?}"),
    }
    assert_eq!(link.action(), LinkAction::Connect);
    match link.on_event(LinkEvent::ConnectFailed) {
        LinkOutcome::Received { wait_sec, .. } => assert_eq!(wait_sec, Some(1)),
        other => panic!("{other:?}"),
    }
    assert_eq!(
        LinkFault::Open.error("x").to_text(),
        "transport: gRPC stream open failed: x"
    );
    assert_eq!(LinkFault::Connect.error("x").to_text(), "transport: gRPC connect failed: x");
    assert_eq!(LinkFault::Hello.error("x").to_text(), "transport: failed to enqueue hello: x");
    assert_eq!(
        LinkFault::Send.error("x").to_text(),
        "transport: failed to send result via gRPC: x"
    );
}

#[test]
fn messages_carry_work() {
    let task = br#"{"type":"remove","id":"00000000-0000-0000-0000-000000000009","unit_name":"u"}"#;
    let chain = br#"{"id":"00000000-0000-0000-0000-000000000008","steps":[]}"#;
    let got = decode_work(&ControlPayload::Task(task.to_vec())).unwrap();
    assert!(matches!(got, ReceivedWork::Single(t) if t.id() == Uuid::from_u128(9)));
    let got = decode_work(&ControlPayload::TaskChain(chain.to_vec())).unwrap();
    assert!(matches!(got, ReceivedWork::Chain(c) if c.id == Uuid::from_u128(8)));
    assert!(decode_work(&ControlPayload::Task(b"junk".to_vec())).is_none());
    let ack = ControlPayload::Ack { accepted: true, message: "welcome".into() };
    assert!(decode_work(&ack).is_none());
    assert!(decode_work(&ControlPayload::Empty).is_none());
    let mut link = GrpcLink::new();
    link.on_event(LinkEvent::Connected);
    match link.on_event(LinkEvent::Message(ControlPayload::Task(task.to_vec()))) {
        LinkOutcome::Received { work, wait_sec } => {
            assert_eq!(work.len(), 1);
            assert_eq!(wait_sec, None);
        }
        other => panic!("{other:?}"),
    }
    assert!(matches!(link.on_event(LinkEvent::Ended),
        LinkOutcome::Received { work, .. } if work.is_empty()));
    assert_eq!(link.action(), LinkAction::Connect);
}

fn some_result() -> TaskResult {
    TaskResult {
        task_id: Uuid::from_u128(5),
        chain_id: None,
        step_index: None,
        status: TaskResultStatus::Success,
        exit_code: None,
        stdout: String::new(),
        stderr: String::new(),
        duration_ms: 0,
        timestamp: 0,
        error: None,
    }
}

#[test]
fn main_loop_drains_after_shutdown() {
    let mut l = MainLoop::new();
    assert!(matches!(l.resume(), LoopAction::Wait));
    assert!(matches!(l.on_event(LoopEvent::Work(Ok(vec![]))), LoopAction::Wait));
    assert!(matches!(
        l.on_event(LoopEvent::Work(Err(Error::Transport("down".into())))),
        LoopAction::Wait
    ));
    let work = read_poll(
        200,
        "200 OK",
        r#"[{"id":"00000000-0000-0000-0000-000000000003","steps":[]}]"#,
    );
    assert!(matches!(l.on_event(LoopEvent::Work(work)), LoopAction::Submit(w) if w.len() == 1));
    assert!(matches!(l.on_event(LoopEvent::Result(some_result())), LoopAction::Send(_)));
    assert_eq!(l.drained(), 0);
    assert!(matches!(l.on_event(LoopEvent::NoMoreResults), LoopAction::Wait));
    assert!(matches!(l.on_event(LoopEvent::Shutdown), LoopAction::TakeResult));
    let late = read_poll(200, "200 OK", r#"[{"id":"00000000-0000-0000-0000-000000000003","steps":[]}]"#);
    assert!(matches!(l.on_event(LoopEvent::Work(late)), LoopAction::TakeResult));
    assert!(matches!(l.on_event(LoopEvent::Result(some_result())), LoopAction::Send(_)));
    assert!(matches!(l.resume(), LoopAction::TakeResult));
    assert_eq!(l.drained(), 1);
    assert!(matches!(l.on_event(LoopEvent::NoMoreResults), LoopAction::Finish));
    assert!(matches!(l.on_event(LoopEvent::Result(some_result())), LoopAction::Finish));
    assert_eq!(l.drained(), 1);
}

#[test]
fn the_agent_starts_as_configured() {
    let id = Uuid::from_u128(77);
    assert_eq!(resolve_agent_id(Some(id)), id);
    let a = resolve_agent_id(None);
    let b = resolve_agent_id(None);
    assert_ne!(a, b);
    assert_eq!(&a.to_text()[14..15], "4");
    assert_eq!(user_agent("0.1.0"), "vasal/0.1.0");
    match choose_transport(&minimal()).unwrap() {
        ChosenTransport::Poll { endpoint, interval_sec } => {
            assert_eq!(endpoint, "https://cp.internal/api/v1");
            assert_eq!(interval_sec, 10);
        }
        other => panic!("{other:?}"),
    }
    let mut config = minimal();
    config.transport.mode = TransportMode::Grpc;
    assert_eq!(
        choose_transport(&config).unwrap_err().to_text(),
        "configuration: transport.mode = \"grpc\" but [transport.grpc] section is missing"
    );
    config.transport.mode = TransportMode::Poll;
    config.transport.poll = None;
    assert_eq!(
        choose_transport(&config).unwrap_err().to_text(),
        "configuration: transport.mode = \"poll\" but [transport.poll] section is missing"
    );
    assert_eq!(
        started_detail(&id, "1", TransportMode::Poll).to_text(),
        "{\"agent_id\":\"00000000-0000-0000-0000-00000000004d\",\"transport\":\"Poll\",\"version\":\"1\"}"
    );
    assert_eq!(
        shutdown_detail(&id).to_text(),
        "{\"agent_id\":\"00000000-0000-0000-0000-00000000004d\"}"
    );
}

fn event(id: Option<i64>, detail: &str) -> AuditRow {
    AuditRow {
        id,
        timestamp: -3,
        event_type: TASK_RECEIVED.into(),
        task_id: None,
        detail_json: detail.into(),
    }
}

#[test]
fn events_are_kept_and_forwarded() {
    let detail = Json::Array(vec![Json::Bool(true)]);
    let row = audit_row(AGENT_STARTED, Some("t".into()), &detail, 9);
    assert_eq!(row.event_type, "agent.started");
    assert_eq!(row.detail_json, "[true]");
    assert_eq!(row.timestamp, 9);
    assert!(record(AGENT_STARTED, None, &detail).timestamp > 1_600_000_000_000);
    assert!(matches!(prepare_flush(&vec![]), Flush::Nothing));
    let events = vec![event(Some(4), "{\"a\":1}"), event(None, "no json"), event(Some(6), "2")];
    match prepare_flush(&events) {
        Flush::Post { body, ids } => {
            assert_eq!(ids, [4, 6]);
            assert_eq!(
                body.to_text(),
                "[{\"detail\":{\"a\":1},\"event_type\":\"task.received\",\"task_id\":null,\"timestamp\":-3},{\"detail\":null,\"event_type\":\"task.received\",\"task_id\":null,\"timestamp\":-3},{\"detail\":2,\"event_type\":\"task.received\",\"task_id\":null,\"timestamp\":-3}]"
            );
        }
        other => panic!("{other:?}"),
    }
    assert!(check_flush_answer(200, "200 OK").is_ok());
    assert_eq!(
        check_flush_answer(300, "300 Multiple Choices").unwrap_err().to_text(),
        "transport: audit endpoint returned HTTP 300 Multiple Choices"
    );
}

fn flush_fails(f: &mut Forwarder) -> u64 {
    assert!(matches!(f.action(), ForwardAction::Wait));
    assert!(f.on_event(ForwardEvent::IntervalPassed).is_none());
    assert!(matches!(f.action(), ForwardAction::Read));
    let fault = f.on_event(ForwardEvent::Failed(Error::State("locked".into())));
    assert_eq!(fault.unwrap().to_text(), "state store: locked");
    let wait = match f.action() {
        ForwardAction::BackOff(sec) => sec,
        other => panic!("{other:?}"),
    };
    assert!(f.on_event(ForwardEvent::Rested).is_none());
    wait
}

#[test]
fn forwarder_waits_longer_after_each_failure() {
    let mut f = Forwarder::new();
    let waits: Vec<u64> = (0..8).map(|_| flush_fails(&mut f)).collect();
    assert_eq!(waits, [1, 2, 4, 8, 16, 32, 60, 60]);
    f.on_event(ForwardEvent::IntervalPassed);
    f.on_event(ForwardEvent::Read(vec![]));
    assert_eq!(flush_fails(&mut f), 1);
}

#[test]
fn forwarder_marks_what_was_accepted() {
    let mut f = Forwarder::new();
    f.on_event(ForwardEvent::IntervalPassed);
    f.on_event(ForwardEvent::Read(vec![event(Some(4), "1"), event(Some(6), "2")]));
    assert!(matches!(f.action(), ForwardAction::Post(_)));
    let refusal = f.on_event(ForwardEvent::Answered { code: 503, status: "503 Busy".into() });
    assert_eq!(refusal.unwrap().to_text(), "transport: audit endpoint returned HTTP 503 Busy");
    assert!(matches!(f.action(), ForwardAction::BackOff(1)));
    f.on_event(ForwardEvent::Rested);
    f.on_event(ForwardEvent::IntervalPassed);
    f.on_event(ForwardEvent::Read(vec![event(Some(4), "1"), event(Some(6), "2")]));
    f.on_event(ForwardEvent::Answered { code: 202, status: "202 Accepted".into() });
    match f.action() {
        ForwardAction::Mark(ids) => assert_eq!(ids, [4, 6]),
        other => panic!("{other:?}"),
    }
    f.on_event(ForwardEvent::Marked);
    assert!(matches!(f.action(), ForwardAction::Wait));
}

#[test]
fn forwarder_flushes_once_more_at_a_shutdown() {
    let mut f = Forwarder::new();
    f.on_event(ForwardEvent::ShuttingDown);
    assert!(matches!(f.action(), ForwardAction::Read));
    f.on_event(ForwardEvent::Read(vec![event(Some(9), "{}")]));
    f.on_event(ForwardEvent::Failed(Error::Http("unreachable".into())));
    assert!(matches!(f.action(), ForwardAction::Finish));
    f.on_event(ForwardEvent::IntervalPassed);
    assert!(matches!(f.action(), ForwardAction::Finish));
}

#[test]
fn heartbeat_reports_stored_units() {
    let row = UnitRow {
        name: "u".into(),
        kind: "sidecar".into(),
        version: "1".into(),
        state: "running".into(),
        health: Some("ok".into()),
        health_error: None,
        pid: Some(12),
        socket_path: None,
        config_json: None,
        updated_at: 0,
    };
    let counts = ActiveTaskCounts { oneshot: 1, continuous: 0, total: 1 };
    let hb = beat(Uuid::nil(), "0.1.0", 5, 6, Some(vec![row]), counts);
    assert_eq!(hb.units.len(), 1);
    assert_eq!(hb.units[0].kind, UnitKind::Sidecar);
    assert_eq!(hb.units[0].health, Some(HealthStatus::Healthy));
    assert_eq!(hb.units[0].pid, Some(12));
    assert_eq!(hb.uptime_sec, 5);
    assert!(beat(Uuid::nil(), "0.1.0", 5, 6, None, counts).units.is_empty());
}

#[test]
fn clock_and_columns() {
    assert!(now_ms() > 1_600_000_000_000);
    let (before, now, after) = (now_ms(), now_sec(), now_ms());
    assert!(before as u64 / 1_000 <= now && now <= after as u64 / 1_000);
    assert_eq!(whole_seconds(0), 0);
    assert_eq!(whole_seconds(999), 0);
    assert_eq!(whole_seconds(1_000), 1);
    assert_eq!(whole_seconds(3_600_999), 3_600);
    assert_eq!(whole_seconds(1_700_000_000_123), 1_700_000_000);
    assert_eq!(whole_seconds(u64::MAX as u128 * 1_000 + 999), u64::MAX);
    assert_eq!(stored_ms(5), 5);
    assert_eq!(stored_ms(u128::MAX), -1);
    assert_eq!(stored_pid(Some(4_294_967_295)), Some(u32::MAX));
    assert_eq!(stored_pid(None), None);
}

#[test]
fn every_error_has_words() {
    let cases = [
        (Error::Config("x".into()), "configuration: x"),
        (Error::State("x".into()), "state store: x"),
        (Error::Io("x".into()), "I/O: x"),
        (Error::Transport("x".into()), "transport: x"),
        (Error::Auth("x".into()), "authentication: x"),
        (Error::Protocol(ProtocolError::new(-1, "x")), "protocol: [-1] x"),
        (Error::Http("x".into()), "HTTP: x"),
        (Error::Json("x".into()), "JSON: x"),
        (Error::Task("x".into()), "task: x"),
        (Error::Unit("x".into()), "unit management: x"),
        (
            Error::Sha256Mismatch { expected: "a".into(), actual: "b".into() },
            "SHA-256 mismatch: expected a, got b",
        ),
        (Error::Join("x".into()), "join: x"),
    ];
    for (e, text) in cases {
        assert_eq!(e.to_text(), text);
        assert_eq!(e.duplicate().to_text(), text);
    }
}

#[test]
fn configuration_is_written_and_read() {
    let config = minimal();
    let text = encode_text(&config);
    let again = Config::from_json(&parse_text(&text).unwrap(), "config", Form::Plain).unwrap();
    assert_eq!(config, again);
}

const KEY_FILE: &str = "[bootstrap]\nkey = \"k1\"\nauth_endpoint = \"https://auth/token\"\n";

#[test]
fn one_time_key_is_traded_for_tokens() {
    let (mut run, action) = Bootstrap::new();
    assert!(matches!(action, BootstrapAction::ReadKey));
    match run.on_event(BootstrapEvent::KeyRead(KEY_FILE.into()), 100) {
        BootstrapAction::Post(body) => {
            assert_eq!(body.to_text(), r#"{"grant_type":"one_time_key","key":"k1"}"#)
        }
        other => panic!("{other:?}"),
    }
    let answer = BootstrapEvent::Answered {
        code: 200,
        status: "200 OK".into(),
        body: br#"{"access_token":"a","refresh_token":"r","expires_in":60}"#.to_vec(),
    };
    match run.on_event(answer, 100) {
        BootstrapAction::SaveTokens(text) => {
            let kept = TokenStore::load(&text).unwrap();
            assert_eq!(kept.access_token_at(129).as_deref(), Some("a"));
            assert_eq!(kept.access_token_at(130), None);
        }
        other => panic!("{other:?}"),
    }
    assert!(matches!(run.on_event(BootstrapEvent::Saved, 101), BootstrapAction::RemoveKey));
    let failed = BootstrapEvent::Failed(Error::Io("read-only".into()));
    assert!(matches!(run.on_event(failed, 101), BootstrapAction::Finish));
    let manager = run.into_manager().unwrap().unwrap();
    assert_eq!(manager.authorization_at(101).as_deref(), Some("Bearer a"));
}

#[test]
fn one_time_key_stays_where_the_trade_fails() {
    let (mut run, _) = Bootstrap::new();
    let gone = BootstrapEvent::KeyUnreadable { complaint: "denied".into() };
    assert!(matches!(run.on_event(gone, 1), BootstrapAction::Finish));
    assert_eq!(
        run.into_manager().unwrap().unwrap_err().to_text(),
        "authentication: failed to read bootstrap config /etc/vasal/onetimeauth.toml: denied"
    );
    let (mut run, _) = Bootstrap::new();
    run.on_event(BootstrapEvent::KeyRead(KEY_FILE.into()), 1);
    let refusal = BootstrapEvent::Answered {
        code: 403,
        status: "403 Forbidden".into(),
        body: Vec::new(),
    };
    assert!(matches!(run.on_event(refusal, 1), BootstrapAction::Finish));
    assert_eq!(
        run.into_manager().unwrap().unwrap_err().to_text(),
        "authentication: bootstrap auth returned HTTP 403 Forbidden"
    );
}
