//! The sidecars that come with the agent.

use vasal::json::{parse_text, Json, JsonFloat, JsonNumber};
use vasal::protocol::error::{ProtocolError, INTERNAL_ERROR, INVALID_PARAMS};
use vasal::protocol::sidecar::{HealthStatus, SubmitResponse};
use vasal::refusal::say_mismatch;
use vasal::sidecars::ebpf_observer::{
    attach_response, both, connections_json, disks_json, pressure_json, read_connections,
    read_disks, read_pressure, read_segments, segments_json, snapshot_response, stub_response,
    unreadable, wants, DiskReading, ProbeCommand, Readings,
};
use vasal::sidecars::sql_ctrl::{
    bind_value, discover_response, exec_response, open_error, parse_arguments, query_response,
    read_command, resolve_dsn, table_info_sql, BindValue, ColumnInfo, Ping, Pool, SqlCell,
    SqlCommand, SqlFault, TableInfo,
};
use vasal::sidecars::{ebpf_observer, sql_ctrl};

fn float(x: f64) -> JsonFloat {
    JsonFloat::new(serde_json::Number::from_f64(x).unwrap()).unwrap()
}

fn stdout(r: SubmitResponse) -> String {
    match r {
        SubmitResponse::Completed { stdout, .. } => stdout,
        other => panic!("{other:?}"),
    }
}

#[test]
fn missing_dsn_returns_error() {
    let result = resolve_dsn(None, &None);
    assert!(result.is_err());
    let e = result.unwrap_err();
    assert_eq!(e.code, INVALID_PARAMS);
    assert_eq!(e.message, "no 'dsn' provided and no default DSN configured");
    assert_eq!(resolve_dsn(None, &Some("d".into())).unwrap(), "d");
    assert_eq!(resolve_dsn(Some("r".into()), &Some("d".into())).unwrap(), "r");
}

#[test]
fn sql_requests_are_read() {
    let dsn = Some("/db".to_string());
    let read = |text: &str| read_command(&parse_text(text).unwrap(), &dsn);
    let query = read(r#"{"action":"query","sql":"SELECT ?","params":[null,true,-3,18446744073709551615,0.5,"s",[1]]}"#);
    match query.unwrap() {
        SqlCommand::Query { dsn, sql, params } => {
            assert_eq!(dsn, "/db");
            assert_eq!(sql, "SELECT ?");
            assert_eq!(params.len(), 7);
            assert!(matches!(params[0], BindValue::Null));
            assert!(matches!(params[1], BindValue::Bool(true)));
            assert!(matches!(params[2], BindValue::Integer(-3)));
            assert!(matches!(params[3], BindValue::Real(JsonNumber::PosInt(u64::MAX))));
            assert!(matches!(params[4], BindValue::Real(JsonNumber::Float(_))));
            assert!(matches!(&params[5], BindValue::Text(s) if s == "s"));
            assert!(matches!(&params[6], BindValue::Text(s) if s == "[1]"));
        }
        other => panic!("{other:?}"),
    }
    assert!(matches!(read(r#"{"action":"exec","sql":"x","dsn":"/o"}"#).unwrap(),
        SqlCommand::Exec { dsn, .. } if dsn == "/o"));
    assert!(matches!(read(r#"{"action":"discover"}"#).unwrap(), SqlCommand::Discover { .. }));
    let e = read(r#"{"action":"query"}"#).unwrap_err();
    assert_eq!(e.message, "missing 'sql' field for query action");
    let e = read(r#"{"action":"exec"}"#).unwrap_err();
    assert_eq!(e.message, "missing 'sql' field for exec action");
    let e = read(r#"{"action":"drop"}"#).unwrap_err();
    assert_eq!(e.message, "unknown action: drop (expected 'query', 'exec', or 'discover')");
    let e = read(r#"{}"#).unwrap_err();
    assert_eq!(e.message, "missing field `action`");
    assert!(matches!(bind_value(&parse_text("{}").unwrap()), BindValue::Text(s) if s == "{}"));
}

#[test]
fn sql_answers_are_told_as_json() {
    let columns = vec!["name".to_string(), "age".to_string()];
    let rows = vec![
        vec![SqlCell::Text(Some("alice".into())), SqlCell::Integer(30)],
        vec![SqlCell::Blob(vec![0xde, 0xad]), SqlCell::Real(Some(float(1.5)))],
        vec![SqlCell::Null, SqlCell::Real(None)],
        vec![SqlCell::Text(None)],
    ];
    assert_eq!(
        stdout(query_response(&columns, &rows)),
        "{\"columns\":[\"name\",\"age\"],\"row_count\":4,\"rows\":[{\"age\":30,\"name\":\"alice\"},{\"age\":1.5,\"name\":\"dead\"},{\"age\":null,\"name\":null},{\"age\":null,\"name\":null}]}"
    );
    assert_eq!(
        stdout(exec_response(1, 4)),
        "{\"affected_rows\":1,\"last_insert_rowid\":4}"
    );
    let tables = vec![TableInfo {
        table: "users".into(),
        columns: vec![ColumnInfo {
            name: "id".into(),
            col_type: "INTEGER".into(),
            not_null: false,
            primary_key: true,
        }],
    }];
    assert_eq!(
        stdout(discover_response(&tables)),
        "{\"driver\":\"sqlite\",\"table_count\":1,\"tables\":[{\"columns\":[{\"name\":\"id\",\"not_null\":false,\"primary_key\":true,\"type\":\"INTEGER\"}],\"table\":\"users\"}]}"
    );
    assert_eq!(table_info_sql("a\"b"), "PRAGMA table_info(\"a\"\"b\")");
}

#[test]
fn sql_faults_are_internal_errors() {
    for (fault, text) in [
        (SqlFault::Prepare, "SQL prepare error: x"),
        (SqlFault::Query, "SQL query error: x"),
        (SqlFault::Row, "row read error: x"),
        (SqlFault::Exec, "SQL exec error: x"),
        (SqlFault::Discover, "discover error: x"),
        (SqlFault::TableInfo, "table_info error: x"),
        (SqlFault::ColumnInfo, "column info error: x"),
    ] {
        let e = fault.error("x");
        assert_eq!(e.code, INTERNAL_ERROR);
        assert_eq!(e.message, text);
    }
    assert_eq!(open_error("/db", "x").message, "failed to open database /db: x");
}

#[test]
fn sql_health_follows_the_ping() {
    let idle = sql_ctrl::health_response(&Ping::NoDatabase, "1");
    assert_eq!(idle.status, HealthStatus::Healthy);
    assert_eq!(idle.metadata.unwrap().to_text(), "{\"driver\":\"sqlite\",\"dsn\":null}");
    let well = sql_ctrl::health_response(&Ping::Answered { dsn: "/db".into() }, "1");
    assert_eq!(well.metadata.unwrap().to_text(), "{\"driver\":\"sqlite\",\"dsn\":\"/db\"}");
    let bad = sql_ctrl::health_response(&Ping::Failed { complaint: "x".into() }, "1");
    assert_eq!(bad.status, HealthStatus::Unhealthy);
    assert_eq!(bad.error.as_deref(), Some("database ping failed: x"));
    let closed = Ping::Closed(ProtocolError::internal_error("shut"));
    let closed = sql_ctrl::health_response(&closed, "1");
    assert_eq!(closed.error.as_deref(), Some("[-32603] shut"));
    assert_eq!(closed.version.as_deref(), Some("1"));
}

#[test]
fn sql_arguments_are_read() {
    let parse = |args: &[&str]| {
        let args: Vec<String> = args.iter().map(|s| s.to_string()).collect();
        parse_arguments(&args)
    };
    let none = parse(&["sql-ctrl"]).unwrap();
    assert_eq!((none.dsn, none.socket_path.as_str()), (None, "/run/vasal/sql-ctrl.sock"));
    let all = parse(&["sql-ctrl", "--dsn", "-db", "/s"]).unwrap();
    assert_eq!((all.dsn.as_deref(), all.socket_path.as_str()), (Some("-db"), "/s"));
    let dangling = parse(&["sql-ctrl", "--dsn", "a", "--dsn"]).unwrap();
    assert_eq!(dangling.dsn, None);
    assert_eq!(parse(&["sql-ctrl", "-v"]).unwrap_err(), "-v");
    assert_eq!(parse(&[]).unwrap().dsn, None);
}

#[test]
fn connections_are_kept_once() {
    let mut pool: Pool<u8> = Pool::new();
    assert!(pool.find("a").is_none());
    pool.keep("a", 1);
    pool.keep("b", 2);
    assert_eq!(pool.find("a"), Some(&1));
    assert_eq!(pool.find("b"), Some(&2));
    assert!(pool.find("c").is_none());
}

#[test]
fn probe_requests_are_read() {
    let read = |text: &str| ebpf_observer::read_command(&parse_text(text).unwrap());
    assert!(matches!(read(r#"{"action":"snapshot"}"#).unwrap(),
        ProbeCommand::Snapshot(p) if p.is_empty()));
    assert!(matches!(read(r#"{"action":"attach","probes":["oom_kill"]}"#).unwrap(),
        ProbeCommand::Attach(p) if p == ["oom_kill"]));
    let e = read(r#"{"action":"x"}"#).unwrap_err();
    assert_eq!(e.message, "unknown action: x (expected 'snapshot' or 'attach')");
    assert_eq!(read("7").unwrap_err().code, INVALID_PARAMS);
}

fn readings() -> Readings {
    Readings {
        tcp_retransmit: Json::unsigned(1),
        blk_io_latency: Json::unsigned(2),
        oom_kill: Json::unsigned(3),
        connection_rate: Json::unsigned(4),
    }
}

#[test]
fn snapshots_tell_what_is_wanted() {
    assert!(wants(&vec![], "oom_kill"));
    assert_eq!(
        stdout(snapshot_response(&vec![], readings())),
        "{\"blk_io_latency\":2,\"connection_rate\":4,\"oom_kill\":3,\"tcp_retransmit\":1}"
    );
    let one = vec!["oom_kill".to_string(), "unknown".to_string()];
    assert_eq!(stdout(snapshot_response(&one, readings())), "{\"oom_kill\":3}");
    assert_eq!(
        stdout(stub_response("macos")),
        "{\"message\":\"procfs metrics not available on this platform\",\"platform\":\"macos\",\"status\":\"stub\"}"
    );
    assert_eq!(
        stdout(attach_response(true, &one).unwrap()),
        "{\"message\":\"procfs-based probes are always active — snapshot to read values\",\"probes\":[\"oom_kill\",\"unknown\"],\"status\":\"attached\"}"
    );
    let e = attach_response(false, &one).unwrap_err();
    assert_eq!((e.code, e.message.as_str()), (-32603, "probe attachment requires Linux"));
    assert_eq!(unreadable("denied").to_text(), "{\"error\":\"denied\"}");
}

#[test]
fn probe_health_needs_the_kernel() {
    let well = ebpf_observer::health_response(true, true, "linux", "x86_64", "1");
    assert_eq!((well.status, well.error), (HealthStatus::Healthy, None));
    assert_eq!(well.metadata.unwrap().to_text(), "{\"arch\":\"x86_64\",\"platform\":\"linux\"}");
    let blind = ebpf_observer::health_response(true, false, "linux", "x86_64", "1");
    assert_eq!(blind.status, HealthStatus::Degraded);
    assert!(blind.error.unwrap().contains("/proc/vmstat"));
    let stub = ebpf_observer::health_response(false, false, "macos", "arm", "1");
    assert!(stub.error.unwrap().contains("require Linux"));
}

#[test]
fn tcp_segments_are_found_by_name() {
    let snmp = "Ip: Forwarding\nIp: 1\nTcp: RtoAlgorithm OutSegs RetransSegs\nTcp: 1 200 5\nUdp: x\n";
    let s = read_segments(snmp);
    assert_eq!((s.retransmitted, s.sent), (5, 200));
    assert_eq!(
        segments_json(&s, float(0.025)).to_text(),
        "{\"out_segments\":200,\"retransmit_rate\":0.025,\"retransmit_segments\":5}"
    );
    let none = read_segments("Tcp: OutSegs\n");
    assert_eq!((none.retransmitted, none.sent), (0, 0));
    let odd = read_segments("Tcp: OutSegs RetransSegs\nTcp: many\n");
    assert_eq!((odd.retransmitted, odd.sent), (0, 0));
}

#[test]
fn disks_are_read_line_by_line() {
    let stats = "   8       0 sda 10 1 2 30 40 5 6 70 8 90 100 0 0\n   7       0 loop0 1 1 1 1 1 1 1 1 1 1 1\n   1       0 ram0 1 1 1 1 1 1 1 1 1 1 1\nshort line\n";
    let disks = read_disks(stats);
    assert_eq!(disks.len(), 1);
    let d = &disks[0];
    assert_eq!(d.name, "sda");
    assert_eq!((d.reads, d.read_ms, d.writes), (10, 30, 40));
    assert_eq!((d.write_ms, d.io_in_progress, d.io_ms), (70, 8, 90));
    let told: Vec<DiskReading> = disks
        .into_iter()
        .map(|stats| DiskReading {
            stats,
            avg_read_latency_ms: float(3.0),
            avg_write_latency_ms: float(1.75),
        })
        .collect();
    assert_eq!(
        disks_json(&told).to_text(),
        "{\"sda\":{\"avg_read_latency_ms\":3.0,\"avg_write_latency_ms\":1.75,\"io_in_progress\":8,\"io_ms\":90,\"read_ms\":30,\"reads\":10,\"write_ms\":70,\"writes\":40}}"
    );
}

#[test]
fn memory_pressure_is_read() {
    let p = read_pressure("nr_free_pages 1\npgmajfault 12\noom_kill 3\n");
    assert_eq!((p.oom_kills, p.oom_kills_counted, p.major_faults), (3, true, 12));
    assert_eq!(
        pressure_json(&p).to_text(),
        "{\"major_page_faults\":12,\"oom_kill_available\":true,\"oom_kill_count\":3}"
    );
    let none = read_pressure("oom_killer 3\n");
    assert_eq!((none.oom_kills, none.oom_kills_counted, none.major_faults), (0, false, 0));
}

#[test]
fn connections_are_counted_by_state() {
    let tcp = "  sl  local rem st\n 0: a b 0A x\n 1: a b 01 x\n 2: a b 01 x\n 3: a b 06\n 4: a b 08\n 5: a b 02\nshort\n";
    let c = read_connections(tcp);
    assert_eq!((c.total, c.established, c.listen), (6, 2, 1));
    assert_eq!((c.time_wait, c.close_wait), (1, 1));
    let sum = both(&c, &read_connections("head\n 0: a b 01\n"));
    assert_eq!((sum.total, sum.established), (7, 3));
    assert_eq!(
        connections_json(&sum).to_text(),
        "{\"close_wait\":1,\"established\":3,\"listen\":1,\"time_wait\":1,\"total\":7}"
    );
    assert_eq!(read_connections("").total, 0);
}

#[test]
fn bad_parameters_are_refused_in_words() {
    let sql = |text: &str| read_command(&parse_text(text).unwrap(), &None).unwrap_err().message;
    assert_eq!(sql("null"), "invalid type: null, expected struct SqlParams");
    assert_eq!(
        sql(r#"{"action": "query", "params": true, "sql": 1}"#),
        "invalid type: boolean `true`, expected a sequence"
    );
    assert_eq!(
        sql(r#"{"action": "query", "sql": {}, "params": []}"#),
        "invalid type: map, expected a string"
    );
    assert_eq!(sql("[]"), "invalid length 0, expected struct SqlParams with 4 elements");
    let probe = |text: &str| {
        ebpf_observer::read_command(&parse_text(text).unwrap()).unwrap_err().message
    };
    assert_eq!(
        probe(r#"{"action": "snapshot", "probes": ["a", -3, 4]}"#),
        "invalid type: integer `-3`, expected a string"
    );
    assert_eq!(probe("\"x\""), r#"invalid type: string "x", expected struct ProbeParams"#);
    assert_eq!(
        probe(r#"["snapshot", [], 1]"#),
        "invalid length 3, expected fewer elements in array"
    );
}

#[test]
fn refusals_are_in_the_words_of_the_parser() {
    for text in [
        "null", "true", "false", "0", "18446744073709551615", "-5", "1.5", "-0.0", "1e300", "1e-7",
        "[]", "{}", "[1]", r#"{"a": 1}"#,
    ] {
        let theirs: serde_json::Value = serde_json::from_str(text).unwrap();
        let theirs = serde_json::from_value::<String>(theirs).unwrap_err().to_string();
        let ours = say_mismatch(&parse_text(text).unwrap(), "a string");
        assert_eq!(ours, theirs, "{text}");
    }
    for text in [r#""""#, r#""a\"b\\c\n\u0001é""#] {
        let theirs: serde_json::Value = serde_json::from_str(text).unwrap();
        let theirs = serde_json::from_value::<bool>(theirs).unwrap_err().to_string();
        let ours = say_mismatch(&parse_text(text).unwrap(), "a boolean");
        assert_eq!(ours, theirs, "{text}");
    }
}
