//! The state store's statements on a real database.

use rusqlite::types::{Value, ValueRef};
use rusqlite::{params_from_iter, Connection};
use vasal::agent::audit;
use vasal::agent::error::Error;
use vasal::agent::state::{now_ms, AuditRow, TaskResultRow, UnitRow};
use vasal::agent::store::{
    read_event, read_unit, StateStore, Statement, StoreValue, SCHEMA, SETTINGS,
};
use vasal::json::{Json, JsonObject};

struct Db {
    conn: Connection,
    store: StateStore,
}

fn bound(value: &StoreValue) -> Value {
    match value {
        StoreValue::Null => Value::Null,
        StoreValue::Integer(n) => Value::Integer(*n),
        StoreValue::Text(s) => Value::Text(s.clone()),
        other => panic!("nothing writes {other:?}"),
    }
}

fn column(value: ValueRef<'_>) -> StoreValue {
    match value {
        ValueRef::Null => StoreValue::Null,
        ValueRef::Integer(n) => StoreValue::Integer(n),
        ValueRef::Text(t) => match std::str::from_utf8(t) {
            Ok(s) => StoreValue::Text(s.to_owned()),
            Err(e) => StoreValue::Garbled(e.to_string()),
        },
        ValueRef::Real(_) => StoreValue::Real,
        ValueRef::Blob(_) => StoreValue::Blob,
    }
}

impl Db {
    fn open(name: &str) -> Db {
        let conn = Connection::open(name).unwrap();
        conn.execute_batch(SETTINGS).unwrap();
        conn.execute_batch(SCHEMA).unwrap();
        Db { conn, store: StateStore::open("/tmp/vasal-test") }
    }

    fn in_memory() -> Db {
        Db::open(":memory:")
    }

    fn run(&self, statement: Statement) -> usize {
        self.conn
            .execute(statement.sql, params_from_iter(statement.params.iter().map(bound)))
            .unwrap()
    }

    fn rows(&self, statement: Statement) -> Vec<Vec<StoreValue>> {
        let mut stmt = self.conn.prepare(statement.sql).unwrap();
        let width = stmt.column_count();
        let mut rows = stmt
            .query(params_from_iter(statement.params.iter().map(bound)))
            .unwrap();
        let mut found = Vec::new();
        while let Some(row) = rows.next().unwrap() {
            found.push((0..width).map(|i| column(row.get_ref(i).unwrap())).collect());
        }
        found
    }

    fn upsert_unit(&self, unit: &UnitRow) {
        assert_eq!(self.run(self.store.upsert_unit(unit)), 1);
    }

    fn get_unit(&self, name: &str) -> Option<UnitRow> {
        let rows = self.rows(self.store.get_unit(name));
        rows.first().map(|r| read_unit(r).unwrap())
    }

    fn list_units(&self) -> Vec<UnitRow> {
        let rows = self.rows(self.store.list_units());
        rows.iter().map(|r| read_unit(r).unwrap()).collect()
    }

    fn remove_unit(&self, name: &str) {
        self.run(self.store.remove_unit(name));
    }

    fn record_task_result(&self, row: &TaskResultRow) {
        assert_eq!(self.run(self.store.record_task_result(row)), 1);
    }

    fn prune_journal(&self, keep: usize) -> usize {
        self.run(self.store.prune_journal(keep))
    }

    fn append_audit(&self, row: &AuditRow) {
        assert_eq!(self.run(self.store.append_audit(row)), 1);
    }

    fn pending_audit_events(&self, limit: usize) -> Vec<AuditRow> {
        let rows = self.rows(self.store.pending_audit_events(limit));
        rows.iter().map(|r| read_event(r).unwrap()).collect()
    }

    fn mark_forwarded(&self, ids: &[i64]) {
        for statement in self.store.mark_forwarded(&ids.to_vec()) {
            self.run(statement);
        }
    }

    fn record(&self, event: &str, task_id: Option<&str>, detail: &Json) {
        self.append_audit(&audit::record(event, task_id.map(|t| t.to_string()), detail));
    }
}

fn member(key: &str, value: Json) -> Json {
    let mut o = JsonObject::new();
    o.set(key, value);
    o.finish()
}

fn journal_row(task_id: String, stdout: String, duration_ms: i64, created_at: i64) -> TaskResultRow {
    TaskResultRow {
        task_id,
        chain_id: None,
        step_index: None,
        status: "Success".into(),
        exit_code: Some(0),
        stdout,
        stderr: String::new(),
        duration_ms,
        created_at,
    }
}

#[test]
fn unit_crud() {
    let store = Db::in_memory();
    let unit = UnitRow {
        name: "echo-ctrl".into(),
        kind: "sidecar".into(),
        version: "0.1.0".into(),
        state: "running".into(),
        health: Some("ok".into()),
        health_error: None,
        pid: Some(1234),
        socket_path: Some("/run/vasal/echo-ctrl.sock".into()),
        config_json: None,
        updated_at: now_ms(),
    };
    store.upsert_unit(&unit);
    let fetched = store.get_unit("echo-ctrl").unwrap();
    assert_eq!(fetched.version, "0.1.0");
    assert_eq!(fetched.pid, Some(1234));
    assert_eq!(fetched, unit);

    let all = store.list_units();
    assert_eq!(all.len(), 1);

    store.remove_unit("echo-ctrl");
    assert!(store.get_unit("echo-ctrl").is_none());
}

#[test]
fn task_journal_and_prune() {
    let store = Db::in_memory();
    for i in 0..10 {
        let mut row = journal_row(format!("task-{i}"), format!("output-{i}"), 100, now_ms());
        row.status = "success".into();
        store.record_task_result(&row);
    }
    let deleted = store.prune_journal(5);
    assert_eq!(deleted, 5);
}

#[test]
fn audit_log_lifecycle() {
    let store = Db::in_memory();
    store.append_audit(&AuditRow {
        id: None,
        timestamp: now_ms(),
        event_type: "task.started".into(),
        task_id: Some("t1".into()),
        detail_json: "{}".into(),
    });
    let pending = store.pending_audit_events(10);
    assert_eq!(pending.len(), 1);

    let ids: Vec<i64> = pending.iter().filter_map(|r| r.id).collect();
    store.mark_forwarded(&ids);

    let pending_after = store.pending_audit_events(10);
    assert!(pending_after.is_empty());
}

#[test]
fn state_store_persists_across_reopens() {
    let file = "file:vasal-persist?mode=memory&cache=shared";
    let _keeps_the_file = Connection::open(file).unwrap();
    {
        let store = Db::open(file);
        store.upsert_unit(&UnitRow {
            name: "persist-test".into(),
            kind: "sidecar".into(),
            version: "2.0.0".into(),
            state: "running".into(),
            health: Some("ok".into()),
            health_error: None,
            pid: Some(9999),
            socket_path: Some("/tmp/persist.sock".into()),
            config_json: Some(r#"{"key":"value"}"#.into()),
            updated_at: 1234567890,
        });
        store.record_task_result(&journal_row(
            "persist-task-1".into(),
            "persisted output".into(),
            50,
            1234567890,
        ));
    }
    {
        let store = Db::open(file);
        let unit = store
            .get_unit("persist-test")
            .expect("unit should persist across reopens");
        assert_eq!(unit.version, "2.0.0");
        assert_eq!(unit.pid, Some(9999));
        assert_eq!(unit.state, "running");
        assert_eq!(unit.config_json.as_deref(), Some(r#"{"key":"value"}"#));

        assert_eq!(store.store.data_dir_or_default(), "/tmp/vasal-test");
        assert_eq!(store.store.database_path(), "/tmp/vasal-test/state.db");
    }
}

#[test]
fn state_store_unit_list_and_remove() {
    let store = Db::in_memory();
    for name in &["alpha", "beta", "gamma"] {
        store.upsert_unit(&UnitRow {
            name: name.to_string(),
            kind: "sidecar".into(),
            version: "1.0.0".into(),
            state: "running".into(),
            health: None,
            health_error: None,
            pid: None,
            socket_path: None,
            config_json: None,
            updated_at: 0,
        });
    }
    let units = store.list_units();
    assert_eq!(units.len(), 3);
    assert_eq!(units[0].name, "alpha");
    assert_eq!(units[2].name, "gamma");

    store.remove_unit("beta");
    let units = store.list_units();
    assert_eq!(units.len(), 2);
    assert!(store.get_unit("beta").is_none());
}

#[test]
fn audit_record_and_retrieve() {
    let store = Db::in_memory();
    let script = member("script", Json::text("echo hello"));
    store.record("task.started", Some("audit-test-1"), &script);
    let code = member("exit_code", Json::unsigned(0));
    store.record("task.completed", Some("audit-test-1"), &code);
    store.record("agent.started", None, &member("version", Json::text("0.1.0")));

    let events = store.pending_audit_events(100);
    assert_eq!(events.len(), 3);
    assert_eq!(events[0].event_type, "task.started");
    assert_eq!(events[0].task_id.as_deref(), Some("audit-test-1"));
    assert_eq!(events[1].event_type, "task.completed");
    assert_eq!(events[2].event_type, "agent.started");
    assert!(events[2].task_id.is_none());
    assert_eq!(events[0].detail_json, r#"{"script":"echo hello"}"#);
    assert_eq!(store.pending_audit_events(2).len(), 2);
}

#[test]
fn audit_mark_forwarded() {
    let store = Db::in_memory();
    let empty = JsonObject::new().finish();
    for i in 0..5 {
        store.record("task.completed", Some(&format!("task-{i}")), &empty);
    }
    let events = store.pending_audit_events(100);
    assert_eq!(events.len(), 5);

    let ids: Vec<i64> = events.iter().take(3).filter_map(|e| e.id).collect();
    store.mark_forwarded(&ids);

    let remaining = store.pending_audit_events(100);
    assert_eq!(remaining.len(), 2);
    assert_eq!(remaining[0].task_id.as_deref(), Some("task-3"));
}

#[test]
fn audit_journal_prune() {
    let store = Db::in_memory();
    for i in 0..20 {
        store.record_task_result(&journal_row(
            format!("prune-task-{i}"),
            format!("output-{i}"),
            10,
            i as i64,
        ));
    }
    let deleted = store.prune_journal(5);
    assert_eq!(deleted, 15);
}

#[test]
fn unit_that_is_kept_again_is_replaced() {
    let store = Db::in_memory();
    let mut unit = UnitRow {
        name: "u".into(),
        kind: "package".into(),
        version: "1".into(),
        state: "installed".into(),
        health: None,
        health_error: None,
        pid: Some(u32::MAX),
        socket_path: None,
        config_json: None,
        updated_at: -1,
    };
    store.upsert_unit(&unit);
    assert_eq!(store.list_units(), [unit.clone()]);
    unit.version = "2".into();
    unit.health = Some("unhealthy".into());
    unit.health_error = Some("exit code Some(1): no".into());
    unit.pid = None;
    store.upsert_unit(&unit);
    assert_eq!(store.list_units(), [unit]);
}

#[test]
fn rows_of_other_shapes_are_refused() {
    let fault = |r: Result<UnitRow, Error>| r.unwrap_err().to_text();
    assert_eq!(fault(read_unit(&vec![])), "state store: Invalid column index: 0");
    let db = Db::in_memory();
    let mut columns = db
        .store
        .upsert_unit(&UnitRow {
            name: "u".into(),
            kind: "package".into(),
            version: "1".into(),
            state: "installed".into(),
            health: None,
            health_error: None,
            pid: None,
            socket_path: None,
            config_json: None,
            updated_at: 0,
        })
        .params;
    assert!(read_unit(&columns).is_ok());
    columns[6] = StoreValue::Text("12".into());
    assert_eq!(
        fault(read_unit(&columns)),
        "state store: Invalid column type Text at index: 6, name: pid"
    );
    columns[6] = StoreValue::Blob;
    assert_eq!(
        fault(read_unit(&columns)),
        "state store: Invalid column type Blob at index: 6, name: pid"
    );
    columns[4] = StoreValue::Garbled("bad bytes".into());
    assert_eq!(
        fault(read_unit(&columns)),
        "state store: Conversion error from type Text at index: 4, bad bytes"
    );
    let event = vec![StoreValue::Integer(1), StoreValue::Null];
    assert_eq!(
        read_event(&event).unwrap_err().to_text(),
        "state store: Invalid column type Null at index: 1, name: timestamp"
    );
}

#[test]
fn bad_columns_are_reported_in_the_words_of_the_database() {
    for (value, column) in [
        ("x'00'", 1),
        ("1.5", 6),
        ("'many'", 6),
        ("x'00'", 6),
        ("CAST(x'ff' AS TEXT)", 5),
        ("CAST(x'ff' AS TEXT)", 6),
        ("x'01'", 8),
        ("2.5", 9),
        ("'late'", 9),
    ] {
        let db = Db::in_memory();
        let names = [
            "name", "kind", "version", "state", "health", "health_error", "pid", "socket_path",
            "config_json", "updated_at",
        ];
        let mut values = [
            "'u'", "'package'", "'1'", "'installed'", "NULL", "NULL", "NULL", "NULL", "NULL", "0",
        ];
        values[column] = value;
        let sql = format!("INSERT INTO units ({}) VALUES ({})", names.join(","), values.join(","));
        db.conn.execute_batch(&sql).unwrap();
        let statement = db.store.list_units();
        let theirs = db
            .conn
            .query_row(statement.sql, [], |row| {
                if column == 6 {
                    row.get::<_, Option<i64>>(column).map(|_| ())
                } else if column == 9 {
                    row.get::<_, i64>(column).map(|_| ())
                } else {
                    row.get::<_, Option<String>>(column).map(|_| ())
                }
            })
            .unwrap_err();
        let ours = read_unit(&db.rows(statement)[0]).unwrap_err();
        assert_eq!(ours.to_text(), format!("state store: {theirs}"), "{value} in {column}");
    }
}
