//! SQL requests, run on a real database and told as JSON.

use rusqlite::types::{Value, ValueRef};
use rusqlite::{params_from_iter, Connection, Row};
use vasal::json::{parse_text, Json, JsonFloat, JsonNumber};
use vasal::protocol::error::{ProtocolError, INTERNAL_ERROR};
use vasal::protocol::sidecar::SubmitResponse;
use vasal::sidecars::sql_ctrl::{
    discover_response, exec_response, query_response, read_command, table_info_sql, BindValue,
    ColumnInfo, SqlCell, SqlCommand, SqlFault, TableInfo, TABLES_SQL,
};

fn create_test_db() -> Connection {
    let conn = Connection::open_in_memory().unwrap();
    conn.execute_batch(
        "CREATE TABLE users (id INTEGER PRIMARY KEY, name TEXT NOT NULL, age INTEGER);
         INSERT INTO users (name, age) VALUES ('alice', 30);
         INSERT INTO users (name, age) VALUES ('bob', 25);
         INSERT INTO users (name, age) VALUES ('charlie', 35);",
    )
    .unwrap();
    conn
}

fn bound(value: &BindValue) -> Value {
    match value {
        BindValue::Null => Value::Null,
        BindValue::Bool(b) => Value::Integer(i64::from(*b)),
        BindValue::Integer(n) => Value::Integer(*n),
        BindValue::Real(JsonNumber::Float(f)) => Value::Real(f.number().as_f64().unwrap()),
        BindValue::Real(JsonNumber::PosInt(n)) => Value::Real(*n as f64),
        BindValue::Real(JsonNumber::NegInt(n)) => Value::Real(*n as f64),
        BindValue::Text(s) => Value::Text(s.clone()),
    }
}

fn cell(row: &Row<'_>, i: usize) -> SqlCell {
    match row.get_ref(i).unwrap() {
        ValueRef::Null => SqlCell::Null,
        ValueRef::Integer(n) => SqlCell::Integer(n),
        ValueRef::Real(f) => {
            SqlCell::Real(serde_json::Number::from_f64(f).and_then(JsonFloat::new))
        }
        ValueRef::Text(t) => SqlCell::Text(String::from_utf8(t.to_vec()).ok()),
        ValueRef::Blob(b) => SqlCell::Blob(b.to_vec()),
    }
}

fn told(fault: SqlFault, e: rusqlite::Error) -> ProtocolError {
    fault.error(&e.to_string())
}

fn query(
    conn: &Connection,
    sql: &str,
    params: &[BindValue],
) -> Result<SubmitResponse, ProtocolError> {
    let mut stmt = conn.prepare(sql).map_err(|e| told(SqlFault::Prepare, e))?;
    let columns: Vec<String> = stmt.column_names().iter().map(|c| c.to_string()).collect();
    let mut rows = stmt
        .query(params_from_iter(params.iter().map(bound)))
        .map_err(|e| told(SqlFault::Query, e))?;
    let mut found = Vec::new();
    while let Some(row) = rows.next().map_err(|e| told(SqlFault::Row, e))? {
        found.push((0..columns.len()).map(|i| cell(row, i)).collect());
    }
    Ok(query_response(&columns, &found))
}

fn discover(conn: &Connection) -> SubmitResponse {
    let mut stmt = conn.prepare(TABLES_SQL).unwrap();
    let names: Vec<String> = stmt.query_map([], |r| r.get(0)).unwrap().map(|n| n.unwrap()).collect();
    let mut tables = Vec::new();
    for table in names {
        let mut info = conn.prepare(&table_info_sql(&table)).unwrap();
        let columns = info
            .query_map([], |r| {
                Ok(ColumnInfo {
                    name: r.get(1)?,
                    col_type: r.get(2)?,
                    not_null: r.get(3)?,
                    primary_key: r.get(5)?,
                })
            })
            .unwrap()
            .map(|c| c.unwrap())
            .collect();
        tables.push(TableInfo { table, columns });
    }
    discover_response(&tables)
}

fn submit(conn: &Connection, request: &str) -> Result<Json, ProtocolError> {
    let default_dsn = Some("test.db".to_string());
    let response = match read_command(&parse_text(request).unwrap(), &default_dsn)? {
        SqlCommand::Query { dsn, sql, params } => {
            assert_eq!(dsn, "test.db");
            query(conn, &sql, &params)?
        }
        SqlCommand::Exec { sql, params, .. } => {
            let affected = conn
                .execute(&sql, params_from_iter(params.iter().map(bound)))
                .map_err(|e| told(SqlFault::Exec, e))?;
            exec_response(affected as u64, conn.last_insert_rowid())
        }
        SqlCommand::Discover { .. } => discover(conn),
    };
    match response {
        SubmitResponse::Completed { stdout, .. } => Ok(parse_text(&stdout).unwrap()),
        other => panic!("expected Completed, got {other:?}"),
    }
}

fn items(j: &Json, key: &str) -> Vec<Json> {
    match j.get(key) {
        Some(Json::Array(items)) => items.clone(),
        other => panic!("{other:?}"),
    }
}

#[test]
fn query_returns_rows() {
    let conn = create_test_db();
    let parsed = submit(
        &conn,
        r#"{"action":"query","sql":"SELECT name, age FROM users ORDER BY name"}"#,
    )
    .unwrap();
    assert_eq!(parsed.get("row_count").unwrap().as_u64(), Some(3));
    assert_eq!(parsed.get("columns").unwrap().to_text(), r#"["name","age"]"#);
    let rows = items(&parsed, "rows");
    assert_eq!(rows[0].get_str("name"), Some("alice"));
    assert_eq!(rows[0].get("age").unwrap().as_u64(), Some(30));
    assert_eq!(rows[2].get_str("name"), Some("charlie"));
}

#[test]
fn query_with_bind_params() {
    let conn = create_test_db();
    let parsed = submit(
        &conn,
        r#"{"action":"query","sql":"SELECT name FROM users WHERE age > ? ORDER BY name","params":[25]}"#,
    )
    .unwrap();
    assert_eq!(parsed.get("row_count").unwrap().as_u64(), Some(2));
    let rows = items(&parsed, "rows");
    assert_eq!(rows[0].get_str("name"), Some("alice"));
    assert_eq!(rows[1].get_str("name"), Some("charlie"));
}

#[test]
fn exec_insert_returns_affected() {
    let conn = create_test_db();
    let parsed = submit(
        &conn,
        r#"{"action":"exec","sql":"INSERT INTO users (name, age) VALUES (?, ?)","params":["dave",28]}"#,
    )
    .unwrap();
    assert_eq!(parsed.get("affected_rows").unwrap().as_u64(), Some(1));
    assert!(parsed.get("last_insert_rowid").unwrap().as_i64().unwrap() > 0);
    let check =
        submit(&conn, r#"{"action":"query","sql":"SELECT COUNT(*) as cnt FROM users"}"#).unwrap();
    assert_eq!(items(&check, "rows")[0].get("cnt").unwrap().as_u64(), Some(4));
}

#[test]
fn discover_returns_schema() {
    let conn = create_test_db();
    let parsed = submit(&conn, r#"{"action":"discover"}"#).unwrap();
    assert_eq!(parsed.get("table_count").unwrap().as_u64(), Some(1));
    assert_eq!(parsed.get_str("driver"), Some("sqlite"));
    let tables = items(&parsed, "tables");
    assert_eq!(tables[0].get_str("table"), Some("users"));
    let columns = items(&tables[0], "columns");
    assert_eq!(columns.len(), 3);
    assert_eq!(columns[0].get_str("name"), Some("id"));
    assert!(matches!(columns[0].get("primary_key"), Some(Json::Bool(true))));
    assert_eq!(columns[1].get_str("name"), Some("name"));
    assert_eq!(columns[2].get_str("name"), Some("age"));
}

#[test]
fn query_invalid_sql_returns_error() {
    let conn = create_test_db();
    let result = submit(&conn, r#"{"action":"query","sql":"SELECT * FROM nonexistent"}"#);
    assert!(result.is_err());
    let e = result.unwrap_err();
    assert_eq!(e.code, INTERNAL_ERROR);
    assert!(e.message.starts_with("SQL prepare error: "));
}

#[test]
fn table_of_an_odd_name_is_described() {
    let conn = Connection::open_in_memory().unwrap();
    conn.execute_batch(r#"CREATE TABLE "a""b" (x REAL NOT NULL);"#).unwrap();
    let parsed = submit(&conn, r#"{"action":"discover"}"#).unwrap();
    let tables = items(&parsed, "tables");
    assert_eq!(tables[0].get_str("table"), Some("a\"b"));
    assert_eq!(items(&tables[0], "columns").len(), 1);
}
