//! The state store: the statements that keep and find units, the task journal
//! and the audit log, and the rows that come back.
//!
//! A statement is SQL for SQLite with the values of its parameters. What runs it
//! hands back the columns of each row.

use crate::agent::error::{Error, ErrorModel};
use crate::agent::state::{
    self, stored_pid, AuditRow, TaskResultRow, TaskResultRowModel, UnitRow, UnitRowModel,
};
use crate::text;
use vstd::prelude::*;
use vstd::string::*;

verus! {

/// What the connection is told when it is opened.
pub const SETTINGS: &'static str = "PRAGMA journal_mode = WAL; PRAGMA busy_timeout = 5000;";

/// Creates the tables that are missing.
pub const SCHEMA: &'static str =
    "
    CREATE TABLE IF NOT EXISTS units (
        name         TEXT PRIMARY KEY,
        kind         TEXT NOT NULL,
        version      TEXT NOT NULL,
        state        TEXT NOT NULL DEFAULT 'absent',
        health       TEXT,
        health_error TEXT,
        pid          INTEGER,
        socket_path  TEXT,
        config_json  TEXT,
        updated_at   INTEGER NOT NULL
    );
    CREATE TABLE IF NOT EXISTS task_journal (
        id          INTEGER PRIMARY KEY AUTOINCREMENT,
        task_id     TEXT NOT NULL,
        chain_id    TEXT,
        step_index  INTEGER,
        status      TEXT NOT NULL,
        exit_code   INTEGER,
        stdout      TEXT NOT NULL DEFAULT '',
        stderr      TEXT NOT NULL DEFAULT '',
        duration_ms INTEGER NOT NULL,
        created_at  INTEGER NOT NULL
    );
    CREATE TABLE IF NOT EXISTS audit_log (
        id           INTEGER PRIMARY KEY AUTOINCREMENT,
        timestamp    INTEGER NOT NULL,
        event_type   TEXT NOT NULL,
        task_id      TEXT,
        detail_json  TEXT NOT NULL DEFAULT '{}',
        forwarded    INTEGER NOT NULL DEFAULT 0
    );
";

/// Keeps a unit, in place of any of its name.
pub const UPSERT_UNIT: &'static str =
    "INSERT INTO units (name, kind, version, state, health, health_error, pid, socket_path, config_json, updated_at)
     VALUES (?1, ?2, ?3, ?4, ?5, ?6, ?7, ?8, ?9, ?10)
     ON CONFLICT(name) DO UPDATE SET
         kind=excluded.kind, version=excluded.version, state=excluded.state,
         health=excluded.health, health_error=excluded.health_error, pid=excluded.pid,
         socket_path=excluded.socket_path, config_json=excluded.config_json,
         updated_at=excluded.updated_at";

/// Finds the unit of a name.
pub const GET_UNIT: &'static str =
    "SELECT name, kind, version, state, health, health_error, pid, socket_path, config_json, updated_at
     FROM units WHERE name = ?1";

/// Finds all units.
pub const LIST_UNITS: &'static str =
    "SELECT name, kind, version, state, health, health_error, pid, socket_path, config_json, updated_at
     FROM units ORDER BY name";

/// Forgets a unit.
pub const REMOVE_UNIT: &'static str = "DELETE FROM units WHERE name = ?1";

/// Enters a result in the journal.
pub const RECORD_RESULT: &'static str =
    "INSERT INTO task_journal (task_id, chain_id, step_index, status, exit_code, stdout, stderr, duration_ms, created_at)
     VALUES (?1, ?2, ?3, ?4, ?5, ?6, ?7, ?8, ?9)";

/// Takes all but the latest results out of the journal.
pub const PRUNE_JOURNAL: &'static str =
    "DELETE FROM task_journal WHERE id NOT IN (
         SELECT id FROM task_journal ORDER BY id DESC LIMIT ?1
     )";

/// Enters an event in the audit log.
pub const APPEND_AUDIT: &'static str =
    "INSERT INTO audit_log (timestamp, event_type, task_id, detail_json, forwarded)
     VALUES (?1, ?2, ?3, ?4, 0)";

/// Finds the oldest events that have not been forwarded.
pub const PENDING_AUDIT: &'static str =
    "SELECT id, timestamp, event_type, task_id, detail_json
     FROM audit_log WHERE forwarded = 0 ORDER BY id LIMIT ?1";

/// Marks an event as forwarded.
pub const MARK_FORWARDED: &'static str = "UPDATE audit_log SET forwarded = 1 WHERE id = ?1";

/// A value of the store.
#[derive(Debug, Clone, PartialEq)]
pub enum StoreValue {
    Null,
    Integer(i64),
    Real,
    Text(String),
    /// Text that is not UTF-8, with what is wrong with it.
    Garbled(String),
    Blob,
}

/// What a value of [`StoreValue`] is.
#[verifier::ext_equal]
pub enum StoreValueModel {
    Null,
    Integer(i64),
    Real,
    Text(Seq<char>),
    Garbled(Seq<char>),
    Blob,
}

impl View for StoreValue {
    type V = StoreValueModel;

    open spec fn view(&self) -> StoreValueModel {
        match self {
            StoreValue::Null => StoreValueModel::Null,
            StoreValue::Integer(n) => StoreValueModel::Integer(*n),
            StoreValue::Text(s) => StoreValueModel::Text(s@),
            StoreValue::Real => StoreValueModel::Real,
            StoreValue::Garbled(s) => StoreValueModel::Garbled(s@),
            StoreValue::Blob => StoreValueModel::Blob,
        }
    }
}

/// What values are, one by one.
pub open spec fn values_view(values: Seq<StoreValue>) -> Seq<StoreValueModel> {
    Seq::new(values.len(), |i: int| values[i]@)
}

/// A statement with the values of its parameters.
#[derive(Debug)]
pub struct Statement {
    pub sql: &'static str,
    pub params: Vec<StoreValue>,
}

/// What a value of [`Statement`] is.
#[verifier::ext_equal]
pub struct StatementModel {
    pub sql: Seq<char>,
    pub params: Seq<StoreValueModel>,
}

impl View for Statement {
    type V = StatementModel;

    open spec fn view(&self) -> StatementModel {
        StatementModel { sql: self.sql@, params: values_view(self.params@) }
    }
}

/// A text that may be missing, as it is stored.
pub open spec fn text_value(s: Option<Seq<char>>) -> StoreValueModel {
    match s {
        Some(t) => StoreValueModel::Text(t),
        None => StoreValueModel::Null,
    }
}

/// A number that may be missing, as it is stored.
pub open spec fn number_value(n: Option<i64>) -> StoreValueModel {
    match n {
        Some(i) => StoreValueModel::Integer(i),
        None => StoreValueModel::Null,
    }
}

/// A number below 2^32 that may be missing, in 64 bits.
pub open spec fn wide_unsigned(n: Option<u32>) -> Option<i64> {
    match n {
        Some(i) => Some(i as i64),
        None => None,
    }
}

/// A number of 32 bits that may be missing, in 64 bits.
pub open spec fn wide_signed(n: Option<i32>) -> Option<i64> {
    match n {
        Some(i) => Some(i as i64),
        None => None,
    }
}

/// The columns of a unit.
pub open spec fn unit_values(m: UnitRowModel) -> Seq<StoreValueModel> {
    seq![
        StoreValueModel::Text(m.name),
        StoreValueModel::Text(m.kind),
        StoreValueModel::Text(m.version),
        StoreValueModel::Text(m.state),
        text_value(m.health),
        text_value(m.health_error),
        number_value(wide_unsigned(m.pid)),
        text_value(m.socket_path),
        text_value(m.config_json),
        StoreValueModel::Integer(m.updated_at),
    ]
}

/// The columns of a result.
pub open spec fn result_values(m: TaskResultRowModel) -> Seq<StoreValueModel> {
    seq![
        StoreValueModel::Text(m.task_id),
        text_value(m.chain_id),
        number_value(wide_signed(m.step_index)),
        StoreValueModel::Text(m.status),
        number_value(wide_signed(m.exit_code)),
        StoreValueModel::Text(m.stdout),
        StoreValueModel::Text(m.stderr),
        StoreValueModel::Integer(m.duration_ms),
        StoreValueModel::Integer(m.created_at),
    ]
}

/// The columns of an event, its number apart, which the store gives it.
pub open spec fn event_values(e: AuditRow) -> Seq<StoreValueModel> {
    seq![
        StoreValueModel::Integer(e.timestamp),
        StoreValueModel::Text(e.event_type@),
        text_value(state::optional_text(e.task_id)),
        StoreValueModel::Text(e.detail_json@),
    ]
}

/// Stores a text.
fn text_param(s: &str) -> (r: StoreValue)
    ensures
        r@ == StoreValueModel::Text(s@),
{
    StoreValue::Text(s.to_owned())
}

/// Stores a text that may be missing.
fn optional_param(s: &Option<String>) -> (r: StoreValue)
    ensures
        r@ == text_value(state::optional_text(*s)),
{
    match s {
        Some(t) => StoreValue::Text(t.clone()),
        None => StoreValue::Null,
    }
}

/// Stores a number that may be missing.
fn number_param(n: Option<i64>) -> (r: StoreValue)
    ensures
        r@ == number_value(n),
{
    match n {
        Some(i) => StoreValue::Integer(i),
        None => StoreValue::Null,
    }
}

/// A number of 32 bits that may be missing, in 64 bits.
fn widen(n: Option<i32>) -> (r: Option<i64>)
    ensures
        r == wide_signed(n),
{
    match n {
        Some(i) => Some(i as i64),
        None => None,
    }
}

/// The state store of a data directory.
#[derive(Debug, Clone)]
pub struct StateStore {
    data_dir: String,
}

impl StateStore {
    /// The data directory.
    pub closed spec fn dir(&self) -> Seq<char> {
        self.data_dir@
    }

    /// The store of a data directory.
    pub fn open(data_dir: &str) -> (r: StateStore)
        ensures
            r.dir() == data_dir@,
    {
        StateStore { data_dir: data_dir.to_owned() }
    }

    /// The data directory.
    pub fn data_dir_or_default(&self) -> (r: &str)
        ensures
            r@ == self.dir(),
    {
        self.data_dir.as_str()
    }

    /// The file that holds the database.
    pub fn database_path(&self) -> (r: String)
        ensures
            r@ == text::joined_path(self.dir(), "state.db"@),
    {
        text::join_path(self.data_dir.as_str(), "state.db")
    }

    /// Keeps a unit, in place of any of its name.
    pub fn upsert_unit(&self, unit: &UnitRow) -> (r: Statement)
        ensures
            r@ == (StatementModel { sql: UPSERT_UNIT@, params: unit_values(unit@) }),
    {
        let pid: Option<i64> = match unit.pid {
            Some(p) => Some(p as i64),
            None => None,
        };
        let params = vec![
            text_param(unit.name.as_str()),
            text_param(unit.kind.as_str()),
            text_param(unit.version.as_str()),
            text_param(unit.state.as_str()),
            optional_param(&unit.health),
            optional_param(&unit.health_error),
            number_param(pid),
            optional_param(&unit.socket_path),
            optional_param(&unit.config_json),
            StoreValue::Integer(unit.updated_at),
        ];
        proof {
            assert(values_view(params@) =~= unit_values(unit@));
        }
        Statement { sql: UPSERT_UNIT, params }
    }

    /// Finds the unit of a name.
    pub fn get_unit(&self, name: &str) -> (r: Statement)
        ensures
            r@ == (StatementModel { sql: GET_UNIT@, params: seq![StoreValueModel::Text(name@)] }),
    {
        let params = vec![text_param(name)];
        proof {
            assert(values_view(params@) =~= seq![StoreValueModel::Text(name@)]);
        }
        Statement { sql: GET_UNIT, params }
    }

    /// Finds all units, in the order of their names.
    pub fn list_units(&self) -> (r: Statement)
        ensures
            r@ == (StatementModel { sql: LIST_UNITS@, params: Seq::empty() }),
    {
        let params: Vec<StoreValue> = Vec::new();
        proof {
            assert(values_view(params@) =~= Seq::empty());
        }
        Statement { sql: LIST_UNITS, params }
    }

    /// Forgets the unit of a name.
    pub fn remove_unit(&self, name: &str) -> (r: Statement)
        ensures
            r@ == (StatementModel {
                sql: REMOVE_UNIT@,
                params: seq![StoreValueModel::Text(name@)],
            }),
    {
        let params = vec![text_param(name)];
        proof {
            assert(values_view(params@) =~= seq![StoreValueModel::Text(name@)]);
        }
        Statement { sql: REMOVE_UNIT, params }
    }

    /// Enters a result in the journal.
    pub fn record_task_result(&self, result: &TaskResultRow) -> (r: Statement)
        ensures
            r@ == (StatementModel { sql: RECORD_RESULT@, params: result_values(result@) }),
    {
        let params = vec![
            text_param(result.task_id.as_str()),
            optional_param(&result.chain_id),
            number_param(widen(result.step_index)),
            text_param(result.status.as_str()),
            number_param(widen(result.exit_code)),
            text_param(result.stdout.as_str()),
            text_param(result.stderr.as_str()),
            StoreValue::Integer(result.duration_ms),
            StoreValue::Integer(result.created_at),
        ];
        proof {
            assert(values_view(params@) =~= result_values(result@));
        }
        Statement { sql: RECORD_RESULT, params }
    }

    /// Takes all but the latest `keep` results out of the journal.
    pub fn prune_journal(&self, keep: usize) -> (r: Statement)
        ensures
            r@ == (StatementModel {
                sql: PRUNE_JOURNAL@,
                params: seq![StoreValueModel::Integer(keep as i64)],
            }),
    {
        let limit: i64 = #[verifier::truncate]
        (keep as i64);
        let params = vec![StoreValue::Integer(limit)];
        proof {
            assert(values_view(params@) =~= seq![StoreValueModel::Integer(keep as i64)]);
        }
        Statement { sql: PRUNE_JOURNAL, params }
    }

    /// Enters an event in the audit log, as one that has not been forwarded.
    pub fn append_audit(&self, event: &AuditRow) -> (r: Statement)
        ensures
            r@ == (StatementModel { sql: APPEND_AUDIT@, params: event_values(*event) }),
    {
        let params = vec![
            StoreValue::Integer(event.timestamp),
            text_param(event.event_type.as_str()),
            optional_param(&event.task_id),
            text_param(event.detail_json.as_str()),
        ];
        proof {
            assert(values_view(params@) =~= event_values(*event));
        }
        Statement { sql: APPEND_AUDIT, params }
    }

    /// Finds the oldest events that have not been forwarded, at most `limit`.
    pub fn pending_audit_events(&self, limit: usize) -> (r: Statement)
        ensures
            r@ == (StatementModel {
                sql: PENDING_AUDIT@,
                params: seq![StoreValueModel::Integer(limit as i64)],
            }),
    {
        let most: i64 = #[verifier::truncate]
        (limit as i64);
        let params = vec![StoreValue::Integer(most)];
        proof {
            assert(values_view(params@) =~= seq![StoreValueModel::Integer(limit as i64)]);
        }
        Statement { sql: PENDING_AUDIT, params }
    }

    /// Marks events as forwarded, each by a statement of its own.
    pub fn mark_forwarded(&self, ids: &Vec<i64>) -> (r: Vec<Statement>)
        ensures
            r@.len() == ids@.len(),
            forall|i: int|
                0 <= i < ids@.len() ==> (#[trigger] r@[i])@ == (StatementModel {
                    sql: MARK_FORWARDED@,
                    params: seq![StoreValueModel::Integer(ids@[i])],
                }),
    {
        let mut r: Vec<Statement> = Vec::new();
        for i in 0..ids.len()
            invariant
                r@.len() == i,
                forall|k: int|
                    0 <= k < i ==> (#[trigger] r@[k])@ == (StatementModel {
                        sql: MARK_FORWARDED@,
                        params: seq![StoreValueModel::Integer(ids@[k])],
                    }),
        {
            let params = vec![StoreValue::Integer(ids[i])];
            proof {
                assert(values_view(params@) =~= seq![StoreValueModel::Integer(ids@[i as int])]);
            }
            r.push(Statement { sql: MARK_FORWARDED, params });
        }
        r
    }
}

/// The name of a value's type.
pub open spec fn kind_name(value: StoreValueModel) -> Seq<char> {
    match value {
        StoreValueModel::Null => "Null"@,
        StoreValueModel::Integer(_) => "Integer"@,
        StoreValueModel::Real => "Real"@,
        StoreValueModel::Text(_) | StoreValueModel::Garbled(_) => "Text"@,
        StoreValueModel::Blob => "Blob"@,
    }
}

/// The error that a column is missing or holds a value of another type.
pub open spec fn column_fault(
    row: Seq<StoreValueModel>,
    column: nat,
    name: Seq<char>,
) -> ErrorModel {
    ErrorModel::State(
        if column < row.len() {
            "Invalid column type "@ + kind_name(row[column as int]) + " at index: "@
                + text::decimal(column) + ", name: "@ + name
        } else {
            "Invalid column index: "@ + text::decimal(column)
        },
    )
}

/// The error that the text in a column is not UTF-8.
pub open spec fn garbled_fault(column: nat, complaint: Seq<char>) -> ErrorModel {
    ErrorModel::State(
        "Conversion error from type Text at index: "@ + text::decimal(column) + ", "@ + complaint,
    )
}

/// The text in a column.
pub open spec fn text_in(row: Seq<StoreValueModel>, column: nat, name: Seq<char>) -> Result<
    Seq<char>,
    ErrorModel,
> {
    if column < row.len() && row[column as int] is Text {
        Ok(row[column as int]->Text_0)
    } else if column < row.len() && row[column as int] is Garbled {
        Err(garbled_fault(column, row[column as int]->Garbled_0))
    } else {
        Err(column_fault(row, column, name))
    }
}

/// The text in a column, where there is one.
pub open spec fn optional_in(row: Seq<StoreValueModel>, column: nat, name: Seq<char>) -> Result<
    Option<Seq<char>>,
    ErrorModel,
> {
    if column < row.len() && row[column as int] is Null {
        Ok(None)
    } else {
        match text_in(row, column, name) {
            Ok(t) => Ok(Some(t)),
            Err(e) => Err(e),
        }
    }
}

/// The number in a column.
pub open spec fn number_in(row: Seq<StoreValueModel>, column: nat, name: Seq<char>) -> Result<
    i64,
    ErrorModel,
> {
    if column < row.len() && row[column as int] is Integer {
        Ok(row[column as int]->Integer_0)
    } else {
        Err(column_fault(row, column, name))
    }
}

/// The number in a column, where there is one.
pub open spec fn optional_number_in(
    row: Seq<StoreValueModel>,
    column: nat,
    name: Seq<char>,
) -> Result<Option<i64>, ErrorModel> {
    if column < row.len() && row[column as int] is Null {
        Ok(None)
    } else {
        match number_in(row, column, name) {
            Ok(n) => Ok(Some(n)),
            Err(e) => Err(e),
        }
    }
}

/// The error that a column is missing or holds a value of another type.
fn fault(row: &Vec<StoreValue>, column: usize, name: &str) -> (r: Error)
    ensures
        r@ == column_fault(values_view(row@), column as nat, name@),
{
    let mut s: String = String::new();
    if column < row.len() {
        let found = match &row[column] {
            StoreValue::Null => "Null",
            StoreValue::Integer(_) => "Integer",
            StoreValue::Real => "Real",
            StoreValue::Text(_) | StoreValue::Garbled(_) => "Text",
            StoreValue::Blob => "Blob",
        };
        s.append("Invalid column type ");
        s.append(found);
        s.append(" at index: ");
        text::push_u64(&mut s, column as u64);
        s.append(", name: ");
        s.append(name);
    } else {
        s.append("Invalid column index: ");
        text::push_u64(&mut s, column as u64);
    }
    proof {
        assert(ErrorModel::State(s@) == column_fault(values_view(row@), column as nat, name@)) by {
            let m = column_fault(values_view(row@), column as nat, name@);
            assert(s@ =~= m->State_0);
        }
    }
    Error::State(s)
}

/// The error that the text in a column is not UTF-8.
fn garbled(column: usize, complaint: &str) -> (r: Error)
    ensures
        r@ == garbled_fault(column as nat, complaint@),
{
    let mut s: String = "Conversion error from type Text at index: ".to_owned();
    text::push_u64(&mut s, column as u64);
    s.append(", ");
    s.append(complaint);
    Error::State(s)
}

/// Takes the text out of a column.
fn text_at(row: &Vec<StoreValue>, column: usize, name: &str) -> (r: Result<String, Error>)
    ensures
        match text_in(values_view(row@), column as nat, name@) {
            Ok(t) => r is Ok && r->Ok_0@ == t,
            Err(e) => r is Err && r->Err_0@ == e,
        },
{
    if column < row.len() {
        match &row[column] {
            StoreValue::Text(s) => return Ok(s.clone()),
            StoreValue::Garbled(complaint) => return Err(garbled(column, complaint.as_str())),
            _ => {},
        }
    }
    Err(fault(row, column, name))
}

/// Takes the text out of a column, where there is one.
fn optional_at(row: &Vec<StoreValue>, column: usize, name: &str) -> (r: Result<
    Option<String>,
    Error,
>)
    ensures
        match optional_in(values_view(row@), column as nat, name@) {
            Ok(t) => r is Ok && state::optional_text(r->Ok_0) == t,
            Err(e) => r is Err && r->Err_0@ == e,
        },
{
    if column < row.len() {
        if let StoreValue::Null = &row[column] {
            return Ok(None);
        }
    }
    match text_at(row, column, name) {
        Ok(s) => Ok(Some(s)),
        Err(e) => Err(e),
    }
}

/// Takes the number out of a column.
fn number_at(row: &Vec<StoreValue>, column: usize, name: &str) -> (r: Result<i64, Error>)
    ensures
        match number_in(values_view(row@), column as nat, name@) {
            Ok(n) => r is Ok && r->Ok_0 == n,
            Err(e) => r is Err && r->Err_0@ == e,
        },
{
    if column < row.len() {
        if let StoreValue::Integer(n) = &row[column] {
            return Ok(*n);
        }
    }
    Err(fault(row, column, name))
}

/// Takes the number out of a column, where there is one.
fn optional_number_at(row: &Vec<StoreValue>, column: usize, name: &str) -> (r: Result<
    Option<i64>,
    Error,
>)
    ensures
        match optional_number_in(values_view(row@), column as nat, name@) {
            Ok(n) => r is Ok && r->Ok_0 == n,
            Err(e) => r is Err && r->Err_0@ == e,
        },
{
    if column < row.len() {
        if let StoreValue::Null = &row[column] {
            return Ok(None);
        }
    }
    match number_at(row, column, name) {
        Ok(n) => Ok(Some(n)),
        Err(e) => Err(e),
    }
}

/// A process number as the store hands it back: the low 32 bits.
pub open spec fn narrow(n: Option<i64>) -> Option<u32> {
    match n {
        Some(i) => Some(i as u32),
        None => None,
    }
}

/// The unit that the columns of a row hold, or what is wrong with the first
/// column that holds something else.
pub open spec fn unit_in(row: Seq<StoreValueModel>) -> Result<UnitRowModel, ErrorModel> {
    let name = text_in(row, 0, "name"@);
    let kind = text_in(row, 1, "kind"@);
    let version = text_in(row, 2, "version"@);
    let unit_state = text_in(row, 3, "state"@);
    let health = optional_in(row, 4, "health"@);
    let health_error = optional_in(row, 5, "health_error"@);
    let pid = optional_number_in(row, 6, "pid"@);
    let socket_path = optional_in(row, 7, "socket_path"@);
    let config_json = optional_in(row, 8, "config_json"@);
    let updated_at = number_in(row, 9, "updated_at"@);
    if name is Err {
        Err(name->Err_0)
    } else if kind is Err {
        Err(kind->Err_0)
    } else if version is Err {
        Err(version->Err_0)
    } else if unit_state is Err {
        Err(unit_state->Err_0)
    } else if health is Err {
        Err(health->Err_0)
    } else if health_error is Err {
        Err(health_error->Err_0)
    } else if pid is Err {
        Err(pid->Err_0)
    } else if socket_path is Err {
        Err(socket_path->Err_0)
    } else if config_json is Err {
        Err(config_json->Err_0)
    } else if updated_at is Err {
        Err(updated_at->Err_0)
    } else {
        Ok(
            UnitRowModel {
                name: name->Ok_0,
                kind: kind->Ok_0,
                version: version->Ok_0,
                state: unit_state->Ok_0,
                health: health->Ok_0,
                health_error: health_error->Ok_0,
                pid: narrow(pid->Ok_0),
                socket_path: socket_path->Ok_0,
                config_json: config_json->Ok_0,
                updated_at: updated_at->Ok_0,
            },
        )
    }
}

/// Reads a unit from the columns of a row.
pub fn read_unit(row: &Vec<StoreValue>) -> (r: Result<UnitRow, Error>)
    ensures
        match unit_in(values_view(row@)) {
            Ok(m) => r is Ok && r->Ok_0@ == m,
            Err(e) => r is Err && r->Err_0@ == e,
        },
{
    let name = match text_at(row, 0, "name") {
        Ok(v) => v,
        Err(e) => return Err(e),
    };
    let kind = match text_at(row, 1, "kind") {
        Ok(v) => v,
        Err(e) => return Err(e),
    };
    let version = match text_at(row, 2, "version") {
        Ok(v) => v,
        Err(e) => return Err(e),
    };
    let unit_state = match text_at(row, 3, "state") {
        Ok(v) => v,
        Err(e) => return Err(e),
    };
    let health = match optional_at(row, 4, "health") {
        Ok(v) => v,
        Err(e) => return Err(e),
    };
    let health_error = match optional_at(row, 5, "health_error") {
        Ok(v) => v,
        Err(e) => return Err(e),
    };
    let pid = match optional_number_at(row, 6, "pid") {
        Ok(v) => v,
        Err(e) => return Err(e),
    };
    let socket_path = match optional_at(row, 7, "socket_path") {
        Ok(v) => v,
        Err(e) => return Err(e),
    };
    let config_json = match optional_at(row, 8, "config_json") {
        Ok(v) => v,
        Err(e) => return Err(e),
    };
    let updated_at: i64 = match number_at(row, 9, "updated_at") {
        Ok(v) => v,
        Err(e) => return Err(e),
    };
    Ok(
        UnitRow {
            name,
            kind,
            version,
            state: unit_state,
            health,
            health_error,
            pid: stored_pid(pid),
            socket_path,
            config_json,
            updated_at,
        },
    )
}

/// What the columns of a row of the audit log come to: a stored event, or what
/// is wrong with the first column that holds something else.
pub open spec fn is_event(row: Seq<StoreValueModel>, r: Result<AuditRow, Error>) -> bool {
    let id = number_in(row, 0, "id"@);
    let timestamp = number_in(row, 1, "timestamp"@);
    let event_type = text_in(row, 2, "event_type"@);
    let task_id = optional_in(row, 3, "task_id"@);
    let detail_json = text_in(row, 4, "detail_json"@);
    if id is Err {
        r is Err && r->Err_0@ == id->Err_0
    } else if timestamp is Err {
        r is Err && r->Err_0@ == timestamp->Err_0
    } else if event_type is Err {
        r is Err && r->Err_0@ == event_type->Err_0
    } else if task_id is Err {
        r is Err && r->Err_0@ == task_id->Err_0
    } else if detail_json is Err {
        r is Err && r->Err_0@ == detail_json->Err_0
    } else {
        &&& r is Ok
        &&& r->Ok_0.id == Some(id->Ok_0)
        &&& r->Ok_0.timestamp == timestamp->Ok_0
        &&& r->Ok_0.event_type@ == event_type->Ok_0
        &&& state::optional_text(r->Ok_0.task_id) == task_id->Ok_0
        &&& r->Ok_0.detail_json@ == detail_json->Ok_0
    }
}

/// Reads an event from the columns of a row.
pub fn read_event(row: &Vec<StoreValue>) -> (r: Result<AuditRow, Error>)
    ensures
        is_event(values_view(row@), r),
{
    let id: i64 = match number_at(row, 0, "id") {
        Ok(v) => v,
        Err(e) => return Err(e),
    };
    let timestamp: i64 = match number_at(row, 1, "timestamp") {
        Ok(v) => v,
        Err(e) => return Err(e),
    };
    let event_type = match text_at(row, 2, "event_type") {
        Ok(v) => v,
        Err(e) => return Err(e),
    };
    let task_id = match optional_at(row, 3, "task_id") {
        Ok(v) => v,
        Err(e) => return Err(e),
    };
    let detail_json = match text_at(row, 4, "detail_json") {
        Ok(v) => v,
        Err(e) => return Err(e),
    };
    Ok(AuditRow { id: Some(id), timestamp, event_type, task_id, detail_json })
}

/// A unit is read back from the columns that were written for it.
pub proof fn law_unit_is_read_as_it_was_written(m: UnitRowModel)
    ensures
        unit_in(unit_values(m)) == Ok::<UnitRowModel, ErrorModel>(m),
{
    if let Some(p) = m.pid {
        state::law_pid_survives_storage(p);
    }
}

/// An event is read back from the columns that were written for it, under the
/// number that the store gave it.
pub proof fn law_event_is_read_as_it_was_written(e: AuditRow, id: i64, r: Result<AuditRow, Error>)
    requires
        is_event(seq![StoreValueModel::Integer(id)] + event_values(e), r),
    ensures
        r is Ok,
        r->Ok_0.id == Some(id),
        r->Ok_0.timestamp == e.timestamp,
        r->Ok_0.event_type@ == e.event_type@,
        state::optional_text(r->Ok_0.task_id) == state::optional_text(e.task_id),
        r->Ok_0.detail_json@ == e.detail_json@,
{
}

/// Where a column of a row holds a text.
pub open spec fn holds_text(row: Seq<StoreValueModel>, column: int, s: Seq<char>) -> bool {
    column < row.len() && row[column] == StoreValueModel::Text(s)
}

/// Where a column of a row holds a text, or nothing.
pub open spec fn may_hold_text(
    row: Seq<StoreValueModel>,
    column: int,
    s: Option<Seq<char>>,
) -> bool {
    column < row.len() && row[column] == (match s {
        Some(t) => StoreValueModel::Text(t),
        None => StoreValueModel::Null,
    })
}

/// A unit is read from a row exactly where the columns hold what a unit has, each
/// in its place.
pub proof fn law_unit_is_what_the_columns_hold(row: Seq<StoreValueModel>, m: UnitRowModel)
    ensures
        unit_in(row) == Ok::<UnitRowModel, ErrorModel>(m) <==> ({
            &&& holds_text(row, 0, m.name)
            &&& holds_text(row, 1, m.kind)
            &&& holds_text(row, 2, m.version)
            &&& holds_text(row, 3, m.state)
            &&& may_hold_text(row, 4, m.health)
            &&& may_hold_text(row, 5, m.health_error)
            &&& 6 < row.len()
            &&& row[6] is Null ==> m.pid is None
            &&& !(row[6] is Null) ==> row[6] is Integer && m.pid == Some(row[6]->Integer_0 as u32)
            &&& may_hold_text(row, 7, m.socket_path)
            &&& may_hold_text(row, 8, m.config_json)
            &&& 9 < row.len()
            &&& row[9] == StoreValueModel::Integer(m.updated_at)
        }),
{
}

/// An event is read from a row exactly where the columns hold what an event has,
/// each in its place.
pub proof fn law_event_is_what_the_columns_hold(
    row: Seq<StoreValueModel>,
    r: Result<AuditRow, Error>,
)
    requires
        is_event(row, r),
    ensures
        r is Ok <==> ({
            &&& 4 < row.len()
            &&& row[0] is Integer
            &&& row[1] is Integer
            &&& row[2] is Text
            &&& row[3] is Text || row[3] is Null
            &&& row[4] is Text
        }),
        r matches Ok(e) ==> {
            &&& e.id == Some(row[0]->Integer_0)
            &&& e.timestamp == row[1]->Integer_0
            &&& holds_text(row, 2, e.event_type@)
            &&& may_hold_text(row, 3, state::optional_text(e.task_id))
            &&& holds_text(row, 4, e.detail_json@)
        },
{
}

/// What is stored of a result: each part in its column, in the order of the
/// statement that stores it.
pub proof fn law_result_is_stored_column_by_column(m: TaskResultRowModel)
    ensures
        ({
            let v = result_values(m);
            let number = |n: Option<i32>|
                match n {
                    Some(i) => StoreValueModel::Integer(i as i64),
                    None => StoreValueModel::Null,
                };
            &&& v.len() == 9
            &&& holds_text(v, 0, m.task_id)
            &&& may_hold_text(v, 1, m.chain_id)
            &&& v[2] == number(m.step_index)
            &&& holds_text(v, 3, m.status)
            &&& v[4] == number(m.exit_code)
            &&& holds_text(v, 5, m.stdout)
            &&& holds_text(v, 6, m.stderr)
            &&& v[7] == StoreValueModel::Integer(m.duration_ms)
            &&& v[8] == StoreValueModel::Integer(m.created_at)
        }),
{
}

/// What is stored of an event: each part in its column, in the order of the
/// statement that stores it.
pub proof fn law_event_is_stored_column_by_column(e: AuditRow)
    ensures
        ({
            let v = event_values(e);
            &&& v.len() == 4
            &&& v[0] == StoreValueModel::Integer(e.timestamp)
            &&& holds_text(v, 1, e.event_type@)
            &&& may_hold_text(v, 2, state::optional_text(e.task_id))
            &&& holds_text(v, 3, e.detail_json@)
        }),
{
}

/// A column that does not hold what it should is complained of by its place: a
/// text that is none, a value of another type by the name of that type, and one
/// that there is not.
pub proof fn law_bad_columns_are_named(row: Seq<StoreValueModel>, column: nat, name: Seq<char>)
    ensures
        ({
            let text = text_in(row, column, name);
            let number = number_in(row, column, name);
            let place = "Invalid column index: "@ + text::decimal(column);
            let other = |kind: Seq<char>|
                "Invalid column type "@ + kind + " at index: "@ + text::decimal(column)
                    + ", name: "@ + name;
            &&& column >= row.len() ==> text == Err::<Seq<char>, ErrorModel>(
                ErrorModel::State(place),
            ) && number == Err::<i64, ErrorModel>(ErrorModel::State(place))
            &&& column < row.len() ==> match row[column as int] {
                StoreValueModel::Text(s) => text == Ok::<Seq<char>, ErrorModel>(s) && number
                    == Err::<i64, ErrorModel>(ErrorModel::State(other("Text"@))),
                StoreValueModel::Garbled(complaint) => text == Err::<Seq<char>, ErrorModel>(
                    ErrorModel::State(
                        "Conversion error from type Text at index: "@ + text::decimal(column)
                            + ", "@ + complaint,
                    ),
                ) && number == Err::<i64, ErrorModel>(ErrorModel::State(other("Text"@))),
                StoreValueModel::Integer(n) => number == Ok::<i64, ErrorModel>(n) && text
                    == Err::<Seq<char>, ErrorModel>(ErrorModel::State(other("Integer"@))),
                StoreValueModel::Null => text == Err::<Seq<char>, ErrorModel>(
                    ErrorModel::State(other("Null"@)),
                ) && number == Err::<i64, ErrorModel>(ErrorModel::State(other("Null"@))),
                StoreValueModel::Real => text == Err::<Seq<char>, ErrorModel>(
                    ErrorModel::State(other("Real"@)),
                ) && number == Err::<i64, ErrorModel>(ErrorModel::State(other("Real"@))),
                StoreValueModel::Blob => text == Err::<Seq<char>, ErrorModel>(
                    ErrorModel::State(other("Blob"@)),
                ) && number == Err::<i64, ErrorModel>(ErrorModel::State(other("Blob"@))),
            }
        }),
{
}

/// What is wrong with a row of the audit log is what is wrong with the first of
/// its columns that does not hold what it should.
pub proof fn law_first_bad_column_of_an_event_counts(
    row: Seq<StoreValueModel>,
    r: Result<AuditRow, Error>,
)
    requires
        is_event(row, r),
    ensures
        ({
            let id = number_in(row, 0, "id"@);
            let timestamp = number_in(row, 1, "timestamp"@);
            let event_type = text_in(row, 2, "event_type"@);
            let task_id = optional_in(row, 3, "task_id"@);
            let detail = text_in(row, 4, "detail_json"@);
            &&& id matches Err(e) ==> r is Err && r->Err_0@ == e
            &&& id is Ok && timestamp is Err ==> r is Err && r->Err_0@ == timestamp->Err_0
            &&& id is Ok && timestamp is Ok && event_type is Err ==> r is Err && r->Err_0@
                == event_type->Err_0
            &&& id is Ok && timestamp is Ok && event_type is Ok && task_id is Err ==> r is Err
                && r->Err_0@ == task_id->Err_0
            &&& id is Ok && timestamp is Ok && event_type is Ok && task_id is Ok && detail is Err
                ==> r is Err && r->Err_0@ == detail->Err_0
        }),
{
}

/// What is wrong with a row of a unit is what is wrong with the first of its
/// columns that does not hold what it should.
pub proof fn law_first_bad_column_of_a_unit_counts(row: Seq<StoreValueModel>)
    ensures
        ({
            let r = unit_in(row);
            let name = text_in(row, 0, "name"@);
            let kind = text_in(row, 1, "kind"@);
            let version = text_in(row, 2, "version"@);
            let unit_state = text_in(row, 3, "state"@);
            let head = name is Ok && kind is Ok && version is Ok && unit_state is Ok;
            let health = optional_in(row, 4, "health"@);
            let complaint = optional_in(row, 5, "health_error"@);
            let pid = optional_number_in(row, 6, "pid"@);
            let socket = optional_in(row, 7, "socket_path"@);
            let config = optional_in(row, 8, "config_json"@);
            let updated = number_in(row, 9, "updated_at"@);
            &&& name is Err ==> r is Err && r->Err_0 == name->Err_0
            &&& name is Ok && kind is Err ==> r is Err && r->Err_0 == kind->Err_0
            &&& name is Ok && kind is Ok && version is Err ==> r is Err && r->Err_0
                == version->Err_0
            &&& name is Ok && kind is Ok && version is Ok && unit_state is Err ==> r is Err
                && r->Err_0 == unit_state->Err_0
            &&& head && health is Err ==> r is Err && r->Err_0 == health->Err_0
            &&& head && health is Ok && complaint is Err ==> r is Err && r->Err_0
                == complaint->Err_0
            &&& head && health is Ok && complaint is Ok && pid is Err ==> r is Err && r->Err_0
                == pid->Err_0
            &&& head && health is Ok && complaint is Ok && pid is Ok && socket is Err ==> r is Err
                && r->Err_0 == socket->Err_0
            &&& head && health is Ok && complaint is Ok && pid is Ok && socket is Ok && config
                is Err ==> r is Err && r->Err_0 == config->Err_0
            &&& head && health is Ok && complaint is Ok && pid is Ok && socket is Ok && config
                is Ok && updated is Err ==> r is Err && r->Err_0 == updated->Err_0
        }),
{
}

} // verus!
