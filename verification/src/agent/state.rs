//! The rows of the agent's state store, and the clock that stamps them.

use vstd::prelude::*;
use vstd::string::*;

verus! {

/// A managed unit as it is stored.
#[derive(Debug, Clone, PartialEq)]
pub struct UnitRow {
    pub name: String,
    pub kind: String,
    pub version: String,
    pub state: String,
    pub health: Option<String>,
    pub health_error: Option<String>,
    pub pid: Option<u32>,
    pub socket_path: Option<String>,
    pub config_json: Option<String>,
    pub updated_at: i64,
}

/// What a value of [`UnitRow`] is.
#[verifier::ext_equal]
pub struct UnitRowModel {
    pub name: Seq<char>,
    pub kind: Seq<char>,
    pub version: Seq<char>,
    pub state: Seq<char>,
    pub health: Option<Seq<char>>,
    pub health_error: Option<Seq<char>>,
    pub pid: Option<u32>,
    pub socket_path: Option<Seq<char>>,
    pub config_json: Option<Seq<char>>,
    pub updated_at: i64,
}

/// What an optional text says.
pub open spec fn optional_text(s: Option<String>) -> Option<Seq<char>> {
    match s {
        Some(x) => Some(x@),
        None => None,
    }
}

impl View for UnitRow {
    type V = UnitRowModel;

    open spec fn view(&self) -> UnitRowModel {
        UnitRowModel {
            name: self.name@,
            kind: self.kind@,
            version: self.version@,
            state: self.state@,
            health: optional_text(self.health),
            health_error: optional_text(self.health_error),
            pid: self.pid,
            socket_path: optional_text(self.socket_path),
            config_json: optional_text(self.config_json),
            updated_at: self.updated_at,
        }
    }
}

/// A task result as the journal keeps it.
#[derive(Debug, Clone, PartialEq)]
pub struct TaskResultRow {
    pub task_id: String,
    pub chain_id: Option<String>,
    pub step_index: Option<i32>,
    pub status: String,
    pub exit_code: Option<i32>,
    pub stdout: String,
    pub stderr: String,
    pub duration_ms: i64,
    pub created_at: i64,
}

/// What a value of [`TaskResultRow`] is.
#[verifier::ext_equal]
pub struct TaskResultRowModel {
    pub task_id: Seq<char>,
    pub chain_id: Option<Seq<char>>,
    pub step_index: Option<i32>,
    pub status: Seq<char>,
    pub exit_code: Option<i32>,
    pub stdout: Seq<char>,
    pub stderr: Seq<char>,
    pub duration_ms: i64,
    pub created_at: i64,
}

impl View for TaskResultRow {
    type V = TaskResultRowModel;

    open spec fn view(&self) -> TaskResultRowModel {
        TaskResultRowModel {
            task_id: self.task_id@,
            chain_id: optional_text(self.chain_id),
            step_index: self.step_index,
            status: self.status@,
            exit_code: self.exit_code,
            stdout: self.stdout@,
            stderr: self.stderr@,
            duration_ms: self.duration_ms,
            created_at: self.created_at,
        }
    }
}

/// An audit event as it is stored; a stored one has a number.
#[derive(Debug, Clone, PartialEq)]
pub struct AuditRow {
    pub id: Option<i64>,
    pub timestamp: i64,
    pub event_type: String,
    pub task_id: Option<String>,
    pub detail_json: String,
}

/// `SystemTime::now` as milliseconds since the Unix epoch; zero for a clock set
/// before it. Nothing is known of the time.
#[verifier::external_body]
fn clock_ms() -> u128 {
    std::time::SystemTime::now()
        .duration_since(std::time::UNIX_EPOCH)
        .unwrap_or_default()
        .as_millis()
}

/// A count of milliseconds as the store keeps it: the low 64 bits.
pub open spec fn low_ms(ms: u128) -> i64 {
    ms as i64
}

/// A count of milliseconds as the store keeps it: the low 64 bits.
pub fn stored_ms(ms: u128) -> (r: i64)
    ensures
        r == low_ms(ms),
{
    #[verifier::truncate]
    (ms as i64)
}

/// Milliseconds since the Unix epoch, as the store keeps them. Of the moment
/// nothing is said: it is the clock's.
pub fn now_ms() -> (r: i64)
    ensures
        exists|ms: u128| r == #[trigger] low_ms(ms),
{
    let ms: u128 = clock_ms();
    let r: i64 = stored_ms(ms);
    assert(r == low_ms(ms));
    r
}

/// The whole seconds of a count of milliseconds, in 64 bits.
pub open spec fn seconds_of(ms: u128) -> u64 {
    (ms / 1000) as u64
}

/// The whole seconds of a count of milliseconds, in 64 bits.
pub fn whole_seconds(ms: u128) -> (r: u64)
    ensures
        r == seconds_of(ms),
{
    #[verifier::truncate]
    ((ms / 1000) as u64)
}

/// Whole seconds since the Unix epoch. Of the moment nothing is said: it is the
/// clock's.
pub fn now_sec() -> (r: u64)
    ensures
        exists|ms: u128| r == #[trigger] seconds_of(ms),
{
    let ms: u128 = clock_ms();
    let r: u64 = whole_seconds(ms);
    assert(r == seconds_of(ms));
    r
}

/// A process number as the store hands it back: the low 32 bits.
pub fn stored_pid(pid: Option<i64>) -> (r: Option<u32>)
    ensures
        match pid {
            Some(p) => r == Some(p as u32),
            None => r is None,
        },
{
    match pid {
        Some(p) => Some(
            #[verifier::truncate]
            (p as u32),
        ),
        None => None,
    }
}

/// A process number that was stored is handed back as it was.
pub proof fn law_pid_survives_storage(pid: u32)
    ensures
        (pid as i64) as u32 == pid,
{
}

/// A moment is stored as its milliseconds and counted in its whole seconds, as far
/// as these fit.
pub proof fn law_moments_are_kept_as_they_are(ms: u128)
    ensures
        ms <= i64::MAX ==> low_ms(ms) == ms,
        ms / 1000 <= u64::MAX ==> seconds_of(ms) * 1000 <= ms < (seconds_of(ms) + 1) * 1000,
{
}

} // verus!
