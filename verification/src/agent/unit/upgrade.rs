//! Upgrading a unit, and going back when the new version is not well.

use crate::agent::error::{joined, Error, ErrorModel};
use crate::agent::state::{UnitRow, UnitRowModel};
use crate::agent::task::{router, sidecar};
use crate::agent::unit::artifact::{self, plan_unpack_as, ArchiveFormat};
use crate::agent::unit::install::{self, judge_download};
use crate::agent::unit::rows::socket_path_for;
use crate::agent::unit::steps::{UnitAction, UnitActionModel, UnitEvent};
use crate::protocol::task::{RollbackSpec, RollbackSpecModel};
use crate::text;
use crate::wire::{self, Wire};
use vstd::prelude::*;
use vstd::string::*;

verus! {

/// Seconds that the running version is given to end.
pub const STOP_PAUSE_SEC: u64 = 2;

/// Seconds that a version that is not well is given to end.
pub const STOP_BAD_PAUSE_SEC: u64 = 1;

/// Seconds that a new version has to come to be well.
pub const PROBE_TIMEOUT_SEC: u64 = 10;

/// Where an upgrade stands.
#[derive(Debug, Clone, Copy, PartialEq, Eq, Structural)]
pub enum UpgradePhase {
    Fetching,
    Loading,
    Stopping,
    Unpacking,
    Starting,
    Probing,
    StoppingNew,
    BackFetching,
    BackUnpacking,
    BackLoading,
    BackStarting,
    BackSaving,
    Saving,
    Over,
}

/// What an upgrade is about.
#[verifier::ext_equal]
pub struct UpgradeJob {
    pub unit: Seq<char>,
    pub version: Seq<char>,
    pub url: Seq<char>,
    pub sha256: Seq<char>,
    pub rollback: Option<RollbackSpecModel>,
    pub cache_dir: Seq<char>,
    pub socket_dir: Seq<char>,
}

/// Where an upgrade stands, in full: the phase, the artifact on its way, the row
/// as it will be stored, why the unit goes back, and how it ended.
#[verifier::ext_equal]
pub struct UpgradeState {
    pub phase: UpgradePhase,
    pub bytes: Seq<u8>,
    pub row: Option<UnitRowModel>,
    pub failure: Option<ErrorModel>,
    pub outcome: Option<Result<(), ErrorModel>>,
}

/// The end of an upgrade.
pub open spec fn upgraded(s: UpgradeState, outcome: Result<(), ErrorModel>) -> (
    UpgradeState,
    UnitActionModel,
) {
    (
        UpgradeState { phase: UpgradePhase::Over, outcome: Some(outcome), ..s },
        UnitActionModel::Finish,
    )
}

/// Puts a version's archive in its place.
pub open spec fn unpack_version(job: UpgradeJob, version: Seq<char>, bytes: Seq<u8>) -> UnitActionModel {
    UnitActionModel::Unpack {
        plan: artifact::unpack_as(
            Some(ArchiveFormat::TarGz),
            install::install_dir(job.cache_dir, job.unit),
            job.unit,
            version,
        ),
        bytes,
    }
}

/// Starts what has been put in place.
pub open spec fn start_unit(job: UpgradeJob) -> UnitActionModel {
    UnitActionModel::Start {
        binary: text::joined_path(install::install_dir(job.cache_dir, job.unit), job.unit),
        socket: sidecar::socket_of(job.socket_dir, job.unit),
    }
}

/// Goes back to the earlier version where the task names one, and is over with
/// the failure where it does not.
pub open spec fn go_back(job: UpgradeJob, s: UpgradeState, failure: ErrorModel) -> (
    UpgradeState,
    UnitActionModel,
) {
    match job.rollback {
        Some(rb) => (
            UpgradeState {
                phase: UpgradePhase::BackFetching,
                failure: Some(failure),
                ..s
            },
            UnitActionModel::Download { url: rb.artifact.url },
        ),
        None => upgraded(UpgradeState { failure: Some(failure), ..s }, Err(failure)),
    }
}

/// A row with another version, stored at the given time.
pub open spec fn at_version(row: UnitRowModel, version: Seq<char>, now_ms: i64) -> UnitRowModel {
    UnitRowModel { version, updated_at: now_ms, ..row }
}

/// A row whose process was started, where one was.
pub open spec fn with_process(row: UnitRowModel, started: Option<u32>) -> UnitRowModel {
    match started {
        Some(pid) => UnitRowModel { pid: Some(pid), state: "running"@, ..row },
        None => row,
    }
}

/// Why a unit goes back whose archive cannot be unpacked.
pub open spec fn extract_failure(unit: Seq<char>) -> ErrorModel {
    ErrorModel::Unit("failed to extract artifact for "@ + unit)
}

/// Why a unit goes back whose new version is not well.
pub open spec fn health_failure(unit: Seq<char>) -> ErrorModel {
    ErrorModel::Unit("health check failed after upgrade: "@ + unit)
}

/// The failure that an upgrade ends with once the unit has gone back.
pub open spec fn failed_with(s: UpgradeState) -> Result<(), ErrorModel> {
    match s.failure {
        Some(e) => Err(e),
        None => Ok(()),
    }
}

/// The version that a unit goes back to.
pub open spec fn back_version(job: UpgradeJob) -> Seq<char> {
    match job.rollback {
        Some(rb) => rb.version,
        None => Seq::empty(),
    }
}

/// The digest that the earlier version's artifact has to have.
pub open spec fn back_digest(job: UpgradeJob) -> Seq<char> {
    match job.rollback {
        Some(rb) => rb.artifact.sha256,
        None => Seq::empty(),
    }
}

/// The process number of a row, zero where it has none.
pub open spec fn pid_or_zero(row: Option<UnitRowModel>) -> u32 {
    match row {
        Some(r) => match r.pid {
            Some(p) => p,
            None => 0,
        },
        None => 0,
    }
}

/// Where an event takes an upgrade, and what is to be done next. An event that
/// is not waited for changes nothing and asks for nothing.
pub open spec fn upgrade_next(job: UpgradeJob, s: UpgradeState, event: UnitEvent, now_ms: i64) -> (
    UpgradeState,
    UnitActionModel,
) {
    match (s.phase, event) {
        (UpgradePhase::Over, _) => (s, UnitActionModel::Finish),
        (_, UnitEvent::Failed(e)) => upgraded(s, Err(e@)),
        (UpgradePhase::Fetching, UnitEvent::Downloaded { code, status, bytes }) => {
            match install::download_fault(
                "artifact"@,
                job.unit,
                code,
                status@,
                bytes@,
                job.sha256,
            ) {
                Some(e) => upgraded(s, Err(e)),
                None => (
                    UpgradeState { phase: UpgradePhase::Loading, bytes: bytes@, ..s },
                    UnitActionModel::Load { name: job.unit },
                ),
            }
        },
        (UpgradePhase::Loading, UnitEvent::Loaded(found)) => match found {
            None => upgraded(s, Err(ErrorModel::Unit("unit not found: "@ + job.unit))),
            Some(row) => {
                let n = UpgradeState { row: Some(row@), ..s };
                match row.pid {
                    Some(pid) => (
                        UpgradeState { phase: UpgradePhase::Stopping, ..n },
                        UnitActionModel::Stop { pid, pause_sec: STOP_PAUSE_SEC },
                    ),
                    None => (
                        UpgradeState { phase: UpgradePhase::Unpacking, bytes: Seq::empty(), ..n },
                        unpack_version(job, job.version, s.bytes),
                    ),
                }
            },
        },
        (UpgradePhase::Stopping, UnitEvent::Stopped) => (
            UpgradeState { phase: UpgradePhase::Unpacking, bytes: Seq::empty(), ..s },
            unpack_version(job, job.version, s.bytes),
        ),
        (UpgradePhase::Unpacking, UnitEvent::Unpacked { code }) => {
            if code != Some(0i32) {
                go_back(job, s, extract_failure(job.unit))
            } else {
                match s.row {
                    Some(old_row) => {
                        let row = at_version(old_row, job.version, now_ms);
                        let n = UpgradeState { row: Some(row), ..s };
                        if row.kind == "sidecar"@ {
                            (UpgradeState { phase: UpgradePhase::Starting, ..n }, start_unit(job))
                        } else {
                            (
                                UpgradeState { phase: UpgradePhase::Saving, ..n },
                                UnitActionModel::Save(row),
                            )
                        }
                    },
                    None => (s, UnitActionModel::Finish),
                }
            }
        },
        (UpgradePhase::Starting, UnitEvent::Started(started)) => match s.row {
            Some(old_row) => {
                let row = with_process(old_row, started);
                let n = UpgradeState { row: Some(row), ..s };
                match started {
                    Some(_) => (
                        UpgradeState { phase: UpgradePhase::Probing, ..n },
                        UnitActionModel::Probe { name: job.unit, timeout_sec: PROBE_TIMEOUT_SEC },
                    ),
                    None => (
                        UpgradeState { phase: UpgradePhase::Saving, ..n },
                        UnitActionModel::Save(row),
                    ),
                }
            },
            None => (s, UnitActionModel::Finish),
        },
        (UpgradePhase::Probing, UnitEvent::Probed(well)) => match s.row {
            Some(row) => if well {
                (UpgradeState { phase: UpgradePhase::Saving, ..s }, UnitActionModel::Save(row))
            } else {
                (
                    UpgradeState { phase: UpgradePhase::StoppingNew, ..s },
                    UnitActionModel::Stop {
                        pid: pid_or_zero(s.row),
                        pause_sec: STOP_BAD_PAUSE_SEC,
                    },
                )
            },
            None => (s, UnitActionModel::Finish),
        },
        (UpgradePhase::StoppingNew, UnitEvent::Stopped) => go_back(
            job,
            s,
            health_failure(job.unit),
        ),
        (UpgradePhase::BackFetching, UnitEvent::Downloaded { code, status, bytes }) => {
            match install::download_fault(
                "rollback artifact"@,
                job.unit,
                code,
                status@,
                bytes@,
                back_digest(job),
            ) {
                Some(e) => upgraded(s, Err(e)),
                None => (
                    UpgradeState { phase: UpgradePhase::BackUnpacking, ..s },
                    unpack_version(job, back_version(job), bytes@),
                ),
            }
        },
        (UpgradePhase::BackUnpacking, UnitEvent::Unpacked { code }) => {
            if code != Some(0i32) {
                upgraded(
                    s,
                    Err(
                        ErrorModel::Unit("failed to extract rollback artifact for "@ + job.unit),
                    ),
                )
            } else {
                (
                    UpgradeState { phase: UpgradePhase::BackLoading, ..s },
                    UnitActionModel::Load { name: job.unit },
                )
            }
        },
        (UpgradePhase::BackLoading, UnitEvent::Loaded(found)) => match found {
            None => upgraded(s, failed_with(s)),
            Some(old_row) => {
                let row = at_version(old_row@, back_version(job), now_ms);
                let n = UpgradeState { row: Some(row), ..s };
                if row.kind == "sidecar"@ {
                    (UpgradeState { phase: UpgradePhase::BackStarting, ..n }, start_unit(job))
                } else {
                    (
                        UpgradeState { phase: UpgradePhase::BackSaving, ..n },
                        UnitActionModel::Save(row),
                    )
                }
            },
        },
        (UpgradePhase::BackStarting, UnitEvent::Started(started)) => match s.row {
            Some(old_row) => {
                let row = with_process(old_row, started);
                (
                    UpgradeState { phase: UpgradePhase::BackSaving, row: Some(row), ..s },
                    UnitActionModel::Save(row),
                )
            },
            None => (s, UnitActionModel::Finish),
        },
        (UpgradePhase::BackSaving, UnitEvent::Stored) => upgraded(s, failed_with(s)),
        (UpgradePhase::Saving, UnitEvent::Stored) => upgraded(s, Ok(())),
        _ => (s, UnitActionModel::Finish),
    }
}

/// Whether the unit is on its way back to the earlier version.
pub open spec fn going_back(phase: UpgradePhase) -> bool {
    ||| phase == UpgradePhase::BackFetching
    ||| phase == UpgradePhase::BackUnpacking
    ||| phase == UpgradePhase::BackLoading
    ||| phase == UpgradePhase::BackStarting
    ||| phase == UpgradePhase::BackSaving
}

/// Whether a row says that the unit is at a version.
pub open spec fn row_at(row: Option<UnitRowModel>, version: Seq<char>) -> bool {
    row is Some && row->0.version == version
}

/// What holds of an upgrade at every moment: it goes back only for a reason, and
/// only where the task names a version to go back to; what is fetched and not
/// yet unpacked has the digest that the task names; the row that will be stored
/// says which version is in place.
pub open spec fn upgrade_inv(job: UpgradeJob, s: UpgradeState) -> bool {
    &&& going_back(s.phase) ==> s.failure is Some && job.rollback is Some
    &&& (!going_back(s.phase) && s.phase != UpgradePhase::Over) ==> s.failure is None
    &&& s.phase == UpgradePhase::Over <==> s.outcome is Some
    &&& s.outcome == Some(Ok::<(), ErrorModel>(())) ==> s.failure is None && row_at(
        s.row,
        job.version,
    )
    &&& match s.phase {
        UpgradePhase::Loading => job.sha256 == artifact::hex_text(artifact::sha256(s.bytes)),
        UpgradePhase::Stopping => s.row is Some && job.sha256 == artifact::hex_text(
            artifact::sha256(s.bytes),
        ),
        UpgradePhase::Unpacking => s.row is Some,
        UpgradePhase::Starting => row_at(s.row, job.version),
        UpgradePhase::Probing => row_at(s.row, job.version),
        UpgradePhase::StoppingNew => row_at(s.row, job.version),
        UpgradePhase::Saving => row_at(s.row, job.version),
        UpgradePhase::BackStarting => row_at(s.row, back_version(job)),
        UpgradePhase::BackSaving => row_at(s.row, back_version(job)),
        _ => true,
    }
}

/// An upgrade that has not begun.
pub open spec fn upgrade_start() -> UpgradeState {
    UpgradeState {
        phase: UpgradePhase::Fetching,
        bytes: Seq::empty(),
        row: None,
        failure: None,
        outcome: None,
    }
}

/// An upgrade under way.
#[derive(Debug)]
pub struct UpgradeRun {
    unit: String,
    version: String,
    url: String,
    sha256: String,
    rollback: Option<RollbackSpec>,
    cache_dir: String,
    socket_dir: String,
    phase: UpgradePhase,
    bytes: Vec<u8>,
    row: Option<UnitRow>,
    failure: Option<Error>,
    outcome: Option<Result<(), Error>>,
}

impl UpgradeRun {
    /// What it is about.
    pub closed spec fn job(&self) -> UpgradeJob {
        UpgradeJob {
            unit: self.unit@,
            version: self.version@,
            url: self.url@,
            sha256: self.sha256@,
            rollback: wire::optional_model(self.rollback),
            cache_dir: self.cache_dir@,
            socket_dir: self.socket_dir@,
        }
    }

    /// Where it stands.
    pub closed spec fn state(&self) -> UpgradeState {
        UpgradeState {
            phase: self.phase,
            bytes: self.bytes@,
            row: match self.row {
                Some(r) => Some(r@),
                None => None,
            },
            failure: match self.failure {
                Some(e) => Some(e@),
                None => None,
            },
            outcome: install::ended(self.outcome),
        }
    }

    /// Its invariant.
    pub open spec fn wf(&self) -> bool {
        upgrade_inv(self.job(), self.state())
    }

    /// An upgrade that is to begin with a download.
    pub fn new(
        unit: &str,
        version: &str,
        url: &str,
        sha256: &str,
        rollback: Option<RollbackSpec>,
        cache_dir: &str,
        socket_dir: &str,
    ) -> (r: (UpgradeRun, UnitAction))
        ensures
            r.0.job() == (UpgradeJob {
                unit: unit@,
                version: version@,
                url: url@,
                sha256: sha256@,
                rollback: wire::optional_model(rollback),
                cache_dir: cache_dir@,
                socket_dir: socket_dir@,
            }),
            r.0.state() == upgrade_start(),
            r.0.wf(),
            r.1@ == (UnitActionModel::Download { url: url@ }),
    {
        let run = UpgradeRun {
            unit: unit.to_owned(),
            version: version.to_owned(),
            url: url.to_owned(),
            sha256: sha256.to_owned(),
            rollback,
            cache_dir: cache_dir.to_owned(),
            socket_dir: socket_dir.to_owned(),
            phase: UpgradePhase::Fetching,
            bytes: Vec::new(),
            row: None,
            failure: None,
            outcome: None,
        };
        (run, UnitAction::Download { url: url.to_owned() })
    }

    /// How it ended.
    pub fn into_outcome(self) -> (r: Option<Result<(), Error>>)
        ensures
            install::ended(r) == self.state().outcome,
    {
        self.outcome
    }

    /// Ends it.
    fn end(&mut self, outcome: Result<(), Error>) -> (r: UnitAction)
        ensures
            final(self).job() == old(self).job(),
            (final(self).state(), r@) == upgraded(
                old(self).state(),
                router::outcome_model(outcome),
            ),
    {
        self.phase = UpgradePhase::Over;
        self.outcome = Some(outcome);
        UnitAction::Finish
    }

    /// Ends it with the failure for which the unit went back.
    fn end_failed(&mut self) -> (r: UnitAction)
        requires
            old(self).state().failure is Some,
        ensures
            final(self).job() == old(self).job(),
            final(self).state().phase == UpgradePhase::Over,
            (final(self).state(), r@) == upgraded(
                old(self).state(),
                failed_with(old(self).state()),
            ),
    {
        let copy = match &self.failure {
            Some(e) => e.duplicate(),
            None => Error::Unit(String::new()),
        };
        self.end(Err(copy))
    }

    /// The archive of a version, to be put in its place.
    fn unpack(&self, version: &str, bytes: Vec<u8>) -> (r: UnitAction)
        ensures
            r@ == unpack_version(self.job(), version@, bytes@),
    {
        let dir = text::join_path(self.cache_dir.as_str(), self.unit.as_str());
        UnitAction::Unpack {
            plan: plan_unpack_as(
                Some(ArchiveFormat::TarGz),
                dir.as_str(),
                self.unit.as_str(),
                version,
            ),
            bytes,
        }
    }

    /// The archive that was fetched, to be put in its place.
    fn unpack_fetched(&mut self) -> (r: UnitAction)
        ensures
            final(self).job() == old(self).job(),
            final(self).state() == (UpgradeState {
                phase: UpgradePhase::Unpacking,
                bytes: Seq::empty(),
                ..old(self).state()
            }),
            r@ == unpack_version(
                old(self).job(),
                old(self).job().version,
                old(self).state().bytes,
            ),
    {
        let mut bytes: Vec<u8> = Vec::new();
        core::mem::swap(&mut bytes, &mut self.bytes);
        self.phase = UpgradePhase::Unpacking;
        self.unpack(self.version.as_str(), bytes)
    }

    /// What has been put in place, to be started.
    fn start(&self) -> (r: UnitAction)
        ensures
            r@ == start_unit(self.job()),
    {
        let dir = text::join_path(self.cache_dir.as_str(), self.unit.as_str());
        UnitAction::Start {
            binary: text::join_path(dir.as_str(), self.unit.as_str()),
            socket: socket_path_for(self.socket_dir.as_str(), self.unit.as_str()),
        }
    }

    /// Goes back where there is something to go back to.
    fn go_back(&mut self, failure: Error) -> (r: UnitAction)
        ensures
            final(self).job() == old(self).job(),
            (final(self).state(), r@) == go_back(old(self).job(), old(self).state(), failure@),
    {
        let url = match &self.rollback {
            Some(rb) => Some(rb.artifact.url.clone()),
            None => None,
        };
        match url {
            Some(url) => {
                self.failure = Some(failure);
                self.phase = UpgradePhase::BackFetching;
                UnitAction::Download { url }
            },
            None => {
                self.failure = Some(failure.duplicate());
                self.end(Err(failure))
            },
        }
    }

    /// Takes note of what came of the latest action, and says what is next.
    pub fn on_event(&mut self, event: UnitEvent, now_ms: i64) -> (r: UnitAction)
        requires
            old(self).wf(),
        ensures
            final(self).wf(),
            final(self).job() == old(self).job(),
            (final(self).state(), r@) == upgrade_next(
                old(self).job(),
                old(self).state(),
                event,
                now_ms,
            ),
    {
        match (self.phase, event) {
            (UpgradePhase::Over, _) => UnitAction::Finish,
            (_, UnitEvent::Failed(e)) => self.end(Err(e)),
            (UpgradePhase::Fetching, UnitEvent::Downloaded { code, status, bytes }) => {
                let verdict = judge_download(
                    "artifact",
                    self.unit.as_str(),
                    code,
                    status.as_str(),
                    &bytes,
                    self.sha256.as_str(),
                );
                if verdict.is_err() {
                    return self.end(verdict);
                }
                self.bytes = bytes;
                self.phase = UpgradePhase::Loading;
                UnitAction::Load { name: self.unit.clone() }
            },
            (UpgradePhase::Loading, UnitEvent::Loaded(found)) => {
                let row = match found {
                    Some(row) => row,
                    None => {
                        let e = Error::Unit(joined("unit not found: ", self.unit.as_str()));
                        return self.end(Err(e));
                    },
                };
                let pid = row.pid;
                self.row = Some(row);
                match pid {
                    Some(pid) => {
                        self.phase = UpgradePhase::Stopping;
                        UnitAction::Stop { pid, pause_sec: STOP_PAUSE_SEC }
                    },
                    None => self.unpack_fetched(),
                }
            },
            (UpgradePhase::Stopping, UnitEvent::Stopped) => self.unpack_fetched(),
            (UpgradePhase::Unpacking, UnitEvent::Unpacked { code }) => {
                let unpacked = match code {
                    Some(c) => c == 0,
                    None => false,
                };
                if !unpacked {
                    let e = Error::Unit(
                        joined("failed to extract artifact for ", self.unit.as_str()),
                    );
                    return self.go_back(e);
                }
                let mut row = match &self.row {
                    Some(row) => row.duplicate(),
                    None => return UnitAction::Finish,
                };
                row.version = self.version.clone();
                row.updated_at = now_ms;
                if text::same(row.kind.as_str(), "sidecar") {
                    self.row = Some(row);
                    self.phase = UpgradePhase::Starting;
                    self.start()
                } else {
                    self.row = Some(row.duplicate());
                    self.phase = UpgradePhase::Saving;
                    UnitAction::Save(row)
                }
            },
            (UpgradePhase::Starting, UnitEvent::Started(started)) => {
                let mut row = match &self.row {
                    Some(row) => row.duplicate(),
                    None => return UnitAction::Finish,
                };
                match started {
                    Some(pid) => {
                        row.pid = Some(pid);
                        row.state = "running".to_owned();
                        self.row = Some(row);
                        self.phase = UpgradePhase::Probing;
                        UnitAction::Probe {
                            name: self.unit.clone(),
                            timeout_sec: PROBE_TIMEOUT_SEC,
                        }
                    },
                    None => {
                        self.phase = UpgradePhase::Saving;
                        UnitAction::Save(row)
                    },
                }
            },
            (UpgradePhase::Probing, UnitEvent::Probed(well)) => {
                let row = match &self.row {
                    Some(row) => row.duplicate(),
                    None => return UnitAction::Finish,
                };
                if well {
                    self.phase = UpgradePhase::Saving;
                    UnitAction::Save(row)
                } else {
                    let pid: u32 = match row.pid {
                        Some(p) => p,
                        None => 0,
                    };
                    self.phase = UpgradePhase::StoppingNew;
                    UnitAction::Stop { pid, pause_sec: STOP_BAD_PAUSE_SEC }
                }
            },
            (UpgradePhase::StoppingNew, UnitEvent::Stopped) => {
                let e = Error::Unit(
                    joined("health check failed after upgrade: ", self.unit.as_str()),
                );
                self.go_back(e)
            },
            (UpgradePhase::BackFetching, UnitEvent::Downloaded { code, status, bytes }) => {
                let (version, expected) = self.back();
                let verdict = judge_download(
                    "rollback artifact",
                    self.unit.as_str(),
                    code,
                    status.as_str(),
                    &bytes,
                    expected.as_str(),
                );
                if verdict.is_err() {
                    return self.end(verdict);
                }
                self.phase = UpgradePhase::BackUnpacking;
                self.unpack(version.as_str(), bytes)
            },
            (UpgradePhase::BackUnpacking, UnitEvent::Unpacked { code }) => {
                let unpacked = match code {
                    Some(c) => c == 0,
                    None => false,
                };
                if !unpacked {
                    let e = Error::Unit(
                        joined("failed to extract rollback artifact for ", self.unit.as_str()),
                    );
                    return self.end(Err(e));
                }
                self.phase = UpgradePhase::BackLoading;
                UnitAction::Load { name: self.unit.clone() }
            },
            (UpgradePhase::BackLoading, UnitEvent::Loaded(found)) => {
                let mut row = match found {
                    Some(row) => row,
                    None => return self.end_failed(),
                };
                let (version, _) = self.back();
                row.version = version;
                row.updated_at = now_ms;
                if text::same(row.kind.as_str(), "sidecar") {
                    self.row = Some(row);
                    self.phase = UpgradePhase::BackStarting;
                    self.start()
                } else {
                    self.row = Some(row.duplicate());
                    self.phase = UpgradePhase::BackSaving;
                    UnitAction::Save(row)
                }
            },
            (UpgradePhase::BackStarting, UnitEvent::Started(started)) => {
                let mut row = match &self.row {
                    Some(row) => row.duplicate(),
                    None => return UnitAction::Finish,
                };
                if let Some(pid) = started {
                    row.pid = Some(pid);
                    row.state = "running".to_owned();
                }
                self.row = Some(row.duplicate());
                self.phase = UpgradePhase::BackSaving;
                UnitAction::Save(row)
            },
            (UpgradePhase::BackSaving, UnitEvent::Stored) => self.end_failed(),
            (UpgradePhase::Saving, UnitEvent::Stored) => self.end(Ok(())),
            _ => UnitAction::Finish,
        }
    }

    /// The version to go back to and the digest of its artifact.
    fn back(&self) -> (r: (String, String))
        ensures
            r.0@ == back_version(self.job()),
            r.1@ == back_digest(self.job()),
    {
        match &self.rollback {
            Some(rb) => (rb.version.clone(), rb.artifact.sha256.clone()),
            None => (String::new(), String::new()),
        }
    }
}

/// Where a sequence of events, each with the time it came at, takes an upgrade.
pub open spec fn upgrade_after(job: UpgradeJob, events: Seq<(UnitEvent, i64)>) -> UpgradeState
    decreases events.len(),
{
    if events.len() == 0 {
        upgrade_start()
    } else {
        upgrade_next(
            job,
            upgrade_after(job, events.drop_last()),
            events.last().0,
            events.last().1,
        ).0
    }
}

/// Whatever happens, in whatever order, the invariant is kept.
pub proof fn law_upgrade_goes_back_only_for_a_reason(
    job: UpgradeJob,
    events: Seq<(UnitEvent, i64)>,
)
    ensures
        upgrade_inv(job, upgrade_after(job, events)),
    decreases events.len(),
{
    if events.len() > 0 {
        law_upgrade_goes_back_only_for_a_reason(job, events.drop_last());
    }
}

/// An upgrade that ends in success leaves the unit's row at the new version, and
/// never was on its way back.
pub proof fn law_success_is_the_new_version(job: UpgradeJob, events: Seq<(UnitEvent, i64)>)
    ensures
        upgrade_after(job, events).outcome == Some(Ok::<(), ErrorModel>(())) ==> row_at(
            upgrade_after(job, events).row,
            job.version,
        ) && upgrade_after(job, events).failure is None,
{
    law_upgrade_goes_back_only_for_a_reason(job, events);
}

/// The new version is stored only once it is in place and, where its process was
/// started, has come to be well; an upgrade that failed never ends in success.
pub proof fn law_new_version_is_stored_only_when_well(
    job: UpgradeJob,
    s: UpgradeState,
    event: UnitEvent,
    now_ms: i64,
)
    requires
        upgrade_inv(job, s),
        s.phase != UpgradePhase::Over,
    ensures
        ({
            let (n, action) = upgrade_next(job, s, event, now_ms);
            &&& n.phase == UpgradePhase::Saving && s.phase != UpgradePhase::Saving ==> {
                ||| s.phase == UpgradePhase::Unpacking && event == (UnitEvent::Unpacked {
                    code: Some(0),
                })
                ||| s.phase == UpgradePhase::Starting && event == UnitEvent::Started(None)
                ||| s.phase == UpgradePhase::Probing && event == UnitEvent::Probed(true)
            }
            &&& n.outcome == Some(Ok::<(), ErrorModel>(())) ==> s.phase == UpgradePhase::Saving
                && event is Stored
        }),
{
}

/// What is stored says which version is in place: the earlier one on the way
/// back, the new one otherwise.
pub proof fn law_stored_row_names_the_version_in_place(
    job: UpgradeJob,
    s: UpgradeState,
    event: UnitEvent,
    now_ms: i64,
)
    requires
        upgrade_inv(job, s),
    ensures
        upgrade_next(job, s, event, now_ms).1 matches UnitActionModel::Save(row) ==> row.version
            == if going_back(s.phase) {
            back_version(job)
        } else {
            job.version
        },
{
}

/// A version that does not come to be well is stopped and, where the task names
/// one, the earlier version is fetched; the upgrade then ends in failure, however
/// the way back goes.
pub proof fn law_unwell_version_is_taken_back(
    job: UpgradeJob,
    s: UpgradeState,
    event: UnitEvent,
    now_ms: i64,
)
    requires
        upgrade_inv(job, s),
    ensures
        ({
            let (n, action) = upgrade_next(job, s, event, now_ms);
            &&& (s.phase == UpgradePhase::Probing && event == UnitEvent::Probed(false)) ==> n.phase
                == UpgradePhase::StoppingNew && action is Stop
            &&& (s.phase == UpgradePhase::StoppingNew && event is Stopped && job.rollback is Some)
                ==> action == (UnitActionModel::Download { url: job.rollback->0.artifact.url })
            &&& (s.failure is Some && n.outcome is Some && s.outcome is None) ==> n.outcome->0 is Err
        }),
{
}

/// Neither version is put in place unless its download has the digest that the
/// task names for it.
pub proof fn law_only_checked_downloads_are_unpacked(
    job: UpgradeJob,
    s: UpgradeState,
    event: UnitEvent,
    now_ms: i64,
)
    requires
        upgrade_inv(job, s),
    ensures
        upgrade_next(job, s, event, now_ms).1 matches UnitActionModel::Unpack { plan, bytes }
            ==> if going_back(s.phase) {
            back_digest(job) == artifact::hex_text(artifact::sha256(bytes))
        } else {
            job.sha256 == artifact::hex_text(artifact::sha256(bytes))
        },
{
}

/// Where the task names an earlier version, every failure after the running one
/// was stopped is answered with the download of that version, and the upgrade is
/// not over with it: an archive that is not unpacked with exit code zero, by a
/// signal as by any other code, and a version that did not come to be well. The
/// reason is kept for the end. Without an earlier version the upgrade is over
/// with that reason.
pub proof fn law_failure_after_the_stop_goes_back(
    job: UpgradeJob,
    s: UpgradeState,
    event: UnitEvent,
    now_ms: i64,
)
    requires
        upgrade_inv(job, s),
        match (s.phase, event) {
            (UpgradePhase::Unpacking, UnitEvent::Unpacked { code }) => code != Some(0i32),
            (UpgradePhase::StoppingNew, UnitEvent::Stopped) => true,
            _ => false,
        },
    ensures
        ({
            let (n, action) = upgrade_next(job, s, event, now_ms);
            let why = ErrorModel::Unit(
                (if s.phase == UpgradePhase::Unpacking {
                    "failed to extract artifact for "@
                } else {
                    "health check failed after upgrade: "@
                }) + job.unit,
            );
            match job.rollback {
                Some(rb) => {
                    &&& action == (UnitActionModel::Download { url: rb.artifact.url })
                    &&& n.outcome is None
                    &&& n.failure == Some(why)
                    &&& n.phase == UpgradePhase::BackFetching
                },
                None => {
                    &&& action == UnitActionModel::Finish
                    &&& n.outcome == Some(Err::<(), ErrorModel>(why))
                },
            }
        }),
{
}

/// Whether an event says that an action could not be carried out at all.
pub open spec fn is_breakdown(event: UnitEvent) -> bool {
    event is Failed
}

/// The actions that an upgrade asks for, in order, from its first download on.
pub open spec fn upgrade_actions(job: UpgradeJob, events: Seq<(UnitEvent, i64)>) -> Seq<
    UnitActionModel,
>
    decreases events.len(),
{
    if events.len() == 0 {
        seq![UnitActionModel::Download { url: job.url }]
    } else {
        upgrade_actions(job, events.drop_last()).push(
            upgrade_next(
                job,
                upgrade_after(job, events.drop_last()),
                events.last().0,
                events.last().1,
            ).1,
        )
    }
}

/// Whether an action of this kind has been asked for.
pub open spec fn has_unpacked(actions: Seq<UnitActionModel>) -> bool {
    exists|i: int| 0 <= i < actions.len() && (#[trigger] actions[i]) is Unpack
}

/// Whether an earlier version has been asked for: a download after an unpacking.
pub open spec fn has_gone_back(actions: Seq<UnitActionModel>, url: Seq<char>) -> bool {
    exists|i: int, j: int|
        0 <= i < j < actions.len() && (#[trigger] actions[i]) is Unpack && (
        #[trigger] actions[j]) == (UnitActionModel::Download { url })
}

proof fn lemma_way_back(job: UpgradeJob, events: Seq<(UnitEvent, i64)>)
    requires
        forall|i: int| 0 <= i < events.len() ==> !is_breakdown((#[trigger] events[i]).0),
        job.rollback is Some,
    ensures
        ({
            let s = upgrade_after(job, events);
            let actions = upgrade_actions(job, events);
            let url = job.rollback->0.artifact.url;
            &&& upgrade_inv(job, s)
            &&& match s.phase {
                UpgradePhase::Fetching | UpgradePhase::Loading | UpgradePhase::Stopping =>
                    !has_unpacked(actions),
                UpgradePhase::Unpacking
                | UpgradePhase::Starting
                | UpgradePhase::Probing
                | UpgradePhase::StoppingNew
                | UpgradePhase::Saving => has_unpacked(actions),
                UpgradePhase::BackFetching
                | UpgradePhase::BackUnpacking
                | UpgradePhase::BackLoading
                | UpgradePhase::BackStarting
                | UpgradePhase::BackSaving => has_gone_back(actions, url),
                UpgradePhase::Over => has_unpacked(actions) && s.outcome->0 is Err
                    ==> has_gone_back(actions, url),
            }
        }),
    decreases events.len(),
{
    law_upgrade_goes_back_only_for_a_reason(job, events);
    let actions = upgrade_actions(job, events);
    let url = job.rollback->0.artifact.url;
    if events.len() == 0 {
        assert(actions[0] is Download);
    } else {
        let earlier = events.drop_last();
        assert forall|i: int| 0 <= i < earlier.len() implies !is_breakdown(
            (#[trigger] earlier[i]).0,
        ) by {
            assert(earlier[i] == events[i]);
        }
        lemma_way_back(job, earlier);
        let before = upgrade_actions(job, earlier);
        let p = upgrade_after(job, earlier);
        let last = actions.len() - 1;
        assert(!is_breakdown(events[events.len() - 1].0));
        assert(forall|i: int| 0 <= i < before.len() ==> actions[i] == before[i]);
        if has_unpacked(before) {
            let i = choose|i: int| 0 <= i < before.len() && (#[trigger] before[i]) is Unpack;
            assert(actions[i] is Unpack);
            if actions[last] == (UnitActionModel::Download { url }) {
                assert(has_gone_back(actions, url));
            }
        } else if !(actions[last] is Unpack) {
            assert forall|i: int| 0 <= i < actions.len() implies !(
            (#[trigger] actions[i]) is Unpack) by {
                if i < last {
                    assert(before[i] == actions[i]);
                }
            }
        } else {
            assert(has_unpacked(actions));
        }
        if has_gone_back(before, url) {
            let (i, j) = choose|i: int, j: int|
                0 <= i < j < before.len() && (#[trigger] before[i]) is Unpack && (
                #[trigger] before[j]) == (UnitActionModel::Download { url });
            assert(actions[i] is Unpack);
            assert(actions[j] == (UnitActionModel::Download { url }));
        }
    }
}

/// Over whole runs: where the task names an earlier version and every action
/// could be carried out, an upgrade that got as far as unpacking and is over in
/// failure has asked for the earlier version in between.
pub proof fn law_failed_upgrade_has_gone_back(job: UpgradeJob, events: Seq<(UnitEvent, i64)>)
    requires
        forall|i: int| 0 <= i < events.len() ==> !is_breakdown((#[trigger] events[i]).0),
    ensures
        ({
            let actions = upgrade_actions(job, events);
            let outcome = upgrade_after(job, events).outcome;
            (job.rollback is Some && outcome is Some && outcome->0 is Err && has_unpacked(actions))
                ==> has_gone_back(
                actions,
                job.rollback->0.artifact.url,
            )
        }),
{
    if job.rollback is Some {
        lemma_way_back(job, events);
    }
}

/// How an upgrade ends: it succeeds exactly when the row at the new version was
/// stored; once the unit is back at the earlier version, stored or not known to
/// the store, it ends with the reason for going back; and what goes wrong before
/// the stop or on the way back ends it with an error of its own.
pub proof fn law_upgrade_outcomes(
    job: UpgradeJob,
    s: UpgradeState,
    event: UnitEvent,
    now_ms: i64,
)
    requires
        upgrade_inv(job, s),
        s.phase != UpgradePhase::Over,
    ensures
        ({
            let (n, action) = upgrade_next(job, s, event, now_ms);
            let unit = job.unit;
            &&& n.outcome is Some ==> action == UnitActionModel::Finish
            &&& n.outcome == Some(Ok::<(), ErrorModel>(())) <==> s.phase == UpgradePhase::Saving
                && event is Stored
            &&& event matches UnitEvent::Failed(e) ==> n.outcome == Some(
                Err::<(), ErrorModel>(e@),
            )
            &&& (s.phase == UpgradePhase::BackSaving && event is Stored) || (s.phase
                == UpgradePhase::BackLoading && event == UnitEvent::Loaded(None)) ==> n.outcome
                == Some(Err::<(), ErrorModel>(s.failure->0))
            &&& (s.phase == UpgradePhase::Loading && event == UnitEvent::Loaded(None))
                ==> n.outcome == Some(
                Err::<(), ErrorModel>(ErrorModel::Unit("unit not found: "@ + unit)),
            )
            &&& (s.phase == UpgradePhase::BackUnpacking && event is Unpacked && event->Unpacked_code
                != Some(0i32)) ==> n.outcome == Some(
                Err::<(), ErrorModel>(
                    ErrorModel::Unit("failed to extract rollback artifact for "@ + unit),
                ),
            )
            &&& (event is Downloaded && (s.phase == UpgradePhase::Fetching || s.phase
                == UpgradePhase::BackFetching)) ==> {
                let wanted = if s.phase == UpgradePhase::Fetching {
                    job.sha256
                } else {
                    job.rollback->0.artifact.sha256
                };
                let what = if s.phase == UpgradePhase::Fetching {
                    "artifact"@
                } else {
                    "rollback artifact"@
                };
                let got = artifact::hex_text(artifact::sha256(event->Downloaded_bytes@));
                let code = event->Downloaded_code;
                &&& n.outcome is None <==> 200 <= code < 300 && wanted == got
                &&& !(200 <= code < 300) ==> n.outcome == Some(
                    Err::<(), ErrorModel>(
                        ErrorModel::Unit(
                            what + " download for "@ + unit + " returned HTTP "@
                                + event->Downloaded_status@,
                        ),
                    ),
                )
                &&& 200 <= code < 300 && wanted != got ==> n.outcome == Some(
                    Err::<(), ErrorModel>(
                        ErrorModel::Sha256Mismatch { expected: wanted, actual: got },
                    ),
                )
            }
        }),
{
}

/// Whether two rows agree in all that an upgrade leaves alone.
pub open spec fn same_unit(a: UnitRowModel, b: UnitRowModel) -> bool {
    &&& a.name == b.name
    &&& a.kind == b.kind
    &&& a.health == b.health
    &&& a.health_error == b.health_error
    &&& a.socket_path == b.socket_path
    &&& a.config_json == b.config_json
}

/// What an upgrade makes of the unit's row: the row that was found, at the
/// version that was put in place and the time of that, with the process that was
/// started and as running where one was, and otherwise as it was.
pub proof fn law_upgrade_changes_the_row_no_further(
    job: UpgradeJob,
    s: UpgradeState,
    event: UnitEvent,
    now_ms: i64,
)
    requires
        upgrade_inv(job, s),
    ensures
        ({
            let (n, action) = upgrade_next(job, s, event, now_ms);
            &&& action matches UnitActionModel::Save(row) ==> n.row == Some(row)
            &&& (s.phase == UpgradePhase::Loading && event is Loaded && event->Loaded_0 is Some)
                ==> n.row == Some(event->Loaded_0->0@)
            &&& (s.phase == UpgradePhase::Unpacking && event == (UnitEvent::Unpacked {
                code: Some(0),
            })) ==> {
                &&& n.row is Some
                &&& same_unit(n.row->0, s.row->0)
                &&& n.row->0.version == job.version
                &&& n.row->0.updated_at == now_ms
                &&& n.row->0.pid == s.row->0.pid
                &&& n.row->0.state == s.row->0.state
            }
            &&& (s.phase == UpgradePhase::BackLoading && event is Loaded && event->Loaded_0
                is Some) ==> {
                let found = event->Loaded_0->0@;
                &&& n.row is Some
                &&& same_unit(n.row->0, found)
                &&& n.row->0.version == job.rollback->0.version
                &&& n.row->0.updated_at == now_ms
                &&& n.row->0.pid == found.pid
                &&& n.row->0.state == found.state
            }
            &&& ((s.phase == UpgradePhase::Starting || s.phase == UpgradePhase::BackStarting)
                && event is Started) ==> match event->Started_0 {
                Some(pid) => {
                    &&& n.row is Some
                    &&& same_unit(n.row->0, s.row->0)
                    &&& n.row->0.version == s.row->0.version
                    &&& n.row->0.updated_at == s.row->0.updated_at
                    &&& n.row->0.pid == Some(pid)
                    &&& n.row->0.state == "running"@
                },
                None => n.row == s.row,
            }
            &&& !(event is Loaded || event is Unpacked || event is Started) ==> n.row == s.row
        }),
{
}

/// What an upgrade asks for when things go well, step by step: the unit is looked
/// up; a running process is asked to end and given two seconds; the checked
/// download is unpacked by `tar` from a file named after the version in the
/// unit's own directory; a sidecar is started on its socket and has ten seconds
/// to come to be well; one that does not is asked to end and given one second;
/// anything else is stored at once. The way back takes the same steps with the
/// earlier version, without asking how it is.
pub proof fn law_upgrade_takes_its_steps(
    job: UpgradeJob,
    s: UpgradeState,
    event: UnitEvent,
    now_ms: i64,
)
    requires
        upgrade_inv(job, s),
    ensures
        ({
            let (n, action) = upgrade_next(job, s, event, now_ms);
            let dir = text::joined_path(job.cache_dir, job.unit);
            let start = UnitActionModel::Start {
                binary: text::joined_path(dir, job.unit),
                socket: text::joined_path(job.socket_dir, job.unit + ".sock"@),
            };
            let back = going_back(s.phase);
            let goes_on = n.outcome is None && s.outcome is None;
            &&& (s.phase == UpgradePhase::Fetching && event is Downloaded && goes_on) ==> action
                == (UnitActionModel::Load { name: job.unit })
            &&& (s.phase == UpgradePhase::BackUnpacking && event is Unpacked && goes_on) ==> action
                == (UnitActionModel::Load { name: job.unit })
            &&& (s.phase == UpgradePhase::Loading && event is Loaded && goes_on) ==> match n.row->0.pid {
                Some(pid) => action == (UnitActionModel::Stop { pid, pause_sec: 2 }),
                None => action is Unpack,
            }
            &&& (s.phase == UpgradePhase::Stopping && event is Stopped) ==> action is Unpack
            &&& (s.phase == UpgradePhase::BackFetching && event is Downloaded && goes_on)
                ==> action is Unpack
            &&& action matches UnitActionModel::Unpack { plan, bytes } ==> {
                let version = if back {
                    job.rollback->0.version
                } else {
                    job.version
                };
                let file = text::joined_path(dir, job.unit + "-"@ + version + ".tar.gz"@);
                plan matches artifact::UnpackModel::Archive { file: f, program, args } && f == file
                    && program == "tar"@ && args == seq!["xzf"@, file, "-C"@, dir] && bytes == (
                if back {
                    event->Downloaded_bytes@
                } else {
                    s.bytes
                })
            }
            &&& (((s.phase == UpgradePhase::Unpacking && event is Unpacked) || (s.phase
                == UpgradePhase::BackLoading && event is Loaded)) && goes_on && !going_back(
                n.phase,
            ) == !back) ==> action == (if n.row->0.kind == "sidecar"@ {
                start
            } else {
                UnitActionModel::Save(n.row->0)
            })
            &&& (s.phase == UpgradePhase::Starting && event is Started) ==> action == (
            if event->Started_0 is Some {
                UnitActionModel::Probe { name: job.unit, timeout_sec: 10 }
            } else {
                UnitActionModel::Save(n.row->0)
            })
            &&& (s.phase == UpgradePhase::BackStarting && event is Started) ==> action
                == UnitActionModel::Save(n.row->0)
            &&& (s.phase == UpgradePhase::Probing && event is Probed) ==> action == (
            if event->Probed_0 {
                UnitActionModel::Save(n.row->0)
            } else {
                UnitActionModel::Stop {
                    pid: match s.row->0.pid {
                        Some(pid) => pid,
                        None => 0,
                    },
                    pause_sec: 1,
                }
            })
            &&& action is Purge || action is Delete ==> false
        }),
{
    let dir = text::joined_path(job.cache_dir, job.unit);
    reveal_strlit(".");
    reveal_strlit("tar.gz");
    reveal_strlit(".tar.gz");
    assert forall|v: Seq<char>|
        #![trigger artifact::archive_file(dir, job.unit, v, ArchiveFormat::TarGz)]
        artifact::archive_file(dir, job.unit, v, ArchiveFormat::TarGz) == text::joined_path(
            dir,
            job.unit + "-"@ + v + ".tar.gz"@,
        ) by {
        assert(job.unit + "-"@ + v + "."@ + "tar.gz"@ =~= job.unit + "-"@ + v + ".tar.gz"@);
    }
}

/// What was downloaded is kept until it is unpacked.
pub proof fn law_download_is_kept_for_unpacking(
    job: UpgradeJob,
    s: UpgradeState,
    event: UnitEvent,
    now_ms: i64,
)
    ensures
        ({
            let (n, action) = upgrade_next(job, s, event, now_ms);
            &&& n.phase == UpgradePhase::Loading && s.phase == UpgradePhase::Fetching ==> (event
                matches UnitEvent::Downloaded { bytes, .. } && n.bytes == bytes@)
            &&& n.phase == UpgradePhase::Stopping ==> n.bytes == s.bytes
        }),
{
}

} // verus!
