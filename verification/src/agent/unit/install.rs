//! Installing a unit: download, check, unpack, start, store.

use crate::agent::error::{Error, ErrorModel};
use crate::agent::state::{UnitRow, UnitRowModel};
use crate::agent::task::{router, sidecar};
use crate::agent::unit::artifact::{self, check_download, check_unpacked, plan_unpack, verify_digest};
use crate::agent::unit::rows::{self, socket_path_for, unit_to_row};
use crate::agent::unit::steps::{UnitAction, UnitActionModel, UnitEvent};
use crate::protocol::unit::{ManagedUnit, ManagedUnitModel, UnitKind};
use crate::text;
use crate::wire::Wire;
use vstd::prelude::*;
use vstd::string::*;

verus! {

/// Where an installation stands.
#[derive(Debug, Clone, Copy, PartialEq, Eq, Structural)]
pub enum InstallPhase {
    Fetching,
    Unpacking,
    Starting,
    Saving,
    Over,
}

/// What an installation is about.
#[verifier::ext_equal]
pub struct InstallJob {
    pub unit: ManagedUnitModel,
    pub cache_dir: Seq<char>,
    pub socket_dir: Seq<char>,
}

/// Where an installation stands, in full: the phase, and how it ended.
#[verifier::ext_equal]
pub struct InstallState {
    pub phase: InstallPhase,
    pub outcome: Option<Result<(), ErrorModel>>,
}

/// The directory that a unit is installed in.
pub open spec fn install_dir(cache_dir: Seq<char>, unit: Seq<char>) -> Seq<char> {
    text::joined_path(cache_dir, unit)
}

/// What a download of the given kind for a unit comes to: nothing, or the error
/// that a bad status code or a wrong digest is.
pub open spec fn download_fault(
    what: Seq<char>,
    unit: Seq<char>,
    code: u16,
    status: Seq<char>,
    bytes: Seq<u8>,
    expected: Seq<char>,
) -> Option<ErrorModel> {
    if !(200 <= code < 300) {
        Some(
            ErrorModel::Unit(
                what + " download for "@ + unit + " returned HTTP "@ + status,
            ),
        )
    } else if expected != artifact::hex_text(artifact::sha256(bytes)) {
        Some(
            ErrorModel::Sha256Mismatch {
                expected,
                actual: artifact::hex_text(artifact::sha256(bytes)),
            },
        )
    } else {
        None
    }
}

/// Judges a download of the given kind for a unit.
pub fn judge_download(
    what: &str,
    unit: &str,
    code: u16,
    status: &str,
    bytes: &Vec<u8>,
    expected: &str,
) -> (r: Result<(), Error>)
    ensures
        match download_fault(what@, unit@, code, status@, bytes@, expected@) {
            Some(e) => r is Err && r->Err_0@ == e,
            None => r is Ok,
        },
{
    match check_download(what, unit, code, status) {
        Ok(_) => verify_digest(bytes.as_slice(), expected),
        Err(e) => Err(e),
    }
}

/// The end of an installation.
pub open spec fn installed(outcome: Result<(), ErrorModel>) -> (InstallState, UnitActionModel) {
    (
        InstallState { phase: InstallPhase::Over, outcome: Some(outcome) },
        UnitActionModel::Finish,
    )
}

/// The row that is stored for an installed unit: a sidecar that was started runs
/// on its socket, anything else is just installed.
pub open spec fn installed_row(job: InstallJob, started: Option<u32>, now_ms: i64) -> UnitRowModel {
    let row = rows::fresh_row(job.unit, now_ms);
    match started {
        Some(pid) => UnitRowModel {
            pid: Some(pid),
            socket_path: Some(
                sidecar::socket_of(job.socket_dir, job.unit.name),
            ),
            state: "running"@,
            ..row
        },
        None => UnitRowModel { state: "installed"@, ..row },
    }
}

/// Where an event takes an installation, and what is to be done next. An event
/// that is not waited for ends nothing and asks for nothing.
pub open spec fn install_next(job: InstallJob, s: InstallState, event: UnitEvent, now_ms: i64) -> (
    InstallState,
    UnitActionModel,
) {
    let dir = install_dir(job.cache_dir, job.unit.name);
    match (s.phase, event) {
        (InstallPhase::Over, _) => (s, UnitActionModel::Finish),
        (_, UnitEvent::Failed(e)) => installed(Err(e@)),
        (InstallPhase::Fetching, UnitEvent::Downloaded { code, status, bytes }) => {
            match download_fault(
                "artifact"@,
                job.unit.name,
                code,
                status@,
                bytes@,
                job.unit.artifact.sha256,
            ) {
                Some(e) => installed(Err(e)),
                None => (
                    InstallState { phase: InstallPhase::Unpacking, ..s },
                    UnitActionModel::Unpack {
                        plan: artifact::unpack_as(
                            artifact::format_of(artifact::lowercase(job.unit.artifact.url)),
                            dir,
                            job.unit.name,
                            job.unit.version,
                        ),
                        bytes: bytes@,
                    },
                ),
            }
        },
        (InstallPhase::Unpacking, UnitEvent::Unpacked { code }) => {
            if code != Some(0i32) {
                installed(
                    Err(
                        ErrorModel::Unit(
                            "failed to extract artifact for "@ + job.unit.name + ": "@
                                + unpacker_of(job) + " exited with "@ + artifact::code_text(code),
                        ),
                    ),
                )
            } else if job.unit.kind == UnitKind::Sidecar {
                (
                    InstallState { phase: InstallPhase::Starting, ..s },
                    UnitActionModel::Start {
                        binary: text::joined_path(dir, job.unit.name),
                        socket: sidecar::socket_of(
                            job.socket_dir,
                            job.unit.name,
                        ),
                    },
                )
            } else {
                (
                    InstallState { phase: InstallPhase::Saving, ..s },
                    UnitActionModel::Save(installed_row(job, None, now_ms)),
                )
            }
        },
        (InstallPhase::Starting, UnitEvent::Started(pid)) => (
            InstallState { phase: InstallPhase::Saving, ..s },
            UnitActionModel::Save(installed_row(job, pid, now_ms)),
        ),
        (InstallPhase::Saving, UnitEvent::Stored) => installed(Ok(())),
        _ => (s, UnitActionModel::Finish),
    }
}

/// The program that unpacks a unit's artifact.
pub open spec fn unpacker_of(job: InstallJob) -> Seq<char> {
    match artifact::format_of(artifact::lowercase(job.unit.artifact.url)) {
        Some(f) => artifact::unpacker(f),
        None => "install"@,
    }
}

/// An installation under way.
#[derive(Debug)]
pub struct InstallRun {
    unit: ManagedUnit,
    cache_dir: String,
    socket_dir: String,
    program: String,
    phase: InstallPhase,
    outcome: Option<Result<(), Error>>,
}

/// How a piece of work ended.
pub open spec fn ended(outcome: Option<Result<(), Error>>) -> Option<Result<(), ErrorModel>> {
    match outcome {
        None => None,
        Some(Ok(_)) => Some(Ok(())),
        Some(Err(e)) => Some(Err(e@)),
    }
}

impl InstallRun {
    /// What it is about.
    pub closed spec fn job(&self) -> InstallJob {
        InstallJob {
            unit: self.unit.model(),
            cache_dir: self.cache_dir@,
            socket_dir: self.socket_dir@,
        }
    }

    /// Where it stands.
    pub closed spec fn state(&self) -> InstallState {
        InstallState { phase: self.phase, outcome: ended(self.outcome) }
    }

    /// The program that was asked to unpack is the one for the artifact.
    pub closed spec fn wf(&self) -> bool {
        self.phase == InstallPhase::Unpacking ==> self.program@ == unpacker_of(self.job())
    }

    /// An installation that is to begin with a download.
    pub fn new(unit: ManagedUnit, cache_dir: &str, socket_dir: &str) -> (r: (
        InstallRun,
        UnitAction,
    ))
        ensures
            r.0.job() == (InstallJob {
                unit: unit.model(),
                cache_dir: cache_dir@,
                socket_dir: socket_dir@,
            }),
            r.0.state() == (InstallState { phase: InstallPhase::Fetching, outcome: None }),
            r.0.wf(),
            r.1@ == (UnitActionModel::Download { url: unit.artifact.url@ }),
    {
        let url = unit.artifact.url.clone();
        let run = InstallRun {
            unit,
            cache_dir: cache_dir.to_owned(),
            socket_dir: socket_dir.to_owned(),
            program: String::new(),
            phase: InstallPhase::Fetching,
            outcome: None,
        };
        (run, UnitAction::Download { url })
    }

    /// How it ended.
    pub fn into_outcome(self) -> (r: Option<Result<(), Error>>)
        ensures
            ended(r) == self.state().outcome,
    {
        self.outcome
    }

    /// Ends it.
    fn end(&mut self, outcome: Result<(), Error>) -> (r: UnitAction)
        ensures
            final(self).job() == old(self).job(),
            final(self).wf(),
            (final(self).state(), r@) == installed(
                router::outcome_model(outcome),
            ),
    {
        self.phase = InstallPhase::Over;
        self.outcome = Some(outcome);
        UnitAction::Finish
    }

    /// The row for the unit, started or not.
    fn row(&self, started: Option<u32>, now_ms: i64) -> (r: UnitRow)
        ensures
            r@ == installed_row(self.job(), started, now_ms),
    {
        let mut row = unit_to_row(&self.unit, now_ms);
        match started {
            Some(pid) => {
                row.pid = Some(pid);
                row.socket_path =
                Some(socket_path_for(self.socket_dir.as_str(), self.unit.name.as_str()));
                row.state = "running".to_owned();
            },
            None => {
                row.state = "installed".to_owned();
            },
        }
        row
    }

    /// Takes note of what came of the latest action, and says what is next.
    pub fn on_event(&mut self, event: UnitEvent, now_ms: i64) -> (r: UnitAction)
        requires
            old(self).wf(),
        ensures
            final(self).wf(),
            final(self).job() == old(self).job(),
            (final(self).state(), r@) == install_next(
                old(self).job(),
                old(self).state(),
                event,
                now_ms,
            ),
    {
        let dir = text::join_path(self.cache_dir.as_str(), self.unit.name.as_str());
        match (self.phase, event) {
            (InstallPhase::Over, _) => UnitAction::Finish,
            (_, UnitEvent::Failed(e)) => self.end(Err(e)),
            (InstallPhase::Fetching, UnitEvent::Downloaded { code, status, bytes }) => {
                let verdict = judge_download(
                    "artifact",
                    self.unit.name.as_str(),
                    code,
                    status.as_str(),
                    &bytes,
                    self.unit.artifact.sha256.as_str(),
                );
                if verdict.is_err() {
                    return self.end(verdict);
                }
                let plan = plan_unpack(
                    self.unit.artifact.url.as_str(),
                    dir.as_str(),
                    self.unit.name.as_str(),
                    self.unit.version.as_str(),
                );
                self.program =
                match &plan {
                    artifact::Unpack::Archive { program, .. } => program.clone(),
                    artifact::Unpack::Binary { .. } => "install".to_owned(),
                };
                self.phase = InstallPhase::Unpacking;
                UnitAction::Unpack { plan, bytes }
            },
            (InstallPhase::Unpacking, UnitEvent::Unpacked { code }) => {
                let verdict = check_unpacked(
                    self.unit.name.as_str(),
                    self.program.as_str(),
                    code,
                );
                if verdict.is_err() {
                    return self.end(verdict);
                }
                if self.unit.kind == UnitKind::Sidecar {
                    self.phase = InstallPhase::Starting;
                    UnitAction::Start {
                        binary: text::join_path(dir.as_str(), self.unit.name.as_str()),
                        socket: socket_path_for(
                            self.socket_dir.as_str(),
                            self.unit.name.as_str(),
                        ),
                    }
                } else {
                    let row = self.row(None, now_ms);
                    self.phase = InstallPhase::Saving;
                    UnitAction::Save(row)
                }
            },
            (InstallPhase::Starting, UnitEvent::Started(pid)) => {
                let row = self.row(pid, now_ms);
                self.phase = InstallPhase::Saving;
                UnitAction::Save(row)
            },
            (InstallPhase::Saving, UnitEvent::Stored) => self.end(Ok(())),
            _ => UnitAction::Finish,
        }
    }
}

/// Nothing of a download is put in place unless it was answered with success and
/// has the digest that the task names.
pub proof fn law_only_a_checked_download_is_unpacked(
    job: InstallJob,
    s: InstallState,
    event: UnitEvent,
    now_ms: i64,
)
    ensures
        install_next(job, s, event, now_ms).1 matches UnitActionModel::Unpack { plan, bytes }
            ==> job.unit.artifact.sha256 == artifact::hex_text(artifact::sha256(bytes)) && (
        event matches UnitEvent::Downloaded { code, .. } && 200 <= code < 300),
{
}

/// An installation succeeds only once the unit is stored, and what is stored is
/// never stored before the artifact is in place.
pub proof fn law_installed_means_stored(job: InstallJob, s: InstallState, event: UnitEvent, now_ms: i64)
    requires
        s.phase != InstallPhase::Over,
    ensures
        install_next(job, s, event, now_ms).0.outcome == Some(Ok::<(), ErrorModel>(())) && s.outcome
            is None ==> s.phase == InstallPhase::Saving && event is Stored,
        install_next(job, s, event, now_ms).1 is Save ==> s.phase == InstallPhase::Starting || (
        s.phase == InstallPhase::Unpacking && event == (UnitEvent::Unpacked { code: Some(0) })),
{
}

/// How an installation ends: with success exactly when the row was stored; with
/// the error of an action that could not be carried out; with an error for a
/// download that was not answered with success or has another digest; and with
/// one for an archive that was not unpacked with exit code zero.
pub proof fn law_install_outcomes(
    job: InstallJob,
    s: InstallState,
    event: UnitEvent,
    now_ms: i64,
)
    requires
        s.phase != InstallPhase::Over,
        s.outcome is None,
    ensures
        ({
            let (n, action) = install_next(job, s, event, now_ms);
            let unit = job.unit.name;
            let wanted = job.unit.artifact.sha256;
            &&& n.outcome is Some ==> action == UnitActionModel::Finish
            &&& n.outcome == Some(Ok::<(), ErrorModel>(())) <==> s.phase == InstallPhase::Saving
                && event is Stored
            &&& event matches UnitEvent::Failed(e) ==> n.outcome == Some(
                Err::<(), ErrorModel>(e@),
            )
            &&& (s.phase == InstallPhase::Fetching && event is Downloaded) ==> {
                let code = event->Downloaded_code;
                let got = artifact::hex_text(artifact::sha256(event->Downloaded_bytes@));
                &&& n.outcome is None <==> 200 <= code < 300 && wanted == got
                &&& !(200 <= code < 300) ==> n.outcome == Some(
                    Err::<(), ErrorModel>(
                        ErrorModel::Unit(
                            "artifact"@ + " download for "@ + unit + " returned HTTP "@
                                + event->Downloaded_status@,
                        ),
                    ),
                )
                &&& 200 <= code < 300 && wanted != got ==> n.outcome == Some(
                    Err::<(), ErrorModel>(
                        ErrorModel::Sha256Mismatch { expected: wanted, actual: got },
                    ),
                )
            }
            &&& (s.phase == InstallPhase::Unpacking && event is Unpacked) ==> (n.outcome is None
                <==> event->Unpacked_code == Some(0i32)) && (n.outcome is Some ==> n.outcome->0
                is Err && n.outcome->0->Err_0 is Unit)
            &&& !(event is Failed || event is Stored || event is Downloaded || event is Unpacked)
                ==> n.outcome is None
        }),
{
}

/// What an installation asks for when things go well: the checked download is put
/// in place in the unit's own directory, in the way that its URL asks for; a
/// sidecar is then started from there on its socket; then the unit is stored.
pub proof fn law_install_takes_its_steps(
    job: InstallJob,
    s: InstallState,
    event: UnitEvent,
    now_ms: i64,
)
    requires
        s.phase != InstallPhase::Over,
        s.outcome is None,
    ensures
        ({
            let (n, action) = install_next(job, s, event, now_ms);
            let unit = job.unit.name;
            let dir = text::joined_path(job.cache_dir, unit);
            let goes_on = n.outcome is None;
            &&& (s.phase == InstallPhase::Fetching && event is Downloaded && goes_on) ==> {
                &&& n.phase == InstallPhase::Unpacking
                &&& action is Unpack
                &&& action->bytes == event->Downloaded_bytes@
                &&& action->plan == artifact::unpack_as(
                    artifact::format_of(artifact::lowercase(job.unit.artifact.url)),
                    dir,
                    unit,
                    job.unit.version,
                )
            }
            &&& (s.phase == InstallPhase::Unpacking && event is Unpacked && goes_on) ==> match job.unit.kind {
                UnitKind::Sidecar => action == (UnitActionModel::Start {
                    binary: text::joined_path(dir, unit),
                    socket: text::joined_path(job.socket_dir, unit + ".sock"@),
                }) && n.phase == InstallPhase::Starting,
                _ => action is Save && n.phase == InstallPhase::Saving,
            }
            &&& (s.phase == InstallPhase::Starting && event is Started) ==> action is Save
                && n.phase == InstallPhase::Saving
            &&& action is Stop || action is Probe || action is Delete || action is Purge || action
                is Load || action is Download ==> false
        }),
{
}

/// What is stored of an installed unit: what its task says of it, at the time of
/// storing; as running, with its process and its socket, exactly where a process
/// was started, and as installed otherwise. Its health is not known yet.
pub proof fn law_installed_row_says_what_was_installed(
    job: InstallJob,
    s: InstallState,
    event: UnitEvent,
    now_ms: i64,
)
    ensures
        install_next(job, s, event, now_ms).1 matches UnitActionModel::Save(row) ==> {
            &&& row.name == job.unit.name
            &&& row.kind == job.unit.kind.wire_name()
            &&& row.version == job.unit.version
            &&& row.health is None
            &&& row.health_error is None
            &&& row.updated_at == now_ms
            &&& match event {
                UnitEvent::Started(Some(pid)) => row.pid == Some(pid) && row.state == "running"@
                    && row.socket_path == Some(
                    text::joined_path(job.socket_dir, job.unit.name + ".sock"@),
                ),
                _ => row.pid is None && row.state == "installed"@ && row.socket_path
                    == job.unit.socket_path,
            }
            &&& job.unit.health_check is None ==> row.config_json == (match job.unit.config {
                Some(v) => Some(crate::json::compact_text(v)),
                None => None,
            })
            &&& row.config_json is Some <==> job.unit.health_check is Some || job.unit.config
                is Some
        },
{
}

} // verus!
