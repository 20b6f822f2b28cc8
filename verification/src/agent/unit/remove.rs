//! Removing a unit: stop it, forget it and, where asked, delete its files.

use crate::agent::error::{Error, ErrorModel};
use crate::agent::task::router;
use crate::agent::unit::install;
use crate::agent::unit::steps::{UnitAction, UnitActionModel, UnitEvent};
use crate::agent::unit::upgrade::STOP_PAUSE_SEC;
use crate::text;
use vstd::prelude::*;
use vstd::string::*;

verus! {

/// Where a removal stands.
#[derive(Debug, Clone, Copy, PartialEq, Eq, Structural)]
pub enum RemovePhase {
    Loading,
    Stopping,
    Deleting,
    Purging,
    Over,
}

/// What a removal is about.
#[verifier::ext_equal]
pub struct RemoveJob {
    pub unit: Seq<char>,
    pub purge: bool,
    pub cache_dir: Seq<char>,
}

/// Where a removal stands, in full: the phase, and how it ended.
#[verifier::ext_equal]
pub struct RemoveState {
    pub phase: RemovePhase,
    pub outcome: Option<Result<(), ErrorModel>>,
}

/// The end of a removal.
pub open spec fn removed(outcome: Result<(), ErrorModel>) -> (RemoveState, UnitActionModel) {
    (RemoveState { phase: RemovePhase::Over, outcome: Some(outcome) }, UnitActionModel::Finish)
}

/// Where an event takes a removal, and what is to be done next. An event that is
/// not waited for changes nothing and asks for nothing.
pub open spec fn remove_next(job: RemoveJob, s: RemoveState, event: UnitEvent) -> (
    RemoveState,
    UnitActionModel,
) {
    let delete = (
        RemoveState { phase: RemovePhase::Deleting, ..s },
        UnitActionModel::Delete { name: job.unit },
    );
    match (s.phase, event) {
        (RemovePhase::Over, _) => (s, UnitActionModel::Finish),
        (_, UnitEvent::Failed(e)) => removed(Err(e@)),
        (RemovePhase::Loading, UnitEvent::Loaded(found)) => match found {
            Some(row) => match row.pid {
                Some(pid) => (
                    RemoveState { phase: RemovePhase::Stopping, ..s },
                    UnitActionModel::Stop { pid, pause_sec: STOP_PAUSE_SEC },
                ),
                None => delete,
            },
            None => delete,
        },
        (RemovePhase::Stopping, UnitEvent::Stopped) => delete,
        (RemovePhase::Deleting, UnitEvent::Stored) => if job.purge {
            (
                RemoveState { phase: RemovePhase::Purging, ..s },
                UnitActionModel::Purge { dir: install::install_dir(job.cache_dir, job.unit) },
            )
        } else {
            removed(Ok(()))
        },
        (RemovePhase::Purging, UnitEvent::Purged) => removed(Ok(())),
        _ => (s, UnitActionModel::Finish),
    }
}

/// A removal under way.
#[derive(Debug)]
pub struct RemoveRun {
    unit: String,
    purge: bool,
    cache_dir: String,
    phase: RemovePhase,
    outcome: Option<Result<(), Error>>,
}

impl RemoveRun {
    /// What it is about.
    pub closed spec fn job(&self) -> RemoveJob {
        RemoveJob { unit: self.unit@, purge: self.purge, cache_dir: self.cache_dir@ }
    }

    /// Where it stands.
    pub closed spec fn state(&self) -> RemoveState {
        RemoveState { phase: self.phase, outcome: install::ended(self.outcome) }
    }

    /// A removal that is to begin by looking the unit up.
    pub fn new(unit: &str, purge: bool, cache_dir: &str) -> (r: (RemoveRun, UnitAction))
        ensures
            r.0.job() == (RemoveJob { unit: unit@, purge, cache_dir: cache_dir@ }),
            r.0.state() == (RemoveState { phase: RemovePhase::Loading, outcome: None }),
            r.1@ == (UnitActionModel::Load { name: unit@ }),
    {
        let run = RemoveRun {
            unit: unit.to_owned(),
            purge,
            cache_dir: cache_dir.to_owned(),
            phase: RemovePhase::Loading,
            outcome: None,
        };
        (run, UnitAction::Load { name: unit.to_owned() })
    }

    /// How it ended.
    pub fn into_outcome(self) -> (r: Option<Result<(), Error>>)
        ensures
            install::ended(r) == self.state().outcome,
    {
        self.outcome
    }

    /// Ends it.
    fn end(&mut self, outcome: Result<(), Error>) -> (r: UnitAction)
        ensures
            final(self).job() == old(self).job(),
            (final(self).state(), r@) == removed(router::outcome_model(outcome)),
    {
        self.phase = RemovePhase::Over;
        self.outcome = Some(outcome);
        UnitAction::Finish
    }

    /// Turns to taking the unit out of the store.
    fn delete(&mut self) -> (r: UnitAction)
        ensures
            final(self).job() == old(self).job(),
            final(self).state() == (RemoveState {
                phase: RemovePhase::Deleting,
                ..old(self).state()
            }),
            r@ == (UnitActionModel::Delete { name: old(self).job().unit }),
    {
        self.phase = RemovePhase::Deleting;
        UnitAction::Delete { name: self.unit.clone() }
    }

    /// Takes note of what came of the latest action, and says what is next.
    pub fn on_event(&mut self, event: UnitEvent) -> (r: UnitAction)
        ensures
            final(self).job() == old(self).job(),
            (final(self).state(), r@) == remove_next(old(self).job(), old(self).state(), event),
    {
        match (self.phase, event) {
            (RemovePhase::Over, _) => UnitAction::Finish,
            (_, UnitEvent::Failed(e)) => self.end(Err(e)),
            (RemovePhase::Loading, UnitEvent::Loaded(found)) => {
                let pid = match &found {
                    Some(row) => row.pid,
                    None => None,
                };
                match pid {
                    Some(pid) => {
                        self.phase = RemovePhase::Stopping;
                        UnitAction::Stop { pid, pause_sec: STOP_PAUSE_SEC }
                    },
                    None => self.delete(),
                }
            },
            (RemovePhase::Stopping, UnitEvent::Stopped) => self.delete(),
            (RemovePhase::Deleting, UnitEvent::Stored) => {
                if self.purge {
                    self.phase = RemovePhase::Purging;
                    UnitAction::Purge {
                        dir: text::join_path(self.cache_dir.as_str(), self.unit.as_str()),
                    }
                } else {
                    self.end(Ok(()))
                }
            },
            (RemovePhase::Purging, UnitEvent::Purged) => self.end(Ok(())),
            _ => UnitAction::Finish,
        }
    }
}

/// A unit's process is asked to end before the unit is forgotten, and a unit is
/// forgotten before its removal succeeds.
pub proof fn law_removed_units_are_stopped_and_forgotten(
    job: RemoveJob,
    s: RemoveState,
    event: UnitEvent,
)
    requires
        s.outcome is None,
    ensures
        ({
            let (n, action) = remove_next(job, s, event);
            &&& action is Delete && s.phase == RemovePhase::Loading ==> (event matches
                UnitEvent::Loaded(found) && (found matches Some(row) ==> row.pid is None))
            &&& n.outcome == Some(Ok::<(), ErrorModel>(())) ==> s.phase == RemovePhase::Deleting
                || s.phase == RemovePhase::Purging
        }),
{
}

/// A removal step by step: a unit with a process has it asked to end and given
/// two seconds; then the unit is taken out of the store, known to it or not; then
/// its own directory is deleted exactly where the task asks for that; and the
/// removal succeeds when the last of these is done. An action that could not be
/// carried out ends it with its error.
pub proof fn law_remove_takes_its_steps(job: RemoveJob, s: RemoveState, event: UnitEvent)
    requires
        s.phase != RemovePhase::Over,
        s.outcome is None,
    ensures
        ({
            let (n, action) = remove_next(job, s, event);
            let running = event is Loaded && event->Loaded_0 is Some && event->Loaded_0->0.pid
                is Some;
            &&& event matches UnitEvent::Failed(e) ==> n.outcome == Some(
                Err::<(), ErrorModel>(e@),
            ) && action == UnitActionModel::Finish
            &&& action is Stop <==> s.phase == RemovePhase::Loading && running
            &&& action matches UnitActionModel::Stop { pid, pause_sec } ==> Some(pid)
                == event->Loaded_0->0.pid && pause_sec == 2 && n.phase == RemovePhase::Stopping
            &&& action is Delete <==> (s.phase == RemovePhase::Stopping && event is Stopped) || (
            s.phase == RemovePhase::Loading && event is Loaded && !running)
            &&& action matches UnitActionModel::Delete { name } ==> name == job.unit && n.phase
                == RemovePhase::Deleting
            &&& action is Purge <==> s.phase == RemovePhase::Deleting && event is Stored
                && job.purge
            &&& action matches UnitActionModel::Purge { dir } ==> dir == text::joined_path(
                job.cache_dir,
                job.unit,
            ) && n.phase == RemovePhase::Purging
            &&& n.outcome == Some(Ok::<(), ErrorModel>(())) <==> (s.phase == RemovePhase::Deleting
                && event is Stored && !job.purge) || (s.phase == RemovePhase::Purging && event
                is Purged)
            &&& n.outcome is Some <==> n.phase == RemovePhase::Over
            &&& n.outcome matches Some(Err(_)) ==> event is Failed
            &&& n.outcome is Some ==> action == UnitActionModel::Finish
        }),
{
}

} // verus!
