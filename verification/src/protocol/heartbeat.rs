//! The heartbeat.

use crate::json::{self, Json, JsonObject, JsonView};
use crate::ids::Uuid;
use crate::protocol::sidecar::HealthStatus;
use crate::protocol::unit::UnitKind;
use crate::wire::{self, DecodeError, Fault, Form, Wire};
use vstd::prelude::*;
use vstd::string::*;

verus! {

/// How one managed unit is, as the control plane is told.
#[derive(Debug, Clone, PartialEq)]
pub struct UnitReport {
    /// Unit name.
    pub name: String,
    /// Sidecar or package.
    pub kind: UnitKind,
    /// Installed version.
    pub version: String,
    /// Lifecycle state.
    pub state: String,
    /// Outcome of the latest health check.
    pub health: Option<HealthStatus>,
    /// Process, where one runs.
    pub pid: Option<u32>,
    /// What the latest check complained of.
    pub health_error: Option<String>,
}

/// What a value of [`UnitReport`] is.
#[verifier::ext_equal]
pub struct UnitReportModel {
    pub name: Seq<char>,
    pub kind: UnitKind,
    pub version: Seq<char>,
    pub state: Seq<char>,
    pub health: Option<HealthStatus>,
    pub pid: Option<u32>,
    pub health_error: Option<Seq<char>>,
}

impl Wire for UnitReport {
    type Model = UnitReportModel;

    open spec fn model(&self) -> UnitReportModel {
        UnitReportModel {
            name: self.name.model(),
            kind: self.kind.model(),
            version: self.version.model(),
            state: self.state.model(),
            health: wire::optional_model(self.health),
            pid: wire::optional_model(self.pid),
            health_error: wire::optional_model(self.health_error),
        }
    }

    open spec fn tree(m: UnitReportModel) -> JsonView {
        let o = Map::<Seq<char>, JsonView>::empty();
        let o = o.insert("name"@, String::tree(m.name));
        let o = o.insert("kind"@, UnitKind::tree(m.kind));
        let o = o.insert("version"@, String::tree(m.version));
        let o = o.insert("state"@, String::tree(m.state));
        let o = wire::with_optional::<HealthStatus>(o, "health"@, m.health);
        let o = wire::with_optional::<u32>(o, "pid"@, m.pid);
        let o = wire::with_optional::<String>(o, "health_error"@, m.health_error);
        JsonView::Object(o)
    }

    open spec fn read(t: JsonView, at: Seq<char>, form: Form) -> Result<UnitReportModel, Fault> {
        let t = wire::unlisted(
            t,
            seq!["name"@, "kind"@, "version"@, "state"@, "health"@, "pid"@, "health_error"@],
            4,
            form,
        );
        let name = wire::read_required::<String>(t, "name"@, form);
        let kind = wire::read_required::<UnitKind>(t, "kind"@, form);
        let version = wire::read_required::<String>(t, "version"@, form);
        let state = wire::read_required::<String>(t, "state"@, form);
        let health = wire::read_optional::<HealthStatus>(t, "health"@, form);
        let pid = wire::read_optional::<u32>(t, "pid"@, form);
        let health_error = wire::read_optional::<String>(t, "health_error"@, form);
        if !(t is Object) {
            Err(Fault::Invalid(at))
        } else if name is Err {
            Err(name->Err_0)
        } else if kind is Err {
            Err(kind->Err_0)
        } else if version is Err {
            Err(version->Err_0)
        } else if state is Err {
            Err(state->Err_0)
        } else if health is Err {
            Err(health->Err_0)
        } else if pid is Err {
            Err(pid->Err_0)
        } else if health_error is Err {
            Err(health_error->Err_0)
        } else {
            Ok(UnitReportModel {
                name: name->Ok_0,
                kind: kind->Ok_0,
                version: version->Ok_0,
                state: state->Ok_0,
                health: health->Ok_0,
                pid: pid->Ok_0,
                health_error: health_error->Ok_0,
            })
        }
    }

    open spec fn lossless(m: UnitReportModel) -> bool {
        &&& String::lossless(m.name)
        &&& UnitKind::lossless(m.kind)
        &&& String::lossless(m.version)
        &&& String::lossless(m.state)
        &&& wire::optional_lossless::<HealthStatus>(m.health)
        &&& wire::optional_lossless::<u32>(m.pid)
        &&& wire::optional_lossless::<String>(m.health_error)
    }

    open spec fn fits(m: UnitReportModel, depth: nat) -> bool {
        &&& depth > 0
        &&& String::fits(m.name, (depth - 1) as nat)
        &&& UnitKind::fits(m.kind, (depth - 1) as nat)
        &&& String::fits(m.version, (depth - 1) as nat)
        &&& String::fits(m.state, (depth - 1) as nat)
        &&& wire::optional_fits::<HealthStatus>(m.health, (depth - 1) as nat)
        &&& wire::optional_fits::<u32>(m.pid, (depth - 1) as nat)
        &&& wire::optional_fits::<String>(m.health_error, (depth - 1) as nat)
    }

    fn to_json(&self) -> (r: Json) {
        let mut o = JsonObject::new();
        o.set("name", self.name.to_json());
        o.set("kind", self.kind.to_json());
        o.set("version", self.version.to_json());
        o.set("state", self.state.to_json());
        wire::set_optional(&mut o, "health", &self.health);
        wire::set_optional(&mut o, "pid", &self.pid);
        wire::set_optional(&mut o, "health_error", &self.health_error);
        o.finish()
    }

    fn from_json(j: &Json, at: &str, form: Form) -> (r: Result<UnitReport, DecodeError>) {
        let names = ["name", "kind", "version", "state", "health", "pid", "health_error"];
        let listed = wire::unlist(j, &names, 4, form);
        let j = match &listed {
            Some(o) => o,
            None => j,
        };
        proof {
            assert(wire::strs(names@) =~= seq![
                "name"@,
                "kind"@,
                "version"@,
                "state"@,
                "health"@,
                "pid"@,
                "health_error"@,
            ]);
        }
        if !j.is_object() {
            return Err(DecodeError::Invalid(at.to_owned()));
        }
        let name = match wire::required::<String>(j, "name", form) {
            Ok(x) => x,
            Err(e) => return Err(e),
        };
        let kind = match wire::required::<UnitKind>(j, "kind", form) {
            Ok(x) => x,
            Err(e) => return Err(e),
        };
        let version = match wire::required::<String>(j, "version", form) {
            Ok(x) => x,
            Err(e) => return Err(e),
        };
        let state = match wire::required::<String>(j, "state", form) {
            Ok(x) => x,
            Err(e) => return Err(e),
        };
        let health = match wire::optional::<HealthStatus>(j, "health", form) {
            Ok(x) => x,
            Err(e) => return Err(e),
        };
        let pid = match wire::optional::<u32>(j, "pid", form) {
            Ok(x) => x,
            Err(e) => return Err(e),
        };
        let health_error = match wire::optional::<String>(j, "health_error", form) {
            Ok(x) => x,
            Err(e) => return Err(e),
        };
        Ok(UnitReport { name, kind, version, state, health, pid, health_error })
    }

    proof fn law_reads_what_it_writes(m: UnitReportModel, at: Seq<char>, form: Form) {
        reveal_strlit("name");
        reveal_strlit("kind");
        reveal_strlit("version");
        reveal_strlit("state");
        reveal_strlit("health");
        reveal_strlit("pid");
        reveal_strlit("health_error");
        assert("name"@.len() == 4);
        assert("kind"@.len() == 4);
        assert("version"@.len() == 7);
        assert("state"@.len() == 5);
        assert("health"@.len() == 6);
        assert("pid"@.len() == 3);
        assert("health_error"@.len() == 12);
        assert("name"@[0] != "kind"@[0]);
        String::law_reads_what_it_writes(m.name, "name"@, form);
        UnitKind::law_reads_what_it_writes(m.kind, "kind"@, form);
        String::law_reads_what_it_writes(m.version, "version"@, form);
        String::law_reads_what_it_writes(m.state, "state"@, form);
        wire::lemma_optional_reads_back::<HealthStatus>(m.health, "health"@, form);
        wire::lemma_optional_reads_back::<u32>(m.pid, "pid"@, form);
        wire::lemma_optional_reads_back::<String>(m.health_error, "health_error"@, form);
        let t = UnitReport::tree(m);
        assert(t.field("name"@) == Some(String::tree(m.name)));
        assert(t.field("kind"@) == Some(UnitKind::tree(m.kind)));
        assert(t.field("version"@) == Some(String::tree(m.version)));
        assert(t.field("state"@) == Some(String::tree(m.state)));
        assert(t.field("health"@) == wire::optional_tree::<HealthStatus>(m.health));
        assert(t.field("pid"@) == wire::optional_tree::<u32>(m.pid));
        assert(t.field("health_error"@) == wire::optional_tree::<String>(m.health_error));
    }

    proof fn law_fits(m: UnitReportModel, depth: nat) {
        let inner = (depth - 1) as nat;
        let o = Map::<Seq<char>, JsonView>::empty();
        String::law_fits(m.name, inner);
        let v = String::tree(m.name);
        json::lemma_insert_within(o, "name"@, v, inner);
        let o = o.insert("name"@, v);
        UnitKind::law_fits(m.kind, inner);
        let v = UnitKind::tree(m.kind);
        json::lemma_insert_within(o, "kind"@, v, inner);
        let o = o.insert("kind"@, v);
        String::law_fits(m.version, inner);
        let v = String::tree(m.version);
        json::lemma_insert_within(o, "version"@, v, inner);
        let o = o.insert("version"@, v);
        String::law_fits(m.state, inner);
        let v = String::tree(m.state);
        json::lemma_insert_within(o, "state"@, v, inner);
        let o = o.insert("state"@, v);
        wire::lemma_optional_within::<HealthStatus>(o, "health"@, m.health, inner);
        let o = wire::with_optional::<HealthStatus>(o, "health"@, m.health);
        wire::lemma_optional_within::<u32>(o, "pid"@, m.pid, inner);
        let o = wire::with_optional::<u32>(o, "pid"@, m.pid);
        wire::lemma_optional_within::<String>(o, "health_error"@, m.health_error, inner);
        let o = wire::with_optional::<String>(o, "health_error"@, m.health_error);
    }
}

/// How many tasks are under way.
#[derive(Debug, Clone, Copy, PartialEq, Eq, Structural)]
pub struct ActiveTaskCounts {
    /// One-shot tasks.
    pub oneshot: u32,
    /// Continuous tasks.
    pub continuous: u32,
    /// Both together.
    pub total: u32,
}

/// What a value of [`ActiveTaskCounts`] is.
#[verifier::ext_equal]
pub struct ActiveTaskCountsModel {
    pub oneshot: u32,
    pub continuous: u32,
    pub total: u32,
}

impl Wire for ActiveTaskCounts {
    type Model = ActiveTaskCountsModel;

    open spec fn model(&self) -> ActiveTaskCountsModel {
        ActiveTaskCountsModel {
            oneshot: self.oneshot.model(),
            continuous: self.continuous.model(),
            total: self.total.model(),
        }
    }

    open spec fn tree(m: ActiveTaskCountsModel) -> JsonView {
        let o = Map::<Seq<char>, JsonView>::empty();
        let o = o.insert("oneshot"@, u32::tree(m.oneshot));
        let o = o.insert("continuous"@, u32::tree(m.continuous));
        let o = o.insert("total"@, u32::tree(m.total));
        JsonView::Object(o)
    }

    open spec fn read(t: JsonView, at: Seq<char>, form: Form) -> Result<ActiveTaskCountsModel, Fault> {
        let t = wire::unlisted(t, seq!["oneshot"@, "continuous"@, "total"@], 3, form);
        let oneshot = wire::read_required::<u32>(t, "oneshot"@, form);
        let continuous = wire::read_required::<u32>(t, "continuous"@, form);
        let total = wire::read_required::<u32>(t, "total"@, form);
        if !(t is Object) {
            Err(Fault::Invalid(at))
        } else if oneshot is Err {
            Err(oneshot->Err_0)
        } else if continuous is Err {
            Err(continuous->Err_0)
        } else if total is Err {
            Err(total->Err_0)
        } else {
            Ok(ActiveTaskCountsModel {
                oneshot: oneshot->Ok_0,
                continuous: continuous->Ok_0,
                total: total->Ok_0,
            })
        }
    }

    open spec fn lossless(m: ActiveTaskCountsModel) -> bool {
        &&& u32::lossless(m.oneshot)
        &&& u32::lossless(m.continuous)
        &&& u32::lossless(m.total)
    }

    open spec fn fits(m: ActiveTaskCountsModel, depth: nat) -> bool {
        &&& depth > 0
        &&& u32::fits(m.oneshot, (depth - 1) as nat)
        &&& u32::fits(m.continuous, (depth - 1) as nat)
        &&& u32::fits(m.total, (depth - 1) as nat)
    }

    fn to_json(&self) -> (r: Json) {
        let mut o = JsonObject::new();
        o.set("oneshot", self.oneshot.to_json());
        o.set("continuous", self.continuous.to_json());
        o.set("total", self.total.to_json());
        o.finish()
    }

    fn from_json(j: &Json, at: &str, form: Form) -> (r: Result<ActiveTaskCounts, DecodeError>) {
        let names = ["oneshot", "continuous", "total"];
        let listed = wire::unlist(j, &names, 3, form);
        let j = match &listed {
            Some(o) => o,
            None => j,
        };
        proof {
            assert(wire::strs(names@) =~= seq!["oneshot"@, "continuous"@, "total"@]);
        }
        if !j.is_object() {
            return Err(DecodeError::Invalid(at.to_owned()));
        }
        let oneshot = match wire::required::<u32>(j, "oneshot", form) {
            Ok(x) => x,
            Err(e) => return Err(e),
        };
        let continuous = match wire::required::<u32>(j, "continuous", form) {
            Ok(x) => x,
            Err(e) => return Err(e),
        };
        let total = match wire::required::<u32>(j, "total", form) {
            Ok(x) => x,
            Err(e) => return Err(e),
        };
        Ok(ActiveTaskCounts { oneshot, continuous, total })
    }

    proof fn law_reads_what_it_writes(m: ActiveTaskCountsModel, at: Seq<char>, form: Form) {
        reveal_strlit("oneshot");
        reveal_strlit("continuous");
        reveal_strlit("total");
        assert("oneshot"@.len() == 7);
        assert("continuous"@.len() == 10);
        assert("total"@.len() == 5);
        u32::law_reads_what_it_writes(m.oneshot, "oneshot"@, form);
        u32::law_reads_what_it_writes(m.continuous, "continuous"@, form);
        u32::law_reads_what_it_writes(m.total, "total"@, form);
        let t = ActiveTaskCounts::tree(m);
        assert(t.field("oneshot"@) == Some(u32::tree(m.oneshot)));
        assert(t.field("continuous"@) == Some(u32::tree(m.continuous)));
        assert(t.field("total"@) == Some(u32::tree(m.total)));
    }

    proof fn law_fits(m: ActiveTaskCountsModel, depth: nat) {
        let inner = (depth - 1) as nat;
        let o = Map::<Seq<char>, JsonView>::empty();
        u32::law_fits(m.oneshot, inner);
        let v = u32::tree(m.oneshot);
        json::lemma_insert_within(o, "oneshot"@, v, inner);
        let o = o.insert("oneshot"@, v);
        u32::law_fits(m.continuous, inner);
        let v = u32::tree(m.continuous);
        json::lemma_insert_within(o, "continuous"@, v, inner);
        let o = o.insert("continuous"@, v);
        u32::law_fits(m.total, inner);
        let v = u32::tree(m.total);
        json::lemma_insert_within(o, "total"@, v, inner);
        let o = o.insert("total"@, v);
    }
}

impl ActiveTaskCounts {
    /// No task at all.
    pub open spec fn none() -> ActiveTaskCounts {
        ActiveTaskCounts { oneshot: 0, continuous: 0, total: 0 }
    }
}

impl Default for ActiveTaskCounts {
    fn default() -> (r: Self)
        ensures
            r == ActiveTaskCounts::none(),
    {
        ActiveTaskCounts { oneshot: 0, continuous: 0, total: 0 }
    }
}

/// What the agent tells the control plane at every beat.
#[derive(Debug, Clone, PartialEq)]
pub struct Heartbeat {
    /// The agent.
    pub agent_id: Uuid,
    /// Version of the running agent.
    pub agent_version: String,
    /// Seconds since the agent started.
    pub uptime_sec: u64,
    /// Milliseconds since the Unix epoch.
    pub timestamp: u64,
    /// Every managed unit.
    pub units: Vec<UnitReport>,
    /// Tasks under way.
    pub active_tasks: ActiveTaskCounts,
}

/// What a value of [`Heartbeat`] is.
#[verifier::ext_equal]
pub struct HeartbeatModel {
    pub agent_id: Uuid,
    pub agent_version: Seq<char>,
    pub uptime_sec: u64,
    pub timestamp: u64,
    pub units: Seq<UnitReportModel>,
    pub active_tasks: ActiveTaskCountsModel,
}

impl Wire for Heartbeat {
    type Model = HeartbeatModel;

    open spec fn model(&self) -> HeartbeatModel {
        HeartbeatModel {
            agent_id: self.agent_id.model(),
            agent_version: self.agent_version.model(),
            uptime_sec: self.uptime_sec.model(),
            timestamp: self.timestamp.model(),
            units: self.units.model(),
            active_tasks: self.active_tasks.model(),
        }
    }

    open spec fn tree(m: HeartbeatModel) -> JsonView {
        let o = Map::<Seq<char>, JsonView>::empty();
        let o = o.insert("agent_id"@, Uuid::tree(m.agent_id));
        let o = o.insert("agent_version"@, String::tree(m.agent_version));
        let o = o.insert("uptime_sec"@, u64::tree(m.uptime_sec));
        let o = o.insert("timestamp"@, u64::tree(m.timestamp));
        let o = o.insert("units"@, Vec::<UnitReport>::tree(m.units));
        let o = o.insert("active_tasks"@, ActiveTaskCounts::tree(m.active_tasks));
        JsonView::Object(o)
    }

    open spec fn read(t: JsonView, at: Seq<char>, form: Form) -> Result<HeartbeatModel, Fault> {
        let t = wire::unlisted(
            t,
            seq![
                "agent_id"@,
                "agent_version"@,
                "uptime_sec"@,
                "timestamp"@,
                "units"@,
                "active_tasks"@,
            ],
            4,
            form,
        );
        let agent_id = wire::read_required::<Uuid>(t, "agent_id"@, form);
        let agent_version = wire::read_required::<String>(t, "agent_version"@, form);
        let uptime_sec = wire::read_required::<u64>(t, "uptime_sec"@, form);
        let timestamp = wire::read_required::<u64>(t, "timestamp"@, form);
        let units = wire::read_or::<Vec<UnitReport>>(t, "units"@, Seq::<UnitReportModel>::empty(), form);
        let active_tasks = wire::read_or::<ActiveTaskCounts>(t, "active_tasks"@, ActiveTaskCounts::none().model(), form);
        if !(t is Object) {
            Err(Fault::Invalid(at))
        } else if agent_id is Err {
            Err(agent_id->Err_0)
        } else if agent_version is Err {
            Err(agent_version->Err_0)
        } else if uptime_sec is Err {
            Err(uptime_sec->Err_0)
        } else if timestamp is Err {
            Err(timestamp->Err_0)
        } else if units is Err {
            Err(units->Err_0)
        } else if active_tasks is Err {
            Err(active_tasks->Err_0)
        } else {
            Ok(HeartbeatModel {
                agent_id: agent_id->Ok_0,
                agent_version: agent_version->Ok_0,
                uptime_sec: uptime_sec->Ok_0,
                timestamp: timestamp->Ok_0,
                units: units->Ok_0,
                active_tasks: active_tasks->Ok_0,
            })
        }
    }

    open spec fn lossless(m: HeartbeatModel) -> bool {
        &&& Uuid::lossless(m.agent_id)
        &&& String::lossless(m.agent_version)
        &&& u64::lossless(m.uptime_sec)
        &&& u64::lossless(m.timestamp)
        &&& Vec::<UnitReport>::lossless(m.units)
        &&& ActiveTaskCounts::lossless(m.active_tasks)
    }

    open spec fn fits(m: HeartbeatModel, depth: nat) -> bool {
        &&& depth > 0
        &&& Uuid::fits(m.agent_id, (depth - 1) as nat)
        &&& String::fits(m.agent_version, (depth - 1) as nat)
        &&& u64::fits(m.uptime_sec, (depth - 1) as nat)
        &&& u64::fits(m.timestamp, (depth - 1) as nat)
        &&& Vec::<UnitReport>::fits(m.units, (depth - 1) as nat)
        &&& ActiveTaskCounts::fits(m.active_tasks, (depth - 1) as nat)
    }

    fn to_json(&self) -> (r: Json) {
        let mut o = JsonObject::new();
        o.set("agent_id", self.agent_id.to_json());
        o.set("agent_version", self.agent_version.to_json());
        o.set("uptime_sec", self.uptime_sec.to_json());
        o.set("timestamp", self.timestamp.to_json());
        o.set("units", self.units.to_json());
        o.set("active_tasks", self.active_tasks.to_json());
        o.finish()
    }

    fn from_json(j: &Json, at: &str, form: Form) -> (r: Result<Heartbeat, DecodeError>) {
        let names = [
            "agent_id",
            "agent_version",
            "uptime_sec",
            "timestamp",
            "units",
            "active_tasks",
        ];
        let listed = wire::unlist(j, &names, 4, form);
        let j = match &listed {
            Some(o) => o,
            None => j,
        };
        proof {
            assert(wire::strs(names@) =~= seq![
                "agent_id"@,
                "agent_version"@,
                "uptime_sec"@,
                "timestamp"@,
                "units"@,
                "active_tasks"@,
            ]);
        }
        if !j.is_object() {
            return Err(DecodeError::Invalid(at.to_owned()));
        }
        assert(wire::models(Seq::<UnitReport>::empty()) =~= Seq::empty());
        let agent_id = match wire::required::<Uuid>(j, "agent_id", form) {
            Ok(x) => x,
            Err(e) => return Err(e),
        };
        let agent_version = match wire::required::<String>(j, "agent_version", form) {
            Ok(x) => x,
            Err(e) => return Err(e),
        };
        let uptime_sec = match wire::required::<u64>(j, "uptime_sec", form) {
            Ok(x) => x,
            Err(e) => return Err(e),
        };
        let timestamp = match wire::required::<u64>(j, "timestamp", form) {
            Ok(x) => x,
            Err(e) => return Err(e),
        };
        let units = match wire::defaulted::<Vec<UnitReport>>(j, "units", Vec::new(), form) {
            Ok(x) => x,
            Err(e) => return Err(e),
        };
        let active_tasks = match wire::defaulted::<ActiveTaskCounts>(j, "active_tasks", ActiveTaskCounts::default(), form) {
            Ok(x) => x,
            Err(e) => return Err(e),
        };
        Ok(Heartbeat { agent_id, agent_version, uptime_sec, timestamp, units, active_tasks })
    }

    proof fn law_reads_what_it_writes(m: HeartbeatModel, at: Seq<char>, form: Form) {
        reveal_strlit("agent_id");
        reveal_strlit("agent_version");
        reveal_strlit("uptime_sec");
        reveal_strlit("timestamp");
        reveal_strlit("units");
        reveal_strlit("active_tasks");
        assert("agent_id"@.len() == 8);
        assert("agent_version"@.len() == 13);
        assert("uptime_sec"@.len() == 10);
        assert("timestamp"@.len() == 9);
        assert("units"@.len() == 5);
        assert("active_tasks"@.len() == 12);
        Uuid::law_reads_what_it_writes(m.agent_id, "agent_id"@, form);
        String::law_reads_what_it_writes(m.agent_version, "agent_version"@, form);
        u64::law_reads_what_it_writes(m.uptime_sec, "uptime_sec"@, form);
        u64::law_reads_what_it_writes(m.timestamp, "timestamp"@, form);
        Vec::<UnitReport>::law_reads_what_it_writes(m.units, "units"@, form);
        ActiveTaskCounts::law_reads_what_it_writes(m.active_tasks, "active_tasks"@, form);
        let t = Heartbeat::tree(m);
        assert(t.field("agent_id"@) == Some(Uuid::tree(m.agent_id)));
        assert(t.field("agent_version"@) == Some(String::tree(m.agent_version)));
        assert(t.field("uptime_sec"@) == Some(u64::tree(m.uptime_sec)));
        assert(t.field("timestamp"@) == Some(u64::tree(m.timestamp)));
        assert(t.field("units"@) == Some(Vec::<UnitReport>::tree(m.units)));
        assert(t.field("active_tasks"@) == Some(ActiveTaskCounts::tree(m.active_tasks)));
    }

    proof fn law_fits(m: HeartbeatModel, depth: nat) {
        let inner = (depth - 1) as nat;
        let o = Map::<Seq<char>, JsonView>::empty();
        Uuid::law_fits(m.agent_id, inner);
        let v = Uuid::tree(m.agent_id);
        json::lemma_insert_within(o, "agent_id"@, v, inner);
        let o = o.insert("agent_id"@, v);
        String::law_fits(m.agent_version, inner);
        let v = String::tree(m.agent_version);
        json::lemma_insert_within(o, "agent_version"@, v, inner);
        let o = o.insert("agent_version"@, v);
        u64::law_fits(m.uptime_sec, inner);
        let v = u64::tree(m.uptime_sec);
        json::lemma_insert_within(o, "uptime_sec"@, v, inner);
        let o = o.insert("uptime_sec"@, v);
        u64::law_fits(m.timestamp, inner);
        let v = u64::tree(m.timestamp);
        json::lemma_insert_within(o, "timestamp"@, v, inner);
        let o = o.insert("timestamp"@, v);
        Vec::<UnitReport>::law_fits(m.units, inner);
        let v = Vec::<UnitReport>::tree(m.units);
        json::lemma_insert_within(o, "units"@, v, inner);
        let o = o.insert("units"@, v);
        ActiveTaskCounts::law_fits(m.active_tasks, inner);
        let v = ActiveTaskCounts::tree(m.active_tasks);
        json::lemma_insert_within(o, "active_tasks"@, v, inner);
        let o = o.insert("active_tasks"@, v);
    }
}

} // verus!
