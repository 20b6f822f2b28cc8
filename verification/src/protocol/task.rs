//! Tasks, chains of tasks, and their results.

use crate::json::{self, Json, JsonObject, JsonView};
use crate::ids::Uuid;
use crate::protocol::credential::{CredentialRef, CredentialRefModel};
use crate::protocol::unit::{Artifact, ArtifactModel, ManagedUnit, ManagedUnitModel};
use crate::string_map::StringMap;
use crate::text;
use crate::wire::{self, DecodeError, Fault, Form, Wire};
use vstd::prelude::*;
use vstd::string::*;

verus! {

/// How urgent a task is.
#[derive(Debug, Clone, Copy, PartialEq, Eq, Hash, Structural)]
pub enum Priority {
    /// Before everything else.
    Critical,
    /// Before ordinary work.
    High,
    /// Ordinary work.
    Normal,
    /// When nothing else waits.
    Low,
}

impl Default for Priority {
    fn default() -> (r: Self)
        ensures
            r == Priority::Normal,
    {
        Priority::Normal
    }
}

impl Priority {
    /// The name on the wire.
    pub open spec fn wire_name(self) -> Seq<char> {
        match self {
            Priority::Critical => "critical"@,
            Priority::High => "high"@,
            Priority::Normal => "normal"@,
            Priority::Low => "low"@,
        }
    }

    /// The name on the wire.
    pub fn as_str(&self) -> (r: &'static str)
        ensures
            r@ == self.wire_name(),
    {
        match self {
            Priority::Critical => "critical",
            Priority::High => "high",
            Priority::Normal => "normal",
            Priority::Low => "low",
        }
    }

    /// The value that a name stands for.
    pub open spec fn of_name(s: Seq<char>) -> Option<Priority> {
        if s == "critical"@ {
            Some(Priority::Critical)
        } else if s == "high"@ {
            Some(Priority::High)
        } else if s == "normal"@ {
            Some(Priority::Normal)
        } else if s == "low"@ {
            Some(Priority::Low)
        } else {
            None
        }
    }

    /// Reads a name.
    pub fn parse(s: &str) -> (r: Option<Priority>)
        ensures
            r == Priority::of_name(s@),
    {
        if text::same(s, "critical") {
            Some(Priority::Critical)
        } else if text::same(s, "high") {
            Some(Priority::High)
        } else if text::same(s, "normal") {
            Some(Priority::Normal)
        } else if text::same(s, "low") {
            Some(Priority::Low)
        } else {
            None
        }
    }
}

impl Wire for Priority {
    type Model = Priority;

    open spec fn model(&self) -> Priority {
        *self
    }

    open spec fn tree(m: Priority) -> JsonView {
        JsonView::Text(m.wire_name())
    }

    open spec fn read(t: JsonView, at: Seq<char>, form: Form) -> Result<Priority, Fault> {
        match wire::name_in(t, form) {
            Some(s) => match Priority::of_name(s) {
                Some(v) => Ok(v),
                None => Err(Fault::Invalid(at)),
            },
            None => Err(Fault::Invalid(at)),
        }
    }

    open spec fn lossless(m: Priority) -> bool {
        true
    }

    open spec fn fits(m: Priority, depth: nat) -> bool {
        true
    }

    fn to_json(&self) -> (r: Json) {
        Json::text(self.as_str())
    }

    fn from_json(j: &Json, at: &str, form: Form) -> (r: Result<Priority, DecodeError>) {
        match wire::name_of(j, form) {
            Some(s) => match Priority::parse(s) {
                Some(v) => Ok(v),
                None => Err(DecodeError::Invalid(at.to_owned())),
            },
            None => Err(DecodeError::Invalid(at.to_owned())),
        }
    }

    proof fn law_reads_what_it_writes(m: Priority, at: Seq<char>, form: Form) {
        reveal_strlit("critical");
        reveal_strlit("high");
        reveal_strlit("normal");
        reveal_strlit("low");
        assert("critical"@.len() == 8);
        assert("high"@.len() == 4);
        assert("normal"@.len() == 6);
        assert("low"@.len() == 3);
    }

    proof fn law_fits(m: Priority, depth: nat) {
    }
}

/// What runs an exec task.
#[derive(Debug, Clone, Copy, PartialEq, Eq, Hash, Structural)]
pub enum Executor {
    /// A shell on the host.
    Shell,
    /// A sidecar.
    Sidecar,
}

impl Executor {
    /// The name on the wire.
    pub open spec fn wire_name(self) -> Seq<char> {
        match self {
            Executor::Shell => "shell"@,
            Executor::Sidecar => "sidecar"@,
        }
    }

    /// The name on the wire.
    pub fn as_str(&self) -> (r: &'static str)
        ensures
            r@ == self.wire_name(),
    {
        match self {
            Executor::Shell => "shell",
            Executor::Sidecar => "sidecar",
        }
    }

    /// The value that a name stands for.
    pub open spec fn of_name(s: Seq<char>) -> Option<Executor> {
        if s == "shell"@ {
            Some(Executor::Shell)
        } else if s == "sidecar"@ {
            Some(Executor::Sidecar)
        } else {
            None
        }
    }

    /// Reads a name.
    pub fn parse(s: &str) -> (r: Option<Executor>)
        ensures
            r == Executor::of_name(s@),
    {
        if text::same(s, "shell") {
            Some(Executor::Shell)
        } else if text::same(s, "sidecar") {
            Some(Executor::Sidecar)
        } else {
            None
        }
    }
}

impl Wire for Executor {
    type Model = Executor;

    open spec fn model(&self) -> Executor {
        *self
    }

    open spec fn tree(m: Executor) -> JsonView {
        JsonView::Text(m.wire_name())
    }

    open spec fn read(t: JsonView, at: Seq<char>, form: Form) -> Result<Executor, Fault> {
        match wire::name_in(t, form) {
            Some(s) => match Executor::of_name(s) {
                Some(v) => Ok(v),
                None => Err(Fault::Invalid(at)),
            },
            None => Err(Fault::Invalid(at)),
        }
    }

    open spec fn lossless(m: Executor) -> bool {
        true
    }

    open spec fn fits(m: Executor, depth: nat) -> bool {
        true
    }

    fn to_json(&self) -> (r: Json) {
        Json::text(self.as_str())
    }

    fn from_json(j: &Json, at: &str, form: Form) -> (r: Result<Executor, DecodeError>) {
        match wire::name_of(j, form) {
            Some(s) => match Executor::parse(s) {
                Some(v) => Ok(v),
                None => Err(DecodeError::Invalid(at.to_owned())),
            },
            None => Err(DecodeError::Invalid(at.to_owned())),
        }
    }

    proof fn law_reads_what_it_writes(m: Executor, at: Seq<char>, form: Form) {
        reveal_strlit("shell");
        reveal_strlit("sidecar");
        assert("shell"@.len() == 5);
        assert("sidecar"@.len() == 7);
    }

    proof fn law_fits(m: Executor, depth: nat) {
    }
}

/// How often an exec task runs.
#[derive(Debug, Clone, Copy, PartialEq, Eq, Hash, Structural)]
pub enum ExecKind {
    /// Once.
    Oneshot,
    /// Over and over, at an interval.
    Continuous,
}

impl ExecKind {
    /// The name on the wire.
    pub open spec fn wire_name(self) -> Seq<char> {
        match self {
            ExecKind::Oneshot => "oneshot"@,
            ExecKind::Continuous => "continuous"@,
        }
    }

    /// The name on the wire.
    pub fn as_str(&self) -> (r: &'static str)
        ensures
            r@ == self.wire_name(),
    {
        match self {
            ExecKind::Oneshot => "oneshot",
            ExecKind::Continuous => "continuous",
        }
    }

    /// The value that a name stands for.
    pub open spec fn of_name(s: Seq<char>) -> Option<ExecKind> {
        if s == "oneshot"@ {
            Some(ExecKind::Oneshot)
        } else if s == "continuous"@ {
            Some(ExecKind::Continuous)
        } else {
            None
        }
    }

    /// Reads a name.
    pub fn parse(s: &str) -> (r: Option<ExecKind>)
        ensures
            r == ExecKind::of_name(s@),
    {
        if text::same(s, "oneshot") {
            Some(ExecKind::Oneshot)
        } else if text::same(s, "continuous") {
            Some(ExecKind::Continuous)
        } else {
            None
        }
    }
}

impl Wire for ExecKind {
    type Model = ExecKind;

    open spec fn model(&self) -> ExecKind {
        *self
    }

    open spec fn tree(m: ExecKind) -> JsonView {
        JsonView::Text(m.wire_name())
    }

    open spec fn read(t: JsonView, at: Seq<char>, form: Form) -> Result<ExecKind, Fault> {
        match wire::name_in(t, form) {
            Some(s) => match ExecKind::of_name(s) {
                Some(v) => Ok(v),
                None => Err(Fault::Invalid(at)),
            },
            None => Err(Fault::Invalid(at)),
        }
    }

    open spec fn lossless(m: ExecKind) -> bool {
        true
    }

    open spec fn fits(m: ExecKind, depth: nat) -> bool {
        true
    }

    fn to_json(&self) -> (r: Json) {
        Json::text(self.as_str())
    }

    fn from_json(j: &Json, at: &str, form: Form) -> (r: Result<ExecKind, DecodeError>) {
        match wire::name_of(j, form) {
            Some(s) => match ExecKind::parse(s) {
                Some(v) => Ok(v),
                None => Err(DecodeError::Invalid(at.to_owned())),
            },
            None => Err(DecodeError::Invalid(at.to_owned())),
        }
    }

    proof fn law_reads_what_it_writes(m: ExecKind, at: Seq<char>, form: Form) {
        reveal_strlit("oneshot");
        reveal_strlit("continuous");
        assert("oneshot"@.len() == 7);
        assert("continuous"@.len() == 10);
    }

    proof fn law_fits(m: ExecKind, depth: nat) {
    }
}

/// Runs a command, once or over and over.
#[derive(Debug, Clone, PartialEq)]
pub struct ExecTask {
    /// The task.
    pub id: Uuid,
    /// How urgent it is.
    pub priority: Priority,
    /// Labels of the control plane.
    pub tags: StringMap,
    /// Once or over and over.
    pub kind: ExecKind,
    /// Shell or sidecar.
    pub executor: Executor,
    /// The sidecar, where one runs the task.
    pub target: Option<String>,
    /// The sidecar's method.
    pub method: Option<String>,
    /// Script of a shell task, parameters of a sidecar task.
    pub payload: Json,
    /// Milliseconds between the runs of a continuous task.
    pub interval_ms: Option<u64>,
    /// Milliseconds a run may take.
    pub timeout_ms: u64,
    /// Credentials the task needs.
    pub credentials: Vec<CredentialRef>,
}

/// What a value of [`ExecTask`] is.
#[verifier::ext_equal]
pub struct ExecTaskModel {
    pub id: Uuid,
    pub priority: Priority,
    pub tags: Map<Seq<char>, Seq<char>>,
    pub kind: ExecKind,
    pub executor: Executor,
    pub target: Option<Seq<char>>,
    pub method: Option<Seq<char>>,
    pub payload: JsonView,
    pub interval_ms: Option<u64>,
    pub timeout_ms: u64,
    pub credentials: Seq<CredentialRefModel>,
}

impl Wire for ExecTask {
    type Model = ExecTaskModel;

    open spec fn model(&self) -> ExecTaskModel {
        ExecTaskModel {
            id: self.id.model(),
            priority: self.priority.model(),
            tags: self.tags.model(),
            kind: self.kind.model(),
            executor: self.executor.model(),
            target: wire::optional_model(self.target),
            method: wire::optional_model(self.method),
            payload: self.payload.model(),
            interval_ms: wire::optional_model(self.interval_ms),
            timeout_ms: self.timeout_ms.model(),
            credentials: self.credentials.model(),
        }
    }

    open spec fn tree(m: ExecTaskModel) -> JsonView {
        let o = Map::<Seq<char>, JsonView>::empty();
        let o = o.insert("id"@, Uuid::tree(m.id));
        let o = o.insert("priority"@, Priority::tree(m.priority));
        let o = o.insert("tags"@, StringMap::tree(m.tags));
        let o = o.insert("kind"@, ExecKind::tree(m.kind));
        let o = o.insert("executor"@, Executor::tree(m.executor));
        let o = wire::with_optional::<String>(o, "target"@, m.target);
        let o = wire::with_optional::<String>(o, "method"@, m.method);
        let o = o.insert("payload"@, Json::tree(m.payload));
        let o = wire::with_optional::<u64>(o, "interval_ms"@, m.interval_ms);
        let o = o.insert("timeout_ms"@, u64::tree(m.timeout_ms));
        let o = o.insert("credentials"@, Vec::<CredentialRef>::tree(m.credentials));
        JsonView::Object(o)
    }

    open spec fn read(t: JsonView, at: Seq<char>, form: Form) -> Result<ExecTaskModel, Fault> {
        let t = wire::unlisted(
            t,
            seq![
                "id"@,
                "priority"@,
                "tags"@,
                "kind"@,
                "executor"@,
                "target"@,
                "method"@,
                "payload"@,
                "interval_ms"@,
                "timeout_ms"@,
                "credentials"@,
            ],
            10,
            form,
        );
        let id = wire::read_required::<Uuid>(t, "id"@, form);
        let priority = wire::read_or::<Priority>(t, "priority"@, Priority::Normal, form);
        let tags = wire::read_or::<StringMap>(t, "tags"@, Map::<Seq<char>, Seq<char>>::empty(), form);
        let kind = wire::read_required::<ExecKind>(t, "kind"@, form);
        let executor = wire::read_required::<Executor>(t, "executor"@, form);
        let target = wire::read_optional::<String>(t, "target"@, form);
        let method = wire::read_optional::<String>(t, "method"@, form);
        let payload = wire::read_or::<Json>(t, "payload"@, JsonView::Null, form);
        let interval_ms = wire::read_optional::<u64>(t, "interval_ms"@, form);
        let timeout_ms = wire::read_required::<u64>(t, "timeout_ms"@, form);
        let credentials = wire::read_or::<Vec<CredentialRef>>(t, "credentials"@, Seq::<CredentialRefModel>::empty(), form);
        if !(t is Object) {
            Err(Fault::Invalid(at))
        } else if id is Err {
            Err(id->Err_0)
        } else if priority is Err {
            Err(priority->Err_0)
        } else if tags is Err {
            Err(tags->Err_0)
        } else if kind is Err {
            Err(kind->Err_0)
        } else if executor is Err {
            Err(executor->Err_0)
        } else if target is Err {
            Err(target->Err_0)
        } else if method is Err {
            Err(method->Err_0)
        } else if payload is Err {
            Err(payload->Err_0)
        } else if interval_ms is Err {
            Err(interval_ms->Err_0)
        } else if timeout_ms is Err {
            Err(timeout_ms->Err_0)
        } else if credentials is Err {
            Err(credentials->Err_0)
        } else {
            Ok(ExecTaskModel {
                id: id->Ok_0,
                priority: priority->Ok_0,
                tags: tags->Ok_0,
                kind: kind->Ok_0,
                executor: executor->Ok_0,
                target: target->Ok_0,
                method: method->Ok_0,
                payload: payload->Ok_0,
                interval_ms: interval_ms->Ok_0,
                timeout_ms: timeout_ms->Ok_0,
                credentials: credentials->Ok_0,
            })
        }
    }

    open spec fn lossless(m: ExecTaskModel) -> bool {
        &&& Uuid::lossless(m.id)
        &&& Priority::lossless(m.priority)
        &&& StringMap::lossless(m.tags)
        &&& ExecKind::lossless(m.kind)
        &&& Executor::lossless(m.executor)
        &&& wire::optional_lossless::<String>(m.target)
        &&& wire::optional_lossless::<String>(m.method)
        &&& Json::lossless(m.payload)
        &&& wire::optional_lossless::<u64>(m.interval_ms)
        &&& u64::lossless(m.timeout_ms)
        &&& Vec::<CredentialRef>::lossless(m.credentials)
    }

    open spec fn fits(m: ExecTaskModel, depth: nat) -> bool {
        &&& depth > 0
        &&& Uuid::fits(m.id, (depth - 1) as nat)
        &&& Priority::fits(m.priority, (depth - 1) as nat)
        &&& StringMap::fits(m.tags, (depth - 1) as nat)
        &&& ExecKind::fits(m.kind, (depth - 1) as nat)
        &&& Executor::fits(m.executor, (depth - 1) as nat)
        &&& wire::optional_fits::<String>(m.target, (depth - 1) as nat)
        &&& wire::optional_fits::<String>(m.method, (depth - 1) as nat)
        &&& Json::fits(m.payload, (depth - 1) as nat)
        &&& wire::optional_fits::<u64>(m.interval_ms, (depth - 1) as nat)
        &&& u64::fits(m.timeout_ms, (depth - 1) as nat)
        &&& Vec::<CredentialRef>::fits(m.credentials, (depth - 1) as nat)
    }

    fn to_json(&self) -> (r: Json) {
        let mut o = JsonObject::new();
        o.set("id", self.id.to_json());
        o.set("priority", self.priority.to_json());
        o.set("tags", self.tags.to_json());
        o.set("kind", self.kind.to_json());
        o.set("executor", self.executor.to_json());
        wire::set_optional(&mut o, "target", &self.target);
        wire::set_optional(&mut o, "method", &self.method);
        o.set("payload", self.payload.to_json());
        wire::set_optional(&mut o, "interval_ms", &self.interval_ms);
        o.set("timeout_ms", self.timeout_ms.to_json());
        o.set("credentials", self.credentials.to_json());
        o.finish()
    }

    fn from_json(j: &Json, at: &str, form: Form) -> (r: Result<ExecTask, DecodeError>) {
        let names = [
            "id",
            "priority",
            "tags",
            "kind",
            "executor",
            "target",
            "method",
            "payload",
            "interval_ms",
            "timeout_ms",
            "credentials",
        ];
        let listed = wire::unlist(j, &names, 10, form);
        let j = match &listed {
            Some(o) => o,
            None => j,
        };
        proof {
            assert(wire::strs(names@) =~= seq![
                "id"@,
                "priority"@,
                "tags"@,
                "kind"@,
                "executor"@,
                "target"@,
                "method"@,
                "payload"@,
                "interval_ms"@,
                "timeout_ms"@,
                "credentials"@,
            ]);
        }
        if !j.is_object() {
            return Err(DecodeError::Invalid(at.to_owned()));
        }
        assert(wire::models(Seq::<CredentialRef>::empty()) =~= Seq::empty());
        let id = match wire::required::<Uuid>(j, "id", form) {
            Ok(x) => x,
            Err(e) => return Err(e),
        };
        let priority = match wire::defaulted::<Priority>(j, "priority", Priority::Normal, form) {
            Ok(x) => x,
            Err(e) => return Err(e),
        };
        let tags = match wire::defaulted::<StringMap>(j, "tags", StringMap::new(), form) {
            Ok(x) => x,
            Err(e) => return Err(e),
        };
        let kind = match wire::required::<ExecKind>(j, "kind", form) {
            Ok(x) => x,
            Err(e) => return Err(e),
        };
        let executor = match wire::required::<Executor>(j, "executor", form) {
            Ok(x) => x,
            Err(e) => return Err(e),
        };
        let target = match wire::optional::<String>(j, "target", form) {
            Ok(x) => x,
            Err(e) => return Err(e),
        };
        let method = match wire::optional::<String>(j, "method", form) {
            Ok(x) => x,
            Err(e) => return Err(e),
        };
        let payload = match wire::defaulted::<Json>(j, "payload", Json::Null, form) {
            Ok(x) => x,
            Err(e) => return Err(e),
        };
        let interval_ms = match wire::optional::<u64>(j, "interval_ms", form) {
            Ok(x) => x,
            Err(e) => return Err(e),
        };
        let timeout_ms = match wire::required::<u64>(j, "timeout_ms", form) {
            Ok(x) => x,
            Err(e) => return Err(e),
        };
        let credentials = match wire::defaulted::<Vec<CredentialRef>>(j, "credentials", Vec::new(), form) {
            Ok(x) => x,
            Err(e) => return Err(e),
        };
        Ok(ExecTask { id, priority, tags, kind, executor, target, method, payload, interval_ms, timeout_ms, credentials })
    }

    proof fn law_reads_what_it_writes(m: ExecTaskModel, at: Seq<char>, form: Form) {
        reveal_strlit("id");
        reveal_strlit("priority");
        reveal_strlit("tags");
        reveal_strlit("kind");
        reveal_strlit("executor");
        reveal_strlit("target");
        reveal_strlit("method");
        reveal_strlit("payload");
        reveal_strlit("interval_ms");
        reveal_strlit("timeout_ms");
        reveal_strlit("credentials");
        assert("id"@.len() == 2);
        assert("priority"@.len() == 8);
        assert("tags"@.len() == 4);
        assert("kind"@.len() == 4);
        assert("executor"@.len() == 8);
        assert("target"@.len() == 6);
        assert("method"@.len() == 6);
        assert("payload"@.len() == 7);
        assert("interval_ms"@.len() == 11);
        assert("timeout_ms"@.len() == 10);
        assert("credentials"@.len() == 11);
        assert("priority"@[0] != "executor"@[0]);
        assert("tags"@[0] != "kind"@[0]);
        assert("target"@[0] != "method"@[0]);
        assert("interval_ms"@[0] != "credentials"@[0]);
        Uuid::law_reads_what_it_writes(m.id, "id"@, form);
        Priority::law_reads_what_it_writes(m.priority, "priority"@, form);
        StringMap::law_reads_what_it_writes(m.tags, "tags"@, form);
        ExecKind::law_reads_what_it_writes(m.kind, "kind"@, form);
        Executor::law_reads_what_it_writes(m.executor, "executor"@, form);
        wire::lemma_optional_reads_back::<String>(m.target, "target"@, form);
        wire::lemma_optional_reads_back::<String>(m.method, "method"@, form);
        Json::law_reads_what_it_writes(m.payload, "payload"@, form);
        wire::lemma_optional_reads_back::<u64>(m.interval_ms, "interval_ms"@, form);
        u64::law_reads_what_it_writes(m.timeout_ms, "timeout_ms"@, form);
        Vec::<CredentialRef>::law_reads_what_it_writes(m.credentials, "credentials"@, form);
        let t = ExecTask::tree(m);
        assert(t.field("id"@) == Some(Uuid::tree(m.id)));
        assert(t.field("priority"@) == Some(Priority::tree(m.priority)));
        assert(t.field("tags"@) == Some(StringMap::tree(m.tags)));
        assert(t.field("kind"@) == Some(ExecKind::tree(m.kind)));
        assert(t.field("executor"@) == Some(Executor::tree(m.executor)));
        assert(t.field("target"@) == wire::optional_tree::<String>(m.target));
        assert(t.field("method"@) == wire::optional_tree::<String>(m.method));
        assert(t.field("payload"@) == Some(Json::tree(m.payload)));
        assert(t.field("interval_ms"@) == wire::optional_tree::<u64>(m.interval_ms));
        assert(t.field("timeout_ms"@) == Some(u64::tree(m.timeout_ms)));
        assert(t.field("credentials"@) == Some(Vec::<CredentialRef>::tree(m.credentials)));
    }

    proof fn law_fits(m: ExecTaskModel, depth: nat) {
        let inner = (depth - 1) as nat;
        let o = Map::<Seq<char>, JsonView>::empty();
        Uuid::law_fits(m.id, inner);
        let v = Uuid::tree(m.id);
        json::lemma_insert_within(o, "id"@, v, inner);
        let o = o.insert("id"@, v);
        Priority::law_fits(m.priority, inner);
        let v = Priority::tree(m.priority);
        json::lemma_insert_within(o, "priority"@, v, inner);
        let o = o.insert("priority"@, v);
        StringMap::law_fits(m.tags, inner);
        let v = StringMap::tree(m.tags);
        json::lemma_insert_within(o, "tags"@, v, inner);
        let o = o.insert("tags"@, v);
        ExecKind::law_fits(m.kind, inner);
        let v = ExecKind::tree(m.kind);
        json::lemma_insert_within(o, "kind"@, v, inner);
        let o = o.insert("kind"@, v);
        Executor::law_fits(m.executor, inner);
        let v = Executor::tree(m.executor);
        json::lemma_insert_within(o, "executor"@, v, inner);
        let o = o.insert("executor"@, v);
        wire::lemma_optional_within::<String>(o, "target"@, m.target, inner);
        let o = wire::with_optional::<String>(o, "target"@, m.target);
        wire::lemma_optional_within::<String>(o, "method"@, m.method, inner);
        let o = wire::with_optional::<String>(o, "method"@, m.method);
        Json::law_fits(m.payload, inner);
        let v = Json::tree(m.payload);
        json::lemma_insert_within(o, "payload"@, v, inner);
        let o = o.insert("payload"@, v);
        wire::lemma_optional_within::<u64>(o, "interval_ms"@, m.interval_ms, inner);
        let o = wire::with_optional::<u64>(o, "interval_ms"@, m.interval_ms);
        u64::law_fits(m.timeout_ms, inner);
        let v = u64::tree(m.timeout_ms);
        json::lemma_insert_within(o, "timeout_ms"@, v, inner);
        let o = o.insert("timeout_ms"@, v);
        Vec::<CredentialRef>::law_fits(m.credentials, inner);
        let v = Vec::<CredentialRef>::tree(m.credentials);
        json::lemma_insert_within(o, "credentials"@, v, inner);
        let o = o.insert("credentials"@, v);
    }
}

impl ExecTask {
    /// A member that names the variant does not disturb the others.
    proof fn lemma_tag_is_ignored(o: Map<Seq<char>, JsonView>, v: JsonView, at: Seq<char>, form: Form)
        ensures
            ExecTask::read(JsonView::Object(o.insert("type"@, v)), at, form) == ExecTask::read(
                JsonView::Object(o),
                at,
                form,
            ),
    {
        reveal_strlit("type");
        reveal_strlit("id");
        reveal_strlit("priority");
        reveal_strlit("tags");
        reveal_strlit("kind");
        reveal_strlit("executor");
        reveal_strlit("target");
        reveal_strlit("method");
        reveal_strlit("payload");
        reveal_strlit("interval_ms");
        reveal_strlit("timeout_ms");
        reveal_strlit("credentials");
        assert("type"@.len() == 4);
        assert("id"@.len() == 2);
        assert("priority"@.len() == 8);
        assert("tags"@.len() == 4);
        assert("kind"@.len() == 4);
        assert("executor"@.len() == 8);
        assert("target"@.len() == 6);
        assert("method"@.len() == 6);
        assert("payload"@.len() == 7);
        assert("interval_ms"@.len() == 11);
        assert("timeout_ms"@.len() == 10);
        assert("credentials"@.len() == 11);
        assert("tags"@[1] != "type"@[1]);
        assert("kind"@[0] != "type"@[0]);
        let t = JsonView::Object(o.insert("type"@, v));
        assert(t.field("id"@) == JsonView::Object(o).field("id"@));
        assert(t.field("priority"@) == JsonView::Object(o).field("priority"@));
        assert(t.field("tags"@) == JsonView::Object(o).field("tags"@));
        assert(t.field("kind"@) == JsonView::Object(o).field("kind"@));
        assert(t.field("executor"@) == JsonView::Object(o).field("executor"@));
        assert(t.field("target"@) == JsonView::Object(o).field("target"@));
        assert(t.field("method"@) == JsonView::Object(o).field("method"@));
        assert(t.field("payload"@) == JsonView::Object(o).field("payload"@));
        assert(t.field("interval_ms"@) == JsonView::Object(o).field("interval_ms"@));
        assert(t.field("timeout_ms"@) == JsonView::Object(o).field("timeout_ms"@));
        assert(t.field("credentials"@) == JsonView::Object(o).field("credentials"@));
    }
}

/// Stops a task that is under way.
#[derive(Debug, Clone, PartialEq)]
pub struct CancelTask {
    /// The task.
    pub id: Uuid,
    /// How urgent it is.
    pub priority: Priority,
    /// Labels of the control plane.
    pub tags: StringMap,
    /// The task to stop.
    pub target_task_id: Uuid,
}

/// What a value of [`CancelTask`] is.
#[verifier::ext_equal]
pub struct CancelTaskModel {
    pub id: Uuid,
    pub priority: Priority,
    pub tags: Map<Seq<char>, Seq<char>>,
    pub target_task_id: Uuid,
}

impl Wire for CancelTask {
    type Model = CancelTaskModel;

    open spec fn model(&self) -> CancelTaskModel {
        CancelTaskModel {
            id: self.id.model(),
            priority: self.priority.model(),
            tags: self.tags.model(),
            target_task_id: self.target_task_id.model(),
        }
    }

    open spec fn tree(m: CancelTaskModel) -> JsonView {
        let o = Map::<Seq<char>, JsonView>::empty();
        let o = o.insert("id"@, Uuid::tree(m.id));
        let o = o.insert("priority"@, Priority::tree(m.priority));
        let o = o.insert("tags"@, StringMap::tree(m.tags));
        let o = o.insert("target_task_id"@, Uuid::tree(m.target_task_id));
        JsonView::Object(o)
    }

    open spec fn read(t: JsonView, at: Seq<char>, form: Form) -> Result<CancelTaskModel, Fault> {
        let t = wire::unlisted(t, seq!["id"@, "priority"@, "tags"@, "target_task_id"@], 4, form);
        let id = wire::read_required::<Uuid>(t, "id"@, form);
        let priority = wire::read_or::<Priority>(t, "priority"@, Priority::Normal, form);
        let tags = wire::read_or::<StringMap>(t, "tags"@, Map::<Seq<char>, Seq<char>>::empty(), form);
        let target_task_id = wire::read_required::<Uuid>(t, "target_task_id"@, form);
        if !(t is Object) {
            Err(Fault::Invalid(at))
        } else if id is Err {
            Err(id->Err_0)
        } else if priority is Err {
            Err(priority->Err_0)
        } else if tags is Err {
            Err(tags->Err_0)
        } else if target_task_id is Err {
            Err(target_task_id->Err_0)
        } else {
            Ok(CancelTaskModel {
                id: id->Ok_0,
                priority: priority->Ok_0,
                tags: tags->Ok_0,
                target_task_id: target_task_id->Ok_0,
            })
        }
    }

    open spec fn lossless(m: CancelTaskModel) -> bool {
        &&& Uuid::lossless(m.id)
        &&& Priority::lossless(m.priority)
        &&& StringMap::lossless(m.tags)
        &&& Uuid::lossless(m.target_task_id)
    }

    open spec fn fits(m: CancelTaskModel, depth: nat) -> bool {
        &&& depth > 0
        &&& Uuid::fits(m.id, (depth - 1) as nat)
        &&& Priority::fits(m.priority, (depth - 1) as nat)
        &&& StringMap::fits(m.tags, (depth - 1) as nat)
        &&& Uuid::fits(m.target_task_id, (depth - 1) as nat)
    }

    fn to_json(&self) -> (r: Json) {
        let mut o = JsonObject::new();
        o.set("id", self.id.to_json());
        o.set("priority", self.priority.to_json());
        o.set("tags", self.tags.to_json());
        o.set("target_task_id", self.target_task_id.to_json());
        o.finish()
    }

    fn from_json(j: &Json, at: &str, form: Form) -> (r: Result<CancelTask, DecodeError>) {
        let names = ["id", "priority", "tags", "target_task_id"];
        let listed = wire::unlist(j, &names, 4, form);
        let j = match &listed {
            Some(o) => o,
            None => j,
        };
        proof {
            assert(wire::strs(names@) =~= seq!["id"@, "priority"@, "tags"@, "target_task_id"@]);
        }
        if !j.is_object() {
            return Err(DecodeError::Invalid(at.to_owned()));
        }
        let id = match wire::required::<Uuid>(j, "id", form) {
            Ok(x) => x,
            Err(e) => return Err(e),
        };
        let priority = match wire::defaulted::<Priority>(j, "priority", Priority::Normal, form) {
            Ok(x) => x,
            Err(e) => return Err(e),
        };
        let tags = match wire::defaulted::<StringMap>(j, "tags", StringMap::new(), form) {
            Ok(x) => x,
            Err(e) => return Err(e),
        };
        let target_task_id = match wire::required::<Uuid>(j, "target_task_id", form) {
            Ok(x) => x,
            Err(e) => return Err(e),
        };
        Ok(CancelTask { id, priority, tags, target_task_id })
    }

    proof fn law_reads_what_it_writes(m: CancelTaskModel, at: Seq<char>, form: Form) {
        reveal_strlit("id");
        reveal_strlit("priority");
        reveal_strlit("tags");
        reveal_strlit("target_task_id");
        assert("id"@.len() == 2);
        assert("priority"@.len() == 8);
        assert("tags"@.len() == 4);
        assert("target_task_id"@.len() == 14);
        Uuid::law_reads_what_it_writes(m.id, "id"@, form);
        Priority::law_reads_what_it_writes(m.priority, "priority"@, form);
        StringMap::law_reads_what_it_writes(m.tags, "tags"@, form);
        Uuid::law_reads_what_it_writes(m.target_task_id, "target_task_id"@, form);
        let t = CancelTask::tree(m);
        assert(t.field("id"@) == Some(Uuid::tree(m.id)));
        assert(t.field("priority"@) == Some(Priority::tree(m.priority)));
        assert(t.field("tags"@) == Some(StringMap::tree(m.tags)));
        assert(t.field("target_task_id"@) == Some(Uuid::tree(m.target_task_id)));
    }

    proof fn law_fits(m: CancelTaskModel, depth: nat) {
        let inner = (depth - 1) as nat;
        let o = Map::<Seq<char>, JsonView>::empty();
        Uuid::law_fits(m.id, inner);
        let v = Uuid::tree(m.id);
        json::lemma_insert_within(o, "id"@, v, inner);
        let o = o.insert("id"@, v);
        Priority::law_fits(m.priority, inner);
        let v = Priority::tree(m.priority);
        json::lemma_insert_within(o, "priority"@, v, inner);
        let o = o.insert("priority"@, v);
        StringMap::law_fits(m.tags, inner);
        let v = StringMap::tree(m.tags);
        json::lemma_insert_within(o, "tags"@, v, inner);
        let o = o.insert("tags"@, v);
        Uuid::law_fits(m.target_task_id, inner);
        let v = Uuid::tree(m.target_task_id);
        json::lemma_insert_within(o, "target_task_id"@, v, inner);
        let o = o.insert("target_task_id"@, v);
    }
}

impl CancelTask {
    /// A member that names the variant does not disturb the others.
    proof fn lemma_tag_is_ignored(o: Map<Seq<char>, JsonView>, v: JsonView, at: Seq<char>, form: Form)
        ensures
            CancelTask::read(JsonView::Object(o.insert("type"@, v)), at, form) == CancelTask::read(
                JsonView::Object(o),
                at,
                form,
            ),
    {
        reveal_strlit("type");
        reveal_strlit("id");
        reveal_strlit("priority");
        reveal_strlit("tags");
        reveal_strlit("target_task_id");
        assert("type"@.len() == 4);
        assert("id"@.len() == 2);
        assert("priority"@.len() == 8);
        assert("tags"@.len() == 4);
        assert("target_task_id"@.len() == 14);
        assert("tags"@[1] != "type"@[1]);
        let t = JsonView::Object(o.insert("type"@, v));
        assert(t.field("id"@) == JsonView::Object(o).field("id"@));
        assert(t.field("priority"@) == JsonView::Object(o).field("priority"@));
        assert(t.field("tags"@) == JsonView::Object(o).field("tags"@));
        assert(t.field("target_task_id"@) == JsonView::Object(o).field("target_task_id"@));
    }
}

/// Installs a managed unit.
#[derive(Debug, Clone, PartialEq)]
pub struct InstallTask {
    /// The task.
    pub id: Uuid,
    /// How urgent it is.
    pub priority: Priority,
    /// Labels of the control plane.
    pub tags: StringMap,
    /// The unit.
    pub unit: ManagedUnit,
}

/// What a value of [`InstallTask`] is.
#[verifier::ext_equal]
pub struct InstallTaskModel {
    pub id: Uuid,
    pub priority: Priority,
    pub tags: Map<Seq<char>, Seq<char>>,
    pub unit: ManagedUnitModel,
}

impl Wire for InstallTask {
    type Model = InstallTaskModel;

    open spec fn model(&self) -> InstallTaskModel {
        InstallTaskModel {
            id: self.id.model(),
            priority: self.priority.model(),
            tags: self.tags.model(),
            unit: self.unit.model(),
        }
    }

    open spec fn tree(m: InstallTaskModel) -> JsonView {
        let o = Map::<Seq<char>, JsonView>::empty();
        let o = o.insert("id"@, Uuid::tree(m.id));
        let o = o.insert("priority"@, Priority::tree(m.priority));
        let o = o.insert("tags"@, StringMap::tree(m.tags));
        let o = o.insert("unit"@, ManagedUnit::tree(m.unit));
        JsonView::Object(o)
    }

    open spec fn read(t: JsonView, at: Seq<char>, form: Form) -> Result<InstallTaskModel, Fault> {
        let t = wire::unlisted(t, seq!["id"@, "priority"@, "tags"@, "unit"@], 4, form);
        let id = wire::read_required::<Uuid>(t, "id"@, form);
        let priority = wire::read_or::<Priority>(t, "priority"@, Priority::Normal, form);
        let tags = wire::read_or::<StringMap>(t, "tags"@, Map::<Seq<char>, Seq<char>>::empty(), form);
        let unit = wire::read_required::<ManagedUnit>(t, "unit"@, form);
        if !(t is Object) {
            Err(Fault::Invalid(at))
        } else if id is Err {
            Err(id->Err_0)
        } else if priority is Err {
            Err(priority->Err_0)
        } else if tags is Err {
            Err(tags->Err_0)
        } else if unit is Err {
            Err(unit->Err_0)
        } else {
            Ok(InstallTaskModel {
                id: id->Ok_0,
                priority: priority->Ok_0,
                tags: tags->Ok_0,
                unit: unit->Ok_0,
            })
        }
    }

    open spec fn lossless(m: InstallTaskModel) -> bool {
        &&& Uuid::lossless(m.id)
        &&& Priority::lossless(m.priority)
        &&& StringMap::lossless(m.tags)
        &&& ManagedUnit::lossless(m.unit)
    }

    open spec fn fits(m: InstallTaskModel, depth: nat) -> bool {
        &&& depth > 0
        &&& Uuid::fits(m.id, (depth - 1) as nat)
        &&& Priority::fits(m.priority, (depth - 1) as nat)
        &&& StringMap::fits(m.tags, (depth - 1) as nat)
        &&& ManagedUnit::fits(m.unit, (depth - 1) as nat)
    }

    fn to_json(&self) -> (r: Json) {
        let mut o = JsonObject::new();
        o.set("id", self.id.to_json());
        o.set("priority", self.priority.to_json());
        o.set("tags", self.tags.to_json());
        o.set("unit", self.unit.to_json());
        o.finish()
    }

    fn from_json(j: &Json, at: &str, form: Form) -> (r: Result<InstallTask, DecodeError>) {
        let names = ["id", "priority", "tags", "unit"];
        let listed = wire::unlist(j, &names, 4, form);
        let j = match &listed {
            Some(o) => o,
            None => j,
        };
        proof {
            assert(wire::strs(names@) =~= seq!["id"@, "priority"@, "tags"@, "unit"@]);
        }
        if !j.is_object() {
            return Err(DecodeError::Invalid(at.to_owned()));
        }
        let id = match wire::required::<Uuid>(j, "id", form) {
            Ok(x) => x,
            Err(e) => return Err(e),
        };
        let priority = match wire::defaulted::<Priority>(j, "priority", Priority::Normal, form) {
            Ok(x) => x,
            Err(e) => return Err(e),
        };
        let tags = match wire::defaulted::<StringMap>(j, "tags", StringMap::new(), form) {
            Ok(x) => x,
            Err(e) => return Err(e),
        };
        let unit = match wire::required::<ManagedUnit>(j, "unit", form) {
            Ok(x) => x,
            Err(e) => return Err(e),
        };
        Ok(InstallTask { id, priority, tags, unit })
    }

    proof fn law_reads_what_it_writes(m: InstallTaskModel, at: Seq<char>, form: Form) {
        reveal_strlit("id");
        reveal_strlit("priority");
        reveal_strlit("tags");
        reveal_strlit("unit");
        assert("id"@.len() == 2);
        assert("priority"@.len() == 8);
        assert("tags"@.len() == 4);
        assert("unit"@.len() == 4);
        assert("tags"@[0] != "unit"@[0]);
        Uuid::law_reads_what_it_writes(m.id, "id"@, form);
        Priority::law_reads_what_it_writes(m.priority, "priority"@, form);
        StringMap::law_reads_what_it_writes(m.tags, "tags"@, form);
        ManagedUnit::law_reads_what_it_writes(m.unit, "unit"@, form);
        let t = InstallTask::tree(m);
        assert(t.field("id"@) == Some(Uuid::tree(m.id)));
        assert(t.field("priority"@) == Some(Priority::tree(m.priority)));
        assert(t.field("tags"@) == Some(StringMap::tree(m.tags)));
        assert(t.field("unit"@) == Some(ManagedUnit::tree(m.unit)));
    }

    proof fn law_fits(m: InstallTaskModel, depth: nat) {
        let inner = (depth - 1) as nat;
        let o = Map::<Seq<char>, JsonView>::empty();
        Uuid::law_fits(m.id, inner);
        let v = Uuid::tree(m.id);
        json::lemma_insert_within(o, "id"@, v, inner);
        let o = o.insert("id"@, v);
        Priority::law_fits(m.priority, inner);
        let v = Priority::tree(m.priority);
        json::lemma_insert_within(o, "priority"@, v, inner);
        let o = o.insert("priority"@, v);
        StringMap::law_fits(m.tags, inner);
        let v = StringMap::tree(m.tags);
        json::lemma_insert_within(o, "tags"@, v, inner);
        let o = o.insert("tags"@, v);
        ManagedUnit::law_fits(m.unit, inner);
        let v = ManagedUnit::tree(m.unit);
        json::lemma_insert_within(o, "unit"@, v, inner);
        let o = o.insert("unit"@, v);
    }
}

impl InstallTask {
    /// A member that names the variant does not disturb the others.
    proof fn lemma_tag_is_ignored(o: Map<Seq<char>, JsonView>, v: JsonView, at: Seq<char>, form: Form)
        ensures
            InstallTask::read(JsonView::Object(o.insert("type"@, v)), at, form) == InstallTask::read(
                JsonView::Object(o),
                at,
                form,
            ),
    {
        reveal_strlit("type");
        reveal_strlit("id");
        reveal_strlit("priority");
        reveal_strlit("tags");
        reveal_strlit("unit");
        assert("type"@.len() == 4);
        assert("id"@.len() == 2);
        assert("priority"@.len() == 8);
        assert("tags"@.len() == 4);
        assert("unit"@.len() == 4);
        assert("tags"@[1] != "type"@[1]);
        assert("unit"@[0] != "type"@[0]);
        let t = JsonView::Object(o.insert("type"@, v));
        assert(t.field("id"@) == JsonView::Object(o).field("id"@));
        assert(t.field("priority"@) == JsonView::Object(o).field("priority"@));
        assert(t.field("tags"@) == JsonView::Object(o).field("tags"@));
        assert(t.field("unit"@) == JsonView::Object(o).field("unit"@));
    }
}

/// What to go back to when an upgrade fails.
#[derive(Debug, Clone, PartialEq)]
pub struct RollbackSpec {
    /// The version.
    pub version: String,
    /// Where that version comes from.
    pub artifact: Artifact,
}

/// What a value of [`RollbackSpec`] is.
#[verifier::ext_equal]
pub struct RollbackSpecModel {
    pub version: Seq<char>,
    pub artifact: ArtifactModel,
}

impl Wire for RollbackSpec {
    type Model = RollbackSpecModel;

    open spec fn model(&self) -> RollbackSpecModel {
        RollbackSpecModel {
            version: self.version.model(),
            artifact: self.artifact.model(),
        }
    }

    open spec fn tree(m: RollbackSpecModel) -> JsonView {
        let o = Map::<Seq<char>, JsonView>::empty();
        let o = o.insert("version"@, String::tree(m.version));
        let o = o.insert("artifact"@, Artifact::tree(m.artifact));
        JsonView::Object(o)
    }

    open spec fn read(t: JsonView, at: Seq<char>, form: Form) -> Result<RollbackSpecModel, Fault> {
        let t = wire::unlisted(t, seq!["version"@, "artifact"@], 2, form);
        let version = wire::read_required::<String>(t, "version"@, form);
        let artifact = wire::read_required::<Artifact>(t, "artifact"@, form);
        if !(t is Object) {
            Err(Fault::Invalid(at))
        } else if version is Err {
            Err(version->Err_0)
        } else if artifact is Err {
            Err(artifact->Err_0)
        } else {
            Ok(RollbackSpecModel {
                version: version->Ok_0,
                artifact: artifact->Ok_0,
            })
        }
    }

    open spec fn lossless(m: RollbackSpecModel) -> bool {
        &&& String::lossless(m.version)
        &&& Artifact::lossless(m.artifact)
    }

    open spec fn fits(m: RollbackSpecModel, depth: nat) -> bool {
        &&& depth > 0
        &&& String::fits(m.version, (depth - 1) as nat)
        &&& Artifact::fits(m.artifact, (depth - 1) as nat)
    }

    fn to_json(&self) -> (r: Json) {
        let mut o = JsonObject::new();
        o.set("version", self.version.to_json());
        o.set("artifact", self.artifact.to_json());
        o.finish()
    }

    fn from_json(j: &Json, at: &str, form: Form) -> (r: Result<RollbackSpec, DecodeError>) {
        let names = ["version", "artifact"];
        let listed = wire::unlist(j, &names, 2, form);
        let j = match &listed {
            Some(o) => o,
            None => j,
        };
        proof {
            assert(wire::strs(names@) =~= seq!["version"@, "artifact"@]);
        }
        if !j.is_object() {
            return Err(DecodeError::Invalid(at.to_owned()));
        }
        let version = match wire::required::<String>(j, "version", form) {
            Ok(x) => x,
            Err(e) => return Err(e),
        };
        let artifact = match wire::required::<Artifact>(j, "artifact", form) {
            Ok(x) => x,
            Err(e) => return Err(e),
        };
        Ok(RollbackSpec { version, artifact })
    }

    proof fn law_reads_what_it_writes(m: RollbackSpecModel, at: Seq<char>, form: Form) {
        reveal_strlit("version");
        reveal_strlit("artifact");
        assert("version"@.len() == 7);
        assert("artifact"@.len() == 8);
        String::law_reads_what_it_writes(m.version, "version"@, form);
        Artifact::law_reads_what_it_writes(m.artifact, "artifact"@, form);
        let t = RollbackSpec::tree(m);
        assert(t.field("version"@) == Some(String::tree(m.version)));
        assert(t.field("artifact"@) == Some(Artifact::tree(m.artifact)));
    }

    proof fn law_fits(m: RollbackSpecModel, depth: nat) {
        let inner = (depth - 1) as nat;
        let o = Map::<Seq<char>, JsonView>::empty();
        String::law_fits(m.version, inner);
        let v = String::tree(m.version);
        json::lemma_insert_within(o, "version"@, v, inner);
        let o = o.insert("version"@, v);
        Artifact::law_fits(m.artifact, inner);
        let v = Artifact::tree(m.artifact);
        json::lemma_insert_within(o, "artifact"@, v, inner);
        let o = o.insert("artifact"@, v);
    }
}

/// Brings a managed unit to another version.
#[derive(Debug, Clone, PartialEq)]
pub struct UpgradeTask {
    /// The task.
    pub id: Uuid,
    /// How urgent it is.
    pub priority: Priority,
    /// Labels of the control plane.
    pub tags: StringMap,
    /// The unit.
    pub unit_name: String,
    /// The version it is to have.
    pub target_version: String,
    /// Where that version comes from.
    pub artifact: Artifact,
    /// What to go back to.
    pub rollback: Option<RollbackSpec>,
}

/// What a value of [`UpgradeTask`] is.
#[verifier::ext_equal]
pub struct UpgradeTaskModel {
    pub id: Uuid,
    pub priority: Priority,
    pub tags: Map<Seq<char>, Seq<char>>,
    pub unit_name: Seq<char>,
    pub target_version: Seq<char>,
    pub artifact: ArtifactModel,
    pub rollback: Option<RollbackSpecModel>,
}

impl Wire for UpgradeTask {
    type Model = UpgradeTaskModel;

    open spec fn model(&self) -> UpgradeTaskModel {
        UpgradeTaskModel {
            id: self.id.model(),
            priority: self.priority.model(),
            tags: self.tags.model(),
            unit_name: self.unit_name.model(),
            target_version: self.target_version.model(),
            artifact: self.artifact.model(),
            rollback: wire::optional_model(self.rollback),
        }
    }

    open spec fn tree(m: UpgradeTaskModel) -> JsonView {
        let o = Map::<Seq<char>, JsonView>::empty();
        let o = o.insert("id"@, Uuid::tree(m.id));
        let o = o.insert("priority"@, Priority::tree(m.priority));
        let o = o.insert("tags"@, StringMap::tree(m.tags));
        let o = o.insert("unit_name"@, String::tree(m.unit_name));
        let o = o.insert("target_version"@, String::tree(m.target_version));
        let o = o.insert("artifact"@, Artifact::tree(m.artifact));
        let o = wire::with_optional::<RollbackSpec>(o, "rollback"@, m.rollback);
        JsonView::Object(o)
    }

    open spec fn read(t: JsonView, at: Seq<char>, form: Form) -> Result<UpgradeTaskModel, Fault> {
        let t = wire::unlisted(
            t,
            seq![
                "id"@,
                "priority"@,
                "tags"@,
                "unit_name"@,
                "target_version"@,
                "artifact"@,
                "rollback"@,
            ],
            6,
            form,
        );
        let id = wire::read_required::<Uuid>(t, "id"@, form);
        let priority = wire::read_or::<Priority>(t, "priority"@, Priority::Normal, form);
        let tags = wire::read_or::<StringMap>(t, "tags"@, Map::<Seq<char>, Seq<char>>::empty(), form);
        let unit_name = wire::read_required::<String>(t, "unit_name"@, form);
        let target_version = wire::read_required::<String>(t, "target_version"@, form);
        let artifact = wire::read_required::<Artifact>(t, "artifact"@, form);
        let rollback = wire::read_optional::<RollbackSpec>(t, "rollback"@, form);
        if !(t is Object) {
            Err(Fault::Invalid(at))
        } else if id is Err {
            Err(id->Err_0)
        } else if priority is Err {
            Err(priority->Err_0)
        } else if tags is Err {
            Err(tags->Err_0)
        } else if unit_name is Err {
            Err(unit_name->Err_0)
        } else if target_version is Err {
            Err(target_version->Err_0)
        } else if artifact is Err {
            Err(artifact->Err_0)
        } else if rollback is Err {
            Err(rollback->Err_0)
        } else {
            Ok(UpgradeTaskModel {
                id: id->Ok_0,
                priority: priority->Ok_0,
                tags: tags->Ok_0,
                unit_name: unit_name->Ok_0,
                target_version: target_version->Ok_0,
                artifact: artifact->Ok_0,
                rollback: rollback->Ok_0,
            })
        }
    }

    open spec fn lossless(m: UpgradeTaskModel) -> bool {
        &&& Uuid::lossless(m.id)
        &&& Priority::lossless(m.priority)
        &&& StringMap::lossless(m.tags)
        &&& String::lossless(m.unit_name)
        &&& String::lossless(m.target_version)
        &&& Artifact::lossless(m.artifact)
        &&& wire::optional_lossless::<RollbackSpec>(m.rollback)
    }

    open spec fn fits(m: UpgradeTaskModel, depth: nat) -> bool {
        &&& depth > 0
        &&& Uuid::fits(m.id, (depth - 1) as nat)
        &&& Priority::fits(m.priority, (depth - 1) as nat)
        &&& StringMap::fits(m.tags, (depth - 1) as nat)
        &&& String::fits(m.unit_name, (depth - 1) as nat)
        &&& String::fits(m.target_version, (depth - 1) as nat)
        &&& Artifact::fits(m.artifact, (depth - 1) as nat)
        &&& wire::optional_fits::<RollbackSpec>(m.rollback, (depth - 1) as nat)
    }

    fn to_json(&self) -> (r: Json) {
        let mut o = JsonObject::new();
        o.set("id", self.id.to_json());
        o.set("priority", self.priority.to_json());
        o.set("tags", self.tags.to_json());
        o.set("unit_name", self.unit_name.to_json());
        o.set("target_version", self.target_version.to_json());
        o.set("artifact", self.artifact.to_json());
        wire::set_optional(&mut o, "rollback", &self.rollback);
        o.finish()
    }

    fn from_json(j: &Json, at: &str, form: Form) -> (r: Result<UpgradeTask, DecodeError>) {
        let names = [
            "id",
            "priority",
            "tags",
            "unit_name",
            "target_version",
            "artifact",
            "rollback",
        ];
        let listed = wire::unlist(j, &names, 6, form);
        let j = match &listed {
            Some(o) => o,
            None => j,
        };
        proof {
            assert(wire::strs(names@) =~= seq![
                "id"@,
                "priority"@,
                "tags"@,
                "unit_name"@,
                "target_version"@,
                "artifact"@,
                "rollback"@,
            ]);
        }
        if !j.is_object() {
            return Err(DecodeError::Invalid(at.to_owned()));
        }
        let id = match wire::required::<Uuid>(j, "id", form) {
            Ok(x) => x,
            Err(e) => return Err(e),
        };
        let priority = match wire::defaulted::<Priority>(j, "priority", Priority::Normal, form) {
            Ok(x) => x,
            Err(e) => return Err(e),
        };
        let tags = match wire::defaulted::<StringMap>(j, "tags", StringMap::new(), form) {
            Ok(x) => x,
            Err(e) => return Err(e),
        };
        let unit_name = match wire::required::<String>(j, "unit_name", form) {
            Ok(x) => x,
            Err(e) => return Err(e),
        };
        let target_version = match wire::required::<String>(j, "target_version", form) {
            Ok(x) => x,
            Err(e) => return Err(e),
        };
        let artifact = match wire::required::<Artifact>(j, "artifact", form) {
            Ok(x) => x,
            Err(e) => return Err(e),
        };
        let rollback = match wire::optional::<RollbackSpec>(j, "rollback", form) {
            Ok(x) => x,
            Err(e) => return Err(e),
        };
        Ok(UpgradeTask { id, priority, tags, unit_name, target_version, artifact, rollback })
    }

    proof fn law_reads_what_it_writes(m: UpgradeTaskModel, at: Seq<char>, form: Form) {
        reveal_strlit("id");
        reveal_strlit("priority");
        reveal_strlit("tags");
        reveal_strlit("unit_name");
        reveal_strlit("target_version");
        reveal_strlit("artifact");
        reveal_strlit("rollback");
        assert("id"@.len() == 2);
        assert("priority"@.len() == 8);
        assert("tags"@.len() == 4);
        assert("unit_name"@.len() == 9);
        assert("target_version"@.len() == 14);
        assert("artifact"@.len() == 8);
        assert("rollback"@.len() == 8);
        assert("priority"@[0] != "artifact"@[0]);
        assert("priority"@[0] != "rollback"@[0]);
        assert("artifact"@[0] != "rollback"@[0]);
        Uuid::law_reads_what_it_writes(m.id, "id"@, form);
        Priority::law_reads_what_it_writes(m.priority, "priority"@, form);
        StringMap::law_reads_what_it_writes(m.tags, "tags"@, form);
        String::law_reads_what_it_writes(m.unit_name, "unit_name"@, form);
        String::law_reads_what_it_writes(m.target_version, "target_version"@, form);
        Artifact::law_reads_what_it_writes(m.artifact, "artifact"@, form);
        wire::lemma_optional_reads_back::<RollbackSpec>(m.rollback, "rollback"@, form);
        let t = UpgradeTask::tree(m);
        assert(t.field("id"@) == Some(Uuid::tree(m.id)));
        assert(t.field("priority"@) == Some(Priority::tree(m.priority)));
        assert(t.field("tags"@) == Some(StringMap::tree(m.tags)));
        assert(t.field("unit_name"@) == Some(String::tree(m.unit_name)));
        assert(t.field("target_version"@) == Some(String::tree(m.target_version)));
        assert(t.field("artifact"@) == Some(Artifact::tree(m.artifact)));
        assert(t.field("rollback"@) == wire::optional_tree::<RollbackSpec>(m.rollback));
    }

    proof fn law_fits(m: UpgradeTaskModel, depth: nat) {
        let inner = (depth - 1) as nat;
        let o = Map::<Seq<char>, JsonView>::empty();
        Uuid::law_fits(m.id, inner);
        let v = Uuid::tree(m.id);
        json::lemma_insert_within(o, "id"@, v, inner);
        let o = o.insert("id"@, v);
        Priority::law_fits(m.priority, inner);
        let v = Priority::tree(m.priority);
        json::lemma_insert_within(o, "priority"@, v, inner);
        let o = o.insert("priority"@, v);
        StringMap::law_fits(m.tags, inner);
        let v = StringMap::tree(m.tags);
        json::lemma_insert_within(o, "tags"@, v, inner);
        let o = o.insert("tags"@, v);
        String::law_fits(m.unit_name, inner);
        let v = String::tree(m.unit_name);
        json::lemma_insert_within(o, "unit_name"@, v, inner);
        let o = o.insert("unit_name"@, v);
        String::law_fits(m.target_version, inner);
        let v = String::tree(m.target_version);
        json::lemma_insert_within(o, "target_version"@, v, inner);
        let o = o.insert("target_version"@, v);
        Artifact::law_fits(m.artifact, inner);
        let v = Artifact::tree(m.artifact);
        json::lemma_insert_within(o, "artifact"@, v, inner);
        let o = o.insert("artifact"@, v);
        wire::lemma_optional_within::<RollbackSpec>(o, "rollback"@, m.rollback, inner);
        let o = wire::with_optional::<RollbackSpec>(o, "rollback"@, m.rollback);
    }
}

impl UpgradeTask {
    /// A member that names the variant does not disturb the others.
    proof fn lemma_tag_is_ignored(o: Map<Seq<char>, JsonView>, v: JsonView, at: Seq<char>, form: Form)
        ensures
            UpgradeTask::read(JsonView::Object(o.insert("type"@, v)), at, form) == UpgradeTask::read(
                JsonView::Object(o),
                at,
                form,
            ),
    {
        reveal_strlit("type");
        reveal_strlit("id");
        reveal_strlit("priority");
        reveal_strlit("tags");
        reveal_strlit("unit_name");
        reveal_strlit("target_version");
        reveal_strlit("artifact");
        reveal_strlit("rollback");
        assert("type"@.len() == 4);
        assert("id"@.len() == 2);
        assert("priority"@.len() == 8);
        assert("tags"@.len() == 4);
        assert("unit_name"@.len() == 9);
        assert("target_version"@.len() == 14);
        assert("artifact"@.len() == 8);
        assert("rollback"@.len() == 8);
        assert("tags"@[1] != "type"@[1]);
        let t = JsonView::Object(o.insert("type"@, v));
        assert(t.field("id"@) == JsonView::Object(o).field("id"@));
        assert(t.field("priority"@) == JsonView::Object(o).field("priority"@));
        assert(t.field("tags"@) == JsonView::Object(o).field("tags"@));
        assert(t.field("unit_name"@) == JsonView::Object(o).field("unit_name"@));
        assert(t.field("target_version"@) == JsonView::Object(o).field("target_version"@));
        assert(t.field("artifact"@) == JsonView::Object(o).field("artifact"@));
        assert(t.field("rollback"@) == JsonView::Object(o).field("rollback"@));
    }
}

/// Removes a managed unit.
#[derive(Debug, Clone, PartialEq)]
pub struct RemoveTask {
    /// The task.
    pub id: Uuid,
    /// How urgent it is.
    pub priority: Priority,
    /// Labels of the control plane.
    pub tags: StringMap,
    /// The unit.
    pub unit_name: String,
    /// Whether its files go too.
    pub purge: bool,
}

/// What a value of [`RemoveTask`] is.
#[verifier::ext_equal]
pub struct RemoveTaskModel {
    pub id: Uuid,
    pub priority: Priority,
    pub tags: Map<Seq<char>, Seq<char>>,
    pub unit_name: Seq<char>,
    pub purge: bool,
}

impl Wire for RemoveTask {
    type Model = RemoveTaskModel;

    open spec fn model(&self) -> RemoveTaskModel {
        RemoveTaskModel {
            id: self.id.model(),
            priority: self.priority.model(),
            tags: self.tags.model(),
            unit_name: self.unit_name.model(),
            purge: self.purge.model(),
        }
    }

    open spec fn tree(m: RemoveTaskModel) -> JsonView {
        let o = Map::<Seq<char>, JsonView>::empty();
        let o = o.insert("id"@, Uuid::tree(m.id));
        let o = o.insert("priority"@, Priority::tree(m.priority));
        let o = o.insert("tags"@, StringMap::tree(m.tags));
        let o = o.insert("unit_name"@, String::tree(m.unit_name));
        let o = o.insert("purge"@, bool::tree(m.purge));
        JsonView::Object(o)
    }

    open spec fn read(t: JsonView, at: Seq<char>, form: Form) -> Result<RemoveTaskModel, Fault> {
        let t = wire::unlisted(
            t,
            seq!["id"@, "priority"@, "tags"@, "unit_name"@, "purge"@],
            4,
            form,
        );
        let id = wire::read_required::<Uuid>(t, "id"@, form);
        let priority = wire::read_or::<Priority>(t, "priority"@, Priority::Normal, form);
        let tags = wire::read_or::<StringMap>(t, "tags"@, Map::<Seq<char>, Seq<char>>::empty(), form);
        let unit_name = wire::read_required::<String>(t, "unit_name"@, form);
        let purge = wire::read_or::<bool>(t, "purge"@, false, form);
        if !(t is Object) {
            Err(Fault::Invalid(at))
        } else if id is Err {
            Err(id->Err_0)
        } else if priority is Err {
            Err(priority->Err_0)
        } else if tags is Err {
            Err(tags->Err_0)
        } else if unit_name is Err {
            Err(unit_name->Err_0)
        } else if purge is Err {
            Err(purge->Err_0)
        } else {
            Ok(RemoveTaskModel {
                id: id->Ok_0,
                priority: priority->Ok_0,
                tags: tags->Ok_0,
                unit_name: unit_name->Ok_0,
                purge: purge->Ok_0,
            })
        }
    }

    open spec fn lossless(m: RemoveTaskModel) -> bool {
        &&& Uuid::lossless(m.id)
        &&& Priority::lossless(m.priority)
        &&& StringMap::lossless(m.tags)
        &&& String::lossless(m.unit_name)
        &&& bool::lossless(m.purge)
    }

    open spec fn fits(m: RemoveTaskModel, depth: nat) -> bool {
        &&& depth > 0
        &&& Uuid::fits(m.id, (depth - 1) as nat)
        &&& Priority::fits(m.priority, (depth - 1) as nat)
        &&& StringMap::fits(m.tags, (depth - 1) as nat)
        &&& String::fits(m.unit_name, (depth - 1) as nat)
        &&& bool::fits(m.purge, (depth - 1) as nat)
    }

    fn to_json(&self) -> (r: Json) {
        let mut o = JsonObject::new();
        o.set("id", self.id.to_json());
        o.set("priority", self.priority.to_json());
        o.set("tags", self.tags.to_json());
        o.set("unit_name", self.unit_name.to_json());
        o.set("purge", self.purge.to_json());
        o.finish()
    }

    fn from_json(j: &Json, at: &str, form: Form) -> (r: Result<RemoveTask, DecodeError>) {
        let names = ["id", "priority", "tags", "unit_name", "purge"];
        let listed = wire::unlist(j, &names, 4, form);
        let j = match &listed {
            Some(o) => o,
            None => j,
        };
        proof {
            assert(wire::strs(names@) =~= seq![
                "id"@,
                "priority"@,
                "tags"@,
                "unit_name"@,
                "purge"@,
            ]);
        }
        if !j.is_object() {
            return Err(DecodeError::Invalid(at.to_owned()));
        }
        let id = match wire::required::<Uuid>(j, "id", form) {
            Ok(x) => x,
            Err(e) => return Err(e),
        };
        let priority = match wire::defaulted::<Priority>(j, "priority", Priority::Normal, form) {
            Ok(x) => x,
            Err(e) => return Err(e),
        };
        let tags = match wire::defaulted::<StringMap>(j, "tags", StringMap::new(), form) {
            Ok(x) => x,
            Err(e) => return Err(e),
        };
        let unit_name = match wire::required::<String>(j, "unit_name", form) {
            Ok(x) => x,
            Err(e) => return Err(e),
        };
        let purge = match wire::defaulted::<bool>(j, "purge", false, form) {
            Ok(x) => x,
            Err(e) => return Err(e),
        };
        Ok(RemoveTask { id, priority, tags, unit_name, purge })
    }

    proof fn law_reads_what_it_writes(m: RemoveTaskModel, at: Seq<char>, form: Form) {
        reveal_strlit("id");
        reveal_strlit("priority");
        reveal_strlit("tags");
        reveal_strlit("unit_name");
        reveal_strlit("purge");
        assert("id"@.len() == 2);
        assert("priority"@.len() == 8);
        assert("tags"@.len() == 4);
        assert("unit_name"@.len() == 9);
        assert("purge"@.len() == 5);
        Uuid::law_reads_what_it_writes(m.id, "id"@, form);
        Priority::law_reads_what_it_writes(m.priority, "priority"@, form);
        StringMap::law_reads_what_it_writes(m.tags, "tags"@, form);
        String::law_reads_what_it_writes(m.unit_name, "unit_name"@, form);
        bool::law_reads_what_it_writes(m.purge, "purge"@, form);
        let t = RemoveTask::tree(m);
        assert(t.field("id"@) == Some(Uuid::tree(m.id)));
        assert(t.field("priority"@) == Some(Priority::tree(m.priority)));
        assert(t.field("tags"@) == Some(StringMap::tree(m.tags)));
        assert(t.field("unit_name"@) == Some(String::tree(m.unit_name)));
        assert(t.field("purge"@) == Some(bool::tree(m.purge)));
    }

    proof fn law_fits(m: RemoveTaskModel, depth: nat) {
        let inner = (depth - 1) as nat;
        let o = Map::<Seq<char>, JsonView>::empty();
        Uuid::law_fits(m.id, inner);
        let v = Uuid::tree(m.id);
        json::lemma_insert_within(o, "id"@, v, inner);
        let o = o.insert("id"@, v);
        Priority::law_fits(m.priority, inner);
        let v = Priority::tree(m.priority);
        json::lemma_insert_within(o, "priority"@, v, inner);
        let o = o.insert("priority"@, v);
        StringMap::law_fits(m.tags, inner);
        let v = StringMap::tree(m.tags);
        json::lemma_insert_within(o, "tags"@, v, inner);
        let o = o.insert("tags"@, v);
        String::law_fits(m.unit_name, inner);
        let v = String::tree(m.unit_name);
        json::lemma_insert_within(o, "unit_name"@, v, inner);
        let o = o.insert("unit_name"@, v);
        bool::law_fits(m.purge, inner);
        let v = bool::tree(m.purge);
        json::lemma_insert_within(o, "purge"@, v, inner);
        let o = o.insert("purge"@, v);
    }
}

impl RemoveTask {
    /// A member that names the variant does not disturb the others.
    proof fn lemma_tag_is_ignored(o: Map<Seq<char>, JsonView>, v: JsonView, at: Seq<char>, form: Form)
        ensures
            RemoveTask::read(JsonView::Object(o.insert("type"@, v)), at, form) == RemoveTask::read(
                JsonView::Object(o),
                at,
                form,
            ),
    {
        reveal_strlit("type");
        reveal_strlit("id");
        reveal_strlit("priority");
        reveal_strlit("tags");
        reveal_strlit("unit_name");
        reveal_strlit("purge");
        assert("type"@.len() == 4);
        assert("id"@.len() == 2);
        assert("priority"@.len() == 8);
        assert("tags"@.len() == 4);
        assert("unit_name"@.len() == 9);
        assert("purge"@.len() == 5);
        assert("tags"@[1] != "type"@[1]);
        let t = JsonView::Object(o.insert("type"@, v));
        assert(t.field("id"@) == JsonView::Object(o).field("id"@));
        assert(t.field("priority"@) == JsonView::Object(o).field("priority"@));
        assert(t.field("tags"@) == JsonView::Object(o).field("tags"@));
        assert(t.field("unit_name"@) == JsonView::Object(o).field("unit_name"@));
        assert(t.field("purge"@) == JsonView::Object(o).field("purge"@));
    }
}

/// Brings the agent itself to another version.
#[derive(Debug, Clone, PartialEq)]
pub struct SelfUpgradeTask {
    /// The task.
    pub id: Uuid,
    /// How urgent it is.
    pub priority: Priority,
    /// Labels of the control plane.
    pub tags: StringMap,
    /// The version it is to have.
    pub target_version: String,
    /// Where that version comes from.
    pub artifact: Artifact,
    /// What to go back to.
    pub rollback: Option<RollbackSpec>,
}

/// What a value of [`SelfUpgradeTask`] is.
#[verifier::ext_equal]
pub struct SelfUpgradeTaskModel {
    pub id: Uuid,
    pub priority: Priority,
    pub tags: Map<Seq<char>, Seq<char>>,
    pub target_version: Seq<char>,
    pub artifact: ArtifactModel,
    pub rollback: Option<RollbackSpecModel>,
}

impl Wire for SelfUpgradeTask {
    type Model = SelfUpgradeTaskModel;

    open spec fn model(&self) -> SelfUpgradeTaskModel {
        SelfUpgradeTaskModel {
            id: self.id.model(),
            priority: self.priority.model(),
            tags: self.tags.model(),
            target_version: self.target_version.model(),
            artifact: self.artifact.model(),
            rollback: wire::optional_model(self.rollback),
        }
    }

    open spec fn tree(m: SelfUpgradeTaskModel) -> JsonView {
        let o = Map::<Seq<char>, JsonView>::empty();
        let o = o.insert("id"@, Uuid::tree(m.id));
        let o = o.insert("priority"@, Priority::tree(m.priority));
        let o = o.insert("tags"@, StringMap::tree(m.tags));
        let o = o.insert("target_version"@, String::tree(m.target_version));
        let o = o.insert("artifact"@, Artifact::tree(m.artifact));
        let o = wire::with_optional::<RollbackSpec>(o, "rollback"@, m.rollback);
        JsonView::Object(o)
    }

    open spec fn read(t: JsonView, at: Seq<char>, form: Form) -> Result<SelfUpgradeTaskModel, Fault> {
        let t = wire::unlisted(
            t,
            seq!["id"@, "priority"@, "tags"@, "target_version"@, "artifact"@, "rollback"@],
            5,
            form,
        );
        let id = wire::read_required::<Uuid>(t, "id"@, form);
        let priority = wire::read_or::<Priority>(t, "priority"@, Priority::Normal, form);
        let tags = wire::read_or::<StringMap>(t, "tags"@, Map::<Seq<char>, Seq<char>>::empty(), form);
        let target_version = wire::read_required::<String>(t, "target_version"@, form);
        let artifact = wire::read_required::<Artifact>(t, "artifact"@, form);
        let rollback = wire::read_optional::<RollbackSpec>(t, "rollback"@, form);
        if !(t is Object) {
            Err(Fault::Invalid(at))
        } else if id is Err {
            Err(id->Err_0)
        } else if priority is Err {
            Err(priority->Err_0)
        } else if tags is Err {
            Err(tags->Err_0)
        } else if target_version is Err {
            Err(target_version->Err_0)
        } else if artifact is Err {
            Err(artifact->Err_0)
        } else if rollback is Err {
            Err(rollback->Err_0)
        } else {
            Ok(SelfUpgradeTaskModel {
                id: id->Ok_0,
                priority: priority->Ok_0,
                tags: tags->Ok_0,
                target_version: target_version->Ok_0,
                artifact: artifact->Ok_0,
                rollback: rollback->Ok_0,
            })
        }
    }

    open spec fn lossless(m: SelfUpgradeTaskModel) -> bool {
        &&& Uuid::lossless(m.id)
        &&& Priority::lossless(m.priority)
        &&& StringMap::lossless(m.tags)
        &&& String::lossless(m.target_version)
        &&& Artifact::lossless(m.artifact)
        &&& wire::optional_lossless::<RollbackSpec>(m.rollback)
    }

    open spec fn fits(m: SelfUpgradeTaskModel, depth: nat) -> bool {
        &&& depth > 0
        &&& Uuid::fits(m.id, (depth - 1) as nat)
        &&& Priority::fits(m.priority, (depth - 1) as nat)
        &&& StringMap::fits(m.tags, (depth - 1) as nat)
        &&& String::fits(m.target_version, (depth - 1) as nat)
        &&& Artifact::fits(m.artifact, (depth - 1) as nat)
        &&& wire::optional_fits::<RollbackSpec>(m.rollback, (depth - 1) as nat)
    }

    fn to_json(&self) -> (r: Json) {
        let mut o = JsonObject::new();
        o.set("id", self.id.to_json());
        o.set("priority", self.priority.to_json());
        o.set("tags", self.tags.to_json());
        o.set("target_version", self.target_version.to_json());
        o.set("artifact", self.artifact.to_json());
        wire::set_optional(&mut o, "rollback", &self.rollback);
        o.finish()
    }

    fn from_json(j: &Json, at: &str, form: Form) -> (r: Result<SelfUpgradeTask, DecodeError>) {
        let names = ["id", "priority", "tags", "target_version", "artifact", "rollback"];
        let listed = wire::unlist(j, &names, 5, form);
        let j = match &listed {
            Some(o) => o,
            None => j,
        };
        proof {
            assert(wire::strs(names@) =~= seq![
                "id"@,
                "priority"@,
                "tags"@,
                "target_version"@,
                "artifact"@,
                "rollback"@,
            ]);
        }
        if !j.is_object() {
            return Err(DecodeError::Invalid(at.to_owned()));
        }
        let id = match wire::required::<Uuid>(j, "id", form) {
            Ok(x) => x,
            Err(e) => return Err(e),
        };
        let priority = match wire::defaulted::<Priority>(j, "priority", Priority::Normal, form) {
            Ok(x) => x,
            Err(e) => return Err(e),
        };
        let tags = match wire::defaulted::<StringMap>(j, "tags", StringMap::new(), form) {
            Ok(x) => x,
            Err(e) => return Err(e),
        };
        let target_version = match wire::required::<String>(j, "target_version", form) {
            Ok(x) => x,
            Err(e) => return Err(e),
        };
        let artifact = match wire::required::<Artifact>(j, "artifact", form) {
            Ok(x) => x,
            Err(e) => return Err(e),
        };
        let rollback = match wire::optional::<RollbackSpec>(j, "rollback", form) {
            Ok(x) => x,
            Err(e) => return Err(e),
        };
        Ok(SelfUpgradeTask { id, priority, tags, target_version, artifact, rollback })
    }

    proof fn law_reads_what_it_writes(m: SelfUpgradeTaskModel, at: Seq<char>, form: Form) {
        reveal_strlit("id");
        reveal_strlit("priority");
        reveal_strlit("tags");
        reveal_strlit("target_version");
        reveal_strlit("artifact");
        reveal_strlit("rollback");
        assert("id"@.len() == 2);
        assert("priority"@.len() == 8);
        assert("tags"@.len() == 4);
        assert("target_version"@.len() == 14);
        assert("artifact"@.len() == 8);
        assert("rollback"@.len() == 8);
        assert("priority"@[0] != "artifact"@[0]);
        assert("priority"@[0] != "rollback"@[0]);
        assert("artifact"@[0] != "rollback"@[0]);
        Uuid::law_reads_what_it_writes(m.id, "id"@, form);
        Priority::law_reads_what_it_writes(m.priority, "priority"@, form);
        StringMap::law_reads_what_it_writes(m.tags, "tags"@, form);
        String::law_reads_what_it_writes(m.target_version, "target_version"@, form);
        Artifact::law_reads_what_it_writes(m.artifact, "artifact"@, form);
        wire::lemma_optional_reads_back::<RollbackSpec>(m.rollback, "rollback"@, form);
        let t = SelfUpgradeTask::tree(m);
        assert(t.field("id"@) == Some(Uuid::tree(m.id)));
        assert(t.field("priority"@) == Some(Priority::tree(m.priority)));
        assert(t.field("tags"@) == Some(StringMap::tree(m.tags)));
        assert(t.field("target_version"@) == Some(String::tree(m.target_version)));
        assert(t.field("artifact"@) == Some(Artifact::tree(m.artifact)));
        assert(t.field("rollback"@) == wire::optional_tree::<RollbackSpec>(m.rollback));
    }

    proof fn law_fits(m: SelfUpgradeTaskModel, depth: nat) {
        let inner = (depth - 1) as nat;
        let o = Map::<Seq<char>, JsonView>::empty();
        Uuid::law_fits(m.id, inner);
        let v = Uuid::tree(m.id);
        json::lemma_insert_within(o, "id"@, v, inner);
        let o = o.insert("id"@, v);
        Priority::law_fits(m.priority, inner);
        let v = Priority::tree(m.priority);
        json::lemma_insert_within(o, "priority"@, v, inner);
        let o = o.insert("priority"@, v);
        StringMap::law_fits(m.tags, inner);
        let v = StringMap::tree(m.tags);
        json::lemma_insert_within(o, "tags"@, v, inner);
        let o = o.insert("tags"@, v);
        String::law_fits(m.target_version, inner);
        let v = String::tree(m.target_version);
        json::lemma_insert_within(o, "target_version"@, v, inner);
        let o = o.insert("target_version"@, v);
        Artifact::law_fits(m.artifact, inner);
        let v = Artifact::tree(m.artifact);
        json::lemma_insert_within(o, "artifact"@, v, inner);
        let o = o.insert("artifact"@, v);
        wire::lemma_optional_within::<RollbackSpec>(o, "rollback"@, m.rollback, inner);
        let o = wire::with_optional::<RollbackSpec>(o, "rollback"@, m.rollback);
    }
}

impl SelfUpgradeTask {
    /// A member that names the variant does not disturb the others.
    proof fn lemma_tag_is_ignored(o: Map<Seq<char>, JsonView>, v: JsonView, at: Seq<char>, form: Form)
        ensures
            SelfUpgradeTask::read(JsonView::Object(o.insert("type"@, v)), at, form) == SelfUpgradeTask::read(
                JsonView::Object(o),
                at,
                form,
            ),
    {
        reveal_strlit("type");
        reveal_strlit("id");
        reveal_strlit("priority");
        reveal_strlit("tags");
        reveal_strlit("target_version");
        reveal_strlit("artifact");
        reveal_strlit("rollback");
        assert("type"@.len() == 4);
        assert("id"@.len() == 2);
        assert("priority"@.len() == 8);
        assert("tags"@.len() == 4);
        assert("target_version"@.len() == 14);
        assert("artifact"@.len() == 8);
        assert("rollback"@.len() == 8);
        assert("tags"@[1] != "type"@[1]);
        let t = JsonView::Object(o.insert("type"@, v));
        assert(t.field("id"@) == JsonView::Object(o).field("id"@));
        assert(t.field("priority"@) == JsonView::Object(o).field("priority"@));
        assert(t.field("tags"@) == JsonView::Object(o).field("tags"@));
        assert(t.field("target_version"@) == JsonView::Object(o).field("target_version"@));
        assert(t.field("artifact"@) == JsonView::Object(o).field("artifact"@));
        assert(t.field("rollback"@) == JsonView::Object(o).field("rollback"@));
    }
}

/// A task of the control plane.
#[derive(Debug, Clone, PartialEq)]
pub enum Task {
    /// Run a command.
    Exec(ExecTask),
    /// Stop a task.
    Cancel(CancelTask),
    /// Install a unit.
    Install(InstallTask),
    /// Upgrade a unit.
    Upgrade(UpgradeTask),
    /// Remove a unit.
    Remove(RemoveTask),
    /// Upgrade the agent.
    SelfUpgrade(SelfUpgradeTask),
}

/// What a value of [`Task`] is.
#[verifier::ext_equal]
pub enum TaskModel {
    Exec(ExecTaskModel),
    Cancel(CancelTaskModel),
    Install(InstallTaskModel),
    Upgrade(UpgradeTaskModel),
    Remove(RemoveTaskModel),
    SelfUpgrade(SelfUpgradeTaskModel),
}

impl Wire for Task {
    type Model = TaskModel;

    open spec fn model(&self) -> TaskModel {
        match self {
            Task::Exec(x) => TaskModel::Exec(x.model()),
            Task::Cancel(x) => TaskModel::Cancel(x.model()),
            Task::Install(x) => TaskModel::Install(x.model()),
            Task::Upgrade(x) => TaskModel::Upgrade(x.model()),
            Task::Remove(x) => TaskModel::Remove(x.model()),
            Task::SelfUpgrade(x) => TaskModel::SelfUpgrade(x.model()),
        }
    }

    open spec fn tree(m: TaskModel) -> JsonView {
        match m {
            TaskModel::Exec(x) => {
                JsonView::Object(
                    ExecTask::tree(x)->Object_0.insert("type"@, JsonView::Text("exec"@)),
                )
            },
            TaskModel::Cancel(x) => {
                JsonView::Object(
                    CancelTask::tree(x)->Object_0.insert("type"@, JsonView::Text("cancel"@)),
                )
            },
            TaskModel::Install(x) => {
                JsonView::Object(
                    InstallTask::tree(x)->Object_0.insert("type"@, JsonView::Text("install"@)),
                )
            },
            TaskModel::Upgrade(x) => {
                JsonView::Object(
                    UpgradeTask::tree(x)->Object_0.insert("type"@, JsonView::Text("upgrade"@)),
                )
            },
            TaskModel::Remove(x) => {
                JsonView::Object(
                    RemoveTask::tree(x)->Object_0.insert("type"@, JsonView::Text("remove"@)),
                )
            },
            TaskModel::SelfUpgrade(x) => {
                JsonView::Object(
                    SelfUpgradeTask::tree(x)->Object_0.insert("type"@, JsonView::Text("self_upgrade"@)),
                )
            },
        }
    }

    open spec fn read(t: JsonView, at: Seq<char>, form: Form) -> Result<TaskModel, Fault> {
        let tag = wire::tag_in(
            t,
            "type"@,
            seq!["exec"@, "cancel"@, "install"@, "upgrade"@, "remove"@, "self_upgrade"@],
            form,
        );
        let t = wire::untagged(t);
        if !(t is Object || t is Array) {
            Err(Fault::Invalid(at))
        } else if tag is Err {
            Err(tag->Err_0)
        } else if tag->Ok_0 == "exec"@ {
            match ExecTask::read(t, at, Form::Buffered) {
                Ok(x) => Ok(TaskModel::Exec(x)),
                Err(e) => Err(e),
            }
        } else if tag->Ok_0 == "cancel"@ {
            match CancelTask::read(t, at, Form::Buffered) {
                Ok(x) => Ok(TaskModel::Cancel(x)),
                Err(e) => Err(e),
            }
        } else if tag->Ok_0 == "install"@ {
            match InstallTask::read(t, at, Form::Buffered) {
                Ok(x) => Ok(TaskModel::Install(x)),
                Err(e) => Err(e),
            }
        } else if tag->Ok_0 == "upgrade"@ {
            match UpgradeTask::read(t, at, Form::Buffered) {
                Ok(x) => Ok(TaskModel::Upgrade(x)),
                Err(e) => Err(e),
            }
        } else if tag->Ok_0 == "remove"@ {
            match RemoveTask::read(t, at, Form::Buffered) {
                Ok(x) => Ok(TaskModel::Remove(x)),
                Err(e) => Err(e),
            }
        } else if tag->Ok_0 == "self_upgrade"@ {
            match SelfUpgradeTask::read(t, at, Form::Buffered) {
                Ok(x) => Ok(TaskModel::SelfUpgrade(x)),
                Err(e) => Err(e),
            }
        } else {
            Err(Fault::Invalid("type"@))
        }
    }

    open spec fn lossless(m: TaskModel) -> bool {
        match m {
            TaskModel::Exec(x) => ExecTask::lossless(x),
            TaskModel::Cancel(x) => CancelTask::lossless(x),
            TaskModel::Install(x) => InstallTask::lossless(x),
            TaskModel::Upgrade(x) => UpgradeTask::lossless(x),
            TaskModel::Remove(x) => RemoveTask::lossless(x),
            TaskModel::SelfUpgrade(x) => SelfUpgradeTask::lossless(x),
        }
    }

    open spec fn fits(m: TaskModel, depth: nat) -> bool {
        depth > 0 && match m {
            TaskModel::Exec(x) => ExecTask::fits(x, depth),
            TaskModel::Cancel(x) => CancelTask::fits(x, depth),
            TaskModel::Install(x) => InstallTask::fits(x, depth),
            TaskModel::Upgrade(x) => UpgradeTask::fits(x, depth),
            TaskModel::Remove(x) => RemoveTask::fits(x, depth),
            TaskModel::SelfUpgrade(x) => SelfUpgradeTask::fits(x, depth),
        }
    }

    fn to_json(&self) -> (r: Json) {
        match self {
            Task::Exec(x) => {
                let mut j = x.to_json();
                j.insert("type", Json::text("exec"));
                j
            },
            Task::Cancel(x) => {
                let mut j = x.to_json();
                j.insert("type", Json::text("cancel"));
                j
            },
            Task::Install(x) => {
                let mut j = x.to_json();
                j.insert("type", Json::text("install"));
                j
            },
            Task::Upgrade(x) => {
                let mut j = x.to_json();
                j.insert("type", Json::text("upgrade"));
                j
            },
            Task::Remove(x) => {
                let mut j = x.to_json();
                j.insert("type", Json::text("remove"));
                j
            },
            Task::SelfUpgrade(x) => {
                let mut j = x.to_json();
                j.insert("type", Json::text("self_upgrade"));
                j
            },
        }
    }

    fn from_json(j: &Json, at: &str, form: Form) -> (r: Result<Task, DecodeError>) {
        if !j.is_object() && !j.is_array() {
            return Err(DecodeError::Invalid(at.to_owned()));
        }
        let names = ["exec", "cancel", "install", "upgrade", "remove", "self_upgrade"];
        proof {
            assert(wire::strs(names@) =~= seq![
                "exec"@,
                "cancel"@,
                "install"@,
                "upgrade"@,
                "remove"@,
                "self_upgrade"@,
            ]);
        }
        let tag = match wire::tag_of(j, "type", &names, form) {
            Ok(x) => x,
            Err(e) => return Err(e),
        };
        let rest = wire::untag(j);
        let j = match &rest {
            Some(o) => o,
            None => j,
        };
        if text::same(tag.as_str(), "exec") {
            match ExecTask::from_json(j, at, Form::Buffered) {
                Ok(x) => Ok(Task::Exec(x)),
                Err(e) => Err(e),
            }
        } else if text::same(tag.as_str(), "cancel") {
            match CancelTask::from_json(j, at, Form::Buffered) {
                Ok(x) => Ok(Task::Cancel(x)),
                Err(e) => Err(e),
            }
        } else if text::same(tag.as_str(), "install") {
            match InstallTask::from_json(j, at, Form::Buffered) {
                Ok(x) => Ok(Task::Install(x)),
                Err(e) => Err(e),
            }
        } else if text::same(tag.as_str(), "upgrade") {
            match UpgradeTask::from_json(j, at, Form::Buffered) {
                Ok(x) => Ok(Task::Upgrade(x)),
                Err(e) => Err(e),
            }
        } else if text::same(tag.as_str(), "remove") {
            match RemoveTask::from_json(j, at, Form::Buffered) {
                Ok(x) => Ok(Task::Remove(x)),
                Err(e) => Err(e),
            }
        } else if text::same(tag.as_str(), "self_upgrade") {
            match SelfUpgradeTask::from_json(j, at, Form::Buffered) {
                Ok(x) => Ok(Task::SelfUpgrade(x)),
                Err(e) => Err(e),
            }
        } else {
            Err(DecodeError::Invalid("type".to_owned()))
        }
    }

    proof fn law_reads_what_it_writes(m: TaskModel, at: Seq<char>, form: Form) {
        reveal_strlit("exec");
        reveal_strlit("cancel");
        reveal_strlit("install");
        reveal_strlit("upgrade");
        reveal_strlit("remove");
        reveal_strlit("self_upgrade");
        assert("exec"@.len() == 4);
        assert("cancel"@.len() == 6);
        assert("install"@.len() == 7);
        assert("upgrade"@.len() == 7);
        assert("remove"@.len() == 6);
        assert("self_upgrade"@.len() == 12);
        assert("cancel"@[0] != "remove"@[0]);
        assert("install"@[0] != "upgrade"@[0]);
        let t = Task::tree(m);
        match m {
            TaskModel::Exec(x) => {
                ExecTask::law_reads_what_it_writes(x, at, Form::Buffered);
                ExecTask::lemma_tag_is_ignored(
                    ExecTask::tree(x)->Object_0,
                    JsonView::Text("exec"@),
                    at,
                    Form::Buffered,
                );
                assert(t.field("type"@) == Some(JsonView::Text("exec"@)));
            },
            TaskModel::Cancel(x) => {
                CancelTask::law_reads_what_it_writes(x, at, Form::Buffered);
                CancelTask::lemma_tag_is_ignored(
                    CancelTask::tree(x)->Object_0,
                    JsonView::Text("cancel"@),
                    at,
                    Form::Buffered,
                );
                assert(t.field("type"@) == Some(JsonView::Text("cancel"@)));
            },
            TaskModel::Install(x) => {
                InstallTask::law_reads_what_it_writes(x, at, Form::Buffered);
                InstallTask::lemma_tag_is_ignored(
                    InstallTask::tree(x)->Object_0,
                    JsonView::Text("install"@),
                    at,
                    Form::Buffered,
                );
                assert(t.field("type"@) == Some(JsonView::Text("install"@)));
            },
            TaskModel::Upgrade(x) => {
                UpgradeTask::law_reads_what_it_writes(x, at, Form::Buffered);
                UpgradeTask::lemma_tag_is_ignored(
                    UpgradeTask::tree(x)->Object_0,
                    JsonView::Text("upgrade"@),
                    at,
                    Form::Buffered,
                );
                assert(t.field("type"@) == Some(JsonView::Text("upgrade"@)));
            },
            TaskModel::Remove(x) => {
                RemoveTask::law_reads_what_it_writes(x, at, Form::Buffered);
                RemoveTask::lemma_tag_is_ignored(
                    RemoveTask::tree(x)->Object_0,
                    JsonView::Text("remove"@),
                    at,
                    Form::Buffered,
                );
                assert(t.field("type"@) == Some(JsonView::Text("remove"@)));
            },
            TaskModel::SelfUpgrade(x) => {
                SelfUpgradeTask::law_reads_what_it_writes(x, at, Form::Buffered);
                SelfUpgradeTask::lemma_tag_is_ignored(
                    SelfUpgradeTask::tree(x)->Object_0,
                    JsonView::Text("self_upgrade"@),
                    at,
                    Form::Buffered,
                );
                assert(t.field("type"@) == Some(JsonView::Text("self_upgrade"@)));
            },
        }
    }

    proof fn law_fits(m: TaskModel, depth: nat) {
        let inner = (depth - 1) as nat;
        match m {
            TaskModel::Exec(x) => {
                ExecTask::law_fits(x, depth);
                json::lemma_insert_within(
                    ExecTask::tree(x)->Object_0,
                    "type"@,
                    JsonView::Text("exec"@),
                    inner,
                );
            },
            TaskModel::Cancel(x) => {
                CancelTask::law_fits(x, depth);
                json::lemma_insert_within(
                    CancelTask::tree(x)->Object_0,
                    "type"@,
                    JsonView::Text("cancel"@),
                    inner,
                );
            },
            TaskModel::Install(x) => {
                InstallTask::law_fits(x, depth);
                json::lemma_insert_within(
                    InstallTask::tree(x)->Object_0,
                    "type"@,
                    JsonView::Text("install"@),
                    inner,
                );
            },
            TaskModel::Upgrade(x) => {
                UpgradeTask::law_fits(x, depth);
                json::lemma_insert_within(
                    UpgradeTask::tree(x)->Object_0,
                    "type"@,
                    JsonView::Text("upgrade"@),
                    inner,
                );
            },
            TaskModel::Remove(x) => {
                RemoveTask::law_fits(x, depth);
                json::lemma_insert_within(
                    RemoveTask::tree(x)->Object_0,
                    "type"@,
                    JsonView::Text("remove"@),
                    inner,
                );
            },
            TaskModel::SelfUpgrade(x) => {
                SelfUpgradeTask::law_fits(x, depth);
                json::lemma_insert_within(
                    SelfUpgradeTask::tree(x)->Object_0,
                    "type"@,
                    JsonView::Text("self_upgrade"@),
                    inner,
                );
            },
        }
    }
}

impl Task {
    /// The task's identifier.
    pub open spec fn spec_id(self) -> Uuid {
        match self {
            Task::Exec(t) => t.id,
            Task::Cancel(t) => t.id,
            Task::Install(t) => t.id,
            Task::Upgrade(t) => t.id,
            Task::Remove(t) => t.id,
            Task::SelfUpgrade(t) => t.id,
        }
    }

    /// The task's identifier.
    pub fn id(&self) -> (r: Uuid)
        ensures
            r == self.spec_id(),
    {
        match self {
            Task::Exec(t) => t.id,
            Task::Cancel(t) => t.id,
            Task::Install(t) => t.id,
            Task::Upgrade(t) => t.id,
            Task::Remove(t) => t.id,
            Task::SelfUpgrade(t) => t.id,
        }
    }

    /// How urgent the task is.
    pub open spec fn spec_priority(self) -> Priority {
        match self {
            Task::Exec(t) => t.priority,
            Task::Cancel(t) => t.priority,
            Task::Install(t) => t.priority,
            Task::Upgrade(t) => t.priority,
            Task::Remove(t) => t.priority,
            Task::SelfUpgrade(t) => t.priority,
        }
    }

    /// How urgent the task is.
    pub fn priority(&self) -> (r: Priority)
        ensures
            r == self.spec_priority(),
    {
        match self {
            Task::Exec(t) => t.priority,
            Task::Cancel(t) => t.priority,
            Task::Install(t) => t.priority,
            Task::Upgrade(t) => t.priority,
            Task::Remove(t) => t.priority,
            Task::SelfUpgrade(t) => t.priority,
        }
    }

    /// The labels of the control plane.
    pub open spec fn spec_tags(self) -> StringMap {
        match self {
            Task::Exec(t) => t.tags,
            Task::Cancel(t) => t.tags,
            Task::Install(t) => t.tags,
            Task::Upgrade(t) => t.tags,
            Task::Remove(t) => t.tags,
            Task::SelfUpgrade(t) => t.tags,
        }
    }

    /// The labels of the control plane.
    pub fn tags(&self) -> (r: &StringMap)
        ensures
            *r == self.spec_tags(),
    {
        match self {
            Task::Exec(t) => &t.tags,
            Task::Cancel(t) => &t.tags,
            Task::Install(t) => &t.tags,
            Task::Upgrade(t) => &t.tags,
            Task::Remove(t) => &t.tags,
            Task::SelfUpgrade(t) => &t.tags,
        }
    }
}

/// What a chain undoes when a step fails.
#[derive(Debug, Clone, Copy, PartialEq, Eq, Hash, Structural)]
pub enum RollbackStrategy {
    /// The failed step.
    RollbackFailed,
    /// The failed step and every step before it, latest first.
    RollbackAll,
}

impl Default for RollbackStrategy {
    fn default() -> (r: Self)
        ensures
            r == RollbackStrategy::RollbackAll,
    {
        RollbackStrategy::RollbackAll
    }
}

impl RollbackStrategy {
    /// The name on the wire.
    pub open spec fn wire_name(self) -> Seq<char> {
        match self {
            RollbackStrategy::RollbackFailed => "rollback_failed"@,
            RollbackStrategy::RollbackAll => "rollback_all"@,
        }
    }

    /// The name on the wire.
    pub fn as_str(&self) -> (r: &'static str)
        ensures
            r@ == self.wire_name(),
    {
        match self {
            RollbackStrategy::RollbackFailed => "rollback_failed",
            RollbackStrategy::RollbackAll => "rollback_all",
        }
    }

    /// The value that a name stands for.
    pub open spec fn of_name(s: Seq<char>) -> Option<RollbackStrategy> {
        if s == "rollback_failed"@ {
            Some(RollbackStrategy::RollbackFailed)
        } else if s == "rollback_all"@ {
            Some(RollbackStrategy::RollbackAll)
        } else {
            None
        }
    }

    /// Reads a name.
    pub fn parse(s: &str) -> (r: Option<RollbackStrategy>)
        ensures
            r == RollbackStrategy::of_name(s@),
    {
        if text::same(s, "rollback_failed") {
            Some(RollbackStrategy::RollbackFailed)
        } else if text::same(s, "rollback_all") {
            Some(RollbackStrategy::RollbackAll)
        } else {
            None
        }
    }
}

impl Wire for RollbackStrategy {
    type Model = RollbackStrategy;

    open spec fn model(&self) -> RollbackStrategy {
        *self
    }

    open spec fn tree(m: RollbackStrategy) -> JsonView {
        JsonView::Text(m.wire_name())
    }

    open spec fn read(t: JsonView, at: Seq<char>, form: Form) -> Result<RollbackStrategy, Fault> {
        match wire::name_in(t, form) {
            Some(s) => match RollbackStrategy::of_name(s) {
                Some(v) => Ok(v),
                None => Err(Fault::Invalid(at)),
            },
            None => Err(Fault::Invalid(at)),
        }
    }

    open spec fn lossless(m: RollbackStrategy) -> bool {
        true
    }

    open spec fn fits(m: RollbackStrategy, depth: nat) -> bool {
        true
    }

    fn to_json(&self) -> (r: Json) {
        Json::text(self.as_str())
    }

    fn from_json(j: &Json, at: &str, form: Form) -> (r: Result<RollbackStrategy, DecodeError>) {
        match wire::name_of(j, form) {
            Some(s) => match RollbackStrategy::parse(s) {
                Some(v) => Ok(v),
                None => Err(DecodeError::Invalid(at.to_owned())),
            },
            None => Err(DecodeError::Invalid(at.to_owned())),
        }
    }

    proof fn law_reads_what_it_writes(m: RollbackStrategy, at: Seq<char>, form: Form) {
        reveal_strlit("rollback_failed");
        reveal_strlit("rollback_all");
        assert("rollback_failed"@.len() == 15);
        assert("rollback_all"@.len() == 12);
    }

    proof fn law_fits(m: RollbackStrategy, depth: nat) {
    }
}

/// A step of a chain.
#[derive(Debug, Clone, PartialEq)]
pub struct ChainStep {
    /// What it runs.
    pub task: ExecTask,
    /// What undoes it.
    pub rollback: Option<ExecTask>,
}

/// What a value of [`ChainStep`] is.
#[verifier::ext_equal]
pub struct ChainStepModel {
    pub task: ExecTaskModel,
    pub rollback: Option<ExecTaskModel>,
}

impl Wire for ChainStep {
    type Model = ChainStepModel;

    open spec fn model(&self) -> ChainStepModel {
        ChainStepModel {
            task: self.task.model(),
            rollback: wire::optional_model(self.rollback),
        }
    }

    open spec fn tree(m: ChainStepModel) -> JsonView {
        let o = Map::<Seq<char>, JsonView>::empty();
        let o = o.insert("task"@, ExecTask::tree(m.task));
        let o = wire::with_optional::<ExecTask>(o, "rollback"@, m.rollback);
        JsonView::Object(o)
    }

    open spec fn read(t: JsonView, at: Seq<char>, form: Form) -> Result<ChainStepModel, Fault> {
        let t = wire::unlisted(t, seq!["task"@, "rollback"@], 1, form);
        let task = wire::read_required::<ExecTask>(t, "task"@, form);
        let rollback = wire::read_optional::<ExecTask>(t, "rollback"@, form);
        if !(t is Object) {
            Err(Fault::Invalid(at))
        } else if task is Err {
            Err(task->Err_0)
        } else if rollback is Err {
            Err(rollback->Err_0)
        } else {
            Ok(ChainStepModel {
                task: task->Ok_0,
                rollback: rollback->Ok_0,
            })
        }
    }

    open spec fn lossless(m: ChainStepModel) -> bool {
        &&& ExecTask::lossless(m.task)
        &&& wire::optional_lossless::<ExecTask>(m.rollback)
    }

    open spec fn fits(m: ChainStepModel, depth: nat) -> bool {
        &&& depth > 0
        &&& ExecTask::fits(m.task, (depth - 1) as nat)
        &&& wire::optional_fits::<ExecTask>(m.rollback, (depth - 1) as nat)
    }

    fn to_json(&self) -> (r: Json) {
        let mut o = JsonObject::new();
        o.set("task", self.task.to_json());
        wire::set_optional(&mut o, "rollback", &self.rollback);
        o.finish()
    }

    fn from_json(j: &Json, at: &str, form: Form) -> (r: Result<ChainStep, DecodeError>) {
        let names = ["task", "rollback"];
        let listed = wire::unlist(j, &names, 1, form);
        let j = match &listed {
            Some(o) => o,
            None => j,
        };
        proof {
            assert(wire::strs(names@) =~= seq!["task"@, "rollback"@]);
        }
        if !j.is_object() {
            return Err(DecodeError::Invalid(at.to_owned()));
        }
        let task = match wire::required::<ExecTask>(j, "task", form) {
            Ok(x) => x,
            Err(e) => return Err(e),
        };
        let rollback = match wire::optional::<ExecTask>(j, "rollback", form) {
            Ok(x) => x,
            Err(e) => return Err(e),
        };
        Ok(ChainStep { task, rollback })
    }

    proof fn law_reads_what_it_writes(m: ChainStepModel, at: Seq<char>, form: Form) {
        reveal_strlit("task");
        reveal_strlit("rollback");
        assert("task"@.len() == 4);
        assert("rollback"@.len() == 8);
        ExecTask::law_reads_what_it_writes(m.task, "task"@, form);
        wire::lemma_optional_reads_back::<ExecTask>(m.rollback, "rollback"@, form);
        let t = ChainStep::tree(m);
        assert(t.field("task"@) == Some(ExecTask::tree(m.task)));
        assert(t.field("rollback"@) == wire::optional_tree::<ExecTask>(m.rollback));
    }

    proof fn law_fits(m: ChainStepModel, depth: nat) {
        let inner = (depth - 1) as nat;
        let o = Map::<Seq<char>, JsonView>::empty();
        ExecTask::law_fits(m.task, inner);
        let v = ExecTask::tree(m.task);
        json::lemma_insert_within(o, "task"@, v, inner);
        let o = o.insert("task"@, v);
        wire::lemma_optional_within::<ExecTask>(o, "rollback"@, m.rollback, inner);
        let o = wire::with_optional::<ExecTask>(o, "rollback"@, m.rollback);
    }
}

/// Exec tasks that run one after the other.
#[derive(Debug, Clone, PartialEq)]
pub struct TaskChain {
    /// The chain.
    pub id: Uuid,
    /// The steps, in order.
    pub steps: Vec<ChainStep>,
    /// What is undone when a step fails.
    pub on_failure: RollbackStrategy,
    /// Labels of the control plane.
    pub tags: StringMap,
}

/// What a value of [`TaskChain`] is.
#[verifier::ext_equal]
pub struct TaskChainModel {
    pub id: Uuid,
    pub steps: Seq<ChainStepModel>,
    pub on_failure: RollbackStrategy,
    pub tags: Map<Seq<char>, Seq<char>>,
}

impl Wire for TaskChain {
    type Model = TaskChainModel;

    open spec fn model(&self) -> TaskChainModel {
        TaskChainModel {
            id: self.id.model(),
            steps: self.steps.model(),
            on_failure: self.on_failure.model(),
            tags: self.tags.model(),
        }
    }

    open spec fn tree(m: TaskChainModel) -> JsonView {
        let o = Map::<Seq<char>, JsonView>::empty();
        let o = o.insert("id"@, Uuid::tree(m.id));
        let o = o.insert("steps"@, Vec::<ChainStep>::tree(m.steps));
        let o = o.insert("on_failure"@, RollbackStrategy::tree(m.on_failure));
        let o = o.insert("tags"@, StringMap::tree(m.tags));
        JsonView::Object(o)
    }

    open spec fn read(t: JsonView, at: Seq<char>, form: Form) -> Result<TaskChainModel, Fault> {
        let t = wire::unlisted(t, seq!["id"@, "steps"@, "on_failure"@, "tags"@], 2, form);
        let id = wire::read_required::<Uuid>(t, "id"@, form);
        let steps = wire::read_required::<Vec<ChainStep>>(t, "steps"@, form);
        let on_failure = wire::read_or::<RollbackStrategy>(t, "on_failure"@, RollbackStrategy::RollbackAll, form);
        let tags = wire::read_or::<StringMap>(t, "tags"@, Map::<Seq<char>, Seq<char>>::empty(), form);
        if !(t is Object) {
            Err(Fault::Invalid(at))
        } else if id is Err {
            Err(id->Err_0)
        } else if steps is Err {
            Err(steps->Err_0)
        } else if on_failure is Err {
            Err(on_failure->Err_0)
        } else if tags is Err {
            Err(tags->Err_0)
        } else {
            Ok(TaskChainModel {
                id: id->Ok_0,
                steps: steps->Ok_0,
                on_failure: on_failure->Ok_0,
                tags: tags->Ok_0,
            })
        }
    }

    open spec fn lossless(m: TaskChainModel) -> bool {
        &&& Uuid::lossless(m.id)
        &&& Vec::<ChainStep>::lossless(m.steps)
        &&& RollbackStrategy::lossless(m.on_failure)
        &&& StringMap::lossless(m.tags)
    }

    open spec fn fits(m: TaskChainModel, depth: nat) -> bool {
        &&& depth > 0
        &&& Uuid::fits(m.id, (depth - 1) as nat)
        &&& Vec::<ChainStep>::fits(m.steps, (depth - 1) as nat)
        &&& RollbackStrategy::fits(m.on_failure, (depth - 1) as nat)
        &&& StringMap::fits(m.tags, (depth - 1) as nat)
    }

    fn to_json(&self) -> (r: Json) {
        let mut o = JsonObject::new();
        o.set("id", self.id.to_json());
        o.set("steps", self.steps.to_json());
        o.set("on_failure", self.on_failure.to_json());
        o.set("tags", self.tags.to_json());
        o.finish()
    }

    fn from_json(j: &Json, at: &str, form: Form) -> (r: Result<TaskChain, DecodeError>) {
        let names = ["id", "steps", "on_failure", "tags"];
        let listed = wire::unlist(j, &names, 2, form);
        let j = match &listed {
            Some(o) => o,
            None => j,
        };
        proof {
            assert(wire::strs(names@) =~= seq!["id"@, "steps"@, "on_failure"@, "tags"@]);
        }
        if !j.is_object() {
            return Err(DecodeError::Invalid(at.to_owned()));
        }
        let id = match wire::required::<Uuid>(j, "id", form) {
            Ok(x) => x,
            Err(e) => return Err(e),
        };
        let steps = match wire::required::<Vec<ChainStep>>(j, "steps", form) {
            Ok(x) => x,
            Err(e) => return Err(e),
        };
        let on_failure = match wire::defaulted::<RollbackStrategy>(j, "on_failure", RollbackStrategy::RollbackAll, form) {
            Ok(x) => x,
            Err(e) => return Err(e),
        };
        let tags = match wire::defaulted::<StringMap>(j, "tags", StringMap::new(), form) {
            Ok(x) => x,
            Err(e) => return Err(e),
        };
        Ok(TaskChain { id, steps, on_failure, tags })
    }

    proof fn law_reads_what_it_writes(m: TaskChainModel, at: Seq<char>, form: Form) {
        reveal_strlit("id");
        reveal_strlit("steps");
        reveal_strlit("on_failure");
        reveal_strlit("tags");
        assert("id"@.len() == 2);
        assert("steps"@.len() == 5);
        assert("on_failure"@.len() == 10);
        assert("tags"@.len() == 4);
        Uuid::law_reads_what_it_writes(m.id, "id"@, form);
        Vec::<ChainStep>::law_reads_what_it_writes(m.steps, "steps"@, form);
        RollbackStrategy::law_reads_what_it_writes(m.on_failure, "on_failure"@, form);
        StringMap::law_reads_what_it_writes(m.tags, "tags"@, form);
        let t = TaskChain::tree(m);
        assert(t.field("id"@) == Some(Uuid::tree(m.id)));
        assert(t.field("steps"@) == Some(Vec::<ChainStep>::tree(m.steps)));
        assert(t.field("on_failure"@) == Some(RollbackStrategy::tree(m.on_failure)));
        assert(t.field("tags"@) == Some(StringMap::tree(m.tags)));
    }

    proof fn law_fits(m: TaskChainModel, depth: nat) {
        let inner = (depth - 1) as nat;
        let o = Map::<Seq<char>, JsonView>::empty();
        Uuid::law_fits(m.id, inner);
        let v = Uuid::tree(m.id);
        json::lemma_insert_within(o, "id"@, v, inner);
        let o = o.insert("id"@, v);
        Vec::<ChainStep>::law_fits(m.steps, inner);
        let v = Vec::<ChainStep>::tree(m.steps);
        json::lemma_insert_within(o, "steps"@, v, inner);
        let o = o.insert("steps"@, v);
        RollbackStrategy::law_fits(m.on_failure, inner);
        let v = RollbackStrategy::tree(m.on_failure);
        json::lemma_insert_within(o, "on_failure"@, v, inner);
        let o = o.insert("on_failure"@, v);
        StringMap::law_fits(m.tags, inner);
        let v = StringMap::tree(m.tags);
        json::lemma_insert_within(o, "tags"@, v, inner);
        let o = o.insert("tags"@, v);
    }
}

/// How a task ended.
#[derive(Debug, Clone, Copy, PartialEq, Eq, Hash, Structural)]
pub enum TaskResultStatus {
    /// As it should.
    Success,
    /// It failed.
    Failed,
    /// It was cancelled.
    Cancelled,
    /// It took too long.
    Timeout,
    /// It was undone.
    RolledBack,
}

impl TaskResultStatus {
    /// The name on the wire.
    pub open spec fn wire_name(self) -> Seq<char> {
        match self {
            TaskResultStatus::Success => "success"@,
            TaskResultStatus::Failed => "failed"@,
            TaskResultStatus::Cancelled => "cancelled"@,
            TaskResultStatus::Timeout => "timeout"@,
            TaskResultStatus::RolledBack => "rolled_back"@,
        }
    }

    /// The name on the wire.
    pub fn as_str(&self) -> (r: &'static str)
        ensures
            r@ == self.wire_name(),
    {
        match self {
            TaskResultStatus::Success => "success",
            TaskResultStatus::Failed => "failed",
            TaskResultStatus::Cancelled => "cancelled",
            TaskResultStatus::Timeout => "timeout",
            TaskResultStatus::RolledBack => "rolled_back",
        }
    }

    /// The value that a name stands for.
    pub open spec fn of_name(s: Seq<char>) -> Option<TaskResultStatus> {
        if s == "success"@ {
            Some(TaskResultStatus::Success)
        } else if s == "failed"@ {
            Some(TaskResultStatus::Failed)
        } else if s == "cancelled"@ {
            Some(TaskResultStatus::Cancelled)
        } else if s == "timeout"@ {
            Some(TaskResultStatus::Timeout)
        } else if s == "rolled_back"@ {
            Some(TaskResultStatus::RolledBack)
        } else {
            None
        }
    }

    /// Reads a name.
    pub fn parse(s: &str) -> (r: Option<TaskResultStatus>)
        ensures
            r == TaskResultStatus::of_name(s@),
    {
        if text::same(s, "success") {
            Some(TaskResultStatus::Success)
        } else if text::same(s, "failed") {
            Some(TaskResultStatus::Failed)
        } else if text::same(s, "cancelled") {
            Some(TaskResultStatus::Cancelled)
        } else if text::same(s, "timeout") {
            Some(TaskResultStatus::Timeout)
        } else if text::same(s, "rolled_back") {
            Some(TaskResultStatus::RolledBack)
        } else {
            None
        }
    }
}

impl Wire for TaskResultStatus {
    type Model = TaskResultStatus;

    open spec fn model(&self) -> TaskResultStatus {
        *self
    }

    open spec fn tree(m: TaskResultStatus) -> JsonView {
        JsonView::Text(m.wire_name())
    }

    open spec fn read(t: JsonView, at: Seq<char>, form: Form) -> Result<TaskResultStatus, Fault> {
        match wire::name_in(t, form) {
            Some(s) => match TaskResultStatus::of_name(s) {
                Some(v) => Ok(v),
                None => Err(Fault::Invalid(at)),
            },
            None => Err(Fault::Invalid(at)),
        }
    }

    open spec fn lossless(m: TaskResultStatus) -> bool {
        true
    }

    open spec fn fits(m: TaskResultStatus, depth: nat) -> bool {
        true
    }

    fn to_json(&self) -> (r: Json) {
        Json::text(self.as_str())
    }

    fn from_json(j: &Json, at: &str, form: Form) -> (r: Result<TaskResultStatus, DecodeError>) {
        match wire::name_of(j, form) {
            Some(s) => match TaskResultStatus::parse(s) {
                Some(v) => Ok(v),
                None => Err(DecodeError::Invalid(at.to_owned())),
            },
            None => Err(DecodeError::Invalid(at.to_owned())),
        }
    }

    proof fn law_reads_what_it_writes(m: TaskResultStatus, at: Seq<char>, form: Form) {
        reveal_strlit("success");
        reveal_strlit("failed");
        reveal_strlit("cancelled");
        reveal_strlit("timeout");
        reveal_strlit("rolled_back");
        assert("success"@.len() == 7);
        assert("failed"@.len() == 6);
        assert("cancelled"@.len() == 9);
        assert("timeout"@.len() == 7);
        assert("rolled_back"@.len() == 11);
        assert("success"@[0] != "timeout"@[0]);
    }

    proof fn law_fits(m: TaskResultStatus, depth: nat) {
    }
}

/// How a task went, as the control plane is told.
#[derive(Debug, Clone, PartialEq)]
pub struct TaskResult {
    /// The task.
    pub task_id: Uuid,
    /// The chain it is a step of.
    pub chain_id: Option<Uuid>,
    /// Its place in the chain.
    pub step_index: Option<u32>,
    /// How it ended.
    pub status: TaskResultStatus,
    /// Exit code of a process.
    pub exit_code: Option<i32>,
    /// Standard output.
    pub stdout: String,
    /// Standard error.
    pub stderr: String,
    /// Milliseconds it took.
    pub duration_ms: u64,
    /// Milliseconds since the Unix epoch at its end.
    pub timestamp: u64,
    /// What went wrong.
    pub error: Option<String>,
}

/// What a value of [`TaskResult`] is.
#[verifier::ext_equal]
pub struct TaskResultModel {
    pub task_id: Uuid,
    pub chain_id: Option<Uuid>,
    pub step_index: Option<u32>,
    pub status: TaskResultStatus,
    pub exit_code: Option<i32>,
    pub stdout: Seq<char>,
    pub stderr: Seq<char>,
    pub duration_ms: u64,
    pub timestamp: u64,
    pub error: Option<Seq<char>>,
}

impl Wire for TaskResult {
    type Model = TaskResultModel;

    open spec fn model(&self) -> TaskResultModel {
        TaskResultModel {
            task_id: self.task_id.model(),
            chain_id: wire::optional_model(self.chain_id),
            step_index: wire::optional_model(self.step_index),
            status: self.status.model(),
            exit_code: wire::optional_model(self.exit_code),
            stdout: self.stdout.model(),
            stderr: self.stderr.model(),
            duration_ms: self.duration_ms.model(),
            timestamp: self.timestamp.model(),
            error: wire::optional_model(self.error),
        }
    }

    open spec fn tree(m: TaskResultModel) -> JsonView {
        let o = Map::<Seq<char>, JsonView>::empty();
        let o = o.insert("task_id"@, Uuid::tree(m.task_id));
        let o = wire::with_optional::<Uuid>(o, "chain_id"@, m.chain_id);
        let o = wire::with_optional::<u32>(o, "step_index"@, m.step_index);
        let o = o.insert("status"@, TaskResultStatus::tree(m.status));
        let o = wire::with_optional::<i32>(o, "exit_code"@, m.exit_code);
        let o = o.insert("stdout"@, String::tree(m.stdout));
        let o = o.insert("stderr"@, String::tree(m.stderr));
        let o = o.insert("duration_ms"@, u64::tree(m.duration_ms));
        let o = o.insert("timestamp"@, u64::tree(m.timestamp));
        let o = wire::with_optional::<String>(o, "error"@, m.error);
        JsonView::Object(o)
    }

    open spec fn read(t: JsonView, at: Seq<char>, form: Form) -> Result<TaskResultModel, Fault> {
        let t = wire::unlisted(
            t,
            seq![
                "task_id"@,
                "chain_id"@,
                "step_index"@,
                "status"@,
                "exit_code"@,
                "stdout"@,
                "stderr"@,
                "duration_ms"@,
                "timestamp"@,
                "error"@,
            ],
            9,
            form,
        );
        let task_id = wire::read_required::<Uuid>(t, "task_id"@, form);
        let chain_id = wire::read_optional::<Uuid>(t, "chain_id"@, form);
        let step_index = wire::read_optional::<u32>(t, "step_index"@, form);
        let status = wire::read_required::<TaskResultStatus>(t, "status"@, form);
        let exit_code = wire::read_optional::<i32>(t, "exit_code"@, form);
        let stdout = wire::read_or::<String>(t, "stdout"@, Seq::<char>::empty(), form);
        let stderr = wire::read_or::<String>(t, "stderr"@, Seq::<char>::empty(), form);
        let duration_ms = wire::read_required::<u64>(t, "duration_ms"@, form);
        let timestamp = wire::read_required::<u64>(t, "timestamp"@, form);
        let error = wire::read_optional::<String>(t, "error"@, form);
        if !(t is Object) {
            Err(Fault::Invalid(at))
        } else if task_id is Err {
            Err(task_id->Err_0)
        } else if chain_id is Err {
            Err(chain_id->Err_0)
        } else if step_index is Err {
            Err(step_index->Err_0)
        } else if status is Err {
            Err(status->Err_0)
        } else if exit_code is Err {
            Err(exit_code->Err_0)
        } else if stdout is Err {
            Err(stdout->Err_0)
        } else if stderr is Err {
            Err(stderr->Err_0)
        } else if duration_ms is Err {
            Err(duration_ms->Err_0)
        } else if timestamp is Err {
            Err(timestamp->Err_0)
        } else if error is Err {
            Err(error->Err_0)
        } else {
            Ok(TaskResultModel {
                task_id: task_id->Ok_0,
                chain_id: chain_id->Ok_0,
                step_index: step_index->Ok_0,
                status: status->Ok_0,
                exit_code: exit_code->Ok_0,
                stdout: stdout->Ok_0,
                stderr: stderr->Ok_0,
                duration_ms: duration_ms->Ok_0,
                timestamp: timestamp->Ok_0,
                error: error->Ok_0,
            })
        }
    }

    open spec fn lossless(m: TaskResultModel) -> bool {
        &&& Uuid::lossless(m.task_id)
        &&& wire::optional_lossless::<Uuid>(m.chain_id)
        &&& wire::optional_lossless::<u32>(m.step_index)
        &&& TaskResultStatus::lossless(m.status)
        &&& wire::optional_lossless::<i32>(m.exit_code)
        &&& String::lossless(m.stdout)
        &&& String::lossless(m.stderr)
        &&& u64::lossless(m.duration_ms)
        &&& u64::lossless(m.timestamp)
        &&& wire::optional_lossless::<String>(m.error)
    }

    open spec fn fits(m: TaskResultModel, depth: nat) -> bool {
        &&& depth > 0
        &&& Uuid::fits(m.task_id, (depth - 1) as nat)
        &&& wire::optional_fits::<Uuid>(m.chain_id, (depth - 1) as nat)
        &&& wire::optional_fits::<u32>(m.step_index, (depth - 1) as nat)
        &&& TaskResultStatus::fits(m.status, (depth - 1) as nat)
        &&& wire::optional_fits::<i32>(m.exit_code, (depth - 1) as nat)
        &&& String::fits(m.stdout, (depth - 1) as nat)
        &&& String::fits(m.stderr, (depth - 1) as nat)
        &&& u64::fits(m.duration_ms, (depth - 1) as nat)
        &&& u64::fits(m.timestamp, (depth - 1) as nat)
        &&& wire::optional_fits::<String>(m.error, (depth - 1) as nat)
    }

    fn to_json(&self) -> (r: Json) {
        let mut o = JsonObject::new();
        o.set("task_id", self.task_id.to_json());
        wire::set_optional(&mut o, "chain_id", &self.chain_id);
        wire::set_optional(&mut o, "step_index", &self.step_index);
        o.set("status", self.status.to_json());
        wire::set_optional(&mut o, "exit_code", &self.exit_code);
        o.set("stdout", self.stdout.to_json());
        o.set("stderr", self.stderr.to_json());
        o.set("duration_ms", self.duration_ms.to_json());
        o.set("timestamp", self.timestamp.to_json());
        wire::set_optional(&mut o, "error", &self.error);
        o.finish()
    }

    fn from_json(j: &Json, at: &str, form: Form) -> (r: Result<TaskResult, DecodeError>) {
        let names = [
            "task_id",
            "chain_id",
            "step_index",
            "status",
            "exit_code",
            "stdout",
            "stderr",
            "duration_ms",
            "timestamp",
            "error",
        ];
        let listed = wire::unlist(j, &names, 9, form);
        let j = match &listed {
            Some(o) => o,
            None => j,
        };
        proof {
            assert(wire::strs(names@) =~= seq![
                "task_id"@,
                "chain_id"@,
                "step_index"@,
                "status"@,
                "exit_code"@,
                "stdout"@,
                "stderr"@,
                "duration_ms"@,
                "timestamp"@,
                "error"@,
            ]);
        }
        if !j.is_object() {
            return Err(DecodeError::Invalid(at.to_owned()));
        }
        let task_id = match wire::required::<Uuid>(j, "task_id", form) {
            Ok(x) => x,
            Err(e) => return Err(e),
        };
        let chain_id = match wire::optional::<Uuid>(j, "chain_id", form) {
            Ok(x) => x,
            Err(e) => return Err(e),
        };
        let step_index = match wire::optional::<u32>(j, "step_index", form) {
            Ok(x) => x,
            Err(e) => return Err(e),
        };
        let status = match wire::required::<TaskResultStatus>(j, "status", form) {
            Ok(x) => x,
            Err(e) => return Err(e),
        };
        let exit_code = match wire::optional::<i32>(j, "exit_code", form) {
            Ok(x) => x,
            Err(e) => return Err(e),
        };
        let stdout = match wire::defaulted::<String>(j, "stdout", String::new(), form) {
            Ok(x) => x,
            Err(e) => return Err(e),
        };
        let stderr = match wire::defaulted::<String>(j, "stderr", String::new(), form) {
            Ok(x) => x,
            Err(e) => return Err(e),
        };
        let duration_ms = match wire::required::<u64>(j, "duration_ms", form) {
            Ok(x) => x,
            Err(e) => return Err(e),
        };
        let timestamp = match wire::required::<u64>(j, "timestamp", form) {
            Ok(x) => x,
            Err(e) => return Err(e),
        };
        let error = match wire::optional::<String>(j, "error", form) {
            Ok(x) => x,
            Err(e) => return Err(e),
        };
        Ok(TaskResult { task_id, chain_id, step_index, status, exit_code, stdout, stderr, duration_ms, timestamp, error })
    }

    proof fn law_reads_what_it_writes(m: TaskResultModel, at: Seq<char>, form: Form) {
        reveal_strlit("task_id");
        reveal_strlit("chain_id");
        reveal_strlit("step_index");
        reveal_strlit("status");
        reveal_strlit("exit_code");
        reveal_strlit("stdout");
        reveal_strlit("stderr");
        reveal_strlit("duration_ms");
        reveal_strlit("timestamp");
        reveal_strlit("error");
        assert("task_id"@.len() == 7);
        assert("chain_id"@.len() == 8);
        assert("step_index"@.len() == 10);
        assert("status"@.len() == 6);
        assert("exit_code"@.len() == 9);
        assert("stdout"@.len() == 6);
        assert("stderr"@.len() == 6);
        assert("duration_ms"@.len() == 11);
        assert("timestamp"@.len() == 9);
        assert("error"@.len() == 5);
        assert("status"@[2] != "stdout"@[2]);
        assert("status"@[2] != "stderr"@[2]);
        assert("exit_code"@[0] != "timestamp"@[0]);
        assert("stdout"@[3] != "stderr"@[3]);
        Uuid::law_reads_what_it_writes(m.task_id, "task_id"@, form);
        wire::lemma_optional_reads_back::<Uuid>(m.chain_id, "chain_id"@, form);
        wire::lemma_optional_reads_back::<u32>(m.step_index, "step_index"@, form);
        TaskResultStatus::law_reads_what_it_writes(m.status, "status"@, form);
        wire::lemma_optional_reads_back::<i32>(m.exit_code, "exit_code"@, form);
        String::law_reads_what_it_writes(m.stdout, "stdout"@, form);
        String::law_reads_what_it_writes(m.stderr, "stderr"@, form);
        u64::law_reads_what_it_writes(m.duration_ms, "duration_ms"@, form);
        u64::law_reads_what_it_writes(m.timestamp, "timestamp"@, form);
        wire::lemma_optional_reads_back::<String>(m.error, "error"@, form);
        let t = TaskResult::tree(m);
        assert(t.field("task_id"@) == Some(Uuid::tree(m.task_id)));
        assert(t.field("chain_id"@) == wire::optional_tree::<Uuid>(m.chain_id));
        assert(t.field("step_index"@) == wire::optional_tree::<u32>(m.step_index));
        assert(t.field("status"@) == Some(TaskResultStatus::tree(m.status)));
        assert(t.field("exit_code"@) == wire::optional_tree::<i32>(m.exit_code));
        assert(t.field("stdout"@) == Some(String::tree(m.stdout)));
        assert(t.field("stderr"@) == Some(String::tree(m.stderr)));
        assert(t.field("duration_ms"@) == Some(u64::tree(m.duration_ms)));
        assert(t.field("timestamp"@) == Some(u64::tree(m.timestamp)));
        assert(t.field("error"@) == wire::optional_tree::<String>(m.error));
    }

    proof fn law_fits(m: TaskResultModel, depth: nat) {
        let inner = (depth - 1) as nat;
        let o = Map::<Seq<char>, JsonView>::empty();
        Uuid::law_fits(m.task_id, inner);
        let v = Uuid::tree(m.task_id);
        json::lemma_insert_within(o, "task_id"@, v, inner);
        let o = o.insert("task_id"@, v);
        wire::lemma_optional_within::<Uuid>(o, "chain_id"@, m.chain_id, inner);
        let o = wire::with_optional::<Uuid>(o, "chain_id"@, m.chain_id);
        wire::lemma_optional_within::<u32>(o, "step_index"@, m.step_index, inner);
        let o = wire::with_optional::<u32>(o, "step_index"@, m.step_index);
        TaskResultStatus::law_fits(m.status, inner);
        let v = TaskResultStatus::tree(m.status);
        json::lemma_insert_within(o, "status"@, v, inner);
        let o = o.insert("status"@, v);
        wire::lemma_optional_within::<i32>(o, "exit_code"@, m.exit_code, inner);
        let o = wire::with_optional::<i32>(o, "exit_code"@, m.exit_code);
        String::law_fits(m.stdout, inner);
        let v = String::tree(m.stdout);
        json::lemma_insert_within(o, "stdout"@, v, inner);
        let o = o.insert("stdout"@, v);
        String::law_fits(m.stderr, inner);
        let v = String::tree(m.stderr);
        json::lemma_insert_within(o, "stderr"@, v, inner);
        let o = o.insert("stderr"@, v);
        u64::law_fits(m.duration_ms, inner);
        let v = u64::tree(m.duration_ms);
        json::lemma_insert_within(o, "duration_ms"@, v, inner);
        let o = o.insert("duration_ms"@, v);
        u64::law_fits(m.timestamp, inner);
        let v = u64::tree(m.timestamp);
        json::lemma_insert_within(o, "timestamp"@, v, inner);
        let o = o.insert("timestamp"@, v);
        wire::lemma_optional_within::<String>(o, "error"@, m.error, inner);
        let o = wire::with_optional::<String>(o, "error"@, m.error);
    }
}

impl TaskResult {
    /// A copy.
    pub fn duplicate(&self) -> (r: TaskResult)
        ensures
            r == *self,
    {
        TaskResult {
            task_id: self.task_id,
            chain_id: self.chain_id,
            step_index: self.step_index,
            status: self.status,
            exit_code: self.exit_code,
            stdout: self.stdout.clone(),
            stderr: self.stderr.clone(),
            duration_ms: self.duration_ms,
            timestamp: self.timestamp,
            error: match &self.error {
                Some(e) => Some(e.clone()),
                None => None,
            },
        }
    }
}

} // verus!
