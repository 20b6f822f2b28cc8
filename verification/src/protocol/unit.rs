//! Managed units: sidecars and packages.

use crate::json::{self, Json, JsonObject, JsonView};
use crate::text;
use crate::wire::{self, DecodeError, Fault, Form, Wire};
use vstd::prelude::*;
use vstd::string::*;

verus! {

/// Kinds of managed units.
#[derive(Debug, Clone, Copy, PartialEq, Eq, Hash, Structural)]
pub enum UnitKind {
    /// Speaks the sidecar IPC protocol over a Unix socket.
    Sidecar,
    /// Managed by shell commands alone.
    Package,
}

impl UnitKind {
    /// The name on the wire.
    pub open spec fn wire_name(self) -> Seq<char> {
        match self {
            UnitKind::Sidecar => "sidecar"@,
            UnitKind::Package => "package"@,
        }
    }

    /// The name on the wire.
    pub fn as_str(&self) -> (r: &'static str)
        ensures
            r@ == self.wire_name(),
    {
        match self {
            UnitKind::Sidecar => "sidecar",
            UnitKind::Package => "package",
        }
    }

    /// The value that a name stands for.
    pub open spec fn of_name(s: Seq<char>) -> Option<UnitKind> {
        if s == "sidecar"@ {
            Some(UnitKind::Sidecar)
        } else if s == "package"@ {
            Some(UnitKind::Package)
        } else {
            None
        }
    }

    /// Reads a name.
    pub fn parse(s: &str) -> (r: Option<UnitKind>)
        ensures
            r == UnitKind::of_name(s@),
    {
        if text::same(s, "sidecar") {
            Some(UnitKind::Sidecar)
        } else if text::same(s, "package") {
            Some(UnitKind::Package)
        } else {
            None
        }
    }
}

impl Wire for UnitKind {
    type Model = UnitKind;

    open spec fn model(&self) -> UnitKind {
        *self
    }

    open spec fn tree(m: UnitKind) -> JsonView {
        JsonView::Text(m.wire_name())
    }

    open spec fn read(t: JsonView, at: Seq<char>, form: Form) -> Result<UnitKind, Fault> {
        match wire::name_in(t, form) {
            Some(s) => match UnitKind::of_name(s) {
                Some(v) => Ok(v),
                None => Err(Fault::Invalid(at)),
            },
            None => Err(Fault::Invalid(at)),
        }
    }

    open spec fn lossless(m: UnitKind) -> bool {
        true
    }

    open spec fn fits(m: UnitKind, depth: nat) -> bool {
        true
    }

    fn to_json(&self) -> (r: Json) {
        Json::text(self.as_str())
    }

    fn from_json(j: &Json, at: &str, form: Form) -> (r: Result<UnitKind, DecodeError>) {
        match wire::name_of(j, form) {
            Some(s) => match UnitKind::parse(s) {
                Some(v) => Ok(v),
                None => Err(DecodeError::Invalid(at.to_owned())),
            },
            None => Err(DecodeError::Invalid(at.to_owned())),
        }
    }

    proof fn law_reads_what_it_writes(m: UnitKind, at: Seq<char>, form: Form) {
        reveal_strlit("sidecar");
        reveal_strlit("package");
        assert("sidecar"@.len() == 7);
        assert("package"@.len() == 7);
        assert("sidecar"@[0] != "package"@[0]);
    }

    proof fn law_fits(m: UnitKind, depth: nat) {
    }
}

/// Lifecycle states of a managed unit.
#[derive(Debug, Clone, Copy, PartialEq, Eq, Hash, Structural)]
pub enum UnitState {
    /// Present, not running.
    Installed,
    /// Its process runs; sidecars only.
    Running,
    /// Stopped on request.
    Stopped,
    /// Not on the host.
    Absent,
}

impl Default for UnitState {
    fn default() -> (r: Self)
        ensures
            r == UnitState::Absent,
    {
        UnitState::Absent
    }
}

impl UnitState {
    /// The name on the wire.
    pub open spec fn wire_name(self) -> Seq<char> {
        match self {
            UnitState::Installed => "installed"@,
            UnitState::Running => "running"@,
            UnitState::Stopped => "stopped"@,
            UnitState::Absent => "absent"@,
        }
    }

    /// The name on the wire.
    pub fn as_str(&self) -> (r: &'static str)
        ensures
            r@ == self.wire_name(),
    {
        match self {
            UnitState::Installed => "installed",
            UnitState::Running => "running",
            UnitState::Stopped => "stopped",
            UnitState::Absent => "absent",
        }
    }

    /// The value that a name stands for.
    pub open spec fn of_name(s: Seq<char>) -> Option<UnitState> {
        if s == "installed"@ {
            Some(UnitState::Installed)
        } else if s == "running"@ {
            Some(UnitState::Running)
        } else if s == "stopped"@ {
            Some(UnitState::Stopped)
        } else if s == "absent"@ {
            Some(UnitState::Absent)
        } else {
            None
        }
    }

    /// Reads a name.
    pub fn parse(s: &str) -> (r: Option<UnitState>)
        ensures
            r == UnitState::of_name(s@),
    {
        if text::same(s, "installed") {
            Some(UnitState::Installed)
        } else if text::same(s, "running") {
            Some(UnitState::Running)
        } else if text::same(s, "stopped") {
            Some(UnitState::Stopped)
        } else if text::same(s, "absent") {
            Some(UnitState::Absent)
        } else {
            None
        }
    }
}

impl Wire for UnitState {
    type Model = UnitState;

    open spec fn model(&self) -> UnitState {
        *self
    }

    open spec fn tree(m: UnitState) -> JsonView {
        JsonView::Text(m.wire_name())
    }

    open spec fn read(t: JsonView, at: Seq<char>, form: Form) -> Result<UnitState, Fault> {
        match wire::name_in(t, form) {
            Some(s) => match UnitState::of_name(s) {
                Some(v) => Ok(v),
                None => Err(Fault::Invalid(at)),
            },
            None => Err(Fault::Invalid(at)),
        }
    }

    open spec fn lossless(m: UnitState) -> bool {
        true
    }

    open spec fn fits(m: UnitState, depth: nat) -> bool {
        true
    }

    fn to_json(&self) -> (r: Json) {
        Json::text(self.as_str())
    }

    fn from_json(j: &Json, at: &str, form: Form) -> (r: Result<UnitState, DecodeError>) {
        match wire::name_of(j, form) {
            Some(s) => match UnitState::parse(s) {
                Some(v) => Ok(v),
                None => Err(DecodeError::Invalid(at.to_owned())),
            },
            None => Err(DecodeError::Invalid(at.to_owned())),
        }
    }

    proof fn law_reads_what_it_writes(m: UnitState, at: Seq<char>, form: Form) {
        reveal_strlit("installed");
        reveal_strlit("running");
        reveal_strlit("stopped");
        reveal_strlit("absent");
        assert("installed"@.len() == 9);
        assert("running"@.len() == 7);
        assert("stopped"@.len() == 7);
        assert("absent"@.len() == 6);
        assert("running"@[0] != "stopped"@[0]);
    }

    proof fn law_fits(m: UnitState, depth: nat) {
    }
}

/// A download and the digest it has to have.
#[derive(Debug, Clone, PartialEq)]
pub struct Artifact {
    /// Where it is fetched from.
    pub url: String,
    /// SHA-256 in 64 small hexadecimal digits.
    pub sha256: String,
}

/// What a value of [`Artifact`] is.
#[verifier::ext_equal]
pub struct ArtifactModel {
    pub url: Seq<char>,
    pub sha256: Seq<char>,
}

impl Wire for Artifact {
    type Model = ArtifactModel;

    open spec fn model(&self) -> ArtifactModel {
        ArtifactModel {
            url: self.url.model(),
            sha256: self.sha256.model(),
        }
    }

    open spec fn tree(m: ArtifactModel) -> JsonView {
        let o = Map::<Seq<char>, JsonView>::empty();
        let o = o.insert("url"@, String::tree(m.url));
        let o = o.insert("sha256"@, String::tree(m.sha256));
        JsonView::Object(o)
    }

    open spec fn read(t: JsonView, at: Seq<char>, form: Form) -> Result<ArtifactModel, Fault> {
        let t = wire::unlisted(t, seq!["url"@, "sha256"@], 2, form);
        let url = wire::read_required::<String>(t, "url"@, form);
        let sha256 = wire::read_required::<String>(t, "sha256"@, form);
        if !(t is Object) {
            Err(Fault::Invalid(at))
        } else if url is Err {
            Err(url->Err_0)
        } else if sha256 is Err {
            Err(sha256->Err_0)
        } else {
            Ok(ArtifactModel {
                url: url->Ok_0,
                sha256: sha256->Ok_0,
            })
        }
    }

    open spec fn lossless(m: ArtifactModel) -> bool {
        &&& String::lossless(m.url)
        &&& String::lossless(m.sha256)
    }

    open spec fn fits(m: ArtifactModel, depth: nat) -> bool {
        &&& depth > 0
        &&& String::fits(m.url, (depth - 1) as nat)
        &&& String::fits(m.sha256, (depth - 1) as nat)
    }

    fn to_json(&self) -> (r: Json) {
        let mut o = JsonObject::new();
        o.set("url", self.url.to_json());
        o.set("sha256", self.sha256.to_json());
        o.finish()
    }

    fn from_json(j: &Json, at: &str, form: Form) -> (r: Result<Artifact, DecodeError>) {
        let names = ["url", "sha256"];
        let listed = wire::unlist(j, &names, 2, form);
        let j = match &listed {
            Some(o) => o,
            None => j,
        };
        proof {
            assert(wire::strs(names@) =~= seq!["url"@, "sha256"@]);
        }
        if !j.is_object() {
            return Err(DecodeError::Invalid(at.to_owned()));
        }
        let url = match wire::required::<String>(j, "url", form) {
            Ok(x) => x,
            Err(e) => return Err(e),
        };
        let sha256 = match wire::required::<String>(j, "sha256", form) {
            Ok(x) => x,
            Err(e) => return Err(e),
        };
        Ok(Artifact { url, sha256 })
    }

    proof fn law_reads_what_it_writes(m: ArtifactModel, at: Seq<char>, form: Form) {
        reveal_strlit("url");
        reveal_strlit("sha256");
        assert("url"@.len() == 3);
        assert("sha256"@.len() == 6);
        String::law_reads_what_it_writes(m.url, "url"@, form);
        String::law_reads_what_it_writes(m.sha256, "sha256"@, form);
        let t = Artifact::tree(m);
        assert(t.field("url"@) == Some(String::tree(m.url)));
        assert(t.field("sha256"@) == Some(String::tree(m.sha256)));
    }

    proof fn law_fits(m: ArtifactModel, depth: nat) {
        let inner = (depth - 1) as nat;
        let o = Map::<Seq<char>, JsonView>::empty();
        String::law_fits(m.url, inner);
        let v = String::tree(m.url);
        json::lemma_insert_within(o, "url"@, v, inner);
        let o = o.insert("url"@, v);
        String::law_fits(m.sha256, inner);
        let v = String::tree(m.sha256);
        json::lemma_insert_within(o, "sha256"@, v, inner);
        let o = o.insert("sha256"@, v);
    }
}

/// How long a health command may take where a check does not say.
pub fn default_health_timeout_ms() -> (r: u64)
    ensures
        r == 5_000,
{
    5_000
}

/// How a package is checked; sidecars answer `health` themselves.
#[derive(Debug, Clone, PartialEq)]
pub struct HealthCheck {
    /// Shell command; exit code 0 means healthy.
    pub command: String,
    /// Milliseconds the command may take.
    pub timeout_ms: u64,
}

/// What a value of [`HealthCheck`] is.
#[verifier::ext_equal]
pub struct HealthCheckModel {
    pub command: Seq<char>,
    pub timeout_ms: u64,
}

impl Wire for HealthCheck {
    type Model = HealthCheckModel;

    open spec fn model(&self) -> HealthCheckModel {
        HealthCheckModel {
            command: self.command.model(),
            timeout_ms: self.timeout_ms.model(),
        }
    }

    open spec fn tree(m: HealthCheckModel) -> JsonView {
        let o = Map::<Seq<char>, JsonView>::empty();
        let o = o.insert("command"@, String::tree(m.command));
        let o = o.insert("timeout_ms"@, u64::tree(m.timeout_ms));
        JsonView::Object(o)
    }

    open spec fn read(t: JsonView, at: Seq<char>, form: Form) -> Result<HealthCheckModel, Fault> {
        let t = wire::unlisted(t, seq!["command"@, "timeout_ms"@], 1, form);
        let command = wire::read_required::<String>(t, "command"@, form);
        let timeout_ms = wire::read_or::<u64>(t, "timeout_ms"@, 5_000u64, form);
        if !(t is Object) {
            Err(Fault::Invalid(at))
        } else if command is Err {
            Err(command->Err_0)
        } else if timeout_ms is Err {
            Err(timeout_ms->Err_0)
        } else {
            Ok(HealthCheckModel {
                command: command->Ok_0,
                timeout_ms: timeout_ms->Ok_0,
            })
        }
    }

    open spec fn lossless(m: HealthCheckModel) -> bool {
        &&& String::lossless(m.command)
        &&& u64::lossless(m.timeout_ms)
    }

    open spec fn fits(m: HealthCheckModel, depth: nat) -> bool {
        &&& depth > 0
        &&& String::fits(m.command, (depth - 1) as nat)
        &&& u64::fits(m.timeout_ms, (depth - 1) as nat)
    }

    fn to_json(&self) -> (r: Json) {
        let mut o = JsonObject::new();
        o.set("command", self.command.to_json());
        o.set("timeout_ms", self.timeout_ms.to_json());
        o.finish()
    }

    fn from_json(j: &Json, at: &str, form: Form) -> (r: Result<HealthCheck, DecodeError>) {
        let names = ["command", "timeout_ms"];
        let listed = wire::unlist(j, &names, 1, form);
        let j = match &listed {
            Some(o) => o,
            None => j,
        };
        proof {
            assert(wire::strs(names@) =~= seq!["command"@, "timeout_ms"@]);
        }
        if !j.is_object() {
            return Err(DecodeError::Invalid(at.to_owned()));
        }
        let command = match wire::required::<String>(j, "command", form) {
            Ok(x) => x,
            Err(e) => return Err(e),
        };
        let timeout_ms = match wire::defaulted::<u64>(j, "timeout_ms", default_health_timeout_ms(), form) {
            Ok(x) => x,
            Err(e) => return Err(e),
        };
        Ok(HealthCheck { command, timeout_ms })
    }

    proof fn law_reads_what_it_writes(m: HealthCheckModel, at: Seq<char>, form: Form) {
        reveal_strlit("command");
        reveal_strlit("timeout_ms");
        assert("command"@.len() == 7);
        assert("timeout_ms"@.len() == 10);
        String::law_reads_what_it_writes(m.command, "command"@, form);
        u64::law_reads_what_it_writes(m.timeout_ms, "timeout_ms"@, form);
        let t = HealthCheck::tree(m);
        assert(t.field("command"@) == Some(String::tree(m.command)));
        assert(t.field("timeout_ms"@) == Some(u64::tree(m.timeout_ms)));
    }

    proof fn law_fits(m: HealthCheckModel, depth: nat) {
        let inner = (depth - 1) as nat;
        let o = Map::<Seq<char>, JsonView>::empty();
        String::law_fits(m.command, inner);
        let v = String::tree(m.command);
        json::lemma_insert_within(o, "command"@, v, inner);
        let o = o.insert("command"@, v);
        u64::law_fits(m.timeout_ms, inner);
        let v = u64::tree(m.timeout_ms);
        json::lemma_insert_within(o, "timeout_ms"@, v, inner);
        let o = o.insert("timeout_ms"@, v);
    }
}

/// A piece of software whose lifecycle the agent controls.
#[derive(Debug, Clone, PartialEq)]
pub struct ManagedUnit {
    /// Unique name.
    pub name: String,
    /// Whether it speaks the sidecar protocol.
    pub kind: UnitKind,
    /// Installed version.
    pub version: String,
    /// Where it comes from.
    pub artifact: Artifact,
    /// Lifecycle state.
    pub state: UnitState,
    /// Check for a package.
    pub health_check: Option<HealthCheck>,
    /// Configuration of the unit, passed on as it is.
    pub config: Option<Json>,
    /// IPC socket of a sidecar.
    pub socket_path: Option<String>,
}

/// What a value of [`ManagedUnit`] is.
#[verifier::ext_equal]
pub struct ManagedUnitModel {
    pub name: Seq<char>,
    pub kind: UnitKind,
    pub version: Seq<char>,
    pub artifact: ArtifactModel,
    pub state: UnitState,
    pub health_check: Option<HealthCheckModel>,
    pub config: Option<JsonView>,
    pub socket_path: Option<Seq<char>>,
}

impl Wire for ManagedUnit {
    type Model = ManagedUnitModel;

    open spec fn model(&self) -> ManagedUnitModel {
        ManagedUnitModel {
            name: self.name.model(),
            kind: self.kind.model(),
            version: self.version.model(),
            artifact: self.artifact.model(),
            state: self.state.model(),
            health_check: wire::optional_model(self.health_check),
            config: wire::optional_model(self.config),
            socket_path: wire::optional_model(self.socket_path),
        }
    }

    open spec fn tree(m: ManagedUnitModel) -> JsonView {
        let o = Map::<Seq<char>, JsonView>::empty();
        let o = o.insert("name"@, String::tree(m.name));
        let o = o.insert("kind"@, UnitKind::tree(m.kind));
        let o = o.insert("version"@, String::tree(m.version));
        let o = o.insert("artifact"@, Artifact::tree(m.artifact));
        let o = o.insert("state"@, UnitState::tree(m.state));
        let o = wire::with_optional::<HealthCheck>(o, "health_check"@, m.health_check);
        let o = wire::with_optional::<Json>(o, "config"@, m.config);
        let o = wire::with_optional::<String>(o, "socket_path"@, m.socket_path);
        JsonView::Object(o)
    }

    open spec fn read(t: JsonView, at: Seq<char>, form: Form) -> Result<ManagedUnitModel, Fault> {
        let t = wire::unlisted(
            t,
            seq![
                "name"@,
                "kind"@,
                "version"@,
                "artifact"@,
                "state"@,
                "health_check"@,
                "config"@,
                "socket_path"@,
            ],
            4,
            form,
        );
        let name = wire::read_required::<String>(t, "name"@, form);
        let kind = wire::read_required::<UnitKind>(t, "kind"@, form);
        let version = wire::read_required::<String>(t, "version"@, form);
        let artifact = wire::read_required::<Artifact>(t, "artifact"@, form);
        let state = wire::read_or::<UnitState>(t, "state"@, UnitState::Absent, form);
        let health_check = wire::read_optional::<HealthCheck>(t, "health_check"@, form);
        let config = wire::read_optional::<Json>(t, "config"@, form);
        let socket_path = wire::read_optional::<String>(t, "socket_path"@, form);
        if !(t is Object) {
            Err(Fault::Invalid(at))
        } else if name is Err {
            Err(name->Err_0)
        } else if kind is Err {
            Err(kind->Err_0)
        } else if version is Err {
            Err(version->Err_0)
        } else if artifact is Err {
            Err(artifact->Err_0)
        } else if state is Err {
            Err(state->Err_0)
        } else if health_check is Err {
            Err(health_check->Err_0)
        } else if config is Err {
            Err(config->Err_0)
        } else if socket_path is Err {
            Err(socket_path->Err_0)
        } else {
            Ok(ManagedUnitModel {
                name: name->Ok_0,
                kind: kind->Ok_0,
                version: version->Ok_0,
                artifact: artifact->Ok_0,
                state: state->Ok_0,
                health_check: health_check->Ok_0,
                config: config->Ok_0,
                socket_path: socket_path->Ok_0,
            })
        }
    }

    open spec fn lossless(m: ManagedUnitModel) -> bool {
        &&& String::lossless(m.name)
        &&& UnitKind::lossless(m.kind)
        &&& String::lossless(m.version)
        &&& Artifact::lossless(m.artifact)
        &&& UnitState::lossless(m.state)
        &&& wire::optional_lossless::<HealthCheck>(m.health_check)
        &&& wire::optional_lossless::<Json>(m.config)
        &&& wire::optional_lossless::<String>(m.socket_path)
    }

    open spec fn fits(m: ManagedUnitModel, depth: nat) -> bool {
        &&& depth > 0
        &&& String::fits(m.name, (depth - 1) as nat)
        &&& UnitKind::fits(m.kind, (depth - 1) as nat)
        &&& String::fits(m.version, (depth - 1) as nat)
        &&& Artifact::fits(m.artifact, (depth - 1) as nat)
        &&& UnitState::fits(m.state, (depth - 1) as nat)
        &&& wire::optional_fits::<HealthCheck>(m.health_check, (depth - 1) as nat)
        &&& wire::optional_fits::<Json>(m.config, (depth - 1) as nat)
        &&& wire::optional_fits::<String>(m.socket_path, (depth - 1) as nat)
    }

    fn to_json(&self) -> (r: Json) {
        let mut o = JsonObject::new();
        o.set("name", self.name.to_json());
        o.set("kind", self.kind.to_json());
        o.set("version", self.version.to_json());
        o.set("artifact", self.artifact.to_json());
        o.set("state", self.state.to_json());
        wire::set_optional(&mut o, "health_check", &self.health_check);
        wire::set_optional(&mut o, "config", &self.config);
        wire::set_optional(&mut o, "socket_path", &self.socket_path);
        o.finish()
    }

    fn from_json(j: &Json, at: &str, form: Form) -> (r: Result<ManagedUnit, DecodeError>) {
        let names = [
            "name",
            "kind",
            "version",
            "artifact",
            "state",
            "health_check",
            "config",
            "socket_path",
        ];
        let listed = wire::unlist(j, &names, 4, form);
        let j = match &listed {
            Some(o) => o,
            None => j,
        };
        proof {
            assert(wire::strs(names@) =~= seq![
                "name"@,
                "kind"@,
                "version"@,
                "artifact"@,
                "state"@,
                "health_check"@,
                "config"@,
                "socket_path"@,
            ]);
        }
        if !j.is_object() {
            return Err(DecodeError::Invalid(at.to_owned()));
        }
        let name = match wire::required::<String>(j, "name", form) {
            Ok(x) => x,
            Err(e) => return Err(e),
        };
        let kind = match wire::required::<UnitKind>(j, "kind", form) {
            Ok(x) => x,
            Err(e) => return Err(e),
        };
        let version = match wire::required::<String>(j, "version", form) {
            Ok(x) => x,
            Err(e) => return Err(e),
        };
        let artifact = match wire::required::<Artifact>(j, "artifact", form) {
            Ok(x) => x,
            Err(e) => return Err(e),
        };
        let state = match wire::defaulted::<UnitState>(j, "state", UnitState::Absent, form) {
            Ok(x) => x,
            Err(e) => return Err(e),
        };
        let health_check = match wire::optional::<HealthCheck>(j, "health_check", form) {
            Ok(x) => x,
            Err(e) => return Err(e),
        };
        let config = match wire::optional::<Json>(j, "config", form) {
            Ok(x) => x,
            Err(e) => return Err(e),
        };
        let socket_path = match wire::optional::<String>(j, "socket_path", form) {
            Ok(x) => x,
            Err(e) => return Err(e),
        };
        Ok(ManagedUnit { name, kind, version, artifact, state, health_check, config, socket_path })
    }

    proof fn law_reads_what_it_writes(m: ManagedUnitModel, at: Seq<char>, form: Form) {
        reveal_strlit("name");
        reveal_strlit("kind");
        reveal_strlit("version");
        reveal_strlit("artifact");
        reveal_strlit("state");
        reveal_strlit("health_check");
        reveal_strlit("config");
        reveal_strlit("socket_path");
        assert("name"@.len() == 4);
        assert("kind"@.len() == 4);
        assert("version"@.len() == 7);
        assert("artifact"@.len() == 8);
        assert("state"@.len() == 5);
        assert("health_check"@.len() == 12);
        assert("config"@.len() == 6);
        assert("socket_path"@.len() == 11);
        assert("name"@[0] != "kind"@[0]);
        String::law_reads_what_it_writes(m.name, "name"@, form);
        UnitKind::law_reads_what_it_writes(m.kind, "kind"@, form);
        String::law_reads_what_it_writes(m.version, "version"@, form);
        Artifact::law_reads_what_it_writes(m.artifact, "artifact"@, form);
        UnitState::law_reads_what_it_writes(m.state, "state"@, form);
        wire::lemma_optional_reads_back::<HealthCheck>(m.health_check, "health_check"@, form);
        wire::lemma_optional_reads_back::<Json>(m.config, "config"@, form);
        wire::lemma_optional_reads_back::<String>(m.socket_path, "socket_path"@, form);
        let t = ManagedUnit::tree(m);
        assert(t.field("name"@) == Some(String::tree(m.name)));
        assert(t.field("kind"@) == Some(UnitKind::tree(m.kind)));
        assert(t.field("version"@) == Some(String::tree(m.version)));
        assert(t.field("artifact"@) == Some(Artifact::tree(m.artifact)));
        assert(t.field("state"@) == Some(UnitState::tree(m.state)));
        assert(t.field("health_check"@) == wire::optional_tree::<HealthCheck>(m.health_check));
        assert(t.field("config"@) == wire::optional_tree::<Json>(m.config));
        assert(t.field("socket_path"@) == wire::optional_tree::<String>(m.socket_path));
    }

    proof fn law_fits(m: ManagedUnitModel, depth: nat) {
        let inner = (depth - 1) as nat;
        let o = Map::<Seq<char>, JsonView>::empty();
        String::law_fits(m.name, inner);
        let v = String::tree(m.name);
        json::lemma_insert_within(o, "name"@, v, inner);
        let o = o.insert("name"@, v);
        UnitKind::law_fits(m.kind, inner);
        let v = UnitKind::tree(m.kind);
        json::lemma_insert_within(o, "kind"@, v, inner);
        let o = o.insert("kind"@, v);
        String::law_fits(m.version, inner);
        let v = String::tree(m.version);
        json::lemma_insert_within(o, "version"@, v, inner);
        let o = o.insert("version"@, v);
        Artifact::law_fits(m.artifact, inner);
        let v = Artifact::tree(m.artifact);
        json::lemma_insert_within(o, "artifact"@, v, inner);
        let o = o.insert("artifact"@, v);
        UnitState::law_fits(m.state, inner);
        let v = UnitState::tree(m.state);
        json::lemma_insert_within(o, "state"@, v, inner);
        let o = o.insert("state"@, v);
        wire::lemma_optional_within::<HealthCheck>(o, "health_check"@, m.health_check, inner);
        let o = wire::with_optional::<HealthCheck>(o, "health_check"@, m.health_check);
        wire::lemma_optional_within::<Json>(o, "config"@, m.config, inner);
        let o = wire::with_optional::<Json>(o, "config"@, m.config);
        wire::lemma_optional_within::<String>(o, "socket_path"@, m.socket_path, inner);
        let o = wire::with_optional::<String>(o, "socket_path"@, m.socket_path);
    }
}

} // verus!
