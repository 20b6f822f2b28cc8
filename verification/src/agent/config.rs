//! The agent's configuration: what the file says, what of it can change while
//! the agent runs, and what is wrong with it.

use crate::agent::defaults;
use crate::agent::error::{joined, Error, ErrorModel};
use crate::ids::Uuid;
use crate::json::{self, Json, JsonObject, JsonView};
use crate::text;
use crate::wire::{self, DecodeError, Fault, Form, Wire};
use vstd::prelude::*;
use vstd::string::*;

verus! {

/// What the `toml` crate makes of a text: a tree, or the text of its complaint.
pub uninterp spec fn parsed_toml(text: Seq<char>) -> Result<JsonView, Seq<char>>;

/// `toml::from_str` into a `serde_json` tree: the tree or the complaint, by the
/// text alone.
#[verifier::external_body]
fn value_from_toml(text: &str) -> (r: Result<serde_json::Value, String>)
    ensures
        match r {
            Ok(v) => parsed_toml(text@) == Ok::<JsonView, Seq<char>>(json::value_view(v)),
            Err(e) => parsed_toml(text@) == Err::<JsonView, Seq<char>>(e@),
        },
{
    toml::from_str(text).map_err(|e| e.to_string())
}

/// Reads a TOML text. JSON has no number for TOML's `nan` and `inf`: `null` stands
/// for them, which nothing else in a TOML text becomes.
pub fn parse_toml(text: &str) -> (r: Result<Json, String>)
    ensures
        match r {
            Ok(j) => parsed_toml(text@) == Ok::<JsonView, Seq<char>>(j@),
            Err(e) => parsed_toml(text@) == Err::<JsonView, Seq<char>>(e@),
        },
{
    match value_from_toml(text) {
        Ok(v) => Ok(json::from_value(&v)),
        Err(e) => Err(e),
    }
}

/// How the agent gets its tasks.
#[derive(Debug, Clone, Copy, PartialEq, Eq, Hash, Structural)]
pub enum TransportMode {
    /// It asks for them over HTTP.
    Poll,
    /// They are pushed over a gRPC stream.
    Grpc,
}

impl Default for TransportMode {
    fn default() -> (r: Self)
        ensures
            r == TransportMode::Poll,
    {
        TransportMode::Poll
    }
}

impl TransportMode {
    /// The name on the wire.
    pub open spec fn wire_name(self) -> Seq<char> {
        match self {
            TransportMode::Poll => "poll"@,
            TransportMode::Grpc => "grpc"@,
        }
    }

    /// The name on the wire.
    pub fn as_str(&self) -> (r: &'static str)
        ensures
            r@ == self.wire_name(),
    {
        match self {
            TransportMode::Poll => "poll",
            TransportMode::Grpc => "grpc",
        }
    }

    /// The value that a name stands for.
    pub open spec fn of_name(s: Seq<char>) -> Option<TransportMode> {
        if s == "poll"@ {
            Some(TransportMode::Poll)
        } else if s == "grpc"@ {
            Some(TransportMode::Grpc)
        } else {
            None
        }
    }

    /// Reads a name.
    pub fn parse(s: &str) -> (r: Option<TransportMode>)
        ensures
            r == TransportMode::of_name(s@),
    {
        if text::same(s, "poll") {
            Some(TransportMode::Poll)
        } else if text::same(s, "grpc") {
            Some(TransportMode::Grpc)
        } else {
            None
        }
    }
}

impl Wire for TransportMode {
    type Model = TransportMode;

    open spec fn model(&self) -> TransportMode {
        *self
    }

    open spec fn tree(m: TransportMode) -> JsonView {
        JsonView::Text(m.wire_name())
    }

    open spec fn read(t: JsonView, at: Seq<char>, form: Form) -> Result<TransportMode, Fault> {
        match wire::name_in(t, form) {
            Some(s) => match TransportMode::of_name(s) {
                Some(v) => Ok(v),
                None => Err(Fault::Invalid(at)),
            },
            None => Err(Fault::Invalid(at)),
        }
    }

    open spec fn lossless(m: TransportMode) -> bool {
        true
    }

    open spec fn fits(m: TransportMode, depth: nat) -> bool {
        true
    }

    fn to_json(&self) -> (r: Json) {
        Json::text(self.as_str())
    }

    fn from_json(j: &Json, at: &str, form: Form) -> (r: Result<TransportMode, DecodeError>) {
        match wire::name_of(j, form) {
            Some(s) => match TransportMode::parse(s) {
                Some(v) => Ok(v),
                None => Err(DecodeError::Invalid(at.to_owned())),
            },
            None => Err(DecodeError::Invalid(at.to_owned())),
        }
    }

    proof fn law_reads_what_it_writes(m: TransportMode, at: Seq<char>, form: Form) {
        reveal_strlit("poll");
        reveal_strlit("grpc");
        assert("poll"@.len() == 4);
        assert("grpc"@.len() == 4);
        assert("poll"@[0] != "grpc"@[0]);
    }

    proof fn law_fits(m: TransportMode, depth: nat) {
    }
}

/// Section `transport.poll`.
#[derive(Debug, Clone, PartialEq)]
pub struct PollConfig {
    /// Where tasks are asked for.
    pub endpoint: String,
    /// Seconds between two polls.
    pub interval_sec: u64,
}

/// What a value of [`PollConfig`] is.
#[verifier::ext_equal]
pub struct PollConfigModel {
    pub endpoint: Seq<char>,
    pub interval_sec: u64,
}

impl Wire for PollConfig {
    type Model = PollConfigModel;

    open spec fn model(&self) -> PollConfigModel {
        PollConfigModel {
            endpoint: self.endpoint.model(),
            interval_sec: self.interval_sec.model(),
        }
    }

    open spec fn tree(m: PollConfigModel) -> JsonView {
        let o = Map::<Seq<char>, JsonView>::empty();
        let o = o.insert("endpoint"@, String::tree(m.endpoint));
        let o = o.insert("interval_sec"@, u64::tree(m.interval_sec));
        JsonView::Object(o)
    }

    open spec fn read(t: JsonView, at: Seq<char>, form: Form) -> Result<PollConfigModel, Fault> {
        let t = wire::unlisted(t, seq!["endpoint"@, "interval_sec"@], 1, form);
        let endpoint = wire::read_required::<String>(t, "endpoint"@, form);
        let interval_sec = wire::read_or::<u64>(t, "interval_sec"@, 10u64, form);
        if !(t is Object) {
            Err(Fault::Invalid(at))
        } else if endpoint is Err {
            Err(endpoint->Err_0)
        } else if interval_sec is Err {
            Err(interval_sec->Err_0)
        } else {
            Ok(PollConfigModel {
                endpoint: endpoint->Ok_0,
                interval_sec: interval_sec->Ok_0,
            })
        }
    }

    open spec fn lossless(m: PollConfigModel) -> bool {
        &&& String::lossless(m.endpoint)
        &&& u64::lossless(m.interval_sec)
    }

    open spec fn fits(m: PollConfigModel, depth: nat) -> bool {
        &&& depth > 0
        &&& String::fits(m.endpoint, (depth - 1) as nat)
        &&& u64::fits(m.interval_sec, (depth - 1) as nat)
    }

    fn to_json(&self) -> (r: Json) {
        let mut o = JsonObject::new();
        o.set("endpoint", self.endpoint.to_json());
        o.set("interval_sec", self.interval_sec.to_json());
        o.finish()
    }

    fn from_json(j: &Json, at: &str, form: Form) -> (r: Result<PollConfig, DecodeError>) {
        let names = ["endpoint", "interval_sec"];
        let listed = wire::unlist(j, &names, 1, form);
        let j = match &listed {
            Some(o) => o,
            None => j,
        };
        proof {
            assert(wire::strs(names@) =~= seq!["endpoint"@, "interval_sec"@]);
        }
        if !j.is_object() {
            return Err(DecodeError::Invalid(at.to_owned()));
        }
        let endpoint = match wire::required::<String>(j, "endpoint", form) {
            Ok(x) => x,
            Err(e) => return Err(e),
        };
        let interval_sec = match wire::defaulted::<u64>(j, "interval_sec", defaults::poll_interval_sec(), form) {
            Ok(x) => x,
            Err(e) => return Err(e),
        };
        Ok(PollConfig { endpoint, interval_sec })
    }

    proof fn law_reads_what_it_writes(m: PollConfigModel, at: Seq<char>, form: Form) {
        reveal_strlit("endpoint");
        reveal_strlit("interval_sec");
        assert("endpoint"@.len() == 8);
        assert("interval_sec"@.len() == 12);
        String::law_reads_what_it_writes(m.endpoint, "endpoint"@, form);
        u64::law_reads_what_it_writes(m.interval_sec, "interval_sec"@, form);
        let t = PollConfig::tree(m);
        assert(t.field("endpoint"@) == Some(String::tree(m.endpoint)));
        assert(t.field("interval_sec"@) == Some(u64::tree(m.interval_sec)));
    }

    proof fn law_fits(m: PollConfigModel, depth: nat) {
        let inner = (depth - 1) as nat;
        let o = Map::<Seq<char>, JsonView>::empty();
        String::law_fits(m.endpoint, inner);
        let v = String::tree(m.endpoint);
        json::lemma_insert_within(o, "endpoint"@, v, inner);
        let o = o.insert("endpoint"@, v);
        u64::law_fits(m.interval_sec, inner);
        let v = u64::tree(m.interval_sec);
        json::lemma_insert_within(o, "interval_sec"@, v, inner);
        let o = o.insert("interval_sec"@, v);
    }
}

/// Section `transport.grpc`.
#[derive(Debug, Clone, PartialEq)]
pub struct GrpcConfig {
    /// Where the stream is opened.
    pub endpoint: String,
    /// Seconds between two attempts to connect.
    pub reconnect_interval_sec: u64,
}

/// What a value of [`GrpcConfig`] is.
#[verifier::ext_equal]
pub struct GrpcConfigModel {
    pub endpoint: Seq<char>,
    pub reconnect_interval_sec: u64,
}

impl Wire for GrpcConfig {
    type Model = GrpcConfigModel;

    open spec fn model(&self) -> GrpcConfigModel {
        GrpcConfigModel {
            endpoint: self.endpoint.model(),
            reconnect_interval_sec: self.reconnect_interval_sec.model(),
        }
    }

    open spec fn tree(m: GrpcConfigModel) -> JsonView {
        let o = Map::<Seq<char>, JsonView>::empty();
        let o = o.insert("endpoint"@, String::tree(m.endpoint));
        let o = o.insert("reconnect_interval_sec"@, u64::tree(m.reconnect_interval_sec));
        JsonView::Object(o)
    }

    open spec fn read(t: JsonView, at: Seq<char>, form: Form) -> Result<GrpcConfigModel, Fault> {
        let t = wire::unlisted(t, seq!["endpoint"@, "reconnect_interval_sec"@], 1, form);
        let endpoint = wire::read_required::<String>(t, "endpoint"@, form);
        let reconnect_interval_sec = wire::read_or::<u64>(t, "reconnect_interval_sec"@, 5u64, form);
        if !(t is Object) {
            Err(Fault::Invalid(at))
        } else if endpoint is Err {
            Err(endpoint->Err_0)
        } else if reconnect_interval_sec is Err {
            Err(reconnect_interval_sec->Err_0)
        } else {
            Ok(GrpcConfigModel {
                endpoint: endpoint->Ok_0,
                reconnect_interval_sec: reconnect_interval_sec->Ok_0,
            })
        }
    }

    open spec fn lossless(m: GrpcConfigModel) -> bool {
        &&& String::lossless(m.endpoint)
        &&& u64::lossless(m.reconnect_interval_sec)
    }

    open spec fn fits(m: GrpcConfigModel, depth: nat) -> bool {
        &&& depth > 0
        &&& String::fits(m.endpoint, (depth - 1) as nat)
        &&& u64::fits(m.reconnect_interval_sec, (depth - 1) as nat)
    }

    fn to_json(&self) -> (r: Json) {
        let mut o = JsonObject::new();
        o.set("endpoint", self.endpoint.to_json());
        o.set("reconnect_interval_sec", self.reconnect_interval_sec.to_json());
        o.finish()
    }

    fn from_json(j: &Json, at: &str, form: Form) -> (r: Result<GrpcConfig, DecodeError>) {
        let names = ["endpoint", "reconnect_interval_sec"];
        let listed = wire::unlist(j, &names, 1, form);
        let j = match &listed {
            Some(o) => o,
            None => j,
        };
        proof {
            assert(wire::strs(names@) =~= seq!["endpoint"@, "reconnect_interval_sec"@]);
        }
        if !j.is_object() {
            return Err(DecodeError::Invalid(at.to_owned()));
        }
        let endpoint = match wire::required::<String>(j, "endpoint", form) {
            Ok(x) => x,
            Err(e) => return Err(e),
        };
        let reconnect_interval_sec = match wire::defaulted::<u64>(j, "reconnect_interval_sec", defaults::reconnect_interval_sec(), form) {
            Ok(x) => x,
            Err(e) => return Err(e),
        };
        Ok(GrpcConfig { endpoint, reconnect_interval_sec })
    }

    proof fn law_reads_what_it_writes(m: GrpcConfigModel, at: Seq<char>, form: Form) {
        reveal_strlit("endpoint");
        reveal_strlit("reconnect_interval_sec");
        assert("endpoint"@.len() == 8);
        assert("reconnect_interval_sec"@.len() == 22);
        String::law_reads_what_it_writes(m.endpoint, "endpoint"@, form);
        u64::law_reads_what_it_writes(m.reconnect_interval_sec, "reconnect_interval_sec"@, form);
        let t = GrpcConfig::tree(m);
        assert(t.field("endpoint"@) == Some(String::tree(m.endpoint)));
        assert(t.field("reconnect_interval_sec"@) == Some(u64::tree(m.reconnect_interval_sec)));
    }

    proof fn law_fits(m: GrpcConfigModel, depth: nat) {
        let inner = (depth - 1) as nat;
        let o = Map::<Seq<char>, JsonView>::empty();
        String::law_fits(m.endpoint, inner);
        let v = String::tree(m.endpoint);
        json::lemma_insert_within(o, "endpoint"@, v, inner);
        let o = o.insert("endpoint"@, v);
        u64::law_fits(m.reconnect_interval_sec, inner);
        let v = u64::tree(m.reconnect_interval_sec);
        json::lemma_insert_within(o, "reconnect_interval_sec"@, v, inner);
        let o = o.insert("reconnect_interval_sec"@, v);
    }
}

/// Section `transport`.
#[derive(Debug, Clone, PartialEq)]
pub struct TransportConfig {
    /// How tasks are got.
    pub mode: TransportMode,
    /// Settings for polling.
    pub poll: Option<PollConfig>,
    /// Settings for the stream.
    pub grpc: Option<GrpcConfig>,
}

/// What a value of [`TransportConfig`] is.
#[verifier::ext_equal]
pub struct TransportConfigModel {
    pub mode: TransportMode,
    pub poll: Option<PollConfigModel>,
    pub grpc: Option<GrpcConfigModel>,
}

impl Wire for TransportConfig {
    type Model = TransportConfigModel;

    open spec fn model(&self) -> TransportConfigModel {
        TransportConfigModel {
            mode: self.mode.model(),
            poll: wire::optional_model(self.poll),
            grpc: wire::optional_model(self.grpc),
        }
    }

    open spec fn tree(m: TransportConfigModel) -> JsonView {
        let o = Map::<Seq<char>, JsonView>::empty();
        let o = o.insert("mode"@, TransportMode::tree(m.mode));
        let o = wire::with_optional::<PollConfig>(o, "poll"@, m.poll);
        let o = wire::with_optional::<GrpcConfig>(o, "grpc"@, m.grpc);
        JsonView::Object(o)
    }

    open spec fn read(t: JsonView, at: Seq<char>, form: Form) -> Result<TransportConfigModel, Fault> {
        let t = wire::unlisted(t, seq!["mode"@, "poll"@, "grpc"@], 3, form);
        let mode = wire::read_or::<TransportMode>(t, "mode"@, TransportMode::Poll, form);
        let poll = wire::read_optional::<PollConfig>(t, "poll"@, form);
        let grpc = wire::read_optional::<GrpcConfig>(t, "grpc"@, form);
        if !(t is Object) {
            Err(Fault::Invalid(at))
        } else if mode is Err {
            Err(mode->Err_0)
        } else if poll is Err {
            Err(poll->Err_0)
        } else if grpc is Err {
            Err(grpc->Err_0)
        } else {
            Ok(TransportConfigModel {
                mode: mode->Ok_0,
                poll: poll->Ok_0,
                grpc: grpc->Ok_0,
            })
        }
    }

    open spec fn lossless(m: TransportConfigModel) -> bool {
        &&& TransportMode::lossless(m.mode)
        &&& wire::optional_lossless::<PollConfig>(m.poll)
        &&& wire::optional_lossless::<GrpcConfig>(m.grpc)
    }

    open spec fn fits(m: TransportConfigModel, depth: nat) -> bool {
        &&& depth > 0
        &&& TransportMode::fits(m.mode, (depth - 1) as nat)
        &&& wire::optional_fits::<PollConfig>(m.poll, (depth - 1) as nat)
        &&& wire::optional_fits::<GrpcConfig>(m.grpc, (depth - 1) as nat)
    }

    fn to_json(&self) -> (r: Json) {
        let mut o = JsonObject::new();
        o.set("mode", self.mode.to_json());
        wire::set_optional(&mut o, "poll", &self.poll);
        wire::set_optional(&mut o, "grpc", &self.grpc);
        o.finish()
    }

    fn from_json(j: &Json, at: &str, form: Form) -> (r: Result<TransportConfig, DecodeError>) {
        let names = ["mode", "poll", "grpc"];
        let listed = wire::unlist(j, &names, 3, form);
        let j = match &listed {
            Some(o) => o,
            None => j,
        };
        proof {
            assert(wire::strs(names@) =~= seq!["mode"@, "poll"@, "grpc"@]);
        }
        if !j.is_object() {
            return Err(DecodeError::Invalid(at.to_owned()));
        }
        let mode = match wire::defaulted::<TransportMode>(j, "mode", TransportMode::Poll, form) {
            Ok(x) => x,
            Err(e) => return Err(e),
        };
        let poll = match wire::optional::<PollConfig>(j, "poll", form) {
            Ok(x) => x,
            Err(e) => return Err(e),
        };
        let grpc = match wire::optional::<GrpcConfig>(j, "grpc", form) {
            Ok(x) => x,
            Err(e) => return Err(e),
        };
        Ok(TransportConfig { mode, poll, grpc })
    }

    proof fn law_reads_what_it_writes(m: TransportConfigModel, at: Seq<char>, form: Form) {
        reveal_strlit("mode");
        reveal_strlit("poll");
        reveal_strlit("grpc");
        assert("mode"@.len() == 4);
        assert("poll"@.len() == 4);
        assert("grpc"@.len() == 4);
        assert("mode"@[0] != "poll"@[0]);
        assert("mode"@[0] != "grpc"@[0]);
        assert("poll"@[0] != "grpc"@[0]);
        TransportMode::law_reads_what_it_writes(m.mode, "mode"@, form);
        wire::lemma_optional_reads_back::<PollConfig>(m.poll, "poll"@, form);
        wire::lemma_optional_reads_back::<GrpcConfig>(m.grpc, "grpc"@, form);
        let t = TransportConfig::tree(m);
        assert(t.field("mode"@) == Some(TransportMode::tree(m.mode)));
        assert(t.field("poll"@) == wire::optional_tree::<PollConfig>(m.poll));
        assert(t.field("grpc"@) == wire::optional_tree::<GrpcConfig>(m.grpc));
    }

    proof fn law_fits(m: TransportConfigModel, depth: nat) {
        let inner = (depth - 1) as nat;
        let o = Map::<Seq<char>, JsonView>::empty();
        TransportMode::law_fits(m.mode, inner);
        let v = TransportMode::tree(m.mode);
        json::lemma_insert_within(o, "mode"@, v, inner);
        let o = o.insert("mode"@, v);
        wire::lemma_optional_within::<PollConfig>(o, "poll"@, m.poll, inner);
        let o = wire::with_optional::<PollConfig>(o, "poll"@, m.poll);
        wire::lemma_optional_within::<GrpcConfig>(o, "grpc"@, m.grpc, inner);
        let o = wire::with_optional::<GrpcConfig>(o, "grpc"@, m.grpc);
    }
}

/// Section `agent`.
#[derive(Debug, Clone, PartialEq)]
pub struct AgentConfig {
    /// The agent, once it is registered.
    pub id: Option<Uuid>,
    /// Name of the host.
    pub name: Option<String>,
    /// Where the agent keeps its state.
    pub data_dir: String,
    /// Where the sidecars' sockets are.
    pub socket_dir: String,
    /// What is logged.
    pub log_level: String,
}

/// What a value of [`AgentConfig`] is.
#[verifier::ext_equal]
pub struct AgentConfigModel {
    pub id: Option<Uuid>,
    pub name: Option<Seq<char>>,
    pub data_dir: Seq<char>,
    pub socket_dir: Seq<char>,
    pub log_level: Seq<char>,
}

impl Wire for AgentConfig {
    type Model = AgentConfigModel;

    open spec fn model(&self) -> AgentConfigModel {
        AgentConfigModel {
            id: wire::optional_model(self.id),
            name: wire::optional_model(self.name),
            data_dir: self.data_dir.model(),
            socket_dir: self.socket_dir.model(),
            log_level: self.log_level.model(),
        }
    }

    open spec fn tree(m: AgentConfigModel) -> JsonView {
        let o = Map::<Seq<char>, JsonView>::empty();
        let o = wire::with_optional::<Uuid>(o, "id"@, m.id);
        let o = wire::with_optional::<String>(o, "name"@, m.name);
        let o = o.insert("data_dir"@, String::tree(m.data_dir));
        let o = o.insert("socket_dir"@, String::tree(m.socket_dir));
        let o = o.insert("log_level"@, String::tree(m.log_level));
        JsonView::Object(o)
    }

    open spec fn read(t: JsonView, at: Seq<char>, form: Form) -> Result<AgentConfigModel, Fault> {
        let t = wire::unlisted(
            t,
            seq!["id"@, "name"@, "data_dir"@, "socket_dir"@, "log_level"@],
            0,
            form,
        );
        let id = wire::read_optional::<Uuid>(t, "id"@, form);
        let name = wire::read_optional::<String>(t, "name"@, form);
        let data_dir = wire::read_or::<String>(t, "data_dir"@, "/var/lib/vasal"@, form);
        let socket_dir = wire::read_or::<String>(t, "socket_dir"@, "/run/vasal"@, form);
        let log_level = wire::read_or::<String>(t, "log_level"@, "info"@, form);
        if !(t is Object) {
            Err(Fault::Invalid(at))
        } else if id is Err {
            Err(id->Err_0)
        } else if name is Err {
            Err(name->Err_0)
        } else if data_dir is Err {
            Err(data_dir->Err_0)
        } else if socket_dir is Err {
            Err(socket_dir->Err_0)
        } else if log_level is Err {
            Err(log_level->Err_0)
        } else {
            Ok(AgentConfigModel {
                id: id->Ok_0,
                name: name->Ok_0,
                data_dir: data_dir->Ok_0,
                socket_dir: socket_dir->Ok_0,
                log_level: log_level->Ok_0,
            })
        }
    }

    open spec fn lossless(m: AgentConfigModel) -> bool {
        &&& wire::optional_lossless::<Uuid>(m.id)
        &&& wire::optional_lossless::<String>(m.name)
        &&& String::lossless(m.data_dir)
        &&& String::lossless(m.socket_dir)
        &&& String::lossless(m.log_level)
    }

    open spec fn fits(m: AgentConfigModel, depth: nat) -> bool {
        &&& depth > 0
        &&& wire::optional_fits::<Uuid>(m.id, (depth - 1) as nat)
        &&& wire::optional_fits::<String>(m.name, (depth - 1) as nat)
        &&& String::fits(m.data_dir, (depth - 1) as nat)
        &&& String::fits(m.socket_dir, (depth - 1) as nat)
        &&& String::fits(m.log_level, (depth - 1) as nat)
    }

    fn to_json(&self) -> (r: Json) {
        let mut o = JsonObject::new();
        wire::set_optional(&mut o, "id", &self.id);
        wire::set_optional(&mut o, "name", &self.name);
        o.set("data_dir", self.data_dir.to_json());
        o.set("socket_dir", self.socket_dir.to_json());
        o.set("log_level", self.log_level.to_json());
        o.finish()
    }

    fn from_json(j: &Json, at: &str, form: Form) -> (r: Result<AgentConfig, DecodeError>) {
        let names = ["id", "name", "data_dir", "socket_dir", "log_level"];
        let listed = wire::unlist(j, &names, 0, form);
        let j = match &listed {
            Some(o) => o,
            None => j,
        };
        proof {
            assert(wire::strs(names@) =~= seq![
                "id"@,
                "name"@,
                "data_dir"@,
                "socket_dir"@,
                "log_level"@,
            ]);
        }
        if !j.is_object() {
            return Err(DecodeError::Invalid(at.to_owned()));
        }
        let id = match wire::optional::<Uuid>(j, "id", form) {
            Ok(x) => x,
            Err(e) => return Err(e),
        };
        let name = match wire::optional::<String>(j, "name", form) {
            Ok(x) => x,
            Err(e) => return Err(e),
        };
        let data_dir = match wire::defaulted::<String>(j, "data_dir", defaults::data_dir(), form) {
            Ok(x) => x,
            Err(e) => return Err(e),
        };
        let socket_dir = match wire::defaulted::<String>(j, "socket_dir", defaults::socket_dir(), form) {
            Ok(x) => x,
            Err(e) => return Err(e),
        };
        let log_level = match wire::defaulted::<String>(j, "log_level", defaults::log_level(), form) {
            Ok(x) => x,
            Err(e) => return Err(e),
        };
        Ok(AgentConfig { id, name, data_dir, socket_dir, log_level })
    }

    proof fn law_reads_what_it_writes(m: AgentConfigModel, at: Seq<char>, form: Form) {
        reveal_strlit("id");
        reveal_strlit("name");
        reveal_strlit("data_dir");
        reveal_strlit("socket_dir");
        reveal_strlit("log_level");
        assert("id"@.len() == 2);
        assert("name"@.len() == 4);
        assert("data_dir"@.len() == 8);
        assert("socket_dir"@.len() == 10);
        assert("log_level"@.len() == 9);
        wire::lemma_optional_reads_back::<Uuid>(m.id, "id"@, form);
        wire::lemma_optional_reads_back::<String>(m.name, "name"@, form);
        String::law_reads_what_it_writes(m.data_dir, "data_dir"@, form);
        String::law_reads_what_it_writes(m.socket_dir, "socket_dir"@, form);
        String::law_reads_what_it_writes(m.log_level, "log_level"@, form);
        let t = AgentConfig::tree(m);
        assert(t.field("id"@) == wire::optional_tree::<Uuid>(m.id));
        assert(t.field("name"@) == wire::optional_tree::<String>(m.name));
        assert(t.field("data_dir"@) == Some(String::tree(m.data_dir)));
        assert(t.field("socket_dir"@) == Some(String::tree(m.socket_dir)));
        assert(t.field("log_level"@) == Some(String::tree(m.log_level)));
    }

    proof fn law_fits(m: AgentConfigModel, depth: nat) {
        let inner = (depth - 1) as nat;
        let o = Map::<Seq<char>, JsonView>::empty();
        wire::lemma_optional_within::<Uuid>(o, "id"@, m.id, inner);
        let o = wire::with_optional::<Uuid>(o, "id"@, m.id);
        wire::lemma_optional_within::<String>(o, "name"@, m.name, inner);
        let o = wire::with_optional::<String>(o, "name"@, m.name);
        String::law_fits(m.data_dir, inner);
        let v = String::tree(m.data_dir);
        json::lemma_insert_within(o, "data_dir"@, v, inner);
        let o = o.insert("data_dir"@, v);
        String::law_fits(m.socket_dir, inner);
        let v = String::tree(m.socket_dir);
        json::lemma_insert_within(o, "socket_dir"@, v, inner);
        let o = o.insert("socket_dir"@, v);
        String::law_fits(m.log_level, inner);
        let v = String::tree(m.log_level);
        json::lemma_insert_within(o, "log_level"@, v, inner);
        let o = o.insert("log_level"@, v);
    }
}

/// Section `heartbeat`.
#[derive(Debug, Clone, PartialEq)]
pub struct HeartbeatConfig {
    /// Seconds between two heartbeats.
    pub interval_sec: u64,
    /// Where they go.
    pub endpoint: String,
}

/// What a value of [`HeartbeatConfig`] is.
#[verifier::ext_equal]
pub struct HeartbeatConfigModel {
    pub interval_sec: u64,
    pub endpoint: Seq<char>,
}

impl Wire for HeartbeatConfig {
    type Model = HeartbeatConfigModel;

    open spec fn model(&self) -> HeartbeatConfigModel {
        HeartbeatConfigModel {
            interval_sec: self.interval_sec.model(),
            endpoint: self.endpoint.model(),
        }
    }

    open spec fn tree(m: HeartbeatConfigModel) -> JsonView {
        let o = Map::<Seq<char>, JsonView>::empty();
        let o = o.insert("interval_sec"@, u64::tree(m.interval_sec));
        let o = o.insert("endpoint"@, String::tree(m.endpoint));
        JsonView::Object(o)
    }

    open spec fn read(t: JsonView, at: Seq<char>, form: Form) -> Result<HeartbeatConfigModel, Fault> {
        let t = wire::unlisted(t, seq!["interval_sec"@, "endpoint"@], 2, form);
        let interval_sec = wire::read_or::<u64>(t, "interval_sec"@, 10u64, form);
        let endpoint = wire::read_required::<String>(t, "endpoint"@, form);
        if !(t is Object) {
            Err(Fault::Invalid(at))
        } else if interval_sec is Err {
            Err(interval_sec->Err_0)
        } else if endpoint is Err {
            Err(endpoint->Err_0)
        } else {
            Ok(HeartbeatConfigModel {
                interval_sec: interval_sec->Ok_0,
                endpoint: endpoint->Ok_0,
            })
        }
    }

    open spec fn lossless(m: HeartbeatConfigModel) -> bool {
        &&& u64::lossless(m.interval_sec)
        &&& String::lossless(m.endpoint)
    }

    open spec fn fits(m: HeartbeatConfigModel, depth: nat) -> bool {
        &&& depth > 0
        &&& u64::fits(m.interval_sec, (depth - 1) as nat)
        &&& String::fits(m.endpoint, (depth - 1) as nat)
    }

    fn to_json(&self) -> (r: Json) {
        let mut o = JsonObject::new();
        o.set("interval_sec", self.interval_sec.to_json());
        o.set("endpoint", self.endpoint.to_json());
        o.finish()
    }

    fn from_json(j: &Json, at: &str, form: Form) -> (r: Result<HeartbeatConfig, DecodeError>) {
        let names = ["interval_sec", "endpoint"];
        let listed = wire::unlist(j, &names, 2, form);
        let j = match &listed {
            Some(o) => o,
            None => j,
        };
        proof {
            assert(wire::strs(names@) =~= seq!["interval_sec"@, "endpoint"@]);
        }
        if !j.is_object() {
            return Err(DecodeError::Invalid(at.to_owned()));
        }
        let interval_sec = match wire::defaulted::<u64>(j, "interval_sec", defaults::heartbeat_interval_sec(), form) {
            Ok(x) => x,
            Err(e) => return Err(e),
        };
        let endpoint = match wire::required::<String>(j, "endpoint", form) {
            Ok(x) => x,
            Err(e) => return Err(e),
        };
        Ok(HeartbeatConfig { interval_sec, endpoint })
    }

    proof fn law_reads_what_it_writes(m: HeartbeatConfigModel, at: Seq<char>, form: Form) {
        reveal_strlit("interval_sec");
        reveal_strlit("endpoint");
        assert("interval_sec"@.len() == 12);
        assert("endpoint"@.len() == 8);
        u64::law_reads_what_it_writes(m.interval_sec, "interval_sec"@, form);
        String::law_reads_what_it_writes(m.endpoint, "endpoint"@, form);
        let t = HeartbeatConfig::tree(m);
        assert(t.field("interval_sec"@) == Some(u64::tree(m.interval_sec)));
        assert(t.field("endpoint"@) == Some(String::tree(m.endpoint)));
    }

    proof fn law_fits(m: HeartbeatConfigModel, depth: nat) {
        let inner = (depth - 1) as nat;
        let o = Map::<Seq<char>, JsonView>::empty();
        u64::law_fits(m.interval_sec, inner);
        let v = u64::tree(m.interval_sec);
        json::lemma_insert_within(o, "interval_sec"@, v, inner);
        let o = o.insert("interval_sec"@, v);
        String::law_fits(m.endpoint, inner);
        let v = String::tree(m.endpoint);
        json::lemma_insert_within(o, "endpoint"@, v, inner);
        let o = o.insert("endpoint"@, v);
    }
}

/// Section `audit`.
#[derive(Debug, Clone, PartialEq)]
pub struct AuditConfig {
    /// Where events go.
    pub endpoint: String,
    /// Events in a batch.
    pub batch_size: usize,
    /// Seconds between two batches.
    pub flush_interval_sec: u64,
}

/// What a value of [`AuditConfig`] is.
#[verifier::ext_equal]
pub struct AuditConfigModel {
    pub endpoint: Seq<char>,
    pub batch_size: usize,
    pub flush_interval_sec: u64,
}

impl Wire for AuditConfig {
    type Model = AuditConfigModel;

    open spec fn model(&self) -> AuditConfigModel {
        AuditConfigModel {
            endpoint: self.endpoint.model(),
            batch_size: self.batch_size.model(),
            flush_interval_sec: self.flush_interval_sec.model(),
        }
    }

    open spec fn tree(m: AuditConfigModel) -> JsonView {
        let o = Map::<Seq<char>, JsonView>::empty();
        let o = o.insert("endpoint"@, String::tree(m.endpoint));
        let o = o.insert("batch_size"@, usize::tree(m.batch_size));
        let o = o.insert("flush_interval_sec"@, u64::tree(m.flush_interval_sec));
        JsonView::Object(o)
    }

    open spec fn read(t: JsonView, at: Seq<char>, form: Form) -> Result<AuditConfigModel, Fault> {
        let t = wire::unlisted(t, seq!["endpoint"@, "batch_size"@, "flush_interval_sec"@], 1, form);
        let endpoint = wire::read_required::<String>(t, "endpoint"@, form);
        let batch_size = wire::read_or::<usize>(t, "batch_size"@, 50usize, form);
        let flush_interval_sec = wire::read_or::<u64>(t, "flush_interval_sec"@, 5u64, form);
        if !(t is Object) {
            Err(Fault::Invalid(at))
        } else if endpoint is Err {
            Err(endpoint->Err_0)
        } else if batch_size is Err {
            Err(batch_size->Err_0)
        } else if flush_interval_sec is Err {
            Err(flush_interval_sec->Err_0)
        } else {
            Ok(AuditConfigModel {
                endpoint: endpoint->Ok_0,
                batch_size: batch_size->Ok_0,
                flush_interval_sec: flush_interval_sec->Ok_0,
            })
        }
    }

    open spec fn lossless(m: AuditConfigModel) -> bool {
        &&& String::lossless(m.endpoint)
        &&& usize::lossless(m.batch_size)
        &&& u64::lossless(m.flush_interval_sec)
    }

    open spec fn fits(m: AuditConfigModel, depth: nat) -> bool {
        &&& depth > 0
        &&& String::fits(m.endpoint, (depth - 1) as nat)
        &&& usize::fits(m.batch_size, (depth - 1) as nat)
        &&& u64::fits(m.flush_interval_sec, (depth - 1) as nat)
    }

    fn to_json(&self) -> (r: Json) {
        let mut o = JsonObject::new();
        o.set("endpoint", self.endpoint.to_json());
        o.set("batch_size", self.batch_size.to_json());
        o.set("flush_interval_sec", self.flush_interval_sec.to_json());
        o.finish()
    }

    fn from_json(j: &Json, at: &str, form: Form) -> (r: Result<AuditConfig, DecodeError>) {
        let names = ["endpoint", "batch_size", "flush_interval_sec"];
        let listed = wire::unlist(j, &names, 1, form);
        let j = match &listed {
            Some(o) => o,
            None => j,
        };
        proof {
            assert(wire::strs(names@) =~= seq!["endpoint"@, "batch_size"@, "flush_interval_sec"@]);
        }
        if !j.is_object() {
            return Err(DecodeError::Invalid(at.to_owned()));
        }
        let endpoint = match wire::required::<String>(j, "endpoint", form) {
            Ok(x) => x,
            Err(e) => return Err(e),
        };
        let batch_size = match wire::defaulted::<usize>(j, "batch_size", defaults::audit_batch_size(), form) {
            Ok(x) => x,
            Err(e) => return Err(e),
        };
        let flush_interval_sec = match wire::defaulted::<u64>(j, "flush_interval_sec", defaults::audit_flush_interval_sec(), form) {
            Ok(x) => x,
            Err(e) => return Err(e),
        };
        Ok(AuditConfig { endpoint, batch_size, flush_interval_sec })
    }

    proof fn law_reads_what_it_writes(m: AuditConfigModel, at: Seq<char>, form: Form) {
        reveal_strlit("endpoint");
        reveal_strlit("batch_size");
        reveal_strlit("flush_interval_sec");
        assert("endpoint"@.len() == 8);
        assert("batch_size"@.len() == 10);
        assert("flush_interval_sec"@.len() == 18);
        String::law_reads_what_it_writes(m.endpoint, "endpoint"@, form);
        usize::law_reads_what_it_writes(m.batch_size, "batch_size"@, form);
        u64::law_reads_what_it_writes(m.flush_interval_sec, "flush_interval_sec"@, form);
        let t = AuditConfig::tree(m);
        assert(t.field("endpoint"@) == Some(String::tree(m.endpoint)));
        assert(t.field("batch_size"@) == Some(usize::tree(m.batch_size)));
        assert(t.field("flush_interval_sec"@) == Some(u64::tree(m.flush_interval_sec)));
    }

    proof fn law_fits(m: AuditConfigModel, depth: nat) {
        let inner = (depth - 1) as nat;
        let o = Map::<Seq<char>, JsonView>::empty();
        String::law_fits(m.endpoint, inner);
        let v = String::tree(m.endpoint);
        json::lemma_insert_within(o, "endpoint"@, v, inner);
        let o = o.insert("endpoint"@, v);
        usize::law_fits(m.batch_size, inner);
        let v = usize::tree(m.batch_size);
        json::lemma_insert_within(o, "batch_size"@, v, inner);
        let o = o.insert("batch_size"@, v);
        u64::law_fits(m.flush_interval_sec, inner);
        let v = u64::tree(m.flush_interval_sec);
        json::lemma_insert_within(o, "flush_interval_sec"@, v, inner);
        let o = o.insert("flush_interval_sec"@, v);
    }
}

/// Section `auth`.
#[derive(Debug, Clone, PartialEq)]
pub struct AuthConfig {
    /// Where tokens come from.
    pub provider: String,
    /// Where they are kept.
    pub token_file: String,
}

/// What a value of [`AuthConfig`] is.
#[verifier::ext_equal]
pub struct AuthConfigModel {
    pub provider: Seq<char>,
    pub token_file: Seq<char>,
}

impl Wire for AuthConfig {
    type Model = AuthConfigModel;

    open spec fn model(&self) -> AuthConfigModel {
        AuthConfigModel {
            provider: self.provider.model(),
            token_file: self.token_file.model(),
        }
    }

    open spec fn tree(m: AuthConfigModel) -> JsonView {
        let o = Map::<Seq<char>, JsonView>::empty();
        let o = o.insert("provider"@, String::tree(m.provider));
        let o = o.insert("token_file"@, String::tree(m.token_file));
        JsonView::Object(o)
    }

    open spec fn read(t: JsonView, at: Seq<char>, form: Form) -> Result<AuthConfigModel, Fault> {
        let t = wire::unlisted(t, seq!["provider"@, "token_file"@], 1, form);
        let provider = wire::read_required::<String>(t, "provider"@, form);
        let token_file = wire::read_or::<String>(t, "token_file"@, "/var/lib/vasal/token.json"@, form);
        if !(t is Object) {
            Err(Fault::Invalid(at))
        } else if provider is Err {
            Err(provider->Err_0)
        } else if token_file is Err {
            Err(token_file->Err_0)
        } else {
            Ok(AuthConfigModel {
                provider: provider->Ok_0,
                token_file: token_file->Ok_0,
            })
        }
    }

    open spec fn lossless(m: AuthConfigModel) -> bool {
        &&& String::lossless(m.provider)
        &&& String::lossless(m.token_file)
    }

    open spec fn fits(m: AuthConfigModel, depth: nat) -> bool {
        &&& depth > 0
        &&& String::fits(m.provider, (depth - 1) as nat)
        &&& String::fits(m.token_file, (depth - 1) as nat)
    }

    fn to_json(&self) -> (r: Json) {
        let mut o = JsonObject::new();
        o.set("provider", self.provider.to_json());
        o.set("token_file", self.token_file.to_json());
        o.finish()
    }

    fn from_json(j: &Json, at: &str, form: Form) -> (r: Result<AuthConfig, DecodeError>) {
        let names = ["provider", "token_file"];
        let listed = wire::unlist(j, &names, 1, form);
        let j = match &listed {
            Some(o) => o,
            None => j,
        };
        proof {
            assert(wire::strs(names@) =~= seq!["provider"@, "token_file"@]);
        }
        if !j.is_object() {
            return Err(DecodeError::Invalid(at.to_owned()));
        }
        let provider = match wire::required::<String>(j, "provider", form) {
            Ok(x) => x,
            Err(e) => return Err(e),
        };
        let token_file = match wire::defaulted::<String>(j, "token_file", defaults::token_file(), form) {
            Ok(x) => x,
            Err(e) => return Err(e),
        };
        Ok(AuthConfig { provider, token_file })
    }

    proof fn law_reads_what_it_writes(m: AuthConfigModel, at: Seq<char>, form: Form) {
        reveal_strlit("provider");
        reveal_strlit("token_file");
        assert("provider"@.len() == 8);
        assert("token_file"@.len() == 10);
        String::law_reads_what_it_writes(m.provider, "provider"@, form);
        String::law_reads_what_it_writes(m.token_file, "token_file"@, form);
        let t = AuthConfig::tree(m);
        assert(t.field("provider"@) == Some(String::tree(m.provider)));
        assert(t.field("token_file"@) == Some(String::tree(m.token_file)));
    }

    proof fn law_fits(m: AuthConfigModel, depth: nat) {
        let inner = (depth - 1) as nat;
        let o = Map::<Seq<char>, JsonView>::empty();
        String::law_fits(m.provider, inner);
        let v = String::tree(m.provider);
        json::lemma_insert_within(o, "provider"@, v, inner);
        let o = o.insert("provider"@, v);
        String::law_fits(m.token_file, inner);
        let v = String::tree(m.token_file);
        json::lemma_insert_within(o, "token_file"@, v, inner);
        let o = o.insert("token_file"@, v);
    }
}

/// Section `shell`.
#[derive(Debug, Clone, PartialEq)]
pub struct ShellConfig {
    /// Milliseconds a shell task may take.
    pub default_timeout_ms: u64,
    /// Tasks that run at the same time.
    pub max_concurrent: usize,
    /// Where shell tasks run.
    pub working_dir: String,
}

/// What a value of [`ShellConfig`] is.
#[verifier::ext_equal]
pub struct ShellConfigModel {
    pub default_timeout_ms: u64,
    pub max_concurrent: usize,
    pub working_dir: Seq<char>,
}

impl Wire for ShellConfig {
    type Model = ShellConfigModel;

    open spec fn model(&self) -> ShellConfigModel {
        ShellConfigModel {
            default_timeout_ms: self.default_timeout_ms.model(),
            max_concurrent: self.max_concurrent.model(),
            working_dir: self.working_dir.model(),
        }
    }

    open spec fn tree(m: ShellConfigModel) -> JsonView {
        let o = Map::<Seq<char>, JsonView>::empty();
        let o = o.insert("default_timeout_ms"@, u64::tree(m.default_timeout_ms));
        let o = o.insert("max_concurrent"@, usize::tree(m.max_concurrent));
        let o = o.insert("working_dir"@, String::tree(m.working_dir));
        JsonView::Object(o)
    }

    open spec fn read(t: JsonView, at: Seq<char>, form: Form) -> Result<ShellConfigModel, Fault> {
        let t = wire::unlisted(
            t,
            seq!["default_timeout_ms"@, "max_concurrent"@, "working_dir"@],
            0,
            form,
        );
        let default_timeout_ms = wire::read_or::<u64>(t, "default_timeout_ms"@, 300_000u64, form);
        let max_concurrent = wire::read_or::<usize>(t, "max_concurrent"@, 4usize, form);
        let working_dir = wire::read_or::<String>(t, "working_dir"@, "/tmp/vasal"@, form);
        if !(t is Object) {
            Err(Fault::Invalid(at))
        } else if default_timeout_ms is Err {
            Err(default_timeout_ms->Err_0)
        } else if max_concurrent is Err {
            Err(max_concurrent->Err_0)
        } else if working_dir is Err {
            Err(working_dir->Err_0)
        } else {
            Ok(ShellConfigModel {
                default_timeout_ms: default_timeout_ms->Ok_0,
                max_concurrent: max_concurrent->Ok_0,
                working_dir: working_dir->Ok_0,
            })
        }
    }

    open spec fn lossless(m: ShellConfigModel) -> bool {
        &&& u64::lossless(m.default_timeout_ms)
        &&& usize::lossless(m.max_concurrent)
        &&& String::lossless(m.working_dir)
    }

    open spec fn fits(m: ShellConfigModel, depth: nat) -> bool {
        &&& depth > 0
        &&& u64::fits(m.default_timeout_ms, (depth - 1) as nat)
        &&& usize::fits(m.max_concurrent, (depth - 1) as nat)
        &&& String::fits(m.working_dir, (depth - 1) as nat)
    }

    fn to_json(&self) -> (r: Json) {
        let mut o = JsonObject::new();
        o.set("default_timeout_ms", self.default_timeout_ms.to_json());
        o.set("max_concurrent", self.max_concurrent.to_json());
        o.set("working_dir", self.working_dir.to_json());
        o.finish()
    }

    fn from_json(j: &Json, at: &str, form: Form) -> (r: Result<ShellConfig, DecodeError>) {
        let names = ["default_timeout_ms", "max_concurrent", "working_dir"];
        let listed = wire::unlist(j, &names, 0, form);
        let j = match &listed {
            Some(o) => o,
            None => j,
        };
        proof {
            assert(wire::strs(names@) =~= seq![
                "default_timeout_ms"@,
                "max_concurrent"@,
                "working_dir"@,
            ]);
        }
        if !j.is_object() {
            return Err(DecodeError::Invalid(at.to_owned()));
        }
        let default_timeout_ms = match wire::defaulted::<u64>(j, "default_timeout_ms", defaults::shell_timeout_ms(), form) {
            Ok(x) => x,
            Err(e) => return Err(e),
        };
        let max_concurrent = match wire::defaulted::<usize>(j, "max_concurrent", defaults::max_concurrent(), form) {
            Ok(x) => x,
            Err(e) => return Err(e),
        };
        let working_dir = match wire::defaulted::<String>(j, "working_dir", defaults::working_dir(), form) {
            Ok(x) => x,
            Err(e) => return Err(e),
        };
        Ok(ShellConfig { default_timeout_ms, max_concurrent, working_dir })
    }

    proof fn law_reads_what_it_writes(m: ShellConfigModel, at: Seq<char>, form: Form) {
        reveal_strlit("default_timeout_ms");
        reveal_strlit("max_concurrent");
        reveal_strlit("working_dir");
        assert("default_timeout_ms"@.len() == 18);
        assert("max_concurrent"@.len() == 14);
        assert("working_dir"@.len() == 11);
        u64::law_reads_what_it_writes(m.default_timeout_ms, "default_timeout_ms"@, form);
        usize::law_reads_what_it_writes(m.max_concurrent, "max_concurrent"@, form);
        String::law_reads_what_it_writes(m.working_dir, "working_dir"@, form);
        let t = ShellConfig::tree(m);
        assert(t.field("default_timeout_ms"@) == Some(u64::tree(m.default_timeout_ms)));
        assert(t.field("max_concurrent"@) == Some(usize::tree(m.max_concurrent)));
        assert(t.field("working_dir"@) == Some(String::tree(m.working_dir)));
    }

    proof fn law_fits(m: ShellConfigModel, depth: nat) {
        let inner = (depth - 1) as nat;
        let o = Map::<Seq<char>, JsonView>::empty();
        u64::law_fits(m.default_timeout_ms, inner);
        let v = u64::tree(m.default_timeout_ms);
        json::lemma_insert_within(o, "default_timeout_ms"@, v, inner);
        let o = o.insert("default_timeout_ms"@, v);
        usize::law_fits(m.max_concurrent, inner);
        let v = usize::tree(m.max_concurrent);
        json::lemma_insert_within(o, "max_concurrent"@, v, inner);
        let o = o.insert("max_concurrent"@, v);
        String::law_fits(m.working_dir, inner);
        let v = String::tree(m.working_dir);
        json::lemma_insert_within(o, "working_dir"@, v, inner);
        let o = o.insert("working_dir"@, v);
    }
}

/// Section `units`.
#[derive(Debug, Clone, PartialEq)]
pub struct UnitsConfig {
    /// Where artifacts are unpacked.
    pub artifact_cache_dir: String,
    /// Seconds between two rounds of health checks.
    pub health_check_interval_sec: u64,
}

/// What a value of [`UnitsConfig`] is.
#[verifier::ext_equal]
pub struct UnitsConfigModel {
    pub artifact_cache_dir: Seq<char>,
    pub health_check_interval_sec: u64,
}

impl Wire for UnitsConfig {
    type Model = UnitsConfigModel;

    open spec fn model(&self) -> UnitsConfigModel {
        UnitsConfigModel {
            artifact_cache_dir: self.artifact_cache_dir.model(),
            health_check_interval_sec: self.health_check_interval_sec.model(),
        }
    }

    open spec fn tree(m: UnitsConfigModel) -> JsonView {
        let o = Map::<Seq<char>, JsonView>::empty();
        let o = o.insert("artifact_cache_dir"@, String::tree(m.artifact_cache_dir));
        let o = o.insert("health_check_interval_sec"@, u64::tree(m.health_check_interval_sec));
        JsonView::Object(o)
    }

    open spec fn read(t: JsonView, at: Seq<char>, form: Form) -> Result<UnitsConfigModel, Fault> {
        let t = wire::unlisted(
            t,
            seq!["artifact_cache_dir"@, "health_check_interval_sec"@],
            0,
            form,
        );
        let artifact_cache_dir = wire::read_or::<String>(t, "artifact_cache_dir"@, "/var/cache/vasal"@, form);
        let health_check_interval_sec = wire::read_or::<u64>(t, "health_check_interval_sec"@, 30u64, form);
        if !(t is Object) {
            Err(Fault::Invalid(at))
        } else if artifact_cache_dir is Err {
            Err(artifact_cache_dir->Err_0)
        } else if health_check_interval_sec is Err {
            Err(health_check_interval_sec->Err_0)
        } else {
            Ok(UnitsConfigModel {
                artifact_cache_dir: artifact_cache_dir->Ok_0,
                health_check_interval_sec: health_check_interval_sec->Ok_0,
            })
        }
    }

    open spec fn lossless(m: UnitsConfigModel) -> bool {
        &&& String::lossless(m.artifact_cache_dir)
        &&& u64::lossless(m.health_check_interval_sec)
    }

    open spec fn fits(m: UnitsConfigModel, depth: nat) -> bool {
        &&& depth > 0
        &&& String::fits(m.artifact_cache_dir, (depth - 1) as nat)
        &&& u64::fits(m.health_check_interval_sec, (depth - 1) as nat)
    }

    fn to_json(&self) -> (r: Json) {
        let mut o = JsonObject::new();
        o.set("artifact_cache_dir", self.artifact_cache_dir.to_json());
        o.set("health_check_interval_sec", self.health_check_interval_sec.to_json());
        o.finish()
    }

    fn from_json(j: &Json, at: &str, form: Form) -> (r: Result<UnitsConfig, DecodeError>) {
        let names = ["artifact_cache_dir", "health_check_interval_sec"];
        let listed = wire::unlist(j, &names, 0, form);
        let j = match &listed {
            Some(o) => o,
            None => j,
        };
        proof {
            assert(wire::strs(names@) =~= seq![
                "artifact_cache_dir"@,
                "health_check_interval_sec"@,
            ]);
        }
        if !j.is_object() {
            return Err(DecodeError::Invalid(at.to_owned()));
        }
        let artifact_cache_dir = match wire::defaulted::<String>(j, "artifact_cache_dir", defaults::artifact_cache_dir(), form) {
            Ok(x) => x,
            Err(e) => return Err(e),
        };
        let health_check_interval_sec = match wire::defaulted::<u64>(j, "health_check_interval_sec", defaults::health_check_interval_sec(), form) {
            Ok(x) => x,
            Err(e) => return Err(e),
        };
        Ok(UnitsConfig { artifact_cache_dir, health_check_interval_sec })
    }

    proof fn law_reads_what_it_writes(m: UnitsConfigModel, at: Seq<char>, form: Form) {
        reveal_strlit("artifact_cache_dir");
        reveal_strlit("health_check_interval_sec");
        assert("artifact_cache_dir"@.len() == 18);
        assert("health_check_interval_sec"@.len() == 25);
        String::law_reads_what_it_writes(m.artifact_cache_dir, "artifact_cache_dir"@, form);
        u64::law_reads_what_it_writes(m.health_check_interval_sec, "health_check_interval_sec"@, form);
        let t = UnitsConfig::tree(m);
        assert(t.field("artifact_cache_dir"@) == Some(String::tree(m.artifact_cache_dir)));
        assert(t.field("health_check_interval_sec"@) == Some(u64::tree(m.health_check_interval_sec)));
    }

    proof fn law_fits(m: UnitsConfigModel, depth: nat) {
        let inner = (depth - 1) as nat;
        let o = Map::<Seq<char>, JsonView>::empty();
        String::law_fits(m.artifact_cache_dir, inner);
        let v = String::tree(m.artifact_cache_dir);
        json::lemma_insert_within(o, "artifact_cache_dir"@, v, inner);
        let o = o.insert("artifact_cache_dir"@, v);
        u64::law_fits(m.health_check_interval_sec, inner);
        let v = u64::tree(m.health_check_interval_sec);
        json::lemma_insert_within(o, "health_check_interval_sec"@, v, inner);
        let o = o.insert("health_check_interval_sec"@, v);
    }
}

/// Section `telemetry`.
#[derive(Debug, Clone, PartialEq)]
pub struct TelemetryConfig {
    /// Whether traces are sent.
    pub enabled: bool,
    /// Where they go.
    pub otlp_endpoint: String,
    /// Under which name.
    pub service_name: String,
}

/// What a value of [`TelemetryConfig`] is.
#[verifier::ext_equal]
pub struct TelemetryConfigModel {
    pub enabled: bool,
    pub otlp_endpoint: Seq<char>,
    pub service_name: Seq<char>,
}

impl Wire for TelemetryConfig {
    type Model = TelemetryConfigModel;

    open spec fn model(&self) -> TelemetryConfigModel {
        TelemetryConfigModel {
            enabled: self.enabled.model(),
            otlp_endpoint: self.otlp_endpoint.model(),
            service_name: self.service_name.model(),
        }
    }

    open spec fn tree(m: TelemetryConfigModel) -> JsonView {
        let o = Map::<Seq<char>, JsonView>::empty();
        let o = o.insert("enabled"@, bool::tree(m.enabled));
        let o = o.insert("otlp_endpoint"@, String::tree(m.otlp_endpoint));
        let o = o.insert("service_name"@, String::tree(m.service_name));
        JsonView::Object(o)
    }

    open spec fn read(t: JsonView, at: Seq<char>, form: Form) -> Result<TelemetryConfigModel, Fault> {
        let t = wire::unlisted(t, seq!["enabled"@, "otlp_endpoint"@, "service_name"@], 0, form);
        let enabled = wire::read_or::<bool>(t, "enabled"@, false, form);
        let otlp_endpoint = wire::read_or::<String>(t, "otlp_endpoint"@, "http://localhost:4318"@, form);
        let service_name = wire::read_or::<String>(t, "service_name"@, "vasal"@, form);
        if !(t is Object) {
            Err(Fault::Invalid(at))
        } else if enabled is Err {
            Err(enabled->Err_0)
        } else if otlp_endpoint is Err {
            Err(otlp_endpoint->Err_0)
        } else if service_name is Err {
            Err(service_name->Err_0)
        } else {
            Ok(TelemetryConfigModel {
                enabled: enabled->Ok_0,
                otlp_endpoint: otlp_endpoint->Ok_0,
                service_name: service_name->Ok_0,
            })
        }
    }

    open spec fn lossless(m: TelemetryConfigModel) -> bool {
        &&& bool::lossless(m.enabled)
        &&& String::lossless(m.otlp_endpoint)
        &&& String::lossless(m.service_name)
    }

    open spec fn fits(m: TelemetryConfigModel, depth: nat) -> bool {
        &&& depth > 0
        &&& bool::fits(m.enabled, (depth - 1) as nat)
        &&& String::fits(m.otlp_endpoint, (depth - 1) as nat)
        &&& String::fits(m.service_name, (depth - 1) as nat)
    }

    fn to_json(&self) -> (r: Json) {
        let mut o = JsonObject::new();
        o.set("enabled", self.enabled.to_json());
        o.set("otlp_endpoint", self.otlp_endpoint.to_json());
        o.set("service_name", self.service_name.to_json());
        o.finish()
    }

    fn from_json(j: &Json, at: &str, form: Form) -> (r: Result<TelemetryConfig, DecodeError>) {
        let names = ["enabled", "otlp_endpoint", "service_name"];
        let listed = wire::unlist(j, &names, 0, form);
        let j = match &listed {
            Some(o) => o,
            None => j,
        };
        proof {
            assert(wire::strs(names@) =~= seq!["enabled"@, "otlp_endpoint"@, "service_name"@]);
        }
        if !j.is_object() {
            return Err(DecodeError::Invalid(at.to_owned()));
        }
        let enabled = match wire::defaulted::<bool>(j, "enabled", false, form) {
            Ok(x) => x,
            Err(e) => return Err(e),
        };
        let otlp_endpoint = match wire::defaulted::<String>(j, "otlp_endpoint", defaults::otlp_endpoint(), form) {
            Ok(x) => x,
            Err(e) => return Err(e),
        };
        let service_name = match wire::defaulted::<String>(j, "service_name", defaults::service_name(), form) {
            Ok(x) => x,
            Err(e) => return Err(e),
        };
        Ok(TelemetryConfig { enabled, otlp_endpoint, service_name })
    }

    proof fn law_reads_what_it_writes(m: TelemetryConfigModel, at: Seq<char>, form: Form) {
        reveal_strlit("enabled");
        reveal_strlit("otlp_endpoint");
        reveal_strlit("service_name");
        assert("enabled"@.len() == 7);
        assert("otlp_endpoint"@.len() == 13);
        assert("service_name"@.len() == 12);
        bool::law_reads_what_it_writes(m.enabled, "enabled"@, form);
        String::law_reads_what_it_writes(m.otlp_endpoint, "otlp_endpoint"@, form);
        String::law_reads_what_it_writes(m.service_name, "service_name"@, form);
        let t = TelemetryConfig::tree(m);
        assert(t.field("enabled"@) == Some(bool::tree(m.enabled)));
        assert(t.field("otlp_endpoint"@) == Some(String::tree(m.otlp_endpoint)));
        assert(t.field("service_name"@) == Some(String::tree(m.service_name)));
    }

    proof fn law_fits(m: TelemetryConfigModel, depth: nat) {
        let inner = (depth - 1) as nat;
        let o = Map::<Seq<char>, JsonView>::empty();
        bool::law_fits(m.enabled, inner);
        let v = bool::tree(m.enabled);
        json::lemma_insert_within(o, "enabled"@, v, inner);
        let o = o.insert("enabled"@, v);
        String::law_fits(m.otlp_endpoint, inner);
        let v = String::tree(m.otlp_endpoint);
        json::lemma_insert_within(o, "otlp_endpoint"@, v, inner);
        let o = o.insert("otlp_endpoint"@, v);
        String::law_fits(m.service_name, inner);
        let v = String::tree(m.service_name);
        json::lemma_insert_within(o, "service_name"@, v, inner);
        let o = o.insert("service_name"@, v);
    }
}

impl TelemetryConfig {
    /// What the section says where the file has none.
    pub open spec fn silent() -> TelemetryConfigModel {
        TelemetryConfigModel {
            enabled: false,
            otlp_endpoint: "http://localhost:4318"@,
            service_name: "vasal"@,
        }
    }
}

impl Default for TelemetryConfig {
    fn default() -> (r: Self)
        ensures
            r.model() == TelemetryConfig::silent(),
    {
        TelemetryConfig {
            enabled: false,
            otlp_endpoint: defaults::otlp_endpoint(),
            service_name: defaults::service_name(),
        }
    }
}

/// The agent's configuration.
#[derive(Debug, Clone, PartialEq)]
pub struct Config {
    /// Section `agent`.
    pub agent: AgentConfig,
    /// Section `transport`.
    pub transport: TransportConfig,
    /// Section `heartbeat`.
    pub heartbeat: HeartbeatConfig,
    /// Section `audit`.
    pub audit: AuditConfig,
    /// Section `auth`.
    pub auth: AuthConfig,
    /// Section `shell`.
    pub shell: ShellConfig,
    /// Section `units`.
    pub units: UnitsConfig,
    /// Section `telemetry`.
    pub telemetry: TelemetryConfig,
}

/// What a value of [`Config`] is.
#[verifier::ext_equal]
pub struct ConfigModel {
    pub agent: AgentConfigModel,
    pub transport: TransportConfigModel,
    pub heartbeat: HeartbeatConfigModel,
    pub audit: AuditConfigModel,
    pub auth: AuthConfigModel,
    pub shell: ShellConfigModel,
    pub units: UnitsConfigModel,
    pub telemetry: TelemetryConfigModel,
}

impl Wire for Config {
    type Model = ConfigModel;

    open spec fn model(&self) -> ConfigModel {
        ConfigModel {
            agent: self.agent.model(),
            transport: self.transport.model(),
            heartbeat: self.heartbeat.model(),
            audit: self.audit.model(),
            auth: self.auth.model(),
            shell: self.shell.model(),
            units: self.units.model(),
            telemetry: self.telemetry.model(),
        }
    }

    open spec fn tree(m: ConfigModel) -> JsonView {
        let o = Map::<Seq<char>, JsonView>::empty();
        let o = o.insert("agent"@, AgentConfig::tree(m.agent));
        let o = o.insert("transport"@, TransportConfig::tree(m.transport));
        let o = o.insert("heartbeat"@, HeartbeatConfig::tree(m.heartbeat));
        let o = o.insert("audit"@, AuditConfig::tree(m.audit));
        let o = o.insert("auth"@, AuthConfig::tree(m.auth));
        let o = o.insert("shell"@, ShellConfig::tree(m.shell));
        let o = o.insert("units"@, UnitsConfig::tree(m.units));
        let o = o.insert("telemetry"@, TelemetryConfig::tree(m.telemetry));
        JsonView::Object(o)
    }

    open spec fn read(t: JsonView, at: Seq<char>, form: Form) -> Result<ConfigModel, Fault> {
        let t = wire::unlisted(
            t,
            seq![
                "agent"@,
                "transport"@,
                "heartbeat"@,
                "audit"@,
                "auth"@,
                "shell"@,
                "units"@,
                "telemetry"@,
            ],
            7,
            form,
        );
        let agent = wire::read_required::<AgentConfig>(t, "agent"@, form);
        let transport = wire::read_required::<TransportConfig>(t, "transport"@, form);
        let heartbeat = wire::read_required::<HeartbeatConfig>(t, "heartbeat"@, form);
        let audit = wire::read_required::<AuditConfig>(t, "audit"@, form);
        let auth = wire::read_required::<AuthConfig>(t, "auth"@, form);
        let shell = wire::read_required::<ShellConfig>(t, "shell"@, form);
        let units = wire::read_required::<UnitsConfig>(t, "units"@, form);
        let telemetry = wire::read_or::<TelemetryConfig>(t, "telemetry"@, TelemetryConfig::silent(), form);
        if !(t is Object) {
            Err(Fault::Invalid(at))
        } else if agent is Err {
            Err(agent->Err_0)
        } else if transport is Err {
            Err(transport->Err_0)
        } else if heartbeat is Err {
            Err(heartbeat->Err_0)
        } else if audit is Err {
            Err(audit->Err_0)
        } else if auth is Err {
            Err(auth->Err_0)
        } else if shell is Err {
            Err(shell->Err_0)
        } else if units is Err {
            Err(units->Err_0)
        } else if telemetry is Err {
            Err(telemetry->Err_0)
        } else {
            Ok(ConfigModel {
                agent: agent->Ok_0,
                transport: transport->Ok_0,
                heartbeat: heartbeat->Ok_0,
                audit: audit->Ok_0,
                auth: auth->Ok_0,
                shell: shell->Ok_0,
                units: units->Ok_0,
                telemetry: telemetry->Ok_0,
            })
        }
    }

    open spec fn lossless(m: ConfigModel) -> bool {
        &&& AgentConfig::lossless(m.agent)
        &&& TransportConfig::lossless(m.transport)
        &&& HeartbeatConfig::lossless(m.heartbeat)
        &&& AuditConfig::lossless(m.audit)
        &&& AuthConfig::lossless(m.auth)
        &&& ShellConfig::lossless(m.shell)
        &&& UnitsConfig::lossless(m.units)
        &&& TelemetryConfig::lossless(m.telemetry)
    }

    open spec fn fits(m: ConfigModel, depth: nat) -> bool {
        &&& depth > 0
        &&& AgentConfig::fits(m.agent, (depth - 1) as nat)
        &&& TransportConfig::fits(m.transport, (depth - 1) as nat)
        &&& HeartbeatConfig::fits(m.heartbeat, (depth - 1) as nat)
        &&& AuditConfig::fits(m.audit, (depth - 1) as nat)
        &&& AuthConfig::fits(m.auth, (depth - 1) as nat)
        &&& ShellConfig::fits(m.shell, (depth - 1) as nat)
        &&& UnitsConfig::fits(m.units, (depth - 1) as nat)
        &&& TelemetryConfig::fits(m.telemetry, (depth - 1) as nat)
    }

    fn to_json(&self) -> (r: Json) {
        let mut o = JsonObject::new();
        o.set("agent", self.agent.to_json());
        o.set("transport", self.transport.to_json());
        o.set("heartbeat", self.heartbeat.to_json());
        o.set("audit", self.audit.to_json());
        o.set("auth", self.auth.to_json());
        o.set("shell", self.shell.to_json());
        o.set("units", self.units.to_json());
        o.set("telemetry", self.telemetry.to_json());
        o.finish()
    }

    fn from_json(j: &Json, at: &str, form: Form) -> (r: Result<Config, DecodeError>) {
        let names = [
            "agent",
            "transport",
            "heartbeat",
            "audit",
            "auth",
            "shell",
            "units",
            "telemetry",
        ];
        let listed = wire::unlist(j, &names, 7, form);
        let j = match &listed {
            Some(o) => o,
            None => j,
        };
        proof {
            assert(wire::strs(names@) =~= seq![
                "agent"@,
                "transport"@,
                "heartbeat"@,
                "audit"@,
                "auth"@,
                "shell"@,
                "units"@,
                "telemetry"@,
            ]);
        }
        if !j.is_object() {
            return Err(DecodeError::Invalid(at.to_owned()));
        }
        let agent = match wire::required::<AgentConfig>(j, "agent", form) {
            Ok(x) => x,
            Err(e) => return Err(e),
        };
        let transport = match wire::required::<TransportConfig>(j, "transport", form) {
            Ok(x) => x,
            Err(e) => return Err(e),
        };
        let heartbeat = match wire::required::<HeartbeatConfig>(j, "heartbeat", form) {
            Ok(x) => x,
            Err(e) => return Err(e),
        };
        let audit = match wire::required::<AuditConfig>(j, "audit", form) {
            Ok(x) => x,
            Err(e) => return Err(e),
        };
        let auth = match wire::required::<AuthConfig>(j, "auth", form) {
            Ok(x) => x,
            Err(e) => return Err(e),
        };
        let shell = match wire::required::<ShellConfig>(j, "shell", form) {
            Ok(x) => x,
            Err(e) => return Err(e),
        };
        let units = match wire::required::<UnitsConfig>(j, "units", form) {
            Ok(x) => x,
            Err(e) => return Err(e),
        };
        let telemetry = match wire::defaulted::<TelemetryConfig>(j, "telemetry", TelemetryConfig::default(), form) {
            Ok(x) => x,
            Err(e) => return Err(e),
        };
        Ok(Config { agent, transport, heartbeat, audit, auth, shell, units, telemetry })
    }

    proof fn law_reads_what_it_writes(m: ConfigModel, at: Seq<char>, form: Form) {
        reveal_strlit("agent");
        reveal_strlit("transport");
        reveal_strlit("heartbeat");
        reveal_strlit("audit");
        reveal_strlit("auth");
        reveal_strlit("shell");
        reveal_strlit("units");
        reveal_strlit("telemetry");
        assert("agent"@.len() == 5);
        assert("transport"@.len() == 9);
        assert("heartbeat"@.len() == 9);
        assert("audit"@.len() == 5);
        assert("auth"@.len() == 4);
        assert("shell"@.len() == 5);
        assert("units"@.len() == 5);
        assert("telemetry"@.len() == 9);
        assert("agent"@[1] != "audit"@[1]);
        assert("agent"@[0] != "shell"@[0]);
        assert("agent"@[0] != "units"@[0]);
        assert("transport"@[0] != "heartbeat"@[0]);
        assert("transport"@[1] != "telemetry"@[1]);
        assert("heartbeat"@[0] != "telemetry"@[0]);
        assert("audit"@[0] != "shell"@[0]);
        assert("audit"@[0] != "units"@[0]);
        assert("shell"@[0] != "units"@[0]);
        AgentConfig::law_reads_what_it_writes(m.agent, "agent"@, form);
        TransportConfig::law_reads_what_it_writes(m.transport, "transport"@, form);
        HeartbeatConfig::law_reads_what_it_writes(m.heartbeat, "heartbeat"@, form);
        AuditConfig::law_reads_what_it_writes(m.audit, "audit"@, form);
        AuthConfig::law_reads_what_it_writes(m.auth, "auth"@, form);
        ShellConfig::law_reads_what_it_writes(m.shell, "shell"@, form);
        UnitsConfig::law_reads_what_it_writes(m.units, "units"@, form);
        TelemetryConfig::law_reads_what_it_writes(m.telemetry, "telemetry"@, form);
        let t = Config::tree(m);
        assert(t.field("agent"@) == Some(AgentConfig::tree(m.agent)));
        assert(t.field("transport"@) == Some(TransportConfig::tree(m.transport)));
        assert(t.field("heartbeat"@) == Some(HeartbeatConfig::tree(m.heartbeat)));
        assert(t.field("audit"@) == Some(AuditConfig::tree(m.audit)));
        assert(t.field("auth"@) == Some(AuthConfig::tree(m.auth)));
        assert(t.field("shell"@) == Some(ShellConfig::tree(m.shell)));
        assert(t.field("units"@) == Some(UnitsConfig::tree(m.units)));
        assert(t.field("telemetry"@) == Some(TelemetryConfig::tree(m.telemetry)));
    }

    proof fn law_fits(m: ConfigModel, depth: nat) {
        let inner = (depth - 1) as nat;
        let o = Map::<Seq<char>, JsonView>::empty();
        AgentConfig::law_fits(m.agent, inner);
        let v = AgentConfig::tree(m.agent);
        json::lemma_insert_within(o, "agent"@, v, inner);
        let o = o.insert("agent"@, v);
        TransportConfig::law_fits(m.transport, inner);
        let v = TransportConfig::tree(m.transport);
        json::lemma_insert_within(o, "transport"@, v, inner);
        let o = o.insert("transport"@, v);
        HeartbeatConfig::law_fits(m.heartbeat, inner);
        let v = HeartbeatConfig::tree(m.heartbeat);
        json::lemma_insert_within(o, "heartbeat"@, v, inner);
        let o = o.insert("heartbeat"@, v);
        AuditConfig::law_fits(m.audit, inner);
        let v = AuditConfig::tree(m.audit);
        json::lemma_insert_within(o, "audit"@, v, inner);
        let o = o.insert("audit"@, v);
        AuthConfig::law_fits(m.auth, inner);
        let v = AuthConfig::tree(m.auth);
        json::lemma_insert_within(o, "auth"@, v, inner);
        let o = o.insert("auth"@, v);
        ShellConfig::law_fits(m.shell, inner);
        let v = ShellConfig::tree(m.shell);
        json::lemma_insert_within(o, "shell"@, v, inner);
        let o = o.insert("shell"@, v);
        UnitsConfig::law_fits(m.units, inner);
        let v = UnitsConfig::tree(m.units);
        json::lemma_insert_within(o, "units"@, v, inner);
        let o = o.insert("units"@, v);
        TelemetryConfig::law_fits(m.telemetry, inner);
        let v = TelemetryConfig::tree(m.telemetry);
        json::lemma_insert_within(o, "telemetry"@, v, inner);
        let o = o.insert("telemetry"@, v);
    }
}

/// What a configuration text comes to, by what the `toml` crate makes of it.
pub open spec fn config_of(path: Seq<char>, parsed: Result<JsonView, Seq<char>>) -> Result<
    ConfigModel,
    ErrorModel,
> {
    let fault = match parsed {
        Ok(t) => match Config::read(t, "config"@, Form::Toml) {
            Ok(m) => Ok(m),
            Err(f) => Err(f.text()),
        },
        Err(e) => Err(e),
    };
    match fault {
        Ok(m) => Ok(m),
        Err(e) => Err(ErrorModel::Config("failed to parse "@ + path + ": "@ + e)),
    }
}

/// Words the failure to parse a file.
fn parse_failure(path: &str, complaint: &str) -> (r: Error)
    ensures
        r@ == ErrorModel::Config("failed to parse "@ + path@ + ": "@ + complaint@),
{
    let mut s: String = joined("failed to parse ", path);
    s.append(": ");
    s.append(complaint);
    Error::Config(s)
}

/// Words the failure to read a file.
pub fn read_failure(path: &str, complaint: &str) -> (r: Error)
    ensures
        r@ == ErrorModel::Config("failed to read "@ + path@ + ": "@ + complaint@),
{
    let mut s: String = joined("failed to read ", path);
    s.append(": ");
    s.append(complaint);
    Error::Config(s)
}

/// What can change while the agent runs.
#[derive(Debug, Clone, PartialEq)]
pub struct RuntimeConfig {
    pub log_level: String,
    pub max_concurrent: usize,
    pub heartbeat_interval_sec: u64,
    pub health_check_interval_sec: u64,
    pub audit_batch_size: usize,
    pub audit_flush_interval_sec: u64,
}

/// What a value of [`RuntimeConfig`] is.
#[verifier::ext_equal]
pub struct RuntimeConfigModel {
    pub log_level: Seq<char>,
    pub max_concurrent: usize,
    pub heartbeat_interval_sec: u64,
    pub health_check_interval_sec: u64,
    pub audit_batch_size: usize,
    pub audit_flush_interval_sec: u64,
}

impl View for RuntimeConfig {
    type V = RuntimeConfigModel;

    open spec fn view(&self) -> RuntimeConfigModel {
        RuntimeConfigModel {
            log_level: self.log_level@,
            max_concurrent: self.max_concurrent,
            heartbeat_interval_sec: self.heartbeat_interval_sec,
            health_check_interval_sec: self.health_check_interval_sec,
            audit_batch_size: self.audit_batch_size,
            audit_flush_interval_sec: self.audit_flush_interval_sec,
        }
    }
}

/// How grave a finding is.
#[derive(Debug, Clone, Copy, PartialEq, Eq, Structural)]
pub enum LintSeverity {
    /// The agent will not work.
    Error,
    /// The agent will work, though not at its best.
    Warning,
}

/// Something that is wrong with a configuration.
#[derive(Debug, Clone, PartialEq)]
pub struct ConfigLint {
    /// How grave it is.
    pub severity: LintSeverity,
    /// What it is.
    pub message: String,
}

/// What a value of [`ConfigLint`] is.
#[verifier::ext_equal]
pub struct LintModel {
    pub severity: LintSeverity,
    pub message: Seq<char>,
}

impl View for ConfigLint {
    type V = LintModel;

    open spec fn view(&self) -> LintModel {
        LintModel { severity: self.severity, message: self.message@ }
    }
}

/// What a list of findings says.
pub open spec fn lints_view(s: Seq<ConfigLint>) -> Seq<LintModel> {
    Seq::new(s.len(), |i: int| s[i]@)
}

/// One finding, or none.
pub open spec fn found(when: bool, severity: LintSeverity, message: Seq<char>) -> Seq<LintModel> {
    if when {
        seq![LintModel { severity, message }]
    } else {
        Seq::empty()
    }
}

/// What is said of a configuration without authentication.
pub open spec fn auth_text() -> Seq<char> {
    "auth.provider is disabled — the agent will run unauthenticated. Set auth.provider to an auth endpoint for production deployments."@
}

/// What is said of polling without its section.
pub open spec fn no_poll_text() -> Seq<char> {
    "transport.mode = \"poll\" but [transport.poll] section is missing"@
}

/// What is said of gRPC without its section.
pub open spec fn no_grpc_text() -> Seq<char> {
    "transport.mode = \"grpc\" but [transport.grpc] section is missing"@
}

/// The text that `Debug` writes for a path.
pub uninterp spec fn path_debug_text(path: Seq<char>) -> Seq<char>;

/// `Debug` of a `std::path::Path`, by the path alone.
#[verifier::external_body]
fn quoted_path(path: &str) -> (r: String)
    ensures
        r@ == path_debug_text(path@),
{
    format!("{:?}", std::path::Path::new(path))
}

/// All that is wrong with a configuration, given whether its data directory is
/// there: authentication disabled, a transport without its section, no tasks at
/// the same time, a missing data directory, heartbeats without a destination.
pub open spec fn lints_of(c: ConfigModel, data_dir_exists: bool) -> Seq<LintModel> {
    found(
        c.auth.provider == Seq::<char>::empty() || c.auth.provider == "none"@,
        LintSeverity::Warning,
        auth_text(),
    ) + found(
        c.transport.mode == TransportMode::Poll && c.transport.poll is None,
        LintSeverity::Error,
        no_poll_text(),
    ) + found(
        c.transport.mode == TransportMode::Grpc && c.transport.grpc is None,
        LintSeverity::Error,
        no_grpc_text(),
    ) + found(
        c.shell.max_concurrent == 0,
        LintSeverity::Error,
        "shell.max_concurrent is 0 — no tasks can execute"@,
    ) + found(
        !data_dir_exists,
        LintSeverity::Warning,
        "agent.data_dir "@ + path_debug_text(c.agent.data_dir)
            + " does not exist — it will be created on startup"@,
    ) + found(
        c.heartbeat.endpoint == Seq::<char>::empty(),
        LintSeverity::Warning,
        "heartbeat.endpoint is empty — heartbeats will fail"@,
    )
}

/// Adds a finding where there is cause for it.
fn add_lint(out: &mut Vec<ConfigLint>, when: bool, severity: LintSeverity, message: String)
    ensures
        lints_view(final(out)@) == lints_view(old(out)@) + found(when, severity, message@),
{
    let ghost before = out@;
    if when {
        out.push(ConfigLint { severity, message });
    }
    proof {
        assert(lints_view(out@) =~= lints_view(before) + found(when, severity, message@));
    }
}

/// The part of a configuration that can change while the agent runs.
pub open spec fn runtime_of(c: ConfigModel) -> RuntimeConfigModel {
    RuntimeConfigModel {
        log_level: c.agent.log_level,
        max_concurrent: c.shell.max_concurrent,
        heartbeat_interval_sec: c.heartbeat.interval_sec,
        health_check_interval_sec: c.units.health_check_interval_sec,
        audit_batch_size: c.audit.batch_size,
        audit_flush_interval_sec: c.audit.flush_interval_sec,
    }
}

impl Config {
    /// Takes a configuration from what has been made of a file's text.
    pub fn from_parsed(path: &str, parsed: Result<Json, String>) -> (r: Result<Config, Error>)
        ensures
            match config_of(
                path@,
                match parsed {
                    Ok(v) => Ok(v@),
                    Err(e) => Err(e@),
                },
            ) {
                Ok(m) => r is Ok && r->Ok_0.model() == m,
                Err(e) => r is Err && r->Err_0@ == e,
            },
    {
        match parsed {
            Ok(t) => match Config::from_json(&t, "config", Form::Toml) {
                Ok(c) => Ok(c),
                Err(f) => Err(parse_failure(path, f.message().as_str())),
            },
            Err(e) => Err(parse_failure(path, e.as_str())),
        }
    }

    /// Reads a configuration from the text of a file.
    pub fn load(path: &str, content: &str) -> (r: Result<Config, Error>)
        ensures
            match config_of(path@, parsed_toml(content@)) {
                Ok(m) => r is Ok && r->Ok_0.model() == m,
                Err(e) => r is Err && r->Err_0@ == e,
            },
    {
        Config::from_parsed(path, parse_toml(content))
    }

    /// The part that can change while the agent runs.
    pub fn runtime(&self) -> (r: RuntimeConfig)
        ensures
            r@ == runtime_of(self.model()),
    {
        RuntimeConfig {
            log_level: self.agent.log_level.clone(),
            max_concurrent: self.shell.max_concurrent,
            heartbeat_interval_sec: self.heartbeat.interval_sec,
            health_check_interval_sec: self.units.health_check_interval_sec,
            audit_batch_size: self.audit.batch_size,
            audit_flush_interval_sec: self.audit.flush_interval_sec,
        }
    }

    /// Finds what is wrong, given whether the data directory is there.
    pub fn lint(&self, data_dir_exists: bool) -> (r: Vec<ConfigLint>)
        ensures
            lints_view(r@) == lints_of(self.model(), data_dir_exists),
    {
        let mut out: Vec<ConfigLint> = Vec::new();
        proof {
            assert(lints_view(out@) =~= Seq::empty());
        }
        let provider = self.auth.provider.as_str();
        let disabled = text::same(provider, "") || text::same(provider, "none");
        proof {
            reveal_strlit("");
            assert(""@ =~= Seq::<char>::empty());
        }
        add_lint(
            &mut out,
            disabled,
            LintSeverity::Warning,
            "auth.provider is disabled — the agent will run unauthenticated. Set auth.provider to an auth endpoint for production deployments.".to_owned(),
        );
        let polls = match self.transport.mode {
            TransportMode::Poll => true,
            TransportMode::Grpc => false,
        };
        add_lint(
            &mut out,
            polls && self.transport.poll.is_none(),
            LintSeverity::Error,
            "transport.mode = \"poll\" but [transport.poll] section is missing".to_owned(),
        );
        add_lint(
            &mut out,
            !polls && self.transport.grpc.is_none(),
            LintSeverity::Error,
            "transport.mode = \"grpc\" but [transport.grpc] section is missing".to_owned(),
        );
        add_lint(
            &mut out,
            self.shell.max_concurrent == 0,
            LintSeverity::Error,
            "shell.max_concurrent is 0 — no tasks can execute".to_owned(),
        );
        let mut missing: String = joined(
            "agent.data_dir ",
            quoted_path(self.agent.data_dir.as_str()).as_str(),
        );
        missing.append(" does not exist — it will be created on startup");
        add_lint(&mut out, !data_dir_exists, LintSeverity::Warning, missing);
        add_lint(
            &mut out,
            text::same(self.heartbeat.endpoint.as_str(), ""),
            LintSeverity::Warning,
            "heartbeat.endpoint is empty — heartbeats will fail".to_owned(),
        );
        proof {
            assert(lints_view(out@) =~= lints_of(self.model(), data_dir_exists));
        }
        out
    }
}

/// A field that has changed and can change while the agent runs.
#[derive(Debug, Clone, Copy, PartialEq, Eq, Structural)]
pub enum RuntimeField {
    LogLevel,
    MaxConcurrent,
    HeartbeatIntervalSec,
    HealthCheckIntervalSec,
    AuditBatchSize,
    AuditFlushIntervalSec,
}

impl RuntimeField {
    /// The field's name.
    pub open spec fn label(self) -> Seq<char> {
        match self {
            RuntimeField::LogLevel => "log_level"@,
            RuntimeField::MaxConcurrent => "max_concurrent"@,
            RuntimeField::HeartbeatIntervalSec => "heartbeat_interval_sec"@,
            RuntimeField::HealthCheckIntervalSec => "health_check_interval_sec"@,
            RuntimeField::AuditBatchSize => "audit_batch_size"@,
            RuntimeField::AuditFlushIntervalSec => "audit_flush_interval_sec"@,
        }
    }

    /// The field's name.
    pub fn name(&self) -> (r: &'static str)
        ensures
            r@ == self.label(),
    {
        match self {
            RuntimeField::LogLevel => "log_level",
            RuntimeField::MaxConcurrent => "max_concurrent",
            RuntimeField::HeartbeatIntervalSec => "heartbeat_interval_sec",
            RuntimeField::HealthCheckIntervalSec => "health_check_interval_sec",
            RuntimeField::AuditBatchSize => "audit_batch_size",
            RuntimeField::AuditFlushIntervalSec => "audit_flush_interval_sec",
        }
    }

    /// The field's value in a runtime configuration, as a text.
    pub open spec fn value(self, rt: RuntimeConfigModel) -> Seq<char> {
        match self {
            RuntimeField::LogLevel => rt.log_level,
            RuntimeField::MaxConcurrent => text::decimal(rt.max_concurrent as nat),
            RuntimeField::HeartbeatIntervalSec => text::decimal(rt.heartbeat_interval_sec as nat),
            RuntimeField::HealthCheckIntervalSec => text::decimal(rt.health_check_interval_sec as nat),
            RuntimeField::AuditBatchSize => text::decimal(rt.audit_batch_size as nat),
            RuntimeField::AuditFlushIntervalSec => text::decimal(rt.audit_flush_interval_sec as nat),
        }
    }

    /// Whether the field's value is another in the second configuration.
    pub open spec fn differs(self, old_rt: RuntimeConfigModel, new_rt: RuntimeConfigModel) -> bool {
        match self {
            RuntimeField::LogLevel => old_rt.log_level != new_rt.log_level,
            RuntimeField::MaxConcurrent => old_rt.max_concurrent != new_rt.max_concurrent,
            RuntimeField::HeartbeatIntervalSec => old_rt.heartbeat_interval_sec != new_rt.heartbeat_interval_sec,
            RuntimeField::HealthCheckIntervalSec => old_rt.health_check_interval_sec != new_rt.health_check_interval_sec,
            RuntimeField::AuditBatchSize => old_rt.audit_batch_size != new_rt.audit_batch_size,
            RuntimeField::AuditFlushIntervalSec => old_rt.audit_flush_interval_sec != new_rt.audit_flush_interval_sec,
        }
    }
}

/// Appends the value of a field.
fn push_value(out: &mut String, field: RuntimeField, rt: &RuntimeConfig)
    ensures
        final(out)@ == old(out)@ + field.value(rt@),
{
    match field {
        RuntimeField::LogLevel => {
            out.append(rt.log_level.as_str());
        },
        RuntimeField::MaxConcurrent => {
            text::push_u64(out, rt.max_concurrent as u64);
        },
        RuntimeField::HeartbeatIntervalSec => {
            text::push_u64(out, rt.heartbeat_interval_sec);
        },
        RuntimeField::HealthCheckIntervalSec => {
            text::push_u64(out, rt.health_check_interval_sec);
        },
        RuntimeField::AuditBatchSize => {
            text::push_u64(out, rt.audit_batch_size as u64);
        },
        RuntimeField::AuditFlushIntervalSec => {
            text::push_u64(out, rt.audit_flush_interval_sec);
        },
    }
}

/// What the log is told of a field that has changed: its name, the value that it
/// had and the value that it has.
pub open spec fn change_words(
    field: RuntimeField,
    old_rt: RuntimeConfigModel,
    new_rt: RuntimeConfigModel,
) -> Seq<char> {
    field.label() + " changed: "@ + field.value(old_rt) + " -> "@ + field.value(new_rt)
}

/// Words a change for the log.
pub fn change_text(
    field: RuntimeField,
    old_rt: &RuntimeConfig,
    new_rt: &RuntimeConfig,
) -> (r: String)
    ensures
        r@ == change_words(field, old_rt@, new_rt@),
{
    let mut out: String = joined(field.name(), " changed: ");
    push_value(&mut out, field, old_rt);
    out.append(" -> ");
    push_value(&mut out, field, new_rt);
    out
}

/// What the log is told of two runtime configurations: one line for each field
/// that has changed.
pub open spec fn diff_lines(old_rt: RuntimeConfigModel, new_rt: RuntimeConfigModel) -> Seq<
    Seq<char>,
> {
    let fields = runtime_changes(old_rt, new_rt);
    Seq::new(fields.len(), |i: int| change_words(fields[i], old_rt, new_rt))
}

/// Words all changes for the log.
pub fn config_diff_lines(old_rt: &RuntimeConfig, new_rt: &RuntimeConfig) -> (r: Vec<String>)
    ensures
        text::texts(r@) == diff_lines(old_rt@, new_rt@),
{
    let fields = log_config_diff(old_rt, new_rt);
    let mut out: Vec<String> = Vec::new();
    for i in 0..fields.len()
        invariant
            fields@ == runtime_changes(old_rt@, new_rt@),
            out@.len() == i,
            forall|k: int|
                0 <= k < i ==> (#[trigger] out@[k])@ == change_words(fields@[k], old_rt@, new_rt@),
    {
        out.push(change_text(fields[i], old_rt, new_rt));
    }
    proof {
        assert(text::texts(out@) =~= diff_lines(old_rt@, new_rt@));
    }
    out
}

/// One change, or none.
pub open spec fn changed<F>(when: bool, field: F) -> Seq<F> {
    if when {
        seq![field]
    } else {
        Seq::empty()
    }
}

/// The fields in which two runtime configurations differ.
pub open spec fn runtime_changes(old_rt: RuntimeConfigModel, new_rt: RuntimeConfigModel) -> Seq<
    RuntimeField,
> {
    changed(old_rt.log_level != new_rt.log_level, RuntimeField::LogLevel) + changed(
        old_rt.max_concurrent != new_rt.max_concurrent,
        RuntimeField::MaxConcurrent,
    ) + changed(
        old_rt.heartbeat_interval_sec != new_rt.heartbeat_interval_sec,
        RuntimeField::HeartbeatIntervalSec,
    ) + changed(
        old_rt.health_check_interval_sec != new_rt.health_check_interval_sec,
        RuntimeField::HealthCheckIntervalSec,
    ) + changed(
        old_rt.audit_batch_size != new_rt.audit_batch_size,
        RuntimeField::AuditBatchSize,
    ) + changed(
        old_rt.audit_flush_interval_sec != new_rt.audit_flush_interval_sec,
        RuntimeField::AuditFlushIntervalSec,
    )
}

/// Adds a field where it has changed.
fn add_change<F>(out: &mut Vec<F>, when: bool, field: F)
    ensures
        final(out)@ == old(out)@ + changed(when, field),
{
    let ghost before = out@;
    if when {
        out.push(field);
    }
    proof {
        assert(out@ =~= before + changed(when, field));
    }
}

/// Lists the fields in which two runtime configurations differ, for the log.
pub fn log_config_diff(old_rt: &RuntimeConfig, new_rt: &RuntimeConfig) -> (r: Vec<RuntimeField>)
    ensures
        r@ == runtime_changes(old_rt@, new_rt@),
{
    let mut out: Vec<RuntimeField> = Vec::new();
    add_change(&mut out, old_rt.log_level != new_rt.log_level, RuntimeField::LogLevel);
    add_change(
        &mut out,
        old_rt.max_concurrent != new_rt.max_concurrent,
        RuntimeField::MaxConcurrent,
    );
    add_change(
        &mut out,
        old_rt.heartbeat_interval_sec != new_rt.heartbeat_interval_sec,
        RuntimeField::HeartbeatIntervalSec,
    );
    add_change(
        &mut out,
        old_rt.health_check_interval_sec != new_rt.health_check_interval_sec,
        RuntimeField::HealthCheckIntervalSec,
    );
    add_change(
        &mut out,
        old_rt.audit_batch_size != new_rt.audit_batch_size,
        RuntimeField::AuditBatchSize,
    );
    add_change(
        &mut out,
        old_rt.audit_flush_interval_sec != new_rt.audit_flush_interval_sec,
        RuntimeField::AuditFlushIntervalSec,
    );
    assert(out@ =~= runtime_changes(old_rt@, new_rt@));
    out
}

/// A field that has changed and takes a restart to take effect.
#[derive(Debug, Clone, Copy, PartialEq, Eq, Structural)]
pub enum RestartField {
    TransportMode,
    PollEndpoint,
    GrpcEndpoint,
    DataDir,
    SocketDir,
    AuthProvider,
}

impl RestartField {
    /// The field as the file names it.
    pub open spec fn label(self) -> Seq<char> {
        match self {
            RestartField::TransportMode => "transport.mode"@,
            RestartField::PollEndpoint => "transport.poll.endpoint"@,
            RestartField::GrpcEndpoint => "transport.grpc.endpoint"@,
            RestartField::DataDir => "agent.data_dir"@,
            RestartField::SocketDir => "agent.socket_dir"@,
            RestartField::AuthProvider => "auth.provider"@,
        }
    }

    /// The warning that the change takes a restart.
    pub fn warning(&self) -> (r: String)
        ensures
            r@ == self.label() + " changed — restart required"@,
    {
        let name = match self {
            RestartField::TransportMode => "transport.mode",
            RestartField::PollEndpoint => "transport.poll.endpoint",
            RestartField::GrpcEndpoint => "transport.grpc.endpoint",
            RestartField::DataDir => "agent.data_dir",
            RestartField::SocketDir => "agent.socket_dir",
            RestartField::AuthProvider => "auth.provider",
        };
        joined(name, " changed — restart required")
    }
}

/// Where tasks are polled for, where anything is said of it.
pub open spec fn poll_endpoint(c: ConfigModel) -> Option<Seq<char>> {
    match c.transport.poll {
        Some(p) => Some(p.endpoint),
        None => None,
    }
}

/// Where the stream is opened, where anything is said of it.
pub open spec fn grpc_endpoint(c: ConfigModel) -> Option<Seq<char>> {
    match c.transport.grpc {
        Some(g) => Some(g.endpoint),
        None => None,
    }
}

/// The fields in which two configurations differ and that take a restart.
pub open spec fn restart_changes(old_c: ConfigModel, new_c: ConfigModel) -> Seq<RestartField> {
    changed(old_c.transport.mode != new_c.transport.mode, RestartField::TransportMode) + changed(
        poll_endpoint(old_c) != poll_endpoint(new_c),
        RestartField::PollEndpoint,
    ) + changed(
        grpc_endpoint(old_c) != grpc_endpoint(new_c),
        RestartField::GrpcEndpoint,
    ) + changed(
        !text::paths_agree(old_c.agent.data_dir, new_c.agent.data_dir),
        RestartField::DataDir,
    ) + changed(
        !text::paths_agree(old_c.agent.socket_dir, new_c.agent.socket_dir),
        RestartField::SocketDir,
    ) + changed(old_c.auth.provider != new_c.auth.provider, RestartField::AuthProvider)
}

/// Lists the changes that take a restart.
pub fn warn_restart_required(old_c: &Config, new_c: &Config) -> (r: Vec<RestartField>)
    ensures
        r@ == restart_changes(old_c.model(), new_c.model()),
{
    let mut out: Vec<RestartField> = Vec::new();
    add_change(
        &mut out,
        old_c.transport.mode != new_c.transport.mode,
        RestartField::TransportMode,
    );
    let polls_differ = match (&old_c.transport.poll, &new_c.transport.poll) {
        (Some(a), Some(b)) => a.endpoint != b.endpoint,
        (None, None) => false,
        _ => true,
    };
    add_change(&mut out, polls_differ, RestartField::PollEndpoint);
    let streams_differ = match (&old_c.transport.grpc, &new_c.transport.grpc) {
        (Some(a), Some(b)) => a.endpoint != b.endpoint,
        (None, None) => false,
        _ => true,
    };
    add_change(&mut out, streams_differ, RestartField::GrpcEndpoint);
    add_change(
        &mut out,
        !text::same_path(old_c.agent.data_dir.as_str(), new_c.agent.data_dir.as_str()),
        RestartField::DataDir,
    );
    add_change(
        &mut out,
        !text::same_path(old_c.agent.socket_dir.as_str(), new_c.agent.socket_dir.as_str()),
        RestartField::SocketDir,
    );
    add_change(&mut out, old_c.auth.provider != new_c.auth.provider, RestartField::AuthProvider);
    assert(out@ =~= restart_changes(old_c.model(), new_c.model()));
    out
}

/// A reload applies exactly what has changed: nothing is listed when and only
/// when the runtime configurations are the same.
pub proof fn law_no_listed_change_means_no_change(
    old_rt: RuntimeConfigModel,
    new_rt: RuntimeConfigModel,
)
    ensures
        runtime_changes(old_rt, new_rt).len() == 0 <==> old_rt == new_rt,
{
    let a = changed(old_rt.log_level != new_rt.log_level, RuntimeField::LogLevel);
    let b = changed(
        old_rt.max_concurrent != new_rt.max_concurrent,
        RuntimeField::MaxConcurrent,
    );
    let c = changed(
        old_rt.heartbeat_interval_sec != new_rt.heartbeat_interval_sec,
        RuntimeField::HeartbeatIntervalSec,
    );
    let d = changed(
        old_rt.health_check_interval_sec != new_rt.health_check_interval_sec,
        RuntimeField::HealthCheckIntervalSec,
    );
    let e = changed(
        old_rt.audit_batch_size != new_rt.audit_batch_size,
        RuntimeField::AuditBatchSize,
    );
    let f = changed(
        old_rt.audit_flush_interval_sec != new_rt.audit_flush_interval_sec,
        RuntimeField::AuditFlushIntervalSec,
    );
    assert(runtime_changes(old_rt, new_rt) == a + b + c + d + e + f);
    assert((a + b + c + d + e + f).len() == a.len() + b.len() + c.len() + d.len() + e.len()
        + f.len());
}

/// The fields that are listed are those whose values differ, each of them once.
pub proof fn law_changes_are_listed_once(
    old_rt: RuntimeConfigModel,
    new_rt: RuntimeConfigModel,
    field: RuntimeField,
)
    ensures
        runtime_changes(old_rt, new_rt).contains(field) <==> field.differs(old_rt, new_rt),
        runtime_changes(old_rt, new_rt).no_duplicates(),
{
    let a = changed(old_rt.log_level != new_rt.log_level, RuntimeField::LogLevel);
    let b = a + changed(
        old_rt.max_concurrent != new_rt.max_concurrent,
        RuntimeField::MaxConcurrent,
    );
    let c = b + changed(
        old_rt.heartbeat_interval_sec != new_rt.heartbeat_interval_sec,
        RuntimeField::HeartbeatIntervalSec,
    );
    let d = c + changed(
        old_rt.health_check_interval_sec != new_rt.health_check_interval_sec,
        RuntimeField::HealthCheckIntervalSec,
    );
    let e = d + changed(
        old_rt.audit_batch_size != new_rt.audit_batch_size,
        RuntimeField::AuditBatchSize,
    );
    lemma_changed(
        Seq::empty(),
        old_rt.log_level != new_rt.log_level,
        RuntimeField::LogLevel,
        field,
    );
    assert(Seq::<RuntimeField>::empty() + a =~= a);
    lemma_changed(
        a,
        old_rt.max_concurrent != new_rt.max_concurrent,
        RuntimeField::MaxConcurrent,
        field,
    );
    lemma_changed(
        b,
        old_rt.heartbeat_interval_sec != new_rt.heartbeat_interval_sec,
        RuntimeField::HeartbeatIntervalSec,
        field,
    );
    lemma_changed(
        c,
        old_rt.health_check_interval_sec != new_rt.health_check_interval_sec,
        RuntimeField::HealthCheckIntervalSec,
        field,
    );
    lemma_changed(
        d,
        old_rt.audit_batch_size != new_rt.audit_batch_size,
        RuntimeField::AuditBatchSize,
        field,
    );
    lemma_changed(
        e,
        old_rt.audit_flush_interval_sec != new_rt.audit_flush_interval_sec,
        RuntimeField::AuditFlushIntervalSec,
        field,
    );
}

/// One more change is listed where it is one, and nothing else is.
proof fn lemma_changed(s: Seq<RuntimeField>, when: bool, next: RuntimeField, field: RuntimeField)
    requires
        s.no_duplicates(),
        forall|i: int| 0 <= i < s.len() ==> rank(#[trigger] s[i]) < rank(next),
    ensures
        ({
            let t = s + changed(when, next);
            &&& t.contains(field) <==> s.contains(field) || (when && field == next)
            &&& t.no_duplicates()
            &&& forall|i: int| 0 <= i < t.len() ==> rank(#[trigger] t[i]) <= rank(next)
        }),
{
    let t = s + changed(when, next);
    if s.contains(field) {
        let i = choose|i: int| 0 <= i < s.len() && s[i] == field;
        assert(t[i] == field);
    }
    if when {
        assert(t[s.len() as int] == next);
    }
    if t.contains(field) {
        let i = choose|i: int| 0 <= i < t.len() && t[i] == field;
        if i < s.len() {
            assert(s[i] == field);
        }
    }
}

/// The place of a field among the fields.
spec fn rank(field: RuntimeField) -> int {
    match field {
        RuntimeField::LogLevel => 0,
        RuntimeField::MaxConcurrent => 1,
        RuntimeField::HeartbeatIntervalSec => 2,
        RuntimeField::HealthCheckIntervalSec => 3,
        RuntimeField::AuditBatchSize => 4,
        RuntimeField::AuditFlushIntervalSec => 5,
    }
}

/// A configuration with a finding of severity `Error` has a transport without
/// its section or runs no task, and the other way round.
pub proof fn law_errors_are_what_stops_the_agent(c: ConfigModel, data_dir_exists: bool)
    ensures
        (exists|i: int|
            0 <= i < lints_of(c, data_dir_exists).len() && (#[trigger] lints_of(
                c,
                data_dir_exists,
            )[i]).severity == LintSeverity::Error) <==> (c.shell.max_concurrent == 0 || (
        c.transport.mode == TransportMode::Poll && c.transport.poll is None) || (c.transport.mode
            == TransportMode::Grpc && c.transport.grpc is None)),
{
    let l = lints_of(c, data_dir_exists);
    let a = found(
        c.auth.provider == Seq::<char>::empty() || c.auth.provider == "none"@,
        LintSeverity::Warning,
        auth_text(),
    ).len() as int;
    let no_poll = c.transport.mode == TransportMode::Poll && c.transport.poll is None;
    let no_grpc = c.transport.mode == TransportMode::Grpc && c.transport.grpc is None;
    if no_poll || no_grpc || c.shell.max_concurrent == 0 {
        assert(l[a].severity == LintSeverity::Error);
    } else {
        assert forall|i: int| 0 <= i < l.len() implies (#[trigger] l[i]).severity
            == LintSeverity::Warning by {
            assert(a == 0 || a == 1);
        }
    }
}

/// A file comes to a configuration exactly where it is TOML and a configuration
/// can be read from it; the error names the file and says what is wrong.
pub proof fn law_file_comes_to_what_it_says(path: Seq<char>, parsed: Result<JsonView, Seq<char>>)
    ensures
        ({
            let r = config_of(path, parsed);
            let read = if parsed is Ok {
                Config::read(parsed->Ok_0, "config"@, Form::Toml)
            } else {
                Err(Fault::Invalid(Seq::empty()))
            };
            &&& r is Ok <==> parsed is Ok && read is Ok
            &&& r is Ok ==> r->Ok_0 == read->Ok_0
            &&& parsed matches Err(e) ==> r == Err::<ConfigModel, ErrorModel>(
                ErrorModel::Config("failed to parse "@ + path + ": "@ + e),
            )
            &&& parsed is Ok && read is Err ==> r == Err::<ConfigModel, ErrorModel>(
                ErrorModel::Config("failed to parse "@ + path + ": "@ + read->Err_0.text()),
            )
        }),
{
}

/// What is found wrong with a configuration: each of the causes there is gives one
/// finding of its severity, and there is no finding without its cause.
pub proof fn law_each_cause_is_found(c: ConfigModel, data_dir_exists: bool)
    ensures
        ({
            let l = lints_of(c, data_dir_exists);
            let no_auth = c.auth.provider.len() == 0 || c.auth.provider == "none"@;
            let no_poll = c.transport.mode is Poll && c.transport.poll is None;
            let no_grpc = c.transport.mode is Grpc && c.transport.grpc is None;
            let no_tasks = c.shell.max_concurrent == 0;
            let no_heartbeats = c.heartbeat.endpoint.len() == 0;
            let one = |b: bool|
                if b {
                    1int
                } else {
                    0int
                };
            let warns = |m: Seq<char>|
                l.contains(LintModel { severity: LintSeverity::Warning, message: m });
            let fails = |m: Seq<char>|
                l.contains(LintModel { severity: LintSeverity::Error, message: m });
            &&& l.len() == one(no_auth) + one(no_poll) + one(no_grpc) + one(no_tasks) + one(
                !data_dir_exists,
            ) + one(no_heartbeats)
            &&& no_auth ==> warns(auth_text())
            &&& no_poll ==> fails(
                "transport.mode = \"poll\" but [transport.poll] section is missing"@,
            )
            &&& no_grpc ==> fails(
                "transport.mode = \"grpc\" but [transport.grpc] section is missing"@,
            )
            &&& no_tasks ==> fails("shell.max_concurrent is 0 — no tasks can execute"@)
            &&& !data_dir_exists ==> warns(
                "agent.data_dir "@ + path_debug_text(c.agent.data_dir)
                    + " does not exist — it will be created on startup"@,
            )
            &&& no_heartbeats ==> warns("heartbeat.endpoint is empty — heartbeats will fail"@)
        }),
{
    let l = lints_of(c, data_dir_exists);
    assert(c.auth.provider.len() == 0 ==> c.auth.provider =~= Seq::<char>::empty());
    assert(c.heartbeat.endpoint.len() == 0 ==> c.heartbeat.endpoint =~= Seq::<char>::empty());
    let no_auth = c.auth.provider == Seq::<char>::empty() || c.auth.provider == "none"@;
    let no_poll = c.transport.mode == TransportMode::Poll && c.transport.poll is None;
    let no_grpc = c.transport.mode == TransportMode::Grpc && c.transport.grpc is None;
    let data_text = "agent.data_dir "@ + path_debug_text(c.agent.data_dir)
        + " does not exist — it will be created on startup"@;
    let a = found(no_auth, LintSeverity::Warning, auth_text());
    let b = found(no_poll, LintSeverity::Error, no_poll_text());
    let d = found(no_grpc, LintSeverity::Error, no_grpc_text());
    let e = found(
        c.shell.max_concurrent == 0,
        LintSeverity::Error,
        "shell.max_concurrent is 0 — no tasks can execute"@,
    );
    let f = found(!data_dir_exists, LintSeverity::Warning, data_text);
    let g = found(
        c.heartbeat.endpoint == Seq::<char>::empty(),
        LintSeverity::Warning,
        "heartbeat.endpoint is empty — heartbeats will fail"@,
    );
    assert(l == a + b + d + e + f + g);
    if no_auth {
        assert(l[0] == a[0]);
    }
    if no_poll {
        assert(l[a.len() as int] == b[0]);
    }
    if no_grpc {
        assert(l[(a.len() + b.len()) as int] == d[0]);
    }
    if c.shell.max_concurrent == 0 {
        assert(l[(a.len() + b.len() + d.len()) as int] == e[0]);
    }
    if !data_dir_exists {
        assert(l[(a.len() + b.len() + d.len() + e.len()) as int] == f[0]);
    }
    if c.heartbeat.endpoint == Seq::<char>::empty() {
        assert(l[l.len() - 1] == g[0]);
    }
}

/// What can change while the agent runs is taken from the sections that say it.
pub proof fn law_runtime_is_what_the_sections_say(c: ConfigModel)
    ensures
        ({
            let rt = runtime_of(c);
            &&& rt.log_level == c.agent.log_level
            &&& rt.max_concurrent == c.shell.max_concurrent
            &&& rt.heartbeat_interval_sec == c.heartbeat.interval_sec
            &&& rt.health_check_interval_sec == c.units.health_check_interval_sec
            &&& rt.audit_batch_size == c.audit.batch_size
            &&& rt.audit_flush_interval_sec == c.audit.flush_interval_sec
        }),
{
}

/// A change of a field that can change while the agent runs is listed exactly
/// where the field has another value.
pub proof fn law_changed_values_are_listed(old_rt: RuntimeConfigModel, new_rt: RuntimeConfigModel)
    ensures
        ({
            let l = runtime_changes(old_rt, new_rt);
            &&& l.contains(RuntimeField::LogLevel) <==> old_rt.log_level != new_rt.log_level
            &&& l.contains(RuntimeField::MaxConcurrent) <==> old_rt.max_concurrent
                != new_rt.max_concurrent
            &&& l.contains(RuntimeField::HeartbeatIntervalSec) <==> old_rt.heartbeat_interval_sec
                != new_rt.heartbeat_interval_sec
            &&& l.contains(RuntimeField::HealthCheckIntervalSec)
                <==> old_rt.health_check_interval_sec != new_rt.health_check_interval_sec
            &&& l.contains(RuntimeField::AuditBatchSize) <==> old_rt.audit_batch_size
                != new_rt.audit_batch_size
            &&& l.contains(RuntimeField::AuditFlushIntervalSec)
                <==> old_rt.audit_flush_interval_sec != new_rt.audit_flush_interval_sec
        }),
{
    law_changes_are_listed_once(old_rt, new_rt, RuntimeField::LogLevel);
    law_changes_are_listed_once(old_rt, new_rt, RuntimeField::MaxConcurrent);
    law_changes_are_listed_once(old_rt, new_rt, RuntimeField::HeartbeatIntervalSec);
    law_changes_are_listed_once(old_rt, new_rt, RuntimeField::HealthCheckIntervalSec);
    law_changes_are_listed_once(old_rt, new_rt, RuntimeField::AuditBatchSize);
    law_changes_are_listed_once(old_rt, new_rt, RuntimeField::AuditFlushIntervalSec);
}

/// What the log is told of a change: the name of the field, the value that it had
/// and the value that it has, one line for each change.
pub proof fn law_log_tells_each_change(
    old_rt: RuntimeConfigModel,
    new_rt: RuntimeConfigModel,
    i: int,
)
    requires
        0 <= i < runtime_changes(old_rt, new_rt).len(),
    ensures
        ({
            let said = |name: Seq<char>, before: Seq<char>, after: Seq<char>|
                diff_lines(old_rt, new_rt)[i] == name + " changed: "@ + before + " -> "@ + after;
            &&& diff_lines(old_rt, new_rt).len() == runtime_changes(old_rt, new_rt).len()
            &&& match runtime_changes(old_rt, new_rt)[i] {
                RuntimeField::LogLevel => said("log_level"@, old_rt.log_level, new_rt.log_level),
                RuntimeField::MaxConcurrent => said(
                    "max_concurrent"@,
                    text::decimal(old_rt.max_concurrent as nat),
                    text::decimal(new_rt.max_concurrent as nat),
                ),
                RuntimeField::HeartbeatIntervalSec => said(
                    "heartbeat_interval_sec"@,
                    text::decimal(old_rt.heartbeat_interval_sec as nat),
                    text::decimal(new_rt.heartbeat_interval_sec as nat),
                ),
                RuntimeField::HealthCheckIntervalSec => said(
                    "health_check_interval_sec"@,
                    text::decimal(old_rt.health_check_interval_sec as nat),
                    text::decimal(new_rt.health_check_interval_sec as nat),
                ),
                RuntimeField::AuditBatchSize => said(
                    "audit_batch_size"@,
                    text::decimal(old_rt.audit_batch_size as nat),
                    text::decimal(new_rt.audit_batch_size as nat),
                ),
                RuntimeField::AuditFlushIntervalSec => said(
                    "audit_flush_interval_sec"@,
                    text::decimal(old_rt.audit_flush_interval_sec as nat),
                    text::decimal(new_rt.audit_flush_interval_sec as nat),
                ),
            }
        }),
{
}

/// A restart is asked for exactly where the way of transport, one of the two
/// endpoints, one of the two directories or the auth provider is another; each of
/// these is listed once, under the name that the file has for it.
pub proof fn law_restart_is_asked_for_what_changed(old_c: ConfigModel, new_c: ConfigModel)
    ensures
        ({
            let l = restart_changes(old_c, new_c);
            let one = |b: bool|
                if b {
                    1int
                } else {
                    0int
                };
            let mode = old_c.transport.mode != new_c.transport.mode;
            let poll = match (old_c.transport.poll, new_c.transport.poll) {
                (Some(a), Some(b)) => a.endpoint != b.endpoint,
                (None, None) => false,
                _ => true,
            };
            let grpc = match (old_c.transport.grpc, new_c.transport.grpc) {
                (Some(a), Some(b)) => a.endpoint != b.endpoint,
                (None, None) => false,
                _ => true,
            };
            let data = !text::paths_agree(old_c.agent.data_dir, new_c.agent.data_dir);
            let socket = !text::paths_agree(old_c.agent.socket_dir, new_c.agent.socket_dir);
            let auth = old_c.auth.provider != new_c.auth.provider;
            &&& l.len() == one(mode) + one(poll) + one(grpc) + one(data) + one(socket) + one(auth)
            &&& l.contains(RestartField::TransportMode) <==> mode
            &&& l.contains(RestartField::PollEndpoint) <==> poll
            &&& l.contains(RestartField::GrpcEndpoint) <==> grpc
            &&& l.contains(RestartField::DataDir) <==> data
            &&& l.contains(RestartField::SocketDir) <==> socket
            &&& l.contains(RestartField::AuthProvider) <==> auth
            &&& RestartField::TransportMode.label() == "transport.mode"@
            &&& RestartField::PollEndpoint.label() == "transport.poll.endpoint"@
            &&& RestartField::GrpcEndpoint.label() == "transport.grpc.endpoint"@
            &&& RestartField::DataDir.label() == "agent.data_dir"@
            &&& RestartField::SocketDir.label() == "agent.socket_dir"@
            &&& RestartField::AuthProvider.label() == "auth.provider"@
        }),
{
    let a = changed(
        old_c.transport.mode != new_c.transport.mode,
        RestartField::TransportMode,
    );
    let poll = poll_endpoint(old_c) != poll_endpoint(new_c);
    let grpc = grpc_endpoint(old_c) != grpc_endpoint(new_c);
    let data = !text::paths_agree(old_c.agent.data_dir, new_c.agent.data_dir);
    let socket = !text::paths_agree(old_c.agent.socket_dir, new_c.agent.socket_dir);
    let auth = old_c.auth.provider != new_c.auth.provider;
    let none = Seq::<RestartField>::empty();
    assert(none + a =~= a);
    lemma_one_more(
        none,
        old_c.transport.mode != new_c.transport.mode,
        RestartField::TransportMode,
    );
    let b = a + changed(poll, RestartField::PollEndpoint);
    lemma_one_more(a, poll, RestartField::PollEndpoint);
    let c = b + changed(grpc, RestartField::GrpcEndpoint);
    lemma_one_more(b, grpc, RestartField::GrpcEndpoint);
    let d = c + changed(data, RestartField::DataDir);
    lemma_one_more(c, data, RestartField::DataDir);
    let e = d + changed(socket, RestartField::SocketDir);
    lemma_one_more(d, socket, RestartField::SocketDir);
    lemma_one_more(e, auth, RestartField::AuthProvider);
    assert(restart_changes(old_c, new_c) == e + changed(auth, RestartField::AuthProvider));
}

/// One more change is listed where it is one, and nothing else is.
proof fn lemma_one_more(s: Seq<RestartField>, when: bool, next: RestartField)
    ensures
        (s + changed(when, next)).len() == s.len() + (if when {
            1int
        } else {
            0int
        }),
        forall|f: RestartField| #[trigger]
            (s + changed(when, next)).contains(f) <==> s.contains(f) || (when && f == next),
{
    let t = s + changed(when, next);
    assert forall|f: RestartField| #[trigger] t.contains(f) <==> s.contains(f) || (when && f
        == next) by {
        if s.contains(f) {
            let i = choose|i: int| 0 <= i < s.len() && s[i] == f;
            assert(t[i] == f);
        }
        if when {
            assert(t[s.len() as int] == next);
        }
        if t.contains(f) {
            let i = choose|i: int| 0 <= i < t.len() && t[i] == f;
            if i < s.len() {
                assert(s[i] == f);
            }
        }
    }
}

} // verus!
