//! A sidecar that reads what the kernel counts: which files are read, and what
//! their lines say.

use crate::agent::error::joined;
use crate::json::{self, Json, JsonFloat, JsonNumber, JsonObject, JsonView, NumberView};
use crate::protocol::error::{ProtocolError, ProtocolErrorModel, INTERNAL_ERROR, INVALID_PARAMS};
use crate::protocol::sidecar::{
    HealthResponse, HealthResponseModel, HealthStatus, SubmitResponse, SubmitResponseModel,
};
use crate::sidecars::sql_ctrl::{self, completed};
use crate::refusal::{self, Kind, Rule, RuleModel};
use crate::text;
use crate::wire::{self, DecodeError, Fault, Form, Wire};
use vstd::prelude::*;
use vstd::string::*;

verus! {

/// What a task asks of the probes.
#[derive(Debug, Clone, PartialEq)]
pub struct ProbeParams {
    /// What to do: `snapshot` or `attach`.
    pub action: String,
    /// The probes; all where there are none.
    pub probes: Vec<String>,
}

/// What a value of [`ProbeParams`] is.
#[verifier::ext_equal]
pub struct ProbeParamsModel {
    pub action: Seq<char>,
    pub probes: Seq<Seq<char>>,
}

impl Wire for ProbeParams {
    type Model = ProbeParamsModel;

    open spec fn model(&self) -> ProbeParamsModel {
        ProbeParamsModel {
            action: self.action.model(),
            probes: self.probes.model(),
        }
    }

    open spec fn tree(m: ProbeParamsModel) -> JsonView {
        let o = Map::<Seq<char>, JsonView>::empty();
        let o = o.insert("action"@, String::tree(m.action));
        let o = o.insert("probes"@, Vec::<String>::tree(m.probes));
        JsonView::Object(o)
    }

    open spec fn read(t: JsonView, at: Seq<char>, form: Form) -> Result<ProbeParamsModel, Fault> {
        let t = wire::unlisted(t, seq!["action"@, "probes"@], 1, form);
        let action = wire::read_required::<String>(t, "action"@, form);
        let probes = wire::read_or::<Vec<String>>(t, "probes"@, Seq::<Seq<char>>::empty(), form);
        if !(t is Object) {
            Err(Fault::Invalid(at))
        } else if action is Err {
            Err(action->Err_0)
        } else if probes is Err {
            Err(probes->Err_0)
        } else {
            Ok(ProbeParamsModel {
                action: action->Ok_0,
                probes: probes->Ok_0,
            })
        }
    }

    open spec fn lossless(m: ProbeParamsModel) -> bool {
        &&& String::lossless(m.action)
        &&& Vec::<String>::lossless(m.probes)
    }

    open spec fn fits(m: ProbeParamsModel, depth: nat) -> bool {
        &&& depth > 0
        &&& String::fits(m.action, (depth - 1) as nat)
        &&& Vec::<String>::fits(m.probes, (depth - 1) as nat)
    }

    fn to_json(&self) -> (r: Json) {
        let mut o = JsonObject::new();
        o.set("action", self.action.to_json());
        o.set("probes", self.probes.to_json());
        o.finish()
    }

    fn from_json(j: &Json, at: &str, form: Form) -> (r: Result<ProbeParams, DecodeError>) {
        let names = ["action", "probes"];
        let listed = wire::unlist(j, &names, 1, form);
        let j = match &listed {
            Some(o) => o,
            None => j,
        };
        proof {
            assert(wire::strs(names@) =~= seq!["action"@, "probes"@]);
        }
        if !j.is_object() {
            return Err(DecodeError::Invalid(at.to_owned()));
        }
        assert(wire::models(Seq::<String>::empty()) =~= Seq::empty());
        let action = match wire::required::<String>(j, "action", form) {
            Ok(x) => x,
            Err(e) => return Err(e),
        };
        let probes = match wire::defaulted::<Vec<String>>(j, "probes", Vec::new(), form) {
            Ok(x) => x,
            Err(e) => return Err(e),
        };
        Ok(ProbeParams { action, probes })
    }

    proof fn law_reads_what_it_writes(m: ProbeParamsModel, at: Seq<char>, form: Form) {
        reveal_strlit("action");
        reveal_strlit("probes");
        assert("action"@.len() == 6);
        assert("probes"@.len() == 6);
        assert("action"@[0] != "probes"@[0]);
        String::law_reads_what_it_writes(m.action, "action"@, form);
        Vec::<String>::law_reads_what_it_writes(m.probes, "probes"@, form);
        let t = ProbeParams::tree(m);
        assert(t.field("action"@) == Some(String::tree(m.action)));
        assert(t.field("probes"@) == Some(Vec::<String>::tree(m.probes)));
    }

    proof fn law_fits(m: ProbeParamsModel, depth: nat) {
        let inner = (depth - 1) as nat;
        let o = Map::<Seq<char>, JsonView>::empty();
        String::law_fits(m.action, inner);
        let v = String::tree(m.action);
        json::lemma_insert_within(o, "action"@, v, inner);
        let o = o.insert("action"@, v);
        Vec::<String>::law_fits(m.probes, inner);
        let v = Vec::<String>::tree(m.probes);
        json::lemma_insert_within(o, "probes"@, v, inner);
        let o = o.insert("probes"@, v);
    }
}

/// Where the sidecar listens unless told otherwise.
pub const DEFAULT_SOCKET: &'static str = "/run/vasal/ebpf-observer.sock";

/// What a request asks for.
#[derive(Debug)]
pub enum ProbeCommand {
    /// Read the probes once; all of them where none is named.
    Snapshot(Vec<String>),
    /// Attach the probes.
    Attach(Vec<String>),
}

/// What a value of [`ProbeCommand`] is.
#[verifier::ext_equal]
pub enum ProbeCommandModel {
    Snapshot(Seq<Seq<char>>),
    Attach(Seq<Seq<char>>),
}

impl View for ProbeCommand {
    type V = ProbeCommandModel;

    open spec fn view(&self) -> ProbeCommandModel {
        match self {
            ProbeCommand::Snapshot(p) => ProbeCommandModel::Snapshot(text::texts(p@)),
            ProbeCommand::Attach(p) => ProbeCommandModel::Attach(text::texts(p@)),
        }
    }
}

/// What is wrong with the parameters of a request.
pub open spec fn probe_fault(params: JsonView) -> Option<Seq<char>> {
    refusal::struct_fault(
        params,
        "struct ProbeParams"@,
        seq![
            RuleModel { key: "action"@, kind: Kind::Text, needed: true },
            RuleModel { key: "probes"@, kind: Kind::Texts, needed: false },
        ],
        seq![0usize, 1usize],
        Form::Plain,
    )
}

/// Words what is wrong with the parameters of a request.
fn explain_probe(params: &Json) -> (r: String)
    ensures
        r@ == refusal::words(probe_fault(params@)),
{
    let rules = [
        Rule { key: "action", kind: Kind::Text, needed: true },
        Rule { key: "probes", kind: Kind::Texts, needed: false },
    ];
    let order = [0usize, 1usize];
    proof {
        assert(refusal::rules_view(rules@) =~= seq![
            RuleModel { key: "action"@, kind: Kind::Text, needed: true },
            RuleModel { key: "probes"@, kind: Kind::Texts, needed: false },
        ]);
        assert(order@ =~= seq![0usize, 1usize]);
    }
    refusal::explain(params, "struct ProbeParams", &rules, &order, Form::Plain)
}

/// Parameters are refused exactly when something is wrong with them.
pub proof fn law_probe_refusal_has_words(params: JsonView)
    ensures
        ProbeParams::read(params, "params"@, Form::Plain) is Err <==> probe_fault(params) is Some,
{
    reveal_with_fuel(refusal::spoiled_from, 4);
    reveal_with_fuel(refusal::lacking_from, 4);
    reveal_with_fuel(refusal::listed_from, 4);
    reveal_with_fuel(refusal::needed_from, 4);
    reveal_with_fuel(wire::named, 4);
    reveal_strlit("action");
    reveal_strlit("probes");
    assert("action"@.len() == 6);
    assert("probes"@.len() == 6);
    assert("action"@[0] != "probes"@[0]);
    let t = wire::unlisted(params, seq!["action"@, "probes"@], 1, Form::Plain);
    if let Some(JsonView::Array(s)) = t.field("probes"@) {
        refusal::lemma_texts_are_read(s, "probes"@, Form::Plain);
    }
}

/// What a request asks for, or why it is refused.
pub open spec fn command_of(params: JsonView) -> Result<ProbeCommandModel, ProtocolErrorModel> {
    match ProbeParams::read(params, "params"@, Form::Plain) {
        Err(_) => Err(ProtocolError::plain(INVALID_PARAMS, refusal::words(probe_fault(params)))),
        Ok(p) => if p.action == "snapshot"@ {
            Ok(ProbeCommandModel::Snapshot(p.probes))
        } else if p.action == "attach"@ {
            Ok(ProbeCommandModel::Attach(p.probes))
        } else {
            Err(
                ProtocolError::plain(
                    INVALID_PARAMS,
                    "unknown action: "@ + p.action + " (expected 'snapshot' or 'attach')"@,
                ),
            )
        },
    }
}

/// Reads a request.
pub fn read_command(params: &Json) -> (r: Result<ProbeCommand, ProtocolError>)
    ensures
        match command_of(params@) {
            Ok(c) => r is Ok && r->Ok_0@ == c,
            Err(e) => r is Err && r->Err_0.model() == e,
        },
{
    let p = match ProbeParams::from_json(params, "params", Form::Plain) {
        Ok(p) => p,
        Err(_) => return Err(ProtocolError::invalid_params(explain_probe(params).as_str())),
    };
    proof {
        assert(p.model().probes =~= text::texts(p.probes@));
    }
    if text::same(p.action.as_str(), "snapshot") {
        Ok(ProbeCommand::Snapshot(p.probes))
    } else if text::same(p.action.as_str(), "attach") {
        Ok(ProbeCommand::Attach(p.probes))
    } else {
        let mut s: String = joined("unknown action: ", p.action.as_str());
        s.append(" (expected 'snapshot' or 'attach')");
        Err(ProtocolError::invalid_params(s.as_str()))
    }
}

/// What is told of the sidecar: it is well where the kernel's counters can be
/// read.
pub open spec fn health_of(
    linux: bool,
    counters_readable: bool,
    platform: Seq<char>,
    arch: Seq<char>,
    version: Seq<char>,
) -> HealthResponseModel {
    HealthResponseModel {
        status: if linux && counters_readable {
            HealthStatus::Healthy
        } else {
            HealthStatus::Degraded
        },
        version: Some(version),
        error: if !linux {
            Some("procfs metrics require Linux — running as stub"@)
        } else if !counters_readable {
            Some("/proc/vmstat not accessible — metrics may be incomplete"@)
        } else {
            None
        },
        metadata: Some(
            JsonView::Object(
                Map::<Seq<char>, JsonView>::empty().insert(
                    "platform"@,
                    JsonView::Text(platform),
                ).insert("arch"@, JsonView::Text(arch)),
            ),
        ),
    }
}

/// Tells how the sidecar is.
pub fn health_response(
    linux: bool,
    counters_readable: bool,
    platform: &str,
    arch: &str,
    version: &str,
) -> (r: HealthResponse)
    ensures
        r.model() == health_of(linux, counters_readable, platform@, arch@, version@),
{
    let (status, error) = if !linux {
        (
            HealthStatus::Degraded,
            Some("procfs metrics require Linux — running as stub".to_owned()),
        )
    } else if !counters_readable {
        (
            HealthStatus::Degraded,
            Some("/proc/vmstat not accessible — metrics may be incomplete".to_owned()),
        )
    } else {
        (HealthStatus::Healthy, None)
    };
    let mut o = JsonObject::new();
    o.set("platform", Json::text(platform));
    o.set("arch", Json::text(arch));
    HealthResponse {
        status,
        version: Some(version.to_owned()),
        error,
        metadata: Some(o.finish()),
    }
}

/// Whether a snapshot reads a probe: it is named, or none is.
pub open spec fn wanted(probes: Seq<Seq<char>>, probe: Seq<char>) -> bool {
    probes.len() == 0 || probes.contains(probe)
}

/// Whether a snapshot reads a probe.
pub fn wants(probes: &Vec<String>, probe: &str) -> (r: bool)
    ensures
        r == wanted(text::texts(probes@), probe@),
{
    let ghost all = text::texts(probes@);
    if probes.len() == 0 {
        return true;
    }
    for i in 0..probes.len()
        invariant
            all == text::texts(probes@),
            forall|k: int| 0 <= k < i ==> (#[trigger] all[k]) != probe@,
    {
        assert(all[i as int] == probes@[i as int]@);
        if text::same(probes[i].as_str(), probe) {
            return true;
        }
    }
    false
}

/// What the probes showed, each as JSON.
#[derive(Debug)]
pub struct Readings {
    pub tcp_retransmit: Json,
    pub blk_io_latency: Json,
    pub oom_kill: Json,
    pub connection_rate: Json,
}

/// A reading under its name, where it is wanted.
pub open spec fn with_reading(
    o: Map<Seq<char>, JsonView>,
    probes: Seq<Seq<char>>,
    probe: Seq<char>,
    reading: JsonView,
) -> Map<Seq<char>, JsonView> {
    if wanted(probes, probe) {
        o.insert(probe, reading)
    } else {
        o
    }
}

/// What a snapshot tells, as JSON: the readings that are wanted.
pub open spec fn snapshot_tree(probes: Seq<Seq<char>>, readings: Readings) -> JsonView {
    let o = Map::<Seq<char>, JsonView>::empty();
    let o = with_reading(o, probes, "tcp_retransmit"@, readings.tcp_retransmit@);
    let o = with_reading(o, probes, "blk_io_latency"@, readings.blk_io_latency@);
    let o = with_reading(o, probes, "oom_kill"@, readings.oom_kill@);
    let o = with_reading(o, probes, "connection_rate"@, readings.connection_rate@);
    JsonView::Object(o)
}

/// Answers with a snapshot.
pub fn snapshot_response(probes: &Vec<String>, readings: Readings) -> (r: SubmitResponse)
    ensures
        sql_ctrl::tells(r, snapshot_tree(text::texts(probes@), readings)),
{
    let mut o = JsonObject::new();
    if wants(probes, "tcp_retransmit") {
        o.set("tcp_retransmit", readings.tcp_retransmit);
    }
    if wants(probes, "blk_io_latency") {
        o.set("blk_io_latency", readings.blk_io_latency);
    }
    if wants(probes, "oom_kill") {
        o.set("oom_kill", readings.oom_kill);
    }
    if wants(probes, "connection_rate") {
        o.set("connection_rate", readings.connection_rate);
    }
    completed(&o.finish())
}

/// What a snapshot tells where there is nothing to read, as JSON.
pub open spec fn stub_tree(platform: Seq<char>) -> JsonView {
    JsonView::Object(
        Map::<Seq<char>, JsonView>::empty().insert("status"@, JsonView::Text("stub"@)).insert(
            "message"@,
            JsonView::Text("procfs metrics not available on this platform"@),
        ).insert("platform"@, JsonView::Text(platform)),
    )
}

/// Answers a snapshot where there is nothing to read.
pub fn stub_response(platform: &str) -> (r: SubmitResponse)
    ensures
        sql_ctrl::tells(r, stub_tree(platform@)),
{
    let mut o = JsonObject::new();
    o.set("status", Json::text("stub"));
    o.set("message", Json::text("procfs metrics not available on this platform"));
    o.set("platform", Json::text(platform));
    completed(&o.finish())
}

/// What is told of attached probes, as JSON.
pub open spec fn attached_tree(probes: Seq<Seq<char>>) -> JsonView {
    JsonView::Object(
        Map::<Seq<char>, JsonView>::empty().insert("status"@, JsonView::Text("attached"@)).insert(
            "probes"@,
            sql_ctrl::texts_tree(probes),
        ).insert(
            "message"@,
            JsonView::Text("procfs-based probes are always active — snapshot to read values"@),
        ),
    )
}

/// Answers a request to attach probes: there is nothing to attach to but on
/// Linux, where they are always on.
pub fn attach_response(linux: bool, probes: &Vec<String>) -> (r: Result<
    SubmitResponse,
    ProtocolError,
>)
    ensures
        if linux {
            r is Ok && sql_ctrl::tells(r->Ok_0, attached_tree(text::texts(probes@)))
        } else {
            r is Err && r->Err_0.model() == ProtocolError::plain(
                INTERNAL_ERROR,
                "probe attachment requires Linux"@,
            )
        },
{
    if !linux {
        return Err(ProtocolError::new(INTERNAL_ERROR, "probe attachment requires Linux"));
    }
    let mut o = JsonObject::new();
    o.set("status", Json::text("attached"));
    o.set("probes", sql_ctrl::texts_json(probes));
    o.set(
        "message",
        Json::text("procfs-based probes are always active — snapshot to read values"),
    );
    Ok(completed(&o.finish()))
}

/// What is told of a file that cannot be read.
pub fn unreadable(complaint: &str) -> (r: Json)
    ensures
        r@ == JsonView::Object(
            Map::<Seq<char>, JsonView>::empty().insert("error"@, JsonView::Text(complaint@)),
        ),
{
    let mut o = JsonObject::new();
    o.set("error", Json::text(complaint));
    o.finish()
}

/// Segments that TCP sent.
#[derive(Debug, Clone, Copy, PartialEq, Eq, Structural)]
pub struct TcpSegments {
    /// Sent again.
    pub retransmitted: u64,
    /// Sent.
    pub sent: u64,
}

/// The words of the header and of the values of TCP: the first line of TCP names
/// them, the last one behind it holds them.
pub open spec fn tcp_table(lines: Seq<Seq<char>>) -> (Seq<Seq<char>>, Seq<Seq<char>>)
    decreases lines.len(),
{
    if lines.len() == 0 {
        (Seq::empty(), Seq::empty())
    } else {
        let (header, values) = tcp_table(lines.drop_last());
        if !text::has_prefix(lines.last(), "Tcp:"@) {
            (header, values)
        } else if header.len() == 0 {
            (text::words(lines.last()), values)
        } else {
            (header, text::words(lines.last()))
        }
    }
}

/// The value under a name of the header; zero where there is none.
pub open spec fn table_value(
    header: Seq<Seq<char>>,
    values: Seq<Seq<char>>,
    name: Seq<char>,
) -> u64 {
    let i = text::position(header, name);
    if i < header.len() && i < values.len() {
        text::number_or_zero(values[i as int])
    } else {
        0
    }
}

/// Finds the value under a name of the header.
fn find_value(header: &Vec<String>, values: &Vec<String>, name: &str) -> (r: u64)
    ensures
        r == table_value(text::texts(header@), text::texts(values@), name@),
{
    let i: usize = text::find_text(header, name);
    if i < header.len() && i < values.len() {
        assert(text::texts(values@)[i as int] == values@[i as int]@);
        text::parse_or_zero(values[i].as_str())
    } else {
        0
    }
}

/// What `/proc/net/snmp` says of TCP.
pub open spec fn segments_of(content: Seq<char>) -> TcpSegments {
    let (header, values) = tcp_table(text::lines(content));
    TcpSegments {
        retransmitted: table_value(header, values, "RetransSegs"@),
        sent: table_value(header, values, "OutSegs"@),
    }
}

/// Reads what `/proc/net/snmp` says of TCP.
pub fn read_segments(content: &str) -> (r: TcpSegments)
    ensures
        r == segments_of(content@),
{
    let lines = text::split_lines(content);
    let ghost all = text::lines(content@);
    let mut header: Vec<String> = Vec::new();
    let mut values: Vec<String> = Vec::new();
    proof {
        assert(text::texts(header@) =~= Seq::empty());
    }
    for i in 0..lines.len()
        invariant
            all == text::texts(lines@),
            (text::texts(header@), text::texts(values@)) == tcp_table(all.take(i as int)),
    {
        proof {
            assert(all.take(i + 1).drop_last() =~= all.take(i as int));
            assert(all.take(i + 1).last() == lines@[i as int]@);
        }
        if text::starts_with(lines[i].as_str(), "Tcp:") {
            if header.len() == 0 {
                header = text::split_words(lines[i].as_str());
            } else {
                values = text::split_words(lines[i].as_str());
            }
        }
    }
    assert(all.take(all.len() as int) =~= all);
    TcpSegments {
        retransmitted: find_value(&header, &values, "RetransSegs"),
        sent: find_value(&header, &values, "OutSegs"),
    }
}

/// Tells of the segments of TCP; `rate` is the share that was sent again.
pub fn segments_json(segments: &TcpSegments, rate: JsonFloat) -> (r: Json)
    ensures
        r@ == JsonView::Object(
            Map::<Seq<char>, JsonView>::empty().insert(
                "retransmit_segments"@,
                JsonView::Number(NumberView::Int(segments.retransmitted as int)),
            ).insert(
                "out_segments"@,
                JsonView::Number(NumberView::Int(segments.sent as int)),
            ).insert("retransmit_rate"@, JsonView::Number(NumberView::Float(rate))),
        ),
{
    let mut o = JsonObject::new();
    o.set("retransmit_segments", Json::unsigned(segments.retransmitted));
    o.set("out_segments", Json::unsigned(segments.sent));
    o.set("retransmit_rate", Json::Number(JsonNumber::Float(rate)));
    o.finish()
}

/// What a disk did.
#[derive(Debug)]
pub struct DiskStats {
    pub name: String,
    pub reads: u64,
    pub read_ms: u64,
    pub writes: u64,
    pub write_ms: u64,
    pub io_in_progress: u64,
    pub io_ms: u64,
}

/// What a value of [`DiskStats`] is.
#[verifier::ext_equal]
pub struct DiskModel {
    pub name: Seq<char>,
    pub reads: u64,
    pub read_ms: u64,
    pub writes: u64,
    pub write_ms: u64,
    pub io_in_progress: u64,
    pub io_ms: u64,
}

impl View for DiskStats {
    type V = DiskModel;

    open spec fn view(&self) -> DiskModel {
        DiskModel {
            name: self.name@,
            reads: self.reads,
            read_ms: self.read_ms,
            writes: self.writes,
            write_ms: self.write_ms,
            io_in_progress: self.io_in_progress,
            io_ms: self.io_ms,
        }
    }
}

/// What a list of disks is.
pub open spec fn disks_view(s: Seq<DiskStats>) -> Seq<DiskModel> {
    Seq::new(s.len(), |i: int| s[i]@)
}

/// What a line of `/proc/diskstats` says of a disk. Short lines, loop devices
/// and RAM disks are passed over.
pub open spec fn disk_of(line: Seq<char>) -> Option<DiskModel> {
    let w = text::words(line);
    if w.len() < 14 || text::has_prefix(w[2], "loop"@) || text::has_prefix(w[2], "ram"@) {
        None
    } else {
        Some(
            DiskModel {
                name: w[2],
                reads: text::number_or_zero(w[3]),
                read_ms: text::number_or_zero(w[6]),
                writes: text::number_or_zero(w[7]),
                write_ms: text::number_or_zero(w[10]),
                io_in_progress: text::number_or_zero(w[11]),
                io_ms: text::number_or_zero(w[12]),
            },
        )
    }
}

/// Reads a line of `/proc/diskstats`.
pub fn read_disk(line: &str) -> (r: Option<DiskStats>)
    ensures
        match disk_of(line@) {
            Some(m) => r is Some && r->0@ == m,
            None => r is None,
        },
{
    let w = text::split_words(line);
    let ghost all = text::words(line@);
    assert(all == text::texts(w@));
    if w.len() < 14 {
        return None;
    }
    assert(forall|k: int| 0 <= k < all.len() ==> (#[trigger] all[k]) == w@[k]@);
    if text::starts_with(w[2].as_str(), "loop") || text::starts_with(w[2].as_str(), "ram") {
        return None;
    }
    Some(
        DiskStats {
            name: w[2].clone(),
            reads: text::parse_or_zero(w[3].as_str()),
            read_ms: text::parse_or_zero(w[6].as_str()),
            writes: text::parse_or_zero(w[7].as_str()),
            write_ms: text::parse_or_zero(w[10].as_str()),
            io_in_progress: text::parse_or_zero(w[11].as_str()),
            io_ms: text::parse_or_zero(w[12].as_str()),
        },
    )
}

/// What lines of `/proc/diskstats` say of disks, in order.
pub open spec fn disks_of(lines: Seq<Seq<char>>) -> Seq<DiskModel>
    decreases lines.len(),
{
    if lines.len() == 0 {
        Seq::empty()
    } else {
        let front = disks_of(lines.drop_last());
        match disk_of(lines.last()) {
            Some(m) => front.push(m),
            None => front,
        }
    }
}

/// Reads `/proc/diskstats`.
pub fn read_disks(content: &str) -> (r: Vec<DiskStats>)
    ensures
        disks_view(r@) == disks_of(text::lines(content@)),
{
    let lines = text::split_lines(content);
    let ghost all = text::lines(content@);
    let mut out: Vec<DiskStats> = Vec::new();
    proof {
        assert(disks_view(out@) =~= Seq::empty());
    }
    for i in 0..lines.len()
        invariant
            all == text::texts(lines@),
            disks_view(out@) == disks_of(all.take(i as int)),
    {
        proof {
            assert(all.take(i + 1).drop_last() =~= all.take(i as int));
            assert(all.take(i + 1).last() == lines@[i as int]@);
        }
        match read_disk(lines[i].as_str()) {
            Some(d) => {
                let ghost before = out@;
                out.push(d);
                proof {
                    assert(disks_view(out@) =~= disks_view(before).push(d@));
                }
            },
            None => {},
        }
    }
    assert(all.take(all.len() as int) =~= all);
    out
}

/// What a disk did, with what one read and one write took on average.
#[derive(Debug)]
pub struct DiskReading {
    pub stats: DiskStats,
    pub avg_read_latency_ms: JsonFloat,
    pub avg_write_latency_ms: JsonFloat,
}

impl DiskReading {
    /// The reading as JSON.
    pub open spec fn tree(self) -> JsonView {
        JsonView::Object(
            Map::<Seq<char>, JsonView>::empty().insert(
                "reads"@,
                JsonView::Number(NumberView::Int(self.stats.reads as int)),
            ).insert(
                "read_ms"@,
                JsonView::Number(NumberView::Int(self.stats.read_ms as int)),
            ).insert(
                "writes"@,
                JsonView::Number(NumberView::Int(self.stats.writes as int)),
            ).insert(
                "write_ms"@,
                JsonView::Number(NumberView::Int(self.stats.write_ms as int)),
            ).insert(
                "io_in_progress"@,
                JsonView::Number(NumberView::Int(self.stats.io_in_progress as int)),
            ).insert(
                "io_ms"@,
                JsonView::Number(NumberView::Int(self.stats.io_ms as int)),
            ).insert(
                "avg_read_latency_ms"@,
                JsonView::Number(NumberView::Float(self.avg_read_latency_ms)),
            ).insert(
                "avg_write_latency_ms"@,
                JsonView::Number(NumberView::Float(self.avg_write_latency_ms)),
            ),
        )
    }

    /// Writes the reading as JSON.
    pub fn to_json(&self) -> (r: Json)
        ensures
            r@ == self.tree(),
    {
        let mut o = JsonObject::new();
        o.set("reads", Json::unsigned(self.stats.reads));
        o.set("read_ms", Json::unsigned(self.stats.read_ms));
        o.set("writes", Json::unsigned(self.stats.writes));
        o.set("write_ms", Json::unsigned(self.stats.write_ms));
        o.set("io_in_progress", Json::unsigned(self.stats.io_in_progress));
        o.set("io_ms", Json::unsigned(self.stats.io_ms));
        o.set(
            "avg_read_latency_ms",
            Json::Number(JsonNumber::Float(self.avg_read_latency_ms.duplicate())),
        );
        o.set(
            "avg_write_latency_ms",
            Json::Number(JsonNumber::Float(self.avg_write_latency_ms.duplicate())),
        );
        o.finish()
    }
}

/// The readings of disks by their names; of two with one name the later counts.
pub open spec fn disks_by_name(s: Seq<DiskReading>) -> Map<Seq<char>, JsonView>
    decreases s.len(),
{
    if s.len() == 0 {
        Map::empty()
    } else {
        disks_by_name(s.drop_last()).insert(s.last().stats.name@, s.last().tree())
    }
}

/// Tells of the disks.
pub fn disks_json(readings: &Vec<DiskReading>) -> (r: Json)
    ensures
        r@ == JsonView::Object(disks_by_name(readings@)),
{
    let mut o = JsonObject::new();
    for i in 0..readings.len()
        invariant
            o@ == disks_by_name(readings@.take(i as int)),
    {
        proof {
            assert(readings@.take(i + 1).drop_last() =~= readings@.take(i as int));
        }
        o.set(readings[i].stats.name.as_str(), readings[i].to_json());
    }
    assert(readings@.take(readings@.len() as int) =~= readings@);
    o.finish()
}

/// What the kernel says of memory that ran out.
#[derive(Debug, Clone, Copy, PartialEq, Eq, Structural)]
pub struct MemoryPressure {
    /// Processes that were killed for it.
    pub oom_kills: u64,
    /// Whether the kernel counts them.
    pub oom_kills_counted: bool,
    /// Pages that had to be read from disk.
    pub major_faults: u64,
}

/// What lines of `/proc/vmstat` say, the last of a kind counting.
pub open spec fn pressure_of(lines: Seq<Seq<char>>) -> MemoryPressure
    decreases lines.len(),
{
    if lines.len() == 0 {
        MemoryPressure { oom_kills: 0, oom_kills_counted: false, major_faults: 0 }
    } else {
        let front = pressure_of(lines.drop_last());
        let line = lines.last();
        if text::has_prefix(line, "oom_kill "@) {
            MemoryPressure {
                oom_kills: text::number_or_zero(
                    text::trimmed(line.skip("oom_kill "@.len() as int)),
                ),
                oom_kills_counted: true,
                ..front
            }
        } else if text::has_prefix(line, "pgmajfault "@) {
            MemoryPressure {
                major_faults: text::number_or_zero(
                    text::trimmed(line.skip("pgmajfault "@.len() as int)),
                ),
                ..front
            }
        } else {
            front
        }
    }
}

/// Reads `/proc/vmstat`.
pub fn read_pressure(content: &str) -> (r: MemoryPressure)
    ensures
        r == pressure_of(text::lines(content@)),
{
    let lines = text::split_lines(content);
    let ghost all = text::lines(content@);
    let mut oom_kills: u64 = 0;
    let mut oom_kills_counted = false;
    let mut major_faults: u64 = 0;
    for i in 0..lines.len()
        invariant
            all == text::texts(lines@),
            pressure_of(all.take(i as int)) == (MemoryPressure {
                oom_kills,
                oom_kills_counted,
                major_faults,
            }),
    {
        proof {
            assert(all.take(i + 1).drop_last() =~= all.take(i as int));
            assert(all.take(i + 1).last() == lines@[i as int]@);
        }
        if let Some(rest) = text::strip_prefix(lines[i].as_str(), "oom_kill ") {
            oom_kills = text::parse_or_zero(text::trim(rest.as_str()).as_str());
            oom_kills_counted = true;
        } else if let Some(rest) = text::strip_prefix(lines[i].as_str(), "pgmajfault ") {
            major_faults = text::parse_or_zero(text::trim(rest.as_str()).as_str());
        }
    }
    assert(all.take(all.len() as int) =~= all);
    MemoryPressure { oom_kills, oom_kills_counted, major_faults }
}

/// Tells of memory that ran out.
pub fn pressure_json(pressure: &MemoryPressure) -> (r: Json)
    ensures
        r@ == JsonView::Object(
            Map::<Seq<char>, JsonView>::empty().insert(
                "oom_kill_count"@,
                JsonView::Number(NumberView::Int(pressure.oom_kills as int)),
            ).insert("oom_kill_available"@, JsonView::Bool(pressure.oom_kills_counted)).insert(
                "major_page_faults"@,
                JsonView::Number(NumberView::Int(pressure.major_faults as int)),
            ),
        ),
{
    let mut o = JsonObject::new();
    o.set("oom_kill_count", Json::unsigned(pressure.oom_kills));
    o.set("oom_kill_available", Json::Bool(pressure.oom_kills_counted));
    o.set("major_page_faults", Json::unsigned(pressure.major_faults));
    o.finish()
}

/// How many TCP connections there are, in all and by state.
#[derive(Debug, Clone, Copy, PartialEq, Eq, Structural)]
pub struct Connections {
    pub total: u64,
    pub established: u64,
    pub listen: u64,
    pub time_wait: u64,
    pub close_wait: u64,
}

/// The state of the connection that a line of `/proc/net/tcp` describes, where
/// it describes one.
pub open spec fn state_of(line: Seq<char>) -> Option<Seq<char>> {
    let w = text::words(line);
    if w.len() < 4 {
        None
    } else {
        Some(w[3])
    }
}

/// How many of the lines describe a connection.
pub open spec fn connections_in(lines: Seq<Seq<char>>) -> nat
    decreases lines.len(),
{
    if lines.len() == 0 {
        0
    } else {
        connections_in(lines.drop_last()) + if state_of(lines.last()) is Some {
            1nat
        } else {
            0nat
        }
    }
}

/// How many of the lines describe a connection in the given state.
pub open spec fn connections_with(lines: Seq<Seq<char>>, state: Seq<char>) -> nat
    decreases lines.len(),
{
    if lines.len() == 0 {
        0
    } else {
        connections_with(lines.drop_last(), state) + if state_of(lines.last()) == Some(state) {
            1nat
        } else {
            0nat
        }
    }
}

/// Whether `c` counts the connections that the lines describe.
pub open spec fn counts(c: Connections, lines: Seq<Seq<char>>) -> bool {
    &&& c.total == connections_in(lines)
    &&& c.established == connections_with(lines, "01"@)
    &&& c.listen == connections_with(lines, "0A"@)
    &&& c.time_wait == connections_with(lines, "06"@)
    &&& c.close_wait == connections_with(lines, "08"@)
}

/// The lines behind the first, which is the header.
pub open spec fn body_lines(content: Seq<char>) -> Seq<Seq<char>> {
    let lines = text::lines(content);
    if lines.len() == 0 {
        lines
    } else {
        lines.skip(1)
    }
}

/// Lines describe no more connections than there are lines.
proof fn lemma_connections_bounded(lines: Seq<Seq<char>>, state: Seq<char>)
    ensures
        connections_with(lines, state) <= connections_in(lines) <= lines.len(),
    decreases lines.len(),
{
    if lines.len() > 0 {
        lemma_connections_bounded(lines.drop_last(), state);
    }
}

/// Reads `/proc/net/tcp` or `/proc/net/tcp6`.
pub fn read_connections(content: &str) -> (r: Connections)
    ensures
        counts(r, body_lines(content@)),
{
    let lines = text::split_lines(content);
    let ghost all = text::lines(content@);
    let ghost body = body_lines(content@);
    let n: usize = lines.len();
    let mut c = Connections { total: 0, established: 0, listen: 0, time_wait: 0, close_wait: 0 };
    if n == 0 {
        return c;
    }
    proof {
        reveal_strlit("01");
        reveal_strlit("0A");
        reveal_strlit("06");
        reveal_strlit("08");
        assert("01"@[1] != "0A"@[1] && "01"@[1] != "06"@[1] && "01"@[1] != "08"@[1]);
        assert("0A"@[1] != "06"@[1] && "0A"@[1] != "08"@[1] && "06"@[1] != "08"@[1]);
        assert(body.take(0) =~= Seq::empty());
    }
    for i in 1..n
        invariant
            n == lines@.len(),
            n >= 1,
            all == text::texts(lines@),
            body == all.skip(1),
            counts(c, body.take(i - 1)),
            "01"@ != "0A"@,
            "01"@ != "06"@,
            "01"@ != "08"@,
            "0A"@ != "06"@,
            "0A"@ != "08"@,
            "06"@ != "08"@,
    {
        proof {
            assert(body.take(i as int).drop_last() =~= body.take(i - 1));
            assert(body.take(i as int).last() == lines@[i as int]@);
            lemma_connections_bounded(body.take(i - 1), "01"@);
            lemma_connections_bounded(body.take(i - 1), "0A"@);
            lemma_connections_bounded(body.take(i - 1), "06"@);
            lemma_connections_bounded(body.take(i - 1), "08"@);
        }
        let w = text::split_words(lines[i].as_str());
        if w.len() >= 4 {
            assert(text::texts(w@)[3] == w@[3]@);
            let state = w[3].as_str();
            c.total = c.total + 1;
            if text::same(state, "01") {
                c.established = c.established + 1;
            } else if text::same(state, "0A") {
                c.listen = c.listen + 1;
            } else if text::same(state, "06") {
                c.time_wait = c.time_wait + 1;
            } else if text::same(state, "08") {
                c.close_wait = c.close_wait + 1;
            }
        }
    }
    assert(body.take(n - 1) =~= body);
    c
}

/// Adds the connections of two files up.
pub fn both(a: &Connections, b: &Connections) -> (r: Connections)
    ensures
        r.total == a.total.wrapping_add(b.total),
        r.established == a.established.wrapping_add(b.established),
        r.listen == a.listen.wrapping_add(b.listen),
        r.time_wait == a.time_wait.wrapping_add(b.time_wait),
        r.close_wait == a.close_wait.wrapping_add(b.close_wait),
{
    Connections {
        total: a.total.wrapping_add(b.total),
        established: a.established.wrapping_add(b.established),
        listen: a.listen.wrapping_add(b.listen),
        time_wait: a.time_wait.wrapping_add(b.time_wait),
        close_wait: a.close_wait.wrapping_add(b.close_wait),
    }
}

/// Tells of the connections.
pub fn connections_json(c: &Connections) -> (r: Json)
    ensures
        r@ == JsonView::Object(
            Map::<Seq<char>, JsonView>::empty().insert(
                "total"@,
                JsonView::Number(NumberView::Int(c.total as int)),
            ).insert(
                "established"@,
                JsonView::Number(NumberView::Int(c.established as int)),
            ).insert("listen"@, JsonView::Number(NumberView::Int(c.listen as int))).insert(
                "time_wait"@,
                JsonView::Number(NumberView::Int(c.time_wait as int)),
            ).insert("close_wait"@, JsonView::Number(NumberView::Int(c.close_wait as int))),
        ),
{
    let mut o = JsonObject::new();
    o.set("total", Json::unsigned(c.total));
    o.set("established", Json::unsigned(c.established));
    o.set("listen", Json::unsigned(c.listen));
    o.set("time_wait", Json::unsigned(c.time_wait));
    o.set("close_wait", Json::unsigned(c.close_wait));
    o.finish()
}

/// A snapshot that names no probe is one that names them all.
pub proof fn law_no_probe_means_every_probe(readings: Readings, probes: Seq<Seq<char>>)
    requires
        probes.contains("tcp_retransmit"@),
        probes.contains("blk_io_latency"@),
        probes.contains("oom_kill"@),
        probes.contains("connection_rate"@),
    ensures
        snapshot_tree(Seq::empty(), readings) == snapshot_tree(probes, readings),
{
}

/// The connections in the four states are among all connections.
pub proof fn law_states_are_part_of_the_total(c: Connections, lines: Seq<Seq<char>>)
    requires
        counts(c, lines),
    ensures
        c.established + c.listen + c.time_wait + c.close_wait <= c.total,
{
    reveal_strlit("01");
    reveal_strlit("0A");
    reveal_strlit("06");
    reveal_strlit("08");
    assert("01"@[1] != "0A"@[1] && "01"@[1] != "06"@[1] && "01"@[1] != "08"@[1]);
    assert("0A"@[1] != "06"@[1] && "0A"@[1] != "08"@[1] && "06"@[1] != "08"@[1]);
    lemma_states_disjoint(lines);
}

/// A connection is in one state.
proof fn lemma_states_disjoint(lines: Seq<Seq<char>>)
    requires
        "01"@ != "0A"@,
        "01"@ != "06"@,
        "01"@ != "08"@,
        "0A"@ != "06"@,
        "0A"@ != "08"@,
        "06"@ != "08"@,
    ensures
        connections_with(lines, "01"@) + connections_with(lines, "0A"@) + connections_with(
            lines,
            "06"@,
        ) + connections_with(lines, "08"@) <= connections_in(lines),
    decreases lines.len(),
{
    if lines.len() > 0 {
        lemma_states_disjoint(lines.drop_last());
    }
}

/// What a request comes to: the command that its action names, with its probes in
/// order; it is refused where its parameters cannot be read or it names no action
/// that there is.
pub proof fn law_requests_come_to_their_commands(params: JsonView)
    ensures
        ({
            let r = command_of(params);
            let read = ProbeParams::read(params, "params"@, Form::Plain);
            let p = read->Ok_0;
            &&& r is Ok <==> read is Ok && (p.action == "snapshot"@ || p.action == "attach"@)
            &&& r is Ok && p.action == "snapshot"@ ==> r->Ok_0 == ProbeCommandModel::Snapshot(
                p.probes,
            )
            &&& r is Ok && p.action == "attach"@ ==> r->Ok_0 == ProbeCommandModel::Attach(p.probes)
            &&& r is Err ==> r->Err_0.code == -32602 && r->Err_0.data is None
            &&& read is Err ==> r->Err_0.message == refusal::words(probe_fault(params))
            &&& read is Ok && r is Err ==> r->Err_0.message == "unknown action: "@ + p.action
                + " (expected 'snapshot' or 'attach')"@
        }),
{
    reveal_strlit("snapshot");
    reveal_strlit("attach");
    assert("snapshot"@.len() == 8);
    assert("attach"@.len() == 6);
}

/// The sidecar is well exactly on Linux with counters that can be read; otherwise
/// it works in part and says why. It always tells where it runs.
pub proof fn law_observer_is_well_where_it_can_read(
    linux: bool,
    counters_readable: bool,
    platform: Seq<char>,
    arch: Seq<char>,
    version: Seq<char>,
)
    ensures
        ({
            let h = health_of(linux, counters_readable, platform, arch, version);
            &&& h.status == HealthStatus::Healthy <==> linux && counters_readable
            &&& h.status != HealthStatus::Healthy ==> h.status == HealthStatus::Degraded
            &&& h.error is None <==> linux && counters_readable
            &&& !linux ==> h.error == Some("procfs metrics require Linux — running as stub"@)
            &&& linux && !counters_readable ==> h.error == Some(
                "/proc/vmstat not accessible — metrics may be incomplete"@,
            )
            &&& h.version == Some(version)
            &&& h.metadata is Some
            &&& h.metadata->0.field("platform"@) == Some(JsonView::Text(platform))
            &&& h.metadata->0.field("arch"@) == Some(JsonView::Text(arch))
        }),
{
    reveal_strlit("platform");
    reveal_strlit("arch");
    assert("platform"@.len() == 8);
    assert("arch"@.len() == 4);
}

/// A snapshot tells exactly the probes that are named, or all of them where none
/// is, each with its own reading.
pub proof fn law_snapshot_tells_the_named_probes(probes: Seq<Seq<char>>, readings: Readings)
    ensures
        ({
            let t = snapshot_tree(probes, readings);
            let told = |probe: Seq<char>, v: JsonView|
                t.field(probe) == (if probes.len() == 0 || probes.contains(probe) {
                    Some(v)
                } else {
                    None
                });
            &&& told("tcp_retransmit"@, readings.tcp_retransmit@)
            &&& told("blk_io_latency"@, readings.blk_io_latency@)
            &&& told("oom_kill"@, readings.oom_kill@)
            &&& told("connection_rate"@, readings.connection_rate@)
        }),
{
    reveal_strlit("tcp_retransmit");
    reveal_strlit("blk_io_latency");
    reveal_strlit("oom_kill");
    reveal_strlit("connection_rate");
    assert("tcp_retransmit"@.len() == 14);
    assert("blk_io_latency"@.len() == 14);
    assert("tcp_retransmit"@[0] == 't');
    assert("blk_io_latency"@[0] == 'b');
    assert("oom_kill"@.len() == 8);
    assert("connection_rate"@.len() == 15);
}

/// What is told of attached probes, and where there is nothing to read.
pub proof fn law_stub_and_attached_say_what_they_are(
    platform: Seq<char>,
    probes: Seq<Seq<char>>,
    i: int,
)
    requires
        0 <= i < probes.len(),
    ensures
        stub_tree(platform).field("status"@) == Some(JsonView::Text("stub"@)),
        stub_tree(platform).field("platform"@) == Some(JsonView::Text(platform)),
        attached_tree(probes).field("status"@) == Some(JsonView::Text("attached"@)),
        ({
            let told = attached_tree(probes).field("probes"@);
            told is Some && told->0 is Array && told->0->Array_0.len() == probes.len()
                && told->0->Array_0[i] == JsonView::Text(probes[i])
        }),
{
    reveal_strlit("status");
    reveal_strlit("message");
    reveal_strlit("platform");
    reveal_strlit("probes");
    assert("status"@.len() == 6);
    assert("probes"@.len() == 6);
    assert("status"@[0] == 's');
    assert("probes"@[0] == 'p');
    assert("message"@.len() == 7);
    assert("platform"@.len() == 8);
}

/// The table of TCP: its header is the first of TCP's lines that has words, its
/// values are the last of the lines behind that.
pub proof fn law_tcp_table_is_the_first_and_the_last(
    before: Seq<Seq<char>>,
    header: Seq<char>,
    between: Seq<Seq<char>>,
    values: Seq<char>,
    behind: Seq<Seq<char>>,
)
    requires
        forall|i: int|
            0 <= i < before.len() ==> !text::has_prefix(#[trigger] before[i], "Tcp:"@),
        forall|i: int|
            0 <= i < behind.len() ==> !text::has_prefix(#[trigger] behind[i], "Tcp:"@),
        text::has_prefix(header, "Tcp:"@),
        text::has_prefix(values, "Tcp:"@),
        text::words(header).len() > 0,
    ensures
        tcp_table(before.push(header) + between.push(values) + behind) == (
            text::words(header),
            text::words(values),
        ),
    decreases behind.len(), between.len(), before.len(),
{
    let all = before.push(header) + between.push(values) + behind;
    if behind.len() > 0 {
        assert(all.drop_last() =~= before.push(header) + between.push(values)
            + behind.drop_last());
        assert(all.last() == behind.last());
        assert(!text::has_prefix(behind[behind.len() - 1], "Tcp:"@));
        law_tcp_table_is_the_first_and_the_last(
            before,
            header,
            between,
            values,
            behind.drop_last(),
        );
    } else {
        assert(all.drop_last() =~= before.push(header) + between);
        assert(all.last() == values);
        lemma_tcp_header(before, header, between);
    }
}

/// The header is the first of TCP's lines.
proof fn lemma_tcp_header(before: Seq<Seq<char>>, header: Seq<char>, between: Seq<Seq<char>>)
    requires
        forall|i: int|
            0 <= i < before.len() ==> !text::has_prefix(#[trigger] before[i], "Tcp:"@),
        text::has_prefix(header, "Tcp:"@),
        text::words(header).len() > 0,
    ensures
        tcp_table(before.push(header) + between).0 == text::words(header),
    decreases between.len(),
{
    let all = before.push(header) + between;
    if between.len() > 0 {
        assert(all.drop_last() =~= before.push(header) + between.drop_last());
        lemma_tcp_header(before, header, between.drop_last());
    } else {
        assert(all.drop_last() =~= before);
        assert(all.last() == header);
        lemma_no_tcp(before);
    }
}

/// Without a line of TCP there is no table.
proof fn lemma_no_tcp(lines: Seq<Seq<char>>)
    requires
        forall|i: int| 0 <= i < lines.len() ==> !text::has_prefix(#[trigger] lines[i], "Tcp:"@),
    ensures
        tcp_table(lines) == (Seq::<Seq<char>>::empty(), Seq::<Seq<char>>::empty()),
    decreases lines.len(),
{
    if lines.len() > 0 {
        assert(!text::has_prefix(lines[lines.len() - 1], "Tcp:"@));
        lemma_no_tcp(lines.drop_last());
    }
}

/// What is told of TCP stands under its own name in the table.
pub proof fn law_segments_stand_under_their_names(content: Seq<char>)
    ensures
        ({
            let t = tcp_table(text::lines(content));
            let value = |name: Seq<char>|
                if text::position(t.0, name) < t.0.len() && text::position(t.0, name)
                    < t.1.len() {
                    text::number_or_zero(t.1[text::position(t.0, name) as int])
                } else {
                    0
                };
            &&& segments_of(content).retransmitted == value("RetransSegs"@)
            &&& segments_of(content).sent == value("OutSegs"@)
        }),
{
}

/// What a line says of a disk stands at its place in the line. A line with fewer
/// than fourteen words, and one of a loop device or a RAM disk, says nothing.
pub proof fn law_disk_counters_stand_at_their_places(line: Seq<char>)
    ensures
        ({
            let w = text::words(line);
            let r = disk_of(line);
            &&& r is Some <==> w.len() >= 14 && !text::has_prefix(w[2], "loop"@)
                && !text::has_prefix(w[2], "ram"@)
            &&& r matches Some(d) ==> {
                &&& d.name == w[2]
                &&& d.reads == text::number_or_zero(w[3])
                &&& d.read_ms == text::number_or_zero(w[6])
                &&& d.writes == text::number_or_zero(w[7])
                &&& d.write_ms == text::number_or_zero(w[10])
                &&& d.io_in_progress == text::number_or_zero(w[11])
                &&& d.io_ms == text::number_or_zero(w[12])
            }
        }),
{
}

/// Every line that says something of a disk is told, and nothing else is: the
/// disks of two lists, one behind the other, are the disks of each.
pub proof fn law_each_line_tells_its_disk(
    a: Seq<Seq<char>>,
    line: Seq<char>,
    b: Seq<Seq<char>>,
)
    ensures
        disks_of(a + b) == disks_of(a) + disks_of(b),
        disks_of(seq![line]) == (if disk_of(line) is Some {
            seq![disk_of(line)->0]
        } else {
            Seq::empty()
        }),
    decreases b.len(),
{
    if b.len() == 0 {
        assert(a + b =~= a);
        assert(disks_of(a) + disks_of(b) =~= disks_of(a));
    } else {
        law_each_line_tells_its_disk(a, line, b.drop_last());
        assert((a + b).drop_last() =~= a + b.drop_last());
        assert((a + b).last() == b.last());
        assert(disks_of(a + b) =~= disks_of(a) + disks_of(b));
    }
    let one = seq![line];
    assert(one.drop_last() =~= Seq::empty());
    assert(one.last() == line);
    reveal_with_fuel(disks_of, 2);
    assert(disk_of(line) is Some ==> disks_of(one) =~= seq![disk_of(line)->0]);
}

/// What is told of a disk is what it did, each counter under its name.
pub proof fn law_disk_reading_tells_its_counters(r: DiskReading)
    ensures
        ({
            let t = r.tree();
            let told = |key: Seq<char>, n: u64|
                t.field(key) == Some(JsonView::Number(NumberView::Int(n as int)));
            &&& told("reads"@, r.stats.reads)
            &&& told("read_ms"@, r.stats.read_ms)
            &&& told("writes"@, r.stats.writes)
            &&& told("write_ms"@, r.stats.write_ms)
            &&& told("io_in_progress"@, r.stats.io_in_progress)
            &&& told("io_ms"@, r.stats.io_ms)
            &&& t.field("avg_read_latency_ms"@) == Some(
                JsonView::Number(NumberView::Float(r.avg_read_latency_ms)),
            )
            &&& t.field("avg_write_latency_ms"@) == Some(
                JsonView::Number(NumberView::Float(r.avg_write_latency_ms)),
            )
        }),
{
    reveal_strlit("reads");
    reveal_strlit("read_ms");
    reveal_strlit("writes");
    reveal_strlit("write_ms");
    reveal_strlit("io_in_progress");
    reveal_strlit("io_ms");
    reveal_strlit("avg_read_latency_ms");
    reveal_strlit("avg_write_latency_ms");
    assert("reads"@.len() == 5);
    assert("io_ms"@.len() == 5);
    assert("reads"@[0] == 'r');
    assert("io_ms"@[0] == 'i');
    assert("read_ms"@.len() == 7);
    assert("writes"@.len() == 6);
    assert("write_ms"@.len() == 8);
    assert("io_in_progress"@.len() == 14);
    assert("avg_read_latency_ms"@.len() == 19);
    assert("avg_write_latency_ms"@.len() == 20);
}

/// Each disk is told under its name; of readings with one name the last.
pub proof fn law_disks_are_told_by_name(s: Seq<DiskReading>, at: int)
    requires
        0 <= at < s.len(),
        forall|j: int|
            at < j < s.len() ==> (#[trigger] s[j]).stats.name@ != s[at].stats.name@,
    ensures
        disks_by_name(s).contains_key(s[at].stats.name@),
        disks_by_name(s)[s[at].stats.name@] == s[at].tree(),
    decreases s.len(),
{
    if at < s.len() - 1 {
        let front = s.drop_last();
        assert(forall|j: int| at < j < front.len() ==> (#[trigger] front[j]) == s[j]);
        assert(s[s.len() - 1].stats.name@ != s[at].stats.name@);
        law_disks_are_told_by_name(front, at);
    }
}

/// What is told of memory is what the last line of its kind says: nothing where
/// there is no such line, and whether there is one is told too.
pub proof fn law_last_line_of_a_kind_counts(lines: Seq<Seq<char>>, line: Seq<char>)
    ensures
        ({
            let before = pressure_of(lines);
            let after = pressure_of(lines.push(line));
            let kills = text::has_prefix(line, "oom_kill "@);
            let faults = text::has_prefix(line, "pgmajfault "@);
            &&& kills ==> after.oom_kills_counted && after.oom_kills == text::number_or_zero(
                text::trimmed(line.skip(9)),
            )
            &&& !kills ==> after.oom_kills_counted == before.oom_kills_counted && after.oom_kills
                == before.oom_kills
            &&& faults && !kills ==> after.major_faults == text::number_or_zero(
                text::trimmed(line.skip(11)),
            )
            &&& !faults ==> after.major_faults == before.major_faults
        }),
        pressure_of(Seq::empty()).oom_kills == 0,
        pressure_of(Seq::empty()).major_faults == 0,
        !pressure_of(Seq::empty()).oom_kills_counted,
{
    assert(lines.push(line).drop_last() =~= lines);
    reveal_strlit("oom_kill ");
    reveal_strlit("pgmajfault ");
    assert("oom_kill "@.len() == 9);
    assert("pgmajfault "@.len() == 11);
}

/// A line describes a connection exactly where it has four words or more, and
/// then the fourth is the connection's state.
pub proof fn law_fourth_word_is_the_state(line: Seq<char>, state: Seq<char>)
    ensures
        state_of(line) == Some(state) <==> text::words(line).len() >= 4 && text::words(line)[3]
            == state,
{
}

/// The connections in a state are the lines that describe one in it, and all of
/// them are the lines that describe any.
pub proof fn law_connections_are_the_lines_that_describe_them(
    lines: Seq<Seq<char>>,
    state: Seq<char>,
)
    ensures
        connections_with(lines, state) == lines.filter(
            |l: Seq<char>| text::words(l).len() >= 4 && text::words(l)[3] == state,
        ).len(),
        connections_in(lines) == lines.filter(|l: Seq<char>| text::words(l).len() >= 4).len(),
    decreases lines.len(),
{
    reveal(Seq::filter);
    if lines.len() > 0 {
        law_connections_are_the_lines_that_describe_them(lines.drop_last(), state);
    }
}

/// Which state is which, and that the first line, which is the header, describes
/// none.
pub proof fn law_states_have_their_numbers(
    c: Connections,
    content: Seq<char>,
    body: Seq<Seq<char>>,
)
    requires
        body == body_lines(content),
        counts(c, body),
    ensures
        c.total == connections_in(body),
        c.established == connections_with(body, "01"@),
        c.listen == connections_with(body, "0A"@),
        c.time_wait == connections_with(body, "06"@),
        c.close_wait == connections_with(body, "08"@),
        text::lines(content).len() > 0 ==> body == text::lines(content).skip(1),
        text::lines(content).len() == 0 ==> body.len() == 0,
{
}

} // verus!
