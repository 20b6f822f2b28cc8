//! The agent's life: how it starts, what its main loop does next, how it reloads
//! its configuration, how it ends.

use crate::agent::config::{
    self, log_config_diff, warn_restart_required, Config, ConfigModel, RestartField, RuntimeConfig,
    RuntimeField, TransportMode,
};
use crate::agent::error::{joined, Error, ErrorModel};
use crate::agent::transport::work::ReceivedWork;
use crate::ids::Uuid;
use crate::json::{Json, JsonObject, JsonView};
use crate::protocol::task::{TaskResult, TaskResultModel};
use crate::wire::Wire;
use vstd::prelude::*;
use vstd::string::*;

verus! {

/// `uuid::Uuid::new_v4`: a random identifier of version 4 and the standard
/// variant. Nothing else is known of it.
#[verifier::external_body]
fn random_identifier() -> (r: u128)
    ensures
        (r >> 76) & 0xf == 4,
        (r >> 62) & 0x3 == 2,
{
    uuid::Uuid::new_v4().as_u128()
}

/// Who the agent is: the configured identifier, or a random one.
pub fn resolve_agent_id(configured: Option<Uuid>) -> (r: Uuid)
    ensures
        match configured {
            Some(id) => r == id,
            None => (r.bits >> 76) & 0xf == 4 && (r.bits >> 62) & 0x3 == 2,
        },
{
    match configured {
        Some(id) => id,
        None => Uuid { bits: random_identifier() },
    }
}

/// How the agent names itself to servers.
pub fn user_agent(version: &str) -> (r: String)
    ensures
        r@ == "vasal/"@ + version@,
{
    joined("vasal/", version)
}

/// The transport that a configuration asks for.
#[derive(Debug)]
pub enum ChosenTransport {
    Poll { endpoint: String, interval_sec: u64 },
    Grpc { endpoint: String },
}

/// Picks the transport that a configuration asks for; its section has to be
/// there.
pub fn choose_transport(cfg: &Config) -> (r: Result<ChosenTransport, Error>)
    ensures
        match cfg.model().transport.mode {
            TransportMode::Poll => match cfg.model().transport.poll {
                Some(p) => r matches Ok(ChosenTransport::Poll { endpoint, interval_sec })
                    && endpoint@ == p.endpoint && interval_sec == p.interval_sec,
                None => r matches Err(e) && e@ == ErrorModel::Config(config::no_poll_text()),
            },
            TransportMode::Grpc => match cfg.model().transport.grpc {
                Some(g) => r matches Ok(ChosenTransport::Grpc { endpoint }) && endpoint@
                    == g.endpoint,
                None => r matches Err(e) && e@ == ErrorModel::Config(config::no_grpc_text()),
            },
        },
{
    match cfg.transport.mode {
        TransportMode::Poll => match &cfg.transport.poll {
            Some(p) => Ok(
                ChosenTransport::Poll {
                    endpoint: p.endpoint.clone(),
                    interval_sec: p.interval_sec,
                },
            ),
            None => Err(
                Error::Config(
                    "transport.mode = \"poll\" but [transport.poll] section is missing".to_owned(),
                ),
            ),
        },
        TransportMode::Grpc => match &cfg.transport.grpc {
            Some(g) => Ok(ChosenTransport::Grpc { endpoint: g.endpoint.clone() }),
            None => Err(
                Error::Config(
                    "transport.mode = \"grpc\" but [transport.grpc] section is missing".to_owned(),
                ),
            ),
        },
    }
}

/// The name of a transport in the audit trail.
pub open spec fn mode_label(mode: TransportMode) -> Seq<char> {
    match mode {
        TransportMode::Poll => "Poll"@,
        TransportMode::Grpc => "Grpc"@,
    }
}

/// What the audit trail says of the start.
pub fn started_detail(agent_id: &Uuid, version: &str, mode: TransportMode) -> (r: Json)
    ensures
        r@ == JsonView::Object(
            Map::<Seq<char>, JsonView>::empty().insert(
                "agent_id"@,
                JsonView::Text(crate::ids::uuid_text(agent_id.bits)),
            ).insert("version"@, JsonView::Text(version@)).insert(
                "transport"@,
                JsonView::Text(mode_label(mode)),
            ),
        ),
{
    let mut o = JsonObject::new();
    o.set("agent_id", Json::Text(agent_id.to_text()));
    o.set("version", Json::text(version));
    o.set(
        "transport",
        Json::text(
            match mode {
                TransportMode::Poll => "Poll",
                TransportMode::Grpc => "Grpc",
            },
        ),
    );
    o.finish()
}

/// What the audit trail says of the end.
pub fn shutdown_detail(agent_id: &Uuid) -> (r: Json)
    ensures
        r@ == JsonView::Object(
            Map::<Seq<char>, JsonView>::empty().insert(
                "agent_id"@,
                JsonView::Text(crate::ids::uuid_text(agent_id.bits)),
            ),
        ),
{
    let mut o = JsonObject::new();
    o.set("agent_id", Json::Text(agent_id.to_text()));
    o.finish()
}

/// What a reload comes to.
#[derive(Debug)]
pub enum Reload {
    /// The new configuration is in force. The fields of the first list take a
    /// restart; those of the second have changed, and `runtime` holds them where
    /// there are any.
    Applied {
        restart: Vec<RestartField>,
        changes: Vec<RuntimeField>,
        runtime: Option<RuntimeConfig>,
    },
    /// The new configuration cannot be used: the old one stays.
    Kept(Error),
}

/// Decides what a reload comes to.
pub fn reload(current: &Config, loaded: &Result<Config, Error>) -> (r: Reload)
    ensures
        match loaded {
            Ok(new) => {
                let before = config::runtime_of(current.model());
                let after = config::runtime_of(new.model());
                r matches Reload::Applied { restart, changes, runtime } && restart@
                    == config::restart_changes(current.model(), new.model()) && changes@
                    == config::runtime_changes(before, after) && (runtime is Some <==> before
                    != after) && (runtime matches Some(rt) ==> rt@ == after)
            },
            Err(e) => r matches Reload::Kept(x) && x@ == e@,
        },
{
    match loaded {
        Ok(new) => {
            let before = current.runtime();
            let after = new.runtime();
            let restart = warn_restart_required(current, new);
            let changes = log_config_diff(&before, &after);
            proof {
                config::law_no_listed_change_means_no_change(before@, after@);
            }
            if changes.len() > 0 {
                Reload::Applied { restart, changes, runtime: Some(after) }
            } else {
                Reload::Applied { restart, changes, runtime: None }
            }
        },
        Err(e) => Reload::Kept(e.duplicate()),
    }
}

/// What the main loop is told.
#[derive(Debug)]
pub enum LoopEvent {
    /// The agent is to stop.
    Shutdown,
    /// A task ended with this result.
    Result(TaskResult),
    /// The transport handed this over.
    Work(Result<Vec<ReceivedWork>, Error>),
    /// No result is waiting.
    NoMoreResults,
}

/// What the main loop wants done.
#[derive(Debug)]
pub enum LoopAction {
    /// Wait for a shutdown, a result or work, in that order of preference.
    Wait,
    /// Send a result to the control plane, then go on. One that cannot be sent
    /// stays in the journal.
    Send(TaskResult),
    /// Submit work, in order, then go on.
    Submit(Vec<ReceivedWork>),
    /// Take the next result that is waiting, if any.
    TakeResult,
    /// Stop.
    Finish,
}

/// Where the main loop stands.
#[derive(Debug, Clone, Copy, PartialEq, Eq, Structural)]
pub enum LoopPhase {
    /// It takes work and sends results.
    Running,
    /// It only sends the results that are left.
    Draining,
    /// It is over.
    Over,
}

impl LoopPhase {
    /// Where an event takes the loop. There is no way back from a shutdown.
    pub open spec fn after(self, event: LoopEvent) -> LoopPhase {
        match (self, event) {
            (LoopPhase::Running, LoopEvent::Shutdown) => LoopPhase::Draining,
            (LoopPhase::Draining, LoopEvent::NoMoreResults) => LoopPhase::Over,
            _ => self,
        }
    }
}

/// The main loop. It counts the results that it sends after the shutdown.
#[derive(Debug, Clone, Copy, PartialEq, Eq, Structural)]
pub struct MainLoop {
    phase: LoopPhase,
    drained: u32,
}

impl MainLoop {
    /// Where it stands.
    pub closed spec fn at(&self) -> LoopPhase {
        self.phase
    }

    /// How many results were sent after the shutdown, modulo the counter's
    /// range.
    pub closed spec fn flushed(&self) -> u32 {
        self.drained
    }

    /// A loop that begins.
    pub fn new() -> (r: MainLoop)
        ensures
            r.at() is Running,
            r.flushed() == 0,
    {
        MainLoop { phase: LoopPhase::Running, drained: 0 }
    }

    /// How many results were sent after the shutdown.
    pub fn drained(&self) -> (r: u32)
        ensures
            r == self.flushed(),
    {
        self.drained
    }

    /// What goes on where nothing else is to be done.
    pub open spec fn idle(phase: LoopPhase) -> spec_fn(LoopAction) -> bool {
        |a: LoopAction|
            match phase {
                LoopPhase::Running => a is Wait,
                LoopPhase::Draining => a is TakeResult,
                LoopPhase::Over => a is Finish,
            }
    }

    /// What the loop does next where nothing else is to be done.
    pub fn resume(&self) -> (r: LoopAction)
        ensures
            MainLoop::idle(self.at())(r),
    {
        match self.phase {
            LoopPhase::Running => LoopAction::Wait,
            LoopPhase::Draining => LoopAction::TakeResult,
            LoopPhase::Over => LoopAction::Finish,
        }
    }

    /// Takes in an event. A result is sent, before and after a shutdown; work is
    /// submitted before it alone.
    pub fn on_event(&mut self, event: LoopEvent) -> (r: LoopAction)
        ensures
            final(self).at() == old(self).at().after(event),
            match event {
                LoopEvent::Result(x) => if old(self).at() is Over {
                    r is Finish && final(self).flushed() == old(self).flushed()
                } else {
                    r == LoopAction::Send(x) && final(self).flushed() == (if old(
                        self,
                    ).at() is Draining {
                        old(self).flushed().wrapping_add(1)
                    } else {
                        old(self).flushed()
                    })
                },
                LoopEvent::Work(Ok(items)) => if old(self).at() is Running && items@.len() > 0 {
                    r == LoopAction::Submit(items) && final(self).flushed() == old(self).flushed()
                } else {
                    MainLoop::idle(final(self).at())(r) && final(self).flushed() == old(
                        self,
                    ).flushed()
                },
                _ => MainLoop::idle(final(self).at())(r) && final(self).flushed() == old(
                    self,
                ).flushed(),
            },
    {
        match event {
            LoopEvent::Shutdown => {
                if self.phase == LoopPhase::Running {
                    self.phase = LoopPhase::Draining;
                }
            },
            LoopEvent::NoMoreResults => {
                if self.phase == LoopPhase::Draining {
                    self.phase = LoopPhase::Over;
                }
            },
            LoopEvent::Result(x) => {
                if self.phase != LoopPhase::Over {
                    if self.phase == LoopPhase::Draining {
                        self.drained = self.drained.wrapping_add(1);
                    }
                    return LoopAction::Send(x);
                }
            },
            LoopEvent::Work(Ok(items)) => {
                if self.phase == LoopPhase::Running && items.len() > 0 {
                    return LoopAction::Submit(items);
                }
            },
            LoopEvent::Work(Err(_)) => {},
        }
        self.resume()
    }
}

/// Where a sequence of events takes the loop.
pub open spec fn phase_after(events: Seq<LoopEvent>) -> LoopPhase
    decreases events.len(),
{
    if events.len() == 0 {
        LoopPhase::Running
    } else {
        phase_after(events.drop_last()).after(events.last())
    }
}

/// Once a shutdown was asked for, the loop never takes work again, whatever
/// comes.
pub proof fn law_no_work_after_shutdown(events: Seq<LoopEvent>, at: int)
    requires
        0 <= at < events.len(),
        events[at] is Shutdown,
    ensures
        !(phase_after(events) is Running),
    decreases events.len(),
{
    if at < events.len() - 1 {
        law_no_work_after_shutdown(events.drop_last(), at);
    }
}

/// The loop ends only after a shutdown, with no result waiting.
pub proof fn law_loop_ends_drained(events: Seq<LoopEvent>)
    requires
        phase_after(events) is Over,
    ensures
        exists|i: int, j: int|
            0 <= i < j < events.len() && (#[trigger] events[i]) is Shutdown && (
            #[trigger] events[j]) is NoMoreResults,
    decreases events.len(),
{
    let front = events.drop_last();
    if phase_after(front) is Over {
        law_loop_ends_drained(front);
        let (i, j) = choose|i: int, j: int|
            0 <= i < j < front.len() && (#[trigger] front[i]) is Shutdown && (
            #[trigger] front[j]) is NoMoreResults;
        assert(events[i] is Shutdown && events[j] is NoMoreResults);
    } else {
        lemma_draining_follows_shutdown(front);
        let i = choose|i: int| 0 <= i < front.len() && (#[trigger] front[i]) is Shutdown;
        assert(events[i] is Shutdown);
        assert(events[events.len() - 1] is NoMoreResults);
    }
}

/// The loop drains only after a shutdown.
proof fn lemma_draining_follows_shutdown(events: Seq<LoopEvent>)
    requires
        phase_after(events) is Draining,
    ensures
        exists|i: int| 0 <= i < events.len() && (#[trigger] events[i]) is Shutdown,
    decreases events.len(),
{
    let front = events.drop_last();
    if phase_after(front) is Draining {
        lemma_draining_follows_shutdown(front);
        let i = choose|i: int| 0 <= i < front.len() && (#[trigger] front[i]) is Shutdown;
        assert(events[i] is Shutdown);
    } else {
        assert(events[events.len() - 1] is Shutdown);
    }
}

/// The loop step by step: a shutdown, and nothing else, makes it drain; it is
/// over once no more results are left to drain; nothing else moves it. While it
/// runs it waits, while it drains it takes results, and then it is done.
pub proof fn law_loop_goes_its_way(phase: LoopPhase, event: LoopEvent, action: LoopAction)
    ensures
        ({
            let n = phase.after(event);
            &&& n is Running <==> phase is Running && !(event is Shutdown)
            &&& n is Draining <==> (phase is Running && event is Shutdown) || (phase is Draining
                && !(event is NoMoreResults))
            &&& n is Over <==> phase is Over || (phase is Draining && event is NoMoreResults)
            &&& MainLoop::idle(phase)(action) <==> (phase is Running && action is Wait) || (phase
                is Draining && action is TakeResult) || (phase is Over && action is Finish)
        }),
{
}

/// Every way of transport has its own name in the audit trail.
pub proof fn law_transports_have_their_names(mode: TransportMode)
    ensures
        mode_label(mode) == "Poll"@ <==> mode is Poll,
        mode_label(mode) == "Grpc"@ <==> mode is Grpc,
{
    reveal_strlit("Poll");
    reveal_strlit("Grpc");
    assert("Poll"@[0] == 'P');
    assert("Grpc"@[0] == 'G');
}

} // verus!
