//! Work over a gRPC stream: what the messages hold, and how the stream is opened
//! again after it broke.

use crate::agent::audit;
use crate::agent::error::{joined, Error, ErrorModel};
use crate::agent::transport::work::{self, ReceivedWork, WorkModel};
use crate::json::{self, Json, JsonView};
use crate::protocol::task::{Task, TaskChain};
use crate::wire;
use vstd::prelude::*;
use vstd::string::*;

verus! {

/// Seconds before the second attempt to connect.
pub const INITIAL_BACKOFF_SEC: u64 = 1;

/// Seconds between two attempts at most.
pub const MAX_BACKOFF_SEC: u64 = 30;

/// What a message from the control plane carries.
#[derive(Debug)]
pub enum ControlPayload {
    /// A task, as JSON.
    Task(Vec<u8>),
    /// A chain of tasks, as JSON.
    TaskChain(Vec<u8>),
    /// The answer to the agent's hello.
    Ack { accepted: bool, message: String },
    /// Nothing.
    Empty,
}

/// The task that parsed bytes stand for.
pub open spec fn task_work(parsed: Result<JsonView, Seq<char>>) -> Option<WorkModel> {
    match wire::decoded::<Task>(parsed, "task"@) {
        Ok(m) => Some(WorkModel::Single(m)),
        Err(_) => None,
    }
}

/// The chain that parsed bytes stand for.
pub open spec fn chain_work(parsed: Result<JsonView, Seq<char>>) -> Option<WorkModel> {
    match wire::decoded::<TaskChain>(parsed, "task chain"@) {
        Ok(m) => Some(WorkModel::Chain(m)),
        Err(_) => None,
    }
}

/// The work that a message carries, if any.
pub open spec fn payload_work(p: ControlPayload) -> Option<WorkModel> {
    match p {
        ControlPayload::Task(bytes) => task_work(json::parsed_bytes(bytes@)),
        ControlPayload::TaskChain(bytes) => chain_work(json::parsed_bytes(bytes@)),
        _ => None,
    }
}

/// Takes a task from what a parser handed over.
pub fn read_task(parsed: Result<Json, String>) -> (r: Option<ReceivedWork>)
    ensures
        match task_work(wire::parsed_view(parsed)) {
            Some(w) => r is Some && r->0@ == w,
            None => r is None,
        },
{
    match wire::decode_parsed::<Task>(parsed, "task") {
        Ok(t) => Some(ReceivedWork::Single(t)),
        Err(_) => None,
    }
}

/// Takes a chain from what a parser handed over.
pub fn read_chain(parsed: Result<Json, String>) -> (r: Option<ReceivedWork>)
    ensures
        match chain_work(wire::parsed_view(parsed)) {
            Some(w) => r is Some && r->0@ == w,
            None => r is None,
        },
{
    match wire::decode_parsed::<TaskChain>(parsed, "task chain") {
        Ok(c) => Some(ReceivedWork::Chain(c)),
        Err(_) => None,
    }
}

/// Takes the work out of a message.
pub fn decode_work(p: &ControlPayload) -> (r: Option<ReceivedWork>)
    ensures
        match payload_work(*p) {
            Some(w) => r is Some && r->0@ == w,
            None => r is None,
        },
{
    match p {
        ControlPayload::Task(bytes) => read_task(json::parse_bytes(bytes.as_slice())),
        ControlPayload::TaskChain(bytes) => read_chain(json::parse_bytes(bytes.as_slice())),
        ControlPayload::Ack { accepted: _, message: _ } => None,
        ControlPayload::Empty => None,
    }
}

/// What is to be done for more work.
#[derive(Debug, Clone, Copy, PartialEq, Eq, Structural)]
pub enum LinkAction {
    /// Open the stream.
    Connect,
    /// Read the next message.
    Read,
}

/// What came of it.
#[derive(Debug)]
pub enum LinkEvent {
    /// The stream is open.
    Connected,
    /// The stream could not be opened.
    ConnectFailed,
    /// A message came.
    Message(ControlPayload),
    /// The control plane closed the stream.
    Ended,
    /// The stream broke.
    Broken { complaint: String },
}

/// What a turn comes to.
#[derive(Debug)]
pub enum LinkOutcome {
    /// There is more to do.
    Again,
    /// The work that was received; where there are seconds to wait, they come
    /// first.
    Received { work: Vec<ReceivedWork>, wait_sec: Option<u64> },
    /// The stream broke.
    Failed(Error),
}

/// Whether the stream is open, and how long to wait after a failed attempt to
/// open it.
#[derive(Debug, Clone, Copy, PartialEq, Eq, Structural)]
pub struct GrpcLink {
    connected: bool,
    backoff_sec: u64,
}

/// What a value of [`GrpcLink`] is.
pub struct LinkModel {
    pub connected: bool,
    pub backoff_sec: u64,
}

impl View for GrpcLink {
    type V = LinkModel;

    closed spec fn view(&self) -> LinkModel {
        LinkModel { connected: self.connected, backoff_sec: self.backoff_sec }
    }
}

impl LinkModel {
    /// The wait is within its bounds.
    pub open spec fn wf(self) -> bool {
        INITIAL_BACKOFF_SEC <= self.backoff_sec <= MAX_BACKOFF_SEC
    }

    /// The stream before anything was tried.
    pub open spec fn fresh() -> LinkModel {
        LinkModel { connected: false, backoff_sec: INITIAL_BACKOFF_SEC }
    }

    /// What an event makes of the stream. Opening it starts the waits over; each
    /// failure to open it doubles the next wait, up to the limit; a stream that
    /// ended or broke has to be opened again.
    pub open spec fn after(self, event: LinkEvent) -> LinkModel {
        match event {
            LinkEvent::Connected => LinkModel {
                connected: true,
                backoff_sec: INITIAL_BACKOFF_SEC,
            },
            LinkEvent::ConnectFailed => LinkModel {
                backoff_sec: audit::doubled(self.backoff_sec, MAX_BACKOFF_SEC),
                ..self
            },
            LinkEvent::Message(_) => self,
            LinkEvent::Ended => LinkModel { connected: false, ..self },
            LinkEvent::Broken { complaint: _ } => LinkModel { connected: false, ..self },
        }
    }
}

impl GrpcLink {
    /// A stream that has not been opened.
    pub fn new() -> (r: GrpcLink)
        ensures
            r@ == LinkModel::fresh(),
            r@.wf(),
    {
        GrpcLink { connected: false, backoff_sec: INITIAL_BACKOFF_SEC }
    }

    /// What is to be done for more work.
    pub fn action(&self) -> (r: LinkAction)
        ensures
            r == (if self@.connected {
                LinkAction::Read
            } else {
                LinkAction::Connect
            }),
    {
        if self.connected {
            LinkAction::Read
        } else {
            LinkAction::Connect
        }
    }

    /// Takes in what came of it.
    pub fn on_event(&mut self, event: LinkEvent) -> (r: LinkOutcome)
        requires
            old(self)@.wf(),
        ensures
            final(self)@ == old(self)@.after(event),
            final(self)@.wf(),
            match event {
                LinkEvent::Connected => r is Again,
                LinkEvent::ConnectFailed => r matches LinkOutcome::Received { work, wait_sec }
                    && work@.len() == 0 && wait_sec == Some(old(self)@.backoff_sec),
                LinkEvent::Message(p) => r matches LinkOutcome::Received { work, wait_sec }
                    && wait_sec is None && work::works_view(work@) == match payload_work(p) {
                    Some(w) => seq![w],
                    None => Seq::empty(),
                },
                LinkEvent::Ended => r matches LinkOutcome::Received { work, wait_sec }
                    && work@.len() == 0 && wait_sec is None,
                LinkEvent::Broken { complaint } => r matches LinkOutcome::Failed(e) && e@
                    == ErrorModel::Transport("gRPC stream error: "@ + complaint@),
            },
    {
        match event {
            LinkEvent::Connected => {
                self.connected = true;
                self.backoff_sec = INITIAL_BACKOFF_SEC;
                LinkOutcome::Again
            },
            LinkEvent::ConnectFailed => {
                let wait: u64 = self.backoff_sec;
                let twice: u64 = wait * 2;
                self.backoff_sec = if twice <= MAX_BACKOFF_SEC {
                    twice
                } else {
                    MAX_BACKOFF_SEC
                };
                LinkOutcome::Received { work: Vec::new(), wait_sec: Some(wait) }
            },
            LinkEvent::Message(p) => {
                let mut work: Vec<ReceivedWork> = Vec::new();
                let ghost wanted = payload_work(p);
                match decode_work(&p) {
                    Some(w) => {
                        work.push(w);
                        proof {
                            assert(work::works_view(work@) =~= seq![wanted->0]);
                        }
                    },
                    None => {
                        proof {
                            assert(work::works_view(work@) =~= Seq::empty());
                        }
                    },
                }
                LinkOutcome::Received { work, wait_sec: None }
            },
            LinkEvent::Ended => {
                self.connected = false;
                LinkOutcome::Received { work: Vec::new(), wait_sec: None }
            },
            LinkEvent::Broken { complaint } => {
                self.connected = false;
                LinkOutcome::Failed(
                    Error::Transport(joined("gRPC stream error: ", complaint.as_str())),
                )
            },
        }
    }

    /// Whether a result can be sent now.
    pub fn check_send(&self) -> (r: Result<(), Error>)
        ensures
            r is Ok <==> self@.connected,
            r matches Err(e) ==> e@ == ErrorModel::Transport("gRPC not connected"@),
    {
        if self.connected {
            Ok(())
        } else {
            Err(Error::Transport("gRPC not connected".to_owned()))
        }
    }
}

/// What went wrong with the stream.
#[derive(Debug, Clone, Copy, PartialEq, Eq, Structural)]
pub enum LinkFault {
    Connect,
    Hello,
    Open,
    Send,
}

impl LinkFault {
    /// The fault in words.
    pub open spec fn label(self) -> Seq<char> {
        match self {
            LinkFault::Connect => "gRPC connect failed: "@,
            LinkFault::Hello => "failed to enqueue hello: "@,
            LinkFault::Open => "gRPC stream open failed: "@,
            LinkFault::Send => "failed to send result via gRPC: "@,
        }
    }

    /// The error for a fault.
    pub fn error(&self, complaint: &str) -> (r: Error)
        ensures
            r@ == ErrorModel::Transport(self.label() + complaint@),
    {
        let label = match self {
            LinkFault::Connect => "gRPC connect failed: ",
            LinkFault::Hello => "failed to enqueue hello: ",
            LinkFault::Open => "gRPC stream open failed: ",
            LinkFault::Send => "failed to send result via gRPC: ",
        };
        Error::Transport(joined(label, complaint))
    }
}

/// The stream after so many failed attempts in a row.
pub open spec fn after_failures(failures: nat) -> LinkModel
    decreases failures,
{
    if failures == 0 {
        LinkModel::fresh()
    } else {
        after_failures((failures - 1) as nat).after(LinkEvent::ConnectFailed)
    }
}

/// The waits double from one second to the limit of thirty and stay there.
pub proof fn law_waits_double_to_the_limit(failures: nat)
    ensures
        after_failures(failures).backoff_sec == audit::wait_after(
            failures,
            INITIAL_BACKOFF_SEC,
            MAX_BACKOFF_SEC,
        ),
        after_failures(failures).wf(),
        failures >= 5 ==> after_failures(failures).backoff_sec == MAX_BACKOFF_SEC,
    decreases failures,
{
    if failures > 0 {
        law_waits_double_to_the_limit((failures - 1) as nat);
        if failures <= 5 {
            reveal_with_fuel(after_failures, 6);
        }
    }
}

/// An open stream forgets the failures before it, and stays open until it ends
/// or breaks.
pub proof fn law_connecting_starts_over(link: LinkModel, p: ControlPayload)
    ensures
        link.after(LinkEvent::Connected).backoff_sec == INITIAL_BACKOFF_SEC,
        link.after(LinkEvent::Connected).after(LinkEvent::Message(p)).connected,
        !link.after(LinkEvent::Ended).connected,
{
}

/// The stream step by step: it is open exactly from where it was opened until it
/// ends or breaks; opening it sets the wait to one second; each failure to open
/// it doubles the wait up to thirty seconds; nothing else changes the wait.
pub proof fn law_stream_goes_its_way(link: LinkModel, event: LinkEvent)
    requires
        link.wf(),
    ensures
        ({
            let n = link.after(event);
            &&& n.connected <==> event is Connected || (link.connected && !(event is Ended)
                && !(event is Broken))
            &&& event is Connected ==> n.backoff_sec == 1
            &&& event is ConnectFailed ==> n.backoff_sec == (if link.backoff_sec <= 15 {
                2 * link.backoff_sec
            } else {
                30
            })
            &&& !(event is Connected) && !(event is ConnectFailed) ==> n.backoff_sec
                == link.backoff_sec
        }),
{
}

/// A stream that was never opened is closed, and its first wait is one second.
pub proof fn law_fresh_stream_is_closed()
    ensures
        !LinkModel::fresh().connected,
        LinkModel::fresh().backoff_sec == 1,
{
}

/// A message carries work exactly where its bytes can be read as what it says that
/// they are, and then it is that work.
pub proof fn law_message_carries_what_it_says(p: ControlPayload)
    ensures
        ({
            let task = if p is Task {
                wire::decoded::<Task>(json::parsed_bytes(p->Task_0@), "task"@)
            } else {
                Err(Seq::empty())
            };
            let chain = if p is TaskChain {
                wire::decoded::<TaskChain>(json::parsed_bytes(p->TaskChain_0@), "task chain"@)
            } else {
                Err(Seq::empty())
            };
            &&& payload_work(p) is Some <==> task is Ok || chain is Ok
            &&& task matches Ok(m) ==> payload_work(p) == Some(WorkModel::Single(m))
            &&& chain matches Ok(m) ==> payload_work(p) == Some(WorkModel::Chain(m))
        }),
{
}

/// What went wrong with the stream is told by what was done.
pub proof fn law_stream_faults_are_told(fault: LinkFault)
    ensures
        match fault {
            LinkFault::Connect => fault.label() == "gRPC connect failed: "@,
            LinkFault::Hello => fault.label() == "failed to enqueue hello: "@,
            LinkFault::Open => fault.label() == "gRPC stream open failed: "@,
            LinkFault::Send => fault.label() == "failed to send result via gRPC: "@,
        },
{
}

} // verus!
