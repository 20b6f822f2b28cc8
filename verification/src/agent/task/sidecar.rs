//! Sidecar tasks: what is sent, how an accepted task is polled, and the result
//! it ends in.
//!
//! [`SidecarRun`] decides; whoever drives it makes the calls and pauses that
//! [`SidecarRun::action`] asks for and reports back with
//! [`SidecarRun::on_event`].

use crate::agent::credential::{self, error_line, lazy_credentials_as_json};
use crate::agent::error::{joined, Error, ErrorModel};
use crate::agent::task::router::{self, make_result, Timing};
use crate::agent::task::shell::{self, timeout_message};
use crate::ids::Uuid;
use crate::json::{self, Json, JsonObject, JsonView};
use crate::protocol::credential::CredentialRef;
use crate::protocol::error::{ProtocolError, INVALID_REQUEST};
use crate::protocol::jsonrpc::{
    ErrorObject, ErrorObjectModel, Request, RequestId, RequestIdModel, RequestModel, Response,
    ResponseModel, JSONRPC_VERSION,
};
use crate::protocol::sidecar::{
    CancelParams, CancelParamsModel, StatusParams, StatusParamsModel, StatusResponse,
    StatusResponseModel, SubmitResponse, SubmitResponseModel,
};
use crate::protocol::task::{TaskResult, TaskResultModel, TaskResultStatus};
use crate::sdk::codec::CodecError;
use crate::sdk::server;
use crate::string_map::StringMap;
use crate::refusal::{self, Kind, Rule, RuleModel};
use crate::text;
use crate::wire::{self, Form, Wire};
use vstd::prelude::*;
use vstd::string::*;

verus! {

/// Milliseconds before the given poll: none before the first, then more and
/// more, up to a second.
pub open spec fn poll_delay(polls: nat) -> u64 {
    if polls == 0 {
        0
    } else if polls == 1 {
        100
    } else if polls == 2 {
        200
    } else if polls == 3 {
        500
    } else {
        1000
    }
}

/// Milliseconds to wait before the given poll.
pub fn poll_delay_ms(polls: u64) -> (r: u64)
    ensures
        r == poll_delay(polls as nat),
{
    match polls {
        0 => 0,
        1 => 100,
        2 => 200,
        3 => 500,
        _ => 1000,
    }
}

/// The wait between polls never shrinks and never passes one second, and the
/// first poll comes at once.
pub proof fn law_polling_backs_off_to_a_second(polls: nat)
    ensures
        poll_delay(0) == 0,
        poll_delay(polls) <= poll_delay(polls + 1) <= 1000,
{
}

/// The parameters of a sidecar call: the payload, and in an object the fetched
/// credentials and those left to the sidecar, where there are any.
pub open spec fn params_tree(
    payload: JsonView,
    creds: Map<Seq<char>, Seq<char>>,
    refs: Seq<CredentialRef>,
) -> JsonView {
    match payload {
        JsonView::Object(o) => {
            let o = if creds == Map::<Seq<char>, Seq<char>>::empty() {
                o
            } else {
                o.insert("_credentials"@, StringMap::tree(creds))
            };
            let lazy = credential::lazy_tree(refs);
            JsonView::Object(
                if lazy == JsonView::Null {
                    o
                } else {
                    o.insert("_lazy_credentials"@, lazy)
                },
            )
        },
        _ => payload,
    }
}

/// Puts the parameters of a sidecar call together.
pub fn build_params(payload: &Json, creds: &StringMap, refs: &[CredentialRef]) -> (r: Json)
    ensures
        r@ == params_tree(payload@, creds@, refs@),
{
    let mut params = payload.clone();
    if params.is_object() {
        if !creds.is_empty() {
            params.insert("_credentials", creds.to_json());
        }
        let lazy = lazy_credentials_as_json(refs);
        if !lazy.is_null() {
            params.insert("_lazy_credentials", lazy);
        }
    }
    params
}

/// The socket of a sidecar.
pub open spec fn socket_of(socket_dir: Seq<char>, sidecar: Seq<char>) -> Seq<char> {
    text::joined_path(socket_dir, sidecar + ".sock"@)
}

/// The socket of a sidecar.
pub fn socket_path(socket_dir: &str, sidecar: &str) -> (r: String)
    ensures
        r@ == socket_of(socket_dir@, sidecar@),
{
    text::join_path(socket_dir, joined(sidecar, ".sock").as_str())
}

/// The request of a call.
pub open spec fn call_request(method: Seq<char>, params: Option<JsonView>) -> RequestModel {
    RequestModel {
        jsonrpc: JSONRPC_VERSION@,
        method,
        params,
        id: RequestIdModel::Integer(1),
    }
}

/// The bytes of a call's request, which a sidecar reads as that request.
pub fn request_bytes(method: &str, params: Option<Json>) -> (r: Vec<u8>)
    ensures
        ({
            let m = call_request(method@, wire::optional_model(params));
            &&& r@ == json::compact_bytes(Request::tree(m))
            &&& wire::survives::<Request>(m) ==> server::request_of(r@) == Ok::<
                RequestModel,
                ResponseModel,
            >(m)
        }),
{
    let ghost m = call_request(method@, wire::optional_model(params));
    let request = Request::new(method, params, RequestId::Integer(1));
    let r = wire::encode_bytes(&request);
    proof {
        assert(request.model() == m);
        if wire::survives::<Request>(m) {
            assert(wire::decoded::<Request>(json::parsed_bytes(r@), "request"@) == Ok::<
                RequestModel,
                Seq<char>,
            >(m));
        }
    }
    r
}

/// What a frame holds as a response.
pub open spec fn response_of(parsed: Result<JsonView, Seq<char>>) -> Result<
    ResponseModel,
    ErrorModel,
> {
    match parsed {
        Ok(t) => match Response::read(t, "response"@, Form::Plain) {
            Ok(m) => Ok(m),
            Err(f) => Err(ErrorModel::Json(f.text())),
        },
        Err(e) => Err(ErrorModel::Json(e)),
    }
}

/// Reads a response from JSON.
pub fn decode_response(parsed: Result<Json, String>) -> (r: Result<Response, Error>)
    ensures
        match response_of(wire::parsed_view(parsed)) {
            Ok(m) => r is Ok && r->Ok_0.model() == m,
            Err(e) => r is Err && r->Err_0@ == e,
        },
{
    match parsed {
        Ok(t) => match Response::from_json(&t, "response", Form::Plain) {
            Ok(p) => Ok(p),
            Err(f) => Err(Error::Json(f.message())),
        },
        Err(e) => Err(Error::Json(e)),
    }
}

/// Reads the response that a frame holds.
pub fn read_response(frame: &[u8]) -> (r: Result<Response, Error>)
    ensures
        match response_of(json::parsed_bytes(frame@)) {
            Ok(m) => r is Ok && r->Ok_0.model() == m,
            Err(e) => r is Err && r->Err_0@ == e,
        },
{
    decode_response(json::parse_bytes(frame))
}

/// The error for a response frame over the limit: the message is too large.
pub fn oversized_response(e: &CodecError) -> (r: Error)
    ensures
        r@ == ErrorModel::Protocol(ProtocolError::plain(INVALID_REQUEST, e.text())),
{
    Error::Protocol(ProtocolError::invalid_request(e.message()))
}

/// What went wrong with a call to a sidecar before there was a response.
#[derive(Debug, Clone, Copy, PartialEq, Eq, Structural)]
pub enum CallFault {
    /// Nobody listens on the socket.
    Connect,
    /// The request could not be written.
    Send,
    /// The sidecar hung up.
    Closed,
    /// The response could not be read.
    Receive,
}

impl CallFault {
    /// The fault in words.
    pub open spec fn text(self, socket_path: Seq<char>, complaint: Seq<char>) -> Seq<char> {
        match self {
            CallFault::Connect => "failed to connect to sidecar at "@ + socket_path + ": "@
                + complaint,
            CallFault::Send => "failed to send to sidecar: "@ + complaint,
            CallFault::Closed => "sidecar closed connection without responding"@,
            CallFault::Receive => "failed to read sidecar response: "@ + complaint,
        }
    }

    /// The error for a fault.
    pub fn error(&self, socket_path: &str, complaint: &str) -> (r: Error)
        ensures
            r@ == ErrorModel::Transport(self.text(socket_path@, complaint@)),
    {
        match self {
            CallFault::Connect => {
                let mut s: String = joined("failed to connect to sidecar at ", socket_path);
                s.append(": ");
                s.append(complaint);
                Error::Transport(s)
            },
            CallFault::Send => Error::Transport(joined("failed to send to sidecar: ", complaint)),
            CallFault::Closed => Error::Transport(
                "sidecar closed connection without responding".to_owned(),
            ),
            CallFault::Receive => Error::Transport(
                joined("failed to read sidecar response: ", complaint),
            ),
        }
    }
}

/// Why a task is given up before its end.
#[derive(Debug, Clone, Copy, PartialEq, Eq, Structural)]
pub enum GiveUp {
    /// It took too long.
    Timeout,
    /// The control plane cancelled it.
    Cancelled,
}

/// Where a sidecar task stands.
#[derive(Debug, Clone, Copy, PartialEq, Eq, Structural)]
pub enum SidecarPhase {
    /// It is being submitted.
    Submitting,
    /// Waiting before a poll.
    Pausing { polls: u64 },
    /// Being polled.
    Polling { polls: u64 },
    /// Given up; the sidecar is being told.
    GivingUp { why: GiveUp },
    /// Over.
    Over,
}

/// What a sidecar task wants done.
#[derive(Debug)]
pub enum SidecarAction {
    /// Send the task's own call.
    Submit,
    /// Wait so many milliseconds, or until the task is cancelled.
    Pause(u64),
    /// Call `status` with these parameters.
    Poll(Json),
    /// Call `cancel` with these parameters; the answer does not matter.
    Cancel(Json),
    /// Nothing more.
    Finish,
}

/// What came of the latest action.
#[derive(Debug)]
pub enum SidecarEvent {
    /// The call was answered, or failed.
    Answered(Result<Response, Error>),
    /// The wait is over.
    Rested,
    /// The task was cancelled during the wait.
    Interrupted,
}

/// A sidecar task's own particulars.
#[verifier::ext_equal]
pub struct SidecarTask {
    pub task_id: Uuid,
    pub target: Seq<char>,
    pub timeout_ms: u64,
}

/// Where a sidecar task stands, in full: the phase, the sidecar's name for the
/// task, and the result at the end.
#[verifier::ext_equal]
pub struct SidecarState {
    pub phase: SidecarPhase,
    pub remote_id: Seq<char>,
    pub result: Option<TaskResultModel>,
}

/// The end of a sidecar task.
pub open spec fn over(
    t: SidecarTask,
    s: SidecarState,
    status: TaskResultStatus,
    stdout: Seq<char>,
    stderr: Seq<char>,
    timing: Timing,
    error: Option<Seq<char>>,
) -> SidecarState {
    SidecarState {
        phase: SidecarPhase::Over,
        result: Some(
            router::result_of(t.task_id, status, None, stdout, stderr, timing, error),
        ),
        ..s
    }
}

/// The end of a sidecar task whose sidecar answered with an error.
pub open spec fn refused(
    t: SidecarTask,
    s: SidecarState,
    e: ErrorObjectModel,
    timing: Timing,
) -> SidecarState {
    over(
        t,
        s,
        TaskResultStatus::Failed,
        Seq::empty(),
        credential::error_text(e),
        timing,
        Some(e.message),
    )
}

/// On to a poll, unless the time is up.
pub open spec fn poll_again(t: SidecarTask, s: SidecarState, polls: u64, timing: Timing) -> SidecarState {
    let phase = if timing.elapsed_ms >= t.timeout_ms {
        SidecarPhase::GivingUp { why: GiveUp::Timeout }
    } else if poll_delay(polls as nat) > 0 {
        SidecarPhase::Pausing { polls }
    } else {
        SidecarPhase::Polling { polls }
    };
    SidecarState { phase, ..s }
}

/// One poll more, as far as can be counted.
pub open spec fn one_more(polls: u64) -> u64 {
    if polls < u64::MAX {
        (polls + 1) as u64
    } else {
        polls
    }
}

/// The result of a response; a response without any has `null`.
pub open spec fn result_value(m: ResponseModel) -> JsonView {
    match m.result {
        Some(v) => v,
        None => JsonView::Null,
    }
}

/// What is wrong with the answer of a task that is done.
pub open spec fn completed_fault(answer: JsonView) -> Option<Seq<char>> {
    refusal::struct_fault(
        answer,
        "struct variant SubmitResponse::Completed"@,
        seq![
            RuleModel { key: "stdout"@, kind: Kind::Text, needed: false },
            RuleModel { key: "stderr"@, kind: Kind::Text, needed: false },
            RuleModel { key: "truncated"@, kind: Kind::Flag, needed: false },
        ],
        seq![1usize, 0usize, 2usize],
        Form::Buffered,
    )
}

/// Words what is wrong with the answer of a task that is done.
fn explain_completed(answer: &Json) -> (r: String)
    ensures
        r@ == refusal::words(completed_fault(answer@)),
{
    let rules = [
        Rule { key: "stdout", kind: Kind::Text, needed: false },
        Rule { key: "stderr", kind: Kind::Text, needed: false },
        Rule { key: "truncated", kind: Kind::Flag, needed: false },
    ];
    let order = [1usize, 0usize, 2usize];
    proof {
        assert(refusal::rules_view(rules@) =~= seq![
            RuleModel { key: "stdout"@, kind: Kind::Text, needed: false },
            RuleModel { key: "stderr"@, kind: Kind::Text, needed: false },
            RuleModel { key: "truncated"@, kind: Kind::Flag, needed: false },
        ]);
        assert(order@ =~= seq![1usize, 0usize, 2usize]);
    }
    refusal::explain(answer, "struct variant SubmitResponse::Completed", &rules, &order, Form::Buffered)
}

/// What is wrong with the answer of a task that failed.
pub open spec fn failed_fault(answer: JsonView) -> Option<Seq<char>> {
    refusal::struct_fault(
        answer,
        "struct variant SubmitResponse::Failed"@,
        seq![
            RuleModel { key: "error"@, kind: Kind::Text, needed: true },
            RuleModel { key: "stderr"@, kind: Kind::Text, needed: false },
        ],
        seq![0usize, 1usize],
        Form::Buffered,
    )
}

/// Words what is wrong with the answer of a task that failed.
fn explain_failed(answer: &Json) -> (r: String)
    ensures
        r@ == refusal::words(failed_fault(answer@)),
{
    let rules = [
        Rule { key: "error", kind: Kind::Text, needed: true },
        Rule { key: "stderr", kind: Kind::Text, needed: false },
    ];
    let order = [0usize, 1usize];
    proof {
        assert(refusal::rules_view(rules@) =~= seq![
            RuleModel { key: "error"@, kind: Kind::Text, needed: true },
            RuleModel { key: "stderr"@, kind: Kind::Text, needed: false },
        ]);
        assert(order@ =~= seq![0usize, 1usize]);
    }
    refusal::explain(answer, "struct variant SubmitResponse::Failed", &rules, &order, Form::Buffered)
}

/// What is wrong with the answer of a task that was taken on.
pub open spec fn accepted_fault(answer: JsonView) -> Option<Seq<char>> {
    refusal::struct_fault(
        answer,
        "struct variant SubmitResponse::Accepted"@,
        seq![
            RuleModel { key: "task_id"@, kind: Kind::Text, needed: true },
        ],
        seq![0usize],
        Form::Buffered,
    )
}

/// Words what is wrong with the answer of a task that was taken on.
fn explain_accepted(answer: &Json) -> (r: String)
    ensures
        r@ == refusal::words(accepted_fault(answer@)),
{
    let rules = [
        Rule { key: "task_id", kind: Kind::Text, needed: true },
    ];
    let order = [0usize];
    proof {
        assert(refusal::rules_view(rules@) =~= seq![
            RuleModel { key: "task_id"@, kind: Kind::Text, needed: true },
        ]);
        assert(order@ =~= seq![0usize]);
    }
    refusal::explain(answer, "struct variant SubmitResponse::Accepted", &rules, &order, Form::Buffered)
}

/// What is wrong with a value as the answer to a submission.
pub open spec fn submit_fault(t: JsonView) -> Option<Seq<char>> {
    let tag = match t {
        JsonView::Array(s) => if s.len() > 0 {
            Some(s[0])
        } else {
            None
        },
        _ => t.field("status"@),
    };
    if !(t is Object || t is Array) {
        Some(refusal::mismatch(t, "internally tagged enum SubmitResponse"@))
    } else {
        match tag {
            None => Some("missing field `status`"@),
            Some(JsonView::Text(s)) => if s == "completed"@ {
                completed_fault(wire::untagged(t))
            } else if s == "failed"@ {
                failed_fault(wire::untagged(t))
            } else if s == "accepted"@ {
                accepted_fault(wire::untagged(t))
            } else {
                Some(
                    "unknown variant `"@ + s
                        + "`, expected one of `completed`, `failed`, `accepted`"@,
                )
            },
            Some(v) => Some(refusal::mismatch(v, "variant identifier"@)),
        }
    }
}

/// An answer is refused exactly when something is wrong with it.
pub proof fn law_submit_refusal_has_words(t: JsonView)
    ensures
        SubmitResponse::read(t, "result"@, Form::Plain) is Err <==> submit_fault(t) is Some,
{
    reveal_with_fuel(refusal::spoiled_from, 5);
    reveal_with_fuel(refusal::lacking_from, 5);
    reveal_with_fuel(refusal::listed_from, 5);
    reveal_with_fuel(refusal::needed_from, 5);
    reveal_with_fuel(wire::named, 5);
    reveal_strlit("stdout");
    reveal_strlit("stderr");
    reveal_strlit("truncated");
    reveal_strlit("error");
    reveal_strlit("task_id");
    assert("stdout"@.len() == 6);
    assert("stderr"@.len() == 6);
    assert("truncated"@.len() == 9);
    assert("error"@.len() == 5);
    assert("task_id"@.len() == 7);
    assert("stdout"@[3] != "stderr"@[3]);
}

/// Words what is wrong with a value as the answer to a submission.
fn explain_submit(t: &Json) -> (r: String)
    ensures
        r@ == refusal::words(submit_fault(t@)),
{
    if !t.is_object() && !t.is_array() {
        return refusal::say_mismatch(t, "internally tagged enum SubmitResponse");
    }
    let tag: Option<&Json> = match t {
        Json::Array(v) => {
            proof {
                json::lemma_elements_view(v@);
            }
            if v.len() > 0 {
                Some(&v[0])
            } else {
                None
            }
        },
        _ => t.get("status"),
    };
    let rest = wire::untag(t);
    let body = match &rest {
        Some(o) => o,
        None => t,
    };
    match tag {
        None => "missing field `status`".to_owned(),
        Some(Json::Text(s)) => if text::same(s.as_str(), "completed") {
            explain_completed(body)
        } else if text::same(s.as_str(), "failed") {
            explain_failed(body)
        } else if text::same(s.as_str(), "accepted") {
            explain_accepted(body)
        } else {
            let mut out: String = joined("unknown variant `", s.as_str());
            out.append("`, expected one of `completed`, `failed`, `accepted`");
            out
        },
        Some(v) => refusal::say_mismatch(v, "variant identifier"),
    }
}

/// Where the answer to the submission takes a task.
pub open spec fn after_submit(
    t: SidecarTask,
    s: SidecarState,
    answer: Result<ResponseModel, ErrorModel>,
    timing: Timing,
) -> SidecarState {
    let none = Seq::<char>::empty();
    match answer {
        Err(e) => over(
            t,
            s,
            TaskResultStatus::Failed,
            none,
            e.text(),
            timing,
            Some("sidecar "@ + t.target + ": "@ + e.text()),
        ),
        Ok(m) => match m.error {
            Some(e) => refused(t, s, e, timing),
            None => match SubmitResponse::read(result_value(m), "result"@, Form::Plain) {
                Err(_) => {
                    let words = refusal::words(submit_fault(result_value(m)));
                    over(
                        t,
                        s,
                        TaskResultStatus::Failed,
                        json::compact_text(result_value(m)),
                        words,
                        timing,
                        Some("failed to parse sidecar response: "@ + words),
                    )
                },
                Ok(SubmitResponseModel::Completed { stdout, stderr, truncated }) => over(
                    t,
                    s,
                    TaskResultStatus::Success,
                    stdout,
                    stderr,
                    timing,
                    None,
                ),
                Ok(SubmitResponseModel::Failed { error, stderr }) => over(
                    t,
                    s,
                    TaskResultStatus::Failed,
                    none,
                    stderr,
                    timing,
                    Some(error),
                ),
                Ok(SubmitResponseModel::Accepted { task_id }) => poll_again(
                    t,
                    SidecarState { remote_id: task_id, ..s },
                    0,
                    timing,
                ),
            },
        },
    }
}

/// Where the answer to a poll takes a task. A poll that fails or cannot be
/// understood is followed by another.
pub open spec fn after_poll(
    t: SidecarTask,
    s: SidecarState,
    polls: u64,
    answer: Result<ResponseModel, ErrorModel>,
    timing: Timing,
) -> SidecarState {
    let none = Seq::<char>::empty();
    let again = poll_again(t, s, one_more(polls), timing);
    match answer {
        Err(_) => again,
        Ok(m) => match m.error {
            Some(e) => refused(t, s, e, timing),
            None => match StatusResponse::read(result_value(m), "result"@, Form::Plain) {
                Err(_) => again,
                Ok(StatusResponseModel::Running) => again,
                Ok(StatusResponseModel::Completed { stdout, stderr, truncated }) => over(
                    t,
                    s,
                    TaskResultStatus::Success,
                    stdout,
                    stderr,
                    timing,
                    None,
                ),
                Ok(StatusResponseModel::Failed { error, stderr }) => over(
                    t,
                    s,
                    TaskResultStatus::Failed,
                    none,
                    stderr,
                    timing,
                    Some(error),
                ),
                Ok(StatusResponseModel::Cancelled) => over(
                    t,
                    s,
                    TaskResultStatus::Cancelled,
                    none,
                    none,
                    timing,
                    None,
                ),
            },
        },
    }
}

/// The end of a task that was given up.
pub open spec fn given_up(t: SidecarTask, s: SidecarState, why: GiveUp, timing: Timing) -> SidecarState {
    let none = Seq::<char>::empty();
    match why {
        GiveUp::Timeout => over(
            t,
            s,
            TaskResultStatus::Timeout,
            none,
            none,
            timing,
            Some(shell::timeout_text(t.timeout_ms)),
        ),
        GiveUp::Cancelled => over(
            t,
            s,
            TaskResultStatus::Cancelled,
            none,
            none,
            timing,
            None,
        ),
    }
}

/// What an answer is.
pub open spec fn answer_model(a: Result<Response, Error>) -> Result<ResponseModel, ErrorModel> {
    match a {
        Ok(p) => Ok(p.model()),
        Err(e) => Err(e@),
    }
}

/// Where an event takes a task. An event that the task does not wait for changes
/// nothing.
pub open spec fn sidecar_next(
    t: SidecarTask,
    s: SidecarState,
    event: SidecarEvent,
    timing: Timing,
) -> SidecarState {
    match (s.phase, event) {
        (SidecarPhase::Submitting, SidecarEvent::Answered(a)) => after_submit(
            t,
            s,
            answer_model(a),
            timing,
        ),
        (SidecarPhase::Pausing { polls }, SidecarEvent::Rested) => SidecarState {
            phase: SidecarPhase::Polling { polls },
            ..s
        },
        (SidecarPhase::Pausing { polls }, SidecarEvent::Interrupted) => SidecarState {
            phase: SidecarPhase::GivingUp { why: GiveUp::Cancelled },
            ..s
        },
        (SidecarPhase::Polling { polls }, SidecarEvent::Answered(a)) => after_poll(
            t,
            s,
            polls,
            answer_model(a),
            timing,
        ),
        (SidecarPhase::GivingUp { why }, SidecarEvent::Answered(_)) => given_up(t, s, why, timing),
        _ => s,
    }
}

/// A sidecar task under way.
#[derive(Debug)]
pub struct SidecarRun {
    task_id: Uuid,
    target: String,
    timeout_ms: u64,
    phase: SidecarPhase,
    remote_id: String,
    result: Option<TaskResult>,
}

impl SidecarRun {
    /// The task's particulars.
    pub closed spec fn task(&self) -> SidecarTask {
        SidecarTask { task_id: self.task_id, target: self.target@, timeout_ms: self.timeout_ms }
    }

    /// Where it stands.
    pub closed spec fn state(&self) -> SidecarState {
        SidecarState {
            phase: self.phase,
            remote_id: self.remote_id@,
            result: match self.result {
                Some(r) => Some(r.model()),
                None => None,
            },
        }
    }

    /// A task that has not been submitted.
    pub fn new(task_id: Uuid, target: &str, timeout_ms: u64) -> (r: SidecarRun)
        ensures
            r.task() == (SidecarTask { task_id, target: target@, timeout_ms }),
            r.state() == (SidecarState {
                phase: SidecarPhase::Submitting,
                remote_id: Seq::empty(),
                result: None,
            }),
    {
        SidecarRun {
            task_id,
            target: target.to_owned(),
            timeout_ms,
            phase: SidecarPhase::Submitting,
            remote_id: String::new(),
            result: None,
        }
    }

    /// What the task wants done now.
    pub fn action(&self) -> (r: SidecarAction)
        ensures
            match self.state().phase {
                SidecarPhase::Submitting => r is Submit,
                SidecarPhase::Pausing { polls } => r matches SidecarAction::Pause(ms) && ms
                    == poll_delay(polls as nat),
                SidecarPhase::Polling { polls } => r matches SidecarAction::Poll(p) && p@
                    == StatusParams::tree(StatusParamsModel { task_id: self.state().remote_id }),
                SidecarPhase::GivingUp { why } => r matches SidecarAction::Cancel(p) && p@
                    == CancelParams::tree(CancelParamsModel { task_id: self.state().remote_id }),
                SidecarPhase::Over => r is Finish,
            },
    {
        match self.phase {
            SidecarPhase::Submitting => SidecarAction::Submit,
            SidecarPhase::Pausing { polls } => SidecarAction::Pause(poll_delay_ms(polls)),
            SidecarPhase::Polling { .. } => {
                let params = StatusParams { task_id: self.remote_id.clone() };
                SidecarAction::Poll(params.to_json())
            },
            SidecarPhase::GivingUp { .. } => {
                let params = CancelParams { task_id: self.remote_id.clone() };
                SidecarAction::Cancel(params.to_json())
            },
            SidecarPhase::Over => SidecarAction::Finish,
        }
    }

    /// The result, when the task is over.
    pub fn into_result(self) -> (r: Option<TaskResult>)
        ensures
            match r {
                Some(x) => self.state().result == Some(x.model()),
                None => self.state().result is None,
            },
    {
        self.result
    }

    /// Takes note of what came of the latest action.
    pub fn on_event(&mut self, event: SidecarEvent, timing: Timing)
        ensures
            final(self).task() == old(self).task(),
            final(self).state() == sidecar_next(old(self).task(), old(self).state(), event, timing),
    {
        match (self.phase, event) {
            (SidecarPhase::Submitting, SidecarEvent::Answered(a)) => {
                self.submitted(a, timing);
            },
            (SidecarPhase::Pausing { polls }, SidecarEvent::Rested) => {
                self.phase = SidecarPhase::Polling { polls };
            },
            (SidecarPhase::Pausing { .. }, SidecarEvent::Interrupted) => {
                self.phase = SidecarPhase::GivingUp { why: GiveUp::Cancelled };
            },
            (SidecarPhase::Polling { polls }, SidecarEvent::Answered(a)) => {
                self.polled(polls, a, timing);
            },
            (SidecarPhase::GivingUp { why }, SidecarEvent::Answered(_)) => {
                match why {
                    GiveUp::Timeout => {
                        let text = timeout_message(self.timeout_ms);
                        self.end(
                            TaskResultStatus::Timeout,
                            String::new(),
                            String::new(),
                            timing,
                            Some(text),
                        );
                    },
                    GiveUp::Cancelled => {
                        self.end(
                            TaskResultStatus::Cancelled,
                            String::new(),
                            String::new(),
                            timing,
                            None,
                        );
                    },
                }
            },
            _ => {},
        }
    }

    /// Takes the answer to the submission.
    fn submitted(&mut self, answer: Result<Response, Error>, timing: Timing)
        ensures
            final(self).task() == old(self).task(),
            final(self).state() == after_submit(
                old(self).task(),
                old(self).state(),
                answer_model(answer),
                timing,
            ),
    {
        let response = match answer {
            Ok(p) => p,
            Err(e) => {
                let words = e.to_text();
                let mut why: String = joined("sidecar ", self.target.as_str());
                why.append(": ");
                why.append(words.as_str());
                self.end(TaskResultStatus::Failed, String::new(), words, timing, Some(why));
                return ;
            },
        };
        if let Some(e) = response.error {
            self.end_refused(e, timing);
            return ;
        }
        let value = match response.result {
            Some(v) => v,
            None => Json::Null,
        };
        match SubmitResponse::from_json(&value, "result", Form::Plain) {
            Err(_) => {
                let words = explain_submit(&value);
                let why = joined("failed to parse sidecar response: ", words.as_str());
                self.end(TaskResultStatus::Failed, value.to_text(), words, timing, Some(why));
            },
            Ok(SubmitResponse::Completed { stdout, stderr, truncated }) => {
                self.end(TaskResultStatus::Success, stdout, stderr, timing, None);
            },
            Ok(SubmitResponse::Failed { error, stderr }) => {
                self.end(TaskResultStatus::Failed, String::new(), stderr, timing, Some(error));
            },
            Ok(SubmitResponse::Accepted { task_id }) => {
                self.remote_id = task_id;
                self.poll_again(0, timing);
            },
        }
    }

    /// Takes the answer to a poll.
    fn polled(&mut self, polls: u64, answer: Result<Response, Error>, timing: Timing)
        ensures
            final(self).task() == old(self).task(),
            final(self).state() == after_poll(
                old(self).task(),
                old(self).state(),
                polls,
                answer_model(answer),
                timing,
            ),
    {
        let next: u64 = if polls < u64::MAX {
            polls + 1
        } else {
            polls
        };
        let response = match answer {
            Ok(p) => p,
            Err(_) => {
                self.poll_again(next, timing);
                return ;
            },
        };
        if let Some(e) = response.error {
            self.end_refused(e, timing);
            return ;
        }
        let value = match response.result {
            Some(v) => v,
            None => Json::Null,
        };
        match StatusResponse::from_json(&value, "result", Form::Plain) {
            Err(_) => {
                self.poll_again(next, timing);
            },
            Ok(StatusResponse::Running) => {
                self.poll_again(next, timing);
            },
            Ok(StatusResponse::Completed { stdout, stderr, truncated }) => {
                self.end(TaskResultStatus::Success, stdout, stderr, timing, None);
            },
            Ok(StatusResponse::Failed { error, stderr }) => {
                self.end(TaskResultStatus::Failed, String::new(), stderr, timing, Some(error));
            },
            Ok(StatusResponse::Cancelled) => {
                self.end(
                    TaskResultStatus::Cancelled,
                    String::new(),
                    String::new(),
                    timing,
                    None,
                );
            },
        }
    }

    /// On to a poll, unless the time is up.
    fn poll_again(&mut self, polls: u64, timing: Timing)
        ensures
            final(self).task() == old(self).task(),
            final(self).state() == poll_again(old(self).task(), old(self).state(), polls, timing),
    {
        self.phase = if timing.elapsed_ms >= self.timeout_ms {
            SidecarPhase::GivingUp { why: GiveUp::Timeout }
        } else if poll_delay_ms(polls) > 0 {
            SidecarPhase::Pausing { polls }
        } else {
            SidecarPhase::Polling { polls }
        };
    }

    /// Ends the task.
    fn end(
        &mut self,
        status: TaskResultStatus,
        stdout: String,
        stderr: String,
        timing: Timing,
        error: Option<String>,
    )
        ensures
            final(self).task() == old(self).task(),
            final(self).state() == over(
                old(self).task(),
                old(self).state(),
                status,
                stdout@,
                stderr@,
                timing,
                crate::wire::optional_model(error),
            ),
    {
        self.phase = SidecarPhase::Over;
        self.result = Some(
            make_result(self.task_id, status, None, stdout, stderr, timing, error),
        );
    }

    /// Ends a task whose sidecar answered with an error.
    fn end_refused(&mut self, e: ErrorObject, timing: Timing)
        ensures
            final(self).task() == old(self).task(),
            final(self).state() == refused(
                old(self).task(),
                old(self).state(),
                e.model(),
                timing,
            ),
    {
        let line = error_line(e.code, e.message.as_str());
        self.end(TaskResultStatus::Failed, String::new(), line, timing, Some(e.message));
    }
}

/// A task that takes too long is not polled again: whenever the time is up, the
/// next thing is to tell the sidecar to cancel, and only then is the task
/// reported as timed out.
pub proof fn law_timeout_stops_polling_and_cancels(
    t: SidecarTask,
    s: SidecarState,
    event: SidecarEvent,
    timing: Timing,
)
    requires
        s.result is None,
    ensures
        ({
            let n = sidecar_next(t, s, event, timing);
            &&& (event is Answered && timing.elapsed_ms >= t.timeout_ms) ==> !(
            n.phase is Pausing || n.phase is Polling) || n == s
            &&& (n.result matches Some(r) && r.status == TaskResultStatus::Timeout) ==> s.phase
                == (SidecarPhase::GivingUp { why: GiveUp::Timeout })
        }),
{
}

/// What is over stays over, and there is a result exactly when it is over.
pub proof fn law_result_comes_at_the_end(
    t: SidecarTask,
    s: SidecarState,
    event: SidecarEvent,
    timing: Timing,
)
    requires
        s.result is Some <==> s.phase == SidecarPhase::Over,
    ensures
        ({
            let n = sidecar_next(t, s, event, timing);
            &&& n.result is Some <==> n.phase == SidecarPhase::Over
            &&& s.phase == SidecarPhase::Over ==> n == s
            &&& n.result matches Some(r) ==> (s.result is None ==> r.task_id == t.task_id)
        }),
{
}

/// Whether a result is that of a task, with nothing in it of a chain or a process.
pub open spec fn is_result(
    r: Option<TaskResultModel>,
    t: SidecarTask,
    status: TaskResultStatus,
    timing: Timing,
) -> bool {
    &&& r is Some
    &&& r->0.task_id == t.task_id
    &&& r->0.chain_id is None
    &&& r->0.step_index is None
    &&& r->0.exit_code is None
    &&& r->0.status == status
    &&& r->0.duration_ms == timing.elapsed_ms
    &&& r->0.timestamp == timing.timestamp
}

/// What the sidecar says of a task decides its result, the same in the answer to
/// the submission and in the answer to a poll: a task is reported as a success
/// exactly when it is said to be completed, with the output that was said; as
/// failed with the error and the error output that were said; as cancelled where
/// a poll says so.
pub proof fn law_sidecar_answer_decides_the_result(
    t: SidecarTask,
    s: SidecarState,
    answer: ResponseModel,
    event: SidecarEvent,
    timing: Timing,
)
    requires
        s.result is None,
        s.phase is Submitting || s.phase is Polling,
        event is Answered,
        answer_model(event->Answered_0) == Ok::<ResponseModel, ErrorModel>(answer),
        answer.error is None,
        answer.result is Some,
    ensures
        ({
            let n = sidecar_next(t, s, event, timing);
            let submitted = SubmitResponse::read(answer.result->0, "result"@, Form::Plain);
            let polled = StatusResponse::read(answer.result->0, "result"@, Form::Plain);
            let completed = if s.phase is Submitting {
                submitted is Ok && submitted->Ok_0 is Completed
            } else {
                polled is Ok && polled->Ok_0 is Completed
            };
            let failed = if s.phase is Submitting {
                submitted is Ok && submitted->Ok_0 is Failed
            } else {
                polled is Ok && polled->Ok_0 is Failed
            };
            let stdout = if s.phase is Submitting {
                submitted->Ok_0->Completed_stdout
            } else {
                polled->Ok_0->Completed_stdout
            };
            let stderr = if s.phase is Submitting {
                submitted->Ok_0->Completed_stderr
            } else {
                polled->Ok_0->Completed_stderr
            };
            let why = if s.phase is Submitting {
                submitted->Ok_0->Failed_error
            } else {
                polled->Ok_0->Failed_error
            };
            let trace = if s.phase is Submitting {
                submitted->Ok_0->Failed_stderr
            } else {
                polled->Ok_0->Failed_stderr
            };
            &&& (n.result is Some && n.result->0.status == TaskResultStatus::Success) <==> completed
            &&& completed ==> is_result(n.result, t, TaskResultStatus::Success, timing)
                && n.result->0.stdout == stdout && n.result->0.stderr == stderr
                && n.result->0.error is None
            &&& failed ==> is_result(n.result, t, TaskResultStatus::Failed, timing)
                && n.result->0.stdout.len() == 0 && n.result->0.stderr == trace
                && n.result->0.error == Some(why)
            &&& (n.result is Some && n.result->0.status == TaskResultStatus::Cancelled) <==> s.phase
                is Polling && polled is Ok && polled->Ok_0 is Cancelled
            &&& (n.result is Some && n.result->0.status == TaskResultStatus::Cancelled)
                ==> n.result->0.stdout.len() == 0 && n.result->0.stderr.len() == 0
                && n.result->0.error is None && is_result(
                n.result,
                t,
                TaskResultStatus::Cancelled,
                timing,
            )
            &&& (n.result is Some && n.result->0.status == TaskResultStatus::Failed) <==> failed || (
            s.phase is Submitting && submitted is Err)
            &&& (s.phase is Submitting && submitted is Err) ==> is_result(
                n.result,
                t,
                TaskResultStatus::Failed,
                timing,
            ) && n.result->0.stdout == json::compact_text(answer.result->0)
                && n.result->0.error is Some && text::has_suffix(
                n.result->0.error->0,
                n.result->0.stderr,
            )
        }),
{
    let n = sidecar_next(t, s, event, timing);
    if n.result is Some && n.result->0.error is Some {
        let words = n.result->0.stderr;
        let head = "failed to parse sidecar response: "@;
        assert((head + words).skip((head + words).len() - words.len()) =~= words);
    }
}

/// An answer that is an error ends the task in failure, with the error's message,
/// and its code and message as error output. A submission that could not be made
/// ends it in failure too; a poll that could not be made, or that cannot be
/// understood, ends nothing.
pub proof fn law_sidecar_errors(t: SidecarTask, s: SidecarState, event: SidecarEvent, timing: Timing)
    requires
        s.result is None,
        s.phase is Submitting || s.phase is Polling,
        event is Answered,
    ensures
        ({
            let n = sidecar_next(t, s, event, timing);
            match answer_model(event->Answered_0) {
                Ok(m) => match m.error {
                    Some(e) => {
                        &&& is_result(n.result, t, TaskResultStatus::Failed, timing)
                        &&& n.result->0.stdout.len() == 0
                        &&& n.result->0.stderr == "["@ + text::signed_decimal(e.code as int) + "] "@
                            + e.message
                        &&& n.result->0.error == Some(e.message)
                    },
                    None => s.phase is Polling && (m.result is None || StatusResponse::read(
                        m.result->0,
                        "result"@,
                        Form::Plain,
                    ) is Err) ==> n.result is None,
                },
                Err(e) => if s.phase is Polling {
                    n.result is None
                } else {
                    &&& is_result(n.result, t, TaskResultStatus::Failed, timing)
                    &&& n.result->0.stdout.len() == 0
                    &&& n.result->0.stderr == e.text()
                    &&& n.result->0.error == Some("sidecar "@ + t.target + ": "@ + e.text())
                },
            }
        }),
{
    reveal_strlit("[");
    assert("["@ =~= seq!['[']);
    if let Ok(m) = answer_model(event->Answered_0) {
        if m.error is None && m.result is None && s.phase is Polling {
            let none = StatusResponse::read(JsonView::Null, "result"@, Form::Plain);
            assert(none is Err);
        }
    }
}

/// How an accepted task is followed: under the name that the sidecar gave it, the
/// first poll at once, then after a tenth of a second, a fifth, a half, and a
/// second from then on, as long as the time is not up. When it is up, or when the
/// task is cancelled while it waits, the sidecar is told before the task is over;
/// whatever the sidecar answers to that, the result says which of the two it was.
pub proof fn law_accepted_task_is_followed(
    t: SidecarTask,
    s: SidecarState,
    event: SidecarEvent,
    timing: Timing,
)
    requires
        s.result is None,
        s.phase is Over ==> false,
    ensures
        ({
            let n = sidecar_next(t, s, event, timing);
            let up = timing.elapsed_ms >= t.timeout_ms;
            let answered = event is Answered && n.result is None && n != s;
            &&& (s.phase is Submitting && answered) ==> {
                let m = answer_model(event->Answered_0)->Ok_0;
                let said = SubmitResponse::read(m.result->0, "result"@, Form::Plain);
                &&& said is Ok
                &&& said->Ok_0 is Accepted
                &&& n.remote_id == said->Ok_0->task_id
                &&& up ==> n.phase == (SidecarPhase::GivingUp { why: GiveUp::Timeout })
                &&& !up ==> n.phase == (SidecarPhase::Polling { polls: 0 })
            }
            &&& !(s.phase is Submitting) ==> n.remote_id == s.remote_id
            &&& (s.phase is Polling && event is Answered && n.result is None) ==> {
                let polls = s.phase->Polling_polls;
                let next = if polls < u64::MAX {
                    (polls + 1) as u64
                } else {
                    polls
                };
                &&& up ==> n.phase == (SidecarPhase::GivingUp { why: GiveUp::Timeout })
                &&& !up ==> n.phase == (SidecarPhase::Pausing { polls: next })
            }
            &&& (s.phase is Pausing && event is Rested) ==> n.phase == (SidecarPhase::Polling {
                polls: s.phase->Pausing_polls,
            })
            &&& (s.phase is Pausing && event is Interrupted) ==> n.phase == (
            SidecarPhase::GivingUp { why: GiveUp::Cancelled })
            &&& (s.phase is GivingUp && event is Answered) ==> {
                let timeout = s.phase->why == GiveUp::Timeout;
                &&& is_result(
                    n.result,
                    t,
                    if timeout {
                        TaskResultStatus::Timeout
                    } else {
                        TaskResultStatus::Cancelled
                    },
                    timing,
                )
                &&& n.result->0.stdout.len() == 0
                &&& n.result->0.stderr.len() == 0
                &&& n.result->0.error == (if timeout {
                    Some("timeout after "@ + text::decimal(t.timeout_ms as nat) + "ms"@)
                } else {
                    None
                })
            }
            &&& n.phase is GivingUp && !(s.phase is GivingUp) ==> n.result is None
        }),
{
    if let (SidecarPhase::Submitting, SidecarEvent::Answered(a)) = (s.phase, event) {
        if let Ok(m) = answer_model(a) {
            if m.error is None && m.result is None {
                let none = SubmitResponse::read(JsonView::Null, "result"@, Form::Plain);
                assert(none is Err);
            }
        }
    }
}

/// The waits between polls, in milliseconds.
pub proof fn law_poll_waits(polls: nat)
    ensures
        poll_delay(0) == 0 && poll_delay(1) == 100 && poll_delay(2) == 200 && poll_delay(3) == 500,
        polls >= 4 ==> poll_delay(polls) == 1000,
{
}

/// What a sidecar is handed: the payload as it is, but for an object, which keeps
/// all of its members and gains the fetched credentials where there are any and
/// those that are left to the sidecar where there are any, and nothing else.
pub proof fn law_payload_reaches_the_sidecar(
    payload: JsonView,
    creds: Map<Seq<char>, Seq<char>>,
    refs: Seq<CredentialRef>,
    key: Seq<char>,
)
    ensures
        ({
            let params = params_tree(payload, creds, refs);
            let lazy = credential::lazy_tree(refs);
            &&& !(payload is Object) ==> params == payload
            &&& payload is Object ==> params is Object
            &&& (payload is Object && key != "_credentials"@ && key != "_lazy_credentials"@)
                ==> params.field(key) == payload.field(key)
            &&& payload is Object ==> params.field("_credentials"@) == (if creds.dom()
                == Set::<Seq<char>>::empty() {
                payload.field("_credentials"@)
            } else {
                Some(StringMap::tree(creds))
            })
            &&& payload is Object ==> params.field("_lazy_credentials"@) == (if lazy
                == JsonView::Null {
                payload.field("_lazy_credentials"@)
            } else {
                Some(lazy)
            })
        }),
{
    reveal_strlit("_credentials");
    reveal_strlit("_lazy_credentials");
    assert("_credentials"@.len() == 12);
    assert("_lazy_credentials"@.len() == 17);
    if creds.dom() == Set::<Seq<char>>::empty() {
        assert(creds =~= Map::<Seq<char>, Seq<char>>::empty());
    }
}

/// Why an answer to a submission is refused: it is no structure, it has no status,
/// its status is no name or none that there is, or what stands beside the status
/// is wrong for it.
pub proof fn law_refused_answers_are_told(t: JsonView, tag: JsonView)
    requires
        t is Object,
        t.field("status"@) == Some(tag),
    ensures
        !(tag is Text) ==> submit_fault(t) == Some(
            "invalid type: "@ + refusal::found(tag) + ", expected "@ + "variant identifier"@,
        ),
        tag == JsonView::Text("completed"@) ==> submit_fault(t) == completed_fault(t),
        tag == JsonView::Text("failed"@) ==> submit_fault(t) == failed_fault(t),
        tag == JsonView::Text("accepted"@) ==> submit_fault(t) == accepted_fault(t),
        tag matches JsonView::Text(s) ==> s != "completed"@ && s != "failed"@ && s != "accepted"@
            ==> submit_fault(t) == Some(
            "unknown variant `"@ + s + "`, expected one of `completed`, `failed`, `accepted`"@,
        ),
        t.field("task_id"@) is None ==> accepted_fault(t) == Some("missing field `task_id`"@),
{
    reveal_strlit("completed");
    reveal_strlit("failed");
    reveal_strlit("accepted");
    assert("completed"@.len() == 9);
    assert("failed"@.len() == 6);
    assert("accepted"@.len() == 8);
    reveal_with_fuel(refusal::spoiled_from, 3);
    reveal_with_fuel(refusal::lacking_from, 3);
    reveal_strlit("missing field `");
    reveal_strlit("task_id");
    reveal_strlit("`");
    reveal_strlit("missing field `task_id`");
    assert("missing field `"@ + "task_id"@ + "`"@ =~= "missing field `task_id`"@);
}

/// An answer that is neither an object nor a list, or that has no status, is
/// refused for that.
pub proof fn law_answers_without_a_status_are_told(t: JsonView)
    requires
        !(t is Array),
        t.field("status"@) is None,
    ensures
        t is Object ==> submit_fault(t) == Some("missing field `status`"@),
        !(t is Object) ==> submit_fault(t) == Some(
            "invalid type: "@ + refusal::found(t) + ", expected "@
                + "internally tagged enum SubmitResponse"@,
        ),
{
}

} // verus!
