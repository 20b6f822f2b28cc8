//! From a request frame to the response: reading the request, checking it,
//! calling the handler and wording the answer.

use crate::json::{self, Json, JsonView};
use crate::protocol::error::{
    ProtocolError, ProtocolErrorModel, INVALID_PARAMS, INVALID_REQUEST, METHOD_NOT_FOUND,
    PARSE_ERROR,
};
use crate::protocol::jsonrpc::{
    ErrorObjectModel, Request, RequestId, RequestIdModel, RequestModel, Response, ResponseModel,
    JSONRPC_VERSION,
};
use crate::protocol::sidecar::{HealthResponse, StatusParams};
use crate::refusal::{self, Kind, Rule, RuleModel};
use crate::sdk::codec::CodecError;
use crate::sdk::handler::SidecarHandler;
use crate::text;
use crate::wire::{self, Form, Wire};
use std::sync::Arc;
use vstd::prelude::*;
use vstd::string::*;

verus! {

/// The response that reports an error.
pub open spec fn error_response(id: RequestIdModel, e: ProtocolErrorModel) -> ResponseModel {
    ResponseModel {
        jsonrpc: JSONRPC_VERSION@,
        result: None,
        error: Some(ErrorObjectModel { code: e.code, message: e.message, data: e.data }),
        id,
    }
}

/// The response that carries a result.
pub open spec fn success_response(id: RequestIdModel, result: JsonView) -> ResponseModel {
    ResponseModel { jsonrpc: JSONRPC_VERSION@, result: Some(result), error: None, id }
}

/// What a request asks of the handler.
#[verifier::ext_equal]
pub enum CallModel {
    Health,
    Submit(JsonView),
    Status(Seq<char>),
    Cancel(Seq<char>),
    /// Nothing: the request is answered with this error.
    Refused(ProtocolErrorModel),
}

/// What a request asks of the handler.
#[derive(Debug)]
pub enum Call {
    Health,
    Submit(Json),
    Status(String),
    Cancel(String),
    /// Nothing: the request is answered with this error.
    Refused(ProtocolError),
}

impl View for Call {
    type V = CallModel;

    open spec fn view(&self) -> CallModel {
        match self {
            Call::Health => CallModel::Health,
            Call::Submit(p) => CallModel::Submit(p@),
            Call::Status(s) => CallModel::Status(s@),
            Call::Cancel(s) => CallModel::Cancel(s@),
            Call::Refused(e) => CallModel::Refused(e.model()),
        }
    }
}

/// The parameters of a request; a request without any has `null`.
pub open spec fn params_of(params: Option<JsonView>) -> JsonView {
    match params {
        Some(p) => p,
        None => JsonView::Null,
    }
}

/// What is wrong with parameters that name a task.
pub open spec fn task_id_fault(params: JsonView) -> Option<Seq<char>> {
    refusal::struct_fault(
        params,
        "struct TaskIdParam"@,
        seq![
            RuleModel { key: "task_id"@, kind: Kind::Text, needed: true },
        ],
        seq![0usize],
        Form::Plain,
    )
}

/// Words what is wrong with parameters that name a task.
fn explain_task_id(params: &Json) -> (r: String)
    ensures
        r@ == refusal::words(task_id_fault(params@)),
{
    let rules = [
        Rule { key: "task_id", kind: Kind::Text, needed: true },
    ];
    let order = [0usize];
    proof {
        assert(refusal::rules_view(rules@) =~= seq![
            RuleModel { key: "task_id"@, kind: Kind::Text, needed: true },
        ]);
        assert(order@ =~= seq![0usize]);
    }
    refusal::explain(params, "struct TaskIdParam", &rules, &order, Form::Plain)
}

/// The task that `status` and `cancel` are about, or the complaint that the
/// parameters name none.
pub open spec fn task_id_of(params: JsonView) -> Result<Seq<char>, ProtocolErrorModel> {
    match StatusParams::read(params, "params"@, Form::Plain) {
        Ok(p) => Ok(p.task_id),
        Err(_) => Err(ProtocolError::plain(INVALID_PARAMS, refusal::words(task_id_fault(params)))),
    }
}

/// What a request asks of the handler, by its method and parameters.
pub open spec fn call_of(method: Seq<char>, params: Option<JsonView>) -> CallModel {
    let params = params_of(params);
    if method == "health"@ {
        CallModel::Health
    } else if method == "submit"@ {
        CallModel::Submit(params)
    } else if method == "status"@ {
        match task_id_of(params) {
            Ok(id) => CallModel::Status(id),
            Err(e) => CallModel::Refused(e),
        }
    } else if method == "cancel"@ {
        match task_id_of(params) {
            Ok(id) => CallModel::Cancel(id),
            Err(e) => CallModel::Refused(e),
        }
    } else {
        CallModel::Refused(
            ProtocolError::plain(METHOD_NOT_FOUND, "method not found: "@ + method),
        )
    }
}

/// The text that reports a protocol version other than the current one.
pub open spec fn version_text(got: Seq<char>) -> Seq<char> {
    "expected jsonrpc \"2.0\", got "@ + text::debug_text(got)
}

/// What a frame holds: a request to serve, or the response that refuses it.
pub open spec fn request_of(frame: Seq<u8>) -> Result<RequestModel, ResponseModel> {
    match json::parsed_bytes(frame) {
        Err(complaint) => Err(
            error_response(
                RequestIdModel::Integer(0),
                ProtocolError::plain(PARSE_ERROR, complaint),
            ),
        ),
        Ok(t) => checked_request(t),
    }
}

/// What a JSON value is as a request: one to serve, or the response that
/// refuses it.
pub open spec fn checked_request(t: JsonView) -> Result<RequestModel, ResponseModel> {
    match Request::read(t, "request"@, Form::Plain) {
        Err(f) => Err(
            error_response(
                RequestIdModel::Integer(0),
                ProtocolError::plain(INVALID_REQUEST, f.text()),
            ),
        ),
        Ok(m) => if m.jsonrpc != JSONRPC_VERSION@ {
            Err(
                error_response(
                    m.id,
                    ProtocolError::plain(INVALID_REQUEST, version_text(m.jsonrpc)),
                ),
            )
        } else {
            Ok(m)
        },
    }
}

/// The response to an outcome of the handler.
pub open spec fn answered<T: Wire>(
    id: RequestIdModel,
    outcome: Result<T, ProtocolError>,
) -> ResponseModel {
    match outcome {
        Ok(v) => success_response(id, T::tree(v.model())),
        Err(e) => error_response(id, e.model()),
    }
}

/// Words the response to an outcome of the handler.
pub fn answer<T: Wire>(id: RequestId, outcome: Result<T, ProtocolError>) -> (r: Response)
    ensures
        r.model() == answered(id.model(), outcome),
{
    match outcome {
        Ok(v) => Response::success(id, v.to_json()),
        Err(e) => refuse(id, e),
    }
}

/// Words the response that reports an error.
pub fn refuse(id: RequestId, e: ProtocolError) -> (r: Response)
    ensures
        r.model() == error_response(id.model(), e.model()),
{
    Response::error(id, e.into())
}

/// The response to a frame that the codec refused: the message is too large to
/// be a request.
pub fn refuse_frame(e: &CodecError) -> (r: Response)
    ensures
        r.model() == error_response(
            RequestIdModel::Integer(0),
            ProtocolError::plain(INVALID_REQUEST, e.text()),
        ),
{
    refuse(RequestId::Integer(0), ProtocolError::invalid_request(e.message()))
}

/// Finds the task that `status` and `cancel` are about.
pub fn extract_task_id(params: &Json) -> (r: Result<String, ProtocolError>)
    ensures
        match r {
            Ok(s) => task_id_of(params@) == Ok::<Seq<char>, ProtocolErrorModel>(s@),
            Err(e) => task_id_of(params@) == Err::<Seq<char>, ProtocolErrorModel>(e.model()),
        },
{
    match StatusParams::from_json(params, "params", Form::Plain) {
        Ok(p) => Ok(p.task_id),
        Err(_) => Err(ProtocolError::invalid_params(explain_task_id(params).as_str())),
    }
}

/// Decides what a request asks of the handler.
pub fn route(request: &Request) -> (r: Call)
    ensures
        r@ == call_of(request.model().method, request.model().params),
{
    let params: Json = match &request.params {
        Some(p) => p.clone(),
        None => Json::Null,
    };
    let method = request.method.as_str();
    if text::same(method, "health") {
        Call::Health
    } else if text::same(method, "submit") {
        Call::Submit(params)
    } else if text::same(method, "status") {
        match extract_task_id(&params) {
            Ok(id) => Call::Status(id),
            Err(e) => Call::Refused(e),
        }
    } else if text::same(method, "cancel") {
        match extract_task_id(&params) {
            Ok(id) => Call::Cancel(id),
            Err(e) => Call::Refused(e),
        }
    } else {
        Call::Refused(ProtocolError::method_not_found(method))
    }
}

/// Checks a JSON value as a request.
pub fn check_request(t: &Json) -> (r: Result<Request, Response>)
    ensures
        match r {
            Ok(q) => checked_request(t@) == Ok::<RequestModel, ResponseModel>(q.model()),
            Err(p) => checked_request(t@) == Err::<RequestModel, ResponseModel>(p.model()),
        },
{
    let request = match Request::from_json(t, "request", Form::Plain) {
        Ok(q) => q,
        Err(f) => return Err(
            refuse(
                RequestId::Integer(0),
                ProtocolError::invalid_request(f.message().as_str()),
            ),
        ),
    };
    if !text::same(request.jsonrpc.as_str(), JSONRPC_VERSION) {
        let mut detail: String = "expected jsonrpc \"2.0\", got ".to_owned();
        detail.append(text::quoted(request.jsonrpc.as_str()).as_str());
        return Err(refuse(request.id, ProtocolError::invalid_request(detail.as_str())));
    }
    Ok(request)
}

/// Reads the request that a frame holds.
pub fn read_request(frame: &[u8]) -> (r: Result<Request, Response>)
    ensures
        match r {
            Ok(q) => request_of(frame@) == Ok::<RequestModel, ResponseModel>(q.model()),
            Err(p) => request_of(frame@) == Err::<RequestModel, ResponseModel>(p.model()),
        },
{
    match json::parse_bytes(frame) {
        Ok(t) => check_request(&t),
        Err(complaint) => Err(
            refuse(RequestId::Integer(0), ProtocolError::parse_error(complaint.as_str())),
        ),
    }
}

/// Whether `response` is one that the handler's own outcome leads to: the call
/// that the request asks for was made, with the parameters of the request, and
/// the response words what came back.
pub open spec fn responds<H: SidecarHandler>(
    handler: &H,
    request: RequestModel,
    response: ResponseModel,
) -> bool {
    match call_of(request.method, request.params) {
        CallModel::Refused(e) => response == error_response(request.id, e),
        CallModel::Health => exists|h: HealthResponse|
            #![trigger h.model()]
            call_ensures(H::health, (handler,), h) && response == success_response(
                request.id,
                HealthResponse::tree(h.model()),
            ),
        CallModel::Submit(p) => exists|params: Json, out|
            #![trigger call_ensures(H::submit, (handler, params), out)]
            params@ == p && call_ensures(H::submit, (handler, params), out) && response == answered(
                request.id,
                out,
            ),
        CallModel::Status(id) => exists|task_id: &str, out|
            #![trigger call_ensures(H::status, (handler, task_id), out)]
            task_id@ == id && call_ensures(H::status, (handler, task_id), out) && response
                == answered(request.id, out),
        CallModel::Cancel(id) => exists|task_id: &str, out|
            #![trigger call_ensures(H::cancel, (handler, task_id), out)]
            task_id@ == id && call_ensures(H::cancel, (handler, task_id), out) && response
                == answered(request.id, out),
    }
}

/// Serves one request with the handler.
pub fn dispatch<H: SidecarHandler>(handler: &H, request: &Request) -> (r: Response)
    ensures
        responds(handler, request.model(), r.model()),
        r.id.model() == request.id.model(),
{
    let id = request.id.duplicate();
    match route(request) {
        Call::Health => {
            let h = handler.health();
            Response::success(id, h.to_json())
        },
        Call::Submit(params) => {
            let out = handler.submit(params);
            answer(id, out)
        },
        Call::Status(task_id) => {
            let out = handler.status(task_id.as_str());
            answer(id, out)
        },
        Call::Cancel(task_id) => {
            let out = handler.cancel(task_id.as_str());
            answer(id, out)
        },
        Call::Refused(e) => refuse(id, e),
    }
}

/// Serves one frame: the one request of a connection.
pub fn handle_frame<H: SidecarHandler>(handler: &H, frame: &[u8]) -> (r: Response)
    ensures
        match request_of(frame@) {
            Ok(q) => responds(handler, q, r.model()),
            Err(p) => r.model() == p,
        },
{
    match read_request(frame) {
        Ok(request) => dispatch(handler, &request),
        Err(response) => response,
    }
}

/// A handler and the socket it is served on.
pub struct SidecarServer<H> {
    handler: Arc<H>,
    socket_path: String,
}

impl<H: SidecarHandler> SidecarServer<H> {
    /// The handler.
    pub closed spec fn handler(&self) -> H {
        *self.handler
    }

    /// The socket.
    pub closed spec fn socket(&self) -> Seq<char> {
        self.socket_path@
    }

    /// A server for the given socket. The handler is shared by all connections.
    pub fn new(handler: H, socket_path: &str) -> (r: Self)
        ensures
            r.handler() == handler,
            r.socket() == socket_path@,
    {
        SidecarServer { handler: Arc::new(handler), socket_path: socket_path.to_owned() }
    }

    /// The socket.
    pub fn socket_path(&self) -> (r: &str)
        ensures
            r@ == self.socket(),
    {
        self.socket_path.as_str()
    }

    /// Serves the one frame of a connection.
    pub fn handle(&self, frame: &[u8]) -> (r: Response)
        ensures
            match request_of(frame@) {
                Ok(q) => responds(&self.handler(), q, r.model()),
                Err(p) => r.model() == p,
            },
    {
        handle_frame(&*self.handler, frame)
    }
}

/// Every request that is served gets exactly one of result and error, under its
/// own identifier and the current protocol version.
pub proof fn law_response_answers_its_request<H: SidecarHandler>(
    handler: &H,
    request: RequestModel,
    response: ResponseModel,
)
    requires
        responds(handler, request, response),
    ensures
        response.id == request.id,
        response.jsonrpc == JSONRPC_VERSION@,
        response.result is Some <==> response.error is None,
{
}

/// A frame that holds no request to serve is refused with an error: malformed
/// JSON with the parse error, anything else with the invalid-request error.
pub proof fn law_bad_frames_are_refused(frame: Seq<u8>)
    ensures
        match request_of(frame) {
            Ok(_) => true,
            Err(p) => p.error is Some && p.result is None && (json::parsed_bytes(frame) is Err
                <==> p.error->0.code == PARSE_ERROR) && (json::parsed_bytes(frame) is Ok
                <==> p.error->0.code == INVALID_REQUEST),
        },
{
}

/// A request of the current version is served as it was written, `null`
/// parameters apart, which read as none.
pub proof fn law_written_request_is_served(m: RequestModel)
    requires
        Request::lossless(m),
        m.jsonrpc == JSONRPC_VERSION@,
    ensures
        checked_request(Request::tree(m)) == Ok::<RequestModel, ResponseModel>(m),
{
    Request::law_reads_what_it_writes(m, "request"@, Form::Plain);
}

/// Parameters are refused exactly when something is wrong with them.
pub proof fn law_task_id_refusal_has_words(params: JsonView)
    ensures
        StatusParams::read(params, "params"@, Form::Plain) is Err <==> task_id_fault(params) is Some,
{
    reveal_with_fuel(refusal::spoiled_from, 3);
    reveal_with_fuel(refusal::lacking_from, 3);
    reveal_with_fuel(refusal::listed_from, 3);
    reveal_with_fuel(refusal::needed_from, 3);
    reveal_with_fuel(wire::named, 3);
}

/// A method that the protocol does not have is answered with an error that
/// names it.
pub proof fn law_unknown_method_is_named(method: Seq<char>, params: Option<JsonView>)
    requires
        method != "health"@,
        method != "submit"@,
        method != "status"@,
        method != "cancel"@,
    ensures
        call_of(method, params) == CallModel::Refused(
            ProtocolError::plain(METHOD_NOT_FOUND, "method not found: "@ + method),
        ),
{
}

/// What a request asks for: each method asks for its own call and for no other,
/// with the parameters of the request; a request for a task has to name it.
pub proof fn law_methods_ask_for_their_calls(method: Seq<char>, params: Option<JsonView>)
    ensures
        ({
            let call = call_of(method, params);
            let given = if params is Some {
                params->0
            } else {
                JsonView::Null
            };
            let named = StatusParams::read(given, "params"@, Form::Plain);
            &&& call is Health <==> method == "health"@
            &&& call is Submit <==> method == "submit"@
            &&& call matches CallModel::Submit(p) ==> p == given
            &&& call is Status <==> method == "status"@ && named is Ok
            &&& call matches CallModel::Status(id) ==> id == named->Ok_0.task_id
            &&& call is Cancel <==> method == "cancel"@ && named is Ok
            &&& call matches CallModel::Cancel(id) ==> id == named->Ok_0.task_id
            &&& (method == "status"@ || method == "cancel"@) && named is Err ==> call is Refused
                && call->Refused_0.code == -32602 && call->Refused_0.data is None
                && call->Refused_0.message == refusal::words(task_id_fault(given))
            &&& call is Refused && method != "status"@ && method != "cancel"@
                ==> call->Refused_0.code == -32601 && call->Refused_0.message
                == "method not found: "@ + method && call->Refused_0.data is None
        }),
{
    reveal_strlit("health");
    reveal_strlit("submit");
    reveal_strlit("status");
    reveal_strlit("cancel");
    assert("health"@[0] == 'h');
    assert("submit"@[1] == 'u');
    assert("status"@[1] == 't');
    assert("cancel"@[0] == 'c');
    assert("submit"@[0] == 's');
    assert("status"@[0] == 's');
}

/// What is served is a request of the version that is spoken; anything else is
/// refused, under the identifier of the request where it has one.
pub proof fn law_requests_of_this_version_are_served(t: JsonView)
    ensures
        ({
            let r = checked_request(t);
            let read = Request::read(t, "request"@, Form::Plain);
            &&& r is Ok <==> read is Ok && read->Ok_0.jsonrpc == "2.0"@
            &&& r is Ok ==> r->Ok_0 == read->Ok_0
            &&& r matches Err(p) ==> {
                &&& p.jsonrpc == "2.0"@
                &&& p.result is None
                &&& p.error is Some
                &&& p.error->0.code == -32600
                &&& p.error->0.data is None
                &&& read is Ok ==> p.id == read->Ok_0.id && p.error->0.message
                    == "expected jsonrpc \"2.0\", got "@ + text::debug_text(read->Ok_0.jsonrpc)
                &&& read is Err ==> p.id == RequestIdModel::Integer(0) && p.error->0.message
                    == read->Err_0.text()
            }
        }),
{
}

/// A frame that is no JSON is answered with the complaint about it, under the
/// identifier zero; one that is holds the request that it is.
pub proof fn law_frames_hold_requests(frame: Seq<u8>)
    ensures
        json::parsed_bytes(frame) matches Ok(t) ==> request_of(frame) == checked_request(t),
        json::parsed_bytes(frame) matches Err(complaint) ==> {
            &&& request_of(frame) is Err
            &&& request_of(frame)->Err_0.id == RequestIdModel::Integer(0)
            &&& request_of(frame)->Err_0.jsonrpc == "2.0"@
            &&& request_of(frame)->Err_0.result is None
            &&& request_of(frame)->Err_0.error is Some
            &&& request_of(frame)->Err_0.error->0.code == -32700
            &&& request_of(frame)->Err_0.error->0.message == complaint
        },
{
}

/// What the handler says is what is answered: a result as it is, an error with its
/// code, its message and its data, under the identifier of the request.
pub proof fn law_answers_say_what_the_handler_said<T: Wire>(
    id: RequestIdModel,
    outcome: Result<T, ProtocolError>,
)
    ensures
        ({
            let r = answered(id, outcome);
            &&& r.id == id
            &&& r.jsonrpc == "2.0"@
            &&& outcome matches Ok(v) ==> r.result == Some(T::tree(v.model())) && r.error is None
            &&& outcome matches Err(e) ==> r.result is None && r.error is Some
                && r.error->0.code == e.code && r.error->0.message == e.message@
                && r.error->0.data == wire::optional_model(e.data)
        }),
{
}

/// The handler is asked what the request asks, and what it says is answered: a
/// submission with the parameters of the request, a status or a cancellation with
/// the task that it names, the health without any.
pub proof fn law_handler_is_asked_what_the_request_asks<H: SidecarHandler>(
    handler: &H,
    request: RequestModel,
    response: ResponseModel,
)
    requires
        responds(handler, request, response),
    ensures
        request.method == "health"@ ==> exists|h: HealthResponse|
            #![trigger h.model()]
            call_ensures(H::health, (handler,), h) && response.result == Some(
                HealthResponse::tree(h.model()),
            ),
        request.method == "submit"@ ==> exists|params: Json, out|
            #![trigger call_ensures(H::submit, (handler, params), out)]
            call_ensures(H::submit, (handler, params), out) && params@ == (match request.params {
                Some(p) => p,
                None => JsonView::Null,
            }) && (out is Ok <==> response.error is None),
        request.method == "status"@ && response.error is None ==> exists|task_id: &str, out|
            #![trigger call_ensures(H::status, (handler, task_id), out)]
            call_ensures(H::status, (handler, task_id), out) && out is Ok && StatusParams::read(
                params_of(request.params),
                "params"@,
                Form::Plain,
            )->Ok_0.task_id == task_id@,
        request.method == "cancel"@ && response.error is None ==> exists|task_id: &str, out|
            #![trigger call_ensures(H::cancel, (handler, task_id), out)]
            call_ensures(H::cancel, (handler, task_id), out) && out is Ok && StatusParams::read(
                params_of(request.params),
                "params"@,
                Form::Plain,
            )->Ok_0.task_id == task_id@,
{
    law_methods_ask_for_their_calls(request.method, request.params);
    reveal_strlit("health");
    reveal_strlit("submit");
    reveal_strlit("status");
    reveal_strlit("cancel");
    assert("health"@[0] == 'h');
    assert("submit"@[1] == 'u');
    assert("status"@[1] == 't');
    assert("cancel"@[0] == 'c');
    assert("submit"@[0] == 's');
    assert("status"@[0] == 's');
}

} // verus!
