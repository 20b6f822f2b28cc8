//! JSON-RPC 2.0 messages.

use crate::json::{self, Json, JsonObject, JsonView};
use crate::text;
use crate::wire::{self, DecodeError, Fault, Form, Wire};
use vstd::prelude::*;
use vstd::string::*;

verus! {

/// The protocol version that every message carries.
pub const JSONRPC_VERSION: &'static str = "2.0";

/// A request identifier: an integer or a text.
#[derive(Debug, Clone, PartialEq, Eq, Hash)]
pub enum RequestId {
    Integer(i64),
    String(String),
}

/// What a value of [`RequestId`] is.
#[verifier::ext_equal]
pub enum RequestIdModel {
    Integer(i64),
    String(Seq<char>),
}

impl RequestId {
    /// A textual identifier.
    pub fn from_text(v: &str) -> (r: RequestId)
        ensures
            r.model() == RequestIdModel::String(v@),
    {
        RequestId::String(v.to_owned())
    }

    /// The identifier as text.
    pub open spec fn text(m: RequestIdModel) -> Seq<char> {
        match m {
            RequestIdModel::Integer(n) => text::signed_decimal(n as int),
            RequestIdModel::String(s) => s,
        }
    }

    /// The identifier as text.
    pub fn to_text(&self) -> (r: String)
        ensures
            r@ == RequestId::text(self.model()),
    {
        match self {
            RequestId::Integer(n) => {
                let mut s: String = String::new();
                text::push_i64(&mut s, *n);
                proof {
                    assert(s@ =~= text::signed_decimal(*n as int));
                }
                s
            },
            RequestId::String(s) => s.clone(),
        }
    }

    /// A copy.
    pub fn duplicate(&self) -> (r: RequestId)
        ensures
            r == *self,
    {
        match self {
            RequestId::Integer(n) => RequestId::Integer(*n),
            RequestId::String(s) => RequestId::String(s.clone()),
        }
    }
}

impl From<i64> for RequestId {
    fn from(v: i64) -> (r: RequestId) {
        RequestId::Integer(v)
    }
}

impl vstd::std_specs::convert::FromSpecImpl<i64> for RequestId {
    open spec fn obeys_from_spec() -> bool {
        true
    }

    open spec fn from_spec(v: i64) -> RequestId {
        RequestId::Integer(v)
    }
}

impl From<String> for RequestId {
    fn from(v: String) -> (r: RequestId) {
        RequestId::String(v)
    }
}

impl vstd::std_specs::convert::FromSpecImpl<String> for RequestId {
    open spec fn obeys_from_spec() -> bool {
        true
    }

    open spec fn from_spec(v: String) -> RequestId {
        RequestId::String(v)
    }
}

impl Wire for RequestId {
    type Model = RequestIdModel;

    open spec fn model(&self) -> RequestIdModel {
        match self {
            RequestId::Integer(n) => RequestIdModel::Integer(*n),
            RequestId::String(s) => RequestIdModel::String(s@),
        }
    }

    open spec fn tree(m: RequestIdModel) -> JsonView {
        match m {
            RequestIdModel::Integer(n) => i64::tree(n),
            RequestIdModel::String(s) => JsonView::Text(s),
        }
    }

    open spec fn read(t: JsonView, at: Seq<char>, form: Form) -> Result<RequestIdModel, Fault> {
        match t {
            JsonView::Text(s) => Ok(RequestIdModel::String(s)),
            _ => match i64::read(t, at, form) {
                Ok(n) => Ok(RequestIdModel::Integer(n)),
                Err(e) => Err(e),
            },
        }
    }

    open spec fn lossless(m: RequestIdModel) -> bool {
        true
    }

    open spec fn fits(m: RequestIdModel, depth: nat) -> bool {
        true
    }

    fn to_json(&self) -> (r: Json) {
        match self {
            RequestId::Integer(n) => Json::signed(*n),
            RequestId::String(s) => Json::Text(s.clone()),
        }
    }

    fn from_json(j: &Json, at: &str, form: Form) -> (r: Result<RequestId, DecodeError>) {
        match j {
            Json::Text(s) => Ok(RequestId::String(s.clone())),
            _ => match i64::from_json(j, at, form) {
                Ok(n) => Ok(RequestId::Integer(n)),
                Err(e) => Err(e),
            },
        }
    }

    proof fn law_reads_what_it_writes(m: RequestIdModel, at: Seq<char>, form: Form) {
    }

    proof fn law_fits(m: RequestIdModel, depth: nat) {
    }
}

/// A request.
#[derive(Debug, Clone, PartialEq)]
pub struct Request {
    /// Protocol version.
    pub jsonrpc: String,
    /// What is asked for.
    pub method: String,
    /// With what.
    pub params: Option<Json>,
    /// By which the answer is known.
    pub id: RequestId,
}

/// What a value of [`Request`] is.
#[verifier::ext_equal]
pub struct RequestModel {
    pub jsonrpc: Seq<char>,
    pub method: Seq<char>,
    pub params: Option<JsonView>,
    pub id: RequestIdModel,
}

impl Wire for Request {
    type Model = RequestModel;

    open spec fn model(&self) -> RequestModel {
        RequestModel {
            jsonrpc: self.jsonrpc.model(),
            method: self.method.model(),
            params: wire::optional_model(self.params),
            id: self.id.model(),
        }
    }

    open spec fn tree(m: RequestModel) -> JsonView {
        let o = Map::<Seq<char>, JsonView>::empty();
        let o = o.insert("jsonrpc"@, String::tree(m.jsonrpc));
        let o = o.insert("method"@, String::tree(m.method));
        let o = wire::with_optional::<Json>(o, "params"@, m.params);
        let o = o.insert("id"@, RequestId::tree(m.id));
        JsonView::Object(o)
    }

    open spec fn read(t: JsonView, at: Seq<char>, form: Form) -> Result<RequestModel, Fault> {
        let t = wire::unlisted(t, seq!["jsonrpc"@, "method"@, "params"@, "id"@], 4, form);
        let jsonrpc = wire::read_required::<String>(t, "jsonrpc"@, form);
        let method = wire::read_required::<String>(t, "method"@, form);
        let params = wire::read_optional::<Json>(t, "params"@, form);
        let id = wire::read_required::<RequestId>(t, "id"@, form);
        if !(t is Object) {
            Err(Fault::Invalid(at))
        } else if jsonrpc is Err {
            Err(jsonrpc->Err_0)
        } else if method is Err {
            Err(method->Err_0)
        } else if params is Err {
            Err(params->Err_0)
        } else if id is Err {
            Err(id->Err_0)
        } else {
            Ok(RequestModel {
                jsonrpc: jsonrpc->Ok_0,
                method: method->Ok_0,
                params: params->Ok_0,
                id: id->Ok_0,
            })
        }
    }

    open spec fn lossless(m: RequestModel) -> bool {
        &&& String::lossless(m.jsonrpc)
        &&& String::lossless(m.method)
        &&& wire::optional_lossless::<Json>(m.params)
        &&& RequestId::lossless(m.id)
    }

    open spec fn fits(m: RequestModel, depth: nat) -> bool {
        &&& depth > 0
        &&& String::fits(m.jsonrpc, (depth - 1) as nat)
        &&& String::fits(m.method, (depth - 1) as nat)
        &&& wire::optional_fits::<Json>(m.params, (depth - 1) as nat)
        &&& RequestId::fits(m.id, (depth - 1) as nat)
    }

    fn to_json(&self) -> (r: Json) {
        let mut o = JsonObject::new();
        o.set("jsonrpc", self.jsonrpc.to_json());
        o.set("method", self.method.to_json());
        wire::set_optional(&mut o, "params", &self.params);
        o.set("id", self.id.to_json());
        o.finish()
    }

    fn from_json(j: &Json, at: &str, form: Form) -> (r: Result<Request, DecodeError>) {
        let names = ["jsonrpc", "method", "params", "id"];
        let listed = wire::unlist(j, &names, 4, form);
        let j = match &listed {
            Some(o) => o,
            None => j,
        };
        proof {
            assert(wire::strs(names@) =~= seq!["jsonrpc"@, "method"@, "params"@, "id"@]);
        }
        if !j.is_object() {
            return Err(DecodeError::Invalid(at.to_owned()));
        }
        let jsonrpc = match wire::required::<String>(j, "jsonrpc", form) {
            Ok(x) => x,
            Err(e) => return Err(e),
        };
        let method = match wire::required::<String>(j, "method", form) {
            Ok(x) => x,
            Err(e) => return Err(e),
        };
        let params = match wire::optional::<Json>(j, "params", form) {
            Ok(x) => x,
            Err(e) => return Err(e),
        };
        let id = match wire::required::<RequestId>(j, "id", form) {
            Ok(x) => x,
            Err(e) => return Err(e),
        };
        Ok(Request { jsonrpc, method, params, id })
    }

    proof fn law_reads_what_it_writes(m: RequestModel, at: Seq<char>, form: Form) {
        reveal_strlit("jsonrpc");
        reveal_strlit("method");
        reveal_strlit("params");
        reveal_strlit("id");
        assert("jsonrpc"@.len() == 7);
        assert("method"@.len() == 6);
        assert("params"@.len() == 6);
        assert("id"@.len() == 2);
        assert("method"@[0] != "params"@[0]);
        String::law_reads_what_it_writes(m.jsonrpc, "jsonrpc"@, form);
        String::law_reads_what_it_writes(m.method, "method"@, form);
        wire::lemma_optional_reads_back::<Json>(m.params, "params"@, form);
        RequestId::law_reads_what_it_writes(m.id, "id"@, form);
        let t = Request::tree(m);
        assert(t.field("jsonrpc"@) == Some(String::tree(m.jsonrpc)));
        assert(t.field("method"@) == Some(String::tree(m.method)));
        assert(t.field("params"@) == wire::optional_tree::<Json>(m.params));
        assert(t.field("id"@) == Some(RequestId::tree(m.id)));
    }

    proof fn law_fits(m: RequestModel, depth: nat) {
        let inner = (depth - 1) as nat;
        let o = Map::<Seq<char>, JsonView>::empty();
        String::law_fits(m.jsonrpc, inner);
        let v = String::tree(m.jsonrpc);
        json::lemma_insert_within(o, "jsonrpc"@, v, inner);
        let o = o.insert("jsonrpc"@, v);
        String::law_fits(m.method, inner);
        let v = String::tree(m.method);
        json::lemma_insert_within(o, "method"@, v, inner);
        let o = o.insert("method"@, v);
        wire::lemma_optional_within::<Json>(o, "params"@, m.params, inner);
        let o = wire::with_optional::<Json>(o, "params"@, m.params);
        RequestId::law_fits(m.id, inner);
        let v = RequestId::tree(m.id);
        json::lemma_insert_within(o, "id"@, v, inner);
        let o = o.insert("id"@, v);
    }
}

impl Request {
    /// A request of the current protocol version.
    pub fn new(method: &str, params: Option<Json>, id: RequestId) -> (r: Request)
        ensures
            r.jsonrpc@ == JSONRPC_VERSION@,
            r.method@ == method@,
            r.params == params,
            r.id == id,
    {
        Request { jsonrpc: JSONRPC_VERSION.to_owned(), method: method.to_owned(), params, id }
    }
}

/// The error of a response.
#[derive(Debug, Clone, PartialEq)]
pub struct ErrorObject {
    /// The code.
    pub code: i32,
    /// The error in words.
    pub message: String,
    /// Anything else there is to say.
    pub data: Option<Json>,
}

/// What a value of [`ErrorObject`] is.
#[verifier::ext_equal]
pub struct ErrorObjectModel {
    pub code: i32,
    pub message: Seq<char>,
    pub data: Option<JsonView>,
}

impl Wire for ErrorObject {
    type Model = ErrorObjectModel;

    open spec fn model(&self) -> ErrorObjectModel {
        ErrorObjectModel {
            code: self.code.model(),
            message: self.message.model(),
            data: wire::optional_model(self.data),
        }
    }

    open spec fn tree(m: ErrorObjectModel) -> JsonView {
        let o = Map::<Seq<char>, JsonView>::empty();
        let o = o.insert("code"@, i32::tree(m.code));
        let o = o.insert("message"@, String::tree(m.message));
        let o = wire::with_optional::<Json>(o, "data"@, m.data);
        JsonView::Object(o)
    }

    open spec fn read(t: JsonView, at: Seq<char>, form: Form) -> Result<ErrorObjectModel, Fault> {
        let t = wire::unlisted(t, seq!["code"@, "message"@, "data"@], 2, form);
        let code = wire::read_required::<i32>(t, "code"@, form);
        let message = wire::read_required::<String>(t, "message"@, form);
        let data = wire::read_optional::<Json>(t, "data"@, form);
        if !(t is Object) {
            Err(Fault::Invalid(at))
        } else if code is Err {
            Err(code->Err_0)
        } else if message is Err {
            Err(message->Err_0)
        } else if data is Err {
            Err(data->Err_0)
        } else {
            Ok(ErrorObjectModel {
                code: code->Ok_0,
                message: message->Ok_0,
                data: data->Ok_0,
            })
        }
    }

    open spec fn lossless(m: ErrorObjectModel) -> bool {
        &&& i32::lossless(m.code)
        &&& String::lossless(m.message)
        &&& wire::optional_lossless::<Json>(m.data)
    }

    open spec fn fits(m: ErrorObjectModel, depth: nat) -> bool {
        &&& depth > 0
        &&& i32::fits(m.code, (depth - 1) as nat)
        &&& String::fits(m.message, (depth - 1) as nat)
        &&& wire::optional_fits::<Json>(m.data, (depth - 1) as nat)
    }

    fn to_json(&self) -> (r: Json) {
        let mut o = JsonObject::new();
        o.set("code", self.code.to_json());
        o.set("message", self.message.to_json());
        wire::set_optional(&mut o, "data", &self.data);
        o.finish()
    }

    fn from_json(j: &Json, at: &str, form: Form) -> (r: Result<ErrorObject, DecodeError>) {
        let names = ["code", "message", "data"];
        let listed = wire::unlist(j, &names, 2, form);
        let j = match &listed {
            Some(o) => o,
            None => j,
        };
        proof {
            assert(wire::strs(names@) =~= seq!["code"@, "message"@, "data"@]);
        }
        if !j.is_object() {
            return Err(DecodeError::Invalid(at.to_owned()));
        }
        let code = match wire::required::<i32>(j, "code", form) {
            Ok(x) => x,
            Err(e) => return Err(e),
        };
        let message = match wire::required::<String>(j, "message", form) {
            Ok(x) => x,
            Err(e) => return Err(e),
        };
        let data = match wire::optional::<Json>(j, "data", form) {
            Ok(x) => x,
            Err(e) => return Err(e),
        };
        Ok(ErrorObject { code, message, data })
    }

    proof fn law_reads_what_it_writes(m: ErrorObjectModel, at: Seq<char>, form: Form) {
        reveal_strlit("code");
        reveal_strlit("message");
        reveal_strlit("data");
        assert("code"@.len() == 4);
        assert("message"@.len() == 7);
        assert("data"@.len() == 4);
        assert("code"@[0] != "data"@[0]);
        i32::law_reads_what_it_writes(m.code, "code"@, form);
        String::law_reads_what_it_writes(m.message, "message"@, form);
        wire::lemma_optional_reads_back::<Json>(m.data, "data"@, form);
        let t = ErrorObject::tree(m);
        assert(t.field("code"@) == Some(i32::tree(m.code)));
        assert(t.field("message"@) == Some(String::tree(m.message)));
        assert(t.field("data"@) == wire::optional_tree::<Json>(m.data));
    }

    proof fn law_fits(m: ErrorObjectModel, depth: nat) {
        let inner = (depth - 1) as nat;
        let o = Map::<Seq<char>, JsonView>::empty();
        i32::law_fits(m.code, inner);
        let v = i32::tree(m.code);
        json::lemma_insert_within(o, "code"@, v, inner);
        let o = o.insert("code"@, v);
        String::law_fits(m.message, inner);
        let v = String::tree(m.message);
        json::lemma_insert_within(o, "message"@, v, inner);
        let o = o.insert("message"@, v);
        wire::lemma_optional_within::<Json>(o, "data"@, m.data, inner);
        let o = wire::with_optional::<Json>(o, "data"@, m.data);
    }
}

/// A response: a result or an error, never both.
#[derive(Debug, Clone, PartialEq)]
pub struct Response {
    /// Protocol version.
    pub jsonrpc: String,
    /// The result.
    pub result: Option<Json>,
    /// The error.
    pub error: Option<ErrorObject>,
    /// The request that is answered.
    pub id: RequestId,
}

/// What a value of [`Response`] is.
#[verifier::ext_equal]
pub struct ResponseModel {
    pub jsonrpc: Seq<char>,
    pub result: Option<JsonView>,
    pub error: Option<ErrorObjectModel>,
    pub id: RequestIdModel,
}

impl Wire for Response {
    type Model = ResponseModel;

    open spec fn model(&self) -> ResponseModel {
        ResponseModel {
            jsonrpc: self.jsonrpc.model(),
            result: wire::optional_model(self.result),
            error: wire::optional_model(self.error),
            id: self.id.model(),
        }
    }

    open spec fn tree(m: ResponseModel) -> JsonView {
        let o = Map::<Seq<char>, JsonView>::empty();
        let o = o.insert("jsonrpc"@, String::tree(m.jsonrpc));
        let o = wire::with_optional::<Json>(o, "result"@, m.result);
        let o = wire::with_optional::<ErrorObject>(o, "error"@, m.error);
        let o = o.insert("id"@, RequestId::tree(m.id));
        JsonView::Object(o)
    }

    open spec fn read(t: JsonView, at: Seq<char>, form: Form) -> Result<ResponseModel, Fault> {
        let t = wire::unlisted(t, seq!["jsonrpc"@, "result"@, "error"@, "id"@], 4, form);
        let jsonrpc = wire::read_required::<String>(t, "jsonrpc"@, form);
        let result = wire::read_optional::<Json>(t, "result"@, form);
        let error = wire::read_optional::<ErrorObject>(t, "error"@, form);
        let id = wire::read_required::<RequestId>(t, "id"@, form);
        if !(t is Object) {
            Err(Fault::Invalid(at))
        } else if jsonrpc is Err {
            Err(jsonrpc->Err_0)
        } else if result is Err {
            Err(result->Err_0)
        } else if error is Err {
            Err(error->Err_0)
        } else if id is Err {
            Err(id->Err_0)
        } else {
            Ok(ResponseModel {
                jsonrpc: jsonrpc->Ok_0,
                result: result->Ok_0,
                error: error->Ok_0,
                id: id->Ok_0,
            })
        }
    }

    open spec fn lossless(m: ResponseModel) -> bool {
        &&& String::lossless(m.jsonrpc)
        &&& wire::optional_lossless::<Json>(m.result)
        &&& wire::optional_lossless::<ErrorObject>(m.error)
        &&& RequestId::lossless(m.id)
    }

    open spec fn fits(m: ResponseModel, depth: nat) -> bool {
        &&& depth > 0
        &&& String::fits(m.jsonrpc, (depth - 1) as nat)
        &&& wire::optional_fits::<Json>(m.result, (depth - 1) as nat)
        &&& wire::optional_fits::<ErrorObject>(m.error, (depth - 1) as nat)
        &&& RequestId::fits(m.id, (depth - 1) as nat)
    }

    fn to_json(&self) -> (r: Json) {
        let mut o = JsonObject::new();
        o.set("jsonrpc", self.jsonrpc.to_json());
        wire::set_optional(&mut o, "result", &self.result);
        wire::set_optional(&mut o, "error", &self.error);
        o.set("id", self.id.to_json());
        o.finish()
    }

    fn from_json(j: &Json, at: &str, form: Form) -> (r: Result<Response, DecodeError>) {
        let names = ["jsonrpc", "result", "error", "id"];
        let listed = wire::unlist(j, &names, 4, form);
        let j = match &listed {
            Some(o) => o,
            None => j,
        };
        proof {
            assert(wire::strs(names@) =~= seq!["jsonrpc"@, "result"@, "error"@, "id"@]);
        }
        if !j.is_object() {
            return Err(DecodeError::Invalid(at.to_owned()));
        }
        let jsonrpc = match wire::required::<String>(j, "jsonrpc", form) {
            Ok(x) => x,
            Err(e) => return Err(e),
        };
        let result = match wire::optional::<Json>(j, "result", form) {
            Ok(x) => x,
            Err(e) => return Err(e),
        };
        let error = match wire::optional::<ErrorObject>(j, "error", form) {
            Ok(x) => x,
            Err(e) => return Err(e),
        };
        let id = match wire::required::<RequestId>(j, "id", form) {
            Ok(x) => x,
            Err(e) => return Err(e),
        };
        Ok(Response { jsonrpc, result, error, id })
    }

    proof fn law_reads_what_it_writes(m: ResponseModel, at: Seq<char>, form: Form) {
        reveal_strlit("jsonrpc");
        reveal_strlit("result");
        reveal_strlit("error");
        reveal_strlit("id");
        assert("jsonrpc"@.len() == 7);
        assert("result"@.len() == 6);
        assert("error"@.len() == 5);
        assert("id"@.len() == 2);
        String::law_reads_what_it_writes(m.jsonrpc, "jsonrpc"@, form);
        wire::lemma_optional_reads_back::<Json>(m.result, "result"@, form);
        wire::lemma_optional_reads_back::<ErrorObject>(m.error, "error"@, form);
        RequestId::law_reads_what_it_writes(m.id, "id"@, form);
        let t = Response::tree(m);
        assert(t.field("jsonrpc"@) == Some(String::tree(m.jsonrpc)));
        assert(t.field("result"@) == wire::optional_tree::<Json>(m.result));
        assert(t.field("error"@) == wire::optional_tree::<ErrorObject>(m.error));
        assert(t.field("id"@) == Some(RequestId::tree(m.id)));
    }

    proof fn law_fits(m: ResponseModel, depth: nat) {
        let inner = (depth - 1) as nat;
        let o = Map::<Seq<char>, JsonView>::empty();
        String::law_fits(m.jsonrpc, inner);
        let v = String::tree(m.jsonrpc);
        json::lemma_insert_within(o, "jsonrpc"@, v, inner);
        let o = o.insert("jsonrpc"@, v);
        wire::lemma_optional_within::<Json>(o, "result"@, m.result, inner);
        let o = wire::with_optional::<Json>(o, "result"@, m.result);
        wire::lemma_optional_within::<ErrorObject>(o, "error"@, m.error, inner);
        let o = wire::with_optional::<ErrorObject>(o, "error"@, m.error);
        RequestId::law_fits(m.id, inner);
        let v = RequestId::tree(m.id);
        json::lemma_insert_within(o, "id"@, v, inner);
        let o = o.insert("id"@, v);
    }
}

impl Response {
    /// A response with a result.
    pub fn success(id: RequestId, result: Json) -> (r: Response)
        ensures
            r.jsonrpc@ == JSONRPC_VERSION@,
            r.result == Some(result),
            r.error is None,
            r.id == id,
    {
        Response { jsonrpc: JSONRPC_VERSION.to_owned(), result: Some(result), error: None, id }
    }

    /// A response with an error.
    pub fn error(id: RequestId, error: ErrorObject) -> (r: Response)
        ensures
            r.jsonrpc@ == JSONRPC_VERSION@,
            r.result is None,
            r.error == Some(error),
            r.id == id,
    {
        Response { jsonrpc: JSONRPC_VERSION.to_owned(), result: None, error: Some(error), id }
    }

    /// Whether there is no error.
    pub fn is_success(&self) -> (r: bool)
        ensures
            r == self.error is None,
    {
        self.error.is_none()
    }
}

} // verus!
