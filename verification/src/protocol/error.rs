//! Error codes of the protocol and the error type that carries them.

use crate::json::{self, Json, JsonObject, JsonView};
use crate::protocol::jsonrpc::ErrorObject;
use crate::text;
use crate::wire::{self, DecodeError, Fault, Form, Wire};
use vstd::prelude::*;
use vstd::string::*;

verus! {

/// Malformed JSON was received.
pub const PARSE_ERROR: i32 = -32700;

/// The JSON is no valid request, or the message is too large.
pub const INVALID_REQUEST: i32 = -32600;

/// There is no such method.
pub const METHOD_NOT_FOUND: i32 = -32601;

/// The parameters of the method are invalid.
pub const INVALID_PARAMS: i32 = -32602;

/// Something went wrong inside.
pub const INTERNAL_ERROR: i32 = -32603;

/// The execution took longer than it may.
pub const EXECUTION_TIMEOUT: i32 = -32000;

/// There is no task of that name.
pub const TASK_NOT_FOUND: i32 = -32001;

/// The task was cancelled before.
pub const TASK_ALREADY_CANCELLED: i32 = -32002;

/// A credential is missing, was rejected or has expired.
pub const CREDENTIAL_ERROR: i32 = -32003;

/// The sidecar cannot reach its target.
pub const TARGET_UNREACHABLE: i32 = -32004;

/// The sidecar has too much to do.
pub const CAPACITY_EXCEEDED: i32 = -32005;

/// An error with a JSON-RPC code.
#[derive(Debug, Clone, PartialEq)]
pub struct ProtocolError {
    /// The code.
    pub code: i32,
    /// The error in words.
    pub message: String,
    /// Anything else there is to say.
    pub data: Option<Json>,
}

/// What a value of [`ProtocolError`] is.
#[verifier::ext_equal]
pub struct ProtocolErrorModel {
    pub code: i32,
    pub message: Seq<char>,
    pub data: Option<JsonView>,
}

impl Wire for ProtocolError {
    type Model = ProtocolErrorModel;

    open spec fn model(&self) -> ProtocolErrorModel {
        ProtocolErrorModel {
            code: self.code.model(),
            message: self.message.model(),
            data: wire::optional_model(self.data),
        }
    }

    open spec fn tree(m: ProtocolErrorModel) -> JsonView {
        let o = Map::<Seq<char>, JsonView>::empty();
        let o = o.insert("code"@, i32::tree(m.code));
        let o = o.insert("message"@, String::tree(m.message));
        let o = wire::with_optional::<Json>(o, "data"@, m.data);
        JsonView::Object(o)
    }

    open spec fn read(t: JsonView, at: Seq<char>, form: Form) -> Result<ProtocolErrorModel, Fault> {
        let t = wire::unlisted(t, seq!["code"@, "message"@, "data"@], 2, form);
        let code = wire::read_required::<i32>(t, "code"@, form);
        let message = wire::read_required::<String>(t, "message"@, form);
        let data = wire::read_optional::<Json>(t, "data"@, form);
        if !(t is Object) {
            Err(Fault::Invalid(at))
        } else if code is Err {
            Err(code->Err_0)
        } else if message is Err {
            Err(message->Err_0)
        } else if data is Err {
            Err(data->Err_0)
        } else {
            Ok(ProtocolErrorModel {
                code: code->Ok_0,
                message: message->Ok_0,
                data: data->Ok_0,
            })
        }
    }

    open spec fn lossless(m: ProtocolErrorModel) -> bool {
        &&& i32::lossless(m.code)
        &&& String::lossless(m.message)
        &&& wire::optional_lossless::<Json>(m.data)
    }

    open spec fn fits(m: ProtocolErrorModel, depth: nat) -> bool {
        &&& depth > 0
        &&& i32::fits(m.code, (depth - 1) as nat)
        &&& String::fits(m.message, (depth - 1) as nat)
        &&& wire::optional_fits::<Json>(m.data, (depth - 1) as nat)
    }

    fn to_json(&self) -> (r: Json) {
        let mut o = JsonObject::new();
        o.set("code", self.code.to_json());
        o.set("message", self.message.to_json());
        wire::set_optional(&mut o, "data", &self.data);
        o.finish()
    }

    fn from_json(j: &Json, at: &str, form: Form) -> (r: Result<ProtocolError, DecodeError>) {
        let names = ["code", "message", "data"];
        let listed = wire::unlist(j, &names, 2, form);
        let j = match &listed {
            Some(o) => o,
            None => j,
        };
        proof {
            assert(wire::strs(names@) =~= seq!["code"@, "message"@, "data"@]);
        }
        if !j.is_object() {
            return Err(DecodeError::Invalid(at.to_owned()));
        }
        let code = match wire::required::<i32>(j, "code", form) {
            Ok(x) => x,
            Err(e) => return Err(e),
        };
        let message = match wire::required::<String>(j, "message", form) {
            Ok(x) => x,
            Err(e) => return Err(e),
        };
        let data = match wire::optional::<Json>(j, "data", form) {
            Ok(x) => x,
            Err(e) => return Err(e),
        };
        Ok(ProtocolError { code, message, data })
    }

    proof fn law_reads_what_it_writes(m: ProtocolErrorModel, at: Seq<char>, form: Form) {
        reveal_strlit("code");
        reveal_strlit("message");
        reveal_strlit("data");
        assert("code"@.len() == 4);
        assert("message"@.len() == 7);
        assert("data"@.len() == 4);
        assert("code"@[0] != "data"@[0]);
        i32::law_reads_what_it_writes(m.code, "code"@, form);
        String::law_reads_what_it_writes(m.message, "message"@, form);
        wire::lemma_optional_reads_back::<Json>(m.data, "data"@, form);
        let t = ProtocolError::tree(m);
        assert(t.field("code"@) == Some(i32::tree(m.code)));
        assert(t.field("message"@) == Some(String::tree(m.message)));
        assert(t.field("data"@) == wire::optional_tree::<Json>(m.data));
    }

    proof fn law_fits(m: ProtocolErrorModel, depth: nat) {
        let inner = (depth - 1) as nat;
        let o = Map::<Seq<char>, JsonView>::empty();
        i32::law_fits(m.code, inner);
        let v = i32::tree(m.code);
        json::lemma_insert_within(o, "code"@, v, inner);
        let o = o.insert("code"@, v);
        String::law_fits(m.message, inner);
        let v = String::tree(m.message);
        json::lemma_insert_within(o, "message"@, v, inner);
        let o = o.insert("message"@, v);
        wire::lemma_optional_within::<Json>(o, "data"@, m.data, inner);
        let o = wire::with_optional::<Json>(o, "data"@, m.data);
    }
}

impl ProtocolError {
    /// What an error without data is.
    pub open spec fn plain(code: i32, message: Seq<char>) -> ProtocolErrorModel {
        ProtocolErrorModel { code, message, data: None }
    }

    /// An error without data.
    pub fn new(code: i32, message: &str) -> (r: ProtocolError)
        ensures
            r.model() == ProtocolError::plain(code, message@),
    {
        ProtocolError { code, message: message.to_owned(), data: None }
    }

    /// This error with data.
    #[must_use]
    pub fn with_data(self, data: Json) -> (r: ProtocolError)
        ensures
            r.code == self.code,
            r.message == self.message,
            r.data == Some(data),
    {
        ProtocolError { code: self.code, message: self.message, data: Some(data) }
    }

    /// Malformed JSON was received.
    pub fn parse_error(detail: &str) -> (r: ProtocolError)
        ensures
            r.model() == ProtocolError::plain(PARSE_ERROR, detail@),
    {
        ProtocolError::new(PARSE_ERROR, detail)
    }

    /// The JSON is no valid request, or the message is too large.
    pub fn invalid_request(detail: &str) -> (r: ProtocolError)
        ensures
            r.model() == ProtocolError::plain(INVALID_REQUEST, detail@),
    {
        ProtocolError::new(INVALID_REQUEST, detail)
    }

    /// The parameters of the method are invalid.
    pub fn invalid_params(detail: &str) -> (r: ProtocolError)
        ensures
            r.model() == ProtocolError::plain(INVALID_PARAMS, detail@),
    {
        ProtocolError::new(INVALID_PARAMS, detail)
    }

    /// Something went wrong inside.
    pub fn internal_error(detail: &str) -> (r: ProtocolError)
        ensures
            r.model() == ProtocolError::plain(INTERNAL_ERROR, detail@),
    {
        ProtocolError::new(INTERNAL_ERROR, detail)
    }

    /// A credential is missing, was rejected or has expired.
    pub fn credential_error(detail: &str) -> (r: ProtocolError)
        ensures
            r.model() == ProtocolError::plain(CREDENTIAL_ERROR, detail@),
    {
        ProtocolError::new(CREDENTIAL_ERROR, detail)
    }

    /// The sidecar cannot reach its target.
    pub fn target_unreachable(detail: &str) -> (r: ProtocolError)
        ensures
            r.model() == ProtocolError::plain(TARGET_UNREACHABLE, detail@),
    {
        ProtocolError::new(TARGET_UNREACHABLE, detail)
    }

    /// The sidecar has too much to do.
    pub fn capacity_exceeded(detail: &str) -> (r: ProtocolError)
        ensures
            r.model() == ProtocolError::plain(CAPACITY_EXCEEDED, detail@),
    {
        ProtocolError::new(CAPACITY_EXCEEDED, detail)
    }

    /// The execution took longer than it may.
    pub fn execution_timeout() -> (r: ProtocolError)
        ensures
            r.model() == ProtocolError::plain(EXECUTION_TIMEOUT, "execution timeout"@),
    {
        ProtocolError::new(EXECUTION_TIMEOUT, "execution timeout")
    }

    /// There is no such method.
    pub fn method_not_found(method: &str) -> (r: ProtocolError)
        ensures
            r.model() == ProtocolError::plain(METHOD_NOT_FOUND, "method not found: "@ + method@),
    {
        let mut message: String = "method not found: ".to_owned();
        message.append(method);
        ProtocolError { code: METHOD_NOT_FOUND, message, data: None }
    }

    /// There is no task of that name.
    pub fn task_not_found(task_id: &str) -> (r: ProtocolError)
        ensures
            r.model() == ProtocolError::plain(TASK_NOT_FOUND, "task not found: "@ + task_id@),
    {
        let mut message: String = "task not found: ".to_owned();
        message.append(task_id);
        ProtocolError { code: TASK_NOT_FOUND, message, data: None }
    }

    /// The task was cancelled before.
    pub fn task_already_cancelled(task_id: &str) -> (r: ProtocolError)
        ensures
            r.model() == ProtocolError::plain(TASK_ALREADY_CANCELLED, "task already cancelled: "@ + task_id@),
    {
        let mut message: String = "task already cancelled: ".to_owned();
        message.append(task_id);
        ProtocolError { code: TASK_ALREADY_CANCELLED, message, data: None }
    }

    /// The error in one line: the code in brackets, then the message.
    pub open spec fn text(m: ProtocolErrorModel) -> Seq<char> {
        seq!['['] + text::signed_decimal(m.code as int) + "] "@ + m.message
    }

    /// The error in one line.
    pub fn to_text(&self) -> (r: String)
        ensures
            r@ == ProtocolError::text(self.model()),
    {
        let mut s: String = String::new();
        s.push('[');
        text::push_i64(&mut s, self.code as i64);
        s.append("] ");
        s.append(self.message.as_str());
        proof {
            assert(s@ =~= ProtocolError::text(self.model()));
        }
        s
    }
}

impl From<ProtocolError> for ErrorObject {
    fn from(e: ProtocolError) -> (r: ErrorObject) {
        ErrorObject { code: e.code, message: e.message, data: e.data }
    }
}

impl vstd::std_specs::convert::FromSpecImpl<ProtocolError> for ErrorObject {
    open spec fn obeys_from_spec() -> bool {
        true
    }

    open spec fn from_spec(e: ProtocolError) -> ErrorObject {
        ErrorObject { code: e.code, message: e.message, data: e.data }
    }
}

impl From<ErrorObject> for ProtocolError {
    fn from(e: ErrorObject) -> (r: ProtocolError) {
        ProtocolError { code: e.code, message: e.message, data: e.data }
    }
}

impl vstd::std_specs::convert::FromSpecImpl<ErrorObject> for ProtocolError {
    open spec fn obeys_from_spec() -> bool {
        true
    }

    open spec fn from_spec(e: ErrorObject) -> ProtocolError {
        ProtocolError { code: e.code, message: e.message, data: e.data }
    }
}

/// A protocol error and its form on the wire are one for one: neither way loses
/// anything.
pub proof fn law_error_object_conversion_is_lossless(e: ProtocolError, o: ErrorObject)
    ensures
        <ProtocolError as vstd::std_specs::convert::FromSpec<ErrorObject>>::from_spec(
            <ErrorObject as vstd::std_specs::convert::FromSpec<ProtocolError>>::from_spec(e),
        ) == e,
        <ErrorObject as vstd::std_specs::convert::FromSpec<ProtocolError>>::from_spec(
            <ProtocolError as vstd::std_specs::convert::FromSpec<ErrorObject>>::from_spec(o),
        ) == o,
{
}

} // verus!
