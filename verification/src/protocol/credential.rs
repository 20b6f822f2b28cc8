//! How a task names the credentials it needs.

use crate::json::{self, Json, JsonObject, JsonView};
use crate::text;
use crate::wire::{self, DecodeError, Fault, Form, Wire};
use vstd::prelude::*;
use vstd::string::*;

verus! {

/// When a credential is fetched.
#[derive(Debug, Clone, Copy, PartialEq, Eq, Hash, Structural)]
pub enum ResolveMode {
    /// By the agent, before the task runs.
    Eager,
    /// By the sidecar, while the task runs.
    Lazy,
}

impl ResolveMode {
    /// The name on the wire.
    pub open spec fn wire_name(self) -> Seq<char> {
        match self {
            ResolveMode::Eager => "eager"@,
            ResolveMode::Lazy => "lazy"@,
        }
    }

    /// The name on the wire.
    pub fn as_str(&self) -> (r: &'static str)
        ensures
            r@ == self.wire_name(),
    {
        match self {
            ResolveMode::Eager => "eager",
            ResolveMode::Lazy => "lazy",
        }
    }

    /// The value that a name stands for.
    pub open spec fn of_name(s: Seq<char>) -> Option<ResolveMode> {
        if s == "eager"@ {
            Some(ResolveMode::Eager)
        } else if s == "lazy"@ {
            Some(ResolveMode::Lazy)
        } else {
            None
        }
    }

    /// Reads a name.
    pub fn parse(s: &str) -> (r: Option<ResolveMode>)
        ensures
            r == ResolveMode::of_name(s@),
    {
        if text::same(s, "eager") {
            Some(ResolveMode::Eager)
        } else if text::same(s, "lazy") {
            Some(ResolveMode::Lazy)
        } else {
            None
        }
    }
}

impl Wire for ResolveMode {
    type Model = ResolveMode;

    open spec fn model(&self) -> ResolveMode {
        *self
    }

    open spec fn tree(m: ResolveMode) -> JsonView {
        JsonView::Text(m.wire_name())
    }

    open spec fn read(t: JsonView, at: Seq<char>, form: Form) -> Result<ResolveMode, Fault> {
        match wire::name_in(t, form) {
            Some(s) => match ResolveMode::of_name(s) {
                Some(v) => Ok(v),
                None => Err(Fault::Invalid(at)),
            },
            None => Err(Fault::Invalid(at)),
        }
    }

    open spec fn lossless(m: ResolveMode) -> bool {
        true
    }

    open spec fn fits(m: ResolveMode, depth: nat) -> bool {
        true
    }

    fn to_json(&self) -> (r: Json) {
        Json::text(self.as_str())
    }

    fn from_json(j: &Json, at: &str, form: Form) -> (r: Result<ResolveMode, DecodeError>) {
        match wire::name_of(j, form) {
            Some(s) => match ResolveMode::parse(s) {
                Some(v) => Ok(v),
                None => Err(DecodeError::Invalid(at.to_owned())),
            },
            None => Err(DecodeError::Invalid(at.to_owned())),
        }
    }

    proof fn law_reads_what_it_writes(m: ResolveMode, at: Seq<char>, form: Form) {
        reveal_strlit("eager");
        reveal_strlit("lazy");
        assert("eager"@.len() == 5);
        assert("lazy"@.len() == 4);
    }

    proof fn law_fits(m: ResolveMode, depth: nat) {
    }
}

/// Where a credential is fetched from.
#[derive(Debug, Clone, PartialEq)]
pub enum CredentialProvider {
    /// An HTTP endpoint.
    Http {
        endpoint: String,
    },
    /// A method of a credential sidecar.
    Sidecar {
        endpoint: String,
        method: String,
    },
}

/// What a value of [`CredentialProvider`] is.
#[verifier::ext_equal]
pub enum CredentialProviderModel {
    Http { endpoint: Seq<char> },
    Sidecar { endpoint: Seq<char>, method: Seq<char> },
}

impl Wire for CredentialProvider {
    type Model = CredentialProviderModel;

    open spec fn model(&self) -> CredentialProviderModel {
        match self {
            CredentialProvider::Http { endpoint } => CredentialProviderModel::Http {
                endpoint: endpoint.model(),
            },
            CredentialProvider::Sidecar { endpoint, method } => CredentialProviderModel::Sidecar {
                endpoint: endpoint.model(),
                method: method.model(),
            },
        }
    }

    open spec fn tree(m: CredentialProviderModel) -> JsonView {
        match m {
            CredentialProviderModel::Http { endpoint } => {
                let o = Map::<Seq<char>, JsonView>::empty();
                let o = o.insert("type"@, JsonView::Text("http"@));
                let o = o.insert("endpoint"@, String::tree(endpoint));
                JsonView::Object(o)
            },
            CredentialProviderModel::Sidecar { endpoint, method } => {
                let o = Map::<Seq<char>, JsonView>::empty();
                let o = o.insert("type"@, JsonView::Text("sidecar"@));
                let o = o.insert("endpoint"@, String::tree(endpoint));
                let o = o.insert("method"@, String::tree(method));
                JsonView::Object(o)
            },
        }
    }

    open spec fn read(t: JsonView, at: Seq<char>, form: Form) -> Result<CredentialProviderModel, Fault> {
        let tag = wire::tag_in(t, "type"@, seq!["http"@, "sidecar"@], form);
        let t = wire::untagged(t);
        if !(t is Object || t is Array) {
            Err(Fault::Invalid(at))
        } else if tag is Err {
            Err(tag->Err_0)
        } else if tag->Ok_0 == "http"@ {
            let t = wire::unlisted(
                t,
                seq!["endpoint"@],
                1,
                Form::Buffered,
            );
            let endpoint = wire::read_required::<String>(t, "endpoint"@, Form::Buffered);
            if !(t is Object) {
                Err(Fault::Invalid(at))
            } else if endpoint is Err {
                Err(endpoint->Err_0)
            } else {
                Ok(CredentialProviderModel::Http {
                    endpoint: endpoint->Ok_0,
                })
            }
        } else if tag->Ok_0 == "sidecar"@ {
            let t = wire::unlisted(
                t,
                seq!["endpoint"@, "method"@],
                2,
                Form::Buffered,
            );
            let endpoint = wire::read_required::<String>(t, "endpoint"@, Form::Buffered);
            let method = wire::read_required::<String>(t, "method"@, Form::Buffered);
            if !(t is Object) {
                Err(Fault::Invalid(at))
            } else if endpoint is Err {
                Err(endpoint->Err_0)
            } else if method is Err {
                Err(method->Err_0)
            } else {
                Ok(CredentialProviderModel::Sidecar {
                    endpoint: endpoint->Ok_0,
                    method: method->Ok_0,
                })
            }
        } else {
            Err(Fault::Invalid("type"@))
        }
    }

    open spec fn lossless(m: CredentialProviderModel) -> bool {
        match m {
            CredentialProviderModel::Http { endpoint } => String::lossless(endpoint),
            CredentialProviderModel::Sidecar { endpoint, method } => String::lossless(endpoint) && String::lossless(method),
        }
    }

    open spec fn fits(m: CredentialProviderModel, depth: nat) -> bool {
        depth > 0 && match m {
            CredentialProviderModel::Http { endpoint } => String::fits(endpoint, (depth - 1) as nat),
            CredentialProviderModel::Sidecar { endpoint, method } => String::fits(endpoint, (depth - 1) as nat) && String::fits(method, (depth - 1) as nat),
        }
    }

    fn to_json(&self) -> (r: Json) {
        match self {
            CredentialProvider::Http { endpoint } => {
                let mut o = JsonObject::new();
                o.set("type", Json::text("http"));
                o.set("endpoint", endpoint.to_json());
                o.finish()
            },
            CredentialProvider::Sidecar { endpoint, method } => {
                let mut o = JsonObject::new();
                o.set("type", Json::text("sidecar"));
                o.set("endpoint", endpoint.to_json());
                o.set("method", method.to_json());
                o.finish()
            },
        }
    }

    fn from_json(j: &Json, at: &str, form: Form) -> (r: Result<CredentialProvider, DecodeError>) {
        if !j.is_object() && !j.is_array() {
            return Err(DecodeError::Invalid(at.to_owned()));
        }
        let names = ["http", "sidecar"];
        proof {
            assert(wire::strs(names@) =~= seq!["http"@, "sidecar"@]);
        }
        let tag = match wire::tag_of(j, "type", &names, form) {
            Ok(x) => x,
            Err(e) => return Err(e),
        };
        let rest = wire::untag(j);
        let j = match &rest {
            Some(o) => o,
            None => j,
        };
        if text::same(tag.as_str(), "http") {
            let names = ["endpoint"];
            let listed = wire::unlist(j, &names, 1, Form::Buffered);
            let j = match &listed {
                Some(o) => o,
                None => j,
            };
            proof {
                assert(wire::strs(names@) =~= seq!["endpoint"@]);
            }
            if !j.is_object() {
                return Err(DecodeError::Invalid(at.to_owned()));
            }
            let endpoint = match wire::required::<String>(j, "endpoint", Form::Buffered) {
                Ok(x) => x,
                Err(e) => return Err(e),
            };
            Ok(CredentialProvider::Http { endpoint })
        } else if text::same(tag.as_str(), "sidecar") {
            let names = ["endpoint", "method"];
            let listed = wire::unlist(j, &names, 2, Form::Buffered);
            let j = match &listed {
                Some(o) => o,
                None => j,
            };
            proof {
                assert(wire::strs(names@) =~= seq!["endpoint"@, "method"@]);
            }
            if !j.is_object() {
                return Err(DecodeError::Invalid(at.to_owned()));
            }
            let endpoint = match wire::required::<String>(j, "endpoint", Form::Buffered) {
                Ok(x) => x,
                Err(e) => return Err(e),
            };
            let method = match wire::required::<String>(j, "method", Form::Buffered) {
                Ok(x) => x,
                Err(e) => return Err(e),
            };
            Ok(CredentialProvider::Sidecar { endpoint, method })
        } else {
            Err(DecodeError::Invalid("type".to_owned()))
        }
    }

    proof fn law_reads_what_it_writes(m: CredentialProviderModel, at: Seq<char>, form: Form) {
        reveal_strlit("http");
        reveal_strlit("sidecar");
        assert("http"@.len() == 4);
        assert("sidecar"@.len() == 7);
        let t = CredentialProvider::tree(m);
        match m {
            CredentialProviderModel::Http { endpoint } => {
                reveal_strlit("type");
                reveal_strlit("endpoint");
                assert("type"@.len() == 4);
                assert("endpoint"@.len() == 8);
                String::law_reads_what_it_writes(endpoint, "endpoint"@, Form::Buffered);
                assert(t.field("type"@) == Some(JsonView::Text("http"@)));
                assert(t.field("endpoint"@) == Some(String::tree(endpoint)));
            },
            CredentialProviderModel::Sidecar { endpoint, method } => {
                reveal_strlit("type");
                reveal_strlit("endpoint");
                reveal_strlit("method");
                assert("type"@.len() == 4);
                assert("endpoint"@.len() == 8);
                assert("method"@.len() == 6);
                String::law_reads_what_it_writes(endpoint, "endpoint"@, Form::Buffered);
                String::law_reads_what_it_writes(method, "method"@, Form::Buffered);
                assert(t.field("type"@) == Some(JsonView::Text("sidecar"@)));
                assert(t.field("endpoint"@) == Some(String::tree(endpoint)));
                assert(t.field("method"@) == Some(String::tree(method)));
            },
        }
    }

    proof fn law_fits(m: CredentialProviderModel, depth: nat) {
        let inner = (depth - 1) as nat;
        match m {
            CredentialProviderModel::Http { endpoint } => {
                let o = Map::<Seq<char>, JsonView>::empty();
                let v = JsonView::Text("http"@);
                json::lemma_insert_within(o, "type"@, v, inner);
                let o = o.insert("type"@, v);
                String::law_fits(endpoint, inner);
                let v = String::tree(endpoint);
                json::lemma_insert_within(o, "endpoint"@, v, inner);
                let o = o.insert("endpoint"@, v);
            },
            CredentialProviderModel::Sidecar { endpoint, method } => {
                let o = Map::<Seq<char>, JsonView>::empty();
                let v = JsonView::Text("sidecar"@);
                json::lemma_insert_within(o, "type"@, v, inner);
                let o = o.insert("type"@, v);
                String::law_fits(endpoint, inner);
                let v = String::tree(endpoint);
                json::lemma_insert_within(o, "endpoint"@, v, inner);
                let o = o.insert("endpoint"@, v);
                String::law_fits(method, inner);
                let v = String::tree(method);
                json::lemma_insert_within(o, "method"@, v, inner);
                let o = o.insert("method"@, v);
            },
        }
    }
}

/// A credential that a task needs, and how to come by it. The agent stores none.
#[derive(Debug, Clone, PartialEq)]
pub struct CredentialRef {
    /// Name under which it reaches the task: an environment variable of a shell
    /// task, a key in the parameters of a sidecar task.
    pub name: String,
    /// When it is fetched.
    pub resolve: ResolveMode,
    /// Where it is fetched from.
    pub provider: CredentialProvider,
    /// What the provider wants to know.
    pub params: Option<Json>,
}

/// What a value of [`CredentialRef`] is.
#[verifier::ext_equal]
pub struct CredentialRefModel {
    pub name: Seq<char>,
    pub resolve: ResolveMode,
    pub provider: CredentialProviderModel,
    pub params: Option<JsonView>,
}

impl Wire for CredentialRef {
    type Model = CredentialRefModel;

    open spec fn model(&self) -> CredentialRefModel {
        CredentialRefModel {
            name: self.name.model(),
            resolve: self.resolve.model(),
            provider: self.provider.model(),
            params: wire::optional_model(self.params),
        }
    }

    open spec fn tree(m: CredentialRefModel) -> JsonView {
        let o = Map::<Seq<char>, JsonView>::empty();
        let o = o.insert("name"@, String::tree(m.name));
        let o = o.insert("resolve"@, ResolveMode::tree(m.resolve));
        let o = o.insert("provider"@, CredentialProvider::tree(m.provider));
        let o = wire::with_optional::<Json>(o, "params"@, m.params);
        JsonView::Object(o)
    }

    open spec fn read(t: JsonView, at: Seq<char>, form: Form) -> Result<CredentialRefModel, Fault> {
        let t = wire::unlisted(t, seq!["name"@, "resolve"@, "provider"@, "params"@], 3, form);
        let name = wire::read_required::<String>(t, "name"@, form);
        let resolve = wire::read_required::<ResolveMode>(t, "resolve"@, form);
        let provider = wire::read_required::<CredentialProvider>(t, "provider"@, form);
        let params = wire::read_optional::<Json>(t, "params"@, form);
        if !(t is Object) {
            Err(Fault::Invalid(at))
        } else if name is Err {
            Err(name->Err_0)
        } else if resolve is Err {
            Err(resolve->Err_0)
        } else if provider is Err {
            Err(provider->Err_0)
        } else if params is Err {
            Err(params->Err_0)
        } else {
            Ok(CredentialRefModel {
                name: name->Ok_0,
                resolve: resolve->Ok_0,
                provider: provider->Ok_0,
                params: params->Ok_0,
            })
        }
    }

    open spec fn lossless(m: CredentialRefModel) -> bool {
        &&& String::lossless(m.name)
        &&& ResolveMode::lossless(m.resolve)
        &&& CredentialProvider::lossless(m.provider)
        &&& wire::optional_lossless::<Json>(m.params)
    }

    open spec fn fits(m: CredentialRefModel, depth: nat) -> bool {
        &&& depth > 0
        &&& String::fits(m.name, (depth - 1) as nat)
        &&& ResolveMode::fits(m.resolve, (depth - 1) as nat)
        &&& CredentialProvider::fits(m.provider, (depth - 1) as nat)
        &&& wire::optional_fits::<Json>(m.params, (depth - 1) as nat)
    }

    fn to_json(&self) -> (r: Json) {
        let mut o = JsonObject::new();
        o.set("name", self.name.to_json());
        o.set("resolve", self.resolve.to_json());
        o.set("provider", self.provider.to_json());
        wire::set_optional(&mut o, "params", &self.params);
        o.finish()
    }

    fn from_json(j: &Json, at: &str, form: Form) -> (r: Result<CredentialRef, DecodeError>) {
        let names = ["name", "resolve", "provider", "params"];
        let listed = wire::unlist(j, &names, 3, form);
        let j = match &listed {
            Some(o) => o,
            None => j,
        };
        proof {
            assert(wire::strs(names@) =~= seq!["name"@, "resolve"@, "provider"@, "params"@]);
        }
        if !j.is_object() {
            return Err(DecodeError::Invalid(at.to_owned()));
        }
        let name = match wire::required::<String>(j, "name", form) {
            Ok(x) => x,
            Err(e) => return Err(e),
        };
        let resolve = match wire::required::<ResolveMode>(j, "resolve", form) {
            Ok(x) => x,
            Err(e) => return Err(e),
        };
        let provider = match wire::required::<CredentialProvider>(j, "provider", form) {
            Ok(x) => x,
            Err(e) => return Err(e),
        };
        let params = match wire::optional::<Json>(j, "params", form) {
            Ok(x) => x,
            Err(e) => return Err(e),
        };
        Ok(CredentialRef { name, resolve, provider, params })
    }

    proof fn law_reads_what_it_writes(m: CredentialRefModel, at: Seq<char>, form: Form) {
        reveal_strlit("name");
        reveal_strlit("resolve");
        reveal_strlit("provider");
        reveal_strlit("params");
        assert("name"@.len() == 4);
        assert("resolve"@.len() == 7);
        assert("provider"@.len() == 8);
        assert("params"@.len() == 6);
        String::law_reads_what_it_writes(m.name, "name"@, form);
        ResolveMode::law_reads_what_it_writes(m.resolve, "resolve"@, form);
        CredentialProvider::law_reads_what_it_writes(m.provider, "provider"@, form);
        wire::lemma_optional_reads_back::<Json>(m.params, "params"@, form);
        let t = CredentialRef::tree(m);
        assert(t.field("name"@) == Some(String::tree(m.name)));
        assert(t.field("resolve"@) == Some(ResolveMode::tree(m.resolve)));
        assert(t.field("provider"@) == Some(CredentialProvider::tree(m.provider)));
        assert(t.field("params"@) == wire::optional_tree::<Json>(m.params));
    }

    proof fn law_fits(m: CredentialRefModel, depth: nat) {
        let inner = (depth - 1) as nat;
        let o = Map::<Seq<char>, JsonView>::empty();
        String::law_fits(m.name, inner);
        let v = String::tree(m.name);
        json::lemma_insert_within(o, "name"@, v, inner);
        let o = o.insert("name"@, v);
        ResolveMode::law_fits(m.resolve, inner);
        let v = ResolveMode::tree(m.resolve);
        json::lemma_insert_within(o, "resolve"@, v, inner);
        let o = o.insert("resolve"@, v);
        CredentialProvider::law_fits(m.provider, inner);
        let v = CredentialProvider::tree(m.provider);
        json::lemma_insert_within(o, "provider"@, v, inner);
        let o = o.insert("provider"@, v);
        wire::lemma_optional_within::<Json>(o, "params"@, m.params, inner);
        let o = wire::with_optional::<Json>(o, "params"@, m.params);
    }
}

} // verus!
