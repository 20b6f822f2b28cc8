//! Authentication: the tokens of the agent, how it comes by them, and how long
//! they last.

use crate::agent::config;
use crate::agent::error::{joined, Error, ErrorModel};
use crate::agent::state;
use crate::json::{self, Json, JsonObject, JsonView};
use crate::wire::{self, DecodeError, Fault, Form, Wire};
use vstd::prelude::*;
use vstd::string::*;

verus! {

/// The auth provider's answer.
#[derive(Debug, Clone, PartialEq)]
pub struct TokenResponse {
    /// What authenticates a request.
    pub access_token: String,
    /// What buys new tokens.
    pub refresh_token: Option<String>,
    /// Seconds that the access token can be used.
    pub expires_in: Option<u64>,
    /// The kind of token.
    pub token_type: Option<String>,
}

/// What a value of [`TokenResponse`] is.
#[verifier::ext_equal]
pub struct TokenResponseModel {
    pub access_token: Seq<char>,
    pub refresh_token: Option<Seq<char>>,
    pub expires_in: Option<u64>,
    pub token_type: Option<Seq<char>>,
}

impl Wire for TokenResponse {
    type Model = TokenResponseModel;

    open spec fn model(&self) -> TokenResponseModel {
        TokenResponseModel {
            access_token: self.access_token.model(),
            refresh_token: wire::optional_model(self.refresh_token),
            expires_in: wire::optional_model(self.expires_in),
            token_type: wire::optional_model(self.token_type),
        }
    }

    open spec fn tree(m: TokenResponseModel) -> JsonView {
        let o = Map::<Seq<char>, JsonView>::empty();
        let o = o.insert("access_token"@, String::tree(m.access_token));
        let o = o.insert("refresh_token"@, wire::nullable_tree::<String>(m.refresh_token));
        let o = o.insert("expires_in"@, wire::nullable_tree::<u64>(m.expires_in));
        let o = o.insert("token_type"@, wire::nullable_tree::<String>(m.token_type));
        JsonView::Object(o)
    }

    open spec fn read(t: JsonView, at: Seq<char>, form: Form) -> Result<TokenResponseModel, Fault> {
        let t = wire::unlisted(
            t,
            seq!["access_token"@, "refresh_token"@, "expires_in"@, "token_type"@],
            1,
            form,
        );
        let access_token = wire::read_required::<String>(t, "access_token"@, form);
        let refresh_token = wire::read_optional::<String>(t, "refresh_token"@, form);
        let expires_in = wire::read_optional::<u64>(t, "expires_in"@, form);
        let token_type = wire::read_optional::<String>(t, "token_type"@, form);
        if !(t is Object) {
            Err(Fault::Invalid(at))
        } else if access_token is Err {
            Err(access_token->Err_0)
        } else if refresh_token is Err {
            Err(refresh_token->Err_0)
        } else if expires_in is Err {
            Err(expires_in->Err_0)
        } else if token_type is Err {
            Err(token_type->Err_0)
        } else {
            Ok(TokenResponseModel {
                access_token: access_token->Ok_0,
                refresh_token: refresh_token->Ok_0,
                expires_in: expires_in->Ok_0,
                token_type: token_type->Ok_0,
            })
        }
    }

    open spec fn lossless(m: TokenResponseModel) -> bool {
        &&& String::lossless(m.access_token)
        &&& wire::optional_lossless::<String>(m.refresh_token)
        &&& wire::optional_lossless::<u64>(m.expires_in)
        &&& wire::optional_lossless::<String>(m.token_type)
    }

    open spec fn fits(m: TokenResponseModel, depth: nat) -> bool {
        &&& depth > 0
        &&& String::fits(m.access_token, (depth - 1) as nat)
        &&& wire::optional_fits::<String>(m.refresh_token, (depth - 1) as nat)
        &&& wire::optional_fits::<u64>(m.expires_in, (depth - 1) as nat)
        &&& wire::optional_fits::<String>(m.token_type, (depth - 1) as nat)
    }

    fn to_json(&self) -> (r: Json) {
        let mut o = JsonObject::new();
        o.set("access_token", self.access_token.to_json());
        o.set("refresh_token", wire::nullable(&self.refresh_token));
        o.set("expires_in", wire::nullable(&self.expires_in));
        o.set("token_type", wire::nullable(&self.token_type));
        o.finish()
    }

    fn from_json(j: &Json, at: &str, form: Form) -> (r: Result<TokenResponse, DecodeError>) {
        let names = ["access_token", "refresh_token", "expires_in", "token_type"];
        let listed = wire::unlist(j, &names, 1, form);
        let j = match &listed {
            Some(o) => o,
            None => j,
        };
        proof {
            assert(wire::strs(names@) =~= seq![
                "access_token"@,
                "refresh_token"@,
                "expires_in"@,
                "token_type"@,
            ]);
        }
        if !j.is_object() {
            return Err(DecodeError::Invalid(at.to_owned()));
        }
        let access_token = match wire::required::<String>(j, "access_token", form) {
            Ok(x) => x,
            Err(e) => return Err(e),
        };
        let refresh_token = match wire::optional::<String>(j, "refresh_token", form) {
            Ok(x) => x,
            Err(e) => return Err(e),
        };
        let expires_in = match wire::optional::<u64>(j, "expires_in", form) {
            Ok(x) => x,
            Err(e) => return Err(e),
        };
        let token_type = match wire::optional::<String>(j, "token_type", form) {
            Ok(x) => x,
            Err(e) => return Err(e),
        };
        Ok(TokenResponse { access_token, refresh_token, expires_in, token_type })
    }

    proof fn law_reads_what_it_writes(m: TokenResponseModel, at: Seq<char>, form: Form) {
        reveal_strlit("access_token");
        reveal_strlit("refresh_token");
        reveal_strlit("expires_in");
        reveal_strlit("token_type");
        assert("access_token"@.len() == 12);
        assert("refresh_token"@.len() == 13);
        assert("expires_in"@.len() == 10);
        assert("token_type"@.len() == 10);
        assert("expires_in"@[0] != "token_type"@[0]);
        String::law_reads_what_it_writes(m.access_token, "access_token"@, form);
        wire::lemma_optional_reads_back::<String>(m.refresh_token, "refresh_token"@, form);
        wire::lemma_optional_reads_back::<u64>(m.expires_in, "expires_in"@, form);
        wire::lemma_optional_reads_back::<String>(m.token_type, "token_type"@, form);
        let t = TokenResponse::tree(m);
        assert(t.field("access_token"@) == Some(String::tree(m.access_token)));
        assert(t.field("refresh_token"@) == Some(wire::nullable_tree::<String>(m.refresh_token)));
        assert(t.field("expires_in"@) == Some(wire::nullable_tree::<u64>(m.expires_in)));
        assert(t.field("token_type"@) == Some(wire::nullable_tree::<String>(m.token_type)));
    }

    proof fn law_fits(m: TokenResponseModel, depth: nat) {
        let inner = (depth - 1) as nat;
        let o = Map::<Seq<char>, JsonView>::empty();
        String::law_fits(m.access_token, inner);
        let v = String::tree(m.access_token);
        json::lemma_insert_within(o, "access_token"@, v, inner);
        let o = o.insert("access_token"@, v);
        wire::lemma_nullable_within::<String>(m.refresh_token, inner);
        let v = wire::nullable_tree::<String>(m.refresh_token);
        json::lemma_insert_within(o, "refresh_token"@, v, inner);
        let o = o.insert("refresh_token"@, v);
        wire::lemma_nullable_within::<u64>(m.expires_in, inner);
        let v = wire::nullable_tree::<u64>(m.expires_in);
        json::lemma_insert_within(o, "expires_in"@, v, inner);
        let o = o.insert("expires_in"@, v);
        wire::lemma_nullable_within::<String>(m.token_type, inner);
        let v = wire::nullable_tree::<String>(m.token_type);
        json::lemma_insert_within(o, "token_type"@, v, inner);
        let o = o.insert("token_type"@, v);
    }
}

/// Tokens as they are kept.
#[derive(Debug, Clone, PartialEq)]
pub struct PersistedTokens {
    /// What authenticates a request.
    pub access_token: String,
    /// What buys new tokens.
    pub refresh_token: Option<String>,
    /// The second of the Unix epoch at which the access token ends.
    pub expires_at: Option<u64>,
}

/// What a value of [`PersistedTokens`] is.
#[verifier::ext_equal]
pub struct PersistedTokensModel {
    pub access_token: Seq<char>,
    pub refresh_token: Option<Seq<char>>,
    pub expires_at: Option<u64>,
}

impl Wire for PersistedTokens {
    type Model = PersistedTokensModel;

    open spec fn model(&self) -> PersistedTokensModel {
        PersistedTokensModel {
            access_token: self.access_token.model(),
            refresh_token: wire::optional_model(self.refresh_token),
            expires_at: wire::optional_model(self.expires_at),
        }
    }

    open spec fn tree(m: PersistedTokensModel) -> JsonView {
        let o = Map::<Seq<char>, JsonView>::empty();
        let o = o.insert("access_token"@, String::tree(m.access_token));
        let o = o.insert("refresh_token"@, wire::nullable_tree::<String>(m.refresh_token));
        let o = o.insert("expires_at"@, wire::nullable_tree::<u64>(m.expires_at));
        JsonView::Object(o)
    }

    open spec fn read(t: JsonView, at: Seq<char>, form: Form) -> Result<PersistedTokensModel, Fault> {
        let t = wire::unlisted(t, seq!["access_token"@, "refresh_token"@, "expires_at"@], 3, form);
        let access_token = wire::read_required::<String>(t, "access_token"@, form);
        let refresh_token = wire::read_optional::<String>(t, "refresh_token"@, form);
        let expires_at = wire::read_optional::<u64>(t, "expires_at"@, form);
        if !(t is Object) {
            Err(Fault::Invalid(at))
        } else if access_token is Err {
            Err(access_token->Err_0)
        } else if refresh_token is Err {
            Err(refresh_token->Err_0)
        } else if expires_at is Err {
            Err(expires_at->Err_0)
        } else {
            Ok(PersistedTokensModel {
                access_token: access_token->Ok_0,
                refresh_token: refresh_token->Ok_0,
                expires_at: expires_at->Ok_0,
            })
        }
    }

    open spec fn lossless(m: PersistedTokensModel) -> bool {
        &&& String::lossless(m.access_token)
        &&& wire::optional_lossless::<String>(m.refresh_token)
        &&& wire::optional_lossless::<u64>(m.expires_at)
    }

    open spec fn fits(m: PersistedTokensModel, depth: nat) -> bool {
        &&& depth > 0
        &&& String::fits(m.access_token, (depth - 1) as nat)
        &&& wire::optional_fits::<String>(m.refresh_token, (depth - 1) as nat)
        &&& wire::optional_fits::<u64>(m.expires_at, (depth - 1) as nat)
    }

    fn to_json(&self) -> (r: Json) {
        let mut o = JsonObject::new();
        o.set("access_token", self.access_token.to_json());
        o.set("refresh_token", wire::nullable(&self.refresh_token));
        o.set("expires_at", wire::nullable(&self.expires_at));
        o.finish()
    }

    fn from_json(j: &Json, at: &str, form: Form) -> (r: Result<PersistedTokens, DecodeError>) {
        let names = ["access_token", "refresh_token", "expires_at"];
        let listed = wire::unlist(j, &names, 3, form);
        let j = match &listed {
            Some(o) => o,
            None => j,
        };
        proof {
            assert(wire::strs(names@) =~= seq!["access_token"@, "refresh_token"@, "expires_at"@]);
        }
        if !j.is_object() {
            return Err(DecodeError::Invalid(at.to_owned()));
        }
        let access_token = match wire::required::<String>(j, "access_token", form) {
            Ok(x) => x,
            Err(e) => return Err(e),
        };
        let refresh_token = match wire::optional::<String>(j, "refresh_token", form) {
            Ok(x) => x,
            Err(e) => return Err(e),
        };
        let expires_at = match wire::optional::<u64>(j, "expires_at", form) {
            Ok(x) => x,
            Err(e) => return Err(e),
        };
        Ok(PersistedTokens { access_token, refresh_token, expires_at })
    }

    proof fn law_reads_what_it_writes(m: PersistedTokensModel, at: Seq<char>, form: Form) {
        reveal_strlit("access_token");
        reveal_strlit("refresh_token");
        reveal_strlit("expires_at");
        assert("access_token"@.len() == 12);
        assert("refresh_token"@.len() == 13);
        assert("expires_at"@.len() == 10);
        String::law_reads_what_it_writes(m.access_token, "access_token"@, form);
        wire::lemma_optional_reads_back::<String>(m.refresh_token, "refresh_token"@, form);
        wire::lemma_optional_reads_back::<u64>(m.expires_at, "expires_at"@, form);
        let t = PersistedTokens::tree(m);
        assert(t.field("access_token"@) == Some(String::tree(m.access_token)));
        assert(t.field("refresh_token"@) == Some(wire::nullable_tree::<String>(m.refresh_token)));
        assert(t.field("expires_at"@) == Some(wire::nullable_tree::<u64>(m.expires_at)));
    }

    proof fn law_fits(m: PersistedTokensModel, depth: nat) {
        let inner = (depth - 1) as nat;
        let o = Map::<Seq<char>, JsonView>::empty();
        String::law_fits(m.access_token, inner);
        let v = String::tree(m.access_token);
        json::lemma_insert_within(o, "access_token"@, v, inner);
        let o = o.insert("access_token"@, v);
        wire::lemma_nullable_within::<String>(m.refresh_token, inner);
        let v = wire::nullable_tree::<String>(m.refresh_token);
        json::lemma_insert_within(o, "refresh_token"@, v, inner);
        let o = o.insert("refresh_token"@, v);
        wire::lemma_nullable_within::<u64>(m.expires_at, inner);
        let v = wire::nullable_tree::<u64>(m.expires_at);
        json::lemma_insert_within(o, "expires_at"@, v, inner);
        let o = o.insert("expires_at"@, v);
    }
}

/// The one-time key.
#[derive(Debug, Clone, PartialEq)]
pub struct BootstrapKey {
    /// The key.
    pub key: String,
    /// Where it was meant to be presented.
    pub auth_endpoint: String,
}

/// What a value of [`BootstrapKey`] is.
#[verifier::ext_equal]
pub struct BootstrapKeyModel {
    pub key: Seq<char>,
    pub auth_endpoint: Seq<char>,
}

impl Wire for BootstrapKey {
    type Model = BootstrapKeyModel;

    open spec fn model(&self) -> BootstrapKeyModel {
        BootstrapKeyModel {
            key: self.key.model(),
            auth_endpoint: self.auth_endpoint.model(),
        }
    }

    open spec fn tree(m: BootstrapKeyModel) -> JsonView {
        let o = Map::<Seq<char>, JsonView>::empty();
        let o = o.insert("key"@, String::tree(m.key));
        let o = o.insert("auth_endpoint"@, String::tree(m.auth_endpoint));
        JsonView::Object(o)
    }

    open spec fn read(t: JsonView, at: Seq<char>, form: Form) -> Result<BootstrapKeyModel, Fault> {
        let t = wire::unlisted(t, seq!["key"@, "auth_endpoint"@], 2, form);
        let key = wire::read_required::<String>(t, "key"@, form);
        let auth_endpoint = wire::read_required::<String>(t, "auth_endpoint"@, form);
        if !(t is Object) {
            Err(Fault::Invalid(at))
        } else if key is Err {
            Err(key->Err_0)
        } else if auth_endpoint is Err {
            Err(auth_endpoint->Err_0)
        } else {
            Ok(BootstrapKeyModel {
                key: key->Ok_0,
                auth_endpoint: auth_endpoint->Ok_0,
            })
        }
    }

    open spec fn lossless(m: BootstrapKeyModel) -> bool {
        &&& String::lossless(m.key)
        &&& String::lossless(m.auth_endpoint)
    }

    open spec fn fits(m: BootstrapKeyModel, depth: nat) -> bool {
        &&& depth > 0
        &&& String::fits(m.key, (depth - 1) as nat)
        &&& String::fits(m.auth_endpoint, (depth - 1) as nat)
    }

    fn to_json(&self) -> (r: Json) {
        let mut o = JsonObject::new();
        o.set("key", self.key.to_json());
        o.set("auth_endpoint", self.auth_endpoint.to_json());
        o.finish()
    }

    fn from_json(j: &Json, at: &str, form: Form) -> (r: Result<BootstrapKey, DecodeError>) {
        let names = ["key", "auth_endpoint"];
        let listed = wire::unlist(j, &names, 2, form);
        let j = match &listed {
            Some(o) => o,
            None => j,
        };
        proof {
            assert(wire::strs(names@) =~= seq!["key"@, "auth_endpoint"@]);
        }
        if !j.is_object() {
            return Err(DecodeError::Invalid(at.to_owned()));
        }
        let key = match wire::required::<String>(j, "key", form) {
            Ok(x) => x,
            Err(e) => return Err(e),
        };
        let auth_endpoint = match wire::required::<String>(j, "auth_endpoint", form) {
            Ok(x) => x,
            Err(e) => return Err(e),
        };
        Ok(BootstrapKey { key, auth_endpoint })
    }

    proof fn law_reads_what_it_writes(m: BootstrapKeyModel, at: Seq<char>, form: Form) {
        reveal_strlit("key");
        reveal_strlit("auth_endpoint");
        assert("key"@.len() == 3);
        assert("auth_endpoint"@.len() == 13);
        String::law_reads_what_it_writes(m.key, "key"@, form);
        String::law_reads_what_it_writes(m.auth_endpoint, "auth_endpoint"@, form);
        let t = BootstrapKey::tree(m);
        assert(t.field("key"@) == Some(String::tree(m.key)));
        assert(t.field("auth_endpoint"@) == Some(String::tree(m.auth_endpoint)));
    }

    proof fn law_fits(m: BootstrapKeyModel, depth: nat) {
        let inner = (depth - 1) as nat;
        let o = Map::<Seq<char>, JsonView>::empty();
        String::law_fits(m.key, inner);
        let v = String::tree(m.key);
        json::lemma_insert_within(o, "key"@, v, inner);
        let o = o.insert("key"@, v);
        String::law_fits(m.auth_endpoint, inner);
        let v = String::tree(m.auth_endpoint);
        json::lemma_insert_within(o, "auth_endpoint"@, v, inner);
        let o = o.insert("auth_endpoint"@, v);
    }
}

/// The one-time key file.
#[derive(Debug, Clone, PartialEq)]
pub struct BootstrapConfig {
    /// Section `bootstrap`.
    pub bootstrap: BootstrapKey,
}

/// What a value of [`BootstrapConfig`] is.
#[verifier::ext_equal]
pub struct BootstrapConfigModel {
    pub bootstrap: BootstrapKeyModel,
}

impl Wire for BootstrapConfig {
    type Model = BootstrapConfigModel;

    open spec fn model(&self) -> BootstrapConfigModel {
        BootstrapConfigModel {
            bootstrap: self.bootstrap.model(),
        }
    }

    open spec fn tree(m: BootstrapConfigModel) -> JsonView {
        let o = Map::<Seq<char>, JsonView>::empty();
        let o = o.insert("bootstrap"@, BootstrapKey::tree(m.bootstrap));
        JsonView::Object(o)
    }

    open spec fn read(t: JsonView, at: Seq<char>, form: Form) -> Result<BootstrapConfigModel, Fault> {
        let t = wire::unlisted(t, seq!["bootstrap"@], 1, form);
        let bootstrap = wire::read_required::<BootstrapKey>(t, "bootstrap"@, form);
        if !(t is Object) {
            Err(Fault::Invalid(at))
        } else if bootstrap is Err {
            Err(bootstrap->Err_0)
        } else {
            Ok(BootstrapConfigModel {
                bootstrap: bootstrap->Ok_0,
            })
        }
    }

    open spec fn lossless(m: BootstrapConfigModel) -> bool {
        &&& BootstrapKey::lossless(m.bootstrap)
    }

    open spec fn fits(m: BootstrapConfigModel, depth: nat) -> bool {
        &&& depth > 0
        &&& BootstrapKey::fits(m.bootstrap, (depth - 1) as nat)
    }

    fn to_json(&self) -> (r: Json) {
        let mut o = JsonObject::new();
        o.set("bootstrap", self.bootstrap.to_json());
        o.finish()
    }

    fn from_json(j: &Json, at: &str, form: Form) -> (r: Result<BootstrapConfig, DecodeError>) {
        let names = ["bootstrap"];
        let listed = wire::unlist(j, &names, 1, form);
        let j = match &listed {
            Some(o) => o,
            None => j,
        };
        proof {
            assert(wire::strs(names@) =~= seq!["bootstrap"@]);
        }
        if !j.is_object() {
            return Err(DecodeError::Invalid(at.to_owned()));
        }
        let bootstrap = match wire::required::<BootstrapKey>(j, "bootstrap", form) {
            Ok(x) => x,
            Err(e) => return Err(e),
        };
        Ok(BootstrapConfig { bootstrap })
    }

    proof fn law_reads_what_it_writes(m: BootstrapConfigModel, at: Seq<char>, form: Form) {
        reveal_strlit("bootstrap");
        assert("bootstrap"@.len() == 9);
        BootstrapKey::law_reads_what_it_writes(m.bootstrap, "bootstrap"@, form);
        let t = BootstrapConfig::tree(m);
        assert(t.field("bootstrap"@) == Some(BootstrapKey::tree(m.bootstrap)));
    }

    proof fn law_fits(m: BootstrapConfigModel, depth: nat) {
        let inner = (depth - 1) as nat;
        let o = Map::<Seq<char>, JsonView>::empty();
        BootstrapKey::law_fits(m.bootstrap, inner);
        let v = BootstrapKey::tree(m.bootstrap);
        json::lemma_insert_within(o, "bootstrap"@, v, inner);
        let o = o.insert("bootstrap"@, v);
    }
}

/// Where the one-time key is.
pub const BOOTSTRAP_PATH: &'static str = "/etc/vasal/onetimeauth.toml";

/// How many seconds before its end a token is no longer used.
pub const EXPIRY_MARGIN_SEC: u64 = 30;

/// What is stored of an answer that came at `now`, in seconds. The sum wraps at
/// the end of the range.
pub open spec fn issued(m: TokenResponseModel, now: u64) -> PersistedTokensModel {
    PersistedTokensModel {
        access_token: m.access_token,
        refresh_token: m.refresh_token,
        expires_at: match m.expires_in {
            Some(secs) => Some(now.wrapping_add(secs)),
            None => None,
        },
    }
}

/// The access token that can be used at `now`: the stored one, unless it ends
/// within the margin.
pub open spec fn token_at(tokens: Option<PersistedTokensModel>, now: u64) -> Option<Seq<char>> {
    match tokens {
        None => None,
        Some(t) => match t.expires_at {
            Some(end) => if now.wrapping_add(EXPIRY_MARGIN_SEC) >= end {
                None
            } else {
                Some(t.access_token)
            },
            None => Some(t.access_token),
        },
    }
}

/// The refresh token that is stored.
pub open spec fn refresh_of(tokens: Option<PersistedTokensModel>) -> Option<Seq<char>> {
    match tokens {
        Some(t) => t.refresh_token,
        None => None,
    }
}

/// What is stored after a refresh: what came, with the refresh token that was
/// sent where none came.
pub open spec fn refreshed(sent: Seq<char>, m: TokenResponseModel, now: u64) -> PersistedTokensModel {
    let t = issued(m, now);
    PersistedTokensModel {
        refresh_token: match t.refresh_token {
            Some(s) => Some(s),
            None => Some(sent),
        },
        ..t
    }
}

/// What the auth provider's answer comes to, by what was asked of it.
pub open spec fn token_answer(
    what: Seq<char>,
    code: u16,
    status: Seq<char>,
    parsed: Result<JsonView, Seq<char>>,
) -> Result<TokenResponseModel, ErrorModel> {
    if !(200 <= code < 300) {
        Err(ErrorModel::Auth(what + " returned HTTP "@ + status))
    } else {
        match wire::decoded::<TokenResponse>(parsed, "response"@) {
            Ok(m) => Ok(m),
            Err(_) => Err(ErrorModel::Http("error decoding response body"@)),
        }
    }
}

/// Judges the auth provider's answer whose JSON has been read.
pub fn judge_token_answer(
    what: &str,
    code: u16,
    status: &str,
    parsed: Result<Json, String>,
) -> (r: Result<TokenResponse, Error>)
    ensures
        match token_answer(what@, code, status@, wire::parsed_view(parsed)) {
            Ok(m) => r is Ok && r->Ok_0.model() == m,
            Err(e) => r is Err && r->Err_0@ == e,
        },
{
    if !(200 <= code && code < 300) {
        let mut s: String = joined(what, " returned HTTP ");
        s.append(status);
        return Err(Error::Auth(s));
    }
    match wire::decode_parsed::<TokenResponse>(parsed, "response") {
        Ok(m) => Ok(m),
        Err(_) => Err(Error::Http("error decoding response body".to_owned())),
    }
}

/// Reads the auth provider's answer.
pub fn read_token_answer(what: &str, code: u16, status: &str, body: &[u8]) -> (r: Result<
    TokenResponse,
    Error,
>)
    ensures
        match token_answer(what@, code, status@, json::parsed_bytes(body@)) {
            Ok(m) => r is Ok && r->Ok_0.model() == m,
            Err(e) => r is Err && r->Err_0@ == e,
        },
{
    judge_token_answer(what, code, status, json::parse_bytes(body))
}

/// The end of a token that is issued at `now`, where it has one.
fn end_of(resp: &TokenResponse, now: u64) -> (r: Option<u64>)
    ensures
        r == issued(resp.model(), now).expires_at,
{
    match resp.expires_in {
        Some(secs) => Some(now.wrapping_add(secs)),
        None => None,
    }
}

/// The tokens of the agent, if it has any.
#[derive(Debug)]
pub struct TokenStore {
    tokens: Option<PersistedTokens>,
}

impl View for TokenStore {
    type V = Option<PersistedTokensModel>;

    closed spec fn view(&self) -> Option<PersistedTokensModel> {
        wire::optional_model(self.tokens)
    }
}

impl TokenStore {
    /// A store without tokens.
    pub fn empty() -> (r: TokenStore)
        ensures
            r@ is None,
    {
        TokenStore { tokens: None }
    }

    /// A store with the given tokens.
    pub fn with_tokens(tokens: PersistedTokens) -> (r: TokenStore)
        ensures
            r@ == Some(tokens.model()),
    {
        TokenStore { tokens: Some(tokens) }
    }

    /// The store for an answer that came at `now`, in seconds.
    pub fn from_response_at(resp: TokenResponse, now: u64) -> (r: TokenStore)
        ensures
            r@ == Some(issued(resp.model(), now)),
    {
        let expires_at: Option<u64> = end_of(&resp, now);
        TokenStore {
            tokens: Some(
                PersistedTokens {
                    access_token: resp.access_token,
                    refresh_token: resp.refresh_token,
                    expires_at,
                },
            ),
        }
    }

    /// The store for an answer that came just now.
    pub fn from_response(resp: TokenResponse) -> (r: TokenStore)
        ensures
            exists|now: u64| r@ == Some(#[trigger] issued(resp.model(), now)),
    {
        let now: u64 = state::now_sec();
        let r = TokenStore::from_response_at(resp, now);
        assert(r@ == Some(issued(resp.model(), now)));
        r
    }

    /// What the text of a token file comes to, by its JSON.
    pub open spec fn loaded(parsed: Result<JsonView, Seq<char>>) -> Option<PersistedTokensModel> {
        match wire::decoded::<PersistedTokens>(parsed, "tokens"@) {
            Ok(m) => Some(m),
            Err(_) => None,
        }
    }

    /// Takes the tokens out of a token file whose JSON has been read.
    pub fn from_parsed(parsed: Result<Json, String>) -> (r: Option<TokenStore>)
        ensures
            match TokenStore::loaded(wire::parsed_view(parsed)) {
                Some(m) => r is Some && r->0@ == Some(m),
                None => r is None,
            },
    {
        match wire::decode_parsed::<PersistedTokens>(parsed, "tokens") {
            Ok(tokens) => Some(TokenStore { tokens: Some(tokens) }),
            Err(_) => None,
        }
    }

    /// Takes the tokens out of the text of a token file.
    pub fn load(content: &str) -> (r: Option<TokenStore>)
        ensures
            match TokenStore::loaded(json::parsed_text(content@)) {
                Some(m) => r is Some && r->0@ == Some(m),
                None => r is None,
            },
    {
        TokenStore::from_parsed(json::parse_text(content))
    }

    /// The text of the token file, where there are tokens to keep. Reading it
    /// gives them back.
    pub fn save(&self) -> (r: Option<String>)
        ensures
            match self@ {
                Some(m) => r is Some && r->0@ == json::pretty_text(PersistedTokens::tree(m))
                    && TokenStore::loaded(json::parsed_text(r->0@)) == Some(m),
                None => r is None,
            },
    {
        match &self.tokens {
            Some(t) => {
                let text = wire::encode_text_pretty(t);
                proof {
                    assert(wire::decoded::<PersistedTokens>(json::parsed_text(text@), "tokens"@)
                        == Ok::<PersistedTokensModel, Seq<char>>(t.model()));
                }
                Some(text)
            },
            None => None,
        }
    }

    /// The access token that can be used at `now`, in seconds.
    pub fn access_token_at(&self, now: u64) -> (r: Option<String>)
        ensures
            state::optional_text(r) == token_at(self@, now),
    {
        match &self.tokens {
            None => None,
            Some(t) => {
                if let Some(end) = t.expires_at {
                    if now.wrapping_add(EXPIRY_MARGIN_SEC) >= end {
                        return None;
                    }
                }
                Some(t.access_token.clone())
            },
        }
    }

    /// The access token that can be used now.
    pub fn access_token(&self) -> (r: Option<String>)
        ensures
            exists|now: u64| state::optional_text(r) == #[trigger] token_at(self@, now),
    {
        let now: u64 = state::now_sec();
        let r = self.access_token_at(now);
        assert(state::optional_text(r) == token_at(self@, now));
        r
    }

    /// The refresh token that a refresh presents, or the error that there is
    /// none.
    pub fn refresh_token(&self) -> (r: Result<String, Error>)
        ensures
            match refresh_of(self@) {
                Some(s) => r is Ok && r->Ok_0@ == s,
                None => r is Err && r->Err_0@ == ErrorModel::Auth("no refresh token available"@),
            },
    {
        if let Some(t) = &self.tokens {
            if let Some(s) = &t.refresh_token {
                return Ok(s.clone());
            }
        }
        Err(Error::Auth("no refresh token available".to_owned()))
    }

    /// Whether the tokens are to be refreshed at `now`: the access token is
    /// about to end, and there is a refresh token.
    pub open spec fn due(tokens: Option<PersistedTokensModel>, now: u64) -> bool {
        token_at(tokens, now) is None && refresh_of(tokens) is Some
    }

    /// Whether the tokens are to be refreshed at `now`, in seconds.
    pub fn refresh_due_at(&self, now: u64) -> (r: bool)
        ensures
            r == TokenStore::due(self@, now),
    {
        self.access_token_at(now).is_none() && self.refresh_token().is_ok()
    }

    /// Takes in the answer to a refresh that presented `sent`. A refresh that
    /// failed leaves the tokens as they are.
    pub fn on_refreshed_at(
        &mut self,
        sent: String,
        answer: Result<TokenResponse, Error>,
        now: u64,
    ) -> (r: Result<(), Error>)
        ensures
            match answer {
                Ok(resp) => r is Ok && final(self)@ == Some(refreshed(sent@, resp.model(), now)),
                Err(e) => r is Err && r->Err_0@ == e@ && final(self)@ == old(self)@,
            },
    {
        match answer {
            Ok(resp) => {
                let expires_at: Option<u64> = end_of(&resp, now);
                let refresh_token = match resp.refresh_token {
                    Some(s) => Some(s),
                    None => Some(sent),
                };
                self.tokens = Some(
                    PersistedTokens { access_token: resp.access_token, refresh_token, expires_at },
                );
                Ok(())
            },
            Err(e) => Err(e),
        }
    }
}

/// The request that presents a grant.
pub open spec fn grant_tree(grant: Seq<char>, key: Seq<char>, value: Seq<char>) -> JsonView {
    JsonView::Object(
        Map::<Seq<char>, JsonView>::empty().insert("grant_type"@, JsonView::Text(grant)).insert(
            key,
            JsonView::Text(value),
        ),
    )
}

/// The body of the request that presents a refresh token.
pub fn refresh_request(refresh_token: &str) -> (r: Json)
    ensures
        r@ == grant_tree("refresh_token"@, "refresh_token"@, refresh_token@),
{
    let mut o = JsonObject::new();
    o.set("grant_type", Json::text("refresh_token"));
    o.set("refresh_token", Json::text(refresh_token));
    o.finish()
}

/// The body of the request that presents the one-time key.
pub fn key_request(key: &str) -> (r: Json)
    ensures
        r@ == grant_tree("one_time_key"@, "key"@, key@),
{
    let mut o = JsonObject::new();
    o.set("grant_type", Json::text("one_time_key"));
    o.set("key", Json::text(key));
    o.finish()
}

/// What the one-time key file comes to: the request that presents the key, or
/// the error.
pub open spec fn bootstrap_outcome(parsed: Result<JsonView, Seq<char>>) -> Result<
    JsonView,
    ErrorModel,
> {
    match wire::decoded_in::<BootstrapConfig>(parsed, "bootstrap config"@, Form::Toml) {
        Ok(m) => Ok(grant_tree("one_time_key"@, "key"@, m.bootstrap.key)),
        Err(e) => Err(ErrorModel::Auth("failed to parse bootstrap config: "@ + e)),
    }
}

/// Makes the request that presents the one-time key, from a key file whose TOML
/// has been read.
pub fn bootstrap_parsed(parsed: Result<Json, String>) -> (r: Result<Json, Error>)
    ensures
        match bootstrap_outcome(wire::parsed_view(parsed)) {
            Ok(t) => r is Ok && r->Ok_0@ == t,
            Err(e) => r is Err && r->Err_0@ == e,
        },
{
    match wire::decode_parsed_in::<BootstrapConfig>(parsed, "bootstrap config", Form::Toml) {
        Ok(config) => Ok(key_request(config.bootstrap.key.as_str())),
        Err(e) => Err(Error::Auth(joined("failed to parse bootstrap config: ", e.as_str()))),
    }
}

/// Makes the request that presents the one-time key, from the text of the key
/// file.
pub fn bootstrap_request(content: &str) -> (r: Result<Json, Error>)
    ensures
        match bootstrap_outcome(config::parsed_toml(content@)) {
            Ok(t) => r is Ok && r->Ok_0@ == t,
            Err(e) => r is Err && r->Err_0@ == e,
        },
{
    bootstrap_parsed(config::parse_toml(content))
}

/// The error that the key file could not be read.
pub fn bootstrap_unreadable(path: &str, complaint: &str) -> (r: Error)
    ensures
        r@ == ErrorModel::Auth("failed to read bootstrap config "@ + path@ + ": "@ + complaint@),
{
    let mut s: String = joined("failed to read bootstrap config ", path);
    s.append(": ");
    s.append(complaint);
    Error::Auth(s)
}

/// How the agent comes by its tokens.
#[derive(Debug)]
pub enum AuthStart {
    /// They were kept from before.
    Kept(AuthManager),
    /// The one-time key buys them.
    Bootstrap,
    /// There are none.
    Unauthenticated(AuthManager),
}

/// Decides how the agent comes by its tokens: from the token file, if there is
/// one that holds tokens; else for the one-time key, if there is one.
pub fn start(token_file: Option<String>, key_file_exists: bool) -> (r: AuthStart)
    ensures
        match (match token_file {
            Some(text) => TokenStore::loaded(json::parsed_text(text@)),
            None => None,
        }) {
            Some(m) => r matches AuthStart::Kept(auth) && auth@ == Some(m),
            None => if key_file_exists {
                r is Bootstrap
            } else {
                r matches AuthStart::Unauthenticated(auth) && auth@ is None
            },
        },
{
    if let Some(text) = token_file {
        if let Some(store) = TokenStore::load(text.as_str()) {
            return AuthStart::Kept(AuthManager { token_store: store });
        }
    }
    if key_file_exists {
        AuthStart::Bootstrap
    } else {
        AuthStart::Unauthenticated(AuthManager { token_store: TokenStore::empty() })
    }
}

/// What authenticates the agent to the control plane.
#[derive(Debug)]
pub struct AuthManager {
    token_store: TokenStore,
}

impl View for AuthManager {
    type V = Option<PersistedTokensModel>;

    closed spec fn view(&self) -> Option<PersistedTokensModel> {
        self.token_store@
    }
}

impl AuthManager {
    /// Authenticates by the tokens of a store.
    pub fn new(token_store: TokenStore) -> (r: AuthManager)
        ensures
            r@ == token_store@,
    {
        AuthManager { token_store }
    }

    /// The tokens.
    pub fn token_store(&self) -> (r: &TokenStore)
        ensures
            r@ == self@,
    {
        &self.token_store
    }

    /// The access token that can be used now.
    pub fn access_token(&self) -> (r: Option<String>)
        ensures
            exists|now: u64| state::optional_text(r) == #[trigger] token_at(self@, now),
    {
        let now: u64 = state::now_sec();
        let r = self.token_store.access_token_at(now);
        assert(state::optional_text(r) == token_at(self@, now));
        r
    }

    /// The value of the `Authorization` header of a request made at `now`, in
    /// seconds, if the request is to have one.
    pub fn authorization_at(&self, now: u64) -> (r: Option<String>)
        ensures
            match token_at(self@, now) {
                Some(t) => r is Some && r->0@ == "Bearer "@ + t,
                None => r is None,
            },
    {
        match self.token_store.access_token_at(now) {
            Some(t) => Some(joined("Bearer ", t.as_str())),
            None => None,
        }
    }

    /// Takes in the answer to a refresh that presented `sent`.
    pub fn on_refreshed_at(
        &mut self,
        sent: String,
        answer: Result<TokenResponse, Error>,
        now: u64,
    ) -> (r: Result<(), Error>)
        ensures
            match answer {
                Ok(resp) => r is Ok && final(self)@ == Some(refreshed(sent@, resp.model(), now)),
                Err(e) => r is Err && r->Err_0@ == e@ && final(self)@ == old(self)@,
            },
    {
        self.token_store.on_refreshed_at(sent, answer, now)
    }
}

/// A token that has just been issued can be used until the margin before its
/// end, and no longer; one without an end can always be used.
pub proof fn law_token_is_usable_until_its_margin(m: TokenResponseModel, issued_at: u64, now: u64)
    requires
        m.expires_in matches Some(secs) ==> issued_at + secs <= u64::MAX,
        now + EXPIRY_MARGIN_SEC <= u64::MAX,
    ensures
        token_at(Some(issued(m, issued_at)), now) is Some <==> match m.expires_in {
            Some(secs) => now + EXPIRY_MARGIN_SEC < issued_at + secs,
            None => true,
        },
        token_at(Some(issued(m, issued_at)), now) matches Some(t) ==> t == m.access_token,
{
}

/// A refresh never loses the refresh token.
pub proof fn law_refresh_keeps_a_refresh_token(sent: Seq<char>, m: TokenResponseModel, now: u64)
    ensures
        refresh_of(Some(refreshed(sent, m, now))) is Some,
        m.refresh_token is None ==> refresh_of(Some(refreshed(sent, m, now))) == Some(sent),
{
}

/// What is stored of an answer is what came: both tokens as they are, and the end
/// counted from the moment of the answer, where the token has one.
pub proof fn law_tokens_are_stored_as_issued(m: TokenResponseModel, now: u64)
    ensures
        ({
            let t = issued(m, now);
            &&& t.access_token == m.access_token
            &&& t.refresh_token == m.refresh_token
            &&& t.expires_at is Some <==> m.expires_in is Some
            &&& m.expires_in matches Some(secs) ==> now + secs <= u64::MAX ==> t.expires_at->0
                == now + secs
        }),
{
}

/// An access token is handed out exactly as long as it has more than thirty
/// seconds to go, or no end at all; what is handed out is the stored one. From
/// then on it is to be refreshed, exactly where there is a refresh token.
pub proof fn law_token_is_handed_out_until_half_a_minute_before_its_end(
    tokens: Option<PersistedTokensModel>,
    now: u64,
)
    requires
        now + 30 <= u64::MAX,
    ensures
        ({
            let usable = tokens is Some && (tokens->0.expires_at is None || now + 30
                < tokens->0.expires_at->0);
            &&& token_at(tokens, now) is Some <==> usable
            &&& usable ==> token_at(tokens, now) == Some(tokens->0.access_token)
            &&& TokenStore::due(tokens, now) <==> !usable && tokens is Some
                && tokens->0.refresh_token is Some
            &&& refresh_of(tokens) == (if tokens is Some {
                tokens->0.refresh_token
            } else {
                None
            })
        }),
{
}

/// A refresh takes over the tokens that came, with their end; the refresh token
/// that was sent stays in use exactly where no other came.
pub proof fn law_refresh_takes_over_what_came(sent: Seq<char>, m: TokenResponseModel, now: u64)
    ensures
        ({
            let t = refreshed(sent, m, now);
            &&& t.access_token == m.access_token
            &&& t.expires_at is Some <==> m.expires_in is Some
            &&& m.expires_in matches Some(secs) ==> now + secs <= u64::MAX ==> t.expires_at->0
                == now + secs
            &&& t.refresh_token == (if m.refresh_token is Some {
                m.refresh_token
            } else {
                Some(sent)
            })
        }),
{
}

/// The auth provider's answer holds tokens exactly where it reports success and
/// its body can be read as tokens; otherwise the error says what was asked and
/// what was answered.
pub proof fn law_token_answers(
    what: Seq<char>,
    code: u16,
    status: Seq<char>,
    parsed: Result<JsonView, Seq<char>>,
)
    ensures
        ({
            let r = token_answer(what, code, status, parsed);
            let read = wire::decoded::<TokenResponse>(parsed, "response"@);
            &&& r is Ok <==> 200 <= code < 300 && read is Ok
            &&& r is Ok ==> r->Ok_0 == read->Ok_0
            &&& !(200 <= code < 300) ==> r->Err_0 == ErrorModel::Auth(
                what + " returned HTTP "@ + status,
            )
            &&& 200 <= code < 300 && r is Err ==> r->Err_0 == ErrorModel::Http(
                "error decoding response body"@,
            )
        }),
{
}

/// A request for tokens says what kind of grant it presents and presents it under
/// its own name; it holds nothing else.
pub proof fn law_grant_is_presented_under_its_name(
    grant: Seq<char>,
    key: Seq<char>,
    value: Seq<char>,
    other: Seq<char>,
)
    requires
        key != "grant_type"@,
        other != key,
        other != "grant_type"@,
    ensures
        grant_tree(grant, key, value).field("grant_type"@) == Some(JsonView::Text(grant)),
        grant_tree(grant, key, value).field(key) == Some(JsonView::Text(value)),
        grant_tree(grant, key, value).field(other) is None,
{
}

/// The one-time key file is good exactly where it can be read as one, and then
/// the key itself is presented.
pub proof fn law_one_time_key_is_presented(parsed: Result<JsonView, Seq<char>>)
    ensures
        ({
            let r = bootstrap_outcome(parsed);
            let read = wire::decoded_in::<BootstrapConfig>(
                parsed,
                "bootstrap config"@,
                Form::Toml,
            );
            &&& r is Ok <==> read is Ok
            &&& r is Ok ==> r->Ok_0.field("key"@) == Some(JsonView::Text(read->Ok_0.bootstrap.key))
                && r->Ok_0.field("grant_type"@) == Some(JsonView::Text("one_time_key"@))
            &&& r is Err ==> r->Err_0 == ErrorModel::Auth(
                "failed to parse bootstrap config: "@ + read->Err_0,
            )
        }),
{
    reveal_strlit("grant_type");
    reveal_strlit("key");
    assert("grant_type"@.len() == 10);
    assert("key"@.len() == 3);
}

} // verus!
