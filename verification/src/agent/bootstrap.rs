//! Trading the one-time key for tokens.
//!
//! [`Bootstrap`] decides; whoever drives it does what it asks for and reports
//! back with [`Bootstrap::on_event`].

use crate::agent::auth::{
    self, bootstrap_request, bootstrap_unreadable, read_token_answer, AuthManager, PersistedTokens,
    PersistedTokensModel, TokenStore, BOOTSTRAP_PATH,
};
use crate::agent::config;
use crate::agent::error::{Error, ErrorModel};
use crate::json::{self, Json, JsonView};
use crate::wire::Wire;
use vstd::prelude::*;
use vstd::string::*;

verus! {

/// Where the trade stands.
#[derive(Debug, Clone, Copy, PartialEq, Eq, Structural)]
pub enum BootstrapPhase {
    ReadingKey,
    Asking,
    Saving,
    RemovingKey,
    Over,
}

/// What is to be done next.
#[derive(Debug)]
pub enum BootstrapAction {
    /// Read the key file.
    ReadKey,
    /// Post this to the auth provider.
    Post(Json),
    /// Write this to the token file.
    SaveTokens(String),
    /// Remove the key file.
    RemoveKey,
    /// Nothing more.
    Finish,
}

/// What a value of [`BootstrapAction`] is.
#[verifier::ext_equal]
pub enum BootstrapActionModel {
    ReadKey,
    Post(JsonView),
    SaveTokens(Seq<char>),
    RemoveKey,
    Finish,
}

impl View for BootstrapAction {
    type V = BootstrapActionModel;

    open spec fn view(&self) -> BootstrapActionModel {
        match self {
            BootstrapAction::ReadKey => BootstrapActionModel::ReadKey,
            BootstrapAction::Post(j) => BootstrapActionModel::Post(j@),
            BootstrapAction::SaveTokens(s) => BootstrapActionModel::SaveTokens(s@),
            BootstrapAction::RemoveKey => BootstrapActionModel::RemoveKey,
            BootstrapAction::Finish => BootstrapActionModel::Finish,
        }
    }
}

/// What came of it.
#[derive(Debug)]
pub enum BootstrapEvent {
    KeyRead(String),
    KeyUnreadable { complaint: String },
    Answered { code: u16, status: String, body: Vec<u8> },
    Saved,
    Removed,
    Failed(Error),
}

/// Where the trade stands, in full: the phase, the tokens that came, and how it
/// ended.
#[verifier::ext_equal]
pub struct BootstrapState {
    pub phase: BootstrapPhase,
    pub tokens: Option<PersistedTokensModel>,
    pub outcome: Option<Result<(), ErrorModel>>,
}

/// A trade that has not begun.
pub open spec fn bootstrap_start() -> BootstrapState {
    BootstrapState { phase: BootstrapPhase::ReadingKey, tokens: None, outcome: None }
}

/// The end of the trade.
pub open spec fn traded(s: BootstrapState, outcome: Result<(), ErrorModel>) -> (
    BootstrapState,
    BootstrapActionModel,
) {
    (
        BootstrapState { phase: BootstrapPhase::Over, outcome: Some(outcome), ..s },
        BootstrapActionModel::Finish,
    )
}

/// Where an event at `now`, in seconds, takes the trade, and what is to be done
/// next. A key file that cannot be removed does not undo the trade. An event that
/// is not waited for changes nothing and asks for nothing.
pub open spec fn bootstrap_next(s: BootstrapState, event: BootstrapEvent, now: u64) -> (
    BootstrapState,
    BootstrapActionModel,
) {
    match (s.phase, event) {
        (BootstrapPhase::Over, _) => (s, BootstrapActionModel::Finish),
        (BootstrapPhase::RemovingKey, BootstrapEvent::Removed) => traded(s, Ok(())),
        (BootstrapPhase::RemovingKey, BootstrapEvent::Failed(_)) => traded(s, Ok(())),
        (_, BootstrapEvent::Failed(e)) => traded(s, Err(e@)),
        (BootstrapPhase::ReadingKey, BootstrapEvent::KeyUnreadable { complaint }) => traded(
            s,
            Err(
                ErrorModel::Auth(
                    "failed to read bootstrap config "@ + BOOTSTRAP_PATH@ + ": "@ + complaint@,
                ),
            ),
        ),
        (BootstrapPhase::ReadingKey, BootstrapEvent::KeyRead(content)) => {
            match auth::bootstrap_outcome(config::parsed_toml(content@)) {
                Ok(request) => (
                    BootstrapState { phase: BootstrapPhase::Asking, ..s },
                    BootstrapActionModel::Post(request),
                ),
                Err(e) => traded(s, Err(e)),
            }
        },
        (BootstrapPhase::Asking, BootstrapEvent::Answered { code, status, body }) => {
            match auth::token_answer(
                "bootstrap auth"@,
                code,
                status@,
                json::parsed_bytes(body@),
            ) {
                Ok(m) => {
                    let tokens = auth::issued(m, now);
                    (
                        BootstrapState {
                            phase: BootstrapPhase::Saving,
                            tokens: Some(tokens),
                            ..s
                        },
                        BootstrapActionModel::SaveTokens(
                            json::pretty_text(PersistedTokens::tree(tokens)),
                        ),
                    )
                },
                Err(e) => traded(s, Err(e)),
            }
        },
        (BootstrapPhase::Saving, BootstrapEvent::Saved) => (
            BootstrapState { phase: BootstrapPhase::RemovingKey, ..s },
            BootstrapActionModel::RemoveKey,
        ),
        _ => (s, BootstrapActionModel::Finish),
    }
}

/// What holds of the trade at every moment: there are tokens from the provider's
/// answer on, and it is over exactly when it has an outcome.
pub open spec fn bootstrap_inv(s: BootstrapState) -> bool {
    &&& s.phase == BootstrapPhase::Over <==> s.outcome is Some
    &&& (s.phase == BootstrapPhase::Saving || s.phase == BootstrapPhase::RemovingKey)
        ==> s.tokens is Some
    &&& s.outcome == Some(Ok::<(), ErrorModel>(())) ==> s.tokens is Some
}

/// A trade under way.
#[derive(Debug)]
pub struct Bootstrap {
    phase: BootstrapPhase,
    store: TokenStore,
    outcome: Option<Result<(), Error>>,
}

impl Bootstrap {
    /// Where it stands.
    pub closed spec fn state(&self) -> BootstrapState {
        BootstrapState {
            phase: self.phase,
            tokens: self.store@,
            outcome: match self.outcome {
                None => None,
                Some(Ok(_)) => Some(Ok(())),
                Some(Err(e)) => Some(Err(e@)),
            },
        }
    }

    /// Its invariant.
    pub open spec fn wf(&self) -> bool {
        bootstrap_inv(self.state())
    }

    /// A trade that begins with the key file.
    pub fn new() -> (r: (Bootstrap, BootstrapAction))
        ensures
            r.0.wf(),
            r.0.state() == bootstrap_start(),
            r.1 is ReadKey,
    {
        let run = Bootstrap {
            phase: BootstrapPhase::ReadingKey,
            store: TokenStore::empty(),
            outcome: None,
        };
        (run, BootstrapAction::ReadKey)
    }

    /// How it ended: with tokens to authenticate by, or with an error.
    pub fn into_manager(self) -> (r: Option<Result<AuthManager, Error>>)
        ensures
            match self.state().outcome {
                None => r is None,
                Some(Ok(_)) => r matches Some(Ok(auth)) && auth@ == self.state().tokens,
                Some(Err(e)) => r matches Some(Err(x)) && x@ == e,
            },
    {
        match self.outcome {
            None => None,
            Some(Ok(_)) => Some(Ok(AuthManager::new(self.store))),
            Some(Err(e)) => Some(Err(e)),
        }
    }

    /// Ends it.
    fn end(&mut self, outcome: Result<(), Error>) -> (r: BootstrapAction)
        ensures
            (final(self).state(), r@) == traded(
                old(self).state(),
                match outcome {
                    Ok(_) => Ok(()),
                    Err(e) => Err(e@),
                },
            ),
    {
        self.phase = BootstrapPhase::Over;
        self.outcome = Some(outcome);
        BootstrapAction::Finish
    }

    /// Takes note of what came of the latest action, at `now` in seconds, and
    /// says what is next. The token file that is written holds the tokens.
    pub fn on_event(&mut self, event: BootstrapEvent, now: u64) -> (r: BootstrapAction)
        requires
            old(self).wf(),
        ensures
            final(self).wf(),
            (final(self).state(), r@) == bootstrap_next(old(self).state(), event, now),
            r matches BootstrapAction::SaveTokens(text) ==> TokenStore::loaded(
                json::parsed_text(text@),
            ) == final(self).state().tokens,
    {
        match (self.phase, event) {
            (BootstrapPhase::Over, _) => BootstrapAction::Finish,
            (BootstrapPhase::RemovingKey, BootstrapEvent::Removed) => self.end(Ok(())),
            (BootstrapPhase::RemovingKey, BootstrapEvent::Failed(_)) => self.end(Ok(())),
            (_, BootstrapEvent::Failed(e)) => self.end(Err(e)),
            (BootstrapPhase::ReadingKey, BootstrapEvent::KeyUnreadable { complaint }) => {
                let e = bootstrap_unreadable(BOOTSTRAP_PATH, complaint.as_str());
                self.end(Err(e))
            },
            (BootstrapPhase::ReadingKey, BootstrapEvent::KeyRead(content)) => {
                match bootstrap_request(content.as_str()) {
                    Ok(request) => {
                        self.phase = BootstrapPhase::Asking;
                        BootstrapAction::Post(request)
                    },
                    Err(e) => self.end(Err(e)),
                }
            },
            (BootstrapPhase::Asking, BootstrapEvent::Answered { code, status, body }) => {
                match read_token_answer(
                    "bootstrap auth",
                    code,
                    status.as_str(),
                    body.as_slice(),
                ) {
                    Ok(response) => {
                        let store = TokenStore::from_response_at(response, now);
                        match store.save() {
                            Some(text) => {
                                self.store = store;
                                self.phase = BootstrapPhase::Saving;
                                BootstrapAction::SaveTokens(text)
                            },
                            None => BootstrapAction::Finish,
                        }
                    },
                    Err(e) => self.end(Err(e)),
                }
            },
            (BootstrapPhase::Saving, BootstrapEvent::Saved) => {
                self.phase = BootstrapPhase::RemovingKey;
                BootstrapAction::RemoveKey
            },
            _ => BootstrapAction::Finish,
        }
    }
}

/// The one-time key is given up only for tokens that have been saved; a trade
/// that fails never removes it.
pub proof fn law_key_is_kept_until_tokens_are_saved(
    s: BootstrapState,
    event: BootstrapEvent,
    now: u64,
)
    requires
        bootstrap_inv(s),
    ensures
        ({
            let (n, action) = bootstrap_next(s, event, now);
            &&& action is RemoveKey ==> s.phase == BootstrapPhase::Saving && event is Saved
                && s.tokens is Some
            &&& (s.outcome is None && n.outcome matches Some(Err(_))) ==> s.phase
                != BootstrapPhase::RemovingKey
            &&& n.outcome == Some(Ok::<(), ErrorModel>(())) && s.outcome is None ==> s.phase
                == BootstrapPhase::RemovingKey
        }),
{
}

/// Where a sequence of events, each with its time, takes the trade.
pub open spec fn bootstrap_after(events: Seq<(BootstrapEvent, u64)>) -> BootstrapState
    decreases events.len(),
{
    if events.len() == 0 {
        bootstrap_start()
    } else {
        bootstrap_next(
            bootstrap_after(events.drop_last()),
            events.last().0,
            events.last().1,
        ).0
    }
}

/// A trade that ends well leaves the agent with tokens, whatever happened on the
/// way.
pub proof fn law_bootstrap_ends_with_tokens(events: Seq<(BootstrapEvent, u64)>)
    ensures
        bootstrap_inv(bootstrap_after(events)),
        bootstrap_after(events).outcome == Some(Ok::<(), ErrorModel>(())) ==> bootstrap_after(
            events,
        ).tokens is Some,
    decreases events.len(),
{
    if events.len() > 0 {
        law_bootstrap_ends_with_tokens(events.drop_last());
    }
}

/// The trade step by step: the key file gives the request that presents the key;
/// the provider's answer gives the tokens, which are saved as they came, with
/// their end counted from then; once they are saved the key file is removed; and
/// that ends the trade well, whether it could be removed or not. What goes wrong
/// before that ends it with an error, and then no tokens are in use.
pub proof fn law_bootstrap_takes_its_steps(s: BootstrapState, event: BootstrapEvent, now: u64)
    requires
        bootstrap_inv(s),
        s.phase != BootstrapPhase::Over,
    ensures
        ({
            let (n, action) = bootstrap_next(s, event, now);
            let key = if event is KeyRead {
                crate::wire::decoded_in::<auth::BootstrapConfig>(
                    config::parsed_toml(event->KeyRead_0@),
                    "bootstrap config"@,
                    crate::wire::Form::Toml,
                )
            } else {
                Err(Seq::empty())
            };
            let answer = if event is Answered {
                crate::wire::decoded::<auth::TokenResponse>(
                    json::parsed_bytes(event->Answered_body@),
                    "response"@,
                )
            } else {
                Err(Seq::empty())
            };
            let good = event is Answered && 200 <= event->Answered_code < 300 && answer is Ok;
            &&& action is Post <==> s.phase == BootstrapPhase::ReadingKey && event is KeyRead && key
                is Ok
            &&& action matches BootstrapActionModel::Post(j) ==> {
                &&& n.phase == BootstrapPhase::Asking
                &&& j.field("grant_type"@) == Some(JsonView::Text("one_time_key"@))
                &&& j.field("key"@) == Some(JsonView::Text(key->Ok_0.bootstrap.key))
            }
            &&& action is SaveTokens <==> s.phase == BootstrapPhase::Asking && good
            &&& action matches BootstrapActionModel::SaveTokens(text) ==> {
                let m = answer->Ok_0;
                &&& n.phase == BootstrapPhase::Saving
                &&& n.tokens is Some
                &&& n.tokens->0.access_token == m.access_token
                &&& n.tokens->0.refresh_token == m.refresh_token
                &&& n.tokens->0.expires_at is Some <==> m.expires_in is Some
                &&& (m.expires_in is Some && now + m.expires_in->0 <= u64::MAX)
                    ==> n.tokens->0.expires_at == Some((now + m.expires_in->0) as u64)
                &&& text == json::pretty_text(PersistedTokens::tree(n.tokens->0))
            }
            &&& !(action is SaveTokens) ==> n.tokens == s.tokens
            &&& action is RemoveKey <==> s.phase == BootstrapPhase::Saving && event is Saved
            &&& action is RemoveKey ==> n.phase == BootstrapPhase::RemovingKey
            &&& n.outcome == Some(Ok::<(), ErrorModel>(())) <==> s.phase
                == BootstrapPhase::RemovingKey && (event is Removed || event is Failed)
            &&& (event is Failed && s.phase != BootstrapPhase::RemovingKey) ==> n.outcome == Some(
                Err::<(), ErrorModel>(event->Failed_0@),
            )
            &&& (s.phase == BootstrapPhase::ReadingKey && (event is KeyUnreadable || (event
                is KeyRead && key is Err))) ==> n.outcome is Some && n.outcome->0 is Err
                && n.outcome->0->Err_0 is Auth
            &&& (s.phase == BootstrapPhase::ReadingKey && event is KeyUnreadable) ==> n.outcome == Some(
                Err::<(), ErrorModel>(
                    ErrorModel::Auth(
                        "failed to read bootstrap config "@ + "/etc/vasal/onetimeauth.toml"@ + ": "@
                            + event->KeyUnreadable_complaint@,
                    ),
                ),
            )
            &&& (s.phase == BootstrapPhase::Asking && event is Answered && !good) ==> n.outcome
                is Some && n.outcome->0 is Err
            &&& !(action is ReadKey)
        }),
{
    reveal_strlit("grant_type");
    reveal_strlit("key");
    assert("grant_type"@.len() == 10);
    assert("key"@.len() == 3);
}

} // verus!
