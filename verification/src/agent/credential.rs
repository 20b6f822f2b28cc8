//! Credentials of a task: which are fetched before it runs, what a provider's
//! answer holds, and which are left to the sidecar.

use crate::agent::error::{joined, Error, ErrorModel};
use crate::json::{self, Json, JsonView};
use crate::protocol::credential::{
    CredentialProvider, CredentialProviderModel, CredentialRef, CredentialRefModel, ResolveMode,
};
use crate::protocol::error::ProtocolError;
use crate::protocol::jsonrpc::{ErrorObjectModel, Response, ResponseModel};
use crate::string_map::StringMap;
use crate::text;
use crate::wire::{self, Wire};
use vstd::prelude::*;
use vstd::string::*;

verus! {

/// The credentials that are left to the sidecar, in order.
pub open spec fn lazy_refs(refs: Seq<CredentialRef>) -> Seq<CredentialRef>
    decreases refs.len(),
{
    if refs.len() == 0 {
        Seq::empty()
    } else {
        let front = lazy_refs(refs.drop_last());
        if refs.last().resolve == ResolveMode::Lazy {
            front.push(refs.last())
        } else {
            front
        }
    }
}

/// The credentials that are fetched before the task runs, in order.
pub open spec fn eager_refs(refs: Seq<CredentialRef>) -> Seq<CredentialRef>
    decreases refs.len(),
{
    if refs.len() == 0 {
        Seq::empty()
    } else {
        let front = eager_refs(refs.drop_last());
        if refs.last().resolve == ResolveMode::Eager {
            front.push(refs.last())
        } else {
            front
        }
    }
}

/// Picks the credentials that are left to the sidecar.
pub fn filter_lazy(refs: &[CredentialRef]) -> (r: Vec<&CredentialRef>)
    ensures
        r@.map_values(|c: &CredentialRef| *c) == lazy_refs(refs@),
{
    let mut out: Vec<&CredentialRef> = Vec::new();
    proof {
        assert(out@.map_values(|c: &CredentialRef| *c) =~= lazy_refs(refs@.take(0)));
    }
    for i in 0..refs.len()
        invariant
            out@.map_values(|c: &CredentialRef| *c) == lazy_refs(refs@.take(i as int)),
    {
        proof {
            assert(refs@.take(i + 1).drop_last() =~= refs@.take(i as int));
        }
        if refs[i].resolve == ResolveMode::Lazy {
            let ghost before = out@;
            out.push(&refs[i]);
            proof {
                assert(out@.map_values(|c: &CredentialRef| *c) =~= before.map_values(
                    |c: &CredentialRef| *c,
                ).push(refs@[i as int]));
            }
        }
    }
    assert(refs@.take(refs@.len() as int) =~= refs@);
    out
}

/// The credentials that are left to the sidecar, as it gets them; `null` where
/// there are none.
pub open spec fn lazy_tree(refs: Seq<CredentialRef>) -> JsonView {
    let lazy = lazy_refs(refs);
    if lazy.len() == 0 {
        JsonView::Null
    } else {
        Vec::<CredentialRef>::tree(wire::models(lazy))
    }
}

/// The credentials that are left to the sidecar, as JSON.
pub fn lazy_credentials_as_json(refs: &[CredentialRef]) -> (r: Json)
    ensures
        r@ == lazy_tree(refs@),
{
    let lazy = filter_lazy(refs);
    let ghost named = lazy_refs(refs@);
    proof {
        assert(lazy@.len() == named.len());
        assert forall|k: int| 0 <= k < named.len() implies *(#[trigger] lazy@[k]) == named[k] by {
            assert(lazy@.map_values(|c: &CredentialRef| *c)[k] == named[k]);
        }
    }
    if lazy.len() == 0 {
        return Json::Null;
    }
    let mut out: Vec<Json> = Vec::new();
    for i in 0..lazy.len()
        invariant
            out@.len() == i,
            lazy@.len() == named.len(),
            forall|k: int| 0 <= k < named.len() ==> *(#[trigger] lazy@[k]) == named[k],
            forall|k: int|
                0 <= k < i ==> (#[trigger] out@[k])@ == CredentialRef::tree(named[k].model()),
    {
        out.push(lazy[i].to_json());
    }
    proof {
        json::lemma_elements_view(out@);
        assert(json::elements_view(out@) =~= Seq::new(
            wire::models(named).len(),
            |i: int| CredentialRef::tree(wire::models(named)[i]),
        ));
    }
    Json::Array(out)
}

/// The first index from `from` on whose credential is fetched before the task
/// runs; the number of credentials where there is none.
pub open spec fn next_eager(refs: Seq<CredentialRef>, from: int) -> int
    decreases refs.len() - from,
{
    if from >= refs.len() {
        refs.len() as int
    } else if refs[from].resolve == ResolveMode::Eager {
        from
    } else {
        next_eager(refs, from + 1)
    }
}

/// The fetching of a task's credentials. Whoever drives it fetches the
/// credential at [`EagerRun::wanted`] and hands it to [`EagerRun::on_fetched`],
/// until none is wanted; one that cannot be had ends the matter.
#[derive(Debug)]
pub struct EagerRun {
    at: usize,
    found: StringMap,
}

impl EagerRun {
    /// The index that is wanted next, the number of credentials at the end.
    pub closed spec fn at(&self) -> int {
        self.at as int
    }

    /// The credentials that have been fetched, by name.
    pub closed spec fn found(&self) -> Map<Seq<char>, Seq<char>> {
        self.found@
    }

    /// What is wanted is a credential to be fetched before the task runs.
    pub open spec fn wf(&self, refs: Seq<CredentialRef>) -> bool {
        self.at() <= refs.len() && (self.at() < refs.len() ==> refs[self.at()].resolve
            == ResolveMode::Eager)
    }

    /// Begins with nothing fetched.
    pub fn new(refs: &Vec<CredentialRef>) -> (r: EagerRun)
        ensures
            r.wf(refs@),
            r.at() == next_eager(refs@, 0),
            r.found() == Map::<Seq<char>, Seq<char>>::empty(),
    {
        EagerRun { at: skip_lazy(refs, 0), found: StringMap::new() }
    }

    /// The index of the credential to fetch next.
    pub fn wanted(&self, refs: &Vec<CredentialRef>) -> (r: Option<usize>)
        requires
            self.wf(refs@),
        ensures
            match r {
                Some(i) => i == self.at() && i < refs@.len(),
                None => self.at() == refs@.len(),
            },
    {
        if self.at < refs.len() {
            Some(self.at)
        } else {
            None
        }
    }

    /// Takes the credential that was wanted. Of two with one name the later
    /// counts.
    pub fn on_fetched(&mut self, refs: &Vec<CredentialRef>, value: String)
        requires
            old(self).wf(refs@),
            old(self).at() < refs@.len(),
        ensures
            final(self).wf(refs@),
            final(self).at() == next_eager(refs@, old(self).at() + 1),
            final(self).found() == old(self).found().insert(refs@[old(self).at()].name@, value@),
    {
        let here: usize = self.at;
        let count: usize = refs.len();
        assert(here < count);
        self.found.insert(refs[here].name.clone(), value);
        self.at = skip_lazy(refs, here + 1);
    }

    /// The credentials that have been fetched.
    pub fn into_found(self) -> (r: StringMap)
        ensures
            r@ == self.found(),
    {
        self.found
    }
}

/// Passes over the credentials that are left to the sidecar.
fn skip_lazy(refs: &Vec<CredentialRef>, from: usize) -> (r: usize)
    requires
        from <= refs@.len(),
    ensures
        r == next_eager(refs@, from as int),
        r <= refs@.len(),
        r < refs@.len() ==> refs@[r as int].resolve == ResolveMode::Eager,
{
    let mut i: usize = from;
    while i < refs.len()
        invariant
            i <= refs@.len(),
            next_eager(refs@, from as int) == next_eager(refs@, i as int),
        decreases refs@.len() - i,
    {
        if refs[i].resolve == ResolveMode::Eager {
            return i;
        }
        i = i + 1;
    }
    i
}

/// The credentials fetched from `from` on, when the answers are these: each goes
/// under the name of the credential it answers, and those left to the sidecar
/// get none.
pub open spec fn fetched(
    refs: Seq<CredentialRef>,
    from: int,
    answers: Seq<Seq<char>>,
    found: Map<Seq<char>, Seq<char>>,
) -> Map<Seq<char>, Seq<char>>
    decreases answers.len(),
{
    let at = next_eager(refs, from);
    if answers.len() == 0 || at < 0 || at >= refs.len() {
        found
    } else {
        fetched(refs, at + 1, answers.skip(1), found.insert(refs[at].name@, answers[0]))
    }
}

/// How many credentials are still to be fetched from `from` on.
pub open spec fn eager_left(refs: Seq<CredentialRef>, from: int) -> nat
    decreases refs.len() - from,
{
    if from >= refs.len() {
        0
    } else if refs[from].resolve == ResolveMode::Eager {
        1 + eager_left(refs, from + 1)
    } else {
        eager_left(refs, from + 1)
    }
}

proof fn lemma_next_eager_is_left(refs: Seq<CredentialRef>, from: int)
    requires
        0 <= from <= refs.len(),
    ensures
        eager_left(refs, next_eager(refs, from)) == eager_left(refs, from),
    decreases refs.len() - from,
{
    if from < refs.len() && refs[from].resolve != ResolveMode::Eager {
        lemma_next_eager_is_left(refs, from + 1);
    }
}

/// Whether a credential to be fetched from `from` on has the name.
pub open spec fn names_eager(refs: Seq<CredentialRef>, from: int, name: Seq<char>) -> bool {
    exists|i: int|
        from <= i < refs.len() && (#[trigger] refs[i]).resolve == ResolveMode::Eager
            && refs[i].name@ == name
}

/// Once each credential to be fetched has been answered, every one of them is
/// there under its name, and beyond what was there before nothing is there under
/// any other name.
pub proof fn law_every_eager_credential_is_found(
    refs: Seq<CredentialRef>,
    from: int,
    answers: Seq<Seq<char>>,
    found: Map<Seq<char>, Seq<char>>,
    name: Seq<char>,
)
    requires
        0 <= from <= refs.len(),
        answers.len() == eager_left(refs, from),
    ensures
        fetched(refs, from, answers, found).contains_key(name) <==> (found.contains_key(name)
            || names_eager(refs, from, name)),
    decreases answers.len(),
{
    law_lazy_credentials_are_not_fetched(refs, from);
    lemma_next_eager_is_left(refs, from);
    let at = next_eager(refs, from);
    if answers.len() > 0 {
        assert(at < refs.len());
        let more = found.insert(refs[at].name@, answers[0]);
        law_every_eager_credential_is_found(refs, at + 1, answers.skip(1), more, name);
        if names_eager(refs, from, name) {
            let i = choose|i: int|
                from <= i < refs.len() && (#[trigger] refs[i]).resolve == ResolveMode::Eager
                    && refs[i].name@ == name;
            assert(i >= at);
            assert(i == at || names_eager(refs, at + 1, name));
        }
    } else {
        assert(at == refs.len());
    }
}

/// A credential that is left to the sidecar is never fetched by the agent: what
/// is wanted is always one to be fetched before the task runs.
pub proof fn law_lazy_credentials_are_not_fetched(refs: Seq<CredentialRef>, from: int)
    requires
        0 <= from <= refs.len(),
    ensures
        from <= next_eager(refs, from) <= refs.len(),
        next_eager(refs, from) < refs.len() ==> refs[next_eager(refs, from)].resolve
            == ResolveMode::Eager,
        forall|k: int|
            from <= k < next_eager(refs, from) ==> (#[trigger] refs[k]).resolve
                == ResolveMode::Lazy,
    decreases refs.len() - from,
{
    if from < refs.len() && refs[from].resolve != ResolveMode::Eager {
        law_lazy_credentials_are_not_fetched(refs, from + 1);
    }
}

/// Every credential of a task is either fetched before it runs or left to the
/// sidecar, and none is both.
pub proof fn law_eager_and_lazy_divide_the_credentials(refs: Seq<CredentialRef>)
    ensures
        eager_refs(refs).len() + lazy_refs(refs).len() == refs.len(),
        forall|i: int|
            0 <= i < eager_refs(refs).len() ==> (#[trigger] eager_refs(refs)[i]).resolve
                == ResolveMode::Eager,
        forall|i: int|
            0 <= i < lazy_refs(refs).len() ==> (#[trigger] lazy_refs(refs)[i]).resolve
                == ResolveMode::Lazy,
    decreases refs.len(),
{
    if refs.len() > 0 {
        law_eager_and_lazy_divide_the_credentials(refs.drop_last());
    }
}

/// What a credential fetched over HTTP is, by the answer's body: the text under
/// `value` of a JSON object, or the body itself.
pub open spec fn http_credential(body: Seq<char>, parsed: Result<JsonView, Seq<char>>) -> Seq<char> {
    match parsed {
        Ok(v) => match v.text_field("value"@) {
            Some(s) => s,
            None => body,
        },
        Err(_) => body,
    }
}

/// What a fetch over HTTP comes to, by the status code and its text, the body,
/// and the JSON that the body holds.
pub open spec fn http_outcome(
    code: u16,
    status: Seq<char>,
    body: Seq<char>,
    parsed: Result<JsonView, Seq<char>>,
) -> Result<Seq<char>, ErrorModel> {
    if 200 <= code < 300 {
        Ok(http_credential(body, parsed))
    } else {
        Err(ErrorModel::Auth("credential provider returned HTTP "@ + status))
    }
}

/// Picks the credential out of an answer whose JSON has been read.
pub fn pick_http_credential(body: String, parsed: &Result<Json, String>) -> (r: String)
    ensures
        r@ == http_credential(body@, wire::parsed_view(*parsed)),
{
    match parsed {
        Ok(v) => match v.get_str("value") {
            Some(s) => s.to_owned(),
            None => body,
        },
        Err(_) => body,
    }
}

/// Judges a provider's answer over HTTP.
pub fn read_http_credential(code: u16, status: &str, body: String) -> (r: Result<String, Error>)
    ensures
        match http_outcome(code, status@, body@, json::parsed_text(body@)) {
            Ok(s) => r is Ok && r->Ok_0@ == s,
            Err(e) => r is Err && r->Err_0@ == e,
        },
{
    if !(200 <= code && code < 300) {
        return Err(Error::Auth(joined("credential provider returned HTTP ", status)));
    }
    let parsed = json::parse_text(body.as_str());
    Ok(pick_http_credential(body, &parsed))
}

/// What a credential sidecar's answer comes to: the text under `value`, or the
/// whole result as text, or the error.
pub open spec fn sidecar_outcome(m: ResponseModel) -> Result<Seq<char>, ErrorModel> {
    match (m.result, m.error) {
        (Some(v), _) => match v.text_field("value"@) {
            Some(s) => Ok(s),
            None => Ok(json::compact_text(v)),
        },
        (None, Some(e)) => Err(
            ErrorModel::Auth("credential sidecar error: "@ + error_text(e)),
        ),
        (None, None) => Err(ErrorModel::Auth("credential sidecar returned empty response"@)),
    }
}

/// The error of a response in one line.
pub open spec fn error_text(e: ErrorObjectModel) -> Seq<char> {
    seq!['['] + text::signed_decimal(e.code as int) + "] "@ + e.message
}

/// Words the error of a response in one line.
pub fn error_line(code: i32, message: &str) -> (r: String)
    ensures
        r@ == seq!['['] + text::signed_decimal(code as int) + "] "@ + message@,
{
    let mut s: String = String::new();
    s.push('[');
    text::push_i64(&mut s, code as i64);
    s.append("] ");
    s.append(message);
    proof {
        assert(s@ =~= seq!['['] + text::signed_decimal(code as int) + "] "@ + message@);
    }
    s
}

/// Judges a credential sidecar's answer.
pub fn read_sidecar_credential(response: &Response) -> (r: Result<String, Error>)
    ensures
        match sidecar_outcome(response.model()) {
            Ok(s) => r is Ok && r->Ok_0@ == s,
            Err(e) => r is Err && r->Err_0@ == e,
        },
{
    if let Some(v) = &response.result {
        return match v.get_str("value") {
            Some(s) => Ok(s.to_owned()),
            None => Ok(v.to_text()),
        };
    }
    if let Some(e) = &response.error {
        return Err(
            Error::Auth(
                joined(
                    "credential sidecar error: ",
                    error_line(e.code, e.message.as_str()).as_str(),
                ),
            ),
        );
    }
    Err(Error::Auth("credential sidecar returned empty response".to_owned()))
}

/// The credentials that are left to the sidecar are those whose mode says so, and
/// those that are fetched are the others, either in the order of the task.
pub proof fn law_mode_decides_who_fetches(refs: Seq<CredentialRef>)
    ensures
        lazy_refs(refs) == refs.filter(|c: CredentialRef| c.resolve == ResolveMode::Lazy),
        eager_refs(refs) == refs.filter(|c: CredentialRef| c.resolve == ResolveMode::Eager),
    decreases refs.len(),
{
    reveal(Seq::filter);
    if refs.len() > 0 {
        law_mode_decides_who_fetches(refs.drop_last());
    }
}

/// A sidecar gets nothing of credentials exactly when none is left to it, and
/// otherwise each of them whole, in order.
pub proof fn law_sidecar_gets_what_is_left_to_it(refs: Seq<CredentialRef>)
    ensures
        ({
            let lazy = refs.filter(|c: CredentialRef| c.resolve == ResolveMode::Lazy);
            let tree = lazy_tree(refs);
            &&& tree == JsonView::Null <==> lazy.len() == 0
            &&& lazy.len() > 0 ==> tree is Array && tree->Array_0.len() == lazy.len() && forall|
                i: int,
            |
                0 <= i < lazy.len() ==> #[trigger] tree->Array_0[i] == CredentialRef::tree(
                    lazy[i].model(),
                )
        }),
{
    law_mode_decides_who_fetches(refs);
}

/// Which answer a fetched credential gets: that of its place among those to be
/// fetched, unless a later one has the same name; and what was there before under
/// a name that none of them has stays.
pub proof fn law_credential_gets_its_own_answer(
    refs: Seq<CredentialRef>,
    from: int,
    answers: Seq<Seq<char>>,
    found: Map<Seq<char>, Seq<char>>,
    name: Seq<char>,
)
    requires
        0 <= from <= refs.len(),
        answers.len() == eager_left(refs, from),
    ensures
        !names_eager(refs, from, name) && found.contains_key(name) ==> fetched(
            refs,
            from,
            answers,
            found,
        )[name] == found[name],
        forall|i: int|
            from <= i < refs.len() && (#[trigger] refs[i]).resolve == ResolveMode::Eager
                && refs[i].name@ == name && !names_eager(refs, i + 1, name) ==> fetched(
                refs,
                from,
                answers,
                found,
            )[name] == answers[eager_left(refs, from) - eager_left(refs, i)],
    decreases answers.len(),
{
    law_lazy_credentials_are_not_fetched(refs, from);
    lemma_next_eager_is_left(refs, from);
    let at = next_eager(refs, from);
    if answers.len() > 0 {
        assert(at < refs.len());
        let more = found.insert(refs[at].name@, answers[0]);
        let rest = answers.skip(1);
        law_credential_gets_its_own_answer(refs, at + 1, rest, more, name);
        if !names_eager(refs, from, name) {
            assert(refs[at].name@ != name);
            assert(!names_eager(refs, at + 1, name)) by {
                if names_eager(refs, at + 1, name) {
                    let i = choose|i: int|
                        at + 1 <= i < refs.len() && (#[trigger] refs[i]).resolve
                            == ResolveMode::Eager && refs[i].name@ == name;
                    assert(refs[i].resolve == ResolveMode::Eager);
                }
            }
        }
        assert forall|i: int|
            from <= i < refs.len() && (#[trigger] refs[i]).resolve == ResolveMode::Eager
                && refs[i].name@ == name && !names_eager(refs, i + 1, name) implies fetched(
            refs,
            from,
            answers,
            found,
        )[name] == answers[eager_left(refs, from) - eager_left(refs, i)] by {
            assert(i >= at);
            if i > at {
                lemma_eager_left_shrinks(refs, at + 1, i);
                let k = eager_left(refs, at + 1) - eager_left(refs, i);
                assert(rest[k] == answers[k + 1]);
            } else {
                assert(!names_eager(refs, at + 1, name));
                assert(more[name] == answers[0]);
            }
        }
    } else {
        assert(at == refs.len());
    }
}

proof fn lemma_eager_left_shrinks(refs: Seq<CredentialRef>, from: int, i: int)
    requires
        0 <= from <= i < refs.len(),
        refs[i].resolve == ResolveMode::Eager,
    ensures
        0 < eager_left(refs, i) <= eager_left(refs, from),
    decreases i - from,
{
    if from < i {
        lemma_eager_left_shrinks(refs, from + 1, i);
    }
}

/// A credential over HTTP: an answer with success, and no other, holds one; it is
/// the text under `value` where the body is JSON with one, and the whole body
/// otherwise, JSON or not.
pub proof fn law_http_credential_is_value_or_body(
    code: u16,
    status: Seq<char>,
    body: Seq<char>,
    parsed: Result<JsonView, Seq<char>>,
)
    ensures
        ({
            let r = http_outcome(code, status, body, parsed);
            let value = if parsed is Ok {
                parsed->Ok_0.field("value"@)
            } else {
                None
            };
            &&& r is Ok <==> 200 <= code < 300
            &&& r is Err ==> r->Err_0 == ErrorModel::Auth(
                "credential provider returned HTTP "@ + status,
            )
            &&& (r is Ok && value is Some && value->0 is Text) ==> r->Ok_0 == value->0->Text_0
            &&& (r is Ok && !(value is Some && value->0 is Text)) ==> r->Ok_0 == body
        }),
{
}

/// A credential from a sidecar: an answer with a result holds one, the text under
/// `value` where there is one and the whole result as JSON text otherwise; any
/// other answer is an error, with the sidecar's own code and message where it
/// gave them.
pub proof fn law_sidecar_credential_is_value_or_result(m: ResponseModel)
    ensures
        ({
            let r = sidecar_outcome(m);
            &&& r is Ok <==> m.result is Some
            &&& m.result matches Some(v) ==> r->Ok_0 == (match v.field("value"@) {
                Some(JsonView::Text(s)) => s,
                _ => json::compact_text(v),
            })
            &&& m.result is None && m.error is Some ==> r->Err_0 == ErrorModel::Auth(
                "credential sidecar error: "@ + ("["@ + text::signed_decimal(
                    m.error->0.code as int,
                ) + "] "@ + m.error->0.message),
            )
            &&& m.result is None && m.error is None ==> r->Err_0 == ErrorModel::Auth(
                "credential sidecar returned empty response"@,
            )
        }),
{
    reveal_strlit("[");
    assert("["@ =~= seq!['[']);
}

} // verus!
