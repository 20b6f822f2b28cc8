//! Why a JSON value is refused as a structure, in the words of the `serde_json`
//! crate.

use crate::json::{self, Json, JsonNumber, JsonView, NumberView};
use crate::text;
use crate::wire::{self, Form};
use vstd::prelude::*;
use vstd::string::*;

verus! {

/// What a member holds.
#[derive(Debug, Clone, Copy, PartialEq, Eq, Structural)]
pub enum Kind {
    /// A text.
    Text,
    /// A text or `null`.
    OptionalText,
    /// A truth value.
    Flag,
    /// A list of values.
    Values,
    /// A list of texts.
    Texts,
}

/// What is asked of a member.
#[derive(Debug, Clone, Copy, PartialEq, Eq)]
pub struct Rule {
    /// Its name.
    pub key: &'static str,
    /// What it holds.
    pub kind: Kind,
    /// Whether it has to be there.
    pub needed: bool,
}

/// What a value of [`Rule`] is.
pub struct RuleModel {
    pub key: Seq<char>,
    pub kind: Kind,
    pub needed: bool,
}

/// What a list of rules says.
pub open spec fn rules_view(rules: Seq<Rule>) -> Seq<RuleModel> {
    Seq::new(
        rules.len(),
        |i: int|
            RuleModel { key: rules[i].key@, kind: rules[i].kind, needed: rules[i].needed },
    )
}

/// What a value is, in words.
pub open spec fn found(v: JsonView) -> Seq<char> {
    match v {
        JsonView::Null => "null"@,
        JsonView::Bool(b) => if b {
            "boolean `true`"@
        } else {
            "boolean `false`"@
        },
        JsonView::Number(NumberView::Int(i)) => "integer `"@ + text::signed_decimal(i) + "`"@,
        JsonView::Number(_) => "floating point `"@ + json::compact_text(v) + "`"@,
        JsonView::Text(s) => "string "@ + text::debug_text(s),
        JsonView::Array(_) => "sequence"@,
        JsonView::Object(_) => "map"@,
    }
}

/// That a value is of another type than expected.
pub open spec fn mismatch(v: JsonView, expected: Seq<char>) -> Seq<char> {
    "invalid type: "@ + found(v) + ", expected "@ + expected
}

/// Says that a value is of another type than expected.
pub fn say_mismatch(v: &Json, expected: &str) -> (r: String)
    ensures
        r@ == mismatch(v@, expected@),
{
    let mut out: String = "invalid type: ".to_owned();
    match v {
        Json::Null => out.append("null"),
        Json::Bool(b) => if *b {
            out.append("boolean `true`")
        } else {
            out.append("boolean `false`")
        },
        Json::Number(JsonNumber::PosInt(n)) => {
            out.append("integer `");
            text::push_u64(&mut out, *n);
            out.append("`");
        },
        Json::Number(JsonNumber::NegInt(n)) => {
            out.append("integer `");
            text::push_i64(&mut out, *n);
            out.append("`");
        },
        Json::Number(JsonNumber::Float(_)) => {
            out.append("floating point `");
            out.append(v.to_text().as_str());
            out.append("`");
        },
        Json::Text(s) => {
            out.append("string ");
            out.append(text::quoted(s.as_str()).as_str());
        },
        Json::Array(_) => out.append("sequence"),
        Json::Object(_) => out.append("map"),
    }
    let ghost before = out@;
    out.append(", expected ");
    out.append(expected);
    proof {
        assert(before =~= "invalid type: "@ + found(v@));
        assert(out@ =~= mismatch(v@, expected@));
    }
    out
}

/// What is wrong with the first element from `i` on that is no text.
pub open spec fn no_text_from(s: Seq<JsonView>, i: nat) -> Option<Seq<char>>
    decreases s.len() - i,
{
    if i >= s.len() {
        None
    } else if s[i as int] is Text {
        no_text_from(s, i + 1)
    } else {
        Some(mismatch(s[i as int], "a string"@))
    }
}

/// What is wrong with the value of a member.
pub open spec fn value_fault(kind: Kind, v: JsonView) -> Option<Seq<char>> {
    match kind {
        Kind::Text => if v is Text {
            None
        } else {
            Some(mismatch(v, "a string"@))
        },
        Kind::OptionalText => if v is Text || v is Null {
            None
        } else {
            Some(mismatch(v, "a string"@))
        },
        Kind::Flag => if v is Bool {
            None
        } else {
            Some(mismatch(v, "a boolean"@))
        },
        Kind::Values => if v is Array {
            None
        } else {
            Some(mismatch(v, "a sequence"@))
        },
        Kind::Texts => match v {
            JsonView::Array(s) => no_text_from(s, 0),
            _ => Some(mismatch(v, "a sequence"@)),
        },
    }
}

/// What an optional text says.
pub open spec fn said(r: Option<String>) -> Option<Seq<char>> {
    match r {
        Some(s) => Some(s@),
        None => None,
    }
}

/// Finds what is wrong with the value of a member.
fn find_value_fault(kind: Kind, v: &Json) -> (r: Option<String>)
    ensures
        said(r) == value_fault(kind, v@),
{
    match (kind, v) {
        (Kind::Text, Json::Text(_)) => None,
        (Kind::OptionalText, Json::Text(_)) => None,
        (Kind::OptionalText, Json::Null) => None,
        (Kind::Text, _) => Some(say_mismatch(v, "a string")),
        (Kind::OptionalText, _) => Some(say_mismatch(v, "a string")),
        (Kind::Flag, Json::Bool(_)) => None,
        (Kind::Flag, _) => Some(say_mismatch(v, "a boolean")),
        (Kind::Values, Json::Array(_)) => None,
        (Kind::Values, _) => Some(say_mismatch(v, "a sequence")),
        (Kind::Texts, Json::Array(elements)) => {
            proof {
                json::lemma_elements_view(elements@);
            }
            let ghost s = json::elements_view(elements@);
            let mut i: usize = 0;
            while i < elements.len()
                invariant
                    i <= elements@.len(),
                    s.len() == elements@.len(),
                    forall|k: int| 0 <= k < s.len() ==> #[trigger] s[k] == elements@[k]@,
                    no_text_from(s, i as nat) == no_text_from(s, 0),
                    v@ == JsonView::Array(s),
                    kind == Kind::Texts,
                decreases elements@.len() - i,
            {
                match &elements[i] {
                    Json::Text(_) => {},
                    other => return Some(say_mismatch(other, "a string")),
                }
                i = i + 1;
            }
            None
        },
        (Kind::Texts, _) => Some(say_mismatch(v, "a sequence")),
    }
}

/// What is wrong with the first member, in the given order, that is there.
pub open spec fn spoiled_from(
    t: JsonView,
    rules: Seq<RuleModel>,
    order: Seq<usize>,
    i: nat,
) -> Option<Seq<char>>
    decreases order.len() - i,
{
    if i >= order.len() {
        None
    } else {
        let rule = rules[order[i as int] as int];
        match t.field(rule.key) {
            Some(v) => match value_fault(rule.kind, v) {
                Some(words) => Some(words),
                None => spoiled_from(t, rules, order, i + 1),
            },
            None => spoiled_from(t, rules, order, i + 1),
        }
    }
}

/// The first member from `i` on that has to be there and is not.
pub open spec fn lacking_from(t: JsonView, rules: Seq<RuleModel>, i: nat) -> Option<Seq<char>>
    decreases rules.len() - i,
{
    if i >= rules.len() {
        None
    } else if rules[i as int].needed && t.field(rules[i as int].key) is None {
        Some("missing field `"@ + rules[i as int].key + "`"@)
    } else {
        lacking_from(t, rules, i + 1)
    }
}

/// What is wrong with the first element from `i` on, as the member in its place.
pub open spec fn listed_from(s: Seq<JsonView>, rules: Seq<RuleModel>, i: nat) -> Option<Seq<char>>
    decreases rules.len() - i,
{
    if i >= rules.len() || i >= s.len() {
        None
    } else {
        match value_fault(rules[i as int].kind, s[i as int]) {
            Some(words) => Some(words),
            None => listed_from(s, rules, i + 1),
        }
    }
}

/// The first member from `i` on that has to be there.
pub open spec fn needed_from(rules: Seq<RuleModel>, i: nat) -> Option<nat>
    decreases rules.len() - i,
{
    if i >= rules.len() {
        None
    } else if rules[i as int].needed {
        Some(i)
    } else {
        needed_from(rules, i + 1)
    }
}

/// So many elements.
pub open spec fn elements_text(n: nat) -> Seq<char> {
    if n == 1 {
        "1 element"@
    } else {
        text::decimal(n) + " elements"@
    }
}

/// That a list is of another length than expected.
pub open spec fn length_text(n: nat, expected: Seq<char>) -> Seq<char> {
    "invalid length "@ + text::decimal(n) + ", expected "@ + expected
}

/// What is wrong with a list of members, in number.
pub open spec fn length_fault(
    len: nat,
    expected: Seq<char>,
    rules: Seq<RuleModel>,
    form: Form,
) -> Option<Seq<char>> {
    match needed_from(rules, len) {
        Some(i) => Some(length_text(i, expected + " with "@ + elements_text(rules.len()))),
        None => if len <= rules.len() {
            None
        } else if form is Buffered {
            Some(length_text(len, elements_text(rules.len()) + " in sequence"@))
        } else {
            Some(length_text(len, "fewer elements in array"@))
        },
    }
}

/// What is wrong with a value as a structure. The members of an object are looked
/// at in the order of their names, which `order` gives.
pub open spec fn struct_fault(
    t: JsonView,
    expected: Seq<char>,
    rules: Seq<RuleModel>,
    order: Seq<usize>,
    form: Form,
) -> Option<Seq<char>> {
    match t {
        JsonView::Object(_) => match spoiled_from(t, rules, order, 0) {
            Some(words) => Some(words),
            None => lacking_from(t, rules, 0),
        },
        JsonView::Array(s) => match listed_from(s, rules, 0) {
            Some(words) => Some(words),
            None => length_fault(s.len(), expected, rules, form),
        },
        _ => Some(mismatch(t, expected)),
    }
}

/// Says that a list is of another length than expected.
fn say_length(n: usize, expected: &str) -> (r: String)
    ensures
        r@ == length_text(n as nat, expected@),
{
    let mut out: String = "invalid length ".to_owned();
    text::push_u64(&mut out, n as u64);
    out.append(", expected ");
    out.append(expected);
    out
}

/// Appends so many elements.
fn push_elements(out: &mut String, n: usize)
    ensures
        final(out)@ == old(out)@ + elements_text(n as nat),
{
    let ghost before = out@;
    if n == 1 {
        out.append("1 element");
    } else {
        text::push_u64(out, n as u64);
        out.append(" elements");
        proof {
            assert(out@ =~= before + elements_text(n as nat));
        }
    }
}

/// Finds what is wrong with a list of members, in number.
fn find_length_fault(len: usize, expected: &str, rules: &[Rule], form: Form) -> (r: Option<String>)
    ensures
        said(r) == length_fault(len as nat, expected@, rules_view(rules@), form),
{
    let ghost model = rules_view(rules@);
    let mut i: usize = len;
    while i < rules.len()
        invariant
            len <= i,
            model == rules_view(rules@),
            needed_from(model, i as nat) == needed_from(model, len as nat),
        decreases rules@.len() - i,
    {
        if rules[i].needed {
            let mut whole: String = expected.to_owned();
            whole.append(" with ");
            push_elements(&mut whole, rules.len());
            proof {
                assert(whole@ =~= expected@ + " with "@ + elements_text(model.len()));
            }
            return Some(say_length(i, whole.as_str()));
        }
        i = i + 1;
    }
    if len <= rules.len() {
        None
    } else {
        match form {
            Form::Buffered => {
                let mut whole: String = String::new();
                push_elements(&mut whole, rules.len());
                whole.append(" in sequence");
                proof {
                    assert(whole@ =~= elements_text(model.len()) + " in sequence"@);
                }
                Some(say_length(len, whole.as_str()))
            },
            _ => Some(say_length(len, "fewer elements in array")),
        }
    }
}

/// Finds what is wrong with a value as a structure.
pub fn find_struct_fault(
    t: &Json,
    expected: &str,
    rules: &[Rule],
    order: &[usize],
    form: Form,
) -> (r: Option<String>)
    requires
        forall|i: int| 0 <= i < order@.len() ==> #[trigger] order@[i] < rules@.len(),
    ensures
        said(r) == struct_fault(t@, expected@, rules_view(rules@), order@, form),
{
    let ghost model = rules_view(rules@);
    match t {
        Json::Object(_) => {
            let mut i: usize = 0;
            while i < order.len()
                invariant
                    i <= order@.len(),
                    t@ is Object,
                    model == rules_view(rules@),
                    forall|k: int| 0 <= k < order@.len() ==> #[trigger] order@[k] < rules@.len(),
                    spoiled_from(t@, model, order@, i as nat) == spoiled_from(
                        t@,
                        model,
                        order@,
                        0,
                    ),
                decreases order@.len() - i,
            {
                assert(order@[i as int] < rules@.len());
                let rule = &rules[order[i]];
                if let Some(v) = t.get(rule.key) {
                    if let Some(words) = find_value_fault(rule.kind, v) {
                        return Some(words);
                    }
                }
                i = i + 1;
            }
            let mut i: usize = 0;
            while i < rules.len()
                invariant
                    i <= rules@.len(),
                    t@ is Object,
                    model == rules_view(rules@),
                    spoiled_from(t@, model, order@, 0) is None,
                    lacking_from(t@, model, i as nat) == lacking_from(t@, model, 0),
                decreases rules@.len() - i,
            {
                if rules[i].needed && t.get(rules[i].key).is_none() {
                    let mut out: String = "missing field `".to_owned();
                    out.append(rules[i].key);
                    out.append("`");
                    return Some(out);
                }
                i = i + 1;
            }
            None
        },
        Json::Array(elements) => {
            proof {
                json::lemma_elements_view(elements@);
            }
            let ghost s = json::elements_view(elements@);
            let mut i: usize = 0;
            while i < rules.len() && i < elements.len()
                invariant
                    i <= rules@.len(),
                    i <= elements@.len(),
                    t@ == JsonView::Array(s),
                    s.len() == elements@.len(),
                    forall|k: int| 0 <= k < s.len() ==> #[trigger] s[k] == elements@[k]@,
                    model == rules_view(rules@),
                    listed_from(s, model, i as nat) == listed_from(s, model, 0),
                decreases rules@.len() - i,
            {
                if let Some(words) = find_value_fault(rules[i].kind, &elements[i]) {
                    return Some(words);
                }
                i = i + 1;
            }
            find_length_fault(elements.len(), expected, rules, form)
        },
        _ => Some(say_mismatch(t, expected)),
    }
}

/// Any values can be read as a list of values.
pub proof fn lemma_values_are_read(s: Seq<JsonView>, at: Seq<char>, form: Form)
    ensures
        wire::read_elements::<Json>(s, at, form) is Ok,
    decreases s.len(),
{
    if s.len() > 0 {
        lemma_values_are_read(s.drop_last(), at, form);
    }
}

/// A list is read as one of texts where each of its elements is a text.
pub proof fn lemma_texts_are_read(s: Seq<JsonView>, at: Seq<char>, form: Form)
    ensures
        wire::read_elements::<String>(s, at, form) is Ok <==> no_text_from(s, 0) is None,
{
    lemma_texts_by_element(s, at, form);
    lemma_no_text_from(s, 0);
}

proof fn lemma_texts_by_element(s: Seq<JsonView>, at: Seq<char>, form: Form)
    ensures
        wire::read_elements::<String>(s, at, form) is Ok <==> forall|i: int|
            0 <= i < s.len() ==> (#[trigger] s[i]) is Text,
    decreases s.len(),
{
    if s.len() > 0 {
        let front = s.drop_last();
        lemma_texts_by_element(front, at, form);
        if forall|i: int| 0 <= i < front.len() ==> (#[trigger] front[i]) is Text {
            assert forall|i: int| 0 <= i < s.len() - 1 implies (#[trigger] s[i]) is Text by {
                assert(front[i] is Text);
            }
            assert(s[s.len() - 1] == s.last());
        } else {
            let i = choose|i: int| 0 <= i < front.len() && !((#[trigger] front[i]) is Text);
            assert(!(s[i] is Text));
        }
    }
}

proof fn lemma_no_text_from(s: Seq<JsonView>, i: nat)
    ensures
        no_text_from(s, i) is None <==> forall|k: int| i <= k < s.len() ==> (#[trigger] s[k]) is Text,
    decreases s.len() - i,
{
    if i < s.len() {
        lemma_no_text_from(s, i + 1);
    }
}

/// The words for a fault.
pub open spec fn words(fault: Option<Seq<char>>) -> Seq<char> {
    match fault {
        Some(w) => w,
        None => Seq::empty(),
    }
}

/// Words what is wrong with a value as a structure.
pub fn explain(t: &Json, expected: &str, rules: &[Rule], order: &[usize], form: Form) -> (r: String)
    requires
        forall|i: int| 0 <= i < order@.len() ==> #[trigger] order@[i] < rules@.len(),
    ensures
        r@ == words(struct_fault(t@, expected@, rules_view(rules@), order@, form)),
{
    match find_struct_fault(t, expected, rules, order, form) {
        Some(s) => s,
        None => String::new(),
    }
}

/// What a value is, in words.
pub proof fn law_values_are_called_what_they_are(v: JsonView)
    ensures
        match v {
            JsonView::Null => found(v) == "null"@,
            JsonView::Bool(b) => found(v) == (if b {
                "boolean `true`"@
            } else {
                "boolean `false`"@
            }),
            JsonView::Number(n) => match n {
                NumberView::Int(i) => found(v) == "integer `"@ + text::signed_decimal(i) + "`"@,
                NumberView::Float(_) => found(v) == "floating point `"@ + json::compact_text(v)
                    + "`"@,
            },
            JsonView::Text(s) => found(v) == "string "@ + text::debug_text(s),
            JsonView::Array(_) => found(v) == "sequence"@,
            JsonView::Object(_) => found(v) == "map"@,
        },
{
}

/// A value is right for a member exactly where it is of the member's kind;
/// otherwise the words say what it is and what was expected.
pub proof fn law_values_are_right_by_their_kind(kind: Kind, v: JsonView)
    ensures
        ({
            let r = value_fault(kind, v);
            let texts = v is Array && forall|k: int|
                0 <= k < v->Array_0.len() ==> (#[trigger] v->Array_0[k]) is Text;
            let wants = |expected: Seq<char>|
                r == Some("invalid type: "@ + found(v) + ", expected "@ + expected);
            &&& kind is Text ==> (r is None <==> v is Text) && (r is Some ==> wants("a string"@))
            &&& kind is OptionalText ==> (r is None <==> v is Text || v is Null) && (r is Some
                ==> wants("a string"@))
            &&& kind is Flag ==> (r is None <==> v is Bool) && (r is Some ==> wants("a boolean"@))
            &&& kind is Values ==> (r is None <==> v is Array) && (r is Some ==> wants(
                "a sequence"@,
            ))
            &&& kind is Texts ==> (r is None <==> texts) && (!(v is Array) ==> wants(
                "a sequence"@,
            ))
        }),
{
    if v is Array {
        lemma_no_text_from(v->Array_0, 0);
    }
}

/// Of a list that should hold texts, the first element that is none is told.
pub proof fn law_first_that_is_no_text_is_told(s: Seq<JsonView>, at: int)
    requires
        0 <= at < s.len(),
        !(s[at] is Text),
        forall|k: int| 0 <= k < at ==> (#[trigger] s[k]) is Text,
    ensures
        value_fault(Kind::Texts, JsonView::Array(s)) == Some(
            "invalid type: "@ + found(s[at]) + ", expected "@ + "a string"@,
        ),
{
    lemma_first_no_text(s, 0, at);
}

/// The first element that is no text.
proof fn lemma_first_no_text(s: Seq<JsonView>, i: nat, at: int)
    requires
        i <= at < s.len(),
        !(s[at] is Text),
        forall|k: int| i <= k < at ==> (#[trigger] s[k]) is Text,
    ensures
        no_text_from(s, i) == Some(mismatch(s[at], "a string"@)),
    decreases at - i,
{
    if i < at {
        lemma_first_no_text(s, i + 1, at);
    }
}

/// Of an object's members, the first in order that is wrong is told before any
/// that is missing.
pub proof fn law_first_wrong_member_is_told(
    o: Map<Seq<char>, JsonView>,
    expected: Seq<char>,
    rules: Seq<RuleModel>,
    order: Seq<usize>,
    form: Form,
    at: int,
)
    requires
        0 <= at < order.len(),
        wrong(JsonView::Object(o), rules[order[at] as int]) is Some,
        forall|k: int|
            0 <= k < at ==> wrong(JsonView::Object(o), rules[#[trigger] order[k] as int]) is None,
    ensures
        struct_fault(JsonView::Object(o), expected, rules, order, form) == wrong(
            JsonView::Object(o),
            rules[order[at] as int],
        ),
{
    lemma_first_wrong(JsonView::Object(o), rules, order, 0, at);
}

/// What is wrong with a member where it is there.
pub open spec fn wrong(t: JsonView, rule: RuleModel) -> Option<Seq<char>> {
    if t.field(rule.key) is Some {
        value_fault(rule.kind, t.field(rule.key)->0)
    } else {
        None
    }
}

/// The first member that is wrong.
proof fn lemma_first_wrong(
    t: JsonView,
    rules: Seq<RuleModel>,
    order: Seq<usize>,
    i: nat,
    at: int,
)
    requires
        i <= at < order.len(),
        wrong(t, rules[order[at] as int]) is Some,
        forall|k: int| i <= k < at ==> wrong(t, rules[#[trigger] order[k] as int]) is None,
    ensures
        spoiled_from(t, rules, order, i) == wrong(t, rules[order[at] as int]),
    decreases at - i,
{
    if i < at {
        assert(wrong(t, rules[order[i as int] as int]) is None);
        lemma_first_wrong(t, rules, order, i + 1, at);
    }
}

/// Where no member is wrong, the first that has to be there and is not is told by
/// its name.
pub proof fn law_first_missing_member_is_told(
    o: Map<Seq<char>, JsonView>,
    expected: Seq<char>,
    rules: Seq<RuleModel>,
    order: Seq<usize>,
    form: Form,
    at: int,
)
    requires
        forall|k: int|
            0 <= k < order.len() ==> wrong(
                JsonView::Object(o),
                rules[#[trigger] order[k] as int],
            ) is None,
        0 <= at < rules.len(),
        rules[at].needed,
        !o.contains_key(rules[at].key),
        forall|k: int|
            0 <= k < at ==> !(#[trigger] rules[k]).needed || o.contains_key(rules[k].key),
    ensures
        struct_fault(JsonView::Object(o), expected, rules, order, form) == Some(
            "missing field `"@ + rules[at].key + "`"@,
        ),
{
    lemma_none_wrong(JsonView::Object(o), rules, order, 0);
    lemma_first_missing(JsonView::Object(o), rules, 0, at);
}

/// No member is wrong.
proof fn lemma_none_wrong(t: JsonView, rules: Seq<RuleModel>, order: Seq<usize>, i: nat)
    requires
        forall|k: int|
            i <= k < order.len() ==> wrong(t, rules[#[trigger] order[k] as int]) is None,
    ensures
        spoiled_from(t, rules, order, i) is None,
    decreases order.len() - i,
{
    if i < order.len() {
        assert(wrong(t, rules[order[i as int] as int]) is None);
        lemma_none_wrong(t, rules, order, i + 1);
    }
}

/// The first member that is missing.
proof fn lemma_first_missing(t: JsonView, rules: Seq<RuleModel>, i: nat, at: int)
    requires
        i <= at < rules.len(),
        rules[at].needed,
        t.field(rules[at].key) is None,
        forall|k: int|
            i <= k < at ==> !(#[trigger] rules[k]).needed || t.field(rules[k].key) is Some,
    ensures
        lacking_from(t, rules, i) == Some("missing field `"@ + rules[at].key + "`"@),
    decreases at - i,
{
    if i < at {
        assert(!rules[i as int].needed || t.field(rules[i as int].key) is Some);
        lemma_first_missing(t, rules, i + 1, at);
    }
}

/// What is neither an object nor a list is told as what it is, beside what was
/// expected.
pub proof fn law_what_is_no_structure_is_told(
    t: JsonView,
    expected: Seq<char>,
    rules: Seq<RuleModel>,
    order: Seq<usize>,
    form: Form,
)
    requires
        !(t is Object),
        !(t is Array),
    ensures
        struct_fault(t, expected, rules, order, form) == Some(
            "invalid type: "@ + found(t) + ", expected "@ + expected,
        ),
{
}

/// A list of members is too short where one that has to be there has no place in
/// it, and the words say where; it is too long where it has more places than there
/// are members.
pub proof fn law_lengths_are_told(
    len: nat,
    expected: Seq<char>,
    rules: Seq<RuleModel>,
    form: Form,
    at: int,
)
    requires
        len <= at < rules.len() ==> (rules[at].needed && forall|k: int|
            len <= k < at ==> !(#[trigger] rules[k]).needed),
    ensures
        ({
            let r = length_fault(len, expected, rules, form);
            let all = if rules.len() == 1 {
                "1 element"@
            } else {
                text::decimal(rules.len()) + " elements"@
            };
            &&& len <= at < rules.len() ==> r == Some(
                "invalid length "@ + text::decimal(at as nat) + ", expected "@ + (expected
                    + " with "@ + all),
            )
            &&& len > rules.len() && form is Buffered ==> r == Some(
                "invalid length "@ + text::decimal(len) + ", expected "@ + (all
                    + " in sequence"@),
            )
            &&& len > rules.len() && !(form is Buffered) ==> r == Some(
                "invalid length "@ + text::decimal(len) + ", expected "@
                    + "fewer elements in array"@,
            )
            &&& len == rules.len() ==> r is None
        }),
{
    if len <= at < rules.len() {
        lemma_first_needed(rules, len, at);
    }
}

/// The first member that has to be there.
proof fn lemma_first_needed(rules: Seq<RuleModel>, i: nat, at: int)
    requires
        i <= at < rules.len(),
        rules[at].needed,
        forall|k: int| i <= k < at ==> !(#[trigger] rules[k]).needed,
    ensures
        needed_from(rules, i) == Some(at as nat),
    decreases at - i,
{
    if i < at {
        assert(!rules[i as int].needed);
        lemma_first_needed(rules, i + 1, at);
    }
}

/// Of a list's elements, the first that is wrong for the member in its place is
/// told.
pub proof fn law_first_wrong_element_is_told(
    s: Seq<JsonView>,
    expected: Seq<char>,
    rules: Seq<RuleModel>,
    order: Seq<usize>,
    form: Form,
    at: int,
)
    requires
        0 <= at < s.len(),
        at < rules.len(),
        value_fault(rules[at].kind, s[at]) is Some,
        forall|k: int|
            0 <= k < at ==> value_fault((#[trigger] rules[k]).kind, s[k]) is None,
    ensures
        struct_fault(JsonView::Array(s), expected, rules, order, form) == value_fault(
            rules[at].kind,
            s[at],
        ),
{
    lemma_first_listed(s, rules, 0, at);
}

/// The first element that is wrong.
proof fn lemma_first_listed(s: Seq<JsonView>, rules: Seq<RuleModel>, i: nat, at: int)
    requires
        i <= at < s.len(),
        at < rules.len(),
        value_fault(rules[at].kind, s[at]) is Some,
        forall|k: int|
            i <= k < at ==> value_fault((#[trigger] rules[k]).kind, s[k]) is None,
    ensures
        listed_from(s, rules, i) == value_fault(rules[at].kind, s[at]),
    decreases at - i,
{
    if i < at {
        assert(value_fault(rules[i as int].kind, s[i as int]) is None);
        lemma_first_listed(s, rules, i + 1, at);
    }
}

} // verus!
