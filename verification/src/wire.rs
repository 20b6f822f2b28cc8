//! The JSON form of the protocol's types: what each type writes, what it reads,
//! and that it reads what it writes.

use crate::json::{self, Json, JsonObject, JsonView, NumberView};
use crate::string_map::StringMap;
use crate::text;
use vstd::prelude::*;
use vstd::string::*;

verus! {

/// Why a JSON value is not of a type, by the member at fault.
#[verifier::ext_equal]
pub enum Fault {
    /// A member that has to be there is not.
    Missing(Seq<char>),
    /// A member is there with a value it cannot have.
    Invalid(Seq<char>),
}

/// Why a JSON value was not decoded.
#[derive(Debug, PartialEq)]
pub enum DecodeError {
    /// The named member is missing.
    Missing(String),
    /// The named member has a value it cannot have.
    Invalid(String),
}

impl View for DecodeError {
    type V = Fault;

    open spec fn view(&self) -> Fault {
        match self {
            DecodeError::Missing(s) => Fault::Missing(s@),
            DecodeError::Invalid(s) => Fault::Invalid(s@),
        }
    }
}

impl Fault {
    /// The fault in words.
    pub open spec fn text(self) -> Seq<char> {
        match self {
            Fault::Missing(s) => "missing field `"@ + s + "`"@,
            Fault::Invalid(s) => "invalid value for field `"@ + s + "`"@,
        }
    }
}

impl DecodeError {
    /// The error in words.
    pub fn message(&self) -> (r: String)
        ensures
            r@ == self@.text(),
    {
        let mut out: String;
        match self {
            DecodeError::Missing(s) => {
                out = "missing field `".to_owned();
                out.append(s.as_str());
            },
            DecodeError::Invalid(s) => {
                out = "invalid value for field `".to_owned();
                out.append(s.as_str());
            },
        }
        out.append("`");
        out
    }
}

/// Where a JSON value was read, which decides what stands for a type besides its
/// own form.
#[derive(Debug, Clone, Copy, PartialEq, Eq, Structural)]
pub enum Form {
    /// In a JSON text.
    Plain,
    /// Beside the tag of an enumeration, in a JSON text.
    Buffered,
    /// In a TOML text.
    Toml,
}

/// The texts of a list of literals.
pub open spec fn strs(s: Seq<&str>) -> Seq<Seq<char>> {
    Seq::new(s.len(), |i: int| s[i]@)
}

/// The first `n` values of a list under the first `n` names.
pub open spec fn named(names: Seq<Seq<char>>, values: Seq<JsonView>, n: nat) -> Map<
    Seq<char>,
    JsonView,
>
    decreases n,
{
    if n == 0 {
        Map::empty()
    } else {
        named(names, values, (n - 1) as nat).insert(names[n - 1], values[n - 1])
    }
}

/// How many values of a list have a name.
pub open spec fn named_count(names: nat, values: nat) -> nat {
    if values < names {
        values
    } else {
        names
    }
}

/// The object that stands for a structure. A structure may also be written as the
/// list of its members in order, of which the last ones may be missing as far as
/// they have values of their own for that; in TOML there may be more than it has.
pub open spec fn unlisted(
    t: JsonView,
    names: Seq<Seq<char>>,
    least: nat,
    form: Form,
) -> JsonView {
    match t {
        JsonView::Array(s) => if least <= s.len() && (s.len() <= names.len() || form is Toml) {
            JsonView::Object(named(names, s, named_count(names.len(), s.len())))
        } else {
            t
        },
        _ => t,
    }
}

/// Turns the list of a structure's members into an object; nothing where it is
/// written otherwise.
pub fn unlist(j: &Json, names: &[&str], least: usize, form: Form) -> (r: Option<Json>)
    ensures
        unlisted(j@, strs(names@), least as nat, form) == match r {
            Some(o) => o@,
            None => j@,
        },
{
    match j {
        Json::Array(v) => {
            proof {
                json::lemma_elements_view(v@);
            }
            if v.len() < least || (v.len() > names.len() && form != Form::Toml) {
                return None;
            }
            let ghost values = json::elements_view(v@);
            let n: usize = if v.len() < names.len() {
                v.len()
            } else {
                names.len()
            };
            let mut o = JsonObject::new();
            for i in 0..n
                invariant
                    n <= v@.len(),
                    n <= names@.len(),
                    values.len() == v@.len(),
                    forall|k: int| 0 <= k < v@.len() ==> #[trigger] values[k] == v@[k]@,
                    o@ == named(strs(names@), values, i as nat),
            {
                o.set(names[i], v[i].clone());
            }
            Some(o.finish())
        },
        _ => None,
    }
}

/// Whether a value may stand beside the name of a variant that has none.
pub open spec fn hollow(v: JsonView, form: Form) -> bool {
    match form {
        Form::Plain => v is Null,
        Form::Buffered => v is Null || v == JsonView::Object(Map::empty()),
        Form::Toml => v == JsonView::Object(Map::empty()) || v == JsonView::Array(Seq::empty()),
    }
}

/// Whether a value may stand beside the name of a variant that has none.
fn is_hollow(j: &Json, form: Form) -> (r: bool)
    ensures
        r == hollow(j@, form),
{
    match j {
        Json::Null => form != Form::Toml,
        Json::Object(m) => {
            proof {
                if m@.len() > 0 {
                    assert(json::members_view(m@).contains_key(m@.last().0@));
                } else {
                    assert(json::members_view(m@) =~= Map::empty());
                }
            }
            m.len() == 0 && form != Form::Plain
        },
        Json::Array(v) => {
            proof {
                json::lemma_elements_view(v@);
                if v@.len() == 0 {
                    assert(json::elements_view(v@) =~= Seq::empty());
                }
            }
            v.len() == 0 && form == Form::Toml
        },
        _ => false,
    }
}

/// Whether an object has this member and no other.
pub open spec fn only_member(o: Map<Seq<char>, JsonView>, key: Seq<char>) -> bool {
    o.contains_key(key) && forall|k: Seq<char>| #[trigger] o.contains_key(k) ==> k == key
}

/// The name of a variant that has no values: a string, or the one member of an
/// object with nothing under it.
pub open spec fn name_in(t: JsonView, form: Form) -> Option<Seq<char>> {
    match t {
        JsonView::Text(s) => Some(s),
        JsonView::Object(o) => if exists|k: Seq<char>| #[trigger]
            only_member(o, k) && hollow(o[k], form) {
            Some(choose|k: Seq<char>| #[trigger] only_member(o, k) && hollow(o[k], form))
        } else {
            None
        },
        _ => None,
    }
}

/// Finds the name of a variant that has no values.
pub fn name_of(j: &Json, form: Form) -> (r: Option<&str>)
    ensures
        match r {
            Some(s) => name_in(j@, form) == Some(s@),
            None => name_in(j@, form) is None,
        },
{
    match j {
        Json::Text(s) => Some(s.as_str()),
        Json::Object(m) => {
            let ghost o = json::members_view(m@);
            if m.len() == 0 {
                assert(o =~= Map::empty());
                return None;
            }
            let key = m[0].0.as_str();
            proof {
                lemma_member_is_kept(m@, 0);
                assert(m@.take(1).drop_last() =~= Seq::empty());
                assert(json::members_view(Seq::<(String, Json)>::empty()) =~= Map::empty());
            }
            let mut i: usize = 1;
            while i < m.len()
                invariant
                    1 <= i <= m@.len(),
                    key@ == m@[0].0@,
                    j@ == JsonView::Object(o),
                    o == json::members_view(m@),
                    o.contains_key(key@),
                    forall|k: Seq<char>| #[trigger]
                        json::members_view(m@.take(i as int)).contains_key(k) ==> k == key@,
                decreases m@.len() - i,
            {
                if !text::same(m[i].0.as_str(), key) {
                    proof {
                        lemma_member_is_kept(m@, i as int);
                        assert(o.contains_key(m@[i as int].0@));
                    }
                    return None;
                }
                proof {
                    let upto = m@.take(i + 1);
                    assert(upto.drop_last() =~= m@.take(i as int));
                    assert(upto.last().0@ == key@);
                    assert(json::members_view(upto).dom() =~= json::members_view(
                        m@.take(i as int),
                    ).dom().insert(key@));
                }
                i = i + 1;
            }
            proof {
                assert(m@.take(m@.len() as int) =~= m@);
                assert(only_member(o, key@));
            }
            match j.get(key) {
                Some(v) => if is_hollow(v, form) {
                    Some(key)
                } else {
                    None
                },
                None => None,
            }
        },
        _ => None,
    }
}

/// The name of the variant that a value is tagged with: under the tag's key, or
/// first in a list. Beside another tag it may be the variant's number.
pub open spec fn tag_in(
    t: JsonView,
    key: Seq<char>,
    names: Seq<Seq<char>>,
    form: Form,
) -> Result<Seq<char>, Fault> {
    let tag = match t {
        JsonView::Array(s) => if s.len() > 0 {
            Some(s[0])
        } else {
            None
        },
        _ => t.field(key),
    };
    match tag {
        None => Err(Fault::Missing(key)),
        Some(JsonView::Text(s)) => Ok(s),
        Some(v) => match v.integer() {
            Some(i) => if form is Buffered && 0 <= i < names.len() {
                Ok(names[i])
            } else {
                Err(Fault::Invalid(key))
            },
            None => Err(Fault::Invalid(key)),
        },
    }
}

/// Finds the name of the variant that a value is tagged with.
pub fn tag_of(j: &Json, key: &str, names: &[&str], form: Form) -> (r: Result<String, DecodeError>)
    ensures
        match r {
            Ok(s) => tag_in(j@, key@, strs(names@), form) == Ok::<Seq<char>, Fault>(s@),
            Err(e) => tag_in(j@, key@, strs(names@), form) == Err::<Seq<char>, Fault>(e@),
        },
{
    let tag: Option<&Json> = match j {
        Json::Array(v) => {
            proof {
                json::lemma_elements_view(v@);
            }
            if v.len() > 0 {
                Some(&v[0])
            } else {
                None
            }
        },
        _ => j.get(key),
    };
    match tag {
        None => Err(DecodeError::Missing(key.to_owned())),
        Some(Json::Text(s)) => Ok(s.clone()),
        Some(v) => match v.as_u64() {
            Some(i) => if form == Form::Buffered && i < names.len() as u64 {
                Ok(names[i as usize].to_owned())
            } else {
                Err(DecodeError::Invalid(key.to_owned()))
            },
            None => Err(DecodeError::Invalid(key.to_owned())),
        },
    }
}

/// What stands beside the tag of a value: the object, or the rest of a list.
pub open spec fn untagged(t: JsonView) -> JsonView {
    match t {
        JsonView::Array(s) => if s.len() > 0 {
            JsonView::Array(s.skip(1))
        } else {
            t
        },
        _ => t,
    }
}

/// Takes the tag off a list; nothing where the value is written otherwise.
pub fn untag(j: &Json) -> (r: Option<Json>)
    ensures
        untagged(j@) == match r {
            Some(o) => o@,
            None => j@,
        },
{
    match j {
        Json::Array(v) => {
            proof {
                json::lemma_elements_view(v@);
            }
            if v.len() == 0 {
                return None;
            }
            let ghost values = json::elements_view(v@);
            let mut out: Vec<Json> = Vec::new();
            for i in 1..v.len()
                invariant
                    out@.len() == i - 1,
                    forall|k: int| 0 <= k < i - 1 ==> (#[trigger] out@[k])@ == v@[k + 1]@,
            {
                out.push(v[i].clone());
            }
            proof {
                json::lemma_elements_view(out@);
                assert(json::elements_view(out@) =~= values.skip(1));
            }
            Some(Json::Array(out))
        },
        _ => None,
    }
}

/// A type with a JSON form.
pub trait Wire: Sized {
    /// What a value of the type is.
    type Model;

    /// What this value is.
    spec fn model(&self) -> Self::Model;

    /// The JSON form of a value.
    spec fn tree(m: Self::Model) -> JsonView;

    /// The value that a JSON form stands for; `at` names the member that holds
    /// the form.
    spec fn read(t: JsonView, at: Seq<char>, form: Form) -> Result<Self::Model, Fault>;

    /// Whether the JSON form of a value stands for that value again.
    spec fn lossless(m: Self::Model) -> bool;

    /// Whether the JSON form of a value holds no float and nests arrays and
    /// objects no deeper than `depth`.
    spec fn fits(m: Self::Model, depth: nat) -> bool;

    /// Writes the JSON form.
    fn to_json(&self) -> (r: Json)
        ensures
            r@ == Self::tree(self.model()),
    ;

    /// Reads the JSON form.
    fn from_json(j: &Json, at: &str, form: Form) -> (r: Result<Self, DecodeError>)
        ensures
            match r {
                Ok(x) => Self::read(j@, at@, form) == Ok::<Self::Model, Fault>(x.model()),
                Err(e) => Self::read(j@, at@, form) == Err::<Self::Model, Fault>(e@),
            },
    ;

    /// What was written is read back.
    proof fn law_reads_what_it_writes(m: Self::Model, at: Seq<char>, form: Form)
        requires
            Self::lossless(m),
            !(form is Toml),
        ensures
            Self::read(Self::tree(m), at, form) == Ok::<Self::Model, Fault>(m),
    ;

    /// The JSON form is as deep as it is said to be.
    proof fn law_fits(m: Self::Model, depth: nat)
        requires
            Self::fits(m, depth),
        ensures
            json::plain_within(Self::tree(m), depth),
    ;
}

/// A member that has to be there.
pub open spec fn read_required<T: Wire>(t: JsonView, key: Seq<char>, form: Form) -> Result<
    T::Model,
    Fault,
> {
    match t.field(key) {
        Some(v) => T::read(v, key, form),
        None => Err(Fault::Missing(key)),
    }
}

/// A member that may be missing or `null`. TOML has no `null`: what stands for it
/// is a number that JSON does not have.
pub open spec fn read_optional<T: Wire>(t: JsonView, key: Seq<char>, form: Form) -> Result<
    Option<T::Model>,
    Fault,
> {
    match t.field(key) {
        None => Ok(None),
        Some(v) => if v is Null && !(form is Toml) {
            Ok(None)
        } else {
            match T::read(v, key, form) {
                Ok(m) => Ok(Some(m)),
                Err(e) => Err(e),
            }
        },
    }
}

/// A member with a value of its own for when it is missing.
pub open spec fn read_or<T: Wire>(
    t: JsonView,
    key: Seq<char>,
    missing: T::Model,
    form: Form,
) -> Result<T::Model, Fault> {
    match t.field(key) {
        Some(v) => T::read(v, key, form),
        None => Ok(missing),
    }
}

/// What an optional value is.
pub open spec fn optional_model<T: Wire>(o: Option<T>) -> Option<T::Model> {
    match o {
        Some(x) => Some(x.model()),
        None => None,
    }
}

/// An object with one more member where there is a value for it.
pub open spec fn with_optional<T: Wire>(
    o: Map<Seq<char>, JsonView>,
    key: Seq<char>,
    m: Option<T::Model>,
) -> Map<Seq<char>, JsonView> {
    match m {
        Some(x) => o.insert(key, T::tree(x)),
        None => o,
    }
}

/// The JSON form of a member where there is a value for it.
pub open spec fn optional_tree<T: Wire>(m: Option<T::Model>) -> Option<JsonView> {
    match m {
        Some(x) => Some(T::tree(x)),
        None => None,
    }
}

/// The JSON form of a member that is `null` where there is no value for it.
pub open spec fn nullable_tree<T: Wire>(m: Option<T::Model>) -> JsonView {
    match m {
        Some(x) => T::tree(x),
        None => JsonView::Null,
    }
}

/// Writes a member that is `null` where there is no value for it.
pub fn nullable<T: Wire>(v: &Option<T>) -> (r: Json)
    ensures
        r@ == nullable_tree::<T>(optional_model(*v)),
{
    match v {
        Some(x) => x.to_json(),
        None => Json::Null,
    }
}

/// Whether an optional member holds no float and nests no deeper than `depth`.
pub open spec fn optional_fits<T: Wire>(m: Option<T::Model>, depth: nat) -> bool {
    match m {
        Some(x) => T::fits(x, depth),
        None => true,
    }
}

/// An optional member nests no deeper than its value.
pub proof fn lemma_optional_within<T: Wire>(
    o: Map<Seq<char>, JsonView>,
    key: Seq<char>,
    m: Option<T::Model>,
    depth: nat,
)
    requires
        json::members_within(o, depth),
        optional_fits::<T>(m, depth),
    ensures
        json::members_within(with_optional::<T>(o, key, m), depth),
{
    if let Some(x) = m {
        T::law_fits(x, depth);
        json::lemma_insert_within(o, key, T::tree(x), depth);
    }
}

/// A member that may be `null` nests no deeper than its value.
pub proof fn lemma_nullable_within<T: Wire>(m: Option<T::Model>, depth: nat)
    requires
        optional_fits::<T>(m, depth),
    ensures
        json::plain_within(nullable_tree::<T>(m), depth),
{
    if let Some(x) = m {
        T::law_fits(x, depth);
    }
}

/// Whether an optional member is kept: its value is, and does not look like a
/// missing one.
pub open spec fn optional_lossless<T: Wire>(m: Option<T::Model>) -> bool {
    match m {
        Some(x) => T::lossless(x) && T::tree(x) != JsonView::Null,
        None => true,
    }
}

/// An optional member that is kept is read back.
pub proof fn lemma_optional_reads_back<T: Wire>(m: Option<T::Model>, key: Seq<char>, form: Form)
    requires
        optional_lossless::<T>(m),
        !(form is Toml),
    ensures
        forall|t: JsonView|
            #![trigger read_optional::<T>(t, key, form)]
            t.field(key) == optional_tree::<T>(m) || t.field(key) == Some(nullable_tree::<T>(m))
                ==> read_optional::<T>(t, key, form) == Ok::<
                Option<T::Model>,
                Fault,
            >(m),
{
    if let Some(x) = m {
        T::law_reads_what_it_writes(x, key, form);
    }
}

/// Reads a member that has to be there.
pub fn required<T: Wire>(j: &Json, key: &str, form: Form) -> (r: Result<T, DecodeError>)
    ensures
        match r {
            Ok(x) => read_required::<T>(j@, key@, form) == Ok::<T::Model, Fault>(x.model()),
            Err(e) => read_required::<T>(j@, key@, form) == Err::<T::Model, Fault>(e@),
        },
{
    match j.get(key) {
        Some(v) => T::from_json(v, key, form),
        None => Err(DecodeError::Missing(key.to_owned())),
    }
}

/// Reads a member that may be missing or `null`.
pub fn optional<T: Wire>(j: &Json, key: &str, form: Form) -> (r: Result<Option<T>, DecodeError>)
    ensures
        match r {
            Ok(x) => read_optional::<T>(j@, key@, form) == Ok::<Option<T::Model>, Fault>(
                optional_model(x),
            ),
            Err(e) => read_optional::<T>(j@, key@, form) == Err::<Option<T::Model>, Fault>(e@),
        },
{
    match j.get(key) {
        None => Ok(None),
        Some(v) => if v.is_null() && form != Form::Toml {
            Ok(None)
        } else {
            match T::from_json(v, key, form) {
                Ok(x) => Ok(Some(x)),
                Err(e) => Err(e),
            }
        },
    }
}

/// Reads a member that stands for `missing` when it is not there.
pub fn defaulted<T: Wire>(j: &Json, key: &str, missing: T, form: Form) -> (r: Result<
    T,
    DecodeError,
>)
    ensures
        match r {
            Ok(x) => read_or::<T>(j@, key@, missing.model(), form) == Ok::<T::Model, Fault>(x.model()),
            Err(e) => read_or::<T>(j@, key@, missing.model(), form) == Err::<T::Model, Fault>(e@),
        },
{
    match j.get(key) {
        Some(v) => T::from_json(v, key, form),
        None => Ok(missing),
    }
}

/// Writes a member where there is a value for it.
pub fn set_optional<T: Wire>(o: &mut JsonObject, key: &str, v: &Option<T>)
    ensures
        final(o)@ == with_optional::<T>(old(o)@, key@, optional_model(*v)),
{
    match v {
        Some(x) => o.set(key, x.to_json()),
        None => {},
    }
}

impl Wire for bool {
    type Model = bool;

    open spec fn model(&self) -> bool {
        *self
    }

    open spec fn tree(m: bool) -> JsonView {
        JsonView::Bool(m)
    }

    open spec fn read(t: JsonView, at: Seq<char>, form: Form) -> Result<bool, Fault> {
        match t {
            JsonView::Bool(b) => Ok(b),
            _ => Err(Fault::Invalid(at)),
        }
    }

    open spec fn lossless(m: bool) -> bool {
        true
    }

    open spec fn fits(m: bool, depth: nat) -> bool {
        true
    }

    fn to_json(&self) -> (r: Json) {
        Json::Bool(*self)
    }

    fn from_json(j: &Json, at: &str, form: Form) -> (r: Result<bool, DecodeError>) {
        match j {
            Json::Bool(b) => Ok(*b),
            _ => Err(DecodeError::Invalid(at.to_owned())),
        }
    }

    proof fn law_reads_what_it_writes(m: bool, at: Seq<char>, form: Form) {
    }

    proof fn law_fits(m: bool, depth: nat) {
    }
}

impl Wire for u64 {
    type Model = u64;

    open spec fn model(&self) -> u64 {
        *self
    }

    open spec fn tree(m: u64) -> JsonView {
        JsonView::Number(NumberView::Int(m as int))
    }

    open spec fn read(t: JsonView, at: Seq<char>, form: Form) -> Result<u64, Fault> {
        match t.integer() {
            Some(i) => if u64::MIN <= i <= u64::MAX {
                Ok(i as u64)
            } else {
                Err(Fault::Invalid(at))
            },
            None => Err(Fault::Invalid(at)),
        }
    }

    open spec fn lossless(m: u64) -> bool {
        true
    }

    open spec fn fits(m: u64, depth: nat) -> bool {
        true
    }

    fn to_json(&self) -> (r: Json) {
        Json::unsigned(*self)
    }

    fn from_json(j: &Json, at: &str, form: Form) -> (r: Result<u64, DecodeError>) {
        match j.as_u64() {
            Some(n) => Ok(n),
            None => Err(DecodeError::Invalid(at.to_owned())),
        }
    }

    proof fn law_reads_what_it_writes(m: u64, at: Seq<char>, form: Form) {
    }

    proof fn law_fits(m: u64, depth: nat) {
    }
}

impl Wire for usize {
    type Model = usize;

    open spec fn model(&self) -> usize {
        *self
    }

    open spec fn tree(m: usize) -> JsonView {
        JsonView::Number(NumberView::Int(m as int))
    }

    open spec fn read(t: JsonView, at: Seq<char>, form: Form) -> Result<usize, Fault> {
        match t.integer() {
            Some(i) => if usize::MIN <= i <= usize::MAX {
                Ok(i as usize)
            } else {
                Err(Fault::Invalid(at))
            },
            None => Err(Fault::Invalid(at)),
        }
    }

    open spec fn lossless(m: usize) -> bool {
        true
    }

    open spec fn fits(m: usize, depth: nat) -> bool {
        true
    }

    fn to_json(&self) -> (r: Json) {
        Json::unsigned(*self as u64)
    }

    fn from_json(j: &Json, at: &str, form: Form) -> (r: Result<usize, DecodeError>) {
        match j.as_u64() {
            Some(n) => if n <= usize::MAX as u64 {
                Ok(n as usize)
            } else {
                Err(DecodeError::Invalid(at.to_owned()))
            },
            None => Err(DecodeError::Invalid(at.to_owned())),
        }
    }

    proof fn law_reads_what_it_writes(m: usize, at: Seq<char>, form: Form) {
    }

    proof fn law_fits(m: usize, depth: nat) {
    }
}

impl Wire for u32 {
    type Model = u32;

    open spec fn model(&self) -> u32 {
        *self
    }

    open spec fn tree(m: u32) -> JsonView {
        JsonView::Number(NumberView::Int(m as int))
    }

    open spec fn read(t: JsonView, at: Seq<char>, form: Form) -> Result<u32, Fault> {
        match t.integer() {
            Some(i) => if u32::MIN <= i <= u32::MAX {
                Ok(i as u32)
            } else {
                Err(Fault::Invalid(at))
            },
            None => Err(Fault::Invalid(at)),
        }
    }

    open spec fn lossless(m: u32) -> bool {
        true
    }

    open spec fn fits(m: u32, depth: nat) -> bool {
        true
    }

    fn to_json(&self) -> (r: Json) {
        Json::unsigned(*self as u64)
    }

    fn from_json(j: &Json, at: &str, form: Form) -> (r: Result<u32, DecodeError>) {
        match j.as_u64() {
            Some(n) => if n <= u32::MAX as u64 {
                Ok(n as u32)
            } else {
                Err(DecodeError::Invalid(at.to_owned()))
            },
            None => Err(DecodeError::Invalid(at.to_owned())),
        }
    }

    proof fn law_reads_what_it_writes(m: u32, at: Seq<char>, form: Form) {
    }

    proof fn law_fits(m: u32, depth: nat) {
    }
}

impl Wire for i64 {
    type Model = i64;

    open spec fn model(&self) -> i64 {
        *self
    }

    open spec fn tree(m: i64) -> JsonView {
        JsonView::Number(NumberView::Int(m as int))
    }

    open spec fn read(t: JsonView, at: Seq<char>, form: Form) -> Result<i64, Fault> {
        match t.integer() {
            Some(i) => if i64::MIN <= i <= i64::MAX {
                Ok(i as i64)
            } else {
                Err(Fault::Invalid(at))
            },
            None => Err(Fault::Invalid(at)),
        }
    }

    open spec fn lossless(m: i64) -> bool {
        true
    }

    open spec fn fits(m: i64, depth: nat) -> bool {
        true
    }

    fn to_json(&self) -> (r: Json) {
        Json::signed(*self)
    }

    fn from_json(j: &Json, at: &str, form: Form) -> (r: Result<i64, DecodeError>) {
        match j.as_i64() {
            Some(n) => Ok(n),
            None => Err(DecodeError::Invalid(at.to_owned())),
        }
    }

    proof fn law_reads_what_it_writes(m: i64, at: Seq<char>, form: Form) {
    }

    proof fn law_fits(m: i64, depth: nat) {
    }
}

impl Wire for i32 {
    type Model = i32;

    open spec fn model(&self) -> i32 {
        *self
    }

    open spec fn tree(m: i32) -> JsonView {
        JsonView::Number(NumberView::Int(m as int))
    }

    open spec fn read(t: JsonView, at: Seq<char>, form: Form) -> Result<i32, Fault> {
        match t.integer() {
            Some(i) => if i32::MIN <= i <= i32::MAX {
                Ok(i as i32)
            } else {
                Err(Fault::Invalid(at))
            },
            None => Err(Fault::Invalid(at)),
        }
    }

    open spec fn lossless(m: i32) -> bool {
        true
    }

    open spec fn fits(m: i32, depth: nat) -> bool {
        true
    }

    fn to_json(&self) -> (r: Json) {
        Json::signed(*self as i64)
    }

    fn from_json(j: &Json, at: &str, form: Form) -> (r: Result<i32, DecodeError>) {
        match j.as_i64() {
            Some(n) => if i32::MIN as i64 <= n && n <= i32::MAX as i64 {
                Ok(n as i32)
            } else {
                Err(DecodeError::Invalid(at.to_owned()))
            },
            None => Err(DecodeError::Invalid(at.to_owned())),
        }
    }

    proof fn law_reads_what_it_writes(m: i32, at: Seq<char>, form: Form) {
    }

    proof fn law_fits(m: i32, depth: nat) {
    }
}

impl Wire for String {
    type Model = Seq<char>;

    open spec fn model(&self) -> Seq<char> {
        self@
    }

    open spec fn tree(m: Seq<char>) -> JsonView {
        JsonView::Text(m)
    }

    open spec fn read(t: JsonView, at: Seq<char>, form: Form) -> Result<Seq<char>, Fault> {
        match t {
            JsonView::Text(s) => Ok(s),
            _ => Err(Fault::Invalid(at)),
        }
    }

    open spec fn lossless(m: Seq<char>) -> bool {
        true
    }

    open spec fn fits(m: Seq<char>, depth: nat) -> bool {
        true
    }

    fn to_json(&self) -> (r: Json) {
        Json::Text(self.clone())
    }

    fn from_json(j: &Json, at: &str, form: Form) -> (r: Result<String, DecodeError>) {
        match j {
            Json::Text(s) => Ok(s.clone()),
            _ => Err(DecodeError::Invalid(at.to_owned())),
        }
    }

    proof fn law_reads_what_it_writes(m: Seq<char>, at: Seq<char>, form: Form) {
    }

    proof fn law_fits(m: Seq<char>, depth: nat) {
    }
}

/// Any JSON value, carried as it is. As an optional member `null` reads as
/// nothing, so that value is not kept.
impl Wire for Json {
    type Model = JsonView;

    open spec fn model(&self) -> JsonView {
        self@
    }

    open spec fn tree(m: JsonView) -> JsonView {
        m
    }

    open spec fn read(t: JsonView, at: Seq<char>, form: Form) -> Result<JsonView, Fault> {
        Ok(t)
    }

    open spec fn lossless(m: JsonView) -> bool {
        true
    }

    open spec fn fits(m: JsonView, depth: nat) -> bool {
        json::plain_within(m, depth)
    }

    fn to_json(&self) -> (r: Json) {
        self.clone()
    }

    fn from_json(j: &Json, at: &str, form: Form) -> (r: Result<Json, DecodeError>) {
        Ok(j.clone())
    }

    proof fn law_reads_what_it_writes(m: JsonView, at: Seq<char>, form: Form) {
    }

    proof fn law_fits(m: JsonView, depth: nat) {
    }
}

/// Element by element, what a list of values is.
pub open spec fn models<T: Wire>(s: Seq<T>) -> Seq<T::Model> {
    Seq::new(s.len(), |i: int| s[i].model())
}

/// The elements of a JSON array, up to the first that cannot be read.
pub open spec fn read_elements<T: Wire>(s: Seq<JsonView>, at: Seq<char>, form: Form) -> Result<
    Seq<T::Model>,
    Fault,
>
    decreases s.len(),
{
    if s.len() == 0 {
        Ok(Seq::empty())
    } else {
        match read_elements::<T>(s.drop_last(), at, form) {
            Err(e) => Err(e),
            Ok(front) => match T::read(s.last(), at, form) {
                Ok(m) => Ok(front.push(m)),
                Err(e) => Err(e),
            },
        }
    }
}

/// Once an element cannot be read, the elements behind it do not matter.
proof fn lemma_first_fault_counts<T: Wire>(s: Seq<JsonView>, at: Seq<char>, form: Form, n: int)
    requires
        0 <= n <= s.len(),
        read_elements::<T>(s.take(n), at, form) is Err,
    ensures
        read_elements::<T>(s, at, form) == read_elements::<T>(s.take(n), at, form),
    decreases s.len() - n,
{
    if n < s.len() {
        assert(s.take(n + 1).drop_last() =~= s.take(n));
        lemma_first_fault_counts::<T>(s, at, form, n + 1);
    } else {
        assert(s.take(n) =~= s);
    }
}

/// The JSON forms of a list of values read back as the values.
proof fn lemma_elements_read_back<T: Wire>(m: Seq<T::Model>, at: Seq<char>, form: Form)
    requires
        forall|i: int| 0 <= i < m.len() ==> T::lossless(#[trigger] m[i]),
        !(form is Toml),
    ensures
        read_elements::<T>(Seq::new(m.len(), |i: int| T::tree(m[i])), at, form) == Ok::<
            Seq<T::Model>,
            Fault,
        >(m),
    decreases m.len(),
{
    let trees = Seq::new(m.len(), |i: int| T::tree(m[i]));
    if m.len() > 0 {
        let front = m.drop_last();
        lemma_elements_read_back::<T>(front, at, form);
        assert(trees.drop_last() =~= Seq::new(front.len(), |i: int| T::tree(front[i])));
        assert(T::lossless(m[m.len() - 1]));
        T::law_reads_what_it_writes(m.last(), at, form);
        assert(front.push(m.last()) =~= m);
    } else {
        assert(m =~= Seq::empty());
    }
}

impl<T: Wire> Wire for Vec<T> {
    type Model = Seq<T::Model>;

    open spec fn model(&self) -> Seq<T::Model> {
        models(self@)
    }

    open spec fn tree(m: Seq<T::Model>) -> JsonView {
        JsonView::Array(Seq::new(m.len(), |i: int| T::tree(m[i])))
    }

    open spec fn read(t: JsonView, at: Seq<char>, form: Form) -> Result<Seq<T::Model>, Fault> {
        match t {
            JsonView::Array(s) => read_elements::<T>(s, at, form),
            _ => Err(Fault::Invalid(at)),
        }
    }

    open spec fn lossless(m: Seq<T::Model>) -> bool {
        forall|i: int| 0 <= i < m.len() ==> T::lossless(#[trigger] m[i])
    }

    open spec fn fits(m: Seq<T::Model>, depth: nat) -> bool {
        depth > 0 && forall|i: int|
            0 <= i < m.len() ==> T::fits(#[trigger] m[i], (depth - 1) as nat)
    }

    fn to_json(&self) -> (r: Json) {
        let mut out: Vec<Json> = Vec::new();
        for i in 0..self.len()
            invariant
                out@.len() == i,
                forall|k: int| 0 <= k < i ==> (#[trigger] out@[k])@ == T::tree(self@[k].model()),
        {
            out.push(self[i].to_json());
        }
        proof {
            crate::json::lemma_elements_view(out@);
            assert(crate::json::elements_view(out@) =~= Seq::new(
                self.model().len(),
                |i: int| T::tree(self.model()[i]),
            ));
        }
        Json::Array(out)
    }

    fn from_json(j: &Json, at: &str, form: Form) -> (r: Result<Vec<T>, DecodeError>) {
        match j {
            Json::Array(v) => {
                let ghost trees = crate::json::elements_view(v@);
                let mut out: Vec<T> = Vec::new();
                proof {
                    crate::json::lemma_elements_view(v@);
                    assert(models(out@) =~= Seq::<T::Model>::empty());
                }
                for i in 0..v.len()
                    invariant
                        j@ == JsonView::Array(trees),
                        trees.len() == v@.len(),
                        forall|k: int| 0 <= k < v@.len() ==> #[trigger] trees[k] == v@[k]@,
                        read_elements::<T>(trees.take(i as int), at@, form) == Ok::<
                            Seq<T::Model>,
                            Fault,
                        >(models(out@)),
                {
                    proof {
                        assert(trees.take(i + 1).drop_last() =~= trees.take(i as int));
                        assert(trees.take(i + 1).last() == v@[i as int]@);
                    }
                    match T::from_json(&v[i], at, form) {
                        Ok(x) => {
                            let ghost before = out@;
                            out.push(x);
                            assert(models(out@) =~= models(before).push(x.model()));
                        },
                        Err(e) => {
                            proof {
                                lemma_first_fault_counts::<T>(trees, at@, form, i + 1);
                            }
                            return Err(e);
                        },
                    }
                }
                assert(trees.take(trees.len() as int) =~= trees);
                Ok(out)
            },
            _ => Err(DecodeError::Invalid(at.to_owned())),
        }
    }

    proof fn law_reads_what_it_writes(m: Seq<T::Model>, at: Seq<char>, form: Form) {
        lemma_elements_read_back::<T>(m, at, form);
    }

    proof fn law_fits(m: Seq<T::Model>, depth: nat) {
        let trees = Self::tree(m)->Array_0;
        assert forall|i: int| 0 <= i < trees.len() implies json::plain_within(
            #[trigger] trees[i],
            (depth - 1) as nat,
        ) by {
            T::law_fits(m[i], (depth - 1) as nat);
        }
    }
}

/// Whether every member of an object is a string.
pub open spec fn all_text(o: Map<Seq<char>, JsonView>) -> bool {
    forall|k: Seq<char>| #[trigger] o.contains_key(k) ==> o[k] is Text
}

impl Wire for StringMap {
    type Model = Map<Seq<char>, Seq<char>>;

    open spec fn model(&self) -> Map<Seq<char>, Seq<char>> {
        self@
    }

    open spec fn tree(m: Map<Seq<char>, Seq<char>>) -> JsonView {
        JsonView::Object(m.map_values(|s: Seq<char>| JsonView::Text(s)))
    }

    open spec fn read(t: JsonView, at: Seq<char>, form: Form) -> Result<Map<Seq<char>, Seq<char>>, Fault> {
        match t {
            JsonView::Object(o) => if all_text(o) {
                Ok(o.map_values(|v: JsonView| v->Text_0))
            } else {
                Err(Fault::Invalid(at))
            },
            _ => Err(Fault::Invalid(at)),
        }
    }

    open spec fn lossless(m: Map<Seq<char>, Seq<char>>) -> bool {
        true
    }

    open spec fn fits(m: Map<Seq<char>, Seq<char>>, depth: nat) -> bool {
        depth > 0
    }

    fn to_json(&self) -> (r: Json) {
        let entries = self.entries();
        let mut o = JsonObject::new();
        proof {
            assert(o@ =~= crate::string_map::entries_view(entries@.take(0)).map_values(
                |s: Seq<char>| JsonView::Text(s),
            ));
        }
        for i in 0..entries.len()
            invariant
                o@ == crate::string_map::entries_view(entries@.take(i as int)).map_values(
                    |s: Seq<char>| JsonView::Text(s),
                ),
        {
            proof {
                assert(entries@.take(i + 1).drop_last() =~= entries@.take(i as int));
            }
            let ghost before = o@;
            o.set(entries[i].0.as_str(), Json::Text(entries[i].1.clone()));
            proof {
                assert(o@ =~= crate::string_map::entries_view(entries@.take(i + 1)).map_values(
                    |s: Seq<char>| JsonView::Text(s),
                ));
            }
        }
        assert(entries@.take(entries@.len() as int) =~= entries@);
        o.finish()
    }

    fn from_json(j: &Json, at: &str, form: Form) -> (r: Result<StringMap, DecodeError>) {
        match j {
            Json::Object(m) => {
                let ghost o = crate::json::members_view(m@);
                let mut out = StringMap::new();
                proof {
                    assert(m@.take(0) =~= Seq::empty());
                }
                for i in 0..m.len()
                    invariant
                        j@ == JsonView::Object(o),
                        o == crate::json::members_view(m@),
                        forall|k: Seq<char>|
                            #[trigger] out@.contains_key(k) <==> crate::json::members_view(
                                m@.take(i as int),
                            ).contains_key(k),
                        forall|k: Seq<char>| #[trigger]
                            out@.contains_key(k) ==> o.contains_key(k) && o[k]
                                == JsonView::Text(out@[k]),
                {
                    let key = m[i].0.clone();
                    proof {
                        assert(m@.take(i + 1).drop_last() =~= m@.take(i as int));
                        lemma_member_is_kept(m@, i as int);
                    }
                    match j.get_str(key.as_str()) {
                        Some(s) => {
                            out.insert(key, s.to_owned());
                        },
                        None => {
                            assert(o.contains_key(key@) && !(o[key@] is Text));
                            return Err(DecodeError::Invalid(at.to_owned()));
                        },
                    }
                }
                proof {
                    assert(m@.take(m@.len() as int) =~= m@);
                    assert forall|k: Seq<char>| #[trigger] o.contains_key(k) implies o[k] is Text by {
                        assert(out@.contains_key(k));
                    }
                    assert(out@ =~= o.map_values(|v: JsonView| v->Text_0));
                }
                Ok(out)
            },
            _ => Err(DecodeError::Invalid(at.to_owned())),
        }
    }

    proof fn law_reads_what_it_writes(m: Map<Seq<char>, Seq<char>>, at: Seq<char>, form: Form) {
        let o = m.map_values(|s: Seq<char>| JsonView::Text(s));
        assert(all_text(o));
        assert(o.map_values(|v: JsonView| v->Text_0) =~= m);
    }

    proof fn law_fits(m: Map<Seq<char>, Seq<char>>, depth: nat) {
        reveal_with_fuel(json::plain_within, 2);
    }
}

/// The key of every listed member is a key of the object.
proof fn lemma_member_is_kept(s: Seq<(String, Json)>, i: int)
    requires
        0 <= i < s.len(),
    ensures
        crate::json::members_view(s).contains_key(s[i].0@),
    decreases s.len(),
{
    if i < s.len() - 1 {
        lemma_member_is_kept(s.drop_last(), i);
    }
}

/// What a parsed text or parsed bytes hold as a value of a type, or why they
/// hold none.
pub open spec fn decoded<T: Wire>(
    parsed: Result<JsonView, Seq<char>>,
    at: Seq<char>,
) -> Result<T::Model, Seq<char>> {
    decoded_in::<T>(parsed, at, Form::Plain)
}

/// What a parsed text of the given form holds as a value of a type, or why it
/// holds none.
pub open spec fn decoded_in<T: Wire>(
    parsed: Result<JsonView, Seq<char>>,
    at: Seq<char>,
    form: Form,
) -> Result<T::Model, Seq<char>> {
    match parsed {
        Ok(t) => match T::read(t, at, form) {
            Ok(m) => Ok(m),
            Err(f) => Err(f.text()),
        },
        Err(e) => Err(e),
    }
}

/// What a parser handed over.
pub open spec fn parsed_view(parsed: Result<Json, String>) -> Result<JsonView, Seq<char>> {
    match parsed {
        Ok(j) => Ok(j@),
        Err(e) => Err(e@),
    }
}

/// Takes a value from what a parser handed over.
pub fn decode_parsed<T: Wire>(parsed: Result<Json, String>, at: &str) -> (r: Result<T, String>)
    ensures
        match r {
            Ok(x) => decoded::<T>(parsed_view(parsed), at@) == Ok::<T::Model, Seq<char>>(
                x.model(),
            ),
            Err(e) => decoded::<T>(parsed_view(parsed), at@) == Err::<T::Model, Seq<char>>(e@),
        },
{
    decode_parsed_in::<T>(parsed, at, Form::Plain)
}

/// Takes a value from what a parser of the given form handed over.
pub fn decode_parsed_in<T: Wire>(
    parsed: Result<Json, String>,
    at: &str,
    form: Form,
) -> (r: Result<T, String>)
    ensures
        match r {
            Ok(x) => decoded_in::<T>(parsed_view(parsed), at@, form) == Ok::<T::Model, Seq<char>>(
                x.model(),
            ),
            Err(e) => decoded_in::<T>(parsed_view(parsed), at@, form) == Err::<T::Model, Seq<char>>(e@),
        },
{
    match parsed {
        Ok(j) => match T::from_json(&j, at, form) {
            Ok(x) => Ok(x),
            Err(e) => Err(e.message()),
        },
        Err(e) => Err(e),
    }
}

/// Reads a value from a JSON text. It is read by way of a tree: of a member that
/// is written twice the later counts, and what is said of a fault names no line.
pub fn decode_text<T: Wire>(text: &str, at: &str) -> (r: Result<T, String>)
    ensures
        match r {
            Ok(x) => decoded::<T>(json::parsed_text(text@), at@) == Ok::<T::Model, Seq<char>>(
                x.model(),
            ),
            Err(e) => decoded::<T>(json::parsed_text(text@), at@) == Err::<T::Model, Seq<char>>(
                e@,
            ),
        },
{
    decode_parsed(json::parse_text(text), at)
}

/// Reads a value from the bytes of a JSON text, as [`decode_text`] does.
pub fn decode_bytes<T: Wire>(bytes: &[u8], at: &str) -> (r: Result<T, String>)
    ensures
        match r {
            Ok(x) => decoded::<T>(json::parsed_bytes(bytes@), at@) == Ok::<T::Model, Seq<char>>(
                x.model(),
            ),
            Err(e) => decoded::<T>(json::parsed_bytes(bytes@), at@) == Err::<T::Model, Seq<char>>(
                e@,
            ),
        },
{
    decode_parsed(json::parse_bytes(bytes), at)
}

/// Whether a value comes back as it is from its own JSON text.
pub open spec fn survives<T: Wire>(m: T::Model) -> bool {
    T::lossless(m) && T::fits(m, json::MAX_DEPTH as nat)
}

/// Writes a value as a JSON text, which is read as that value.
pub fn encode_text<T: Wire>(v: &T) -> (r: String)
    ensures
        r@ == json::compact_text(T::tree(v.model())),
        survives::<T>(v.model()) ==> forall|at: Seq<char>|
            #[trigger] decoded::<T>(json::parsed_text(r@), at) == Ok::<T::Model, Seq<char>>(
                v.model(),
            ),
{
    let r = v.to_json().to_text();
    proof {
        if survives::<T>(v.model()) {
            T::law_fits(v.model(), json::MAX_DEPTH as nat);
            lemma_decodes::<T>(v.model());
        }
    }
    r
}

/// Writes a value as a JSON text over indented lines, which is read as that
/// value.
pub fn encode_text_pretty<T: Wire>(v: &T) -> (r: String)
    ensures
        r@ == json::pretty_text(T::tree(v.model())),
        survives::<T>(v.model()) ==> forall|at: Seq<char>|
            #[trigger] decoded::<T>(json::parsed_text(r@), at) == Ok::<T::Model, Seq<char>>(
                v.model(),
            ),
{
    let r = v.to_json().to_text_pretty();
    proof {
        if survives::<T>(v.model()) {
            T::law_fits(v.model(), json::MAX_DEPTH as nat);
            lemma_decodes::<T>(v.model());
        }
    }
    r
}

/// Writes a value as the bytes of a JSON text, which are read as that value.
pub fn encode_bytes<T: Wire>(v: &T) -> (r: Vec<u8>)
    ensures
        r@ == json::compact_bytes(T::tree(v.model())),
        survives::<T>(v.model()) ==> forall|at: Seq<char>|
            #[trigger] decoded::<T>(json::parsed_bytes(r@), at) == Ok::<T::Model, Seq<char>>(
                v.model(),
            ),
{
    let r = v.to_json().to_bytes();
    proof {
        if survives::<T>(v.model()) {
            T::law_fits(v.model(), json::MAX_DEPTH as nat);
            lemma_decodes::<T>(v.model());
        }
    }
    r
}

/// A tree that a value writes is decoded as that value.
proof fn lemma_decodes<T: Wire>(m: T::Model)
    requires
        T::lossless(m),
    ensures
        forall|at: Seq<char>|
            #[trigger] decoded::<T>(Ok(T::tree(m)), at) == Ok::<T::Model, Seq<char>>(m),
{
    assert forall|at: Seq<char>|
        #[trigger] decoded::<T>(Ok(T::tree(m)), at) == Ok::<T::Model, Seq<char>>(m) by {
        T::law_reads_what_it_writes(m, at, Form::Plain);
    }
}

} // verus!
