//! JSON values as plain trees, and the calls into `serde_json` that read and
//! write their text.

use serde_json::Value;
use vstd::prelude::*;
use vstd::string::*;

verus! {

/// The tree type of `serde_json`.
#[verifier::external_type_specification]
#[verifier::external_body]
pub struct ExValue(serde_json::Value);

/// The number type of `serde_json`: an unsigned or negative integer, or a
/// finite float.
#[verifier::external_type_specification]
#[verifier::external_body]
pub struct ExNumber(serde_json::Number);

/// `Number`'s derived `Clone`: a copy of the number.
pub assume_specification[ <serde_json::Number as Clone>::clone ](
    n: &serde_json::Number,
) -> (r: serde_json::Number)
    ensures
        r == *n,
;

/// Whether a `serde_json` number is held as a float.
pub uninterp spec fn is_float(n: serde_json::Number) -> bool;

/// `Number::is_f64`: true of the numbers that are held as floats.
#[verifier::external_body]
fn number_is_float(n: &serde_json::Number) -> (r: bool)
    ensures
        r == is_float(*n),
{
    n.is_f64()
}

/// A JSON number that is no integer. It is carried, never computed with.
#[derive(Debug, PartialEq)]
pub struct JsonFloat {
    number: serde_json::Number,
}

impl JsonFloat {
    /// The number inside is held as a float.
    #[verifier::type_invariant]
    spec fn holds_a_float(self) -> bool {
        is_float(self.number)
    }

    /// The number that is carried.
    pub closed spec fn value(self) -> serde_json::Number {
        self.number
    }

    /// Takes a number that `serde_json` holds as a float; an integer is not
    /// taken.
    pub fn new(number: serde_json::Number) -> (r: Option<JsonFloat>)
        ensures
            r is Some <==> is_float(number),
            r is Some ==> r->0.value() == number,
    {
        if number_is_float(&number) {
            Some(JsonFloat { number })
        } else {
            None
        }
    }

    /// The number that is carried.
    pub fn number(&self) -> (r: &serde_json::Number)
        ensures
            *r == self.value(),
    {
        &self.number
    }

    /// A copy.
    pub fn duplicate(&self) -> (r: JsonFloat)
        ensures
            r == *self,
    {
        proof {
            use_type_invariant(self);
        }
        JsonFloat { number: self.number.clone() }
    }
}

/// A JSON number.
#[derive(Debug, PartialEq)]
pub enum JsonNumber {
    /// A number from zero up.
    PosInt(u64),
    /// A number below zero.
    NegInt(i64),
    /// Any other number.
    Float(JsonFloat),
}

/// What a JSON number is.
pub enum NumberView {
    Int(int),
    Float(JsonFloat),
}

impl View for JsonNumber {
    type V = NumberView;

    open spec fn view(&self) -> NumberView {
        match self {
            JsonNumber::PosInt(u) => NumberView::Int(*u as int),
            JsonNumber::NegInt(i) => NumberView::Int(*i as int),
            JsonNumber::Float(f) => NumberView::Float(*f),
        }
    }
}

/// A JSON value. Of two members with one key the later counts.
#[derive(Debug, PartialEq)]
pub enum Json {
    Null,
    Bool(bool),
    Number(JsonNumber),
    Text(String),
    Array(Vec<Json>),
    Object(Vec<(String, Json)>),
}

/// What a JSON value is: an object has no order and one value for each key.
#[verifier::ext_equal]
pub enum JsonView {
    Null,
    Bool(bool),
    Number(NumberView),
    Text(Seq<char>),
    Array(Seq<JsonView>),
    Object(Map<Seq<char>, JsonView>),
}

/// The values of array elements.
pub open spec fn elements_view(s: Seq<Json>) -> Seq<JsonView>
    decreases s,
{
    if s.len() == 0 {
        Seq::empty()
    } else {
        elements_view(s.drop_last()).push(s.last().as_tree())
    }
}

/// The members of an object, the later of two with one key winning.
pub open spec fn members_view(s: Seq<(String, Json)>) -> Map<Seq<char>, JsonView>
    decreases s,
{
    if s.len() == 0 {
        Map::empty()
    } else {
        members_view(s.drop_last()).insert(s.last().0@, s.last().1.as_tree())
    }
}

impl Json {
    /// The value as a mathematical tree.
    pub open spec fn as_tree(self) -> JsonView
        decreases self,
    {
        match self {
            Json::Null => JsonView::Null,
            Json::Bool(b) => JsonView::Bool(b),
            Json::Number(n) => JsonView::Number(n@),
            Json::Text(s) => JsonView::Text(s@),
            Json::Array(v) => JsonView::Array(elements_view(v@)),
            Json::Object(m) => JsonView::Object(members_view(m@)),
        }
    }
}

impl View for Json {
    type V = JsonView;

    open spec fn view(&self) -> JsonView {
        self.as_tree()
    }
}

impl JsonView {
    /// The value under a key, where there is one.
    pub open spec fn field(self, key: Seq<char>) -> Option<JsonView> {
        match self {
            JsonView::Object(m) => if m.contains_key(key) {
                Some(m[key])
            } else {
                None
            },
            _ => None,
        }
    }

    /// The characters of a string value.
    pub open spec fn text(self) -> Option<Seq<char>> {
        match self {
            JsonView::Text(s) => Some(s),
            _ => None,
        }
    }

    /// The integer of an integral number.
    pub open spec fn integer(self) -> Option<int> {
        match self {
            JsonView::Number(NumberView::Int(i)) => Some(i),
            _ => None,
        }
    }

    /// The text under a key, where there is one.
    pub open spec fn text_field(self, key: Seq<char>) -> Option<Seq<char>> {
        match self.field(key) {
            Some(v) => v.text(),
            None => None,
        }
    }
}

/// Element by element, the values of an array are the elements' values.
pub proof fn lemma_elements_view(s: Seq<Json>)
    ensures
        elements_view(s).len() == s.len(),
        forall|i: int| 0 <= i < s.len() ==> #[trigger] elements_view(s)[i] == s[i]@,
    decreases s.len(),
{
    if s.len() > 0 {
        lemma_elements_view(s.drop_last());
    }
}

impl Clone for Json {
    fn clone(&self) -> (r: Self)
        ensures
            r@ == self@,
        decreases self,
    {
        match self {
            Json::Null => Json::Null,
            Json::Bool(b) => Json::Bool(*b),
            Json::Number(n) => Json::Number(n.duplicate()),
            Json::Text(s) => Json::Text(s.clone()),
            Json::Array(v) => {
                let mut out: Vec<Json> = Vec::new();
                for i in 0..v.len()
                    invariant
                        decreases_to!(self => v),
                        out@.len() == i,
                        elements_view(out@) == elements_view(v@.take(i as int)),
                {
                    assert(decreases_to!(v@ => v@[i as int]));
                    let c = v[i].clone();
                    let ghost before = out@;
                    out.push(c);
                    assert(out@.drop_last() =~= before);
                    assert(v@.take(i + 1).drop_last() =~= v@.take(i as int));
                }
                assert(v@.take(v@.len() as int) =~= v@);
                Json::Array(out)
            },
            Json::Object(m) => {
                let mut out: Vec<(String, Json)> = Vec::new();
                for i in 0..m.len()
                    invariant
                        decreases_to!(self => m),
                        out@.len() == i,
                        members_view(out@) == members_view(m@.take(i as int)),
                {
                    assert(decreases_to!(m@ => m@[i as int]));
                    assert(decreases_to!(m@[i as int] => m@[i as int].1));
                    let k = m[i].0.clone();
                    let c = m[i].1.clone();
                    let ghost before = out@;
                    out.push((k, c));
                    assert(out@.drop_last() =~= before);
                    assert(m@.take(i + 1).drop_last() =~= m@.take(i as int));
                }
                assert(m@.take(m@.len() as int) =~= m@);
                Json::Object(out)
            },
        }
    }
}

impl JsonNumber {
    /// A copy.
    pub fn duplicate(&self) -> (r: JsonNumber)
        ensures
            r == *self,
    {
        match self {
            JsonNumber::PosInt(u) => JsonNumber::PosInt(*u),
            JsonNumber::NegInt(i) => JsonNumber::NegInt(*i),
            JsonNumber::Float(f) => JsonNumber::Float(f.duplicate()),
        }
    }
}

impl Json {
    /// A string value.
    pub fn text(s: &str) -> (r: Json)
        ensures
            r@ == JsonView::Text(s@),
    {
        Json::Text(s.to_owned())
    }

    /// An integral number from zero up.
    pub fn unsigned(n: u64) -> (r: Json)
        ensures
            r@ == JsonView::Number(NumberView::Int(n as int)),
    {
        Json::Number(JsonNumber::PosInt(n))
    }

    /// An integral number.
    pub fn signed(n: i64) -> (r: Json)
        ensures
            r@ == JsonView::Number(NumberView::Int(n as int)),
    {
        if n < 0 {
            Json::Number(JsonNumber::NegInt(n))
        } else {
            Json::Number(JsonNumber::PosInt(n as u64))
        }
    }

    /// The value under `key`, where this is an object that has one.
    pub fn get(&self, key: &str) -> (r: Option<&Json>)
        ensures
            match r {
                Some(j) => self@.field(key@) == Some(j@),
                None => self@.field(key@) is None,
            },
    {
        match self {
            Json::Object(m) => {
                let wanted = key.to_owned();
                let mut n: usize = m.len();
                assert(m@.take(n as int) =~= m@);
                while n > 0
                    invariant
                        n <= m@.len(),
                        wanted@ == key@,
                        self@ == JsonView::Object(members_view(m@)),
                        members_view(m@).contains_key(key@) == members_view(
                            m@.take(n as int),
                        ).contains_key(key@),
                        members_view(m@).contains_key(key@) ==> members_view(m@)[key@]
                            == members_view(m@.take(n as int))[key@],
                    decreases n,
                {
                    let i: usize = n - 1;
                    assert(m@.take(n as int).drop_last() =~= m@.take(i as int));
                    if m[i].0 == wanted {
                        return Some(&m[i].1);
                    }
                    n = i;
                }
                None
            },
            _ => None,
        }
    }

    /// The characters, where this is a string.
    pub fn as_str(&self) -> (r: Option<&str>)
        ensures
            match r {
                Some(s) => self@.text() == Some(s@),
                None => self@.text() is None,
            },
    {
        match self {
            Json::Text(s) => Some(s.as_str()),
            _ => None,
        }
    }

    /// The text under `key`, where this is an object that has a string there.
    pub fn get_str(&self, key: &str) -> (r: Option<&str>)
        ensures
            match r {
                Some(s) => self@.text_field(key@) == Some(s@),
                None => self@.text_field(key@) is None,
            },
    {
        match self.get(key) {
            Some(v) => v.as_str(),
            None => None,
        }
    }

    /// The number, where this is an integer from zero up that fits.
    pub fn as_u64(&self) -> (r: Option<u64>)
        ensures
            match r {
                Some(n) => self@.integer() == Some(n as int),
                None => match self@.integer() {
                    Some(i) => i < 0 || i > u64::MAX,
                    None => true,
                },
            },
    {
        match self {
            Json::Number(JsonNumber::PosInt(u)) => Some(*u),
            Json::Number(JsonNumber::NegInt(i)) => if *i >= 0 {
                Some(*i as u64)
            } else {
                None
            },
            _ => None,
        }
    }

    /// The number, where this is an integer that fits.
    pub fn as_i64(&self) -> (r: Option<i64>)
        ensures
            match r {
                Some(n) => self@.integer() == Some(n as int),
                None => match self@.integer() {
                    Some(i) => i < i64::MIN || i > i64::MAX,
                    None => true,
                },
            },
    {
        match self {
            Json::Number(JsonNumber::PosInt(u)) => if *u <= i64::MAX as u64 {
                Some(*u as i64)
            } else {
                None
            },
            Json::Number(JsonNumber::NegInt(i)) => Some(*i),
            _ => None,
        }
    }

    /// Whether this is `null`.
    pub fn is_null(&self) -> (r: bool)
        ensures
            r == (self@ == JsonView::Null),
    {
        match self {
            Json::Null => true,
            _ => false,
        }
    }

    /// Whether this is an object.
    pub fn is_object(&self) -> (r: bool)
        ensures
            r == (self@ is Object),
    {
        match self {
            Json::Object(_) => true,
            _ => false,
        }
    }

    /// Whether this is an array.
    pub fn is_array(&self) -> (r: bool)
        ensures
            r == (self@ is Array),
    {
        match self {
            Json::Array(_) => true,
            _ => false,
        }
    }

    /// Puts a value under a key of an object, in place of any that was there; a
    /// value that is no object stays as it is.
    pub fn insert(&mut self, key: &str, value: Json)
        ensures
            match old(self)@ {
                JsonView::Object(m) => final(self)@ == JsonView::Object(m.insert(key@, value@)),
                _ => final(self)@ == old(self)@,
            },
    {
        match self {
            Json::Object(m) => {
                let ghost before = m@;
                m.push((key.to_owned(), value));
                assert(m@.drop_last() =~= before);
            },
            _ => {},
        }
    }
}

/// An object under construction.
#[derive(Debug)]
pub struct JsonObject {
    members: Vec<(String, Json)>,
}

impl View for JsonObject {
    type V = Map<Seq<char>, JsonView>;

    closed spec fn view(&self) -> Map<Seq<char>, JsonView> {
        members_view(self.members@)
    }
}

impl JsonObject {
    /// An object without members.
    pub fn new() -> (r: JsonObject)
        ensures
            r@ == Map::<Seq<char>, JsonView>::empty(),
    {
        JsonObject { members: Vec::new() }
    }

    /// Puts a value under a key, in place of any that was there.
    pub fn set(&mut self, key: &str, value: Json)
        ensures
            final(self)@ == old(self)@.insert(key@, value@),
    {
        let ghost before = self.members@;
        self.members.push((key.to_owned(), value));
        assert(self.members@.drop_last() =~= before);
    }

    /// The object as a value.
    pub fn finish(self) -> (r: Json)
        ensures
            r@ == JsonView::Object(self@),
    {
        Json::Object(self.members)
    }
}

/// What a `serde_json` tree holds.
pub uninterp spec fn value_view(v: serde_json::Value) -> JsonView;

/// What `serde_json` makes of a text: a tree, or the text of its complaint.
pub uninterp spec fn parsed_text(text: Seq<char>) -> Result<JsonView, Seq<char>>;

/// What `serde_json` makes of bytes: a tree, or the text of its complaint.
pub uninterp spec fn parsed_bytes(bytes: Seq<u8>) -> Result<JsonView, Seq<char>>;

/// The text that `serde_json` writes for a tree, without white space and with
/// the members of an object in the order of their keys.
pub uninterp spec fn compact_text(v: JsonView) -> Seq<char>;

/// The text that `serde_json` writes for a tree over indented lines.
pub uninterp spec fn pretty_text(v: JsonView) -> Seq<char>;

/// The bytes that `serde_json` writes for a tree: its compact text in UTF-8.
pub uninterp spec fn compact_bytes(v: JsonView) -> Seq<u8>;

/// How deep arrays and objects may be nested for `serde_json` to read them.
pub const MAX_DEPTH: u64 = 127;

/// Whether a tree holds no float and nests arrays and objects no deeper than
/// `depth`.
pub open spec fn plain_within(t: JsonView, depth: nat) -> bool
    decreases depth,
{
    match t {
        JsonView::Number(NumberView::Float(_)) => false,
        JsonView::Array(a) => depth > 0 && forall|i: int|
            0 <= i < a.len() ==> plain_within(#[trigger] a[i], (depth - 1) as nat),
        JsonView::Object(o) => depth > 0 && forall|k: Seq<char>| #[trigger]
            o.dom().contains(k) ==> plain_within(o[k], (depth - 1) as nat),
        _ => true,
    }
}

/// Whether the members of an object hold no float and nest no deeper than
/// `depth`.
pub open spec fn members_within(o: Map<Seq<char>, JsonView>, depth: nat) -> bool {
    forall|k: Seq<char>| #[trigger] o.dom().contains(k) ==> plain_within(o[k], depth)
}

/// One more member that nests no deeper.
pub proof fn lemma_insert_within(
    o: Map<Seq<char>, JsonView>,
    key: Seq<char>,
    v: JsonView,
    depth: nat,
)
    requires
        members_within(o, depth),
        plain_within(v, depth),
    ensures
        members_within(o.insert(key, v), depth),
{
}

/// Whether `serde_json` reads the text of a tree as that tree. A float may come
/// back with another last digit.
pub open spec fn rereadable(t: JsonView) -> bool {
    plain_within(t, MAX_DEPTH as nat)
}

/// A `serde_json` tree as a tree of this library, one node for each node.
#[verifier::external_body]
pub(crate) fn from_value(v: &Value) -> (r: Json)
    ensures
        r@ == value_view(*v),
{
    match v {
        Value::Null => Json::Null,
        Value::Bool(b) => Json::Bool(*b),
        Value::Number(n) => Json::Number(match (n.as_u64(), n.as_i64()) {
            (Some(u), _) => JsonNumber::PosInt(u),
            (None, Some(i)) => JsonNumber::NegInt(i),
            (None, None) => JsonNumber::Float(JsonFloat { number: n.clone() }),
        }),
        Value::String(s) => Json::Text(s.clone()),
        Value::Array(a) => Json::Array(a.iter().map(from_value).collect()),
        Value::Object(o) => Json::Object(
            o.iter().map(|(k, v)| (k.clone(), from_value(v))).collect()),
    }
}

/// A tree of this library as a `serde_json` tree, one node for each node; of
/// members with one key `serde_json`'s map keeps the last.
#[verifier::external_body]
fn to_value(j: &Json) -> (r: Value)
    ensures
        value_view(r) == j@,
{
    match j {
        Json::Null => Value::Null,
        Json::Bool(b) => Value::Bool(*b),
        Json::Number(JsonNumber::PosInt(u)) => Value::from(*u),
        Json::Number(JsonNumber::NegInt(i)) => Value::from(*i),
        Json::Number(JsonNumber::Float(f)) => Value::Number(f.number.clone()),
        Json::Text(s) => Value::String(s.clone()),
        Json::Array(a) => Value::Array(a.iter().map(to_value).collect()),
        Json::Object(o) => Value::Object(
            o.iter().map(|(k, v)| (k.clone(), to_value(v))).collect()),
    }
}

/// `serde_json::from_str` into a tree: the tree or the complaint, by the text
/// alone.
#[verifier::external_body]
fn value_from_str(text: &str) -> (r: Result<serde_json::Value, String>)
    ensures
        match r {
            Ok(v) => parsed_text(text@) == Ok::<JsonView, Seq<char>>(value_view(v)),
            Err(e) => parsed_text(text@) == Err::<JsonView, Seq<char>>(e@),
        },
{
    serde_json::from_str(text).map_err(|e| e.to_string())
}

/// `serde_json::from_slice` into a tree: the tree or the complaint, by the
/// bytes alone.
#[verifier::external_body]
fn value_from_slice(bytes: &[u8]) -> (r: Result<serde_json::Value, String>)
    ensures
        match r {
            Ok(v) => parsed_bytes(bytes@) == Ok::<JsonView, Seq<char>>(value_view(v)),
            Err(e) => parsed_bytes(bytes@) == Err::<JsonView, Seq<char>>(e@),
        },
{
    serde_json::from_slice(bytes).map_err(|e| e.to_string())
}

/// `Value`'s `Display`: the compact text of the tree. A text of a tree without
/// floats that is nested no deeper than `serde_json` reads is read as that tree.
#[verifier::external_body]
fn value_to_string(v: &serde_json::Value) -> (r: String)
    ensures
        r@ == compact_text(value_view(*v)),
        rereadable(value_view(*v)) ==> parsed_text(r@) is Ok && parsed_text(r@)->Ok_0 == value_view(
            *v,
        ),
{
    v.to_string()
}

/// `Value`'s alternate `Display`: the indented text of the tree, which is read
/// as the compact one is.
#[verifier::external_body]
fn value_to_string_pretty(v: &serde_json::Value) -> (r: String)
    ensures
        r@ == pretty_text(value_view(*v)),
        rereadable(value_view(*v)) ==> parsed_text(r@) is Ok && parsed_text(r@)->Ok_0 == value_view(
            *v,
        ),
{
    format!("{:#}", v)
}

/// `Value`'s `Display`, as bytes: the compact text in UTF-8, which is read as the
/// text is.
#[verifier::external_body]
fn value_to_bytes(v: &serde_json::Value) -> (r: Vec<u8>)
    ensures
        r@ == compact_bytes(value_view(*v)),
        rereadable(value_view(*v)) ==> parsed_bytes(r@) is Ok && parsed_bytes(r@)->Ok_0 == value_view(
            *v,
        ),
{
    v.to_string().into_bytes()
}

/// Reads a JSON text.
pub fn parse_text(text: &str) -> (r: Result<Json, String>)
    ensures
        match r {
            Ok(j) => parsed_text(text@) == Ok::<JsonView, Seq<char>>(j@),
            Err(e) => parsed_text(text@) == Err::<JsonView, Seq<char>>(e@),
        },
{
    match value_from_str(text) {
        Ok(v) => Ok(from_value(&v)),
        Err(e) => Err(e),
    }
}

/// Reads JSON from bytes.
pub fn parse_bytes(bytes: &[u8]) -> (r: Result<Json, String>)
    ensures
        match r {
            Ok(j) => parsed_bytes(bytes@) == Ok::<JsonView, Seq<char>>(j@),
            Err(e) => parsed_bytes(bytes@) == Err::<JsonView, Seq<char>>(e@),
        },
{
    match value_from_slice(bytes) {
        Ok(v) => Ok(from_value(&v)),
        Err(e) => Err(e),
    }
}

impl Json {
    /// The compact text of the value.
    pub fn to_text(&self) -> (r: String)
        ensures
            r@ == compact_text(self@),
            rereadable(self@) ==> parsed_text(r@) == Ok::<JsonView, Seq<char>>(self@),
    {
        value_to_string(&to_value(self))
    }

    /// The text of the value over indented lines.
    pub fn to_text_pretty(&self) -> (r: String)
        ensures
            r@ == pretty_text(self@),
            rereadable(self@) ==> parsed_text(r@) == Ok::<JsonView, Seq<char>>(self@),
    {
        value_to_string_pretty(&to_value(self))
    }

    /// The bytes of the compact text.
    pub fn to_bytes(&self) -> (r: Vec<u8>)
        ensures
            r@ == compact_bytes(self@),
            rereadable(self@) ==> parsed_bytes(r@) == Ok::<JsonView, Seq<char>>(self@),
    {
        value_to_bytes(&to_value(self))
    }
}

} // verus!
