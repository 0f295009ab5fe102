//! The JSON value model that the wire codec reads and writes.
//!
//! Text is turned into a [`Json`] tree and back by `serde_json`; everything
//! that looks inside a tree is verified code over the spec functions below.
use vstd::prelude::*;
use serde_json::Value;

verus! {

/// A JSON number, split as `serde_json` splits it.
#[derive(Debug)]
pub enum JsonNumber {
    PosInt(u64),
    NegInt(i64),
    /// Any number that is not an integer, kept as its shortest decimal text.
    Float(String),
}

/// A JSON value. An object holds its members in the order that
/// `serde_json`'s map hands them out; a repeated key keeps its last value.
#[derive(Debug)]
pub enum Json {
    Null,
    Bool(bool),
    Number(JsonNumber),
    Str(String),
    Array(Vec<Json>),
    Object(Vec<(String, Json)>),
}

/// `i` is the first position of `m` whose key is `key`.
pub open spec fn is_first_key(m: Seq<(String, Json)>, key: Seq<char>, i: int) -> bool {
    &&& 0 <= i < m.len()
    &&& m[i].0@ == key
    &&& forall|j: int| 0 <= j < i ==> m[j].0@ != key
}

/// The value of the first member of `m` named `key`.
pub open spec fn member(m: Seq<(String, Json)>, key: Seq<char>) -> Option<Json> {
    if exists|i: int| is_first_key(m, key, i) {
        Some(m[choose|i: int| is_first_key(m, key, i)].1)
    } else {
        None
    }
}

/// The member `key` of `j`, where `j` is an object that has it.
pub open spec fn field(j: Json, key: Seq<char>) -> Option<Json> {
    match j {
        Json::Object(m) => member(m@, key),
        _ => None,
    }
}

pub open spec fn str_of(j: Json) -> Option<String> {
    match j {
        Json::Str(s) => Some(s),
        _ => None,
    }
}

pub open spec fn bool_of(j: Json) -> Option<bool> {
    match j {
        Json::Bool(b) => Some(b),
        _ => None,
    }
}

/// A number that fits `u64` (what a `u64` field accepts).
pub open spec fn u64_of(j: Json) -> Option<u64> {
    match j {
        Json::Number(JsonNumber::PosInt(n)) => Some(n),
        _ => None,
    }
}

/// A number that fits `u32` (what a `u32` field accepts).
pub open spec fn u32_of(j: Json) -> Option<u32> {
    match j {
        Json::Number(JsonNumber::PosInt(n)) => if n <= u32::MAX {
            Some(n as u32)
        } else {
            None
        },
        _ => None,
    }
}

pub open spec fn number_of(j: Json) -> Option<JsonNumber> {
    match j {
        Json::Number(n) => Some(n),
        _ => None,
    }
}

#[verifier::external_type_specification]
#[verifier::external_body]
pub struct ExValue(serde_json::Value);

/// The tree that `serde_json` reads from a text, or `None` where the text is
/// not one JSON value.
pub uninterp spec fn parse_of(s: Seq<char>) -> Option<Json>;

/// The compact text that `serde_json` writes for a tree.
pub uninterp spec fn text_of(j: Json) -> Seq<char>;

/// Relies on `serde_json::from_str::<serde_json::Value>`: it reads one JSON
/// value (surrounding whitespace allowed) and fails on anything else; the
/// result depends on the text alone.
#[verifier::external_body]
pub fn parse_json(text: &str) -> (r: Option<Json>)
    ensures
        r == parse_of(text@),
{
    serde_json::from_str::<serde_json::Value>(text).ok().map(from_value)
}

/// Relies on `serde_json::to_string` on a `serde_json::Value`: it cannot fail
/// (all keys are strings), and the compact writer escapes every control
/// character inside strings, so the text holds no line break.
#[verifier::external_body]
pub fn json_text(j: &Json) -> (r: String)
    ensures
        r@ == text_of(*j),
        forall|i: int| 0 <= i < r@.len() ==> r@[i] != '\n',
        r@.len() > 0,
{
    serde_json::to_string(&to_value(j)).unwrap()
}

/// Moves a `serde_json::Value` into the library's tree, one node for one.
#[verifier::external_body]
fn from_value(v: Value) -> Json {
    match v {
        Value::Null => Json::Null,
        Value::Bool(b) => Json::Bool(b),
        Value::Number(n) => Json::Number(match (n.as_u64(), n.as_i64()) {
            (Some(u), _) => JsonNumber::PosInt(u),
            (None, Some(i)) => JsonNumber::NegInt(i),
            _ => JsonNumber::Float(n.to_string()),
        }),
        Value::String(s) => Json::Str(s),
        Value::Array(a) => Json::Array(a.into_iter().map(from_value).collect()),
        Value::Object(o) => Json::Object(o.into_iter().map(|(k, v)| (k, from_value(v))).collect()),
    }
}

/// Copies the library's tree into a `serde_json::Value`, one node for one.
#[verifier::external_body]
fn to_value(j: &Json) -> Value {
    match j {
        Json::Null => Value::Null,
        Json::Bool(b) => Value::Bool(*b),
        Json::Number(JsonNumber::PosInt(u)) => Value::from(*u),
        Json::Number(JsonNumber::NegInt(i)) => Value::from(*i),
        Json::Number(JsonNumber::Float(t)) => serde_json::from_str(t).unwrap_or_default(),
        Json::Str(s) => Value::String(s.clone()),
        Json::Array(a) => Value::Array(a.iter().map(to_value).collect()),
        Json::Object(m) => Value::Object(m.iter().map(|(k, v)| (k.clone(), to_value(v))).collect()),
    }
}

/// `member` picks the entry at the first position named `key`.
pub proof fn lemma_member_at(m: Seq<(String, Json)>, key: Seq<char>, i: int)
    requires
        is_first_key(m, key, i),
    ensures
        member(m, key) == Some(m[i].1),
{
    let c = choose|k: int| is_first_key(m, key, k);
    assert(is_first_key(m, key, c));
    assert(c == i) by {
        if c < i {
        } else if c > i {
        }
    }
}

/// Position of the first member named `key`, if any.
pub fn find_key(m: &Vec<(String, Json)>, key: &str) -> (r: Option<usize>)
    ensures
        match r {
            Some(i) => is_first_key(m@, key@, i as int),
            None => forall|i: int| 0 <= i < m@.len() ==> m@[i].0@ != key@,
        },
{
    let k = String::from_str(key);
    let mut i: usize = 0;
    while i < m.len()
        invariant
            i <= m@.len(),
            k@ == key@,
            forall|j: int| 0 <= j < i ==> m@[j].0@ != key@,
        decreases m@.len() - i,
    {
        if m[i].0 == k {
            return Some(i);
        }
        i = i + 1;
    }
    None
}

/// The first member named `key`: the exec counterpart of [`member`].
pub fn get_member<'a>(m: &'a Vec<(String, Json)>, key: &str) -> (r: Option<&'a Json>)
    ensures
        match r {
            Some(v) => member(m@, key@) == Some(*v),
            None => member(m@, key@) is None,
        },
{
    match find_key(m, key) {
        Some(i) => {
            proof {
                lemma_member_at(m@, key@, i as int);
            }
            Some(&m[i].1)
        },
        None => {
            assert(!exists|k: int| is_first_key(m@, key@, k));
            None
        },
    }
}

/// Looks up `key` in `j`, where `j` is an object.
pub fn get_field<'a>(j: &'a Json, key: &str) -> (r: Option<&'a Json>)
    ensures
        match r {
            Some(v) => field(*j, key@) == Some(*v),
            None => field(*j, key@) is None,
        },
{
    match j {
        Json::Object(m) => get_member(m, key),
        _ => None,
    }
}

pub fn as_str(j: &Json) -> (r: Option<&String>)
    ensures
        match r {
            Some(s) => str_of(*j) == Some(*s),
            None => str_of(*j) is None,
        },
{
    match j {
        Json::Str(s) => Some(s),
        _ => None,
    }
}

pub fn as_bool(j: &Json) -> (r: Option<bool>)
    ensures
        r == bool_of(*j),
{
    match j {
        Json::Bool(b) => Some(*b),
        _ => None,
    }
}

pub fn as_u64(j: &Json) -> (r: Option<u64>)
    ensures
        r == u64_of(*j),
{
    match j {
        Json::Number(JsonNumber::PosInt(n)) => Some(*n),
        _ => None,
    }
}

pub fn as_u32(j: &Json) -> (r: Option<u32>)
    ensures
        r == u32_of(*j),
{
    match j {
        Json::Number(JsonNumber::PosInt(n)) => if *n <= 0xffff_ffffu64 {
            Some(*n as u32)
        } else {
            None
        },
        _ => None,
    }
}

/// A type read from one JSON value, where the reading can be stated as a
/// spec function of that value.
pub trait Decode: Sized {
    spec fn decoded(j: Json) -> Option<Self>;

    fn decode(j: &Json) -> (r: Option<Self>)
        ensures
            r == Self::decoded(*j),
    ;
}

impl Decode for bool {
    open spec fn decoded(j: Json) -> Option<bool> {
        bool_of(j)
    }

    fn decode(j: &Json) -> (r: Option<bool>) {
        as_bool(j)
    }
}

impl Decode for u64 {
    open spec fn decoded(j: Json) -> Option<u64> {
        u64_of(j)
    }

    fn decode(j: &Json) -> (r: Option<u64>) {
        as_u64(j)
    }
}

impl Decode for String {
    open spec fn decoded(j: Json) -> Option<String> {
        str_of(j)
    }

    fn decode(j: &Json) -> (r: Option<String>) {
        match as_str(j) {
            Some(s) => Some(s.clone()),
            None => None,
        }
    }
}

/// A copy of a number.
pub fn copy_number(n: &JsonNumber) -> (r: JsonNumber)
    ensures
        r == *n,
{
    match n {
        JsonNumber::PosInt(u) => JsonNumber::PosInt(*u),
        JsonNumber::NegInt(i) => JsonNumber::NegInt(*i),
        JsonNumber::Float(t) => JsonNumber::Float(t.clone()),
    }
}

impl Decode for JsonNumber {
    open spec fn decoded(j: Json) -> Option<JsonNumber> {
        number_of(j)
    }

    fn decode(j: &Json) -> (r: Option<JsonNumber>) {
        match j {
            Json::Number(n) => Some(copy_number(n)),
            _ => None,
        }
    }
}

/// The member `key` of `j`, read as a `T`.
pub open spec fn field_as<T: Decode>(j: Json, key: Seq<char>) -> Option<T> {
    match field(j, key) {
        Some(v) => T::decoded(v),
        None => None,
    }
}

/// Reads the member `key` of `j` as a `T`.
pub fn decode_field<T: Decode>(j: &Json, key: &str) -> (r: Option<T>)
    ensures
        r == field_as::<T>(*j, key@),
{
    match get_field(j, key) {
        Some(v) => T::decode(v),
        None => None,
    }
}

/// `v` is the array `j`, each element read as a `T`.
pub open spec fn list_of<T: Decode>(j: Json, v: Seq<T>) -> bool {
    match j {
        Json::Array(a) => a@.len() == v.len() && forall|i: int|
            0 <= i < v.len() ==> T::decoded(#[trigger] a@[i]) == Some(v[i]),
        _ => false,
    }
}

/// `j` is an array whose every element reads as a `T`.
pub open spec fn list_reads<T: Decode>(j: Json) -> bool {
    match j {
        Json::Array(a) => forall|i: int| 0 <= i < a@.len() ==> (T::decoded(#[trigger] a@[i]) is Some),
        _ => false,
    }
}

/// Reads an array of `T`; `None` where `j` is no array or an element does not read.
pub fn decode_list<T: Decode>(j: &Json) -> (r: Option<Vec<T>>)
    ensures
        r is Some <==> list_reads::<T>(*j),
        r matches Some(v) ==> list_of(*j, v@),
{
    match j {
        Json::Array(a) => {
            let mut out: Vec<T> = Vec::new();
            let mut i: usize = 0;
            while i < a.len()
                invariant
                    *j == Json::Array(*a),
                    i <= a@.len(),
                    out@.len() == i,
                    forall|k: int| 0 <= k < i ==> T::decoded(#[trigger] a@[k]) == Some(out@[k]),
                decreases a@.len() - i,
            {
                match T::decode(&a[i]) {
                    Some(x) => {
                        out.push(x);
                    },
                    None => {
                        assert(T::decoded(a@[i as int]) is None);
                        return None;
                    },
                }
                i = i + 1;
            }
            Some(out)
        },
        _ => None,
    }
}

} // verus!
