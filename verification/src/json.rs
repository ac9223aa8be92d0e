//! The JSON value type of `serde_json`, as the rest of the library sees it.
//!
//! A `serde_json::Value` is opaque to the verifier. This module gives it a
//! mathematical model, [`Json`], and states over that model what each of the
//! `serde_json` operations the library uses does. None of these statements is
//! proved: they are read off the source of `serde_json`.

use vstd::prelude::*;
use serde_json::{Number, Value};

verus! {

/// `serde_json::Value`, of which the verifier sees nothing but what
/// [`json_of`] and [`rendered`] say.
#[verifier::external_type_specification]
#[verifier::external_body]
pub struct ExValue(serde_json::Value);

/// `serde_json::Number`, of which the verifier sees nothing but what
/// [`number_of`] and [`number_rendered`] say.
#[verifier::external_type_specification]
#[verifier::external_body]
pub struct ExNumber(serde_json::Number);

/// `serde_json::Map`, of which the verifier sees nothing but what
/// [`members_of`] says.
#[verifier::external_type_specification]
#[verifier::external_body]
#[verifier::reject_recursive_types(K)]
#[verifier::reject_recursive_types(V)]
pub struct ExMembers<K, V>(serde_json::Map<K, V>);

/// What a JSON number holds.
pub enum Num {
    /// A non-negative integer.
    PosInt(u64),
    /// An integer below zero.
    NegInt(i64),
    /// A finite floating-point number, stood for by an integer that two
    /// floats share exactly when they compare equal.
    Float(int),
}

/// What a JSON value holds. Objects are maps, so the order of their keys is
/// no part of the value; arrays are sequences.
pub enum Json {
    Null,
    Bool(bool),
    Number(Num),
    String(Seq<char>),
    Array(Seq<Json>),
    Object(Map<Seq<char>, Json>),
}

impl Json {
    /// Whether two values are of the same kind. Numbers are of the same
    /// kind where both are non-negative integers, both negative integers or
    /// both floating-point numbers.
    pub open spec fn same_kind(self, other: Json) -> bool {
        match (self, other) {
            (Json::Null, Json::Null) => true,
            (Json::Bool(_), Json::Bool(_)) => true,
            (Json::Number(Num::PosInt(_)), Json::Number(Num::PosInt(_))) => true,
            (Json::Number(Num::NegInt(_)), Json::Number(Num::NegInt(_))) => true,
            (Json::Number(Num::Float(_)), Json::Number(Num::Float(_))) => true,
            (Json::String(_), Json::String(_)) => true,
            (Json::Array(_), Json::Array(_)) => true,
            (Json::Object(_), Json::Object(_)) => true,
            _ => false,
        }
    }
}

/// The content of a `serde_json::Value`.
pub uninterp spec fn json_of(v: Value) -> Json;

/// The content of a `serde_json::Number`.
pub uninterp spec fn number_of(n: Number) -> Num;

/// The members of a `serde_json::Map`, by key.
pub uninterp spec fn members_of(m: serde_json::Map<String, Value>) -> Map<Seq<char>, Json>;

/// The text that `serde_json` prints for a value: compact JSON.
pub uninterp spec fn rendered(v: Value) -> Seq<char>;

/// The text that `serde_json` prints for a number.
pub uninterp spec fn number_rendered(n: Number) -> Seq<char>;

/// The contents of a sequence of values, item by item.
pub open spec fn jsons_of(items: Seq<Value>) -> Seq<Json> {
    Seq::new(items.len(), |i: int| json_of(items[i]))
}

/// A map of finitely many members, `n` of them.
pub open spec fn has_size(members: Map<Seq<char>, Json>, n: nat) -> bool {
    members.dom().finite() && members.dom().len() == n
}

/// The map without members.
pub open spec fn no_json_members() -> Map<Seq<char>, Json> {
    Map::empty()
}

/// `Value::as_object`: the members of an object, and `None` for every other
/// kind of value.
#[verifier::external_body]
pub(crate) fn as_object(v: &Value) -> (r: Option<&serde_json::Map<String, Value>>)
    ensures
        r is Some <==> json_of(*v) is Object,
        r is Some ==> json_of(*v) == Json::Object(members_of(*r.unwrap())),
{
    v.as_object()
}

/// `Value::as_array`: the items of an array, and `None` for every other kind
/// of value.
#[verifier::external_body]
pub(crate) fn as_array(v: &Value) -> (r: Option<&Vec<Value>>)
    ensures
        r is Some <==> json_of(*v) is Array,
        r is Some ==> json_of(*v) == Json::Array(jsons_of(r.unwrap()@)),
{
    v.as_array()
}

/// `Value::as_str`: the text of a string, and `None` for every other kind of
/// value.
#[verifier::external_body]
pub(crate) fn as_text(v: &Value) -> (r: Option<&str>)
    ensures
        r is Some <==> json_of(*v) is String,
        r is Some ==> json_of(*v) == Json::String(r.unwrap()@),
{
    v.as_str()
}

/// `Value::as_number`: the number in a numeric value, and `None` for every
/// other kind of value.
#[verifier::external_body]
pub(crate) fn as_number(v: &Value) -> (r: Option<&Number>)
    ensures
        r is Some <==> json_of(*v) is Number,
        r is Some ==> json_of(*v) == Json::Number(number_of(*r.unwrap())),
{
    v.as_number()
}

/// `Map::len`: the number of members, which is finite.
#[verifier::external_body]
pub(crate) fn member_count(m: &serde_json::Map<String, Value>) -> (n: usize)
    ensures
        has_size(members_of(*m), n as nat),
{
    m.len()
}

/// `Map::get`: the member stored under `key`, if there is one.
#[verifier::external_body]
pub(crate) fn member<'a>(m: &'a serde_json::Map<String, Value>, key: &str) -> (r: Option<&'a Value>)
    ensures
        r is Some <==> members_of(*m).contains_key(key@),
        r is Some ==> json_of(*r.unwrap()) == members_of(*m)[key@],
{
    m.get(key)
}

/// `Map::new`: a map without members.
#[verifier::external_body]
pub(crate) fn no_members() -> (r: serde_json::Map<String, Value>)
    ensures
        members_of(r) == no_json_members(),
{
    serde_json::Map::new()
}

/// `Map::insert`: stores `v` under `key`, in place of what was there.
#[verifier::external_body]
pub(crate) fn set_member(m: &mut serde_json::Map<String, Value>, key: String, v: Value)
    ensures
        members_of(*final(m)) == members_of(*old(m)).insert(key@, json_of(v)),
{
    m.insert(key, v);
}

/// `Value::clone`: a copy, equal to the value it was made from.
pub assume_specification[ <Value as Clone>::clone ](v: &Value) -> (r: Value)
    ensures
        r == *v,
;

/// `Value::to_string`: the value printed as compact JSON.
#[verifier::external_body]
pub(crate) fn render(v: &Value) -> (r: String)
    ensures
        r@ == rendered(*v),
{
    v.to_string()
}

/// `Value::eq`: two values compare equal exactly when they hold the same
/// content. Numbers of different kinds differ, arrays are compared item by
/// item in order, objects member by member.
#[verifier::external_body]
pub(crate) fn same_value(a: &Value, b: &Value) -> (r: bool)
    ensures
        r == (json_of(*a) == json_of(*b)),
{
    a == b
}

/// The variant `Value::Bool`.
#[verifier::external_body]
pub(crate) fn bool_value(b: bool) -> (r: Value)
    ensures
        json_of(r) == Json::Bool(b),
{
    Value::Bool(b)
}

/// The variant `Value::String`.
#[verifier::external_body]
pub(crate) fn text_value(s: String) -> (r: Value)
    ensures
        json_of(r) == Json::String(s@),
{
    Value::String(s)
}

/// The variant `Value::Number`.
#[verifier::external_body]
pub(crate) fn number_value(n: Number) -> (r: Value)
    ensures
        json_of(r) == Json::Number(number_of(n)),
{
    Value::Number(n)
}

/// The variant `Value::Array`.
#[verifier::external_body]
pub(crate) fn array_value(items: Vec<Value>) -> (r: Value)
    ensures
        json_of(r) == Json::Array(jsons_of(items@)),
{
    Value::Array(items)
}

/// The variant `Value::Object`.
#[verifier::external_body]
pub(crate) fn object_value(m: serde_json::Map<String, Value>) -> (r: Value)
    ensures
        json_of(r) == Json::Object(members_of(m)),
{
    Value::Object(m)
}

/// `Number::to_string`: the number printed as in JSON.
#[verifier::external_body]
pub(crate) fn render_number(n: &Number) -> (r: String)
    ensures
        r@ == number_rendered(*n),
{
    n.to_string()
}

/// `Number::as_u64`: the number itself where it is a non-negative integer.
#[verifier::external_body]
pub(crate) fn number_as_u64(n: &Number) -> (r: Option<u64>)
    ensures
        r == (match number_of(*n) {
            Num::PosInt(u) => Some(u),
            _ => None::<u64>,
        }),
{
    n.as_u64()
}

/// `Number::as_i64`: the number itself where it is an integer that an `i64`
/// can hold.
#[verifier::external_body]
pub(crate) fn number_as_i64(n: &Number) -> (r: Option<i64>)
    ensures
        r == (match number_of(*n) {
            Num::PosInt(u) => if u <= i64::MAX as u64 { Some(u as i64) } else { None::<i64> },
            Num::NegInt(i) => Some(i),
            Num::Float(_) => None::<i64>,
        }),
{
    n.as_i64()
}

/// `Number::from` on a `u64`: the non-negative integer `u`.
#[verifier::external_body]
pub(crate) fn number_from_u64(u: u64) -> (n: Number)
    ensures
        number_of(n) == Num::PosInt(u),
{
    Number::from(u)
}

/// `Number::from` on an `i64`: the integer `i`, held as a negative one where
/// it is below zero and as a non-negative one otherwise.
#[verifier::external_body]
pub(crate) fn number_from_i64(i: i64) -> (n: Number)
    ensures
        number_of(n) == (if i < 0 { Num::NegInt(i) } else { Num::PosInt(i as u64) }),
{
    Number::from(i)
}

} // verus!
