//! Equality operators: structural, with no implicit conversion.

use vstd::prelude::*;
use serde_json::Value;
use crate::error::Error;
use crate::json::{bool_value, json_of, same_value, Json};

verus! {

/// Structural equality of two JSON values: the same kind and the same
/// content. Arrays are equal item by item, in order; objects are equal as
/// maps, whatever the order in which their members were written.
pub open spec fn equal_spec(a: Json, b: Json) -> bool {
    a == b
}

/// Structural inequality of two JSON values.
pub open spec fn not_equal_spec(a: Json, b: Json) -> bool {
    a != b
}

/// Compare two values, the first two of `items`, for equality.
pub fn equal(items: &Vec<&Value>) -> (r: Result<Value, Error>)
    requires
        items.len() >= 2,
    ensures
        r is Ok,
        json_of(r.unwrap()) == Json::Bool(equal_spec(json_of(*items[0]), json_of(*items[1]))),
{
    Ok(bool_value(same_value(items[0], items[1])))
}

/// Compare two values, the first two of `items`, for inequality.
pub fn not_equal(items: &Vec<&Value>) -> (r: Result<Value, Error>)
    requires
        items.len() >= 2,
    ensures
        r is Ok,
        json_of(r.unwrap()) == Json::Bool(not_equal_spec(json_of(*items[0]), json_of(*items[1]))),
{
    Ok(bool_value(!same_value(items[0], items[1])))
}

/// Inequality is the negation of equality, on every pair of values.
pub proof fn lemma_not_equal_negates_equal(a: Json, b: Json)
    ensures
        not_equal_spec(a, b) == !equal_spec(a, b),
{
}

/// Values of different kinds are never equal: nothing is converted. A
/// boolean is equal to no number and to no array, an integer to no
/// floating-point number.
pub proof fn lemma_kinds_differ(a: Json, b: Json)
    requires
        !a.same_kind(b),
    ensures
        !equal_spec(a, b),
        not_equal_spec(a, b),
{
}

/// Arrays are equal exactly when they have the same length and the same
/// item at every position: the order of the items counts.
pub proof fn lemma_array_order_counts(a: Seq<Json>, b: Seq<Json>)
    ensures
        equal_spec(Json::Array(a), Json::Array(b)) <==> (a.len() == b.len() && forall|i: int|
            0 <= i < a.len() ==> a[i] == b[i]),
{
    if a.len() == b.len() && (forall|i: int| 0 <= i < a.len() ==> a[i] == b[i]) {
        assert(a =~= b);
    }
}

/// Objects are equal whatever the order in which their members were
/// written: two members under different keys, stored in either order, give
/// the same object.
pub proof fn lemma_key_order_is_irrelevant(
    members: Map<Seq<char>, Json>,
    k1: Seq<char>,
    v1: Json,
    k2: Seq<char>,
    v2: Json,
)
    requires
        k1 != k2,
    ensures
        equal_spec(
            Json::Object(members.insert(k1, v1).insert(k2, v2)),
            Json::Object(members.insert(k2, v2).insert(k1, v1)),
        ),
{
    assert(members.insert(k1, v1).insert(k2, v2) =~= members.insert(k2, v2).insert(k1, v1));
}

} // verus!
