//! Numeric operations: strict addition that stays with integers as long as
//! an integer can hold the sum, and chained comparison.

use vstd::prelude::*;
use vstd::string::*;
use serde_json::{Number, Value};
use crate::error::Error;
use crate::json::{
    as_number, bool_value, json_of, number_as_i64, number_as_u64, number_from_i64,
    number_from_u64, number_of, number_rendered, number_value, render_number, Json, Num,
};

verus! {

/// The three representations of a JSON number. Of a floating-point number
/// only the kind is kept: its arithmetic is the caller's.
#[derive(Clone, Copy, Debug, PartialEq, Eq, Structural)]
pub enum JsonNumber {
    U64(u64),
    I64(i64),
    Float,
}

impl JsonNumber {
    /// The representation of a number: the narrowest that holds it.
    pub open spec fn of(n: Num) -> JsonNumber {
        match n {
            Num::PosInt(u) => JsonNumber::U64(u),
            Num::NegInt(i) => JsonNumber::I64(i),
            Num::Float(_) => JsonNumber::Float,
        }
    }

    /// The integer that the number is, if it is one.
    pub open spec fn integer(self) -> Option<int> {
        match self {
            JsonNumber::U64(u) => Some(u as int),
            JsonNumber::I64(i) => Some(i as int),
            JsonNumber::Float => None,
        }
    }

    /// The representation of an integer: unsigned from zero on, signed below,
    /// and none outside the range of both.
    pub open spec fn of_integer(v: int) -> Option<JsonNumber> {
        if 0 <= v <= u64::MAX {
            Some(JsonNumber::U64(v as u64))
        } else if i64::MIN <= v < 0 {
            Some(JsonNumber::I64(v as i64))
        } else {
            None
        }
    }

    /// The sum of two numbers as an integer: it exists where both are
    /// integers and an unsigned or a signed integer holds their exact sum.
    pub open spec fn integer_sum(self, other: JsonNumber) -> Option<JsonNumber> {
        match (self.integer(), other.integer()) {
            (Some(x), Some(y)) => JsonNumber::of_integer(x + y),
            _ => None,
        }
    }

    /// The JSON number that an integer representation stands for.
    pub open spec fn number(self) -> Option<Num> {
        match self {
            JsonNumber::U64(u) => Some(Num::PosInt(u)),
            JsonNumber::I64(i) => Some(
                if i < 0 {
                    Num::NegInt(i)
                } else {
                    Num::PosInt(i as u64)
                },
            ),
            JsonNumber::Float => None,
        }
    }

    /// Classifies a number.
    pub fn from_number(n: &Number) -> (r: JsonNumber)
        ensures
            r == JsonNumber::of(number_of(*n)),
    {
        match number_as_u64(n) {
            Some(u) => JsonNumber::U64(u),
            None => match number_as_i64(n) {
                Some(i) => JsonNumber::I64(i),
                None => JsonNumber::Float,
            },
        }
    }

    /// Adds an unsigned integer and one below zero, by their magnitudes:
    /// the difference is unsigned where it does not go below zero, and
    /// signed where it does.
    fn add_negative(x: u64, y: i64) -> (r: JsonNumber)
        requires
            y < 0,
        ensures
            Some(r) == JsonNumber::of_integer(x + y),
    {
        let magnitude: u64 = if y == i64::MIN {
            0x8000_0000_0000_0000u64
        } else {
            (-y) as u64
        };
        if x >= magnitude {
            JsonNumber::U64(x - magnitude)
        } else {
            JsonNumber::I64(x as i64 + y)
        }
    }

    /// Adds two numbers as integers, with overflow checked. `None` where
    /// one of them is no integer or no integer holds the sum: the sum is
    /// then to be taken in floating point.
    pub fn checked_integer_add(self, other: JsonNumber) -> (r: Option<JsonNumber>)
        ensures
            r == self.integer_sum(other),
    {
        let first = match self {
            JsonNumber::I64(i) if i >= 0 => JsonNumber::U64(i as u64),
            _ => self,
        };
        let second = match other {
            JsonNumber::I64(i) if i >= 0 => JsonNumber::U64(i as u64),
            _ => other,
        };
        match (first, second) {
            (JsonNumber::U64(x), JsonNumber::U64(y)) => match x.checked_add(y) {
                Some(sum) => Some(JsonNumber::U64(sum)),
                None => None,
            },
            (JsonNumber::U64(x), JsonNumber::I64(y)) => Some(JsonNumber::add_negative(x, y)),
            (JsonNumber::I64(x), JsonNumber::U64(y)) => Some(JsonNumber::add_negative(y, x)),
            (JsonNumber::I64(x), JsonNumber::I64(y)) => match x.checked_add(y) {
                Some(sum) => Some(JsonNumber::I64(sum)),
                None => None,
            },
            _ => None,
        }
    }
}

/// The sum of two JSON numbers where it is an integer.
pub open spec fn integer_sum(a: Num, b: Num) -> Option<Num> {
    match JsonNumber::of(a).integer_sum(JsonNumber::of(b)) {
        Some(sum) => sum.number(),
        None => None,
    }
}

/// Adds two numbers. Where both are integers and an integer holds their
/// sum, the result is that integer. Otherwise the sum is taken by `widen`,
/// the addition in floating point, which gives `None` where the result is
/// not finite.
pub fn checked_add<F>(first: &Number, second: &Number, widen: F) -> (sum: Option<Number>) where
    F: Fn(&Number, &Number) -> Option<Number>,

    requires
        widen.requires((first, second)),
    ensures
        match integer_sum(number_of(*first), number_of(*second)) {
            Some(n) => sum is Some && number_of(sum.unwrap()) == n,
            None => widen.ensures((first, second), sum),
        },
{
    match JsonNumber::from_number(first).checked_integer_add(JsonNumber::from_number(second)) {
        Some(JsonNumber::U64(u)) => Some(number_from_u64(u)),
        Some(JsonNumber::I64(i)) => Some(number_from_i64(i)),
        _ => widen(first, second),
    }
}

/// The name of the addition in failures.
pub open spec fn add_key() -> Seq<char> {
    "add"@
}

/// What an addition of two numbers returns, given the sum that
/// [`checked_add`] found.
pub open spec fn sum_outcome(r: Result<Value, Error>, first: Number, second: Number, sum: Option<Number>) -> bool {
    match sum {
        Some(n) => r is Ok && json_of(r.unwrap()) == Json::Number(number_of(n)),
        None => r is Err && r.unwrap_err() is OverflowBinaryOp && r.unwrap_err()->OverflowBinaryOp_0@
            == add_key() && r.unwrap_err()->OverflowBinaryOp_1@ == number_rendered(first)
            && r.unwrap_err()->OverflowBinaryOp_2@ == number_rendered(second),
    }
}

/// Turns the sum of two numbers into the result of the addition: the sum as
/// a JSON value, or the overflow of `add` on the two operands.
pub fn sum_to_result(first: &Number, second: &Number, sum: Option<Number>) -> (r: Result<Value, Error>)
    ensures
        sum_outcome(r, *first, *second, sum),
{
    match sum {
        Some(n) => Ok(number_value(n)),
        None => Err(Error::OverflowBinaryOp("add", render_number(first), render_number(second))),
    }
}

/// The failure of `add` on an argument that is no number.
pub open spec fn rejects(r: Result<Value, Error>, argument: Value) -> bool {
    r is Err && r.unwrap_err() is InvalidArgument && r.unwrap_err()->InvalidArgument_value
        == argument && r.unwrap_err()->InvalidArgument_operation@ == add_key()
        && r.unwrap_err()->InvalidArgument_reason@ == "arguments to add must be numbers"@
}

/// Performs addition on two numbers, the first two of `items`.
///
/// There is no implicit conversion: the only acceptable arguments are
/// numbers, and the first that is none is reported. Two integers whose sum
/// an integer holds give that integer. Any other pair of numbers is added
/// by `widen`, on the numbers that the two items hold; where that gives
/// nothing, the addition has overflowed.
pub fn add<F>(items: &Vec<&Value>, widen: F) -> (r: Result<Value, Error>) where
    F: Fn(&Number, &Number) -> Option<Number>,

    requires
        items.len() >= 2,
        forall|a: &Number, b: &Number| #[trigger] widen.requires((a, b)),
    ensures
        match (json_of(*items[0]), json_of(*items[1])) {
            (Json::Number(a), Json::Number(b)) => match integer_sum(a, b) {
                Some(n) => r is Ok && json_of(r.unwrap()) == Json::Number(n),
                None => exists|first: &Number, second: &Number, sum: Option<Number>|
                    number_of(*first) == a && number_of(*second) == b && #[trigger] widen.ensures(
                        (first, second),
                        sum,
                    ) && sum_outcome(r, *first, *second, sum),
            },
            (Json::Number(_), _) => rejects(r, *items[1]),
            _ => rejects(r, *items[0]),
        },
{
    let first = match as_number(items[0]) {
        Some(first) => first,
        None => {
            return Err(
                Error::InvalidArgument {
                    value: items[0].clone(),
                    operation: "add",
                    reason: String::from_str("arguments to add must be numbers"),
                },
            );
        },
    };
    let second = match as_number(items[1]) {
        Some(second) => second,
        None => {
            return Err(
                Error::InvalidArgument {
                    value: items[1].clone(),
                    operation: "add",
                    reason: String::from_str("arguments to add must be numbers"),
                },
            );
        },
    };
    let sum = checked_add(first, second, widen);
    sum_to_result(first, second, sum)
}

/// How two values stand to each other under the abstract relational
/// comparison, which converts its operands as it sees fit. Two values that
/// it cannot order, such as a number and a text that spells none, are
/// unordered.
#[derive(Clone, Copy, Debug, PartialEq, Eq, Structural)]
pub enum Relation {
    Less,
    Equal,
    Greater,
    Unordered,
}

/// The four ordering operators.
#[derive(Clone, Copy, Debug, PartialEq, Eq, Structural)]
pub enum Comparison {
    Lt,
    Lte,
    Gt,
    Gte,
}

impl Comparison {
    /// Whether the operator holds of two values that stand in `relation`.
    /// None holds of unordered values.
    pub open spec fn holds(self, relation: Relation) -> bool {
        match self {
            Comparison::Lt => relation == Relation::Less,
            Comparison::Lte => relation == Relation::Less || relation == Relation::Equal,
            Comparison::Gt => relation == Relation::Greater,
            Comparison::Gte => relation == Relation::Greater || relation == Relation::Equal,
        }
    }

    /// Decides whether the operator holds of two values that stand in
    /// `relation`.
    pub fn test(self, relation: Relation) -> (r: bool)
        ensures
            r == self.holds(relation),
    {
        match self {
            Comparison::Lt => relation == Relation::Less,
            Comparison::Lte => relation == Relation::Less || relation == Relation::Equal,
            Comparison::Gt => relation == Relation::Greater,
            Comparison::Gte => relation == Relation::Greater || relation == Relation::Equal,
        }
    }

    /// The result of the operator on two or three items, chained: with
    /// three items it holds where it holds of the first and the second, and
    /// of the second and the third. The relations are those that `order`
    /// finds; it is not asked for the second pair where the operator fails
    /// on the first.
    pub open spec fn chained<F: Fn(&Value, &Value) -> Relation>(
        self,
        order: F,
        items: Seq<&Value>,
        r: Result<Value, Error>,
    ) -> bool {
        r is Ok && exists|x: Relation| #[trigger]
            order.ensures((items[0], items[1]), x) && (if items.len() == 3 && self.holds(x) {
                exists|y: Relation| #[trigger]
                    order.ensures((items[1], items[2]), y) && json_of(r.unwrap()) == Json::Bool(
                        self.holds(y),
                    )
            } else {
                json_of(r.unwrap()) == Json::Bool(self.holds(x))
            })
    }

}

/// Applies an ordering operator to two or three items, chained: `order`
/// puts the first two in relation and, where the operator holds of them and
/// there is a third item, the second and the third.
pub fn compare<F>(which: Comparison, order: F, items: &Vec<&Value>) -> (r: Result<Value, Error>) where
    F: Fn(&Value, &Value) -> Relation,

    requires
        items.len() == 2 || items.len() == 3,
        forall|a: &Value, b: &Value| #[trigger] order.requires((a, b)),
    ensures
        which.chained(order, items@, r),
{
    let first = order(items[0], items[1]);
    if items.len() == 3 && which.test(first) {
        let second = order(items[1], items[2]);
        Ok(bool_value(which.test(second)))
    } else {
        Ok(bool_value(which.test(first)))
    }
}

/// Do < for either 2 or 3 values, which `order` puts in relation.
pub fn lt<F>(items: &Vec<&Value>, order: F) -> (r: Result<Value, Error>) where
    F: Fn(&Value, &Value) -> Relation,

    requires
        items.len() == 2 || items.len() == 3,
        forall|a: &Value, b: &Value| #[trigger] order.requires((a, b)),
    ensures
        Comparison::Lt.chained(order, items@, r),
{
    compare(Comparison::Lt, order, items)
}

/// Do <= for either 2 or 3 values, which `order` puts in relation.
pub fn lte<F>(items: &Vec<&Value>, order: F) -> (r: Result<Value, Error>) where
    F: Fn(&Value, &Value) -> Relation,

    requires
        items.len() == 2 || items.len() == 3,
        forall|a: &Value, b: &Value| #[trigger] order.requires((a, b)),
    ensures
        Comparison::Lte.chained(order, items@, r),
{
    compare(Comparison::Lte, order, items)
}

/// Do > for either 2 or 3 values, which `order` puts in relation.
pub fn gt<F>(items: &Vec<&Value>, order: F) -> (r: Result<Value, Error>) where
    F: Fn(&Value, &Value) -> Relation,

    requires
        items.len() == 2 || items.len() == 3,
        forall|a: &Value, b: &Value| #[trigger] order.requires((a, b)),
    ensures
        Comparison::Gt.chained(order, items@, r),
{
    compare(Comparison::Gt, order, items)
}

/// Do >= for either 2 or 3 values, which `order` puts in relation.
pub fn gte<F>(items: &Vec<&Value>, order: F) -> (r: Result<Value, Error>) where
    F: Fn(&Value, &Value) -> Relation,

    requires
        items.len() == 2 || items.len() == 3,
        forall|a: &Value, b: &Value| #[trigger] order.requires((a, b)),
    ensures
        Comparison::Gte.chained(order, items@, r),
{
    compare(Comparison::Gte, order, items)
}

} // verus!
