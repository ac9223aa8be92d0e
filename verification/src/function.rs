//! Function definitions: the node `{"defn": [name, params, expression]}`.

use vstd::prelude::*;
use vstd::string::*;
use serde_json::Value;
use crate::error::{Error, NumParams};
use crate::identifier::{
    describe_invalid_identifier, identifier_text, invalid_identifier_message, is_identifier,
    spelled, Identifier,
};
use crate::json::{
    array_value, as_array, as_object, has_size, json_of, jsons_of, member,
    member_count, no_members, object_value, render, rendered, set_member, text_value, Json,
};

verus! {

/// What a function is: its name, the names of its parameters in order, the
/// expression that is its body, and its arity.
pub struct FunctionView {
    pub name: Seq<char>,
    pub params: Seq<Seq<char>>,
    pub expression: Json,
    pub num_params: NumParams,
}

/// The parts of a definition node that can be malformed.
pub enum Part {
    /// What stands under `defn`, which must be an array.
    Argument,
    /// The first item, the function's name.
    Name,
    /// The second item, the parameter list.
    Parameters,
    /// The third item, the function's body.
    Body,
}

/// The outcome of reading a JSON value as a function definition.
pub enum Parsed {
    /// The value is no definition node: it is data, or another operator.
    NotAFunction,
    /// The value defines this function.
    Function(FunctionView),
    /// The value is a definition node, and this part of it is malformed:
    /// the part's content, and which part it is.
    InvalidArgument(Json, Part),
    /// The value is a definition node over an array of this length, which
    /// is not three.
    WrongArgumentCount(nat),
}

/// The key of a definition node.
pub open spec fn operator_key() -> Seq<char> {
    "defn"@
}

/// What stands under the key of a definition node: the value is an object
/// with exactly one member, and that member's key is `defn`.
pub open spec fn definition_argument(j: Json) -> Option<Json> {
    match j {
        Json::Object(members) => if has_size(members, 1) && members.contains_key(operator_key()) {
            Some(members[operator_key()])
        } else {
            None
        },
        _ => None,
    }
}

/// Whether a value has the shape of a definition node.
pub open spec fn is_definition(j: Json) -> bool {
    definition_argument(j) is Some
}

/// Every item spells an identifier.
pub open spec fn all_identifiers(items: Seq<Json>) -> bool {
    forall|i: int| 0 <= i < items.len() ==> (#[trigger] identifier_text(items[i])) is Some
}

/// No two items are the same.
pub open spec fn all_different(items: Seq<Json>) -> bool {
    forall|i: int, k: int| 0 <= i < k < items.len() ==> #[trigger] items[i] != #[trigger] items[k]
}

/// The parameter names that a JSON value lists: an array of strings, each
/// an identifier, no two the same.
pub open spec fn parameter_names(j: Json) -> Option<Seq<Seq<char>>> {
    match j {
        Json::Array(items) => if all_identifiers(items) && all_different(items) {
            Some(Seq::new(items.len(), |i: int| identifier_text(items[i]).unwrap()))
        } else {
            None
        },
        _ => None,
    }
}

/// Reads a JSON value as a function definition. The parts of a definition
/// are checked in order: the argument is an array, of three items; the
/// first is the name, the second the parameter list, and the third, the
/// body, is not itself a definition.
pub open spec fn parse(j: Json) -> Parsed {
    match definition_argument(j) {
        None => Parsed::NotAFunction,
        Some(argument) => match argument {
            Json::Array(items) => if items.len() != 3 {
                Parsed::WrongArgumentCount(items.len())
            } else if identifier_text(items[0]) is None {
                Parsed::InvalidArgument(items[0], Part::Name)
            } else if parameter_names(items[1]) is None {
                Parsed::InvalidArgument(items[1], Part::Parameters)
            } else if is_definition(items[2]) {
                Parsed::InvalidArgument(items[2], Part::Body)
            } else {
                Parsed::Function(
                    FunctionView {
                        name: identifier_text(items[0]).unwrap(),
                        params: parameter_names(items[1]).unwrap(),
                        expression: items[2],
                        num_params: NumParams::Exactly(
                            parameter_names(items[1]).unwrap().len() as usize,
                        ),
                    },
                )
            },
            _ => Parsed::InvalidArgument(argument, Part::Argument),
        },
    }
}

/// The item at `i` of a parameter list is the first that is no identifier
/// or repeats an earlier one, `item` holds it, and `reason` says so: of an
/// item that is no identifier, what it is and why it is none; of a repeated
/// one, its name.
pub open spec fn parameter_fails(listed: Seq<Json>, i: int, item: Value, reason: Seq<char>) -> bool {
    &&& 0 <= i < listed.len()
    &&& json_of(item) == listed[i]
    &&& all_identifiers(listed.take(i))
    &&& all_different(listed.take(i))
    &&& if identifier_text(listed[i]) is None {
        reason == "Could not parse parameter "@ + rendered(item) + " due to: "@
            + invalid_identifier_message(spelled(item))
    } else {
        &&& exists|k: int| 0 <= k < i && #[trigger] listed[k] == listed[i]
        &&& reason == "Parameter "@ + identifier_text(listed[i]).unwrap()
            + " is listed more than once"@
    }
}

/// The reason given for a malformed parameter list.
pub open spec fn explains_parameters(reason: Seq<char>, j: Json) -> bool {
    match j {
        Json::Array(listed) => exists|i: int, item: Value| #[trigger]
            parameter_fails(listed, i, item, reason),
        _ => reason == "Parameter list must be an array"@,
    }
}

/// The reason given for a malformed part of a definition node, `value`. A
/// malformed name is explained by what is said of the text that is no
/// identifier.
pub open spec fn explains(reason: Seq<char>, part: Part, value: Value) -> bool {
    match part {
        Part::Argument => reason == "Argument to 'defn' must be an array"@,
        Part::Name => reason == invalid_identifier_message(spelled(value)),
        Part::Parameters => explains_parameters(reason, json_of(value)),
        Part::Body => reason == "A function's body may not be a function definition"@,
    }
}

/// A function whose names are identifiers, whose parameters differ from one
/// another, whose body is no definition, and whose arity is the number of
/// its parameters.
pub open spec fn well_formed(f: FunctionView) -> bool {
    &&& f.num_params == NumParams::Exactly(f.params.len() as usize)
    &&& is_identifier(f.name)
    &&& forall|i: int| 0 <= i < f.params.len() ==> is_identifier(#[trigger] f.params[i])
    &&& forall|i: int, k: int|
        0 <= i < k < f.params.len() ==> #[trigger] f.params[i] != #[trigger] f.params[k]
    &&& !is_definition(f.expression)
}

/// The parameter list of a function as JSON.
pub open spec fn parameters_json(params: Seq<Seq<char>>) -> Json {
    Json::Array(Seq::new(params.len(), |i: int| Json::String(params[i])))
}

/// The definition node that defines a function.
pub open spec fn function_json(f: FunctionView) -> Json {
    Json::Object(
        Map::<Seq<char>, Json>::empty().insert(
            operator_key(),
            Json::Array(seq![Json::String(f.name), parameters_json(f.params), f.expression]),
        ),
    )
}

/// The names of a sequence of identifiers.
pub open spec fn names_of(ids: Seq<Identifier>) -> Seq<Seq<char>> {
    Seq::new(ids.len(), |i: int| ids[i]@)
}

/// A (potentially user-defined) function.
#[derive(Clone, Debug, PartialEq)]
pub struct Function {
    name: Identifier,
    params: Vec<Identifier>,
    expression: Value,
    num_params: NumParams,
}

impl View for Function {
    type V = FunctionView;

    closed spec fn view(&self) -> FunctionView {
        FunctionView {
            name: self.name@,
            params: names_of(self.params@),
            expression: json_of(self.expression),
            num_params: self.num_params,
        }
    }
}

/// The key of a definition node.
pub fn operator() -> (key: &'static str)
    ensures
        key@ == operator_key(),
{
    "defn"
}

impl Function {
    /// Whether a result of parsing is the outcome `p`.
    pub open spec fn agrees(r: Result<Option<Function>, Error>, p: Parsed) -> bool {
        match p {
            Parsed::NotAFunction => r is Ok && r.unwrap() is None,
            Parsed::Function(f) => r is Ok && r.unwrap() is Some && r.unwrap().unwrap()@ == f,
            Parsed::InvalidArgument(j, part) => r is Err && r.unwrap_err() is InvalidArgument
                && json_of(r.unwrap_err()->InvalidArgument_value) == j
                && r.unwrap_err()->InvalidArgument_operation@ == operator_key() && explains(
                r.unwrap_err()->InvalidArgument_reason@,
                part,
                r.unwrap_err()->InvalidArgument_value,
            ),
            Parsed::WrongArgumentCount(n) => r is Err && r.unwrap_err() is WrongArgumentCount
                && r.unwrap_err()->WrongArgumentCount_expected == NumParams::Exactly(3)
                && r.unwrap_err()->WrongArgumentCount_actual == n,
        }
    }

    /// Builds a function from its parts, as they are.
    pub fn new(
        name: Identifier,
        params: Vec<Identifier>,
        expression: Value,
        num_params: NumParams,
    ) -> (f: Function)
        ensures
            f@ == (FunctionView {
                name: name@,
                params: names_of(params@),
                expression: json_of(expression),
                num_params,
            }),
    {
        Function { name, params, expression, num_params }
    }

    /// The function's arity.
    pub fn param_info(&self) -> (n: &NumParams)
        ensures
            *n == self@.num_params,
    {
        &self.num_params
    }

    /// Hands `value` back if it has the shape of a definition node.
    pub fn filter_value(value: &Value) -> (r: Option<&Value>)
        ensures
            r is Some <==> is_definition(json_of(*value)),
            r is Some ==> *r.unwrap() == *value,
    {
        match Function::get_in_params(value) {
            Some(_) => Some(value),
            None => None,
        }
    }

    /// The argument of a definition node: what stands under `defn` in an
    /// object that has no other key.
    pub fn get_in_params(value: &Value) -> (r: Option<&Value>)
        ensures
            match definition_argument(json_of(*value)) {
                Some(argument) => r is Some && json_of(*r.unwrap()) == argument,
                None => r is None,
            },
    {
        match as_object(value) {
            Some(members) => {
                if member_count(members) == 1 {
                    member(members, operator())
                } else {
                    None
                }
            },
            None => None,
        }
    }

    /// Reads a parameter list: an array of strings, each an identifier, no
    /// two the same. Anything else is an invalid argument of `defn`, and the
    /// failure holds the whole list.
    pub fn to_parameters(value: &Value) -> (r: Result<Vec<Identifier>, Error>)
        ensures
            match parameter_names(json_of(*value)) {
                Some(names) => r is Ok && names_of(r.unwrap()@) == names,
                None => r is Err && r.unwrap_err() is InvalidArgument
                    && r.unwrap_err()->InvalidArgument_value == *value
                    && r.unwrap_err()->InvalidArgument_operation@ == operator_key()
                    && explains_parameters(
                    r.unwrap_err()->InvalidArgument_reason@,
                    json_of(*value),
                ),
            },
    {
        let items = match as_array(value) {
            Some(items) => items,
            None => {
                return Err(
                    Error::InvalidArgument {
                        value: value.clone(),
                        operation: operator(),
                        reason: String::from_str("Parameter list must be an array"),
                    },
                );
            },
        };
        let ghost listed = jsons_of(items@);
        let mut params: Vec<Identifier> = Vec::new();
        let mut i: usize = 0;
        while i < items.len()
            invariant
                i <= items.len(),
                params.len() == i,
                listed == jsons_of(items@),
                json_of(*value) == Json::Array(listed),
                forall|j: int| 0 <= j < i ==> identifier_text(#[trigger] listed[j]) == Some(params[j]@),
                forall|j: int, k: int| 0 <= j < k < i ==> #[trigger] listed[j] != #[trigger] listed[k],
            decreases items.len() - i,
        {
            let param = match Identifier::try_from(&items[i]) {
                Ok(param) => param,
                Err(e) => {
                    let why = match e {
                        Error::InvalidIdentifier(text) => describe_invalid_identifier(text.as_str()),
                        _ => String::from_str("not an identifier"),
                    };
                    let reason = String::from_str("Could not parse parameter ").concat(
                        render(&items[i]).as_str(),
                    ).concat(" due to: ").concat(why.as_str());
                    assert(parameter_fails(listed, i as int, items[i as int], reason@));
                    return Err(
                        Error::InvalidArgument { value: value.clone(), operation: operator(), reason },
                    );
                },
            };
            let mut k: usize = 0;
            while k < i
                invariant
                    k <= i,
                    i < items.len(),
                    params.len() == i,
                    listed == jsons_of(items@),
                    json_of(*value) == Json::Array(listed),
                    identifier_text(listed[i as int]) == Some(param@),
                    forall|j: int| 0 <= j < i ==> identifier_text(#[trigger] listed[j]) == Some(params[j]@),
                    forall|j: int, m: int| 0 <= j < m < i ==> #[trigger] listed[j] != #[trigger] listed[m],
                    forall|j: int| 0 <= j < k ==> #[trigger] listed[j] != listed[i as int],
                decreases i - k,
            {
                if params[k].same_as(&param) {
                    let reason = String::from_str("Parameter ").concat(param.value()).concat(
                        " is listed more than once",
                    );
                    assert(listed[k as int] == listed[i as int]);
                    assert(parameter_fails(listed, i as int, items[i as int], reason@));
                    return Err(
                        Error::InvalidArgument { value: value.clone(), operation: operator(), reason },
                    );
                }
                k += 1;
            }
            params.push(param);
            i += 1;
        }
        assert(names_of(params@) =~= parameter_names(json_of(*value)).unwrap());
        Ok(params)
    }

    /// Attempts to read a function from a JSON value: `Ok(None)` where the
    /// value is no definition node, the function where it is a valid one,
    /// and the failure that [`parse`] names where it is malformed.
    pub fn from_value(value: &Value) -> (r: Result<Option<Function>, Error>)
        ensures
            Function::agrees(r, parse(json_of(*value))),
            r is Ok && r.unwrap() is Some ==> well_formed(r.unwrap().unwrap()@),
    {
        let argument = match Function::get_in_params(value) {
            Some(argument) => argument,
            None => {
                return Ok(None);
            },
        };
        let items = match as_array(argument) {
            Some(items) => items,
            None => {
                return Err(
                    Error::invalid_argument(
                        argument.clone(),
                        operator(),
                        String::from_str("Argument to 'defn' must be an array"),
                    ),
                );
            },
        };
        if items.len() != 3 {
            return Err(Error::wrong_argument_count(NumParams::Exactly(3), items.len()));
        }
        let ghost listed = jsons_of(items@);
        assert(listed[0] == json_of(items[0]) && listed[1] == json_of(items[1]) && listed[2]
            == json_of(items[2]));
        let name = match Identifier::try_from(&items[0]) {
            Ok(name) => name,
            Err(e) => {
                let why = match e {
                    Error::InvalidIdentifier(text) => describe_invalid_identifier(text.as_str()),
                    _ => String::from_str("not an identifier"),
                };
                return Err(Error::invalid_argument(items[0].clone(), operator(), why));
            },
        };
        let params = match Function::to_parameters(&items[1]) {
            Ok(params) => params,
            Err(e) => {
                return Err(e);
            },
        };
        if Function::filter_value(&items[2]).is_some() {
            return Err(
                Error::invalid_argument(
                    items[2].clone(),
                    operator(),
                    String::from_str("A function's body may not be a function definition"),
                ),
            );
        }
        let num_params: usize = params.len();
        proof {
            lemma_listed_names_are_well_formed(listed[1]);
        }
        Ok(Some(Function::new(name, params, items[2].clone(), NumParams::Exactly(num_params))))
    }

    /// The definition node that defines this function. Where the function
    /// is well formed, reading the node gives the function again.
    pub fn to_value(&self) -> (v: Value)
        ensures
            json_of(v) == function_json(self@),
            well_formed(self@) ==> parse(json_of(v)) == Parsed::Function(self@),
    {
        proof {
            if well_formed(self@) {
                lemma_round_trip(self@);
            }
        }
        let mut names: Vec<Value> = Vec::new();
        let mut i: usize = 0;
        while i < self.params.len()
            invariant
                i <= self.params.len(),
                names.len() == i,
                forall|j: int| 0 <= j < i ==> json_of(#[trigger] names[j]) == Json::String(self.params[j]@),
            decreases self.params.len() - i,
        {
            names.push(self.params[i].to_value());
            i += 1;
        }
        assert(jsons_of(names@) =~= parameters_json(self@.params)->Array_0);
        let mut parts: Vec<Value> = Vec::new();
        parts.push(self.name.to_value());
        parts.push(array_value(names));
        parts.push(self.expression.clone());
        assert(jsons_of(parts@) =~= seq![
            Json::String(self@.name),
            parameters_json(self@.params),
            self@.expression,
        ]);
        let mut members = no_members();
        set_member(&mut members, String::from_str(operator()), array_value(parts));
        object_value(members)
    }

    /// The function's name.
    pub fn name(&self) -> (name: &Identifier)
        ensures
            name@ == self@.name,
    {
        &self.name
    }

    /// The function's parameters, in order.
    pub fn params(&self) -> (params: &Vec<Identifier>)
        ensures
            names_of(params@) == self@.params,
    {
        &self.params
    }

    /// The function's body.
    pub fn expression(&self) -> (expression: &Value)
        ensures
            json_of(*expression) == self@.expression,
    {
        &self.expression
    }
}

/// The names that a parameter list spells are identifiers, and differ from
/// one another.
pub proof fn lemma_listed_names_are_well_formed(j: Json)
    requires
        parameter_names(j) is Some,
    ensures
        forall|i: int|
            0 <= i < parameter_names(j).unwrap().len() ==> is_identifier(
                #[trigger] parameter_names(j).unwrap()[i],
            ),
        forall|i: int, k: int|
            0 <= i < k < parameter_names(j).unwrap().len() ==> #[trigger] parameter_names(
                j,
            ).unwrap()[i] != #[trigger] parameter_names(j).unwrap()[k],
{
    let items = j->Array_0;
    let names = parameter_names(j).unwrap();
    assert forall|i: int| 0 <= i < names.len() implies is_identifier(#[trigger] names[i]) by {
        assert(identifier_text(items[i]) is Some);
    }
    assert forall|i: int, k: int| 0 <= i < k < names.len() implies #[trigger] names[i]
        != #[trigger] names[k] by {
        assert(identifier_text(items[i]) is Some);
        assert(identifier_text(items[k]) is Some);
        assert(items[i] != items[k]);
    }
}

/// Only an object with a single member, keyed `defn`, is read as a
/// definition. Every other value is no function, and no failure: a value
/// that is no object, an object with no member or with several, one of
/// them keyed `defn` or not, and an object whose only member has another
/// key.
pub proof fn lemma_not_a_function(j: Json)
    ensures
        !(j is Object) ==> parse(j) == Parsed::NotAFunction,
        j is Object && !has_size(j->Object_0, 1) ==> parse(j) == Parsed::NotAFunction,
        j is Object && !j->Object_0.contains_key(operator_key()) ==> parse(j)
            == Parsed::NotAFunction,
        parse(j) == Parsed::NotAFunction <==> !is_definition(j),
{
}

/// A definition node is malformed, and how, by the first of these that
/// holds: its argument is no array (an invalid argument); the array does
/// not have three items (a wrong argument count); the name is no string
/// or no identifier; the parameter list is no array, or one of its items is
/// no string or no identifier, or two are the same; the body is itself a
/// definition node (each an invalid argument).
pub proof fn lemma_malformed_definition(j: Json)
    requires
        is_definition(j),
    ensures
        ({
            let argument = definition_argument(j).unwrap();
            let items = argument->Array_0;
            &&& !(argument is Array) ==> parse(j) == Parsed::InvalidArgument(argument, Part::Argument)
            &&& argument is Array && items.len() != 3 ==> parse(j) == Parsed::WrongArgumentCount(
                items.len(),
            )
            &&& argument is Array && items.len() == 3 ==> {
                &&& !(items[0] is String) || !is_identifier(items[0]->String_0) ==> parse(j)
                    == Parsed::InvalidArgument(items[0], Part::Name)
                &&& !(items[1] is Array) || !all_identifiers(items[1]->Array_0) || !all_different(
                    items[1]->Array_0,
                ) ==> parse(j) is InvalidArgument
                &&& is_definition(items[2]) ==> parse(j) is InvalidArgument
                &&& parse(j) is Function <==> identifier_text(items[0]) is Some && parameter_names(
                    items[1],
                ) is Some && !is_definition(items[2])
            }
        }),
{
}

/// Writing a well-formed function as a definition node and reading the node
/// again yields the function: the same name, the same parameters in the
/// same order, the same body.
pub proof fn lemma_round_trip(f: FunctionView)
    requires
        well_formed(f),
    ensures
        parse(function_json(f)) == Parsed::Function(f),
{
    let argument = Json::Array(seq![Json::String(f.name), parameters_json(f.params), f.expression]);
    let members = Map::<Seq<char>, Json>::empty().insert(operator_key(), argument);
    assert(members.dom() =~= set![operator_key()]);
    assert(has_size(members, 1));
    assert(definition_argument(function_json(f)) == Some(argument));
    let listed = parameters_json(f.params)->Array_0;
    assert forall|i: int| 0 <= i < listed.len() implies (#[trigger] identifier_text(listed[i])) is Some by {
        assert(is_identifier(f.params[i]));
    }
    assert forall|i: int, k: int| 0 <= i < k < listed.len() implies #[trigger] listed[i]
        != #[trigger] listed[k] by {
        assert(f.params[i] != f.params[k]);
    }
    assert(parameter_names(parameters_json(f.params)).unwrap() =~= f.params);
}

} // verus!
