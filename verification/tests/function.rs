use jsonlogic::error::{Error, NumParams};
use jsonlogic::function::{operator, Function};
use jsonlogic::identifier::Identifier;
use jsonlogic::namespace::Namespace;
use serde_json::Value;

fn json(text: &str) -> Value {
    serde_json::from_str(text).unwrap()
}

fn id(text: &str) -> Identifier {
    Identifier::new(text.to_string()).unwrap()
}

fn add_two() -> Value {
    json(r#"{"+": [{"var": "aa"}, {"var": "bb"}]}"#)
}

fn defn(name: Value, params: Value, expression: Value) -> Value {
    let mut members = serde_json::Map::new();
    members.insert("defn".to_string(), Value::Array(vec![name, params, expression]));
    Value::Object(members)
}

struct FunctionParsingCase {
    value: Value,
    function: Option<Function>,
    err: Option<Error>,
}

fn case_ok(value: Value, function: Function) -> FunctionParsingCase {
    FunctionParsingCase { value, function: Some(function), err: None }
}

fn case_err(value: Value, error: Error) -> FunctionParsingCase {
    FunctionParsingCase { value, function: None, err: Some(error) }
}

fn not_a_func(value: Value) -> FunctionParsingCase {
    FunctionParsingCase { value, function: None, err: None }
}

fn default_invalid_argument() -> Error {
    Error::invalid_argument(Value::Null, "foo", "foo".to_string())
}

fn default_wrong_argument_count() -> Error {
    Error::wrong_argument_count(NumParams::Unary, 2)
}

fn function_parsing_cases() -> Vec<FunctionParsingCase> {
    vec![
        not_a_func(json("12")),
        not_a_func(json(r#"{"+": [1, 2]}"#)),
        // any object with more than one key cannot be a function expression
        not_a_func(json(r#"{"defn": [1, 2], "foo": 3}"#)),
        case_ok(
            defn(json(r#""foo""#), json(r#"["aa", "bb"]"#), add_two()),
            Function::new(id("foo"), vec![id("aa"), id("bb")], add_two(), NumParams::Exactly(2)),
        ),
        // Invalid b/c wrong argument type
        case_err(json(r#"{"defn": "foo"}"#), default_invalid_argument()),
        // Invalid b/c wrong number of args
        case_err(json(r#"{"defn": []}"#), default_wrong_argument_count()),
        // Invalid because the params are not strings
        case_err(json(r#"{"defn": ["a", [12, 13], 15]}"#), default_invalid_argument()),
        // Invalid because the param is an invalid identifier
        case_err(json(r#"{"defn": ["a", [""], 15]}"#), default_invalid_argument()),
        // Invalid b/c the name is an invalid identifier
        case_err(json(r#"{"defn": ["", ["a"], 15]}"#), default_invalid_argument()),
        // Invalid b/c it returns a function definition
        case_err(
            json(r#"{"defn": ["a", ["a"], {"defn": ["a", [], 12]}]}"#),
            default_invalid_argument(),
        ),
    ]
}

#[test]
fn parse_function() {
    function_parsing_cases().iter().for_each(|case| {
        let parsed = Function::from_value(&case.value);

        let debug_msg = format!("case: {:?}, res: {:?}", &case.value, &parsed);
        if let Some(exp_err) = &case.err {
            let err_msg = format!("Got {:?}", &parsed);
            let act_err = parsed.expect_err(&err_msg);
            assert_eq!(
                std::mem::discriminant(exp_err),
                std::mem::discriminant(&act_err),
                "{}",
                &debug_msg
            );
        } else {
            let err_msg = format!("Got {:?}", &parsed);
            let act_func = parsed.expect(&err_msg);
            if let Some(exp_func) = &case.function {
                assert_eq!(exp_func, &act_func.expect("Func was none"), "{}", &debug_msg);
            } else {
                assert!(act_func.is_none(), "{:?}", case.value)
            }
        }
    })
}

#[test]
fn values_that_are_no_definition() {
    for text in [
        "null",
        "true",
        "12",
        "1.5",
        r#""defn""#,
        "[]",
        r#"["defn", "foo", [], 1]"#,
        "{}",
        r#"{"def": ["foo", [], 1]}"#,
        r#"{"+": [1, 2]}"#,
        r#"{"defn": ["foo", [], 1], "other": 1}"#,
        r#"{"other": 1, "defn": "foo"}"#,
    ] {
        let value = json(text);
        assert!(matches!(Function::from_value(&value), Ok(None)), "{}", text);
        assert!(Function::filter_value(&value).is_none());
        assert!(Function::get_in_params(&value).is_none());
    }
}

#[test]
fn definition_nodes_are_recognised() {
    let value = json(r#"{"defn": "anything"}"#);
    assert_eq!(Function::filter_value(&value), Some(&value));
    assert_eq!(Function::get_in_params(&value), Some(&json(r#""anything""#)));
    assert_eq!(operator(), "defn");
}

#[test]
fn definition_needs_an_array() {
    for text in [r#"{"defn": "foo"}"#, r#"{"defn": 12}"#, r#"{"defn": {"a": 1}}"#, r#"{"defn": null}"#] {
        let value = json(text);
        match Function::from_value(&value) {
            Err(Error::InvalidArgument { value: reported, operation, reason }) => {
                assert_eq!(Some(&reported), Function::get_in_params(&value));
                assert_eq!(operation, "defn");
                assert_eq!(reason, "Argument to 'defn' must be an array");
            }
            other => panic!("{}: {:?}", text, other),
        }
    }
}

#[test]
fn definition_needs_three_items() {
    for (text, actual) in [
        (r#"{"defn": []}"#, 0usize),
        (r#"{"defn": ["foo"]}"#, 1),
        (r#"{"defn": ["foo", []]}"#, 2),
        (r#"{"defn": ["foo", [], 1, 2]}"#, 4),
    ] {
        match Function::from_value(&json(text)) {
            Err(Error::WrongArgumentCount { expected, actual: reported }) => {
                assert_eq!(expected, NumParams::Exactly(3));
                assert_eq!(reported, actual);
            }
            other => panic!("{}: {:?}", text, other),
        }
    }
}

#[test]
fn the_first_malformed_part_is_reported() {
    // the name comes first
    match Function::from_value(&json(r#"{"defn": ["x y", 12, {"defn": 1}]}"#)) {
        Err(Error::InvalidArgument { value, operation, reason }) => {
            assert_eq!(value, json(r#""x y""#));
            assert_eq!(operation, "defn");
            assert_eq!(
                reason,
                "Invalid identifier 'x y': identifiers must be valid utf-8 of 2 or more characters, containing no whitespace"
            );
        }
        other => panic!("{:?}", other),
    }
    match Function::from_value(&json(r#"{"defn": [12, ["aa"], 1]}"#)) {
        Err(Error::InvalidArgument { value, .. }) => assert_eq!(value, json("12")),
        other => panic!("{:?}", other),
    }
    // then the parameters
    match Function::from_value(&json(r#"{"defn": ["foo", 12, {"defn": 1}]}"#)) {
        Err(Error::InvalidArgument { value, operation, reason }) => {
            assert_eq!(value, json("12"));
            assert_eq!(operation, "defn");
            assert_eq!(reason, "Parameter list must be an array");
        }
        other => panic!("{:?}", other),
    }
    match Function::from_value(&json(r#"{"defn": ["foo", ["aa", 13], 1]}"#)) {
        Err(Error::InvalidArgument { value, reason, .. }) => {
            assert_eq!(value, json(r#"["aa", 13]"#));
            assert_eq!(
                reason,
                "Could not parse parameter 13 due to: Invalid identifier '13': identifiers must be valid utf-8 of 2 or more characters, containing no whitespace"
            );
        }
        other => panic!("{:?}", other),
    }
    match Function::from_value(&json(r#"{"defn": ["foo", ["aa", "b b"], 1]}"#)) {
        Err(Error::InvalidArgument { value, .. }) => assert_eq!(value, json(r#"["aa", "b b"]"#)),
        other => panic!("{:?}", other),
    }
    // then the body
    match Function::from_value(&json(r#"{"defn": ["foo", ["aa"], {"defn": ["bar", [], 12]}]}"#)) {
        Err(Error::InvalidArgument { value, operation, reason }) => {
            assert_eq!(value, json(r#"{"defn": ["bar", [], 12]}"#));
            assert_eq!(operation, "defn");
            assert_eq!(reason, "A function's body may not be a function definition");
        }
        other => panic!("{:?}", other),
    }
    // a body is rejected by its shape alone
    assert!(matches!(
        Function::from_value(&json(r#"{"defn": ["foo", ["aa"], {"defn": 1}]}"#)),
        Err(Error::InvalidArgument { .. })
    ));
}

#[test]
fn parameters_are_unique() {
    let value = json(r#"{"defn": ["foo", ["aa", "bb", "aa"], 1]}"#);
    match Function::from_value(&value) {
        Err(Error::InvalidArgument { value, operation, reason }) => {
            assert_eq!(value, json(r#"["aa", "bb", "aa"]"#));
            assert_eq!(operation, "defn");
            assert_eq!(reason, "Parameter aa is listed more than once");
        }
        other => panic!("{:?}", other),
    }
    assert!(Function::to_parameters(&json(r#"["aa", "bb", "cc"]"#)).is_ok());
    assert!(Function::to_parameters(&json(r#"["aa", "aa"]"#)).is_err());
}

#[test]
fn parameters_keep_their_order() {
    let params = Function::to_parameters(&json(r#"["zz", "aa", "mm"]"#)).unwrap();
    assert_eq!(params, vec![id("zz"), id("aa"), id("mm")]);
    assert_eq!(Function::to_parameters(&json("[]")).unwrap(), Vec::<Identifier>::new());
}

#[test]
fn a_parsed_function_has_its_parts() {
    let value = defn(json(r#""total""#), json(r#"["left", "right"]"#), add_two());
    let func = Function::from_value(&value).unwrap().unwrap();
    assert_eq!(func.name().value(), "total");
    assert_eq!(func.params(), &vec![id("left"), id("right")]);
    assert_eq!(func.expression(), &add_two());
    assert_eq!(func.param_info(), &NumParams::Exactly(2));
}

#[test]
fn round_trip() {
    for text in [
        r#"{"defn": ["foo", ["aa", "bb"], {"+": [{"var": "aa"}, {"var": "bb"}]}]}"#,
        r#"{"defn": ["nothing", [], null]}"#,
        r#"{"defn": ["données", ["zz", "yy", "xx"], [1, 2.5, "three", {"k": false}]]}"#,
        r#"{"defn": ["pair", ["aa"], {"defn": 1, "other": 2}]}"#,
    ] {
        let value = json(text);
        let func = Function::from_value(&value).unwrap().unwrap();
        let written = func.to_value();
        assert_eq!(written, value);
        let again = Function::from_value(&written).unwrap().unwrap();
        assert_eq!(again, func);
        assert_eq!(again.name(), func.name());
        assert_eq!(again.params(), func.params());
        assert_eq!(again.expression(), func.expression());
    }
}

#[test]
fn arity_admits_counts() {
    assert!(NumParams::Unary.accepts(1));
    assert!(!NumParams::Unary.accepts(0));
    assert!(!NumParams::Unary.accepts(2));
    assert!(NumParams::Exactly(3).accepts(3));
    assert!(!NumParams::Exactly(3).accepts(2));
    assert!(NumParams::AtLeast(2).accepts(2));
    assert!(NumParams::AtLeast(2).accepts(usize::MAX));
    assert!(!NumParams::AtLeast(2).accepts(1));
    assert!(NumParams::Range(2, 3).accepts(2));
    assert!(NumParams::Range(2, 3).accepts(3));
    assert!(!NumParams::Range(2, 3).accepts(1));
    assert!(!NumParams::Range(2, 3).accepts(4));
    assert!(NumParams::Variadic.accepts(0));
    assert!(NumParams::Variadic.accepts(17));
}

#[test]
fn arity_check_reports_expected_and_actual() {
    assert!(NumParams::Exactly(2).check(2).is_ok());
    match NumParams::Exactly(2).check(3) {
        Err(Error::WrongArgumentCount { expected, actual }) => {
            assert_eq!(expected, NumParams::Exactly(2));
            assert_eq!(actual, 3);
        }
        other => panic!("{:?}", other),
    }
    let func = Function::from_value(&json(r#"{"defn": ["foo", ["aa", "bb"], 1]}"#)).unwrap().unwrap();
    assert!(func.param_info().check(2).is_ok());
    assert!(func.param_info().check(1).is_err());
}

#[test]
fn namespace_keeps_the_last_definition() {
    let mut namespace = Namespace::new();
    assert_eq!(namespace.len(), 0);
    assert!(namespace.get("foo").is_none());

    let first = Function::from_value(&json(r#"{"defn": ["foo", ["aa"], 1]}"#)).unwrap().unwrap();
    let other = Function::from_value(&json(r#"{"defn": ["bar", [], 2]}"#)).unwrap().unwrap();
    let second = Function::from_value(&json(r#"{"defn": ["foo", ["aa", "bb"], 3]}"#)).unwrap().unwrap();

    namespace.register(first.clone());
    assert_eq!(namespace.len(), 1);
    assert_eq!(namespace.get("foo"), Some(&first));
    assert!(namespace.get("bar").is_none());

    namespace.register(other.clone());
    assert_eq!(namespace.len(), 2);
    assert_eq!(namespace.get("foo"), Some(&first));
    assert_eq!(namespace.get("bar"), Some(&other));

    namespace.register(second.clone());
    assert_eq!(namespace.len(), 2);
    assert_eq!(namespace.get("foo"), Some(&second));
    assert_eq!(namespace.get("bar"), Some(&other));
    assert!(namespace.get("fo").is_none());
}

#[test]
fn namespace_defines_functions_as_they_are_read() {
    let mut namespace = Namespace::new();
    assert!(matches!(namespace.define(&json(r#"{"+": [1, 2]}"#)), Ok(false)));
    assert_eq!(namespace.len(), 0);
    assert!(matches!(namespace.define(&json(r#"{"defn": ["foo", ["aa"], 1]}"#)), Ok(true)));
    assert_eq!(namespace.len(), 1);
    assert_eq!(namespace.get("foo").unwrap().expression(), &json("1"));
    assert!(matches!(
        namespace.define(&json(r#"{"defn": ["foo", ["aa"]]}"#)),
        Err(Error::WrongArgumentCount { .. })
    ));
    assert!(matches!(
        namespace.define(&json(r#"{"defn": ["foo", "aa", 2]}"#)),
        Err(Error::InvalidArgument { .. })
    ));
    assert_eq!(namespace.get("foo").unwrap().expression(), &json("1"));
    assert!(matches!(namespace.define(&json(r#"{"defn": ["foo", [], 2]}"#)), Ok(true)));
    assert_eq!(namespace.len(), 1);
    assert_eq!(namespace.get("foo").unwrap().expression(), &json("2"));
    assert_eq!(namespace.get("foo").unwrap().param_info(), &NumParams::Exactly(0));
}

#[test]
fn a_call_is_checked_against_the_arity() {
    let mut namespace = Namespace::new();
    namespace.define(&json(r#"{"defn": ["foo", ["aa", "bb"], 1]}"#)).unwrap();

    assert!(matches!(namespace.invoked("bar", 2), Ok(None)));
    let func = namespace.invoked("foo", 2).unwrap().unwrap();
    assert_eq!(func.name().value(), "foo");
    for count in [0usize, 1, 3] {
        match namespace.invoked("foo", count) {
            Err(Error::WrongArgumentCount { expected, actual }) => {
                assert_eq!(expected, NumParams::Exactly(2));
                assert_eq!(actual, count);
            }
            other => panic!("{:?}", other),
        }
    }

    namespace.register(Function::new(id("any"), vec![], json("0"), NumParams::AtLeast(1)));
    assert!(namespace.invoked("any", 0).is_err());
    assert!(namespace.invoked("any", 5).unwrap().is_some());
}
