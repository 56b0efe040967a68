use crabzilla::adapter::{
    adapt_unit_fn, adapt_unit_fn0, adapt_value_fn, adapt_value_fn0, create_sync_fn,
};
use crabzilla::glue::{js_string_literal, render_glue, ImportedName};
use crabzilla::runtime::Runtime;
use crabzilla::value::{call_payload, get_args, Error, ErrorKind, Value};
use std::cell::Cell;

fn sample(kind: u32) -> Value {
    match kind {
        0 => Value::Null,
        1 => Value::Bool(true),
        2 => Value::Number("-12.5".to_string()),
        3 => Value::String("Ada".to_string()),
        4 => Value::Array(vec![Value::Number("1".to_string()), Value::Null]),
        _ => Value::Object(vec![
            ("b".to_string(), Value::Bool(false)),
            ("a".to_string(), Value::Array(vec![])),
        ]),
    }
}

fn read_body() -> Result<Value, Error> {
    Ok(Value::String("Ada".to_string()))
}

fn echo_body(args: Vec<Value>) -> Result<Value, Error> {
    Ok(args.into_iter().next().unwrap_or(Value::Null))
}

fn failing_body() -> Result<Value, Error> {
    Err(Error::custom("Expected name!"))
}

const STDIN_ECHO_GLUE: &str = "\"use strict\";\n((window) => {\n        window[\"Stdin\"] = {};\n        window[\"Stdin\"][\"read\"] = (...args) => Deno.core.opSync(\"read\", {args});\n        window[\"echo\"] = (...args) => Deno.core.opSync(\"echo\", {args});\n})(this);";

#[test]
fn round_trip_each_kind() {
    for kind in 0..6 {
        let args = get_args(call_payload(vec![sample(kind)])).unwrap();
        assert_eq!(args, vec![sample(kind)]);
    }
}

#[test]
fn payload_shape() {
    let payload = call_payload(vec![Value::Null]);
    assert_eq!(
        payload,
        Value::Object(vec![("args".to_string(), Value::Array(vec![Value::Null]))])
    );
}

#[test]
fn malformed_payloads() {
    assert_eq!(get_args(Value::Null), None);
    assert_eq!(get_args(Value::Array(vec![])), None);
    assert_eq!(get_args(Value::Object(vec![])), None);
    let not_array = Value::Object(vec![("args".to_string(), Value::Bool(true))]);
    assert_eq!(get_args(not_array), None);
    let other_key = Value::Object(vec![("argv".to_string(), Value::Array(vec![]))]);
    assert_eq!(get_args(other_key), None);
}

#[test]
fn payload_with_extra_keys() {
    let payload = Value::Object(vec![
        ("this".to_string(), Value::Null),
        ("args".to_string(), Value::Array(vec![Value::Bool(false)])),
        ("args".to_string(), Value::Array(vec![])),
    ]);
    assert_eq!(get_args(payload), Some(vec![Value::Bool(false)]));
}

#[test]
fn value_adapters_pass_results_on() {
    assert_eq!(
        adapt_value_fn(&echo_body, vec![sample(3)]),
        Ok(sample(3))
    );
    assert_eq!(adapt_value_fn0(&read_body, vec![sample(1)]), Ok(sample(3)));
    let err = adapt_value_fn0(&failing_body, vec![]).unwrap_err();
    assert_eq!(err.message, "Expected name!");
    assert_eq!(err.kind, ErrorKind::Business);
}

#[test]
fn unit_adapters_answer_null() {
    let calls = Cell::new(0u32);
    let count = |args: Vec<Value>| -> Result<(), Error> {
        calls.set(calls.get() + args.len() as u32);
        Ok(())
    };
    assert_eq!(adapt_unit_fn(&count, vec![sample(0), sample(5)]), Ok(Value::Null));
    assert_eq!(calls.get(), 2);
    let touch = || -> Result<(), Error> {
        calls.set(calls.get() + 10);
        Ok(())
    };
    assert_eq!(adapt_unit_fn0(&touch, vec![]), Ok(Value::Null));
    assert_eq!(calls.get(), 12);
}

#[test]
fn unit_adapters_keep_errors() {
    let fail = |_args: Vec<Value>| -> Result<(), Error> { Err(Error::custom("Expected name!")) };
    let err = adapt_unit_fn(&fail, vec![]).unwrap_err();
    assert_eq!(err.message, "Expected name!");
    let fail0 = || -> Result<(), Error> { Err(Error::custom("no input")) };
    assert_eq!(adapt_unit_fn0(&fail0, vec![]).unwrap_err().message, "no input");
}

#[test]
fn imported_function_names() {
    assert!(create_sync_fn(echo_body, "", None).is_none());
    assert!(create_sync_fn(echo_body, "say hello", None).is_none());
    assert!(create_sync_fn(echo_body, "echo", Some("Std out".to_string())).is_none());
    let f = create_sync_fn(echo_body, "echo", Some("Stdout".to_string())).unwrap();
    assert_eq!(f.name(), "echo");
    assert_eq!(f.scope(), Some("Stdout"));
}

#[test]
fn stdin_and_echo_scenario() {
    let read = create_sync_fn(|args| adapt_value_fn0(&read_body, args), "read", Some("Stdin".to_string())).unwrap();
    let echo = create_sync_fn(echo_body, "echo", None).unwrap();
    let mut runtime = Runtime::new();
    runtime.import(&read);
    runtime.import(&echo);
    let ready = runtime.importing_finished();
    assert_eq!(ready.glue(), STDIN_ECHO_GLUE);
    assert_eq!(ready.lookup(Some("Stdin"), "read"), Some(0));
    assert_eq!(ready.lookup(None, "echo"), Some(1));
    assert_eq!(read.call(call_payload(vec![])), Ok(sample(3)));
    for kind in 0..6 {
        assert_eq!(echo.call(call_payload(vec![sample(kind)])), Ok(sample(kind)));
    }
}

#[test]
fn failing_function_scenario() {
    let read = create_sync_fn(|args| adapt_value_fn0(&failing_body, args), "read", Some("Stdin".to_string())).unwrap();
    let err = read.call(call_payload(vec![])).unwrap_err();
    assert_eq!(err.message, "Expected name!");
    assert_eq!(err.kind, ErrorKind::Business);
}

#[test]
fn unregistered_paths_are_not_exposed() {
    let echo = create_sync_fn(echo_body, "echo", None).unwrap();
    let mut runtime = Runtime::new();
    runtime.import(&echo);
    let ready = runtime.importing_finished();
    assert_eq!(ready.lookup(Some("Stdin"), "read"), None);
    assert_eq!(ready.lookup(Some("Stdin"), "echo"), None);
    assert_eq!(ready.lookup(None, "read"), None);
    let module_error = Error::module_evaluation("ReferenceError: Stdin is not defined".to_string());
    assert_eq!(module_error.kind, ErrorKind::ModuleEvaluation);
    assert_ne!(module_error.kind, Error::custom("Expected name!").kind);
}

#[test]
fn glue_is_deterministic() {
    let build = || {
        let mut runtime = Runtime::new();
        runtime.import(&create_sync_fn(echo_body, "echo", None).unwrap());
        runtime.import(&create_sync_fn(echo_body, "read", Some("Stdin".to_string())).unwrap());
        runtime.importing_finished()
    };
    assert_eq!(build().glue(), build().glue());
}

#[test]
fn scopes_declared_once_in_first_seen_order() {
    let mut runtime = Runtime::new();
    runtime.import(&create_sync_fn(echo_body, "sayHello", Some("Stdout".to_string())).unwrap());
    runtime.import(&create_sync_fn(echo_body, "read", Some("Stdin".to_string())).unwrap());
    runtime.import(&create_sync_fn(echo_body, "sayBye", Some("Stdout".to_string())).unwrap());
    assert!(runtime.is_imported("read"));
    assert!(!runtime.is_imported("write"));
    let ready = runtime.importing_finished();
    let expected = "\"use strict\";\n((window) => {\n        window[\"Stdout\"] = {};\n        window[\"Stdin\"] = {};\n        window[\"Stdout\"][\"sayHello\"] = (...args) => Deno.core.opSync(\"sayHello\", {args});\n        window[\"Stdin\"][\"read\"] = (...args) => Deno.core.opSync(\"read\", {args});\n        window[\"Stdout\"][\"sayBye\"] = (...args) => Deno.core.opSync(\"sayBye\", {args});\n})(this);";
    assert_eq!(ready.glue(), expected);
}

#[test]
fn empty_glue() {
    let ready = Runtime::new().importing_finished();
    assert_eq!(ready.glue(), "\"use strict\";\n((window) => {\n})(this);");
}

#[test]
fn render_glue_from_plain_data() {
    let scopes = vec!["Stdin".to_string()];
    let names = vec![
        ImportedName { name: "read".to_string(), scope: Some("Stdin".to_string()) },
        ImportedName { name: "echo".to_string(), scope: None },
    ];
    assert_eq!(render_glue(&scopes, &names), STDIN_ECHO_GLUE);
}

#[test]
fn string_literals() {
    assert_eq!(js_string_literal("read"), "\"read\"");
    assert_eq!(js_string_literal(""), "\"\"");
    assert_eq!(js_string_literal("a\"b\\c"), "\"a\\\"b\\\\c\"");
    assert_eq!(js_string_literal("\u{0}"), "\"\\0\"");
    assert_eq!(js_string_literal("\u{1}"), "\"\\u{1}\"");
    assert_eq!(js_string_literal("\u{1b}"), "\"\\u{1b}\"");
    assert_eq!(js_string_literal("\u{7f}"), "\"\\u{7f}\"");
    assert_eq!(js_string_literal("\t\n\r"), "\"\\t\\n\\r\"");
    for c in 0u8..128 {
        let s = (c as char).to_string();
        assert_eq!(js_string_literal(&s), format!("{:?}", s));
    }
}
