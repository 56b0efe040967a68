use crabzilla::transform::{
    import_fn, parse_meta, validate_literal, FnSignature, Literal, MetaItem, ReturnKind,
    TransformError,
};

fn str_option(key: &str, value: &str) -> MetaItem {
    MetaItem::NameValue(key.to_string(), Literal::Str(value.to_string()))
}

fn signature(ident: &str, inputs: &str, output: &str, is_async: bool) -> FnSignature {
    FnSignature {
        ident: ident.to_string(),
        inputs: inputs.to_string(),
        output: output.to_string(),
        is_async,
    }
}

#[test]
fn literal_validity() {
    assert!(validate_literal("read"));
    assert!(validate_literal("sayHello"));
    assert!(validate_literal("a.b-c_d"));
    assert!(!validate_literal(""));
    assert!(!validate_literal("say hello"));
    assert!(!validate_literal("tab\there"));
    assert!(!validate_literal("line\n"));
    assert!(!validate_literal("\u{0B}"));
    assert!(!validate_literal("\u{0C}"));
    assert!(!validate_literal("\r"));
    assert!(!validate_literal("caf\u{e9}"));
    assert!(validate_literal("\u{01}"));
}

#[test]
fn options_scope_and_name() {
    let metas = vec![str_option("name", "read"), str_option("scope", "Stdin")];
    let options = parse_meta(&metas).unwrap();
    assert_eq!(options.name, Some("read".to_string()));
    assert_eq!(options.scope, Some("Stdin".to_string()));
}

#[test]
fn options_empty_list() {
    let options = parse_meta(&vec![]).unwrap();
    assert_eq!(options.name, None);
    assert_eq!(options.scope, None);
}

#[test]
fn options_later_value_replaces_earlier() {
    let metas = vec![str_option("name", "first"), str_option("name", "second")];
    assert_eq!(parse_meta(&metas).unwrap().name, Some("second".to_string()));
}

#[test]
fn options_rejected_items() {
    let invalid_scope = vec![str_option("scope", "Std in")];
    assert_eq!(parse_meta(&invalid_scope).err(), Some(TransformError::InvalidScope(0)));
    let invalid_name = vec![str_option("scope", "Stdin"), str_option("name", "")];
    assert_eq!(parse_meta(&invalid_name).err(), Some(TransformError::InvalidName(1)));
    let other_value = vec![MetaItem::NameValue("name".to_string(), Literal::Other)];
    assert_eq!(parse_meta(&other_value).err(), Some(TransformError::UnsupportedValue(0)));
    let unknown_key = vec![str_option("name", "read"), str_option("module", "x")];
    assert_eq!(parse_meta(&unknown_key).err(), Some(TransformError::UnsupportedMeta(1)));
    let bare = vec![MetaItem::Other];
    assert_eq!(parse_meta(&bare).err(), Some(TransformError::UnsupportedMeta(0)));
    let first_error_wins = vec![str_option("scope", "a b"), MetaItem::Other];
    assert_eq!(parse_meta(&first_error_wins).err(), Some(TransformError::InvalidScope(0)));
}

#[test]
fn four_shapes_accepted() {
    let none = vec![];
    let a = import_fn(&none, &signature("f", "", "", false)).unwrap();
    assert!(!a.takes_args);
    assert_eq!(a.returns, ReturnKind::Unit);
    let b = import_fn(&none, &signature("f", "", "-> Value", false)).unwrap();
    assert!(!b.takes_args);
    assert_eq!(b.returns, ReturnKind::Value);
    let c = import_fn(&none, &signature("f", "args : Vec < Value >", "-> ()", false)).unwrap();
    assert!(c.takes_args);
    assert_eq!(c.returns, ReturnKind::Unit);
    let d = import_fn(
        &none,
        &signature("f", "args : std :: vec :: Vec < crabzilla :: Value >", "-> crabzilla :: Value", false),
    )
    .unwrap();
    assert!(d.takes_args);
    assert_eq!(d.returns, ReturnKind::Value);
}

#[test]
fn every_parameter_spelling_accepted() {
    let none = vec![];
    for inputs in [
        "args : Vec < crabzilla :: Value >",
        "args : std :: vec :: Vec < Value >",
        "args : :: vec :: Vec < Value >",
        "args : :: vec :: Vec < crabzilla :: Value >",
    ] {
        assert!(import_fn(&none, &signature("f", inputs, "", false)).is_ok());
    }
}

#[test]
fn other_shapes_rejected() {
    let none = vec![];
    let two = signature("f", "args : Vec < Value > , n : u32", "", false);
    assert_eq!(import_fn(&none, &two).err(), Some(TransformError::IllegalArguments));
    let renamed = signature("f", "values : Vec < Value >", "", false);
    assert_eq!(import_fn(&none, &renamed).err(), Some(TransformError::IllegalArguments));
    let string_result = signature("f", "", "-> String", false);
    assert_eq!(import_fn(&none, &string_result).err(), Some(TransformError::IllegalReturnType));
    let asynchronous = signature("f", "", "-> Value", true);
    assert_eq!(import_fn(&none, &asynchronous).err(), Some(TransformError::AsyncUnsupported));
    let bad_options = vec![MetaItem::Other];
    assert_eq!(
        import_fn(&bad_options, &signature("f", "", "", false)).err(),
        Some(TransformError::UnsupportedMeta(0))
    );
}

#[test]
fn name_defaults_to_function_name() {
    let scoped = vec![str_option("scope", "Stdout")];
    let spec = import_fn(&scoped, &signature("say_hello", "args : Vec < Value >", "", false)).unwrap();
    assert_eq!(spec.name, "say_hello");
    assert_eq!(spec.scope, Some("Stdout".to_string()));
    let named = vec![str_option("name", "read"), str_option("scope", "Stdin")];
    let spec = import_fn(&named, &signature("read_from_stdin", "", "-> Value", false)).unwrap();
    assert_eq!(spec.name, "read");
    assert_eq!(spec.scope, Some("Stdin".to_string()));
}

#[test]
fn error_messages() {
    assert_eq!(TransformError::InvalidScope(0).message(), "Invalid scope");
    assert_eq!(TransformError::InvalidName(2).message(), "Invalid name");
    assert_eq!(TransformError::UnsupportedValue(0).message(), "Unsupported value");
    assert_eq!(TransformError::UnsupportedMeta(1).message(), "Unsupported meta");
    assert_eq!(
        TransformError::IllegalArguments.message(),
        "Illegal arguments, should be empty or \"args: Vec<Value>\""
    );
    assert_eq!(
        TransformError::IllegalReturnType.message(),
        "Illegal return type, should be empty or \"Value\""
    );
    assert_eq!(
        TransformError::AsyncUnsupported.message(),
        "Asynchronous functions cannot be imported"
    );
}
