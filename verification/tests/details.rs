use serde_starlark::{to_string, FunctionCall, Value};

fn text(s: &str) -> Value {
    Value::Str(s.to_owned())
}

#[test]
fn test_string_escape() {
    let strings: &[&str] = &[
        "\x07 \x08 \x0C \n \r \t \x0B \\",
        "Have you read \"To Kill a Mockingbird?\"",
        "Yes, it's a classic.",
        "\u{41}\u{414}\u{754c}\u{1f600}",
        "\0\00 \x01\x010 \x0E\x0E0 \x7F\x7F0 \u{80}",
    ];

    let value = Value::Sequence {
        len: Some(strings.len()),
        items: strings.iter().map(|s| text(s)).collect(),
    };
    let starlark = to_string(&value).unwrap();
    let expected = r#"[
    "\a \b \f \n \r \t \v \\",
    "Have you read \"To Kill a Mockingbird?\"",
    "Yes, it's a classic.",
    "AД界😀",
    "\0\x000 \1\x010 \16\x0E0 \177\1770 \u0080",
]
"#;
    assert_eq!(starlark, expected);
}

#[test]
fn test_flatten_struct() {
    // A struct with a flattened part describes itself as a dict of unknown
    // length, with its field names as keys.
    let rust_library = Value::Mapping {
        len: None,
        entries: vec![
            (text("name"), text("syn")),
            (text("proc_macro"), Value::Bool(false)),
        ],
    };

    let function_call = FunctionCall::new("rust_library", rust_library);
    let starlark = to_string(&Value::from(function_call)).unwrap();
    let expected = r#"rust_library(
    name = "syn",
    proc_macro = False,
)
"#;
    assert_eq!(starlark, expected);
}

#[test]
fn test_function_call_positional() {
    let args = Value::Tuple {
        len: 2,
        items: vec![text("@rules_rust//rust:defs.bzl"), text("rust_library")],
    };
    let function_call = FunctionCall::new("load", args);
    let starlark = to_string(&Value::from(function_call)).unwrap();
    let expected = r#"load(
    "@rules_rust//rust:defs.bzl",
    "rust_library",
)
"#;
    assert_eq!(starlark, expected);
}
