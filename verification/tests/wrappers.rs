use serde_starlark::error::ErrorKind;
use serde_starlark::{to_string, Assignment, FunctionCall, LineComment, Value, MULTILINE};

fn text(s: &str) -> Value {
    Value::Str(s.to_owned())
}

fn given(items: Vec<Value>) -> Value {
    Value::Sequence {
        len: Some(items.len()),
        items,
    }
}

fn call(function: &str, args: Value) -> Value {
    Value::from(FunctionCall::new(function, args))
}

fn commented(value: Value, comment: &str) -> Value {
    Value::from(LineComment::new(value, comment))
}

#[test]
fn assignment_of_a_string() {
    let version = Assignment::new("VERSION", text("1.0.0"));
    assert_eq!(
        to_string(&Value::from(version)).unwrap(),
        "VERSION = \"1.0.0\"\n"
    );
}

#[test]
fn assignment_of_a_dict() {
    let metadata = Assignment::new(
        "METADATA",
        Value::Mapping {
            len: Some(2),
            entries: vec![
                (text("name"), text("project")),
                (text("version"), text("1.0.0")),
            ],
        },
    );
    assert_eq!(
        to_string(&Value::from(metadata)).unwrap(),
        "METADATA = {\n    \"name\": \"project\",\n    \"version\": \"1.0.0\",\n}\n"
    );
}

#[test]
fn assignment_spelled_as_a_struct_with_the_reserved_name() {
    let spelled = Value::TupleStruct {
        name: "=".to_owned(),
        len: 0,
        items: vec![text("X"), Value::I32(1)],
    };
    assert_eq!(to_string(&spelled).unwrap(), "X = 1\n");
}

#[test]
fn assignment_target_must_be_a_string() {
    let spelled = Value::TupleStruct {
        name: "=".to_owned(),
        len: 0,
        items: vec![Value::I32(1), Value::I32(2)],
    };
    let e = to_string(&spelled).unwrap_err();
    assert!(matches!(e.kind(), ErrorKind::UnsupportedCall));
    assert_eq!(e.to_string(), "unsupported function call argument type");
}

#[test]
fn rust_library_as_a_named_aggregate() {
    let rust_library = Value::Struct {
        name: "rust_library".to_owned(),
        len: 5,
        fields: vec![
            ("name".to_owned(), text("syn")),
            (
                "srcs".to_owned(),
                Value::NewtypeStruct {
                    name: "glob".to_owned(),
                    value: Box::new(given(vec![text("**/*.rs")])),
                },
            ),
            (
                "crate_features".to_owned(),
                given(vec![text("default"), text("full")]),
            ),
            ("edition".to_owned(), Value::U16(2018)),
            (
                "deps".to_owned(),
                given(vec![
                    text(":proc-macro2"),
                    text(":quote"),
                    text(":unicode-ident"),
                ]),
            ),
        ],
    };
    let expected = r#"rust_library(
    name = "syn",
    srcs = glob(["**/*.rs"]),
    crate_features = [
        "default",
        "full",
    ],
    edition = 2018,
    deps = [
        ":proc-macro2",
        ":quote",
        ":unicode-ident",
    ],
)
"#;
    assert_eq!(to_string(&rust_library).unwrap(), expected);
}

#[test]
fn function_call_on_a_list_of_two() {
    let load = call("load", given(vec![text("@x//y:defs"), text("lib")]));
    assert_eq!(
        to_string(&load).unwrap(),
        "load(\n    \"@x//y:defs\",\n    \"lib\",\n)\n"
    );
}

#[test]
fn function_call_on_a_tuple_of_one_stands_on_one_line() {
    let one = call(
        "select",
        Value::Tuple {
            len: 1,
            items: vec![Value::I32(1)],
        },
    );
    assert_eq!(to_string(&one).unwrap(), "select(1)\n");
}

#[test]
fn function_call_on_a_list_of_unknown_length_is_multi_line() {
    let unknown = call(
        "f",
        Value::Sequence {
            len: None,
            items: vec![Value::I32(1)],
        },
    );
    assert_eq!(to_string(&unknown).unwrap(), "f(\n    1,\n)\n");
}

#[test]
fn function_call_on_a_struct_takes_the_name_of_the_call() {
    let renamed = call(
        "rust_binary",
        Value::Struct {
            name: "RustBinary".to_owned(),
            len: 1,
            fields: vec![("name".to_owned(), text("syn"))],
        },
    );
    assert_eq!(
        to_string(&renamed).unwrap(),
        "rust_binary(\n    name = \"syn\",\n)\n"
    );
}

#[test]
fn function_call_on_a_dict_is_a_call_and_never_a_dict() {
    let flattened = call(
        "rust_library",
        Value::Mapping {
            len: None,
            entries: vec![
                (text("name"), text("syn")),
                (text("deps"), given(vec![])),
                (text("proc_macro"), Value::Bool(false)),
            ],
        },
    );
    let starlark = to_string(&flattened).unwrap();
    assert_eq!(
        starlark,
        "rust_library(\n    name = \"syn\",\n    deps = [],\n    proc_macro = False,\n)\n"
    );
    assert!(!starlark.contains('{'));
    assert!(!starlark.contains(':'));
}

#[test]
fn function_call_on_a_dict_with_an_empty_key_gives_a_positional_argument() {
    let mixed = call(
        "f",
        Value::Mapping {
            len: Some(2),
            entries: vec![(text(""), Value::I32(1)), (text("x"), Value::I32(2))],
        },
    );
    assert_eq!(to_string(&mixed).unwrap(), "f(\n    1,\n    x = 2,\n)\n");
}

#[test]
fn function_call_on_a_dict_needs_string_keys() {
    let keyed = call(
        "f",
        Value::Mapping {
            len: Some(1),
            entries: vec![(Value::I32(1), Value::I32(2))],
        },
    );
    let e = to_string(&keyed).unwrap_err();
    assert!(matches!(e.kind(), ErrorKind::UnsupportedCall));
}

#[test]
fn function_call_on_a_scalar_is_refused() {
    let e = to_string(&call("f", Value::I32(1))).unwrap_err();
    assert!(
        matches!(e.kind(), ErrorKind::Message(m) if m == "unsupported function call argument type")
    );
    assert_eq!(e.to_string(), "unsupported function call argument type");

    let e = to_string(&call("f", text("x"))).unwrap_err();
    assert_eq!(e.to_string(), "unsupported function call argument type");

    let e = to_string(&call("f", Value::Present(Box::new(given(vec![]))))).unwrap_err();
    assert_eq!(e.to_string(), "unsupported function call argument type");
}

#[test]
fn function_call_around_a_function_call_adds_its_name_as_an_argument() {
    let nested = call("f", call("g", given(vec![Value::I32(1)])));
    assert_eq!(to_string(&nested).unwrap(), "f(\"g\", 1)\n");
}

#[test]
fn plus_as_the_name_of_a_call_joins_the_arguments() {
    let sum = call(
        "+",
        Value::Tuple {
            len: 3,
            items: vec![given(vec![text("a")]), given(vec![text("b")]), text("c")],
        },
    );
    assert_eq!(to_string(&sum).unwrap(), "[\"a\"] + [\"b\"] + \"c\"\n");
}

#[test]
fn plus_as_the_name_of_a_struct_joins_the_fields() {
    let sum = Value::TupleStruct {
        name: "+".to_owned(),
        len: 2,
        items: vec![Value::I32(1), Value::I32(2)],
    };
    assert_eq!(to_string(&sum).unwrap(), "1 + 2\n");
}

#[test]
fn comment_lands_at_the_end_of_the_line() {
    let value = commented(text("//third-party/rust:libc"), "cfg(unix)");
    assert_eq!(
        to_string(&value).unwrap(),
        "\"//third-party/rust:libc\"  # cfg(unix)\n"
    );
}

#[test]
fn comments_in_a_select() {
    let array = |dep: &str, cfg: &str| Value::Sequence {
        len: Some(MULTILINE),
        items: vec![commented(text(dep), cfg)],
    };
    let deps = Value::Mapping {
        len: Some(2),
        entries: vec![
            (
                text("@rules_rust//rust/platform:x86_64-pc-windows-msvc"),
                array("//third-party/rust:windows-sys", "cfg(windows)"),
            ),
            (
                text("@rules_rust//rust/platform:x86_64-unknown-linux-gnu"),
                array(
                    "//third-party/rust:libc",
                    "cfg(any(unix, target_os = \"wasi\"))",
                ),
            ),
        ],
    };
    let select = call(
        "select",
        Value::Tuple {
            len: 1,
            items: vec![deps],
        },
    );
    let expected = r#"select({
    "@rules_rust//rust/platform:x86_64-pc-windows-msvc": [
        "//third-party/rust:windows-sys",  # cfg(windows)
    ],
    "@rules_rust//rust/platform:x86_64-unknown-linux-gnu": [
        "//third-party/rust:libc",  # cfg(any(unix, target_os = "wasi"))
    ],
})
"#;
    assert_eq!(to_string(&select).unwrap(), expected);
}

#[test]
fn comment_on_a_multi_line_value_follows_its_first_line() {
    let value = commented(given(vec![Value::I32(1), Value::I32(2)]), "numbers");
    assert_eq!(
        to_string(&value).unwrap(),
        "[  # numbers\n    1,\n    2,\n]\n"
    );
}

#[test]
fn comment_text_must_be_a_string() {
    let spelled = Value::TupleStruct {
        name: "#".to_owned(),
        len: 2,
        items: vec![Value::Bool(true), Value::I32(1)],
    };
    let e = to_string(&spelled).unwrap_err();
    assert!(matches!(e.kind(), ErrorKind::UnsupportedCall));
}

#[test]
fn wrappers_keep_what_they_were_given() {
    let a = Assignment::new("X", Value::I32(1));
    assert_eq!(a.identifier, "X");
    assert!(matches!(a.value, Value::I32(1)));
    let f = FunctionCall::new("f", Value::Absent);
    assert_eq!(f.function, "f");
    assert!(matches!(f.args, Value::Absent));
    let c = LineComment::new(Value::Bool(true), "note");
    assert_eq!(c.comment, "note");
    assert!(matches!(c.value, Value::Bool(true)));
}
