use serde_starlark::{to_string, Value};

fn text(s: &str) -> Value {
    Value::Str(s.to_owned())
}

fn set(items: &[&str]) -> Value {
    Value::Sequence {
        len: Some(items.len()),
        items: items.iter().map(|s| text(s)).collect(),
    }
}

fn load(bzl: &str, items: &[&str]) -> Value {
    let mut fields = vec![text(bzl)];
    fields.extend(items.iter().map(|s| text(s)));
    Value::TupleStruct {
        name: "load".to_owned(),
        len: 0,
        items: fields,
    }
}

fn package(default_visibility: &[&str]) -> Value {
    Value::Struct {
        name: "package".to_owned(),
        len: 0,
        fields: vec![("default_visibility".to_owned(), set(default_visibility))],
    }
}

fn glob(taken: &[&str], left: &[&str]) -> Value {
    if left.is_empty() {
        Value::NewtypeStruct {
            name: "glob".to_owned(),
            value: Box::new(set(taken)),
        }
    } else {
        Value::Struct {
            name: "glob".to_owned(),
            len: 2,
            fields: vec![
                ("include".to_owned(), set(taken)),
                ("exclude".to_owned(), set(left)),
            ],
        }
    }
}

fn select(entries: Vec<(Value, Value)>) -> Value {
    Value::NewtypeStruct {
        name: "select".to_owned(),
        value: Box::new(Value::Mapping {
            len: Some(entries.len()),
            entries,
        }),
    }
}

#[test]
fn test_struct() {
    let build_syn = vec![
        load("@rules_rust//rust:defs.bzl", &["rust_library"]),
        package(&["//visibility:public"]),
        Value::Struct {
            name: "rust_library".to_owned(),
            len: 7,
            fields: vec![
                ("name".to_owned(), text("syn")),
                ("srcs".to_owned(), glob(&["**/*.rs"], &[])),
                ("crate_features".to_owned(), set(&["default", "full"])),
                ("edition".to_owned(), Value::U16(2018)),
                ("proc_macro".to_owned(), Value::Bool(false)),
                (
                    "rustc_env".to_owned(),
                    Value::Mapping {
                        len: Some(0),
                        entries: vec![],
                    },
                ),
                (
                    "deps".to_owned(),
                    select(vec![(
                        text("//conditions:default"),
                        set(&[":proc-macro2", ":quote", ":unicode-ident"]),
                    )]),
                ),
            ],
        },
    ];

    let starlark = build_syn
        .iter()
        .map(to_string)
        .map(Result::unwrap)
        .collect::<Vec<String>>()
        .join("\n");

    let expected = "\
load(\"@rules_rust//rust:defs.bzl\", \"rust_library\")

package(default_visibility = [\"//visibility:public\"])

rust_library(
    name = \"syn\",
    srcs = glob([\"**/*.rs\"]),
    crate_features = [
        \"default\",
        \"full\",
    ],
    edition = 2018,
    proc_macro = False,
    rustc_env = {},
    deps = select({
        \"//conditions:default\": [
            \":proc-macro2\",
            \":quote\",
            \":unicode-ident\",
        ],
    }),
)
";

    assert_eq!(starlark, expected);
}

#[test]
fn glob_with_excludes_is_a_keyword_call() {
    let starlark = to_string(&glob(&["**/*.rs"], &["tests/**"])).unwrap();
    assert_eq!(
        starlark,
        "glob(\n    include = [\"**/*.rs\"],\n    exclude = [\"tests/**\"],\n)\n"
    );
}
