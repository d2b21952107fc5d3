use serde_starlark::{to_string, Serializer, Value, MULTILINE, ONELINE};

fn text(s: &str) -> Value {
    Value::Str(s.to_owned())
}

fn list(len: Option<usize>, items: Vec<Value>) -> Value {
    Value::Sequence { len, items }
}

fn given(items: Vec<Value>) -> Value {
    Value::Sequence {
        len: Some(items.len()),
        items,
    }
}

fn dict(entries: Vec<(Value, Value)>) -> Value {
    Value::Mapping {
        len: Some(entries.len()),
        entries,
    }
}

#[test]
fn the_two_hints_are_the_ends_of_the_scale() {
    assert_eq!(ONELINE, 0);
    assert_eq!(MULTILINE, usize::MAX);
}

#[test]
fn empty_list_is_a_pair_of_brackets() {
    assert_eq!(to_string(&given(vec![])).unwrap(), "[]\n");
    assert_eq!(to_string(&list(None, vec![])).unwrap(), "[]\n");
    assert_eq!(to_string(&list(Some(MULTILINE), vec![])).unwrap(), "[]\n");
}

#[test]
fn list_of_one_stands_on_one_line() {
    assert_eq!(to_string(&given(vec![text("x")])).unwrap(), "[\"x\"]\n");
}

#[test]
fn list_of_more_has_one_element_to_a_line() {
    assert_eq!(
        to_string(&given(vec![text("a"), text("b")])).unwrap(),
        "[\n    \"a\",\n    \"b\",\n]\n"
    );
    assert_eq!(
        to_string(&given(vec![Value::I32(1), Value::I32(2), Value::I32(3)])).unwrap(),
        "[\n    1,\n    2,\n    3,\n]\n"
    );
}

#[test]
fn list_of_unknown_length_has_one_element_to_a_line() {
    assert_eq!(
        to_string(&list(None, vec![text("a")])).unwrap(),
        "[\n    \"a\",\n]\n"
    );
}

#[test]
fn list_with_the_one_line_hint() {
    assert_eq!(
        to_string(&list(Some(ONELINE), vec![text("a"), text("b"), text("c")])).unwrap(),
        "[\"a\", \"b\", \"c\"]\n"
    );
}

#[test]
fn list_with_the_multi_line_hint() {
    assert_eq!(
        to_string(&list(Some(MULTILINE), vec![text("a")])).unwrap(),
        "[\n    \"a\",\n]\n"
    );
}

#[test]
fn nested_lists_indent_by_four() {
    let inner = given(vec![Value::I32(1), Value::I32(2)]);
    let outer = given(vec![inner, given(vec![]), given(vec![Value::I32(3)])]);
    assert_eq!(
        to_string(&outer).unwrap(),
        "[\n    [\n        1,\n        2,\n    ],\n    [],\n    [3],\n]\n"
    );
}

#[test]
fn empty_dict_is_a_pair_of_braces() {
    assert_eq!(to_string(&dict(vec![])).unwrap(), "{}\n");
    assert_eq!(
        to_string(&Value::Mapping {
            len: None,
            entries: vec![]
        })
        .unwrap(),
        "{}\n"
    );
}

#[test]
fn dict_with_entries_is_always_multi_line() {
    assert_eq!(
        to_string(&dict(vec![(text("k"), Value::I32(1))])).unwrap(),
        "{\n    \"k\": 1,\n}\n"
    );
    assert_eq!(
        to_string(&dict(vec![
            (text("name"), text("project")),
            (text("version"), text("1.0.0")),
        ]))
        .unwrap(),
        "{\n    \"name\": \"project\",\n    \"version\": \"1.0.0\",\n}\n"
    );
}

#[test]
fn dict_with_the_one_line_hint() {
    let compact = Value::Mapping {
        len: Some(ONELINE),
        entries: vec![(text("a"), Value::I32(1)), (text("b"), Value::I32(2))],
    };
    assert_eq!(to_string(&compact).unwrap(), "{\"a\": 1, \"b\": 2}\n");
}

#[test]
fn tuples_stand_on_one_line() {
    let tuple = |items: Vec<Value>| Value::Tuple {
        len: items.len(),
        items,
    };
    assert_eq!(to_string(&tuple(vec![])).unwrap(), "()\n");
    assert_eq!(
        to_string(&tuple(vec![Value::I32(1), Value::I32(2)])).unwrap(),
        "(1, 2)\n"
    );
    assert_eq!(
        to_string(&tuple(vec![text("a"), text("b"), text("c")])).unwrap(),
        "(\"a\", \"b\", \"c\")\n"
    );
}

#[test]
fn tuple_of_one_ends_in_a_comma() {
    let single = Value::Tuple {
        len: 1,
        items: vec![Value::I32(1)],
    };
    assert_eq!(to_string(&single).unwrap(), "(1,)\n");
}

#[test]
fn tuple_with_the_multi_line_hint() {
    let tall = Value::Tuple {
        len: MULTILINE,
        items: vec![Value::I32(1)],
    };
    assert_eq!(to_string(&tall).unwrap(), "(\n    1,\n)\n");
}

#[test]
fn struct_with_fields_is_a_keyword_call_over_lines() {
    let krate = Value::Struct {
        name: "crate".to_owned(),
        len: 2,
        fields: vec![
            ("name".to_owned(), text("serde_starlark")),
            ("version".to_owned(), text("1.0.0")),
        ],
    };
    assert_eq!(
        to_string(&krate).unwrap(),
        "crate(\n    name = \"serde_starlark\",\n    version = \"1.0.0\",\n)\n"
    );
}

#[test]
fn struct_with_the_one_line_hint() {
    let krate = Value::Struct {
        name: "crate".to_owned(),
        len: ONELINE,
        fields: vec![
            ("name".to_owned(), text("serde_starlark")),
            ("version".to_owned(), text("1.0.0")),
        ],
    };
    assert_eq!(
        to_string(&krate).unwrap(),
        "crate(name = \"serde_starlark\", version = \"1.0.0\")\n"
    );
}

#[test]
fn struct_without_fields() {
    let empty = Value::Struct {
        name: "package".to_owned(),
        len: 0,
        fields: vec![],
    };
    assert_eq!(to_string(&empty).unwrap(), "package()\n");
}

#[test]
fn struct_field_without_a_key_is_positional() {
    let mixed = Value::Struct {
        name: "f".to_owned(),
        len: 2,
        fields: vec![("".to_owned(), Value::I32(1)), ("x".to_owned(), Value::I32(2))],
    };
    assert_eq!(to_string(&mixed).unwrap(), "f(\n    1,\n    x = 2,\n)\n");
}

#[test]
fn newtype_struct_is_a_call_with_one_argument() {
    let glob = Value::NewtypeStruct {
        name: "glob".to_owned(),
        value: Box::new(given(vec![text("**/*.rs")])),
    };
    assert_eq!(to_string(&glob).unwrap(), "glob([\"**/*.rs\"])\n");

    let tall = Value::NewtypeStruct {
        name: "glob".to_owned(),
        value: Box::new(list(Some(MULTILINE), vec![text("**/*.rs")])),
    };
    assert_eq!(to_string(&tall).unwrap(), "glob([\n    \"**/*.rs\",\n])\n");
}

#[test]
fn select_around_a_dict() {
    let select = Value::NewtypeStruct {
        name: "select".to_owned(),
        value: Box::new(dict(vec![(text("//conditions:default"), given(vec![]))])),
    };
    assert_eq!(
        to_string(&select).unwrap(),
        "select({\n    \"//conditions:default\": [],\n})\n"
    );
}

#[test]
fn tuple_struct_with_one_field_stands_on_one_line() {
    let call = Value::TupleStruct {
        name: "f".to_owned(),
        len: 1,
        items: vec![Value::I32(1)],
    };
    assert_eq!(to_string(&call).unwrap(), "f(1)\n");
}

#[test]
fn tuple_struct_with_more_fields_has_one_to_a_line() {
    let call = Value::TupleStruct {
        name: "f".to_owned(),
        len: 2,
        items: vec![Value::I32(1), Value::I32(2)],
    };
    assert_eq!(to_string(&call).unwrap(), "f(\n    1,\n    2,\n)\n");
}

#[test]
fn tuple_struct_without_fields() {
    let call = Value::TupleStruct {
        name: "f".to_owned(),
        len: 0,
        items: vec![],
    };
    assert_eq!(to_string(&call).unwrap(), "f()\n");
}

#[test]
fn the_first_failure_is_the_one_reported() {
    let two = given(vec![Value::Unit, Value::Char('c')]);
    assert_eq!(
        to_string(&two).unwrap_err().to_string(),
        "serialization of () is not supported; use serialize_none to produce `None`"
    );
    let nested = dict(vec![(text("k"), given(vec![Value::I64(1 << 40)]))]);
    assert_eq!(
        to_string(&nested).unwrap_err().to_string(),
        "unsupported integer: 1099511627776, Starlark only supports up to 32-bit signed integers"
    );
}

#[test]
fn the_top_level_encoder_takes_containers_by_their_parts() {
    assert_eq!(
        Serializer
            .serialize_seq(Some(2), &vec![Value::I32(1), Value::I32(2)])
            .unwrap(),
        "[\n    1,\n    2,\n]\n"
    );
    assert_eq!(
        Serializer.serialize_tuple(1, &vec![Value::I32(1)]).unwrap(),
        "(1,)\n"
    );
    assert_eq!(
        Serializer
            .serialize_tuple_struct("f", 1, &vec![Value::I32(1)])
            .unwrap(),
        "f(1)\n"
    );
    assert_eq!(
        Serializer
            .serialize_map(Some(1), &vec![(text("k"), Value::I32(1))])
            .unwrap(),
        "{\n    \"k\": 1,\n}\n"
    );
    assert_eq!(
        Serializer
            .serialize_struct("f", 1, &vec![("x".to_owned(), Value::I32(1))])
            .unwrap(),
        "f(\n    x = 1,\n)\n"
    );
    assert_eq!(
        Serializer
            .serialize_newtype_struct("f", &Value::I32(1))
            .unwrap(),
        "f(1)\n"
    );
}
