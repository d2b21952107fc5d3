use serde_starlark::value::comment_is_fit;
use serde_starlark::Value;

fn text(s: &str) -> Value {
    Value::Str(s.to_owned())
}

#[test]
fn comments_that_fit_the_end_of_a_line() {
    assert!(comment_is_fit(""));
    assert!(comment_is_fit("cfg(windows)"));
    assert!(comment_is_fit("a # b"));
    assert!(comment_is_fit(" #"));
}

#[test]
fn comments_that_do_not_fit() {
    assert!(!comment_is_fit("#"));
    assert!(!comment_is_fit("# note"));
    assert!(!comment_is_fit("two\nlines"));
    assert!(!comment_is_fit("\n"));
    assert!(!comment_is_fit("trailing\n"));
}

#[test]
fn weighing_counts_every_value() {
    assert_eq!(Value::Bool(true).weigh(10), Some(9));
    assert_eq!(Value::Bool(true).weigh(1), Some(0));
    assert_eq!(Value::Bool(true).weigh(0), None);

    let list = Value::Sequence {
        len: Some(2),
        items: vec![text("a"), Value::Present(Box::new(text("b")))],
    };
    assert_eq!(list.weigh(10), Some(6));
    assert_eq!(list.weigh(4), Some(0));
    assert_eq!(list.weigh(3), None);

    let dict = Value::Mapping {
        len: None,
        entries: vec![(text("k"), list)],
    };
    assert_eq!(dict.weigh(6), Some(0));
    assert_eq!(dict.weigh(5), None);

    let call = Value::Struct {
        name: "f".to_owned(),
        len: 1,
        fields: vec![("x".to_owned(), dict)],
    };
    assert_eq!(call.weigh(7), Some(0));
    assert!(call.encodable());
}

#[test]
fn an_assignment_with_three_fields_is_not_encodable() {
    let three = Value::TupleStruct {
        name: "=".to_owned(),
        len: 0,
        items: vec![text("X"), Value::I32(1), Value::I32(2)],
    };
    assert!(!three.encodable());
    let nested = Value::Sequence {
        len: Some(1),
        items: vec![three],
    };
    assert!(!nested.encodable());

    let two = Value::TupleStruct {
        name: "=".to_owned(),
        len: 0,
        items: vec![text("X"), Value::I32(1)],
    };
    assert!(two.encodable());
    let plain = Value::TupleStruct {
        name: "f".to_owned(),
        len: 0,
        items: vec![text("X"), Value::I32(1), Value::I32(2)],
    };
    assert!(plain.encodable());
}

#[test]
fn a_comment_with_three_fields_is_not_encodable() {
    let three = Value::TupleStruct {
        name: "#".to_owned(),
        len: 2,
        items: vec![text("note"), Value::I32(1), Value::I32(2)],
    };
    assert!(!three.encodable());
}
