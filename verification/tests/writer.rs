use serde_starlark::ser::Role;
use serde_starlark::{MutableWriteStarlark, Value, WriteStarlark};

#[test]
fn a_fresh_writer_finishes_as_a_blank_line() {
    assert_eq!(WriteStarlark::new().output(), "\n");
}

#[test]
fn newline_writes_the_indentation() {
    let mut write = WriteStarlark::new();
    write.push_str("a");
    write.indent();
    assert_eq!(write.depth(), 4);
    write.newline();
    write.push_str("b");
    write.indent();
    write.newline();
    write.push('c');
    write.unindent();
    write.push_str("d");
    write.unindent();
    write.push_str("e");
    assert_eq!(write.depth(), 0);
    assert_eq!(write.output(), "a\n    b\n        c\n    d\ne\n");
}

#[test]
fn a_comment_waits_for_the_end_of_the_line() {
    let mut write = WriteStarlark::new();
    write.push_str("x");
    write.set_line_comment("why");
    write.push_str(",");
    write.newline();
    write.push_str("y");
    assert_eq!(write.output(), "x,  # why\ny\n");
}

#[test]
fn a_comment_that_still_waits_is_written_at_the_end() {
    let mut write = WriteStarlark::new();
    write.push_str("x");
    write.set_line_comment("last");
    assert_eq!(write.output(), "x  # last\n");
}

#[test]
fn a_borrowed_writer_gives_nothing_and_keeps_its_text() {
    let mut write = WriteStarlark::new();
    {
        let mut handle = &mut write;
        handle.mutable().push_str("kept");
        handle.output();
    }
    assert_eq!(write.output(), "kept\n");
}

#[test]
fn a_list_written_step_by_step() {
    let mut write = WriteStarlark::new();
    let mut seq = write.serialize_seq(Some(2)).unwrap();
    seq.begin_element(&mut write);
    write.serialize_i32(1).unwrap();
    seq.finish_element(&mut write);
    seq.serialize_element(&mut write, &Value::I32(2)).unwrap();
    seq.end(&mut write).unwrap();
    assert_eq!(write.output(), "[\n    1,\n    2,\n]\n");
}

#[test]
fn a_dict_written_step_by_step() {
    let mut write = WriteStarlark::new();
    let mut map = write.serialize_map(None).unwrap();
    map.begin_key(&mut write);
    write.serialize_str("k").unwrap();
    map.finish_key(&mut write);
    write.serialize_bool(true).unwrap();
    map.finish_value(&mut write);
    map.end(&mut write).unwrap();
    assert_eq!(write.output(), "{\n    \"k\": True,\n}\n");
}

#[test]
fn a_renamed_call_written_step_by_step() {
    let mut write = WriteStarlark::new();
    let mut call = write.serialize_tuple_struct("(", 1).unwrap();
    assert!(call.wants_bare());
    call.take_bare(&mut write, "f");
    assert!(!call.wants_bare());
    call.begin_field(&mut write);
    write.serialize_none().unwrap();
    call.finish_field(&mut write);
    call.end(&mut write).unwrap();
    assert_eq!(write.output(), "f(None)\n");
}

#[test]
fn a_keyword_call_written_step_by_step() {
    let mut write = WriteStarlark::new();
    let mut call = write.serialize_struct("(", 2).unwrap();
    call.serialize_text(&mut write, "", "f");
    call.serialize_text(&mut write, "*key", "name");
    call.serialize_field(&mut write, "*value", &Value::I32(1))
        .unwrap();
    call.serialize_text(&mut write, "*key", "");
    call.serialize_field(&mut write, "*value", &Value::I32(2))
        .unwrap();
    call.serialize_field(&mut write, "other", &Value::I32(3))
        .unwrap();
    call.end(&mut write).unwrap();
    assert_eq!(
        write.output(),
        "f(\n    name = 1,\n    2,\n    other = 3,\n)\n"
    );
}

#[test]
fn reserved_names_select_their_roles() {
    assert!(matches!(serde_starlark::ser::role_for("="), Role::Assignment));
    assert!(matches!(serde_starlark::ser::role_for("("), Role::Rename));
    assert!(matches!(serde_starlark::ser::role_for("+"), Role::Concat));
    assert!(matches!(serde_starlark::ser::role_for("#"), Role::LineComment));
    assert!(matches!(serde_starlark::ser::role_for("load"), Role::Plain));
    assert!(matches!(serde_starlark::ser::role_for("=="), Role::Plain));
    assert!(matches!(serde_starlark::ser::role_for(""), Role::Plain));
}
