use serde_starlark::error::ErrorKind;
use serde_starlark::{to_string, Serializer, Value};

fn text(s: &str) -> Value {
    Value::Str(s.to_owned())
}

#[test]
fn booleans_are_capitalized() {
    assert_eq!(to_string(&Value::Bool(true)).unwrap(), "True\n");
    assert_eq!(to_string(&Value::Bool(false)).unwrap(), "False\n");
    assert_eq!(Serializer.serialize_bool(true).unwrap(), "True\n");
}

#[test]
fn small_integers_are_decimal() {
    assert_eq!(to_string(&Value::I8(-128)).unwrap(), "-128\n");
    assert_eq!(to_string(&Value::I16(-32768)).unwrap(), "-32768\n");
    assert_eq!(to_string(&Value::I32(0)).unwrap(), "0\n");
    assert_eq!(to_string(&Value::I32(7)).unwrap(), "7\n");
    assert_eq!(to_string(&Value::I32(-10)).unwrap(), "-10\n");
    assert_eq!(to_string(&Value::I32(1000)).unwrap(), "1000\n");
    assert_eq!(to_string(&Value::U8(255)).unwrap(), "255\n");
    assert_eq!(to_string(&Value::U16(2018)).unwrap(), "2018\n");
    assert_eq!(Serializer.serialize_u16(65535).unwrap(), "65535\n");
    assert_eq!(Serializer.serialize_i8(-1).unwrap(), "-1\n");
}

#[test]
fn integers_at_the_ends_of_the_range() {
    assert_eq!(to_string(&Value::I32(i32::MAX)).unwrap(), "2147483647\n");
    assert_eq!(to_string(&Value::I32(i32::MIN)).unwrap(), "-2147483648\n");
    assert_eq!(to_string(&Value::I64(2147483647)).unwrap(), "2147483647\n");
    assert_eq!(to_string(&Value::I64(-2147483648)).unwrap(), "-2147483648\n");
    assert_eq!(to_string(&Value::I128(-2147483648)).unwrap(), "-2147483648\n");
    assert_eq!(to_string(&Value::U32(2147483647)).unwrap(), "2147483647\n");
    assert_eq!(to_string(&Value::U64(2147483647)).unwrap(), "2147483647\n");
    assert_eq!(to_string(&Value::U128(2147483647)).unwrap(), "2147483647\n");
}

#[test]
fn wide_integers_out_of_range_fail() {
    let e = to_string(&Value::I64(2147483648)).unwrap_err();
    assert!(matches!(e.kind(), ErrorKind::UnsupportedI64(2147483648)));
    assert_eq!(
        e.to_string(),
        "unsupported integer: 2147483648, Starlark only supports up to 32-bit signed integers"
    );

    let e = to_string(&Value::I64(-2147483649)).unwrap_err();
    assert!(matches!(e.kind(), ErrorKind::UnsupportedI64(-2147483649)));
    assert_eq!(
        e.to_string(),
        "unsupported integer: -2147483649, Starlark only supports up to 32-bit signed integers"
    );

    let e = to_string(&Value::I64(i64::MIN)).unwrap_err();
    assert_eq!(
        e.to_string(),
        "unsupported integer: -9223372036854775808, Starlark only supports up to 32-bit signed integers"
    );

    let e = to_string(&Value::I128(i128::MIN)).unwrap_err();
    assert!(matches!(e.kind(), ErrorKind::UnsupportedI128(i128::MIN)));
    assert_eq!(
        e.to_string(),
        "unsupported integer: -170141183460469231731687303715884105728, Starlark only supports up to 32-bit signed integers"
    );

    let e = to_string(&Value::I128(i128::MAX)).unwrap_err();
    assert_eq!(
        e.to_string(),
        "unsupported integer: 170141183460469231731687303715884105727, Starlark only supports up to 32-bit signed integers"
    );

    let e = to_string(&Value::U32(2147483648)).unwrap_err();
    assert!(matches!(e.kind(), ErrorKind::UnsupportedU32(2147483648)));
    assert_eq!(
        e.to_string(),
        "unsupported integer: 2147483648, Starlark only supports up to 32-bit signed integers"
    );

    let e = to_string(&Value::U64(u64::MAX)).unwrap_err();
    assert!(matches!(e.kind(), ErrorKind::UnsupportedU64(u64::MAX)));
    assert_eq!(
        e.to_string(),
        "unsupported integer: 18446744073709551615, Starlark only supports up to 32-bit signed integers"
    );

    let e = Serializer.serialize_u128(u128::MAX).unwrap_err();
    assert!(matches!(e.kind(), ErrorKind::UnsupportedU128(u128::MAX)));
    assert_eq!(
        e.to_string(),
        "unsupported integer: 340282366920938463463374607431768211455, Starlark only supports up to 32-bit signed integers"
    );
}

#[test]
fn floating_point_is_refused() {
    let e = to_string(&Value::F32(1.5f32.to_string())).unwrap_err();
    assert!(matches!(e.kind(), ErrorKind::UnsupportedF32(t) if t == "1.5"));
    assert_eq!(
        e.to_string(),
        "serialization of floating point is not supported: 1.5"
    );

    let e = to_string(&Value::F64((-0.25f64).to_string())).unwrap_err();
    assert!(matches!(e.kind(), ErrorKind::UnsupportedF64(t) if t == "-0.25"));
    assert_eq!(
        e.to_string(),
        "serialization of floating point is not supported: -0.25"
    );
}

#[test]
fn bare_characters_are_refused() {
    let e = to_string(&Value::Char('x')).unwrap_err();
    assert!(matches!(e.kind(), ErrorKind::UnsupportedChar('x')));
    assert_eq!(e.to_string(), "serialization of char is not supported: 'x'");

    // The message shows the character escaped, not as it is.
    let e = to_string(&Value::Char('\n')).unwrap_err();
    assert_eq!(e.to_string(), "serialization of char is not supported: '\\n'");
    let e = Serializer.serialize_char('\'').unwrap_err();
    assert_eq!(e.to_string(), "serialization of char is not supported: '\\''");
}

#[test]
fn bytes_and_unit_are_refused() {
    let e = to_string(&Value::Bytes(vec![1, 2, 3])).unwrap_err();
    assert!(matches!(e.kind(), ErrorKind::UnsupportedBytes));
    assert_eq!(
        e.to_string(),
        "serialization of Starlark byte string literals is not supported yet"
    );

    let e = to_string(&Value::Unit).unwrap_err();
    assert!(matches!(e.kind(), ErrorKind::UnsupportedUnit));
    assert_eq!(
        e.to_string(),
        "serialization of () is not supported; use serialize_none to produce `None`"
    );
}

#[test]
fn optional_values() {
    assert_eq!(to_string(&Value::Absent).unwrap(), "None\n");
    assert_eq!(
        to_string(&Value::Present(Box::new(Value::I32(3)))).unwrap(),
        "3\n"
    );
    assert_eq!(Serializer.serialize_none().unwrap(), "None\n");
    assert_eq!(Serializer.serialize_some(&text("a")).unwrap(), "\"a\"\n");
}

#[test]
fn names_of_units_and_variants() {
    assert_eq!(
        to_string(&Value::UnitStruct("MARKER".to_owned())).unwrap(),
        "MARKER\n"
    );
    let variant = Value::UnitVariant {
        name: "Kind".to_owned(),
        variant_index: 1,
        variant: "lib".to_owned(),
    };
    assert_eq!(to_string(&variant).unwrap(), "\"lib\"\n");
}

#[test]
fn variants_with_payload_are_refused() {
    let newtype = Value::NewtypeVariant {
        name: "Rule".to_owned(),
        variant_index: 0,
        variant: "Load".to_owned(),
        value: Box::new(Value::I32(1)),
    };
    let e = to_string(&newtype).unwrap_err();
    assert!(matches!(e.kind(), ErrorKind::UnsupportedEnum(n, v) if n == "Rule" && v == "Load"));
    assert_eq!(
        e.to_string(),
        "serialization of enum variant is not supported: Rule::Load"
    );

    let tuple = Value::TupleVariant {
        name: "Rule".to_owned(),
        variant_index: 1,
        variant: "Pair".to_owned(),
        len: 2,
        items: vec![Value::I32(1), Value::I32(2)],
    };
    assert_eq!(
        to_string(&tuple).unwrap_err().to_string(),
        "serialization of enum variant is not supported: Rule::Pair"
    );

    let keyed = Value::StructVariant {
        name: "Rule".to_owned(),
        variant_index: 2,
        variant: "Named".to_owned(),
        len: 1,
        fields: vec![("x".to_owned(), Value::I32(1))],
    };
    assert_eq!(
        to_string(&keyed).unwrap_err().to_string(),
        "serialization of enum variant is not supported: Rule::Named"
    );
}

#[test]
fn strings_are_quoted() {
    assert_eq!(to_string(&text("")).unwrap(), "\"\"\n");
    assert_eq!(to_string(&text("syn")).unwrap(), "\"syn\"\n");
    assert_eq!(Serializer.serialize_str("1.0.0").unwrap(), "\"1.0.0\"\n");
}

#[test]
fn each_named_escape() {
    assert_eq!(Serializer.serialize_str("\x07").unwrap(), "\"\\a\"\n");
    assert_eq!(Serializer.serialize_str("\x08").unwrap(), "\"\\b\"\n");
    assert_eq!(Serializer.serialize_str("\x0C").unwrap(), "\"\\f\"\n");
    assert_eq!(Serializer.serialize_str("\n").unwrap(), "\"\\n\"\n");
    assert_eq!(Serializer.serialize_str("\r").unwrap(), "\"\\r\"\n");
    assert_eq!(Serializer.serialize_str("\t").unwrap(), "\"\\t\"\n");
    assert_eq!(Serializer.serialize_str("\x0B").unwrap(), "\"\\v\"\n");
    assert_eq!(Serializer.serialize_str("\"").unwrap(), "\"\\\"\"\n");
    assert_eq!(Serializer.serialize_str("\\").unwrap(), "\"\\\\\"\n");
}

#[test]
fn octal_escapes_have_one_to_three_digits() {
    assert_eq!(Serializer.serialize_str("\0").unwrap(), "\"\\0\"\n");
    assert_eq!(Serializer.serialize_str("\x01").unwrap(), "\"\\1\"\n");
    assert_eq!(Serializer.serialize_str("\x0E").unwrap(), "\"\\16\"\n");
    assert_eq!(Serializer.serialize_str("\x1F").unwrap(), "\"\\37\"\n");
    assert_eq!(Serializer.serialize_str("\x7F").unwrap(), "\"\\177\"\n");
    // A letter or a digit above seven after the escape is no octal digit.
    assert_eq!(Serializer.serialize_str("\x01a").unwrap(), "\"\\1a\"\n");
    assert_eq!(Serializer.serialize_str("\x018").unwrap(), "\"\\18\"\n");
}

#[test]
fn an_octal_digit_after_a_short_escape_forces_fixed_width() {
    assert_eq!(Serializer.serialize_str("\x000").unwrap(), "\"\\x000\"\n");
    assert_eq!(Serializer.serialize_str("\x017").unwrap(), "\"\\x017\"\n");
    assert_eq!(Serializer.serialize_str("\x1F1").unwrap(), "\"\\x1F1\"\n");
    // Three digits leave no room for a fourth.
    assert_eq!(Serializer.serialize_str("\x7F0").unwrap(), "\"\\1770\"\n");
}

#[test]
fn controls_above_ascii_take_four_hex_digits() {
    assert_eq!(Serializer.serialize_str("\u{80}").unwrap(), "\"\\u0080\"\n");
    assert_eq!(Serializer.serialize_str("\u{9F}").unwrap(), "\"\\u009F\"\n");
    // The first character past the controls stands for itself.
    assert_eq!(Serializer.serialize_str("\u{A0}").unwrap(), "\"\u{A0}\"\n");
}

#[test]
fn other_characters_pass_through() {
    assert_eq!(
        Serializer.serialize_str("AД界😀 '").unwrap(),
        "\"AД界😀 '\"\n"
    );
}

#[test]
fn custom_errors_carry_their_message() {
    let e = serde_starlark::Error::custom("something else");
    assert!(matches!(e.kind(), ErrorKind::Message(m) if m == "something else"));
    assert_eq!(e.to_string(), "something else");
}
