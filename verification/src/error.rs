//! What can go wrong while encoding, and the message that each failure shows.

use crate::text::{decimal, push_decimal};
use vstd::prelude::*;

verus! {

/// Why a value could not be encoded.
#[derive(Debug)]
pub enum ErrorKind {
    /// A free-form message.
    Message(String),
    /// A 64-bit signed integer outside the 32-bit signed range.
    UnsupportedI64(i64),
    /// A 128-bit signed integer outside the 32-bit signed range.
    UnsupportedI128(i128),
    /// A 32-bit unsigned integer outside the 32-bit signed range.
    UnsupportedU32(u32),
    /// A 64-bit unsigned integer outside the 32-bit signed range.
    UnsupportedU64(u64),
    /// A 128-bit unsigned integer outside the 32-bit signed range.
    UnsupportedU128(u128),
    /// A single-precision floating point number, held as its decimal text.
    UnsupportedF32(String),
    /// A double-precision floating point number, held as its decimal text.
    UnsupportedF64(String),
    /// A bare character.
    UnsupportedChar(char),
    /// A byte string.
    UnsupportedBytes,
    /// The unit value.
    UnsupportedUnit,
    /// A variant with a payload: the name of its type, then its own name.
    UnsupportedEnum(String, String),
    /// A value other than a string where a call name, an assignment target
    /// or a comment text was expected.
    UnsupportedCall,
}

/// The mathematical content of an [`ErrorKind`]: the same cases, with text as
/// sequences of characters.
pub ghost enum Failure {
    Message(Seq<char>),
    UnsupportedI64(i64),
    UnsupportedI128(i128),
    UnsupportedU32(u32),
    UnsupportedU64(u64),
    UnsupportedU128(u128),
    UnsupportedF32(Seq<char>),
    UnsupportedF64(Seq<char>),
    UnsupportedChar(char),
    UnsupportedBytes,
    UnsupportedUnit,
    UnsupportedEnum(Seq<char>, Seq<char>),
    UnsupportedCall,
}

impl View for ErrorKind {
    type V = Failure;

    open spec fn view(&self) -> Failure {
        match self {
            ErrorKind::Message(m) => Failure::Message(m@),
            ErrorKind::UnsupportedI64(v) => Failure::UnsupportedI64(*v),
            ErrorKind::UnsupportedI128(v) => Failure::UnsupportedI128(*v),
            ErrorKind::UnsupportedU32(v) => Failure::UnsupportedU32(*v),
            ErrorKind::UnsupportedU64(v) => Failure::UnsupportedU64(*v),
            ErrorKind::UnsupportedU128(v) => Failure::UnsupportedU128(*v),
            ErrorKind::UnsupportedF32(t) => Failure::UnsupportedF32(t@),
            ErrorKind::UnsupportedF64(t) => Failure::UnsupportedF64(t@),
            ErrorKind::UnsupportedChar(c) => Failure::UnsupportedChar(*c),
            ErrorKind::UnsupportedBytes => Failure::UnsupportedBytes,
            ErrorKind::UnsupportedUnit => Failure::UnsupportedUnit,
            ErrorKind::UnsupportedEnum(name, variant) => Failure::UnsupportedEnum(
                name@,
                variant@,
            ),
            ErrorKind::UnsupportedCall => Failure::UnsupportedCall,
        }
    }
}

/// The error of a failed encoding. It is made where the failure happens and
/// handed up unchanged.
#[derive(Debug)]
pub struct Error {
    kind: ErrorKind,
}

impl View for Error {
    type V = Failure;

    closed spec fn view(&self) -> Failure {
        self.kind@
    }
}

/// What `char::escape_debug` yields for a character, as text.
pub uninterp spec fn char_escape_debug(c: char) -> Seq<char>;

/// Calls `char::escape_debug` and collects what it yields. The escape depends
/// on the character alone; what it is for a given character is not stated.
#[verifier::external_body]
fn escape_debug(c: char) -> (r: String)
    ensures
        r@ == char_escape_debug(c),
{
    format!("{}", c.escape_debug())
}

/// The message for an integer that does not fit, given the integer's decimal
/// text.
pub open spec fn unsupported_int_message(number: Seq<char>) -> Seq<char> {
    "unsupported integer: "@ + number
        + ", Starlark only supports up to 32-bit signed integers"@
}

/// The message for a floating point number, given the number's decimal text.
pub open spec fn unsupported_float_message(float: Seq<char>) -> Seq<char> {
    "serialization of floating point is not supported: "@ + float
}

/// The message for a bare character, given the character's escaped form.
pub open spec fn unsupported_char_message(escaped: Seq<char>) -> Seq<char> {
    "serialization of char is not supported: '"@ + escaped + "'"@
}

/// The message for a variant with a payload.
pub open spec fn unsupported_enum_message(name: Seq<char>, variant: Seq<char>) -> Seq<char> {
    "serialization of enum variant is not supported: "@ + name + "::"@ + variant
}

/// The message that a failure shows.
pub open spec fn message(failure: Failure) -> Seq<char> {
    match failure {
        Failure::Message(m) => m,
        Failure::UnsupportedI64(v) => unsupported_int_message(decimal(v as int)),
        Failure::UnsupportedI128(v) => unsupported_int_message(decimal(v as int)),
        Failure::UnsupportedU32(v) => unsupported_int_message(decimal(v as int)),
        Failure::UnsupportedU64(v) => unsupported_int_message(decimal(v as int)),
        Failure::UnsupportedU128(v) => unsupported_int_message(decimal(v as int)),
        Failure::UnsupportedF32(t) => unsupported_float_message(t),
        Failure::UnsupportedF64(t) => unsupported_float_message(t),
        Failure::UnsupportedChar(c) => unsupported_char_message(char_escape_debug(c)),
        Failure::UnsupportedBytes =>
            "serialization of Starlark byte string literals is not supported yet"@,
        Failure::UnsupportedUnit =>
            "serialization of () is not supported; use serialize_none to produce `None`"@,
        Failure::UnsupportedEnum(name, variant) => unsupported_enum_message(name, variant),
        Failure::UnsupportedCall => "unsupported function call argument type"@,
    }
}

/// Appends the message for the out-of-range integer with the given sign and
/// magnitude.
pub fn write_unsupported_int(out: &mut String, negative: bool, magnitude: u128)
    ensures
        final(out)@ == old(out)@ + unsupported_int_message(
            decimal(
                if negative {
                    -(magnitude as int)
                } else {
                    magnitude as int
                },
            ),
        ),
{
    out.append("unsupported integer: ");
    push_decimal(out, negative, magnitude);
    out.append(", Starlark only supports up to 32-bit signed integers");
    assert(out@ =~= old(out)@ + unsupported_int_message(
        decimal(
            if negative {
                -(magnitude as int)
            } else {
                magnitude as int
            },
        ),
    ));
}

/// Appends the message for a floating point number with the given decimal
/// text.
pub fn write_unsupported_float(out: &mut String, float: &str)
    ensures
        final(out)@ == old(out)@ + unsupported_float_message(float@),
{
    out.append("serialization of floating point is not supported: ");
    out.append(float);
    assert(out@ =~= old(out)@ + unsupported_float_message(float@));
}

/// Appends the message for a bare character whose escaped form is `escaped`.
pub fn write_unsupported_char(out: &mut String, escaped: &str)
    ensures
        final(out)@ == old(out)@ + unsupported_char_message(escaped@),
{
    out.append("serialization of char is not supported: '");
    out.append(escaped);
    out.append("'");
    assert(out@ =~= old(out)@ + unsupported_char_message(escaped@));
}

/// Appends the message for a variant with a payload.
pub fn write_unsupported_enum(out: &mut String, name: &str, variant: &str)
    ensures
        final(out)@ == old(out)@ + unsupported_enum_message(name@, variant@),
{
    out.append("serialization of enum variant is not supported: ");
    out.append(name);
    out.append("::");
    out.append(variant);
    assert(out@ =~= old(out)@ + unsupported_enum_message(name@, variant@));
}

impl Error {
    /// An error that carries a free-form message.
    pub fn custom(message: &str) -> (e: Error)
        ensures
            e@ == Failure::Message(message@),
    {
        Error { kind: ErrorKind::Message(message.to_owned()) }
    }

    /// Why the encoding failed.
    pub fn kind(&self) -> (kind: &ErrorKind)
        ensures
            kind@ == self@,
    {
        &self.kind
    }

    /// The message of this error, as shown to a user.
    pub fn to_string(&self) -> (text: String)
        ensures
            text@ == message(self@),
    {
        let mut out = String::new();
        match &self.kind {
            ErrorKind::Message(m) => out.append(m.as_str()),
            ErrorKind::UnsupportedI64(v) => {
                if *v < 0 {
                    write_unsupported_int(&mut out, true, (-(*v as i128)) as u128)
                } else {
                    write_unsupported_int(&mut out, false, *v as u128)
                }
            },
            ErrorKind::UnsupportedI128(v) => {
                if *v < 0 {
                    write_unsupported_int(&mut out, true, (-(*v + 1)) as u128 + 1)
                } else {
                    write_unsupported_int(&mut out, false, *v as u128)
                }
            },
            ErrorKind::UnsupportedU32(v) => write_unsupported_int(&mut out, false, *v as u128),
            ErrorKind::UnsupportedU64(v) => write_unsupported_int(&mut out, false, *v as u128),
            ErrorKind::UnsupportedU128(v) => write_unsupported_int(&mut out, false, *v),
            ErrorKind::UnsupportedF32(t) => write_unsupported_float(&mut out, t.as_str()),
            ErrorKind::UnsupportedF64(t) => write_unsupported_float(&mut out, t.as_str()),
            ErrorKind::UnsupportedChar(c) => {
                let escaped = escape_debug(*c);
                write_unsupported_char(&mut out, escaped.as_str())
            },
            ErrorKind::UnsupportedBytes => out.append(
                "serialization of Starlark byte string literals is not supported yet",
            ),
            ErrorKind::UnsupportedUnit => out.append(
                "serialization of () is not supported; use serialize_none to produce `None`",
            ),
            ErrorKind::UnsupportedEnum(name, variant) => write_unsupported_enum(
                &mut out,
                name.as_str(),
                variant.as_str(),
            ),
            ErrorKind::UnsupportedCall => out.append("unsupported function call argument type"),
        }
        assert(out@ =~= message(self@));
        out
    }
}

impl From<ErrorKind> for Error {
    fn from(kind: ErrorKind) -> (e: Error) {
        Error { kind }
    }
}

impl vstd::std_specs::convert::FromSpecImpl<ErrorKind> for Error {
    open spec fn obeys_from_spec() -> bool {
        true
    }

    closed spec fn from_spec(kind: ErrorKind) -> Error {
        Error { kind }
    }
}

/// The error for a 64-bit signed integer that does not fit.
pub fn unsupported_i64(v: i64) -> (e: Error)
    ensures
        e@ == Failure::UnsupportedI64(v),
{
    Error::from(ErrorKind::UnsupportedI64(v))
}

/// The error for a 128-bit signed integer that does not fit.
pub fn unsupported_i128(v: i128) -> (e: Error)
    ensures
        e@ == Failure::UnsupportedI128(v),
{
    Error::from(ErrorKind::UnsupportedI128(v))
}

/// The error for a 32-bit unsigned integer that does not fit.
pub fn unsupported_u32(v: u32) -> (e: Error)
    ensures
        e@ == Failure::UnsupportedU32(v),
{
    Error::from(ErrorKind::UnsupportedU32(v))
}

/// The error for a 64-bit unsigned integer that does not fit.
pub fn unsupported_u64(v: u64) -> (e: Error)
    ensures
        e@ == Failure::UnsupportedU64(v),
{
    Error::from(ErrorKind::UnsupportedU64(v))
}

/// The error for a 128-bit unsigned integer that does not fit.
pub fn unsupported_u128(v: u128) -> (e: Error)
    ensures
        e@ == Failure::UnsupportedU128(v),
{
    Error::from(ErrorKind::UnsupportedU128(v))
}

/// The error for a single-precision floating point number with the given
/// decimal text.
pub fn unsupported_f32(v: &str) -> (e: Error)
    ensures
        e@ == Failure::UnsupportedF32(v@),
{
    Error::from(ErrorKind::UnsupportedF32(v.to_owned()))
}

/// The error for a double-precision floating point number with the given
/// decimal text.
pub fn unsupported_f64(v: &str) -> (e: Error)
    ensures
        e@ == Failure::UnsupportedF64(v@),
{
    Error::from(ErrorKind::UnsupportedF64(v.to_owned()))
}

/// The error for a bare character.
pub fn unsupported_char(v: char) -> (e: Error)
    ensures
        e@ == Failure::UnsupportedChar(v),
{
    Error::from(ErrorKind::UnsupportedChar(v))
}

/// The error for a byte string.
pub fn unsupported_bytes() -> (e: Error)
    ensures
        e@ == Failure::UnsupportedBytes,
{
    Error::from(ErrorKind::UnsupportedBytes)
}

/// The error for the unit value.
pub fn unsupported_unit() -> (e: Error)
    ensures
        e@ == Failure::UnsupportedUnit,
{
    Error::from(ErrorKind::UnsupportedUnit)
}

/// The error for a variant with a payload.
pub fn unsupported_enum(name: &str, variant: &str) -> (e: Error)
    ensures
        e@ == Failure::UnsupportedEnum(name@, variant@),
{
    Error::from(ErrorKind::UnsupportedEnum(name.to_owned(), variant.to_owned()))
}

/// The error for a value that is no string where only a string will do.
pub fn unsupported_call() -> (e: Error)
    ensures
        e@ == Failure::UnsupportedCall,
{
    Error::from(ErrorKind::UnsupportedCall)
}

} // verus!
