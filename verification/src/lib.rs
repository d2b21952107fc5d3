//! An encoder of structured values as Starlark: calls, lists, dicts and
//! literals, laid out over one line or several.
//!
//! A [`Value`] describes itself to the encoder shape by shape. The encoder
//! writes literals for the scalars it knows, brackets and separators for
//! the containers, and decides for each container whether it fits on one
//! line. Three wrappers ask for syntax that no shape of their own stands
//! for: [`Assignment`], [`FunctionCall`] and [`LineComment`].

use vstd::prelude::*;

pub mod assignment;
pub mod call;
pub mod comment;
pub mod error;
pub mod escape;
pub mod layout;
pub mod ser;
pub mod text;
pub mod value;

pub use crate::error::Error;
pub use crate::ser::{
    MutableWriteStarlark, WriteMap, WriteSeq, WriteStarlark, WriteStruct, WriteTuple,
    WriteTupleStruct,
};
pub use crate::value::Value;

use crate::error::Failure;
use crate::escape::quoted;
use crate::ser::{boolean, lemma_line, line, role_of, Role, Writer};
use crate::text::decimal;
use crate::value::{
    comment_fits, emit, emit_map, emit_newtype_struct, emit_seq, emit_struct, emit_tuple,
    emit_tuple_struct, encode, finished, lemma_size_of_entries, lemma_size_of_fields,
    lemma_size_of_items, size_of_entries, size_of_fields, size_of_items,
};

verus! {

/// A length that lays a call, a list or a dict out on one line, whatever it
/// holds.
pub const ONELINE: usize = usize::MIN;

/// A length that gives every element of a call, a list, a tuple or a dict a
/// line of its own.
pub const MULTILINE: usize = usize::MAX;

/// A value bound to an identifier: `identifier = value`.
#[derive(Debug)]
pub struct Assignment {
    pub identifier: String,
    pub value: Value,
}

impl Assignment {
    /// The assignment of `value` to `identifier`.
    pub fn new(identifier: &str, value: Value) -> (assignment: Assignment)
        ensures
            assignment.identifier@ == identifier@,
            assignment.value == value,
    {
        Assignment { identifier: identifier.to_owned(), value }
    }
}

/// An argument bundle under the name of a function: a call, whatever the
/// bundle would be on its own. A dict comes out as keyword arguments, a list
/// or a tuple as positional ones.
#[derive(Debug)]
pub struct FunctionCall {
    pub function: String,
    pub args: Value,
}

impl FunctionCall {
    /// The call of `function` on `args`.
    pub fn new(function: &str, args: Value) -> (call: FunctionCall)
        ensures
            call.function@ == function@,
            call.args == args,
    {
        FunctionCall { function: function.to_owned(), args }
    }
}

/// A value with a comment at the end of its line.
#[derive(Debug)]
pub struct LineComment {
    pub value: Value,
    pub comment: String,
}

impl LineComment {
    /// `value` with `comment` at the end of its line. The comment must fit
    /// there: it starts with no hash sign and holds no line feed.
    pub fn new(value: Value, comment: &str) -> (commented: LineComment)
        requires
            comment_fits(comment@),
        ensures
            commented.value == value,
            commented.comment@ == comment@,
    {
        LineComment { value, comment: comment.to_owned() }
    }
}

impl From<Assignment> for Value {
    fn from(assignment: Assignment) -> (value: Value) {
        Value::Assignment(Box::new(assignment))
    }
}

impl vstd::std_specs::convert::FromSpecImpl<Assignment> for Value {
    open spec fn obeys_from_spec() -> bool {
        true
    }

    open spec fn from_spec(assignment: Assignment) -> Value {
        Value::Assignment(Box::new(assignment))
    }
}

impl From<FunctionCall> for Value {
    fn from(call: FunctionCall) -> (value: Value) {
        Value::FunctionCall(Box::new(call))
    }
}

impl vstd::std_specs::convert::FromSpecImpl<FunctionCall> for Value {
    open spec fn obeys_from_spec() -> bool {
        true
    }

    open spec fn from_spec(call: FunctionCall) -> Value {
        Value::FunctionCall(Box::new(call))
    }
}

impl From<LineComment> for Value {
    fn from(comment: LineComment) -> (value: Value) {
        Value::LineComment(Box::new(comment))
    }
}

impl vstd::std_specs::convert::FromSpecImpl<LineComment> for Value {
    open spec fn obeys_from_spec() -> bool {
        true
    }

    open spec fn from_spec(comment: LineComment) -> Value {
        Value::LineComment(Box::new(comment))
    }
}

/// Whether `r` is what `expected` says: the expected text, or the expected
/// failure.
pub open spec fn produces(r: Result<String, Error>, expected: Result<Seq<char>, Failure>) -> bool {
    match expected {
        Ok(text) => r matches Ok(s) && s@ == text,
        Err(f) => r matches Err(e) && e@ == f,
    }
}

/// Encodes `value` as text. The text is what the value writes, with a
/// comment that still waits written out, and exactly one line break after
/// it. A failure leaves no text behind.
///
/// The value must keep to the rules of the wrappers, and be small enough
/// for its deepest indentation to be counted: four columns for each of its
/// values is within the range of `usize`.
pub fn to_string(value: &Value) -> (r: Result<String, Error>)
    requires
        value.valid(),
        4 * value.size() <= usize::MAX,
    ensures
        produces(r, encode(*value)),
        r matches Ok(text) ==> emit(*value, Writer::empty()) matches Ok(w) && text@ == line(
            w.flushed(),
        ),
{
    let mut write = WriteStarlark::new();
    let done = value.serialize(&mut write);
    proof {
        if done is Ok {
            assert(write@.finish() =~= line(write@.flushed()));
        }
    }
    Serializer::finish(write, done)
}

/// The encoder of one value as a text of its own. Each of its methods
/// encodes a value of one shape, from a writer that holds nothing, and ends
/// the text with a line break.
pub struct Serializer;

impl Serializer {
    /// What a finished writer gives after a step that went as `r` says.
    fn finish(write: WriteStarlark, r: Result<(), Error>) -> (out: Result<String, Error>)
        ensures
            match r {
                Ok(()) => out matches Ok(s) && s@ == write@.finish(),
                Err(e) => out matches Err(x) && x@ == e@,
            },
    {
        match r {
            Ok(()) => Ok(write.output()),
            Err(e) => Err(e),
        }
    }

    /// Encodes a boolean.
    pub fn serialize_bool(self, v: bool) -> (r: Result<String, Error>)
        ensures
            produces(r, Ok(line(boolean(v)))),
    {
        let mut write = WriteStarlark::new();
        let done = write.serialize_bool(v);
        proof {
            lemma_line(boolean(v));
        }
        Self::finish(write, done)
    }

    /// Encodes an 8-bit signed integer.
    pub fn serialize_i8(self, v: i8) -> (r: Result<String, Error>)
        ensures
            produces(r, Ok(line(decimal(v as int)))),
    {
        let mut write = WriteStarlark::new();
        let done = write.serialize_i8(v);
        proof {
            lemma_line(decimal(v as int));
        }
        Self::finish(write, done)
    }

    /// Encodes a 16-bit signed integer.
    pub fn serialize_i16(self, v: i16) -> (r: Result<String, Error>)
        ensures
            produces(r, Ok(line(decimal(v as int)))),
    {
        let mut write = WriteStarlark::new();
        let done = write.serialize_i16(v);
        proof {
            lemma_line(decimal(v as int));
        }
        Self::finish(write, done)
    }

    /// Encodes a 32-bit signed integer.
    pub fn serialize_i32(self, v: i32) -> (r: Result<String, Error>)
        ensures
            produces(r, Ok(line(decimal(v as int)))),
    {
        let mut write = WriteStarlark::new();
        let done = write.serialize_i32(v);
        proof {
            lemma_line(decimal(v as int));
        }
        Self::finish(write, done)
    }

    /// Encodes a 64-bit signed integer if it fits in 32 signed bits, and
    /// fails otherwise.
    pub fn serialize_i64(self, v: i64) -> (r: Result<String, Error>)
        ensures
            produces(
                r,
                if i32::MIN <= v <= i32::MAX {
                    Ok(line(decimal(v as int)))
                } else {
                    Err(Failure::UnsupportedI64(v))
                },
            ),
    {
        let mut write = WriteStarlark::new();
        let done = write.serialize_i64(v);
        proof {
            lemma_line(decimal(v as int));
        }
        Self::finish(write, done)
    }

    /// Encodes a 128-bit signed integer if it fits in 32 signed bits, and
    /// fails otherwise.
    pub fn serialize_i128(self, v: i128) -> (r: Result<String, Error>)
        ensures
            produces(
                r,
                if i32::MIN <= v <= i32::MAX {
                    Ok(line(decimal(v as int)))
                } else {
                    Err(Failure::UnsupportedI128(v))
                },
            ),
    {
        let mut write = WriteStarlark::new();
        let done = write.serialize_i128(v);
        proof {
            lemma_line(decimal(v as int));
        }
        Self::finish(write, done)
    }

    /// Encodes an 8-bit unsigned integer.
    pub fn serialize_u8(self, v: u8) -> (r: Result<String, Error>)
        ensures
            produces(r, Ok(line(decimal(v as int)))),
    {
        let mut write = WriteStarlark::new();
        let done = write.serialize_u8(v);
        proof {
            lemma_line(decimal(v as int));
        }
        Self::finish(write, done)
    }

    /// Encodes a 16-bit unsigned integer.
    pub fn serialize_u16(self, v: u16) -> (r: Result<String, Error>)
        ensures
            produces(r, Ok(line(decimal(v as int)))),
    {
        let mut write = WriteStarlark::new();
        let done = write.serialize_u16(v);
        proof {
            lemma_line(decimal(v as int));
        }
        Self::finish(write, done)
    }

    /// Encodes a 32-bit unsigned integer if it fits in 32 signed bits, and
    /// fails otherwise.
    pub fn serialize_u32(self, v: u32) -> (r: Result<String, Error>)
        ensures
            produces(
                r,
                if v <= i32::MAX {
                    Ok(line(decimal(v as int)))
                } else {
                    Err(Failure::UnsupportedU32(v))
                },
            ),
    {
        let mut write = WriteStarlark::new();
        let done = write.serialize_u32(v);
        proof {
            lemma_line(decimal(v as int));
        }
        Self::finish(write, done)
    }

    /// Encodes a 64-bit unsigned integer if it fits in 32 signed bits, and
    /// fails otherwise.
    pub fn serialize_u64(self, v: u64) -> (r: Result<String, Error>)
        ensures
            produces(
                r,
                if v <= i32::MAX {
                    Ok(line(decimal(v as int)))
                } else {
                    Err(Failure::UnsupportedU64(v))
                },
            ),
    {
        let mut write = WriteStarlark::new();
        let done = write.serialize_u64(v);
        proof {
            lemma_line(decimal(v as int));
        }
        Self::finish(write, done)
    }

    /// Encodes a 128-bit unsigned integer if it fits in 32 signed bits, and
    /// fails otherwise.
    pub fn serialize_u128(self, v: u128) -> (r: Result<String, Error>)
        ensures
            produces(
                r,
                if v <= i32::MAX {
                    Ok(line(decimal(v as int)))
                } else {
                    Err(Failure::UnsupportedU128(v))
                },
            ),
    {
        let mut write = WriteStarlark::new();
        let done = write.serialize_u128(v);
        proof {
            lemma_line(decimal(v as int));
        }
        Self::finish(write, done)
    }

    /// Refuses a single-precision floating point number, given as its
    /// decimal text.
    pub fn serialize_f32(self, v: &str) -> (r: Result<String, Error>)
        ensures
            produces(r, Err(Failure::UnsupportedF32(v@))),
    {
        let mut write = WriteStarlark::new();
        let done = write.serialize_f32(v);
        Self::finish(write, done)
    }

    /// Refuses a double-precision floating point number, given as its
    /// decimal text.
    pub fn serialize_f64(self, v: &str) -> (r: Result<String, Error>)
        ensures
            produces(r, Err(Failure::UnsupportedF64(v@))),
    {
        let mut write = WriteStarlark::new();
        let done = write.serialize_f64(v);
        Self::finish(write, done)
    }

    /// Refuses a bare character.
    pub fn serialize_char(self, v: char) -> (r: Result<String, Error>)
        ensures
            produces(r, Err(Failure::UnsupportedChar(v))),
    {
        let mut write = WriteStarlark::new();
        let done = write.serialize_char(v);
        Self::finish(write, done)
    }

    /// Encodes a string as a literal.
    pub fn serialize_str(self, v: &str) -> (r: Result<String, Error>)
        ensures
            produces(r, Ok(line(quoted(v@)))),
    {
        let mut write = WriteStarlark::new();
        let done = write.serialize_str(v);
        proof {
            lemma_line(quoted(v@));
        }
        Self::finish(write, done)
    }

    /// Refuses a byte string.
    pub fn serialize_bytes(self, v: &[u8]) -> (r: Result<String, Error>)
        ensures
            produces(r, Err(Failure::UnsupportedBytes)),
    {
        let mut write = WriteStarlark::new();
        let done = write.serialize_bytes(v);
        Self::finish(write, done)
    }

    /// Encodes the absent optional value.
    pub fn serialize_none(self) -> (r: Result<String, Error>)
        ensures
            produces(r, Ok(line("None"@))),
    {
        let mut write = WriteStarlark::new();
        let done = write.serialize_none();
        proof {
            lemma_line("None"@);
        }
        Self::finish(write, done)
    }

    /// Encodes an optional value that is there: the value itself.
    pub fn serialize_some(self, value: &Value) -> (r: Result<String, Error>)
        requires
            value.valid(),
            4 * value.size() <= usize::MAX,
        ensures
            produces(r, encode(*value)),
    {
        let mut write = WriteStarlark::new();
        let done = write.serialize_some(value);
        Self::finish(write, done)
    }

    /// Refuses the unit value.
    pub fn serialize_unit(self) -> (r: Result<String, Error>)
        ensures
            produces(r, Err(Failure::UnsupportedUnit)),
    {
        let mut write = WriteStarlark::new();
        let done = write.serialize_unit();
        Self::finish(write, done)
    }

    /// Encodes a unit struct as its bare name.
    pub fn serialize_unit_struct(self, name: &str) -> (r: Result<String, Error>)
        ensures
            produces(r, Ok(line(name@))),
    {
        let mut write = WriteStarlark::new();
        let done = write.serialize_unit_struct(name);
        proof {
            lemma_line(name@);
        }
        Self::finish(write, done)
    }

    /// Encodes a variant without payload as the string of its name.
    pub fn serialize_unit_variant(self, name: &str, variant_index: u32, variant: &str) -> (r:
        Result<String, Error>)
        ensures
            produces(r, Ok(line(quoted(variant@)))),
    {
        let mut write = WriteStarlark::new();
        let done = write.serialize_unit_variant(name, variant_index, variant);
        proof {
            lemma_line(quoted(variant@));
        }
        Self::finish(write, done)
    }

    /// Encodes a struct around one value as a call with one argument.
    pub fn serialize_newtype_struct(self, name: &str, value: &Value) -> (r: Result<String, Error>)
        requires
            value.valid(),
            4 * (1 + value.size()) <= usize::MAX,
        ensures
            produces(r, finished(emit_newtype_struct(name@, *value, Writer::empty()))),
    {
        let mut write = WriteStarlark::new();
        let done = write.serialize_newtype_struct(name, value);
        Self::finish(write, done)
    }

    /// Refuses a variant around one value.
    pub fn serialize_newtype_variant(self, name: &str, variant_index: u32, variant: &str) -> (r:
        Result<String, Error>)
        ensures
            produces(r, Err(Failure::UnsupportedEnum(name@, variant@))),
    {
        let mut write = WriteStarlark::new();
        let done = write.serialize_newtype_variant(name, variant_index, variant);
        Self::finish(write, done)
    }

    /// Encodes a list with the given elements.
    pub fn serialize_seq(self, len: Option<usize>, items: &Vec<Value>) -> (r: Result<
        String,
        Error,
    >)
        requires
            forall|i: int| 0 <= i < items@.len() ==> (#[trigger] items@[i]).valid(),
            4 * (1 + size_of_items(items@, 0)) <= usize::MAX,
        ensures
            produces(r, finished(emit_seq(len, items@, Writer::empty()))),
    {
        proof {
            if items@.len() > 0 {
                lemma_size_of_items(items@, 0, 0);
            }
        }
        let mut write = WriteStarlark::new();
        let mut seq = match write.serialize_seq(len) {
            Ok(seq) => seq,
            Err(e) => {
                return Err(e);
            },
        };
        match seq.serialize_elements(&mut write, items) {
            Ok(()) => {},
            Err(e) => {
                return Err(e);
            },
        }
        let done = seq.end(&mut write);
        Self::finish(write, done)
    }

    /// Encodes a tuple with the given elements.
    pub fn serialize_tuple(self, len: usize, items: &Vec<Value>) -> (r: Result<String, Error>)
        requires
            forall|i: int| 0 <= i < items@.len() ==> (#[trigger] items@[i]).valid(),
            4 * (1 + size_of_items(items@, 0)) <= usize::MAX,
        ensures
            produces(r, finished(emit_tuple(len, items@, Writer::empty()))),
    {
        proof {
            if items@.len() > 0 {
                lemma_size_of_items(items@, 0, 0);
            }
        }
        let mut write = WriteStarlark::new();
        let mut tuple = match write.serialize_tuple(len) {
            Ok(tuple) => tuple,
            Err(e) => {
                return Err(e);
            },
        };
        match tuple.serialize_elements(&mut write, items) {
            Ok(()) => {},
            Err(e) => {
                return Err(e);
            },
        }
        let done = tuple.end(&mut write);
        Self::finish(write, done)
    }

    /// Encodes a container with the given positional fields under `name`.
    /// Under the reserved names of an assignment and of a commented value it
    /// takes two fields and no more.
    pub fn serialize_tuple_struct(self, name: &str, len: usize, items: &Vec<Value>) -> (r: Result<
        String,
        Error,
    >)
        requires
            forall|i: int| 0 <= i < items@.len() ==> (#[trigger] items@[i]).valid(),
            role_of(name@) == Role::Assignment || role_of(name@) == Role::LineComment
                ==> items@.len() <= 2,
            4 * (1 + size_of_items(items@, 0)) <= usize::MAX,
        ensures
            produces(r, finished(emit_tuple_struct(name@, len, items@, Writer::empty()))),
    {
        proof {
            if items@.len() > 0 {
                lemma_size_of_items(items@, 0, 0);
            }
        }
        let mut write = WriteStarlark::new();
        let mut call = match write.serialize_tuple_struct(name, len) {
            Ok(call) => call,
            Err(e) => {
                return Err(e);
            },
        };
        match call.serialize_fields(&mut write, items) {
            Ok(()) => {},
            Err(e) => {
                return Err(e);
            },
        }
        let done = call.end(&mut write);
        Self::finish(write, done)
    }

    /// Refuses a variant with positional fields.
    pub fn serialize_tuple_variant(
        self,
        name: &str,
        variant_index: u32,
        variant: &str,
        len: usize,
    ) -> (r: Result<String, Error>)
        ensures
            produces(r, Err(Failure::UnsupportedEnum(name@, variant@))),
    {
        let mut write = WriteStarlark::new();
        let done = write.serialize_tuple_variant(name, variant_index, variant, len);
        Self::finish(write, done)
    }

    /// Encodes a dict with the given entries.
    pub fn serialize_map(self, len: Option<usize>, entries: &Vec<(Value, Value)>) -> (r: Result<
        String,
        Error,
    >)
        requires
            forall|i: int|
                0 <= i < entries@.len() ==> (#[trigger] entries@[i]).0.valid()
                    && entries@[i].1.valid(),
            4 * (1 + size_of_entries(entries@, 0)) <= usize::MAX,
        ensures
            produces(r, finished(emit_map(len, entries@, Writer::empty()))),
    {
        proof {
            if entries@.len() > 0 {
                lemma_size_of_entries(entries@, 0, 0);
            }
        }
        let mut write = WriteStarlark::new();
        let mut map = match write.serialize_map(len) {
            Ok(map) => map,
            Err(e) => {
                return Err(e);
            },
        };
        match map.serialize_entries(&mut write, entries) {
            Ok(()) => {},
            Err(e) => {
                return Err(e);
            },
        }
        let done = map.end(&mut write);
        Self::finish(write, done)
    }

    /// Encodes a container with the given keyed fields under `name`.
    pub fn serialize_struct(self, name: &str, len: usize, fields: &Vec<(String, Value)>) -> (r:
        Result<String, Error>)
        requires
            forall|i: int| 0 <= i < fields@.len() ==> (#[trigger] fields@[i]).1.valid(),
            4 * (1 + size_of_fields(fields@, 0)) <= usize::MAX,
        ensures
            produces(r, finished(emit_struct(name@, len, fields@, Writer::empty()))),
    {
        proof {
            if fields@.len() > 0 {
                lemma_size_of_fields(fields@, 0, 0);
            }
        }
        let mut write = WriteStarlark::new();
        let mut call = match write.serialize_struct(name, len) {
            Ok(call) => call,
            Err(e) => {
                return Err(e);
            },
        };
        match call.serialize_fields(&mut write, fields) {
            Ok(()) => {},
            Err(e) => {
                return Err(e);
            },
        }
        let done = call.end(&mut write);
        Self::finish(write, done)
    }

    /// Refuses a variant with named fields.
    pub fn serialize_struct_variant(
        self,
        name: &str,
        variant_index: u32,
        variant: &str,
        len: usize,
    ) -> (r: Result<String, Error>)
        ensures
            produces(r, Err(Failure::UnsupportedEnum(name@, variant@))),
    {
        let mut write = WriteStarlark::new();
        let done = write.serialize_struct_variant(name, variant_index, variant, len);
        Self::finish(write, done)
    }
}

} // verus!
