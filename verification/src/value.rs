//! The values that can be encoded, and what their encoding is.

use crate::error::{Error, Failure};
use crate::escape::quoted;
use crate::ser::{agrees, role_for, WriteStarlark};
use crate::ser::{
    boolean, call_bare, call_end, call_open, call_post, call_pre, call_wants_bare,
    integer, item_post, item_pre, key_post, map_end, map_open, role_of, seq_end, seq_open,
    slot_of, struct_before_value, struct_end, struct_name, struct_open, struct_pair_key,
    struct_post, tuple_end, tuple_open, CallFrame, Frame, Outcome, Role, Slot, Step, StructFrame,
    Writer,
};
use crate::text::decimal;
use crate::{Assignment, FunctionCall, LineComment};
use vstd::prelude::*;

verus! {

broadcast use vstd::string::group_string_axioms;

/// A value as it describes itself to an encoder: one of the shapes of a
/// self-describing data model, from booleans to keyed aggregates, or one of
/// the three wrappers that ask for syntax of their own.
///
/// Containers carry the length that they declare, which decides their layout
/// and need not be the number of their items.
#[allow(inconsistent_fields)]
#[derive(Debug)]
pub enum Value {
    Bool(bool),
    I8(i8),
    I16(i16),
    I32(i32),
    I64(i64),
    I128(i128),
    U8(u8),
    U16(u16),
    U32(u32),
    U64(u64),
    U128(u128),
    /// A single-precision floating point number, held as its decimal text.
    F32(String),
    /// A double-precision floating point number, held as its decimal text.
    F64(String),
    Char(char),
    Str(String),
    Bytes(Vec<u8>),
    /// The optional value that is not there.
    Absent,
    /// An optional value that is there.
    Present(Box<Value>),
    Unit,
    /// A struct without fields, by its name.
    UnitStruct(String),
    /// A variant without payload.
    UnitVariant { name: String, variant_index: u32, variant: String },
    /// A struct around one value.
    NewtypeStruct { name: String, value: Box<Value> },
    /// A variant around one value.
    NewtypeVariant { name: String, variant_index: u32, variant: String, value: Box<Value> },
    /// A list.
    Sequence { len: Option<usize>, items: Vec<Value> },
    /// A tuple.
    Tuple { len: usize, items: Vec<Value> },
    /// A struct with positional fields.
    TupleStruct { name: String, len: usize, items: Vec<Value> },
    /// A variant with positional fields.
    TupleVariant { name: String, variant_index: u32, variant: String, len: usize, items: Vec<Value> },
    /// A collection of keys and their values.
    Mapping { len: Option<usize>, entries: Vec<(Value, Value)> },
    /// A struct with named fields.
    Struct { name: String, len: usize, fields: Vec<(String, Value)> },
    /// A variant with named fields.
    StructVariant {
        name: String,
        variant_index: u32,
        variant: String,
        len: usize,
        fields: Vec<(String, Value)>,
    },
    /// A value bound to an identifier.
    Assignment(Box<Assignment>),
    /// An argument bundle under the name of a function.
    FunctionCall(Box<FunctionCall>),
    /// A value with a comment at the end of its line.
    LineComment(Box<LineComment>),
}

/// The length that a call assumes for an argument bundle that declares none.
pub open spec fn call_len(len: Option<usize>) -> usize {
    match len {
        Some(n) => n,
        None => 2,
    }
}

/// The message of the failure for an argument bundle that a call cannot take.
pub open spec fn unsupported_argument() -> Failure {
    Failure::Message("unsupported function call argument type"@)
}

/// Whether the text of a comment is fit for the end of a line: it does not
/// start with a hash sign and holds no line feed.
pub open spec fn comment_fits(comment: Seq<char>) -> bool {
    &&& (comment.len() > 0 ==> comment[0] != '#')
    &&& forall|i: int| 0 <= i < comment.len() ==> comment[i] != '\n'
}

impl Value {
    /// The number of values in this value, itself included.
    pub open spec fn size(self) -> nat
        decreases self, 0nat,
    {
        match self {
            Value::Present(value) => 1 + value.size(),
            Value::NewtypeStruct { value, .. } => 1 + value.size(),
            Value::NewtypeVariant { value, .. } => 1 + value.size(),
            Value::Sequence { items, .. } => 1 + size_of_items(items@, 0),
            Value::Tuple { items, .. } => 1 + size_of_items(items@, 0),
            Value::TupleStruct { items, .. } => 1 + size_of_items(items@, 0),
            Value::TupleVariant { items, .. } => 1 + size_of_items(items@, 0),
            Value::Mapping { entries, .. } => 1 + size_of_entries(entries@, 0),
            Value::Struct { fields, .. } => 1 + size_of_fields(fields@, 0),
            Value::StructVariant { fields, .. } => 1 + size_of_fields(fields@, 0),
            Value::Assignment(assignment) => 1 + assignment.value.size(),
            Value::FunctionCall(call) => 1 + call.args.size(),
            Value::LineComment(comment) => 1 + comment.value.size(),
            _ => 1,
        }
    }

    /// Whether this value keeps to the rules of the wrappers, all the way
    /// down: an assignment and a commented value have two fields and no more,
    /// also where they are spelled as a struct with a reserved name, and the
    /// text of a comment is fit for the end of a line.
    pub open spec fn valid(self) -> bool
        decreases self,
    {
        match self {
            Value::Present(value) => value.valid(),
            Value::NewtypeStruct { value, .. } => value.valid(),
            Value::NewtypeVariant { value, .. } => value.valid(),
            Value::Sequence { items, .. } => forall|i: int|
                0 <= i < items@.len() ==> (#[trigger] items@[i]).valid(),
            Value::Tuple { items, .. } => forall|i: int|
                0 <= i < items@.len() ==> (#[trigger] items@[i]).valid(),
            Value::TupleStruct { name, items, .. } => {
                &&& forall|i: int| 0 <= i < items@.len() ==> (#[trigger] items@[i]).valid()
                &&& (role_of(name@) == Role::Assignment || role_of(name@) == Role::LineComment)
                    ==> items@.len() <= 2
            },
            Value::TupleVariant { items, .. } => forall|i: int|
                0 <= i < items@.len() ==> (#[trigger] items@[i]).valid(),
            Value::Mapping { entries, .. } => forall|i: int|
                0 <= i < entries@.len() ==> (#[trigger] entries@[i]).0.valid()
                    && entries@[i].1.valid(),
            Value::Struct { fields, .. } => forall|i: int|
                0 <= i < fields@.len() ==> (#[trigger] fields@[i]).1.valid(),
            Value::StructVariant { fields, .. } => forall|i: int|
                0 <= i < fields@.len() ==> (#[trigger] fields@[i]).1.valid(),
            Value::Assignment(assignment) => assignment.value.valid(),
            Value::FunctionCall(call) => call.args.valid(),
            Value::LineComment(comment) => comment_fits(comment.comment@)
                && comment.value.valid(),
            _ => true,
        }
    }
}

/// The number of values in the items from position `i` on.
pub open spec fn size_of_items(items: Seq<Value>, i: int) -> nat
    decreases items, items.len() - i,
{
    if 0 <= i < items.len() {
        items[i].size() + size_of_items(items, i + 1)
    } else {
        0
    }
}

/// The number of values in the entries from position `i` on.
pub open spec fn size_of_entries(entries: Seq<(Value, Value)>, i: int) -> nat
    decreases entries, entries.len() - i,
{
    if 0 <= i < entries.len() {
        entries[i].0.size() + entries[i].1.size() + size_of_entries(entries, i + 1)
    } else {
        0
    }
}

/// The number of values in the fields from position `i` on.
pub open spec fn size_of_fields(fields: Seq<(String, Value)>, i: int) -> nat
    decreases fields, fields.len() - i,
{
    if 0 <= i < fields.len() {
        fields[i].1.size() + size_of_fields(fields, i + 1)
    } else {
        0
    }
}

/// Whether a call can take `args` as its argument bundle: a list, a tuple, a
/// dict, a struct of either kind, an assignment or a commented value, or a
/// call around one of these.
pub open spec fn call_takes(args: Value) -> bool
    decreases args,
{
    match args {
        Value::Sequence { .. } => true,
        Value::Tuple { .. } => true,
        Value::TupleStruct { .. } => true,
        Value::Mapping { .. } => true,
        Value::Struct { .. } => true,
        Value::Assignment(_) => true,
        Value::LineComment(_) => true,
        Value::FunctionCall(call) => call_takes(call.args),
        _ => false,
    }
}

/// The bare string that `v` gives where only a string will do: a string
/// gives itself and a variant without payload gives its name. Nothing else
/// is taken.
pub open spec fn bare_string(v: Value) -> Result<Seq<char>, Failure> {
    match v {
        Value::Str(s) => Ok(s@),
        Value::UnitVariant { variant, .. } => Ok(variant@),
        Value::FunctionCall(call) => if call_takes(call.args) {
            Err(Failure::UnsupportedCall)
        } else {
            Err(unsupported_argument())
        },
        _ => Err(Failure::UnsupportedCall),
    }
}

/// What encoding `v` does to the writer `w`: the writer after it, or the
/// failure that stopped the encoding. The first failure in the order of
/// writing is the one that counts.
pub open spec fn emit(v: Value, w: Writer) -> Outcome
    decreases v, 0nat,
{
    match v {
        Value::Bool(b) => Ok(w.push(boolean(b))),
        Value::I8(n) => Ok(w.push(decimal(n as int))),
        Value::I16(n) => Ok(w.push(decimal(n as int))),
        Value::I32(n) => Ok(w.push(decimal(n as int))),
        Value::I64(n) => integer(w, n as int, Failure::UnsupportedI64(n)),
        Value::I128(n) => integer(w, n as int, Failure::UnsupportedI128(n)),
        Value::U8(n) => Ok(w.push(decimal(n as int))),
        Value::U16(n) => Ok(w.push(decimal(n as int))),
        Value::U32(n) => integer(w, n as int, Failure::UnsupportedU32(n)),
        Value::U64(n) => integer(w, n as int, Failure::UnsupportedU64(n)),
        Value::U128(n) => integer(w, n as int, Failure::UnsupportedU128(n)),
        Value::F32(text) => Err(Failure::UnsupportedF32(text@)),
        Value::F64(text) => Err(Failure::UnsupportedF64(text@)),
        Value::Char(c) => Err(Failure::UnsupportedChar(c)),
        Value::Str(s) => Ok(w.push(quoted(s@))),
        Value::Bytes(_) => Err(Failure::UnsupportedBytes),
        Value::Absent => Ok(w.push("None"@)),
        Value::Present(value) => emit(*value, w),
        Value::Unit => Err(Failure::UnsupportedUnit),
        Value::UnitStruct(name) => Ok(w.push(name@)),
        Value::UnitVariant { variant, .. } => Ok(w.push(quoted(variant@))),
        Value::NewtypeStruct { name, value } => emit_newtype_struct(name@, *value, w),
        Value::NewtypeVariant { name, variant, .. } => Err(
            Failure::UnsupportedEnum(name@, variant@),
        ),
        Value::Sequence { len, items } => emit_seq(len, items@, w),
        Value::Tuple { len, items } => emit_tuple(len, items@, w),
        Value::TupleStruct { name, len, items } => emit_tuple_struct(name@, len, items@, w),
        Value::TupleVariant { name, variant, .. } => Err(
            Failure::UnsupportedEnum(name@, variant@),
        ),
        Value::Mapping { len, entries } => emit_map(len, entries@, w),
        Value::Struct { name, len, fields } => emit_struct(name@, len, fields@, w),
        Value::StructVariant { name, variant, .. } => Err(
            Failure::UnsupportedEnum(name@, variant@),
        ),
        Value::Assignment(assignment) => emit_assignment(*assignment, w),
        Value::FunctionCall(call) => emit_function_call(*call, w),
        Value::LineComment(comment) => emit_line_comment(*comment, w),
    }
}

/// What encoding a struct around one value does to the writer: a call of
/// its name on the value.
pub open spec fn emit_newtype_struct(name: Seq<char>, value: Value, w: Writer) -> Outcome
    decreases value, 2nat,
{
    let (f, w0) = call_open(w, name, 1);
    match call_field(f, w0, value) {
        Ok((f1, w1)) => Ok(call_end(f1, w1)),
        Err(e) => Err(e),
    }
}

/// What encoding a list does to the writer: an opening bracket, the
/// elements, a closing bracket.
pub open spec fn emit_seq(len: Option<usize>, items: Seq<Value>, w: Writer) -> Outcome
    decreases items, items.len() + 1,
{
    let (f, w0) = seq_open(w, len);
    match elements(items, 0, f, w0) {
        Ok((f1, w1)) => Ok(seq_end(f1, w1)),
        Err(e) => Err(e),
    }
}

/// What encoding a tuple does to the writer: an opening parenthesis, the
/// elements, a closing parenthesis.
pub open spec fn emit_tuple(len: usize, items: Seq<Value>, w: Writer) -> Outcome
    decreases items, items.len() + 1,
{
    let (f, w0) = tuple_open(w, len);
    match elements(items, 0, f, w0) {
        Ok((f1, w1)) => Ok(tuple_end(f1, w1)),
        Err(e) => Err(e),
    }
}

/// What encoding a container with positional fields does to the writer,
/// by the role that its name asks for.
pub open spec fn emit_tuple_struct(name: Seq<char>, len: usize, items: Seq<Value>, w: Writer)
    -> Outcome
    decreases items, items.len() + 1,
{
    let (f, w0) = call_open(w, name, len);
    match call_fields(items, 0, f, w0) {
        Ok((f1, w1)) => Ok(call_end(f1, w1)),
        Err(e) => Err(e),
    }
}

/// What encoding a dict does to the writer: an opening brace, the entries,
/// a closing brace.
pub open spec fn emit_map(len: Option<usize>, entries: Seq<(Value, Value)>, w: Writer) -> Outcome
    decreases entries, entries.len() + 1,
{
    let (f, w0) = map_open(w, len);
    match map_entries(entries, 0, f, w0) {
        Ok((f1, w1)) => Ok(map_end(f1, w1)),
        Err(e) => Err(e),
    }
}

/// What encoding a container with keyed fields does to the writer: a call
/// of its name with its fields as arguments.
pub open spec fn emit_struct(
    name: Seq<char>,
    len: usize,
    fields: Seq<(String, Value)>,
    w: Writer,
) -> Outcome
    decreases fields, fields.len() + 1,
{
    let (f, w0) = struct_open(w, name, len);
    match struct_fields(fields, 0, f, w0) {
        Ok((f1, w1)) => Ok(struct_end(f1, w1)),
        Err(e) => Err(e),
    }
}

/// What encoding an assignment does to the writer: a container with
/// positional fields under the reserved name `=`, with the identifier as its
/// first field and the value as its second.
pub open spec fn emit_assignment(assignment: Assignment, w: Writer) -> Outcome
    decreases assignment.value, 2nat,
{
    let (f, w0) = call_open(w, "="@, 0);
    let (f1, w1) = call_text(f, w0, assignment.identifier@);
    match call_field(f1, w1, assignment.value) {
        Ok((f2, w2)) => Ok(call_end(f2, w2)),
        Err(e) => Err(e),
    }
}

/// What encoding a commented value does to the writer: a container with
/// positional fields under the reserved name `#`, with the comment as its
/// first field and the value as its second.
pub open spec fn emit_line_comment(comment: LineComment, w: Writer) -> Outcome
    decreases comment.value, 2nat,
{
    let (f, w0) = call_open(w, "#"@, 2);
    let (f1, w1) = call_text(f, w0, comment.comment@);
    match call_field(f1, w1, comment.value) {
        Ok((f2, w2)) => Ok(call_end(f2, w2)),
        Err(e) => Err(e),
    }
}

/// What encoding a function call does to the writer: its argument bundle as
/// a call under its name.
pub open spec fn emit_function_call(call: FunctionCall, w: Writer) -> Outcome
    decreases call.args, 3nat,
{
    emit_call(seq![call.function@], call.args, w)
}

/// One element of a list or a tuple: what comes before it, the element, what
/// comes after it.
pub open spec fn element(f: Frame, w: Writer, v: Value) -> Step<Frame>
    decreases v, 1nat,
{
    let (f1, w1) = item_pre(f, w);
    match emit(v, w1) {
        Ok(w2) => Ok((f1, item_post(f1, w2))),
        Err(e) => Err(e),
    }
}

/// The elements of a list or a tuple from position `i` on.
pub open spec fn elements(items: Seq<Value>, i: int, f: Frame, w: Writer) -> Step<Frame>
    decreases items, items.len() - i,
{
    if 0 <= i < items.len() {
        match element(f, w, items[i]) {
            Ok((f1, w1)) => elements(items, i + 1, f1, w1),
            Err(e) => Err(e),
        }
    } else {
        Ok((f, w))
    }
}

/// The key of a dict entry: what comes before it, the key, a colon and a
/// space.
pub open spec fn map_key(f: Frame, w: Writer, key: Value) -> Step<Frame>
    decreases key, 1nat,
{
    let (f1, w1) = item_pre(f, w);
    match emit(key, w1) {
        Ok(w2) => Ok((f1, key_post(w2))),
        Err(e) => Err(e),
    }
}

/// The value of a dict entry, and what comes after it.
pub open spec fn map_value(f: Frame, w: Writer, value: Value) -> Step<Frame>
    decreases value, 1nat,
{
    match emit(value, w) {
        Ok(w1) => Ok((f, item_post(f, w1))),
        Err(e) => Err(e),
    }
}

/// The entries of a dict from position `i` on.
pub open spec fn map_entries(entries: Seq<(Value, Value)>, i: int, f: Frame, w: Writer) -> Step<
    Frame,
>
    decreases entries, entries.len() - i,
{
    if 0 <= i < entries.len() {
        match map_key(f, w, entries[i].0) {
            Ok((f1, w1)) => match map_value(f1, w1, entries[i].1) {
                Ok((f2, w2)) => map_entries(entries, i + 1, f2, w2),
                Err(e) => Err(e),
            },
            Err(e) => Err(e),
        }
    } else {
        Ok((f, w))
    }
}

/// A positional field that is the string `s`: taken bare where the frame
/// asks for a bare string, written as a string literal otherwise.
pub open spec fn call_text(f: CallFrame, w: Writer, s: Seq<char>) -> (CallFrame, Writer) {
    if call_wants_bare(f) {
        call_bare(f, w, s)
    } else {
        let (f1, w1) = call_pre(f, w);
        (f1, call_post(f1, w1.push(quoted(s))))
    }
}

/// The positional fields that are the strings of `texts` from position `i`
/// on.
pub open spec fn call_texts(texts: Seq<Seq<char>>, i: int, f: CallFrame, w: Writer) -> (
    CallFrame,
    Writer,
)
    decreases texts.len() - i,
{
    if 0 <= i < texts.len() {
        let (f1, w1) = call_text(f, w, texts[i]);
        call_texts(texts, i + 1, f1, w1)
    } else {
        (f, w)
    }
}

/// A positional field: taken as a bare string where the frame asks for one,
/// encoded as a value otherwise.
pub open spec fn call_field(f: CallFrame, w: Writer, v: Value) -> Step<CallFrame>
    decreases v, 1nat,
{
    if call_wants_bare(f) {
        match bare_string(v) {
            Ok(s) => Ok(call_bare(f, w, s)),
            Err(e) => Err(e),
        }
    } else {
        let (f1, w1) = call_pre(f, w);
        match emit(v, w1) {
            Ok(w2) => Ok((f1, call_post(f1, w2))),
            Err(e) => Err(e),
        }
    }
}

/// The positional fields from position `i` on.
pub open spec fn call_fields(items: Seq<Value>, i: int, f: CallFrame, w: Writer) -> Step<
    CallFrame,
>
    decreases items, items.len() - i,
{
    if 0 <= i < items.len() {
        match call_field(f, w, items[i]) {
            Ok((f1, w1)) => call_fields(items, i + 1, f1, w1),
            Err(e) => Err(e),
        }
    } else {
        Ok((f, w))
    }
}

/// A keyed field that is the string `s`.
pub open spec fn struct_text(f: StructFrame, w: Writer, key: Seq<char>, s: Seq<char>) -> (
    StructFrame,
    Writer,
) {
    match slot_of(f, key) {
        Slot::Name => struct_name(f, w, s),
        Slot::PairKey => struct_pair_key(f, w, s),
        _ => {
            let (f1, w1) = struct_before_value(f, w, key);
            (f1, struct_post(f1, w1.push(quoted(s))))
        },
    }
}

/// The keyless fields that are the strings of `texts` from position `i` on.
pub open spec fn struct_texts(texts: Seq<Seq<char>>, i: int, f: StructFrame, w: Writer) -> (
    StructFrame,
    Writer,
)
    decreases texts.len() - i,
{
    if 0 <= i < texts.len() {
        let (f1, w1) = struct_text(f, w, Seq::empty(), texts[i]);
        struct_texts(texts, i + 1, f1, w1)
    } else {
        (f, w)
    }
}

/// A keyed field: by the kind of its slot, a bare string or a value.
pub open spec fn struct_field(f: StructFrame, w: Writer, key: Seq<char>, v: Value) -> Step<
    StructFrame,
>
    decreases v, 1nat,
{
    match slot_of(f, key) {
        Slot::Name => match bare_string(v) {
            Ok(s) => Ok(struct_name(f, w, s)),
            Err(e) => Err(e),
        },
        Slot::PairKey => match bare_string(v) {
            Ok(s) => Ok(struct_pair_key(f, w, s)),
            Err(e) => Err(e),
        },
        _ => {
            let (f1, w1) = struct_before_value(f, w, key);
            match emit(v, w1) {
                Ok(w2) => Ok((f1, struct_post(f1, w2))),
                Err(e) => Err(e),
            }
        },
    }
}

/// The keyed fields from position `i` on.
pub open spec fn struct_fields(fields: Seq<(String, Value)>, i: int, f: StructFrame, w: Writer)
    -> Step<StructFrame>
    decreases fields, fields.len() - i,
{
    if 0 <= i < fields.len() {
        match struct_field(f, w, fields[i].0@, fields[i].1) {
            Ok((f1, w1)) => struct_fields(fields, i + 1, f1, w1),
            Err(e) => Err(e),
        }
    } else {
        Ok((f, w))
    }
}

/// The entries of a dict from position `i` on, as flattened pairs of a call:
/// each key under `*key`, each value under `*value`.
pub open spec fn struct_pairs(entries: Seq<(Value, Value)>, i: int, f: StructFrame, w: Writer)
    -> Step<StructFrame>
    decreases entries, entries.len() - i,
{
    if 0 <= i < entries.len() {
        match struct_field(f, w, "*key"@, entries[i].0) {
            Ok((f1, w1)) => match struct_field(f1, w1, "*value"@, entries[i].1) {
                Ok((f2, w2)) => struct_pairs(entries, i + 1, f2, w2),
                Err(e) => Err(e),
            },
            Err(e) => Err(e),
        }
    } else {
        Ok((f, w))
    }
}

/// What encoding the argument bundle `args` as a call does to the writer,
/// when `names` are the names of the calls around it, outermost first.
///
/// A bundle with positional fields becomes a renamed container with
/// positional fields: the names come first, then the fields (an assignment
/// gives its identifier and its value, a commented value its comment and its
/// value). A bundle with keyed fields becomes a renamed container with keyed
/// fields: the names come first, without keys, then the fields; the entries
/// of a dict come as flattened pairs. A call around a call adds its name.
/// Anything else is no argument bundle.
pub open spec fn emit_call(names: Seq<Seq<char>>, args: Value, w: Writer) -> Outcome
    decreases args, 2nat,
{
    match args {
        Value::Sequence { len, items } => {
            let (f, w0) = call_open(w, "("@, call_len(len));
            let (f1, w1) = call_texts(names, 0, f, w0);
            match call_fields(items@, 0, f1, w1) {
                Ok((f2, w2)) => Ok(call_end(f2, w2)),
                Err(e) => Err(e),
            }
        },
        Value::Tuple { len, items } => {
            let (f, w0) = call_open(w, "("@, len);
            let (f1, w1) = call_texts(names, 0, f, w0);
            match call_fields(items@, 0, f1, w1) {
                Ok((f2, w2)) => Ok(call_end(f2, w2)),
                Err(e) => Err(e),
            }
        },
        Value::TupleStruct { len, items, .. } => {
            let (f, w0) = call_open(w, "("@, len);
            let (f1, w1) = call_texts(names, 0, f, w0);
            match call_fields(items@, 0, f1, w1) {
                Ok((f2, w2)) => Ok(call_end(f2, w2)),
                Err(e) => Err(e),
            }
        },
        Value::Assignment(assignment) => {
            let (f, w0) = call_open(w, "("@, 0);
            let (f1, w1) = call_texts(names, 0, f, w0);
            let (f2, w2) = call_text(f1, w1, assignment.identifier@);
            match call_field(f2, w2, assignment.value) {
                Ok((f3, w3)) => Ok(call_end(f3, w3)),
                Err(e) => Err(e),
            }
        },
        Value::LineComment(comment) => {
            let (f, w0) = call_open(w, "("@, 2);
            let (f1, w1) = call_texts(names, 0, f, w0);
            let (f2, w2) = call_text(f1, w1, comment.comment@);
            match call_field(f2, w2, comment.value) {
                Ok((f3, w3)) => Ok(call_end(f3, w3)),
                Err(e) => Err(e),
            }
        },
        Value::Mapping { len, entries } => {
            let (f, w0) = struct_open(w, "("@, call_len(len));
            let (f1, w1) = struct_texts(names, 0, f, w0);
            match struct_pairs(entries@, 0, f1, w1) {
                Ok((f2, w2)) => Ok(struct_end(f2, w2)),
                Err(e) => Err(e),
            }
        },
        Value::Struct { len, fields, .. } => {
            let (f, w0) = struct_open(w, "("@, len);
            let (f1, w1) = struct_texts(names, 0, f, w0);
            match struct_fields(fields@, 0, f1, w1) {
                Ok((f2, w2)) => Ok(struct_end(f2, w2)),
                Err(e) => Err(e),
            }
        },
        Value::FunctionCall(call) => emit_call(names.push(call.function@), call.args, w),
        _ => Err(unsupported_argument()),
    }
}

/// The text that an encoding gives which went as `outcome` says: what the
/// writer holds after the line break that ends the text, or the failure.
pub open spec fn finished(outcome: Outcome) -> Result<Seq<char>, Failure> {
    match outcome {
        Ok(w) => Ok(w.finish()),
        Err(e) => Err(e),
    }
}

/// The text that encoding `v` on its own gives, with the line break that
/// ends it, or the failure that stopped the encoding.
pub open spec fn encode(v: Value) -> Result<Seq<char>, Failure> {
    finished(emit(v, Writer::empty()))
}

/// Every value counts for at least one.
pub proof fn lemma_size_positive(v: Value)
    ensures
        v.size() >= 1,
{
}

/// The items from a position on weigh at least as much as any one of them,
/// and at least one each.
pub proof fn lemma_size_of_items(items: Seq<Value>, from: int, i: int)
    requires
        0 <= from <= i < items.len(),
    ensures
        items[i].size() <= size_of_items(items, from),
        size_of_items(items, from) >= items.len() - from,
    decreases items.len() - from,
{
    lemma_size_positive(items[from]);
    if from + 1 < items.len() {
        lemma_size_of_items(items, from + 1, if i == from { from + 1 } else { i });
    }
}

/// The entries from a position on weigh at least as much as any one of them,
/// and at least two each.
pub proof fn lemma_size_of_entries(entries: Seq<(Value, Value)>, from: int, i: int)
    requires
        0 <= from <= i < entries.len(),
    ensures
        entries[i].0.size() + entries[i].1.size() <= size_of_entries(entries, from),
        size_of_entries(entries, from) >= 2 * (entries.len() - from),
    decreases entries.len() - from,
{
    lemma_size_positive(entries[from].0);
    lemma_size_positive(entries[from].1);
    if from + 1 < entries.len() {
        lemma_size_of_entries(entries, from + 1, if i == from { from + 1 } else { i });
    }
}

/// The fields from a position on weigh at least as much as any one of them,
/// and at least one each.
pub proof fn lemma_size_of_fields(fields: Seq<(String, Value)>, from: int, i: int)
    requires
        0 <= from <= i < fields.len(),
    ensures
        fields[i].1.size() <= size_of_fields(fields, from),
        size_of_fields(fields, from) >= fields.len() - from,
    decreases fields.len() - from,
{
    lemma_size_positive(fields[from].1);
    if from + 1 < fields.len() {
        lemma_size_of_fields(fields, from + 1, if i == from { from + 1 } else { i });
    }
}

impl Value {
    /// Encodes this value into `write`.
    ///
    /// The value asks the writer for the encoding of its shape: a scalar is
    /// written at once, a container is opened, fed its items in their order
    /// and closed, a wrapper spells itself as the container with the
    /// reserved name that stands for it. The first failure ends the
    /// encoding. On success the indentation is back where it was.
    pub fn serialize(&self, write: &mut WriteStarlark) -> (r: Result<(), Error>)
        requires
            self.valid(),
            old(write)@.room(self.size()),
        ensures
            agrees(r, final(write)@, emit(*self, old(write)@)),
            r is Ok ==> final(write)@.depth == old(write)@.depth,
        decreases *self, 0nat,
    {
        match self {
            Value::Bool(v) => write.serialize_bool(*v),
            Value::I8(v) => write.serialize_i8(*v),
            Value::I16(v) => write.serialize_i16(*v),
            Value::I32(v) => write.serialize_i32(*v),
            Value::I64(v) => write.serialize_i64(*v),
            Value::I128(v) => write.serialize_i128(*v),
            Value::U8(v) => write.serialize_u8(*v),
            Value::U16(v) => write.serialize_u16(*v),
            Value::U32(v) => write.serialize_u32(*v),
            Value::U64(v) => write.serialize_u64(*v),
            Value::U128(v) => write.serialize_u128(*v),
            Value::F32(text) => write.serialize_f32(text.as_str()),
            Value::F64(text) => write.serialize_f64(text.as_str()),
            Value::Char(c) => write.serialize_char(*c),
            Value::Str(s) => write.serialize_str(s.as_str()),
            Value::Bytes(bytes) => write.serialize_bytes(bytes.as_slice()),
            Value::Absent => write.serialize_none(),
            Value::Present(value) => write.serialize_some(value),
            Value::Unit => write.serialize_unit(),
            Value::UnitStruct(name) => write.serialize_unit_struct(name.as_str()),
            Value::UnitVariant { name, variant_index, variant } => write.serialize_unit_variant(
                name.as_str(),
                *variant_index,
                variant.as_str(),
            ),
            Value::NewtypeStruct { name, value } => write.serialize_newtype_struct(
                name.as_str(),
                value,
            ),
            Value::NewtypeVariant {
                name,
                variant_index,
                variant,
                ..
            } => write.serialize_newtype_variant(name.as_str(), *variant_index, variant.as_str()),
            Value::Sequence { len, items } => {
                proof {
                    assert(emit(*self, old(write)@) == emit_seq(*len, items@, old(write)@));
                    if items@.len() > 0 {
                        lemma_size_of_items(items@, 0, 0);
                    }
                }
                let mut seq = write.serialize_seq(*len)?;
                seq.serialize_elements(write, items)?;
                seq.end(write)
            },
            Value::Tuple { len, items } => {
                proof {
                    assert(emit(*self, old(write)@) == emit_tuple(*len, items@, old(write)@));
                    if items@.len() > 0 {
                        lemma_size_of_items(items@, 0, 0);
                    }
                }
                let mut tuple = write.serialize_tuple(*len)?;
                tuple.serialize_elements(write, items)?;
                tuple.end(write)
            },
            Value::TupleStruct { name, len, items } => {
                proof {
                    assert(emit(*self, old(write)@) == emit_tuple_struct(name@, *len, items@, old(write)@));
                    if items@.len() > 0 {
                        lemma_size_of_items(items@, 0, 0);
                    }
                }
                let mut call = write.serialize_tuple_struct(name.as_str(), *len)?;
                call.serialize_fields(write, items)?;
                call.end(write)
            },
            Value::TupleVariant {
                name,
                variant_index,
                variant,
                len,
                ..
            } => write.serialize_tuple_variant(
                name.as_str(),
                *variant_index,
                variant.as_str(),
                *len,
            ),
            Value::Mapping { len, entries } => {
                proof {
                    assert(emit(*self, old(write)@) == emit_map(*len, entries@, old(write)@));
                    if entries@.len() > 0 {
                        lemma_size_of_entries(entries@, 0, 0);
                    }
                }
                let mut map = write.serialize_map(*len)?;
                map.serialize_entries(write, entries)?;
                map.end(write)
            },
            Value::Struct { name, len, fields } => {
                proof {
                    assert(emit(*self, old(write)@) == emit_struct(name@, *len, fields@, old(write)@));
                    if fields@.len() > 0 {
                        lemma_size_of_fields(fields@, 0, 0);
                    }
                }
                let mut call = write.serialize_struct(name.as_str(), *len)?;
                call.serialize_fields(write, fields)?;
                call.end(write)
            },
            Value::StructVariant {
                name,
                variant_index,
                variant,
                len,
                ..
            } => write.serialize_struct_variant(
                name.as_str(),
                *variant_index,
                variant.as_str(),
                *len,
            ),
            Value::Assignment(assignment) => assignment.serialize(write),
            Value::FunctionCall(call) => call.serialize(write),
            Value::LineComment(comment) => comment.serialize(write),
        }
    }
}

/// Whether the text of a comment is fit for the end of a line.
pub fn comment_is_fit(comment: &str) -> (fit: bool)
    ensures
        fit == comment_fits(comment@),
{
    let ghost text = comment@;
    let mut chars = comment.chars();
    let mut at_start = true;
    let ghost mut i: int = 0;
    loop
        invariant
            0 <= i <= text.len(),
            text == comment@,
            at_start == (i == 0),
            vstd::std_specs::iter::IteratorSpec::remaining(&chars) == text.subrange(
                i,
                text.len() as int,
            ),
            i > 0 ==> text[0] != '#',
            forall|j: int| 0 <= j < i ==> text[j] != '\n',
        decreases text.len() - i,
    {
        match chars.next() {
            None => {
                return true;
            },
            Some(c) => {
                assert(c == text[i]);
                if c == '\n' || (c == '#' && at_start) {
                    return false;
                }
                at_start = false;
                proof {
                    assert(text.subrange(i, text.len() as int).drop_first() =~= text.subrange(
                        i + 1,
                        text.len() as int,
                    ));
                    i = i + 1;
                }
            },
        }
    }
}

impl Value {
    /// Takes the size of this value off `budget`: what is left of the budget
    /// when the value keeps to the rules of the wrappers and the budget
    /// covers its size, nothing otherwise.
    pub fn weigh(&self, budget: usize) -> (rest: Option<usize>)
        ensures
            match rest {
                Some(n) => self.valid() && self.size() + n == budget,
                None => !self.valid() || self.size() > budget,
            },
        decreases *self, 0nat,
    {
        if budget == 0 {
            return None;
        }
        let budget = budget - 1;
        match self {
            Value::Present(value) => value.weigh(budget),
            Value::NewtypeStruct { value, .. } => value.weigh(budget),
            Value::NewtypeVariant { value, .. } => value.weigh(budget),
            Value::Sequence { items, .. } => weigh_items(items, budget),
            Value::Tuple { items, .. } => weigh_items(items, budget),
            Value::TupleStruct { name, items, .. } => {
                let role = role_for(name.as_str());
                if (role == Role::Assignment || role == Role::LineComment) && items.len() > 2 {
                    None
                } else {
                    weigh_items(items, budget)
                }
            },
            Value::TupleVariant { items, .. } => weigh_items(items, budget),
            Value::Mapping { entries, .. } => weigh_entries(entries, budget),
            Value::Struct { fields, .. } => weigh_fields(fields, budget),
            Value::StructVariant { fields, .. } => weigh_fields(fields, budget),
            Value::Assignment(assignment) => assignment.value.weigh(budget),
            Value::FunctionCall(call) => call.args.weigh(budget),
            Value::LineComment(comment) => {
                if comment_is_fit(comment.comment.as_str()) {
                    comment.value.weigh(budget)
                } else {
                    None
                }
            },
            _ => Some(budget),
        }
    }

    /// Whether this value can be encoded from a writer that holds nothing:
    /// it keeps to the rules of the wrappers, and four columns for each of
    /// its values is within the range of `usize`.
    pub fn encodable(&self) -> (ok: bool)
        ensures
            ok == (self.valid() && 4 * self.size() <= usize::MAX),
    {
        self.weigh(usize::MAX / 4).is_some()
    }
}

/// Takes the sizes of the items off `budget`.
fn weigh_items(items: &Vec<Value>, budget: usize) -> (rest: Option<usize>)
    ensures
        match rest {
            Some(n) => (forall|i: int| 0 <= i < items@.len() ==> (#[trigger] items@[i]).valid())
                && size_of_items(items@, 0) + n == budget,
            None => !(forall|i: int| 0 <= i < items@.len() ==> (#[trigger] items@[i]).valid())
                || size_of_items(items@, 0) > budget,
        },
    decreases *items, 0nat,
{
    let mut rest = budget;
    let mut i: usize = 0;
    while i < items.len()
        invariant
            i <= items.len(),
            rest <= budget,
            forall|j: int| 0 <= j < i ==> (#[trigger] items@[j]).valid(),
            size_of_items(items@, 0) == (budget - rest) + size_of_items(items@, i as int),
        decreases items.len() - i,
    {
        match items[i].weigh(rest) {
            Some(n) => {
                rest = n;
            },
            None => {
                return None;
            },
        }
        i += 1;
    }
    Some(rest)
}

/// Takes the sizes of the keys and values of the entries off `budget`.
fn weigh_entries(entries: &Vec<(Value, Value)>, budget: usize) -> (rest: Option<usize>)
    ensures
        match rest {
            Some(n) => (forall|i: int|
                0 <= i < entries@.len() ==> (#[trigger] entries@[i]).0.valid()
                    && entries@[i].1.valid()) && size_of_entries(entries@, 0) + n == budget,
            None => !(forall|i: int|
                0 <= i < entries@.len() ==> (#[trigger] entries@[i]).0.valid()
                    && entries@[i].1.valid()) || size_of_entries(entries@, 0) > budget,
        },
    decreases *entries, 0nat,
{
    let mut rest = budget;
    let mut i: usize = 0;
    while i < entries.len()
        invariant
            i <= entries.len(),
            rest <= budget,
            forall|j: int|
                0 <= j < i ==> (#[trigger] entries@[j]).0.valid() && entries@[j].1.valid(),
            size_of_entries(entries@, 0) == (budget - rest) + size_of_entries(entries@, i as int),
        decreases entries.len() - i,
    {
        let entry = &entries[i];
        match entry.0.weigh(rest) {
            Some(n) => {
                rest = n;
            },
            None => {
                return None;
            },
        }
        match entry.1.weigh(rest) {
            Some(n) => {
                rest = n;
            },
            None => {
                return None;
            },
        }
        i += 1;
    }
    Some(rest)
}

/// Takes the sizes of the values of the fields off `budget`.
fn weigh_fields(fields: &Vec<(String, Value)>, budget: usize) -> (rest: Option<usize>)
    ensures
        match rest {
            Some(n) => (forall|i: int|
                0 <= i < fields@.len() ==> (#[trigger] fields@[i]).1.valid()) && size_of_fields(
                fields@,
                0,
            ) + n == budget,
            None => !(forall|i: int|
                0 <= i < fields@.len() ==> (#[trigger] fields@[i]).1.valid()) || size_of_fields(
                fields@,
                0,
            ) > budget,
        },
    decreases *fields, 0nat,
{
    let mut rest = budget;
    let mut i: usize = 0;
    while i < fields.len()
        invariant
            i <= fields.len(),
            rest <= budget,
            forall|j: int| 0 <= j < i ==> (#[trigger] fields@[j]).1.valid(),
            size_of_fields(fields@, 0) == (budget - rest) + size_of_fields(fields@, i as int),
        decreases fields.len() - i,
    {
        match fields[i].1.weigh(rest) {
            Some(n) => {
                rest = n;
            },
            None => {
                return None;
            },
        }
        i += 1;
    }
    Some(rest)
}

} // verus!
