//! How a function call describes itself to the encoder: whatever its
//! argument bundle is, it comes out as a call.

use crate::error::Error;
use crate::ser::{
    agrees, call_open, struct_open, texts_of, Role, WriteStarlark, WriteStruct, WriteTupleStruct,
};
use crate::value::{
    call_len, call_texts, emit_call, emit_function_call, lemma_size_of_entries,
    lemma_size_of_fields, lemma_size_of_items, struct_texts, unsupported_argument, Value,
};
use crate::FunctionCall;
use vstd::prelude::*;

verus! {

impl FunctionCall {
    /// Encodes this call into `write`: the argument bundle as a call under
    /// the name of the function.
    pub fn serialize(&self, write: &mut WriteStarlark) -> (r: Result<(), Error>)
        requires
            self.args.valid(),
            old(write)@.room(1 + self.args.size()),
        ensures
            agrees(r, final(write)@, emit_function_call(*self, old(write)@)),
            r is Ok ==> final(write)@.depth == old(write)@.depth,
        decreases self.args, 3nat,
    {
        let mut names: Vec<&str> = Vec::new();
        names.push(self.function.as_str());
        assert(texts_of(names@) =~= seq![self.function@]);
        FunctionCallSerializer { names }.serialize(&self.args, write)
    }
}

/// The encoder of an argument bundle as a call: it holds the names of the
/// calls around the bundle, outermost first.
pub struct FunctionCallSerializer<'a> {
    names: Vec<&'a str>,
}

impl<'a> FunctionCallSerializer<'a> {
    /// The names of the calls around the bundle, outermost first.
    pub closed spec fn names(&self) -> Seq<Seq<char>> {
        texts_of(self.names@)
    }

    /// The error for a value that is no argument bundle.
    pub fn unsupported() -> (e: Error)
        ensures
            e@ == unsupported_argument(),
    {
        Error::custom("unsupported function call argument type")
    }

    /// Opens the call for a bundle with positional fields and writes the
    /// names.
    fn positional(&self, write: &mut WriteStarlark, len: usize) -> (r: Result<
        WriteTupleStruct,
        Error,
    >)
        requires
            old(write)@.room(1),
            self.names().len() < usize::MAX,
        ensures
            r matches Ok(call) && (call@, final(write)@) == call_texts(
                self.names(),
                0,
                call_open(old(write)@, "("@, len).0,
                call_open(old(write)@, "("@, len).1,
            ) && call@.sound(final(write)@) && call@.base(final(write)@) == old(write)@.depth
                && call@.count <= self.names().len() && call@.role != Role::Assignment
                && call@.role != Role::LineComment,
    {
        proof {
            reveal_strlit("(");
            reveal_strlit("=");
            reveal_strlit("#");
            assert("("@[0] != "="@[0]);
            assert("("@[0] != "#"@[0]);
        }
        let mut delegate = write.serialize_tuple_struct("(", len)?;
        delegate.serialize_texts(write, &self.names);
        Ok(delegate)
    }

    /// Opens the call for a list.
    pub fn serialize_seq(&self, write: &mut WriteStarlark, len: Option<usize>) -> (r: Result<
        WriteTupleStruct,
        Error,
    >)
        requires
            old(write)@.room(1),
            self.names().len() < usize::MAX,
        ensures
            r matches Ok(call) && (call@, final(write)@) == call_texts(
                self.names(),
                0,
                call_open(old(write)@, "("@, call_len(len)).0,
                call_open(old(write)@, "("@, call_len(len)).1,
            ) && call@.sound(final(write)@) && call@.base(final(write)@) == old(write)@.depth
                && call@.count <= self.names().len() && call@.role != Role::Assignment
                && call@.role != Role::LineComment,
    {
        let len = match len {
            Some(n) => n,
            None => 2,
        };
        self.positional(write, len)
    }

    /// Opens the call for a tuple.
    pub fn serialize_tuple(&self, write: &mut WriteStarlark, len: usize) -> (r: Result<
        WriteTupleStruct,
        Error,
    >)
        requires
            old(write)@.room(1),
            self.names().len() < usize::MAX,
        ensures
            r matches Ok(call) && (call@, final(write)@) == call_texts(
                self.names(),
                0,
                call_open(old(write)@, "("@, len).0,
                call_open(old(write)@, "("@, len).1,
            ) && call@.sound(final(write)@) && call@.base(final(write)@) == old(write)@.depth
                && call@.count <= self.names().len() && call@.role != Role::Assignment
                && call@.role != Role::LineComment,
    {
        self.positional(write, len)
    }

    /// Opens the call for a container with positional fields, whatever its
    /// own name.
    pub fn serialize_tuple_struct(&self, write: &mut WriteStarlark, len: usize) -> (r: Result<
        WriteTupleStruct,
        Error,
    >)
        requires
            old(write)@.room(1),
            self.names().len() < usize::MAX,
        ensures
            r matches Ok(call) && (call@, final(write)@) == call_texts(
                self.names(),
                0,
                call_open(old(write)@, "("@, len).0,
                call_open(old(write)@, "("@, len).1,
            ) && call@.sound(final(write)@) && call@.base(final(write)@) == old(write)@.depth
                && call@.count <= self.names().len() && call@.role != Role::Assignment
                && call@.role != Role::LineComment,
    {
        self.positional(write, len)
    }

    /// Opens the call for a bundle with keyed fields and writes the names.
    fn keyed(&self, write: &mut WriteStarlark, len: usize) -> (r: Result<WriteStruct, Error>)
        requires
            old(write)@.room(1),
            self.names().len() < usize::MAX,
        ensures
            r matches Ok(call) && (call@, final(write)@) == struct_texts(
                self.names(),
                0,
                struct_open(old(write)@, "("@, len).0,
                struct_open(old(write)@, "("@, len).1,
            ) && call@.sound(final(write)@) && call@.base(final(write)@) == old(write)@.depth
                && call@.count <= self.names().len(),
    {
        let mut delegate = write.serialize_struct("(", len)?;
        delegate.serialize_texts(write, &self.names);
        Ok(delegate)
    }

    /// Opens the call for a dict.
    pub fn serialize_map(&self, write: &mut WriteStarlark, len: Option<usize>) -> (r: Result<
        WriteStruct,
        Error,
    >)
        requires
            old(write)@.room(1),
            self.names().len() < usize::MAX,
        ensures
            r matches Ok(call) && (call@, final(write)@) == struct_texts(
                self.names(),
                0,
                struct_open(old(write)@, "("@, call_len(len)).0,
                struct_open(old(write)@, "("@, call_len(len)).1,
            ) && call@.sound(final(write)@) && call@.base(final(write)@) == old(write)@.depth
                && call@.count <= self.names().len(),
    {
        let len = match len {
            Some(n) => n,
            None => 2,
        };
        self.keyed(write, len)
    }

    /// Opens the call for a container with keyed fields, whatever its own
    /// name.
    pub fn serialize_struct(&self, write: &mut WriteStarlark, len: usize) -> (r: Result<
        WriteStruct,
        Error,
    >)
        requires
            old(write)@.room(1),
            self.names().len() < usize::MAX,
        ensures
            r matches Ok(call) && (call@, final(write)@) == struct_texts(
                self.names(),
                0,
                struct_open(old(write)@, "("@, len).0,
                struct_open(old(write)@, "("@, len).1,
            ) && call@.sound(final(write)@) && call@.base(final(write)@) == old(write)@.depth
                && call@.count <= self.names().len(),
    {
        self.keyed(write, len)
    }

    /// Encodes the argument bundle `args` into `write` as a call under the
    /// names that this encoder holds.
    pub fn serialize(self, args: &'a Value, write: &mut WriteStarlark) -> (r: Result<(), Error>)
        requires
            args.valid(),
            old(write)@.depth + 4 * (self.names().len() + args.size()) <= usize::MAX,
        ensures
            agrees(r, final(write)@, emit_call(self.names(), *args, old(write)@)),
            r is Ok ==> final(write)@.depth == old(write)@.depth,
        decreases *args, 2nat,
    {
        match args {
            Value::Sequence { len, items } => {
                proof {
                    if items@.len() > 0 {
                        lemma_size_of_items(items@, 0, 0);
                    }
                }
                let mut call = self.serialize_seq(write, *len)?;
                call.serialize_fields(write, items)?;
                call.end(write)
            },
            Value::Tuple { len, items } => {
                proof {
                    if items@.len() > 0 {
                        lemma_size_of_items(items@, 0, 0);
                    }
                }
                let mut call = self.serialize_tuple(write, *len)?;
                call.serialize_fields(write, items)?;
                call.end(write)
            },
            Value::TupleStruct { len, items, .. } => {
                proof {
                    if items@.len() > 0 {
                        lemma_size_of_items(items@, 0, 0);
                    }
                }
                let mut call = self.serialize_tuple_struct(write, *len)?;
                call.serialize_fields(write, items)?;
                call.end(write)
            },
            Value::Assignment(assignment) => {
                let mut call = self.serialize_tuple_struct(write, 0)?;
                call.serialize_text(write, assignment.identifier.as_str());
                call.serialize_field(write, &assignment.value)?;
                call.end(write)
            },
            Value::LineComment(comment) => {
                let mut call = self.serialize_tuple_struct(write, 2)?;
                call.serialize_text(write, comment.comment.as_str());
                call.serialize_field(write, &comment.value)?;
                call.end(write)
            },
            Value::Mapping { len, entries } => {
                proof {
                    if entries@.len() > 0 {
                        lemma_size_of_entries(entries@, 0, 0);
                    }
                }
                let mut call = self.serialize_map(write, *len)?;
                call.serialize_pairs(write, entries)?;
                call.end(write)
            },
            Value::Struct { len, fields, .. } => {
                proof {
                    if fields@.len() > 0 {
                        lemma_size_of_fields(fields@, 0, 0);
                    }
                }
                let mut call = self.serialize_struct(write, *len)?;
                call.serialize_fields(write, fields)?;
                call.end(write)
            },
            Value::FunctionCall(inner) => {
                let ghost outer = self.names();
                let mut names = self.names;
                names.push(inner.function.as_str());
                assert(texts_of(names@) =~= outer.push(inner.function@));
                FunctionCallSerializer { names }.serialize(&inner.args, write)
            },
            _ => Err(Self::unsupported()),
        }
    }
}

} // verus!
