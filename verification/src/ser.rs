//! The writer that accumulates the output, and the encoders of primitive
//! values.

use crate::error::{
    unsupported_bytes, unsupported_char, unsupported_enum, unsupported_f32, unsupported_f64,
    unsupported_i128, unsupported_i64, unsupported_u128, unsupported_u32, unsupported_u64,
    unsupported_unit, Error, Failure,
};
use crate::escape::{push_quoted, quoted};
use crate::text::{decimal, push_decimal, push_spaces, same_text, spaces};
use crate::value::{
    bare_string, call_field, call_fields, call_takes, call_text, call_texts, element, elements,
    emit, emit_newtype_struct, lemma_size_of_entries, lemma_size_of_fields, lemma_size_of_items, map_entries, map_key,
    map_value, size_of_entries, size_of_fields, size_of_items, struct_field, struct_fields,
    struct_pairs, struct_text, struct_texts, Value,
};
use vstd::prelude::*;

verus! {

/// The state of a writer as a mathematical value: the text written so far,
/// the current indentation in columns, and the comment that waits for the end
/// of the line, if any.
pub ghost struct Writer {
    pub text: Seq<char>,
    pub depth: nat,
    pub pending: Option<Seq<char>>,
}

impl Writer {
    /// The writer at the start of an encoding: no text, no indentation, no
    /// comment.
    pub open spec fn empty() -> Writer {
        Writer { text: Seq::empty(), depth: 0, pending: None }
    }

    /// This writer after `s` was appended to its text.
    pub open spec fn push(self, s: Seq<char>) -> Writer {
        Writer { text: self.text + s, ..self }
    }

    /// This writer with `comment` waiting for the end of the line. A comment
    /// that waited before is replaced.
    pub open spec fn comment(self, comment: Seq<char>) -> Writer {
        Writer { pending: Some(comment), ..self }
    }

    /// The text of this writer with the waiting comment, if any, written out
    /// after two spaces, a hash sign and one more space.
    pub open spec fn flushed(self) -> Seq<char> {
        match self.pending {
            Some(comment) => self.text + "  # "@ + comment,
            None => self.text,
        }
    }

    /// This writer after a line break: the waiting comment is written out and
    /// cleared, then a line feed follows and as many spaces as the
    /// indentation has columns.
    pub open spec fn newline(self) -> Writer {
        Writer {
            text: self.flushed() + seq!['\n'] + spaces(self.depth),
            depth: self.depth,
            pending: None,
        }
    }

    /// This writer with four more columns of indentation.
    pub open spec fn indent(self) -> Writer {
        Writer { depth: self.depth + 4, ..self }
    }

    /// This writer with four columns of indentation fewer, after a line break
    /// at the new indentation.
    pub open spec fn unindent(self) -> Writer {
        Writer { depth: (self.depth - 4) as nat, ..self }.newline()
    }

    /// The finished text: what this writer holds after one last line break.
    pub open spec fn finish(self) -> Seq<char> {
        self.newline().text
    }

    /// Whether the indentation is a whole number of levels of four columns.
    pub open spec fn aligned(self) -> bool {
        self.depth % 4 == 0
    }

    /// Whether the indentation can grow by `levels` more levels of four
    /// columns without leaving the range of `usize`.
    pub open spec fn room(self, levels: nat) -> bool {
        self.depth + 4 * levels <= usize::MAX
    }
}

/// The writer starts at a whole number of levels and every step keeps it
/// there: text and comments leave the indentation alone, and it grows and
/// shrinks by whole levels. After a line break no comment waits.
pub proof fn lemma_writer_steps(w: Writer, s: Seq<char>)
    requires
        w.aligned(),
    ensures
        Writer::empty().aligned(),
        w.push(s).aligned(),
        w.comment(s).aligned(),
        w.newline().aligned(),
        w.indent().aligned(),
        w.depth >= 4 ==> w.unindent().aligned() && w.unindent().depth + 4 == w.depth,
        w.newline().pending is None,
{
}

/// A text as a line of its own: the text and a line feed.
pub open spec fn line(text: Seq<char>) -> Seq<char> {
    text + seq!['\n']
}

/// A writer that was given nothing but one text finishes as that text on a
/// line of its own.
pub proof fn lemma_line(text: Seq<char>)
    ensures
        Writer::empty().push(text).finish() == line(text),
{
    assert(Writer::empty().push(text).finish() =~= line(text));
}

/// What an encoding step leads to: the writer after it, or the failure that
/// stopped it.
pub type Outcome = Result<Writer, Failure>;

/// Whether a step that returned `r` and left the writer as `after` did what
/// `expected` says: on success the writer is exactly the expected one, on
/// failure the error is exactly the expected one (the writer then holds
/// partial output that nobody reads).
pub open spec fn agrees(r: Result<(), Error>, after: Writer, expected: Outcome) -> bool {
    match expected {
        Ok(w) => r is Ok && after == w,
        Err(f) => r matches Err(e) && e@ == f,
    }
}

/// The frame and the writer that a step leads to, or the failure that
/// stopped it.
pub type Step<F> = Result<(F, Writer), Failure>;

/// Whether a step that returned `r` and left the frame as `frame` and the
/// writer as `after` did what `expected` says.
pub open spec fn step_agrees<F>(
    r: Result<(), Error>,
    frame: F,
    after: Writer,
    expected: Step<F>,
) -> bool {
    match expected {
        Ok((f, w)) => r is Ok && frame == f && after == w,
        Err(f) => r matches Err(e) && e@ == f,
    }
}

/// Writing the integer `n` if it fits in 32 signed bits, and failing with
/// `failure` if it does not.
pub open spec fn integer(w: Writer, n: int, failure: Failure) -> Outcome {
    if i32::MIN <= n <= i32::MAX {
        Ok(w.push(decimal(n)))
    } else {
        Err(failure)
    }
}

/// The literal of a boolean.
pub open spec fn boolean(v: bool) -> Seq<char> {
    if v {
        "True"@
    } else {
        "False"@
    }
}

/// Where a container stands: whether it is laid out over several lines, and
/// how many of its items have been started.
pub ghost struct Frame {
    pub multiline: bool,
    pub count: nat,
}

impl Frame {
    /// Whether the container has moved the indentation one level in: it is
    /// laid out over several lines and an item has been started.
    pub open spec fn indented(self) -> bool {
        self.multiline && self.count > 0
    }

    /// Whether the writer is where this frame says: one level in, it has a
    /// level to go back.
    pub open spec fn sound(self, w: Writer) -> bool {
        self.indented() ==> w.depth >= 4
    }

    /// The indentation at which the container was opened.
    pub open spec fn base(self, w: Writer) -> int {
        if self.indented() {
            w.depth - 4
        } else {
            w.depth as int
        }
    }
}

/// The writer as it stands before the next item of a container. In a
/// multi-line container every item starts on a line of its own, one level in,
/// and the indentation grows before the first item. On one line, every item
/// but the first follows `separator`.
pub open spec fn before_item(w: Writer, multiline: bool, first: bool, separator: Seq<char>) -> Writer {
    if multiline {
        if first {
            w.indent().newline()
        } else {
            w.newline()
        }
    } else if first {
        w
    } else {
        w.push(separator)
    }
}

/// The writer after an item: in a multi-line container a comma follows every
/// item, the last one too.
pub open spec fn after_item(w: Writer, multiline: bool) -> Writer {
    if multiline {
        w.push(","@)
    } else {
        w
    }
}

/// The writer before the closing delimiter: a multi-line container that
/// holds at least one item closes on a line of its own, at the indentation it
/// was opened at.
pub open spec fn before_close(w: Writer, multiline: bool, any: bool) -> Writer {
    if multiline && any {
        w.unindent()
    } else {
        w
    }
}

/// Whether a list with the given length hint is laid out over several lines:
/// with more than one element, or an unknown number. The two layout hints
/// are the ends of this scale.
pub open spec fn seq_multiline(len: Option<usize>) -> bool {
    match len {
        Some(n) => n > 1,
        None => true,
    }
}

/// Whether a tuple with the given length is laid out over several lines: only
/// when the multi-line hint stands in for the length.
pub open spec fn tuple_multiline(len: usize) -> bool {
    len == usize::MAX
}

/// Whether a dict with the given length hint is laid out over several lines:
/// unless it is empty, which the one-line hint claims as well.
pub open spec fn map_multiline(len: Option<usize>) -> bool {
    match len {
        Some(n) => n > 0,
        None => true,
    }
}

/// The frame and the writer after a list was opened.
pub open spec fn seq_open(w: Writer, len: Option<usize>) -> (Frame, Writer) {
    (Frame { multiline: seq_multiline(len), count: 0 }, w.push("["@))
}

/// The frame and the writer before an element of a list or a tuple.
pub open spec fn item_pre(f: Frame, w: Writer) -> (Frame, Writer) {
    (
        Frame { count: f.count + 1, ..f },
        before_item(w, f.multiline, f.count == 0, ", "@),
    )
}

/// The writer after an element of a list or a tuple, or after a value of a
/// dict.
pub open spec fn item_post(f: Frame, w: Writer) -> Writer {
    after_item(w, f.multiline)
}

/// The writer after a list was closed.
pub open spec fn seq_end(f: Frame, w: Writer) -> Writer {
    before_close(w, f.multiline, f.count != 0).push("]"@)
}

/// The frame and the writer after a tuple was opened.
pub open spec fn tuple_open(w: Writer, len: usize) -> (Frame, Writer) {
    (Frame { multiline: tuple_multiline(len), count: 0 }, w.push("("@))
}

/// The writer after a tuple was closed. On one line, a tuple of one element
/// ends in a comma, which tells it from an expression in parentheses.
pub open spec fn tuple_end(f: Frame, w: Writer) -> Writer {
    let w1 = if f.count == 1 && !f.multiline {
        w.push(","@)
    } else {
        w
    };
    before_close(w1, f.multiline, f.count != 0).push(")"@)
}

/// The frame and the writer after a dict was opened.
pub open spec fn map_open(w: Writer, len: Option<usize>) -> (Frame, Writer) {
    (Frame { multiline: map_multiline(len), count: 0 }, w.push("{"@))
}

/// The writer after a key of a dict.
pub open spec fn key_post(w: Writer) -> Writer {
    w.push(": "@)
}

/// The writer after a dict was closed.
pub open spec fn map_end(f: Frame, w: Writer) -> Writer {
    before_close(w, f.multiline, f.count != 0).push("}"@)
}

/// What a container opened under a name stands for.
#[derive(Clone, Copy, Debug, PartialEq, Eq, Structural)]
pub enum Role {
    /// A call: the name, then the arguments in parentheses.
    Plain,
    /// An assignment: an identifier, then the value it is bound to.
    Assignment,
    /// A call whose name comes as the first field.
    Rename,
    /// A value with a comment at the end of its line: the comment, then the
    /// value.
    LineComment,
    /// Operands joined by a plus sign.
    Concat,
}

/// The role that a container name asks for: the four reserved names select
/// the four special roles, every other name is the name of a call.
pub open spec fn role_of(name: Seq<char>) -> Role {
    if name == "="@ {
        Role::Assignment
    } else if name == "("@ {
        Role::Rename
    } else if name == "+"@ {
        Role::Concat
    } else if name == "#"@ {
        Role::LineComment
    } else {
        Role::Plain
    }
}

/// Where a container with positional fields stands: its layout, its role,
/// and how many of its fields have been counted.
pub ghost struct CallFrame {
    pub multiline: bool,
    pub role: Role,
    pub count: nat,
}

impl CallFrame {
    /// Whether the container has moved the indentation one level in.
    pub open spec fn indented(self) -> bool {
        self.role != Role::Assignment && self.role != Role::LineComment && self.multiline
            && self.count > 0
    }

    /// Whether the writer is where this frame says, and the frame is one
    /// that opening and feeding a container leads to: a container that waits
    /// for its name has counted no field.
    pub open spec fn sound(self, w: Writer) -> bool {
        &&& self.indented() ==> w.depth >= 4
        &&& self.role == Role::Rename ==> self.count == 0
    }

    /// The indentation at which the container was opened.
    pub open spec fn base(self, w: Writer) -> int {
        if self.indented() {
            w.depth - 4
        } else {
            w.depth as int
        }
    }
}

/// The frame and the writer after a container with positional fields was
/// opened under `name`. Only a plain call writes its head at once.
pub open spec fn call_open(w: Writer, name: Seq<char>, len: usize) -> (CallFrame, Writer) {
    let role = role_of(name);
    (
        CallFrame { multiline: len > 1 && role != Role::Concat, role, count: 0 },
        if role == Role::Plain {
            w.push(name).push("("@)
        } else {
            w
        },
    )
}

/// Whether the next field must be a bare string: the identifier of an
/// assignment, the name of a renamed call, the text of a comment.
pub open spec fn call_wants_bare(f: CallFrame) -> bool {
    match f.role {
        Role::Assignment | Role::LineComment => f.count == 0,
        Role::Rename => true,
        Role::Plain | Role::Concat => false,
    }
}

/// Whether the frame can take one more field. An assignment and a commented
/// value have exactly two.
pub open spec fn call_has_room(f: CallFrame) -> bool {
    match f.role {
        Role::Assignment | Role::LineComment => f.count <= 1,
        _ => true,
    }
}

/// The frame and the writer after the bare string `s` was taken as a field.
/// The identifier of an assignment is written with ` = ` after it. The text
/// of a comment waits for the end of the line. The name of a renamed call
/// opens the call, unless it is `+`, which turns the container into a
/// concatenation on one line.
pub open spec fn call_bare(f: CallFrame, w: Writer, s: Seq<char>) -> (CallFrame, Writer) {
    match f.role {
        Role::Assignment => (CallFrame { count: f.count + 1, ..f }, w.push(s).push(" = "@)),
        Role::LineComment => (CallFrame { count: f.count + 1, ..f }, w.comment(s)),
        _ => if s == "+"@ {
            (CallFrame { role: Role::Concat, multiline: false, ..f }, w)
        } else {
            (CallFrame { role: Role::Plain, ..f }, w.push(s).push("("@))
        },
    }
}

/// The text between two fields on one line.
pub open spec fn call_separator(role: Role) -> Seq<char> {
    if role == Role::Concat {
        " + "@
    } else {
        ", "@
    }
}

/// The frame and the writer before a field that is an ordinary value.
pub open spec fn call_pre(f: CallFrame, w: Writer) -> (CallFrame, Writer) {
    match f.role {
        Role::Assignment | Role::LineComment => (CallFrame { count: f.count + 1, ..f }, w),
        _ => (
            CallFrame { count: f.count + 1, ..f },
            before_item(w, f.multiline, f.count == 0, call_separator(f.role)),
        ),
    }
}

/// The writer after a field that is an ordinary value.
pub open spec fn call_post(f: CallFrame, w: Writer) -> Writer {
    match f.role {
        Role::Assignment | Role::LineComment => w,
        _ => after_item(w, f.multiline),
    }
}

/// The writer after a container with positional fields was closed. An
/// assignment and a commented value end with their value. A concatenation has
/// no parentheses.
pub open spec fn call_end(f: CallFrame, w: Writer) -> Writer {
    match f.role {
        Role::Assignment | Role::LineComment => w,
        Role::Concat => before_close(w, f.multiline, f.count != 0),
        _ => before_close(w, f.multiline, f.count != 0).push(")"@),
    }
}

/// Where a container with keyed fields stands: its layout, whether its name
/// is still to come as the first field, and how many of its fields have been
/// counted.
pub ghost struct StructFrame {
    pub multiline: bool,
    pub rename: bool,
    pub count: nat,
}

impl StructFrame {
    /// Whether the container has moved the indentation one level in.
    pub open spec fn indented(self) -> bool {
        self.multiline && self.count > 0
    }

    /// Whether the writer is where this frame says.
    pub open spec fn sound(self, w: Writer) -> bool {
        self.indented() ==> w.depth >= 4
    }

    /// The indentation at which the container was opened.
    pub open spec fn base(self, w: Writer) -> int {
        if self.indented() {
            w.depth - 4
        } else {
            w.depth as int
        }
    }
}

/// What a field of a container with keyed fields is, by the state of the
/// container and the field's key.
#[derive(Clone, Copy, Debug, PartialEq, Eq, Structural)]
pub enum Slot {
    /// The name of a renamed call: a bare string.
    Name,
    /// A positional argument: a value without a key.
    Positional,
    /// The key half of a flattened pair: a bare string.
    PairKey,
    /// The value half of a flattened pair.
    PairValue,
    /// A keyword argument.
    Keyword,
}

/// The kind of the next field of a container with keyed fields.
pub open spec fn slot_of(f: StructFrame, key: Seq<char>) -> Slot {
    if f.rename {
        Slot::Name
    } else if key.len() == 0 {
        Slot::Positional
    } else if key == "*key"@ {
        Slot::PairKey
    } else if key == "*value"@ {
        Slot::PairValue
    } else {
        Slot::Keyword
    }
}

/// Whether a field under `key` is counted: every field but the name of a
/// renamed call and the value half of a flattened pair, which goes with its
/// key half.
pub open spec fn slot_counts(f: StructFrame, key: Seq<char>) -> bool {
    slot_of(f, key) != Slot::Name && slot_of(f, key) != Slot::PairValue
}

/// The frame and the writer after a container with keyed fields was opened
/// under `name`. It is multi-line as soon as it declares one field.
pub open spec fn struct_open(w: Writer, name: Seq<char>, len: usize) -> (StructFrame, Writer) {
    let rename = name == "("@;
    (
        StructFrame { multiline: len >= 1, rename, count: 0 },
        if rename {
            w
        } else {
            w.push(name).push("("@)
        },
    )
}

/// The frame and the writer after the bare string `s` was taken as the name
/// of a renamed call.
pub open spec fn struct_name(f: StructFrame, w: Writer, s: Seq<char>) -> (StructFrame, Writer) {
    (StructFrame { rename: false, ..f }, w.push(s).push("("@))
}

/// The frame and the writer before a counted field.
pub open spec fn struct_pre(f: StructFrame, w: Writer) -> (StructFrame, Writer) {
    (
        StructFrame { count: f.count + 1, ..f },
        before_item(w, f.multiline, f.count == 0, ", "@),
    )
}

/// The frame and the writer after the bare string `s` was taken as the key
/// half of a flattened pair. An empty key writes nothing, which leaves the
/// value half as a positional argument.
pub open spec fn struct_pair_key(f: StructFrame, w: Writer, s: Seq<char>) -> (StructFrame, Writer) {
    let (f1, w1) = struct_pre(f, w);
    (
        f1,
        if s.len() == 0 {
            w1
        } else {
            w1.push(s).push(" = "@)
        },
    )
}

/// The frame and the writer before the value of a keyword argument.
pub open spec fn struct_keyword(f: StructFrame, w: Writer, key: Seq<char>) -> (StructFrame, Writer) {
    let (f1, w1) = struct_pre(f, w);
    (f1, w1.push(key).push(" = "@))
}

/// The frame and the writer before the value of a field of the given kind
/// (one that is not a bare string).
pub open spec fn struct_before_value(f: StructFrame, w: Writer, key: Seq<char>) -> (
    StructFrame,
    Writer,
) {
    match slot_of(f, key) {
        Slot::Positional => struct_pre(f, w),
        Slot::Keyword => struct_keyword(f, w, key),
        _ => (f, w),
    }
}

/// The writer after the value of a field.
pub open spec fn struct_post(f: StructFrame, w: Writer) -> Writer {
    after_item(w, f.multiline)
}

/// The writer after a container with keyed fields was closed.
pub open spec fn struct_end(f: StructFrame, w: Writer) -> Writer {
    before_close(w, f.multiline, f.count != 0).push(")"@)
}

/// The writer of one encoding: the output so far, the indentation, and at
/// most one comment that waits for the end of the current line.
pub struct WriteStarlark {
    output: String,
    indent: usize,
    line_comment: Option<String>,
}

impl View for WriteStarlark {
    type V = Writer;

    closed spec fn view(&self) -> Writer {
        Writer {
            text: self.output@,
            depth: self.indent as nat,
            pending: match self.line_comment {
                Some(comment) => Some(comment@),
                None => None,
            },
        }
    }
}

impl WriteStarlark {
    /// A writer with no output, no indentation and no waiting comment.
    pub fn new() -> (write: WriteStarlark)
        ensures
            write@ == Writer::empty(),
    {
        WriteStarlark { output: String::new(), indent: 0, line_comment: None }
    }

    /// The current indentation, in columns.
    pub fn depth(&self) -> (depth: usize)
        ensures
            depth == self@.depth,
    {
        self.indent
    }

    /// Appends `s` to the output.
    pub fn push_str(&mut self, s: &str)
        ensures
            final(self)@ == old(self)@.push(s@),
    {
        self.output.append(s);
    }

    /// Appends the character `c` to the output.
    pub fn push(&mut self, c: char)
        ensures
            final(self)@ == old(self)@.push(seq![c]),
    {
        self.output.push(c);
        assert(self.output@ =~= old(self).output@ + seq![c]);
    }

    /// Lets `comment` wait for the end of the current line.
    pub fn set_line_comment(&mut self, comment: &str)
        ensures
            final(self)@ == old(self)@.comment(comment@),
    {
        self.line_comment = Some(comment.to_owned());
    }

    /// Ends the current line: writes out the waiting comment, if any, then a
    /// line feed and the indentation.
    pub fn newline(&mut self)
        ensures
            final(self)@ == old(self)@.newline(),
    {
        let line_comment = self.line_comment.take();
        if let Some(comment) = line_comment {
            self.output.append("  # ");
            self.output.append(comment.as_str());
        }
        self.output.push('\n');
        push_spaces(&mut self.output, self.indent);
        assert(self.output@ =~= old(self)@.flushed() + seq!['\n'] + spaces(self.indent as nat));
    }

    /// Indents what follows by four more columns.
    pub fn indent(&mut self)
        requires
            old(self)@.depth + 4 <= usize::MAX,
        ensures
            final(self)@ == old(self)@.indent(),
    {
        self.indent += 4;
    }

    /// Takes four columns of indentation back and starts a new line there.
    pub fn unindent(&mut self)
        requires
            old(self)@.depth >= 4,
        ensures
            final(self)@ == old(self)@.unindent(),
    {
        self.indent -= 4;
        self.newline();
    }

    /// Writes a boolean as `True` or `False`.
    pub fn serialize_bool(&mut self, v: bool) -> (r: Result<(), Error>)
        ensures
            r is Ok,
            final(self)@ == old(self)@.push(boolean(v)),
    {
        self.push_str(
            if v {
                "True"
            } else {
                "False"
            },
        );
        Ok(())
    }

    /// Writes an 8-bit signed integer in decimal.
    pub fn serialize_i8(&mut self, v: i8) -> (r: Result<(), Error>)
        ensures
            r is Ok,
            final(self)@ == old(self)@.push(decimal(v as int)),
    {
        self.serialize_i32(v as i32)
    }

    /// Writes a 16-bit signed integer in decimal.
    pub fn serialize_i16(&mut self, v: i16) -> (r: Result<(), Error>)
        ensures
            r is Ok,
            final(self)@ == old(self)@.push(decimal(v as int)),
    {
        self.serialize_i32(v as i32)
    }

    /// Writes a 32-bit signed integer in decimal.
    pub fn serialize_i32(&mut self, v: i32) -> (r: Result<(), Error>)
        ensures
            r is Ok,
            final(self)@ == old(self)@.push(decimal(v as int)),
    {
        if v < 0 {
            push_decimal(&mut self.output, true, (-(v as i64)) as u128);
        } else {
            push_decimal(&mut self.output, false, v as u128);
        }
        Ok(())
    }

    /// Writes a 64-bit signed integer in decimal if it fits in 32 signed
    /// bits, and fails otherwise.
    pub fn serialize_i64(&mut self, v: i64) -> (r: Result<(), Error>)
        ensures
            agrees(r, final(self)@, integer(old(self)@, v as int, Failure::UnsupportedI64(v))),
    {
        if -0x8000_0000 <= v && v <= 0x7fff_ffff {
            self.serialize_i32(v as i32)
        } else {
            Err(unsupported_i64(v))
        }
    }

    /// Writes a 128-bit signed integer in decimal if it fits in 32 signed
    /// bits, and fails otherwise.
    pub fn serialize_i128(&mut self, v: i128) -> (r: Result<(), Error>)
        ensures
            agrees(r, final(self)@, integer(old(self)@, v as int, Failure::UnsupportedI128(v))),
    {
        if -0x8000_0000 <= v && v <= 0x7fff_ffff {
            self.serialize_i32(v as i32)
        } else {
            Err(unsupported_i128(v))
        }
    }

    /// Writes an 8-bit unsigned integer in decimal.
    pub fn serialize_u8(&mut self, v: u8) -> (r: Result<(), Error>)
        ensures
            r is Ok,
            final(self)@ == old(self)@.push(decimal(v as int)),
    {
        self.serialize_i32(v as i32)
    }

    /// Writes a 16-bit unsigned integer in decimal.
    pub fn serialize_u16(&mut self, v: u16) -> (r: Result<(), Error>)
        ensures
            r is Ok,
            final(self)@ == old(self)@.push(decimal(v as int)),
    {
        self.serialize_i32(v as i32)
    }

    /// Writes a 32-bit unsigned integer in decimal if it fits in 32 signed
    /// bits, and fails otherwise.
    pub fn serialize_u32(&mut self, v: u32) -> (r: Result<(), Error>)
        ensures
            agrees(r, final(self)@, integer(old(self)@, v as int, Failure::UnsupportedU32(v))),
    {
        if v <= 0x7fff_ffff {
            self.serialize_i32(v as i32)
        } else {
            Err(unsupported_u32(v))
        }
    }

    /// Writes a 64-bit unsigned integer in decimal if it fits in 32 signed
    /// bits, and fails otherwise.
    pub fn serialize_u64(&mut self, v: u64) -> (r: Result<(), Error>)
        ensures
            agrees(r, final(self)@, integer(old(self)@, v as int, Failure::UnsupportedU64(v))),
    {
        if v <= 0x7fff_ffff {
            self.serialize_i32(v as i32)
        } else {
            Err(unsupported_u64(v))
        }
    }

    /// Writes a 128-bit unsigned integer in decimal if it fits in 32 signed
    /// bits, and fails otherwise.
    pub fn serialize_u128(&mut self, v: u128) -> (r: Result<(), Error>)
        ensures
            agrees(r, final(self)@, integer(old(self)@, v as int, Failure::UnsupportedU128(v))),
    {
        if v <= 0x7fff_ffff {
            self.serialize_i32(v as i32)
        } else {
            Err(unsupported_u128(v))
        }
    }

    /// Refuses a single-precision floating point number, given as its
    /// decimal text.
    pub fn serialize_f32(&mut self, v: &str) -> (r: Result<(), Error>)
        ensures
            r matches Err(e) && e@ == Failure::UnsupportedF32(v@),
    {
        Err(unsupported_f32(v))
    }

    /// Refuses a double-precision floating point number, given as its
    /// decimal text.
    pub fn serialize_f64(&mut self, v: &str) -> (r: Result<(), Error>)
        ensures
            r matches Err(e) && e@ == Failure::UnsupportedF64(v@),
    {
        Err(unsupported_f64(v))
    }

    /// Refuses a bare character.
    pub fn serialize_char(&mut self, v: char) -> (r: Result<(), Error>)
        ensures
            r matches Err(e) && e@ == Failure::UnsupportedChar(v),
    {
        Err(unsupported_char(v))
    }

    /// Writes a string as a literal between double quotes, with the
    /// characters escaped that need it.
    pub fn serialize_str(&mut self, v: &str) -> (r: Result<(), Error>)
        ensures
            r is Ok,
            final(self)@ == old(self)@.push(quoted(v@)),
    {
        push_quoted(&mut self.output, v);
        Ok(())
    }

    /// Refuses a byte string.
    pub fn serialize_bytes(&mut self, v: &[u8]) -> (r: Result<(), Error>)
        ensures
            r matches Err(e) && e@ == Failure::UnsupportedBytes,
    {
        Err(unsupported_bytes())
    }

    /// Writes the absent optional value as `None`.
    pub fn serialize_none(&mut self) -> (r: Result<(), Error>)
        ensures
            r is Ok,
            final(self)@ == old(self)@.push("None"@),
    {
        self.push_str("None");
        Ok(())
    }

    /// Refuses the unit value.
    pub fn serialize_unit(&mut self) -> (r: Result<(), Error>)
        ensures
            r matches Err(e) && e@ == Failure::UnsupportedUnit,
    {
        Err(unsupported_unit())
    }

    /// Writes a unit struct as its bare name.
    pub fn serialize_unit_struct(&mut self, name: &str) -> (r: Result<(), Error>)
        ensures
            r is Ok,
            final(self)@ == old(self)@.push(name@),
    {
        self.push_str(name);
        Ok(())
    }

    /// Writes a variant without payload as the string of its name.
    pub fn serialize_unit_variant(&mut self, name: &str, variant_index: u32, variant: &str) -> (r:
        Result<(), Error>)
        ensures
            r is Ok,
            final(self)@ == old(self)@.push(quoted(variant@)),
    {
        self.serialize_str(variant)
    }
}

/// A handle on the writer of an encoding: the writer itself, which the
/// encoding of a whole text owns, or a borrow of it, through which a nested
/// value is written.
pub trait MutableWriteStarlark: Sized {
    /// What the handle gives when the value is written: the finished text
    /// for the writer itself, nothing for a borrow.
    type Ok;

    /// The state of the writer behind this handle.
    spec fn writer(&self) -> Writer;

    /// Whether `out` is what a handle gives whose writer stands at `w`.
    spec fn gives(w: Writer, out: Self::Ok) -> bool;

    /// The writer behind this handle.
    fn mutable(&mut self) -> (write: &mut WriteStarlark)
        ensures
            write@ == old(self).writer(),
            final(self).writer() == final(write)@,
    ;

    /// Gives the handle up for what it yields.
    fn output(self) -> (out: Self::Ok)
        ensures
            Self::gives(self.writer(), out),
    ;
}

impl MutableWriteStarlark for WriteStarlark {
    type Ok = String;

    open spec fn writer(&self) -> Writer {
        self@
    }

    open spec fn gives(w: Writer, out: String) -> bool {
        out@ == w.finish()
    }

    fn mutable(&mut self) -> (write: &mut WriteStarlark) {
        self
    }

    /// Ends the last line and hands out the finished text.
    fn output(self) -> (out: String) {
        let mut write = self;
        write.newline();
        write.output
    }
}

impl<'a> MutableWriteStarlark for &'a mut WriteStarlark {
    type Ok = ();

    open spec fn writer(&self) -> Writer {
        (**self)@
    }

    open spec fn gives(w: Writer, out: ()) -> bool {
        true
    }

    fn mutable(&mut self) -> (write: &mut WriteStarlark) {
        self
    }

    /// Leaves the writer as it is.
    fn output(self) -> (out: ())
        ensures
            *final(self) == *old(self),
    {
    }
}

/// The state of a list that is being written.
pub struct WriteSeq {
    multiline: bool,
    len: usize,
}

impl View for WriteSeq {
    type V = Frame;

    closed spec fn view(&self) -> Frame {
        Frame { multiline: self.multiline, count: self.len as nat }
    }
}

/// The state of a tuple that is being written.
pub struct WriteTuple {
    multiline: bool,
    len: usize,
}

impl View for WriteTuple {
    type V = Frame;

    closed spec fn view(&self) -> Frame {
        Frame { multiline: self.multiline, count: self.len as nat }
    }
}

/// The state of a dict that is being written.
pub struct WriteMap {
    multiline: bool,
    len: usize,
}

impl View for WriteMap {
    type V = Frame;

    closed spec fn view(&self) -> Frame {
        Frame { multiline: self.multiline, count: self.len as nat }
    }
}

/// The state of a container with positional fields that is being written.
pub struct WriteTupleStruct {
    multiline: bool,
    role: Role,
    len: usize,
}

impl View for WriteTupleStruct {
    type V = CallFrame;

    closed spec fn view(&self) -> CallFrame {
        CallFrame { multiline: self.multiline, role: self.role, count: self.len as nat }
    }
}

/// The state of a container with keyed fields that is being written.
pub struct WriteStruct {
    multiline: bool,
    rename: bool,
    len: usize,
}

impl View for WriteStruct {
    type V = StructFrame;

    closed spec fn view(&self) -> StructFrame {
        StructFrame { multiline: self.multiline, rename: self.rename, count: self.len as nat }
    }
}

/// The role that a container name asks for.
pub fn role_for(name: &str) -> (role: Role)
    ensures
        role == role_of(name@),
{
    if same_text(name, "=") {
        Role::Assignment
    } else if same_text(name, "(") {
        Role::Rename
    } else if same_text(name, "+") {
        Role::Concat
    } else if same_text(name, "#") {
        Role::LineComment
    } else {
        Role::Plain
    }
}

impl WriteStarlark {
    /// What comes before the next item of a container.
    fn before_item(&mut self, multiline: bool, first: bool, separator: &str)
        requires
            multiline && first ==> old(self)@.room(1),
        ensures
            final(self)@ == before_item(old(self)@, multiline, first, separator@),
    {
        if multiline {
            if first {
                self.indent();
            }
            self.newline();
        } else if !first {
            self.push_str(separator);
        }
    }

    /// What comes after an item of a container.
    fn after_item(&mut self, multiline: bool)
        ensures
            final(self)@ == after_item(old(self)@, multiline),
    {
        if multiline {
            self.push_str(",");
        }
    }

    /// What comes before the closing delimiter of a container.
    fn before_close(&mut self, multiline: bool, any: bool)
        requires
            multiline && any ==> old(self)@.depth >= 4,
        ensures
            final(self)@ == before_close(old(self)@, multiline, any),
    {
        if multiline && any {
            self.unindent();
        }
    }

    /// Writes an optional value that is there: the value itself.
    pub fn serialize_some(&mut self, value: &Value) -> (r: Result<(), Error>)
        requires
            value.valid(),
            old(self)@.room(value.size()),
        ensures
            agrees(r, final(self)@, emit(*value, old(self)@)),
            r is Ok ==> final(self)@.depth == old(self)@.depth,
        decreases *value, 1nat,
    {
        value.serialize(self)
    }

    /// Writes a struct around one value as a call with one argument.
    pub fn serialize_newtype_struct(&mut self, name: &str, value: &Value) -> (r: Result<
        (),
        Error,
    >)
        requires
            value.valid(),
            old(self)@.room(1 + value.size()),
        ensures
            agrees(r, final(self)@, emit_newtype_struct(name@, *value, old(self)@)),
            r is Ok ==> final(self)@.depth == old(self)@.depth,
        decreases *value, 2nat,
    {
        let mut tuple = self.serialize_tuple_struct(name, 1)?;
        tuple.serialize_field(self, value)?;
        tuple.end(self)
    }

    /// Refuses a variant around one value.
    pub fn serialize_newtype_variant(&mut self, name: &str, variant_index: u32, variant: &str) -> (r:
        Result<(), Error>)
        ensures
            r matches Err(e) && e@ == Failure::UnsupportedEnum(name@, variant@),
    {
        Err(unsupported_enum(name, variant))
    }

    /// Opens a list.
    pub fn serialize_seq(&mut self, len: Option<usize>) -> (r: Result<WriteSeq, Error>)
        ensures
            r matches Ok(seq) && (seq@, final(self)@) == seq_open(old(self)@, len),
    {
        let multiline = match len {
            Some(n) => n > 1,
            None => true,
        };
        self.push_str("[");
        Ok(WriteSeq { multiline, len: 0 })
    }

    /// Opens a tuple.
    pub fn serialize_tuple(&mut self, len: usize) -> (r: Result<WriteTuple, Error>)
        ensures
            r matches Ok(tuple) && (tuple@, final(self)@) == tuple_open(old(self)@, len),
    {
        let multiline = len == crate::MULTILINE;
        self.push_str("(");
        Ok(WriteTuple { multiline, len: 0 })
    }

    /// Opens a container with positional fields under `name`.
    pub fn serialize_tuple_struct(&mut self, name: &str, len: usize) -> (r: Result<
        WriteTupleStruct,
        Error,
    >)
        ensures
            r matches Ok(call) && (call@, final(self)@) == call_open(old(self)@, name@, len),
    {
        let role = role_for(name);
        let multiline = len > 1 && role != Role::Concat;
        if role == Role::Plain {
            self.push_str(name);
            self.push_str("(");
        }
        Ok(WriteTupleStruct { multiline, role, len: 0 })
    }

    /// Refuses a variant with positional fields.
    pub fn serialize_tuple_variant(
        &mut self,
        name: &str,
        variant_index: u32,
        variant: &str,
        len: usize,
    ) -> (r: Result<(), Error>)
        ensures
            r matches Err(e) && e@ == Failure::UnsupportedEnum(name@, variant@),
    {
        Err(unsupported_enum(name, variant))
    }

    /// Opens a dict.
    pub fn serialize_map(&mut self, len: Option<usize>) -> (r: Result<WriteMap, Error>)
        ensures
            r matches Ok(map) && (map@, final(self)@) == map_open(old(self)@, len),
    {
        let multiline = match len {
            Some(n) => n > 0,
            None => true,
        };
        self.push_str("{");
        Ok(WriteMap { multiline, len: 0 })
    }

    /// Opens a container with keyed fields under `name`.
    pub fn serialize_struct(&mut self, name: &str, len: usize) -> (r: Result<WriteStruct, Error>)
        ensures
            r matches Ok(call) && (call@, final(self)@) == struct_open(old(self)@, name@, len),
    {
        let rename = same_text(name, "(");
        let multiline = len >= 1;
        if !rename {
            self.push_str(name);
            self.push_str("(");
        }
        Ok(WriteStruct { multiline, rename, len: 0 })
    }

    /// Refuses a variant with named fields.
    pub fn serialize_struct_variant(
        &mut self,
        name: &str,
        variant_index: u32,
        variant: &str,
        len: usize,
    ) -> (r: Result<(), Error>)
        ensures
            r matches Err(e) && e@ == Failure::UnsupportedEnum(name@, variant@),
    {
        Err(unsupported_enum(name, variant))
    }
}

impl WriteSeq {
    /// Whether one more element can be started: the count and, where the
    /// indentation would grow, the indentation stay within the range of
    /// `usize`.
    pub fn ready(&self, write: &WriteStarlark) -> (ok: bool)
        ensures
            ok == (self@.count < usize::MAX && (self@.multiline && self@.count == 0
                ==> write@.room(1))),
    {
        self.len < usize::MAX && (!(self.multiline && self.len == 0) || write.depth()
            <= usize::MAX - 4)
    }

    /// Whether the writer is where this list left it, so that the list can be
    /// closed: one level in, it has a level to go back.
    pub fn closes(&self, write: &WriteStarlark) -> (ok: bool)
        ensures
            ok == self@.sound(write@),
    {
        !(self.multiline && self.len > 0) || write.depth() >= 4
    }

    /// Writes what comes before the next element.
    pub fn begin_element(&mut self, write: &mut WriteStarlark)
        requires
            old(self)@.count < usize::MAX,
            old(self)@.multiline && old(self)@.count == 0 ==> old(write)@.room(1),
        ensures
            (final(self)@, final(write)@) == item_pre(old(self)@, old(write)@),
    {
        write.before_item(self.multiline, self.len == 0, ", ");
        self.len += 1;
    }

    /// Writes what comes after an element.
    pub fn finish_element(&self, write: &mut WriteStarlark)
        ensures
            final(write)@ == item_post(self@, old(write)@),
    {
        write.after_item(self.multiline);
    }

    /// Writes one element: what comes before it, the element itself, what
    /// comes after it.
    pub fn serialize_element(&mut self, write: &mut WriteStarlark, value: &Value) -> (r: Result<
        (),
        Error,
    >)
        requires
            value.valid(),
            old(self)@.count < usize::MAX,
            old(self)@.sound(old(write)@),
            old(self)@.base(old(write)@) + 4 + 4 * value.size() <= usize::MAX,
        ensures
            step_agrees(r, final(self)@, final(write)@, element(old(self)@, old(write)@, *value)),
            r is Ok ==> final(self)@.sound(final(write)@) && final(self)@.base(final(write)@)
                == old(self)@.base(old(write)@),
        decreases *value, 1nat,
    {
        self.begin_element(write);
        value.serialize(write)?;
        self.finish_element(write);
        Ok(())
    }

    /// Writes the elements of `items` in their order, up to the first that
    /// fails.
    pub fn serialize_elements(&mut self, write: &mut WriteStarlark, items: &Vec<Value>) -> (r:
        Result<(), Error>)
        requires
            forall|i: int| 0 <= i < items@.len() ==> (#[trigger] items@[i]).valid(),
            old(self)@.count + items@.len() <= usize::MAX,
            old(self)@.sound(old(write)@),
            old(self)@.base(old(write)@) + 4 + 4 * size_of_items(items@, 0) <= usize::MAX,
        ensures
            step_agrees(
                r,
                final(self)@,
                final(write)@,
                elements(items@, 0, old(self)@, old(write)@),
            ),
            r is Ok ==> final(self)@.sound(final(write)@) && final(self)@.base(final(write)@)
                == old(self)@.base(old(write)@),
        decreases *items, 0nat,
    {
        let mut i: usize = 0;
        while i < items.len()
            invariant
                i <= items.len(),
                forall|j: int| 0 <= j < items@.len() ==> (#[trigger] items@[j]).valid(),
                self@.count + (items@.len() - i) <= usize::MAX,
                self@.sound(write@),
                self@.base(write@) == old(self)@.base(old(write)@),
                old(self)@.base(old(write)@) + 4 + 4 * size_of_items(items@, 0) <= usize::MAX,
                elements(items@, i as int, self@, write@) == elements(items@, 0, old(self)@, old(write)@),
            decreases items.len() - i,
        {
            proof {
                lemma_size_of_items(items@, 0, i as int);
            }
            match self.serialize_element(write, &items[i]) {
                Ok(()) => {},
                Err(e) => {
                    return Err(e);
                },
            }
            i += 1;
        }
        Ok(())
    }

    /// Closes the list.
    pub fn end(self, write: &mut WriteStarlark) -> (r: Result<(), Error>)
        requires
            self@.sound(old(write)@),
        ensures
            r is Ok,
            final(write)@ == seq_end(self@, old(write)@),
    {
        write.before_close(self.multiline, self.len != 0);
        write.push_str("]");
        Ok(())
    }
}

impl WriteTuple {
    /// Whether one more element can be started: the count and, where the
    /// indentation would grow, the indentation stay within the range of
    /// `usize`.
    pub fn ready(&self, write: &WriteStarlark) -> (ok: bool)
        ensures
            ok == (self@.count < usize::MAX && (self@.multiline && self@.count == 0
                ==> write@.room(1))),
    {
        self.len < usize::MAX && (!(self.multiline && self.len == 0) || write.depth()
            <= usize::MAX - 4)
    }

    /// Whether the writer is where this tuple left it, so that the tuple can be
    /// closed: one level in, it has a level to go back.
    pub fn closes(&self, write: &WriteStarlark) -> (ok: bool)
        ensures
            ok == self@.sound(write@),
    {
        !(self.multiline && self.len > 0) || write.depth() >= 4
    }

    /// Writes what comes before the next element.
    pub fn begin_element(&mut self, write: &mut WriteStarlark)
        requires
            old(self)@.count < usize::MAX,
            old(self)@.multiline && old(self)@.count == 0 ==> old(write)@.room(1),
        ensures
            (final(self)@, final(write)@) == item_pre(old(self)@, old(write)@),
    {
        write.before_item(self.multiline, self.len == 0, ", ");
        self.len += 1;
    }

    /// Writes what comes after an element.
    pub fn finish_element(&self, write: &mut WriteStarlark)
        ensures
            final(write)@ == item_post(self@, old(write)@),
    {
        write.after_item(self.multiline);
    }

    /// Writes one element: what comes before it, the element itself, what
    /// comes after it.
    pub fn serialize_element(&mut self, write: &mut WriteStarlark, value: &Value) -> (r: Result<
        (),
        Error,
    >)
        requires
            value.valid(),
            old(self)@.count < usize::MAX,
            old(self)@.sound(old(write)@),
            old(self)@.base(old(write)@) + 4 + 4 * value.size() <= usize::MAX,
        ensures
            step_agrees(r, final(self)@, final(write)@, element(old(self)@, old(write)@, *value)),
            r is Ok ==> final(self)@.sound(final(write)@) && final(self)@.base(final(write)@)
                == old(self)@.base(old(write)@),
        decreases *value, 1nat,
    {
        self.begin_element(write);
        value.serialize(write)?;
        self.finish_element(write);
        Ok(())
    }

    /// Writes the elements of `items` in their order, up to the first that
    /// fails.
    pub fn serialize_elements(&mut self, write: &mut WriteStarlark, items: &Vec<Value>) -> (r:
        Result<(), Error>)
        requires
            forall|i: int| 0 <= i < items@.len() ==> (#[trigger] items@[i]).valid(),
            old(self)@.count + items@.len() <= usize::MAX,
            old(self)@.sound(old(write)@),
            old(self)@.base(old(write)@) + 4 + 4 * size_of_items(items@, 0) <= usize::MAX,
        ensures
            step_agrees(
                r,
                final(self)@,
                final(write)@,
                elements(items@, 0, old(self)@, old(write)@),
            ),
            r is Ok ==> final(self)@.sound(final(write)@) && final(self)@.base(final(write)@)
                == old(self)@.base(old(write)@),
        decreases *items, 0nat,
    {
        let mut i: usize = 0;
        while i < items.len()
            invariant
                i <= items.len(),
                forall|j: int| 0 <= j < items@.len() ==> (#[trigger] items@[j]).valid(),
                self@.count + (items@.len() - i) <= usize::MAX,
                self@.sound(write@),
                self@.base(write@) == old(self)@.base(old(write)@),
                old(self)@.base(old(write)@) + 4 + 4 * size_of_items(items@, 0) <= usize::MAX,
                elements(items@, i as int, self@, write@) == elements(items@, 0, old(self)@, old(write)@),
            decreases items.len() - i,
        {
            proof {
                lemma_size_of_items(items@, 0, i as int);
            }
            match self.serialize_element(write, &items[i]) {
                Ok(()) => {},
                Err(e) => {
                    return Err(e);
                },
            }
            i += 1;
        }
        Ok(())
    }

    /// Closes the tuple.
    pub fn end(self, write: &mut WriteStarlark) -> (r: Result<(), Error>)
        requires
            self@.sound(old(write)@),
        ensures
            r is Ok,
            final(write)@ == tuple_end(self@, old(write)@),
    {
        if self.len == 1 && !self.multiline {
            write.push_str(",");
        }
        write.before_close(self.multiline, self.len != 0);
        write.push_str(")");
        Ok(())
    }
}

impl WriteMap {
    /// Whether one more key can be started: the count and, where the
    /// indentation would grow, the indentation stay within the range of
    /// `usize`.
    pub fn ready(&self, write: &WriteStarlark) -> (ok: bool)
        ensures
            ok == (self@.count < usize::MAX && (self@.multiline && self@.count == 0
                ==> write@.room(1))),
    {
        self.len < usize::MAX && (!(self.multiline && self.len == 0) || write.depth()
            <= usize::MAX - 4)
    }

    /// Whether the writer is where this dict left it, so that the dict can be
    /// closed: one level in, it has a level to go back.
    pub fn closes(&self, write: &WriteStarlark) -> (ok: bool)
        ensures
            ok == self@.sound(write@),
    {
        !(self.multiline && self.len > 0) || write.depth() >= 4
    }

    /// Writes what comes before the next key.
    pub fn begin_key(&mut self, write: &mut WriteStarlark)
        requires
            old(self)@.count < usize::MAX,
            old(self)@.multiline && old(self)@.count == 0 ==> old(write)@.room(1),
        ensures
            (final(self)@, final(write)@) == item_pre(old(self)@, old(write)@),
    {
        write.before_item(self.multiline, self.len == 0, ", ");
        self.len += 1;
    }

    /// Writes what stands between a key and its value.
    pub fn finish_key(&self, write: &mut WriteStarlark)
        ensures
            final(write)@ == key_post(old(write)@),
    {
        write.push_str(": ");
    }

    /// Writes what comes after a value.
    pub fn finish_value(&self, write: &mut WriteStarlark)
        ensures
            final(write)@ == item_post(self@, old(write)@),
    {
        write.after_item(self.multiline);
    }

    /// Writes one key: what comes before it, the key itself, a colon and a
    /// space.
    pub fn serialize_key(&mut self, write: &mut WriteStarlark, key: &Value) -> (r: Result<
        (),
        Error,
    >)
        requires
            key.valid(),
            old(self)@.count < usize::MAX,
            old(self)@.sound(old(write)@),
            old(self)@.base(old(write)@) + 4 + 4 * key.size() <= usize::MAX,
        ensures
            step_agrees(r, final(self)@, final(write)@, map_key(old(self)@, old(write)@, *key)),
            r is Ok ==> final(self)@.sound(final(write)@) && final(self)@.base(final(write)@)
                == old(self)@.base(old(write)@) && final(self)@.count > 0,
        decreases *key, 1nat,
    {
        self.begin_key(write);
        key.serialize(write)?;
        self.finish_key(write);
        Ok(())
    }

    /// Writes one value, and what comes after it.
    pub fn serialize_value(&mut self, write: &mut WriteStarlark, value: &Value) -> (r: Result<
        (),
        Error,
    >)
        requires
            value.valid(),
            old(self)@.sound(old(write)@),
            old(write)@.room(value.size()),
        ensures
            step_agrees(
                r,
                final(self)@,
                final(write)@,
                map_value(old(self)@, old(write)@, *value),
            ),
            r is Ok ==> final(self)@.sound(final(write)@) && final(self)@.base(final(write)@)
                == old(self)@.base(old(write)@),
        decreases *value, 1nat,
    {
        value.serialize(write)?;
        self.finish_value(write);
        Ok(())
    }

    /// Writes the entries in their order, each key before its value, up to
    /// the first that fails.
    pub fn serialize_entries(&mut self, write: &mut WriteStarlark, entries: &Vec<(Value, Value)>)
        -> (r: Result<(), Error>)
        requires
            forall|i: int|
                0 <= i < entries@.len() ==> (#[trigger] entries@[i]).0.valid()
                    && entries@[i].1.valid(),
            old(self)@.count + entries@.len() <= usize::MAX,
            old(self)@.sound(old(write)@),
            old(self)@.base(old(write)@) + 4 + 4 * size_of_entries(entries@, 0) <= usize::MAX,
        ensures
            step_agrees(
                r,
                final(self)@,
                final(write)@,
                map_entries(entries@, 0, old(self)@, old(write)@),
            ),
            r is Ok ==> final(self)@.sound(final(write)@) && final(self)@.base(final(write)@)
                == old(self)@.base(old(write)@),
        decreases *entries, 0nat,
    {
        let mut i: usize = 0;
        while i < entries.len()
            invariant
                i <= entries.len(),
                forall|j: int|
                    0 <= j < entries@.len() ==> (#[trigger] entries@[j]).0.valid()
                        && entries@[j].1.valid(),
                self@.count + (entries@.len() - i) <= usize::MAX,
                self@.sound(write@),
                self@.base(write@) == old(self)@.base(old(write)@),
                old(self)@.base(old(write)@) + 4 + 4 * size_of_entries(entries@, 0) <= usize::MAX,
                map_entries(entries@, i as int, self@, write@) == map_entries(entries@, 0, old(self)@, old(write)@),
            decreases entries.len() - i,
        {
            proof {
                lemma_size_of_entries(entries@, 0, i as int);
            }
            let entry = &entries[i];
            match self.serialize_key(write, &entry.0) {
                Ok(()) => {},
                Err(e) => {
                    return Err(e);
                },
            }
            match self.serialize_value(write, &entry.1) {
                Ok(()) => {},
                Err(e) => {
                    return Err(e);
                },
            }
            i += 1;
        }
        Ok(())
    }

    /// Closes the dict.
    pub fn end(self, write: &mut WriteStarlark) -> (r: Result<(), Error>)
        requires
            self@.sound(old(write)@),
        ensures
            r is Ok,
            final(write)@ == map_end(self@, old(write)@),
    {
        write.before_close(self.multiline, self.len != 0);
        write.push_str("}");
        Ok(())
    }
}

impl WriteTupleStruct {
    /// Whether one more field that is an ordinary value can be started: the
    /// container has room for it, and the count and, where the indentation
    /// would grow, the indentation stay within the range of `usize`.
    pub fn ready(&self, write: &WriteStarlark) -> (ok: bool)
        ensures
            ok == (call_has_room(self@) && self@.count < usize::MAX && (self@.role
                != Role::Assignment && self@.role != Role::LineComment && self@.multiline
                && self@.count == 0 ==> write@.room(1))),
    {
        match self.role {
            Role::Assignment | Role::LineComment => self.len <= 1,
            _ => self.len < usize::MAX && (!(self.multiline && self.len == 0) || write.depth()
                <= usize::MAX - 4),
        }
    }

    /// Whether the writer is where this container left it, so that the
    /// container can be closed.
    pub fn closes(&self, write: &WriteStarlark) -> (ok: bool)
        ensures
            ok == self@.sound(write@),
    {
        match self.role {
            Role::Assignment | Role::LineComment => true,
            Role::Rename => self.len == 0,
            _ => !(self.multiline && self.len > 0) || write.depth() >= 4,
        }
    }

    /// Whether the next field must be a bare string.
    pub fn wants_bare(&self) -> (bare: bool)
        ensures
            bare == call_wants_bare(self@),
    {
        match self.role {
            Role::Assignment | Role::LineComment => self.len == 0,
            Role::Rename => true,
            Role::Plain | Role::Concat => false,
        }
    }

    /// Takes the bare string `s` as the next field.
    pub fn take_bare(&mut self, write: &mut WriteStarlark, s: &str)
        requires
            call_wants_bare(old(self)@),
        ensures
            (final(self)@, final(write)@) == call_bare(old(self)@, old(write)@, s@),
    {
        match self.role {
            Role::Assignment => {
                self.len += 1;
                write.push_str(s);
                write.push_str(" = ");
            },
            Role::LineComment => {
                self.len += 1;
                write.set_line_comment(s);
            },
            _ => {
                if same_text(s, "+") {
                    self.role = Role::Concat;
                    self.multiline = false;
                } else {
                    write.push_str(s);
                    write.push_str("(");
                    self.role = Role::Plain;
                }
            },
        }
    }

    /// Writes what comes before a field that is an ordinary value.
    pub fn begin_field(&mut self, write: &mut WriteStarlark)
        requires
            !call_wants_bare(old(self)@),
            call_has_room(old(self)@),
            old(self)@.count < usize::MAX,
            old(self)@.role != Role::Assignment && old(self)@.role != Role::LineComment && old(
                self,
            )@.multiline && old(self)@.count == 0 ==> old(write)@.room(1),
        ensures
            (final(self)@, final(write)@) == call_pre(old(self)@, old(write)@),
    {
        match self.role {
            Role::Assignment | Role::LineComment => {
                self.len += 1;
            },
            _ => {
                write.before_item(
                    self.multiline,
                    self.len == 0,
                    if self.role == Role::Concat {
                        " + "
                    } else {
                        ", "
                    },
                );
                self.len += 1;
            },
        }
    }

    /// Writes what comes after a field that is an ordinary value.
    pub fn finish_field(&self, write: &mut WriteStarlark)
        ensures
            final(write)@ == call_post(self@, old(write)@),
    {
        match self.role {
            Role::Assignment | Role::LineComment => {},
            _ => {
                write.after_item(self.multiline);
            },
        }
    }

    /// Writes a field that is the string `text`.
    pub fn serialize_text(&mut self, write: &mut WriteStarlark, text: &str)
        requires
            call_has_room(old(self)@),
            old(self)@.count < usize::MAX,
            old(self)@.sound(old(write)@),
            old(self)@.base(old(write)@) + 4 <= usize::MAX,
        ensures
            (final(self)@, final(write)@) == call_text(old(self)@, old(write)@, text@),
            final(self)@.sound(final(write)@),
            final(self)@.base(final(write)@) == old(self)@.base(old(write)@),
    {
        if self.wants_bare() {
            self.take_bare(write, text);
        } else {
            self.begin_field(write);
            let _ = write.serialize_str(text);
            self.finish_field(write);
        }
    }

    /// Writes the strings of `texts` as fields, in their order.
    pub fn serialize_texts(&mut self, write: &mut WriteStarlark, texts: &Vec<&str>)
        requires
            old(self)@.role != Role::Assignment && old(self)@.role != Role::LineComment,
            old(self)@.count + texts@.len() <= usize::MAX,
            old(self)@.sound(old(write)@),
            old(self)@.base(old(write)@) + 4 <= usize::MAX,
        ensures
            (final(self)@, final(write)@) == call_texts(
                texts_of(texts@),
                0,
                old(self)@,
                old(write)@,
            ),
            final(self)@.sound(final(write)@),
            final(self)@.base(final(write)@) == old(self)@.base(old(write)@),
            final(self)@.role != Role::Assignment && final(self)@.role != Role::LineComment,
            final(self)@.count <= old(self)@.count + texts@.len(),
    {
        let mut i: usize = 0;
        while i < texts.len()
            invariant
                i <= texts.len(),
                self@.role != Role::Assignment && self@.role != Role::LineComment,
                self@.count <= old(self)@.count + i,
                old(self)@.count + texts@.len() <= usize::MAX,
                self@.sound(write@),
                self@.base(write@) == old(self)@.base(old(write)@),
                old(self)@.base(old(write)@) + 4 <= usize::MAX,
                call_texts(texts_of(texts@), i as int, self@, write@) == call_texts(
                    texts_of(texts@),
                    0,
                    old(self)@, old(write)@,
                ),
            decreases texts.len() - i,
        {
            self.serialize_text(write, texts[i]);
            i += 1;
        }
    }

    /// Writes one field: a bare string where the container asks for one, an
    /// ordinary value otherwise, with what comes before and after it.
    pub fn serialize_field(&mut self, write: &mut WriteStarlark, value: &Value) -> (r: Result<
        (),
        Error,
    >)
        requires
            value.valid(),
            call_has_room(old(self)@),
            old(self)@.count < usize::MAX,
            old(self)@.sound(old(write)@),
            old(self)@.base(old(write)@) + 4 + 4 * value.size() <= usize::MAX,
        ensures
            step_agrees(
                r,
                final(self)@,
                final(write)@,
                call_field(old(self)@, old(write)@, *value),
            ),
            r is Ok ==> final(self)@.sound(final(write)@) && final(self)@.base(final(write)@)
                == old(self)@.base(old(write)@),
        decreases *value, 1nat,
    {
        if self.wants_bare() {
            let s = bare_string_of(value)?;
            self.take_bare(write, s);
        } else {
            self.begin_field(write);
            value.serialize(write)?;
            self.finish_field(write);
        }
        Ok(())
    }

    /// Writes the fields of `items` in their order, up to the first that
    /// fails.
    pub fn serialize_fields(&mut self, write: &mut WriteStarlark, items: &Vec<Value>) -> (r:
        Result<(), Error>)
        requires
            forall|i: int| 0 <= i < items@.len() ==> (#[trigger] items@[i]).valid(),
            old(self)@.role == Role::Assignment || old(self)@.role == Role::LineComment
                ==> old(self)@.count + items@.len() <= 2,
            old(self)@.count + items@.len() <= usize::MAX,
            old(self)@.sound(old(write)@),
            old(self)@.base(old(write)@) + 4 + 4 * size_of_items(items@, 0) <= usize::MAX,
        ensures
            step_agrees(
                r,
                final(self)@,
                final(write)@,
                call_fields(items@, 0, old(self)@, old(write)@),
            ),
            r is Ok ==> final(self)@.sound(final(write)@) && final(self)@.base(final(write)@)
                == old(self)@.base(old(write)@),
        decreases *items, 0nat,
    {
        let mut i: usize = 0;
        while i < items.len()
            invariant
                i <= items.len(),
                forall|j: int| 0 <= j < items@.len() ==> (#[trigger] items@[j]).valid(),
                self@.role == Role::Assignment || self@.role == Role::LineComment ==> self@.count
                    + (items@.len() - i) <= 2,
                self@.count + (items@.len() - i) <= usize::MAX,
                self@.sound(write@),
                self@.base(write@) == old(self)@.base(old(write)@),
                old(self)@.base(old(write)@) + 4 + 4 * size_of_items(items@, 0) <= usize::MAX,
                call_fields(items@, i as int, self@, write@) == call_fields(items@, 0, old(self)@, old(write)@),
            decreases items.len() - i,
        {
            proof {
                lemma_size_of_items(items@, 0, i as int);
            }
            match self.serialize_field(write, &items[i]) {
                Ok(()) => {},
                Err(e) => {
                    return Err(e);
                },
            }
            i += 1;
        }
        Ok(())
    }

    /// Closes the container.
    pub fn end(self, write: &mut WriteStarlark) -> (r: Result<(), Error>)
        requires
            self@.sound(old(write)@),
        ensures
            r is Ok,
            final(write)@ == call_end(self@, old(write)@),
    {
        match self.role {
            Role::Assignment | Role::LineComment => {},
            Role::Concat => {
                write.before_close(self.multiline, self.len != 0);
            },
            _ => {
                write.before_close(self.multiline, self.len != 0);
                write.push_str(")");
            },
        }
        Ok(())
    }
}

/// The texts of a sequence of strings.
pub open spec fn texts_of(texts: Seq<&str>) -> Seq<Seq<char>> {
    Seq::new(texts.len(), |i: int| texts[i]@)
}

impl WriteStruct {
    /// Whether one more counted field can be started: the count and, where the
    /// indentation would grow, the indentation stay within the range of
    /// `usize`.
    pub fn ready(&self, write: &WriteStarlark) -> (ok: bool)
        ensures
            ok == (self@.count < usize::MAX && (self@.multiline && self@.count == 0
                ==> write@.room(1))),
    {
        self.len < usize::MAX && (!(self.multiline && self.len == 0) || write.depth()
            <= usize::MAX - 4)
    }

    /// Whether the writer is where this container left it, so that the container can be
    /// closed: one level in, it has a level to go back.
    pub fn closes(&self, write: &WriteStarlark) -> (ok: bool)
        ensures
            ok == self@.sound(write@),
    {
        !(self.multiline && self.len > 0) || write.depth() >= 4
    }

    /// The kind of the next field, by its key.
    pub fn slot(&self, key: &str) -> (slot: Slot)
        ensures
            slot == slot_of(self@, key@),
    {
        if self.rename {
            Slot::Name
        } else if key.is_empty() {
            Slot::Positional
        } else if same_text(key, "*key") {
            Slot::PairKey
        } else if same_text(key, "*value") {
            Slot::PairValue
        } else {
            Slot::Keyword
        }
    }

    /// Writes what comes before a counted field.
    pub fn pre_key(&mut self, write: &mut WriteStarlark)
        requires
            old(self)@.count < usize::MAX,
            old(self)@.multiline && old(self)@.count == 0 ==> old(write)@.room(1),
        ensures
            (final(self)@, final(write)@) == struct_pre(old(self)@, old(write)@),
    {
        write.before_item(self.multiline, self.len == 0, ", ");
        self.len += 1;
    }

    /// Writes what comes after the value of a field.
    pub fn post_value(&self, write: &mut WriteStarlark)
        ensures
            final(write)@ == struct_post(self@, old(write)@),
    {
        write.after_item(self.multiline);
    }

    /// Takes the bare string `s` as the name of the call.
    pub fn take_name(&mut self, write: &mut WriteStarlark, s: &str)
        ensures
            (final(self)@, final(write)@) == struct_name(old(self)@, old(write)@, s@),
    {
        write.push_str(s);
        write.push_str("(");
        self.rename = false;
    }

    /// Takes the bare string `s` as the key half of a flattened pair.
    pub fn take_pair_key(&mut self, write: &mut WriteStarlark, s: &str)
        requires
            old(self)@.count < usize::MAX,
            old(self)@.multiline && old(self)@.count == 0 ==> old(write)@.room(1),
        ensures
            (final(self)@, final(write)@) == struct_pair_key(old(self)@, old(write)@, s@),
    {
        self.pre_key(write);
        if !s.is_empty() {
            write.push_str(s);
            write.push_str(" = ");
        }
    }

    /// Writes what comes before the value of a field that is no bare string.
    pub fn begin_value(&mut self, write: &mut WriteStarlark, key: &str)
        requires
            slot_of(old(self)@, key@) != Slot::Name,
            slot_of(old(self)@, key@) != Slot::PairKey,
            slot_counts(old(self)@, key@) ==> old(self)@.count < usize::MAX,
            slot_counts(old(self)@, key@) && old(self)@.multiline && old(self)@.count == 0
                ==> old(write)@.room(1),
        ensures
            (final(self)@, final(write)@) == struct_before_value(old(self)@, old(write)@, key@),
    {
        match self.slot(key) {
            Slot::Positional => {
                self.pre_key(write);
            },
            Slot::Keyword => {
                self.pre_key(write);
                write.push_str(key);
                write.push_str(" = ");
            },
            _ => {},
        }
    }

    /// Writes a field that is the string `text`.
    pub fn serialize_text(&mut self, write: &mut WriteStarlark, key: &str, text: &str)
        requires
            slot_counts(old(self)@, key@) ==> old(self)@.count < usize::MAX,
            old(self)@.sound(old(write)@),
            old(self)@.base(old(write)@) + 4 <= usize::MAX,
        ensures
            (final(self)@, final(write)@) == struct_text(old(self)@, old(write)@, key@, text@),
            final(self)@.sound(final(write)@),
            final(self)@.base(final(write)@) == old(self)@.base(old(write)@),
    {
        match self.slot(key) {
            Slot::Name => {
                self.take_name(write, text);
            },
            Slot::PairKey => {
                self.take_pair_key(write, text);
            },
            _ => {
                self.begin_value(write, key);
                let _ = write.serialize_str(text);
                self.post_value(write);
            },
        }
    }

    /// Writes the strings of `texts` as fields without keys, in their order.
    pub fn serialize_texts(&mut self, write: &mut WriteStarlark, texts: &Vec<&str>)
        requires
            old(self)@.count + texts@.len() <= usize::MAX,
            old(self)@.sound(old(write)@),
            old(self)@.base(old(write)@) + 4 <= usize::MAX,
        ensures
            (final(self)@, final(write)@) == struct_texts(
                texts_of(texts@),
                0,
                old(self)@,
                old(write)@,
            ),
            final(self)@.sound(final(write)@),
            final(self)@.base(final(write)@) == old(self)@.base(old(write)@),
            final(self)@.count <= old(self)@.count + texts@.len(),
    {
        let mut i: usize = 0;
        while i < texts.len()
            invariant
                i <= texts.len(),
                self@.count <= old(self)@.count + i,
                old(self)@.count + texts@.len() <= usize::MAX,
                self@.sound(write@),
                self@.base(write@) == old(self)@.base(old(write)@),
                old(self)@.base(old(write)@) + 4 <= usize::MAX,
                struct_texts(texts_of(texts@), i as int, self@, write@) == struct_texts(
                    texts_of(texts@),
                    0,
                    old(self)@, old(write)@,
                ),
            decreases texts.len() - i,
        {
            proof {
                reveal_strlit("");
                assert(""@ =~= Seq::<char>::empty());
            }
            self.serialize_text(write, "", texts[i]);
            i += 1;
        }
    }

    /// Writes one field: by the kind of its slot, a bare string or an
    /// ordinary value, with what comes before and after it.
    pub fn serialize_field(&mut self, write: &mut WriteStarlark, key: &str, value: &Value) -> (r:
        Result<(), Error>)
        requires
            value.valid(),
            slot_counts(old(self)@, key@) ==> old(self)@.count < usize::MAX,
            old(self)@.sound(old(write)@),
            old(self)@.base(old(write)@) + 4 + 4 * value.size() <= usize::MAX,
        ensures
            step_agrees(
                r,
                final(self)@,
                final(write)@,
                struct_field(old(self)@, old(write)@, key@, *value),
            ),
            r is Ok ==> final(self)@.sound(final(write)@) && final(self)@.base(final(write)@)
                == old(self)@.base(old(write)@) && final(self)@.count <= old(self)@.count + 1,
        decreases *value, 1nat,
    {
        match self.slot(key) {
            Slot::Name => {
                let s = bare_string_of(value)?;
                self.take_name(write, s);
            },
            Slot::PairKey => {
                let s = bare_string_of(value)?;
                self.take_pair_key(write, s);
            },
            _ => {
                self.begin_value(write, key);
                value.serialize(write)?;
                self.post_value(write);
            },
        }
        Ok(())
    }

    /// Writes the fields in their order, up to the first that fails.
    pub fn serialize_fields(&mut self, write: &mut WriteStarlark, fields: &Vec<(String, Value)>)
        -> (r: Result<(), Error>)
        requires
            forall|i: int| 0 <= i < fields@.len() ==> (#[trigger] fields@[i]).1.valid(),
            old(self)@.count + fields@.len() <= usize::MAX,
            old(self)@.sound(old(write)@),
            old(self)@.base(old(write)@) + 4 + 4 * size_of_fields(fields@, 0) <= usize::MAX,
        ensures
            step_agrees(
                r,
                final(self)@,
                final(write)@,
                struct_fields(fields@, 0, old(self)@, old(write)@),
            ),
            r is Ok ==> final(self)@.sound(final(write)@) && final(self)@.base(final(write)@)
                == old(self)@.base(old(write)@),
        decreases *fields, 0nat,
    {
        let mut i: usize = 0;
        while i < fields.len()
            invariant
                i <= fields.len(),
                forall|j: int| 0 <= j < fields@.len() ==> (#[trigger] fields@[j]).1.valid(),
                self@.count + (fields@.len() - i) <= usize::MAX,
                self@.sound(write@),
                self@.base(write@) == old(self)@.base(old(write)@),
                old(self)@.base(old(write)@) + 4 + 4 * size_of_fields(fields@, 0) <= usize::MAX,
                struct_fields(fields@, i as int, self@, write@) == struct_fields(
                    fields@,
                    0,
                    old(self)@, old(write)@,
                ),
            decreases fields.len() - i,
        {
            proof {
                lemma_size_of_fields(fields@, 0, i as int);
            }
            let field = &fields[i];
            match self.serialize_field(write, field.0.as_str(), &field.1) {
                Ok(()) => {},
                Err(e) => {
                    return Err(e);
                },
            }
            i += 1;
        }
        Ok(())
    }

    /// Writes the entries of a dict as flattened pairs, each key before its
    /// value, up to the first that fails.
    pub fn serialize_pairs(&mut self, write: &mut WriteStarlark, entries: &Vec<(Value, Value)>)
        -> (r: Result<(), Error>)
        requires
            forall|i: int|
                0 <= i < entries@.len() ==> (#[trigger] entries@[i]).0.valid()
                    && entries@[i].1.valid(),
            old(self)@.count + entries@.len() <= usize::MAX,
            old(self)@.sound(old(write)@),
            old(self)@.base(old(write)@) + 4 + 4 * size_of_entries(entries@, 0) <= usize::MAX,
        ensures
            step_agrees(
                r,
                final(self)@,
                final(write)@,
                struct_pairs(entries@, 0, old(self)@, old(write)@),
            ),
            r is Ok ==> final(self)@.sound(final(write)@) && final(self)@.base(final(write)@)
                == old(self)@.base(old(write)@),
        decreases *entries, 0nat,
    {
        let mut i: usize = 0;
        while i < entries.len()
            invariant
                i <= entries.len(),
                forall|j: int|
                    0 <= j < entries@.len() ==> (#[trigger] entries@[j]).0.valid()
                        && entries@[j].1.valid(),
                self@.count + (entries@.len() - i) <= usize::MAX,
                self@.sound(write@),
                self@.base(write@) == old(self)@.base(old(write)@),
                old(self)@.base(old(write)@) + 4 + 4 * size_of_entries(entries@, 0) <= usize::MAX,
                struct_pairs(entries@, i as int, self@, write@) == struct_pairs(
                    entries@,
                    0,
                    old(self)@, old(write)@,
                ),
            decreases entries.len() - i,
        {
            proof {
                lemma_size_of_entries(entries@, 0, i as int);
                reveal_strlit("*key");
                reveal_strlit("*value");
            }
            let entry = &entries[i];
            match self.serialize_field(write, "*key", &entry.0) {
                Ok(()) => {},
                Err(e) => {
                    return Err(e);
                },
            }
            match self.serialize_field(write, "*value", &entry.1) {
                Ok(()) => {},
                Err(e) => {
                    return Err(e);
                },
            }
            i += 1;
        }
        Ok(())
    }

    /// Closes the container.
    pub fn end(self, write: &mut WriteStarlark) -> (r: Result<(), Error>)
        requires
            self@.sound(old(write)@),
        ensures
            r is Ok,
            final(write)@ == struct_end(self@, old(write)@),
    {
        write.before_close(self.multiline, self.len != 0);
        write.push_str(")");
        Ok(())
    }
}

/// Whether a call can take `args` as its argument bundle.
pub fn takes_as_call(args: &Value) -> (takes: bool)
    ensures
        takes == call_takes(*args),
    decreases *args,
{
    match args {
        Value::Sequence { .. } => true,
        Value::Tuple { .. } => true,
        Value::TupleStruct { .. } => true,
        Value::Mapping { .. } => true,
        Value::Struct { .. } => true,
        Value::Assignment(_) => true,
        Value::LineComment(_) => true,
        Value::FunctionCall(call) => takes_as_call(&call.args),
        _ => false,
    }
}

/// Reads `value` where only a bare string will do: the name of a call, the
/// identifier of an assignment, the text of a comment.
pub fn bare_string_of(value: &Value) -> (r: Result<&str, Error>)
    ensures
        match bare_string(*value) {
            Ok(s) => r matches Ok(t) && t@ == s,
            Err(f) => r matches Err(e) && e@ == f,
        },
{
    match value {
        Value::Str(s) => Ok(s.as_str()),
        Value::UnitVariant { variant, .. } => Ok(variant.as_str()),
        Value::FunctionCall(call) => {
            if takes_as_call(&call.args) {
                Err(crate::error::unsupported_call())
            } else {
                Err(Error::custom("unsupported function call argument type"))
            }
        },
        _ => Err(crate::error::unsupported_call()),
    }
}

} // verus!
