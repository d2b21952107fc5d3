//! How containers are laid out, said directly: items on one line behind
//! each other, or one to a line, and the theorems that the encoding of
//! lists, tuples and dicts is the one or the other.

use crate::error::Failure;
use crate::ser::{
    line, map_multiline, seq_multiline, tuple_multiline, Frame, Outcome, Writer,
};
use crate::text::{decimal, decimal_value, lemma_decimal_round_trip};
use crate::value::{
    call_field, element, elements, emit, emit_assignment, emit_line_comment, emit_map, emit_seq,
    emit_tuple, encode, map_entries, map_key, map_value, Value,
};
use crate::{Assignment, LineComment};
use vstd::prelude::*;

verus! {

/// The items from position `i` on, written on one line: each but the first
/// of all follows a comma and a space.
pub open spec fn joined(items: Seq<Value>, i: int, w: Writer) -> Outcome
    decreases items.len() - i,
{
    if 0 <= i < items.len() {
        match emit(
            items[i],
            if i == 0 {
                w
            } else {
                w.push(", "@)
            },
        ) {
            Ok(w1) => joined(items, i + 1, w1),
            Err(e) => Err(e),
        }
    } else {
        Ok(w)
    }
}

/// The items from position `i` on, written one to a line: each starts a new
/// line and is followed by a comma.
pub open spec fn rows(items: Seq<Value>, i: int, w: Writer) -> Outcome
    decreases items.len() - i,
{
    if 0 <= i < items.len() {
        match emit(items[i], w.newline()) {
            Ok(w1) => rows(items, i + 1, w1.push(","@)),
            Err(e) => Err(e),
        }
    } else {
        Ok(w)
    }
}

/// The entries from position `i` on, written on one line: each but the
/// first of all follows a comma and a space, and a colon and a space stand
/// between a key and its value.
pub open spec fn joined_entries(entries: Seq<(Value, Value)>, i: int, w: Writer) -> Outcome
    decreases entries.len() - i,
{
    if 0 <= i < entries.len() {
        match emit(
            entries[i].0,
            if i == 0 {
                w
            } else {
                w.push(", "@)
            },
        ) {
            Ok(w1) => match emit(entries[i].1, w1.push(": "@)) {
                Ok(w2) => joined_entries(entries, i + 1, w2),
                Err(e) => Err(e),
            },
            Err(e) => Err(e),
        }
    } else {
        Ok(w)
    }
}

/// The entries from position `i` on, written one to a line: each starts a
/// new line, a colon and a space stand between its key and its value, and a
/// comma follows it.
pub open spec fn entry_rows(entries: Seq<(Value, Value)>, i: int, w: Writer) -> Outcome
    decreases entries.len() - i,
{
    if 0 <= i < entries.len() {
        match emit(entries[i].0, w.newline()) {
            Ok(w1) => match emit(entries[i].1, w1.push(": "@)) {
                Ok(w2) => entry_rows(entries, i + 1, w2.push(","@)),
                Err(e) => Err(e),
            },
            Err(e) => Err(e),
        }
    } else {
        Ok(w)
    }
}

/// `body` between an opening and a closing delimiter, on one line.
pub open spec fn enclosed(body: Outcome, close: Seq<char>) -> Outcome {
    match body {
        Ok(w) => Ok(w.push(close)),
        Err(e) => Err(e),
    }
}

/// `body` over several lines: the closing delimiter stands on a line of its
/// own, one level out.
pub open spec fn enclosed_rows(body: Outcome, close: Seq<char>) -> Outcome {
    match body {
        Ok(w) => Ok(w.unindent().push(close)),
        Err(e) => Err(e),
    }
}

/// On one line, the elements of a list or a tuple that has started `i`
/// elements are the items joined.
proof fn lemma_elements_joined(items: Seq<Value>, i: int, w: Writer)
    requires
        0 <= i <= items.len(),
    ensures
        elements(items, i, Frame { multiline: false, count: i as nat }, w) == match joined(
            items,
            i,
            w,
        ) {
            Ok(w1) => Ok((Frame { multiline: false, count: items.len() }, w1)),
            Err(e) => Err(e),
        },
    decreases items.len() - i,
{
    reveal_with_fuel(elements, 2);
    reveal_with_fuel(element, 2);
    if i < items.len() {
        match emit(
            items[i],
            if i == 0 {
                w
            } else {
                w.push(", "@)
            },
        ) {
            Ok(w1) => {
                lemma_elements_joined(items, i + 1, w1);
            },
            Err(e) => {},
        }
    }
}

/// Over several lines, the elements of a list or a tuple that has started
/// at least one element are the items in rows.
proof fn lemma_elements_rows(items: Seq<Value>, i: int, count: nat, w: Writer)
    requires
        0 <= i <= items.len(),
        count >= 1,
    ensures
        elements(items, i, Frame { multiline: true, count }, w) == match rows(items, i, w) {
            Ok(w1) => Ok((Frame { multiline: true, count: (count + items.len() - i) as nat }, w1)),
            Err(e) => Err(e),
        },
    decreases items.len() - i,
{
    reveal_with_fuel(elements, 2);
    reveal_with_fuel(element, 2);
    if i < items.len() {
        match emit(items[i], w.newline()) {
            Ok(w1) => {
                lemma_elements_rows(items, i + 1, count + 1, w1.push(","@));
            },
            Err(e) => {},
        }
    }
}

/// On one line, the entries of a dict that has started `i` entries are the
/// entries joined.
proof fn lemma_entries_joined(entries: Seq<(Value, Value)>, i: int, w: Writer)
    requires
        0 <= i <= entries.len(),
    ensures
        map_entries(entries, i, Frame { multiline: false, count: i as nat }, w)
            == match joined_entries(entries, i, w) {
            Ok(w1) => Ok((Frame { multiline: false, count: entries.len() }, w1)),
            Err(e) => Err(e),
        },
    decreases entries.len() - i,
{
    reveal_with_fuel(map_entries, 2);
    reveal_with_fuel(map_key, 2);
    reveal_with_fuel(map_value, 2);
    if i < entries.len() {
        match emit(
            entries[i].0,
            if i == 0 {
                w
            } else {
                w.push(", "@)
            },
        ) {
            Ok(w1) => match emit(entries[i].1, w1.push(": "@)) {
                Ok(w2) => {
                    lemma_entries_joined(entries, i + 1, w2);
                },
                Err(e) => {},
            },
            Err(e) => {},
        }
    }
}

/// Over several lines, the entries of a dict that has started at least one
/// entry are the entries in rows.
proof fn lemma_entries_rows(entries: Seq<(Value, Value)>, i: int, count: nat, w: Writer)
    requires
        0 <= i <= entries.len(),
        count >= 1,
    ensures
        map_entries(entries, i, Frame { multiline: true, count }, w) == match entry_rows(
            entries,
            i,
            w,
        ) {
            Ok(w1) => Ok(
                (Frame { multiline: true, count: (count + entries.len() - i) as nat }, w1),
            ),
            Err(e) => Err(e),
        },
    decreases entries.len() - i,
{
    reveal_with_fuel(map_entries, 2);
    reveal_with_fuel(map_key, 2);
    reveal_with_fuel(map_value, 2);
    if i < entries.len() {
        match emit(entries[i].0, w.newline()) {
            Ok(w1) => match emit(entries[i].1, w1.push(": "@)) {
                Ok(w2) => {
                    lemma_entries_rows(entries, i + 1, count + 1, w2.push(","@));
                },
                Err(e) => {},
            },
            Err(e) => {},
        }
    }
}

/// The layout of a list, whatever length it declares. A list that declares
/// at most one element stands on one line, its elements joined between the
/// brackets. A list that declares more, or no length at all, has one element
/// to a line, each one level in and followed by a comma, and closes on a
/// line of its own; without elements it is a pair of brackets. The two layout
/// hints fall under the two cases.
pub proof fn lemma_seq_layout(len: Option<usize>, items: Seq<Value>, w: Writer)
    ensures
        !seq_multiline(len) ==> emit_seq(len, items, w) == enclosed(
            joined(items, 0, w.push("["@)),
            "]"@,
        ),
        seq_multiline(len) && items.len() == 0 ==> emit_seq(len, items, w) == enclosed(
            Ok(w.push("["@)),
            "]"@,
        ),
        seq_multiline(len) && items.len() > 0 ==> emit_seq(len, items, w) == enclosed_rows(
            rows(items, 0, w.push("["@).indent()),
            "]"@,
        ),
{
    let w0 = w.push("["@);
    if !seq_multiline(len) {
        lemma_elements_joined(items, 0, w0);
    } else if items.len() > 0 {
        match emit(items[0], w0.indent().newline()) {
            Ok(w1) => {
                lemma_elements_rows(items, 1, 1, w1.push(","@));
            },
            Err(e) => {},
        }
    }
}

/// A list that declares as many elements as it holds: with none it is `[]`,
/// with one the element stands between the brackets on the same line, with
/// more every element has a line of its own and a comma after it.
pub proof fn lemma_seq_layout_by_length(items: Seq<Value>, w: Writer)
    requires
        items.len() <= usize::MAX,
    ensures
        ({
            let r = emit_seq(Some(items.len() as usize), items, w);
            &&& items.len() == 0 ==> r == enclosed(Ok(w.push("["@)), "]"@)
            &&& items.len() == 1 ==> r == enclosed(emit(items[0], w.push("["@)), "]"@)
            &&& items.len() > 1 ==> r == enclosed_rows(
                rows(items, 0, w.push("["@).indent()),
                "]"@,
            )
        }),
{
    lemma_seq_layout(Some(items.len() as usize), items, w);
    if items.len() == 1 {
        reveal_with_fuel(joined, 2);
    }
}

/// The layout of a tuple. It stands on one line, its elements joined
/// between the parentheses, and with exactly one element a comma follows
/// that element. Only the multi-line hint in place of its length gives each
/// element a line.
pub proof fn lemma_tuple_layout(len: usize, items: Seq<Value>, w: Writer)
    ensures
        !tuple_multiline(len) ==> emit_tuple(len, items, w) == enclosed(
            match joined(items, 0, w.push("("@)) {
                Ok(w1) => Ok(
                    if items.len() == 1 {
                        w1.push(","@)
                    } else {
                        w1
                    },
                ),
                Err(e) => Err(e),
            },
            ")"@,
        ),
        tuple_multiline(len) && items.len() == 0 ==> emit_tuple(len, items, w) == enclosed(
            Ok(w.push("("@)),
            ")"@,
        ),
        tuple_multiline(len) && items.len() > 0 ==> emit_tuple(len, items, w) == enclosed_rows(
            rows(items, 0, w.push("("@).indent()),
            ")"@,
        ),
{
    let w0 = w.push("("@);
    if !tuple_multiline(len) {
        lemma_elements_joined(items, 0, w0);
    } else if items.len() > 0 {
        match emit(items[0], w0.indent().newline()) {
            Ok(w1) => {
                lemma_elements_rows(items, 1, 1, w1.push(","@));
            },
            Err(e) => {},
        }
    }
}

/// The layout of a dict, whatever length it declares. A dict that declares
/// no entry stands on one line, which the one-line hint asks for as well. A
/// dict that declares entries, or no length at all, has one entry to a line,
/// each one level in and followed by a comma, and closes on a line of its
/// own; without entries it is a pair of braces.
pub proof fn lemma_map_layout(len: Option<usize>, entries: Seq<(Value, Value)>, w: Writer)
    ensures
        !map_multiline(len) ==> emit_map(len, entries, w) == enclosed(
            joined_entries(entries, 0, w.push("{"@)),
            "}"@,
        ),
        map_multiline(len) && entries.len() == 0 ==> emit_map(len, entries, w) == enclosed(
            Ok(w.push("{"@)),
            "}"@,
        ),
        map_multiline(len) && entries.len() > 0 ==> emit_map(len, entries, w) == enclosed_rows(
            entry_rows(entries, 0, w.push("{"@).indent()),
            "}"@,
        ),
{
    let w0 = w.push("{"@);
    if !map_multiline(len) {
        lemma_entries_joined(entries, 0, w0);
    } else if entries.len() > 0 {
        match emit(entries[0].0, w0.indent().newline()) {
            Ok(w1) => match emit(entries[0].1, w1.push(": "@)) {
                Ok(w2) => {
                    lemma_entries_rows(entries, 1, 1, w2.push(","@));
                },
                Err(e) => {},
            },
            Err(e) => {},
        }
    }
}

/// A dict that declares as many entries as it holds: with none it is `{}`,
/// with any it has every entry on a line of its own.
pub proof fn lemma_map_layout_by_length(entries: Seq<(Value, Value)>, w: Writer)
    requires
        entries.len() <= usize::MAX,
    ensures
        ({
            let r = emit_map(Some(entries.len() as usize), entries, w);
            &&& entries.len() == 0 ==> r == enclosed(Ok(w.push("{"@)), "}"@)
            &&& entries.len() > 0 ==> r == enclosed_rows(
                entry_rows(entries, 0, w.push("{"@).indent()),
                "}"@,
            )
        }),
{
    lemma_map_layout(Some(entries.len() as usize), entries, w);
    if entries.len() == 0 {
        assert(joined_entries(entries, 0, w.push("{"@)) == Ok::<Writer, Failure>(w.push("{"@)));
    }
}

/// An assignment is written as its identifier, an equals sign between two
/// spaces, and its value, with nothing around them.
pub proof fn lemma_assignment_layout(assignment: Assignment, w: Writer)
    ensures
        emit_assignment(assignment, w) == emit(
            assignment.value,
            w.push(assignment.identifier@).push(" = "@),
        ),
{
    reveal_with_fuel(call_field, 2);
}

/// A commented value is written as the value alone; the comment waits in
/// the writer from before the value is written until the first line ends.
pub proof fn lemma_line_comment_layout(comment: LineComment, w: Writer)
    ensures
        emit_line_comment(comment, w) == emit(comment.value, w.comment(comment.comment@)),
{
    reveal_with_fuel(call_field, 2);
    reveal_strlit("#");
    reveal_strlit("=");
    reveal_strlit("(");
    reveal_strlit("+");
    assert("#"@[0] != "="@[0]);
    assert("#"@[0] != "("@[0]);
    assert("#"@[0] != "+"@[0]);
}

/// The integer that a value of an integer shape holds.
pub open spec fn integer_of(v: Value) -> Option<int> {
    match v {
        Value::I8(n) => Some(n as int),
        Value::I16(n) => Some(n as int),
        Value::I32(n) => Some(n as int),
        Value::I64(n) => Some(n as int),
        Value::I128(n) => Some(n as int),
        Value::U8(n) => Some(n as int),
        Value::U16(n) => Some(n as int),
        Value::U32(n) => Some(n as int),
        Value::U64(n) => Some(n as int),
        Value::U128(n) => Some(n as int),
        _ => None,
    }
}

/// The failure for an integer of the given shape that does not fit: it
/// carries the integer at its width.
pub open spec fn out_of_range(v: Value) -> Option<Failure> {
    match v {
        Value::I64(n) => Some(Failure::UnsupportedI64(n)),
        Value::I128(n) => Some(Failure::UnsupportedI128(n)),
        Value::U32(n) => Some(Failure::UnsupportedU32(n)),
        Value::U64(n) => Some(Failure::UnsupportedU64(n)),
        Value::U128(n) => Some(Failure::UnsupportedU128(n)),
        _ => None,
    }
}

/// An integer of any width that fits in 32 signed bits is encoded as its
/// decimal text on a line of its own, and that text reads back as the
/// integer. An integer that does not fit fails with the failure that
/// carries it.
pub proof fn lemma_integer_encoding(v: Value)
    requires
        integer_of(v) is Some,
    ensures
        ({
            let n = integer_of(v)->0;
            &&& i32::MIN <= n <= i32::MAX ==> encode(v) == Ok::<Seq<char>, Failure>(
                line(decimal(n)),
            ) && decimal_value(decimal(n)) == n
            &&& !(i32::MIN <= n <= i32::MAX) ==> out_of_range(v) is Some && encode(v) == Err::<
                Seq<char>,
                Failure,
            >(out_of_range(v)->0)
        }),
{
    let n = integer_of(v)->0;
    lemma_decimal_round_trip(n);
    crate::ser::lemma_line(decimal(n));
}

} // verus!
