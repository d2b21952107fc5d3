//! String literals: which characters are written as they are, which are
//! escaped, and in what form.

use crate::text::{
    digit_value, digits_value, hex_digits, lemma_hex_digits_form, lemma_octal_digits_form,
    octal_digits, pow16, push_hex_digits, push_octal_digits,
};
use vstd::prelude::*;

verus! {

broadcast use vstd::string::group_string_axioms;

/// The letter of the two-character escape of `c`, for the characters that
/// have one: bell, backspace, form feed, line feed, carriage return, tab,
/// vertical tab, the double quote and the backslash.
pub open spec fn named_escape(c: char) -> Option<char> {
    if c == '\x07' {
        Some('a')
    } else if c == '\x08' {
        Some('b')
    } else if c == '\x0C' {
        Some('f')
    } else if c == '\n' {
        Some('n')
    } else if c == '\r' {
        Some('r')
    } else if c == '\t' {
        Some('t')
    } else if c == '\x0B' {
        Some('v')
    } else if c == '"' {
        Some('"')
    } else if c == '\\' {
        Some('\\')
    } else {
        None
    }
}

/// The ASCII control characters: U+0000 to U+001F, and U+007F.
pub open spec fn is_ascii_control(c: char) -> bool {
    c as u32 <= 0x1F || c as u32 == 0x7F
}

/// The control characters of Unicode: U+0000 to U+001F, and U+007F to U+009F.
pub open spec fn is_control(c: char) -> bool {
    c as u32 <= 0x1F || 0x7F <= c as u32 <= 0x9F
}

/// The digits `0` to `7`.
pub open spec fn is_octal_digit(c: char) -> bool {
    '0' <= c <= '7'
}

/// Whether the character after `c` could be read as one more digit of an
/// octal escape of `c`.
pub open spec fn octal_would_run_on(next: Option<char>) -> bool {
    next matches Some(n) && is_octal_digit(n)
}

/// The fixed-width escape of `c`: `\xHH` up to U+007F, `\uHHHH` up to U+FFFF,
/// `\UHHHHHHHH` above.
pub open spec fn fixed_escape(c: char) -> Seq<char> {
    if c as u32 <= 0x7F {
        seq!['\\', 'x'] + hex_digits(c as nat, 2)
    } else if c as u32 <= 0xFFFF {
        seq!['\\', 'u'] + hex_digits(c as nat, 4)
    } else {
        seq!['\\', 'U'] + hex_digits(c as nat, 8)
    }
}

/// The octal escape of `c`: a backslash and the octal digits of its code,
/// without padding.
pub open spec fn octal_escape(c: char) -> Seq<char> {
    seq!['\\'] + octal_digits(c as nat)
}

/// What is written for the character `c` inside a string literal when `next`
/// is the character that follows it in the string.
///
/// A character with a two-character escape gets that. Any other ASCII control
/// character gets an octal escape, unless its code is below octal 100 and an
/// octal digit follows, which a reader would take for part of the escape: then
/// it gets the fixed-width escape. Control characters above ASCII get the
/// fixed-width escape. Every other character stands for itself.
pub open spec fn escape_char(c: char, next: Option<char>) -> Seq<char> {
    match named_escape(c) {
        Some(letter) => seq!['\\', letter],
        None => if is_ascii_control(c) && (c as u32 >= 0o100 || !octal_would_run_on(next)) {
            octal_escape(c)
        } else if is_control(c) {
            fixed_escape(c)
        } else {
            seq![c]
        },
    }
}

/// The character after position `i` of `s`, if there is one.
pub open spec fn following(s: Seq<char>, i: int) -> Option<char> {
    if i + 1 < s.len() {
        Some(s[i + 1])
    } else {
        None
    }
}

/// What is written for the characters of `s` from position `i` on.
pub open spec fn escape_from(s: Seq<char>, i: int) -> Seq<char>
    decreases s.len() - i,
{
    if 0 <= i < s.len() {
        escape_char(s[i], following(s, i)) + escape_from(s, i + 1)
    } else {
        Seq::empty()
    }
}

/// The body of the string literal for `s`, without its quotes.
pub open spec fn escape(s: Seq<char>) -> Seq<char> {
    escape_from(s, 0)
}

/// The string literal for `s`: its escaped body between double quotes.
pub open spec fn quoted(s: Seq<char>) -> Seq<char> {
    seq!['"'] + escape(s) + seq!['"']
}

/// The letter of the two-character escape of `c`, if it has one.
pub fn named_escape_of(c: char) -> (letter: Option<char>)
    ensures
        letter == named_escape(c),
{
    match c {
        '\x07' => Some('a'),
        '\x08' => Some('b'),
        '\x0C' => Some('f'),
        '\n' => Some('n'),
        '\r' => Some('r'),
        '\t' => Some('t'),
        '\x0B' => Some('v'),
        '"' => Some('"'),
        '\\' => Some('\\'),
        _ => None,
    }
}

/// Appends what is written for `c` when `next` follows it.
pub fn push_escaped_char(out: &mut String, c: char, next: Option<char>)
    ensures
        final(out)@ == old(out)@ + escape_char(c, next),
{
    let code: u32 = c as u32;
    if let Some(letter) = named_escape_of(c) {
        out.push('\\');
        out.push(letter);
    } else if (code <= 0x1F || code == 0x7F) && (code >= 0o100 || !runs_on(next)) {
        out.push('\\');
        push_octal_digits(out, code as u8);
    } else if code <= 0x1F || (0x7F <= code && code <= 0x9F) {
        if code <= 0x7F {
            out.push('\\');
            out.push('x');
            push_hex_digits(out, code, 2);
        } else if code <= 0xFFFF {
            out.push('\\');
            out.push('u');
            push_hex_digits(out, code, 4);
        } else {
            out.push('\\');
            out.push('U');
            push_hex_digits(out, code, 8);
        }
    } else {
        out.push(c);
    }
    assert(out@ =~= old(out)@ + escape_char(c, next));
}

/// Whether `next` is an octal digit.
fn runs_on(next: Option<char>) -> (r: bool)
    ensures
        r == octal_would_run_on(next),
{
    match next {
        Some(n) => '0' <= n && n <= '7',
        None => false,
    }
}

/// Appends the string literal for `s`.
pub fn push_quoted(out: &mut String, s: &str)
    ensures
        final(out)@ == old(out)@ + quoted(s@),
{
    out.push('"');
    let ghost text = s@;
    let ghost start = out@;
    let mut chars = s.chars();
    let mut current = chars.next();
    let ghost mut i: int = 0;
    while current.is_some()
        invariant
            0 <= i <= text.len(),
            current == if i < text.len() {
                Some(text[i])
            } else {
                None
            },
            vstd::std_specs::iter::IteratorSpec::remaining(&chars) == if i < text.len() {
                text.subrange(i + 1, text.len() as int)
            } else {
                Seq::<char>::empty()
            },
            out@ + escape_from(text, i) == start + escape(text),
        decreases text.len() - i,
    {
        let c = current.unwrap();
        let next = chars.next();
        assert(next == following(text, i));
        let ghost before = out@;
        push_escaped_char(out, c, next);
        current = next;
        proof {
            assert(before + escape_from(text, i) =~= out@ + escape_from(text, i + 1));
            if i + 1 < text.len() {
                assert(text.subrange(i + 1, text.len() as int).drop_first() =~= text.subrange(
                    i + 2,
                    text.len() as int,
                ));
            }
            i = i + 1;
        }
    }
    out.push('"');
    assert(out@ =~= old(out)@ + quoted(s@));
}

/// The character that the two-character escape with the given letter
/// stands for.
pub open spec fn named_char(letter: char) -> Option<char> {
    if letter == 'a' {
        Some('\x07')
    } else if letter == 'b' {
        Some('\x08')
    } else if letter == 'f' {
        Some('\x0C')
    } else if letter == 'n' {
        Some('\n')
    } else if letter == 'r' {
        Some('\r')
    } else if letter == 't' {
        Some('\t')
    } else if letter == 'v' {
        Some('\x0B')
    } else if letter == '"' {
        Some('"')
    } else if letter == '\\' {
        Some('\\')
    } else {
        None
    }
}

/// How many octal digits a reader takes after the backslash at the head of
/// `t`: as many as there are, up to three.
pub open spec fn octal_run(t: Seq<char>) -> nat {
    if t.len() > 1 && is_octal_digit(t[1]) {
        if t.len() > 2 && is_octal_digit(t[2]) {
            if t.len() > 3 && is_octal_digit(t[3]) {
                3
            } else {
                2
            }
        } else {
            1
        }
    } else {
        0
    }
}

/// The length of the escape at the head of `t`, which starts with a
/// backslash: two characters for a letter, the letter and two, four or eight
/// digits for the fixed widths, one to three digits for an octal escape.
/// Zero where no escape can be read.
pub open spec fn escape_len(t: Seq<char>) -> nat {
    if t.len() < 2 {
        0
    } else if named_char(t[1]) is Some {
        2
    } else if t[1] == 'x' {
        4
    } else if t[1] == 'u' {
        6
    } else if t[1] == 'U' {
        10
    } else {
        let run = octal_run(t);
        if run == 0 {
            0
        } else {
            1 + run
        }
    }
}

/// The character that the escape at the head of `t` stands for.
pub open spec fn escape_value(t: Seq<char>) -> char {
    if named_char(t[1]) is Some {
        named_char(t[1])->0
    } else if t[1] == 'x' || t[1] == 'u' || t[1] == 'U' {
        digits_value(t.subrange(2, escape_len(t) as int), 16) as char
    } else {
        digits_value(t.subrange(1, escape_len(t) as int), 8) as char
    }
}

/// The string that the body of a string literal stands for, as a reader of
/// the language takes it: every escape gives its character, every other
/// character gives itself. Reading stops where an escape cannot be read.
pub open spec fn unescape(t: Seq<char>) -> Seq<char>
    decreases t.len(),
{
    if t.len() == 0 {
        Seq::empty()
    } else if t[0] != '\\' {
        seq![t[0]] + unescape(t.skip(1))
    } else {
        let n = escape_len(t);
        if n == 0 || n > t.len() {
            Seq::empty()
        } else {
            seq![escape_value(t)] + unescape(t.skip(n as int))
        }
    }
}

/// Whether `e` is an escape of one of the forms of the language: a
/// backslash and a letter, a backslash and one to three octal digits, or a
/// backslash, one of `x`, `u` and `U`, and two, four or eight hexadecimal
/// digits.
pub open spec fn is_escape_form(e: Seq<char>) -> bool {
    &&& e.len() >= 2
    &&& e[0] == '\\'
    &&& {
        ||| e.len() == 2 && named_char(e[1]) is Some
        ||| e.len() <= 4 && forall|i: int| 1 <= i < e.len() ==> is_octal_digit(#[trigger] e[i])
        ||| (e[1] == 'x' && e.len() == 4 || e[1] == 'u' && e.len() == 6 || e[1] == 'U' && e.len()
            == 10) && forall|i: int| 2 <= i < e.len() ==> digit_value(#[trigger] e[i]) is Some
    }
}

/// Whatever is written for a character is the character itself, where it
/// needs no escape, or an escape of one of the forms of the language.
pub proof fn lemma_escape_char_form(c: char, next: Option<char>)
    ensures
        escape_char(c, next) == seq![c] && named_escape(c) is None && !is_control(c)
            || is_escape_form(escape_char(c, next)),
{
    let e = escape_char(c, next);
    if named_escape(c) is Some {
    } else if is_ascii_control(c) && (c as u32 >= 0o100 || !octal_would_run_on(next)) {
        lemma_octal_digits_form(c as nat);
        let d = octal_digits(c as nat);
        assert forall|i: int| 1 <= i < e.len() implies is_octal_digit(#[trigger] e[i]) by {
            assert(e[i] == d[i - 1]);
            assert(digit_value(d[i - 1]) is Some);
        }
    } else if is_control(c) {
        let width: nat = if c as u32 <= 0x7F {
            2
        } else if c as u32 <= 0xFFFF {
            4
        } else {
            8
        };
        lemma_hex_digits_form(c as nat, width);
        let d = hex_digits(c as nat, width);
        assert forall|i: int| 2 <= i < e.len() implies digit_value(#[trigger] e[i]) is Some by {
            assert(e[i] == d[i - 2]);
            assert(digit_value(d[i - 2]) is Some);
        }
    }
}

/// What is written for a string from a position on starts with a backslash
/// or with the character at that position, and is empty past the end.
proof fn lemma_escape_head(s: Seq<char>, i: int)
    requires
        0 <= i,
    ensures
        i >= s.len() ==> escape_from(s, i).len() == 0,
        i < s.len() ==> escape_from(s, i).len() > 0 && (escape_from(s, i)[0] == '\\'
            || escape_from(s, i)[0] == s[i] && s[i] != '\\'),
{
    if i < s.len() {
        let e = escape_char(s[i], following(s, i));
        assert(e.len() > 0 && (e[0] == '\\' || e[0] == s[i] && s[i] != '\\'));
        assert(escape_from(s, i)[0] == e[0]);
    }
}

/// A reader takes what was written for a character as that character and
/// goes on behind it, provided that an octal digit follows only where the
/// rules for writing have allowed for it.
proof fn lemma_unescape_step(c: char, next: Option<char>, rest: Seq<char>)
    requires
        rest.len() > 0 && is_octal_digit(rest[0]) ==> octal_would_run_on(next),
    ensures
        unescape(escape_char(c, next) + rest) == seq![c] + unescape(rest),
{
    let e = escape_char(c, next);
    let t = e + rest;
    if named_escape(c) is Some {
        assert(t[0] == '\\');
        assert(t[1] == named_escape(c)->0);
        assert(t.skip(2) =~= rest);
    } else if is_ascii_control(c) && (c as u32 >= 0o100 || !octal_would_run_on(next)) {
        let d = octal_digits(c as nat);
        lemma_octal_digits_form(c as nat);
        assert(t[0] == '\\');
        assert forall|i: int| 0 <= i < d.len() implies is_octal_digit(#[trigger] t[i + 1]) by {
            assert(t[i + 1] == d[i]);
            assert(digit_value(d[i]) is Some);
        }
        assert(is_octal_digit(t[0int + 1]));
        if d.len() >= 2 {
            assert(is_octal_digit(t[1int + 1]));
        }
        if d.len() >= 3 {
            assert(is_octal_digit(t[2int + 1]));
        }
        if d.len() < 3 && rest.len() > 0 {
            assert(t[d.len() as int + 1] == rest[0]);
        }
        assert(octal_run(t) == d.len());
        assert(named_char(t[1]) is None);
        assert(escape_len(t) == 1 + d.len());
        assert(t.subrange(1, 1 + d.len() as int) =~= d);
        assert(t.skip(1 + d.len() as int) =~= rest);
        assert(escape_value(t) == c);
    } else if is_control(c) {
        let width: nat = if c as u32 <= 0x7F {
            2
        } else if c as u32 <= 0xFFFF {
            4
        } else {
            8
        };
        let d = hex_digits(c as nat, width);
        lemma_hex_digits_form(c as nat, width);
        reveal_with_fuel(pow16, 9);
        assert(t[0] == '\\');
        assert(named_char(t[1]) is None);
        assert(escape_len(t) == 2 + width);
        assert(t.subrange(2, 2 + width as int) =~= d);
        assert(t.skip(2 + width as int) =~= rest);
        assert(escape_value(t) == c);
    } else {
        assert(t[0] == c);
        assert(t.skip(1) =~= rest);
    }
}

/// A reader takes what was written for a string from a position on as the
/// string from that position on.
proof fn lemma_unescape_from(s: Seq<char>, i: int)
    requires
        0 <= i <= s.len(),
    ensures
        unescape(escape_from(s, i)) == s.subrange(i, s.len() as int),
    decreases s.len() - i,
{
    if i < s.len() {
        let rest = escape_from(s, i + 1);
        lemma_escape_head(s, i + 1);
        lemma_unescape_step(s[i], following(s, i), rest);
        lemma_unescape_from(s, i + 1);
        assert(seq![s[i]] + s.subrange(i + 1, s.len() as int) =~= s.subrange(i, s.len() as int));
    } else {
        assert(s.subrange(i, s.len() as int) =~= Seq::<char>::empty());
    }
}

/// Reading what was written for a string gives the string back: no escape
/// is taken for another, and no octal escape runs on into a digit that
/// follows it.
pub proof fn lemma_unescape_escape(s: Seq<char>)
    ensures
        unescape(escape(s)) == s,
{
    lemma_unescape_from(s, 0);
    assert(s.subrange(0, s.len() as int) =~= s);
}

/// Writing is stable: what is written for the string that a written text
/// reads as is that text again, character for character.
pub proof fn lemma_escape_stable(s: Seq<char>)
    ensures
        escape(unescape(escape(s))) == escape(s),
{
    lemma_unescape_escape(s);
}

} // verus!
