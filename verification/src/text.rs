//! Numerals as text: the decimal, octal and hexadecimal digit strings that the
//! encoder writes, each defined as a sequence of characters and produced by
//! verified code.

use vstd::prelude::*;

verus! {

broadcast use vstd::string::group_string_axioms;

/// `String::push` appends exactly the given character and changes nothing else.
pub assume_specification[ String::push ](s: &mut String, ch: char)
    ensures
        final(s)@ == old(s)@.push(ch),
;

/// The character that stands for the digit `d` in any base up to sixteen:
/// `0` to `9`, then `A` to `F`.
pub open spec fn digit(d: int) -> char {
    if d < 10 {
        (48 + d) as char
    } else {
        (55 + d) as char
    }
}

/// The digits of `n` in base ten, most significant first, without leading
/// zeros (`0` itself is the single digit `0`).
pub open spec fn decimal_digits(n: nat) -> Seq<char>
    decreases n,
{
    if n < 10 {
        seq![digit(n as int)]
    } else {
        decimal_digits(n / 10).push(digit((n % 10) as int))
    }
}

/// The decimal text of an integer: a minus sign for negative numbers, then the
/// digits of the magnitude.
pub open spec fn decimal(n: int) -> Seq<char> {
    if n < 0 {
        seq!['-'] + decimal_digits((-n) as nat)
    } else {
        decimal_digits(n as nat)
    }
}

/// The digits of `n` in base eight, most significant first, without leading
/// zeros.
pub open spec fn octal_digits(n: nat) -> Seq<char>
    decreases n,
{
    if n < 8 {
        seq![digit(n as int)]
    } else {
        octal_digits(n / 8).push(digit((n % 8) as int))
    }
}

/// The lowest `width` hexadecimal digits of `n`, most significant first, in
/// upper case and padded with zeros.
pub open spec fn hex_digits(n: nat, width: nat) -> Seq<char>
    decreases width,
{
    if width == 0 {
        Seq::empty()
    } else {
        hex_digits(n / 16, (width - 1) as nat).push(digit((n % 16) as int))
    }
}

/// `n` spaces.
pub open spec fn spaces(n: nat) -> Seq<char> {
    Seq::new(n, |i: int| ' ')
}

/// The number that a digit character stands for, in any base up to sixteen;
/// `None` for every other character. Lower-case letters are not digits here.
pub open spec fn digit_value(c: char) -> Option<int> {
    let code = c as int;
    if 48 <= code <= 57 {
        Some(code - 48)
    } else if 65 <= code <= 70 {
        Some(code - 55)
    } else {
        None
    }
}

/// Reads a digit string in the given base, most significant digit first. The
/// empty string reads as zero.
pub open spec fn digits_value(s: Seq<char>, base: int) -> int
    decreases s.len(),
{
    if s.len() == 0 {
        0
    } else {
        digits_value(s.drop_last(), base) * base + match digit_value(s.last()) {
            Some(d) => d,
            None => 0,
        }
    }
}

/// Reads decimal text with an optional leading minus sign.
pub open spec fn decimal_value(s: Seq<char>) -> int {
    if s.len() > 0 && s[0] == '-' {
        -digits_value(s.drop_first(), 10)
    } else {
        digits_value(s, 10)
    }
}

/// Every digit character reads back as the digit it was made from.
pub proof fn lemma_digit_value(d: int)
    requires
        0 <= d < 16,
    ensures
        digit_value(digit(d)) == Some(d),
        digit(d) != '-',
        digit(d) != '\\',
{
}

/// Decimal digit strings are never empty and hold decimal digits only.
pub proof fn lemma_decimal_digits_form(n: nat)
    ensures
        decimal_digits(n).len() >= 1,
        forall|i: int|
            0 <= i < decimal_digits(n).len() ==> {
                let d = #[trigger] digit_value(decimal_digits(n)[i]);
                d is Some && 0 <= d->0 < 10
            },
    decreases n,
{
    if n >= 10 {
        lemma_decimal_digits_form(n / 10);
        lemma_digit_value((n % 10) as int);
    } else {
        lemma_digit_value(n as int);
    }
}

/// Reading the decimal digits of a number gives the number back.
pub proof fn lemma_decimal_digits_value(n: nat)
    ensures
        digits_value(decimal_digits(n), 10) == n,
    decreases n,
{
    let s = decimal_digits(n);
    if n < 10 {
        lemma_digit_value(n as int);
        assert(s.drop_last() =~= Seq::<char>::empty());
        assert(digits_value(s.drop_last(), 10) == 0);
    } else {
        lemma_decimal_digits_value(n / 10);
        lemma_digit_value((n % 10) as int);
        assert(s.drop_last() =~= decimal_digits(n / 10));
        assert(s.last() == digit((n % 10) as int));
    }
}

/// The decimal text of an integer reads back as that integer: writing a number
/// and parsing what was written is the identity.
pub proof fn lemma_decimal_round_trip(n: int)
    ensures
        decimal_value(decimal(n)) == n,
{
    if n < 0 {
        let m = (-n) as nat;
        lemma_decimal_digits_value(m);
        assert(decimal(n).drop_first() =~= decimal_digits(m));
    } else {
        lemma_decimal_digits_value(n as nat);
        lemma_decimal_digits_form(n as nat);
        let s = decimal_digits(n as nat);
        assert(digit_value(s[0]) is Some);
    }
}

/// Octal digit strings of numbers below 512 have one to three digits, all of
/// them octal: one below 8, two below 64, three from 64 on. They read back as
/// the number.
pub proof fn lemma_octal_digits_form(n: nat)
    requires
        n < 512,
    ensures
        1 <= octal_digits(n).len() <= 3,
        n < 8 ==> octal_digits(n).len() == 1,
        8 <= n < 64 ==> octal_digits(n).len() == 2,
        n >= 64 ==> octal_digits(n).len() == 3,
        forall|i: int|
            0 <= i < octal_digits(n).len() ==> {
                let d = #[trigger] digit_value(octal_digits(n)[i]);
                d is Some && 0 <= d->0 < 8
            },
        digits_value(octal_digits(n), 8) == n,
    decreases n,
{
    let s = octal_digits(n);
    if n < 8 {
        lemma_digit_value(n as int);
        assert(s.drop_last() =~= Seq::<char>::empty());
        assert(digits_value(s.drop_last(), 8) == 0);
    } else {
        lemma_octal_digits_form(n / 8);
        lemma_digit_value((n % 8) as int);
        assert(s.drop_last() =~= octal_digits(n / 8));
        assert(s.last() == digit((n % 8) as int));
    }
}

/// Padded hexadecimal strings have exactly the width asked for and hold
/// hexadecimal digits only. A number that fits in the width reads back as
/// itself.
pub proof fn lemma_hex_digits_form(n: nat, width: nat)
    ensures
        hex_digits(n, width).len() == width,
        forall|i: int|
            0 <= i < hex_digits(n, width).len() ==> {
                let d = #[trigger] digit_value(hex_digits(n, width)[i]);
                d is Some && 0 <= d->0 < 16
            },
        n < pow16(width) ==> digits_value(hex_digits(n, width), 16) == n,
    decreases width,
{
    let s = hex_digits(n, width);
    if width > 0 {
        let w = (width - 1) as nat;
        lemma_hex_digits_form(n / 16, w);
        lemma_digit_value((n % 16) as int);
        assert(s.drop_last() =~= hex_digits(n / 16, w));
        assert(s.last() == digit((n % 16) as int));
        assert(pow16(width) == 16 * pow16(w));
    }
}

/// Sixteen to the power `k`.
pub open spec fn pow16(k: nat) -> nat
    decreases k,
{
    if k == 0 {
        1
    } else {
        16 * pow16((k - 1) as nat)
    }
}

/// The digit character of `d`.
pub fn digit_char(d: u8) -> (c: char)
    requires
        d < 16,
    ensures
        c == digit(d as int),
{
    if d < 10 {
        (48 + d) as char
    } else {
        (55 + d) as char
    }
}

/// Appends the decimal digits of `n`.
pub fn push_decimal_digits(out: &mut String, n: u128)
    ensures
        final(out)@ == old(out)@ + decimal_digits(n as nat),
    decreases n,
{
    if n >= 10 {
        push_decimal_digits(out, n / 10);
    }
    out.push(digit_char((n % 10) as u8));
    assert(out@ =~= old(out)@ + decimal_digits(n as nat));
}

/// Appends the decimal text of the integer whose magnitude is `magnitude` and
/// which is negative when `negative` is set (and the magnitude is not zero).
pub fn push_decimal(out: &mut String, negative: bool, magnitude: u128)
    ensures
        final(out)@ == old(out)@ + decimal(
            if negative {
                -(magnitude as int)
            } else {
                magnitude as int
            },
        ),
{
    if negative && magnitude != 0 {
        out.push('-');
    }
    push_decimal_digits(out, magnitude);
    assert(out@ =~= old(out)@ + decimal(
        if negative {
            -(magnitude as int)
        } else {
            magnitude as int
        },
    ));
}

/// Appends the octal digits of `n`.
pub fn push_octal_digits(out: &mut String, n: u8)
    ensures
        final(out)@ == old(out)@ + octal_digits(n as nat),
    decreases n,
{
    if n >= 8 {
        push_octal_digits(out, n / 8);
    }
    out.push(digit_char(n % 8));
    assert(out@ =~= old(out)@ + octal_digits(n as nat));
}

/// Appends the lowest `width` hexadecimal digits of `n`, zero-padded.
pub fn push_hex_digits(out: &mut String, n: u32, width: u8)
    ensures
        final(out)@ == old(out)@ + hex_digits(n as nat, width as nat),
    decreases width,
{
    if width > 0 {
        push_hex_digits(out, n / 16, width - 1);
        out.push(digit_char((n % 16) as u8));
    }
    assert(out@ =~= old(out)@ + hex_digits(n as nat, width as nat));
}

/// Appends `n` spaces.
pub fn push_spaces(out: &mut String, n: usize)
    ensures
        final(out)@ == old(out)@ + spaces(n as nat),
{
    let mut i: usize = 0;
    while i < n
        invariant
            i <= n,
            out@ == old(out)@ + spaces(i as nat),
        decreases n - i,
    {
        out.push(' ');
        i += 1;
        assert(out@ =~= old(out)@ + spaces(i as nat));
    }
}

/// Whether two strings hold the same characters.
pub fn same_text(a: &str, b: &str) -> (same: bool)
    ensures
        same == (a@ == b@),
{
    let mut left = a.chars();
    let mut right = b.chars();
    let ghost mut i: int = 0;
    loop
        invariant
            0 <= i <= a@.len(),
            i <= b@.len(),
            a@.subrange(0, i) == b@.subrange(0, i),
            vstd::std_specs::iter::IteratorSpec::remaining(&left) == a@.subrange(
                i,
                a@.len() as int,
            ),
            vstd::std_specs::iter::IteratorSpec::remaining(&right) == b@.subrange(
                i,
                b@.len() as int,
            ),
        decreases a@.len() - i,
    {
        let x = left.next();
        let y = right.next();
        match (x, y) {
            (None, None) => {
                assert(a@ =~= a@.subrange(0, i));
                assert(b@ =~= b@.subrange(0, i));
                return true;
            },
            (Some(p), Some(q)) => {
                if p != q {
                    assert(a@[i] != b@[i]);
                    return false;
                }
                proof {
                    assert(a@.subrange(i, a@.len() as int).drop_first() =~= a@.subrange(
                        i + 1,
                        a@.len() as int,
                    ));
                    assert(b@.subrange(i, b@.len() as int).drop_first() =~= b@.subrange(
                        i + 1,
                        b@.len() as int,
                    ));
                    assert(a@.subrange(0, i + 1) =~= a@.subrange(0, i).push(a@[i]));
                    assert(b@.subrange(0, i + 1) =~= b@.subrange(0, i).push(b@[i]));
                    i = i + 1;
                }
            },
            _ => {
                assert(a@.len() != b@.len());
                return false;
            },
        }
    }
}

} // verus!
