//! Texts as sequences of characters: decimal numbers, character classes,
//! splitting, and length in bytes.

pub mod laws;

use vstd::prelude::*;
use vstd::string::*;
use vstd::utf8::*;

verus! {

/// The character of a decimal digit.
pub open spec fn digit(d: nat) -> char {
    if d == 0 {
        '0'
    } else if d == 1 {
        '1'
    } else if d == 2 {
        '2'
    } else if d == 3 {
        '3'
    } else if d == 4 {
        '4'
    } else if d == 5 {
        '5'
    } else if d == 6 {
        '6'
    } else if d == 7 {
        '7'
    } else if d == 8 {
        '8'
    } else {
        '9'
    }
}

/// A number in decimal notation, without leading zeros.
pub open spec fn decimal(n: nat) -> Seq<char>
    decreases n,
{
    if n < 10 {
        seq![digit(n)]
    } else {
        decimal(n / 10).push(digit(n % 10))
    }
}

/// A number in decimal notation, filled up on the left with zeros to at
/// least `width` digits.
pub open spec fn padded_decimal(n: nat, width: nat) -> Seq<char> {
    if decimal(n).len() < width {
        Seq::new((width - decimal(n).len()) as nat, |i: int| '0') + decimal(n)
    } else {
        decimal(n)
    }
}

/// A truth value in words.
pub open spec fn bool_word(value: bool) -> Seq<char> {
    if value {
        "true"@
    } else {
        "false"@
    }
}

/// Whether a character is one of `0` to `9`.
pub open spec fn is_digit(c: char) -> bool {
    '0' as u32 <= c as u32 && c as u32 <= '9' as u32
}

/// Whether a character is an ASCII letter or digit.
pub open spec fn is_alphanumeric(c: char) -> bool {
    ||| is_digit(c)
    ||| 'a' as u32 <= c as u32 && c as u32 <= 'z' as u32
    ||| 'A' as u32 <= c as u32 && c as u32 <= 'Z' as u32
}

/// The number of bytes of a text in UTF-8.
pub open spec fn byte_length(text: Seq<char>) -> nat {
    encode_utf8(text).len()
}

/// The value of a sequence of decimal digits.
pub open spec fn digits_value(digits: Seq<char>) -> nat
    decreases digits.len(),
{
    if digits.len() == 0 {
        0
    } else {
        (10 * digits_value(digits.drop_last()) + (digits.last() as u32 - '0' as u32)) as nat
    }
}

/// The parts of a text between the occurrences of a separator.
pub open spec fn split(text: Seq<char>, separator: char) -> Seq<Seq<char>>
    decreases text.len(),
{
    if text.len() == 0 {
        seq![Seq::<char>::empty()]
    } else {
        let before = split(text.drop_last(), separator);
        if text.last() == separator {
            before.push(Seq::<char>::empty())
        } else {
            before.drop_last().push(before.last().push(text.last()))
        }
    }
}

/// The texts of a list with a separator between neighbours.
pub open spec fn joined(parts: Seq<Seq<char>>, separator: Seq<char>) -> Seq<char>
    decreases parts.len(),
{
    if parts.len() == 0 {
        Seq::empty()
    } else if parts.len() == 1 {
        parts[0]
    } else {
        joined(parts.drop_last(), separator) + separator + parts.last()
    }
}

/// The bytes of two texts one after the other are the bytes of the first
/// followed by those of the second.
pub proof fn byte_length_of_sum(a: Seq<char>, b: Seq<char>)
    ensures
        byte_length(a + b) == byte_length(a) + byte_length(b),
    decreases a.len(),
{
    if a.len() == 0 {
        assert(a + b =~= b);
    } else {
        assert((a + b).drop_first() =~= a.drop_first() + b);
        byte_length_of_sum(a.drop_first(), b);
    }
}

/// A text of ASCII characters has as many bytes as characters.
pub proof fn byte_length_of_ascii(text: Seq<char>)
    requires
        is_ascii_chars(text),
    ensures
        byte_length(text) == text.len(),
{
    broadcast use is_ascii_chars_encode_utf8;
}

/// The number of bytes of a text in UTF-8.
pub fn length_in_bytes(text: &str) -> (r: usize)
    ensures
        r == byte_length(text@),
{
    text.as_bytes().len()
}

fn digit_text(d: u8) -> (r: &'static str)
    requires
        d < 10,
    ensures
        r@ == seq![digit(d as nat)],
{
    proof {
        reveal_strlit("0");
        reveal_strlit("1");
        reveal_strlit("2");
        reveal_strlit("3");
        reveal_strlit("4");
        reveal_strlit("5");
        reveal_strlit("6");
        reveal_strlit("7");
        reveal_strlit("8");
        reveal_strlit("9");
    }
    let r = match d {
        0 => "0",
        1 => "1",
        2 => "2",
        3 => "3",
        4 => "4",
        5 => "5",
        6 => "6",
        7 => "7",
        8 => "8",
        _ => "9",
    };
    assert(r@ =~= seq![digit(d as nat)]);
    r
}

/// A number in decimal notation.
pub fn decimal_text(n: u128) -> (r: String)
    ensures
        r@ == decimal(n as nat),
    decreases n,
{
    let last: u8 = (n % 10) as u8;
    if n < 10 {
        String::from_str(digit_text(last))
    } else {
        let r = decimal_text(n / 10).concat(digit_text(last));
        assert(r@ =~= decimal(n as nat));
        r
    }
}

/// A number in decimal notation, filled up on the left with zeros to at
/// least `width` digits.
pub fn padded_decimal_text(n: u128, width: usize) -> (r: String)
    ensures
        r@ == padded_decimal(n as nat, width as nat),
{
    let digits = decimal_text(n);
    let length = digits.as_str().unicode_len();
    if length >= width {
        return digits;
    }
    let missing: usize = width - length;
    let mut r = String::new();
    let mut filled: usize = 0;
    while filled < missing
        invariant
            filled <= missing,
            r@ == Seq::new(filled as nat, |i: int| '0'),
        decreases missing - filled,
    {
        let ghost before = r@;
        r.append("0");
        proof {
            reveal_strlit("0");
        }
        filled = filled + 1;
        assert(r@ =~= Seq::new(filled as nat, |i: int| '0'));
    }
    r.append(digits.as_str());
    r
}

/// A truth value in words.
pub fn bool_text(value: bool) -> (r: &'static str)
    ensures
        r@ == bool_word(value),
{
    if value {
        "true"
    } else {
        "false"
    }
}

/// Whether a character is one of `0` to `9`.
pub fn is_digit_char(c: char) -> (r: bool)
    ensures
        r == is_digit(c),
{
    '0' as u32 <= c as u32 && c as u32 <= '9' as u32
}

/// Whether a character is an ASCII letter or digit.
pub fn is_alphanumeric_char(c: char) -> (r: bool)
    ensures
        r == is_alphanumeric(c),
{
    let code: u32 = c as u32;
    is_digit_char(c) || ('a' as u32 <= code && code <= 'z' as u32) || ('A' as u32 <= code && code
        <= 'Z' as u32)
}

/// The texts of a list with a separator between neighbours.
pub fn join_texts(parts: &Vec<&'static str>, separator: &str) -> (r: String)
    ensures
        r@ == joined(parts@.map_values(|part: &'static str| part@), separator@),
{
    let ghost texts = parts@.map_values(|part: &'static str| part@);
    let mut r = String::new();
    let mut done: usize = 0;
    assert(texts.take(0) =~= Seq::empty());
    while done < parts.len()
        invariant
            done <= parts.len(),
            texts == parts@.map_values(|part: &'static str| part@),
            r@ == joined(texts.take(done as int), separator@),
        decreases parts.len() - done,
    {
        let ghost so_far = texts.take(done as int);
        let ghost next = texts.take(done + 1);
        assert(next.drop_last() =~= so_far);
        assert(next.last() == parts[done as int]@);
        if done > 0 {
            r.append(separator);
        }
        r.append(parts[done]);
        if done == 0 {
            assert(r@ =~= next[0]);
        }
        done = done + 1;
        assert(r@ =~= joined(next, separator@));
    }
    assert(texts.take(parts.len() as int) =~= texts);
    r
}

/// Whether two texts are the same.
pub fn same_text(a: &str, b: &str) -> (r: bool)
    ensures
        r <==> a@ == b@,
{
    let length = a.unicode_len();
    if length != b.unicode_len() {
        return false;
    }
    let mut checked: usize = 0;
    while checked < length
        invariant
            checked <= length,
            length == a@.len(),
            length == b@.len(),
            a@.take(checked as int) == b@.take(checked as int),
        decreases length - checked,
    {
        if a.get_char(checked) != b.get_char(checked) {
            assert(a@[checked as int] != b@[checked as int]);
            return false;
        }
        proof {
            assert(a@.take(checked + 1) =~= a@.take(checked as int).push(a@[checked as int]));
            assert(b@.take(checked + 1) =~= b@.take(checked as int).push(b@[checked as int]));
        }
        checked = checked + 1;
    }
    assert(a@.take(length as int) =~= a@);
    assert(b@.take(length as int) =~= b@);
    true
}

/// Whether every character of a text is of one class.
pub open spec fn all_chars(text: Seq<char>, class: spec_fn(char) -> bool) -> bool {
    forall|i: int| 0 <= i < text.len() ==> class(#[trigger] text[i])
}

} // verus!
