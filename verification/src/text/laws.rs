//! What the texts are made of.

use super::{bool_word, decimal, digits_value, joined, padded_decimal, split};
use crate::local_log::decimal_is_read_back;
use vstd::prelude::*;
use vstd::string::*;

verus! {

/// A number is written in the digits of its value, without a zero before them.
pub proof fn numbers_are_written_in_digits(n: nat, i: int)
    ensures
        decimal(n).len() >= 1,
        digits_value(decimal(n)) == n,
        0 <= i < decimal(n).len() ==> '0' as u32 <= decimal(n)[i] as u32 <= '9' as u32,
        n > 0 ==> decimal(n)[0] != '0',
        n == 0 ==> decimal(n) == seq!['0'],
    decreases n,
{
    decimal_is_read_back(n);
    if n >= 10 {
        numbers_are_written_in_digits(n / 10, 0);
    }
    if 0 <= i < decimal(n).len() {
        assert(super::is_digit(decimal(n)[i]));
    }
}

/// Two numbers that are written alike are the same.
pub proof fn numbers_are_told_apart(a: nat, b: nat)
    requires
        decimal(a) == decimal(b),
    ensures
        a == b,
{
    decimal_is_read_back(a);
    decimal_is_read_back(b);
}

/// A number that is too short for its width has zeros before it, and one that
/// is not has nothing.
pub proof fn short_numbers_begin_with_zeros(n: nat, width: nat, i: int)
    ensures
        ({
            let text = padded_decimal(n, width);
            let before = text.len() - decimal(n).len();
            &&& text.len() == if decimal(n).len() < width {
                width
            } else {
                decimal(n).len()
            }
            &&& text.skip(before) == decimal(n)
            &&& 0 <= i < before ==> text[i] == '0'
        }),
{
    let text = padded_decimal(n, width);
    assert(text.skip(text.len() - decimal(n).len()) =~= decimal(n));
}

/// What holds is written as true, and what does not as false.
pub proof fn truth_is_written_as_such(value: bool)
    ensures
        value ==> bool_word(value) == "true"@,
        !value ==> bool_word(value) == "false"@,
{
}

/// The parts of a text hold no separator, and joined by it they are the text.
pub proof fn parts_make_up_the_text(text: Seq<char>, separator: char)
    ensures
        split(text, separator).len() > 0,
        joined(split(text, separator), seq![separator]) == text,
        forall|i: int, k: int|
            0 <= i < split(text, separator).len() && 0 <= k < split(text, separator)[i].len()
                ==> #[trigger] split(text, separator)[i][k] != separator,
    decreases text.len(),
{
    if text.len() == 0 {
        assert(joined(split(text, separator), seq![separator]) =~= text);
    } else {
        let shorter = text.drop_last();
        let before = split(shorter, separator);
        let parts = split(text, separator);
        parts_make_up_the_text(shorter, separator);
        if text.last() == separator {
            assert(parts.drop_last() =~= before);
            assert(joined(parts, seq![separator]) =~= shorter + seq![separator]);
            assert(shorter + seq![separator] =~= text);
        } else {
            assert(parts.drop_last() =~= before.drop_last());
            assert(parts.last() == before.last().push(text.last()));
            assert(joined(parts, seq![separator]) =~= joined(before, seq![separator]).push(
                text.last(),
            ));
            assert(shorter.push(text.last()) =~= text);
            assert forall|i: int, k: int|
                0 <= i < parts.len() && 0 <= k < parts[i].len() implies #[trigger] parts[i][k]
                != separator by {
                if i < parts.len() - 1 {
                    assert(parts[i] == before[i]);
                } else if k < before.last().len() {
                    assert(before[before.len() - 1][k] != separator);
                }
            }
        }
    }
}

} // verus!
