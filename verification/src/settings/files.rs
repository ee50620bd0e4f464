//! The files beside the settings file: names, and which copies of unusable
//! files are kept.

use crate::text::{decimal, digit, padded_decimal, padded_decimal_text, same_text};
use vstd::prelude::*;
use vstd::string::*;

verus! {

/// How many copies of unusable files are kept.
pub const QUARANTINE_RETENTION: usize = 2;

/// The name of the settings file.
pub fn primary_file() -> (r: &'static str)
    ensures
        r@ == "settings.json"@,
{
    "settings.json"
}

/// The name under which the settings file is written before it is put in
/// place.
pub fn primary_temp_file() -> (r: &'static str)
    ensures
        r@ == "settings.json.tmp"@,
{
    "settings.json.tmp"
}

/// The name of the backup.
pub fn backup_file() -> (r: &'static str)
    ensures
        r@ == "settings.json.bak"@,
{
    "settings.json.bak"
}

/// The name under which the backup is written before it is put in place.
pub fn backup_temp_file() -> (r: &'static str)
    ensures
        r@ == "settings.json.bak.tmp"@,
{
    "settings.json.bak.tmp"
}

/// The name of the copy of an unusable file, made at a time in milliseconds
/// since the Unix epoch and with a number that counts the copies.
pub open spec fn quarantine_name(milliseconds: nat, sequence: nat) -> Seq<char> {
    "settings.corrupt."@ + padded_decimal(milliseconds, 20) + "."@ + padded_decimal(sequence, 20)
        + ".json"@
}

/// The name of the copy of an unusable file, made at a time in milliseconds
/// since the Unix epoch and with a number that counts the copies.
pub fn next_quarantine_name(milliseconds: u128, sequence: u64) -> (r: String)
    ensures
        r@ == quarantine_name(milliseconds as nat, sequence as nat),
{
    String::from_str("settings.corrupt.").concat(
        padded_decimal_text(milliseconds, 20).as_str(),
    ).concat(".").concat(padded_decimal_text(sequence as u128, 20).as_str()).concat(".json")
}

/// Whether a file is the copy of an unusable file, by its name.
pub open spec fn is_quarantine(name: Seq<char>) -> bool {
    name.len() >= 17 && name.take(17) == "settings.corrupt."@
}

/// Whether a file is the copy of an unusable file, by its name.
pub fn is_quarantine_name(name: &str) -> (r: bool)
    ensures
        r == is_quarantine(name@),
{
    if name.unicode_len() < 17 {
        return false;
    }
    let head = name.substring_char(0, 17);
    assert(head@ =~= name@.take(17));
    same_text(head, "settings.corrupt.")
}

/// Whether a text comes before another in the order of their characters.
pub open spec fn text_before(a: Seq<char>, b: Seq<char>) -> bool
    decreases a.len(),
{
    if b.len() == 0 {
        false
    } else if a.len() == 0 {
        true
    } else if a[0] == b[0] {
        text_before(a.drop_first(), b.drop_first())
    } else {
        (a[0] as u32) < (b[0] as u32)
    }
}

/// Whether a text comes before another in the order of their characters.
pub fn comes_before(a: &str, b: &str) -> (r: bool)
    ensures
        r == text_before(a@, b@),
{
    let a_length: usize = a.unicode_len();
    let b_length: usize = b.unicode_len();
    let mut i: usize = 0;
    proof {
        assert(a@.skip(0) =~= a@);
        assert(b@.skip(0) =~= b@);
    }
    while i < a_length && i < b_length
        invariant
            i <= a_length,
            i <= b_length,
            a_length == a@.len(),
            b_length == b@.len(),
            text_before(a@, b@) == text_before(a@.skip(i as int), b@.skip(i as int)),
        decreases a_length - i,
    {
        let x = a.get_char(i);
        let y = b.get_char(i);
        let ghost rest_a = a@.skip(i as int);
        let ghost rest_b = b@.skip(i as int);
        assert(rest_a[0] == x && rest_b[0] == y);
        if x != y {
            return (x as u32) < (y as u32);
        }
        proof {
            assert(rest_a.drop_first() =~= a@.skip(i + 1));
            assert(rest_b.drop_first() =~= b@.skip(i + 1));
        }
        i = i + 1;
    }
    assert(a@.skip(i as int).len() == a_length - i);
    assert(b@.skip(i as int).len() == b_length - i);
    i < b_length
}

proof fn text_order(a: Seq<char>, b: Seq<char>)
    ensures
        !text_before(a, a),
        !(text_before(a, b) && text_before(b, a)),
    decreases a.len(),
{
    if a.len() > 0 {
        text_order(a.drop_first(), a.drop_first());
        if b.len() > 0 && a[0] == b[0] {
            text_order(a.drop_first(), b.drop_first());
        }
    }
}

proof fn different_chars(a: char, b: char)
    ensures
        a as u32 == b as u32 ==> a == b,
{
}

proof fn not_before_is_transitive(a: Seq<char>, b: Seq<char>, c: Seq<char>)
    requires
        !text_before(b, a),
        !text_before(c, b),
    ensures
        !text_before(c, a),
    decreases a.len(),
{
    if a.len() > 0 && b.len() > 0 && c.len() > 0 {
        different_chars(a[0], b[0]);
        different_chars(b[0], c[0]);
        different_chars(a[0], c[0]);
        if a[0] == b[0] && b[0] == c[0] {
            not_before_is_transitive(a.drop_first(), b.drop_first(), c.drop_first());
        }
    }
}

/// The names of copies of unusable files.
pub open spec fn quarantines(names: Seq<Seq<char>>) -> Seq<Seq<char>> {
    names.filter(|name: Seq<char>| is_quarantine(name))
}

/// Whether positions in a list of names are those of the copies that are no
/// longer kept: all but the last two in the order of the names, that is, all
/// but the newest. The oldest comes first.
pub open spec fn are_pruned(positions: Seq<usize>, names: Seq<Seq<char>>) -> bool {
    &&& positions.len() == if quarantines(names).len() <= QUARANTINE_RETENTION {
        0
    } else {
        quarantines(names).len() - QUARANTINE_RETENTION
    }
    &&& forall|i: int|
        0 <= i < positions.len() ==> (#[trigger] positions[i]) < names.len() && is_quarantine(
            names[positions[i] as int],
        )
    &&& forall|i: int, j: int|
        0 <= i < j < positions.len() ==> #[trigger] positions[i] != #[trigger] positions[j]
    &&& forall|i: int, k: usize|
        0 <= i < positions.len() && k < names.len() && is_quarantine(names[k as int])
            && !#[trigger] positions.contains(k) ==> !text_before(
            names[k as int],
            names[(#[trigger] positions[i]) as int],
        )
    &&& forall|i: int, j: int|
        0 <= i < j < positions.len() ==> !text_before(
            names[(#[trigger] positions[j]) as int],
            names[(#[trigger] positions[i]) as int],
        )
}

/// Whether positions go through the copies among the first `seen` names, each
/// once, in the order of the names.
spec fn in_order(positions: Seq<usize>, names: Seq<Seq<char>>, seen: int) -> bool {
    &&& positions.len() == quarantines(names.take(seen)).len()
    &&& forall|i: int|
        0 <= i < positions.len() ==> (#[trigger] positions[i]) < seen && is_quarantine(
            names[positions[i] as int],
        )
    &&& forall|k: usize|
        k < seen && is_quarantine(names[k as int]) ==> #[trigger] positions.contains(k)
    &&& forall|i: int, j: int|
        0 <= i < j < positions.len() ==> #[trigger] positions[i] != #[trigger] positions[j]
    &&& forall|i: int, j: int|
        0 <= i < j < positions.len() ==> !text_before(
            names[(#[trigger] positions[j]) as int],
            names[(#[trigger] positions[i]) as int],
        )
}

fn insert_in_order(positions: &mut Vec<usize>, names: &Vec<String>, next: usize)
    requires
        next < names.len(),
        is_quarantine(names@[next as int]@),
        in_order(old(positions)@, names@.map_values(|name: String| name@), next as int),
    ensures
        in_order(final(positions)@, names@.map_values(|name: String| name@), next + 1),
{
    let ghost views = names@.map_values(|name: String| name@);
    let ghost before = positions@;
    let mut place: usize = positions.len();
    while place > 0 && comes_before(names[next].as_str(), names[positions[place - 1]].as_str())
        invariant
            place <= positions.len(),
            positions@ == before,
            next < names.len(),
            views == names@.map_values(|name: String| name@),
            in_order(before, views, next as int),
            forall|i: int|
                place <= i < before.len() ==> text_before(
                    views[next as int],
                    views[(#[trigger] before[i]) as int],
                ),
        decreases place,
    {
        place = place - 1;
    }
    positions.insert(place, next);
    proof {
        let after = positions@;
        let upto = views.take(next + 1);
        assert(upto.drop_last() =~= views.take(next as int));
        assert(upto.last() == views[next as int]);
        reveal(Seq::filter);
        assert(quarantines(upto).len() == quarantines(views.take(next as int)).len() + 1);
        assert forall|i: int| 0 <= i < after.len() implies (#[trigger] after[i]) < next + 1
            && is_quarantine(views[after[i] as int]) by {
            if i < place {
                assert(after[i] == before[i]);
            } else if i > place {
                assert(after[i] == before[i - 1]);
            }
        }
        assert forall|k: usize| k < next + 1 && is_quarantine(views[k as int]) implies
            #[trigger] after.contains(k) by {
            if k == next {
                assert(after[place as int] == k);
            } else {
                assert(before.contains(k));
                let i = choose|i: int| 0 <= i < before.len() && before[i] == k;
                if i < place {
                    assert(after[i] == k);
                } else {
                    assert(after[i + 1] == k);
                }
            }
        }
        assert forall|i: int, j: int| 0 <= i < j < after.len() implies {
            &&& #[trigger] after[i] != #[trigger] after[j]
            &&& !text_before(views[after[j] as int], views[after[i] as int])
        } by {
            let a = if i < place {
                i
            } else {
                i - 1
            };
            let b = if j < place {
                j
            } else {
                j - 1
            };
            if i == place {
                assert(after[j] == before[b]);
                text_order(views[next as int], views[before[b] as int]);
            } else if j == place {
                assert(after[i] == before[a]);
                if a < place - 1 {
                    not_before_is_transitive(
                        views[before[a] as int],
                        views[before[place - 1] as int],
                        views[next as int],
                    );
                }
            } else {
                assert(after[i] == before[a] && after[j] == before[b]);
            }
        }
    }
}

/// The positions, in a listing of the settings directory, of the copies that
/// are no longer kept, in the order in which they are removed: the oldest
/// first.
pub fn prune_quarantines(names: &Vec<String>) -> (r: Vec<usize>)
    ensures
        are_pruned(r@, names@.map_values(|name: String| name@)),
{
    let ghost views = names@.map_values(|name: String| name@);
    let mut positions: Vec<usize> = Vec::new();
    let mut seen: usize = 0;
    proof {
        assert(views.take(0) =~= Seq::empty());
        reveal(Seq::filter);
        assert(quarantines(views.take(0)).len() == 0);
    }
    while seen < names.len()
        invariant
            seen <= names.len(),
            views == names@.map_values(|name: String| name@),
            in_order(positions@, views, seen as int),
        decreases names.len() - seen,
    {
        let kept = is_quarantine_name(names[seen].as_str());
        if kept {
            insert_in_order(&mut positions, names, seen);
        } else {
            proof {
                let upto = views.take(seen + 1);
                assert(upto.drop_last() =~= views.take(seen as int));
                assert(upto.last() == views[seen as int]);
                reveal(Seq::filter);
            }
        }
        seen = seen + 1;
    }
    assert(views.take(seen as int) =~= views);
    let ghost all = positions@;
    let count: usize = positions.len();
    let removed: usize = if count > QUARANTINE_RETENTION {
        count - QUARANTINE_RETENTION
    } else {
        0
    };
    positions.truncate(removed);
    proof {
        let r = positions@;
        assert forall|i: int, k: usize|
            0 <= i < r.len() && k < views.len() && is_quarantine(views[k as int])
                && !#[trigger] r.contains(k) implies !text_before(
            views[k as int],
            views[(#[trigger] r[i]) as int],
        ) by {
            assert(all.contains(k));
            let j = choose|j: int| 0 <= j < all.len() && all[j] == k;
            if j < r.len() {
                assert(r[j] == k);
            }
            assert(all[i] == r[i]);
        }
    }
    positions
}

/// A number in exactly `width` digits.
spec fn fixed(n: nat, width: nat) -> Seq<char>
    decreases width,
{
    if width == 0 {
        Seq::empty()
    } else {
        fixed(n / 10, (width - 1) as nat).push(digit(n % 10))
    }
}

spec fn power_of_ten(exponent: nat) -> nat
    decreases exponent,
{
    if exponent == 0 {
        1
    } else {
        10 * power_of_ten((exponent - 1) as nat)
    }
}

proof fn fixed_has_its_width(n: nat, width: nat)
    ensures
        fixed(n, width).len() == width,
    decreases width,
{
    if width > 0 {
        fixed_has_its_width(n / 10, (width - 1) as nat);
    }
}

proof fn decimal_is_within(n: nat, width: nat)
    requires
        width > 0,
        n < power_of_ten(width),
    ensures
        1 <= decimal(n).len() <= width,
    decreases width,
{
    if n >= 10 {
        if width == 1 {
            assert(power_of_ten(1) == 10 * power_of_ten(0));
        }
        decimal_is_within(n / 10, (width - 1) as nat);
    }
}

proof fn padding_is_fixed(n: nat, width: nat)
    requires
        width > 0,
        n < power_of_ten(width),
    ensures
        padded_decimal(n, width) == fixed(n, width),
    decreases width,
{
    decimal_is_within(n, width);
    let zeros = |count: nat| Seq::new(count, |i: int| '0');
    if width == 1 {
        assert(power_of_ten(1) == 10 * power_of_ten(0));
        assert(fixed(n, 1) =~= seq![digit(n)]) by {
            assert(fixed(n / 10, 0) =~= Seq::empty());
        }
        assert(padded_decimal(n, 1) =~= fixed(n, 1));
    } else {
        let shorter = (width - 1) as nat;
        padding_is_fixed(n / 10, shorter);
        decimal_is_within(n / 10, shorter);
        if n < 10 {
            assert(n / 10 == 0);
            assert(decimal(0) =~= seq!['0']);
            assert(padded_decimal(0, shorter) =~= zeros(shorter));
            assert(padded_decimal(n, width) =~= zeros(shorter).push(digit(n)));
        } else {
            assert(padded_decimal(n, width) =~= padded_decimal(n / 10, shorter).push(
                digit(n % 10),
            ));
        }
    }
}

proof fn order_of_heads(a: Seq<char>, b: Seq<char>, x: Seq<char>, y: Seq<char>)
    requires
        a.len() == b.len(),
        text_before(a, b),
    ensures
        text_before(a + x, b + y),
    decreases a.len(),
{
    if a[0] == b[0] {
        assert((a + x).drop_first() =~= a.drop_first() + x);
        assert((b + y).drop_first() =~= b.drop_first() + y);
        order_of_heads(a.drop_first(), b.drop_first(), x, y);
    }
    assert((a + x)[0] == a[0] && (b + y)[0] == b[0]);
}

proof fn order_of_tails(a: Seq<char>, x: Seq<char>, y: Seq<char>)
    requires
        text_before(x, y),
    ensures
        text_before(a + x, a + y),
    decreases a.len(),
{
    if a.len() == 0 {
        assert(a + x =~= x);
        assert(a + y =~= y);
    } else {
        assert((a + x).drop_first() =~= a.drop_first() + x);
        assert((a + y).drop_first() =~= a.drop_first() + y);
        order_of_tails(a.drop_first(), x, y);
    }
}

proof fn order_of_digits(a: nat, b: nat)
    requires
        a < b < 10,
    ensures
        text_before(seq![digit(a)], seq![digit(b)]),
{
}

proof fn fixed_follows_the_numbers(a: nat, b: nat, width: nat)
    requires
        a < b < power_of_ten(width),
    ensures
        text_before(fixed(a, width), fixed(b, width)),
    decreases width,
{
    if width > 0 {
        let shorter = (width - 1) as nat;
        let x = fixed(a / 10, shorter);
        let y = fixed(b / 10, shorter);
        fixed_has_its_width(a / 10, shorter);
        fixed_has_its_width(b / 10, shorter);
        assert(fixed(a, width) =~= x + seq![digit(a % 10)]);
        assert(fixed(b, width) =~= y + seq![digit(b % 10)]);
        if a / 10 < b / 10 {
            fixed_follows_the_numbers(a / 10, b / 10, shorter);
            order_of_heads(x, y, seq![digit(a % 10)], seq![digit(b % 10)]);
        } else {
            order_of_digits(a % 10, b % 10);
            order_of_tails(x, seq![digit(a % 10)], seq![digit(b % 10)]);
        }
    }
}

proof fn twenty_digits()
    ensures
        power_of_ten(20) == 100_000_000_000_000_000_000,
{
    reveal_with_fuel(power_of_ten, 21);
}

/// The order of the names of copies is the order in which they were made, by
/// time and, within a millisecond, by number. So what is kept are the newest.
pub proof fn names_follow_time(
    milliseconds: nat,
    sequence: nat,
    later_milliseconds: nat,
    later_sequence: nat,
)
    requires
        milliseconds < later_milliseconds || (milliseconds == later_milliseconds && sequence
            < later_sequence),
        later_milliseconds < 100_000_000_000_000_000_000,
        sequence <= u64::MAX,
        later_sequence <= u64::MAX,
    ensures
        text_before(
            quarantine_name(milliseconds, sequence),
            quarantine_name(later_milliseconds, later_sequence),
        ),
        is_quarantine(quarantine_name(milliseconds, sequence)),
{
    twenty_digits();
    padding_is_fixed(milliseconds, 20);
    padding_is_fixed(sequence, 20);
    padding_is_fixed(later_milliseconds, 20);
    padding_is_fixed(later_sequence, 20);
    let head = "settings.corrupt."@;
    reveal_strlit("settings.corrupt.");
    let a = fixed(milliseconds, 20);
    let b = fixed(later_milliseconds, 20);
    let x = "."@ + fixed(sequence, 20) + ".json"@;
    let y = "."@ + fixed(later_sequence, 20) + ".json"@;
    fixed_has_its_width(milliseconds, 20);
    fixed_has_its_width(later_milliseconds, 20);
    fixed_has_its_width(sequence, 20);
    fixed_has_its_width(later_sequence, 20);
    assert(quarantine_name(milliseconds, sequence) =~= head + (a + x));
    assert(quarantine_name(later_milliseconds, later_sequence) =~= head + (b + y));
    assert(quarantine_name(milliseconds, sequence).take(17) =~= head);
    if milliseconds < later_milliseconds {
        fixed_follows_the_numbers(milliseconds, later_milliseconds, 20);
        order_of_heads(a, b, x, y);
    } else {
        fixed_follows_the_numbers(sequence, later_sequence, 20);
        order_of_heads(fixed(sequence, 20), fixed(later_sequence, 20), ".json"@, ".json"@);
        assert(x =~= "."@ + (fixed(sequence, 20) + ".json"@));
        assert(y =~= "."@ + (fixed(later_sequence, 20) + ".json"@));
        order_of_tails(
            "."@,
            fixed(sequence, 20) + ".json"@,
            fixed(later_sequence, 20) + ".json"@,
        );
        order_of_tails(a, x, y);
    }
    order_of_tails(head, a + x, b + y);
}

} // verus!
