//! Rates of bytes in words.
//!
//! A rate that is not a whole number of its unit is given to one decimal, as
//! a double-precision number is: first to fifty-three significant bits, then
//! to the nearest tenth, and both times to the even neighbour from halfway.

use crate::text::{decimal, decimal_text};
use vstd::prelude::*;
use vstd::string::*;

verus! {

/// The bytes of a kibibyte.
pub const KIB: u128 = 1_024;

/// The bytes of a mebibyte.
pub const MIB: u128 = 1_048_576;

/// The least number that needs more than fifty-three bits.
pub const DOUBLE_LIMIT: u128 = 9_007_199_254_740_992;

/// A power of two.
pub open spec fn power_of_two(exponent: nat) -> nat
    decreases exponent,
{
    if exponent == 0 {
        1
    } else {
        2 * power_of_two((exponent - 1) as nat)
    }
}

/// How many bits of a number are too many for a double-precision number.
pub open spec fn excess_bits(n: nat) -> nat
    decreases n,
{
    if n < DOUBLE_LIMIT {
        0
    } else {
        1 + excess_bits(n / 2)
    }
}

/// The quotient of two numbers, to the nearest whole number, and to the even
/// one from halfway.
pub open spec fn nearest_even(n: nat, unit: nat) -> nat {
    let quotient = n / unit;
    let rest = n % unit;
    if 2 * rest > unit || (2 * rest == unit && quotient % 2 == 1) {
        quotient + 1
    } else {
        quotient
    }
}

/// A number as a double-precision number holds it.
pub open spec fn as_double(n: nat) -> nat {
    let unit = power_of_two(excess_bits(n));
    nearest_even(n, unit) * unit
}

/// A number of tenths with one decimal.
pub open spec fn tenths_words(tenths: nat) -> Seq<char> {
    decimal(tenths / 10) + "."@ + decimal(tenths % 10)
}

/// A rate in words.
pub open spec fn rate_words(rate: nat) -> Seq<char> {
    if rate >= MIB && rate % MIB as nat == 0 {
        decimal(rate / MIB as nat) + " MB/s"@
    } else if rate >= MIB {
        tenths_words(nearest_even(10 * as_double(rate), MIB as nat)) + " MB/s"@
    } else if rate >= KIB && rate % KIB as nat == 0 {
        decimal(rate / KIB as nat) + " KB/s"@
    } else if rate >= KIB {
        tenths_words(nearest_even(10 * as_double(rate), KIB as nat)) + " KB/s"@
    } else {
        decimal(rate) + " B/s"@
    }
}

fn round_even(n: u128, unit: u128) -> (r: u128)
    requires
        unit > 0,
        n / unit < u128::MAX,
    ensures
        r == nearest_even(n as nat, unit as nat),
        r <= n / unit + 1,
{
    let quotient: u128 = n / unit;
    let rest: u128 = n % unit;
    let left: u128 = unit - rest;
    if rest > left || (rest == left && quotient % 2 == 1) {
        quotient + 1
    } else {
        quotient
    }
}

fn tenths_text(tenths: u128) -> (r: String)
    ensures
        r@ == tenths_words(tenths as nat),
{
    decimal_text(tenths / 10).concat(".").concat(decimal_text(tenths % 10).as_str())
}

proof fn halving(n: nat, e: nat)
    ensures
        power_of_two(e) > 0,
        (n / power_of_two(e)) / 2 == n / power_of_two(e + 1),
    decreases e,
{
    power_is_positive(e);
    let p = power_of_two(e);
    assert(power_of_two(e + 1) == 2 * p);
    assert((n / p) / 2 == n / (p * 2)) by {
        vstd::arithmetic::div_mod::lemma_div_denominator(n as int, p as int, 2);
    }
    assert(p * 2 == 2 * p);
}

proof fn power_is_positive(e: nat)
    ensures
        power_of_two(e) > 0,
    decreases e,
{
    if e > 0 {
        power_is_positive((e - 1) as nat);
    }
}

proof fn powers_multiply(a: nat, b: nat)
    ensures
        power_of_two(a + b) == power_of_two(a) * power_of_two(b),
    decreases b,
{
    if b == 0 {
        assert(power_of_two(0) == 1);
        assert(power_of_two(a) * 1 == power_of_two(a)) by (nonlinear_arith);
    } else {
        powers_multiply(a, (b - 1) as nat);
        let x = power_of_two(a);
        let y = power_of_two((b - 1) as nat);
        assert(power_of_two(b) == 2 * y);
        assert(power_of_two(a + b) == 2 * power_of_two((a + b - 1) as nat));
        assert((a + b - 1) as nat == a + (b - 1) as nat);
        assert(2 * (x * y) == x * (2 * y)) by (nonlinear_arith);
    }
}

proof fn powers_grow(a: nat, b: nat)
    requires
        a <= b,
    ensures
        power_of_two(a) <= power_of_two(b),
    decreases b,
{
    if a < b {
        powers_grow(a, (b - 1) as nat);
        power_is_positive((b - 1) as nat);
    }
}

proof fn small_powers()
    ensures
        power_of_two(20) == MIB,
        power_of_two(53) == DOUBLE_LIMIT,
        power_of_two(55) == 36_028_797_018_963_968,
        power_of_two(75) == 37_778_931_862_957_161_709_568,
        power_of_two(76) == 75_557_863_725_914_323_419_136,
{
    reveal_with_fuel(power_of_two, 21);
    assert(power_of_two(20) == MIB);
    powers_multiply(20, 20);
    assert(power_of_two(40) == 1_099_511_627_776);
    assert(power_of_two(13) == 8192);
    powers_multiply(40, 13);
    assert(power_of_two(53) == 1_099_511_627_776 * 8192);
    assert(power_of_two(15) == 32768);
    powers_multiply(40, 15);
    powers_multiply(55, 20);
    powers_multiply(75, 1);
    assert(power_of_two(1) == 2);
}

/// The bits that are too many, and the power of two that they make.
fn excess_unit(n: u128) -> (r: (u128, u128))
    ensures
        r.0 == excess_bits(n as nat),
        r.0 <= 75,
        r.1 == power_of_two(excess_bits(n as nat)),
        r.1 > 0,
        n / r.1 < DOUBLE_LIMIT,
{
    let mut rest: u128 = n;
    let mut bits: u128 = 0;
    let mut unit: u128 = 1;
    proof {
        small_powers();
        assert(power_of_two(0) == 1);
        assert(n as nat / 1 == n as nat);
    }
    while rest >= DOUBLE_LIMIT
        invariant
            rest as nat == n as nat / power_of_two(bits as nat),
            unit == power_of_two(bits as nat),
            unit > 0,
            bits <= 75,
            excess_bits(n as nat) == bits + excess_bits(rest as nat),
        decreases rest,
    {
        proof {
            small_powers();
            halving(n as nat, bits as nat);
            if bits == 75 {
                let p = power_of_two(75);
                assert(rest as nat == n as nat / p);
                assert(n as nat / p * p <= n as nat) by (nonlinear_arith)
                    requires
                        p > 0,
                ;
                assert(rest as nat * p >= DOUBLE_LIMIT as nat * p) by (nonlinear_arith)
                    requires
                        rest as nat >= DOUBLE_LIMIT as nat,
                ;
            }
            powers_grow((bits + 1) as nat, 76);
        }
        rest = rest / 2;
        bits = bits + 1;
        unit = unit * 2;
    }
    proof {
        small_powers();
        powers_grow(bits as nat, 75);
    }
    (bits, unit)
}

proof fn whole_tenths(rounded: nat, unit: nat, extra: nat)
    requires
        unit == MIB as nat * extra,
    ensures
        nearest_even(10 * (rounded * unit), MIB as nat) == 10 * (rounded * extra),
{
    let whole = rounded * extra;
    assert(10 * (rounded * unit) == (10 * whole) * MIB as nat) by (nonlinear_arith)
        requires
            unit == MIB as nat * extra,
            whole == rounded * extra,
    ;
    vstd::arithmetic::div_mod::lemma_div_multiples_vanish((10 * whole) as int, MIB as int);
    vstd::arithmetic::div_mod::lemma_mod_multiples_basic((10 * whole) as int, MIB as int);
}

/// A rate in words.
pub fn format_byte_rate(bytes_per_second: u128) -> (r: String)
    ensures
        r@ == rate_words(bytes_per_second as nat),
{
    let rate: u128 = bytes_per_second;
    if rate >= MIB && rate % MIB == 0 {
        return decimal_text(rate / MIB).concat(" MB/s");
    }
    if rate >= MIB {
        let (bits, unit) = excess_unit(rate);
        let rounded: u128 = round_even(rate, unit);
        proof {
            small_powers();
        }
        let tenths = if bits >= 20 {
            let extra: u128 = unit / MIB;
            proof {
                let e = (bits - 20) as nat;
                powers_multiply(20, e);
                power_is_positive(e);
                vstd::arithmetic::div_mod::lemma_div_multiples_vanish(
                    power_of_two(e) as int,
                    MIB as int,
                );
                assert(unit as nat == MIB as nat * power_of_two(e));
                assert(power_of_two(e) * MIB as nat == MIB as nat * power_of_two(e))
                    by (nonlinear_arith);
                assert(extra as nat == power_of_two(e));
                powers_grow(e, 55);
                assert(rounded <= DOUBLE_LIMIT);
                assert(rounded as nat * extra as nat <= DOUBLE_LIMIT as nat
                    * 36_028_797_018_963_968) by (nonlinear_arith)
                    requires
                        rounded <= DOUBLE_LIMIT,
                        extra as nat <= 36_028_797_018_963_968,
                ;
                whole_tenths(rounded as nat, unit as nat, extra as nat);
            }
            10 * (rounded * extra)
        } else {
            proof {
                powers_grow(bits as nat, 20);
                assert(rounded as nat * unit as nat <= DOUBLE_LIMIT as nat * MIB as nat)
                    by (nonlinear_arith)
                    requires
                        rounded <= DOUBLE_LIMIT,
                        unit as nat <= MIB as nat,
                ;
            }
            round_even(10 * (rounded * unit), MIB)
        };
        return tenths_text(tenths).concat(" MB/s");
    }
    if rate >= KIB && rate % KIB == 0 {
        return decimal_text(rate / KIB).concat(" KB/s");
    }
    if rate >= KIB {
        proof {
            assert(excess_bits(rate as nat) == 0);
            assert(power_of_two(0) == 1);
            assert(rate as nat / 1 == rate as nat && rate as nat % 1 == 0);
            assert(as_double(rate as nat) == rate as nat);
        }
        return tenths_text(round_even(10 * rate, KIB)).concat(" KB/s");
    }
    decimal_text(rate).concat(" B/s")
}

/// A rate that a double holds is one.
pub proof fn small_rates_are_doubles(rate: nat)
    requires
        rate < 9_007_199_254_740_992,
    ensures
        as_double(rate) == rate,
{
    reveal_with_fuel(power_of_two, 1);
    assert(power_of_two(excess_bits(rate)) == 1);
}

/// A rate is told in the greatest unit that it reaches: bytes per second as
/// they are, and kibibytes and mebibytes per second to the nearest tenth. A
/// whole number of them is told without a tenth.
pub proof fn rates_are_told_to_the_nearest_tenth(rate: nat)
    requires
        rate < 9_007_199_254_740_992,
    ensures
        rate < 1_024 ==> rate_words(rate) == decimal(rate) + " B/s"@,
        1_024 <= rate < 1_048_576 && rate % 1_024 != 0 ==> exists|tenths: nat|
            {
                &&& rate_words(rate) == #[trigger] tenths_words(tenths) + " KB/s"@
                &&& -512 <= tenths * 1_024 - 10 * rate <= 512
            },
        1_048_576 <= rate && rate % 1_048_576 != 0 ==> exists|tenths: nat|
            {
                &&& rate_words(rate) == #[trigger] tenths_words(tenths) + " MB/s"@
                &&& -524_288 <= tenths * 1_048_576 - 10 * rate <= 524_288
            },
        1_024 <= rate < 1_048_576 && rate % 1_024 == 0 ==> rate_words(rate) == decimal(
            rate / 1_024,
        ) + " KB/s"@,
        1_048_576 <= rate && rate % 1_048_576 == 0 ==> rate_words(rate) == decimal(
            rate / 1_048_576,
        ) + " MB/s"@,
{
    small_rates_are_doubles(rate);
    if 1_024 <= rate < 1_048_576 && rate % 1_024 != 0 {
        let tenths = nearest_even(10 * rate, 1_024);
        the_nearest_multiple_is_taken(10 * rate, 1_024);
        assert(rate_words(rate) == tenths_words(tenths) + " KB/s"@);
    }
    if 1_048_576 <= rate && rate % 1_048_576 != 0 {
        let tenths = nearest_even(10 * rate, 1_048_576);
        the_nearest_multiple_is_taken(10 * rate, 1_048_576);
        assert(rate_words(rate) == tenths_words(tenths) + " MB/s"@);
    }
}

/// Tenths are told as a number with a point before the last digit.
pub proof fn tenths_have_a_point(tenths: nat)
    ensures
        ({
            let words = tenths_words(tenths);
            &&& words.len() >= 3
            &&& words[words.len() - 2] == '.'
            &&& words.take(words.len() - 2) == decimal(tenths / 10)
            &&& words.skip(words.len() - 1) == decimal(tenths % 10)
        }),
{
    reveal_strlit(".");
    let words = tenths_words(tenths);
    reveal_with_fuel(decimal, 1);
    assert(decimal(tenths % 10).len() == 1);
    assert(decimal(tenths / 10).len() >= 1);
    assert(words.take(words.len() - 2) =~= decimal(tenths / 10));
    assert(words.skip(words.len() - 1) =~= decimal(tenths % 10));
}

/// A whole number is taken to the nearest multiple of a unit, and from the
/// middle between two to the even one.
pub proof fn the_nearest_multiple_is_taken(n: nat, unit: nat)
    requires
        unit > 0,
    ensures
        ({
            let nearest = nearest_even(n, unit);
            &&& 2 * (nearest * unit - n) <= unit
            &&& 2 * (n - nearest * unit) <= unit
            &&& 2 * (nearest * unit - n) == unit || 2 * (n - nearest * unit) == unit ==> nearest % 2
                == 0
        }),
{
    let quotient = (n / unit) as int;
    let rest = (n % unit) as int;
    vstd::arithmetic::div_mod::lemma_fundamental_div_mod(n as int, unit as int);
    vstd::arithmetic::div_mod::lemma_mod_bound(n as int, unit as int);
    assert(n == unit * quotient + rest);
    assert(quotient * unit == unit * quotient) by (nonlinear_arith);
    assert((quotient + 1) * unit == unit * quotient + unit) by (nonlinear_arith);
}

/// A double holds 53 bits: a greater number is held to the nearest multiple of
/// the least power of two that leaves no more than those.
pub proof fn doubles_hold_their_bits(n: nat)
    requires
        n >= 9_007_199_254_740_992,
    ensures
        ({
            let unit = power_of_two(excess_bits(n));
            let held = as_double(n);
            &&& unit > 0
            &&& 4_503_599_627_370_496 <= n / unit < 9_007_199_254_740_992
            &&& held == nearest_even(n, unit) * unit
            &&& 2 * (held - n) <= unit
            &&& 2 * (n - held) <= unit
        }),
{
    let unit = power_of_two(excess_bits(n));
    power_is_positive(excess_bits(n));
    the_nearest_multiple_is_taken(n, unit);
    the_bits_in_excess(n);
}

proof fn the_bits_in_excess(n: nat)
    ensures
        power_of_two(excess_bits(n)) > 0,
        n / power_of_two(excess_bits(n)) < 9_007_199_254_740_992,
        n >= 9_007_199_254_740_992 ==> n / power_of_two(excess_bits(n)) >= 4_503_599_627_370_496,
    decreases n,
{
    if n < 9_007_199_254_740_992 {
        assert(excess_bits(n) == 0);
        assert(power_of_two(0) == 1);
    } else {
        let half = n / 2;
        the_bits_in_excess(half);
        let p = power_of_two(excess_bits(half));
        assert(power_of_two(excess_bits(n)) == 2 * p);
        vstd::arithmetic::div_mod::lemma_div_denominator(n as int, 2, p as int);
        assert(half / p == n / (2 * p));
        if half < 9_007_199_254_740_992 {
            assert(excess_bits(half) == 0);
            assert(power_of_two(0) == 1);
        }
    }
}

} // verus!
