//! Decimal rendering of discriminant values for the emitted source text.

use vstd::prelude::*;
use vstd::string::StringExecFns;

verus! {

/// The single decimal digit character of `d`.
pub open spec fn digit_text(d: int) -> Seq<char>
    recommends
        0 <= d < 10,
{
    if d == 0 {
        "0"@
    } else if d == 1 {
        "1"@
    } else if d == 2 {
        "2"@
    } else if d == 3 {
        "3"@
    } else if d == 4 {
        "4"@
    } else if d == 5 {
        "5"@
    } else if d == 6 {
        "6"@
    } else if d == 7 {
        "7"@
    } else if d == 8 {
        "8"@
    } else {
        "9"@
    }
}

/// The decimal numeral of the nonnegative number `n`, without sign and
/// without leading zeros (a single zero for zero itself).
pub open spec fn render_nat(n: nat) -> Seq<char>
    decreases n,
{
    if n < 10 {
        digit_text(n as int)
    } else {
        render_nat(n / 10) + digit_text((n % 10) as int)
    }
}

/// The decimal numeral of `v`: a minus sign before the magnitude's numeral
/// for a negative value.
pub open spec fn render_int(v: int) -> Seq<char> {
    if v < 0 {
        "-"@ + render_nat((-v) as nat)
    } else {
        render_nat(v as nat)
    }
}

/// Append the digit character of `d` to `s`.
fn append_digit(s: &mut String, d: u128)
    requires
        d < 10,
    ensures
        final(s)@ == old(s)@ + digit_text(d as int),
{
    match d {
        0 => s.append("0"),
        1 => s.append("1"),
        2 => s.append("2"),
        3 => s.append("3"),
        4 => s.append("4"),
        5 => s.append("5"),
        6 => s.append("6"),
        7 => s.append("7"),
        8 => s.append("8"),
        _ => s.append("9"),
    }
}

/// Append the decimal numeral of `n` to `s`.
fn append_nat(s: &mut String, n: u128)
    ensures
        final(s)@ == old(s)@ + render_nat(n as nat),
    decreases n,
{
    if n < 10 {
        append_digit(s, n);
    } else {
        append_nat(s, n / 10);
        append_digit(s, n % 10);
        proof {
            assert(old(s)@ + render_nat(n as nat) =~= old(s)@ + render_nat((n / 10) as nat)
                + digit_text((n % 10) as int));
        }
    }
}

/// The decimal numeral of `v` as a fresh string.
pub fn render_value(v: i128) -> (s: String)
    ensures
        s@ == render_int(v as int),
{
    let mut s = String::new();
    if v < 0 {
        s.append("-");
        let mag: u128 = ((-1 - v) as u128) + 1;
        proof {
            assert(mag as nat == (-(v as int)) as nat);
        }
        append_nat(&mut s, mag);
        proof {
            assert(s@ =~= "-"@ + render_nat(mag as nat));
        }
    } else {
        append_nat(&mut s, v as u128);
        proof {
            assert(s@ =~= render_nat(v as nat));
        }
    }
    s
}

} // verus!
