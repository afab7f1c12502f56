//! Decimal rendering of integers, as their debug form prints them.

use vstd::prelude::*;
use vstd::string::StringExecFns;

verus! {

/// The character of a single decimal digit `d`, as a one-character sequence.
pub open spec fn dec_digit(d: int) -> Seq<char>
    recommends
        0 <= d < 10,
{
    if d == 0 {
        "0"@
    } else if d == 1 {
        "1"@
    } else if d == 2 {
        "2"@
    } else if d == 3 {
        "3"@
    } else if d == 4 {
        "4"@
    } else if d == 5 {
        "5"@
    } else if d == 6 {
        "6"@
    } else if d == 7 {
        "7"@
    } else if d == 8 {
        "8"@
    } else {
        "9"@
    }
}

/// The decimal numeral of `n`: most significant digit first, no sign, no
/// leading zeros (a single `0` for zero itself).
pub open spec fn dec_numeral(n: nat) -> Seq<char>
    decreases n,
{
    if n < 10 {
        dec_digit(n as int)
    } else {
        dec_numeral(n / 10) + dec_digit((n % 10) as int)
    }
}

/// The decimal rendering of the integer `i`: the numeral of its magnitude,
/// preceded by `-` when `i` is negative. Every built-in integer's debug form
/// prints exactly this.
pub open spec fn dec_int(i: int) -> Seq<char> {
    if i < 0 {
        "-"@ + dec_numeral((-i) as nat)
    } else {
        dec_numeral(i as nat)
    }
}

fn append_digit(s: &mut String, d: u128)
    requires
        d < 10,
    ensures
        final(s)@ == old(s)@ + dec_digit(d as int),
{
    if d == 0 {
        s.append("0");
    } else if d == 1 {
        s.append("1");
    } else if d == 2 {
        s.append("2");
    } else if d == 3 {
        s.append("3");
    } else if d == 4 {
        s.append("4");
    } else if d == 5 {
        s.append("5");
    } else if d == 6 {
        s.append("6");
    } else if d == 7 {
        s.append("7");
    } else if d == 8 {
        s.append("8");
    } else {
        s.append("9");
    }
}

/// Appends the decimal numeral of `n` to `s`.
pub(crate) fn append_numeral(s: &mut String, n: u128)
    ensures
        final(s)@ == old(s)@ + dec_numeral(n as nat),
    decreases n,
{
    if n >= 10 {
        append_numeral(s, n / 10);
    }
    append_digit(s, n % 10);
    proof {
        assert(s@ =~= old(s)@ + dec_numeral(n as nat));
    }
}

/// Appends the decimal rendering of `v` to `s`.
pub(crate) fn append_int(s: &mut String, v: i128)
    ensures
        final(s)@ == old(s)@ + dec_int(v as int),
{
    if v < 0 {
        s.append("-");
        let magnitude: u128 = ((-(v + 1)) as u128) + 1;
        assert(magnitude as int == -(v as int));
        append_numeral(s, magnitude);
        proof {
            assert(s@ =~= old(s)@ + dec_int(v as int));
        }
    } else {
        append_numeral(s, v as u128);
    }
}

} // verus!
