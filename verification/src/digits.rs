//! Verified decimal rendering of small integers, used by the asset
//! path resolver to write pokedex numbers and form numbers.

use vstd::prelude::*;
use vstd::string::StringExecFns;

verus! {

/// Decimal digit character for a value below ten.
pub open spec fn digit_char(d: nat) -> char {
    if d == 0 {
        '0'
    } else if d == 1 {
        '1'
    } else if d == 2 {
        '2'
    } else if d == 3 {
        '3'
    } else if d == 4 {
        '4'
    } else if d == 5 {
        '5'
    } else if d == 6 {
        '6'
    } else if d == 7 {
        '7'
    } else if d == 8 {
        '8'
    } else {
        '9'
    }
}

/// Decimal representation of `n`, most significant digit first, with no
/// leading zeros.
pub open spec fn dec_chars(n: nat) -> Seq<char>
    decreases n,
{
    if n < 10 {
        seq![digit_char(n)]
    } else {
        dec_chars(n / 10).push(digit_char(n % 10))
    }
}

/// `n` rendered in decimal with leading zeros up to a minimum width of
/// three digits; wider numbers are rendered in full.
pub open spec fn dec_chars_min3(n: nat) -> Seq<char> {
    if n < 10 {
        seq!['0', '0'] + dec_chars(n)
    } else if n < 100 {
        seq!['0'] + dec_chars(n)
    } else {
        dec_chars(n)
    }
}

/// Append the character for one decimal digit.
fn push_digit(s: &mut String, d: u16)
    requires
        d < 10,
    ensures
        final(s)@ == old(s)@ + seq![digit_char(d as nat)],
{
    proof {
        reveal_strlit("0");
        reveal_strlit("1");
        reveal_strlit("2");
        reveal_strlit("3");
        reveal_strlit("4");
        reveal_strlit("5");
        reveal_strlit("6");
        reveal_strlit("7");
        reveal_strlit("8");
        reveal_strlit("9");
    }
    if d == 0 {
        s.append("0");
    } else if d == 1 {
        s.append("1");
    } else if d == 2 {
        s.append("2");
    } else if d == 3 {
        s.append("3");
    } else if d == 4 {
        s.append("4");
    } else if d == 5 {
        s.append("5");
    } else if d == 6 {
        s.append("6");
    } else if d == 7 {
        s.append("7");
    } else if d == 8 {
        s.append("8");
    } else {
        s.append("9");
    }
    assert(s@ =~= old(s)@ + seq![digit_char(d as nat)]);
}

/// Append the decimal representation of `n`, with no leading zeros.
pub fn push_decimal(s: &mut String, n: u16)
    ensures
        final(s)@ == old(s)@ + dec_chars(n as nat),
    decreases n,
{
    if n < 10 {
        push_digit(s, n);
    } else {
        push_decimal(s, n / 10);
        push_digit(s, n % 10);
    }
    assert(s@ =~= old(s)@ + dec_chars(n as nat));
}

/// Append the decimal representation of `n`, zero-padded to a minimum
/// width of three digits.
pub fn push_decimal_min3(s: &mut String, n: u16)
    ensures
        final(s)@ == old(s)@ + dec_chars_min3(n as nat),
{
    proof {
        reveal_strlit("0");
        reveal_strlit("00");
    }
    if n < 10 {
        s.append("00");
    } else if n < 100 {
        s.append("0");
    }
    push_decimal(s, n);
    assert(s@ =~= old(s)@ + dec_chars_min3(n as nat));
}

} // verus!
