//! Uppercase hexadecimal rendering of raw integer return values, used when a
//! function under test returns an integer where a boolean was expected.

use vstd::prelude::*;
use vstd::string::StringExecFns;

verus! {

/// The uppercase hexadecimal digit for one value below sixteen.
pub open spec fn hex_digit(d: int) -> char {
    if d == 0 {
        '0'
    } else if d == 1 {
        '1'
    } else if d == 2 {
        '2'
    } else if d == 3 {
        '3'
    } else if d == 4 {
        '4'
    } else if d == 5 {
        '5'
    } else if d == 6 {
        '6'
    } else if d == 7 {
        '7'
    } else if d == 8 {
        '8'
    } else if d == 9 {
        '9'
    } else if d == 10 {
        'A'
    } else if d == 11 {
        'B'
    } else if d == 12 {
        'C'
    } else if d == 13 {
        'D'
    } else if d == 14 {
        'E'
    } else {
        'F'
    }
}

/// The uppercase hexadecimal digits of a value, most significant first,
/// without a prefix and without leading zeros (a lone zero for zero).
pub open spec fn spec_hex(v: u128) -> Seq<char>
    decreases v,
{
    if v < 16 {
        seq![hex_digit(v as int)]
    } else {
        spec_hex(v / 16) + seq![hex_digit((v % 16) as int)]
    }
}

fn push_hex_digit(s: &mut String, d: u8)
    requires
        d < 16,
    ensures
        final(s)@ == old(s)@ + seq![hex_digit(d as int)],
{
    proof {
        reveal_strlit("0");
        reveal_strlit("1");
        reveal_strlit("2");
        reveal_strlit("3");
        reveal_strlit("4");
        reveal_strlit("5");
        reveal_strlit("6");
        reveal_strlit("7");
        reveal_strlit("8");
        reveal_strlit("9");
        reveal_strlit("A");
        reveal_strlit("B");
        reveal_strlit("C");
        reveal_strlit("D");
        reveal_strlit("E");
        reveal_strlit("F");
    }
    let t: &str = if d == 0 {
        "0"
    } else if d == 1 {
        "1"
    } else if d == 2 {
        "2"
    } else if d == 3 {
        "3"
    } else if d == 4 {
        "4"
    } else if d == 5 {
        "5"
    } else if d == 6 {
        "6"
    } else if d == 7 {
        "7"
    } else if d == 8 {
        "8"
    } else if d == 9 {
        "9"
    } else if d == 10 {
        "A"
    } else if d == 11 {
        "B"
    } else if d == 12 {
        "C"
    } else if d == 13 {
        "D"
    } else if d == 14 {
        "E"
    } else {
        "F"
    };
    assert(t@ =~= seq![hex_digit(d as int)]);
    s.append(t);
}

fn push_hex(s: &mut String, v: u128)
    ensures
        final(s)@ == old(s)@ + spec_hex(v),
    decreases v,
{
    if v >= 16 {
        push_hex(s, v / 16);
    }
    push_hex_digit(s, (v % 16) as u8);
    assert(s@ =~= old(s)@ + spec_hex(v));
}

/// Renders a value in uppercase hexadecimal, most significant digit first,
/// without a prefix: the digits that `spec_hex` describes.
pub fn hex_upper(v: u128) -> (s: String)
    ensures
        s@ == spec_hex(v),
{
    let mut s = String::new();
    push_hex(&mut s, v);
    assert(s@ =~= spec_hex(v));
    s
}

} // verus!
