//! Numbers as text.

use vstd::prelude::*;

verus! {

/// The digit of value `d`, in lower case.
pub open spec fn digit_char(d: int) -> char {
    seq!['0', '1', '2', '3', '4', '5', '6', '7', '8', '9', 'a', 'b', 'c', 'd', 'e', 'f'][d]
}

/// The last `width` hexadecimal digits of `x`, with leading zeros.
pub open spec fn hex_digits(x: nat, width: nat) -> Seq<char>
    decreases width,
{
    if width == 0 {
        Seq::empty()
    } else {
        hex_digits(x / 16, (width - 1) as nat).push(digit_char((x % 16) as int))
    }
}

/// `x` in decimal, without leading zeros.
pub open spec fn decimal(x: nat) -> Seq<char>
    decreases x,
{
    if x < 10 {
        seq![digit_char(x as int)]
    } else {
        decimal(x / 10).push(digit_char((x % 10) as int))
    }
}

/// `x` in decimal, with a leading zero where it has one digit only.
pub open spec fn two_digits(x: nat) -> Seq<char> {
    if x < 10 {
        seq!['0'] + decimal(x)
    } else {
        decimal(x)
    }
}

/// `x` as an address: `0x` and sixteen hexadecimal digits.
pub open spec fn address(x: nat) -> Seq<char> {
    "0x"@ + hex_digits(x, 16)
}

/// The digit of value `d`, as a string.
fn digit(d: u64) -> (s: &'static str)
    requires
        d < 16,
    ensures
        s@ == seq![digit_char(d as int)],
{
    let s = match d {
        0 => "0",
        1 => "1",
        2 => "2",
        3 => "3",
        4 => "4",
        5 => "5",
        6 => "6",
        7 => "7",
        8 => "8",
        9 => "9",
        10 => "a",
        11 => "b",
        12 => "c",
        13 => "d",
        14 => "e",
        _ => "f",
    };
    proof {
        reveal_strlit("0");
        reveal_strlit("1");
        reveal_strlit("2");
        reveal_strlit("3");
        reveal_strlit("4");
        reveal_strlit("5");
        reveal_strlit("6");
        reveal_strlit("7");
        reveal_strlit("8");
        reveal_strlit("9");
        reveal_strlit("a");
        reveal_strlit("b");
        reveal_strlit("c");
        reveal_strlit("d");
        reveal_strlit("e");
        reveal_strlit("f");
        assert(s@ =~= seq![digit_char(d as int)]);
    }
    s
}

/// Append the last `width` hexadecimal digits of `x`.
fn push_hex_digits(out: &mut String, x: u64, width: usize)
    ensures
        final(out)@ == old(out)@ + hex_digits(x as nat, width as nat),
    decreases width,
{
    if width > 0 {
        push_hex_digits(out, x / 16, width - 1);
        out.append(digit(x % 16));
    }
    assert(out@ =~= old(out)@ + hex_digits(x as nat, width as nat));
}

/// Append `x` in decimal.
pub fn push_decimal(out: &mut String, x: u64)
    ensures
        final(out)@ == old(out)@ + decimal(x as nat),
    decreases x,
{
    if x >= 10 {
        push_decimal(out, x / 10);
    }
    out.append(digit(x % 10));
    assert(out@ =~= old(out)@ + decimal(x as nat));
}

/// Append `x` in decimal, two digits at least.
pub fn push_two_digits(out: &mut String, x: u64)
    ensures
        final(out)@ == old(out)@ + two_digits(x as nat),
{
    if x < 10 {
        out.append(digit(0));
    }
    push_decimal(out, x);
    assert(out@ =~= old(out)@ + two_digits(x as nat));
}

/// Append `x` as an address.
pub fn push_address(out: &mut String, x: u64)
    ensures
        final(out)@ == old(out)@ + address(x as nat),
{
    out.append("0x");
    push_hex_digits(out, x, 16);
    assert(out@ =~= old(out)@ + address(x as nat));
}

} // verus!
