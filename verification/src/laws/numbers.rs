//! Laws on numbers as text: read back as a number, the text is the number it was made from.

use vstd::prelude::*;

use crate::text::{
    address, decimal, digit_char, hex_digits, push_address, push_decimal, push_two_digits,
    two_digits,
};

verus! {

/// `c` is a decimal digit.
pub open spec fn is_decimal(c: char) -> bool {
    '0' as int <= c as int <= '9' as int
}

/// `c` is a hexadecimal digit, in lower case.
pub open spec fn is_hexadecimal(c: char) -> bool {
    is_decimal(c) || 'a' as int <= c as int <= 'f' as int
}

/// What a hexadecimal digit counts.
pub open spec fn digit_value(c: char) -> int {
    if is_decimal(c) {
        c as int - '0' as int
    } else {
        c as int - 'a' as int + 10
    }
}

/// The number that digits stand for in a base.
pub open spec fn number(digits: Seq<char>, base: int) -> int
    decreases digits.len(),
{
    if digits.len() == 0 {
        0
    } else {
        number(digits.drop_last(), base) * base + digit_value(digits.last())
    }
}

proof fn lemma_digit_char(d: int)
    requires
        0 <= d < 16,
    ensures
        is_hexadecimal(digit_char(d)),
        d < 10 <==> is_decimal(digit_char(d)),
        digit_value(digit_char(d)) == d,
{
    let digits = seq![
        '0', '1', '2', '3', '4', '5', '6', '7', '8', '9', 'a', 'b', 'c', 'd', 'e', 'f',
    ];
    assert(digits[0] == '0' && digits[1] == '1' && digits[2] == '2' && digits[3] == '3');
    assert(digits[4] == '4' && digits[5] == '5' && digits[6] == '6' && digits[7] == '7');
    assert(digits[8] == '8' && digits[9] == '9' && digits[10] == 'a' && digits[11] == 'b');
    assert(digits[12] == 'c' && digits[13] == 'd' && digits[14] == 'e' && digits[15] == 'f');
    assert(digit_char(d) == digits[d]);
}

proof fn lemma_decimal(x: nat)
    ensures
        decimal(x).len() > 0,
        forall|k: int| 0 <= k < decimal(x).len() ==> is_decimal(#[trigger] decimal(x)[k]),
        number(decimal(x), 10) == x,
        x > 0 ==> decimal(x)[0] != '0',
        x < 10 ==> decimal(x).len() == 1,
        10 <= x < 100 ==> decimal(x).len() == 2,
    decreases x,
{
    reveal_with_fuel(number, 2);
    if x < 10 {
        lemma_digit_char(x as int);
        assert(decimal(x).drop_last() =~= Seq::<char>::empty());
    } else {
        lemma_decimal(x / 10);
        lemma_digit_char((x % 10) as int);
        assert(decimal(x).drop_last() =~= decimal(x / 10));
    }
}

/// Sixteen to the power of `n`.
spec fn power_of_16(n: nat) -> nat
    decreases n,
{
    if n == 0 {
        1
    } else {
        16 * power_of_16((n - 1) as nat)
    }
}

proof fn lemma_hex_digits(x: nat, width: nat)
    requires
        x < power_of_16(width),
    ensures
        hex_digits(x, width).len() == width,
        forall|k: int|
            0 <= k < width ==> is_hexadecimal(#[trigger] hex_digits(x, width)[k]),
        number(hex_digits(x, width), 16) == x,
    decreases width,
{
    if width > 0 {
        lemma_hex_digits(x / 16, (width - 1) as nat);
        lemma_digit_char((x % 16) as int);
        assert(hex_digits(x, width).drop_last() =~= hex_digits(x / 16, (width - 1) as nat));
    }
}

/// An address is `0x` and sixteen lower case hexadecimal digits that read as the number.
pub proof fn law_address(x: u64)
    ensures
        address(x as nat).len() == 18,
        address(x as nat)[0] == '0',
        address(x as nat)[1] == 'x',
        forall|k: int| 2 <= k < 18 ==> is_hexadecimal(#[trigger] address(x as nat)[k]),
        number(address(x as nat).skip(2), 16) == x,
{
    reveal_strlit("0x");
    assert(power_of_16(16) == 0x1_0000_0000_0000_0000) by {
        reveal_with_fuel(power_of_16, 17);
    }
    lemma_hex_digits(x as nat, 16);
    assert(address(x as nat).skip(2) =~= hex_digits(x as nat, 16));
}

/// A decimal number has decimal digits that read as the number, and no leading zero.
pub proof fn law_decimal(x: u64)
    ensures
        decimal(x as nat).len() > 0,
        forall|k: int|
            0 <= k < decimal(x as nat).len() ==> is_decimal(#[trigger] decimal(x as nat)[k]),
        number(decimal(x as nat), 10) == x,
        decimal(x as nat)[0] == '0' ==> x == 0 && decimal(x as nat).len() == 1,
{
    lemma_decimal(x as nat);
}

/// A number below 100 in two digits has just two, which read as the number; a larger one is
/// written as any decimal number.
pub proof fn law_two_digits(x: u64)
    ensures
        x < 100 ==> {
            &&& two_digits(x as nat).len() == 2
            &&& is_decimal(two_digits(x as nat)[0]) && digit_value(two_digits(x as nat)[0]) == x
                / 10
            &&& is_decimal(two_digits(x as nat)[1]) && digit_value(two_digits(x as nat)[1]) == x
                % 10
        },
        x >= 100 ==> two_digits(x as nat) == decimal(x as nat),
{
    lemma_decimal(x as nat);
    if x < 100 {
        lemma_digit_char((x / 10) as int);
        lemma_digit_char((x % 10) as int);
        if x >= 10 {
            lemma_decimal((x / 10) as nat);
            assert(decimal(x as nat) =~= seq![
                digit_char((x / 10) as int),
                digit_char((x % 10) as int),
            ]);
        } else {
            assert(two_digits(x as nat) =~= seq!['0', digit_char(x as int)]);
        }
    }
}

/// Numbers are appended to what is there: in decimal, in two digits at least, or as an address.
pub proof fn law_appending(
    plain: &mut String,
    padded: &mut String,
    hex: &mut String,
    x: u64,
)
    requires
        call_ensures(push_decimal, (plain, x), ()),
        call_ensures(push_two_digits, (padded, x), ()),
        call_ensures(push_address, (hex, x), ()),
    ensures
        ({
            let start = old(plain)@.len();
            let digits = final(plain)@.skip(start as int);
            &&& final(plain)@.len() > start
            &&& final(plain)@.take(start as int) == old(plain)@
            &&& number(digits, 10) == x
            &&& forall|k: int| 0 <= k < digits.len() ==> is_decimal(#[trigger] digits[k])
            &&& digits[0] == '0' ==> digits.len() == 1
        }),
        ({
            let start = old(padded)@.len();
            let digits = final(padded)@.skip(start as int);
            &&& final(padded)@.len() >= start + 2
            &&& final(padded)@.take(start as int) == old(padded)@
            &&& x < 100 ==> {
                &&& digits.len() == 2
                &&& digit_value(digits[0]) == x / 10
                &&& digit_value(digits[1]) == x % 10
            }
            &&& x >= 100 ==> number(digits, 10) == x && digits[0] != '0'
            &&& forall|k: int| 0 <= k < digits.len() ==> is_decimal(#[trigger] digits[k])
        }),
        ({
            let start = old(hex)@.len();
            let text = final(hex)@.skip(start as int);
            &&& final(hex)@.len() == start + 18
            &&& final(hex)@.take(start as int) == old(hex)@
            &&& text[0] == '0' && text[1] == 'x'
            &&& number(text.skip(2), 16) == x
            &&& forall|k: int| 2 <= k < 18 ==> is_hexadecimal(#[trigger] text[k])
        }),
{
    law_decimal(x);
    law_two_digits(x);
    law_address(x);
    lemma_two_digits_long(x);
    assert(final(plain)@.take(old(plain)@.len() as int) =~= old(plain)@);
    assert(final(plain)@.skip(old(plain)@.len() as int) =~= decimal(x as nat));
    assert(final(padded)@.take(old(padded)@.len() as int) =~= old(padded)@);
    assert(final(padded)@.skip(old(padded)@.len() as int) =~= two_digits(x as nat));
    assert(final(hex)@.take(old(hex)@.len() as int) =~= old(hex)@);
    assert(final(hex)@.skip(old(hex)@.len() as int) =~= address(x as nat));
}

proof fn lemma_two_digits_long(x: u64)
    ensures
        two_digits(x as nat).len() >= 2,
        forall|k: int|
            0 <= k < two_digits(x as nat).len() ==> is_decimal(#[trigger] two_digits(x as nat)[k]),
{
    lemma_decimal(x as nat);
    if x >= 10 {
        lemma_decimal((x / 10) as nat);
    }
}

} // verus!
