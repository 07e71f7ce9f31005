//! How numbers and string literals are written in assembly text.

use vstd::prelude::*;
use vstd::string::*;

verus! {

/// The text of one decimal digit.
pub open spec fn digit_text(digit: nat) -> Seq<char> {
    if digit == 0 {
        "0"@
    } else if digit == 1 {
        "1"@
    } else if digit == 2 {
        "2"@
    } else if digit == 3 {
        "3"@
    } else if digit == 4 {
        "4"@
    } else if digit == 5 {
        "5"@
    } else if digit == 6 {
        "6"@
    } else if digit == 7 {
        "7"@
    } else if digit == 8 {
        "8"@
    } else {
        "9"@
    }
}

/// The text of one hexadecimal digit, in lower case.
pub open spec fn hex_digit_text(digit: nat) -> Seq<char> {
    if digit < 10 {
        digit_text(digit)
    } else if digit == 10 {
        "a"@
    } else if digit == 11 {
        "b"@
    } else if digit == 12 {
        "c"@
    } else if digit == 13 {
        "d"@
    } else if digit == 14 {
        "e"@
    } else {
        "f"@
    }
}

/// A natural number in decimal, without leading zeros.
pub open spec fn decimal(n: nat) -> Seq<char>
    decreases n,
{
    if n < 10 {
        digit_text(n)
    } else {
        decimal(n / 10) + digit_text(n % 10)
    }
}

/// An integer in decimal, with a minus sign where it is negative.
pub open spec fn signed_decimal(n: int) -> Seq<char> {
    if n < 0 {
        "-"@ + decimal((-n) as nat)
    } else {
        decimal(n as nat)
    }
}

/// A natural number in hexadecimal, without leading zeros.
pub open spec fn hexadecimal(n: nat) -> Seq<char>
    decreases n,
{
    if n < 16 {
        hex_digit_text(n)
    } else {
        hexadecimal(n / 16) + hex_digit_text(n % 16)
    }
}

/// The 64-bit pattern of an address, read as a natural number.
pub open spec fn address_bits(address: i64) -> nat {
    if address < 0 {
        (address + 0x1_0000_0000_0000_0000) as nat
    } else {
        address as nat
    }
}

/// An address as the assembler reads it: `0x` and the hexadecimal digits of
/// its 64-bit pattern.
pub open spec fn address_text(address: i64) -> Seq<char> {
    "0x"@ + hexadecimal(address_bits(address))
}

/// One character of a string literal: a double quote gets a backslash before it.
pub open spec fn escaped_char(c: char) -> Seq<char> {
    if c == '"' {
        seq!['\\', '"']
    } else {
        seq![c]
    }
}

/// A text as it stands between the quotes of a string literal.
pub open spec fn escaped(text: Seq<char>) -> Seq<char>
    decreases text.len(),
{
    if text.len() == 0 {
        Seq::empty()
    } else {
        escaped(text.drop_last()) + escaped_char(text.last())
    }
}

fn digit_str(digit: u8) -> (text: &'static str)
    requires
        digit < 10,
    ensures
        text@ == digit_text(digit as nat),
{
    match digit {
        0 => "0",
        1 => "1",
        2 => "2",
        3 => "3",
        4 => "4",
        5 => "5",
        6 => "6",
        7 => "7",
        8 => "8",
        _ => "9",
    }
}

fn hex_digit_str(digit: u8) -> (text: &'static str)
    requires
        digit < 16,
    ensures
        text@ == hex_digit_text(digit as nat),
{
    match digit {
        10 => "a",
        11 => "b",
        12 => "c",
        13 => "d",
        14 => "e",
        15 => "f",
        _ => digit_str(digit),
    }
}

/// Appends `n` in decimal to `buffer`.
pub fn push_decimal(buffer: &mut String, n: u128)
    ensures
        final(buffer)@ == old(buffer)@ + decimal(n as nat),
    decreases n,
{
    if n < 10 {
        buffer.append(digit_str(n as u8));
    } else {
        push_decimal(buffer, n / 10);
        buffer.append(digit_str((n % 10) as u8));
        assert(buffer@ =~= old(buffer)@ + decimal(n as nat));
    }
}

/// Appends `n` in decimal to `buffer`, with its sign where it is negative.
pub fn push_signed_decimal(buffer: &mut String, n: i128)
    requires
        n > i128::MIN,
    ensures
        final(buffer)@ == old(buffer)@ + signed_decimal(n as int),
{
    if n < 0 {
        buffer.append("-");
        push_decimal(buffer, (-n) as u128);
        assert(buffer@ =~= old(buffer)@ + signed_decimal(n as int));
    } else {
        push_decimal(buffer, n as u128);
    }
}

/// Appends `n` in hexadecimal to `buffer`.
pub fn push_hexadecimal(buffer: &mut String, n: u64)
    ensures
        final(buffer)@ == old(buffer)@ + hexadecimal(n as nat),
    decreases n,
{
    if n < 16 {
        buffer.append(hex_digit_str(n as u8));
    } else {
        push_hexadecimal(buffer, n / 16);
        buffer.append(hex_digit_str((n % 16) as u8));
        assert(buffer@ =~= old(buffer)@ + hexadecimal(n as nat));
    }
}

/// Appends an address to `buffer` as the assembler reads it.
pub fn push_address(buffer: &mut String, address: i64)
    ensures
        final(buffer)@ == old(buffer)@ + address_text(address),
{
    let bits: u64 = if address < 0 {
        (address as i128 + 0x1_0000_0000_0000_0000i128) as u64
    } else {
        address as u64
    };
    buffer.append("0x");
    push_hexadecimal(buffer, bits);
    assert(buffer@ =~= old(buffer)@ + address_text(address));
}

/// Appends `text` to `buffer` as it stands between the quotes of a string literal.
pub fn push_escaped(buffer: &mut String, text: &str)
    ensures
        final(buffer)@ == old(buffer)@ + escaped(text@),
{
    let length = text.unicode_len();
    let mut index: usize = 0;
    assert(text@.take(0) =~= Seq::empty());
    while index < length
        invariant
            length == text@.len(),
            index <= length,
            buffer@ == old(buffer)@ + escaped(text@.take(index as int)),
        decreases length - index,
    {
        let c = text.get_char(index);
        proof {
            let next = text@.take(index + 1);
            assert(next.drop_last() =~= text@.take(index as int));
            assert(next.last() == c);
        }
        if c == '"' {
            proof {
                reveal_strlit("\\\"");
            }
            buffer.append("\\\"");
            assert("\\\""@ =~= escaped_char(c));
        } else {
            let piece = text.substring_char(index, index + 1);
            buffer.append(piece);
            assert(piece@ =~= escaped_char(c));
        }
        assert(buffer@ =~= old(buffer)@ + escaped(text@.take(index + 1)));
        index += 1;
    }
    assert(text@.take(length as int) =~= text@);
}

/// A digit is written with one character, and different digits with
/// different ones.
pub proof fn lemma_digit_text(first: nat, second: nat)
    requires
        first < 10,
        second < 10,
    ensures
        digit_text(first).len() == 1,
        digit_text(first) == digit_text(second) ==> first == second,
{
    reveal_strlit("0");
    reveal_strlit("1");
    reveal_strlit("2");
    reveal_strlit("3");
    reveal_strlit("4");
    reveal_strlit("5");
    reveal_strlit("6");
    reveal_strlit("7");
    reveal_strlit("8");
    reveal_strlit("9");
    if digit_text(first) == digit_text(second) {
        assert(digit_text(first)[0] == digit_text(second)[0]);
    }
}

/// A number has as many characters as it has digits, one at least, and
/// ends in its last digit.
pub proof fn lemma_decimal_shape(n: nat)
    ensures
        decimal(n).len() >= 1,
        n >= 10 ==> decimal(n).len() >= 2,
        decimal(n).last() == digit_text(n % 10)[0],
        n >= 10 ==> decimal(n).drop_last() == decimal(n / 10),
    decreases n,
{
    lemma_digit_text(n % 10, n % 10);
    if n >= 10 {
        lemma_decimal_shape(n / 10);
        assert(decimal(n).drop_last() =~= decimal(n / 10));
    }
}

/// Different numbers are written differently.
pub proof fn lemma_decimal_injective(first: nat, second: nat)
    requires
        decimal(first) == decimal(second),
    ensures
        first == second,
    decreases first,
{
    lemma_decimal_shape(first);
    lemma_decimal_shape(second);
    lemma_digit_text(first % 10, second % 10);
    lemma_digit_text(second % 10, first % 10);
    assert(decimal(first).last() == decimal(second).last());
    assert(digit_text(first % 10) =~= digit_text(second % 10));
    if first >= 10 && second >= 10 {
        lemma_decimal_injective(first / 10, second / 10);
    }
}

} // verus!
