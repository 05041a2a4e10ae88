//! Numbers as text, for messages.

use vstd::prelude::*;
use vstd::string::StringExecFns;

verus! {

/// The character for a single decimal digit.
pub open spec fn digit_char(digit: nat) -> char {
    if digit == 0 {
        '0'
    } else if digit == 1 {
        '1'
    } else if digit == 2 {
        '2'
    } else if digit == 3 {
        '3'
    } else if digit == 4 {
        '4'
    } else if digit == 5 {
        '5'
    } else if digit == 6 {
        '6'
    } else if digit == 7 {
        '7'
    } else if digit == 8 {
        '8'
    } else {
        '9'
    }
}

/// A number in decimal, most significant digit first, without leading
/// zeros.
pub open spec fn decimal(number: nat) -> Seq<char>
    decreases number,
{
    if number < 10 {
        seq![digit_char(number)]
    } else {
        decimal(number / 10).push(digit_char(number % 10))
    }
}

/// The text of a single decimal digit.
fn digit_text(digit: u64) -> (text: &'static str)
    requires
        digit < 10,
    ensures
        text@ == seq![digit_char(digit as nat)],
{
    proof {
        reveal_strlit("0");
        reveal_strlit("1");
        reveal_strlit("2");
        reveal_strlit("3");
        reveal_strlit("4");
        reveal_strlit("5");
        reveal_strlit("6");
        reveal_strlit("7");
        reveal_strlit("8");
        reveal_strlit("9");
    }
    let text = if digit == 0 {
        "0"
    } else if digit == 1 {
        "1"
    } else if digit == 2 {
        "2"
    } else if digit == 3 {
        "3"
    } else if digit == 4 {
        "4"
    } else if digit == 5 {
        "5"
    } else if digit == 6 {
        "6"
    } else if digit == 7 {
        "7"
    } else if digit == 8 {
        "8"
    } else {
        "9"
    };
    assert(text@ =~= seq![digit_char(digit as nat)]);
    text
}

/// Writes `number` in decimal.
pub fn decimal_string(number: u64) -> (text: String)
    ensures
        text@ == decimal(number as nat),
    decreases number,
{
    if number < 10 {
        String::from_str(digit_text(number))
    } else {
        let mut text = decimal_string(number / 10);
        text.append(digit_text(number % 10));
        assert(text@ =~= decimal(number as nat));
        text
    }
}

/// The character for a single hexadecimal digit, in lower case.
pub open spec fn hex_digit_char(digit: nat) -> char {
    if digit < 10 {
        digit_char(digit)
    } else if digit == 10 {
        'a'
    } else if digit == 11 {
        'b'
    } else if digit == 12 {
        'c'
    } else if digit == 13 {
        'd'
    } else if digit == 14 {
        'e'
    } else {
        'f'
    }
}

/// A byte as two hexadecimal digits, the high one first.
pub open spec fn hex_byte(byte: u8) -> Seq<char> {
    seq![hex_digit_char(byte as nat / 16), hex_digit_char(byte as nat % 16)]
}

/// A short mark by which 32 bytes can be told apart at a glance: the first
/// two, the eleventh and twelfth and the last two bytes in hexadecimal, with
/// two dots between the pairs.
pub open spec fn fingerprint(bytes: Seq<u8>) -> Seq<char>
    recommends
        bytes.len() == 32,
{
    hex_byte(bytes[0]) + hex_byte(bytes[1]) + seq!['.', '.'] + hex_byte(bytes[10]) + hex_byte(
        bytes[11],
    ) + seq!['.', '.'] + hex_byte(bytes[30]) + hex_byte(bytes[31])
}

/// The text of a single hexadecimal digit.
fn hex_digit_text(digit: u8) -> (text: &'static str)
    requires
        digit < 16,
    ensures
        text@ == seq![hex_digit_char(digit as nat)],
{
    if digit < 10 {
        digit_text(digit as u64)
    } else {
        proof {
            reveal_strlit("a");
            reveal_strlit("b");
            reveal_strlit("c");
            reveal_strlit("d");
            reveal_strlit("e");
            reveal_strlit("f");
        }
        let text = if digit == 10 {
            "a"
        } else if digit == 11 {
            "b"
        } else if digit == 12 {
            "c"
        } else if digit == 13 {
            "d"
        } else if digit == 14 {
            "e"
        } else {
            "f"
        };
        assert(text@ =~= seq![hex_digit_char(digit as nat)]);
        text
    }
}

/// Appends `byte` to `text` as two hexadecimal digits.
fn append_hex_byte(text: &mut String, byte: u8)
    ensures
        final(text)@ == old(text)@ + hex_byte(byte),
{
    text.append(hex_digit_text(byte / 16));
    text.append(hex_digit_text(byte % 16));
    assert(text@ =~= old(text)@ + hex_byte(byte));
}

/// Writes the fingerprint of 32 bytes.
pub fn fingerprint_string(bytes: &[u8; 32]) -> (text: String)
    ensures
        text@ == fingerprint(bytes@),
{
    proof {
        reveal_strlit("..");
    }
    let mut text = String::new();
    append_hex_byte(&mut text, bytes[0]);
    append_hex_byte(&mut text, bytes[1]);
    text.append("..");
    append_hex_byte(&mut text, bytes[10]);
    append_hex_byte(&mut text, bytes[11]);
    text.append("..");
    append_hex_byte(&mut text, bytes[30]);
    append_hex_byte(&mut text, bytes[31]);
    assert(text@ =~= fingerprint(bytes@));
    text
}

} // verus!
