//! Rendering of numbers and block roots as text.

use vstd::prelude::*;

verus! {

/// `String::push` of the standard library: the character is appended to the
/// end of the string, and nothing else changes.
pub assume_specification[ String::push ](s: &mut String, ch: char)
    ensures
        final(s)@ == old(s)@.push(ch),
;

/// The lower-case hexadecimal digit for a value below sixteen.
pub open spec fn hex_digit(d: nat) -> char {
    if d == 0 {
        '0'
    } else if d == 1 {
        '1'
    } else if d == 2 {
        '2'
    } else if d == 3 {
        '3'
    } else if d == 4 {
        '4'
    } else if d == 5 {
        '5'
    } else if d == 6 {
        '6'
    } else if d == 7 {
        '7'
    } else if d == 8 {
        '8'
    } else if d == 9 {
        '9'
    } else if d == 10 {
        'a'
    } else if d == 11 {
        'b'
    } else if d == 12 {
        'c'
    } else if d == 13 {
        'd'
    } else if d == 14 {
        'e'
    } else {
        'f'
    }
}

/// The decimal digits of `n`, most significant first, without leading zeros.
pub open spec fn decimal(n: nat) -> Seq<char>
    decreases n,
{
    if n < 10 {
        seq![hex_digit(n)]
    } else {
        decimal(n / 10).push(hex_digit(n % 10))
    }
}

/// The two hexadecimal digits of a byte, high nibble first.
pub open spec fn hex_byte(b: u8) -> Seq<char> {
    seq![hex_digit((b / 16) as nat), hex_digit((b % 16) as nat)]
}

/// The short form of a 32-byte root: `0x`, the first two bytes in
/// hexadecimal, an ellipsis, and the last two bytes.
pub open spec fn abbreviated_root(bytes: Seq<u8>) -> Seq<char>
    recommends
        bytes.len() == 32,
{
    seq!['0', 'x'] + hex_byte(bytes[0]) + hex_byte(bytes[1]) + seq!['\u{2026}'] + hex_byte(
        bytes[30],
    ) + hex_byte(bytes[31])
}

/// Returns the digit character for `d`.
pub fn digit_char(d: u8) -> (c: char)
    requires
        d < 16,
    ensures
        c == hex_digit(d as nat),
{
    match d {
        0 => '0',
        1 => '1',
        2 => '2',
        3 => '3',
        4 => '4',
        5 => '5',
        6 => '6',
        7 => '7',
        8 => '8',
        9 => '9',
        10 => 'a',
        11 => 'b',
        12 => 'c',
        13 => 'd',
        14 => 'e',
        _ => 'f',
    }
}

/// Appends the decimal form of `n` to `s`.
pub fn push_decimal(s: &mut String, n: u64)
    ensures
        final(s)@ == old(s)@ + decimal(n as nat),
    decreases n,
{
    if n >= 10 {
        push_decimal(s, n / 10);
    }
    let d: u64 = n % 10;
    s.push(digit_char(d as u8));
    proof {
        if n >= 10 {
            assert(final(s)@ =~= old(s)@ + decimal((n / 10) as nat).push(hex_digit((n % 10) as nat)));
        } else {
            assert(final(s)@ =~= old(s)@ + seq![hex_digit(n as nat)]);
        }
    }
}

/// Appends the two hexadecimal digits of `b` to `s`.
pub fn push_hex_byte(s: &mut String, b: u8)
    ensures
        final(s)@ == old(s)@ + hex_byte(b),
{
    s.push(digit_char(b / 16));
    s.push(digit_char(b % 16));
    proof {
        assert(final(s)@ =~= old(s)@ + hex_byte(b));
    }
}

/// Appends the short form of a root to `s`.
pub fn push_abbreviated_root(s: &mut String, bytes: &[u8; 32])
    ensures
        final(s)@ == old(s)@ + abbreviated_root(bytes@),
{
    s.push('0');
    s.push('x');
    push_hex_byte(s, bytes[0]);
    push_hex_byte(s, bytes[1]);
    s.push('\u{2026}');
    push_hex_byte(s, bytes[30]);
    push_hex_byte(s, bytes[31]);
    proof {
        assert(final(s)@ =~= old(s)@ + abbreviated_root(bytes@));
    }
}

} // verus!
