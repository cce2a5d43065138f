//! Text made character by character: digits, hexadecimal numbers, and the
//! passage between a `String` and its characters.
use vstd::prelude::*;

verus! {

/// The character of a decimal digit.
pub open spec fn digit(n: int) -> char
    recommends
        0 <= n < 10,
{
    (0x30 + n) as u8 as char
}

/// A number below 100 in two decimal digits.
pub open spec fn two_digits(n: int) -> Seq<char>
    recommends
        0 <= n < 100,
{
    seq![digit(n / 10), digit(n % 10)]
}

/// The number that a run of decimal digits stands for.
pub open spec fn digits_value(text: Seq<char>) -> int
    decreases text.len(),
{
    if text.len() == 0 {
        0
    } else {
        10 * digits_value(text.drop_last()) + (text.last() as int - 0x30)
    }
}

/// The character of a hexadecimal digit, in upper case.
pub open spec fn hex_digit(n: int) -> char
    recommends
        0 <= n < 16,
{
    if n < 10 {
        (0x30 + n) as u8 as char
    } else {
        (0x41 + n - 10) as u8 as char
    }
}

/// A byte in two hexadecimal digits.
pub open spec fn hex_byte(b: u8) -> Seq<char> {
    seq![hex_digit(b as int / 16), hex_digit(b as int % 16)]
}

/// A 16-bit number in four hexadecimal digits.
pub open spec fn hex_u16(v: u16) -> Seq<char> {
    hex_byte((v as int / 0x100) as u8) + hex_byte((v as int % 0x100) as u8)
}

/// A 32-bit number in eight hexadecimal digits.
pub open spec fn hex_u32(v: u32) -> Seq<char> {
    hex_u16((v as int / 0x1_0000) as u16) + hex_u16((v as int % 0x1_0000) as u16)
}

/// The bytes of `bytes`, each in two hexadecimal digits.
pub open spec fn hex_bytes(bytes: Seq<u8>) -> Seq<char>
    decreases bytes.len(),
{
    if bytes.len() == 0 {
        Seq::empty()
    } else {
        hex_bytes(bytes.drop_last()) + hex_byte(bytes.last())
    }
}

/// The characters of a string, if there is one.
pub open spec fn opt_text(text: Option<String>) -> Option<Seq<char>> {
    match text {
        Some(t) => Some(t@),
        None => None,
    }
}

/// `String::from_iter` over the characters: the string that is made of
/// them, in their order.
#[verifier::external_body]
pub(crate) fn string_from_chars(chars: &[char]) -> (text: String)
    ensures
        text@ == chars@,
{
    String::from_iter(chars.iter())
}

/// `str::chars`, collected: the characters of the text, in their order.
#[verifier::external_body]
pub(crate) fn chars_of(text: &str) -> (chars: Vec<char>)
    ensures
        chars@ == text@,
{
    text.chars().collect()
}

/// The character of a hexadecimal digit, in upper case.
pub(crate) fn hex_digit_char(n: u8) -> (c: char)
    requires
        n < 16,
    ensures
        c == hex_digit(n as int),
{
    if n < 10 {
        (0x30 + n) as char
    } else {
        (0x41 + (n - 10)) as char
    }
}

/// Appends the two hexadecimal digits of a byte.
pub(crate) fn push_hex_byte(out: &mut Vec<char>, b: u8)
    ensures
        final(out)@ == old(out)@ + hex_byte(b),
{
    out.push(hex_digit_char(b / 16));
    out.push(hex_digit_char(b % 16));
    proof {
        assert(final(out)@ =~= old(out)@ + hex_byte(b));
    }
}

/// Appends the four hexadecimal digits of a 16-bit number.
pub(crate) fn push_hex_u16(out: &mut Vec<char>, v: u16)
    ensures
        final(out)@ == old(out)@ + hex_u16(v),
{
    push_hex_byte(out, (v / 0x100) as u8);
    push_hex_byte(out, (v % 0x100) as u8);
    proof {
        assert(final(out)@ =~= old(out)@ + hex_u16(v));
    }
}

/// Appends the eight hexadecimal digits of a 32-bit number.
pub(crate) fn push_hex_u32(out: &mut Vec<char>, v: u32)
    ensures
        final(out)@ == old(out)@ + hex_u32(v),
{
    push_hex_u16(out, (v / 0x1_0000) as u16);
    push_hex_u16(out, (v % 0x1_0000) as u16);
    proof {
        assert(final(out)@ =~= old(out)@ + hex_u32(v));
    }
}

/// Appends the characters of `text`.
pub(crate) fn push_text(out: &mut Vec<char>, text: &str)
    ensures
        final(out)@ == old(out)@ + text@,
{
    let mut chars = chars_of(text);
    out.append(&mut chars);
}

} // verus!
