//! Rendering of single bytes: hexadecimal digits, the printable-ASCII panel
//! character, and the Braille-pattern character.

use vstd::prelude::*;

verus! {

/// The lowercase hexadecimal digit character for a value below sixteen.
pub open spec fn spec_hex_digit(d: int) -> char {
    if d == 0 {
        '0'
    } else if d == 1 {
        '1'
    } else if d == 2 {
        '2'
    } else if d == 3 {
        '3'
    } else if d == 4 {
        '4'
    } else if d == 5 {
        '5'
    } else if d == 6 {
        '6'
    } else if d == 7 {
        '7'
    } else if d == 8 {
        '8'
    } else if d == 9 {
        '9'
    } else if d == 10 {
        'a'
    } else if d == 11 {
        'b'
    } else if d == 12 {
        'c'
    } else if d == 13 {
        'd'
    } else if d == 14 {
        'e'
    } else {
        'f'
    }
}

/// Lowercase hexadecimal digit for `d`.
pub fn hex_digit(d: u8) -> (c: char)
    requires
        d < 16,
    ensures
        c == spec_hex_digit(d as int),
{
    match d {
        0 => '0',
        1 => '1',
        2 => '2',
        3 => '3',
        4 => '4',
        5 => '5',
        6 => '6',
        7 => '7',
        8 => '8',
        9 => '9',
        10 => 'a',
        11 => 'b',
        12 => 'c',
        13 => 'd',
        14 => 'e',
        _ => 'f',
    }
}

/// How a byte shows in the ASCII side panel: as itself when it is printable
/// seven-bit ASCII (strictly between 0x1F and 0x7F), otherwise as `.`.
pub open spec fn spec_printable(b: u8) -> char {
    if 0x1f < b < 0x7f {
        b as char
    } else {
        '.'
    }
}

/// Render a byte for the ASCII side panel.
pub fn printable(b: &u8) -> (c: char)
    ensures
        c == spec_printable(*b),
{
    let b = *b;
    if b > 0x1f && b < 0x7f {
        b as char
    } else {
        '.'
    }
}

/// The bit rearrangement that turns a byte into the offset of its Braille
/// pattern inside the Unicode Braille block: bits 0, 1, 2 and 7 stay where
/// they are, bits 4, 5 and 6 move down one position, and bit 3 moves up into
/// bit 7's old slot. This maps the byte's bits to the dots of a cell read
/// top to bottom down the left column, then down the right column.
pub open spec fn spec_braille_bits(b: u8) -> u8 {
    (b & 0x87) | ((b & 0x70) >> 1) | ((b & 0x08) << 3)
}

/// The Braille-pattern character that renders a byte: code point 0x2800 plus
/// the rearranged bit pattern.
pub open spec fn spec_braille(b: u8) -> char {
    (0x2800 + spec_braille_bits(b) as u32) as char
}

/// Relies on char::from_u32: for a u32 that is a valid Unicode scalar value
/// (not a surrogate, at most 0x10FFFF) it returns Some of the character with
/// exactly that code point.
#[verifier::external_body]
fn char_from_u32(x: u32) -> (c: char)
    requires
        x < 0xD800 || (0xE000 <= x && x <= 0x10FFFF),
    ensures
        c as u32 == x,
{
    char::from_u32(x).unwrap()
}

/// Render a byte as its Braille-pattern character.
pub fn braille_byte(b: u8) -> (c: char)
    ensures
        c == spec_braille(b),
        c as u32 == 0x2800 + spec_braille_bits(b),
{
    let keep = b & 0x87;
    let b4 = b & 0x08;
    let b567 = b & 0x70;
    let bits = keep | (b567 >> 1) | (b4 << 3);
    char_from_u32(0x2800 + bits as u32)
}

} // verus!
