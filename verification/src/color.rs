//! Parsing of `#rrggbb` hex color strings into integer channels.
//!
//! The display layer's tint color arrives as text.  Parsing works on the
//! string's UTF-8 bytes: any leading `#` marks are stripped, and exactly
//! six hex digits remain or the value is rejected.  The caller scales
//! the integer channels to whatever unit its compositor wants.

use vstd::prelude::*;
use vstd::string::StringSliceAdditionalSpecFns;

verus! {

/// ASCII hex digit: `0`-`9`, `A`-`F` or `a`-`f`.
pub open spec fn is_hex_digit(b: u8) -> bool {
    (0x30 <= b && b <= 0x39) || (0x41 <= b && b <= 0x46) || (0x61 <= b && b <= 0x66)
}

/// The numeric value of one hex digit.
pub open spec fn hex_digit_value(b: u8) -> u8
    recommends
        is_hex_digit(b),
{
    if 0x30 <= b && b <= 0x39 {
        (b - 0x30) as u8
    } else if 0x41 <= b && b <= 0x46 {
        (b - 0x37) as u8
    } else {
        (b - 0x57) as u8
    }
}

/// The byte sequence with its leading `#` marks removed.
pub open spec fn strip_color_marks(s: Seq<u8>) -> Seq<u8>
    decreases s.len(),
{
    if s.len() > 0 && s[0] == 0x23 {
        strip_color_marks(s.subrange(1, s.len() as int))
    } else {
        s
    }
}

/// Exactly six hex digits.
pub open spec fn is_rgb_hex(s: Seq<u8>) -> bool {
    &&& s.len() == 6
    &&& is_hex_digit(s[0])
    &&& is_hex_digit(s[1])
    &&& is_hex_digit(s[2])
    &&& is_hex_digit(s[3])
    &&& is_hex_digit(s[4])
    &&& is_hex_digit(s[5])
}

/// A `+` followed by five hex digits: an unsigned hex parse accepts one
/// leading plus sign, so six characters of this shape carry a 20-bit
/// value.
pub open spec fn is_plus_rgb_hex(s: Seq<u8>) -> bool {
    &&& s.len() == 6
    &&& s[0] == 0x2b
    &&& is_hex_digit(s[1])
    &&& is_hex_digit(s[2])
    &&& is_hex_digit(s[3])
    &&& is_hex_digit(s[4])
    &&& is_hex_digit(s[5])
}

/// The six characters parse as a hex color value.
pub open spec fn parses_as_rgb(s: Seq<u8>) -> bool {
    is_rgb_hex(s) || is_plus_rgb_hex(s)
}

/// One color channel from its two hex digits.
pub open spec fn channel_of(hi: u8, lo: u8) -> u8 {
    (hex_digit_value(hi) * 16 + hex_digit_value(lo)) as u8
}

/// The `(red, green, blue)` channels of the parsed value: bits 16 and
/// up are red, the next byte green, the low byte blue.  Six hex digits
/// give the three digit pairs; in the signed form the value is 20 bits
/// wide, so red is just the first digit's value.
pub open spec fn rgb_of(s: Seq<u8>) -> (u8, u8, u8)
    recommends
        parses_as_rgb(s),
{
    if s[0] == 0x2b {
        (hex_digit_value(s[1]), channel_of(s[2], s[3]), channel_of(s[4], s[5]))
    } else {
        (channel_of(s[0], s[1]), channel_of(s[2], s[3]), channel_of(s[4], s[5]))
    }
}

fn is_hex_digit_byte(b: u8) -> (r: bool)
    ensures
        r == is_hex_digit(b),
{
    (0x30 <= b && b <= 0x39) || (0x41 <= b && b <= 0x46) || (0x61 <= b && b <= 0x66)
}

fn hex_digit_value_byte(b: u8) -> (v: u8)
    requires
        is_hex_digit(b),
    ensures
        v == hex_digit_value(b),
        v <= 15,
{
    if 0x30 <= b && b <= 0x39 {
        b - 0x30
    } else if 0x41 <= b && b <= 0x46 {
        b - 0x37
    } else {
        b - 0x57
    }
}

fn hex_pair(hi: u8, lo: u8) -> (c: u8)
    requires
        is_hex_digit(hi),
        is_hex_digit(lo),
    ensures
        c == channel_of(hi, lo),
{
    let h = hex_digit_value_byte(hi);
    let l = hex_digit_value_byte(lo);
    h * 16 + l
}

/// Parse a `#rrggbb` tint color into its integer channels, each in
/// `0..=255`.  Leading `#` marks are stripped; the remaining six
/// characters must be hex digits — or a `+` sign and five hex digits,
/// the other form an unsigned hex parse accepts — else the value is
/// rejected.
pub fn hex_to_rgb(hex: &str) -> (r: Option<(u8, u8, u8)>)
    ensures
        parses_as_rgb(strip_color_marks(hex.spec_bytes())) ==> r == Some(
            rgb_of(strip_color_marks(hex.spec_bytes())),
        ),
        !parses_as_rgb(strip_color_marks(hex.spec_bytes())) ==> r is None,
{
    let bytes: &[u8] = hex.as_bytes();
    let len: usize = bytes.len();
    let mut start: usize = 0;
    proof {
        assert(bytes@.subrange(0, len as int) =~= bytes@);
    }
    while start < len && bytes[start] == 0x23
        invariant
            start <= len,
            len == bytes@.len(),
            bytes@ == hex.spec_bytes(),
            strip_color_marks(hex.spec_bytes()) == strip_color_marks(
                bytes@.subrange(start as int, len as int),
            ),
        decreases len - start,
    {
        proof {
            let t = bytes@.subrange(start as int, len as int);
            assert(t.len() > 0 && t[0] == 0x23);
            assert(t.subrange(1, t.len() as int) =~= bytes@.subrange(start as int + 1, len as int));
        }
        start = start + 1;
    }
    let ghost t = bytes@.subrange(start as int, len as int);
    proof {
        assert(strip_color_marks(hex.spec_bytes()) == t);
    }
    if len - start != 6 {
        return None;
    }
    let b0 = bytes[start];
    let b1 = bytes[start + 1];
    let b2 = bytes[start + 2];
    let b3 = bytes[start + 3];
    let b4 = bytes[start + 4];
    let b5 = bytes[start + 5];
    proof {
        assert(t[0] == b0 && t[1] == b1 && t[2] == b2 && t[3] == b3 && t[4] == b4 && t[5] == b5);
    }
    if !(is_hex_digit_byte(b1) && is_hex_digit_byte(b2) && is_hex_digit_byte(b3)
        && is_hex_digit_byte(b4) && is_hex_digit_byte(b5)) {
        return None;
    }
    if b0 == 0x2b {
        let red = hex_digit_value_byte(b1);
        let green = hex_pair(b2, b3);
        let blue = hex_pair(b4, b5);
        Some((red, green, blue))
    } else if is_hex_digit_byte(b0) {
        let red = hex_pair(b0, b1);
        let green = hex_pair(b2, b3);
        let blue = hex_pair(b4, b5);
        Some((red, green, blue))
    } else {
        None
    }
}

} // verus!
