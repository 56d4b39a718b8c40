//! Hex color strings in the CSS forms: short codes (`#FFF`), RGB strings
//! (`#FF0000`) and RGBA strings with a trailing alpha channel (`#C6C6C680`).
use vstd::prelude::*;

use crate::utils::color::{alpha_from_argb, blue_from_argb, green_from_argb, red_from_argb};

verus! {

/// The lowercase hex digit for a value below sixteen.
pub open spec fn spec_hex_digit(n: int) -> char {
    if n == 0 {
        '0'
    } else if n == 1 {
        '1'
    } else if n == 2 {
        '2'
    } else if n == 3 {
        '3'
    } else if n == 4 {
        '4'
    } else if n == 5 {
        '5'
    } else if n == 6 {
        '6'
    } else if n == 7 {
        '7'
    } else if n == 8 {
        '8'
    } else if n == 9 {
        '9'
    } else if n == 10 {
        'a'
    } else if n == 11 {
        'b'
    } else if n == 12 {
        'c'
    } else if n == 13 {
        'd'
    } else if n == 14 {
        'e'
    } else {
        'f'
    }
}

/// The lowercase hex encoding of a byte sequence, two digits per byte.
pub open spec fn spec_hex_of_bytes(s: Seq<u8>) -> Seq<char>
    decreases s.len(),
{
    if s.len() == 0 {
        Seq::empty()
    } else {
        spec_hex_of_bytes(s.drop_last()) + seq![
            spec_hex_digit(s.last() as int / 16),
            spec_hex_digit(s.last() as int % 16),
        ]
    }
}

/// Relies on hex::encode: the result is the lowercase hex encoding of the
/// bytes, two digits per byte, most significant digit first.
#[verifier::external_body]
fn hex_encode(bytes: &[u8]) -> (r: String)
    ensures
        r@ == spec_hex_of_bytes(bytes@),
{
    hex::encode(bytes)
}

/// The characters of the hex string for an ARGB color: a hash, then the hex
/// bytes red-green-blue, with the alpha byte appended last only when the
/// color is not fully opaque.
pub open spec fn spec_hex_from_argb(a: int, r: int, g: int, b: int) -> Seq<char> {
    if a < 255 {
        seq!['#'] + spec_hex_of_bytes(seq![r as u8, g as u8, b as u8, a as u8])
    } else {
        seq!['#'] + spec_hex_of_bytes(seq![r as u8, g as u8, b as u8])
    }
}

/// Returns the hex string of an ARGB color, `#rrggbb` for opaque colors and
/// `#rrggbbaa` otherwise.
pub fn hex_from_argb(argb: [u8; 4]) -> (res: String)
    ensures
        res@ == spec_hex_from_argb(
            argb[0] as int,
            argb[1] as int,
            argb[2] as int,
            argb[3] as int,
        ),
{
    let a: u8 = alpha_from_argb(argb);
    let r: u8 = red_from_argb(argb);
    let g: u8 = green_from_argb(argb);
    let b: u8 = blue_from_argb(argb);
    let hex_value: String = if a < 255 {
        let bytes: [u8; 4] = [r, g, b, a];
        proof {
            assert(bytes@ =~= seq![argb[1], argb[2], argb[3], argb[0]]);
        }
        hex_encode(bytes.as_slice())
    } else {
        let bytes: [u8; 3] = [r, g, b];
        proof {
            assert(bytes@ =~= seq![argb[1], argb[2], argb[3]]);
        }
        hex_encode(bytes.as_slice())
    };
    proof {
        reveal_strlit("#");
    }
    let head: String = String::from_str("#");
    proof {
        assert(head@ =~= seq!['#']);
    }
    head.concat(hex_value.as_str())
}

/// A character that is a hex digit in either case.
pub open spec fn spec_is_hex_digit(c: char) -> bool {
    (48 <= c as u32 <= 57) || (97 <= c as u32 <= 102) || (65 <= c as u32 <= 70)
}

/// The value of a hex digit character.
pub open spec fn spec_hex_val(c: char) -> int {
    if 48 <= c as u32 <= 57 {
        c as u32 - 48
    } else if 97 <= c as u32 <= 102 {
        c as u32 - 87
    } else if 65 <= c as u32 <= 70 {
        c as u32 - 55
    } else {
        0
    }
}

fn hex_val(c: char) -> (r: u8)
    requires
        spec_is_hex_digit(c),
    ensures
        r == spec_hex_val(c),
        r < 16,
{
    let u: u32 = c as u32;
    if 48 <= u && u <= 57 {
        (u - 48) as u8
    } else if 97 <= u && u <= 102 {
        (u - 87) as u8
    } else {
        (u - 55) as u8
    }
}

/// The characters of a hex string with every hash sign removed.
pub open spec fn spec_strip_hash(s: Seq<char>) -> Seq<char>
    decreases s.len(),
{
    if s.len() == 0 {
        Seq::empty()
    } else if s.last() == '#' {
        spec_strip_hash(s.drop_last())
    } else {
        spec_strip_hash(s.drop_last()).push(s.last())
    }
}

/// A well-formed hex color string: after removing hash signs, three, six or
/// eight hex digits remain.
pub open spec fn spec_hex_input_ok(s: Seq<char>) -> bool {
    let t = spec_strip_hash(s);
    &&& (t.len() == 3 || t.len() == 6 || t.len() == 8)
    &&& forall|i: int| 0 <= i < t.len() ==> spec_is_hex_digit(#[trigger] t[i])
}

/// The ARGB channels denoted by a well-formed hex string: three digits give
/// a doubled-digit opaque color, six an opaque color, eight a color whose
/// last byte is the alpha channel.
pub open spec fn spec_argb_from_hex(s: Seq<char>) -> (int, int, int, int) {
    let t = spec_strip_hash(s);
    if t.len() == 3 {
        (
            255,
            17 * spec_hex_val(t[0]),
            17 * spec_hex_val(t[1]),
            17 * spec_hex_val(t[2]),
        )
    } else if t.len() == 6 {
        (
            255,
            16 * spec_hex_val(t[0]) + spec_hex_val(t[1]),
            16 * spec_hex_val(t[2]) + spec_hex_val(t[3]),
            16 * spec_hex_val(t[4]) + spec_hex_val(t[5]),
        )
    } else {
        (
            16 * spec_hex_val(t[6]) + spec_hex_val(t[7]),
            16 * spec_hex_val(t[0]) + spec_hex_val(t[1]),
            16 * spec_hex_val(t[2]) + spec_hex_val(t[3]),
            16 * spec_hex_val(t[4]) + spec_hex_val(t[5]),
        )
    }
}

/// Parses a hex color string, with or without leading hash, in the three,
/// six or eight digit forms. A malformed string is outside this function's
/// contract: on such input it does not return.
pub fn argb_from_hex(hex: String) -> (res: [u8; 4])
    requires
        spec_hex_input_ok(hex@),
    ensures
        (res[0] as int, res[1] as int, res[2] as int, res[3] as int) == spec_argb_from_hex(hex@),
{
    let st: &str = hex.as_str();
    let n: usize = st.unicode_len();
    let mut digits: Vec<char> = Vec::new();
    let mut i: usize = 0;
    while i < n
        invariant
            0 <= i <= n,
            n == st@.len(),
            digits@ == spec_strip_hash(st@.take(i as int)),
        decreases n - i,
    {
        let c: char = st.get_char(i);
        proof {
            assert(st@.take(i + 1).drop_last() =~= st@.take(i as int));
            assert(st@.take(i + 1).last() == st@[i as int]);
        }
        if c != '#' {
            digits.push(c);
        }
        i = i + 1;
    }
    proof {
        assert(st@.take(n as int) =~= st@);
    }
    let len: usize = digits.len();
    if len == 3 {
        let r: u8 = 17 * hex_val(digits[0]);
        let g: u8 = 17 * hex_val(digits[1]);
        let b: u8 = 17 * hex_val(digits[2]);
        [255, r, g, b]
    } else if len == 6 {
        let r: u8 = 16 * hex_val(digits[0]) + hex_val(digits[1]);
        let g: u8 = 16 * hex_val(digits[2]) + hex_val(digits[3]);
        let b: u8 = 16 * hex_val(digits[4]) + hex_val(digits[5]);
        [255, r, g, b]
    } else if len == 8 {
        let r: u8 = 16 * hex_val(digits[0]) + hex_val(digits[1]);
        let g: u8 = 16 * hex_val(digits[2]) + hex_val(digits[3]);
        let b: u8 = 16 * hex_val(digits[4]) + hex_val(digits[5]);
        let a: u8 = 16 * hex_val(digits[6]) + hex_val(digits[7]);
        [a, r, g, b]
    } else {
        vstd::pervasive::unreached()
    }
}

} // verus!
