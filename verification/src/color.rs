use vstd::prelude::*;

verus! {

/// A color with four 8-bit channels: red, green, blue, alpha.
#[derive(Clone, Copy, Debug, PartialEq, Eq, Structural)]
pub struct Rgba8 {
    pub r: u8,
    pub g: u8,
    pub b: u8,
    pub a: u8,
}

/// Why a color code was refused: it did not have exactly six characters,
/// or one of them was not a hexadecimal digit.
#[derive(Clone, Copy, Debug, PartialEq, Eq, Structural)]
pub enum HexColorError {
    BadLength,
    BadDigit,
}

/// The value of a hexadecimal digit, upper or lower case; sixteen for
/// any other character.
pub open spec fn hex_digit_value(c: char) -> int {
    match c {
        '0' => 0,
        '1' => 1,
        '2' => 2,
        '3' => 3,
        '4' => 4,
        '5' => 5,
        '6' => 6,
        '7' => 7,
        '8' => 8,
        '9' => 9,
        'a' => 10,
        'b' => 11,
        'c' => 12,
        'd' => 13,
        'e' => 14,
        'f' => 15,
        'A' => 10,
        'B' => 11,
        'C' => 12,
        'D' => 13,
        'E' => 14,
        'F' => 15,
        _ => 16,
    }
}

pub open spec fn is_hex_digit(c: char) -> bool {
    hex_digit_value(c) < 16
}

/// The byte a pair of hexadecimal digits denotes, high digit first.
pub open spec fn hex_byte(hi: char, lo: char) -> int {
    16 * hex_digit_value(hi) + hex_digit_value(lo)
}

/// What a color code denotes. A code is six hexadecimal digits, two per
/// channel in the order red, green, blue, with no prefix; the alpha
/// channel of the parsed color is always full. A code of any other
/// length is refused as `BadLength`; one of the right length with a
/// character that is no hexadecimal digit as `BadDigit`.
pub open spec fn spec_color_from_hex(s: Seq<char>) -> Result<Rgba8, HexColorError> {
    if s.len() != 6 {
        Err(HexColorError::BadLength)
    } else if exists|i: int| 0 <= i < 6 && !is_hex_digit(s[i]) {
        Err(HexColorError::BadDigit)
    } else {
        Ok(
            Rgba8 {
                r: hex_byte(s[0], s[1]) as u8,
                g: hex_byte(s[2], s[3]) as u8,
                b: hex_byte(s[4], s[5]) as u8,
                a: 255,
            },
        )
    }
}

/// The value of one hexadecimal digit character, or nothing for any
/// other character.
fn hex_digit(c: char) -> (r: Option<u8>)
    ensures
        r is Some <==> is_hex_digit(c),
        r matches Some(v) ==> v == hex_digit_value(c) && v < 16,
{
    match c {
        '0' => Some(0),
        '1' => Some(1),
        '2' => Some(2),
        '3' => Some(3),
        '4' => Some(4),
        '5' => Some(5),
        '6' => Some(6),
        '7' => Some(7),
        '8' => Some(8),
        '9' => Some(9),
        'a' => Some(10),
        'b' => Some(11),
        'c' => Some(12),
        'd' => Some(13),
        'e' => Some(14),
        'f' => Some(15),
        'A' => Some(10),
        'B' => Some(11),
        'C' => Some(12),
        'D' => Some(13),
        'E' => Some(14),
        'F' => Some(15),
        _ => None,
    }
}

/// Parses a color code of exactly six hexadecimal digits, upper or lower
/// case with no prefix, into an opaque color: two digits per channel in
/// the order red, green, blue, and the alpha channel forced to full.
pub fn color_from_hex(hex_code: &str) -> (r: Result<Rgba8, HexColorError>)
    ensures
        r == spec_color_from_hex(hex_code@),
{
    if hex_code.unicode_len() != 6 {
        return Err(HexColorError::BadLength);
    }
    let d0 = match hex_digit(hex_code.get_char(0)) {
        Some(v) => v,
        None => { return Err(HexColorError::BadDigit) },
    };
    let d1 = match hex_digit(hex_code.get_char(1)) {
        Some(v) => v,
        None => { return Err(HexColorError::BadDigit) },
    };
    let d2 = match hex_digit(hex_code.get_char(2)) {
        Some(v) => v,
        None => { return Err(HexColorError::BadDigit) },
    };
    let d3 = match hex_digit(hex_code.get_char(3)) {
        Some(v) => v,
        None => { return Err(HexColorError::BadDigit) },
    };
    let d4 = match hex_digit(hex_code.get_char(4)) {
        Some(v) => v,
        None => { return Err(HexColorError::BadDigit) },
    };
    let d5 = match hex_digit(hex_code.get_char(5)) {
        Some(v) => v,
        None => { return Err(HexColorError::BadDigit) },
    };
    let parsed = Rgba8 { r: 16 * d0 + d1, g: 16 * d2 + d3, b: 16 * d4 + d5, a: 255 };
    proof {
        assert forall|i: int| 0 <= i < 6 implies is_hex_digit(hex_code@[i]) by {
            if i == 0 {
            } else if i == 1 {
            } else if i == 2 {
            } else if i == 3 {
            } else if i == 4 {
            } else {
            }
        }
    }
    Ok(parsed)
}

/// The lower-case hexadecimal digit for a value below sixteen.
pub open spec fn hex_digit_lower(v: int) -> char {
    if v == 0 {
        '0'
    } else if v == 1 {
        '1'
    } else if v == 2 {
        '2'
    } else if v == 3 {
        '3'
    } else if v == 4 {
        '4'
    } else if v == 5 {
        '5'
    } else if v == 6 {
        '6'
    } else if v == 7 {
        '7'
    } else if v == 8 {
        '8'
    } else if v == 9 {
        '9'
    } else if v == 10 {
        'a'
    } else if v == 11 {
        'b'
    } else if v == 12 {
        'c'
    } else if v == 13 {
        'd'
    } else if v == 14 {
        'e'
    } else {
        'f'
    }
}

/// The upper-case hexadecimal digit for a value below sixteen.
pub open spec fn hex_digit_upper(v: int) -> char {
    if v < 10 {
        hex_digit_lower(v)
    } else if v == 10 {
        'A'
    } else if v == 11 {
        'B'
    } else if v == 12 {
        'C'
    } else if v == 13 {
        'D'
    } else if v == 14 {
        'E'
    } else {
        'F'
    }
}

/// The two lower-case digits of a byte, high digit first.
pub open spec fn hex_pair_lower(v: int) -> Seq<char> {
    seq![hex_digit_lower(v / 16), hex_digit_lower(v % 16)]
}

/// The two upper-case digits of a byte, high digit first.
pub open spec fn hex_pair_upper(v: int) -> Seq<char> {
    seq![hex_digit_upper(v / 16), hex_digit_upper(v % 16)]
}

/// The canonical lower-case rendering of a color's red, green and blue
/// channels: six digits, no prefix.
pub open spec fn hex_render_lower(c: Rgba8) -> Seq<char> {
    hex_pair_lower(c.r as int) + hex_pair_lower(c.g as int) + hex_pair_lower(c.b as int)
}

/// The canonical upper-case rendering of a color's red, green and blue
/// channels: six digits, no prefix.
pub open spec fn hex_render_upper(c: Rgba8) -> Seq<char> {
    hex_pair_upper(c.r as int) + hex_pair_upper(c.g as int) + hex_pair_upper(c.b as int)
}

proof fn lemma_hex_digit_lower_inverts(v: int)
    requires
        0 <= v < 16,
    ensures
        is_hex_digit(hex_digit_lower(v)),
        hex_digit_value(hex_digit_lower(v)) == v,
{
}

proof fn lemma_hex_digit_upper_inverts(v: int)
    requires
        0 <= v < 16,
    ensures
        is_hex_digit(hex_digit_upper(v)),
        hex_digit_value(hex_digit_upper(v)) == v,
{
}

proof fn lemma_hex_pair_lower_inverts(v: int)
    requires
        0 <= v < 256,
    ensures
        is_hex_digit(hex_pair_lower(v)[0]),
        is_hex_digit(hex_pair_lower(v)[1]),
        hex_byte(hex_pair_lower(v)[0], hex_pair_lower(v)[1]) == v,
{
    lemma_hex_digit_lower_inverts(v / 16);
    lemma_hex_digit_lower_inverts(v % 16);
}

proof fn lemma_hex_pair_upper_inverts(v: int)
    requires
        0 <= v < 256,
    ensures
        is_hex_digit(hex_pair_upper(v)[0]),
        is_hex_digit(hex_pair_upper(v)[1]),
        hex_byte(hex_pair_upper(v)[0], hex_pair_upper(v)[1]) == v,
{
    lemma_hex_digit_upper_inverts(v / 16);
    lemma_hex_digit_upper_inverts(v % 16);
}

/// Round trip, lower case: parsing the canonical rendering of any color
/// gives back its red, green and blue channels, with full alpha.
pub proof fn lemma_hex_round_trip_lower(c: Rgba8)
    ensures
        spec_color_from_hex(hex_render_lower(c)) == Ok::<Rgba8, HexColorError>(
            Rgba8 { r: c.r, g: c.g, b: c.b, a: 255 },
        ),
{
    let s = hex_render_lower(c);
    lemma_hex_pair_lower_inverts(c.r as int);
    lemma_hex_pair_lower_inverts(c.g as int);
    lemma_hex_pair_lower_inverts(c.b as int);
    assert(s.len() == 6);
    assert(s[0] == hex_pair_lower(c.r as int)[0]);
    assert(s[1] == hex_pair_lower(c.r as int)[1]);
    assert(s[2] == hex_pair_lower(c.g as int)[0]);
    assert(s[3] == hex_pair_lower(c.g as int)[1]);
    assert(s[4] == hex_pair_lower(c.b as int)[0]);
    assert(s[5] == hex_pair_lower(c.b as int)[1]);
}

/// Round trip, upper case: parsing the canonical rendering of any color
/// gives back its red, green and blue channels, with full alpha.
pub proof fn lemma_hex_round_trip_upper(c: Rgba8)
    ensures
        spec_color_from_hex(hex_render_upper(c)) == Ok::<Rgba8, HexColorError>(
            Rgba8 { r: c.r, g: c.g, b: c.b, a: 255 },
        ),
{
    let s = hex_render_upper(c);
    lemma_hex_pair_upper_inverts(c.r as int);
    lemma_hex_pair_upper_inverts(c.g as int);
    lemma_hex_pair_upper_inverts(c.b as int);
    assert(s.len() == 6);
    assert(s[0] == hex_pair_upper(c.r as int)[0]);
    assert(s[1] == hex_pair_upper(c.r as int)[1]);
    assert(s[2] == hex_pair_upper(c.g as int)[0]);
    assert(s[3] == hex_pair_upper(c.g as int)[1]);
    assert(s[4] == hex_pair_upper(c.b as int)[0]);
    assert(s[5] == hex_pair_upper(c.b as int)[1]);
}

} // verus!
