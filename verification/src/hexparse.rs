use vstd::prelude::*;
use crate::color::Color;
use crate::config::ConfigError;

verus! {

/// A hexadecimal digit, in either case.
pub open spec fn is_hex_digit(c: char) -> bool {
    (('0' as int) <= (c as int) && (c as int) <= ('9' as int)) || (('a' as int) <= (c as int) && (c
        as int) <= ('f' as int)) || (('A' as int) <= (c as int) && (c as int) <= ('F' as int))
}

/// The value of a hexadecimal digit.
pub open spec fn hex_digit_val(c: char) -> int {
    if ('0' as int) <= (c as int) && (c as int) <= ('9' as int) {
        (c as int) - ('0' as int)
    } else if ('a' as int) <= (c as int) && (c as int) <= ('f' as int) {
        10 + (c as int) - ('a' as int)
    } else {
        10 + (c as int) - ('A' as int)
    }
}

/// Every character of s in [from, to) is a hexadecimal digit.
pub open spec fn all_hex_digits(s: Seq<char>, from: int, to: int) -> bool {
    forall|i: int| from <= i < to ==> is_hex_digit(s[i])
}

/// A well-formed color string: '#' followed by 3, 4, 6 or 8
/// hexadecimal digits (the forms #RGB, #RGBA, #RRGGBB and #RRGGBBAA).
pub open spec fn is_valid_hex_color(s: Seq<char>) -> bool {
    s.len() >= 1 && s[0] == '#' && (s.len() == 4 || s.len() == 5 || s.len() == 7 || s.len() == 9)
        && all_hex_digits(s, 1, s.len() as int)
}

/// The byte two hexadecimal digits denote.
pub open spec fn hex_byte(hi: char, lo: char) -> u8 {
    (16 * hex_digit_val(hi) + hex_digit_val(lo)) as u8
}

/// The red, green and blue components a well-formed color string
/// denotes; a shorthand digit X stands for XX. A trailing alpha pair
/// is ignored.
pub open spec fn spec_hex_rgb(s: Seq<char>) -> Color {
    if s.len() == 4 || s.len() == 5 {
        Color::TrueColor {
            r: hex_byte(s[1], s[1]),
            g: hex_byte(s[2], s[2]),
            b: hex_byte(s[3], s[3]),
        }
    } else {
        Color::TrueColor {
            r: hex_byte(s[1], s[2]),
            g: hex_byte(s[3], s[4]),
            b: hex_byte(s[5], s[6]),
        }
    }
}

/// Whether one character is a hexadecimal digit.
fn is_hex_digit_char(c: char) -> (b: bool)
    ensures
        b == is_hex_digit(c),
{
    let u = c as u32;
    (48 <= u && u <= 57) || (97 <= u && u <= 102) || (65 <= u && u <= 70)
}

/// Whether a string has the well-formed color shape, checked
/// character by character.
fn is_hex_color_shape(s: &str) -> (b: bool)
    ensures
        b == is_valid_hex_color(s@),
{
    let n = s.unicode_len();
    if !(n == 4 || n == 5 || n == 7 || n == 9) {
        return false;
    }
    if s.get_char(0) != '#' {
        return false;
    }
    let mut i: usize = 1;
    while i < n
        invariant
            1 <= i <= n,
            n == s@.len(),
            s@[0] == '#',
            n == 4 || n == 5 || n == 7 || n == 9,
            forall|k: int| 1 <= k < i ==> is_hex_digit(s@[k]),
        decreases n - i,
    {
        if !is_hex_digit_char(s.get_char(i)) {
            return false;
        }
        i = i + 1;
    }
    true
}

/// Relies on hex_color::HexColor::parse: on a string of the
/// well-formed color shape it always succeeds and returns the red,
/// green and blue components, a shorthand digit X standing for XX.
/// The library calls it on validated input only; hex_color itself
/// also accepts a few malformed strings (a sign inside a digit pair),
/// so nothing is claimed here about other inputs.
#[verifier::external_body]
fn parse_hex(s: &str) -> (c: Color)
    requires
        is_valid_hex_color(s@),
    ensures
        c == spec_hex_rgb(s@),
{
    let parsed = hex_color::HexColor::parse(s).unwrap();
    Color::TrueColor { r: parsed.r, g: parsed.g, b: parsed.b }
}

/// Parse a user-supplied hexadecimal RGB string into a color; a
/// string without the well-formed color shape is a configuration
/// error carrying that string.
pub fn parse_hex_color(s: &str) -> (r: Result<Color, ConfigError>)
    ensures
        is_valid_hex_color(s@) ==> r == Ok::<Color, ConfigError>(spec_hex_rgb(s@)),
        !is_valid_hex_color(s@) ==> (r matches Err(ConfigError::InvalidColor(t)) && t@ == s@),
{
    if is_hex_color_shape(s) {
        Ok(parse_hex(s))
    } else {
        Err(ConfigError::InvalidColor(s.to_owned()))
    }
}

} // verus!
