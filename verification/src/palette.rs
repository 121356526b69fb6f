use vstd::prelude::*;
use crate::color::Color;
use crate::config::ConfigError;
use crate::hexparse::{is_valid_hex_color, parse_hex_color, spec_hex_rgb};

verus! {

/// The seven colors a rendering uses: the label text color, the
/// background, and one color per intensity level (color0 for no
/// activity up to color4 for the highest).
#[derive(Clone, Copy, PartialEq, Eq, Structural, Debug)]
pub struct Palette {
    pub text: Color,
    pub base: Color,
    pub color0: Color,
    pub color1: Color,
    pub color2: Color,
    pub color3: Color,
    pub color4: Color,
}

/// The default palette: white text on a very dark blue-black base,
/// with an increasingly saturated green ramp for the levels.
pub open spec fn spec_default_palette() -> Palette {
    Palette {
        text: Color::White,
        base: Color::TrueColor { r: 14, g: 17, b: 33 },
        color0: Color::TrueColor { r: 23, g: 27, b: 33 },
        color1: Color::TrueColor { r: 31, g: 67, b: 43 },
        color2: Color::TrueColor { r: 46, g: 108, b: 56 },
        color3: Color::TrueColor { r: 81, g: 163, b: 78 },
        color4: Color::TrueColor { r: 108, g: 208, b: 99 },
    }
}

impl Default for Palette {
    fn default() -> (r: Self)
        ensures
            r == spec_default_palette(),
    {
        Palette {
            text: Color::White,
            base: Color::TrueColor { r: 14, g: 17, b: 33 },
            color0: Color::TrueColor { r: 23, g: 27, b: 33 },
            color1: Color::TrueColor { r: 31, g: 67, b: 43 },
            color2: Color::TrueColor { r: 46, g: 108, b: 56 },
            color3: Color::TrueColor { r: 81, g: 163, b: 78 },
            color4: Color::TrueColor { r: 108, g: 208, b: 99 },
        }
    }
}

impl Palette {
    /// Override the text color from a hexadecimal string.
    pub fn with_text(self, hex: String) -> (r: Result<Self, ConfigError>)
        ensures
            is_valid_hex_color(hex@) ==> r == Ok::<Palette, ConfigError>(
                (Palette { text: spec_hex_rgb(hex@), ..self }),
            ),
            !is_valid_hex_color(hex@) ==> (r matches Err(ConfigError::InvalidColor(t))
                && t@ == hex@),
    {
        match parse_hex_color(hex.as_str()) {
            Ok(c) => Ok(Palette { text: c, ..self }),
            Err(e) => Err(e),
        }
    }

    /// Override the background color from a hexadecimal string.
    pub fn with_base(self, hex: String) -> (r: Result<Self, ConfigError>)
        ensures
            is_valid_hex_color(hex@) ==> r == Ok::<Palette, ConfigError>(
                (Palette { base: spec_hex_rgb(hex@), ..self }),
            ),
            !is_valid_hex_color(hex@) ==> (r matches Err(ConfigError::InvalidColor(t))
                && t@ == hex@),
    {
        match parse_hex_color(hex.as_str()) {
            Ok(c) => Ok(Palette { base: c, ..self }),
            Err(e) => Err(e),
        }
    }

    /// Override the no-activity color from a hexadecimal string.
    pub fn with_color0(self, hex: String) -> (r: Result<Self, ConfigError>)
        ensures
            is_valid_hex_color(hex@) ==> r == Ok::<Palette, ConfigError>(
                (Palette { color0: spec_hex_rgb(hex@), ..self }),
            ),
            !is_valid_hex_color(hex@) ==> (r matches Err(ConfigError::InvalidColor(t))
                && t@ == hex@),
    {
        match parse_hex_color(hex.as_str()) {
            Ok(c) => Ok(Palette { color0: c, ..self }),
            Err(e) => Err(e),
        }
    }

    /// Override the first-quartile color from a hexadecimal string.
    pub fn with_color1(self, hex: String) -> (r: Result<Self, ConfigError>)
        ensures
            is_valid_hex_color(hex@) ==> r == Ok::<Palette, ConfigError>(
                (Palette { color1: spec_hex_rgb(hex@), ..self }),
            ),
            !is_valid_hex_color(hex@) ==> (r matches Err(ConfigError::InvalidColor(t))
                && t@ == hex@),
    {
        match parse_hex_color(hex.as_str()) {
            Ok(c) => Ok(Palette { color1: c, ..self }),
            Err(e) => Err(e),
        }
    }

    /// Override the second-quartile color from a hexadecimal string.
    pub fn with_color2(self, hex: String) -> (r: Result<Self, ConfigError>)
        ensures
            is_valid_hex_color(hex@) ==> r == Ok::<Palette, ConfigError>(
                (Palette { color2: spec_hex_rgb(hex@), ..self }),
            ),
            !is_valid_hex_color(hex@) ==> (r matches Err(ConfigError::InvalidColor(t))
                && t@ == hex@),
    {
        match parse_hex_color(hex.as_str()) {
            Ok(c) => Ok(Palette { color2: c, ..self }),
            Err(e) => Err(e),
        }
    }

    /// Override the third-quartile color from a hexadecimal string.
    pub fn with_color3(self, hex: String) -> (r: Result<Self, ConfigError>)
        ensures
            is_valid_hex_color(hex@) ==> r == Ok::<Palette, ConfigError>(
                (Palette { color3: spec_hex_rgb(hex@), ..self }),
            ),
            !is_valid_hex_color(hex@) ==> (r matches Err(ConfigError::InvalidColor(t))
                && t@ == hex@),
    {
        match parse_hex_color(hex.as_str()) {
            Ok(c) => Ok(Palette { color3: c, ..self }),
            Err(e) => Err(e),
        }
    }

    /// Override the fourth-quartile color from a hexadecimal string.
    pub fn with_color4(self, hex: String) -> (r: Result<Self, ConfigError>)
        ensures
            is_valid_hex_color(hex@) ==> r == Ok::<Palette, ConfigError>(
                (Palette { color4: spec_hex_rgb(hex@), ..self }),
            ),
            !is_valid_hex_color(hex@) ==> (r matches Err(ConfigError::InvalidColor(t))
                && t@ == hex@),
    {
        match parse_hex_color(hex.as_str()) {
            Ok(c) => Ok(Palette { color4: c, ..self }),
            Err(e) => Err(e),
        }
    }
}

} // verus!
