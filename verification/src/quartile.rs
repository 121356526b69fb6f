use vstd::prelude::*;
use crate::color::{paint, spec_paint, Color};
use crate::palette::Palette;
use crate::style::{spec_tile, DisplayStyle};

verus! {

/// The five ordered activity levels of one day.
#[derive(Clone, Copy, PartialEq, Eq, Structural, Debug)]
pub enum GithubQuartiles {
    First,
    Second,
    Third,
    Fourth,
    NoActivity,
}

impl Default for GithubQuartiles {
    fn default() -> (r: Self)
        ensures
            r == GithubQuartiles::NoActivity,
    {
        GithubQuartiles::NoActivity
    }
}

/// The palette color a level maps to: color1..color4 for the four
/// quartiles, color0 for no activity.
pub open spec fn spec_level_color(q: GithubQuartiles, p: Palette) -> Color {
    match q {
        GithubQuartiles::First => p.color1,
        GithubQuartiles::Second => p.color2,
        GithubQuartiles::Third => p.color3,
        GithubQuartiles::Fourth => p.color4,
        GithubQuartiles::NoActivity => p.color0,
    }
}

/// The level a source string denotes.
pub open spec fn spec_level_of(s: Seq<char>) -> GithubQuartiles {
    if s == "FIRST_QUARTILE"@ {
        GithubQuartiles::First
    } else if s == "SECOND_QUARTILE"@ {
        GithubQuartiles::Second
    } else if s == "THIRD_QUARTILE"@ {
        GithubQuartiles::Third
    } else if s == "FOURTH_QUARTILE"@ {
        GithubQuartiles::Fourth
    } else {
        GithubQuartiles::NoActivity
    }
}

/// A recognized source string for a level.
pub open spec fn is_level_str(s: Seq<char>) -> bool {
    s == "FIRST_QUARTILE"@ || s == "SECOND_QUARTILE"@ || s == "THIRD_QUARTILE"@ || s
        == "FOURTH_QUARTILE"@ || s == "NONE"@
}

impl GithubQuartiles {
    /// The palette color of this level.
    pub fn get_color(&self, palette: &Palette) -> (c: Color)
        ensures
            c == spec_level_color(*self, *palette),
    {
        match self {
            GithubQuartiles::First => palette.color1,
            GithubQuartiles::Second => palette.color2,
            GithubQuartiles::Third => palette.color3,
            GithubQuartiles::Fourth => palette.color4,
            GithubQuartiles::NoActivity => palette.color0,
        }
    }

    /// One colorized cell: the style's glyphs in this level's color on
    /// the palette base.
    pub fn get_tile(&self, style: DisplayStyle, palette: &Palette) -> (s: String)
        ensures
            s@ == spec_paint(spec_tile(style), spec_level_color(*self, *palette), palette.base),
    {
        let tile = style.get_tile();
        paint(tile.as_str(), &self.get_color(palette), &palette.base)
    }

    /// The level a recognized source string denotes. Unrecognized
    /// strings are a collaborator-side fault and are ruled out here.
    pub fn from(value: &str) -> (q: GithubQuartiles)
        requires
            is_level_str(value@),
        ensures
            q == spec_level_of(value@),
    {
        proof {
            reveal_strlit("FIRST_QUARTILE");
            reveal_strlit("SECOND_QUARTILE");
            reveal_strlit("THIRD_QUARTILE");
            reveal_strlit("FOURTH_QUARTILE");
            reveal_strlit("NONE");
        }
        let n = value.unicode_len();
        if n == 4 {
            GithubQuartiles::NoActivity
        } else if n == 14 {
            if value.get_char(0) == 'F' {
                GithubQuartiles::First
            } else {
                GithubQuartiles::Third
            }
        } else {
            if value.get_char(0) == 'S' {
                GithubQuartiles::Second
            } else {
                GithubQuartiles::Fourth
            }
        }
    }
}

} // verus!
