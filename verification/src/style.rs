use vstd::prelude::*;

verus! {

/// The shape drawn for one grid cell, together with the number of
/// character columns one grid column occupies.
#[derive(Clone, Copy, PartialEq, Eq, Structural, Debug)]
pub enum DisplayStyle {
    SmallSquare,
    FullBlock,
    HalfBlock,
    Circle,
}

impl Default for DisplayStyle {
    fn default() -> (r: Self)
        ensures
            r == DisplayStyle::SmallSquare,
    {
        DisplayStyle::SmallSquare
    }
}

/// The glyphs that render one cell of the grid in a style.
pub open spec fn spec_tile(style: DisplayStyle) -> Seq<char> {
    match style {
        DisplayStyle::SmallSquare => " \u{25a0}"@,
        DisplayStyle::FullBlock => " \u{2588}"@,
        DisplayStyle::HalfBlock => "\u{2588}"@,
        DisplayStyle::Circle => "\u{e0b6}\u{e0b4}"@,
    }
}

/// The character columns one grid column occupies in a style.
pub open spec fn spec_tile_size(style: DisplayStyle) -> int {
    match style {
        DisplayStyle::SmallSquare => 2,
        DisplayStyle::FullBlock => 2,
        DisplayStyle::HalfBlock => 1,
        DisplayStyle::Circle => 2,
    }
}

/// Whether a style asks for an extra background-colored endcap column
/// around each row and under the month header.
pub open spec fn spec_endcap(style: DisplayStyle) -> bool {
    style is Circle
}

impl DisplayStyle {
    /// The glyphs for one cell in this style.
    pub fn get_tile(&self) -> (s: String)
        ensures
            s@ == spec_tile(*self),
    {
        match self {
            DisplayStyle::SmallSquare => String::from_str(" \u{25a0}"),
            DisplayStyle::FullBlock => String::from_str(" \u{2588}"),
            DisplayStyle::HalfBlock => String::from_str("\u{2588}"),
            DisplayStyle::Circle => String::from_str("\u{e0b6}\u{e0b4}"),
        }
    }

    /// The column width of one cell in this style: 2, except 1 for
    /// HalfBlock.
    pub fn get_tile_size(&self) -> (n: usize)
        ensures
            n == spec_tile_size(*self),
    {
        match self {
            DisplayStyle::SmallSquare | DisplayStyle::FullBlock | DisplayStyle::Circle => 2,
            DisplayStyle::HalfBlock => 1,
        }
    }
}

} // verus!
