use vstd::prelude::*;

verus! {

/// A terminal color: the default white, or an exact 24-bit RGB value.
#[derive(Clone, Copy, PartialEq, Eq, Structural, Debug)]
pub enum Color {
    White,
    TrueColor { r: u8, g: u8, b: u8 },
}

/// The character for a single decimal digit.
pub open spec fn dec_digit(n: nat) -> char {
    if n == 0 {
        '0'
    } else if n == 1 {
        '1'
    } else if n == 2 {
        '2'
    } else if n == 3 {
        '3'
    } else if n == 4 {
        '4'
    } else if n == 5 {
        '5'
    } else if n == 6 {
        '6'
    } else if n == 7 {
        '7'
    } else if n == 8 {
        '8'
    } else {
        '9'
    }
}

/// The decimal rendering of a number, without leading zeros.
pub open spec fn dec_seq(n: nat) -> Seq<char>
    decreases n,
{
    if n < 10 {
        seq![dec_digit(n)]
    } else {
        dec_seq(n / 10).push(dec_digit(n % 10))
    }
}

/// The ANSI foreground code of a color: "37" for white, "38;2;R;G;B"
/// (decimal components) for an RGB color.
pub open spec fn spec_fg_code(c: Color) -> Seq<char> {
    match c {
        Color::White => "37"@,
        Color::TrueColor { r, g, b } => "38;2;"@ + dec_seq(r as nat) + ";"@ + dec_seq(g as nat)
            + ";"@ + dec_seq(b as nat),
    }
}

/// The ANSI background code of a color: "47" for white, "48;2;R;G;B"
/// (decimal components) for an RGB color.
pub open spec fn spec_bg_code(c: Color) -> Seq<char> {
    match c {
        Color::White => "47"@,
        Color::TrueColor { r, g, b } => "48;2;"@ + dec_seq(r as nat) + ";"@ + dec_seq(g as nat)
            + ";"@ + dec_seq(b as nat),
    }
}

/// Relies on colored::Color::to_fg_str: it returns "37" for White and,
/// for TrueColor, "38;2;{r};{g};{b}" with the components written by the
/// standard decimal formatting of u8.
#[verifier::external_body]
fn fg_code(c: &Color) -> (s: String)
    ensures
        s@ == spec_fg_code(*c),
{
    let cc = match *c {
        Color::White => colored::Color::White,
        Color::TrueColor { r, g, b } => colored::Color::TrueColor { r, g, b },
    };
    cc.to_fg_str().into_owned()
}

/// Relies on colored::Color::to_bg_str: it returns "47" for White and,
/// for TrueColor, "48;2;{r};{g};{b}" with the components written by the
/// standard decimal formatting of u8.
#[verifier::external_body]
fn bg_code(c: &Color) -> (s: String)
    ensures
        s@ == spec_bg_code(*c),
{
    let cc = match *c {
        Color::White => colored::Color::White,
        Color::TrueColor { r, g, b } => colored::Color::TrueColor { r, g, b },
    };
    cc.to_bg_str().into_owned()
}

/// Text colorized with a foreground and a background color, as one ANSI
/// escape sequence: `ESC [ <bg> ; <fg> m <text> ESC [0m`.
#[verifier::opaque]
pub open spec fn spec_paint(text: Seq<char>, fg: Color, bg: Color) -> Seq<char> {
    "\u{1b}["@ + spec_bg_code(bg) + ";"@ + spec_fg_code(fg) + "m"@ + text + "\u{1b}[0m"@
}

/// Text colorized with a background color only, as one ANSI escape
/// sequence: `ESC [ <bg> m <text> ESC [0m`.
#[verifier::opaque]
pub open spec fn spec_paint_bg(text: Seq<char>, bg: Color) -> Seq<char> {
    "\u{1b}["@ + spec_bg_code(bg) + "m"@ + text + "\u{1b}[0m"@
}

/// Colorize text with a foreground and a background color.
pub fn paint(text: &str, fg: &Color, bg: &Color) -> (s: String)
    ensures
        s@ == spec_paint(text@, *fg, *bg),
{
    let mut s = String::from_str("\u{1b}[");
    s.append(bg_code(bg).as_str());
    s.append(";");
    s.append(fg_code(fg).as_str());
    s.append("m");
    s.append(text);
    s.append("\u{1b}[0m");
    proof {
        reveal(spec_paint);
        assert(s@ =~= spec_paint(text@, *fg, *bg));
    }
    s
}

/// Colorize text with a background color only.
pub fn paint_bg(text: &str, bg: &Color) -> (s: String)
    ensures
        s@ == spec_paint_bg(text@, *bg),
{
    let mut s = String::from_str("\u{1b}[");
    s.append(bg_code(bg).as_str());
    s.append("m");
    s.append(text);
    s.append("\u{1b}[0m");
    proof {
        reveal(spec_paint_bg);
        assert(s@ =~= spec_paint_bg(text@, *bg));
    }
    s
}

} // verus!
