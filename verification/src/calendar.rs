use vstd::prelude::*;
use crate::color::{paint, paint_bg, spec_paint, spec_paint_bg};
use crate::palette::{spec_default_palette, Palette};
use crate::quartile::{spec_level_color, GithubQuartiles};
use crate::style::{spec_endcap, spec_tile, spec_tile_size, DisplayStyle};

verus! {

/// One month header entry: the label text and the number of grid
/// columns (weeks) the month spans.
pub struct GithubMonth(pub String, pub usize);

/// Everything one rendering pass consumes: the weekday-by-week level
/// matrix, the month labels, the colors, the tile style and the two
/// display switches.
pub struct Calendar {
    pub data: Vec<Vec<GithubQuartiles>>,
    pub months: Vec<GithubMonth>,
    pub palette: Palette,
    pub style: DisplayStyle,
    pub show_days: bool,
    pub show_months: bool,
}

/// A run of n plain spaces.
pub open spec fn spec_spaces(n: nat) -> Seq<char>
    decreases n,
{
    if n == 0 {
        Seq::empty()
    } else {
        spec_spaces((n - 1) as nat).push(' ')
    }
}

/// One month's stretch of the header: the label text followed by
/// background filler when the label fits its allotted width, otherwise
/// only the filler — the label is dropped, never truncated.
pub open spec fn spec_month_segment(m: GithubMonth, p: Palette, style: DisplayStyle) -> Seq<char> {
    let w = m.1 * spec_tile_size(style);
    if w > m.0@.len() {
        spec_paint(m.0@, p.text, p.base) + spec_paint_bg(
            spec_spaces((w - m.0@.len()) as nat),
            p.base,
        )
    } else {
        spec_paint_bg(spec_spaces(w as nat), p.base)
    }
}

/// The header stretches of a list of months, left to right.
pub open spec fn spec_month_segments(
    months: Seq<GithubMonth>,
    p: Palette,
    style: DisplayStyle,
) -> Seq<char>
    decreases months.len(),
{
    if months.len() == 0 {
        Seq::empty()
    } else {
        spec_month_segments(months.drop_last(), p, style) + spec_month_segment(
            months.last(),
            p,
            style,
        )
    }
}

/// What the month header line starts with: the gutter (when weekday
/// labels are shown) and one leading background space.
pub open spec fn spec_header_prefix(cal: Calendar) -> Seq<char> {
    (if cal.show_days {
        spec_paint_bg("    "@, cal.palette.base)
    } else {
        Seq::empty()
    }) + spec_paint_bg(" "@, cal.palette.base)
}

/// The whole month header line, newline included.
pub open spec fn spec_header(cal: Calendar) -> Seq<char> {
    spec_header_prefix(cal) + spec_month_segments(cal.months@, cal.palette, cal.style) + (
    if spec_endcap(cal.style) {
        spec_paint_bg(" "@, cal.palette.base)
    } else {
        Seq::empty()
    }) + "\n"@
}

/// The text of the weekday gutter of one row: a sparse column that
/// names only Monday, Wednesday and Friday.
pub open spec fn spec_gutter_text(i: int) -> Seq<char> {
    if i == 1 {
        " Mon"@
    } else if i == 3 {
        " Wed"@
    } else if i == 5 {
        " Fri"@
    } else {
        "    "@
    }
}

/// The colorized weekday gutter of one row: named days in the text
/// color, every other row plain background filler.
pub open spec fn spec_gutter(i: int, p: Palette) -> Seq<char> {
    if i == 1 || i == 3 || i == 5 {
        spec_paint(spec_gutter_text(i), p.text, p.base)
    } else {
        spec_paint_bg("    "@, p.base)
    }
}

/// The colorized tiles of one row of cells, left to right.
pub open spec fn spec_cells(row: Seq<GithubQuartiles>, p: Palette, style: DisplayStyle) -> Seq<
    char,
>
    decreases row.len(),
{
    if row.len() == 0 {
        Seq::empty()
    } else {
        spec_cells(row.drop_last(), p, style) + spec_paint(
            spec_tile(style),
            spec_level_color(row.last(), p),
            p.base,
        )
    }
}

/// One whole data row, newline included.
pub open spec fn spec_data_row(
    i: int,
    row: Seq<GithubQuartiles>,
    p: Palette,
    style: DisplayStyle,
    show_days: bool,
) -> Seq<char> {
    (if show_days {
        spec_gutter(i, p)
    } else {
        Seq::empty()
    }) + (if spec_endcap(style) {
        spec_paint_bg(" "@, p.base)
    } else {
        Seq::empty()
    }) + spec_cells(row, p, style) + spec_paint_bg(" "@, p.base) + "\n"@
}

/// The first n data rows, top to bottom.
pub open spec fn spec_rows(cal: Calendar, n: int) -> Seq<char>
    decreases n,
{
    if n <= 0 {
        Seq::empty()
    } else {
        spec_rows(cal, n - 1) + spec_data_row(
            n - 1,
            cal.data@[n - 1]@,
            cal.palette,
            cal.style,
            cal.show_days,
        )
    }
}

/// The character width of the trailing spacer line.
pub open spec fn spec_spacer_width(cal: Calendar) -> int {
    cal.data@[0]@.len() * spec_tile_size(cal.style) + (if cal.show_days {
        4int
    } else {
        1int
    }) + (if spec_endcap(cal.style) {
        1int
    } else {
        0int
    })
}

/// The trailing spacer line that closes off the block under the grid.
pub open spec fn spec_spacer(cal: Calendar) -> Seq<char> {
    spec_paint_bg(spec_spaces(spec_spacer_width(cal) as nat), cal.palette.base) + "\n"@
}

/// The complete rendering: the header when months are shown, the seven
/// data rows, and the spacer when months are shown.
pub open spec fn spec_render(cal: Calendar) -> Seq<char> {
    (if cal.show_months {
        spec_header(cal)
    } else {
        Seq::empty()
    }) + spec_rows(cal, cal.data@.len() as int) + (if cal.show_months {
        spec_spacer(cal)
    } else {
        Seq::empty()
    })
}

proof fn lemma_take_succ<A>(s: Seq<A>, i: int)
    requires
        0 <= i < s.len(),
    ensures
        s.take(i + 1).drop_last() == s.take(i),
        s.take(i + 1).last() == s[i],
{
    assert(s.take(i + 1).drop_last() =~= s.take(i));
}

/// Append the weekday gutter of one row.
fn append_gutter(out: &mut String, i: usize, p: &Palette)
    ensures
        final(out)@ == old(out)@ + spec_gutter(i as int, *p),
{
    if i == 1 {
        out.append(paint(" Mon", &p.text, &p.base).as_str());
    } else if i == 3 {
        out.append(paint(" Wed", &p.text, &p.base).as_str());
    } else if i == 5 {
        out.append(paint(" Fri", &p.text, &p.base).as_str());
    } else {
        out.append(paint_bg("    ", &p.base).as_str());
    }
}

/// Append one whole data row, newline included.
fn append_row(
    out: &mut String,
    i: usize,
    row: &Vec<GithubQuartiles>,
    p: &Palette,
    style: DisplayStyle,
    show_days: bool,
)
    ensures
        final(out)@ == old(out)@ + spec_data_row(i as int, row@, *p, style, show_days),
{
    let endcap = matches!(style, DisplayStyle::Circle);
    if show_days {
        append_gutter(out, i, p);
    }
    if endcap {
        out.append(paint_bg(" ", &p.base).as_str());
    }
    let ghost cells_start: Seq<char> = out@;
    let row_len = row.len();
    let mut j: usize = 0;
    proof {
        assert(out@ =~= cells_start + spec_cells(row@.take(0), *p, style));
    }
    while j < row_len
        invariant
            row_len == row@.len(),
            j <= row_len,
            out@ == cells_start + spec_cells(row@.take(j as int), *p, style),
        decreases row_len - j,
    {
        let q = row[j];
        out.append(q.get_tile(style, p).as_str());
        j = j + 1;
        proof {
            lemma_take_succ(row@, j - 1);
            assert(out@ =~= cells_start + spec_cells(row@.take(j as int), *p, style));
        }
    }
    proof {
        assert(row@.take(row_len as int) =~= row@);
    }
    out.append(paint_bg(" ", &p.base).as_str());
    out.append("\n");
    proof {
        assert(out@ =~= old(out)@ + spec_data_row(i as int, row@, *p, style, show_days));
    }
}

/// A run of n spaces as an owned string.
fn make_spaces(n: usize) -> (s: String)
    ensures
        s@ == spec_spaces(n as nat),
{
    let mut s = String::new();
    let mut i: usize = 0;
    proof {
        reveal_strlit(" ");
    }
    while i < n
        invariant
            i <= n,
            s@ == spec_spaces(i as nat),
        decreases n - i,
    {
        s.append(" ");
        i = i + 1;
        proof {
            reveal_strlit(" ");
            assert(s@ =~= spec_spaces(i as nat));
        }
    }
    s
}

impl Default for Calendar {
    fn default() -> (r: Self)
        ensures
            r.data@.len() == 0,
            r.months@.len() == 0,
            r.palette == spec_default_palette(),
            r.style == DisplayStyle::SmallSquare,
            !r.show_days,
            !r.show_months,
    {
        Calendar {
            data: Vec::new(),
            months: Vec::new(),
            palette: Palette::default(),
            style: DisplayStyle::SmallSquare,
            show_days: false,
            show_months: false,
        }
    }
}

impl Calendar {
    /// Well-formed input: a 7 × W matrix whose rows all have the same
    /// length, with sizes small enough for the column arithmetic.
    pub open spec fn wf(self) -> bool {
        &&& self.data@.len() == 7
        &&& forall|i: int|
            0 <= i < self.data@.len() ==> #[trigger] self.data@[i]@.len()
                == self.data@[0]@.len()
        &&& self.data@[0]@.len() <= (usize::MAX - 5) / 2
        &&& forall|i: int|
            0 <= i < self.months@.len() ==> #[trigger] self.months@[i].1 <= usize::MAX / 2
    }

    pub fn with_data(self, data: Vec<Vec<GithubQuartiles>>) -> (r: Self)
        ensures
            r.data == data,
            r.months == self.months,
            r.palette == self.palette,
            r.style == self.style,
            r.show_days == self.show_days,
            r.show_months == self.show_months,
    {
        Calendar { data, ..self }
    }

    pub fn with_months(self, months: Vec<GithubMonth>) -> (r: Self)
        ensures
            r.data == self.data,
            r.months == months,
            r.palette == self.palette,
            r.style == self.style,
            r.show_days == self.show_days,
            r.show_months == self.show_months,
    {
        Calendar { months, ..self }
    }

    pub fn with_palette(self, palette: Palette) -> (r: Self)
        ensures
            r.data == self.data,
            r.months == self.months,
            r.palette == palette,
            r.style == self.style,
            r.show_days == self.show_days,
            r.show_months == self.show_months,
    {
        Calendar { palette, ..self }
    }

    pub fn with_style(self, style: DisplayStyle) -> (r: Self)
        ensures
            r.data == self.data,
            r.months == self.months,
            r.palette == self.palette,
            r.style == style,
            r.show_days == self.show_days,
            r.show_months == self.show_months,
    {
        Calendar { style, ..self }
    }

    pub fn with_show_days(self, show_days: bool) -> (r: Self)
        ensures
            r.data == self.data,
            r.months == self.months,
            r.palette == self.palette,
            r.style == self.style,
            r.show_days == show_days,
            r.show_months == self.show_months,
    {
        Calendar { show_days, ..self }
    }

    pub fn with_show_months(self, show_months: bool) -> (r: Self)
        ensures
            r.data == self.data,
            r.months == self.months,
            r.palette == self.palette,
            r.style == self.style,
            r.show_days == self.show_days,
            r.show_months == show_months,
    {
        Calendar { show_months, ..self }
    }

    /// Lay out the whole calendar as one colorized multi-line string.
    #[verifier::rlimit(50)]
    pub fn render(&self) -> (out: String)
        requires
            self.wf(),
        ensures
            out@ == spec_render(*self),
    {
        let mut out = String::new();
        let ts = self.style.get_tile_size();
        let endcap = matches!(self.style, DisplayStyle::Circle);
        if self.show_months {
            if self.show_days {
                out.append(paint_bg("    ", &self.palette.base).as_str());
            }
            out.append(paint_bg(" ", &self.palette.base).as_str());
            proof {
                assert(out@ =~= spec_header_prefix(*self) + spec_month_segments(
                    self.months@.take(0),
                    self.palette,
                    self.style,
                ));
            }
            let mut mi: usize = 0;
            while mi < self.months.len()
                invariant
                    self.wf(),
                    ts == spec_tile_size(self.style),
                    mi <= self.months@.len(),
                    out@ == spec_header_prefix(*self) + spec_month_segments(
                        self.months@.take(mi as int),
                        self.palette,
                        self.style,
                    ),
                decreases self.months@.len() - mi,
            {
                proof {
                    assert(self.months@[mi as int].1 <= usize::MAX / 2);
                    assert(ts == 1 || ts == 2);
                }
                let w = self.months[mi].1 * ts;
                let label_len = self.months[mi].0.as_str().unicode_len();
                if w > label_len {
                    out.append(
                        paint(
                            self.months[mi].0.as_str(),
                            &self.palette.text,
                            &self.palette.base,
                        ).as_str(),
                    );
                    out.append(
                        paint_bg(make_spaces(w - label_len).as_str(), &self.palette.base).as_str(),
                    );
                } else {
                    out.append(paint_bg(make_spaces(w).as_str(), &self.palette.base).as_str());
                }
                mi = mi + 1;
                proof {
                    lemma_take_succ(self.months@, mi - 1);
                    assert(out@ =~= spec_header_prefix(*self) + spec_month_segments(
                        self.months@.take(mi as int),
                        self.palette,
                        self.style,
                    ));
                }
            }
            proof {
                assert(self.months@.take(self.months@.len() as int) =~= self.months@);
            }
            if endcap {
                out.append(paint_bg(" ", &self.palette.base).as_str());
            }
            out.append("\n");
            proof {
                assert(out@ =~= spec_header(*self));
            }
        }
        let ghost pre: Seq<char> = out@;
        proof {
            assert(out@ =~= pre + spec_rows(*self, 0));
        }
        let mut i: usize = 0;
        while i < self.data.len()
            invariant
                self.wf(),
                ts == spec_tile_size(self.style),
                endcap == spec_endcap(self.style),
                i <= self.data@.len(),
                out@ == pre + spec_rows(*self, i as int),
            decreases self.data@.len() - i,
        {
            append_row(&mut out, i, &self.data[i], &self.palette, self.style, self.show_days);
            i = i + 1;
            proof {
                assert(out@ =~= pre + spec_rows(*self, i as int));
            }
        }
        if self.show_months {
            proof {
                assert(ts == 1 || ts == 2);
            }
            let w0 = self.data[0].len();
            let gutter_width: usize = if self.show_days {
                4
            } else {
                1
            };
            let cap_width: usize = if endcap {
                1
            } else {
                0
            };
            let width = w0 * ts + gutter_width + cap_width;
            out.append(paint_bg(make_spaces(width).as_str(), &self.palette.base).as_str());
            out.append("\n");
        }
        proof {
            assert(out@ =~= spec_render(*self));
        }
        out
    }
}

} // verus!
