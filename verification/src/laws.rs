use vstd::prelude::*;
use crate::calendar::{
    spec_cells, spec_data_row, spec_gutter, spec_gutter_text, spec_header, spec_month_segment,
    spec_month_segments, spec_render, spec_rows, spec_spacer, spec_spaces, Calendar, GithubMonth,
};
use crate::color::{spec_paint, spec_paint_bg};
use crate::palette::Palette;
use crate::quartile::{spec_level_color, GithubQuartiles};
use crate::style::{spec_tile, spec_tile_size, DisplayStyle};

verus! {

/// A run of n spaces is n characters long.
pub proof fn lemma_spaces_len(n: nat)
    ensures
        spec_spaces(n).len() == n,
    decreases n,
{
    if n > 0 {
        lemma_spaces_len((n - 1) as nat);
    }
}

/// A month whose label does not fit its allotted width contributes
/// exactly week_span * tile-width background filler columns, and its
/// label is dropped, not truncated.
pub proof fn lemma_month_label_dropped(m: GithubMonth, p: Palette, style: DisplayStyle)
    requires
        m.1 * spec_tile_size(style) <= m.0@.len(),
    ensures
        spec_month_segment(m, p, style) == spec_paint_bg(
            spec_spaces((m.1 * spec_tile_size(style)) as nat),
            p.base,
        ),
        spec_spaces((m.1 * spec_tile_size(style)) as nat).len() == m.1 * spec_tile_size(style),
{
    lemma_spaces_len((m.1 * spec_tile_size(style)) as nat);
}

/// A month whose label fits keeps the label, in the text color, and
/// pads with exactly week_span * tile-width minus label-length filler
/// columns.
pub proof fn lemma_month_label_kept(m: GithubMonth, p: Palette, style: DisplayStyle)
    requires
        m.1 * spec_tile_size(style) > m.0@.len(),
    ensures
        spec_month_segment(m, p, style) == spec_paint(m.0@, p.text, p.base) + spec_paint_bg(
            spec_spaces((m.1 * spec_tile_size(style) - m.0@.len()) as nat),
            p.base,
        ),
        spec_spaces((m.1 * spec_tile_size(style) - m.0@.len()) as nat).len() == m.1
            * spec_tile_size(style) - m.0@.len(),
{
    lemma_spaces_len((m.1 * spec_tile_size(style) - m.0@.len()) as nat);
}

/// With weekday labels shown, every data row begins with its gutter:
/// rows 1, 3 and 5 with " Mon", " Wed" and " Fri" painted in the text
/// color, every other row with four background filler columns.
pub proof fn lemma_row_begins_with_gutter(
    i: int,
    row: Seq<GithubQuartiles>,
    p: Palette,
    style: DisplayStyle,
)
    ensures
        spec_data_row(i, row, p, style, true).take(spec_gutter(i, p).len() as int) == spec_gutter(
            i,
            p,
        ),
        spec_gutter_text(1) == " Mon"@,
        spec_gutter_text(3) == " Wed"@,
        spec_gutter_text(5) == " Fri"@,
{
    assert(spec_data_row(i, row, p, style, true).take(spec_gutter(i, p).len() as int)
        =~= spec_gutter(i, p));
}

/// Within a row, each cell contributes exactly the style's glyph
/// painted with that cell's level color on the base background:
/// extending a row prefix by cell j appends that one tile and nothing
/// else.
pub proof fn lemma_cell_tile(row: Seq<GithubQuartiles>, p: Palette, style: DisplayStyle, j: int)
    requires
        0 <= j < row.len(),
    ensures
        spec_cells(row.take(j + 1), p, style) == spec_cells(row.take(j), p, style) + spec_paint(
            spec_tile(style),
            spec_level_color(row[j], p),
            p.base,
        ),
{
    assert(row.take(j + 1).drop_last() =~= row.take(j));
    assert(row.take(j + 1).last() == row[j]);
}

proof fn lemma_month_segments_agree(
    months: Seq<GithubMonth>,
    pa: Palette,
    pb: Palette,
    style: DisplayStyle,
)
    requires
        pa.text == pb.text,
        pa.base == pb.base,
    ensures
        spec_month_segments(months, pa, style) == spec_month_segments(months, pb, style),
    decreases months.len(),
{
    if months.len() > 0 {
        lemma_month_segments_agree(months.drop_last(), pa, pb, style);
    }
}

proof fn lemma_cells_agree(
    row: Seq<GithubQuartiles>,
    pa: Palette,
    pb: Palette,
    style: DisplayStyle,
)
    requires
        pa.base == pb.base,
        forall|j: int|
            0 <= j < row.len() ==> spec_level_color(#[trigger] row[j], pa) == spec_level_color(
                row[j],
                pb,
            ),
    ensures
        spec_cells(row, pa, style) == spec_cells(row, pb, style),
    decreases row.len(),
{
    if row.len() > 0 {
        assert forall|j: int| 0 <= j < row.drop_last().len() implies spec_level_color(
            #[trigger] row.drop_last()[j],
            pa,
        ) == spec_level_color(row.drop_last()[j], pb) by {
            assert(row.drop_last()[j] == row[j]);
        }
        lemma_cells_agree(row.drop_last(), pa, pb, style);
        assert(row.last() == row[row.len() - 1]);
    }
}

proof fn lemma_rows_agree(a: Calendar, b: Calendar, n: int)
    requires
        a.data == b.data,
        a.style == b.style,
        a.show_days == b.show_days,
        a.palette.text == b.palette.text,
        a.palette.base == b.palette.base,
        n <= a.data@.len(),
        forall|i: int, j: int|
            0 <= i < a.data@.len() && 0 <= j < a.data@[i]@.len() ==> spec_level_color(
                #[trigger] a.data@[i]@[j],
                a.palette,
            ) == spec_level_color(a.data@[i]@[j], b.palette),
    ensures
        spec_rows(a, n) == spec_rows(b, n),
    decreases n,
{
    if n > 0 {
        lemma_rows_agree(a, b, n - 1);
        assert forall|j: int| 0 <= j < a.data@[n - 1]@.len() implies spec_level_color(
            #[trigger] a.data@[n - 1]@[j],
            a.palette,
        ) == spec_level_color(a.data@[n - 1]@[j], b.palette) by {}
        lemma_cells_agree(a.data@[n - 1]@, a.palette, b.palette, a.style);
    }
}

/// The rendering reads only the text color, the base color, and the
/// color of each level that actually occurs in the grid: two palettes
/// that agree there render the same calendar byte for byte.
pub proof fn lemma_render_palette_agreement(a: Calendar, b: Calendar)
    requires
        a.data == b.data,
        a.months == b.months,
        a.style == b.style,
        a.show_days == b.show_days,
        a.show_months == b.show_months,
        a.palette.text == b.palette.text,
        a.palette.base == b.palette.base,
        forall|i: int, j: int|
            0 <= i < a.data@.len() && 0 <= j < a.data@[i]@.len() ==> spec_level_color(
                #[trigger] a.data@[i]@[j],
                a.palette,
            ) == spec_level_color(a.data@[i]@[j], b.palette),
    ensures
        spec_render(a) == spec_render(b),
{
    lemma_month_segments_agree(a.months@, a.palette, b.palette, a.style);
    assert(spec_header(a) == spec_header(b));
    lemma_rows_agree(a, b, a.data@.len() as int);
}

/// Changing color2 changes nothing in the rendering of a grid that
/// holds no second-quartile cell; with the exact level-to-color
/// mapping this pins color2's effect to second-quartile cells alone.
pub proof fn lemma_color2_touches_only_second(a: Calendar, b: Calendar)
    requires
        a.data == b.data,
        a.months == b.months,
        a.style == b.style,
        a.show_days == b.show_days,
        a.show_months == b.show_months,
        b.palette == (Palette { color2: b.palette.color2, ..a.palette }),
        forall|i: int, j: int|
            0 <= i < a.data@.len() && 0 <= j < a.data@[i]@.len() ==> #[trigger] a.data@[i]@[j]
                != GithubQuartiles::Second,
    ensures
        spec_render(a) == spec_render(b),
{
    lemma_render_palette_agreement(a, b);
}

/// Changing color2 alone is localized, segment by segment: the
/// header, the spacer, every gutter and every tile of a cell that is
/// not second-quartile are identical, and the tile of a
/// second-quartile cell changes only the foreground color handed to
/// the paint — its glyph and background stay. (Stated per segment:
/// over raw bytes a new color2 may lengthen its escape code and shift
/// everything after it.)
pub proof fn lemma_color2_localization(a: Calendar, b: Calendar, i: int, j: int)
    requires
        a.data == b.data,
        a.months == b.months,
        a.style == b.style,
        a.show_days == b.show_days,
        a.show_months == b.show_months,
        b.palette == (Palette { color2: b.palette.color2, ..a.palette }),
        0 <= i < a.data@.len(),
        0 <= j < a.data@[i]@.len(),
    ensures
        spec_header(a) == spec_header(b),
        spec_spacer(a) == spec_spacer(b),
        spec_gutter(i, a.palette) == spec_gutter(i, b.palette),
        a.data@[i]@[j] != GithubQuartiles::Second ==> spec_paint(
            spec_tile(a.style),
            spec_level_color(a.data@[i]@[j], a.palette),
            a.palette.base,
        ) == spec_paint(
            spec_tile(b.style),
            spec_level_color(b.data@[i]@[j], b.palette),
            b.palette.base,
        ),
        a.data@[i]@[j] == GithubQuartiles::Second ==> spec_level_color(
            a.data@[i]@[j],
            a.palette,
        ) == a.palette.color2 && spec_level_color(b.data@[i]@[j], b.palette) == b.palette.color2,
{
    lemma_month_segments_agree(a.months@, a.palette, b.palette, a.style);
}

/// A grid of all-None intensity renders independently of the ramp
/// colors color1 through color4: every cell takes color0, and only
/// the text, base and color0 slots of the palette are read.
pub proof fn lemma_all_none_ignores_ramp(a: Calendar, b: Calendar)
    requires
        a.data == b.data,
        a.months == b.months,
        a.style == b.style,
        a.show_days == b.show_days,
        a.show_months == b.show_months,
        a.palette.text == b.palette.text,
        a.palette.base == b.palette.base,
        a.palette.color0 == b.palette.color0,
        forall|i: int, j: int|
            0 <= i < a.data@.len() && 0 <= j < a.data@[i]@.len() ==> #[trigger] a.data@[i]@[j]
                == GithubQuartiles::NoActivity,
    ensures
        spec_render(a) == spec_render(b),
{
    lemma_render_palette_agreement(a, b);
}

} // verus!
