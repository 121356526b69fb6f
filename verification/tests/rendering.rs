use gitcal::calendar::{Calendar, GithubMonth};
use gitcal::color::Color;
use gitcal::palette::Palette;
use gitcal::quartile::GithubQuartiles;
use gitcal::style::DisplayStyle;

fn fg_rgb(r: u8, g: u8, b: u8) -> String {
    format!("38;2;{};{};{}", r, g, b)
}

fn bg_rgb(r: u8, g: u8, b: u8) -> String {
    format!("48;2;{};{};{}", r, g, b)
}

// The base background of the default palette.
fn base_bg() -> String {
    bg_rgb(14, 17, 33)
}

fn painted(text: &str, fg: &str, bg: &str) -> String {
    format!("\u{1b}[{};{}m{}\u{1b}[0m", bg, fg, text)
}

fn painted_bg(text: &str, bg: &str) -> String {
    format!("\u{1b}[{}m{}\u{1b}[0m", bg, text)
}

fn grid(level: GithubQuartiles, weeks: usize) -> Vec<Vec<GithubQuartiles>> {
    vec![vec![level; weeks]; 7]
}

fn gutter_text(i: usize) -> Option<&'static str> {
    match i {
        1 => Some(" Mon"),
        3 => Some(" Wed"),
        5 => Some(" Fri"),
        _ => None,
    }
}

#[test]
fn render_small_square_two_weeks_exact() {
    // W = 2, months = [("Jan", 2)], every cell first quartile,
    // SmallSquare tiles, labels and header shown.
    let cal = Calendar::default()
        .with_data(grid(GithubQuartiles::First, 2))
        .with_months(vec![GithubMonth(String::from("Jan"), 2)])
        .with_show_days(true)
        .with_show_months(true);
    let out = cal.render();

    let base = base_bg();
    let text_fg = "37";
    let tile_fg = fg_rgb(31, 67, 43);
    let tile = painted(" \u{25a0}", &tile_fg, &base);

    let mut expected = String::new();
    // Header: gutter, one leading space, "Jan" and 4 - 3 = 1 filler column.
    expected += &painted_bg("    ", &base);
    expected += &painted_bg(" ", &base);
    expected += &painted("Jan", text_fg, &base);
    expected += &painted_bg(" ", &base);
    expected += "\n";
    // Seven data rows of two tiles each.
    for i in 0..7 {
        match gutter_text(i) {
            Some(label) => expected += &painted(label, text_fg, &base),
            None => expected += &painted_bg("    ", &base),
        }
        expected += &tile;
        expected += &tile;
        expected += &painted_bg(" ", &base);
        expected += "\n";
    }
    // Spacer: 2 * 2 + 4 columns.
    expected += &painted_bg("        ", &base);
    expected += "\n";

    assert_eq!(out, expected);
    // Each data row holds exactly two first-quartile tiles.
    for line in out.lines().skip(1).take(7) {
        assert_eq!(line.matches(&tile).count(), 2);
    }
}

#[test]
fn render_is_idempotent() {
    let cal = Calendar::default()
        .with_data(grid(GithubQuartiles::Third, 5))
        .with_months(vec![GithubMonth(String::from("May"), 5)])
        .with_show_days(true)
        .with_show_months(true);
    assert_eq!(cal.render(), cal.render());
}

#[test]
fn header_drops_label_that_does_not_fit() {
    // week_span = 1 at tile width 2 gives 2 columns; "September" (9
    // characters) cannot fit and is dropped, never truncated.
    let cal = Calendar::default()
        .with_data(grid(GithubQuartiles::NoActivity, 1))
        .with_months(vec![GithubMonth(String::from("September"), 1)])
        .with_show_months(true);
    let out = cal.render();
    assert!(!out.contains("September"));
    assert!(!out.contains("Sep"));

    let base = base_bg();
    let header: &str = out.lines().next().unwrap();
    let mut expected_header = painted_bg(" ", &base);
    expected_header += &painted_bg("  ", &base);
    assert_eq!(header, expected_header);
}

#[test]
fn header_spacing_matches_span_times_width() {
    // HalfBlock tiles are one column wide, so a dropped label leaves
    // exactly week_span filler columns.
    let cal = Calendar::default()
        .with_data(grid(GithubQuartiles::NoActivity, 3))
        .with_months(vec![GithubMonth(String::from("October"), 3)])
        .with_style(DisplayStyle::HalfBlock)
        .with_show_months(true);
    let out = cal.render();
    let base = base_bg();
    let header: &str = out.lines().next().unwrap();
    let mut expected_header = painted_bg(" ", &base);
    expected_header += &painted_bg("   ", &base);
    assert_eq!(header, expected_header);
    assert!(!out.contains("October"));
}

#[test]
fn tile_sizes_per_style() {
    assert_eq!(DisplayStyle::SmallSquare.get_tile_size(), 2);
    assert_eq!(DisplayStyle::FullBlock.get_tile_size(), 2);
    assert_eq!(DisplayStyle::Circle.get_tile_size(), 2);
    assert_eq!(DisplayStyle::HalfBlock.get_tile_size(), 1);
}

#[test]
fn tile_glyphs_per_style() {
    assert_eq!(DisplayStyle::SmallSquare.get_tile(), " \u{25a0}");
    assert_eq!(DisplayStyle::FullBlock.get_tile(), " \u{2588}");
    assert_eq!(DisplayStyle::HalfBlock.get_tile(), "\u{2588}");
    assert_eq!(DisplayStyle::Circle.get_tile(), "\u{e0b6}\u{e0b4}");
}

#[test]
fn weekday_gutter_rows() {
    let cal = Calendar::default()
        .with_data(grid(GithubQuartiles::NoActivity, 1))
        .with_show_days(true);
    let out = cal.render();
    let base = base_bg();
    let lines: Vec<&str> = out.lines().collect();
    assert_eq!(lines.len(), 7);
    for (i, line) in lines.iter().enumerate() {
        match gutter_text(i) {
            Some(label) => {
                let painted_label = painted(label, "37", &base);
                assert!(line.starts_with(&painted_label));
                assert!(line.contains(label));
            }
            None => {
                let filler = painted_bg("    ", &base);
                assert!(line.starts_with(&filler));
            }
        }
    }
}

#[test]
fn all_none_grid_ignores_ramp_colors() {
    let data = grid(GithubQuartiles::NoActivity, 4);
    let plain = Calendar::default()
        .with_data(data.clone())
        .with_show_days(true);
    let recolored = Calendar::default()
        .with_data(data)
        .with_palette(
            Palette::default()
                .with_color1(String::from("#111111"))
                .unwrap()
                .with_color2(String::from("#222222"))
                .unwrap()
                .with_color3(String::from("#333333"))
                .unwrap()
                .with_color4(String::from("#444444"))
                .unwrap(),
        )
        .with_show_days(true);
    let out = plain.render();
    assert_eq!(out, recolored.render());
    // Every cell takes the color0 foreground; the ramp colors are absent.
    assert_eq!(out.matches(&fg_rgb(23, 27, 33)).count(), 7 * 4);
    assert!(!out.contains(&fg_rgb(31, 67, 43)));
    assert!(!out.contains(&fg_rgb(46, 108, 56)));
    assert!(!out.contains(&fg_rgb(81, 163, 78)));
    assert!(!out.contains(&fg_rgb(108, 208, 99)));
}

#[test]
fn color2_affects_only_second_quartile_cells() {
    // No second-quartile cell anywhere: overriding color2 changes nothing.
    let data = grid(GithubQuartiles::Fourth, 3);
    let plain = Calendar::default().with_data(data.clone());
    let recolored = Calendar::default()
        .with_data(data)
        .with_palette(Palette::default().with_color2(String::from("#A1B2C3")).unwrap());
    assert_eq!(plain.render(), recolored.render());

    // One second-quartile cell: exactly that cell takes the new color.
    let mut data2 = grid(GithubQuartiles::NoActivity, 3);
    data2[2][1] = GithubQuartiles::Second;
    let cal = Calendar::default()
        .with_data(data2)
        .with_palette(Palette::default().with_color2(String::from("#A1B2C3")).unwrap());
    let out = cal.render();
    assert_eq!(out.matches(&fg_rgb(0xA1, 0xB2, 0xC3)).count(), 1);
}

#[test]
fn each_level_maps_to_its_palette_color() {
    let levels = [
        (GithubQuartiles::NoActivity, fg_rgb(23, 27, 33)),
        (GithubQuartiles::First, fg_rgb(31, 67, 43)),
        (GithubQuartiles::Second, fg_rgb(46, 108, 56)),
        (GithubQuartiles::Third, fg_rgb(81, 163, 78)),
        (GithubQuartiles::Fourth, fg_rgb(108, 208, 99)),
    ];
    for (level, code) in levels.iter() {
        let p = Palette::default();
        let tile = level.get_tile(DisplayStyle::SmallSquare, &p);
        assert!(tile.contains(code.as_str()));
        let cal = Calendar::default().with_data(grid(*level, 1));
        assert_eq!(cal.render().matches(code.as_str()).count(), 7);
    }
}

#[test]
fn circle_style_adds_endcaps() {
    let base = base_bg();
    let cal = Calendar::default()
        .with_data(grid(GithubQuartiles::NoActivity, 2))
        .with_months(vec![GithubMonth(String::from("Jan"), 2)])
        .with_style(DisplayStyle::Circle)
        .with_show_months(true);
    let out = cal.render();
    let lines: Vec<&str> = out.lines().collect();
    // Header: leading space, label, filler, then one endcap space.
    let mut header = painted_bg(" ", &base);
    header += &painted("Jan", "37", &base);
    header += &painted_bg(" ", &base);
    header += &painted_bg(" ", &base);
    assert_eq!(lines[0], header);
    // Every data row starts with the endcap column.
    let endcap = painted_bg(" ", &base);
    for line in lines.iter().skip(1).take(7) {
        assert!(line.starts_with(&endcap));
    }
    // Spacer: 2 * 2 + 1 + 1 columns.
    assert_eq!(lines[8], painted_bg("      ", &base));
}

#[test]
fn hidden_header_and_days_render_bare_grid() {
    let cal = Calendar::default().with_data(grid(GithubQuartiles::First, 2));
    let out = cal.render();
    let lines: Vec<&str> = out.lines().collect();
    assert_eq!(lines.len(), 7);
    let base = base_bg();
    let tile = painted(" \u{25a0}", &fg_rgb(31, 67, 43), &base);
    let mut row = String::new();
    row += &tile;
    row += &tile;
    row += &painted_bg(" ", &base);
    for line in lines.iter() {
        assert_eq!(*line, row);
    }
}

#[test]
fn render_empty_width_grid() {
    let cal = Calendar::default()
        .with_data(grid(GithubQuartiles::NoActivity, 0))
        .with_show_days(true)
        .with_show_months(true);
    let out = cal.render();
    let lines: Vec<&str> = out.lines().collect();
    // Header, seven rows, spacer.
    assert_eq!(lines.len(), 9);
    let base = base_bg();
    assert_eq!(lines[8], painted_bg("    ", &base));
}

#[test]
fn default_calendar_and_palette() {
    let cal = Calendar::default();
    assert_eq!(cal.data.len(), 0);
    assert_eq!(cal.months.len(), 0);
    assert!(!cal.show_days);
    assert!(!cal.show_months);
    let p = Palette::default();
    assert_eq!(p.text, Color::White);
    assert_eq!(p.base, Color::TrueColor { r: 14, g: 17, b: 33 });
    assert_eq!(p.color0, Color::TrueColor { r: 23, g: 27, b: 33 });
    assert_eq!(p.color1, Color::TrueColor { r: 31, g: 67, b: 43 });
    assert_eq!(p.color2, Color::TrueColor { r: 46, g: 108, b: 56 });
    assert_eq!(p.color3, Color::TrueColor { r: 81, g: 163, b: 78 });
    assert_eq!(p.color4, Color::TrueColor { r: 108, g: 208, b: 99 });
}
