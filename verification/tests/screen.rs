use butai_workbench::encode::open_link;
use butai_workbench::frame::{blank_screen, cells_at, changed_cells, repaint, Drawn, Screen};
use butai_workbench::paint::{compose, paint, pane_on, Caret, Layer};
use butai_workbench::screen::{
    apply_style, close_link, conv_color, term_color, write_cells, ScreenCell, Shade, Style, TermAttribute, TermColor,
    TermOp,
};
use butai_workbench::stage::{Area, Color, Mods, Stage};
use butai_workbench::types::{Bench, Focus, Page, PaneId};

const PLAIN: Mods = Mods {
    bold: false,
    italic: false,
    underline: false,
    reverse: false,
    dim: false,
    crossed_out: false,
};

fn plain() -> Style {
    Style { fg: Shade::Reset, bg: Shade::Reset, mods: PLAIN }
}

fn row(text: &str, link_from: Option<usize>, url: &str) -> Vec<ScreenCell> {
    text.chars()
        .enumerate()
        .map(|(x, c)| ScreenCell {
            x: x as u16,
            y: 0,
            symbol: c.to_string(),
            style: plain(),
            link: match link_from {
                Some(at) if x >= at => Some((0x2a, url.to_string())),
                _ => None,
            },
        })
        .collect()
}

fn bytes(ops: &[TermOp]) -> String {
    let mut out = String::new();
    for op in ops {
        match op {
            TermOp::OpenLink { id, url } => out.push_str(&open_link(*id, url)),
            TermOp::CloseLink => out.push_str(&close_link()),
            TermOp::Print(s) => out.push_str(s),
            _ => {}
        }
    }
    out
}

#[test]
fn a_url_is_written_as_one_hyperlink_and_closed_after_it() {
    let url = "https://example.com";
    let cells = row("see https://example.com", Some(4), url);
    let written = bytes(&write_cells(&cells, true));

    assert_eq!(written.matches("\x1b]8;id=").count(), 1, "{written:?}");
    assert!(written.contains("\x1b]8;id=2a;https://example.com\x1b\\h"), "{written:?}");
    assert!(written.ends_with("\x1b]8;;\x1b\\"), "{written:?}");

    let plain = bytes(&write_cells(&cells, false));
    assert!(!plain.contains("\x1b]8"), "{plain:?}");
    assert!(plain.contains('h'), "{plain:?}");
}

#[test]
fn a_style_is_set_once_for_a_run_of_cells() {
    let ops = write_cells(&row("ab", None, ""), true);
    let moves: Vec<&TermOp> = ops.iter().filter(|o| matches!(o, TermOp::MoveTo(..))).collect();
    assert_eq!(moves, vec![&TermOp::MoveTo(0, 0), &TermOp::MoveTo(1, 0)]);
    assert_eq!(ops.iter().filter(|o| matches!(o, TermOp::Reset)).count(), 1);
}

#[test]
fn a_cell_that_holds_nothing_still_takes_its_column() {
    let mut cells = row("a", None, "");
    cells[0].symbol = String::new();
    assert_eq!(bytes(&write_cells(&cells, true)), " ");
}

#[test]
fn a_style_starts_from_nothing() {
    let mut ops = vec![];
    apply_style(
        &mut ops,
        Style {
            fg: Shade::Red,
            bg: Shade::Indexed(7),
            mods: Mods { bold: true, dim: true, ..PLAIN },
        },
    );
    assert_eq!(
        ops,
        vec![
            TermOp::Reset,
            TermOp::Foreground(TermColor::DarkRed),
            TermOp::Background(TermColor::AnsiValue(7)),
            TermOp::Attribute(TermAttribute::Bold),
            TermOp::Attribute(TermAttribute::Dim),
        ]
    );
}

#[test]
fn the_bright_colours_are_the_bright_ones() {
    assert_eq!(term_color(Shade::LightRed), TermColor::Red);
    assert_eq!(term_color(Shade::Red), TermColor::DarkRed);
    assert_eq!(term_color(Shade::Gray), TermColor::Grey);
    assert_eq!(term_color(Shade::DarkGray), TermColor::DarkGrey);
    assert_eq!(term_color(Shade::Rgb(1, 2, 3)), TermColor::Rgb { r: 1, g: 2, b: 3 });
    assert_eq!(term_color(Shade::Reset), TermColor::Reset);
}

#[test]
fn a_modal_survives_the_pane_being_blitted_over_the_stage() {
    let (width, height) = (30usize, 5usize);
    let mut screen = vec![vec![' '; width]; height];
    let title: Vec<char> = "CLOSE close this workspace?".chars().collect();
    for layer in compose(true, false) {
        match layer {
            Layer::Chrome => screen[0] = vec!['='; width],
            Layer::Pane => screen[1..].fill(vec!['#'; width]),
            Layer::Notice => panic!("the connection is up"),
            Layer::Modal => screen[2][..title.len()].copy_from_slice(&title),
        }
    }
    let text: Vec<String> = screen.iter().map(|r| r.iter().collect()).collect();
    let text = text.join("\n");
    assert!(text.contains("CLOSE"), "the modal was painted over:\n{text}");
    assert!(text.contains("close this workspace?"), "the modal lost its content:\n{text}");
    assert!(text.contains('#'), "the pane should still be on the stage around it");
}

fn area(width: u16, height: u16) -> Area {
    Area { x: 0, y: 0, width, height }
}

#[test]
fn a_repaint_leaves_the_cursor_where_the_program_has_it() {
    let at = Area { x: 10, y: 2, width: 60, height: 20 };
    let mut stage = Stage::opened(PaneId(1), at, 0);
    stage.cursor = Some((3, 4));
    let hosts = vec![None];
    let mut view = Bench::default();
    let r = paint(area(80, 24), area(80, 24), &view, Some(&stage), &hosts, at, 0);
    assert!(!r.clear);
    assert_eq!(r.layers, vec![Layer::Chrome, Layer::Pane, Layer::Modal]);
    assert_eq!(r.caret, Some(Caret { x: 13, y: 6, typed_into: true }));

    view.focus = Focus::Agents;
    stage.mark_lost(1_000);
    stage.cursor = Some((3, 4));
    let r = paint(area(80, 24), area(90, 24), &view, Some(&stage), &hosts, at, 6_500);
    assert!(r.clear, "another size leaves nothing to keep");
    assert_eq!(r.layers, vec![Layer::Chrome, Layer::Pane, Layer::Notice, Layer::Modal]);
    assert_eq!(r.down.map(|d| d.secs), Some(5));
    assert_eq!(r.caret, Some(Caret { x: 13, y: 6, typed_into: false }));

    view.page = Page::Git;
    let r = paint(area(90, 24), area(90, 24), &view, Some(&stage), &hosts, at, 6_500);
    assert_eq!((r.layers, r.caret), (vec![Layer::Chrome, Layer::Modal], None));
    assert!(pane_on(Page::Git, Some(&stage)).is_none());
    assert!(pane_on(Page::Docker, Some(&stage)).is_some());
}

#[test]
fn a_color_of_a_pane_is_that_color_on_the_screen() {
    assert_eq!(conv_color(Color::Default), Shade::Reset);
    assert_eq!(conv_color(Color::Indexed(9)), Shade::Indexed(9));
    assert_eq!(conv_color(Color::Rgb(1, 2, 3)), Shade::Rgb(1, 2, 3));
}

fn drawn(rows: &[&[&str]]) -> Screen {
    let cell = |s: &&str| Drawn { symbol: s.to_string(), style: plain() };
    Screen {
        cols: rows[0].len() as u16,
        rows: rows.len() as u16,
        cells: rows.iter().flat_map(|r| r.iter().map(cell)).collect(),
    }
}

fn unlinked(s: &Screen) -> Vec<Option<(u64, String)>> {
    vec![None; s.cells.len()]
}

fn places(painted: &Screen, screen: &Screen) -> Vec<(u16, u16, String)> {
    let cells = changed_cells(painted, screen, &unlinked(screen));
    cells.into_iter().map(|c| (c.x, c.y, c.symbol)).collect()
}

#[test]
fn only_the_cells_that_differ_are_written() {
    let painted = drawn(&[&["a", "b", "c"], &["d", "e", "f"]]);
    let screen = drawn(&[&["a", "x", "c"], &["d", "e", "y"]]);
    assert_eq!(places(&painted, &screen), [(1, 0, "x".to_string()), (2, 1, "y".to_string())]);
    assert!(places(&screen, &screen).is_empty());
    assert!(repaint(&screen, &screen, &unlinked(&screen), true).is_empty());
}

#[test]
fn a_cell_differs_by_any_part_of_its_style() {
    let painted = drawn(&[&["a"]]);
    let shades = [
        Shade::Black,
        Shade::Red,
        Shade::White,
        Shade::Indexed(0),
        Shade::Indexed(1),
        Shade::Rgb(0, 0, 0),
        Shade::Rgb(1, 0, 0),
    ];
    let mut styles = vec![plain()];
    for s in shades {
        styles.push(Style { fg: s, ..plain() });
        styles.push(Style { bg: s, ..plain() });
    }
    for mods in [
        Mods { bold: true, ..PLAIN },
        Mods { italic: true, ..PLAIN },
        Mods { underline: true, ..PLAIN },
        Mods { reverse: true, ..PLAIN },
        Mods { dim: true, ..PLAIN },
        Mods { crossed_out: true, ..PLAIN },
    ] {
        styles.push(Style { mods, ..plain() });
    }
    let with = |style: Style| Screen {
        cells: vec![Drawn { symbol: "a".into(), style }],
        ..painted.clone()
    };
    for (i, a) in styles.iter().enumerate() {
        for (j, b) in styles.iter().enumerate() {
            assert_eq!(places(&with(*a), &with(*b)).is_empty(), i == j, "{a:?} {b:?}");
        }
    }
}

#[test]
fn a_wide_symbol_fills_the_cell_behind_it_and_uncovers_it_when_it_goes() {
    let narrow = drawn(&[&["a", "b", "c", "d"]]);
    let wide = drawn(&[&["コ", " ", "c", "d"]]);
    assert_eq!(places(&narrow, &wide), [(0, 0, "コ".to_string())], "it fills the second");
    let blank = drawn(&[&["a", " ", "c", "d"]]);
    assert_eq!(
        places(&wide, &blank),
        [(0, 0, "a".to_string()), (1, 0, " ".to_string())],
        "the second is as it was, and still has to be drawn"
    );
    assert!(places(&wide, &wide).is_empty());
}

#[test]
fn a_screen_of_another_size_is_drawn_from_nothing() {
    let painted = drawn(&[&["a", "b"]]);
    let screen = drawn(&[&["a", " ", "b"]]);
    let ops = repaint(&painted, &screen, &unlinked(&screen), false);
    assert_eq!(bytes(&ops), "ab", "what is blank is blank already");
    let nothing = blank_screen(3, 1);
    assert_eq!(ops, repaint(&nothing, &screen, &unlinked(&screen), false));
    assert!(repaint(&painted, &blank_screen(0, 0), &vec![], false).is_empty());
}

#[test]
fn a_changed_cell_has_the_link_at_its_place() {
    let screen = drawn(&[&["a", "b"], &["c", "d"]]);
    let mut links = unlinked(&screen);
    links[2] = Some((7, "https://a".into()));
    let cells = changed_cells(&blank_screen(2, 2), &screen, &links);
    let found: Vec<bool> = cells.iter().map(|c| c.link.is_some()).collect();
    assert_eq!(found, [false, false, true, false]);
    assert_eq!(cells_at(&vec![(0, 1, 0)], &screen, &links), [cells[2].clone()]);
}

#[test]
fn places_are_counted_in_sixteen_bits() {
    let painted = blank_screen(300, 300);
    let mut screen = painted.clone();
    screen.cells[5].symbol = "a".into();
    screen.cells[70_000].symbol = "b".into();
    assert_eq!(
        places(&painted, &screen),
        [(5, 0, "a".to_string()), (264, 14, "b".to_string())]
    );
}
