use butai_workbench::stage::{
    apply_frame, apply_run, skew_notice, stage_caret, stage_down, stage_event, follow_stage, AfterEvent, Area, Cell, CellOf,
    CellRun, Color, Frame, Grid, Mods, Stage, StageAct, StageEvent, StageMsg, STAGE_RETRY,
};
use butai_workbench::types::{new_search, Bench, Focus, Overlay, Page, PaneId};

const VERSION: &str = "0.1.0";

fn plain() -> Mods {
    Mods {
        bold: false,
        italic: false,
        underline: false,
        reverse: false,
        dim: false,
        crossed_out: false,
    }
}

fn cell(symbol: &str) -> Cell {
    CellOf { symbol: symbol.to_string(), fg: Color::Default, bg: Color::Default, mods: plain() }
}

fn run(x: u16, y: u16, text: &str) -> CellRun {
    CellRun { x, y, cells: text.chars().map(|c| cell(&c.to_string())).collect() }
}

fn frame(full: bool, runs: Vec<CellRun>) -> Frame {
    Frame { full, runs, cursor: None, wants_mouse: false }
}

fn area(x: u16, y: u16, width: u16, height: u16) -> Area {
    Area { x, y, width, height }
}

fn symbol(buf: &Grid, x: u16, y: u16) -> &str {
    let at = y as usize * buf.area.width as usize + x as usize;
    &buf.cells[at].symbol
}

fn text_of(buf: &Grid, y: u16) -> String {
    let row: String = (0..buf.area.width).map(|x| symbol(buf, x, y)).collect();
    row.trim_end().to_string()
}

#[test]
fn a_matching_daemon_says_nothing() {
    assert_eq!(skew_notice(Some(VERSION), VERSION), None);
}

#[test]
fn a_daemon_that_cannot_name_itself_is_reported_as_old() {
    let notice = skew_notice(None, VERSION).expect("a silent old daemon is the bug, not the fix");
    assert!(notice.contains("predates this client"), "{notice:?}");
    assert!(notice.contains("kill-server"), "{notice:?} must name the way out");
    assert_eq!(notice, "daemon predates this client (0.1.0) — restart it: butai kill-server");
}

#[test]
fn a_daemon_of_a_different_build_names_both_versions() {
    let notice =
        skew_notice(Some("0.0.1-ancient"), VERSION).expect("a mismatch must be reported");
    assert!(notice.contains("0.0.1-ancient"), "{notice:?} should name the daemon's version");
    assert!(notice.contains(VERSION), "{notice:?} should name the client's");
    assert_eq!(
        notice,
        "daemon is 0.0.1-ancient, client is 0.1.0 — restart it: butai kill-server"
    );
}

#[test]
fn a_full_frame_clears_what_the_previous_pane_left() {
    let mut buf = Grid::empty(area(0, 0, 20, 2));
    apply_frame(&mut buf, &frame(true, vec![run(0, 0, "OLD PANE OUTPUT")]));
    assert_eq!(text_of(&buf, 0), "OLD PANE OUTPUT");
    apply_frame(&mut buf, &frame(true, vec![run(0, 0, "new")]));
    assert_eq!(text_of(&buf, 0), "new", "a full frame should have cleared the rest");
}

#[test]
fn a_partial_frame_leaves_the_rest_alone() {
    let mut buf = Grid::empty(area(0, 0, 20, 2));
    apply_frame(&mut buf, &frame(true, vec![run(0, 0, "abcdef")]));
    apply_frame(&mut buf, &frame(false, vec![run(2, 0, "XY")]));
    assert_eq!(text_of(&buf, 0), "abXYef");
}

#[test]
fn a_wide_grapheme_advances_two_columns() {
    let mut buf = Grid::empty(area(0, 0, 10, 1));
    apply_frame(&mut buf, &frame(true, vec![run(0, 0, "日本x")]));
    assert_eq!(symbol(&buf, 0, 0), "日");
    assert_eq!(symbol(&buf, 2, 0), "本");
    assert_eq!(symbol(&buf, 4, 0), "x");
}

#[test]
fn what_would_stand_outside_is_not_written() {
    let mut buf = Grid::empty(area(3, 4, 5, 2));
    apply_frame(&mut buf, &frame(true, vec![run(3, 1, "abcdef"), run(0, 2, "below")]));
    assert_eq!(text_of(&buf, 0), "");
    assert_eq!(text_of(&buf, 1), "   ab");
}

#[test]
fn a_run_goes_by_the_widths_it_is_given() {
    let mut buf = Grid::empty(area(0, 0, 6, 1));
    apply_run(&mut buf, &run(0, 0, "abc"), &vec![3, 0, 1]);
    assert_eq!(text_of(&buf, 0), "a  bc");
}

#[test]
fn a_frame_carries_its_colors_and_its_style() {
    let mut buf = Grid::empty(area(0, 0, 2, 1));
    let styled = CellOf {
        symbol: "x".to_string(),
        fg: Color::Indexed(4),
        bg: Color::Rgb(1, 2, 3),
        mods: Mods { bold: true, dim: true, ..plain() },
    };
    let run = CellRun { x: 1, y: 0, cells: vec![styled.clone()] };
    apply_frame(&mut buf, &frame(false, vec![run]));
    assert_eq!(buf.cells[1], styled);
    assert_eq!(buf.cells[0], cell(" "));
}

fn on_stage(cursor: Option<(u16, u16)>, at: Area) -> Stage {
    let mut s = Stage::opened(PaneId(1), at, 0);
    s.cursor = cursor;
    s
}

#[test]
fn a_lost_stage_retries_on_a_clock_rather_than_on_every_repaint() {
    let mut stage = Stage::opened(PaneId(1), area(0, 0, 10, 3), 0);
    let t0 = 5_000;
    assert!(!stage.reopen_due(t0), "a live stage has nothing to re-open");

    stage.mark_lost(t0);
    assert!(
        stage.reopen_due(t0),
        "the first attempt is immediate — a restart comes straight back"
    );
    assert!(!stage.reopen_due(t0), "not twice in the same instant");
    assert!(!stage.reopen_due(t0 + STAGE_RETRY - 1), "not before the wait is up");
    assert!(stage.reopen_due(t0 + STAGE_RETRY), "and again once it is");

    let mut attempts = 0;
    for ms in 0..10_000u64 {
        if stage.reopen_due(t0 + ms) {
            attempts += 1;
        }
    }
    assert!(attempts <= 11, "{attempts} attempts in ten seconds is a retry per repaint");
}

#[test]
fn the_age_on_the_notice_counts_from_the_drop() {
    let mut stage = Stage::opened(PaneId(1), area(0, 0, 10, 3), 1);
    let t0 = 10_000;
    let hosts = vec![None, Some("gpu-box".to_string())];
    assert_eq!(stage_down(&stage, &hosts, t0), None);
    stage.mark_lost(t0);
    let first = stage.lost.expect("marked lost");
    stage.mark_lost(t0 + 30_000);
    assert_eq!(stage.lost, Some(first), "a second loss restarted the clock");
    let notice = stage_down(&stage, &hosts, t0 + 42_500).unwrap();
    assert_eq!(notice.secs, 42);
    assert_eq!(notice.host.as_deref(), Some("gpu-box"));
    assert!(!notice.has_frame);
}

#[test]
fn a_dropped_link_keeps_the_last_frame_and_a_closed_pane_does_not() {
    let mut stage = Stage::opened(PaneId(1), area(0, 0, 10, 3), 0);
    apply_frame(&mut stage.buf, &frame(false, vec![run(0, 0, "hello")]));
    assert!(stage.has_frame(), "the fixture should have cells to lose");

    stage.mark_lost(77);
    assert!(stage.lost.is_some(), "an end of stream must mark the stage, not clear it");
    assert!(stage.has_frame(), "the last frame was thrown away");
    assert!(stage.cursor.is_none(), "the caret stayed on a screen nobody is updating");

    let down = Stage::down(PaneId(1), area(0, 0, 10, 3), 77);
    assert!(!down.has_frame());
}

#[test]
fn a_machine_that_shuts_down_is_a_dropped_link_and_a_pane_that_ends_is_not() {
    let mut view = Bench::default();
    let mut stage = Some(Stage::opened(PaneId(1), area(0, 0, 20, 2), 0));
    stage_event(
        StageEvent::Frame(frame(true, vec![run(0, 0, "cargo test")])),
        &mut stage,
        &mut view,
        VERSION,
        1,
    );
    let after =
        stage_event(StageEvent::Detached { shutdown: true }, &mut stage, &mut view, VERSION, 2);
    assert!(after.dirty);
    let s = stage.as_ref().expect("a dropped link keeps the stage");
    assert_eq!(text_of(&s.buf, 0), "cargo test", "and what was on it");
    assert_eq!(s.lost, Some(2));
    stage_event(StageEvent::Detached { shutdown: false }, &mut stage, &mut view, VERSION, 3);
    assert!(stage.is_none(), "a pane that closed has nothing to keep");
}

#[test]
fn a_stream_that_ends_without_a_word_is_a_dropped_link() {
    let mut view = Bench::default();
    let mut stage = Some(on_stage(Some((1, 1)), area(0, 0, 4, 4)));
    stage_event(StageEvent::End, &mut stage, &mut view, VERSION, 9);
    let s = stage.unwrap();
    assert_eq!(s.lost, Some(9));
    assert_eq!(s.cursor, None, "a caret on a frozen picture is a lie");
}

#[test]
fn a_message_from_the_machine_rings_speaks_or_says_nothing() {
    let mut view = Bench::default();
    let mut stage = None;
    let quiet = AfterEvent { ring: false, dirty: false };
    assert_eq!(
        stage_event(StageEvent::Bell, &mut stage, &mut view, VERSION, 0),
        AfterEvent { ring: true, dirty: false }
    );
    assert_eq!(stage_event(StageEvent::Other, &mut stage, &mut view, VERSION, 0), quiet);
    let hello = |v: Option<&str>| StageEvent::Hello { server_version: v.map(str::to_string) };
    assert_eq!(stage_event(hello(Some(VERSION)), &mut stage, &mut view, VERSION, 0), quiet);
    assert_eq!(view.flash, None);
    assert!(stage_event(hello(None), &mut stage, &mut view, VERSION, 0).dirty);
    assert!(view.flash.as_deref().unwrap().contains("predates this client"));
    stage_event(StageEvent::Error("no such pane".into()), &mut stage, &mut view, VERSION, 0);
    assert_eq!(view.flash.as_deref(), Some("no such pane"));
}

#[test]
fn a_stage_follows_what_it_should_show() {
    let at = area(0, 0, 10, 4);
    let mut stage = None;
    assert_eq!(
        follow_stage(Some((0, PaneId(1))), &mut stage, at, 0),
        StageAct::Open { daemon: 0, pane: PaneId(1) }
    );
    stage = Some(Stage::opened(PaneId(1), at, 0));
    assert_eq!(
        follow_stage(Some((0, PaneId(1))), &mut stage, at, 0),
        StageAct::Follow { resize: None, watch: None }
    );
    let wider = area(0, 0, 12, 4);
    assert_eq!(
        follow_stage(Some((0, PaneId(2))), &mut stage, wider, 0),
        StageAct::Follow {
            resize: Some(StageMsg::Resize { cols: 12, rows: 4 }),
            watch: Some(StageMsg::Watch { pane: PaneId(2) }),
        }
    );
    assert_eq!(stage.as_ref().unwrap().pane, PaneId(2));
    assert_eq!(stage.as_ref().unwrap().buf.area, wider);
    stage.as_mut().unwrap().mark_lost(7);
    assert_eq!(
        follow_stage(Some((0, PaneId(2))), &mut stage, wider, 7),
        StageAct::Reopen { daemon: 0, pane: PaneId(2) }
    );
    assert_eq!(follow_stage(Some((0, PaneId(2))), &mut stage, wider, 8), StageAct::Wait);
    assert_eq!(
        follow_stage(Some((1, PaneId(2))), &mut stage, wider, 8),
        StageAct::Open { daemon: 1, pane: PaneId(2) }
    );
    assert_eq!(follow_stage(None, &mut stage, wider, 8), StageAct::Close);
    assert!(stage.is_none());
}

#[test]
fn a_machine_that_cannot_be_reached_leaves_an_empty_stage_that_waits() {
    let mut s = Stage::down(PaneId(3), area(0, 0, 4, 2), 100);
    assert_eq!(s.lost, Some(100));
    assert!(!s.has_frame());
    assert!(!s.reopen_due(100 + STAGE_RETRY - 1));
    assert!(s.reopen_due(100 + STAGE_RETRY));
}

fn stage_rect() -> Area {
    area(28, 2, 60, 20)
}

fn agents_on_stage() -> Bench {
    Bench { page: Page::Agents, focus: Focus::Stage, ..Bench::default() }
}

#[test]
fn the_caret_lands_where_the_pane_was_blitted() {
    let at = stage_rect();
    assert!(at.x > 0 && at.y > 0, "a stage at the origin would prove nothing");
    let s = on_stage(Some((3, 2)), at);
    assert_eq!(
        stage_caret(&agents_on_stage(), Some(&s), Some(&s.buf), at),
        Some((at.x + 3, at.y + 2))
    );
}

#[test]
fn a_hidden_cursor_puts_no_caret_on_screen() {
    let at = stage_rect();
    let mut s = on_stage(Some((3, 2)), at);
    s.cursor = None;
    assert_eq!(stage_caret(&agents_on_stage(), Some(&s), Some(&s.buf), at), None);
}

#[test]
fn a_modal_takes_the_caret_off_the_pane() {
    let at = stage_rect();
    let mut view = agents_on_stage();
    let s = on_stage(Some((3, 2)), at);
    assert!(stage_caret(&view, Some(&s), Some(&s.buf), at).is_some());
    view.overlay = Some(Overlay::Search(new_search()));
    assert_eq!(stage_caret(&view, Some(&s), Some(&s.buf), at), None);
}

#[test]
fn a_page_with_no_pane_has_no_caret() {
    let at = stage_rect();
    let view = Bench { page: Page::Git, ..Bench::default() };
    let s = on_stage(Some((3, 2)), at);
    assert_eq!(stage_caret(&view, Some(&s), None, at), None);
}

#[test]
fn a_cursor_past_the_pane_is_not_drawn() {
    let at = stage_rect();
    let view = agents_on_stage();
    let past_right = on_stage(Some((at.width, 0)), at);
    assert_eq!(stage_caret(&view, Some(&past_right), Some(&past_right.buf), at), None);
    let past_bottom = on_stage(Some((0, at.height)), at);
    assert_eq!(stage_caret(&view, Some(&past_bottom), Some(&past_bottom.buf), at), None);
    let narrow = Grid::empty(area(28, 2, 10, 4));
    let past_pane = on_stage(Some((10, 0)), at);
    assert_eq!(stage_caret(&view, Some(&past_pane), Some(&narrow), at), None);
}
