use butai_workbench::settings::{
    handle_settings_key, settings_click, settings_palette, Dim, RowId, RowKind, Settings, SettingsGroup, SettingsRow,
    SettingsTarget,
};
use butai_workbench::types::{Band, Bench, Edit, Flow, GeomStep, KeyCode, KeyEvent, Page};

fn key(code: KeyCode) -> KeyEvent {
    KeyEvent::plain(code)
}

fn ch(c: char) -> KeyEvent {
    KeyEvent::plain(KeyCode::Char(c))
}

fn row(id: RowId, kind: RowKind, value: &str) -> SettingsRow {
    SettingsRow { id, kind, value: value.into() }
}

fn choice(options: &[&str]) -> RowKind {
    RowKind::Choice(options.iter().map(|s| s.to_string()).collect())
}

const PROCS: Band = Band(0);

fn groups(st: &Settings, pinned: Option<&str>) -> Vec<SettingsGroup> {
    vec![
        SettingsGroup {
            rows: vec![
                row(
                    RowId::Theme,
                    choice(&["blueprint-dark", "tokyonight", "terminal"]),
                    &st.saved_theme,
                ),
                row(RowId::Links, RowKind::Toggle(true), "on"),
            ],
        },
        SettingsGroup {
            rows: vec![row(
                RowId::DefaultAgent,
                choice(&["ask every time", "goose", "codex"]),
                pinned.unwrap_or("ask every time"),
            )],
        },
        SettingsGroup {
            rows: vec![
                row(RowId::Other, RowKind::Size(Dim::LeftRail), "30"),
                row(RowId::Other, RowKind::Size(Dim::RightRail), "30"),
                row(RowId::Other, RowKind::Size(Dim::Band(PROCS)), "auto"),
            ],
        },
    ]
}

fn settings_state() -> Settings {
    Settings {
        group: 0,
        row: 0,
        open: None,
        saved_theme: "blueprint-dark".into(),
        ret: Page::Files,
    }
}

#[test]
fn walking_the_theme_list_previews_and_leaving_it_restores() {
    let mut view = Bench { page: Page::Settings, ..Default::default() };
    let mut st = settings_state();
    let groups = groups(&st, None);

    assert_eq!(settings_palette(&st, &groups), "blueprint-dark");

    let flow = handle_settings_key(key(KeyCode::Enter), &mut view, &mut st, &groups);
    assert!(matches!(flow, Some(Flow::SettingsEdit(_))), "{flow:?}");
    assert_eq!(st.open, Some(0), "the list opens where the value already is");
    assert_eq!(settings_palette(&st, &groups), "blueprint-dark", "and previews it unchanged");

    handle_settings_key(ch('j'), &mut view, &mut st, &groups);
    assert_eq!(settings_palette(&st, &groups), "tokyonight", "the screen follows the cursor");
    assert_eq!(st.saved_theme, "blueprint-dark", "but nothing has been chosen yet");

    let flow = handle_settings_key(key(KeyCode::Esc), &mut view, &mut st, &groups);
    assert!(matches!(flow, Some(Flow::SettingsEdit(_))), "{flow:?}");
    assert_eq!(st.open, None);
    assert_eq!(view.page, Page::Settings, "esc closed the list, not the page");
    assert_eq!(settings_palette(&st, &groups), "blueprint-dark", "the old palette is back");

    handle_settings_key(key(KeyCode::Esc), &mut view, &mut st, &groups);
    assert_eq!(view.page, Page::Files, "and it remembers where you came from");
}

#[test]
fn enter_on_a_theme_is_what_writes_it() {
    let mut view = Bench { page: Page::Settings, ..Default::default() };
    let mut st = settings_state();
    let groups = groups(&st, None);

    handle_settings_key(key(KeyCode::Enter), &mut view, &mut st, &groups);
    handle_settings_key(ch('j'), &mut view, &mut st, &groups);
    let flow = handle_settings_key(key(KeyCode::Enter), &mut view, &mut st, &groups);
    assert!(
        matches!(&flow, Some(Flow::SettingsEdit(Edit::Theme(n))) if n == "tokyonight"),
        "{flow:?}"
    );
    assert_eq!(st.open, None, "and the list closes behind it");
}

#[test]
fn the_default_agent_row_pins_and_unpins() {
    let mut view =
        Bench { page: Page::Settings, pinned_agent: Some("codex".into()), ..Default::default() };
    let mut st = Settings { group: 1, ..settings_state() };
    let groups = groups(&st, Some("codex"));

    handle_settings_key(key(KeyCode::Enter), &mut view, &mut st, &groups);
    assert_eq!(st.open, Some(2), "ask-every-time, goose, codex");
    let flow = handle_settings_key(key(KeyCode::Enter), &mut view, &mut st, &groups);
    assert!(
        matches!(&flow, Some(Flow::SettingsEdit(Edit::DefaultAgent(Some(n)))) if n == "codex"),
        "{flow:?}"
    );

    handle_settings_key(key(KeyCode::Enter), &mut view, &mut st, &groups);
    for _ in 0..5 {
        handle_settings_key(ch('k'), &mut view, &mut st, &groups);
    }
    let flow = handle_settings_key(key(KeyCode::Enter), &mut view, &mut st, &groups);
    assert!(matches!(flow, Some(Flow::SettingsEdit(Edit::DefaultAgent(None)))), "{flow:?}");
}

#[test]
fn zero_puts_a_band_back_to_auto() {
    let mut view = Bench { page: Page::Settings, ..Default::default() };
    let mut st = Settings { group: 2, row: 2, ..settings_state() };
    let groups = groups(&st, None);

    let flow = handle_settings_key(ch('+'), &mut view, &mut st, &groups);
    assert_eq!(
        flow,
        Some(Flow::SettingsEdit(Edit::Geom(GeomStep::Band { band: PROCS, delta: 2 }))),
        "a nudge pins it"
    );
    let flow = handle_settings_key(ch('0'), &mut view, &mut st, &groups);
    assert_eq!(
        flow,
        Some(Flow::SettingsEdit(Edit::Geom(GeomStep::AutoBand(PROCS)))),
        "and `0` lets go of it again"
    );
}

#[test]
fn a_rail_is_nudged_on_its_own_side() {
    let mut view = Bench { page: Page::Settings, ..Default::default() };
    let mut st = Settings { group: 2, row: 0, ..settings_state() };
    let groups = groups(&st, None);
    assert_eq!(
        handle_settings_key(ch('-'), &mut view, &mut st, &groups),
        Some(Flow::SettingsEdit(Edit::Geom(GeomStep::Rail { left: true, delta: -2 })))
    );
    handle_settings_key(ch('j'), &mut view, &mut st, &groups);
    assert_eq!(
        handle_settings_key(key(KeyCode::Right), &mut view, &mut st, &groups),
        Some(Flow::SettingsEdit(Edit::Geom(GeomStep::Rail { left: false, delta: 2 })))
    );
}

#[test]
fn a_switch_is_flipped_by_enter_by_space_and_by_a_click() {
    let mut view = Bench { page: Page::Settings, ..Default::default() };
    let mut st = Settings { row: 1, ..settings_state() };
    let groups = groups(&st, None);
    let flipped = Some(Flow::SettingsEdit(Edit::Links(false)));
    assert_eq!(handle_settings_key(ch(' '), &mut view, &mut st, &groups), flipped);
    assert_eq!(handle_settings_key(key(KeyCode::Enter), &mut view, &mut st, &groups), flipped);
    let entered = st.clone();
    st.row = 0;
    assert_eq!(settings_click(SettingsTarget::Row(1), &mut st, &groups), flipped);
    assert_eq!(st, entered);
}

#[test]
fn a_key_that_changes_nothing_still_reports_where_the_cursor_is() {
    let mut view = Bench { page: Page::Settings, ..Default::default() };
    let mut st = Settings { group: 2, row: 0, ..settings_state() };
    let groups = groups(&st, None);
    let moved = Some(Flow::SettingsEdit(Edit::Moved));
    for k in [key(KeyCode::Enter), ch(' '), ch('0'), key(KeyCode::Esc)] {
        assert_eq!(handle_settings_key(k, &mut view, &mut st, &groups), moved, "{k:?}");
    }
    st = Settings { row: 1, ..st };
    st.group = 0;
    assert_eq!(handle_settings_key(ch('+'), &mut view, &mut st, &groups), moved);
}

#[test]
fn a_click_picks_the_group_and_then_the_row() {
    let mut st = settings_state();
    let groups = groups(&st, None);
    settings_click(SettingsTarget::Group(2), &mut st, &groups);
    assert_eq!((st.group, st.row, st.open), (2, 0, None));
    settings_click(SettingsTarget::Row(1), &mut st, &groups);
    assert_eq!((st.group, st.row), (2, 1));
    assert_eq!(settings_click(SettingsTarget::Nothing, &mut st, &groups), None);
}
