use butai_workbench::bench::{alt_binding, mac_option, run_view, Bound, ViewVerb};
use butai_workbench::click::{FleetHit, PageTarget, Target, WheelSpot};
use butai_workbench::git::{DiffMode, DiffView, Git, GitFooters, GitTarget, Verb, VerbId};
use butai_workbench::input::{
    handle_input, paste_text, text_gutter, Around, Desk, DragStep, Input, Keymap, Outcome, PaneInput, Under,
};
use butai_workbench::menu::{MenuText, MenuTexts};
use butai_workbench::pages::{Docker, Editor, EditMode, EditorStep, Files, Help, RailVerbs, Usage};
use butai_workbench::project::{handle_changes_key, Changes, Workspace};
use butai_workbench::settings::{Settings, SettingsTarget};
use butai_workbench::types::{
    Bench, Flow, Focus, GeomStep, KeyCode, KeyEvent, MouseButton, MouseEvent, MouseKind, Overlay, Page, SessionId,
};

fn key(code: KeyCode) -> KeyEvent {
    KeyEvent::plain(code)
}

fn ch(c: char) -> KeyEvent {
    KeyEvent::plain(KeyCode::Char(c))
}

fn ctrl(c: char) -> KeyEvent {
    KeyEvent { ctrl: true, ..ch(c) }
}

fn alt(c: char) -> KeyEvent {
    KeyEvent { alt: true, ..ch(c) }
}

fn desk(view: Bench) -> Desk {
    Desk {
        view,
        files: Files::default(),
        docs: Files::default(),
        diff: DiffView::default(),
        docker: Docker { sel: 0, logs: None },
        git: Git::default(),
        settings: Settings {
            group: 0,
            row: 0,
            open: None,
            saved_theme: String::new(),
            ret: Page::Agents,
        },
        help: Help { topic: 0, scroll: 0, ret: Page::Agents },
        usage: Usage { rows: 0, sel: 0, loaded: false },
        cols: 120,
        rows: 40,
    }
}

fn prefixed(prefix: char) -> Keymap {
    let view = Bound::View;
    Keymap {
        prefix: ctrl(prefix),
        bindings: vec![
            (ch('d'), Bound::Detach),
            (ch('a'), Bound::PickAgent),
            (ch('f'), view(ViewVerb::Links)),
            (ch('o'), view(ViewVerb::Space(Page::Files))),
            (ch('m'), view(ViewVerb::Space(Page::Docs))),
            (ch('c'), view(ViewVerb::Space(Page::Docker))),
            (ch('P'), view(ViewVerb::Focus(Focus::Processes))),
        ],
    }
}

fn text(title: &str, rows: &[&str]) -> MenuText {
    MenuText { title: title.into(), rows: rows.iter().map(|s| s.to_string()).collect() }
}

fn around() -> Around {
    let verb = |key, id| Verb { key, id };
    let agents = vec![
        verb('a', VerbId::NewAgent),
        verb('A', VerbId::PickAgent),
        verb('x', VerbId::Kill),
    ];
    Around {
        stage: false,
        wants_mouse: false,
        keymap: prefixed('b'),
        key_label: "^B".into(),
        option_as_alt: false,
        options: vec![('ø', 'o'), ('π', 'p'), ('∂', 'd')],
        verbs: RailVerbs {
            agents: agents.clone(),
            agents_pinned: agents,
            procs: vec![
                verb('t', VerbId::NewShell),
                verb('r', VerbId::Restart),
                verb('x', VerbId::Kill),
            ],
        },
        footers: GitFooters { refs: vec![], commit: vec![], none: vec![] },
        row_verbs: vec![],
        refs: vec![],
        list_rows: 20,
        stacks: vec![],
        docker_rows: vec![],
        groups: vec![],
        topics: 3,
        help_max: 10,
        help_height: 30,
        menus: MenuTexts {
            process: text("PROCESS", &["Restart", "Close"]),
            agent: text("AGENT", &["Close agent", "Close others", "Close all agents"]),
            tab: text("WORKSPACE", &["Close workspace"]),
            remote_tab: text("WORKSPACE", &["Close workspace", "Disconnect host"]),
        },
    }
}

fn staged() -> Around {
    Around { stage: true, ..around() }
}

fn nowhere() -> Under {
    Under {
        overlay_row: None,
        fleet: None,
        bar: false,
        target: Target::Nothing,
        wheel_target: Target::Nothing,
        spot: WheelSpot::Nothing,
        settings: SettingsTarget::Nothing,
        topic: None,
        git: GitTarget::Nothing,
        page: PageTarget::Nothing,
    }
}

fn go(desk: &mut Desk, k: KeyEvent, around: &Around) -> Outcome {
    handle_input(Input::Key(k), desk, &vec![], &vec![], around, &nowhere())
}

fn press(view: &mut Bench, k: KeyEvent, around: &Around) -> Flow {
    let mut d = desk(view.clone());
    let out = go(&mut d, k, around);
    *view = d.view;
    out.flow
}

fn press_mac(view: &mut Bench, k: KeyEvent) -> Flow {
    press(view, k, &Around { option_as_alt: true, ..around() })
}

fn on_stage() -> Bench {
    Bench { focus: Focus::Stage, ..Default::default() }
}

fn mouse(kind: MouseKind) -> MouseEvent {
    MouseEvent { kind, column: 60, row: 20, alt: false, shift: false }
}

#[test]
fn alt_d_detaches_even_with_the_keyboard_on_the_stage() {
    let mut view = on_stage();
    let flow = press(&mut view, alt('d'), &around());
    assert!(matches!(flow, Flow::Detach), "alt-d was swallowed by the stage");
    let flow = press(&mut view, ch('d'), &around());
    assert!(matches!(flow, Flow::Continue), "a plain key should reach the pane");
}

#[test]
fn the_prefix_gets_through_a_focused_stage() {
    let mut view = on_stage();
    assert!(matches!(press(&mut view, ctrl('b'), &around()), Flow::Continue));
    assert!(view.prefix_armed, "the prefix did not arm from the stage");
    let flow = press(&mut view, ch('d'), &around());
    assert!(matches!(flow, Flow::Detach), "C-b d did not detach");
    assert!(!view.prefix_armed, "the prefix stayed armed");
}

#[test]
fn the_prefix_twice_is_how_you_type_it() {
    let mut d = desk(on_stage());
    let first = go(&mut d, ctrl('b'), &staged());
    assert_eq!(first.sent, None, "arming the prefix must not reach the pane");
    let second = go(&mut d, ctrl('b'), &staged());
    assert!(matches!(second.flow, Flow::Continue));
    assert!(!d.view.prefix_armed, "a doubled prefix must disarm, not re-arm");
    assert_eq!(
        second.sent,
        Some(PaneInput::Key(ctrl('b'))),
        "the doubled prefix never reached the pane"
    );
    assert_eq!(d.view.flash, None, "{:?}", d.view.flash);
}

#[test]
fn an_unbound_key_after_the_prefix_says_so() {
    let mut view = Bench::default();
    press(&mut view, ctrl('b'), &around());
    press(&mut view, ch('Q'), &Around { key_label: "Q".into(), ..around() });
    let flash = view.flash.expect("nothing was said about an unbound key");
    assert!(flash.contains('Q') && flash.contains("not bound"), "{flash}");
}

#[test]
fn a_configured_prefix_replaces_the_default() {
    let around = Around { keymap: prefixed('a'), ..around() };
    let mut view = Bench::default();
    assert!(matches!(press(&mut view, ctrl('b'), &around), Flow::Continue));
    assert!(!view.prefix_armed, "C-b armed a client configured for C-a");
    press(&mut view, ctrl('a'), &around);
    assert!(view.prefix_armed, "C-a did not arm");
}

#[test]
fn a_ctrl_key_is_not_the_letter_under_it() {
    let around = Around { keymap: prefixed('a'), ..around() };
    for c in ['b', 'a', 'n', 'g', 'q'] {
        let mut view = Bench::default();
        let flow = press(&mut view, ctrl(c), &around);
        assert!(matches!(flow, Flow::Continue), "C-{c} acted as a bare {c}");
        assert!(view.overlay.is_none(), "C-{c} opened an overlay");
        let mut view = Bench { focus: Focus::Agents, ..Default::default() };
        let flow = press(&mut view, ctrl(c), &around);
        assert!(matches!(flow, Flow::Continue), "C-{c} acted as a bare {c} on a rail");
    }
}

#[test]
fn a_key_on_usage_moves_its_cursor_instead_of_reaching_the_pane() {
    let mut d = desk(Bench { page: Page::Usage, focus: Focus::Stage, ..Default::default() });
    let out = go(&mut d, ch('j'), &staged());
    assert!(matches!(out.flow, Flow::Continue), "`j` on USAGE did {:?}", out.flow);
    assert_eq!(out.sent, None, "`j` on USAGE was typed into the pane behind it");
    let out = go(&mut d, ch('r'), &staged());
    assert!(matches!(out.flow, Flow::RefreshUsage), "`r` on USAGE did {:?}", out.flow);
    assert_eq!(out.sent, None, "`r` on USAGE reached the pane");
}

#[test]
fn a_key_on_booths_preview_reaches_the_agent() {
    let mut d = desk(Bench { page: Page::Booth, focus: Focus::Stage, ..Default::default() });
    let out = go(&mut d, ch('q'), &staged());
    assert!(
        matches!(out.flow, Flow::Continue),
        "`q` over BOOTH's preview did {:?}, not typing",
        out.flow
    );
    assert_eq!(out.sent, Some(PaneInput::Key(ch('q'))), "`q` never reached the agent");

    let view = &mut d.view;
    let back = run_view(ViewVerb::Focus(Focus::AllAgents), view);
    assert!(matches!(back, Flow::Continue));
    assert_eq!(view.focus, Focus::AllAgents, "alt-w must hand the keyboard back to the fleet");
    assert_eq!(view.page, Page::Booth, "and must not leave the page to do it");

    view.focus = Focus::Stage;
    run_view(ViewVerb::Focus(Focus::Agents), view);
    assert_eq!(view.focus, Focus::AllAgents, "a rail BOOTH does not draw is not somewhere to go");
}

#[test]
fn enter_on_booth_travels_where_enter_on_a_rail_stages() {
    let mut view = Bench {
        page: Page::Booth,
        focus: Focus::AllAgents,
        all_agents_sel: 3,
        ..Default::default()
    };
    assert!(matches!(
        press(&mut view, key(KeyCode::Enter), &around()),
        Flow::OpenFleetAgent(3)
    ));
    let mut view = Bench { focus: Focus::Agents, agent_sel: 3, ..Default::default() };
    assert!(matches!(press(&mut view, key(KeyCode::Enter), &around()), Flow::StageSelected));
}

#[test]
fn a_paste_reaches_the_pane_whole() {
    let mut d = desk(on_stage());
    let out = handle_input(
        Input::Paste("cargo test\nsecond line".into()),
        &mut d,
        &vec![],
        &vec![],
        &staged(),
        &nowhere(),
    );
    assert!(matches!(out.flow, Flow::Continue));
    assert_eq!(
        out.sent,
        Some(PaneInput::Paste("cargo test\nsecond line".into())),
        "the run must arrive whole, newline and all"
    );
}

fn ws_with_changes() -> Workspace {
    Workspace {
        id: SessionId(1),
        name: "proj".into(),
        cwd: "/tmp/proj".into(),
        agents: vec![],
        processes: vec![],
        stage: None,
        changes: Some(Changes {
            staged: vec!["s.rs".into()],
            unstaged: vec!["u.rs".into()],
            conflicted: vec!["c.rs".into()],
            recent_commits: vec![],
            ahead: 0,
            clean: true,
        }),
    }
}

#[test]
fn a_paste_into_a_prompt_is_flattened_not_dropped() {
    let mut d = desk(Bench { changes_sel: 5, ..Default::default() });
    handle_changes_key(ch('c'), &mut d.view, Some(&ws_with_changes()));
    let out = paste_text("fix\nthe thing\n".into(), &mut d, false);
    assert!(matches!(out.flow, Flow::Continue));
    let Some(Overlay::Prompt(p)) = &d.view.overlay else { panic!("the prompt was dismissed") };
    assert_eq!(p.text, "fix the thing");
}

#[test]
fn a_paste_on_booth_does_not_type_into_the_fleet() {
    let mut d = desk(Bench { page: Page::Booth, focus: Focus::AllAgents, ..Default::default() });
    let out = paste_text("rm -rf /\n".into(), &mut d, true);
    assert_eq!(out.sent, None, "a paste on BOOTH reached the previewed agent");
    assert!(d.view.flash.is_some(), "and it did so silently");
}

#[test]
fn a_paste_into_an_open_file_is_typed_there() {
    let mut d = desk(Bench { page: Page::Files, ..Default::default() });
    let mut open = Editor::new("a.rs".into());
    open.mode = EditMode::Edit;
    d.files.open = Some(open);
    let out = paste_text("two\nlines".into(), &mut d, true);
    assert_eq!(out.sent, None);
    let open = d.files.open.unwrap();
    assert_eq!(open.steps, vec![EditorStep::Insert("two\nlines".into())]);
}

#[test]
fn every_way_onto_booth_puts_the_keyboard_on_the_fleet() {
    let mut view = on_stage();
    press(&mut view, alt('0'), &around());
    assert_eq!(view.page, Page::Booth);
    assert_eq!(view.focus, Focus::AllAgents, "alt-0 left the keyboard on the stage");

    let mut d = desk(on_stage());
    let chip = Under { target: Target::Space(Page::Booth), ..nowhere() };
    handle_input(
        Input::Mouse(mouse(MouseKind::Down(MouseButton::Left))),
        &mut d,
        &vec![],
        &vec![],
        &around(),
        &chip,
    );
    assert_eq!((d.view.page, d.view.focus), (Page::Booth, Focus::AllAgents));

    press(&mut d.view, alt('o'), &around());
    assert_eq!(d.view.focus, Focus::Stage, "{:?} kept BOOTH's cursor", d.view.page);
}

#[test]
fn a_spawns_and_shift_a_asks() {
    let mut view = Bench { focus: Focus::Agents, ..Default::default() };
    assert!(matches!(press(&mut view, ch('a'), &around()), Flow::NewAgent));
    assert!(matches!(press(&mut view, ch('A'), &around()), Flow::PickAgent));
    press(&mut view, ctrl('b'), &around());
    assert!(matches!(press(&mut view, ch('a'), &around()), Flow::PickAgent));
}

#[test]
fn the_workbench_opens_on_the_stage() {
    let mut view = Bench::default();
    assert_eq!(view.focus, Focus::Stage, "a fresh client should be typing into the pane");
    for c in ['a', 'A', 'b', 'n', 'g', 'q'] {
        let flow = press(&mut view, ch(c), &around());
        assert!(matches!(flow, Flow::Continue), "`{c}` was read as a command, not typed");
    }
    let esc = KeyEvent { alt: true, ..key(KeyCode::Esc) };
    press(&mut view, esc, &around());
    assert_eq!(view.focus, Focus::Agents);
    assert!(matches!(press(&mut view, ch('a'), &around()), Flow::NewAgent));
}

#[test]
fn a_mac_option_character_reaches_the_binding_it_stands_for() {
    let mut view = on_stage();
    press_mac(&mut view, ch('ø'));
    assert_eq!(view.page, Page::Files, "Option-o never reached alt-o");

    let mut view = on_stage();
    press_mac(&mut view, ch('π'));
    assert_eq!(view.focus, Focus::Processes, "Option-p never reached alt-p");
    assert!(matches!(press_mac(&mut view, ch('∂')), Flow::Detach));
}

#[test]
fn without_the_mac_reading_an_option_character_is_left_alone() {
    let mut view = on_stage();
    press(&mut view, ch('ø'), &around());
    assert_eq!(view.page, Page::Agents, "`ø` moved the workbench with the reading off");
}

#[test]
fn an_unbound_option_character_is_still_a_character() {
    let table = around().options;
    for c in ['∫', 'ƒ', '∆', '¥', 'œ'] {
        assert_eq!(mac_option(ch(c), &table), ch(c), "`{c}` was taken away needlessly");
    }
    let mut view = on_stage();
    assert!(matches!(press_mac(&mut view, ch('∫')), Flow::Continue));
    assert_eq!(view.page, Page::Agents);
}

#[test]
fn a_real_alt_key_is_never_reinterpreted() {
    let mut view = on_stage();
    press_mac(&mut view, alt('o'));
    assert_eq!(view.page, Page::Files, "a genuine alt-o stopped working");
    let ctrl_o = ctrl('ø');
    assert_eq!(mac_option(ctrl_o, &around().options), ctrl_o, "ctrl was swallowed");
}

#[test]
fn the_prefix_and_the_alt_layer_agree_about_the_workbench() {
    for (c, page) in [('o', Page::Files), ('m', Page::Docs), ('c', Page::Docker)] {
        let mut by_alt = on_stage();
        press(&mut by_alt, alt(c), &around());

        let mut by_prefix = on_stage();
        press(&mut by_prefix, ctrl('b'), &around());
        press(&mut by_prefix, ch(c), &around());

        assert_eq!(by_alt.page, page, "alt-{c} did not open {page:?}");
        assert_eq!(by_prefix.page, by_alt.page, "C-b {c} and alt-{c} disagree");
    }

    let mut by_alt = on_stage();
    press(&mut by_alt, alt('p'), &around());
    let mut by_prefix = on_stage();
    press(&mut by_prefix, ctrl('b'), &around());
    press(&mut by_prefix, ch('P'), &around());
    assert_eq!(by_alt.focus, Focus::Processes);
    assert_eq!(by_prefix.focus, by_alt.focus, "C-b P and alt-p disagree");
}

#[test]
fn the_alt_layer_belongs_to_the_chrome_even_on_the_stage() {
    let mut view = on_stage();
    press(&mut view, alt('.'), &around());
    assert_eq!(view.page, Page::Files, "alt-. was swallowed by the pane");
    press(&mut view, alt(','), &around());
    assert_eq!(view.page, Page::Agents);

    press(&mut view, alt('p'), &around());
    assert_eq!(view.focus, Focus::Processes, "alt-p was swallowed by the pane");

    let mut view = on_stage();
    let enter = KeyEvent { alt: true, ..key(KeyCode::Enter) };
    assert!(matches!(press(&mut view, enter, &around()), Flow::PickAgent));
    assert!(matches!(press(&mut view, alt('v'), &around()), Flow::PasteImage));
    assert!(matches!(press(&mut view, alt('l'), &around()), Flow::ToggleLayout));

    let mut view = on_stage();
    let before = view.page;
    for c in ['b', 'f', 'y'] {
        assert!(matches!(press(&mut view, alt(c), &around()), Flow::Continue));
    }
    assert_eq!(view.page, before, "an unbound alt key changed the chrome");
    assert_eq!(view.focus, Focus::Stage, "an unbound alt key moved the cursor");
}

#[test]
fn f_asks_for_the_links_on_screen() {
    let mut view = Bench { focus: Focus::Agents, ..Default::default() };
    assert!(matches!(press(&mut view, ch('f'), &around()), Flow::PickLinks));
    let mut view = on_stage();
    press(&mut view, ctrl('b'), &around());
    assert!(matches!(press(&mut view, ch('f'), &around()), Flow::PickLinks));
}

#[test]
fn layout_mode_resizes_the_rail_the_cursor_is_in() {
    let mut view = Bench { layout: true, ..Default::default() };
    assert_eq!(
        press(&mut view, key(KeyCode::Right), &around()),
        Flow::Resize(GeomStep::Rail { left: true, delta: 2 }),
        "the left rail did not widen"
    );
    assert_eq!(
        press(&mut view, key(KeyCode::Left), &around()),
        Flow::Resize(GeomStep::Rail { left: true, delta: -2 }),
        "and back again"
    );
    view.focus = Focus::Changes;
    assert_eq!(
        press(&mut view, key(KeyCode::Right), &around()),
        Flow::Resize(GeomStep::Rail { left: false, delta: 2 }),
        "the right rail did not widen"
    );
    assert!(matches!(press(&mut view, key(KeyCode::Esc), &around()), Flow::ToggleLayout));
}

#[test]
fn booths_wheel_goes_to_the_column_under_the_pointer() {
    let wheel = |under: Under| {
        let mut d = desk(Bench { page: Page::Booth, focus: Focus::Stage, ..Default::default() });
        let ev = Input::Mouse(mouse(MouseKind::ScrollUp));
        let out = handle_input(ev, &mut d, &vec![], &vec![], &staged(), &under);
        matches!(out.sent, Some(PaneInput::ScrollUp { .. }))
    };
    for x in 0..40 {
        let over = Under { wheel_target: Target::Stage(x, 10), ..nowhere() };
        assert!(wheel(over), "column {x} of the preview did not scroll the pane");
    }
    let fleet = Under { spot: WheelSpot::Fleet, ..nowhere() };
    assert!(!wheel(fleet), "the fleet list gave its wheel to the pane");
    let compute = Under { spot: WheelSpot::Compute, ..nowhere() };
    assert!(!wheel(compute), "the compute column gave its wheel to the pane");
}

#[test]
fn the_wheel_over_a_pane_goes_to_the_pane() {
    let mut d = desk(on_stage());
    let over = Under { wheel_target: Target::Stage(30, 11), ..nowhere() };
    let ev = Input::Mouse(mouse(MouseKind::ScrollDown));
    let out = handle_input(ev, &mut d, &vec![], &vec![], &staged(), &over);
    assert_eq!(
        out.sent,
        Some(PaneInput::ScrollDown { x: 30, y: 11 }),
        "the notch arrived off-pane"
    );
    assert!(
        !matches!(out.flow, Flow::Scroll(_)),
        "the wheel both forwarded and scrolled: one gesture, two scrolls"
    );
}

#[test]
fn the_git_page_leaves_the_spaces_button_clickable() {
    let mut d = desk(Bench { page: Page::Git, ..Default::default() });
    let button = Under { bar: true, target: Target::Spaces, ..nowhere() };
    let ev = Input::Mouse(mouse(MouseKind::Down(MouseButton::Left)));
    let out = handle_input(ev, &mut d, &vec![], &vec![], &around(), &button);
    assert!(
        matches!(out.flow, Flow::PickSpace),
        "a click on the spaces button must reach the menu from GIT, got {:?}",
        out.flow
    );
}

#[test]
fn help_is_its_own_page_and_does_not_touch_the_files() {
    let mut d = desk(Bench { page: Page::Files, ..Default::default() });
    d.files = Files { dir: "src".into(), sel: 3, ..Default::default() };
    d.docs = Files { dir: "docs".into(), sel: 2, ..Default::default() };
    let out = go(&mut d, ch('?'), &around());
    assert!(matches!(out.flow, Flow::OpenHelp), "? did not open HELP: {:?}", out.flow);
    assert_eq!((d.docs.dir.as_str(), d.docs.sel), ("docs", 2), "? rebuilt the DOCS tree");
    assert_eq!((d.files.dir.as_str(), d.files.sel), ("src", 3), "? rebuilt the FILES tree");
    assert!(d.docs.open.is_none() && d.files.open.is_none(), "? opened a buffer");

    let mut d = desk(Bench { page: Page::Files, ..Default::default() });
    let footer =
        Under { target: Target::Footer(butai_workbench::click::FooterButton::Help), ..nowhere() };
    let ev = Input::Mouse(mouse(MouseKind::Down(MouseButton::Left)));
    let out = handle_input(ev, &mut d, &vec![], &vec![], &around(), &footer);
    assert!(matches!(out.flow, Flow::OpenHelp), "[help] did not open HELP: {:?}", out.flow);
}

#[test]
fn a_size_the_terminal_reports_is_the_size_kept() {
    let mut d = desk(Bench::default());
    let ev = Input::Resize { cols: 200, rows: 50 };
    let out = handle_input(ev, &mut d, &vec![], &vec![], &around(), &nowhere());
    assert_eq!((d.cols, d.rows), (200, 50));
    assert_eq!((out.flow, out.sent), (Flow::Continue, None));
}

#[test]
fn a_drag_begins_where_the_button_went_down() {
    let mut d = desk(Bench::default());
    let over = Under { target: Target::Stage(5, 6), ..nowhere() };
    let ev = Input::Mouse(mouse(MouseKind::Down(MouseButton::Left)));
    let out = handle_input(ev, &mut d, &vec![], &vec![], &staged(), &over);
    assert_eq!(out.drag, DragStep::Press { x: 60, y: 20 });
    let wanting = Around { wants_mouse: true, ..staged() };
    let ev = Input::Mouse(mouse(MouseKind::Down(MouseButton::Left)));
    let out = handle_input(ev, &mut d, &vec![], &vec![], &wanting, &over);
    assert_eq!(
        out.sent,
        Some(PaneInput::MouseDown { x: 5, y: 6, alt: false, right: false })
    );
    let mut shifted = mouse(MouseKind::Down(MouseButton::Left));
    shifted.shift = true;
    let out = handle_input(Input::Mouse(shifted), &mut d, &vec![], &vec![], &wanting, &over);
    assert_eq!(out.sent, None, "shift is how the terminal's own selection is asked for");
}

#[test]
fn a_click_on_the_fleet_marks_and_the_button_on_it_opens() {
    let mut d = desk(Bench { page: Page::Booth, ..Default::default() });
    let ev = || Input::Mouse(mouse(MouseKind::Down(MouseButton::Left)));
    let row = Under { fleet: Some(FleetHit::Row(2)), ..nowhere() };
    let out = handle_input(ev(), &mut d, &vec![], &vec![], &around(), &row);
    assert_eq!((out.flow, d.view.all_agents_sel), (Flow::Continue, 2));
    let open = Under { fleet: Some(FleetHit::Open(2)), ..nowhere() };
    let out = handle_input(ev(), &mut d, &vec![], &vec![], &around(), &open);
    assert_eq!(out.flow, Flow::OpenFleetAgent(2));
}

#[test]
fn the_alt_layer_moves_nothing_it_does_not_bind() {
    let mut view = Bench::default();
    let before = view.clone();
    assert_eq!(alt_binding(KeyCode::Char('b'), &mut view), None);
    assert_eq!(view, before);
}

#[test]
fn what_is_copied_starts_after_the_line_numbers() {
    assert_eq!(text_gutter(Page::Diff, 9, None, 0, None), 9);
    assert_eq!(text_gutter(Page::Files, 9, None, 0, Some(5)), 5);
    assert_eq!(text_gutter(Page::Agents, 9, None, 0, Some(5)), 0);
}
