use butai_workbench::bench::{
    alt_binding, alt_verb, go_tab, reset_sel, run_view, stage_new_pane, tab_target, ViewVerb,
};
use butai_workbench::click::{
    fleet_click, fleet_menu, menu_for, menu_target, page_bar_click, run_click, FleetHit, FooterButton, Target,
};
use butai_workbench::git::{Verb, VerbId};
use butai_workbench::menu::{menu_overlay, run_menu_row, MenuDeed, MenuText, MenuTexts};
use butai_workbench::overlay::confirm;
use butai_workbench::pages::{
    docker_command, handle_docker_key, handle_editor_key, handle_files_key, handle_fleet_key, handle_help_key,
    handle_rail_key, handle_usage_key, tree_rows, usage_loaded, Docker, DockerRow, EditMode, Editor, EditorStep, FileEntry, Files,
    Help, RailVerbs, Stack, Usage,
};
use butai_workbench::project::Workspace;
use butai_workbench::roster::{
    active_workspace, all_agent_rows, fleet_route, machine_rows, open_fleet_agent, rail_counts, selected_pane,
    tab_index, tabs_of, AgentRow, Daemon, Route, Tab,
};
use butai_workbench::types::{
    Bench, ConfirmKind, ConfirmOverlay, Flow, Focus, KeyCode, KeyEvent, ListKind, MenuTarget, Overlay, Page, PaneId,
    SessionId, Spawned, TabMove,
};

fn key(code: KeyCode) -> KeyEvent {
    KeyEvent::plain(code)
}

fn ch(c: char) -> KeyEvent {
    KeyEvent::plain(KeyCode::Char(c))
}

fn entry(name: &str, is_dir: bool) -> FileEntry {
    FileEntry { name: name.into(), path: name.into(), is_dir, changed: false }
}

#[test]
fn a_subdirectory_listing_offers_a_way_back_up() {
    let rows = tree_rows(Page::Files, vec![entry("a.rs", false)], "src");
    assert_eq!(rows[0].name, "..", "the first row must be the way back");
    assert!(rows[0].is_dir, "`..` has to be a directory or Enter would try to open it");
    assert_eq!(rows[0].path, "", "one level above `src` is the root");
}

#[test]
fn the_root_listing_has_no_way_out_of_the_workspace() {
    let rows = tree_rows(Page::Files, vec![entry("a.rs", false)], "");
    assert!(rows.iter().all(|e| e.name != ".."), "the root must not offer `..`");
}

#[test]
fn the_docs_page_does_not_filter_the_listing_a_second_time() {
    let entries = vec![entry("code.rs", false), entry("NOTES.md", false)];
    let rows = tree_rows(Page::Docs, entries, "sub");
    let names: Vec<&str> = rows.iter().map(|e| e.name.as_str()).collect();
    assert_eq!(names, vec!["..", "code.rs", "NOTES.md"], "the daemon already filtered");
    assert_eq!(rows[0].name, "..", "and the way back is still on top");
}

#[test]
fn a_tree_page_lists_the_project_and_nothing_of_butais_own() {
    for (page, dir) in
        [(Page::Docs, ""), (Page::Docs, "docs"), (Page::Files, ""), (Page::Files, "src")]
    {
        let given = vec![entry("README.md", false), entry("sub", true)];
        let rows = tree_rows(page, given.clone(), dir);
        for row in &rows {
            assert!(
                row.name == ".." || given.iter().any(|e| e.name == row.name),
                "`{}` is in the {page:?} rail without being in the listing",
                row.name
            );
            assert!(
                !row.path.contains("://"),
                "`{}` carries a sentinel path rather than a file's",
                row.name
            );
        }
    }
}

#[test]
fn a_docker_command_names_what_it_acts_on() {
    let stack = |project: &str, workdir: &str, names: &[&str]| Stack {
        label: "l".into(),
        project: project.into(),
        workdir: workdir.into(),
        containers: names.iter().map(|n| n.to_string()).collect(),
    };
    let s = stack("app", "/proj", &["app-web-1", "app-db-1"]);
    assert_eq!(docker_command(&s, Some("app-web-1"), "logs -f"), "docker logs -f 'app-web-1'");
    assert_eq!(
        docker_command(&s, None, "logs -f"),
        "cd '/proj' && docker compose --ansi always logs -f"
    );
    let s = stack("app", "", &["app-web-1"]);
    assert_eq!(docker_command(&s, None, "stop"), "docker compose -p 'app' stop");
    let s = stack("", "", &["lonely"]);
    assert_eq!(docker_command(&s, None, "logs -f"), "docker logs -f 'lonely'");
    let s = stack("", "", &["a'; rm -rf /"]);
    assert_eq!(docker_command(&s, None, "stop"), r"docker stop 'a'\''; rm -rf /'");
}

#[test]
fn a_page_that_covers_the_stage_has_no_pane_to_type_into() {
    for page in [Page::Files, Page::Docs, Page::Docker, Page::Git, Page::Settings, Page::Diff] {
        assert!(!page.draws_stage(), "{page:?} draws over the stage but claims to own a pane");
    }
    assert!(Page::Agents.draws_stage(), "WORK is the page the stage is on");
    assert!(Page::Booth.draws_stage(), "BOOTH's middle column is a pane you can type into");
}

#[test]
fn clicking_a_fleet_row_twice_does_not_leave_the_booth() {
    let mut view = Bench { page: Page::Booth, focus: Focus::AllAgents, ..Default::default() };
    assert!(matches!(fleet_click(FleetHit::Row(2), &mut view), Flow::Continue));
    assert_eq!(view.all_agents_sel, 2, "the click must still move the cursor and the preview");
    assert!(matches!(fleet_click(FleetHit::Row(2), &mut view), Flow::Continue));
    assert_eq!(view.page, Page::Booth, "a click on a row left BOOTH");
    assert!(matches!(fleet_click(FleetHit::Open(2), &mut view), Flow::OpenFleetAgent(2)));
}

fn two_machine_fleet() -> Vec<AgentRow> {
    vec![
        AgentRow {
            workspace: "proj".into(),
            workspace_id: SessionId(1),
            pane: PaneId(10),
            host: None,
            daemon: 0,
        },
        AgentRow {
            workspace: "infra".into(),
            workspace_id: SessionId(1),
            pane: PaneId(7),
            host: Some("gpu-box".into()),
            daemon: 1,
        },
    ]
}

#[test]
fn ending_a_fleet_session_names_the_machine_the_row_is_on() {
    let fleet = two_machine_fleet();
    let here = fleet_route(&fleet, 0).expect("row 0 is an agent");
    assert_eq!(here, Route { daemon: 0, workspace: SessionId(1), pane: PaneId(10) });
    let away = fleet_route(&fleet, 1).expect("row 1 is an agent");
    assert_eq!(
        away,
        Route { daemon: 1, workspace: SessionId(1), pane: PaneId(7) },
        "an agent on gpu-box must be ended on gpu-box"
    );
    assert_eq!(fleet_route(&fleet, 2), None);
}

#[test]
fn x_ends_the_fleet_row_and_only_while_the_fleet_has_the_keyboard() {
    let fleet = Bench { page: Page::Booth, focus: Focus::AllAgents, ..Default::default() };
    assert!(matches!(handle_fleet_key(ch('x'), &fleet, 3), Some(Flow::KillSelected)));
    assert!(handle_fleet_key(ch('x'), &fleet, 0).is_none());
    for c in ['r', 'a', 'A', 't', 'X'] {
        assert!(handle_fleet_key(ch(c), &fleet, 3).is_none(), "{c} is not a fleet verb");
    }
    let stage = Bench { page: Page::Booth, focus: Focus::Stage, ..Default::default() };
    assert!(
        handle_fleet_key(ch('x'), &stage, 3).is_none(),
        "x on the preview must reach the agent"
    );
}

fn text(title: &str, rows: &[&str]) -> MenuText {
    MenuText { title: title.into(), rows: rows.iter().map(|s| s.to_string()).collect() }
}

fn menus() -> MenuTexts {
    MenuTexts {
        process: text("PROCESS", &["Restart", "Close"]),
        agent: text("AGENT", &["Close agent", "Close others", "Close all agents"]),
        tab: text("WORKSPACE", &["Close workspace"]),
        remote_tab: text("WORKSPACE", &["Close workspace", "Disconnect host"]),
    }
}

#[test]
fn the_fleet_menu_names_the_row_and_its_machine() {
    let fleet = two_machine_fleet();
    let Some(Overlay::List(list)) = fleet_menu(&fleet, 1, &menus()) else { panic!("no menu") };
    assert_eq!(
        list.kind,
        ListKind::Menu(MenuTarget::Agent {
            daemon: 1,
            workspace: SessionId(1),
            pane: PaneId(7),
        })
    );
    assert_eq!(list.items, vec!["Close agent", "Close others", "Close all agents"]);
    assert!(fleet_menu(&fleet, 9, &menus()).is_none(), "a row that has gone has no menu");
}

fn ws_with_agents() -> Workspace {
    Workspace {
        id: SessionId(1),
        name: "proj".into(),
        cwd: "/tmp/proj".into(),
        agents: vec![PaneId(10), PaneId(11)],
        processes: vec![],
        changes: None,
        stage: None,
    }
}

#[test]
fn a_right_click_menu_names_the_row_it_was_opened_on() {
    let ws = ws_with_agents();
    let second = ws.agents[1];
    let open = |t| menu_for(t, Some(&ws), &vec![], &vec![], 0, &menus());
    let menu = open(Target::Rail(Focus::Agents, 1)).expect("an agent row has a menu");
    let Overlay::List(list) = &menu else { panic!("not a list") };
    let ListKind::Menu(MenuTarget::Agent { workspace, pane, .. }) = list.kind else {
        panic!("{:?}", list.kind)
    };
    assert_eq!(pane, second, "the menu named a different agent");
    assert_eq!(workspace, ws.id);
    assert_eq!(list.items, vec!["Close agent", "Close others", "Close all agents"]);

    assert!(open(Target::Rail(Focus::Agents, 9)).is_none());
    assert!(open(Target::Nothing).is_none());
    assert!(open(Target::Footer(FooterButton::Help)).is_none());
    assert!(open(Target::Rail(Focus::Changes, 0)).is_none());
}

#[test]
fn the_menu_key_points_where_the_cursor_is() {
    let ws = ws_with_agents();
    let view = Bench { focus: Focus::Agents, agent_sel: 1, ..Default::default() };
    assert_eq!(menu_target(&view), Target::Rail(Focus::Agents, 1));
    let menu = menu_for(menu_target(&view), Some(&ws), &vec![], &vec![], 0, &menus())
        .expect("an agent menu");
    let Overlay::List(list) = &menu else { panic!("not a list") };
    assert_eq!(
        list.kind,
        ListKind::Menu(MenuTarget::Agent { daemon: 0, workspace: ws.id, pane: ws.agents[1] })
    );
    assert!(list.items.iter().any(|i| i == "Close others"));
    assert!(list.items.iter().any(|i| i == "Close all agents"));

    let view = Bench { focus: Focus::Processes, proc_sel: 2, ..Default::default() };
    assert_eq!(menu_target(&view), Target::Rail(Focus::Processes, 2));

    for focus in [Focus::Changes, Focus::Stage, Focus::AllAgents, Focus::Refs, Focus::History] {
        let view = Bench { focus, tab: 3, ..Default::default() };
        assert_eq!(menu_target(&view), Target::Tab(3), "{focus:?}");
    }
}

fn verbs() -> RailVerbs {
    let verb = |key, id| Verb { key, id };
    let agents = vec![
        verb('a', VerbId::NewAgent),
        verb('A', VerbId::PickAgent),
        verb('x', VerbId::Kill),
    ];
    RailVerbs {
        agents: agents.clone(),
        agents_pinned: agents,
        procs: vec![
            verb('t', VerbId::NewShell),
            verb('r', VerbId::Restart),
            verb('x', VerbId::Kill),
        ],
    }
}

fn click(target: Target, view: &mut Bench, tabs: usize) -> Flow {
    run_click(target, view, tabs, None, &verbs())
}

#[test]
fn every_click_target_has_a_key() {
    let alt = |c: char| alt_verb(KeyCode::Char(c));
    for target in [
        Target::Tab(0),
        Target::CloseTab,
        Target::Space(Page::Files),
        Target::Spaces,
        Target::NewWorkspace,
        Target::Machines,
        Target::Footer(FooterButton::Layout),
        Target::Rail(Focus::Agents, 0),
        Target::AgentsVerb('a'),
        Target::ProcsVerb('t'),
        Target::ChangesVerb('s'),
        Target::System { gpu: false },
        Target::Stage(0, 0),
        Target::Nothing,
    ] {
        let mut view = Bench::default();
        match target {
            Target::Tab(_) => {
                assert_eq!(alt('1'), Some(ViewVerb::Tab(1)));
                assert_eq!(alt('>'), Some(ViewVerb::TabNext));
            }
            Target::CloseTab => assert_eq!(alt('x'), Some(ViewVerb::CloseWorkspace)),
            Target::Spaces => {
                assert_eq!(alt(' '), Some(ViewVerb::Spaces));
                assert!(matches!(click(target, &mut view, 1), Flow::PickSpace));
            }
            Target::Space(_) => {
                for page in view.spaces.clone() {
                    let printable = (0x20u8..=0x7e).map(char::from);
                    assert!(
                        page == Page::Agents
                            || printable.into_iter().any(|c| alt(c) == Some(ViewVerb::Space(page))),
                        "{page:?} has no key on the Alt layer"
                    );
                }
                assert!(alt_binding(KeyCode::Char('0'), &mut view).is_some());
                assert!(matches!(
                    alt_binding(KeyCode::Char('s'), &mut view),
                    Some(Flow::OpenSettings)
                ));
            }
            Target::NewWorkspace => assert_eq!(alt('n'), Some(ViewVerb::NewWorkspace)),
            Target::Machines => {
                assert_eq!(alt('h'), Some(ViewVerb::Host));
                assert!(matches!(click(target, &mut view, 1), Flow::PickHost));
            }
            Target::Footer(_) => {
                for (label, c) in [("[layout]", 'l'), ("[detach]", 'd'), ("[settings]", 's')] {
                    assert!(
                        alt_binding(KeyCode::Char(c), &mut view).is_some(),
                        "{label} has no key on the Alt layer"
                    );
                }
            }
            Target::Rail(..) => {
                assert!(alt('a').is_some() && alt('p').is_some() && alt('g').is_some());
            }
            Target::AgentsVerb(c) => {
                assert!(matches!(click(Target::AgentsVerb(c), &mut view, 1), Flow::NewAgent));
            }
            Target::ProcsVerb(c) => {
                assert!(matches!(
                    click(Target::ProcsVerb(c), &mut view, 1),
                    Flow::RunProcess { .. }
                ));
            }
            Target::ChangesVerb(c) => {
                assert!(matches!(click(Target::ChangesVerb(c), &mut view, 1), Flow::Continue));
            }
            Target::System { gpu } => {
                assert_eq!(
                    click(target, &mut view, 1),
                    run_view(ViewVerb::Monitor { gpu }, &mut Bench::default()),
                    "the gauges are clickable and must not be click-only"
                );
            }
            Target::Stage(..) => {
                assert_eq!(alt_verb(KeyCode::Esc), Some(ViewVerb::Focus(Focus::Agents)));
            }
            Target::Nothing => {}
        }
    }
}

#[test]
fn every_menu_row_is_within_its_targets_table() {
    for target in [
        MenuTarget::Agent { daemon: 0, workspace: SessionId(1), pane: PaneId(1) },
        MenuTarget::Process(PaneId(2)),
        MenuTarget::Tab(0),
        MenuTarget::RemoteTab(0),
    ] {
        let Overlay::List(list) = menu_overlay(target, &menus()) else { panic!("not a list") };
        assert!(!list.items.is_empty(), "{target:?} offers nothing");
        assert!(!list.title.is_empty());
        assert_eq!(list.kind, ListKind::Menu(target));
    }
}

fn daemon(tabs: &[(u64, &str)], workspaces: Vec<Workspace>) -> Daemon {
    Daemon {
        tabs: tabs.iter().map(|(id, n)| Tab { id: SessionId(*id), name: n.to_string() }).collect(),
        workspaces,
        connected: true,
    }
}

#[test]
fn a_menu_row_ends_what_it_says() {
    let ws = ws_with_agents();
    let daemons = vec![daemon(&[(1, "proj")], vec![ws.clone()])];
    let hosts = vec![None];
    let agent = MenuTarget::Agent { daemon: 0, workspace: SessionId(1), pane: PaneId(10) };
    let run = |row| run_menu_row(agent, row, &daemons, &hosts, 0, Some(&ws));
    let route = |pane| Route { daemon: 0, workspace: SessionId(1), pane: PaneId(pane) };
    assert_eq!(run(0), Ok(MenuDeed::Kill(vec![route(10)])));
    assert_eq!(run(1), Ok(MenuDeed::Kill(vec![route(11)])), "the others, and not this one");
    assert_eq!(run(2), Ok(MenuDeed::Kill(vec![route(10), route(11)])));
}

#[test]
fn clicking_a_row_selects_it_and_clicking_it_again_stages_it() {
    let mut view = Bench::default();
    assert!(matches!(click(Target::Rail(Focus::Agents, 2), &mut view, 1), Flow::Continue));
    assert_eq!((view.focus, view.agent_sel), (Focus::Agents, 2));
    assert!(matches!(click(Target::Rail(Focus::Agents, 3), &mut view, 1), Flow::Continue));
    assert_eq!(view.agent_sel, 3);
    assert!(matches!(click(Target::Rail(Focus::Agents, 3), &mut view, 1), Flow::StageSelected));
    view.focus = Focus::Changes;
    view.changes_sel = 1;
    assert!(matches!(
        click(Target::Rail(Focus::Changes, 1), &mut view, 1),
        Flow::OpenSelectedDiff
    ));
}

#[test]
fn every_left_rail_verb_does_what_the_word_under_the_list_says() {
    let ws = ws_with_agents();
    let table = verbs();
    let mut view = Bench::default();
    let run = |view: &mut Bench, t| run_click(t, view, 1, Some(&ws), &table);

    assert!(matches!(run(&mut view, Target::AgentsVerb('x')), Flow::KillSelected));
    assert_eq!(view.focus, Focus::Agents, "a verb acts on its own section's cursor");
    assert!(matches!(run(&mut view, Target::AgentsVerb('a')), Flow::NewAgent));
    assert!(matches!(run(&mut view, Target::AgentsVerb('A')), Flow::PickAgent));

    assert!(matches!(
        run(&mut view, Target::ProcsVerb('t')),
        Flow::RunProcess { then: Spawned::Stage, .. }
    ));
    assert_eq!(view.focus, Focus::Processes);
    assert!(matches!(run(&mut view, Target::ProcsVerb('x')), Flow::Continue));
    assert!(matches!(run(&mut view, Target::ProcsVerb('r')), Flow::Continue));

    let kill = |focus, rows| handle_rail_key(ch('x'), focus, rows, false, &table);
    assert!(matches!(kill(Focus::Agents, 2), Some(Flow::KillSelected)));
    assert!(matches!(kill(Focus::Processes, 1), Some(Flow::KillSelected)));
    assert!(kill(Focus::Agents, 0).is_none());
    assert!(handle_rail_key(ch('q'), Focus::Agents, 2, false, &table).is_none());
    assert!(handle_rail_key(ch('x'), Focus::Changes, 2, false, &table).is_none());
}

#[test]
fn restarting_a_container_does_not_throw_away_the_page_you_are_on() {
    let stacks = vec![Stack {
        label: "web".into(),
        project: "web".into(),
        workdir: "/tmp/proj".into(),
        containers: vec!["web-1".into()],
    }];
    let rows = vec![DockerRow::Stack(0)];
    let mut docker = Docker { sel: 0, logs: None };
    let mut view = Bench { page: Page::Docker, ..Default::default() };
    let press = |view: &mut Bench, docker: &mut Docker, k: KeyEvent| {
        handle_docker_key(k, view, docker, &stacks, &rows)
    };
    for verb in ['r', 'x'] {
        let flow = press(&mut view, &mut docker, ch(verb)).expect("the row offers it");
        assert!(
            matches!(flow, Flow::RunProcess { then: Spawned::Rail, .. }),
            "`{verb}` should leave the page alone, got {flow:?}"
        );
        assert_eq!(view.page, Page::Docker);
    }
    let flow = press(&mut view, &mut docker, ch('\0'));
    assert!(flow.is_none(), "a nul is not a docker verb");
    let enter = press(&mut view, &mut docker, key(KeyCode::Enter));
    assert!(matches!(enter, Some(Flow::RunProcess { then: Spawned::Follow(_), .. })));
    let flow = press(&mut view, &mut docker, ch('s')).expect("a one-container stack offers s");
    assert!(matches!(flow, Flow::RunProcess { then: Spawned::Stage, .. }), "{flow:?}");
}

#[test]
fn a_newly_spawned_pane_goes_on_the_stage() {
    let mut view = Bench { staged: Some(PaneId(10)), page: Page::Files, ..Default::default() };
    stage_new_pane(&mut view, PaneId(42));
    assert_eq!(view.staged, Some(PaneId(42)));
    assert_eq!(view.focus, Focus::Stage, "a new shell is one you can type in");
    assert_eq!(view.page, Page::Agents);
}

#[test]
fn leaving_booth_for_a_workspace_hands_the_keyboard_back() {
    let mut view = Bench { page: Page::Booth, focus: Focus::AllAgents, ..Default::default() };
    click(Target::Tab(1), &mut view, 3);
    assert_eq!((view.page, view.focus), (Page::Agents, Focus::Stage));
    let mut view = Bench { page: Page::Docker, focus: Focus::Agents, ..Default::default() };
    click(Target::Tab(1), &mut view, 3);
    assert_eq!(view.focus, Focus::Agents, "any other page is a view of the workspace");
}

#[test]
fn choosing_a_workspace_on_booth_leaves_it() {
    let mut view = Bench { page: Page::Booth, tab: 0, ..Default::default() };
    assert!(matches!(click(Target::Tab(1), &mut view, 3), Flow::Continue));
    assert_eq!(view.tab, 1, "the chip should still select its workspace");
    assert_eq!(view.page, Page::Agents, "BOOTH kept the screen after a workspace was chosen");

    for page in [Page::Files, Page::Docs, Page::Docker] {
        let mut view = Bench { page, tab: 0, ..Default::default() };
        click(Target::Tab(2), &mut view, 3);
        assert_eq!(view.tab, 2);
        assert_eq!(view.page, page, "{page:?} should survive a tab change");
    }

    for code in [KeyCode::Char('2'), KeyCode::Char('>'), KeyCode::Char('<')] {
        let mut view = Bench { page: Page::Booth, tab: 0, ..Default::default() };
        let Some(Flow::GoTab(m)) = alt_binding(code, &mut view) else {
            panic!("alt-{code:?} should ask for a tab");
        };
        go_tab(&mut view, m, 3);
        assert_eq!(view.tab, if code == KeyCode::Char('<') { 2 } else { 1 });
        assert_eq!(view.page, Page::Agents, "alt-{code:?} left the screen on BOOTH");
    }

    let mut view = Bench { page: Page::Booth, tab: 2, ..Default::default() };
    view.tab = view.tab.saturating_sub(1);
    reset_sel(&mut view);
    assert_eq!(view.page, Page::Booth, "a tab closing should not move the screen");
}

#[test]
fn a_tab_is_reached_by_its_number_or_by_walking() {
    assert_eq!(tab_target(TabMove::To(2), 0, 3), Some(1));
    assert_eq!(tab_target(TabMove::To(4), 0, 3), None);
    assert_eq!(tab_target(TabMove::To(0), 0, 3), None);
    assert_eq!(tab_target(TabMove::Next, 2, 3), Some(0));
    assert_eq!(tab_target(TabMove::Prev, 0, 3), Some(2));
    assert_eq!(tab_target(TabMove::Next, 0, 0), None);
}

#[test]
fn a_click_on_a_tab_that_has_gone_is_ignored() {
    let mut view = Bench { tab: 1, ..Default::default() };
    click(Target::Tab(5), &mut view, 2);
    assert_eq!(view.tab, 1, "the cursor followed a tab that does not exist");
    click(Target::Tab(0), &mut view, 2);
    assert_eq!(view.tab, 0);
}

#[test]
fn changing_tab_lets_go_of_the_pane_this_client_chose() {
    let mut view = Bench { staged: Some(PaneId(7)), ..Default::default() };
    reset_sel(&mut view);
    assert_eq!(view.staged, None);
}

#[test]
fn help_goes_back_where_it_was_opened_from() {
    let mut view = Bench { page: Page::Docker, ..Default::default() };
    let mut help = Help { topic: 0, scroll: 0, ret: Page::Agents };
    let footer = Target::Footer(FooterButton::Help);
    assert!(matches!(click(footer, &mut view, 1), Flow::OpenHelp));
    help.ret = view.page;
    view.page = Page::Help;

    assert!(matches!(click(footer, &mut view, 1), Flow::CloseHelp));
    let flow = handle_help_key(key(KeyCode::Esc), &mut help, 3, 10, 30);
    assert!(matches!(flow, Some(Flow::CloseHelp)), "esc did not leave HELP: {flow:?}");
    assert!(
        matches!(run_view(ViewVerb::Help, &mut view), Flow::CloseHelp),
        "`?` re-opened HELP"
    );
    assert_eq!(help.ret, Page::Docker, "and it goes back where it was opened from");
}

#[test]
fn the_help_page_scrolls_and_stops() {
    let mut help = Help { topic: 0, scroll: 0, ret: Page::Agents };
    let press = |help: &mut Help, code| handle_help_key(key(code), help, 3, 25, 30);

    assert!(press(&mut help, KeyCode::Char('k')).is_some());
    assert_eq!(help.scroll, 0, "scrolling up from the top went somewhere");
    press(&mut help, KeyCode::Char('j'));
    assert_eq!(help.scroll, 1);
    press(&mut help, KeyCode::End);
    let end = help.scroll;
    assert!(end > 1, "the keys topic is longer than a screen; End went nowhere");
    for _ in 0..20 {
        press(&mut help, KeyCode::PageDown);
    }
    assert_eq!(help.scroll, end, "paging ran past the end of the page");
    press(&mut help, KeyCode::Home);
    assert_eq!(help.scroll, 0);

    press(&mut help, KeyCode::Char('j'));
    let was = help.topic;
    press(&mut help, KeyCode::Tab);
    assert_ne!(help.topic, was, "tab stayed on the same topic");
    assert_eq!(help.scroll, 0, "a new topic opened halfway down");
    press(&mut help, KeyCode::BackTab);
    assert_eq!(help.topic, was, "shift-tab did not come back");
}

#[test]
fn the_footer_settings_button_enters_and_leaves() {
    let footer = Target::Footer(FooterButton::Settings);
    let mut view = Bench { page: Page::Docker, ..Default::default() };
    assert!(matches!(click(footer, &mut view, 1), Flow::OpenSettings));
    let ret = view.page;
    view.page = Page::Settings;
    assert!(matches!(click(footer, &mut view, 1), Flow::CloseSettings));
    assert_eq!(ret, Page::Docker, "and it goes back where it was opened from");
}

#[test]
fn the_layout_button_is_not_the_zen_key() {
    let mut view = Bench::default();
    assert!(matches!(
        click(Target::Footer(FooterButton::Layout), &mut view, 1),
        Flow::ToggleLayout
    ));
    assert!(!view.zen, "[layout] is not the zen key");
}

#[test]
fn a_click_on_the_bars_gets_out_of_settings() {
    let ret = Page::Docker;
    let table = verbs();
    let bar = |t, view: &mut Bench, tabs| page_bar_click(t, view, ret, tabs, None, &table);
    let settings = || Bench { page: Page::Settings, ..Default::default() };

    let mut view = settings();
    bar(Target::Space(Page::Booth), &mut view, 1);
    assert_eq!(view.page, Page::Booth, "clicking BOOTH left SETTINGS up");

    let mut view = settings();
    bar(Target::Space(Page::Files), &mut view, 1);
    assert_eq!(view.page, Page::Files);

    let mut view = settings();
    bar(Target::Space(ret), &mut view, 1);
    assert_eq!(view.page, ret, "the space you came from toggled instead");

    let mut view = Bench { tab: 0, ..settings() };
    bar(Target::Tab(1), &mut view, 2);
    assert_eq!(view.page, ret, "a workspace chip left SETTINGS up over it");
    assert_eq!(view.tab, 1, "and it still selects the workspace");

    let mut view = settings();
    let flow = bar(Target::Footer(FooterButton::Help), &mut view, 1);
    assert!(matches!(flow, Flow::OpenHelp), "help from SETTINGS went nowhere");

    let mut view = settings();
    let flow = bar(Target::Footer(FooterButton::Settings), &mut view, 1);
    assert!(matches!(flow, Flow::CloseSettings), "[settings] stopped closing");
}

#[test]
fn deleting_a_file_asks_first_and_never_a_directory() {
    let entries = vec![
        FileEntry { name: "src".into(), path: "src".into(), is_dir: true, changed: false },
        FileEntry { name: "a.rs".into(), path: "src/a.rs".into(), is_dir: false, changed: false },
    ];
    let mut view = Bench { page: Page::Files, ..Default::default() };
    let mut files = Files { entries: entries.clone(), sel: 0, ..Default::default() };
    let flow = handle_files_key(ch('x'), &mut view, &mut files);
    assert!(matches!(flow, Some(Flow::Continue)), "the key should be claimed either way");
    assert!(view.overlay.is_none(), "a directory opened a delete box");

    let mut files = Files { entries, sel: 1, ..Default::default() };
    handle_files_key(ch('x'), &mut view, &mut files);
    let Some(Overlay::Confirm(c)) = &view.overlay else {
        panic!("x on a file did not ask: {:?}", view.overlay)
    };
    assert!(!c.yes, "the box opened on the destructive answer");
    assert_eq!(c.kind, ConfirmKind::DeleteFile { path: "src/a.rs".into() });

    assert!(matches!(confirm(&mut view), Flow::Continue));
    assert!(view.overlay.is_none(), "the box stayed up");

    view.overlay = Some(Overlay::Confirm(ConfirmOverlay {
        title: "DELETE".into(),
        header: "delete src/a.rs".into(),
        yes: true,
        kind: ConfirmKind::DeleteFile { path: "src/a.rs".into() },
    }));
    match confirm(&mut view) {
        Flow::DeleteFile(path) => assert_eq!(path, "src/a.rs"),
        other => panic!("a confirmed delete produced {other:?}"),
    }
}

#[test]
fn unsaved_text_is_kept_until_it_is_asked_about_twice() {
    let mut open = Editor::new("a.rs".into());
    assert!(open.may_close(), "there is nothing to lose yet");
    open.mode = EditMode::Edit;
    handle_editor_key(ch('h'), &mut open);
    assert_eq!(open.steps, vec![EditorStep::Input(ch('h'))]);
    open.touch();
    assert!(!open.may_close(), "the first attempt only warns");
    assert!(open.may_close(), "the second means it");
}

#[test]
fn the_usage_cursor_stays_among_its_rows() {
    let mut usage = Usage { rows: 0, sel: 5, loaded: false };
    usage_loaded(&mut usage, 3);
    assert_eq!((usage.rows, usage.sel, usage.loaded), (3, 2, true));
    handle_usage_key(ch('j'), &mut usage);
    assert_eq!(usage.sel, 2);
    handle_usage_key(ch('k'), &mut usage);
    assert_eq!(usage.sel, 1);
}

fn two_machines() -> (Vec<Daemon>, Vec<Option<String>>) {
    let far = Workspace { agents: vec![PaneId(7)], name: "infra".into(), ..ws_with_agents() };
    (
        vec![
            daemon(&[(1, "proj"), (2, "notes")], vec![ws_with_agents()]),
            daemon(&[(1, "infra")], vec![far]),
        ],
        vec![None, Some("gpu-box".into())],
    )
}

#[test]
fn the_tab_bar_runs_through_every_machine() {
    let (daemons, hosts) = two_machines();
    assert_eq!(tab_index(&daemons, &hosts), vec![(0, 0), (0, 1), (1, 0)]);
    let names: Vec<String> = tabs_of(&daemons, &hosts).into_iter().map(|t| t.name).collect();
    assert_eq!(names, vec!["proj", "notes", "infra"]);
    let view = Bench { tab: 2, ..Default::default() };
    assert_eq!(active_workspace(&daemons, &hosts, &view).unwrap().name, "infra");
    let view = Bench { tab: 1, ..Default::default() };
    assert!(active_workspace(&daemons, &hosts, &view).is_none(), "it has not been described yet");
}

#[test]
fn the_fleet_is_every_agent_on_every_machine() {
    let (daemons, hosts) = two_machines();
    let all = all_agent_rows(&daemons, &hosts);
    let panes: Vec<(usize, u64)> = all.iter().map(|r| (r.daemon, r.pane.0)).collect();
    assert_eq!(panes, vec![(0, 10), (0, 11), (1, 7)]);
    let machines = machine_rows(&daemons, &hosts, &all);
    let counts: Vec<(String, usize)> =
        machines.into_iter().map(|m| (m.label, m.agents)).collect();
    assert_eq!(counts, vec![("local".to_string(), 2), ("gpu-box".to_string(), 1)]);
    let counts = rail_counts(&daemons, &hosts, &Bench::default());
    assert_eq!((counts.agents, counts.procs, counts.all_agents), (2, 0, 3));
}

#[test]
fn opening_a_fleet_agent_goes_to_its_machine() {
    let (daemons, hosts) = two_machines();
    let mut view = Bench { page: Page::Booth, focus: Focus::AllAgents, ..Default::default() };
    assert!(open_fleet_agent(&daemons, &hosts, &mut view, 2));
    assert_eq!((view.tab, view.page, view.staged), (2, Page::Agents, Some(PaneId(7))));
    assert!(!open_fleet_agent(&daemons, &hosts, &mut view, 9));
}

#[test]
fn an_agent_is_found_in_its_own_workspace_among_those_of_one_name() {
    let twin = |id: u64| Workspace {
        id: SessionId(id),
        name: "proj".into(),
        cwd: format!("/code/{id}/proj"),
        agents: vec![PaneId(id * 10)],
        processes: Vec::new(),
        changes: None,
        stage: None,
    };
    let tab = |id: u64| Tab { id: SessionId(id), name: "proj".into() };
    let machine =
        Daemon { tabs: vec![tab(1), tab(2)], workspaces: vec![twin(2), twin(1)], connected: true };
    let (daemons, hosts) = (vec![machine], vec![None]);
    let mut view = Bench { page: Page::Booth, ..Default::default() };
    assert!(open_fleet_agent(&daemons, &hosts, &mut view, 1));
    assert_eq!((view.tab, view.staged), (1, Some(PaneId(20))));
    assert!(open_fleet_agent(&daemons, &hosts, &mut view, 0));
    assert_eq!((view.tab, view.staged), (0, Some(PaneId(10))));
}

#[test]
fn the_cursor_names_a_pane_of_the_workspace_on_screen() {
    let (daemons, hosts) = two_machines();
    let view = Bench { focus: Focus::Agents, agent_sel: 1, ..Default::default() };
    assert_eq!(selected_pane(&daemons, &hosts, &view), Some(PaneId(11)));
    let view = Bench { focus: Focus::Agents, agent_sel: 5, ..Default::default() };
    assert_eq!(selected_pane(&daemons, &hosts, &view), None);
}
