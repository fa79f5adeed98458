use butai_workbench::bench::{
    find_space, gpu_monitor, run_bound, run_command, set_selection, stage_selected, Bound, ViewVerb,
};
use butai_workbench::git::{DiffMode, DiffView, Git};
use butai_workbench::input::Desk;
use butai_workbench::machines::{begin_dial, drop_forwards, host_place, DialMeta, Dialling, Forward};
use butai_workbench::menu::{remote_picker, space_picker, tag_picker, Remote};
use butai_workbench::named::Named;
use butai_workbench::overlay::{close_workspace_confirm, handle_search_key};
use butai_workbench::pages::{
    help_click, page_tree, scroll_by, Docker, EditMode, Editor, EditorStep, FileEntry, Files, Help, Usage,
};
use butai_workbench::path::{path_file_name, path_join, path_parent};
use butai_workbench::project::Workspace;
use butai_workbench::redial::{dial_at_start, meta_or_plain};
use butai_workbench::request::{
    apply_diff, close_workspace, delete_file, fetch_file, fetch_remote, fetch_search, kill_process,
    let_restarted_go, list_agents, make_folder, open_browser, open_workspace, read_list, read_usage,
    restart_process, run_process, save_file, BodyOf, Field, Method, Request,
};
use butai_workbench::roster::{
    active_daemon, active_ws_key, current_stage, selected_route, Daemon, RemoteDial, Route, Tab,
};
use butai_workbench::session::{
    agent_pinned, browse_into, change_shown, close_settings, close_stage_pane, commit_shown,
    confirm_pick, copy_sha, diff_applied, diff_shown, file_deleted, file_read, kill_selected,
    layout_saved, lines_copied, link_copied, new_agent, open_named, open_or_say, page_came_up,
    paste_image, reach_stage, say_error, say_lost, search_failed, set_scope, show_started, tree_read,
    workspace_came_up, workspace_closed,
};
use butai_workbench::settings::Settings;
use butai_workbench::text::{position, read_index, to_decimal};
use butai_workbench::types::{
    Bench, Command, ConfirmKind, DiffKind, Flow, Focus, GitScope, KeyCode, KeyEvent, ListKind, Overlay,
    Page, PaneId, PickTarget, SearchHit, SearchOverlay, SessionId, TabMove,
};

fn workspace(id: u64, name: &str) -> Workspace {
    Workspace {
        id: SessionId(id),
        name: name.into(),
        cwd: format!("/code/{name}"),
        agents: vec![PaneId(id * 10)],
        processes: vec![PaneId(id * 10 + 1), PaneId(id * 10 + 2)],
        changes: None,
        stage: None,
    }
}

fn machine(workspaces: Vec<Workspace>) -> Daemon {
    Daemon {
        tabs: workspaces.iter().map(|w| Tab { id: w.id, name: w.name.clone() }).collect(),
        workspaces,
        connected: true,
    }
}

fn two_machines() -> (Vec<Daemon>, Vec<Option<String>>) {
    let here = machine(vec![workspace(1, "one"), workspace(2, "two")]);
    let there = machine(vec![workspace(3, "three")]);
    (vec![here, there], vec![None, Some("gpu-box".into())])
}

fn desk(view: Bench) -> Desk {
    Desk {
        view,
        files: Files::default(),
        docs: Files::default(),
        diff: DiffView::default(),
        docker: Docker { sel: 0, logs: None },
        git: Git::default(),
        settings: Settings {
            group: 0,
            row: 0,
            open: None,
            saved_theme: "dark".into(),
            ret: Page::Files,
        },
        help: Help { topic: 0, scroll: 0, ret: Page::Agents },
        usage: Usage { rows: 0, sel: 0, loaded: false },
        cols: 120,
        rows: 40,
    }
}

fn editor(path: &str) -> Editor {
    Editor {
        path: path.into(),
        mode: EditMode::Read,
        unsaved: false,
        armed: false,
        notice: None,
        steps: Vec::new(),
    }
}

fn request(method: Method, route: &str) -> Request {
    Request { method, route: route.into(), body: BodyOf::Nothing }
}

fn post(route: &str, fields: &[(&str, Field)]) -> Request {
    let fields = fields.iter().map(|(n, f)| (n.to_string(), f.clone())).collect();
    Request { method: Method::Post, route: route.into(), body: BodyOf::Object(fields) }
}

fn text(s: &str) -> Field {
    Field::Text(s.into())
}

#[test]
fn a_file_goes_over_the_wire_by_its_encoded_path() {
    let ws = workspace(7, "p");
    assert_eq!(
        fetch_file(Some(&ws), "a b/c.rs"),
        Ok(request(Method::Get, "/v1/workspaces/7/file?path=a%20b/c.rs"))
    );
    assert_eq!(
        delete_file(Some(&ws), "a.rs"),
        Ok(request(Method::Delete, "/v1/workspaces/7/file?path=a.rs"))
    );
    assert_eq!(
        save_file(Some(&ws), "a.rs", "fn main() {}\n"),
        Ok(Request {
            method: Method::Post,
            route: "/v1/workspaces/7/upload?path=a.rs".into(),
            body: BodyOf::Bytes("fn main() {}\n".into()),
        })
    );
    assert_eq!(
        fetch_search(Some(&ws), "x&y"),
        Ok(request(Method::Get, "/v1/workspaces/7/search?q=x%26y"))
    );
    assert_eq!(fetch_file(None, "a.rs"), Err("no workspace open".to_string()));
    assert_eq!(save_file(None, "a.rs", ""), Err("no workspace open".to_string()));
    assert_eq!(delete_file(None, "a.rs"), Err("no workspace open".to_string()));
    assert_eq!(fetch_search(None, "x"), Err("no workspace open".to_string()));
}

#[test]
fn part_of_a_diff_is_applied_where_it_is_meant_to_be() {
    let ws = workspace(7, "p");
    assert_eq!(
        apply_diff(Some(&ws), "@@", "index", true),
        Ok(post(
            "/v1/workspaces/7/git/apply",
            &[("patch", text("@@")), ("target", text("index")), ("reverse", Field::Flag(true))]
        ))
    );
    assert_eq!(apply_diff(None, "@@", "index", true), Err("no workspace open".to_string()));
    assert_eq!(
        fetch_remote(Some(&ws), "origin"),
        Ok(post(
            "/v1/workspaces/7/git/fetch",
            &[("remote", text("origin")), ("prune", Field::Flag(true))]
        ))
    );
    assert_eq!(
        read_list(Some(&ws), "branches"),
        Ok(request(Method::Get, "/v1/workspaces/7/branches"))
    );
}

#[test]
fn a_process_is_run_restarted_and_killed_by_its_workspace() {
    let ws = workspace(7, "p");
    let start = run_process(Some(&ws), "web", "make run").unwrap();
    assert_eq!(start.list, request(Method::Get, "/v1/workspaces/7/processes"));
    assert_eq!(
        start.start,
        post("/v1/workspaces/7/processes", &[("name", text("web")), ("command", text("make run"))])
    );
    assert_eq!(run_process(None, "web", "x").unwrap_err(), "no workspace open");

    let (q, pane) = restart_process(Some(&ws), 1).unwrap();
    assert_eq!(q, post("/v1/workspaces/7/processes/72/restart", &[]));
    assert_eq!(pane, PaneId(72));
    assert_eq!(restart_process(Some(&ws), 2).unwrap_err(), "no process selected");
    assert_eq!(restart_process(None, 0).unwrap_err(), "no workspace open");

    let mut view = Bench { staged: Some(PaneId(72)), ..Bench::default() };
    let_restarted_go(&mut view, PaneId(71));
    assert_eq!(view.staged, Some(PaneId(72)));
    let_restarted_go(&mut view, PaneId(72));
    assert_eq!(view.staged, None);

    let at = Route { daemon: 0, workspace: SessionId(7), pane: PaneId(71) };
    assert_eq!(kill_process(Some(&ws), 0, PaneId(71)), Ok(at));
    assert_eq!(kill_process(None, 0, PaneId(71)), Err("no workspace open".to_string()));
}

#[test]
fn what_is_asked_of_a_machine_has_its_own_routes() {
    assert_eq!(list_agents(), request(Method::Get, "/v1/agents"));
    assert_eq!(read_usage(), request(Method::Get, "/v1/usage"));
    assert_eq!(open_browser(""), request(Method::Get, "/v1/fs"));
    assert_eq!(open_browser("/a b"), request(Method::Get, "/v1/fs?path=/a%20b"));
    assert_eq!(
        make_folder("/a", "new"),
        post("/v1/fs/mkdir", &[("path", text("/a")), ("name", text("new"))])
    );
    assert_eq!(open_workspace("/a"), post("/v1/workspaces", &[("path", text("/a"))]));
    assert_eq!(close_workspace(SessionId(9)), request(Method::Delete, "/v1/workspaces/9"));
}

#[test]
fn the_tab_says_which_machine_and_workspace_are_meant() {
    let (daemons, hosts) = two_machines();
    let mut view = Bench { tab: 2, ..Bench::default() };
    assert_eq!(active_daemon(&daemons, &hosts, &view), 1);
    assert_eq!(active_ws_key(&daemons, &hosts, &view), Some((1, SessionId(3))));
    view.tab = 3;
    assert_eq!(active_daemon(&daemons, &hosts, &view), 0);
    assert_eq!(active_ws_key(&daemons, &hosts, &view), None);

    open_named(&daemons, &hosts, &mut view, "two");
    assert_eq!(view.tab, 1);
    open_named(&daemons, &hosts, &mut view, "nowhere");
    assert_eq!(view.tab, 1);
}

#[test]
fn the_stage_follows_the_page() {
    let (daemons, hosts) = two_machines();
    let quiet = Docker { sel: 0, logs: None };
    let mut view = Bench { tab: 1, staged: Some(PaneId(21)), ..Bench::default() };
    assert_eq!(current_stage(&daemons, &hosts, &view, &quiet), Some((0, PaneId(21))));

    view.page = Page::Docker;
    assert_eq!(current_stage(&daemons, &hosts, &view, &quiet), None);
    let following = Docker { sel: 0, logs: Some(PaneId(5)) };
    assert_eq!(current_stage(&daemons, &hosts, &view, &following), Some((0, PaneId(5))));

    view.page = Page::Booth;
    view.all_agents_sel = 2;
    assert_eq!(current_stage(&daemons, &hosts, &view, &quiet), Some((1, PaneId(30))));
    view.all_agents_sel = 3;
    assert_eq!(current_stage(&daemons, &hosts, &view, &quiet), None);

    view.page = Page::Agents;
    view.tab = 9;
    assert_eq!(current_stage(&daemons, &hosts, &view, &quiet), None);
}

#[test]
fn what_is_selected_is_on_one_machine() {
    let (daemons, hosts) = two_machines();
    let mut view = Bench { focus: Focus::Processes, proc_sel: 1, tab: 1, ..Bench::default() };
    assert_eq!(
        selected_route(&daemons, &hosts, &view),
        Some(Route { daemon: 0, workspace: SessionId(2), pane: PaneId(22) })
    );
    view.focus = Focus::AllAgents;
    view.all_agents_sel = 2;
    assert_eq!(
        selected_route(&daemons, &hosts, &view),
        Some(Route { daemon: 1, workspace: SessionId(3), pane: PaneId(30) })
    );
    view.focus = Focus::Changes;
    assert_eq!(selected_route(&daemons, &hosts, &view), None);
    assert_eq!(kill_selected(&mut view, None), None);
    assert_eq!(view.flash.as_deref(), Some("nothing selected"));
}

#[test]
fn browsing_asks_which_machine_where_there_are_several() {
    let (daemons, hosts) = two_machines();
    let mut view = Bench::default();
    assert_eq!(browse_into(&daemons, &hosts, &mut view, ""), None);
    let Some(Overlay::List(l)) = &view.overlay else { panic!("no machines to pick from") };
    assert_eq!(l.kind, ListKind::Machine);

    let mut view = Bench { browse_daemon: Some(1), ..Bench::default() };
    assert_eq!(
        browse_into(&daemons, &hosts, &mut view, ""),
        Some(request(Method::Get, "/v1/fs"))
    );
    let mut view = Bench::default();
    assert_eq!(
        browse_into(&daemons, &hosts, &mut view, "/a"),
        Some(request(Method::Get, "/v1/fs?path=/a"))
    );
    assert_eq!(view.overlay, None);
}

#[test]
fn a_page_is_read_when_it_first_comes_up() {
    let mut before = Page::Agents;
    let mut d = desk(Bench { page: Page::Usage, ..Bench::default() });
    let c = page_came_up(&mut before, &mut d, false);
    assert!(c.read_usage && !c.read_git && !c.read_settings && !c.theme_back);
    assert!(d.usage.loaded);
    assert_eq!(before, Page::Usage);
    assert!(!page_came_up(&mut before, &mut d, false).read_usage);

    d.view.page = Page::Settings;
    assert!(page_came_up(&mut before, &mut d, false).read_settings);
    d.settings.open = Some(1);
    d.view.page = Page::Git;
    let c = page_came_up(&mut before, &mut d, true);
    assert!(c.theme_back && c.read_git);
    assert!(d.settings.open.is_none());
}

#[test]
fn another_workspace_starts_with_clean_pages() {
    let mut before = Some((0, SessionId(1)));
    let mut d = desk(Bench::default());
    d.files.dir = "src".into();
    d.docker = Docker { sel: 3, logs: Some(PaneId(5)) };
    assert_eq!(workspace_came_up(&mut before, Some((0, SessionId(1))), &mut d), None);
    assert_eq!(d.files.dir, "src");
    let again = workspace_came_up(&mut before, Some((1, SessionId(1))), &mut d);
    assert_eq!(again, Some(Flow::Continue));
    assert_eq!(before, Some((1, SessionId(1))));
    assert_eq!(d.files.dir, "");
    assert_eq!(d.docker, Docker { sel: 0, logs: Some(PaneId(5)) });
    d.view.page = Page::Docs;
    let again = workspace_came_up(&mut before, None, &mut d);
    assert_eq!(again, Some(Flow::ListDir(String::new())));
    d.view.page = Page::Git;
    let again = workspace_came_up(&mut before, Some((0, SessionId(2))), &mut d);
    assert_eq!(again, Some(Flow::GitRefresh));
}

#[test]
fn a_file_opens_a_few_lines_above_the_one_that_was_named() {
    let mut view = Bench::default();
    let mut tree = Files::default();
    file_read(&mut tree, &mut view, Some(10), Ok(editor("a.rs")));
    let open = tree.open.as_ref().unwrap();
    assert_eq!(open.path, "a.rs");
    assert_eq!(open.steps, vec![EditorStep::ScrollTo(6)]);
    file_read(&mut tree, &mut view, Some(2), Ok(editor("b.rs")));
    assert_eq!(tree.open.as_ref().unwrap().steps, vec![EditorStep::ScrollTo(0)]);
    file_read(&mut tree, &mut view, None, Err("gone".into()));
    assert_eq!(view.flash.as_deref(), Some("file: gone"));
    assert_eq!(tree.open.as_ref().unwrap().path, "b.rs");

    tree.dir = "src".into();
    assert_eq!(file_deleted(&mut tree, &mut view, "a.rs", Ok(())), Some("src".to_string()));
    assert!(tree.open.is_some());
    assert_eq!(file_deleted(&mut tree, &mut view, "b.rs", Ok(())), Some("src".to_string()));
    assert!(tree.open.is_none());
    assert_eq!(file_deleted(&mut tree, &mut view, "b.rs", Err("busy".into())), None);
    assert_eq!(view.flash.as_deref(), Some("delete: busy"));
}

#[test]
fn a_folder_that_cannot_be_read_leaves_the_tree() {
    let mut view = Bench { page: Page::Files, ..Bench::default() };
    let mut tree = Files::default();
    let row = FileEntry { name: "a.rs".into(), path: "src/a.rs".into(), is_dir: false, changed: false };
    tree_read(&mut tree, &mut view, "src".into(), Ok(vec![row]));
    assert_eq!(tree.dir, "src");
    assert_eq!(tree.entries.last().unwrap().path, "src/a.rs");
    let kept = tree.clone();
    tree_read(&mut tree, &mut view, "lib".into(), Err("gone".into()));
    assert_eq!(tree, kept);
    assert_eq!(view.flash.as_deref(), Some("tree: gone"));
}

#[test]
fn a_diff_that_is_read_again_keeps_its_place() {
    let kind = DiffKind::Unstaged { path: Some("a.rs".into()) };
    let mut view = Bench::default();
    let mut diff = DiffView { mode: DiffMode::Lines, ..DiffView::default() };
    diff_shown(&mut diff, &mut view, kind.clone(), true, Ok(()));
    assert_eq!((diff.mode, view.page), (DiffMode::Lines, Page::Diff));
    diff_shown(&mut diff, &mut view, kind.clone(), false, Ok(()));
    assert_eq!((diff.mode, diff.kind.clone()), (DiffMode::Read, Some(kind.clone())));
    diff_shown(&mut diff, &mut view, kind.clone(), false, Err("gone".into()));
    assert_eq!(view.flash.as_deref(), Some("diff: gone"));

    diff.mode = DiffMode::Lines;
    assert_eq!(diff_applied(&mut diff), Some(kind.clone()));
    assert_eq!(diff.mode, DiffMode::Read);

    let mut git = Git::default();
    let mut view = Bench { page: Page::Git, focus: Focus::History, ..Bench::default() };
    change_shown(&mut git, &mut view, kind.clone(), true, Ok(()));
    assert_eq!((git.body.as_ref().unwrap().kind.clone(), view.focus), (Some(kind), Focus::History));
    let shown = DiffKind::Commit { id: "abc".into(), summary: "x".into() };
    commit_shown(&mut git, &mut view, shown.clone(), Ok(()));
    assert_eq!(git.body.as_ref().unwrap().kind, Some(shown.clone()));
    change_shown(&mut git, &mut view, shown.clone(), false, Ok(()));
    assert_eq!(view.focus, Focus::Stage);
    commit_shown(&mut git, &mut view, shown, Err("gone".into()));
    assert_eq!(view.flash.as_deref(), Some("show: gone"));
}

#[test]
fn a_commit_is_known_by_seven_bytes_of_its_id() {
    let mut view = Bench::default();
    let mut git = Git::default();
    assert_eq!(copy_sha(&git, &mut view), None);
    assert_eq!(view.flash.as_deref(), Some("no commit selected"));
    for (id, short) in [("0123456789ab", "0123456"), ("0123", "0123"), ("äöü0123", "äöü0")] {
        let c = butai_workbench::project::Commit { id: id.into(), summary: "x".into() };
        git.log = vec![c];
        assert_eq!(copy_sha(&git, &mut view).as_deref(), Some(id));
        assert_eq!(view.flash, Some(format!("copied {short}")));
    }
}

#[test]
fn the_history_is_shown_from_its_top_in_another_scope() {
    let mut git = Git { hist_sel: 4, ..Git::default() };
    set_scope(&mut git, GitScope::Ref("main".into()));
    assert_eq!((git.hist_sel, git.scope), (0, GitScope::Ref("main".into())));
}

#[test]
fn what_goes_wrong_is_said_of_what_was_wanted() {
    let mut view = Bench::default();
    say_error(&mut view, "fetch: ", Ok(()));
    assert_eq!(view.flash, None);
    say_error(&mut view, "fetch: ", Err("offline".into()));
    assert_eq!(view.flash.as_deref(), Some("fetch: offline"));
    open_or_say(&mut view, "agents: ", Err("none".into()));
    assert_eq!((view.flash.as_deref(), view.overlay.is_none()), (Some("agents: none"), true));
    say_lost(&mut view, "broken pipe");
    assert_eq!(view.flash.as_deref(), Some("daemon: broken pipe"));
    layout_saved(&mut view, Ok(()));
    assert_eq!(view.flash.as_deref(), Some("layout saved"));
    layout_saved(&mut view, Err("read-only".into()));
    assert_eq!(view.flash.as_deref(), Some("rail geometry not saved: read-only"));
    link_copied(&mut view, "http://a");
    assert_eq!(view.flash.as_deref(), Some("copied http://a"));
    lines_copied(&mut view, 1);
    assert_eq!(view.flash.as_deref(), Some("copied 1 line"));
    lines_copied(&mut view, 12);
    assert_eq!(view.flash.as_deref(), Some("copied 12 lines"));
}

#[test]
fn the_stage_is_needed_for_what_goes_to_it() {
    let mut view = Bench::default();
    assert!(reach_stage(&mut view, true));
    assert_eq!(view.flash, None);
    assert!(!reach_stage(&mut view, false));
    assert_eq!(view.flash.as_deref(), Some("nothing on the stage"));
    assert!(paste_image(&mut view, Ok(()), true));
    assert!(!paste_image(&mut view, Err("no picture".into()), false));
    assert_eq!(view.flash.as_deref(), Some("no picture"));
    assert!(!paste_image(&mut view, Ok(()), false));
    assert_eq!(view.flash.as_deref(), Some("nothing on the stage"));
    assert_eq!(close_stage_pane(&mut view, Some(PaneId(3))), Some(PaneId(3)));
    assert_eq!(close_stage_pane(&mut view, None), None);
}

#[test]
fn an_agent_that_was_started_is_shown() {
    let mut view = Bench { page: Page::Git, focus: Focus::Refs, ..Bench::default() };
    show_started(&mut view, Err("no".into()));
    assert_eq!((view.page, view.flash.as_deref()), (Page::Git, Some("no")));
    show_started(&mut view, Ok(PaneId(8)));
    assert_eq!(
        (view.staged, view.page, view.focus),
        (Some(PaneId(8)), Page::Agents, Focus::Stage)
    );
    assert_eq!(new_agent(&view), None);
    agent_pinned(&mut view, Ok(Some("goose".into())));
    assert_eq!(view.flash.as_deref(), Some("goose is pinned — A still picks"));
    assert_eq!(new_agent(&view).as_deref(), Some("goose"));
    agent_pinned(&mut view, Err("no".into()));
    assert_eq!(new_agent(&view).as_deref(), Some("goose"));
    agent_pinned(&mut view, Ok(None));
    assert_eq!(view.flash.as_deref(), Some("unpinned — a asks again"));
    assert_eq!(new_agent(&view), None);
}

#[test]
fn a_closed_workspace_leaves_the_tab_before_it() {
    let mut view = Bench { tab: 2, agent_sel: 4, ..Bench::default() };
    workspace_closed(&mut view, Err("busy".into()));
    assert_eq!((view.tab, view.agent_sel), (1, 0));
    assert_eq!(view.flash.as_deref(), Some("close: busy"));
    view.tab = 0;
    workspace_closed(&mut view, Ok(()));
    assert_eq!(view.tab, 0);
}

#[test]
fn a_question_names_what_it_is_about() {
    let mut view = Bench::default();
    confirm_pick(PickTarget::TagDelete, "DELETE TAG", "v1".into(), &mut view);
    let Some(Overlay::Confirm(c)) = &view.overlay else { panic!("no question") };
    assert_eq!((c.title.as_str(), c.header.as_str(), c.yes), ("DELETE TAG", "v1", false));
    let kind = ConfirmKind::Pick {
        target: PickTarget::TagDelete,
        value: "v1".into(),
        label: "v1".into(),
    };
    assert_eq!(c.kind, kind);
    let Overlay::Confirm(c) = close_workspace_confirm(SessionId(4), &"proj".to_string()) else {
        panic!("no question")
    };
    assert_eq!(c.title, "CLOSE WORKSPACE");
    assert_eq!(c.header, "close proj and kill what is running in it");
    assert!(!c.yes);
}

#[test]
fn the_settings_are_left_for_where_they_were_opened_from() {
    let d = desk(Bench::default());
    let mut view = Bench { page: Page::Settings, ..Bench::default() };
    close_settings(&d.settings, &mut view);
    assert_eq!(view.page, Page::Files);
}

#[test]
fn a_search_opens_what_it_found() {
    let hit = |p: &str, line| SearchHit { path: p.into(), line, preview: String::new() };
    let found = |sel| {
        Overlay::Search(SearchOverlay {
            query: "x".into(),
            cursor: 1,
            hits: vec![hit("a.rs", Some(3)), hit("b.rs", None)],
            sel,
            searching: true,
        })
    };
    let mut view = Bench { overlay: Some(found(0)), ..Bench::default() };
    assert_eq!(handle_search_key(KeyEvent::plain(KeyCode::Down), &mut view), Flow::Continue);
    assert_eq!(view.overlay, Some(found(1)));
    assert_eq!(
        handle_search_key(KeyEvent::plain(KeyCode::Enter), &mut view),
        Flow::OpenFileAt { path: "b.rs".into(), line: None }
    );
    assert_eq!((view.page, view.overlay), (Page::Files, None));

    let mut view = Bench { overlay: Some(found(0)), ..Bench::default() };
    search_failed(&mut view, "gone");
    let Some(Overlay::Search(f)) = &view.overlay else { panic!("the search closed") };
    assert!(!f.searching);
    assert_eq!(view.flash.as_deref(), Some("search: gone"));
    handle_search_key(KeyEvent::plain(KeyCode::Esc), &mut view);
    assert_eq!(view.overlay, None);
}

#[test]
fn a_command_line_runs_what_it_names_or_says_why_not() {
    let mut view = Bench::default();
    assert_eq!(run_command(Ok(Bound::Detach), &mut view), Flow::Detach);
    assert_eq!(run_command(Err("no such command".into()), &mut view), Flow::Continue);
    assert_eq!(view.flash.as_deref(), Some("no such command"));
    assert_eq!(
        run_bound(Bound::KillServer { clear: true }, &mut view),
        Flow::Control(Command::KillServerClear)
    );
    assert_eq!(run_bound(Bound::View(ViewVerb::Tab(2)), &mut view), Flow::GoTab(TabMove::To(2)));
    assert_eq!(run_bound(Bound::Scroll(-1), &mut view), Flow::Scroll(-1));
    let Flow::RunProcess { command, .. } =
        run_bound(Bound::View(ViewVerb::Monitor { gpu: true }), &mut view)
    else {
        panic!("nothing is run")
    };
    assert_eq!(command, gpu_monitor());
    assert!(command.starts_with("if command -v nvtop >/dev/null 2>&1; then exec nvtop; elif "));
}

#[test]
fn enter_on_a_row_depends_on_its_list() {
    assert_eq!(stage_selected(Focus::AllAgents, Page::Booth, 3), Flow::OpenFleetAgent(3));
    assert_eq!(stage_selected(Focus::AllAgents, Page::Agents, 3), Flow::StageSelected);
    assert_eq!(stage_selected(Focus::Changes, Page::Agents, 3), Flow::OpenSelectedDiff);
    let mut view = Bench::default();
    set_selection(&mut view, Focus::Processes, 5);
    assert_eq!((view.proc_sel, view.agent_sel), (5, 0));
    assert_eq!(find_space(&view.spaces, Page::Git), 4);
    assert_eq!(find_space(&view.spaces, Page::Help), 0);
}

#[test]
fn a_list_to_pick_from_is_not_empty() {
    let tags = vec!["v1".to_string(), "v2".to_string()];
    let Ok(Overlay::List(l)) = tag_picker(PickTarget::TagDelete, "DELETE TAG", &tags) else {
        panic!("no list")
    };
    assert_eq!((l.items, l.sel), (tags, 0));
    assert!(tag_picker(PickTarget::TagDelete, "DELETE TAG", &Vec::new()).is_err());
    let remotes = vec![Remote { name: "origin".into(), url: "git@host:x".into() }];
    let Ok(Overlay::List(l)) = remote_picker(PickTarget::RemoteRemove, "REMOVE", &remotes) else {
        panic!("no list")
    };
    assert!(l.items[0].contains("origin") && l.items[0].contains("git@host:x"), "{:?}", l.items);
    assert_eq!(l.values, Some(vec!["origin".to_string()]));
    let view = Bench { page: Page::Docs, ..Bench::default() };
    let Overlay::List(l) = space_picker(&view, vec!["a".into(), "b".into(), "c".into()]) else {
        panic!("no list")
    };
    assert_eq!((l.title.as_str(), l.sel), ("VIEWS", 2));
}

#[test]
fn the_machines_of_the_configuration_are_dialled_once() {
    let dial = |target: &str| RemoteDial {
        target: target.into(),
        label: format!("my {target}"),
        args: vec!["-p".into(), "22".into()],
        socket_path: None,
    };
    let mut dialling = Dialling::new();
    let mut dial_meta: Named<DialMeta> = Named::new();
    let hosts = vec![None, Some("here".to_string())];
    let remotes = vec![dial("a"), dial("here"), dial("a"), dial("b")];
    let out = dial_at_start(&remotes, &hosts, &mut dialling, &mut dial_meta);
    assert_eq!(out, vec!["a", "b"]);
    let a = dial_meta.get("a").unwrap();
    assert_eq!((a.label.as_str(), a.remember, a.reconnect), ("my a", false, false));
    assert_eq!(a.args, vec!["-p", "22"]);

    let plain = meta_or_plain("c", None);
    assert_eq!((plain.label.as_str(), plain.args.len(), plain.socket_path), ("c", 0, None));
    let known = meta_or_plain("a", dial_meta.remove("a"));
    assert_eq!(known.label, "my a");

    begin_dial("d", known, &mut dialling, &mut dial_meta);
    assert_eq!(dial_meta.get("d").unwrap().label, "my a");
    assert_eq!(host_place(&hosts, "here"), Some(1));
    assert_eq!(host_place(&hosts, "there"), None);
    let mut forwards = vec![
        Forward { socket: "/s/1".into(), alive: true },
        Forward { socket: "/s/2".into(), alive: true },
    ];
    drop_forwards(&mut forwards, "/s/1");
    assert_eq!(forwards, vec![Forward { socket: "/s/2".into(), alive: true }]);
}

#[test]
fn a_path_is_taken_apart_and_put_together() {
    assert_eq!(path_parent("/a/b").as_deref(), Some("/a"));
    assert_eq!(path_parent("/"), None);
    assert_eq!(path_file_name("/a/b/").as_deref(), Some("b"));
    assert_eq!(path_file_name("/"), None);
    assert_eq!(path_join("/a", "b"), "/a/b");
    assert_eq!(path_join("/a/", "b"), "/a/b");
    assert_eq!(path_join("/a", "/b"), "/b");
}

#[test]
fn the_docs_have_a_tree_of_their_own() {
    let (mut files, mut docs) = (Files::default(), Files::default());
    page_tree(Page::Docs, &mut files, &mut docs).sel = 3;
    page_tree(Page::Files, &mut files, &mut docs).sel = 5;
    assert_eq!((files.sel, docs.sel), (5, 3));
}

#[test]
fn a_help_topic_is_read_from_its_top() {
    let mut help = Help { topic: 0, scroll: 9, ret: Page::Agents };
    assert_eq!(help_click(&mut help, Some(3)), Some(Flow::Continue));
    assert_eq!((help.topic, help.scroll), (3, 0));
    assert_eq!(scroll_by(5, -9, 20), 0);
    assert_eq!(scroll_by(5, 90, 20), 20);
}

#[test]
fn numbers_are_written_and_read_in_decimal() {
    assert_eq!(to_decimal(0), "0");
    assert_eq!(to_decimal(u128::MAX), u128::MAX.to_string());
    assert_eq!(read_index("12"), Some(12));
    assert_eq!(read_index("+3"), Some(3));
    assert_eq!(read_index(""), None);
    assert_eq!(read_index("1x"), None);
    assert_eq!(read_index("99999999999999999999999"), None);
    let names = vec!["a".to_string(), "b".to_string()];
    assert_eq!(position(&names, "b"), Some(1));
    assert_eq!(position(&names, "c"), None);
}
