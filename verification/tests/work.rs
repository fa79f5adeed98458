use butai_workbench::answer::{
    answered, apply_selected, follow_theme, run_menu_step, save_open, Answer, Selected,
};
use butai_workbench::chosen::{choose_from_list, strip_mark, trim_dots, Choice};
use butai_workbench::flow::{run_flow, Action, Session, Tables, Then};
use butai_workbench::git::{DiffMode, DiffView, Git};
use butai_workbench::input::Desk;
use butai_workbench::machines::{Announcement, DialMeta, Dialling, Forward};
use butai_workbench::menu::{
    branch_picker, find_group, git_menu_overlay, menu_action, pick_overlay, pick_source, run_menu_action,
    stash_picker, worktree_picker, MenuItem, MenuRows, MenuStep, PickRows, PickSource, Stash, Worktree,
};
use butai_workbench::named::Named;
use butai_workbench::pages::{Docker, EditMode, Editor, FileEntry, Files, Help, Usage};
use butai_workbench::path::{browse_open_row, BrowseEntry, BrowseListing};
use butai_workbench::project::{Changes, Commit, Workspace};
use butai_workbench::redial::{land, redial_lost, DialSpec, Downed};
use butai_workbench::request::{
    arrival, fetch_dir, fetch_diff, kill_pane, menu_request, new_pane, read_git, run_git, run_pick_confirmed,
    spawn_agent, Arrival, BodyOf, Field, Method, Request,
};
use butai_workbench::roster::{Daemon, Route, Tab};
use butai_workbench::session::{
    apply_git_load, close_help, copy_sha, no_daemon, say_failures, file_saved, first_switches, leave_old_log, link_opened, machine_announced, make_room,
    open_help, open_settings, pick_links, process_started, settings_edited, spawn_git_refresh, toggle_layout,
    usage_read, GitLoad, LayoutStep, Switches,
};
use butai_workbench::settings::Settings;
use butai_workbench::types::{
    Bench, ConfirmKind, DiffKind, Edit, Flow, Focus, GitAction, ListKind, ListOverlay, MenuAction, MenuGroup, Overlay,
    Page, PaneId, PickTarget, PromptKind, SessionId, Spawned,
};
use butai_workbench::updates::{check_update, decline_update, take_update, update_found, Updates};

fn workspace() -> Workspace {
    Workspace {
        id: SessionId(4),
        name: "proj".into(),
        cwd: "/code/proj".into(),
        agents: vec![PaneId(10)],
        processes: vec![PaneId(20)],
        changes: None,
        stage: None,
    }
}

fn here() -> (Vec<Daemon>, Vec<Option<String>>) {
    let daemon = Daemon {
        tabs: vec![Tab { id: SessionId(4), name: "proj".into() }],
        workspaces: vec![workspace()],
        connected: true,
    };
    (vec![daemon], vec![None])
}

fn field(name: &str, f: Field) -> (String, Field) {
    (name.to_string(), f)
}

fn get(route: &str) -> Request {
    Request { method: Method::Get, route: route.into(), body: BodyOf::Nothing }
}

fn post(route: &str, fields: Vec<(String, Field)>) -> Request {
    Request { method: Method::Post, route: route.into(), body: BodyOf::Object(fields) }
}

fn settings() -> Settings {
    Settings { group: 0, row: 0, open: None, saved_theme: "dark".into(), ret: Page::Agents }
}

fn desk(view: Bench) -> Desk {
    Desk {
        view,
        files: Files::default(),
        docs: Files::default(),
        diff: DiffView::default(),
        docker: Docker { sel: 0, logs: None },
        git: Git::default(),
        settings: settings(),
        help: Help { topic: 0, scroll: 0, ret: Page::Agents },
        usage: Usage { rows: 0, sel: 0, loaded: false },
        cols: 120,
        rows: 40,
    }
}

fn updates() -> Updates {
    Updates {
        allowed: true,
        offer: None,
        declined: None,
        launched: false,
        forced: false,
        available: None,
    }
}

fn session() -> Session {
    Session { updates: updates(), theme: "dark".into(), generation: 0, following: None }
}

fn item(action: MenuAction, label: &str) -> MenuItem {
    MenuItem { action, label: label.into() }
}

const ROWS: [(MenuAction, &str); 28] = [
    (MenuAction::Checkout, "Check out…"),
    (MenuAction::NewBranch, "New branch…"),
    (MenuAction::DeleteBranch, "Delete branch…"),
    (MenuAction::Merge, "Merge…"),
    (MenuAction::Rebase, "Rebase…"),
    (MenuAction::StashList, "Pop a stash…"),
    (MenuAction::StashDrop, "Drop a stash…"),
    (MenuAction::TagCreate, "New tag…"),
    (MenuAction::TagDelete, "Delete tag…"),
    (MenuAction::RemoteRemove, "Remove remote…"),
    (MenuAction::WorktreeList, "Open worktree…"),
    (MenuAction::WorktreeAdd, "New worktree…"),
    (MenuAction::WorktreeRemove, "Remove worktree…"),
    (MenuAction::WorktreePrune, "Prune worktrees"),
    (MenuAction::Fetch, "Fetch"),
    (MenuAction::Pull, "Pull"),
    (MenuAction::PullRebase, "Pull, rebasing"),
    (MenuAction::Push, "Push"),
    (MenuAction::PushUpstream, "Push and track"),
    (MenuAction::PushForce, "Force push"),
    (MenuAction::StashPush, "Stash"),
    (MenuAction::StashPop, "Pop the last stash"),
    (MenuAction::SequenceContinue, "Continue"),
    (MenuAction::SequenceAbort, "Abort"),
    (MenuAction::SequenceSkip, "Skip"),
    (MenuAction::Amend, "Amend"),
    (MenuAction::ResetSoft, "Undo the last commit"),
    (MenuAction::ResetHard, "Reset hard"),
];

fn items() -> Vec<MenuItem> {
    ROWS.iter().map(|(a, l)| item(*a, l)).collect()
}

fn groups() -> Vec<MenuRows> {
    vec![
        MenuRows {
            label: "Branch".into(),
            offered: true,
            items: vec![item(MenuAction::Checkout, "Check out…"), item(MenuAction::Merge, "Merge…")],
        },
        MenuRows {
            label: "In progress".into(),
            offered: false,
            items: vec![item(MenuAction::SequenceAbort, "Abort")],
        },
        MenuRows {
            label: "Remote".into(),
            offered: true,
            items: vec![item(MenuAction::Fetch, "Fetch")],
        },
    ]
}

fn tables() -> Tables {
    Tables {
        stage: None,
        current: "1.0.0".into(),
        groups: groups(),
        items: items(),
        spaces: vec!["WORK".into(), "FILES".into()],
        pick_title: "DELETE BRANCH".into(),
    }
}

fn flow(f: Flow, d: &mut Desk, s: &mut Session, t: &Tables) -> Action {
    let (daemons, hosts) = here();
    run_flow(f, d, s, &daemons, &hosts, t)
}

#[test]
fn every_git_menu_row_leads_somewhere() {
    let interactive = [
        MenuAction::Checkout,
        MenuAction::NewBranch,
        MenuAction::DeleteBranch,
        MenuAction::StashList,
        MenuAction::StashDrop,
        MenuAction::TagCreate,
        MenuAction::TagDelete,
        MenuAction::RemoteRemove,
        MenuAction::WorktreeList,
        MenuAction::WorktreeAdd,
        MenuAction::WorktreeRemove,
        MenuAction::Merge,
        MenuAction::Rebase,
    ];
    let mut unwired = Vec::new();
    for i in items() {
        if interactive.contains(&i.action) {
            continue;
        }
        if menu_request(i.action).is_none() {
            unwired.push(i.label);
        }
    }
    assert!(unwired.is_empty(), "menu rows with no route: {unwired:?}");
    for i in items() {
        let promises_more = i.label.ends_with('…');
        assert_eq!(promises_more, interactive.contains(&i.action), "{:?}", i.action);
    }
}

#[test]
fn a_git_action_goes_to_its_own_route() {
    let ws = workspace();
    assert_eq!(
        run_git(Some(&ws), &GitAction::Stage("a.rs".into())),
        Ok(post("/v1/workspaces/4/changes/stage", vec![field("path", Field::Text("a.rs".into()))]))
    );
    assert_eq!(
        run_git(Some(&ws), &GitAction::NewWorktree("feature/x".into())),
        Ok(post(
            "/v1/workspaces/4/git/worktree",
            vec![
                field("path", Field::Text("/code/proj-feature-x".into())),
                field("branch", Field::Text("feature/x".into())),
                field("new_branch", Field::Flag(true)),
            ]
        ))
    );
    assert_eq!(run_git(None, &GitAction::Push), Err("no workspace open".to_string()));
}

#[test]
fn a_pick_is_named_where_its_route_takes_it() {
    let ws = workspace();
    assert_eq!(
        run_pick_confirmed(Some(&ws), PickTarget::DeleteBranch, "a b"),
        Ok(Request {
            method: Method::Delete,
            route: "/v1/workspaces/4/git/branch?name=a%20b".into(),
            body: BodyOf::Nothing,
        })
    );
    assert_eq!(
        run_pick_confirmed(Some(&ws), PickTarget::StashPop, "2"),
        Ok(post(
            "/v1/workspaces/4/git/stash/apply",
            vec![field("index", Field::Number(2)), field("pop", Field::Flag(true))]
        ))
    );
}

#[test]
fn the_docs_are_asked_for_filtered() {
    let ws = workspace();
    assert_eq!(
        fetch_dir(Some(&ws), Page::Docs, "a b"),
        Ok(get("/v1/workspaces/4/tree?path=a%20b&filter=docs"))
    );
    assert_eq!(fetch_dir(Some(&ws), Page::Files, ""), Ok(get("/v1/workspaces/4/tree?path=")));
    assert_eq!(
        fetch_diff(Some(&ws), &DiffKind::Staged { path: None }),
        Ok(get("/v1/workspaces/4/diff?kind=staged&path="))
    );
}

#[test]
fn a_new_pane_is_the_one_that_was_not_there() {
    let (a, b, c) = (PaneId(1), PaneId(2), PaneId(3));
    assert_eq!(new_pane(&vec![a, b], &vec![b, c, a]), Some(c));
    assert_eq!(new_pane(&vec![a], &vec![a]), None);
    assert_eq!(arrival(&vec![a], &vec![a, b], 1, "goose", true), Arrival::Here(b));
    assert_eq!(arrival(&vec![a], &vec![a], 39, "goose", true), Arrival::Later);
    assert_eq!(
        arrival(&vec![a], &vec![a], 40, "goose", true),
        Arrival::Never("goose did not appear in the agent list".into())
    );
    assert_eq!(
        arrival(&vec![a], &vec![a], 40, "web", false),
        Arrival::Never("web did not appear in the process list".into())
    );
}

#[test]
fn an_agent_is_started_where_its_list_is_read() {
    let start = spawn_agent(Some(&workspace()), "goose").unwrap();
    assert_eq!(start.list, get("/v1/workspaces/4/agents"));
    assert_eq!(
        start.start,
        post("/v1/workspaces/4/agents", vec![field("type", Field::Text("goose".into()))])
    );
    assert_eq!(spawn_agent(None, "goose").unwrap_err(), "no workspace to act in");
    let gone = Route { daemon: 3, workspace: SessionId(4), pane: PaneId(1) };
    assert_eq!(kill_pane(1, gone).unwrap_err(), "that machine has gone");
}

#[test]
fn the_history_is_read_in_the_scope_it_is_shown_in() {
    let reads = read_git(SessionId(4), "all=1");
    assert_eq!(reads.log, get("/v1/workspaces/4/git/log?limit=200&all=1"));
    assert_eq!(reads.worktrees, get("/v1/workspaces/4/git/worktrees"));
}

#[test]
fn a_row_that_destroys_is_asked_about_and_then_sent() {
    let ws = workspace();
    let mut view = Bench::default();
    let step = run_menu_action(MenuAction::ResetHard, &mut view, &items(), Some(&ws));
    assert_eq!(step, Ok(MenuStep::Asked));
    assert_eq!(view.pending_menu_action, Some(MenuAction::ResetHard));
    let Some(Overlay::Confirm(c)) = &view.overlay else { panic!("no question") };
    assert!(c.header.contains("Reset hard") && !c.yes, "{}", c.header);

    view.confirmed_menu_action = Some(MenuAction::ResetHard);
    view.overlay = None;
    let step = run_menu_action(MenuAction::ResetHard, &mut view, &items(), Some(&ws));
    assert_eq!(
        step,
        Ok(MenuStep::Send(post(
            "/v1/workspaces/4/git/reset",
            vec![field("mode", Field::Text("hard".into()))]
        )))
    );
    assert_eq!(view.confirmed_menu_action, None);
}

#[test]
fn the_git_menu_lists_what_can_be_done_now() {
    let Overlay::List(all) = git_menu_overlay(None, &groups()) else { panic!() };
    assert_eq!(all.items, vec!["Branch…", "Remote…"]);
    let Overlay::List(one) = git_menu_overlay(Some(MenuGroup(0)), &groups()) else { panic!() };
    assert_eq!(one.title, "GIT · Branch");
    assert_eq!(one.items[1..], ["Check out…".to_string(), "Merge…".to_string()]);
    assert_eq!(find_group(&groups(), "Remote"), Some(MenuGroup(2)));
    assert_eq!(menu_action(MenuGroup(0), "Merge…", &groups()), Some(MenuAction::Merge));
    assert_eq!(menu_action(MenuGroup(0), "Fetch", &groups()), None);
}

fn rows_of(o: Result<Overlay, String>) -> (Vec<String>, Vec<String>) {
    let Ok(Overlay::List(l)) = o else { panic!("{o:?}") };
    (l.items.clone(), l.values.clone().unwrap_or(l.items))
}

#[test]
fn the_branch_you_are_on_is_marked_and_starts_the_list() {
    let list = branch_picker(
        vec!["main".into(), "spike".into()],
        Some("spike".into()),
        ListKind::Branch,
        "CHECK OUT",
    );
    let (items, values) = rows_of(list);
    assert_eq!(items, vec!["  main", "* spike"]);
    assert_eq!(values, vec!["main", "spike"]);
    assert!(branch_picker(vec![], None, ListKind::Branch, "CHECK OUT").is_err());
}

#[test]
fn a_stash_is_picked_by_its_number() {
    let list = vec![Stash { index: 1, branch: "main".into(), message: "wip".into() }];
    let (items, values) = rows_of(stash_picker(PickTarget::StashDrop, "DROP", &list));
    assert_eq!((items, values), (vec!["stash@{1} main wip".into()], vec!["1".to_string()]));
    assert_eq!(
        stash_picker(PickTarget::StashDrop, "DROP", &vec![]),
        Err("nothing stashed".to_string())
    );
}

#[test]
fn the_checkout_you_are_in_is_not_offered_for_removal() {
    let list = vec![
        Worktree { path: "/code/proj".into(), branch: Some("main".into()), is_main: true },
        Worktree { path: "/code/proj-x".into(), branch: None, is_main: false },
    ];
    let (items, values) =
        rows_of(worktree_picker(PickTarget::RemoveWorktree, "REMOVE", &list));
    assert_eq!(items, vec!["/code/proj-x  (detached)"]);
    assert_eq!(values, vec!["/code/proj-x"]);
    assert_eq!(pick_source(PickTarget::TagDelete, "TAG"), Ok(PickSource::Tags));
    assert!(pick_source(PickTarget::Revert, "REVERT").is_err());
    let (items, _) = rows_of(pick_overlay(
        PickTarget::TagDelete,
        "TAG",
        PickRows::Tags(vec!["v1".into()]),
    ));
    assert_eq!(items, vec!["v1"]);
}

fn picking(kind: ListKind, values: &[&str], sel: usize) -> Bench {
    let values: Vec<String> = values.iter().map(|s| s.to_string()).collect();
    Bench {
        overlay: Some(Overlay::List(ListOverlay {
            title: "LIST".into(),
            items: values.clone(),
            values: Some(values),
            sel,
            kind,
        })),
        ..Default::default()
    }
}

fn enter(view: &mut Bench) -> Choice {
    let (daemons, hosts) = here();
    let ws = workspace();
    choose_from_list(view, "DELETE BRANCH", &groups(), &items(), &daemons, &hosts, 0, Some(&ws))
}

#[test]
fn a_pick_that_destroys_is_asked_about_with_it_named() {
    let mut view = picking(ListKind::Pick(PickTarget::DeleteBranch), &["main", "spike"], 1);
    assert_eq!(enter(&mut view), Choice::Done);
    let Some(Overlay::Confirm(c)) = &view.overlay else { panic!("not asked: {:?}", view.overlay) };
    assert!(matches!(
        &c.kind,
        ConfirmKind::Pick { target: PickTarget::DeleteBranch, value, .. } if value == "spike"
    ));
    assert!(!c.yes);
}

#[test]
fn a_chosen_row_leads_where_it_says() {
    let mut view = picking(ListKind::Branch, &["main", "spike"], 1);
    assert_eq!(
        enter(&mut view),
        Choice::Send(post(
            "/v1/workspaces/4/checkout",
            vec![field("branch", Field::Text("spike".into()))]
        ))
    );
    let mut view = picking(ListKind::Host, &[":disconnect gpu-box"], 0);
    assert_eq!(enter(&mut view), Choice::Disconnect("gpu-box".into()));
    let mut view = picking(ListKind::Host, &["laptop"], 0);
    assert_eq!(enter(&mut view), Choice::Connect("laptop".into()));
    let mut view = picking(ListKind::Host, &[":type"], 0);
    assert_eq!(enter(&mut view), Choice::Done);
    assert!(matches!(
        &view.overlay,
        Some(Overlay::Prompt(p)) if p.kind == PromptKind::SshDestination
    ));
    let mut view = picking(ListKind::Links, &["https://a"], 0);
    assert_eq!(enter(&mut view), Choice::OpenLink("https://a".into()));
    let mut view = picking(ListKind::Browse { dir: "/code".into() }, &["proj/"], 0);
    assert_eq!(
        enter(&mut view),
        Choice::Browse { dir: "/code/proj".into(), about: String::new() }
    );
}

#[test]
fn a_mark_is_stripped_only_where_it_stands() {
    assert_eq!(strip_mark(":keep gpu-box", ":keep "), Some("gpu-box".to_string()));
    assert_eq!(strip_mark("gpu-box", ":keep "), None);
    assert_eq!(trim_dots("Branch…"), "Branch");
    assert_eq!(trim_dots("Branch"), "Branch");
}

#[test]
fn an_update_is_offered_once_and_declined_for_good() {
    let mut u = updates();
    let mut view = Bench::default();
    assert!(update_found(Ok(Some("1.1.0".into())), &mut u, &mut view, "1.0.0"));
    let Some(Overlay::Confirm(c)) = &view.overlay else { panic!("not asked") };
    assert_eq!(c.header, "butai 1.1.0 is available — you have 1.0.0");
    assert!(u.launched);

    view.overlay = None;
    decline_update("1.1.0".into(), Ok(()), &mut u, &mut view);
    assert_eq!(u.declined.as_deref(), Some("1.1.0"));
    assert_eq!(
        view.flash.as_deref(),
        Some("butai 1.1.0 declined — `butai update` to change your mind")
    );
    update_found(Ok(Some("1.1.0".into())), &mut u, &mut view, "1.0.0");
    assert!(view.overlay.is_none(), "it was declined");
}

#[test]
fn an_update_found_long_after_launch_is_only_mentioned() {
    for launch in [Ok(None), Err("no network".to_string())] {
        let mut u = updates();
        let mut view = Bench::default();
        assert!(!update_found(launch, &mut u, &mut view, "1.0.0"));
        assert!(update_found(Ok(Some("1.1.0".into())), &mut u, &mut view, "1.0.0"));
        assert!(view.overlay.is_none(), "the keyboard was somebody's");
        assert_eq!(view.flash.as_deref(), Some("butai 1.1.0 is available — :update"));

        assert!(!check_update(&mut u, &mut view, "1.0.0"), "it is known already");
        assert!(matches!(&view.overlay, Some(Overlay::Confirm(c)) if c.title == "UPDATE"));
    }
}

#[test]
fn an_update_that_is_asked_for_says_what_it_found() {
    let mut view = Bench::default();
    let mut u = updates();
    assert!(check_update(&mut u, &mut view, "1.0.0"));
    assert_eq!(view.flash.as_deref(), Some("checking for updates…"));
    update_found(Ok(None), &mut u, &mut view, "1.0.0");
    assert_eq!(view.flash.as_deref(), Some("butai 1.0.0 is the latest"));
    let mut fixed = Updates { allowed: false, ..updates() };
    assert!(!check_update(&mut fixed, &mut view, "1.0.0"));
    assert_eq!(view.flash.as_deref(), Some("standalone does not update itself"));
    let mut ready = Updates { offer: Some("1.1.0".into()), ..updates() };
    assert_eq!(take_update(&mut ready), Some("1.1.0".to_string()));
}

#[test]
fn the_help_and_the_settings_remember_where_they_were_opened() {
    let mut view = Bench { page: Page::Docker, ..Default::default() };
    let mut help = Help { topic: 2, scroll: 9, ret: Page::Agents };
    open_help(&mut help, &mut view);
    assert_eq!((view.page, help.ret), (Page::Help, Page::Docker));
    close_help(&help, &mut view);
    assert_eq!(view.page, Page::Docker);
    let mut st = settings();
    open_settings(&mut st, &mut view, &"tokyonight".to_string());
    assert_eq!((view.page, st.ret, st.saved_theme.as_str()), (Page::Settings, Page::Docker, "tokyonight"));
}

#[test]
fn a_setting_that_is_written_takes_effect() {
    let mut st = settings();
    let mut view = Bench::default();
    let mut sw =
        Switches { auto_attach: true, links: true, update_check: true, updates_enabled: true };
    settings_edited(&Edit::Theme("tokyonight".into()), &mut st, &mut sw, &mut view, true, true, Ok(()));
    assert_eq!(st.saved_theme, "tokyonight");
    assert_eq!(view.flash.as_deref(), Some("theme: tokyonight"));
    settings_edited(&Edit::AutoAttach(false), &mut st, &mut sw, &mut view, true, true, Ok(()));
    assert!(!sw.auto_attach);
    for (allowed, enabled) in [(true, true), (true, false), (false, true)] {
        let edit = Edit::UpdateCheck(true);
        settings_edited(&edit, &mut st, &mut sw, &mut view, allowed, enabled, Ok(()));
        assert_eq!(sw.updates_enabled, allowed && enabled);
        assert_eq!(first_switches(false, true, true, allowed, enabled), sw);
    }
}

#[test]
fn leaving_layout_writes_only_what_moved() {
    let mut view = Bench::default();
    assert_eq!(toggle_layout(&mut view, false), LayoutStep::Entered);
    assert!(view.layout);
    assert_eq!(toggle_layout(&mut view, true), LayoutStep::Save);
    assert_eq!(toggle_layout(&mut view, false), LayoutStep::Entered);
    assert_eq!(toggle_layout(&mut view, false), LayoutStep::Left);
    assert!(!view.layout);
}

#[test]
fn the_links_are_picked_from_the_screen() {
    let mut view = Bench::default();
    pick_links(&mut view, vec![], true);
    assert_eq!(view.flash.as_deref(), Some("no links on this screen"));
    pick_links(&mut view, vec!["https://a".into()], false);
    let Some(Overlay::List(l)) = &view.overlay else { panic!() };
    assert_eq!(l.title, "LINKS — no browser here · enter copies");
    assert!(link_opened(&mut view, "https://a", Err("no browser".into())));
    assert_eq!(view.flash.as_deref(), Some("no browser — copied it instead"));
    assert!(!link_opened(&mut view, "https://a", Ok(())));
    assert_eq!(view.flash.as_deref(), Some("opened https://a"));
}

#[test]
fn a_reading_that_was_overtaken_changes_nothing() {
    let mut git = Git { hist_sel: 5, ..Default::default() };
    let mut generation = 0;
    assert_eq!(spawn_git_refresh(&mut git, &mut generation, true), Some(1));
    assert_eq!(spawn_git_refresh(&mut git, &mut generation, true), Some(2));
    let load = |generation| GitLoad {
        generation,
        log: Some((vec![Commit { id: "a".into(), summary: "one".into() }], false)),
    };
    assert!(!apply_git_load(&mut git, load(1), generation, 3));
    assert!(git.log.is_empty());
    assert!(apply_git_load(&mut git, load(2), generation, 3));
    assert_eq!((git.log.len(), git.hist_sel), (1, 0));
}

#[test]
fn a_commit_is_copied_by_its_whole_name_and_shown_by_its_short_one() {
    let mut view = Bench::default();
    let git = Git {
        log: vec![Commit { id: "abcdef1234567890".into(), summary: "one".into() }],
        ..Default::default()
    };
    assert_eq!(copy_sha(&git, &mut view), Some("abcdef1234567890".to_string()));
    assert!(view.flash.as_deref().is_some_and(|f| f.starts_with("copied abcdef1")), "{:?}", view.flash);
    assert_eq!(copy_sha(&Git::default(), &mut view), None);
    assert_eq!(view.flash.as_deref(), Some("no commit selected"));
}

#[test]
fn one_log_is_followed_and_the_last_one_is_let_go() {
    let mut docker = Docker { sel: 0, logs: Some(PaneId(9)) };
    let mut of = Some("web".to_string());
    let follow = Spawned::Follow("db".into());
    assert_eq!(leave_old_log(&follow, &mut docker, &mut of), Some(PaneId(9)));
    assert_eq!(docker.logs, None);
    let mut view = Bench::default();
    process_started(follow, "logs", Ok(PaneId(12)), &mut docker, &mut of, &mut view);
    assert_eq!((docker.logs, of.as_deref()), (Some(PaneId(12)), Some("db")));
    process_started(Spawned::Stage, "zsh", Err("no".into()), &mut docker, &mut of, &mut view);
    assert_eq!(view.flash.as_deref(), Some("zsh: no"));
}

#[test]
fn a_file_that_was_saved_may_be_closed() {
    let mut open = Editor::new("a.rs".into());
    open.mode = EditMode::Edit;
    open.touch();
    let mut tree = Files { open: Some(open), ..Default::default() };
    assert!(!make_room(&mut tree), "what was typed is still there");
    file_saved(&mut tree, Ok(()));
    assert!(make_room(&mut tree));
}

#[test]
fn what_was_read_of_the_usage_is_said_or_shown() {
    let mut usage = Usage { rows: 0, sel: 0, loaded: false };
    let mut view = Bench::default();
    usage_read(&mut usage, &mut view, Err("gone".into()));
    assert_eq!(view.flash.as_deref(), Some("usage: gone"));
    usage_read(&mut usage, &mut view, Ok(4));
    assert_eq!((usage.rows, usage.loaded), (4, true));
}

#[test]
fn an_announced_machine_is_dialled_if_that_is_wanted() {
    let a = Announcement {
        hint: "10.8.0.4".into(),
        ssh_target: "build-box".into(),
        socket: "/run/b.sock".into(),
        ssh_args: vec!["-p".into(), "2222".into()],
    };
    let mut view = Bench::default();
    let mut dialling = Dialling::new();
    let mut meta: Named<DialMeta> = Named::new();
    let none = machine_announced(&a, &vec![None], &mut dialling, &mut meta, false, &mut view);
    assert_eq!(none, None);
    let dial = machine_announced(&a, &vec![None], &mut dialling, &mut meta, true, &mut view);
    assert_eq!(dial.as_deref(), Some("build-box"));
    assert_eq!(view.flash.as_deref(), Some("build-box announced itself — connecting"));
    assert_eq!(meta.get("build-box").unwrap().args, vec!["-p", "2222"]);
}

#[test]
fn a_machine_that_comes_back_takes_its_old_place() {
    let (mut daemons, mut hosts) = here();
    let mut sockets = vec!["/run/local".to_string()];
    let mut dialled: Named<DialSpec> = Named::new();
    let mut downed: Named<Downed> = Named::new();
    let mut view = Bench::default();
    let meta = |reconnect| DialMeta {
        label: "gpu-box".into(),
        remember: false,
        reconnect,
        args: vec![],
        socket_path: None,
    };
    let fresh = || Daemon { tabs: vec![], workspaces: vec![], connected: true };
    land(
        "gpu-box",
        meta(false),
        false,
        fresh(),
        "/run/gpu".into(),
        &mut daemons,
        &mut hosts,
        &mut sockets,
        &mut dialled,
        &mut downed,
        &mut view,
    );
    assert_eq!(hosts, vec![None, Some("gpu-box".to_string())]);
    assert!(dialled.get("gpu-box").is_some());

    let mut forwards = vec![Forward { socket: "/run/gpu".into(), alive: false }];
    let mut dialling = Dialling::new();
    let mut dial_meta: Named<DialMeta> = Named::new();
    let again = redial_lost(
        1,
        &hosts,
        &sockets,
        &mut forwards,
        &dialled,
        &mut downed,
        &mut dialling,
        &mut dial_meta,
        &mut view,
        1_000,
    );
    assert_eq!(again.as_deref(), Some("gpu-box"));
    land(
        "gpu-box",
        meta(true),
        false,
        fresh(),
        "/run/gpu2".into(),
        &mut daemons,
        &mut hosts,
        &mut sockets,
        &mut dialled,
        &mut downed,
        &mut view,
    );
    assert_eq!(hosts.len(), 2, "the same place, not a second one");
    assert_eq!(sockets, vec!["/run/local", "/run/gpu2"]);
    assert!(downed.get("gpu-box").is_none(), "coming back clears what was held against it");
}

#[test]
fn a_flow_becomes_the_request_it_stands_for() {
    let mut d = desk(Bench::default());
    let mut s = session();
    assert_eq!(flow(Flow::Detach, &mut d, &mut s, &tables()), Action::Detach);
    assert_eq!(
        flow(Flow::RefreshUsage, &mut d, &mut s, &tables()),
        Action::Ask { daemon: 0, request: get("/v1/usage"), then: Then::Usage }
    );
    let a = flow(Flow::OpenFile("src/a.rs".into()), &mut d, &mut s, &tables());
    assert_eq!(
        a,
        Action::Ask {
            daemon: 0,
            request: get("/v1/workspaces/4/file?path=src/a.rs"),
            then: Then::File { path: "src/a.rs".into(), line: None },
        }
    );
    assert_eq!(flow(Flow::CloseStagePane, &mut d, &mut s, &tables()), Action::Draw);
    assert_eq!(d.view.flash.as_deref(), Some("nothing on the stage"));
    flow(Flow::OpenHelp, &mut d, &mut s, &tables());
    assert_eq!(d.view.page, Page::Help);
    flow(Flow::PickSpace, &mut d, &mut s, &tables());
    assert!(matches!(&d.view.overlay, Some(Overlay::List(l)) if l.kind == ListKind::Space));
}

#[test]
fn an_open_worktree_is_gone_to_and_one_that_has_gone_is_opened() {
    let (mut daemons, hosts) = here();
    daemons[0].tabs.push(Tab { id: SessionId(7), name: "proj-spike".into() });
    let mut d = desk(Bench { page: Page::Git, ..Default::default() });
    let mut s = session();
    let go = |workspace| Flow::GoWorktree { workspace, path: "/code/proj-spike".into() };
    let a = run_flow(go(SessionId(7)), &mut d, &mut s, &daemons, &hosts, &tables());
    assert_eq!((a, d.view.tab, d.view.page), (Action::Draw, 1, Page::Git));

    d.view.tab = 0;
    let a = run_flow(go(SessionId(9)), &mut d, &mut s, &daemons, &hosts, &tables());
    assert_eq!(
        a,
        Action::Ask {
            daemon: 0,
            request: post(
                "/v1/workspaces",
                vec![field("path", Field::Text("/code/proj-spike".into()))]
            ),
            then: Then::Repository,
        }
    );
    assert_eq!(d.view.tab, 0);
}

#[test]
fn whatever_writes_to_the_repository_has_the_git_page_read_again() {
    let chosen = |kind: ListKind| {
        let view = picking(kind, &["main", "spike"], 1);
        let mut d = desk(Bench { page: Page::Git, ..view });
        (flow(Flow::Choose, &mut d, &mut session(), &tables()), d)
    };
    let done = |f: Flow| {
        let mut d = desk(Bench { page: Page::Git, ..Default::default() });
        (flow(f, &mut d, &mut session(), &tables()), d)
    };
    for (a, mut d) in [
        chosen(ListKind::Branch),
        chosen(ListKind::Pick(PickTarget::Merge)),
        done(Flow::Git(GitAction::Stage("a.rs".into()))),
        done(Flow::Pick { target: PickTarget::DeleteBranch, value: "spike".into() }),
    ] {
        let Action::Ask { then, .. } = a else { panic!("{a:?}") };
        assert_eq!(take(then.clone(), Ok(Answer::Done), &mut d, &mut session()), Action::ReadGit(1));
        let refused = take(then, Err("no".into()), &mut d, &mut session());
        assert_eq!((refused, d.view.flash.as_deref()), (Action::ReadGit(1), Some("no")));
    }
}

#[test]
fn a_staged_row_is_what_the_stage_shows() {
    let mut d = desk(Bench { focus: Focus::Agents, ..Default::default() });
    let mut s = session();
    flow(Flow::StageSelected, &mut d, &mut s, &tables());
    assert_eq!((d.view.staged, d.view.focus), (Some(PaneId(10)), Focus::Stage));
}

#[test]
fn a_changed_file_is_not_replaced_at_once() {
    let mut d = desk(Bench { page: Page::Files, ..Default::default() });
    let mut open = Editor::new("a.rs".into());
    open.touch();
    d.files.open = Some(open);
    let mut s = session();
    let a = flow(Flow::OpenFile("b.rs".into()), &mut d, &mut s, &tables());
    assert_eq!(a, Action::Draw);
    assert_eq!(d.files.open.as_ref().unwrap().path, "a.rs");
    let a = flow(Flow::OpenFile("b.rs".into()), &mut d, &mut s, &tables());
    assert!(matches!(a, Action::Ask { then: Then::File { .. }, .. }), "{a:?}");
}

#[test]
fn a_workspace_in_the_middle_of_a_merge_is_not_clean() {
    let ws = Workspace {
        changes: Some(Changes {
            conflicted: vec![],
            unstaged: vec![],
            staged: vec![],
            recent_commits: vec![],
            ahead: 0,
            clean: false,
        }),
        ..workspace()
    };
    assert!(butai_workbench::menu::in_sequence(Some(&ws)));
    assert!(!butai_workbench::menu::in_sequence(Some(&workspace())));
}

fn take(then: Then, r: Result<Answer, String>, d: &mut Desk, s: &mut Session) -> Action {
    let (daemons, hosts) = here();
    answered(then, r, d, s, &daemons, &hosts)
}

#[test]
fn an_answer_goes_where_it_was_asked_for() {
    let mut d = desk(Bench { page: Page::Files, ..Default::default() });
    let mut s = session();
    take(Then::Agents, Ok(Answer::Agents(vec!["goose".into()])), &mut d, &mut s);
    assert!(matches!(&d.view.overlay, Some(Overlay::List(l)) if l.kind == ListKind::SpawnAgent));
    let entry = FileEntry { name: "a.rs".into(), path: "src/a.rs".into(), is_dir: false, changed: false };
    take(Then::Tree("src".into()), Ok(Answer::Entries(vec![entry])), &mut d, &mut s);
    assert_eq!((d.files.dir.as_str(), d.files.entries.len()), ("src", 2));
    let file = Then::File { path: "src/a.rs".into(), line: Some(12) };
    take(file, Ok(Answer::File("src/a.rs".into())), &mut d, &mut s);
    assert_eq!(d.files.open.as_ref().unwrap().path, "src/a.rs");
    take(Then::Usage, Ok(Answer::Usage(3)), &mut d, &mut s);
    assert_eq!(d.usage.rows, 3);
    let kind = DiffKind::Unstaged { path: None };
    let diff = Then::Diff { kind: kind.clone(), keep_cursor: false };
    take(diff, Ok(Answer::Diff), &mut d, &mut s);
    assert_eq!((d.view.page, d.diff.kind.as_ref()), (Page::Diff, Some(&kind)));
}

#[test]
fn a_refusal_is_said_behind_what_it_is_about() {
    let said = |then: Then| {
        let mut d = desk(Bench::default());
        take(then, Err("gone".into()), &mut d, &mut session());
        d.view.flash.unwrap_or_default()
    };
    assert_eq!(said(Then::Agents), "agents: gone");
    assert_eq!(said(Then::Usage), "usage: gone");
    assert_eq!(said(Then::Branches { about: "branches: ".into(), again: false }), "branches: gone");
    assert_eq!(said(Then::Search("x".into())), "search: gone");
    assert_eq!(said(Then::Browse("browse: ".into())), "browse: gone");
    assert_eq!(said(Then::Browse(String::new())), "gone");
    assert_eq!(said(Then::MakeFolder("/code".into())), "new folder: gone");
    assert_eq!(said(Then::Tree(String::new())), "tree: gone");
    assert_eq!(said(Then::File { path: "a".into(), line: None }), "file: gone");
    assert_eq!(said(Then::Deleted("a".into())), "delete: gone");
    assert_eq!(said(Then::Shown(DiffKind::Unstaged { path: None })), "show: gone");
    assert_eq!(said(Then::Closed), "close: gone");
    assert_eq!(said(Then::Fetched), "fetch: gone");
    assert_eq!(said(Then::Repository), "gone");
    assert_eq!(said(Then::Done), "gone");
}

#[test]
fn a_deleted_file_is_closed_and_its_folder_read_again() {
    let mut d = desk(Bench { page: Page::Files, ..Default::default() });
    d.files = Files { dir: "src".into(), open: Some(Editor::new("src/a.rs".into())), ..Default::default() };
    let a = take(Then::Deleted("src/a.rs".into()), Ok(Answer::Done), &mut d, &mut session());
    assert!(d.files.open.is_none());
    assert_eq!(
        a,
        Action::Ask {
            daemon: 0,
            request: get("/v1/workspaces/4/tree?path=src"),
            then: Then::Tree("src".into()),
        }
    );
}

#[test]
fn a_folder_that_was_made_is_stepped_into() {
    let listing = BrowseListing {
        path: "/code/new".into(),
        has_parent: true,
        entries: vec![BrowseEntry { name: "a".into(), is_dir: true }],
    };
    let mut d = desk(Bench::default());
    let folder = Ok(Answer::Folder(listing));
    take(Then::MakeFolder("/code".into()), folder, &mut d, &mut session());
    let Some(Overlay::List(l)) = &d.view.overlay else { panic!("no picker") };
    assert_eq!((l.title.as_str(), &l.items[0]), ("OPEN IN /code/new", &browse_open_row()));
    let a = take(Then::MakeFolder("/code".into()), Err("no".into()), &mut d, &mut session());
    assert_eq!(
        a,
        Action::Ask {
            daemon: 0,
            request: get("/v1/fs?path=/code"),
            then: Then::Browse("browse: ".into()),
        }
    );
}

#[test]
fn panes_are_killed_in_turn_until_one_cannot_be() {
    let route = |pane| Route { daemon: 0, workspace: SessionId(4), pane: PaneId(pane) };
    let mut d = desk(Bench::default());
    let mut s = session();
    let a = take(Then::Killed(vec![route(10), route(11)]), Ok(Answer::Done), &mut d, &mut s);
    let Action::Ask { request, then, .. } = a else { panic!("{a:?}") };
    assert_eq!(request.route, "/v1/workspaces/4/processes/10");
    assert_eq!(then, Then::Killed(vec![route(11)]));
    assert_eq!(take(then, Err("gone".into()), &mut d, &mut s), Action::Draw);
    assert_eq!(take(Then::Killed(vec![]), Ok(Answer::Done), &mut d, &mut s), Action::Draw);
}

#[test]
fn a_row_of_the_git_menu_asks_for_what_it_picks_from() {
    let (daemons, hosts) = here();
    let mut d = desk(Bench { page: Page::Git, ..Default::default() });
    let mut s = session();
    let pick = MenuStep::Pick(PickTarget::TagDelete);
    let a = run_menu_step(pick, "DELETE TAG".into(), &mut d, &mut s, &daemons, &hosts);
    let Action::Ask { request, then, .. } = a else { panic!("{a:?}") };
    assert_eq!(request, get("/v1/workspaces/4/git/tags"));
    let rows = Answer::Rows(PickRows::Tags(vec!["v1".into()]));
    let a = take(then, Ok(rows), &mut d, &mut s);
    assert!(matches!(&d.view.overlay, Some(Overlay::List(l)) if l.title == "DELETE TAG"));
    assert_eq!(a, Action::ReadGit(1), "and the page is read again");
    let wrong = MenuStep::Pick(PickTarget::Revert);
    run_menu_step(wrong, "REVERT".into(), &mut d, &mut s, &daemons, &hosts);
    assert_eq!(
        d.view.flash.as_deref(),
        Some("REVERT is chosen from the GIT page, not from a list")
    );
}

#[test]
fn what_is_picked_of_a_diff_is_applied_and_read_again() {
    let (daemons, hosts) = here();
    let mut d = desk(Bench { page: Page::Diff, ..Default::default() });
    d.diff = DiffView::new(DiffKind::Unstaged { path: Some("a.rs".into()) });
    d.diff.line_select();
    let mut s = session();
    let sel = Selected { patch: "@@".into(), target: "index".into(), reverse: false };
    let a = apply_selected(Some(sel), &mut d, &mut s, &daemons, &hosts);
    let Action::Ask { request, then, .. } = a else { panic!("{a:?}") };
    assert_eq!(request.route, "/v1/workspaces/4/git/apply");
    assert_eq!(then, Then::Applied);

    take(Then::Applied, Err("does not apply".into()), &mut d, &mut s);
    assert_eq!(d.diff.mode, DiffMode::Lines, "the lines stay picked");
    assert_eq!(d.diff.notice.as_deref(), Some("does not apply"));

    let a = take(Then::Applied, Ok(Answer::Done), &mut d, &mut s);
    assert_eq!(d.diff.mode, DiffMode::Read);
    assert_eq!(
        a,
        Action::Ask {
            daemon: 0,
            request: get("/v1/workspaces/4/diff?path=a.rs"),
            then: Then::Reread,
        }
    );
    take(Then::Reread, Err("gone".into()), &mut d, &mut s);
    assert_eq!(d.diff.notice.as_deref(), Some("refresh: gone"));
}

#[test]
fn a_save_that_is_refused_keeps_the_text() {
    let (daemons, hosts) = here();
    let mut d = desk(Bench { page: Page::Files, ..Default::default() });
    let mut open = Editor::new("a.rs".into());
    open.touch();
    d.files.open = Some(open);
    let a = save_open("a.rs", "fn a() {}", &mut d, &daemons, &hosts);
    let Action::Ask { request, then, .. } = a else { panic!("{a:?}") };
    assert_eq!(request.route, "/v1/workspaces/4/upload?path=a.rs");
    assert_eq!(request.body, BodyOf::Bytes("fn a() {}".into()));
    take(then, Err("disk full".into()), &mut d, &mut session());
    let file = d.files.open.as_ref().unwrap();
    assert!(file.unsaved);
    assert_eq!(file.notice.as_deref(), Some("save failed: disk full"));
    take(Then::Saved, Ok(Answer::Done), &mut d, &mut session());
    assert!(!d.files.open.as_ref().unwrap().unsaved);
}

#[test]
fn the_screen_wears_the_theme_once() {
    let st = Settings { saved_theme: "light".into(), ..settings() };
    let mut s = session();
    assert_eq!(follow_theme(&st, &vec![], &mut s).as_deref(), Some("light"));
    assert_eq!(follow_theme(&st, &vec![], &mut s), None);
}

#[test]
fn what_went_wrong_at_the_start_is_said_together() {
    let mut view = Bench::default();
    say_failures(&mut view, &vec![]);
    assert_eq!(view.flash, None);
    let failures = vec!["a".to_string(), "b".to_string()];
    say_failures(&mut view, &failures);
    assert_eq!(view.flash.as_deref(), Some("a; b"));
    assert_eq!(no_daemon(&failures), "no daemon answered (a; b)");
}

#[test]
fn what_a_key_asked_for_is_asked_about_with_no_picked() {
    let t = tables();
    let asks = [
        Flow::AskCloseWorkspace,
        Flow::ConfirmPick { target: PickTarget::DeleteBranch, value: "old".into() },
        Flow::MenuAction(MenuAction::ResetHard),
    ];
    for f in asks {
        let (mut d, mut s) = (desk(Bench::default()), session());
        flow(f.clone(), &mut d, &mut s, &t);
        let Some(Overlay::Confirm(c)) = &d.view.overlay else { panic!("{f:?} asked nothing") };
        assert!(!c.yes, "{f:?}");
    }
}
