use butai_workbench::bench::{move_sel, run_view, Counts, ViewVerb};
use butai_workbench::encode::{open_link, shell_quote, urlencode};
use butai_workbench::git::{
    find_verb, git_click, git_verb_flow, handle_diff_key, handle_git_key, DiffMode, DiffStep, DiffView, Git,
    GitFooters, GitTarget, RefRow, Verb, VerbId,
};
use butai_workbench::overlay::{handle_overlay_key, overlay_mouse, update_overlay};
use butai_workbench::pages::{handle_files_key, Files};
use butai_workbench::project::{
    change_rows, diff_under_cursor, handle_changes_key, ChangeRow, Changes, Commit, Section, Workspace,
};
use butai_workbench::types::{
    Bench, ConfirmKind, ConfirmOverlay, DiffKind, Flow, Focus, GitAction, GitScope, KeyCode, KeyEvent, MouseButton,
    MouseEvent, MouseKind, Overlay, Page, PickTarget, ResolveSide, SessionId,
};

const CURRENT: &str = "1.0.0";

fn key(code: KeyCode) -> KeyEvent {
    KeyEvent::plain(code)
}

fn ch(c: char) -> KeyEvent {
    KeyEvent::plain(KeyCode::Char(c))
}

fn texts(v: &[&str]) -> Vec<String> {
    v.iter().map(|s| s.to_string()).collect()
}

fn ws_with_changes(changes: Changes) -> Workspace {
    Workspace {
        id: SessionId(1),
        name: "proj".into(),
        cwd: "/tmp/proj".into(),
        agents: vec![],
        processes: vec![],
        stage: None,
        changes: Some(changes),
    }
}

fn rail_changes(ahead: usize) -> Changes {
    Changes {
        staged: texts(&["s.rs"]),
        unstaged: texts(&["u.rs"]),
        conflicted: texts(&["c.rs"]),
        recent_commits: vec![],
        ahead,
        clean: true,
    }
}

fn commit(id: &str, summary: &str) -> Commit {
    Commit { id: id.into(), summary: summary.into() }
}

#[test]
fn query_values_are_encoded() {
    assert_eq!(urlencode("src/main.rs"), "src/main.rs");
    assert_eq!(urlencode("a b.txt"), "a%20b.txt");
    assert_eq!(urlencode("c#1+2&x=y"), "c%231%2B2%26x%3Dy");
    assert_eq!(urlencode(""), "");
}

#[test]
fn a_letter_outside_ascii_is_encoded_byte_by_byte() {
    assert_eq!(urlencode("é"), "%C3%A9");
    assert_eq!(urlencode("日"), "%E6%97%A5");
    assert_eq!(urlencode("-_.~"), "-_.~");
}

#[test]
fn a_quoted_word_is_one_word_to_the_shell() {
    assert_eq!(shell_quote("plain"), "'plain'");
    assert_eq!(shell_quote("it's"), r"'it'\''s'");
    assert_eq!(shell_quote(""), "''");
}

#[test]
fn a_link_is_opened_by_its_id_and_its_address() {
    assert_eq!(open_link(42, "https://x"), "\u{1b}]8;id=2a;https://x\u{1b}\\");
}

#[test]
fn selection_stops_at_the_ends_of_a_rail() {
    let counts = Counts { agents: 3, procs: 0, changes: 0, all_agents: 0 };
    let mut view = Bench { focus: Focus::Agents, ..Default::default() };
    move_sel(&mut view, counts, -1);
    assert_eq!(view.agent_sel, 0, "should not walk off the top");
    for _ in 0..10 {
        move_sel(&mut view, counts, 1);
    }
    assert_eq!(view.agent_sel, 2, "should not walk off the end");
}

#[test]
fn an_empty_rail_keeps_its_cursor_at_zero() {
    let counts = Counts { agents: 0, procs: 0, changes: 0, all_agents: 0 };
    let mut view = Bench { focus: Focus::Processes, ..Default::default() };
    move_sel(&mut view, counts, 1);
    assert_eq!(view.proc_sel, 0);
}

#[test]
fn enter_on_the_changes_rail_opens_what_the_cursor_names() {
    let ws = ws_with_changes(Changes {
        staged: texts(&["s.rs"]),
        unstaged: texts(&["u.rs"]),
        recent_commits: vec![commit("abcdef1234", "first")],
        conflicted: vec![],
        ahead: 0,
        clean: true,
    });
    let at = |i| diff_under_cursor(Some(&ws), i);
    assert_eq!(at(0), Some(DiffKind::Unstaged { path: None }));
    assert_eq!(at(1), Some(DiffKind::Unstaged { path: Some("u.rs".into()) }));
    assert_eq!(at(2), Some(DiffKind::Staged { path: None }));
    assert_eq!(at(3), Some(DiffKind::Staged { path: Some("s.rs".into()) }));
    assert_eq!(at(4), None);
    assert_eq!(
        at(5),
        Some(DiffKind::Commit { id: "abcdef1234".into(), summary: "first".into() })
    );
    assert_eq!(at(6), None, "past the end of the rail");
    assert_eq!(diff_under_cursor(None, 0), None, "no workspace, nothing to open");
}

#[test]
fn the_changes_are_listed_under_their_headings() {
    let rows = change_rows(&rail_changes(0));
    assert_eq!(
        rows,
        vec![
            ChangeRow::Header(Section::Conflicted),
            ChangeRow::Conflicted { path: "c.rs".into() },
            ChangeRow::Header(Section::Unstaged),
            ChangeRow::File { path: "u.rs".into(), staged: false },
            ChangeRow::Header(Section::Staged),
            ChangeRow::File { path: "s.rs".into(), staged: true },
        ]
    );
}

#[test]
fn each_kind_of_changes_row_offers_only_its_own_verbs() {
    let ws = ws_with_changes(rail_changes(0));
    let at = |sel: usize, code: char| {
        let mut view = Bench { changes_sel: sel, ..Default::default() };
        handle_changes_key(ch(code), &mut view, Some(&ws))
    };

    assert!(matches!(at(3, 's'), Some(Flow::Git(GitAction::Stage(p))) if p == "u.rs"));
    assert!(at(3, 'u').is_none(), "an unstaged file has nothing to unstage");
    assert!(matches!(at(5, 'u'), Some(Flow::Git(GitAction::Unstage(p))) if p == "s.rs"));
    assert!(at(5, 's').is_none(), "a staged file is already staged");
    assert!(at(5, 'x').is_none(), "discard is a worktree verb, not an index one");

    assert!(matches!(
        at(1, 'o'),
        Some(Flow::Git(GitAction::Resolve { take: ResolveSide::Ours, .. }))
    ));
    assert!(matches!(
        at(1, 't'),
        Some(Flow::Git(GitAction::Resolve { take: ResolveSide::Theirs, .. }))
    ));
    assert!(at(1, 's').is_none(), "staging a conflict would commit the markers");

    assert!(at(0, 's').is_none());
    assert!(at(2, 'x').is_none());
    assert!(at(9, 's').is_none(), "past the end of the rail");
}

#[test]
fn push_is_bound_only_when_the_branch_is_ahead() {
    let mut view = Bench { changes_sel: 3, ..Default::default() };
    let behind = ws_with_changes(rail_changes(0));
    assert!(handle_changes_key(ch('p'), &mut view, Some(&behind)).is_none());
    let ahead = ws_with_changes(rail_changes(2));
    assert!(matches!(
        handle_changes_key(ch('p'), &mut view, Some(&ahead)),
        Some(Flow::Git(GitAction::Push))
    ));
}

#[test]
fn discard_asks_before_it_throws_work_away() {
    let ws = ws_with_changes(rail_changes(0));
    let mut view = Bench { changes_sel: 3, ..Default::default() };
    let flow = handle_changes_key(ch('x'), &mut view, Some(&ws));
    assert!(matches!(flow, Some(Flow::Continue)), "x must not discard on its own");
    let Some(Overlay::Confirm(c)) = &view.overlay else { panic!("no confirm box") };
    assert!(!c.yes);
    assert!(c.header.contains("u.rs"), "{}", c.header);

    let flow = handle_overlay_key(ch('n'), &mut view);
    assert!(matches!(flow, Flow::Continue));
    assert!(view.overlay.is_none());

    handle_changes_key(ch('x'), &mut view, Some(&ws));
    let flow = handle_overlay_key(key(KeyCode::Enter), &mut view);
    assert!(matches!(flow, Flow::Continue), "enter on 'no' must not discard: {flow:?}");
    assert!(view.overlay.is_none(), "but it should still have closed the box");

    handle_changes_key(ch('x'), &mut view, Some(&ws));
    let flow = handle_overlay_key(ch('y'), &mut view);
    assert!(matches!(&flow, Flow::Git(GitAction::Discard(p)) if p == "u.rs"), "{flow:?}");
    assert!(view.overlay.is_none(), "the box should have closed");
}

#[test]
fn declining_an_update_is_an_answer_and_not_a_dismissal() {
    let mut view =
        Bench { overlay: Some(update_overlay("1.1.0", CURRENT)), ..Default::default() };
    let Some(Overlay::Confirm(c)) = &view.overlay else { panic!("no confirm box") };
    assert!(!c.yes);
    assert!(c.header.contains("1.1.0"), "{}", c.header);
    assert!(c.header.contains(CURRENT), "{}", c.header);

    let flow = handle_overlay_key(ch('n'), &mut view);
    assert!(matches!(&flow, Flow::DeclineUpdate(v) if v == "1.1.0"), "{flow:?}");
    assert!(view.overlay.is_none());

    view.overlay = Some(update_overlay("1.1.0", CURRENT));
    let flow = handle_overlay_key(key(KeyCode::Enter), &mut view);
    assert!(matches!(&flow, Flow::DeclineUpdate(v) if v == "1.1.0"), "{flow:?}");

    view.overlay = Some(update_overlay("1.1.0", CURRENT));
    let flow = handle_overlay_key(key(KeyCode::Esc), &mut view);
    assert!(matches!(flow, Flow::Continue), "esc must record nothing: {flow:?}");
    assert!(view.overlay.is_none());

    view.overlay = Some(update_overlay("1.1.0", CURRENT));
    let flow = handle_overlay_key(ch('q'), &mut view);
    assert!(matches!(flow, Flow::Continue), "{flow:?}");

    view.overlay = Some(update_overlay("1.1.0", CURRENT));
    let flow = handle_overlay_key(ch('y'), &mut view);
    assert!(matches!(flow, Flow::Update), "{flow:?}");
    assert!(view.overlay.is_none());
}

#[test]
fn every_other_confirm_still_does_nothing_when_answered_no() {
    for kind in [
        ConfirmKind::Discard { path: "u.rs".into() },
        ConfirmKind::DeleteFile { path: "u.rs".into() },
        ConfirmKind::CloseWorkspace { id: SessionId(1), name: "proj".into() },
        ConfirmKind::MenuAction,
        ConfirmKind::Pick {
            target: PickTarget::DeleteBranch,
            value: "main".into(),
            label: "main".into(),
        },
    ] {
        let mut view = Bench {
            overlay: Some(Overlay::Confirm(ConfirmOverlay {
                title: "X".into(),
                header: "x".into(),
                yes: false,
                kind,
            })),
            ..Default::default()
        };
        let flow = handle_overlay_key(ch('n'), &mut view);
        assert!(matches!(flow, Flow::Continue), "no must stay inert: {flow:?}");
        assert!(view.overlay.is_none(), "and must still close the box");
    }
}

#[test]
fn clicking_no_on_an_update_declines_it() {
    let click = MouseEvent {
        kind: MouseKind::Down(MouseButton::Left),
        column: 40,
        row: 12,
        alt: false,
        shift: false,
    };
    let mut view =
        Bench { overlay: Some(update_overlay("1.1.0", CURRENT)), ..Default::default() };
    let flow = overlay_mouse(&click, &mut view, Some(2));
    assert!(matches!(&flow, Flow::DeclineUpdate(v) if v == "1.1.0"), "{flow:?}");
    assert!(view.overlay.is_none());

    view.overlay = Some(update_overlay("1.1.0", CURRENT));
    let flow = overlay_mouse(&click, &mut view, Some(3));
    assert!(matches!(flow, Flow::Update), "{flow:?}");
    assert!(view.overlay.is_none());
}

#[test]
fn the_update_verb_parses_and_dispatches() {
    let mut view = Bench::default();
    assert!(matches!(run_view(ViewVerb::Update, &mut view), Flow::CheckUpdate));
}

#[test]
fn a_commit_needs_a_message() {
    let ws = ws_with_changes(rail_changes(0));
    let mut view = Bench { changes_sel: 5, ..Default::default() };
    handle_changes_key(ch('c'), &mut view, Some(&ws));
    assert!(matches!(view.overlay, Some(Overlay::Prompt(_))), "no prompt opened");

    let flow = handle_overlay_key(key(KeyCode::Enter), &mut view);
    assert!(matches!(flow, Flow::Continue), "an empty message must not commit");
    assert!(view.flash.as_deref().is_some_and(|f| f.contains("message")), "{:?}", view.flash);

    handle_changes_key(ch('c'), &mut view, Some(&ws));
    for c in "fix it".chars() {
        handle_overlay_key(ch(c), &mut view);
    }
    let flow = handle_overlay_key(key(KeyCode::Enter), &mut view);
    assert!(
        matches!(&flow, Flow::Git(GitAction::Commit { message, all: false }) if message == "fix it"),
        "{flow:?}"
    );
}

#[test]
fn a_prompt_does_not_lose_characters_to_the_other_modals_keys() {
    let ws = ws_with_changes(rail_changes(0));
    let mut view = Bench { changes_sel: 5, ..Default::default() };
    handle_changes_key(ch('c'), &mut view, Some(&ws));
    for c in "quick jk fix".chars() {
        handle_overlay_key(ch(c), &mut view);
    }
    let Some(Overlay::Prompt(p)) = &view.overlay else { panic!("the prompt was dismissed") };
    assert_eq!(p.text, "quick jk fix");
}

fn verb(key: char, id: VerbId) -> Verb {
    Verb { key, id }
}

fn no_footers() -> GitFooters {
    GitFooters { refs: vec![], commit: vec![], none: vec![] }
}

#[test]
fn tab_skips_the_commit_box_until_a_commit_is_in_it() {
    let mut view = Bench { page: Page::Git, focus: Focus::History, ..Default::default() };
    let mut git = Git::default();
    let tab = key(KeyCode::Tab);

    handle_git_key(tab, &mut view, &mut git, &vec![], 10, &no_footers());
    assert_eq!(view.focus, Focus::Refs, "an empty body is not a column to walk into");
    handle_git_key(tab, &mut view, &mut git, &vec![], 10, &no_footers());
    assert_eq!(view.focus, Focus::History, "the two lists cycle between themselves");

    git.body = Some(DiffView::new(DiffKind::Commit {
        id: "abc1234".into(),
        summary: "a commit".into(),
    }));
    handle_git_key(tab, &mut view, &mut git, &vec![], 10, &no_footers());
    assert_eq!(view.focus, Focus::Stage, "an open commit is the third column");
}

#[test]
fn every_letter_the_changes_rail_advertises_is_bound() {
    let changes = Changes {
        staged: texts(&["staged.rs"]),
        unstaged: texts(&["dirty.rs"]),
        recent_commits: vec![commit("abc1234", "a commit")],
        conflicted: texts(&["clash.rs"]),
        ahead: 1,
        clean: true,
    };
    let ws = ws_with_changes(changes.clone());
    for (sel, row) in change_rows(&changes).iter().enumerate() {
        let letters = match row {
            ChangeRow::Conflicted { .. } => "otad",
            ChangeRow::File { staged: false, .. } => "sxdcC",
            ChangeRow::File { staged: true, .. } => "udcC",
            ChangeRow::Commit { .. } => "d",
            ChangeRow::Header(_) => "",
        };
        for letter in letters.chars() {
            let mut view =
                Bench { focus: Focus::Changes, changes_sel: sel, ..Default::default() };
            let flow = handle_changes_key(ch(letter), &mut view, Some(&ws));
            assert!(
                flow.is_some() || view.overlay.is_some(),
                "`{letter}` is drawn on a {row:?} row and bound to nothing"
            );
        }
    }
}

#[test]
fn the_git_pages_body_stages_a_hunk_but_never_a_commits() {
    let none = no_footers();
    let mut view = Bench { page: Page::Git, focus: Focus::Stage, ..Default::default() };
    let mut git = Git {
        body: Some(DiffView::new(DiffKind::Unstaged { path: Some("a.txt".into()) })),
        ..Default::default()
    };

    let flow = handle_git_key(ch(' '), &mut view, &mut git, &vec![], 10, &none);
    assert!(matches!(flow, Some(Flow::ApplyDiff { discard: false })), "{flow:?}");
    let flow = handle_git_key(ch('x'), &mut view, &mut git, &vec![], 10, &none);
    assert!(matches!(flow, Some(Flow::ApplyDiff { discard: true })), "{flow:?}");

    handle_git_key(ch('v'), &mut view, &mut git, &vec![], 10, &none);
    assert_eq!(git.body.as_ref().unwrap().mode, DiffMode::Lines);
    let flow = handle_git_key(ch(' '), &mut view, &mut git, &vec![], 10, &none);
    assert!(matches!(flow, Some(Flow::Continue)), "space should pick, not apply: {flow:?}");
    let flow = handle_git_key(key(KeyCode::Enter), &mut view, &mut git, &vec![], 10, &none);
    assert!(matches!(flow, Some(Flow::ApplyDiff { discard: false })), "{flow:?}");
    handle_git_key(key(KeyCode::Esc), &mut view, &mut git, &vec![], 10, &none);
    assert_eq!(git.body.as_ref().unwrap().mode, DiffMode::Read);
    assert!(git.body.is_some(), "the first Esc closed the diff as well as the mode");

    git.body = Some(DiffView::new(DiffKind::Commit {
        id: "abc1234".into(),
        summary: "a commit".into(),
    }));
    for k in [' ', 'x', 'v'] {
        let flow = handle_git_key(ch(k), &mut view, &mut git, &vec![], 10, &none);
        assert!(
            !matches!(flow, Some(Flow::ApplyDiff { .. })),
            "{k:?} tried to stage a commit: {flow:?}"
        );
    }
}

fn ref_rows() -> Vec<RefRow> {
    vec![
        RefRow::WorkingTree,
        RefRow::Change(ChangeRow::Header(Section::Unstaged)),
        RefRow::Change(ChangeRow::File { path: "dirty.rs".into(), staged: false }),
        RefRow::Change(ChangeRow::Header(Section::Staged)),
        RefRow::Change(ChangeRow::File { path: "staged.rs".into(), staged: true }),
    ]
}

#[test]
fn enter_on_a_changed_file_opens_it_beside_the_lists() {
    let rows = ref_rows();
    let mut view = Bench { page: Page::Git, focus: Focus::Refs, ..Default::default() };
    let open = |sel: usize, view: &mut Bench| {
        let g = Git { refs_sel: sel, ..Default::default() };
        let id = find_verb(&vec![verb('\n', VerbId::Diff)], '\n')?;
        git_verb_flow(id, view, &g, &rows)
    };
    assert!(
        matches!(
            open(0, &mut view),
            Some(Flow::GitOpenDiff { kind: DiffKind::Unstaged { path: None }, .. })
        ),
        "the summary row diffs the whole worktree"
    );
    assert!(
        matches!(open(2, &mut view), Some(Flow::GitOpenDiff { kind: DiffKind::Unstaged { path: Some(p) }, .. }) if p == "dirty.rs"),
        "an unstaged row diffs the worktree against the index"
    );
    assert!(
        matches!(open(4, &mut view), Some(Flow::GitOpenDiff { kind: DiffKind::Staged { path: Some(p) }, .. }) if p == "staged.rs"),
        "a staged row diffs the index against HEAD"
    );
}

#[test]
fn the_file_rows_stage_and_unstage_with_the_rails_own_keys() {
    let rows = ref_rows();
    let footer = |sel: usize| GitFooters {
        refs: match sel {
            2 => vec![verb('s', VerbId::Stage), verb('x', VerbId::Discard)],
            4 => vec![verb('u', VerbId::Unstage)],
            _ => vec![],
        },
        commit: vec![],
        none: vec![],
    };
    let press = |sel: usize, c: char| {
        let mut view = Bench { page: Page::Git, focus: Focus::Refs, ..Default::default() };
        let mut git = Git { refs_sel: sel, ..Default::default() };
        handle_git_key(ch(c), &mut view, &mut git, &rows, 10, &footer(sel))
    };
    assert!(
        matches!(press(2, 's'), Some(Flow::Git(GitAction::Stage(p))) if p == "dirty.rs"),
        "s on an unstaged row should stage it"
    );
    assert!(
        matches!(press(4, 'u'), Some(Flow::Git(GitAction::Unstage(p))) if p == "staged.rs"),
        "u on a staged row should unstage it"
    );
    assert!(press(4, 's').is_none(), "staging what is already staged is not a thing to do");
    assert!(press(2, 'u').is_none(), "there is nothing to unstage on the worktree side");
    let mut view = Bench { page: Page::Git, focus: Focus::Refs, ..Default::default() };
    let mut git = Git { refs_sel: 2, ..Default::default() };
    handle_git_key(ch('x'), &mut view, &mut git, &rows, 10, &footer(2));
    assert!(
        matches!(&view.overlay, Some(Overlay::Confirm(c)) if !c.yes && c.header.contains("dirty.rs")),
        "{:?}",
        view.overlay
    );
}

#[test]
fn a_verb_on_a_ref_names_what_the_row_names() {
    let rows = vec![
        RefRow::Branch { name: "spike".into() },
        RefRow::Tag("v1".into()),
        RefRow::Remote { name: "origin".into() },
        RefRow::Stash { index: 3, message: "wip".into() },
        RefRow::Worktree { path: "/code/proj-spike".into(), workspace: None, here: false },
    ];
    let run = |sel: usize, id: VerbId| {
        let mut view = Bench { page: Page::Git, focus: Focus::Refs, ..Default::default() };
        let git = Git { refs_sel: sel, ..Default::default() };
        git_verb_flow(id, &mut view, &git, &rows)
    };
    assert_eq!(
        run(0, VerbId::Checkout),
        Some(Flow::Pick { target: PickTarget::Checkout, value: "spike".into() })
    );
    assert_eq!(
        run(0, VerbId::DeleteBranch),
        Some(Flow::ConfirmPick { target: PickTarget::DeleteBranch, value: "spike".into() })
    );
    assert_eq!(run(0, VerbId::Scope), Some(Flow::GitScope(GitScope::Ref("spike".into()))));
    assert_eq!(
        run(1, VerbId::TagDelete),
        Some(Flow::ConfirmPick { target: PickTarget::TagDelete, value: "v1".into() })
    );
    assert_eq!(run(2, VerbId::Fetch), Some(Flow::GitFetch("origin".into())));
    assert_eq!(
        run(3, VerbId::Show),
        Some(Flow::GitShowRev { rev: "stash@{3}".into(), title: "wip".into() })
    );
    assert_eq!(
        run(3, VerbId::StashDrop),
        Some(Flow::ConfirmPick { target: PickTarget::StashDrop, value: "3".into() })
    );
    assert_eq!(run(0, VerbId::TagDelete), Some(Flow::Continue), "a branch is not a tag");
}

#[test]
fn a_worktree_that_is_open_is_gone_to_and_another_is_opened() {
    let run = |workspace: Option<SessionId>, here: bool| {
        let rows = vec![RefRow::Worktree { path: "/code/proj-spike".into(), workspace, here }];
        let mut view = Bench { page: Page::Git, focus: Focus::Refs, ..Default::default() };
        git_verb_flow(VerbId::OpenWorktree, &mut view, &Git::default(), &rows)
    };
    let path = String::from("/code/proj-spike");
    assert_eq!(
        run(None, false),
        Some(Flow::Pick { target: PickTarget::OpenWorktree, value: path.clone() })
    );
    assert_eq!(
        run(Some(SessionId(7)), false),
        Some(Flow::GoWorktree { workspace: SessionId(7), path })
    );
    assert_eq!(run(Some(SessionId(1)), true), Some(Flow::Continue), "this is the one");
}

#[test]
fn esc_hands_the_keyboard_back_to_the_list_a_diff_came_from() {
    let commit = |id: &str| DiffKind::Commit { id: id.into(), summary: "wip".into() };
    for (kind, back) in [
        (commit("9f3c2ab"), Focus::History),
        (commit("stash@{3}"), Focus::Refs),
        (DiffKind::Unstaged { path: None }, Focus::Refs),
        (DiffKind::Staged { path: Some("a.rs".into()) }, Focus::Refs),
    ] {
        let mut view = Bench { page: Page::Git, focus: Focus::Stage, ..Default::default() };
        let mut git = Git { body: Some(DiffView::new(kind.clone())), ..Default::default() };
        handle_git_key(key(KeyCode::Esc), &mut view, &mut git, &vec![], 10, &no_footers());
        assert_eq!(view.focus, back, "{kind:?}");
        assert!(git.body.is_none());
    }
}

#[test]
fn a_verb_of_the_history_does_nothing_its_key_does_not() {
    let footers = GitFooters {
        refs: vec![],
        commit: vec![Verb { key: 'y', id: VerbId::CopySha }],
        none: vec![Verb { key: 'r', id: VerbId::Refresh }],
    };
    for log in [vec![], vec![commit("a", "one")]] {
        for c in ['y', 'r'] {
            let mut view = Bench { page: Page::Git, focus: Focus::Refs, ..Default::default() };
            let mut git = Git { log: log.clone(), ..Default::default() };
            let clicked =
                git_click(GitTarget::HistVerb(c), &mut view, &mut git, &vec![], &vec![], &footers);
            let mut view = Bench { page: Page::Git, focus: Focus::History, ..Default::default() };
            let pressed = handle_git_key(ch(c), &mut view, &mut git, &vec![], 10, &footers);
            assert_eq!(clicked, pressed, "{c} over {} commits", log.len());
            assert_eq!(clicked.is_some(), (c == 'r') == log.is_empty());
        }
    }
}

#[test]
fn the_log_is_walked_to_its_ends_and_no_further() {
    let log = vec![commit("a", "one"), commit("b", "two"), commit("c", "three")];
    let mut git = Git { log, ..Default::default() };
    let mut view = Bench { page: Page::Git, focus: Focus::History, ..Default::default() };
    for _ in 0..5 {
        handle_git_key(ch('j'), &mut view, &mut git, &vec![], 10, &no_footers());
    }
    assert_eq!(git.hist_sel, 2);
    handle_git_key(key(KeyCode::Home), &mut view, &mut git, &vec![], 10, &no_footers());
    assert_eq!(git.hist_sel, 0);
    handle_git_key(key(KeyCode::PageDown), &mut view, &mut git, &vec![], 2, &no_footers());
    assert_eq!(git.hist_sel, 2);
}

#[test]
fn esc_backs_out_of_line_select_before_it_closes_the_page() {
    let mut view = Bench { page: Page::Diff, ..Default::default() };
    let mut diff = DiffView::new(DiffKind::Unstaged { path: None });
    diff.line_select();
    assert_eq!(diff.mode, DiffMode::Lines);
    handle_diff_key(key(KeyCode::Esc), &mut view, &mut diff);
    assert_eq!(diff.mode, DiffMode::Read, "esc should have cancelled line-select");
    assert_eq!(view.page, Page::Diff, "and left the page open");
    handle_diff_key(key(KeyCode::Esc), &mut view, &mut diff);
    assert_eq!(view.page, Page::Agents);
}

#[test]
fn enter_applies_only_in_line_select() {
    let mut view = Bench { page: Page::Diff, ..Default::default() };
    let mut diff = DiffView::new(DiffKind::Unstaged { path: None });
    assert!(
        handle_diff_key(key(KeyCode::Enter), &mut view, &mut diff).is_none(),
        "enter should mean nothing while reading"
    );
    assert!(matches!(
        handle_diff_key(ch(' '), &mut view, &mut diff),
        Some(Flow::ApplyDiff { discard: false })
    ));
    diff.line_select();
    assert!(matches!(
        handle_diff_key(key(KeyCode::Enter), &mut view, &mut diff),
        Some(Flow::ApplyDiff { discard: false })
    ));
}

#[test]
fn closing_a_page_is_not_detaching() {
    for code in [KeyCode::Char('q'), KeyCode::Esc] {
        let mut view = Bench { page: Page::Diff, ..Default::default() };
        let mut diff = DiffView::default();
        let flow = handle_diff_key(key(code), &mut view, &mut diff);
        assert!(matches!(flow, Some(Flow::Continue)), "{code:?} escaped the diff page");
        assert_eq!(view.page, Page::Agents);

        let mut view = Bench { page: Page::Files, ..Default::default() };
        let mut files = Files::default();
        let flow = handle_files_key(key(code), &mut view, &mut files);
        assert!(matches!(flow, Some(Flow::Continue)), "{code:?} escaped the Files page");
        assert_eq!(view.page, Page::Agents);
    }
}

#[test]
fn a_move_in_a_diff_is_asked_of_the_text() {
    let mut view = Bench { page: Page::Diff, ..Default::default() };
    let mut diff = DiffView::new(DiffKind::Unstaged { path: None });
    handle_diff_key(ch('j'), &mut view, &mut diff);
    handle_diff_key(ch('G'), &mut view, &mut diff);
    assert_eq!(diff.steps, vec![DiffStep::Scroll(1), DiffStep::End]);
}
