use butai_workbench::menu::{agent_picker, needs_asking, pin_agent, pinned_row};
use butai_workbench::overlay::{
    apply_search, confirm, destination_prompt, handle_overlay_key, handle_prompt_key, new_folder_prompt,
    overlay_mouse,
};
use butai_workbench::path::{
    browse_new_row, browse_open_row, browse_overlay, browse_step, browse_up_row, parent_of, worktree_path,
    BrowseEntry, BrowseListing, BrowseStep,
};
use butai_workbench::text::as_one_line;
use butai_workbench::types::{
    new_search, Bench, ConfirmKind, ConfirmOverlay, Flow, KeyCode, KeyEvent, ListKind, ListOverlay, MenuAction,
    MouseEvent, MouseKind, Overlay, PickTarget, PromptKind, PromptOverlay, SearchHit, SearchOverlay,
};

const AGENT_PICKER_TITLE: &str = "SPAWN AGENT — d pins as default";

fn key(code: KeyCode) -> KeyEvent {
    KeyEvent::plain(code)
}

fn ch(c: char) -> KeyEvent {
    KeyEvent::plain(KeyCode::Char(c))
}

#[test]
fn a_typed_destination_is_dialled_verbatim() {
    let mut view = Bench { overlay: Some(destination_prompt()), ..Default::default() };
    for c in " paul@10.0.0.5 ".chars() {
        handle_prompt_key(ch(c), &mut view);
    }
    let flow = handle_prompt_key(key(KeyCode::Enter), &mut view);
    assert!(
        matches!(&flow, Flow::DialHost(t) if t == "paul@10.0.0.5"),
        "{flow:?} should have dialled the trimmed destination"
    );

    let mut empty = Bench { overlay: Some(destination_prompt()), ..Default::default() };
    let flow = handle_prompt_key(key(KeyCode::Enter), &mut empty);
    assert!(matches!(flow, Flow::Continue), "an empty box must not dial: {flow:?}");
    assert_eq!(
        empty.flash.as_deref(),
        Some("a machine needs a destination"),
        "and it must say what it wanted, not ask for a commit message"
    );
}

#[test]
fn a_rows_value_is_what_acts_and_its_label_is_what_reads() {
    let list = ListOverlay {
        title: "CHECK OUT".into(),
        items: vec!["* main".into(), "  spike".into()],
        values: Some(vec!["main".into(), "spike".into()]),
        sel: 0,
        kind: ListKind::Branch,
    };
    assert_eq!(list.chosen(), Some("main"), "the marker must not reach git");
    assert_eq!(list.chosen_label(), Some("* main"), "but the reader keeps it");

    let plain = ListOverlay {
        title: "SPAWN AGENT".into(),
        items: vec!["goose".into()],
        values: None,
        sel: 0,
        kind: ListKind::SpawnAgent,
    };
    assert_eq!(plain.chosen(), Some("goose"));
    assert_eq!(plain.chosen_label(), Some("goose"));
}

#[test]
fn d_in_the_agent_picker_pins_the_highlighted_agent() {
    let picker = |sel| {
        Overlay::List(ListOverlay {
            title: AGENT_PICKER_TITLE.into(),
            items: vec!["goose".into(), "codex".into(), "aider".into()],
            values: None,
            sel,
            kind: ListKind::SpawnAgent,
        })
    };

    let mut view = Bench { overlay: Some(picker(1)), ..Default::default() };
    let flow = handle_overlay_key(ch('d'), &mut view);
    assert!(matches!(&flow, Flow::PinAgent(Some(n)) if n == "codex"), "{flow:?}");
    assert!(view.overlay.is_none(), "a flash confirms the pin, and a modal would cover it");

    let mut view = Bench { overlay: Some(picker(1)), ..Default::default() };
    let flow = handle_overlay_key(key(KeyCode::Enter), &mut view);
    assert!(matches!(flow, Flow::Choose), "{flow:?}");

    let mut view = Bench {
        overlay: Some(Overlay::List(ListOverlay {
            title: "CHECK OUT".into(),
            items: vec!["main".into()],
            values: None,
            sel: 0,
            kind: ListKind::Branch,
        })),
        ..Default::default()
    };
    let flow = handle_overlay_key(ch('d'), &mut view);
    assert!(matches!(flow, Flow::Continue), "{flow:?}");
    assert!(view.overlay.is_some(), "and it must not close the box either");
}

#[test]
fn the_agent_picker_is_titled_after_the_key_that_pins() {
    let Ok(Overlay::List(list)) = agent_picker(vec!["goose".into(), "codex".into()], Some("codex"))
    else {
        panic!("the agent picker is a list")
    };
    assert_eq!(list.title, AGENT_PICKER_TITLE);
    assert_eq!(list.sel, 1);
    assert!(agent_picker(vec![], None).is_err(), "nothing to pick from is said, not shown");
}

#[test]
fn the_agent_picker_starts_on_the_pinned_row() {
    let items: Vec<String> = ["goose", "codex", "gemini"].iter().map(|s| s.to_string()).collect();
    assert_eq!(pinned_row(&items, Some("gemini")), 2);
    assert_eq!(pinned_row(&items, None), 0);
    assert_eq!(pinned_row(&items, Some("not-here")), 0, "a stale pin is not an error");
    assert_eq!(pinned_row(&vec![], Some("goose")), 0);
}

#[test]
fn an_unknown_agent_is_named_in_quotes() {
    let known = vec!["goose".to_string()];
    assert_eq!(pin_agent(&Some("goose".into()), &known), Ok(()));
    assert_eq!(pin_agent(&None, &known), Ok(()));
    let why = pin_agent(&Some("cl\"ude\n".into()), &known).unwrap_err();
    assert!(why.contains("\"cl\\\"ude\\n\""), "{why}");
}

#[test]
fn the_picks_that_destroy_something_ask_with_it_named() {
    for t in [
        PickTarget::DeleteBranch,
        PickTarget::StashDrop,
        PickTarget::TagDelete,
        PickTarget::RemoteRemove,
        PickTarget::RemoveWorktree,
    ] {
        assert!(t.destroys(), "{t:?} should ask");
    }
    for t in
        [PickTarget::Merge, PickTarget::Rebase, PickTarget::StashPop, PickTarget::OpenWorktree]
    {
        assert!(!t.destroys(), "{t:?} should not ask");
    }
}

#[test]
fn a_stale_search_answer_does_not_overwrite_a_newer_one() {
    let hits =
        |p: &str| vec![SearchHit { path: p.into(), line: None, preview: String::new() }];
    let mut view = Bench {
        overlay: Some(Overlay::Search(SearchOverlay {
            query: "needle".into(),
            cursor: 6,
            hits: hits("current.rs"),
            sel: 0,
            searching: true,
        })),
        ..Default::default()
    };

    apply_search(&mut view, "need", hits("stale.rs"));
    let Some(Overlay::Search(f)) = &view.overlay else { panic!() };
    assert_eq!(f.hits, hits("current.rs"), "a stale answer overwrote the live one");
    assert!(f.searching, "and it should still be waiting for its own");

    apply_search(&mut view, "needle", hits("fresh.rs"));
    let Some(Overlay::Search(f)) = &view.overlay else { panic!() };
    assert_eq!(f.hits, hits("fresh.rs"));
    assert!(!f.searching);
}

#[test]
fn a_search_hit_says_where_it_is() {
    let content =
        SearchHit { path: "src/a.rs".into(), line: Some(12), preview: "let x = 1;".into() };
    assert_eq!(SearchOverlay::label(&content), "src/a.rs:12  let x = 1;");
    let name = SearchHit { path: "src/a.rs".into(), line: None, preview: String::new() };
    assert_eq!(SearchOverlay::label(&name), "src/a.rs", "a filename match has no line");
}

#[test]
fn a_worktree_goes_beside_the_one_it_came_from() {
    assert_eq!(worktree_path("/code/proj", "spike"), "/code/proj-spike");
    assert_eq!(worktree_path("/code/proj", "feature/x"), "/code/proj-feature-x");
    assert!(!worktree_path("/code/proj", "spike").starts_with("/code/proj/"));
    assert_eq!(worktree_path("/proj", "spike"), "/proj-spike");
    assert_eq!(worktree_path("proj", "spike"), "proj-spike");
    assert_eq!(worktree_path("./proj/", "spike"), "./proj-spike");
}

#[test]
fn the_destructive_menu_rows_are_the_tables_own_list() {
    for action in [MenuAction::PushForce, MenuAction::ResetHard, MenuAction::SequenceAbort] {
        assert!(action.needs_confirm(), "{action:?} should ask first");
    }
    for action in [
        MenuAction::Fetch,
        MenuAction::Pull,
        MenuAction::Push,
        MenuAction::StashPush,
        MenuAction::Amend,
    ] {
        assert!(!action.needs_confirm(), "{action:?} should not ask");
    }
}

#[test]
fn a_destructive_row_is_asked_about_exactly_once_per_run() {
    let mut confirmed = None;

    assert!(
        needs_asking(MenuAction::ResetHard, &mut confirmed),
        "it should ask the first time"
    );
    confirmed = Some(MenuAction::ResetHard);
    assert!(
        !needs_asking(MenuAction::ResetHard, &mut confirmed),
        "the answer should let it through"
    );
    assert!(
        needs_asking(MenuAction::ResetHard, &mut confirmed),
        "and be spent, so the next run asks"
    );

    confirmed = Some(MenuAction::ResetHard);
    assert!(needs_asking(MenuAction::PushForce, &mut confirmed), "a yes is not transferable");

    let mut confirmed = None;
    assert!(!needs_asking(MenuAction::Fetch, &mut confirmed));
    assert!(!needs_asking(MenuAction::StashPush, &mut confirmed));
}

#[test]
fn browsing_a_folder_goes_where_the_row_says() {
    let (up, open, new) = (browse_up_row(), browse_open_row(), browse_new_row());
    assert_eq!(
        browse_step("/home/me/code", "proj/"),
        BrowseStep::Descend("/home/me/code/proj".into())
    );
    assert_eq!(browse_step("/home/me/code", &up), BrowseStep::Descend("/home/me".into()));
    assert_eq!(
        browse_step("/home/me/code", &open),
        BrowseStep::OpenHere("/home/me/code".into())
    );
    assert_eq!(
        browse_step("/home/me/code", &new),
        BrowseStep::NewHere("/home/me/code".into()),
        "a new folder is made in the folder on screen, not in its parent"
    );
    assert_eq!(browse_step("/", &up), BrowseStep::Descend("/".into()));
    assert_eq!(
        browse_step("/a/b", "c d/"),
        BrowseStep::Descend("/a/b/c d".into()),
        "a name with a space is one component"
    );
}

#[test]
fn the_picker_offers_to_make_a_folder_where_you_are() {
    let entry = |name: &str, is_dir| BrowseEntry { name: name.into(), is_dir };
    let listing = BrowseListing {
        path: "/home/me/code".into(),
        has_parent: true,
        entries: vec![entry("proj", true), entry("notes.md", false)],
    };
    let Overlay::List(list) = browse_overlay(listing) else { panic!("a picker is a list") };
    assert_eq!(
        list.items,
        vec![browse_open_row(), browse_new_row(), browse_up_row(), "proj/".to_string()],
        "the two verbs about here lead, then the way out, then the folders"
    );
    let ListKind::Browse { dir } = &list.kind else { panic!("a picker browses") };
    assert_eq!(browse_step(dir, &list.items[1]), BrowseStep::NewHere("/home/me/code".into()));

    let root = BrowseListing { path: "/".into(), has_parent: false, entries: Vec::new() };
    let Overlay::List(list) = browse_overlay(root) else { panic!("a picker is a list") };
    assert_eq!(list.items, vec![browse_open_row(), browse_new_row()]);
}

#[test]
fn the_directory_above_ends_at_the_root_of_the_project() {
    assert_eq!(parent_of("src/a"), Some("src".to_string()));
    assert_eq!(parent_of("src"), Some("".to_string()));
    assert_eq!(parent_of(""), None);
}

#[test]
fn a_named_folder_is_made_where_the_picker_was() {
    let mut view =
        Bench { overlay: Some(new_folder_prompt("/home/me/code")), ..Default::default() };
    for c in " new-proj ".chars() {
        handle_overlay_key(ch(c), &mut view);
    }
    let flow = handle_overlay_key(key(KeyCode::Enter), &mut view);
    assert!(
        matches!(&flow, Flow::MakeFolder { dir, name }
            if dir == "/home/me/code" && name == "new-proj"),
        "got {flow:?}"
    );
    assert!(view.overlay.is_none(), "the box closes once it has been answered");
}

#[test]
fn an_empty_folder_name_keeps_the_box_open() {
    let mut view =
        Bench { overlay: Some(new_folder_prompt("/home/me/code")), ..Default::default() };
    let flow = handle_overlay_key(key(KeyCode::Enter), &mut view);
    assert!(matches!(flow, Flow::Continue), "an unanswered box does nothing");
    let Some(Overlay::Prompt(p)) = &view.overlay else {
        panic!("the picker's step was dropped")
    };
    assert!(
        matches!(&p.kind, PromptKind::NewFolder { dir } if dir == "/home/me/code"),
        "and it still knows where it was going to make it"
    );
    assert_eq!(view.flash.as_deref(), Some("a folder needs a name"));
}

#[test]
fn a_pasted_run_flattens_to_one_line() {
    assert_eq!(as_one_line("fix\nthe thing"), "fix the thing");
    assert_eq!(as_one_line("\r\n hi \r\n\r\n"), " hi ");
    assert_eq!(as_one_line("a\r\n\tb"), "a b", "a run of them is one space");
}

#[test]
fn y_copies_the_highlighted_link_and_closes_the_picker() {
    let mut view = Bench {
        overlay: Some(Overlay::List(ListOverlay {
            title: "LINKS".into(),
            items: vec!["https://a/1".into(), "https://b/2".into()],
            values: None,
            sel: 1,
            kind: ListKind::Links,
        })),
        ..Default::default()
    };
    let flow = handle_overlay_key(ch('y'), &mut view);
    assert!(matches!(&flow, Flow::CopyLink(url) if url == "https://b/2"), "{flow:?}");
    assert!(view.overlay.is_none(), "the picker stayed open");

    view.overlay = Some(Overlay::List(ListOverlay {
        title: "BRANCH".into(),
        items: vec!["main".into()],
        values: None,
        sel: 0,
        kind: ListKind::Branch,
    }));
    assert!(matches!(handle_overlay_key(ch('y'), &mut view), Flow::Continue));
    assert!(view.overlay.is_some(), "`y` dismissed a branch list");
}

#[test]
fn f_is_a_letter_in_a_search_and_enter_opens_the_hit() {
    let mut view = Bench { overlay: Some(Overlay::Search(new_search())), ..Default::default() };
    let flow = handle_overlay_key(ch('f'), &mut view);
    assert_eq!(flow, Flow::Search("f".into()));
    apply_search(
        &mut view,
        "f",
        vec![SearchHit { path: "src/f.rs".into(), line: Some(3), preview: "fn f()".into() }],
    );
    let flow = handle_overlay_key(key(KeyCode::Enter), &mut view);
    assert_eq!(flow, Flow::OpenFileAt { path: "src/f.rs".into(), line: Some(3) });
    assert!(view.overlay.is_none());
}

#[test]
fn text_is_typed_at_the_cursor_and_taken_back_from_it() {
    let mut p = PromptOverlay {
        title: "COMMIT".into(),
        text: "ab".into(),
        cursor: 1,
        kind: PromptKind::Commit { all: false },
        subtitle: None,
    };
    p.insert('é');
    assert_eq!((p.text.as_str(), p.cursor), ("aéb", 2));
    p.edit(key(KeyCode::Backspace));
    assert_eq!((p.text.as_str(), p.cursor), ("ab", 1));
    p.edit(key(KeyCode::End));
    assert_eq!(p.cursor, 2);
    p.edit(key(KeyCode::Left));
    p.edit(key(KeyCode::Delete));
    assert_eq!((p.text.as_str(), p.cursor), ("a", 1));
}

#[test]
fn the_wheel_walks_the_list_that_is_open() {
    let mut view = Bench {
        overlay: Some(Overlay::List(ListOverlay {
            title: "SPACES".into(),
            items: vec!["a".into(), "b".into()],
            values: None,
            sel: 0,
            kind: ListKind::Space,
        })),
        ..Default::default()
    };
    let wheel =
        MouseEvent { kind: MouseKind::ScrollDown, column: 0, row: 0, alt: false, shift: false };
    for _ in 0..3 {
        overlay_mouse(&wheel, &mut view, None);
    }
    let Some(Overlay::List(l)) = &view.overlay else { panic!() };
    assert_eq!(l.sel, 1);
}

#[test]
fn a_yes_is_what_deletes() {
    let delete = |yes| Bench {
        overlay: Some(Overlay::Confirm(ConfirmOverlay {
            title: "DELETE".into(),
            header: "delete src/a.rs".into(),
            yes,
            kind: ConfirmKind::DeleteFile { path: "src/a.rs".into() },
        })),
        ..Default::default()
    };
    assert_eq!(confirm(&mut delete(true)), Flow::DeleteFile("src/a.rs".into()));
    assert_eq!(confirm(&mut delete(false)), Flow::Continue);
}

#[test]
fn every_box_refuses_in_its_own_words() {
    let kinds = [
        (PromptKind::Commit { all: false }, "a commit needs a message"),
        (PromptKind::NewBranch, "a branch needs a name"),
        (PromptKind::NewTag, "a tag needs a name"),
        (PromptKind::NewWorktree, "a worktree needs a branch"),
        (PromptKind::SshDestination, "a machine needs a destination"),
        (PromptKind::NewFolder { dir: "/a".into() }, "a folder needs a name"),
        (PromptKind::Command, "a command needs a name"),
    ];
    for (kind, words) in kinds {
        let stays = matches!(kind, PromptKind::NewFolder { .. });
        let open = Overlay::Prompt(PromptOverlay {
            title: String::new(),
            text: "  ".into(),
            cursor: 2,
            kind,
            subtitle: None,
        });
        let mut view = Bench { overlay: Some(open.clone()), ..Bench::default() };
        assert_eq!(handle_prompt_key(KeyEvent::plain(KeyCode::Enter), &mut view), Flow::Continue);
        assert_eq!(view.flash.as_deref(), Some(words));
        assert_eq!(view.overlay, if stays { Some(open) } else { None });
    }
}
