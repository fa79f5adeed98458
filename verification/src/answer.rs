//! What the event loop does with what a machine answered.
use vstd::prelude::*;

use crate::chosen::chose;
use crate::encode::url_text;
use crate::flow::{
    ask_or_say, asked_or_said, browse, browsing, choice_taken, desk_saying, flow_taken, git_wanted,
    kill_in_turn, kills_left, pick_wanted, refresh, refresh_git_if_showing, refreshed,
    refreshed_if_showing, Action, ActionModel, ActionOf, Session, SessionModel, Tables, Then,
    ThenModel, ThenOf,
};
use crate::git::{fresh_diff, DiffMode, DiffViewModel, DiffViewOf, GitOf};
use crate::input::{Desk, DeskModel};
use crate::menu::{
    agent_list, agent_picker, branch_list, branch_picker, pick_overlay, pick_source, picked_from,
    source_of, MenuStep, MenuStepOf, PickRows,
};
use crate::overlay::{apply_search, search_answered};
use crate::pages::{
    entries_model, opened, tree_showing, Editor, EditorOf, FileEntry, FilesModel, FilesOf, Usage,
};
use crate::path::{browse_overlay, folder_list, BrowseListing};
use crate::project::{opt_kind, Workspace};
use crate::request::{
    apply_diff, diff_request, dir_request, fetch_diff, fetch_dir, let_restarted_go, listed,
    read_list, restarted, route_at, save_file, upload_of, workspace_post, FieldOf, RequestModel,
};
use crate::roster::{active_daemon, active_workspace, daemon_of, workspace_of, Daemon};
use crate::session::{
    at_line, change_shown, closed_one, commit_shown, diff_applied, diff_shown, file_after_save,
    file_deleted, file_read, file_saved, open_or_say, opened_or_said, say_error, saying,
    search_ended, search_failed, tree_read, tried, usage_read, workspace_closed,
};
use crate::settings::{settings_palette, worn, Settings, SettingsGroup};
use crate::text::{cat, opt_text, same, texts};
use crate::types::{
    hits_model, BenchModel, BenchOf, DiffKind, FlowModel, Focus, ListKind, ListKindOf, Page,
    SearchHit,
};

verus! {

/// What a machine answered.
#[derive(Clone, Debug, PartialEq, Eq)]
pub enum Answer {
    /// The names of the agents that can be spawned.
    Agents(Vec<String>),
    /// How many rows the usage has.
    Usage(usize),
    /// What there is to pick from.
    Rows(PickRows),
    /// What a search found.
    Hits(Vec<SearchHit>),
    /// A folder of the machine.
    Folder(BrowseListing),
    /// A folder of the workspace.
    Entries(Vec<FileEntry>),
    /// A file, by the path the machine has for it. Its text stays with whoever
    /// draws it.
    File(String),
    /// A diff. Its text stays with whoever draws it.
    Diff,
    /// That it was done.
    Done,
}

/// Whether something was done.
pub open spec fn outcome(r: Result<Answer, String>) -> Result<(), String> {
    match r {
        Ok(_) => Ok(()),
        Err(e) => Err(e),
    }
}

fn to_outcome(r: Result<Answer, String>) -> (o: Result<(), String>)
    ensures
        o == outcome(r),
{
    match r {
        Ok(_) => Ok(()),
        Err(e) => Err(e),
    }
}

/// What follows a list of branches: `again` has the git page read again where
/// it is showing.
pub open spec fn afterwards(again: bool, d: DeskModel, s: SessionModel, open: bool) -> (
    DeskModel,
    SessionModel,
    ActionModel,
) {
    if again {
        refreshed_if_showing(d, s, open)
    } else {
        (d, s, ActionOf::Draw)
    }
}

fn go_on(again: bool, desk: &mut Desk, s: &mut Session, open: bool) -> (a: Action)
    ensures
        (final(desk)@, final(s)@, a@) == afterwards(again, old(desk)@, old(s)@, open),
{
    if again {
        refresh_git_if_showing(desk, s, open)
    } else {
        Action::Draw
    }
}

/// What going on with a row of the git menu asks, or what is said instead. A
/// list to pick from is headed `title`.
pub open spec fn menu_stepped(
    step: MenuStepOf<RequestModel>,
    title: Seq<char>,
    d: DeskModel,
    s: SessionModel,
    daemons: Seq<Daemon>,
) -> (DeskModel, SessionModel, ActionModel) {
    let here = daemon_of(daemons, d.view.tab);
    let ws = match workspace_of(daemons, d.view.tab) {
        Some(w) => Some(&w),
        None => None,
    };
    match step {
        MenuStepOf::Asked => refreshed_if_showing(d, s, ws is Some),
        MenuStepOf::PickBranch => match listed(ws, "branches"@) {
            Ok(request) => (
                d,
                s,
                ActionOf::Ask {
                    daemon: here,
                    request,
                    then: ThenOf::Branches { about: Seq::empty(), again: true },
                },
            ),
            Err(e) => refreshed_if_showing(desk_saying(d, e), s, ws is Some),
        },
        MenuStepOf::Pick(target) => match source_of(target, title) {
            Ok(source) => match listed(ws, source.route()) {
                Ok(request) => (
                    d,
                    s,
                    ActionOf::Ask {
                        daemon: here,
                        request,
                        then: ThenOf::Pick { target, title },
                    },
                ),
                Err(e) => refreshed_if_showing(desk_saying(d, e), s, ws is Some),
            },
            Err(e) => refreshed_if_showing(
                desk_saying(
                    d,
                    if ws is None {
                        "no workspace open"@
                    } else {
                        e
                    },
                ),
                s,
                ws is Some,
            ),
        },
        MenuStepOf::Send(request) => (
            d,
            s,
            ActionOf::Ask { daemon: here, request, then: ThenOf::Repository },
        ),
    }
}

/// Goes on with a row of the git menu.
pub fn run_menu_step(
    step: MenuStep,
    title: String,
    desk: &mut Desk,
    s: &mut Session,
    daemons: &Vec<Daemon>,
    hosts: &Vec<Option<String>>,
) -> (a: Action)
    ensures
        (final(desk)@, final(s)@, a@) == menu_stepped(
            crate::flow::menu_model(step),
            title@,
            old(desk)@,
            old(s)@,
            daemons@,
        ),
{
    let here: usize = active_daemon(daemons, hosts, &desk.view);
    let ws = active_workspace(daemons, hosts, &desk.view);
    let open = ws.is_some();
    match step {
        MenuStepOf::Asked => refresh_git_if_showing(desk, s, open),
        MenuStepOf::PickBranch => match read_list(ws, "branches") {
            Ok(request) => Action::Ask {
                daemon: here,
                request,
                then: Then::Branches { about: String::new(), again: true },
            },
            Err(e) => {
                desk.view.flash = Some(e);
                refresh_git_if_showing(desk, s, open)
            },
        },
        MenuStepOf::Pick(target) => match pick_source(target, title.as_str()) {
            Ok(source) => match read_list(ws, source.tail()) {
                Ok(request) => Action::Ask {
                    daemon: here,
                    request,
                    then: Then::Pick { target, title },
                },
                Err(e) => {
                    desk.view.flash = Some(e);
                    refresh_git_if_showing(desk, s, open)
                },
            },
            Err(e) => {
                desk.view.flash = Some(
                    if open {
                        e
                    } else {
                        "no workspace open".to_owned()
                    },
                );
                refresh_git_if_showing(desk, s, open)
            },
        },
        MenuStepOf::Send(request) => Action::Ask {
            daemon: here,
            request,
            then: Then::Repository,
        },
    }
}

/// Whether an answer opens a box or fills a page of its own.
pub open spec fn fills_list(t: ThenModel) -> bool {
    t is Agents || t is Usage || t is Branches || t is Pick || t is Search || t is Browse
        || t is MakeFolder
}

/// What an answer that opens a box or fills a page of its own does. One of
/// another kind than was asked for changes nothing.
#[verifier::opaque]
pub open spec fn list_answered(
    t: ThenModel,
    r: Result<Answer, String>,
    d: DeskModel,
    s: SessionModel,
    daemons: Seq<Daemon>,
    hosts: Seq<Option<String>>,
    open: bool,
) -> (DeskModel, SessionModel, ActionModel) {
    let v = d.view;
    let with = |v: BenchModel| DeskModel { view: v, ..d };
    match t {
        ThenOf::Agents => (
            with(
                match r {
                    Ok(Answer::Agents(items)) => opened_or_said(
                        v,
                        "agents: "@,
                        agent_list(texts(items@), v.pinned_agent),
                    ),
                    Ok(_) => v,
                    Err(e) => saying(v, "agents: "@ + e@),
                },
            ),
            s,
            ActionOf::Draw,
        ),
        ThenOf::Usage => (
            match r {
                Ok(Answer::Usage(rows)) => DeskModel { usage: usage_of(d.usage, rows), ..d },
                Ok(_) => d,
                Err(e) => desk_saying(d, "usage: "@ + e@),
            },
            s,
            ActionOf::Draw,
        ),
        ThenOf::Branches { about, again } => afterwards(
            again,
            with(
                match r {
                    Ok(Answer::Rows(PickRows::Branches { branches, current })) => opened_or_said(
                        v,
                        about,
                        branch_list(
                            branches@,
                            opt_text(current),
                            ListKindOf::Branch,
                            "CHECK OUT"@,
                        ),
                    ),
                    Ok(_) => v,
                    Err(e) => saying(v, about + e@),
                },
            ),
            s,
            open,
        ),
        ThenOf::Pick { target, title } => refreshed_if_showing(
            with(
                match r {
                    Ok(Answer::Rows(rows)) => opened_or_said(
                        v,
                        Seq::empty(),
                        picked_from(target, title, rows),
                    ),
                    Ok(_) => v,
                    Err(e) => saying(v, e@),
                },
            ),
            s,
            open,
        ),
        ThenOf::Search(query) => (
            with(
                match r {
                    Ok(Answer::Hits(hits)) => search_answered(v, query, hits_model(hits@)),
                    Ok(_) => v,
                    Err(e) => search_ended(v, e@),
                },
            ),
            s,
            ActionOf::Draw,
        ),
        ThenOf::Browse(about) => (
            with(
                match r {
                    Ok(Answer::Folder(l)) => BenchOf { overlay: Some(folder_list(l)), ..v },
                    Ok(_) => v,
                    Err(e) => saying(v, about + e@),
                },
            ),
            s,
            ActionOf::Draw,
        ),
        ThenOf::MakeFolder(dir) => match r {
            Ok(Answer::Folder(l)) => (
                with(BenchOf { overlay: Some(folder_list(l)), ..v }),
                s,
                ActionOf::Draw,
            ),
            Ok(_) => (d, s, ActionOf::Draw),
            Err(e) => {
                let (d, a) = browsing(desk_saying(d, "new folder: "@ + e@), daemons, hosts, dir);
                (d, s, a)
            },
        },
        _ => (d, s, ActionOf::Draw),
    }
}

/// The usage with so many rows, its cursor among them.
pub open spec fn usage_of(u: Usage, rows: usize) -> Usage {
    Usage { rows, sel: crate::bench::stepped(u.sel as int, 0, rows as int) as usize, loaded: true }
}

#[verifier::rlimit(60)]
fn take_list(
    then: Then,
    r: Result<Answer, String>,
    desk: &mut Desk,
    s: &mut Session,
    daemons: &Vec<Daemon>,
    hosts: &Vec<Option<String>>,
    open: bool,
) -> (a: Action)
    requires
        daemons@.len() > 1 ==> daemons@.len() <= hosts@.len(),
    ensures
        (final(desk)@, final(s)@, a@) == list_answered(
            then@,
            r,
            old(desk)@,
            old(s)@,
            daemons@,
            hosts@,
            open,
        ),
{
    reveal(list_answered);
    match then {
        ThenOf::Agents => {
            match r {
                Ok(Answer::Agents(items)) => {
                    let pinned = crate::text::clone_opt(&desk.view.pinned_agent);
                    let list = match &pinned {
                        Some(p) => agent_picker(items, Some(p.as_str())),
                        None => agent_picker(items, None),
                    };
                    open_or_say(&mut desk.view, "agents: ", list);
                },
                Ok(_) => {},
                Err(e) => {
                    desk.view.flash = Some(cat("agents: ", e.as_str()));
                },
            }
            Action::Draw
        },
        ThenOf::Usage => {
            match r {
                Ok(Answer::Usage(rows)) => usage_read(&mut desk.usage, &mut desk.view, Ok(rows)),
                Ok(_) => {},
                Err(e) => usage_read(&mut desk.usage, &mut desk.view, Err(e)),
            }
            Action::Draw
        },
        ThenOf::Branches { about, again } => {
            match r {
                Ok(Answer::Rows(PickRows::Branches { branches, current })) => {
                    let list = branch_picker(branches, current, ListKind::Branch, "CHECK OUT");
                    open_or_say(&mut desk.view, about.as_str(), list);
                },
                Ok(_) => {},
                Err(e) => {
                    desk.view.flash = Some(cat(about.as_str(), e.as_str()));
                },
            }
            go_on(again, desk, s, open)
        },
        ThenOf::Pick { target, title } => {
            match r {
                Ok(Answer::Rows(rows)) => {
                    let list = pick_overlay(target, title.as_str(), rows);
                    let nothing = String::new();
                    open_or_say(&mut desk.view, nothing.as_str(), list);
                },
                Ok(_) => {},
                Err(e) => {
                    desk.view.flash = Some(e);
                },
            }
            refresh_git_if_showing(desk, s, open)
        },
        ThenOf::Search(query) => {
            match r {
                Ok(Answer::Hits(hits)) => apply_search(&mut desk.view, query.as_str(), hits),
                Ok(_) => {},
                Err(e) => search_failed(&mut desk.view, e.as_str()),
            }
            Action::Draw
        },
        ThenOf::Browse(about) => {
            match r {
                Ok(Answer::Folder(l)) => {
                    desk.view.overlay = Some(browse_overlay(l));
                },
                Ok(_) => {},
                Err(e) => {
                    desk.view.flash = Some(cat(about.as_str(), e.as_str()));
                },
            }
            Action::Draw
        },
        ThenOf::MakeFolder(dir) => match r {
            Ok(Answer::Folder(l)) => {
                desk.view.overlay = Some(browse_overlay(l));
                Action::Draw
            },
            Ok(_) => Action::Draw,
            Err(e) => {
                desk.view.flash = Some(cat("new folder: ", e.as_str()));
                browse(desk, daemons, hosts, dir.as_str())
            },
        },
        _ => Action::Draw,
    }
}

/// The tree of the page that is showing.
pub open spec fn shown_tree(d: DeskModel) -> FilesModel {
    if d.view.page is Docs {
        d.docs
    } else {
        d.files
    }
}

/// A screen with another tree on the page that is showing.
pub open spec fn with_tree(d: DeskModel, f: FilesModel) -> DeskModel {
    if d.view.page is Docs {
        DeskModel { docs: f, ..d }
    } else {
        DeskModel { files: f, ..d }
    }
}

/// A tree without a file that was open in it.
pub open spec fn shut(f: FilesModel, path: Seq<char>) -> FilesModel {
    FilesOf {
        open: match f.open {
            Some(e) => if e.path == path {
                None
            } else {
                Some(e)
            },
            None => None,
        },
        ..f
    }
}

/// A tree whose open file was being saved.
pub open spec fn after_save(f: FilesModel, r: Result<(), String>) -> FilesModel {
    FilesOf {
        open: match f.open {
            Some(e) => Some(file_after_save(e, r)),
            None => None,
        },
        ..f
    }
}

/// Whether an answer is a text or a folder of the workspace.
pub open spec fn brings_text(t: ThenModel) -> bool {
    t is Tree || t is File || t is Saved || t is Deleted || t is Diff || t is Shown || t is Change
}

/// What an answer that is a text or a folder of the workspace does. A file that
/// was deleted has the folder that is showing read again.
#[verifier::opaque]
pub open spec fn text_answered(
    t: ThenModel,
    r: Result<Answer, String>,
    d: DeskModel,
    here: usize,
    ws: Option<&Workspace>,
) -> (DeskModel, ActionModel) {
    let v = d.view;
    let f = shown_tree(d);
    match t {
        ThenOf::Tree(dir) => (
            match r {
                Ok(Answer::Entries(entries)) => with_tree(
                    d,
                    tree_showing(f, entries_model(entries@), dir),
                ),
                Ok(_) => d,
                Err(e) => desk_saying(d, "tree: "@ + e@),
            },
            ActionOf::Draw,
        ),
        ThenOf::File { line, .. } => (
            match r {
                Ok(Answer::File(path)) => with_tree(
                    d,
                    FilesOf { open: Some(at_line(opened(path@), line)), ..f },
                ),
                Ok(_) => d,
                Err(e) => desk_saying(d, "file: "@ + e@),
            },
            ActionOf::Draw,
        ),
        ThenOf::Saved => (with_tree(d, after_save(f, outcome(r))), ActionOf::Draw),
        ThenOf::Deleted(path) => match r {
            Ok(_) => asked_or_said(
                with_tree(d, shut(f, path)),
                "tree: "@,
                here,
                dir_request(ws, v.page, f.dir),
                ThenOf::Tree(f.dir),
            ),
            Err(e) => (desk_saying(d, "delete: "@ + e@), ActionOf::Draw),
        },
        ThenOf::Diff { kind, keep_cursor } => (
            match r {
                Ok(_) => DeskModel {
                    diff: if keep_cursor {
                        d.diff
                    } else {
                        fresh_diff(kind)
                    },
                    view: BenchOf { page: Page::Diff, ..v },
                    ..d
                },
                Err(e) => desk_saying(d, "diff: "@ + e@),
            },
            ActionOf::Draw,
        ),
        ThenOf::Shown(kind) => (
            match r {
                Ok(_) => DeskModel {
                    git: GitOf { body: Some(fresh_diff(kind)), ..d.git },
                    ..d
                },
                Err(e) => desk_saying(d, "show: "@ + e@),
            },
            ActionOf::Draw,
        ),
        ThenOf::Change { kind, keep_cursor } => (
            match r {
                Ok(_) => DeskModel {
                    git: if keep_cursor && d.git.body is Some {
                        d.git
                    } else {
                        GitOf { body: Some(fresh_diff(kind)), ..d.git }
                    },
                    view: if keep_cursor {
                        v
                    } else {
                        BenchOf { focus: Focus::Stage, ..v }
                    },
                    ..d
                },
                Err(e) => desk_saying(d, "diff: "@ + e@),
            },
            ActionOf::Draw,
        ),
        _ => (d, ActionOf::Draw),
    }
}

fn take_tree(dir: String, r: Result<Vec<FileEntry>, String>, desk: &mut Desk)
    ensures
        final(desk)@ == (match r {
            Ok(entries) => with_tree(
                old(desk)@,
                tree_showing(shown_tree(old(desk)@), entries_model(entries@), dir@),
            ),
            Err(e) => desk_saying(old(desk)@, "tree: "@ + e@),
        }),
{
    if desk.view.page == Page::Docs {
        tree_read(&mut desk.docs, &mut desk.view, dir, r);
    } else {
        tree_read(&mut desk.files, &mut desk.view, dir, r);
    }
}

fn take_file(line: Option<u32>, r: Result<String, String>, desk: &mut Desk)
    ensures
        final(desk)@ == (match r {
            Ok(path) => with_tree(
                old(desk)@,
                FilesOf { open: Some(at_line(opened(path@), line)), ..shown_tree(old(desk)@) },
            ),
            Err(e) => desk_saying(old(desk)@, "file: "@ + e@),
        }),
{
    let file: Result<Editor, String> = match r {
        Ok(path) => Ok(Editor::new(path)),
        Err(e) => Err(e),
    };
    if desk.view.page == Page::Docs {
        file_read(&mut desk.docs, &mut desk.view, line, file);
    } else {
        file_read(&mut desk.files, &mut desk.view, line, file);
    }
}

fn take_saved(r: Result<(), String>, desk: &mut Desk)
    ensures
        final(desk)@ == with_tree(old(desk)@, after_save(shown_tree(old(desk)@), r)),
{
    if desk.view.page == Page::Docs {
        file_saved(&mut desk.docs, r);
    } else {
        file_saved(&mut desk.files, r);
    }
}

fn take_deleted(
    path: &str,
    r: Result<(), String>,
    desk: &mut Desk,
    here: usize,
    ws: Option<&Workspace>,
) -> (a: Action)
    ensures
        (final(desk)@, a@) == (match r {
            Ok(_) => asked_or_said(
                with_tree(old(desk)@, shut(shown_tree(old(desk)@), path@)),
                "tree: "@,
                here,
                dir_request(ws, old(desk)@.view.page, shown_tree(old(desk)@).dir),
                ThenOf::Tree(shown_tree(old(desk)@).dir),
            ),
            Err(e) => (desk_saying(old(desk)@, "delete: "@ + e@), ActionOf::Draw),
        }),
{
    let dir = if desk.view.page == Page::Docs {
        file_deleted(&mut desk.docs, &mut desk.view, path, r)
    } else {
        file_deleted(&mut desk.files, &mut desk.view, path, r)
    };
    match dir {
        Some(dir) => {
            let q = fetch_dir(ws, desk.view.page, dir.as_str());
            ask_or_say(desk, "tree: ", here, q, Then::Tree(dir))
        },
        None => Action::Draw,
    }
}

#[verifier::rlimit(60)]
fn take_text(
    then: Then,
    r: Result<Answer, String>,
    desk: &mut Desk,
    here: usize,
    ws: Option<&Workspace>,
) -> (a: Action)
    ensures
        (final(desk)@, a@) == text_answered(then@, r, old(desk)@, here, ws),
{
    reveal(text_answered);
    match then {
        ThenOf::Tree(dir) => {
            match r {
                Ok(Answer::Entries(entries)) => take_tree(dir, Ok(entries), desk),
                Ok(_) => {},
                Err(e) => take_tree(dir, Err(e), desk),
            }
            Action::Draw
        },
        ThenOf::File { line, .. } => {
            match r {
                Ok(Answer::File(path)) => take_file(line, Ok(path), desk),
                Ok(_) => {},
                Err(e) => take_file(line, Err(e), desk),
            }
            Action::Draw
        },
        ThenOf::Saved => {
            take_saved(to_outcome(r), desk);
            Action::Draw
        },
        ThenOf::Deleted(path) => take_deleted(path.as_str(), to_outcome(r), desk, here, ws),
        ThenOf::Diff { kind, keep_cursor } => {
            diff_shown(&mut desk.diff, &mut desk.view, kind, keep_cursor, to_outcome(r));
            Action::Draw
        },
        ThenOf::Shown(kind) => {
            commit_shown(&mut desk.git, &mut desk.view, kind, to_outcome(r));
            Action::Draw
        },
        ThenOf::Change { kind, keep_cursor } => {
            change_shown(&mut desk.git, &mut desk.view, kind, keep_cursor, to_outcome(r));
            Action::Draw
        },
        _ => Action::Draw,
    }
}

/// The diff that is showing: the one beside the history on the git page, and
/// the one on the page of its own elsewhere.
pub open spec fn shown_diff(d: DeskModel) -> Option<DiffViewModel> {
    if d.view.page is Git {
        d.git.body
    } else {
        Some(d.diff)
    }
}

/// A screen with another diff in the place of the one that is showing.
pub open spec fn with_diff(d: DeskModel, diff: DiffViewModel) -> DeskModel {
    if d.view.page is Git {
        if d.git.body is Some {
            DeskModel { git: GitOf { body: Some(diff), ..d.git }, ..d }
        } else {
            d
        }
    } else {
        DeskModel { diff, ..d }
    }
}

/// A screen whose diff says something below it, where there is one.
pub open spec fn diff_saying(d: DeskModel, what: Seq<char>) -> DeskModel {
    match shown_diff(d) {
        Some(diff) => with_diff(d, DiffViewOf { notice: Some(what), ..diff }),
        None => d,
    }
}

fn say_below(what: String, desk: &mut Desk)
    ensures
        final(desk)@ == diff_saying(old(desk)@, what@),
{
    if desk.view.page == Page::Git {
        let open = desk.git.body.take();
        if let Some(mut diff) = open {
            diff.notice = Some(what);
            desk.git.body = Some(diff);
        }
    } else {
        desk.diff.notice = Some(what);
    }
}

/// A screen whose diff no longer has its lines picked.
pub open spec fn no_longer_picking(d: DeskModel) -> DeskModel {
    match shown_diff(d) {
        Some(diff) => with_diff(d, DiffViewOf { mode: DiffMode::Read, ..diff }),
        None => d,
    }
}

fn stop_picking(desk: &mut Desk) -> (again: Option<DiffKind>)
    ensures
        final(desk)@ == no_longer_picking(old(desk)@),
        opt_kind(again) == (match shown_diff(old(desk)@) {
            Some(diff) => diff.kind,
            None => None,
        }),
{
    if desk.view.page == Page::Git {
        let open = desk.git.body.take();
        match open {
            Some(mut diff) => {
                let again = diff_applied(&mut diff);
                desk.git.body = Some(diff);
                again
            },
            None => None,
        }
    } else {
        diff_applied(&mut desk.diff)
    }
}

/// What the answer to part of a diff being applied does: the lines are no
/// longer picked and the diff is read again, or it says why not.
#[verifier::opaque]
pub open spec fn apply_answered(
    r: Result<Answer, String>,
    d: DeskModel,
    s: SessionModel,
    here: usize,
    ws: Option<&Workspace>,
) -> (DeskModel, SessionModel, ActionModel) {
    match r {
        Ok(_) => {
            let after = no_longer_picking(d);
            let kind = match shown_diff(d) {
                Some(diff) => diff.kind,
                None => None,
            };
            match kind {
                Some(kind) => match diff_request(ws, kind) {
                    Ok(request) => (
                        after,
                        s,
                        ActionOf::Ask { daemon: here, request, then: ThenOf::Reread },
                    ),
                    Err(e) => refreshed_if_showing(
                        diff_saying(after, "refresh: "@ + e),
                        s,
                        ws is Some,
                    ),
                },
                None => refreshed_if_showing(after, s, ws is Some),
            }
        },
        Err(e) => refreshed_if_showing(diff_saying(d, e@), s, ws is Some),
    }
}

fn take_applied(
    r: Result<Answer, String>,
    desk: &mut Desk,
    s: &mut Session,
    here: usize,
    ws: Option<&Workspace>,
) -> (a: Action)
    ensures
        (final(desk)@, final(s)@, a@) == apply_answered(r, old(desk)@, old(s)@, here, ws),
{
    reveal(apply_answered);
    match r {
        Ok(_) => match stop_picking(desk) {
            Some(kind) => match fetch_diff(ws, &kind) {
                Ok(request) => Action::Ask { daemon: here, request, then: Then::Reread },
                Err(e) => {
                    say_below(cat("refresh: ", e.as_str()), desk);
                    refresh_git_if_showing(desk, s, ws.is_some())
                },
            },
            None => refresh_git_if_showing(desk, s, ws.is_some()),
        },
        Err(e) => {
            say_below(e, desk);
            refresh_git_if_showing(desk, s, ws.is_some())
        },
    }
}

/// What a diff that was read again does: it says why it could not be, and on
/// the git page the history is read again too.
#[verifier::opaque]
pub open spec fn reread(r: Result<Answer, String>, d: DeskModel, s: SessionModel, open: bool) -> (
    DeskModel,
    SessionModel,
    ActionModel,
) {
    refreshed_if_showing(
        match r {
            Ok(_) => d,
            Err(e) => diff_saying(d, "refresh: "@ + e@),
        },
        s,
        open,
    )
}

fn take_reread(r: Result<Answer, String>, desk: &mut Desk, s: &mut Session, open: bool) -> (a: Action)
    ensures
        (final(desk)@, final(s)@, a@) == reread(r, old(desk)@, old(s)@, open),
{
    reveal(reread);
    if let Err(e) = r {
        say_below(cat("refresh: ", e.as_str()), desk);
    }
    refresh_git_if_showing(desk, s, open)
}

/// What is selected of a diff: a patch, what it is to be applied to, and
/// whether it is to be taken back out.
pub struct Selected {
    pub patch: String,
    pub target: String,
    pub reverse: bool,
}

/// What applying what is selected of a diff asks, or what the diff says
/// instead.
pub open spec fn selection_applied(
    sel: Option<Selected>,
    d: DeskModel,
    s: SessionModel,
    daemons: Seq<Daemon>,
) -> (DeskModel, SessionModel, ActionModel) {
    let ws = match workspace_of(daemons, d.view.tab) {
        Some(w) => Some(&w),
        None => None,
    };
    match sel {
        None => refreshed_if_showing(d, s, ws is Some),
        Some(sel) => match workspace_post(
            ws,
            "git/apply"@,
            seq![
                ("patch"@, FieldOf::Text(sel.patch@)),
                ("target"@, FieldOf::Text(sel.target@)),
                ("reverse"@, FieldOf::Flag(sel.reverse)),
            ],
        ) {
            Ok(request) => (
                d,
                s,
                ActionOf::Ask {
                    daemon: daemon_of(daemons, d.view.tab),
                    request,
                    then: ThenOf::Applied,
                },
            ),
            Err(e) => refreshed_if_showing(diff_saying(d, e), s, ws is Some),
        },
    }
}

/// Applies what is selected of the diff that is showing.
pub fn apply_selected(
    sel: Option<Selected>,
    desk: &mut Desk,
    s: &mut Session,
    daemons: &Vec<Daemon>,
    hosts: &Vec<Option<String>>,
) -> (a: Action)
    ensures
        (final(desk)@, final(s)@, a@) == selection_applied(sel, old(desk)@, old(s)@, daemons@),
{
    let here: usize = active_daemon(daemons, hosts, &desk.view);
    let ws = active_workspace(daemons, hosts, &desk.view);
    match sel {
        None => refresh_git_if_showing(desk, s, ws.is_some()),
        Some(sel) => match apply_diff(ws, sel.patch.as_str(), sel.target.as_str(), sel.reverse) {
            Ok(request) => Action::Ask { daemon: here, request, then: Then::Applied },
            Err(e) => {
                say_below(e, desk);
                refresh_git_if_showing(desk, s, ws.is_some())
            },
        },
    }
}

/// What saving the open file asks, or what the file says instead.
pub open spec fn save_wanted(
    path: Seq<char>,
    contents: Seq<char>,
    d: DeskModel,
    daemons: Seq<Daemon>,
) -> (DeskModel, ActionModel) {
    match workspace_of(daemons, d.view.tab) {
        Some(w) => (
            d,
            ActionOf::Ask {
                daemon: daemon_of(daemons, d.view.tab),
                request: upload_of(route_at(w.id, "upload?path="@ + url_text(path)), contents),
                then: ThenOf::Saved,
            },
        ),
        None => (
            with_tree(
                d,
                FilesOf {
                    open: match shown_tree(d).open {
                        Some(e) => Some(
                            EditorOf { notice: Some("save failed: no workspace open"@), ..e },
                        ),
                        None => None,
                    },
                    ..shown_tree(d)
                },
            ),
            ActionOf::Draw,
        ),
    }
}

/// Saves a text as the open file.
pub fn save_open(
    path: &str,
    contents: &str,
    desk: &mut Desk,
    daemons: &Vec<Daemon>,
    hosts: &Vec<Option<String>>,
) -> (a: Action)
    ensures
        (final(desk)@, a@) == save_wanted(path@, contents@, old(desk)@, daemons@),
{
    let here: usize = active_daemon(daemons, hosts, &desk.view);
    let ws = active_workspace(daemons, hosts, &desk.view);
    match save_file(ws, path, contents) {
        Ok(request) => Action::Ask { daemon: here, request, then: Then::Saved },
        Err(e) => {
            proof {
                reveal_strlit("save failed: ");
                reveal_strlit("no workspace open");
                reveal_strlit("save failed: no workspace open");
                assert("save failed: "@ + "no workspace open"@
                    =~= "save failed: no workspace open"@);
            }
            take_saved(Err(e), desk);
            Action::Draw
        },
    }
}

/// What the answer to something that was done does. Panes that are still to be
/// killed are left alone once one could not be.
#[verifier::opaque]
pub open spec fn deed_answered(
    t: ThenModel,
    r: Result<Answer, String>,
    d: DeskModel,
    s: SessionModel,
    machines: int,
    open: bool,
) -> (DeskModel, SessionModel, ActionModel) {
    let v = d.view;
    let with = |v: BenchModel| DeskModel { view: v, ..d };
    match t {
        ThenOf::Restarted(pane) => (
            match r {
                Ok(_) => with(restarted(v, pane)),
                Err(e) => desk_saying(d, e@),
            },
            s,
            ActionOf::Draw,
        ),
        ThenOf::Killed(rest) => match r {
            Ok(_) => {
                let (d, a) = kills_left(d, machines, rest);
                (d, s, a)
            },
            Err(e) => (desk_saying(d, e@), s, ActionOf::Draw),
        },
        ThenOf::Closed => (with(closed_one(v, outcome(r))), s, ActionOf::Draw),
        ThenOf::Fetched => refreshed(with(tried(v, "fetch: "@, outcome(r))), s, open),
        ThenOf::Repository => refreshed_if_showing(
            match r {
                Ok(_) => d,
                Err(e) => desk_saying(d, e@),
            },
            s,
            open,
        ),
        _ => (
            match r {
                Ok(_) => d,
                Err(e) => desk_saying(d, e@),
            },
            s,
            ActionOf::Draw,
        ),
    }
}

#[verifier::rlimit(40)]
fn take_deed(
    then: Then,
    r: Result<Answer, String>,
    desk: &mut Desk,
    s: &mut Session,
    machines: usize,
    open: bool,
) -> (a: Action)
    ensures
        (final(desk)@, final(s)@, a@) == deed_answered(
            then@,
            r,
            old(desk)@,
            old(s)@,
            machines as int,
            open,
        ),
{
    reveal(deed_answered);
    match then {
        ThenOf::Restarted(pane) => {
            match r {
                Ok(_) => let_restarted_go(&mut desk.view, pane),
                Err(e) => {
                    desk.view.flash = Some(e);
                },
            }
            Action::Draw
        },
        ThenOf::Killed(rest) => match r {
            Ok(_) => kill_in_turn(desk, machines, rest),
            Err(e) => {
                desk.view.flash = Some(e);
                Action::Draw
            },
        },
        ThenOf::Closed => {
            workspace_closed(&mut desk.view, to_outcome(r));
            Action::Draw
        },
        ThenOf::Fetched => {
            say_error(&mut desk.view, "fetch: ", to_outcome(r));
            refresh(desk, s, open)
        },
        ThenOf::Repository => {
            if let Err(e) = r {
                desk.view.flash = Some(e);
            }
            refresh_git_if_showing(desk, s, open)
        },
        _ => {
            if let Err(e) = r {
                desk.view.flash = Some(e);
            }
            Action::Draw
        },
    }
}

/// What the event loop does with what a machine answered: what becomes of the
/// screen and of what the loop holds, and the work that is to be done next.
pub open spec fn answer_taken(
    t: ThenModel,
    r: Result<Answer, String>,
    d: DeskModel,
    s: SessionModel,
    daemons: Seq<Daemon>,
    hosts: Seq<Option<String>>,
) -> (DeskModel, SessionModel, ActionModel) {
    let here = daemon_of(daemons, d.view.tab);
    let ws = match workspace_of(daemons, d.view.tab) {
        Some(w) => Some(&w),
        None => None,
    };
    if fills_list(t) {
        list_answered(t, r, d, s, daemons, hosts, ws is Some)
    } else if brings_text(t) {
        let (d, a) = text_answered(t, r, d, here, ws);
        (d, s, a)
    } else if t is Applied {
        apply_answered(r, d, s, here, ws)
    } else if t is Reread {
        reread(r, d, s, ws is Some)
    } else {
        deed_answered(t, r, d, s, daemons.len() as int, ws is Some)
    }
}

/// Takes in what a machine answered, or why it did not, and says what work is
/// to be done next.
pub fn answered(
    then: Then,
    r: Result<Answer, String>,
    desk: &mut Desk,
    s: &mut Session,
    daemons: &Vec<Daemon>,
    hosts: &Vec<Option<String>>,
) -> (a: Action)
    requires
        daemons@.len() > 1 ==> daemons@.len() <= hosts@.len(),
    ensures
        (final(desk)@, final(s)@, a@) == answer_taken(
            then@,
            r,
            old(desk)@,
            old(s)@,
            daemons@,
            hosts@,
        ),
{
    let here: usize = active_daemon(daemons, hosts, &desk.view);
    let ws = active_workspace(daemons, hosts, &desk.view);
    match &then {
        ThenOf::Agents
        | ThenOf::Usage
        | ThenOf::Branches { .. }
        | ThenOf::Pick { .. }
        | ThenOf::Search(_)
        | ThenOf::Browse(_)
        | ThenOf::MakeFolder(_) => take_list(then, r, desk, s, daemons, hosts, ws.is_some()),
        ThenOf::Tree(_)
        | ThenOf::File { .. }
        | ThenOf::Saved
        | ThenOf::Deleted(_)
        | ThenOf::Diff { .. }
        | ThenOf::Shown(_)
        | ThenOf::Change { .. } => take_text(then, r, desk, here, ws),
        ThenOf::Applied => take_applied(r, desk, s, here, ws),
        ThenOf::Reread => take_reread(r, desk, s, ws.is_some()),
        _ => take_deed(then, r, desk, s, daemons.len(), ws.is_some()),
    }
}

proof fn a_refused_list(
    t: ThenModel,
    e: String,
    d: DeskModel,
    s: SessionModel,
    daemons: Seq<Daemon>,
    hosts: Seq<Option<String>>,
    open: bool,
)
    requires
        fills_list(t),
    ensures
        ({
            let (after, _, _) = list_answered(t, Err(e), d, s, daemons, hosts, open);
            &&& after == (DeskModel { view: after.view, git: after.git, ..d })
            &&& open ==> after.git.body == d.git.body && after.git.log == d.git.log
            &&& after.view.flash is Some
            &&& after.view.page == d.view.page
            &&& after.view.tab == d.view.tab
            &&& after.view.staged == d.view.staged
        }),
{
    reveal(list_answered);
    reveal(browsing);
}

/// A request that is refused is said to be, and takes nothing off the screen:
/// whatever was asked for, the page, the trees and the diffs are what they were,
/// and so is the history while a workspace is open. Only the tab of a workspace
/// that was to be closed is left. What is saved or applied says so itself.
pub proof fn a_refusal_is_said_and_takes_nothing_away(
    t: ThenModel,
    e: String,
    d: DeskModel,
    s: SessionModel,
    daemons: Seq<Daemon>,
    hosts: Seq<Option<String>>,
)
    requires
        t !is Saved,
        t !is Applied,
        t !is Reread,
    ensures
        ({
            let (after, _, _) = answer_taken(t, Err(e), d, s, daemons, hosts);
            &&& after.view.flash is Some
            &&& after.view.page == d.view.page
            &&& after.files == d.files
            &&& after.docs == d.docs
            &&& after.diff == d.diff
            &&& workspace_of(daemons, d.view.tab) is Some ==> after.git.body == d.git.body
                && after.git.log == d.git.log
            &&& after.docker == d.docker
            &&& t !is Closed ==> after.view.tab == d.view.tab && after.view.staged == d.view.staged
        }),
{
    if fills_list(t) {
        a_refused_list(t, e, d, s, daemons, hosts, workspace_of(daemons, d.view.tab) is Some);
    } else if brings_text(t) {
        reveal(text_answered);
    } else {
        reveal(deed_answered);
    }
}

/// A save that is refused keeps what was typed: the file is still open and
/// unsaved, and says why. One that is not leaves nothing unsaved.
pub proof fn a_save_that_is_refused_keeps_what_was_typed(
    r: Result<Answer, String>,
    d: DeskModel,
    s: SessionModel,
    daemons: Seq<Daemon>,
    hosts: Seq<Option<String>>,
)
    requires
        shown_tree(d).open is Some,
    ensures
        ({
            let (after, _, _) = answer_taken(ThenOf::Saved, r, d, s, daemons, hosts);
            let file = shown_tree(d).open->0;
            &&& shown_tree(after).open matches Some(now) && now.path == file.path && match r {
                Ok(_) => !now.unsaved,
                Err(_) => now.unsaved == file.unsaved && now.notice is Some,
            }
            &&& after.view == d.view
        }),
{
    reveal(text_answered);
}

/// Lines that could not be applied stay picked, and the diff says why. Once
/// they were, the diff that is read again is the same one.
pub proof fn lines_that_are_refused_stay_picked(
    r: Result<Answer, String>,
    d: DeskModel,
    s: SessionModel,
    daemons: Seq<Daemon>,
    hosts: Seq<Option<String>>,
)
    requires
        shown_diff(d) is Some,
        workspace_of(daemons, d.view.tab) is Some,
    ensures
        ({
            let (after, _, action) = answer_taken(ThenOf::Applied, r, d, s, daemons, hosts);
            let diff = shown_diff(d)->0;
            &&& shown_diff(after) matches Some(now) && now.kind == diff.kind && match r {
                Ok(_) => now.mode is Read && (diff.kind is Some ==> action is Ask),
                Err(e) => now.mode == diff.mode && now.notice == Some(e@),
            }
        }),
{
    reveal(apply_answered);
}

/// Once one pane could not be killed, those after it are left alone.
pub proof fn a_failed_kill_spares_the_rest(
    rest: Seq<crate::roster::Route>,
    e: String,
    d: DeskModel,
    s: SessionModel,
    daemons: Seq<Daemon>,
    hosts: Seq<Option<String>>,
)
    ensures
        answer_taken(ThenOf::Killed(rest), Err(e), d, s, daemons, hosts) == (
            desk_saying(d, e@),
            s,
            ActionModel::Draw,
        ),
{
    reveal(deed_answered);
}

/// Has the screen wear the theme that the settings call for. `None` where it
/// already does.
pub fn follow_theme(st: &Settings, groups: &Vec<SettingsGroup>, s: &mut Session) -> (r: Option<
    String,
>)
    ensures
        ({
            let want = worn(st.place(), st.saved_theme@, groups@);
            if want == old(s).theme@ {
                r is None && *final(s) == *old(s)
            } else {
                &&& opt_text(r) == Some(want)
                &&& final(s).theme@ == want
                &&& *final(s) == (Session { theme: final(s).theme, ..*old(s) })
            }
        }),
{
    let want = settings_palette(st, groups);
    if same(want.as_str(), s.theme.as_str()) {
        None
    } else {
        s.theme = want.clone();
        Some(want)
    }
}

/// What is done to the repository is seen to be done: whether it is a verb, a
/// row that was answered for or one that was chosen from a list, the git page is
/// read again once it is answered, where it is showing, and refused or not.
pub proof fn what_is_written_is_read_again(
    f: FlowModel,
    d: DeskModel,
    s: SessionModel,
    daemons: Seq<Daemon>,
    hosts: Seq<Option<String>>,
    t: Tables,
    r: Result<Answer, String>,
    later: DeskModel,
    then: SessionModel,
)
    requires
        workspace_of(daemons, d.view.tab) is Some,
        f is Git || f is Pick || f is Choose && chose(
            d.view,
            t.pick_title@,
            t.groups@,
            t.items@,
            daemons,
            daemon_of(daemons, d.view.tab),
            Some(&workspace_of(daemons, d.view.tab)->0),
        ).1 is Send,
        workspace_of(daemons, later.view.tab) is Some,
        later.view.page is Git,
    ensures
        flow_taken(f, d, s, daemons, hosts, t).2 matches ActionOf::Ask { then: why, .. }
            && answer_taken(why, r, later, then, daemons, hosts).2 is ReadGit,
{
    reveal(git_wanted);
    reveal(pick_wanted);
    reveal(choice_taken);
    reveal(deed_answered);
}

/// And so it is where a row of the git menu does it.
pub proof fn what_the_menu_writes_is_read_again(
    request: RequestModel,
    title: Seq<char>,
    d: DeskModel,
    s: SessionModel,
    daemons: Seq<Daemon>,
    hosts: Seq<Option<String>>,
    r: Result<Answer, String>,
    later: DeskModel,
    then: SessionModel,
)
    requires
        workspace_of(daemons, later.view.tab) is Some,
        later.view.page is Git,
    ensures
        menu_stepped(MenuStepOf::Send(request), title, d, s, daemons).2 matches ActionOf::Ask {
            then: why,
            ..
        } && answer_taken(why, r, later, then, daemons, hosts).2 is ReadGit,
{
    reveal(deed_answered);
}

/// What a machine lists is offered: its agents from the pinned one, its
/// branches to check one out, what there is to pick from, and its folders. A
/// search shows what it found, and the usage how many rows it has.
#[verifier::spinoff_prover]
#[verifier::rlimit(60)]
pub proof fn a_list_that_was_answered_is_offered(
    d: DeskModel,
    s: SessionModel,
    daemons: Seq<Daemon>,
    hosts: Seq<Option<String>>,
    agents: Vec<String>,
    branches: Vec<String>,
    current: Option<String>,
    about: Seq<char>,
    query: Seq<char>,
    hits: Vec<SearchHit>,
    folder: BrowseListing,
    rows: usize,
)
    ensures
        ({
            let draws = |t: ThenModel, r: Answer, after: DeskModel|
                answer_taken(t, Ok(r), d, s, daemons, hosts) == (after, s, ActionModel::Draw);
            let shows = |o: crate::types::OverlayModel|
                DeskModel { view: BenchOf { overlay: Some(o), ..d.view }, ..d };
            &&& agents@.len() > 0 ==> draws(
                ThenOf::Agents,
                Answer::Agents(agents),
                shows(agent_list(texts(agents@), d.view.pinned_agent)->Ok_0),
            )
            &&& branches@.len() > 0 ==> draws(
                ThenOf::Branches { about, again: false },
                Answer::Rows(PickRows::Branches { branches, current }),
                shows(
                    branch_list(
                        branches@,
                        opt_text(current),
                        ListKindOf::Branch,
                        "CHECK OUT"@,
                    )->Ok_0,
                ),
            )
            &&& draws(ThenOf::Browse(about), Answer::Folder(folder), shows(folder_list(folder)))
            &&& draws(ThenOf::MakeFolder(about), Answer::Folder(folder), shows(folder_list(folder)))
            &&& draws(
                ThenOf::Search(query),
                Answer::Hits(hits),
                DeskModel { view: search_answered(d.view, query, hits_model(hits@)), ..d },
            )
            &&& d.usage.sel < rows ==> draws(
                ThenOf::Usage,
                Answer::Usage(rows),
                DeskModel { usage: Usage { rows, sel: d.usage.sel, loaded: true }, ..d },
            )
        }),
{
    reveal(list_answered);
}

/// What there is to pick from is offered under the title of the pick.
#[verifier::spinoff_prover]
#[verifier::rlimit(60)]
pub proof fn what_there_is_to_pick_from_is_offered(
    d: DeskModel,
    s: SessionModel,
    daemons: Seq<Daemon>,
    hosts: Seq<Option<String>>,
    target: crate::types::PickTarget,
    title: Seq<char>,
    rows: PickRows,
    o: crate::types::OverlayModel,
)
    requires
        d.view.page !is Git,
        picked_from(target, title, rows) == Ok::<_, Seq<char>>(o),
    ensures
        answer_taken(
            ThenOf::Pick { target, title },
            Ok(Answer::Rows(rows)),
            d,
            s,
            daemons,
            hosts,
        ) == (
            DeskModel { view: BenchOf { overlay: Some(o), ..d.view }, ..d },
            s,
            ActionModel::Draw,
        ),
{
    reveal(list_answered);
}

/// What went wrong is said behind what it was about: each answer in its own
/// words. A folder that could not be made has the one it was to be in shown
/// again.
#[verifier::spinoff_prover]
#[verifier::rlimit(60)]
pub proof fn a_refusal_is_said_behind_what_it_was_about(
    d: DeskModel,
    s: SessionModel,
    daemons: Seq<Daemon>,
    hosts: Seq<Option<String>>,
    e: String,
    about: Seq<char>,
    kind: crate::types::DiffKindModel,
    keep_cursor: bool,
    line: Option<u32>,
)
    ensures
        ({
            let says = |t: ThenModel, text: Seq<char>|
                answer_taken(t, Err(e), d, s, daemons, hosts) == (
                    DeskModel { view: BenchOf { flash: Some(text), ..d.view }, ..d },
                    s,
                    ActionModel::Draw,
                );
            &&& says(ThenOf::Agents, "agents: "@ + e@)
            &&& says(ThenOf::Usage, "usage: "@ + e@)
            &&& says(ThenOf::Branches { about, again: false }, about + e@)
            &&& says(ThenOf::Browse(about), about + e@)
            &&& says(ThenOf::Tree(about), "tree: "@ + e@)
            &&& says(ThenOf::File { path: about, line }, "file: "@ + e@)
            &&& says(ThenOf::Deleted(about), "delete: "@ + e@)
            &&& says(ThenOf::Diff { kind, keep_cursor }, "diff: "@ + e@)
            &&& says(ThenOf::Shown(kind), "show: "@ + e@)
            &&& says(ThenOf::Change { kind, keep_cursor }, "diff: "@ + e@)
            &&& says(ThenOf::Done, e@)
            &&& answer_taken(ThenOf::MakeFolder(about), Err(e), d, s, daemons, hosts)
                == {
                let (after, a) = browsing(
                    DeskModel {
                        view: BenchOf { flash: Some("new folder: "@ + e@), ..d.view },
                        ..d
                    },
                    daemons,
                    hosts,
                    about,
                );
                (after, s, a)
            }
        }),
{
    reveal(list_answered);
    reveal(text_answered);
    reveal(deed_answered);
}

/// A folder that was read is shown in the tree of the page that is showing,
/// and a file opens there: to be read, four lines above the line it was looked
/// for at. The other tree stays as it was.
#[verifier::spinoff_prover]
#[verifier::rlimit(60)]
pub proof fn a_folder_and_a_file_go_to_the_tree_that_is_showing(
    d: DeskModel,
    s: SessionModel,
    daemons: Seq<Daemon>,
    hosts: Seq<Option<String>>,
    dir: Seq<char>,
    entries: Vec<FileEntry>,
    path: String,
    asked: Seq<char>,
    line: u32,
)
    ensures
        ({
            let tree = answer_taken(
                ThenOf::Tree(dir),
                Ok(Answer::Entries(entries)),
                d,
                s,
                daemons,
                hosts,
            );
            let file = answer_taken(
                ThenOf::File { path: asked, line: None },
                Ok(Answer::File(path)),
                d,
                s,
                daemons,
                hosts,
            );
            let at = answer_taken(
                ThenOf::File { path: asked, line: Some(line) },
                Ok(Answer::File(path)),
                d,
                s,
                daemons,
                hosts,
            );
            let lists = |f: FilesModel| tree_showing(f, entries_model(entries@), dir);
            let opens = |f: FilesModel| FilesOf { open: Some(opened(path@)), ..f };
            &&& tree.2 is Draw && file.2 is Draw && at.2 is Draw
            &&& d.view.page is Docs ==> tree.0 == (DeskModel { docs: lists(d.docs), ..d }) && file.0
                == (DeskModel { docs: opens(d.docs), ..d })
            &&& d.view.page is Files ==> tree.0 == (DeskModel { files: lists(d.files), ..d })
                && file.0 == (DeskModel { files: opens(d.files), ..d })
            &&& d.view.page is Files ==> (at.0.files.open matches Some(e) && e.path == path@
                && e.mode is Read && e.steps.len() == 1 && e.steps[0]
                == crate::pages::EditorStepOf::<Seq<char>>::ScrollTo(
                if line > 4 {
                    (line - 4) as usize
                } else {
                    0
                },
            ))
        }),
{
    reveal(text_answered);
}

/// A file that was deleted is closed where it was open, and the folder that is
/// showing is read again; another file stays open.
#[verifier::spinoff_prover]
#[verifier::rlimit(60)]
pub proof fn a_deleted_file_is_closed_and_its_folder_read(
    d: DeskModel,
    s: SessionModel,
    daemons: Seq<Daemon>,
    hosts: Seq<Option<String>>,
    path: Seq<char>,
    w: Workspace,
)
    requires
        d.view.page is Files,
        workspace_of(daemons, d.view.tab) == Some(w),
    ensures
        ({
            let (after, _, a) = answer_taken(
                ThenOf::Deleted(path),
                Ok(Answer::Done),
                d,
                s,
                daemons,
                hosts,
            );
            &&& d.files.open is Some && d.files.open->0.path == path ==> after.files.open is None
            &&& d.files.open is Some && d.files.open->0.path != path ==> after.files.open
                == d.files.open
            &&& a == ActionModel::Ask {
                daemon: daemon_of(daemons, d.view.tab),
                request: dir_request(Some(&w), d.view.page, d.files.dir)->Ok_0,
                then: ThenOf::Tree(d.files.dir),
            }
        }),
{
    reveal(text_answered);
}

/// A diff opens where it was asked for: on the page of its own, or beside the
/// history, where one of the working tree takes the keyboard. One that was
/// read again with its cursor kept stays as it is.
#[verifier::spinoff_prover]
#[verifier::rlimit(60)]
pub proof fn a_diff_opens_where_it_was_asked_for(
    d: DeskModel,
    s: SessionModel,
    daemons: Seq<Daemon>,
    hosts: Seq<Option<String>>,
    kind: crate::types::DiffKindModel,
)
    ensures
        ({
            let draws = |t: ThenModel, after: DeskModel|
                answer_taken(t, Ok(Answer::Diff), d, s, daemons, hosts) == (
                    after,
                    s,
                    ActionModel::Draw,
                );
            &&& draws(
                ThenOf::Diff { kind, keep_cursor: false },
                DeskModel {
                    diff: fresh_diff(kind),
                    view: BenchOf { page: Page::Diff, ..d.view },
                    ..d
                },
            )
            &&& draws(
                ThenOf::Diff { kind, keep_cursor: true },
                DeskModel { view: BenchOf { page: Page::Diff, ..d.view }, ..d },
            )
            &&& draws(
                ThenOf::Shown(kind),
                DeskModel { git: GitOf { body: Some(fresh_diff(kind)), ..d.git }, ..d },
            )
            &&& draws(
                ThenOf::Change { kind, keep_cursor: false },
                DeskModel {
                    git: GitOf { body: Some(fresh_diff(kind)), ..d.git },
                    view: BenchOf { focus: Focus::Stage, ..d.view },
                    ..d
                },
            )
            &&& d.git.body is Some ==> draws(ThenOf::Change { kind, keep_cursor: true }, d)
        }),
{
    reveal(text_answered);
}

/// Once something was done: a restarted process leaves the stage, the next
/// pane is killed, a closed workspace is left for the tab before it, and
/// nothing else changes.
#[verifier::spinoff_prover]
#[verifier::rlimit(60)]
pub proof fn what_was_done_is_taken_in(
    d: DeskModel,
    s: SessionModel,
    daemons: Seq<Daemon>,
    hosts: Seq<Option<String>>,
    pane: crate::types::PaneId,
    rest: Seq<crate::roster::Route>,
)
    ensures
        ({
            let done = |t: ThenModel| answer_taken(t, Ok(Answer::Done), d, s, daemons, hosts);
            &&& done(ThenOf::Restarted(pane)).2 is Draw
            &&& d.view.staged == Some(pane) ==> done(ThenOf::Restarted(pane)).0 == (DeskModel {
                view: BenchOf { staged: None, ..d.view },
                ..d
            })
            &&& d.view.staged != Some(pane) ==> done(ThenOf::Restarted(pane)).0 == d
            &&& rest.len() == 0 ==> done(ThenOf::Killed(rest)) == (d, s, ActionModel::Draw)
            &&& rest.len() > 0 && rest[0].daemon < daemons.len() ==> done(ThenOf::Killed(rest))
                == (
                d,
                s,
                ActionModel::Ask {
                    daemon: rest[0].daemon,
                    request: crate::request::kill_request(daemons.len() as int, rest[0])->Ok_0,
                    then: ThenOf::Killed(rest.drop_first()),
                },
            )
            &&& done(ThenOf::Closed).0.view.tab == (if d.view.tab > 0 {
                d.view.tab - 1
            } else {
                0
            })
            &&& done(ThenOf::Closed).0.view.staged is None
            &&& done(ThenOf::Closed).0.view.flash == d.view.flash
            &&& done(ThenOf::Done) == (d, s, ActionModel::Draw)
            &&& d.view.page !is Git ==> done(ThenOf::Repository) == (d, s, ActionModel::Draw)
        }),
{
    reveal(deed_answered);
    reveal(kills_left);
}

/// A row of the git menu goes on to its list or is sent: branches are listed
/// to check one out, what is picked is listed by its own route, and the rest
/// goes to the machine of the open tab.
#[verifier::spinoff_prover]
#[verifier::rlimit(60)]
pub proof fn a_row_of_the_git_menu_goes_on(
    title: Seq<char>,
    d: DeskModel,
    s: SessionModel,
    daemons: Seq<Daemon>,
    w: Workspace,
    target: crate::types::PickTarget,
    request: RequestModel,
)
    requires
        workspace_of(daemons, d.view.tab) == Some(w),
    ensures
        ({
            let daemon = daemon_of(daemons, d.view.tab);
            let asks = |step: MenuStepOf<RequestModel>, request: RequestModel, then: ThenModel|
                menu_stepped(step, title, d, s, daemons) == (
                    d,
                    s,
                    ActionModel::Ask { daemon, request, then },
                );
            let read = |tail: Seq<char>|
                RequestModel {
                    method: crate::request::Method::Get,
                    route: "/v1/workspaces/"@ + crate::text::decimal(w.id.0 as nat) + "/"@ + tail,
                    body: crate::request::BodyOf::Nothing,
                };
            let picks = ThenOf::Pick { target, title };
            &&& asks(
                MenuStepOf::PickBranch,
                read("branches"@),
                ThenOf::Branches { about: Seq::empty(), again: true },
            )
            &&& target is DeleteBranch || target is Merge || target is Rebase ==> asks(
                MenuStepOf::Pick(target),
                read("branches"@),
                picks,
            )
            &&& target is StashPop || target is StashDrop ==> asks(
                MenuStepOf::Pick(target),
                read("git/stashes"@),
                picks,
            )
            &&& target is TagDelete ==> asks(MenuStepOf::Pick(target), read("git/tags"@), picks)
            &&& target is RemoteRemove ==> asks(
                MenuStepOf::Pick(target),
                read("git/remotes"@),
                picks,
            )
            &&& target is OpenWorktree || target is RemoveWorktree ==> asks(
                MenuStepOf::Pick(target),
                read("git/worktrees"@),
                picks,
            )
            &&& asks(MenuStepOf::Send(request), request, ThenOf::Repository)
            &&& d.view.page !is Git ==> menu_stepped(MenuStepOf::Asked, title, d, s, daemons) == (
                d,
                s,
                ActionModel::Draw,
            )
        }),
{
}

/// What is selected of a diff is applied to what it is of, or taken back out,
/// just as it was selected; with nothing selected nothing is asked.
#[verifier::spinoff_prover]
#[verifier::rlimit(60)]
pub proof fn a_selection_is_applied_as_it_is(
    sel: Selected,
    d: DeskModel,
    s: SessionModel,
    daemons: Seq<Daemon>,
    w: Workspace,
)
    requires
        workspace_of(daemons, d.view.tab) == Some(w),
    ensures
        selection_applied(Some(sel), d, s, daemons) == (
            d,
            s,
            ActionModel::Ask {
                daemon: daemon_of(daemons, d.view.tab),
                request: RequestModel {
                    method: crate::request::Method::Post,
                    route: "/v1/workspaces/"@ + crate::text::decimal(w.id.0 as nat) + "/"@
                        + "git/apply"@,
                    body: crate::request::BodyOf::Object(
                        seq![
                            ("patch"@, FieldOf::Text(sel.patch@)),
                            ("target"@, FieldOf::Text(sel.target@)),
                            ("reverse"@, FieldOf::Flag(sel.reverse)),
                        ],
                    ),
                },
                then: ThenOf::Applied,
            },
        ),
        d.view.page !is Git ==> selection_applied(None, d, s, daemons) == (
            d,
            s,
            ActionModel::Draw,
        ),
{
}

/// A file is saved by sending its text as it is to its own path; without a
/// workspace the file says so and stays as it was.
#[verifier::spinoff_prover]
#[verifier::rlimit(60)]
pub proof fn a_file_is_saved_as_it_is(
    path: Seq<char>,
    contents: Seq<char>,
    d: DeskModel,
    daemons: Seq<Daemon>,
    w: Workspace,
    e: crate::pages::EditorModel,
)
    ensures
        workspace_of(daemons, d.view.tab) == Some(w) ==> save_wanted(path, contents, d, daemons)
            == (
            d,
            ActionModel::Ask {
                daemon: daemon_of(daemons, d.view.tab),
                request: RequestModel {
                    method: crate::request::Method::Post,
                    route: "/v1/workspaces/"@ + crate::text::decimal(w.id.0 as nat) + "/"@ + (
                    "upload?path="@ + url_text(path)),
                    body: crate::request::BodyOf::Bytes(contents),
                },
                then: ThenOf::Saved,
            },
        ),
        workspace_of(daemons, d.view.tab) is None && d.view.page is Files && d.files.open == Some(
            e,
        ) ==> save_wanted(path, contents, d, daemons) == (
            DeskModel {
                files: FilesOf {
                    open: Some(
                        EditorOf { notice: Some("save failed: no workspace open"@), ..e },
                    ),
                    ..d.files
                },
                ..d
            },
            ActionModel::Draw,
        ),
{
}

/// A diff that was read again stays as it is, and one that could not be says
/// so below itself; on the git page the history is read again either way. So
/// it is after a list of branches that the git menu asked for.
#[verifier::spinoff_prover]
#[verifier::rlimit(60)]
pub proof fn the_history_is_read_with_what_was_read(
    d: DeskModel,
    s: SessionModel,
    daemons: Seq<Daemon>,
    hosts: Seq<Option<String>>,
    w: Workspace,
    e: String,
    about: Seq<char>,
)
    requires
        workspace_of(daemons, d.view.tab) == Some(w),
    ensures
        ({
            let read = answer_taken(ThenOf::Reread, Ok(Answer::Diff), d, s, daemons, hosts);
            let not = answer_taken(ThenOf::Reread, Err(e), d, s, daemons, hosts);
            let again = answer_taken(
                ThenOf::Branches { about, again: true },
                Err(e),
                d,
                s,
                daemons,
                hosts,
            );
            &&& d.view.page is Diff ==> read == (d, s, ActionModel::Draw)
            &&& d.view.page is Diff ==> not == (
                DeskModel {
                    diff: DiffViewOf { notice: Some("refresh: "@ + e@), ..d.diff },
                    ..d
                },
                s,
                ActionModel::Draw,
            )
            &&& d.view.page is Git ==> read.2 is ReadGit && not.2 is ReadGit && again.2 is ReadGit
            &&& d.view.page is Git && d.git.body is Some ==> (not.0.git.body matches Some(b)
                && b.notice == Some("refresh: "@ + e@))
            &&& again.0.view.flash == Some(about + e@)
        }),
{
    reveal(reread);
    reveal(list_answered);
}

/// A fetch that failed is said to have, and the git page is read again whether
/// it did or not. A folder that cannot be read again once its file is deleted
/// is said not to be, behind what that was about.
#[verifier::spinoff_prover]
#[verifier::rlimit(60)]
pub proof fn a_fetch_is_read_again_and_a_folder_spoken_of(
    d: DeskModel,
    s: SessionModel,
    daemons: Seq<Daemon>,
    hosts: Seq<Option<String>>,
    e: String,
    path: Seq<char>,
)
    ensures
        ({
            let failed = answer_taken(ThenOf::Fetched, Err(e), d, s, daemons, hosts);
            let done = answer_taken(ThenOf::Fetched, Ok(Answer::Done), d, s, daemons, hosts);
            let deleted = answer_taken(
                ThenOf::Deleted(path),
                Ok(Answer::Done),
                d,
                s,
                daemons,
                hosts,
            );
            &&& failed.0.view == (BenchOf { flash: Some("fetch: "@ + e@), ..d.view })
            &&& done.0.view == d.view
            &&& workspace_of(daemons, d.view.tab) is Some ==> failed.2 is ReadGit && done.2 is ReadGit
            &&& workspace_of(daemons, d.view.tab) is None ==> failed.2 is Draw && deleted.2 is Draw
                && deleted.0.view.flash == Some("tree: "@ + "no workspace open"@)
        }),
{
    reveal(deed_answered);
    reveal(text_answered);
}

/// Without a workspace nothing of a diff is applied or read again, and no list
/// is asked for: the diff or the view says so.
#[verifier::spinoff_prover]
#[verifier::rlimit(60)]
pub proof fn without_a_workspace_an_answer_goes_no_further(
    d: DeskModel,
    s: SessionModel,
    daemons: Seq<Daemon>,
    hosts: Seq<Option<String>>,
    sel: Selected,
    title: Seq<char>,
    target: crate::types::PickTarget,
    kind: crate::types::DiffKindModel,
)
    requires
        workspace_of(daemons, d.view.tab) is None,
        d.view.page is Diff,
    ensures
        ({
            let applied = answer_taken(ThenOf::Applied, Ok(Answer::Done), d, s, daemons, hosts);
            &&& selection_applied(Some(sel), d, s, daemons) == (
                DeskModel {
                    diff: DiffViewOf { notice: Some("no workspace open"@), ..d.diff },
                    ..d
                },
                s,
                ActionModel::Draw,
            )
            &&& d.diff.kind == Some(kind) ==> applied == (
                DeskModel {
                    diff: DiffViewOf {
                        mode: DiffMode::Read,
                        notice: Some("refresh: "@ + "no workspace open"@),
                        ..d.diff
                    },
                    ..d
                },
                s,
                ActionModel::Draw,
            )
            &&& menu_stepped(MenuStepOf::PickBranch, title, d, s, daemons) == (
                DeskModel { view: BenchOf { flash: Some("no workspace open"@), ..d.view }, ..d },
                s,
                ActionModel::Draw,
            )
            &&& menu_stepped(MenuStepOf::Pick(target), title, d, s, daemons) == (
                DeskModel { view: BenchOf { flash: Some("no workspace open"@), ..d.view }, ..d },
                s,
                ActionModel::Draw,
            )
        }),
{
    reveal(apply_answered);
}

/// A pick that is made on the git page alone is said to be, by its title.
#[verifier::spinoff_prover]
#[verifier::rlimit(60)]
pub proof fn a_pick_of_the_git_page_is_not_listed(
    d: DeskModel,
    s: SessionModel,
    daemons: Seq<Daemon>,
    title: Seq<char>,
    target: crate::types::PickTarget,
)
    requires
        workspace_of(daemons, d.view.tab) is Some,
        d.view.page !is Git,
        target is Checkout || target is Revert || target is CherryPick,
    ensures
        menu_stepped(MenuStepOf::Pick(target), title, d, s, daemons) == (
            DeskModel {
                view: BenchOf {
                    flash: Some(title + " is chosen from the GIT page, not from a list"@),
                    ..d.view
                },
                ..d
            },
            s,
            ActionModel::Draw,
        ),
{
}

} // verus!
