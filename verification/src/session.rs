//! What the event loop does with the answers it gets: of the settings file,
//! of the machines, of the clipboard; and what changes when another workspace
//! or another page comes up.
use vstd::prelude::*;

use crate::bench::{let_go, reset_sel, showing_pane, stage_new_pane, stepped};
use crate::git::{
    blank_git, commit_at, fresh_diff, log_model, no_diff, DiffMode, DiffView, DiffViewOf, Git,
    GitModel, GitOf,
};
use crate::input::{Desk, DeskModel};
use crate::machines::{
    announced_target, announcement_dials, begin_dial, dials, machine_list, machine_picker,
    Announcement, DialMeta, Dialling,
};
use crate::menu::plain_list;
use crate::named::Named;
use crate::overlay::{ask, question};
use crate::pages::{
    after_close, blank_files, closes, editor_asked, saved, show_tree, tree_showing, usage_loaded,
    Docker, Editor, EditorModel, EditorOf, EditorStep, EditorStepOf, Files, FilesModel, FilesOf,
    Help, Usage,
};
use crate::project::Commit;
use crate::request::{browse_request, open_browser, Request};
use crate::roster::{all_tabs, tab_index, Daemon, Endpoint, Route};
use crate::settings::Settings;
use crate::text::{
    cat, cat3, chars_of, clone_opt, decimal, join, joined, opt_text, same, slice_text, texts,
    to_decimal,
};
use crate::types::{
    clone_diff_kind, Bench, BenchModel, BenchOf, ConfirmKindOf, DiffKind, Edit, EditModel, EditOf,
    Flow, FlowModel, FlowOf, Focus, GitScope, ListKindOf, ListOverlayOf, Overlay, OverlayModel, OverlayOf, Page, PaneId,
    PickTarget, SearchOverlayOf, SessionId, Spawned, SpawnedOf,
};

verus! {

/// A view that says something.
pub open spec fn saying(v: BenchModel, what: Seq<char>) -> BenchModel {
    BenchOf { flash: Some(what), ..v }
}

/// A view after something was tried: what went wrong is said, behind what it
/// was about.
pub open spec fn tried(v: BenchModel, about: Seq<char>, r: Result<(), String>) -> BenchModel {
    match r {
        Ok(_) => v,
        Err(e) => saying(v, about + e@),
    }
}

/// Says what went wrong, behind what it was about.
pub fn say_error(view: &mut Bench, about: &str, r: Result<(), String>)
    ensures
        final(view)@ == tried(old(view)@, about@, r),
{
    if let Err(e) = r {
        view.flash = Some(cat(about, e.as_str()));
    }
}

/// A view after a box was asked for: it opens, or what went wrong is said.
pub open spec fn opened_or_said(v: BenchModel, about: Seq<char>, r: Result<OverlayModel, Seq<char>>) -> BenchModel {
    match r {
        Ok(o) => BenchOf { overlay: Some(o), ..v },
        Err(e) => saying(v, about + e),
    }
}

/// Opens a box, or says what went wrong, behind what it was about.
pub fn open_or_say(view: &mut Bench, about: &str, r: Result<Overlay, String>)
    ensures
        final(view)@ == opened_or_said(
            old(view)@,
            about@,
            crate::menu::offered_list(r),
        ),
{
    match r {
        Ok(o) => {
            view.overlay = Some(o);
        },
        Err(e) => {
            view.flash = Some(cat(about, e.as_str()));
        },
    }
}

/// Shows a pane that was just started, or says why it was not.
pub fn show_started(view: &mut Bench, r: Result<PaneId, String>)
    ensures
        final(view)@ == (match r {
            Ok(pane) => showing_pane(old(view)@, pane),
            Err(e) => saying(old(view)@, e@),
        }),
{
    match r {
        Ok(pane) => stage_new_pane(view, pane),
        Err(e) => {
            view.flash = Some(e);
        },
    }
}

/// What a new agent is: the one that is pinned, or one to be picked.
pub fn new_agent(view: &Bench) -> (r: Option<String>)
    ensures
        opt_text(r) == view@.pinned_agent,
{
    clone_opt(&view.pinned_agent)
}

/// A view after an agent was pinned, or none.
pub open spec fn pinned(v: BenchModel, r: Result<Option<Seq<char>>, Seq<char>>) -> BenchModel {
    match r {
        Ok(next) => BenchOf {
            flash: Some(
                match next {
                    Some(n) => n + " is pinned — A still picks"@,
                    None => "unpinned — a asks again"@,
                },
            ),
            pinned_agent: next,
            ..v
        },
        Err(e) => saying(v, e),
    }
}

/// Takes in that an agent was pinned, or none, or that it could not be.
pub fn agent_pinned(view: &mut Bench, r: Result<Option<String>, String>)
    ensures
        final(view)@ == pinned(
            old(view)@,
            match r {
                Ok(n) => Ok(opt_text(n)),
                Err(e) => Err(e@),
            },
        ),
{
    match r {
        Ok(next) => {
            view.flash = Some(
                match &next {
                    Some(n) => cat(n.as_str(), " is pinned — A still picks"),
                    None => "unpinned — a asks again".to_owned(),
                },
            );
            view.pinned_agent = next;
        },
        Err(e) => {
            view.flash = Some(e);
        },
    }
}

/// What the settings switch on and off.
#[derive(Clone, Copy, Debug, PartialEq, Eq, Structural)]
pub struct Switches {
    pub auto_attach: bool,
    pub links: bool,
    pub update_check: bool,
    pub updates_enabled: bool,
}

/// The switches at the start. Updates are looked for where this client updates
/// itself (`allowed`) and the system has it so (`enabled`) as the check is set.
pub fn first_switches(
    auto_attach: bool,
    links: bool,
    update_check: bool,
    allowed: bool,
    enabled: bool,
) -> (s: Switches)
    ensures
        s == (Switches { auto_attach, links, update_check, updates_enabled: allowed && enabled }),
{
    Switches { auto_attach, links, update_check, updates_enabled: allowed && enabled }
}

/// The switches after an edit. Updates are looked for where this client updates
/// itself (`allowed`) and the system has it so (`enabled`) once the check is as
/// the edit sets it.
pub open spec fn switched_by(edit: EditModel, s: Switches, allowed: bool, enabled: bool) -> Switches {
    match edit {
        EditOf::AutoAttach(on) => Switches { auto_attach: on, ..s },
        EditOf::Links(on) => Switches { links: on, ..s },
        EditOf::UpdateCheck(on) => Switches {
            update_check: on,
            updates_enabled: allowed && enabled,
            ..s
        },
        _ => s,
    }
}

/// Takes in an edit of the settings. It holds whether or not the file could be
/// written, and what went wrong with the file is said. Which agent is pinned is
/// taken in on its own.
pub fn settings_edited(
    edit: &Edit,
    st: &mut Settings,
    switches: &mut Switches,
    view: &mut Bench,
    allowed: bool,
    enabled: bool,
    written: Result<(), String>,
)
    ensures
        *final(switches) == switched_by(edit@, *old(switches), allowed, enabled),
        final(st).place() == old(st).place(),
        final(st).ret == old(st).ret,
        final(st).saved_theme@ == (match edit@ {
            EditOf::Theme(name) => name,
            _ => old(st).saved_theme@,
        }),
        final(view)@ == (match edit@ {
            EditOf::Moved => old(view)@,
            EditOf::DefaultAgent(_) => old(view)@,
            EditOf::Theme(name) => match written {
                Ok(_) => saying(old(view)@, "theme: "@ + name),
                Err(e) => saying(old(view)@, "config.toml: "@ + e@),
            },
            _ => tried(old(view)@, "config.toml: "@, written),
        }),
{
    match edit {
        EditOf::Moved => {},
        EditOf::DefaultAgent(_) => {},
        EditOf::Theme(name) => {
            st.saved_theme = name.clone();
            view.flash = Some(
                match written {
                    Ok(_) => cat("theme: ", name.as_str()),
                    Err(e) => cat("config.toml: ", e.as_str()),
                },
            );
        },
        EditOf::AutoAttach(on) => {
            switches.auto_attach = *on;
            say_error(view, "config.toml: ", written);
        },
        EditOf::Links(on) => {
            switches.links = *on;
            say_error(view, "config.toml: ", written);
        },
        EditOf::UpdateCheck(on) => {
            switches.update_check = *on;
            switches.updates_enabled = allowed && enabled;
            say_error(view, "config.toml: ", written);
        },
        EditOf::Geom(_) => say_error(view, "config.toml: ", written),
    }
}

/// A view with the help open, and the help, which remembers where it was
/// opened from.
pub open spec fn help_opened(v: BenchModel, h: Help) -> (BenchModel, Help) {
    (BenchOf { page: Page::Help, ..v }, Help { ret: v.page, ..h })
}

/// A view with the help closed: it is back where the help was opened from.
pub open spec fn help_closed(v: BenchModel, h: Help) -> BenchModel {
    BenchOf { page: h.ret, ..v }
}

/// Opens the help.
pub fn open_help(help: &mut Help, view: &mut Bench)
    ensures
        (final(view)@, *final(help)) == help_opened(old(view)@, *old(help)),
{
    help.ret = view.page;
    view.page = Page::Help;
}

/// Closes the help.
pub fn close_help(help: &Help, view: &mut Bench)
    ensures
        final(view)@ == help_closed(old(view)@, *help),
{
    view.page = help.ret;
}

/// The help is left for where it was opened from, and nothing else of the view
/// has changed.
pub proof fn the_help_is_left_for_where_it_was_opened_from(v: BenchModel, h: Help)
    ensures
        help_closed(help_opened(v, h).0, help_opened(v, h).1) == v,
{
}

/// Opens the settings, which remember where they were opened from and which
/// theme was worn.
pub fn open_settings(st: &mut Settings, view: &mut Bench, theme: &String)
    ensures
        *final(st) == (Settings { ret: old(view)@.page, saved_theme: *theme, ..*old(st) }),
        final(view)@ == (BenchOf { page: Page::Settings, ..old(view)@ }),
{
    st.ret = view.page;
    st.saved_theme = theme.clone();
    view.page = Page::Settings;
}

/// Closes the settings, and goes back to where they were opened from.
pub fn close_settings(st: &Settings, view: &mut Bench)
    ensures
        final(view)@ == (BenchOf { page: st.ret, ..old(view)@ }),
{
    view.page = st.ret;
}

/// Whether something can go to the pane on the stage; if not, the view says
/// so.
pub fn reach_stage(view: &mut Bench, stage: bool) -> (r: bool)
    ensures
        r == stage,
        final(view)@ == (if stage {
            old(view)@
        } else {
            saying(old(view)@, "nothing on the stage"@)
        }),
{
    if !stage {
        view.flash = Some("nothing on the stage".to_owned());
    }
    stage
}

/// Whether the picture on the clipboard goes to the pane on the stage. What is
/// wrong with the clipboard is said before what is wrong with the stage.
pub fn paste_image(view: &mut Bench, clipboard: Result<(), String>, stage: bool) -> (r: bool)
    ensures
        r == (clipboard is Ok && stage),
        final(view)@ == (match clipboard {
            Err(why) => saying(old(view)@, why@),
            Ok(_) => if stage {
                old(view)@
            } else {
                saying(old(view)@, "nothing on the stage"@)
            },
        }),
{
    match clipboard {
        Err(why) => {
            view.flash = Some(why);
            false
        },
        Ok(_) => reach_stage(view, stage),
    }
}

/// Whether browsing first asks which machine is meant: there are several, none
/// was picked, and no folder is named.
pub open spec fn asks_machine(machines: int, v: BenchModel, dir: Seq<char>) -> bool {
    machines > 1 && v.browse_daemon is None && dir.len() == 0
}

/// Begins to browse folders: asks which machine is meant where that is open,
/// and otherwise says what to ask of the machine.
pub fn browse_into(
    daemons: &Vec<Daemon>,
    hosts: &Vec<Option<String>>,
    view: &mut Bench,
    dir: &str,
) -> (r: Option<Request>)
    ensures
        ({
            let asks = asks_machine(daemons@.len() as int, old(view)@, dir@);
            &&& final(view)@ == (if asks {
                BenchOf { overlay: Some(machine_list(daemons@, hosts@)), ..old(view)@ }
            } else {
                old(view)@
            })
            &&& (match r {
                Some(q) => !asks && q@ == browse_request(dir@),
                None => asks,
            })
        }),
{
    if daemons.len() > 1 && view.browse_daemon.is_none() && dir.unicode_len() == 0 {
        view.overlay = Some(machine_picker(daemons, hosts));
        None
    } else {
        Some(open_browser(dir))
    }
}

/// What the layout key does.
#[derive(Clone, Copy, Debug, PartialEq, Eq, Structural)]
pub enum LayoutStep {
    /// The layout is being changed from here on.
    Entered,
    /// It no longer is, and what was changed is to be written down.
    Save,
    /// It no longer is, and nothing was changed.
    Left,
}

/// Begins or ends changing the layout. `changed` says whether it is another
/// than it was at the beginning.
pub fn toggle_layout(view: &mut Bench, changed: bool) -> (r: LayoutStep)
    ensures
        final(view)@ == (BenchOf { layout: !old(view)@.layout, ..old(view)@ }),
        r == (if !old(view)@.layout {
            LayoutStep::Entered
        } else if changed {
            LayoutStep::Save
        } else {
            LayoutStep::Left
        }),
{
    if view.layout {
        view.layout = false;
        if changed {
            LayoutStep::Save
        } else {
            LayoutStep::Left
        }
    } else {
        view.layout = true;
        LayoutStep::Entered
    }
}

/// Says whether the layout could be written down.
pub fn layout_saved(view: &mut Bench, written: Result<(), String>)
    ensures
        final(view)@ == saying(
            old(view)@,
            match written {
                Ok(_) => "layout saved"@,
                Err(e) => "rail geometry not saved: "@ + e@,
            },
        ),
{
    view.flash = Some(
        match written {
            Ok(_) => "layout saved".to_owned(),
            Err(e) => cat("rail geometry not saved: ", e.as_str()),
        },
    );
}

/// A view that offers the links on the screen, or says that there are none.
pub open spec fn links_offered(v: BenchModel, urls: Seq<Seq<char>>, can_open: bool) -> BenchModel {
    if urls.len() == 0 {
        saying(v, "no links on this screen"@)
    } else {
        BenchOf {
            overlay: Some(
                plain_list(
                    if can_open {
                        "LINKS — enter opens · y copies"@
                    } else {
                        "LINKS — no browser here · enter copies"@
                    },
                    urls,
                    0,
                    ListKindOf::Links,
                ),
            ),
            ..v
        }
    }
}

/// Offers the links on the screen.
pub fn pick_links(view: &mut Bench, urls: Vec<String>, can_open: bool)
    ensures
        final(view)@ == links_offered(old(view)@, texts(urls@), can_open),
{
    if urls.len() == 0 {
        view.flash = Some("no links on this screen".to_owned());
    } else {
        let title = if can_open {
            "LINKS — enter opens · y copies".to_owned()
        } else {
            "LINKS — no browser here · enter copies".to_owned()
        };
        view.overlay = Some(
            OverlayOf::List(
                ListOverlayOf {
                    title,
                    items: urls,
                    values: None,
                    sel: 0,
                    kind: ListKindOf::Links,
                },
            ),
        );
    }
}

/// Takes in whether a link could be opened, and says whether it is to be copied
/// instead.
pub fn link_opened(view: &mut Bench, url: &str, r: Result<(), String>) -> (copy: bool)
    ensures
        copy == (r is Err),
        final(view)@ == saying(
            old(view)@,
            match r {
                Ok(_) => "opened "@ + url@,
                Err(e) => e@ + " — copied it instead"@,
            },
        ),
{
    match r {
        Ok(_) => {
            view.flash = Some(cat("opened ", url));
            false
        },
        Err(e) => {
            view.flash = Some(cat(e.as_str(), " — copied it instead"));
            true
        },
    }
}

/// Says that a link was copied.
pub fn link_copied(view: &mut Bench, url: &str)
    ensures
        final(view)@ == saying(old(view)@, "copied "@ + url@),
{
    view.flash = Some(cat("copied ", url));
}

/// Says how many lines were copied.
pub fn lines_copied(view: &mut Bench, lines: usize)
    ensures
        final(view)@ == saying(
            old(view)@,
            if lines == 1 {
                "copied 1 line"@
            } else {
                "copied "@ + decimal(lines as nat) + " lines"@
            },
        ),
{
    view.flash = Some(
        if lines == 1 {
            "copied 1 line".to_owned()
        } else {
            cat3("copied ", to_decimal(lines as u128).as_str(), " lines")
        },
    );
}

/// The pane that is to be closed: the one on the stage, where there is one.
pub fn close_stage_pane(view: &mut Bench, stage: Option<PaneId>) -> (r: Option<PaneId>)
    ensures
        r == stage,
        final(view)@ == (if stage is Some {
            old(view)@
        } else {
            saying(old(view)@, "nothing on the stage"@)
        }),
{
    if stage.is_none() {
        view.flash = Some("nothing on the stage".to_owned());
    }
    stage
}

/// The pane that is to be killed: the one under the cursor, where there is one.
pub fn kill_selected(view: &mut Bench, route: Option<Route>) -> (r: Option<Route>)
    ensures
        r == route,
        final(view)@ == (if route is Some {
            old(view)@
        } else {
            saying(old(view)@, "nothing selected"@)
        }),
{
    if route.is_none() {
        view.flash = Some("nothing selected".to_owned());
    }
    route
}

/// A tree after an attempt to open another file in it: the file that is open
/// may refuse to be closed.
pub open spec fn opening(f: FilesModel) -> (FilesModel, bool) {
    match f.open {
        Some(e) => (FilesOf { open: Some(after_close(e)), ..f }, closes(e)),
        None => (f, true),
    }
}

/// Attempts to make room for another file, and says whether there is.
pub fn make_room(tree: &mut Files) -> (r: bool)
    ensures
        (final(tree)@, r) == opening(old(tree)@),
{
    let open = tree.open.take();
    match open {
        Some(mut e) => {
            let can = e.may_close();
            tree.open = Some(e);
            can
        },
        None => true,
    }
}

/// A file that is opened at a line, a few lines above it.
pub open spec fn at_line(e: EditorModel, line: Option<u32>) -> EditorModel {
    match line {
        Some(n) => editor_asked(
            e,
            EditorStepOf::ScrollTo(
                if n > 4 {
                    (n - 4) as usize
                } else {
                    0
                },
            ),
        ),
        None => e,
    }
}

/// Takes in a file that was read, to be opened in a tree at a line; or says why
/// it could not be.
pub fn file_read(tree: &mut Files, view: &mut Bench, line: Option<u32>, r: Result<Editor, String>)
    ensures
        match r {
            Ok(e) => final(tree)@ == (FilesOf { open: Some(at_line(e@, line)), ..old(tree)@ })
                && final(view)@ == old(view)@,
            Err(e) => final(tree)@ == old(tree)@ && final(view)@ == saying(
                old(view)@,
                "file: "@ + e@,
            ),
        },
{
    match r {
        Ok(e) => {
            let mut e = e;
            if let Some(n) = line {
                let top: u32 = if n > 4 {
                    n - 4
                } else {
                    0
                };
                e.ask(EditorStep::ScrollTo(top as usize));
            }
            tree.open = Some(e);
        },
        Err(e) => {
            view.flash = Some(cat("file: ", e.as_str()));
        },
    }
}

/// A file that was being saved: it is saved, or says why it could not be.
pub open spec fn file_after_save(e: EditorModel, r: Result<(), String>) -> EditorModel {
    match r {
        Ok(_) => saved(e),
        Err(why) => EditorOf { notice: Some("save failed: "@ + why@), ..e },
    }
}

/// Takes in whether the open file could be saved.
pub fn file_saved(tree: &mut Files, r: Result<(), String>)
    ensures
        final(tree)@ == (FilesOf {
            open: match old(tree)@.open {
                Some(e) => Some(file_after_save(e, r)),
                None => None,
            },
            ..old(tree)@
        }),
{
    let open = tree.open.take();
    if let Some(mut e) = open {
        match r {
            Ok(_) => e.saved(),
            Err(why) => {
                e.notice = Some(cat("save failed: ", why.as_str()));
            },
        }
        tree.open = Some(e);
    }
}

/// Takes in whether a file could be deleted: if so it is closed where it was
/// open, and the folder that is showing is to be read again.
pub fn file_deleted(tree: &mut Files, view: &mut Bench, path: &str, r: Result<(), String>) -> (dir:
    Option<String>)
    ensures
        match r {
            Ok(_) => opt_text(dir) == Some(old(tree)@.dir) && final(view)@ == old(view)@
                && final(tree)@ == (FilesOf {
                open: match old(tree)@.open {
                    Some(e) => if e.path == path@ {
                        None
                    } else {
                        Some(e)
                    },
                    None => None,
                },
                ..old(tree)@
            }),
            Err(e) => dir is None && final(tree)@ == old(tree)@ && final(view)@ == saying(
                old(view)@,
                "delete: "@ + e@,
            ),
        },
{
    match r {
        Ok(_) => {
            let open = tree.open.take();
            if let Some(e) = open {
                if !same(e.path.as_str(), path) {
                    tree.open = Some(e);
                }
            }
            Some(tree.dir.clone())
        },
        Err(e) => {
            view.flash = Some(cat("delete: ", e.as_str()));
            None
        },
    }
}

/// A view whose search has failed: it no longer waits, and what went wrong is
/// said.
pub open spec fn search_ended(v: BenchModel, why: Seq<char>) -> BenchModel {
    BenchOf {
        overlay: match v.overlay {
            Some(OverlayOf::Search(f)) => Some(
                OverlayOf::Search(SearchOverlayOf { searching: false, ..f }),
            ),
            other => other,
        },
        flash: Some("search: "@ + why),
        ..v
    }
}

/// Takes in that a search has failed.
pub fn search_failed(view: &mut Bench, why: &str)
    ensures
        final(view)@ == search_ended(old(view)@, why@),
{
    let open = view.overlay.take();
    match open {
        Some(OverlayOf::Search(f)) => {
            let mut f = f;
            f.searching = false;
            view.overlay = Some(OverlayOf::Search(f));
        },
        other => {
            view.overlay = other;
        },
    }
    view.flash = Some(cat("search: ", why));
}

/// A view after a workspace was closed, or could not be: it is on the tab
/// before, and holds on to nothing of the one it was on.
pub open spec fn closed_one(v: BenchModel, r: Result<(), String>) -> BenchModel {
    let v = tried(v, "close: "@, r);
    let_go(
        BenchOf {
            tab: if v.tab > 0 {
                (v.tab - 1) as usize
            } else {
                0
            },
            ..v
        },
    )
}

/// Takes in that a workspace was closed, or could not be.
pub fn workspace_closed(view: &mut Bench, r: Result<(), String>)
    ensures
        final(view)@ == closed_one(old(view)@, r),
{
    say_error(view, "close: ", r);
    view.tab = if view.tab > 0 {
        view.tab - 1
    } else {
        0
    };
    reset_sel(view);
}

/// Before a process is started: where it is a log to follow, the one that is
/// being followed is let go of, and its pane is to be killed.
pub fn leave_old_log(then: &Spawned, docker: &mut Docker, of: &mut Option<String>) -> (kill: Option<
    PaneId,
>)
    ensures
        (match then@ {
            SpawnedOf::Follow(_) => kill == old(docker).logs && *final(docker) == (Docker {
                logs: None,
                ..*old(docker)
            }) && *final(of) is None,
            _ => kill is None && *final(docker) == *old(docker) && *final(of) == *old(of),
        }),
{
    match then {
        SpawnedOf::Follow(_) => {
            let old_logs = docker.logs;
            docker.logs = None;
            *of = None;
            old_logs
        },
        _ => None,
    }
}

/// After a process was started, or could not be: a log is followed with the
/// keyboard on it, a process for the stage is shown there, and one for the rail
/// is left there.
pub fn process_started(
    then: Spawned,
    name: &str,
    r: Result<PaneId, String>,
    docker: &mut Docker,
    of: &mut Option<String>,
    view: &mut Bench,
)
    ensures
        match r {
            Err(e) => final(view)@ == saying(old(view)@, name@ + ": "@ + e@) && *final(docker)
                == *old(docker) && *final(of) == *old(of),
            Ok(pane) => match then@ {
                SpawnedOf::Follow(label) => *final(docker) == (Docker {
                    logs: Some(pane),
                    ..*old(docker)
                }) && opt_text(*final(of)) == Some(label) && final(view)@ == (BenchOf {
                    focus: Focus::Stage,
                    ..old(view)@
                }),
                SpawnedOf::Stage => final(view)@ == showing_pane(old(view)@, pane)
                    && *final(docker) == *old(docker) && *final(of) == *old(of),
                SpawnedOf::Rail => final(view)@ == old(view)@ && *final(docker) == *old(docker)
                    && *final(of) == *old(of),
            },
        },
{
    match r {
        Err(e) => {
            view.flash = Some(cat3(name, ": ", e.as_str()));
        },
        Ok(pane) => match then {
            SpawnedOf::Follow(label) => {
                docker.logs = Some(pane);
                *of = Some(label);
                view.focus = Focus::Stage;
            },
            SpawnedOf::Stage => stage_new_pane(view, pane),
            SpawnedOf::Rail => {},
        },
    }
}

/// What was read for the git page: which reading it was, and the history where
/// it could be read, with whether there is more of it.
#[derive(Clone, Debug, PartialEq, Eq)]
pub struct GitLoad {
    pub generation: u64,
    pub log: Option<(Vec<Commit>, bool)>,
}

/// The number of the reading after this one.
pub open spec fn next_generation(generation: u64) -> u64 {
    if generation == u64::MAX {
        0
    } else {
        (generation + 1) as u64
    }
}

/// The git page as a reading begins. Without a workspace there is nothing to
/// read, and the page is empty.
pub open spec fn git_reading(g: GitModel, open: bool) -> GitModel {
    if open {
        GitOf { loaded: false, ..g }
    } else {
        GitOf { loaded: true, ..blank_git() }
    }
}

/// Begins to read for the git page: every reading before this one is stale.
pub fn spawn_git_refresh(git: &mut Git, generation: &mut u64, open: bool) -> (r: Option<u64>)
    ensures
        *final(generation) == next_generation(*old(generation)),
        r == (if open {
            Some(*final(generation))
        } else {
            None
        }),
        final(git)@ == git_reading(old(git)@, open),
{
    *generation = if *generation == u64::MAX {
        0
    } else {
        *generation + 1
    };
    if open {
        git.loaded = false;
        Some(*generation)
    } else {
        let mut blank = Git::default();
        blank.loaded = true;
        *git = blank;
        None
    }
}

/// A cursor in a list of `len` rows, on the last of them where it stood beyond.
pub open spec fn kept_in(sel: usize, len: nat) -> usize {
    if len == 0 {
        0
    } else if sel < len {
        sel
    } else {
        (len - 1) as usize
    }
}

/// The git page after a reading: both cursors stay in their lists. A history
/// that could not be read is empty.
pub open spec fn git_read(g: GitModel, log: Option<(Seq<crate::project::CommitModel>, bool)>, refs: usize) -> GitModel {
    let (commits, more) = match log {
        Some((commits, more)) => (commits, more),
        None => (Seq::empty(), g.more),
    };
    GitOf {
        log: commits,
        more,
        loaded: true,
        hist_sel: kept_in(g.hist_sel, commits.len()),
        refs_sel: kept_in(g.refs_sel, refs as nat),
        ..g
    }
}

fn keep_in(sel: usize, len: usize) -> (r: usize)
    ensures
        r == kept_in(sel, len as nat),
{
    if len == 0 {
        0
    } else if sel < len {
        sel
    } else {
        len - 1
    }
}

/// Whether a reading for the git page is the latest.
pub fn is_latest(load: &GitLoad, generation: u64) -> (r: bool)
    ensures
        r == (load.generation == generation),
{
    load.generation == generation
}

/// Takes in a reading for the git page, of which `refs` rows are now on its
/// list of refs. One that is not the latest changes nothing.
pub fn apply_git_load(git: &mut Git, load: GitLoad, generation: u64, refs: usize) -> (r: bool)
    ensures
        r == (load.generation == generation),
        final(git)@ == (if r {
            git_read(
                old(git)@,
                match load.log {
                    Some((commits, more)) => Some((log_model(commits@), more)),
                    None => None,
                },
                refs,
            )
        } else {
            old(git)@
        }),
{
    if !is_latest(&load, generation) {
        return false;
    }
    match load.log {
        Some((commits, more)) => {
            git.log = commits;
            git.more = more;
        },
        None => {
            git.log = Vec::new();
            assert(log_model(git.log@) =~= Seq::empty());
        },
    }
    git.loaded = true;
    git.hist_sel = keep_in(git.hist_sel, git.log.len());
    git.refs_sel = keep_in(git.refs_sel, refs);
    true
}

/// After a reading both cursors of the git page are on a row, where there is
/// one.
pub proof fn a_reading_keeps_the_cursors_in_their_lists(
    g: GitModel,
    log: Option<(Seq<crate::project::CommitModel>, bool)>,
    refs: usize,
)
    ensures
        ({
            let after = git_read(g, log, refs);
            &&& after.log.len() > 0 ==> after.hist_sel < after.log.len()
            &&& after.log.len() == 0 ==> after.hist_sel == 0
            &&& refs > 0 ==> after.refs_sel < refs
            &&& refs == 0 ==> after.refs_sel == 0
        }),
{
}

/// Asks about a pick, by what was picked.
pub fn confirm_pick(target: PickTarget, title: &str, value: String, view: &mut Bench)
    ensures
        final(view)@ == (BenchOf {
            overlay: Some(
                question(
                    title@,
                    value@,
                    ConfirmKindOf::Pick { target, value: value@, label: value@ },
                ),
            ),
            ..old(view)@
        }),
{
    let header = value.clone();
    let label = value.clone();
    view.overlay = Some(ask(title, header, ConfirmKindOf::Pick { target, value, label }));
}

/// How many bytes a character takes up in a text.
pub open spec fn byte_width(c: char) -> int {
    if (c as u32) < 0x80 {
        1
    } else if (c as u32) < 0x800 {
        2
    } else if (c as u32) < 0x10000 {
        3
    } else {
        4
    }
}

/// How many of the first characters of a text fill a room of so many bytes, or
/// all of them where they do not fill it. There is no such number where a
/// character would have to be cut.
pub open spec fn fitting(s: Seq<char>, room: int) -> Option<int>
    decreases s.len(),
{
    if s.len() == 0 || room == 0 {
        Some(0)
    } else if byte_width(s[0]) > room {
        None
    } else {
        match fitting(s.skip(1), room - byte_width(s[0])) {
            Some(n) => Some(n + 1),
            None => None,
        }
    }
}

/// The first seven bytes of the id of a commit, by which it is known.
pub open spec fn short_id(id: Seq<char>) -> Seq<char> {
    match fitting(id, 7) {
        Some(n) => id.take(n),
        None => id,
    }
}

proof fn what_fits_is_there(s: Seq<char>, room: int)
    ensures
        fitting(s, room) matches Some(n) ==> 0 <= n <= s.len(),
    decreases s.len(),
{
    if s.len() > 0 && room != 0 {
        what_fits_is_there(s.skip(1), room - byte_width(s[0]));
    }
}

fn width_in_bytes(c: char) -> (n: usize)
    ensures
        n == byte_width(c),
{
    let code: u32 = c as u32;
    if code < 0x80 {
        1
    } else if code < 0x800 {
        2
    } else if code < 0x10000 {
        3
    } else {
        4
    }
}

fn shorten(id: &str) -> (r: String)
    requires
        fitting(id@, 7) is Some,
    ensures
        r@ == short_id(id@),
{
    let v = chars_of(id);
    let mut n: usize = 0;
    let mut room: usize = 7;
    assert(v@.skip(0) =~= v@);
    while n < v.len() && room > 0
        invariant
            n <= v@.len(),
            room <= 7,
            fitting(v@, 7) is Some,
            fitting(v@.skip(n as int), room as int) == Some(fitting(v@, 7)->0 - n),
        decreases v@.len() - n,
    {
        assert(v@.skip(n as int).skip(1) =~= v@.skip(n + 1));
        room = room - width_in_bytes(v[n]);
        n = n + 1;
    }
    proof {
        what_fits_is_there(v@, 7);
    }
    slice_text(&v, 0, n)
}

/// The id of the commit under the cursor, to be copied.
pub fn copy_sha(git: &Git, view: &mut Bench) -> (r: Option<String>)
    requires
        git.hist_sel < git.log@.len() ==> fitting(git.log@[git.hist_sel as int].id@, 7) is Some,
    ensures
        match commit_at(git@) {
            Some(c) => opt_text(r) == Some(c.id) && final(view)@ == saying(
                old(view)@,
                "copied "@ + short_id(c.id),
            ),
            None => r is None && final(view)@ == saying(old(view)@, "no commit selected"@),
        },
{
    if git.hist_sel < git.log.len() {
        let id = git.log[git.hist_sel].id.clone();
        let short = shorten(id.as_str());
        view.flash = Some(cat("copied ", short.as_str()));
        Some(id)
    } else {
        view.flash = Some("no commit selected".to_owned());
        None
    }
}

/// Sets what part of the history is shown, from its top.
pub fn set_scope(git: &mut Git, scope: GitScope)
    ensures
        final(git)@ == (GitOf { scope: scope@, hist_sel: 0, ..old(git)@ }),
{
    git.scope = scope;
    git.hist_sel = 0;
}

/// Takes in the diff of a commit, or of something else by its name, beside the
/// history; or says why there is none.
pub fn commit_shown(git: &mut Git, view: &mut Bench, kind: DiffKind, r: Result<(), String>)
    ensures
        final(view)@ == tried(old(view)@, "show: "@, r),
        final(git)@ == (if r is Ok {
            GitOf { body: Some(fresh_diff(kind@)), ..old(git)@ }
        } else {
            old(git)@
        }),
{
    match r {
        Ok(_) => {
            git.body = Some(DiffView::new(kind));
        },
        Err(e) => {
            view.flash = Some(cat("show: ", e.as_str()));
        },
    }
}

/// Takes in a diff of the working tree beside the history; or says why there is
/// none. A diff that is read again keeps its place, and otherwise the keyboard
/// goes to it.
pub fn change_shown(
    git: &mut Git,
    view: &mut Bench,
    kind: DiffKind,
    keep_cursor: bool,
    r: Result<(), String>,
)
    ensures
        match r {
            Ok(_) => final(git)@ == (if keep_cursor && old(git)@.body is Some {
                old(git)@
            } else {
                GitOf { body: Some(fresh_diff(kind@)), ..old(git)@ }
            }) && final(view)@ == (if keep_cursor {
                old(view)@
            } else {
                BenchOf { focus: Focus::Stage, ..old(view)@ }
            }),
            Err(e) => final(git)@ == old(git)@ && final(view)@ == saying(
                old(view)@,
                "diff: "@ + e@,
            ),
        },
{
    match r {
        Ok(_) => {
            if !(keep_cursor && git.body.is_some()) {
                git.body = Some(DiffView::new(kind));
            }
            if !keep_cursor {
                view.focus = Focus::Stage;
            }
        },
        Err(e) => {
            view.flash = Some(cat("diff: ", e.as_str()));
        },
    }
}

/// Takes in a diff on the page of its own; or says why there is none. A diff
/// that is read again keeps its place.
pub fn diff_shown(
    diff: &mut DiffView,
    view: &mut Bench,
    kind: DiffKind,
    keep_cursor: bool,
    r: Result<(), String>,
)
    ensures
        match r {
            Ok(_) => final(diff)@ == (if keep_cursor {
                old(diff)@
            } else {
                fresh_diff(kind@)
            }) && final(view)@ == (BenchOf { page: Page::Diff, ..old(view)@ }),
            Err(e) => final(diff)@ == old(diff)@ && final(view)@ == saying(
                old(view)@,
                "diff: "@ + e@,
            ),
        },
{
    match r {
        Ok(_) => {
            if !keep_cursor {
                *diff = DiffView::new(kind);
            }
            view.page = Page::Diff;
        },
        Err(e) => {
            view.flash = Some(cat("diff: ", e.as_str()));
        },
    }
}

/// Takes in that part of a diff was applied: its lines are no longer being
/// picked, and the same diff is to be read again.
pub fn diff_applied(diff: &mut DiffView) -> (again: Option<DiffKind>)
    ensures
        final(diff)@ == (DiffViewOf { mode: DiffMode::Read, ..old(diff)@ }),
        crate::project::opt_kind(again) == old(diff)@.kind,
{
    diff.cancel_line_select();
    match &diff.kind {
        Some(k) => Some(clone_diff_kind(k)),
        None => None,
    }
}

/// Takes in the usage that was read, of `rows` rows; or says why there is none.
pub fn usage_read(usage: &mut Usage, view: &mut Bench, r: Result<usize, String>)
    ensures
        match r {
            Ok(rows) => *final(usage) == (Usage {
                rows,
                sel: stepped(old(usage).sel as int, 0, rows as int) as usize,
                loaded: true,
            }) && final(view)@ == old(view)@,
            Err(e) => *final(usage) == *old(usage) && final(view)@ == saying(
                old(view)@,
                "usage: "@ + e@,
            ),
        },
{
    match r {
        Ok(rows) => usage_loaded(usage, rows),
        Err(e) => {
            view.flash = Some(cat("usage: ", e.as_str()));
        },
    }
}

/// What a page that comes up asks for.
#[derive(Clone, Copy, Debug, PartialEq, Eq, Structural)]
pub struct Coming {
    /// A choice on the settings page was left open: the theme that was worn
    /// before goes back on.
    pub theme_back: bool,
    /// The git page has not been read.
    pub read_git: bool,
    /// The usage page has not been read.
    pub read_usage: bool,
    /// The settings page has not been read.
    pub read_settings: bool,
}

/// What a page that comes up in place of `before` asks for. A choice that was
/// left open on the settings page is closed, and the usage page is read once,
/// whatever comes of it.
pub open spec fn coming(before: Page, d: DeskModel, settings_loaded: bool) -> (DeskModel, Coming) {
    let turned = d.view.page != before;
    let left = turned && before is Settings && d.settings.open is Some;
    let usage = turned && d.view.page is Usage && !d.usage.loaded;
    (
        DeskModel {
            settings: if left {
                Settings { open: None, ..d.settings }
            } else {
                d.settings
            },
            usage: if usage {
                Usage { loaded: true, ..d.usage }
            } else {
                d.usage
            },
            ..d
        },
        Coming {
            theme_back: left,
            read_git: turned && d.view.page is Git && !d.git.loaded,
            read_usage: usage,
            read_settings: turned && d.view.page is Settings && !settings_loaded,
        },
    )
}

/// Takes in which page is showing.
pub fn page_came_up(before: &mut Page, desk: &mut Desk, settings_loaded: bool) -> (r: Coming)
    ensures
        (final(desk)@, r) == coming(*old(before), old(desk)@, settings_loaded),
        *final(before) == old(desk)@.view.page,
{
    let page = desk.view.page;
    let turned = page != *before;
    let left = turned && *before == Page::Settings && desk.settings.open.is_some();
    if left {
        desk.settings.open = None;
    }
    let usage = turned && page == Page::Usage && !desk.usage.loaded;
    if usage {
        desk.usage.loaded = true;
    }
    *before = page;
    Coming {
        theme_back: left,
        read_git: turned && page == Page::Git && !desk.git.loaded,
        read_usage: usage,
        read_settings: turned && page == Page::Settings && !settings_loaded,
    }
}

/// A screen on which another workspace has come up: nothing of the one before
/// is left on its pages.
pub open spec fn another_workspace(d: DeskModel) -> DeskModel {
    DeskModel {
        files: blank_files(),
        docs: blank_files(),
        diff: no_diff(),
        docker: Docker { sel: 0, ..d.docker },
        git: blank_git(),
        ..d
    }
}

/// What a page is read again by, when another workspace comes up on it.
pub open spec fn read_again(page: Page) -> FlowModel {
    match page {
        Page::Git => FlowOf::GitRefresh,
        Page::Files | Page::Docs => FlowOf::ListDir(Seq::empty()),
        _ => FlowOf::Continue,
    }
}

/// Takes in which workspace is open, and says what to go on with where it is
/// another than before.
pub fn workspace_came_up(
    before: &mut Option<(usize, SessionId)>,
    now: Option<(usize, SessionId)>,
    desk: &mut Desk,
) -> (r: Option<Flow>)
    ensures
        crate::types::opt_flow(r) == (if now != *old(before) {
            Some(read_again(old(desk)@.view.page))
        } else {
            None
        }),
        *final(before) == now,
        final(desk)@ == (if now != *old(before) {
            another_workspace(old(desk)@)
        } else {
            old(desk)@
        }),
{
    let same_one = match (&*before, &now) {
        (Some((d, id)), Some((e, at))) => *d == *e && *id == *at,
        (None, None) => true,
        _ => false,
    };
    if same_one {
        return None;
    }
    *before = now;
    desk.files = Files::default();
    desk.docs = Files::default();
    desk.diff = DiffView::default();
    desk.docker.sel = 0;
    desk.git = Git::default();
    Some(
        match desk.view.page {
            Page::Git => Flow::GitRefresh,
            Page::Files | Page::Docs => Flow::ListDir(String::new()),
            _ => Flow::Continue,
        },
    )
}

/// Takes in a folder that was read into the tree that is showing; or says why
/// it could not be.
pub fn tree_read(
    tree: &mut Files,
    view: &mut Bench,
    dir: String,
    r: Result<Vec<crate::pages::FileEntry>, String>,
)
    ensures
        match r {
            Ok(entries) => final(tree)@ == tree_showing(
                old(tree)@,
                crate::pages::entries_model(entries@),
                dir@,
            ) && final(view)@ == old(view)@,
            Err(e) => final(tree)@ == old(tree)@ && final(view)@ == saying(
                old(view)@,
                "tree: "@ + e@,
            ),
        },
{
    match r {
        Ok(entries) => show_tree(view.page, tree, entries, dir),
        Err(e) => {
            view.flash = Some(cat("tree: ", e.as_str()));
        },
    }
}

/// Goes to the first tab of a name, where there is one.
pub fn open_named(
    daemons: &Vec<Daemon>,
    hosts: &Vec<Option<String>>,
    view: &mut Bench,
    name: &str,
)
    ensures
        final(view)@ == (match named_tab(daemons@, all_tabs(daemons@), name@) {
            Some(i) => BenchOf { tab: i as usize, ..old(view)@ },
            None => old(view)@,
        }),
{
    let tabs = tab_index(daemons, hosts);
    let mut i: usize = 0;
    assert(tabs@.take(0) =~= Seq::empty());
    while i < tabs.len()
        invariant
            i <= tabs@.len(),
            tabs@ == all_tabs(daemons@),
            forall|j: int|
                0 <= j < tabs@.len() ==> (#[trigger] tabs@[j]).0 < daemons@.len() && tabs@[j].1
                    < daemons@[tabs@[j].0 as int].tabs@.len(),
            named_tab(daemons@, tabs@.take(i as int), name@) is None,
            view@ == old(view)@,
        decreases tabs@.len() - i,
    {
        let (d, t): (usize, usize) = tabs[i];
        proof {
            assert(tabs@.take(i as int + 1).drop_last() =~= tabs@.take(i as int));
            assert(tabs@.take(i as int + 1).last() == tabs@[i as int]);
        }
        if same(daemons[d].tabs[t].name.as_str(), name) {
            proof {
                named_tab_is_found_early(daemons@, tabs@, name@, i as int + 1);
            }
            view.tab = i;
            return;
        }
        i = i + 1;
    }
    assert(tabs@.take(i as int) =~= tabs@);
}

/// The first tab of a name.
pub open spec fn named_tab(daemons: Seq<Daemon>, tabs: Seq<(usize, usize)>, name: Seq<char>) -> Option<int>
    decreases tabs.len(),
{
    if tabs.len() == 0 {
        None
    } else {
        match named_tab(daemons, tabs.drop_last(), name) {
            Some(i) => Some(i),
            None => {
                let (d, t) = tabs.last();
                if daemons[d as int].tabs@[t as int].name@ == name {
                    Some(tabs.len() - 1)
                } else {
                    None
                }
            },
        }
    }
}

proof fn named_tab_is_found_early(daemons: Seq<Daemon>, tabs: Seq<(usize, usize)>, name: Seq<char>, n: int)
    requires
        0 <= n <= tabs.len(),
        named_tab(daemons, tabs.take(n), name) is Some,
    ensures
        named_tab(daemons, tabs, name) == named_tab(daemons, tabs.take(n), name),
    decreases tabs.len() - n,
{
    if n < tabs.len() {
        assert(tabs.take(n + 1).drop_last() =~= tabs.take(n));
        named_tab_is_found_early(daemons, tabs, name, n + 1);
    } else {
        assert(tabs.take(n) =~= tabs);
    }
}

/// Takes in that a machine announced itself: it is dialled where that is
/// wanted and it is neither here nor on its way, and an announcement that says
/// nothing about the way back is spoken of. What is returned is to be dialled.
pub fn machine_announced(
    a: &Announcement,
    hosts: &Vec<Option<String>>,
    dialling: &mut Dialling,
    dial_meta: &mut Named<DialMeta>,
    auto: bool,
    view: &mut Bench,
) -> (r: Option<String>)
    requires
        old(dialling).wf(),
        old(dial_meta).wf(),
    ensures
        final(dialling).wf(),
        final(dial_meta).wf(),
        ({
            let target = announced_by(*a);
            let goes = target.len() > 0 && auto && dials(target, hosts@, old(dialling)@);
            &&& opt_text(r) == (if goes {
                Some(target)
            } else {
                None
            })
            &&& final(view)@ == (if goes {
                saying(old(view)@, target + " announced itself — connecting"@)
            } else if target.len() == 0 {
                saying(
                    old(view)@,
                    "a machine announced itself but said nothing about how to reach it"@,
                )
            } else {
                old(view)@
            })
            &&& !goes ==> final(dialling)@ == old(dialling)@ && final(dial_meta)@ == old(dial_meta)@
            &&& goes ==> {
                &&& final(dialling)@.to_set() == old(dialling)@.to_set().insert(target)
                &&& final(dial_meta)@.contains_key(target)
                &&& final(dial_meta)@ == old(dial_meta)@.insert(target, final(dial_meta)@[target])
                &&& final(dial_meta)@[target].label@ == target
                &&& !final(dial_meta)@[target].remember
                &&& !final(dial_meta)@[target].reconnect
                &&& texts(final(dial_meta)@[target].args@) == texts(a.ssh_args@)
                &&& opt_text(final(dial_meta)@[target].socket_path) == Some(a.socket@)
            }
        }),
{
    match announced_target(a) {
        Ok(target) => {
            if announcement_dials(target, hosts, dialling, auto) {
                view.flash = Some(cat(target, " announced itself — connecting"));
                let meta = DialMeta {
                    label: target.to_owned(),
                    remember: false,
                    reconnect: false,
                    args: clone_texts(&a.ssh_args),
                    socket_path: Some(a.socket.clone()),
                };
                begin_dial(target, meta, dialling, dial_meta);
                Some(target.to_owned())
            } else {
                None
            }
        },
        Err(e) => {
            view.flash = Some(e.message());
            None
        },
    }
}

/// How a machine that announced itself is reached: by what its pane was reached
/// by, and else by its own guess.
pub open spec fn announced_by(a: Announcement) -> Seq<char> {
    if a.ssh_target@.len() > 0 {
        a.ssh_target@
    } else {
        a.hint@
    }
}

fn clone_texts(v: &Vec<String>) -> (r: Vec<String>)
    ensures
        texts(r@) == texts(v@),
{
    let mut r: Vec<String> = Vec::new();
    let mut i: usize = 0;
    while i < v.len()
        invariant
            i <= v@.len(),
            r@.len() == i,
            forall|j: int| 0 <= j < i ==> #[trigger] r@[j] == v@[j],
        decreases v@.len() - i,
    {
        r.push(v[i].clone());
        i = i + 1;
    }
    assert(texts(r@) =~= texts(v@));
    r
}

/// Says that a machine was lost, and why.
pub fn say_lost(view: &mut Bench, why: &str)
    ensures
        final(view)@ == saying(old(view)@, "daemon: "@ + why@),
{
    view.flash = Some(cat("daemon: ", why));
}

/// What is said where no machine answered at the start.
pub fn no_daemon(failures: &Vec<String>) -> (s: String)
    ensures
        s@ == "no daemon answered ("@ + joined(texts(failures@), "; "@) + ")"@,
{
    let all = join(failures, "; ");
    cat3("no daemon answered (", all.as_str(), ")")
}

/// The endpoints that were reached, in order. `refused` says of each why it was
/// not.
pub open spec fn answering(ends: Seq<Endpoint>, refused: Seq<Option<String>>) -> Seq<Endpoint>
    decreases ends.len(),
{
    if ends.len() == 0 {
        Seq::empty()
    } else if refused[ends.len() - 1] is None {
        answering(ends.drop_last(), refused).push(ends.last())
    } else {
        answering(ends.drop_last(), refused)
    }
}

/// What is said of the endpoints that were not reached, in order.
pub open spec fn missed(ends: Seq<Endpoint>, refused: Seq<Option<String>>) -> Seq<Seq<char>>
    decreases ends.len(),
{
    if ends.len() == 0 {
        Seq::empty()
    } else {
        match refused[ends.len() - 1] {
            Some(why) => missed(ends.drop_last(), refused).push(
                ends.last().socket@ + ": "@ + why@,
            ),
            None => missed(ends.drop_last(), refused),
        }
    }
}

/// The machines that a workbench starts with: what each goes by and its socket,
/// machine by machine, and what is said of those that did not answer.
#[derive(Clone, Debug, PartialEq, Eq)]
pub struct FirstMachines {
    pub hosts: Vec<Option<String>>,
    pub sockets: Vec<String>,
    pub failures: Vec<String>,
}

/// Settles which machines a workbench starts with, of the endpoints it was
/// given. A machine that cannot be reached does not stop the others; with no
/// endpoint at all, or none that was reached, there is nothing to start with.
pub fn start_machines(ends: &Vec<Endpoint>, refused: &Vec<Option<String>>) -> (r: Result<
    FirstMachines,
    String,
>)
    requires
        refused@.len() == ends@.len(),
    ensures
        ({
            let here = answering(ends@, refused@);
            let away = missed(ends@, refused@);
            match r {
                Ok(s) => {
                    &&& here.len() > 0
                    &&& s.hosts@.len() == here.len() && s.sockets@.len() == here.len()
                    &&& forall|i: int|
                        0 <= i < here.len() ==> opt_text(#[trigger] s.hosts@[i]) == opt_text(
                            here[i].host,
                        )
                    &&& forall|i: int|
                        0 <= i < here.len() ==> (#[trigger] s.sockets@[i])@ == here[i].socket@
                    &&& texts(s.failures@) == away
                },
                Err(e) => here.len() == 0 && e@ == (if ends@.len() == 0 {
                    "no daemon to connect to"@
                } else {
                    "no daemon answered ("@ + joined(away, "; "@) + ")"@
                }),
            }
        }),
{
    if ends.len() == 0 {
        return Err("no daemon to connect to".to_owned());
    }
    let mut s = FirstMachines {
        hosts: Vec::new(),
        sockets: Vec::new(),
        failures: Vec::new(),
    };
    let mut i: usize = 0;
    assert(ends@.take(0) =~= Seq::empty());
    assert(texts(s.failures@) =~= missed(ends@.take(0), refused@));
    while i < ends.len()
        invariant
            i <= ends@.len() == refused@.len(),
            s.hosts@.len() == answering(ends@.take(i as int), refused@).len(),
            s.sockets@.len() == s.hosts@.len(),
            forall|j: int|
                0 <= j < s.hosts@.len() ==> opt_text(#[trigger] s.hosts@[j]) == opt_text(
                    answering(ends@.take(i as int), refused@)[j].host,
                ),
            forall|j: int|
                0 <= j < s.hosts@.len() ==> (#[trigger] s.sockets@[j])@ == answering(
                    ends@.take(i as int),
                    refused@,
                )[j].socket@,
            texts(s.failures@) == missed(ends@.take(i as int), refused@),
        decreases ends@.len() - i,
    {
        let ghost failures = s.failures@;
        proof {
            assert(ends@.take(i as int + 1).drop_last() =~= ends@.take(i as int));
            assert(ends@.take(i as int + 1).last() == ends@[i as int]);
        }
        match &refused[i] {
            Some(why) => {
                s.failures.push(cat3(ends[i].socket.as_str(), ": ", why.as_str()));
                assert(texts(s.failures@) =~= texts(failures).push(
                    ends@[i as int].socket@ + ": "@ + refused@[i as int]->0@,
                ));
            },
            None => {
                s.hosts.push(clone_opt(&ends[i].host));
                s.sockets.push(ends[i].socket.clone());
            },
        }
        i = i + 1;
    }
    assert(ends@.take(i as int) =~= ends@);
    if s.hosts.len() == 0 {
        return Err(no_daemon(&s.failures));
    }
    Ok(s)
}

/// A machine that cannot be reached does not stop the others: a workbench
/// starts as soon as one of its endpoints is reached.
pub proof fn one_machine_is_enough(ends: Seq<Endpoint>, refused: Seq<Option<String>>, i: int)
    requires
        refused.len() >= ends.len(),
        0 <= i < ends.len(),
        refused[i] is None,
    ensures
        answering(ends, refused).contains(ends[i]),
    decreases ends.len(),
{
    let before = answering(ends.drop_last(), refused);
    let all = answering(ends, refused);
    if i == ends.len() - 1 {
        assert(all[all.len() - 1] == ends[i]);
    } else {
        one_machine_is_enough(ends.drop_last(), refused, i);
        let k = choose|k: int| 0 <= k < before.len() && before[k] == ends[i];
        assert(all[k] == ends[i]);
    }
}

/// Says what went wrong at the start, where anything did.
pub fn say_failures(view: &mut Bench, failures: &Vec<String>)
    ensures
        final(view)@ == (if failures@.len() > 0 {
            saying(old(view)@, joined(texts(failures@), "; "@))
        } else {
            old(view)@
        }),
{
    if failures.len() > 0 {
        view.flash = Some(join(failures, "; "));
    }
}

/// What goes wrong is said behind what it was about, and what does not is not
/// spoken of. A box that was asked for opens, or it is said why not.
pub proof fn what_goes_wrong_is_said(
    v: BenchModel,
    about: Seq<char>,
    why: String,
    o: OverlayModel,
    said: Seq<char>,
)
    ensures
        tried(v, about, Ok(())) == v,
        tried(v, about, Err(why)) == (BenchOf { flash: Some(about + why@), ..v }),
        opened_or_said(v, about, Ok(o)) == (BenchOf { overlay: Some(o), ..v }),
        opened_or_said(v, about, Err(said)) == (BenchOf { flash: Some(about + said), ..v }),
        saying(v, said) == (BenchOf { flash: Some(said), ..v }),
{
}

/// An agent that was pinned is the pinned one from then on, and says how
/// another is picked; where it could not be, the one before stays.
pub proof fn a_pinned_agent_stays_pinned(v: BenchModel, name: Seq<char>, why: Seq<char>)
    ensures
        pinned(v, Ok(Some(name))) == (BenchOf {
            flash: Some(name + " is pinned — A still picks"@),
            pinned_agent: Some(name),
            ..v
        }),
        pinned(v, Ok(None)) == (BenchOf {
            flash: Some("unpinned — a asks again"@),
            pinned_agent: None,
            ..v
        }),
        pinned(v, Err(why)).pinned_agent == v.pinned_agent,
        pinned(v, Err(why)).flash == Some(why),
{
}

/// A switch is what the edit sets it to and no other switch changes. Updates
/// are looked for only where both the client and the system allow it.
pub proof fn an_edit_sets_its_own_switch(s: Switches, on: bool, allowed: bool, enabled: bool)
    ensures
        switched_by(EditOf::AutoAttach(on), s, allowed, enabled) == (Switches {
            auto_attach: on,
            ..s
        }),
        switched_by(EditOf::Links(on), s, allowed, enabled) == (Switches { links: on, ..s }),
        switched_by(EditOf::UpdateCheck(on), s, allowed, enabled).update_check == on,
        switched_by(EditOf::UpdateCheck(on), s, allowed, enabled).updates_enabled <==> allowed
            && enabled,
        switched_by(EditOf::UpdateCheck(on), s, allowed, enabled).auto_attach == s.auto_attach,
        switched_by(EditOf::UpdateCheck(on), s, allowed, enabled).links == s.links,
        switched_by(EditOf::<Seq<char>>::Moved, s, allowed, enabled) == s,
{
}

/// The help opens over the page that is showing and remembers it.
pub proof fn the_help_remembers_its_page(v: BenchModel, h: Help)
    ensures
        help_opened(v, h).0.page is Help,
        help_opened(v, h).1.ret == v.page,
        help_opened(v, h).1.topic == h.topic,
        help_closed(v, h).page == h.ret,
{
}

/// Which machine is meant is asked where there are several, none was picked
/// and no folder is named, and only then.
pub proof fn a_machine_is_asked_for_only_where_it_is_open(
    machines: int,
    v: BenchModel,
    dir: Seq<char>,
)
    ensures
        machines <= 1 ==> !asks_machine(machines, v, dir),
        v.browse_daemon is Some ==> !asks_machine(machines, v, dir),
        dir.len() > 0 ==> !asks_machine(machines, v, dir),
        machines > 1 && v.browse_daemon is None ==> asks_machine(machines, v, Seq::empty()),
{
}

/// Links are offered in order, under what enter does with one here; where
/// there are none that is said.
pub proof fn links_are_offered_in_order(v: BenchModel, urls: Seq<Seq<char>>)
    ensures
        urls.len() == 0 ==> links_offered(v, urls, true) == (BenchOf {
            flash: Some("no links on this screen"@),
            ..v
        }) && links_offered(v, urls, false) == links_offered(v, urls, true),
        urls.len() > 0 ==> (links_offered(v, urls, true).overlay matches Some(OverlayOf::List(l))
            && l.items == urls && l.values is None && l.sel == 0 && l.kind is Links && l.title
            == "LINKS — enter opens · y copies"@),
        urls.len() > 0 ==> (links_offered(v, urls, false).overlay matches Some(OverlayOf::List(l))
            && l.items == urls && l.values is None && l.sel == 0 && l.kind is Links && l.title
            == "LINKS — no browser here · enter copies"@),
{
}

/// There is room for another file where none is open, or where the one that is
/// may be closed: it holds nothing unsaved, or was asked before.
pub proof fn there_is_room_where_nothing_is_lost(f: FilesModel, e: EditorModel)
    ensures
        f.open is None ==> opening(f) == (f, true),
        f.open == Some(e) && !e.unsaved ==> opening(f).1,
        f.open == Some(e) && e.unsaved && e.armed ==> opening(f).1,
        f.open == Some(e) && e.unsaved && !e.armed ==> !opening(f).1 && (opening(f).0.open matches
            Some(now) && now.armed && now.unsaved && now.path == e.path),
        opening(f).0 == (FilesOf { open: opening(f).0.open, ..f }),
{
}

/// A file that is opened at a line is scrolled to four lines above it, or to
/// its top; one without a line is not scrolled.
pub proof fn a_file_opens_above_its_line(e: EditorModel, n: u32)
    ensures
        at_line(e, None) == e,
        n > 4 ==> at_line(e, Some(n)) == (EditorOf {
            steps: e.steps.push(EditorStepOf::ScrollTo((n - 4) as usize)),
            ..e
        }),
        n <= 4 ==> at_line(e, Some(n)) == (EditorOf {
            steps: e.steps.push(EditorStepOf::ScrollTo(0)),
            ..e
        }),
{
}

/// A file that was saved holds nothing unsaved; one that could not be says why
/// and is otherwise as it was.
pub proof fn a_save_is_noted_or_its_failure_said(e: EditorModel, why: String)
    ensures
        !file_after_save(e, Ok(())).unsaved,
        !file_after_save(e, Ok(())).armed,
        file_after_save(e, Ok(())).path == e.path,
        file_after_save(e, Err(why)) == (EditorOf {
            notice: Some("save failed: "@ + why@),
            ..e
        }),
{
}

/// A search that failed no longer waits and says why; its query and its hits
/// stay.
pub proof fn a_failed_search_no_longer_waits(
    v: BenchModel,
    f: crate::types::SearchOverlayModel,
    why: Seq<char>,
)
    requires
        v.overlay == Some(OverlayModel::Search(f)),
    ensures
        search_ended(v, why) == (BenchOf {
            overlay: Some(OverlayModel::Search(SearchOverlayOf { searching: false, ..f })),
            flash: Some("search: "@ + why),
            ..v
        }),
{
}

/// A workspace that was closed is left for the tab before it, with nothing of
/// it held on to; one that could not be closed is said not to have been.
pub proof fn a_closed_workspace_is_left_for_the_tab_before(v: BenchModel, why: String)
    ensures
        closed_one(v, Ok(())) == (BenchOf {
            tab: if v.tab > 0 {
                (v.tab - 1) as usize
            } else {
                0
            },
            agent_sel: 0,
            proc_sel: 0,
            changes_sel: 0,
            staged: None,
            ..v
        }),
        closed_one(v, Err(why)).flash == Some("close: "@ + why@),
{
}

/// Every reading has another number than the one before it.
pub proof fn a_reading_has_a_number_of_its_own(generation: u64)
    ensures
        next_generation(generation) != generation,
        generation < u64::MAX ==> next_generation(generation) == generation + 1,
{
}

/// A reading that begins keeps what is on the page until it is answered, and
/// without a workspace the page is empty and read.
pub proof fn a_page_keeps_what_it_shows_while_it_is_read(g: GitModel)
    ensures
        git_reading(g, true) == (GitOf { loaded: false, ..g }),
        git_reading(g, false).loaded,
        git_reading(g, false).log.len() == 0,
        git_reading(g, false).body is None,
{
}

/// A reading shows the history that was read, and whether there is more of it.
/// A cursor that is still in its list stays where it is, and one beyond its
/// end goes to the last row. The diff beside the lists and what the history is
/// of stay.
pub proof fn a_reading_shows_what_was_read(
    g: GitModel,
    commits: Seq<crate::project::CommitModel>,
    more: bool,
    refs: usize,
)
    ensures
        ({
            let after = git_read(g, Some((commits, more)), refs);
            &&& after.log == commits
            &&& after.more == more
            &&& after.loaded
            &&& after.body == g.body
            &&& after.scope == g.scope
            &&& g.hist_sel < commits.len() ==> after.hist_sel == g.hist_sel
            &&& commits.len() > 0 && g.hist_sel >= commits.len() ==> after.hist_sel
                == commits.len() - 1
            &&& g.refs_sel < refs ==> after.refs_sel == g.refs_sel
            &&& refs > 0 && g.refs_sel >= refs ==> after.refs_sel == refs - 1
        }),
        git_read(g, None, refs).log.len() == 0,
        git_read(g, None, refs).loaded,
{
}

/// An id of plain characters is shortened to its first seven.
pub proof fn a_plain_id_is_shortened_to_seven(id: Seq<char>)
    requires
        id.len() >= 7,
        forall|i: int| 0 <= i < 7 ==> (#[trigger] id[i] as u32) < 0x80,
    ensures
        short_id(id) == id.take(7),
{
    plain_characters_fit(id, 7);
}

proof fn plain_characters_fit(s: Seq<char>, room: int)
    requires
        0 <= room <= s.len(),
        forall|i: int| 0 <= i < room ==> (#[trigger] s[i] as u32) < 0x80,
    ensures
        fitting(s, room) == Some(room),
    decreases room,
{
    if room > 0 {
        let rest = s.skip(1);
        assert((s[0] as u32) < 0x80);
        assert forall|i: int| 0 <= i < room - 1 implies (#[trigger] rest[i] as u32) < 0x80 by {
            assert(rest[i] == s[i + 1]);
        }
        plain_characters_fit(rest, room - 1);
    }
}

/// A character takes up one byte below 0x80, two below 0x800, three below
/// 0x10000 and four above.
pub proof fn a_character_takes_up_its_bytes(c: char)
    ensures
        (c as u32) < 0x80 ==> byte_width(c) == 1,
        0x80 <= (c as u32) < 0x800 ==> byte_width(c) == 2,
        0x800 <= (c as u32) < 0x10000 ==> byte_width(c) == 3,
        0x10000 <= (c as u32) ==> byte_width(c) == 4,
{
}

/// A page that comes up is read where it has not been: the repository, the
/// usage and the settings. A choice that was left open on the settings page
/// is closed and its theme taken off. A page that stays asks for nothing.
pub proof fn a_page_that_comes_up_is_read_once(before: Page, d: DeskModel, settings_loaded: bool)
    ensures
        ({
            let (after, asks) = coming(before, d, settings_loaded);
            &&& d.view.page == before ==> after == d && !asks.theme_back && !asks.read_git
                && !asks.read_usage && !asks.read_settings
            &&& d.view.page != before ==> {
                &&& asks.read_git <==> d.view.page is Git && !d.git.loaded
                &&& asks.read_usage <==> d.view.page is Usage && !d.usage.loaded
                &&& asks.read_settings <==> d.view.page is Settings && !settings_loaded
                &&& asks.theme_back <==> before is Settings && d.settings.open is Some
                &&& before is Settings ==> after.settings.open is None
                &&& d.view.page is Usage ==> after.usage.loaded
            }
            &&& after.view == d.view
            &&& after.git == d.git
        }),
{
}

/// Another workspace comes up with nothing of the one before on its pages, and
/// the page that is showing is read again. The log that is followed stays.
pub proof fn another_workspace_starts_from_nothing(d: DeskModel)
    ensures
        ({
            let after = another_workspace(d);
            &&& after.view == d.view
            &&& after.files.open is None && after.files.entries.len() == 0 && after.files.dir.len()
                == 0
            &&& after.docs.open is None && after.docs.entries.len() == 0 && after.docs.dir.len()
                == 0
            &&& after.diff.kind is None
            &&& after.git.log.len() == 0 && after.git.body is None && !after.git.loaded
                && after.git.scope is Everything
            &&& after.docker.sel == 0 && after.docker.logs == d.docker.logs
        }),
        read_again(Page::Git) == FlowOf::<Seq<char>>::GitRefresh,
        read_again(Page::Files) == FlowOf::<Seq<char>>::ListDir(Seq::empty()),
        read_again(Page::Docs) == FlowOf::<Seq<char>>::ListDir(Seq::empty()),
        read_again(Page::Agents) == FlowOf::<Seq<char>>::Continue,
        read_again(Page::Docker) == FlowOf::<Seq<char>>::Continue,
{
}

/// The tab of a name is the first that goes by it, and none where none does.
pub proof fn the_first_tab_of_a_name_is_found(
    daemons: Seq<Daemon>,
    tabs: Seq<(usize, usize)>,
    name: Seq<char>,
)
    ensures
        ({
            let called = |i: int| daemons[tabs[i].0 as int].tabs@[tabs[i].1 as int].name@;
            match named_tab(daemons, tabs, name) {
                Some(i) => 0 <= i < tabs.len() && called(i) == name && forall|j: int|
                    0 <= j < i ==> #[trigger] called(j) != name,
                None => forall|j: int| 0 <= j < tabs.len() ==> #[trigger] called(j) != name,
            }
        }),
    decreases tabs.len(),
{
    let called = |i: int| daemons[tabs[i].0 as int].tabs@[tabs[i].1 as int].name@;
    if tabs.len() > 0 {
        let rest = tabs.drop_last();
        let shorter = |i: int| daemons[rest[i].0 as int].tabs@[rest[i].1 as int].name@;
        the_first_tab_of_a_name_is_found(daemons, rest, name);
        assert forall|j: int| 0 <= j < rest.len() implies #[trigger] called(j) == shorter(j) by {
            assert(rest[j] == tabs[j]);
        }
    }
}

/// A machine that announced itself is reached by what its pane was reached by,
/// and by its own guess where that is not known.
pub proof fn an_announced_machine_is_reached_by_its_pane(a: Announcement)
    ensures
        a.ssh_target@.len() > 0 ==> announced_by(a) == a.ssh_target@,
        a.ssh_target@.len() == 0 ==> announced_by(a) == a.hint@,
{
}

/// The endpoints that answered are those that were not refused, in order, and
/// what is said of the others names each by its socket.
pub proof fn the_endpoints_that_answered_are_kept_in_order(
    ends: Seq<Endpoint>,
    e: Endpoint,
    refused: Seq<Option<String>>,
    why: String,
)
    ensures
        answering(Seq::empty(), refused).len() == 0,
        missed(Seq::empty(), refused).len() == 0,
        refused[ends.len() as int] is None ==> answering(ends.push(e), refused) == answering(
            ends,
            refused,
        ).push(e) && missed(ends.push(e), refused) == missed(ends, refused),
        refused[ends.len() as int] == Some(why) ==> answering(ends.push(e), refused) == answering(
            ends,
            refused,
        ) && missed(ends.push(e), refused) == missed(ends, refused).push(
            e.socket@ + ": "@ + why@,
        ),
{
    assert(ends.push(e).drop_last() =~= ends);
}

} // verus!
