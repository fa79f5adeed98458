//! What the event loop does with what a key or a click asked for: the change
//! to the screen that needs nothing more, and the work outside that is to be
//! done next.
use vstd::prelude::*;

use crate::bench::{go_tab, on_tab, select_tab, showing_pane, stage_new_pane, tab_after};
use crate::chosen::{a_choice_asks_on_no, choose_from_list, chose, Choice, ChoiceModel, ChoiceOf};
use crate::git::{commit_at, Git, GitModel, GitOf};
use crate::input::{Desk, DeskModel};
use crate::machines::machine_list;
use crate::menu::{
    git_menu, git_menu_overlay, menu_taken, plain_list, run_menu_action, space_picker,
    MenuDeedOf, MenuItem, MenuRows, MenuStep, MenuStepOf,
};
use crate::overlay::{close_question, close_workspace_confirm, on_no, question};
use crate::pages::{Docker, Files};
use crate::project::{diff_at, diff_under_cursor, Workspace};
use crate::request::{
    agent_start, asked, browse_request, close_workspace, delete_file, delete_of, diff_request,
    dir_request, fetch_diff, fetch_dir, fetch_file, fetch_remote, fetch_search, file_route, get_of,
    git_request, kill_pane, kill_process, kill_request, list_agents, listed, make_folder,
    no_workspace, open_browser, open_workspace, pick_request, post_of, process_start, read_list,
    read_usage, restart_process, restart_request, run_git, run_pick_confirmed, run_process,
    search_request, spawn_agent, workspace_post, workspace_route, FieldOf, Request, RequestModel,
    Start, StartOf,
};
use crate::roster::{
    a_tab_that_is_there_is_found, active_daemon, active_workspace, all_tabs, browse_daemon,
    browsed_daemon, daemon_of, find_tab, fleet, is_tab_of, open_fleet_agent, pane_of, route_of, selected_pane, selected_route, tab_index, tab_of_agent,
    tab_with, travelled, workspace_of, Daemon, Route,
};
use crate::session::{
    asks_machine, browse_into, close_help, close_settings, close_stage_pane, confirm_pick, copy_sha,
    fitting, git_reading, help_closed, help_opened, kill_selected, leave_old_log, link_copied,
    make_room, new_agent, next_generation, open_help, open_settings, opening, reach_stage, saying,
    search_ended, search_failed, set_scope, short_id, spawn_git_refresh,
};
use crate::settings::Settings;
use crate::text::{cat, opt_text, texts};
use crate::types::{
    Bench, BenchModel, BenchOf, Command, ConfirmKindOf, DiffKind, DiffKindOf, EditOf, Flow,
    FlowModel, FlowOf, GeomStep, GitAction, GitActionModel, ListKindOf, MenuAction, Page, PaneId,
    PickTarget, SessionId, Spawned, SpawnedModel, SpawnedOf, TabMove,
};
use crate::updates::{check_update, take_update, update_wanted, Updates, UpdatesModel, UpdatesOf};

verus! {

/// What an answer is for.
#[verifier::ext_equal]
#[derive(Clone, Debug, PartialEq, Eq)]
pub enum ThenOf<S, R> {
    /// The agents that can be spawned, to pick one.
    Agents,
    /// The usage page.
    Usage,
    /// The branches, to check one out. What goes wrong is said behind `about`,
    /// and `again` has the git page read again where it is showing.
    Branches { about: S, again: bool },
    /// What one of is to be picked, from a list headed `title`: the git page is
    /// read again where it is showing.
    Pick { target: PickTarget, title: S },
    /// What a search found.
    Search(S),
    /// The folders below one. What goes wrong is said behind this.
    Browse(S),
    /// A folder that was made below another.
    MakeFolder(S),
    /// A folder of the tree that is showing.
    Tree(S),
    /// A file, to be opened at a line of it.
    File { path: S, line: Option<u32> },
    /// A file that was saved.
    Saved,
    /// A file that was deleted.
    Deleted(S),
    /// A diff on the page of its own.
    Diff { kind: DiffKindOf<S>, keep_cursor: bool },
    /// A diff by its name beside the history.
    Shown(DiffKindOf<S>),
    /// A diff of the working tree beside the history.
    Change { kind: DiffKindOf<S>, keep_cursor: bool },
    /// Part of a diff that was applied: the same diff is read again.
    Applied,
    /// A diff that part of was applied, as it now is.
    Reread,
    /// A process that was restarted.
    Restarted(PaneId),
    /// A pane that was killed, and those that are still to be.
    Killed(R),
    /// A workspace that was closed.
    Closed,
    /// Something that was fetched: what goes wrong is said of the fetch, and
    /// the git page is read again.
    Fetched,
    /// Something that was done to the repository: the git page is read again
    /// where it is showing.
    Repository,
    /// Something of which only what goes wrong is said.
    Done,
}

pub type Then = ThenOf<String, Vec<Route>>;

pub type ThenModel = ThenOf<Seq<char>, Seq<Route>>;

impl View for ThenOf<String, Vec<Route>> {
    type V = ThenModel;

    open spec fn view(&self) -> ThenModel {
        match *self {
            ThenOf::Agents => ThenOf::Agents,
            ThenOf::Usage => ThenOf::Usage,
            ThenOf::Branches { about, again } => ThenOf::Branches { about: about@, again },
            ThenOf::Pick { target, title } => ThenOf::Pick { target, title: title@ },
            ThenOf::Search(q) => ThenOf::Search(q@),
            ThenOf::Browse(about) => ThenOf::Browse(about@),
            ThenOf::MakeFolder(dir) => ThenOf::MakeFolder(dir@),
            ThenOf::Tree(dir) => ThenOf::Tree(dir@),
            ThenOf::File { path, line } => ThenOf::File { path: path@, line },
            ThenOf::Saved => ThenOf::Saved,
            ThenOf::Deleted(path) => ThenOf::Deleted(path@),
            ThenOf::Diff { kind, keep_cursor } => ThenOf::Diff { kind: kind@, keep_cursor },
            ThenOf::Shown(kind) => ThenOf::Shown(kind@),
            ThenOf::Change { kind, keep_cursor } => ThenOf::Change { kind: kind@, keep_cursor },
            ThenOf::Applied => ThenOf::Applied,
            ThenOf::Reread => ThenOf::Reread,
            ThenOf::Restarted(pane) => ThenOf::Restarted(pane),
            ThenOf::Killed(rest) => ThenOf::Killed(rest@),
            ThenOf::Closed => ThenOf::Closed,
            ThenOf::Fetched => ThenOf::Fetched,
            ThenOf::Repository => ThenOf::Repository,
            ThenOf::Done => ThenOf::Done,
        }
    }
}

/// The work outside that is to be done next.
#[verifier::ext_equal]
#[derive(Clone, Debug, PartialEq, Eq)]
pub enum ActionOf<S, Q, R> {
    /// Nothing but to draw.
    Draw,
    /// Leave.
    Detach,
    /// Leave, and update to a version.
    Update(S),
    /// Write down that a version was declined.
    SaveDeclined(S),
    /// Look for a newer version.
    CheckUpdates,
    /// Ask something of a machine.
    Ask { daemon: usize, request: Q, then: ThenOf<S, R> },
    /// Start an agent on a machine, and show it.
    StartAgent { daemon: usize, name: S, start: StartOf<Q> },
    /// Run something on a machine. What was followed before is killed first,
    /// and the stage is let go of with it.
    Run {
        daemon: usize,
        name: S,
        start: StartOf<Q>,
        then: SpawnedOf<S>,
        kill: Option<Q>,
        drop_stage: bool,
    },
    /// Let go of the stage.
    DropStage,
    /// Write an edit of the settings down.
    SaveEdit(EditOf<S>),
    /// Pin an agent, or none.
    Pin(Option<S>),
    /// Scroll the pane on the stage back by pages.
    ScrollStage(i16),
    /// Send the picture on the clipboard to the pane on the stage.
    PasteImage,
    /// Offer the machines that can be connected.
    PickHosts,
    /// Connect a machine.
    Connect(S),
    /// Offer the links on the screen.
    PickLinks,
    /// Copy a text.
    Copy(S),
    /// Copy what is selected.
    CopySelection,
    /// Begin or end changing the layout.
    ToggleLayout,
    /// Change the layout.
    Resize(GeomStep),
    /// Save the file that is open, by its path.
    SaveFile(S),
    /// Apply the part of a diff that is selected.
    ApplyDiff { discard: bool },
    /// Read for the git page, by the number of the reading.
    ReadGit(u64),
    /// Send a command to a machine's control channel.
    Control { daemon: usize, command: Command },
    /// Go on with a row of the git menu. The git page is read again after it
    /// where it is showing.
    Menu(MenuStepOf<Q>),
    /// Let go of a machine by its place, and forget it.
    DropMachine(usize),
    /// Let go of a machine by its name, and forget it.
    Disconnect(S),
    /// Open a link.
    OpenLink(S),
    /// Read a command line.
    RunCommand(S),
}

pub type Action = ActionOf<String, Request, Vec<Route>>;

pub type ActionModel = ActionOf<Seq<char>, RequestModel, Seq<Route>>;

/// What starting something asks.
pub open spec fn start_model(s: Start) -> StartOf<RequestModel> {
    StartOf { list: s.list@, start: s.start@ }
}

/// A row of the git menu to go on with.
pub open spec fn menu_model(m: MenuStep) -> MenuStepOf<RequestModel> {
    match m {
        MenuStepOf::Asked => MenuStepOf::Asked,
        MenuStepOf::PickBranch => MenuStepOf::PickBranch,
        MenuStepOf::Pick(t) => MenuStepOf::Pick(t),
        MenuStepOf::Send(q) => MenuStepOf::Send(q@),
    }
}

impl View for ActionOf<String, Request, Vec<Route>> {
    type V = ActionModel;

    open spec fn view(&self) -> ActionModel {
        match *self {
            ActionOf::Draw => ActionOf::Draw,
            ActionOf::Detach => ActionOf::Detach,
            ActionOf::Update(v) => ActionOf::Update(v@),
            ActionOf::SaveDeclined(v) => ActionOf::SaveDeclined(v@),
            ActionOf::CheckUpdates => ActionOf::CheckUpdates,
            ActionOf::Ask { daemon, request, then } => ActionOf::Ask {
                daemon,
                request: request@,
                then: then@,
            },
            ActionOf::StartAgent { daemon, name, start } => ActionOf::StartAgent {
                daemon,
                name: name@,
                start: start_model(start),
            },
            ActionOf::Run { daemon, name, start, then, kill, drop_stage } => ActionOf::Run {
                daemon,
                name: name@,
                start: start_model(start),
                then: then@,
                kill: match kill {
                    Some(q) => Some(q@),
                    None => None,
                },
                drop_stage,
            },
            ActionOf::DropStage => ActionOf::DropStage,
            ActionOf::SaveEdit(e) => ActionOf::SaveEdit(e@),
            ActionOf::Pin(n) => ActionOf::Pin(opt_text(n)),
            ActionOf::ScrollStage(n) => ActionOf::ScrollStage(n),
            ActionOf::PasteImage => ActionOf::PasteImage,
            ActionOf::PickHosts => ActionOf::PickHosts,
            ActionOf::Connect(t) => ActionOf::Connect(t@),
            ActionOf::PickLinks => ActionOf::PickLinks,
            ActionOf::Copy(t) => ActionOf::Copy(t@),
            ActionOf::CopySelection => ActionOf::CopySelection,
            ActionOf::ToggleLayout => ActionOf::ToggleLayout,
            ActionOf::Resize(g) => ActionOf::Resize(g),
            ActionOf::SaveFile(p) => ActionOf::SaveFile(p@),
            ActionOf::ApplyDiff { discard } => ActionOf::ApplyDiff { discard },
            ActionOf::ReadGit(g) => ActionOf::ReadGit(g),
            ActionOf::Control { daemon, command } => ActionOf::Control { daemon, command },
            ActionOf::Menu(step) => ActionOf::Menu(menu_model(step)),
            ActionOf::DropMachine(d) => ActionOf::DropMachine(d),
            ActionOf::Disconnect(host) => ActionOf::Disconnect(host@),
            ActionOf::OpenLink(url) => ActionOf::OpenLink(url@),
            ActionOf::RunCommand(s) => ActionOf::RunCommand(s@),
        }
    }
}

/// What the event loop holds besides the screen: what is known of newer
/// versions, the theme that is worn, the number of the last reading for the
/// git page, and what the log that is followed is of.
#[derive(Clone, Debug, PartialEq, Eq)]
pub struct Session {
    pub updates: Updates,
    pub theme: String,
    pub generation: u64,
    pub following: Option<String>,
}

/// What the event loop holds besides the screen.
#[verifier::ext_equal]
pub struct SessionModel {
    pub updates: UpdatesModel,
    pub theme: String,
    pub generation: u64,
    pub following: Option<Seq<char>>,
}

impl View for Session {
    type V = SessionModel;

    open spec fn view(&self) -> SessionModel {
        SessionModel {
            updates: self.updates@,
            theme: self.theme,
            generation: self.generation,
            following: opt_text(self.following),
        }
    }
}

/// What the event loop has to know: the pane on the stage, this client's own
/// version, the git menu, what the spaces are called, and what a question about
/// the pick at hand is headed.
#[derive(Clone, Debug, PartialEq, Eq)]
pub struct Tables {
    pub stage: Option<PaneId>,
    pub current: String,
    pub groups: Vec<MenuRows>,
    pub items: Vec<MenuItem>,
    pub spaces: Vec<String>,
    pub pick_title: String,
}

/// A screen whose view says something.
pub open spec fn desk_saying(d: DeskModel, what: Seq<char>) -> DeskModel {
    DeskModel { view: saying(d.view, what), ..d }
}

/// A request that is made, or what is said instead, behind what it is about.
pub open spec fn asked_or_said(
    d: DeskModel,
    about: Seq<char>,
    daemon: usize,
    r: Result<RequestModel, Seq<char>>,
    then: ThenModel,
) -> (DeskModel, ActionModel) {
    match r {
        Ok(request) => (d, ActionOf::Ask { daemon, request, then }),
        Err(e) => (desk_saying(d, about + e), ActionOf::Draw),
    }
}

/// Makes a request, or says what is wrong with it behind what it is about.
pub fn ask_or_say(desk: &mut Desk, about: &str, daemon: usize, r: Result<Request, String>, then: Then) -> (a:
    Action)
    ensures
        (final(desk)@, a@) == asked_or_said(old(desk)@, about@, daemon, asked(r), then@),
{
    match r {
        Ok(request) => Action::Ask { daemon, request, then },
        Err(e) => {
            desk.view.flash = Some(cat(about, e.as_str()));
            Action::Draw
        },
    }
}

/// What is said instead of a request about nothing in particular.
pub open spec fn plainly(
    d: DeskModel,
    daemon: usize,
    r: Result<RequestModel, Seq<char>>,
    then: ThenModel,
) -> (DeskModel, ActionModel) {
    match r {
        Ok(request) => (d, ActionOf::Ask { daemon, request, then }),
        Err(e) => (desk_saying(d, e), ActionOf::Draw),
    }
}

/// Makes a request, or says what is wrong with it.
pub fn ask_plainly(desk: &mut Desk, daemon: usize, r: Result<Request, String>, then: Then) -> (a: Action)
    ensures
        (final(desk)@, a@) == plainly(old(desk)@, daemon, asked(r), then@),
{
    match r {
        Ok(request) => Action::Ask { daemon, request, then },
        Err(e) => {
            desk.view.flash = Some(e);
            Action::Draw
        },
    }
}

/// What reading for the git page again does.
pub open spec fn refreshed(d: DeskModel, s: SessionModel, open: bool) -> (
    DeskModel,
    SessionModel,
    ActionModel,
) {
    let generation = next_generation(s.generation);
    (
        DeskModel { git: git_reading(d.git, open), ..d },
        SessionModel { generation, ..s },
        if open {
            ActionOf::ReadGit(generation)
        } else {
            ActionOf::Draw
        },
    )
}

/// What reading for the git page again does, where it is showing.
pub open spec fn refreshed_if_showing(d: DeskModel, s: SessionModel, open: bool) -> (
    DeskModel,
    SessionModel,
    ActionModel,
) {
    if d.view.page is Git {
        refreshed(d, s, open)
    } else {
        (d, s, ActionOf::Draw)
    }
}

/// Reads for the git page again.
pub fn refresh(desk: &mut Desk, s: &mut Session, open: bool) -> (a: Action)
    ensures
        (final(desk)@, final(s)@, a@) == refreshed(old(desk)@, old(s)@, open),
{
    match spawn_git_refresh(&mut desk.git, &mut s.generation, open) {
        Some(g) => Action::ReadGit(g),
        None => Action::Draw,
    }
}

/// Reads for the git page again, where it is showing.
pub fn refresh_git_if_showing(desk: &mut Desk, s: &mut Session, open: bool) -> (a: Action)
    ensures
        (final(desk)@, final(s)@, a@) == refreshed_if_showing(old(desk)@, old(s)@, open),
{
    if desk.view.page == Page::Git {
        refresh(desk, s, open)
    } else {
        Action::Draw
    }
}

/// What something done to the repository asks, or what is said instead; the
/// git page is then read again where it is showing.
pub open spec fn on_repository(
    d: DeskModel,
    s: SessionModel,
    daemon: usize,
    r: Result<RequestModel, Seq<char>>,
    open: bool,
) -> (DeskModel, SessionModel, ActionModel) {
    match r {
        Ok(request) => (
            d,
            s,
            ActionOf::Ask { daemon, request, then: ThenOf::Repository },
        ),
        Err(e) => refreshed_if_showing(desk_saying(d, e), s, open),
    }
}

fn ask_repository(
    desk: &mut Desk,
    s: &mut Session,
    daemon: usize,
    r: Result<Request, String>,
    open: bool,
) -> (a: Action)
    ensures
        (final(desk)@, final(s)@, a@) == on_repository(
            old(desk)@,
            old(s)@,
            daemon,
            asked(r),
            open,
        ),
{
    match r {
        Ok(request) => Action::Ask { daemon, request, then: Then::Repository },
        Err(e) => {
            desk.view.flash = Some(e);
            refresh_git_if_showing(desk, s, open)
        },
    }
}

/// What spawning an agent asks, or what is said instead.
#[verifier::opaque]
pub open spec fn agent_wanted(d: DeskModel, daemon: usize, name: Seq<char>, ws: Option<&Workspace>) -> (
    DeskModel,
    ActionModel,
) {
    match agent_start(ws, name) {
        Ok(start) => (d, ActionOf::StartAgent { daemon, name, start }),
        Err(e) => (desk_saying(d, e), ActionOf::Draw),
    }
}

fn want_agent(desk: &mut Desk, daemon: usize, name: String, ws: Option<&Workspace>) -> (a: Action)
    ensures
        (final(desk)@, a@) == agent_wanted(old(desk)@, daemon, name@, ws),
{
    reveal(agent_wanted);
    match spawn_agent(ws, name.as_str()) {
        Ok(start) => Action::StartAgent { daemon, name, start },
        Err(e) => {
            desk.view.flash = Some(e);
            Action::Draw
        },
    }
}

/// What listing agents to pick one asks.
pub open spec fn agents_listed(d: DeskModel, daemon: usize) -> (DeskModel, ActionModel) {
    (
        d,
        ActionOf::Ask { daemon, request: get_of("/v1/agents"@), then: ThenOf::Agents },
    )
}

/// What running something asks. A log that is to be followed takes the place of
/// the one that is, which is killed.
pub open spec fn run_wanted(
    d: DeskModel,
    s: SessionModel,
    daemon: usize,
    machines: int,
    name: Seq<char>,
    command: Seq<char>,
    then: SpawnedModel,
    ws: Option<&Workspace>,
) -> (DeskModel, SessionModel, ActionModel) {
    let old_log = if then is Follow {
        d.docker.logs
    } else {
        None
    };
    let d = if then is Follow {
        DeskModel { docker: Docker { logs: None, ..d.docker }, ..d }
    } else {
        d
    };
    let s = if then is Follow {
        SessionModel { following: None, ..s }
    } else {
        s
    };
    match process_start(ws, name, command) {
        Ok(start) => (
            d,
            s,
            ActionOf::Run {
                daemon,
                name,
                start,
                then,
                kill: match old_log {
                    Some(pane) => match kill_request(
                        machines,
                        Route { daemon, workspace: ws->0.id, pane },
                    ) {
                        Ok(q) => Some(q),
                        Err(_) => None,
                    },
                    None => None,
                },
                drop_stage: old_log is Some,
            },
        ),
        Err(e) => (
            desk_saying(d, name + ": "@ + e),
            s,
            if old_log is Some {
                ActionOf::DropStage
            } else {
                ActionOf::Draw
            },
        ),
    }
}

fn want_run(
    desk: &mut Desk,
    s: &mut Session,
    daemon: usize,
    machines: usize,
    name: String,
    command: &str,
    then: Spawned,
    ws: Option<&Workspace>,
) -> (a: Action)
    ensures
        (final(desk)@, final(s)@, a@) == run_wanted(
            old(desk)@,
            old(s)@,
            daemon,
            machines as int,
            name@,
            command@,
            then@,
            ws,
        ),
{
    let old_log = leave_old_log(&then, &mut desk.docker, &mut s.following);
    match run_process(ws, name.as_str(), command) {
        Ok(start) => {
            let kill = match (old_log, ws) {
                (Some(pane), Some(w)) => match kill_pane(
                    machines,
                    Route { daemon, workspace: w.id, pane },
                ) {
                    Ok(q) => Some(q),
                    Err(_) => None,
                },
                _ => None,
            };
            Action::Run { daemon, name, start, then, kill, drop_stage: old_log.is_some() }
        },
        Err(e) => {
            desk.view.flash = Some(crate::text::cat3(name.as_str(), ": ", e.as_str()));
            if old_log.is_some() {
                Action::DropStage
            } else {
                Action::Draw
            }
        },
    }
}

/// What browsing folders from one asks.
#[verifier::opaque]
pub open spec fn browsing(
    d: DeskModel,
    daemons: Seq<Daemon>,
    hosts: Seq<Option<String>>,
    dir: Seq<char>,
) -> (DeskModel, ActionModel) {
    if asks_machine(daemons.len() as int, d.view, dir) {
        (
            DeskModel {
                view: BenchOf { overlay: Some(machine_list(daemons, hosts)), ..d.view },
                ..d
            },
            ActionOf::Draw,
        )
    } else {
        (
            d,
            ActionOf::Ask {
                daemon: browsed_daemon(daemons, d.view),
                request: browse_request(dir),
                then: ThenOf::Browse("browse: "@),
            },
        )
    }
}

/// Browses folders from one.
pub fn browse(desk: &mut Desk, daemons: &Vec<Daemon>, hosts: &Vec<Option<String>>, dir: &str) -> (a:
    Action)
    ensures
        (final(desk)@, a@) == browsing(old(desk)@, daemons@, hosts@, dir@),
{
    reveal(browsing);
    let daemon: usize = browse_daemon(daemons, hosts, &desk.view);
    match browse_into(daemons, hosts, &mut desk.view, dir) {
        Some(request) => Action::Ask {
            daemon,
            request,
            then: Then::Browse("browse: ".to_owned()),
        },
        None => Action::Draw,
    }
}

/// What killing a pane asks, or what is said instead.
#[verifier::opaque]
pub open spec fn killing(d: DeskModel, machines: int, to: Route) -> (DeskModel, ActionModel) {
    plainly(d, to.daemon, kill_request(machines, to), ThenOf::Done)
}

fn kill(desk: &mut Desk, machines: usize, to: Route) -> (a: Action)
    ensures
        (final(desk)@, a@) == killing(old(desk)@, machines as int, to),
{
    reveal(killing);
    ask_plainly(desk, to.daemon, kill_pane(machines, to), Then::Done)
}

/// Whether a flow is about files.
pub open spec fn about_files(f: FlowModel) -> bool {
    f is ListDir || f is OpenFile || f is OpenFileAt || f is SaveFile || f is DeleteFile
        || f is Search
}

/// What a flow about files does. A file that holds something unsaved may refuse
/// to make room for another.
pub open spec fn files_flow(
    f: FlowModel,
    d: DeskModel,
    here: usize,
    ws: Option<&Workspace>,
) -> (DeskModel, ActionModel) {
    let docs = d.view.page is Docs;
    match f {
        FlowOf::ListDir(dir) => asked_or_said(
            d,
            "tree: "@,
            here,
            dir_request(ws, d.view.page, dir),
            ThenOf::Tree(dir),
        ),
        FlowOf::OpenFile(path) => {
            let (tree, room) = opening(
                if docs {
                    d.docs
                } else {
                    d.files
                },
            );
            let d = if docs {
                DeskModel { docs: tree, ..d }
            } else {
                DeskModel { files: tree, ..d }
            };
            if room {
                asked_or_said(
                    d,
                    "file: "@,
                    here,
                    file_wanted(ws, path),
                    ThenOf::File { path, line: None },
                )
            } else {
                (d, ActionOf::Draw)
            }
        },
        FlowOf::OpenFileAt { path, line } => {
            let (tree, room) = opening(d.files);
            let d = DeskModel {
                files: tree,
                view: BenchOf { page: Page::Files, ..d.view },
                ..d
            };
            if room {
                asked_or_said(
                    d,
                    "file: "@,
                    here,
                    file_wanted(ws, path),
                    ThenOf::File { path, line },
                )
            } else {
                (d, ActionOf::Draw)
            }
        },
        FlowOf::SaveFile => (
            d,
            match (if docs {
                d.docs.open
            } else {
                d.files.open
            }) {
                Some(e) => ActionOf::SaveFile(e.path),
                None => ActionOf::Draw,
            },
        ),
        FlowOf::DeleteFile(path) => asked_or_said(
            d,
            "delete: "@,
            here,
            match ws {
                None => no_workspace(),
                Some(w) => Ok(delete_of(file_route(w.id, path))),
            },
            ThenOf::Deleted(path),
        ),
        FlowOf::Search(query) => match search_request(ws, query) {
            Ok(request) => (
                d,
                ActionOf::Ask { daemon: here, request, then: ThenOf::Search(query) },
            ),
            Err(e) => (DeskModel { view: search_ended(d.view, e), ..d }, ActionOf::Draw),
        },
        _ => (d, ActionOf::Draw),
    }
}

/// What reading a file asks.
pub open spec fn file_wanted(ws: Option<&Workspace>, path: Seq<char>) -> Result<
    RequestModel,
    Seq<char>,
> {
    match ws {
        None => no_workspace(),
        Some(w) => Ok(get_of(file_route(w.id, path))),
    }
}

#[verifier::rlimit(40)]
fn run_files_flow(f: Flow, desk: &mut Desk, here: usize, ws: Option<&Workspace>) -> (a: Action)
    ensures
        (final(desk)@, a@) == files_flow(f@, old(desk)@, here, ws),
{
    let docs = desk.view.page == Page::Docs;
    match f {
        FlowOf::ListDir(dir) => {
            let r = fetch_dir(ws, desk.view.page, dir.as_str());
            ask_or_say(desk, "tree: ", here, r, Then::Tree(dir))
        },
        FlowOf::OpenFile(path) => {
            let room = if docs {
                make_room(&mut desk.docs)
            } else {
                make_room(&mut desk.files)
            };
            if room {
                let r = fetch_file(ws, path.as_str());
                ask_or_say(desk, "file: ", here, r, Then::File { path, line: None })
            } else {
                Action::Draw
            }
        },
        FlowOf::OpenFileAt { path, line } => {
            let room = make_room(&mut desk.files);
            desk.view.page = Page::Files;
            if room {
                let r = fetch_file(ws, path.as_str());
                ask_or_say(desk, "file: ", here, r, Then::File { path, line })
            } else {
                Action::Draw
            }
        },
        FlowOf::SaveFile => {
            let open = if docs {
                &desk.docs.open
            } else {
                &desk.files.open
            };
            match open {
                Some(e) => Action::SaveFile(e.path.clone()),
                None => Action::Draw,
            }
        },
        FlowOf::DeleteFile(path) => {
            let r = delete_file(ws, path.as_str());
            ask_or_say(desk, "delete: ", here, r, Then::Deleted(path))
        },
        FlowOf::Search(query) => match fetch_search(ws, query.as_str()) {
            Ok(request) => Action::Ask { daemon: here, request, then: Then::Search(query) },
            Err(e) => {
                search_failed(&mut desk.view, e.as_str());
                Action::Draw
            },
        },
        _ => Action::Draw,
    }
}

/// Whether a flow is about something to be read and shown of the repository.
pub open spec fn about_diffs(f: FlowModel) -> bool {
    f is GitOpenCommit || f is GitShowRev || f is GitOpenDiff || f is OpenDiff
        || f is OpenSelectedDiff || f is PickBranch
}

/// What a flow about something to be read of the repository does.
pub open spec fn diffs_flow(f: FlowModel, d: DeskModel, here: usize, ws: Option<&Workspace>) -> (
    DeskModel,
    ActionModel,
) {
    match f {
        FlowOf::GitOpenCommit => match commit_at(d.git) {
            Some(c) => {
                let kind = DiffKindOf::Commit { id: c.id, summary: c.summary };
                asked_or_said(d, "show: "@, here, diff_request(ws, kind), ThenOf::Shown(kind))
            },
            None => (d, ActionOf::Draw),
        },
        FlowOf::GitShowRev { rev, title } => {
            let kind = DiffKindOf::Commit { id: rev, summary: title };
            asked_or_said(d, "show: "@, here, diff_request(ws, kind), ThenOf::Shown(kind))
        },
        FlowOf::GitOpenDiff { kind, keep_cursor } => asked_or_said(
            d,
            "diff: "@,
            here,
            diff_request(ws, kind),
            ThenOf::Change { kind, keep_cursor },
        ),
        FlowOf::OpenDiff { kind, keep_cursor } => asked_or_said(
            d,
            "diff: "@,
            here,
            diff_request(ws, kind),
            ThenOf::Diff { kind, keep_cursor },
        ),
        FlowOf::OpenSelectedDiff => match diff_at(ws, d.view.changes_sel) {
            Some(kind) => asked_or_said(
                d,
                "diff: "@,
                here,
                diff_request(ws, kind),
                ThenOf::Diff { kind, keep_cursor: false },
            ),
            None => (d, ActionOf::Draw),
        },
        FlowOf::PickBranch => asked_or_said(
            d,
            "branches: "@,
            here,
            listed(ws, "branches"@),
            ThenOf::Branches { about: "branches: "@, again: false },
        ),
        _ => (d, ActionOf::Draw),
    }
}

fn run_diffs_flow(f: Flow, desk: &mut Desk, here: usize, ws: Option<&Workspace>) -> (a: Action)
    ensures
        (final(desk)@, a@) == diffs_flow(f@, old(desk)@, here, ws),
{
    match f {
        FlowOf::GitOpenCommit => {
            if desk.git.hist_sel < desk.git.log.len() {
                let c = &desk.git.log[desk.git.hist_sel];
                let kind: DiffKind = DiffKindOf::Commit {
                    id: c.id.clone(),
                    summary: c.summary.clone(),
                };
                let r = fetch_diff(ws, &kind);
                ask_or_say(desk, "show: ", here, r, Then::Shown(kind))
            } else {
                Action::Draw
            }
        },
        FlowOf::GitShowRev { rev, title } => {
            let kind: DiffKind = DiffKindOf::Commit { id: rev, summary: title };
            let r = fetch_diff(ws, &kind);
            ask_or_say(desk, "show: ", here, r, Then::Shown(kind))
        },
        FlowOf::GitOpenDiff { kind, keep_cursor } => {
            let r = fetch_diff(ws, &kind);
            ask_or_say(desk, "diff: ", here, r, Then::Change { kind, keep_cursor })
        },
        FlowOf::OpenDiff { kind, keep_cursor } => {
            let r = fetch_diff(ws, &kind);
            ask_or_say(desk, "diff: ", here, r, Then::Diff { kind, keep_cursor })
        },
        FlowOf::OpenSelectedDiff => match diff_under_cursor(ws, desk.view.changes_sel) {
            Some(kind) => {
                let r = fetch_diff(ws, &kind);
                ask_or_say(desk, "diff: ", here, r, Then::Diff { kind, keep_cursor: false })
            },
            None => Action::Draw,
        },
        FlowOf::PickBranch => {
            let r = read_list(ws, "branches");
            ask_or_say(
                desk,
                "branches: ",
                here,
                r,
                Then::Branches { about: "branches: ".to_owned(), again: false },
            )
        },
        _ => Action::Draw,
    }
}

/// What fetching from a remote asks, or what is said instead.
#[verifier::opaque]
pub open spec fn fetch_wanted(
    d: DeskModel,
    s: SessionModel,
    here: usize,
    ws: Option<&Workspace>,
    remote: Seq<char>,
) -> (DeskModel, SessionModel, ActionModel) {
    match workspace_post(
        ws,
        "git/fetch"@,
        seq![("remote"@, FieldOf::Text(remote)), ("prune"@, FieldOf::Flag(true))],
    ) {
        Ok(request) => (
            d,
            s,
            ActionOf::Ask { daemon: here, request, then: ThenOf::Fetched },
        ),
        Err(e) => refreshed(desk_saying(d, "fetch: "@ + e), s, ws is Some),
    }
}

fn want_fetch(desk: &mut Desk, s: &mut Session, here: usize, ws: Option<&Workspace>, remote: &str) -> (
    a: Action)
    ensures
        (final(desk)@, final(s)@, a@) == fetch_wanted(old(desk)@, old(s)@, here, ws, remote@),
{
    reveal(fetch_wanted);
    match fetch_remote(ws, remote) {
        Ok(request) => Action::Ask { daemon: here, request, then: Then::Fetched },
        Err(e) => {
            desk.view.flash = Some(cat("fetch: ", e.as_str()));
            refresh(desk, s, ws.is_some())
        },
    }
}

/// What a pick asks, once it has been confirmed where it has to be.
#[verifier::opaque]
pub open spec fn pick_wanted(
    d: DeskModel,
    s: SessionModel,
    here: usize,
    ws: Option<&Workspace>,
    target: PickTarget,
    value: Seq<char>,
) -> (DeskModel, SessionModel, ActionModel) {
    on_repository(d, s, here, pick_request(ws, target, value), ws is Some)
}

fn want_pick(
    desk: &mut Desk,
    s: &mut Session,
    here: usize,
    ws: Option<&Workspace>,
    target: PickTarget,
    value: &str,
) -> (a: Action)
    ensures
        (final(desk)@, final(s)@, a@) == pick_wanted(
            old(desk)@,
            old(s)@,
            here,
            ws,
            target,
            value@,
        ),
{
    reveal(pick_wanted);
    let r = run_pick_confirmed(ws, target, value);
    ask_repository(desk, s, here, r, ws.is_some())
}

/// What a git action asks.
#[verifier::opaque]
pub open spec fn git_wanted(
    d: DeskModel,
    s: SessionModel,
    here: usize,
    ws: Option<&Workspace>,
    action: GitActionModel,
) -> (DeskModel, SessionModel, ActionModel) {
    on_repository(d, s, here, git_request(ws, action), ws is Some)
}

fn want_git(
    desk: &mut Desk,
    s: &mut Session,
    here: usize,
    ws: Option<&Workspace>,
    action: &GitAction,
) -> (a: Action)
    ensures
        (final(desk)@, final(s)@, a@) == git_wanted(old(desk)@, old(s)@, here, ws, action@),
{
    reveal(git_wanted);
    let r = run_git(ws, action);
    ask_repository(desk, s, here, r, ws.is_some())
}

/// What a row of the git menu does, or what is said instead.
#[verifier::opaque]
pub open spec fn menu_wanted(
    d: DeskModel,
    s: SessionModel,
    ws: Option<&Workspace>,
    action: MenuAction,
    items: Seq<MenuItem>,
) -> (DeskModel, SessionModel, ActionModel) {
    let (view, step) = menu_taken(action, d.view, items, ws);
    let d = DeskModel { view, ..d };
    match step {
        Ok(step) => (d, s, ActionOf::Menu(step)),
        Err(e) => refreshed_if_showing(desk_saying(d, e), s, ws is Some),
    }
}

fn want_menu(
    desk: &mut Desk,
    s: &mut Session,
    ws: Option<&Workspace>,
    action: MenuAction,
    items: &Vec<MenuItem>,
) -> (a: Action)
    ensures
        (final(desk)@, final(s)@, a@) == menu_wanted(old(desk)@, old(s)@, ws, action, items@),
{
    reveal(menu_wanted);
    match run_menu_action(action, &mut desk.view, items, ws) {
        Ok(step) => Action::Menu(step),
        Err(e) => {
            desk.view.flash = Some(e);
            refresh_git_if_showing(desk, s, ws.is_some())
        },
    }
}

/// What copying the id of the commit under the cursor does.
#[verifier::opaque]
pub open spec fn sha_copied(d: DeskModel) -> (DeskModel, ActionModel) {
    match commit_at(d.git) {
        Some(c) => (desk_saying(d, "copied "@ + short_id(c.id)), ActionOf::Copy(c.id)),
        None => (desk_saying(d, "no commit selected"@), ActionOf::Draw),
    }
}

/// Whether the id of the commit under the cursor can be shortened, as one of
/// plain characters can.
#[verifier::opaque]
pub open spec fn can_shorten(g: GitModel) -> bool {
    commit_at(g) matches Some(c) ==> fitting(c.id, 7) is Some
}

fn copy_id(desk: &mut Desk) -> (a: Action)
    requires
        can_shorten(old(desk)@.git),
    ensures
        (final(desk)@, a@) == sha_copied(old(desk)@),
{
    reveal(sha_copied);
    reveal(can_shorten);
    proof {
        if desk.git.hist_sel < desk.git.log@.len() {
            assert(desk@.git.log[desk.git.hist_sel as int].id
                == desk.git.log@[desk.git.hist_sel as int].id@);
        }
    }
    match copy_sha(&desk.git, &mut desk.view) {
        Some(id) => Action::Copy(id),
        None => Action::Draw,
    }
}

/// Whether a flow is about the repository.
pub open spec fn about_git(f: FlowModel) -> bool {
    f is GitRefresh || f is ConfirmPick || f is GitFetch || f is GitCopySha || f is GitScope
        || f is ApplyDiff || f is Pick || f is MenuAction || f is Git || f is GitMenu
}

/// What a flow about the repository does.
pub open spec fn git_flow(
    f: FlowModel,
    d: DeskModel,
    s: SessionModel,
    here: usize,
    ws: Option<&Workspace>,
    t: Tables,
) -> (DeskModel, SessionModel, ActionModel) {
    let open = ws is Some;
    match f {
        FlowOf::GitRefresh => refreshed(d, s, open),
        FlowOf::ConfirmPick { target, value } => (
            DeskModel {
                view: BenchOf {
                    overlay: Some(
                        question(
                            t.pick_title@,
                            value,
                            ConfirmKindOf::Pick { target, value, label: value },
                        ),
                    ),
                    ..d.view
                },
                ..d
            },
            s,
            ActionOf::Draw,
        ),
        FlowOf::GitFetch(remote) => fetch_wanted(d, s, here, ws, remote),
        FlowOf::GitCopySha => (sha_copied(d).0, s, sha_copied(d).1),
        FlowOf::GitScope(scope) => refreshed(
            DeskModel { git: GitOf { scope, hist_sel: 0, ..d.git }, ..d },
            s,
            open,
        ),
        FlowOf::ApplyDiff { discard } => (d, s, ActionOf::ApplyDiff { discard }),
        FlowOf::Pick { target, value } => pick_wanted(d, s, here, ws, target, value),
        FlowOf::Git(action) => git_wanted(d, s, here, ws, action),
        FlowOf::MenuAction(action) => menu_wanted(d, s, ws, action, t.items@),
        FlowOf::GitMenu => (
            DeskModel {
                view: BenchOf { overlay: Some(git_menu(None, t.groups@)), ..d.view },
                ..d
            },
            s,
            ActionOf::Draw,
        ),
        _ => (d, s, ActionOf::Draw),
    }
}

#[verifier::rlimit(40)]
fn run_git_flow(
    f: Flow,
    desk: &mut Desk,
    s: &mut Session,
    here: usize,
    ws: Option<&Workspace>,
    t: &Tables,
) -> (a: Action)
    requires
        f@ is GitCopySha ==> can_shorten(old(desk)@.git),
    ensures
        (final(desk)@, final(s)@, a@) == git_flow(f@, old(desk)@, old(s)@, here, ws, *t),
{
    let open = ws.is_some();
    match f {
        FlowOf::GitRefresh => refresh(desk, s, open),
        FlowOf::ConfirmPick { target, value } => {
            confirm_pick(target, t.pick_title.as_str(), value, &mut desk.view);
            Action::Draw
        },
        FlowOf::GitFetch(remote) => want_fetch(desk, s, here, ws, remote.as_str()),
        FlowOf::GitCopySha => copy_id(desk),
        FlowOf::GitScope(scope) => {
            set_scope(&mut desk.git, scope);
            refresh(desk, s, open)
        },
        FlowOf::ApplyDiff { discard } => Action::ApplyDiff { discard },
        FlowOf::Pick { target, value } => want_pick(desk, s, here, ws, target, value.as_str()),
        FlowOf::Git(action) => want_git(desk, s, here, ws, &action),
        FlowOf::MenuAction(action) => want_menu(desk, s, ws, action, &t.items),
        FlowOf::GitMenu => {
            desk.view.overlay = Some(git_menu_overlay(None, &t.groups));
            Action::Draw
        },
        _ => Action::Draw,
    }
}

/// A view that has gone to another tab.
#[verifier::opaque]
pub open spec fn tab_changed(v: BenchModel, m: TabMove, daemons: Seq<Daemon>) -> BenchModel {
    match tab_after(m, v.tab as int, all_tabs(daemons).len() as int) {
        Some(tab) => on_tab(v, tab as usize),
        None => v,
    }
}

fn change_tab(view: &mut Bench, m: TabMove, daemons: &Vec<Daemon>, hosts: &Vec<Option<String>>)
    requires
        old(view)@.tab + all_tabs(daemons@).len() < usize::MAX,
    ensures
        final(view)@ == tab_changed(old(view)@, m, daemons@),
{
    reveal(tab_changed);
    let count: usize = tab_index(daemons, hosts).len();
    go_tab(view, m, count);
}

/// A view that shows the pane under the cursor, where there is one.
#[verifier::opaque]
pub open spec fn selected_shown(
    v: BenchModel,
    daemons: Seq<Daemon>,
    hosts: Seq<Option<String>>,
) -> BenchModel {
    match pane_of(daemons, hosts, v) {
        Some(pane) => showing_pane(v, pane),
        None => v,
    }
}

fn show_selected(view: &mut Bench, daemons: &Vec<Daemon>, hosts: &Vec<Option<String>>)
    requires
        daemons@.len() > 1 ==> daemons@.len() <= hosts@.len(),
    ensures
        final(view)@ == selected_shown(old(view)@, daemons@, hosts@),
{
    reveal(selected_shown);
    if let Some(pane) = selected_pane(daemons, hosts, view) {
        stage_new_pane(view, pane);
    }
}

/// A view that has gone to an agent of the list of all agents, or says that it
/// has gone.
#[verifier::opaque]
pub open spec fn agent_opened(
    v: BenchModel,
    sel: usize,
    daemons: Seq<Daemon>,
    hosts: Seq<Option<String>>,
) -> BenchModel {
    let all = fleet(daemons, hosts);
    if sel < all.len() {
        travelled(
            v,
            sel,
            tab_of_agent(daemons, all[sel as int])->0,
            all[sel as int].pane,
        )
    } else {
        saying(v, "that agent has gone"@)
    }
}

fn open_agent(view: &mut Bench, sel: usize, daemons: &Vec<Daemon>, hosts: &Vec<Option<String>>)
    requires
        daemons@.len() > 1 ==> daemons@.len() <= hosts@.len(),
    ensures
        final(view)@ == agent_opened(old(view)@, sel, daemons@, hosts@),
{
    reveal(agent_opened);
    if !open_fleet_agent(daemons, hosts, view, sel) {
        view.flash = Some("that agent has gone".to_owned());
    }
}

/// Whether a flow is about the view alone.
pub open spec fn about_view(f: FlowModel) -> bool {
    f is OpenHelp || f is CloseHelp || f is OpenSettings || f is CloseSettings || f is PickSpace
        || f is AskCloseWorkspace || f is GoTab || f is StageSelected || f is OpenFleetAgent
}

/// What a flow about the view alone does.
pub open spec fn view_flow(
    f: FlowModel,
    d: DeskModel,
    s: SessionModel,
    daemons: Seq<Daemon>,
    hosts: Seq<Option<String>>,
    ws: Option<&Workspace>,
    t: Tables,
) -> DeskModel {
    match f {
        FlowOf::OpenHelp => {
            let (view, help) = help_opened(d.view, d.help);
            DeskModel { view, help, ..d }
        },
        FlowOf::CloseHelp => DeskModel { view: help_closed(d.view, d.help), ..d },
        FlowOf::OpenSettings => DeskModel {
            settings: Settings { ret: d.view.page, saved_theme: s.theme, ..d.settings },
            view: BenchOf { page: Page::Settings, ..d.view },
            ..d
        },
        FlowOf::CloseSettings => DeskModel {
            view: BenchOf { page: d.settings.ret, ..d.view },
            ..d
        },
        FlowOf::PickSpace => DeskModel {
            view: BenchOf {
                overlay: Some(
                    plain_list(
                        "VIEWS"@,
                        texts(t.spaces@),
                        crate::bench::space_index(d.view.spaces, d.view.page) as usize,
                        ListKindOf::Space,
                    ),
                ),
                ..d.view
            },
            ..d
        },
        FlowOf::AskCloseWorkspace => match ws {
            Some(w) => DeskModel {
                view: BenchOf { overlay: Some(close_question(w.id, w.name@)), ..d.view },
                ..d
            },
            None => d,
        },
        FlowOf::GoTab(m) => DeskModel { view: tab_changed(d.view, m, daemons), ..d },
        FlowOf::StageSelected => DeskModel { view: selected_shown(d.view, daemons, hosts), ..d },
        FlowOf::OpenFleetAgent(sel) => DeskModel {
            view: agent_opened(d.view, sel, daemons, hosts),
            ..d
        },
        _ => d,
    }
}

fn clone_rows(v: &Vec<String>) -> (r: Vec<String>)
    ensures
        texts(r@) == texts(v@),
{
    let mut r: Vec<String> = Vec::new();
    let mut i: usize = 0;
    while i < v.len()
        invariant
            i <= v@.len(),
            r@.len() == i,
            forall|j: int| 0 <= j < i ==> #[trigger] r@[j] == v@[j],
        decreases v@.len() - i,
    {
        r.push(v[i].clone());
        i = i + 1;
    }
    assert(texts(r@) =~= texts(v@));
    r
}

#[verifier::rlimit(40)]
fn run_view_flow(
    f: Flow,
    desk: &mut Desk,
    s: &Session,
    daemons: &Vec<Daemon>,
    hosts: &Vec<Option<String>>,
    ws: Option<&Workspace>,
    t: &Tables,
)
    requires
        daemons@.len() > 1 ==> daemons@.len() <= hosts@.len(),
        f@ is GoTab ==> old(desk)@.view.tab + all_tabs(daemons@).len() < usize::MAX,
    ensures
        final(desk)@ == view_flow(f@, old(desk)@, s@, daemons@, hosts@, ws, *t),
{
    match f {
        FlowOf::OpenHelp => open_help(&mut desk.help, &mut desk.view),
        FlowOf::CloseHelp => close_help(&desk.help, &mut desk.view),
        FlowOf::OpenSettings => open_settings(&mut desk.settings, &mut desk.view, &s.theme),
        FlowOf::CloseSettings => close_settings(&desk.settings, &mut desk.view),
        FlowOf::PickSpace => {
            let rows = clone_rows(&t.spaces);
            let list = space_picker(&desk.view, rows);
            desk.view.overlay = Some(list);
        },
        FlowOf::AskCloseWorkspace => {
            if let Some(w) = ws {
                desk.view.overlay = Some(close_workspace_confirm(w.id, &w.name));
            }
        },
        FlowOf::GoTab(m) => change_tab(&mut desk.view, m, daemons, hosts),
        FlowOf::StageSelected => show_selected(&mut desk.view, daemons, hosts),
        FlowOf::OpenFleetAgent(sel) => open_agent(&mut desk.view, sel, daemons, hosts),
        _ => {},
    }
}

/// What closing the pane on the stage asks, or what is said instead.
#[verifier::opaque]
pub open spec fn stage_closed(
    d: DeskModel,
    machines: int,
    here: usize,
    ws: Option<&Workspace>,
    stage: Option<PaneId>,
) -> (DeskModel, ActionModel) {
    match stage {
        Some(pane) => match ws {
            Some(w) => killing(d, machines, Route { daemon: here, workspace: w.id, pane }),
            None => (desk_saying(d, "no workspace open"@), ActionOf::Draw),
        },
        None => (desk_saying(d, "nothing on the stage"@), ActionOf::Draw),
    }
}

fn close_stage(
    desk: &mut Desk,
    machines: usize,
    here: usize,
    ws: Option<&Workspace>,
    stage: Option<PaneId>,
) -> (a: Action)
    ensures
        (final(desk)@, a@) == stage_closed(old(desk)@, machines as int, here, ws, stage),
{
    reveal(stage_closed);
    match close_stage_pane(&mut desk.view, stage) {
        Some(pane) => match kill_process(ws, here, pane) {
            Ok(to) => kill(desk, machines, to),
            Err(e) => {
                desk.view.flash = Some(e);
                Action::Draw
            },
        },
        None => Action::Draw,
    }
}

/// What killing the pane under the cursor asks, or what is said instead.
#[verifier::opaque]
pub open spec fn selected_killed(
    d: DeskModel,
    daemons: Seq<Daemon>,
    hosts: Seq<Option<String>>,
) -> (DeskModel, ActionModel) {
    match route_of(daemons, hosts, d.view) {
        Some(to) => killing(d, daemons.len() as int, to),
        None => (desk_saying(d, "nothing selected"@), ActionOf::Draw),
    }
}

fn kill_chosen(desk: &mut Desk, daemons: &Vec<Daemon>, hosts: &Vec<Option<String>>) -> (a: Action)
    requires
        daemons@.len() > 1 ==> daemons@.len() <= hosts@.len(),
    ensures
        (final(desk)@, a@) == selected_killed(old(desk)@, daemons@, hosts@),
{
    reveal(selected_killed);
    let route = selected_route(daemons, hosts, &desk.view);
    match kill_selected(&mut desk.view, route) {
        Some(to) => kill(desk, daemons.len(), to),
        None => Action::Draw,
    }
}

/// What restarting the process under the cursor asks, or what is said instead.
#[verifier::opaque]
pub open spec fn restart_wanted(d: DeskModel, here: usize, ws: Option<&Workspace>) -> (
    DeskModel,
    ActionModel,
) {
    match restart_request(ws, d.view.proc_sel) {
        Ok((request, pane)) => (
            d,
            ActionOf::Ask { daemon: here, request, then: ThenOf::Restarted(pane) },
        ),
        Err(e) => (desk_saying(d, e), ActionOf::Draw),
    }
}

fn want_restart(desk: &mut Desk, here: usize, ws: Option<&Workspace>) -> (a: Action)
    ensures
        (final(desk)@, a@) == restart_wanted(old(desk)@, here, ws),
{
    reveal(restart_wanted);
    match restart_process(ws, desk.view.proc_sel) {
        Ok((request, pane)) => Action::Ask { daemon: here, request, then: Then::Restarted(pane) },
        Err(e) => {
            desk.view.flash = Some(e);
            Action::Draw
        },
    }
}

/// What making a folder asks.
#[verifier::opaque]
pub open spec fn folder_wanted(daemon: usize, dir: Seq<char>, name: Seq<char>) -> ActionModel {
    ActionOf::Ask {
        daemon,
        request: post_of(
            "/v1/fs/mkdir"@,
            seq![("path"@, FieldOf::Text(dir)), ("name"@, FieldOf::Text(name))],
        ),
        then: ThenOf::MakeFolder(dir),
    }
}

fn want_folder(daemon: usize, dir: String, name: &str) -> (a: Action)
    ensures
        a@ == folder_wanted(daemon, dir@, name@),
{
    reveal(folder_wanted);
    let request = make_folder(dir.as_str(), name);
    Action::Ask { daemon, request, then: Then::MakeFolder(dir) }
}

/// What going to a checkout does: the tab of the workspace that is open on it
/// is gone to, and one is opened there where it has none.
#[verifier::opaque]
pub open spec fn worktree_wanted(
    d: DeskModel,
    daemons: Seq<Daemon>,
    here: usize,
    ws: Option<&Workspace>,
    workspace: SessionId,
    path: Seq<char>,
) -> (DeskModel, ActionModel) {
    match tab_with(daemons, all_tabs(daemons), here, workspace) {
        Some(tab) => (DeskModel { view: on_tab(d.view, tab as usize), ..d }, ActionOf::Draw),
        None => plainly(
            d,
            here,
            pick_request(ws, PickTarget::OpenWorktree, path),
            ThenOf::Repository,
        ),
    }
}

fn go_worktree(
    desk: &mut Desk,
    daemons: &Vec<Daemon>,
    hosts: &Vec<Option<String>>,
    here: usize,
    ws: Option<&Workspace>,
    workspace: SessionId,
    path: &str,
) -> (a: Action)
    ensures
        (final(desk)@, a@) == worktree_wanted(old(desk)@, daemons@, here, ws, workspace, path@),
{
    reveal(worktree_wanted);
    match find_tab(daemons, hosts, here, workspace) {
        Some(tab) => {
            select_tab(&mut desk.view, tab);
            Action::Draw
        },
        None => ask_plainly(
            desk,
            here,
            run_pick_confirmed(ws, PickTarget::OpenWorktree, path),
            Then::Repository,
        ),
    }
}

/// Whether a flow is about what runs on a machine.
pub open spec fn about_panes(f: FlowModel) -> bool {
    f is PickAgent || f is SpawnAgent || f is NewAgent || f is Scroll || f is RestartProcess
        || f is CloseStagePane || f is KillSelected || f is Control || f is RefreshUsage
        || f is BrowseHere || f is Browse || f is MakeFolder || f is CloseWorkspace
        || f is GoWorktree
}

/// What a flow about what runs on a machine does.
pub open spec fn panes_flow(
    f: FlowModel,
    d: DeskModel,
    daemons: Seq<Daemon>,
    hosts: Seq<Option<String>>,
    here: usize,
    ws: Option<&Workspace>,
    stage: Option<PaneId>,
) -> (DeskModel, ActionModel) {
    match f {
        FlowOf::PickAgent => agents_listed(d, here),
        FlowOf::SpawnAgent(name) => agent_wanted(d, here, name, ws),
        FlowOf::NewAgent => match d.view.pinned_agent {
            Some(name) => agent_wanted(d, here, name, ws),
            None => agents_listed(d, here),
        },
        FlowOf::Scroll(pages) => if stage is Some {
            (d, ActionOf::ScrollStage(pages))
        } else {
            (desk_saying(d, "nothing on the stage"@), ActionOf::Draw)
        },
        FlowOf::RestartProcess => restart_wanted(d, here, ws),
        FlowOf::CloseStagePane => stage_closed(d, daemons.len() as int, here, ws, stage),
        FlowOf::KillSelected => selected_killed(d, daemons, hosts),
        FlowOf::Control(command) => (d, ActionOf::Control { daemon: here, command }),
        FlowOf::RefreshUsage => (
            d,
            ActionOf::Ask {
                daemon: here,
                request: get_of("/v1/usage"@),
                then: ThenOf::Usage,
            },
        ),
        FlowOf::BrowseHere => browsing(
            d,
            daemons,
            hosts,
            match ws {
                Some(w) => w.cwd@,
                None => Seq::empty(),
            },
        ),
        FlowOf::Browse(dir) => browsing(d, daemons, hosts, dir),
        FlowOf::MakeFolder { dir, name } => (
            d,
            folder_wanted(browsed_daemon(daemons, d.view), dir, name),
        ),
        FlowOf::CloseWorkspace(id) => (
            d,
            ActionOf::Ask {
                daemon: here,
                request: delete_of(workspace_route(id)),
                then: ThenOf::Closed,
            },
        ),
        FlowOf::GoWorktree { workspace, path } => worktree_wanted(
            d,
            daemons,
            here,
            ws,
            workspace,
            path,
        ),
        _ => (d, ActionOf::Draw),
    }
}

#[verifier::rlimit(40)]
fn run_panes_flow(
    f: Flow,
    desk: &mut Desk,
    daemons: &Vec<Daemon>,
    hosts: &Vec<Option<String>>,
    here: usize,
    ws: Option<&Workspace>,
    stage: Option<PaneId>,
) -> (a: Action)
    requires
        daemons@.len() > 1 ==> daemons@.len() <= hosts@.len(),
    ensures
        (final(desk)@, a@) == panes_flow(f@, old(desk)@, daemons@, hosts@, here, ws, stage),
{
    match f {
        FlowOf::PickAgent => Action::Ask {
            daemon: here,
            request: list_agents(),
            then: Then::Agents,
        },
        FlowOf::SpawnAgent(name) => want_agent(desk, here, name, ws),
        FlowOf::NewAgent => match new_agent(&desk.view) {
            Some(name) => want_agent(desk, here, name, ws),
            None => Action::Ask { daemon: here, request: list_agents(), then: Then::Agents },
        },
        FlowOf::Scroll(pages) => {
            if reach_stage(&mut desk.view, stage.is_some()) {
                Action::ScrollStage(pages)
            } else {
                Action::Draw
            }
        },
        FlowOf::RestartProcess => want_restart(desk, here, ws),
        FlowOf::CloseStagePane => close_stage(desk, daemons.len(), here, ws, stage),
        FlowOf::KillSelected => kill_chosen(desk, daemons, hosts),
        FlowOf::Control(command) => Action::Control { daemon: here, command },
        FlowOf::RefreshUsage => Action::Ask {
            daemon: here,
            request: read_usage(),
            then: Then::Usage,
        },
        FlowOf::BrowseHere => match ws {
            Some(w) => browse(desk, daemons, hosts, w.cwd.as_str()),
            None => {
                let none = String::new();
                browse(desk, daemons, hosts, none.as_str())
            },
        },
        FlowOf::Browse(dir) => browse(desk, daemons, hosts, dir.as_str()),
        FlowOf::MakeFolder { dir, name } => {
            let daemon: usize = browse_daemon(daemons, hosts, &desk.view);
            want_folder(daemon, dir, name.as_str())
        },
        FlowOf::CloseWorkspace(id) => Action::Ask {
            daemon: here,
            request: close_workspace(id),
            then: Then::Closed,
        },
        FlowOf::GoWorktree { workspace, path } => go_worktree(
            desk,
            daemons,
            hosts,
            here,
            ws,
            workspace,
            path.as_str(),
        ),
        _ => Action::Draw,
    }
}

/// What killing some panes one after the other asks, or what is said instead:
/// the first is killed, and the others after it.
#[verifier::opaque]
pub open spec fn kills_left(d: DeskModel, machines: int, routes: Seq<Route>) -> (
    DeskModel,
    ActionModel,
) {
    if routes.len() == 0 {
        (d, ActionOf::Draw)
    } else {
        plainly(
            d,
            routes[0].daemon,
            kill_request(machines, routes[0]),
            ThenOf::Killed(routes.drop_first()),
        )
    }
}

/// Kills the first of some panes, where there is one; the others are to be
/// killed after it.
pub fn kill_in_turn(desk: &mut Desk, machines: usize, routes: Vec<Route>) -> (a: Action)
    ensures
        (final(desk)@, a@) == kills_left(old(desk)@, machines as int, routes@),
{
    reveal(kills_left);
    let mut rest = routes;
    if rest.len() == 0 {
        return Action::Draw;
    }
    let first = rest.remove(0);
    assert(rest@ =~= routes@.drop_first());
    ask_plainly(desk, first.daemon, kill_pane(machines, first), Then::Killed(rest))
}

/// What is left to do once a row was chosen: what it asks, or what is said
/// instead.
#[verifier::opaque]
pub open spec fn choice_taken(
    c: ChoiceModel,
    d: DeskModel,
    daemons: Seq<Daemon>,
    here: usize,
    ws: Option<&Workspace>,
) -> (DeskModel, ActionModel) {
    match c {
        ChoiceOf::Done => (d, ActionOf::Draw),
        ChoiceOf::LoadTree(dir) => asked_or_said(
            d,
            "tree: "@,
            here,
            dir_request(ws, d.view.page, dir),
            ThenOf::Tree(dir),
        ),
        ChoiceOf::Browse { dir, about } => (
            d,
            ActionOf::Ask {
                daemon: browsed_daemon(daemons, d.view),
                request: browse_request(dir),
                then: ThenOf::Browse(about),
            },
        ),
        ChoiceOf::OpenWorkspace(path) => (
            d,
            ActionOf::Ask {
                daemon: browsed_daemon(daemons, d.view),
                request: post_of("/v1/workspaces"@, seq![("path"@, FieldOf::Text(path))]),
                then: ThenOf::Done,
            },
        ),
        ChoiceOf::Menu(step) => (d, ActionOf::Menu(step)),
        ChoiceOf::Send(request) => (
            d,
            ActionOf::Ask { daemon: here, request, then: ThenOf::Repository },
        ),
        ChoiceOf::Deed(MenuDeedOf::Kill(routes)) => kills_left(d, daemons.len() as int, routes),
        ChoiceOf::Deed(MenuDeedOf::Restart { pane, request }) => (
            d,
            ActionOf::Ask { daemon: here, request, then: ThenOf::Restarted(pane) },
        ),
        ChoiceOf::Deed(MenuDeedOf::Close { daemon, request }) => (
            d,
            ActionOf::Ask { daemon, request, then: ThenOf::Done },
        ),
        ChoiceOf::Deed(MenuDeedOf::Disconnect(machine)) => (d, ActionOf::DropMachine(machine)),
        ChoiceOf::Spawn { name, start } => (
            d,
            ActionOf::StartAgent { daemon: here, name, start },
        ),
        ChoiceOf::Disconnect(host) => (d, ActionOf::Disconnect(host)),
        ChoiceOf::Connect(target) => (d, ActionOf::Connect(target)),
        ChoiceOf::OpenLink(url) => (d, ActionOf::OpenLink(url)),
    }
}

#[verifier::rlimit(40)]
fn take_choice(
    c: Choice,
    desk: &mut Desk,
    daemons: &Vec<Daemon>,
    hosts: &Vec<Option<String>>,
    here: usize,
    ws: Option<&Workspace>,
) -> (a: Action)
    ensures
        (final(desk)@, a@) == choice_taken(c@, old(desk)@, daemons@, here, ws),
{
    reveal(choice_taken);
    match c {
        ChoiceOf::Done => Action::Draw,
        ChoiceOf::LoadTree(dir) => {
            let r = fetch_dir(ws, desk.view.page, dir.as_str());
            ask_or_say(desk, "tree: ", here, r, Then::Tree(dir))
        },
        ChoiceOf::Browse { dir, about } => Action::Ask {
            daemon: browse_daemon(daemons, hosts, &desk.view),
            request: open_browser(dir.as_str()),
            then: Then::Browse(about),
        },
        ChoiceOf::OpenWorkspace(path) => Action::Ask {
            daemon: browse_daemon(daemons, hosts, &desk.view),
            request: open_workspace(path.as_str()),
            then: Then::Done,
        },
        ChoiceOf::Menu(step) => Action::Menu(step),
        ChoiceOf::Send(request) => Action::Ask { daemon: here, request, then: Then::Repository },
        ChoiceOf::Deed(MenuDeedOf::Kill(routes)) => kill_in_turn(desk, daemons.len(), routes),
        ChoiceOf::Deed(MenuDeedOf::Restart { pane, request }) => Action::Ask {
            daemon: here,
            request,
            then: Then::Restarted(pane),
        },
        ChoiceOf::Deed(MenuDeedOf::Close { daemon, request }) => Action::Ask {
            daemon,
            request,
            then: Then::Done,
        },
        ChoiceOf::Deed(MenuDeedOf::Disconnect(machine)) => Action::DropMachine(machine),
        ChoiceOf::Spawn { name, start } => Action::StartAgent { daemon: here, name, start },
        ChoiceOf::Disconnect(host) => Action::Disconnect(host),
        ChoiceOf::Connect(target) => Action::Connect(target),
        ChoiceOf::OpenLink(url) => Action::OpenLink(url),
    }
}

/// What the event loop does with what a key or a click asked for: what becomes
/// of the screen and of what the loop holds, and the work that is to be done
/// next.
pub open spec fn flow_taken(
    f: FlowModel,
    d: DeskModel,
    s: SessionModel,
    daemons: Seq<Daemon>,
    hosts: Seq<Option<String>>,
    t: Tables,
) -> (DeskModel, SessionModel, ActionModel) {
    let here = daemon_of(daemons, d.view.tab);
    let ws = match workspace_of(daemons, d.view.tab) {
        Some(w) => Some(&w),
        None => None,
    };
    if about_files(f) {
        let (d, a) = files_flow(f, d, here, ws);
        (d, s, a)
    } else if about_diffs(f) {
        let (d, a) = diffs_flow(f, d, here, ws);
        (d, s, a)
    } else if about_git(f) {
        git_flow(f, d, s, here, ws, t)
    } else if about_view(f) {
        (view_flow(f, d, s, daemons, hosts, ws, t), s, ActionOf::Draw)
    } else if about_panes(f) {
        let (d, a) = panes_flow(f, d, daemons, hosts, here, ws, t.stage);
        (d, s, a)
    } else {
        match f {
            FlowOf::Detach => (d, s, ActionOf::Detach),
            FlowOf::Update => (
                d,
                SessionModel { updates: UpdatesOf { offer: None, ..s.updates }, ..s },
                match s.updates.offer {
                    Some(version) => ActionOf::Update(version),
                    None => ActionOf::Draw,
                },
            ),
            FlowOf::DeclineUpdate(version) => (d, s, ActionOf::SaveDeclined(version)),
            FlowOf::CheckUpdate => {
                let (updates, view, check) = update_wanted(s.updates, d.view, t.current@);
                (
                    DeskModel { view, ..d },
                    SessionModel { updates, ..s },
                    if check {
                        ActionOf::CheckUpdates
                    } else {
                        ActionOf::Draw
                    },
                )
            },
            FlowOf::SettingsEdit(edit) => (
                d,
                s,
                match edit {
                    EditOf::Moved => ActionOf::Draw,
                    EditOf::DefaultAgent(name) => ActionOf::Pin(name),
                    _ => ActionOf::SaveEdit(edit),
                },
            ),
            FlowOf::PinAgent(name) => (d, s, ActionOf::Pin(name)),
            FlowOf::PasteImage => (d, s, ActionOf::PasteImage),
            FlowOf::PickHost => (d, s, ActionOf::PickHosts),
            FlowOf::DialHost(target) => (d, s, ActionOf::Connect(target)),
            FlowOf::PickLinks => (d, s, ActionOf::PickLinks),
            FlowOf::CopyLink(url) => (desk_saying(d, "copied "@ + url), s, ActionOf::Copy(url)),
            FlowOf::CopySelection => (d, s, ActionOf::CopySelection),
            FlowOf::ToggleLayout => (d, s, ActionOf::ToggleLayout),
            FlowOf::Resize(step) => (d, s, ActionOf::Resize(step)),
            FlowOf::RunProcess { name, command, then } => run_wanted(
                d,
                s,
                here,
                daemons.len() as int,
                name,
                command,
                then,
                ws,
            ),
            FlowOf::Choose => {
                let (view, choice) = chose(
                    d.view,
                    t.pick_title@,
                    t.groups@,
                    t.items@,
                    daemons,
                    here,
                    ws,
                );
                let (d, a) = choice_taken(choice, DeskModel { view, ..d }, daemons, here, ws);
                (d, s, a)
            },
            FlowOf::RunCommand(line) => (d, s, ActionOf::RunCommand(line)),
            _ => (d, s, ActionOf::Draw),
        }
    }
}

#[verifier::rlimit(40)]
fn run_rest(
    f: Flow,
    desk: &mut Desk,
    s: &mut Session,
    daemons: &Vec<Daemon>,
    hosts: &Vec<Option<String>>,
    here: usize,
    ws: Option<&Workspace>,
    t: &Tables,
) -> (a: Action)
    requires
        here == daemon_of(daemons@, old(desk)@.view.tab),
        ws == (match workspace_of(daemons@, old(desk)@.view.tab) {
            Some(w) => Some(&w),
            None => None,
        }),
        !about_files(f@),
        !about_diffs(f@),
        !about_git(f@),
        !about_view(f@),
        !about_panes(f@),
    ensures
        (final(desk)@, final(s)@, a@) == flow_taken(
            f@,
            old(desk)@,
            old(s)@,
            daemons@,
            hosts@,
            *t,
        ),
{
    match f {
        FlowOf::Detach => Action::Detach,
        FlowOf::Update => match take_update(&mut s.updates) {
            Some(version) => Action::Update(version),
            None => Action::Draw,
        },
        FlowOf::DeclineUpdate(version) => Action::SaveDeclined(version),
        FlowOf::CheckUpdate => {
            if check_update(&mut s.updates, &mut desk.view, t.current.as_str()) {
                Action::CheckUpdates
            } else {
                Action::Draw
            }
        },
        FlowOf::SettingsEdit(edit) => match edit {
            EditOf::Moved => Action::Draw,
            EditOf::DefaultAgent(name) => Action::Pin(name),
            other => Action::SaveEdit(other),
        },
        FlowOf::PinAgent(name) => Action::Pin(name),
        FlowOf::PasteImage => Action::PasteImage,
        FlowOf::PickHost => Action::PickHosts,
        FlowOf::DialHost(target) => Action::Connect(target),
        FlowOf::PickLinks => Action::PickLinks,
        FlowOf::CopyLink(url) => {
            link_copied(&mut desk.view, url.as_str());
            Action::Copy(url)
        },
        FlowOf::CopySelection => Action::CopySelection,
        FlowOf::ToggleLayout => Action::ToggleLayout,
        FlowOf::Resize(step) => Action::Resize(step),
        FlowOf::RunProcess { name, command, then } => want_run(
            desk,
            s,
            here,
            daemons.len(),
            name,
            command.as_str(),
            then,
            ws,
        ),
        FlowOf::Choose => {
            let choice = choose_from_list(
                &mut desk.view,
                t.pick_title.as_str(),
                &t.groups,
                &t.items,
                daemons,
                hosts,
                here,
                ws,
            );
            take_choice(choice, desk, daemons, hosts, here, ws)
        },
        FlowOf::RunCommand(line) => Action::RunCommand(line),
        _ => Action::Draw,
    }
}

/// What a flow is about.
#[derive(Clone, Copy, Debug, PartialEq, Eq, Structural)]
pub enum About {
    Files,
    Diffs,
    Git,
    View,
    Panes,
    Rest,
}

fn about(f: &Flow) -> (r: About)
    ensures
        r == (if about_files(f@) {
            About::Files
        } else if about_diffs(f@) {
            About::Diffs
        } else if about_git(f@) {
            About::Git
        } else if about_view(f@) {
            About::View
        } else if about_panes(f@) {
            About::Panes
        } else {
            About::Rest
        }),
{
    match f {
        FlowOf::ListDir(_)
        | FlowOf::OpenFile(_)
        | FlowOf::OpenFileAt { .. }
        | FlowOf::SaveFile
        | FlowOf::DeleteFile(_)
        | FlowOf::Search(_) => About::Files,
        FlowOf::GitOpenCommit
        | FlowOf::GitShowRev { .. }
        | FlowOf::GitOpenDiff { .. }
        | FlowOf::OpenDiff { .. }
        | FlowOf::OpenSelectedDiff
        | FlowOf::PickBranch => About::Diffs,
        FlowOf::GitRefresh
        | FlowOf::ConfirmPick { .. }
        | FlowOf::GitFetch(_)
        | FlowOf::GitCopySha
        | FlowOf::GitScope(_)
        | FlowOf::ApplyDiff { .. }
        | FlowOf::Pick { .. }
        | FlowOf::MenuAction(_)
        | FlowOf::Git(_)
        | FlowOf::GitMenu => About::Git,
        FlowOf::OpenHelp
        | FlowOf::CloseHelp
        | FlowOf::OpenSettings
        | FlowOf::CloseSettings
        | FlowOf::PickSpace
        | FlowOf::AskCloseWorkspace
        | FlowOf::GoTab(_)
        | FlowOf::StageSelected
        | FlowOf::OpenFleetAgent(_) => About::View,
        FlowOf::PickAgent
        | FlowOf::SpawnAgent(_)
        | FlowOf::NewAgent
        | FlowOf::Scroll(_)
        | FlowOf::RestartProcess
        | FlowOf::CloseStagePane
        | FlowOf::KillSelected
        | FlowOf::Control(_)
        | FlowOf::RefreshUsage
        | FlowOf::BrowseHere
        | FlowOf::Browse(_)
        | FlowOf::MakeFolder { .. }
        | FlowOf::CloseWorkspace(_)
        | FlowOf::GoWorktree { .. } => About::Panes,
        _ => About::Rest,
    }
}

/// Takes in what a key or a click asked for, and says what work is to be done
/// next.
pub fn run_flow(
    f: Flow,
    desk: &mut Desk,
    s: &mut Session,
    daemons: &Vec<Daemon>,
    hosts: &Vec<Option<String>>,
    t: &Tables,
) -> (a: Action)
    requires
        daemons@.len() > 1 ==> daemons@.len() <= hosts@.len(),
        f@ is GoTab ==> old(desk)@.view.tab + all_tabs(daemons@).len() < usize::MAX,
        f@ is GitCopySha ==> can_shorten(old(desk)@.git),
    ensures
        (final(desk)@, final(s)@, a@) == flow_taken(
            f@,
            old(desk)@,
            old(s)@,
            daemons@,
            hosts@,
            *t,
        ),
{
    let here: usize = active_daemon(daemons, hosts, &desk.view);
    let ws = active_workspace(daemons, hosts, &desk.view);
    match about(&f) {
        About::Files => run_files_flow(f, desk, here, ws),
        About::Diffs => run_diffs_flow(f, desk, here, ws),
        About::Git => run_git_flow(f, desk, s, here, ws, t),
        About::View => {
            run_view_flow(f, desk, s, daemons, hosts, ws, t);
            Action::Draw
        },
        About::Panes => run_panes_flow(f, desk, daemons, hosts, here, ws, t.stage),
        About::Rest => run_rest(f, desk, s, daemons, hosts, here, ws, t),
    }
}

/// A file that holds something unsaved is not replaced by the first attempt to
/// open another: nothing is asked, the file stays open, and the next attempt
/// goes through.
pub proof fn an_unsaved_file_is_not_replaced_at_once(
    path: Seq<char>,
    other: Seq<char>,
    d: DeskModel,
    here: usize,
    ws: Option<&Workspace>,
)
    requires
        d.view.page is Files,
        ws is Some,
        d.files.open matches Some(e) && e.unsaved && !e.armed,
    ensures
        ({
            let (after, action) = files_flow(FlowOf::OpenFile(path), d, here, ws);
            &&& action is Draw
            &&& after.files.open is Some
            &&& after.files.open->0.path == d.files.open->0.path
            &&& after.files.open->0.unsaved
            &&& files_flow(FlowOf::OpenFile(other), after, here, ws).1 is Ask
        }),
{
}

/// At most one log is followed: before another is, the one that is gets killed
/// and its pane leaves the stage.
pub proof fn one_log_is_followed_at_a_time(
    d: DeskModel,
    s: SessionModel,
    daemon: usize,
    machines: int,
    name: Seq<char>,
    command: Seq<char>,
    label: Seq<char>,
    w: &Workspace,
)
    requires
        d.docker.logs is Some,
        daemon < machines,
    ensures
        ({
            let (after, _, action) = run_wanted(
                d,
                s,
                daemon,
                machines,
                name,
                command,
                SpawnedOf::Follow(label),
                Some(w),
            );
            &&& after.docker.logs is None
            &&& action matches ActionOf::Run { kill, drop_stage, .. } && drop_stage && kill == Some(
                delete_of(crate::request::pane_route(w.id, d.docker.logs->0)),
            )
        }),
{
}

proof fn the_files_ask_on_no(f: FlowModel, d: DeskModel, here: usize, ws: Option<&Workspace>)
    requires
        on_no(d.view),
    ensures
        on_no(files_flow(f, d, here, ws).0.view),
        on_no(diffs_flow(f, d, here, ws).0.view),
{
}

proof fn a_menu_row_asks_on_no(
    d: DeskModel,
    s: SessionModel,
    ws: Option<&Workspace>,
    action: MenuAction,
    items: Seq<MenuItem>,
)
    requires
        on_no(d.view),
    ensures
        on_no(menu_wanted(d, s, ws, action, items).0.view),
{
    reveal(menu_wanted);
}

proof fn the_repository_asks_on_no(
    f: FlowModel,
    d: DeskModel,
    s: SessionModel,
    here: usize,
    ws: Option<&Workspace>,
    t: Tables,
)
    requires
        on_no(d.view),
    ensures
        on_no(git_flow(f, d, s, here, ws, t).0.view),
{
    if let FlowOf::MenuAction(action) = f {
        a_menu_row_asks_on_no(d, s, ws, action, t.items@);
    } else {
        reveal(fetch_wanted);
        reveal(pick_wanted);
        reveal(git_wanted);
        reveal(sha_copied);
    }
}

proof fn the_view_asks_on_no(
    f: FlowModel,
    d: DeskModel,
    s: SessionModel,
    daemons: Seq<Daemon>,
    hosts: Seq<Option<String>>,
    ws: Option<&Workspace>,
    t: Tables,
)
    requires
        on_no(d.view),
    ensures
        on_no(view_flow(f, d, s, daemons, hosts, ws, t).view),
{
    reveal(tab_changed);
    reveal(selected_shown);
    reveal(agent_opened);
}

proof fn the_panes_ask_on_no(
    f: FlowModel,
    d: DeskModel,
    daemons: Seq<Daemon>,
    hosts: Seq<Option<String>>,
    here: usize,
    ws: Option<&Workspace>,
    stage: Option<PaneId>,
)
    requires
        on_no(d.view),
    ensures
        on_no(panes_flow(f, d, daemons, hosts, here, ws, stage).0.view),
{
    reveal(agent_wanted);
    reveal(restart_wanted);
    reveal(stage_closed);
    reveal(selected_killed);
    reveal(killing);
    reveal(browsing);
    reveal(worktree_wanted);
}

proof fn a_choice_taken_asks_on_no(
    c: ChoiceModel,
    d: DeskModel,
    daemons: Seq<Daemon>,
    here: usize,
    ws: Option<&Workspace>,
)
    requires
        on_no(d.view),
    ensures
        on_no(choice_taken(c, d, daemons, here, ws).0.view),
{
    reveal(choice_taken);
    reveal(kills_left);
}

/// Nothing that a key or a click asked for puts up a question but with no
/// picked.
#[verifier::spinoff_prover]
#[verifier::rlimit(60)]
pub proof fn a_flow_asks_on_no(
    f: FlowModel,
    d: DeskModel,
    s: SessionModel,
    daemons: Seq<Daemon>,
    hosts: Seq<Option<String>>,
    t: Tables,
)
    requires
        on_no(d.view),
    ensures
        on_no(flow_taken(f, d, s, daemons, hosts, t).0.view),
{
    let here = daemon_of(daemons, d.view.tab);
    let ws = match workspace_of(daemons, d.view.tab) {
        Some(w) => Some(&w),
        None => None,
    };
    if about_files(f) || about_diffs(f) {
        the_files_ask_on_no(f, d, here, ws);
    } else if about_git(f) {
        the_repository_asks_on_no(f, d, s, here, ws, t);
    } else if about_view(f) {
        the_view_asks_on_no(f, d, s, daemons, hosts, ws, t);
    } else if about_panes(f) {
        the_panes_ask_on_no(f, d, daemons, hosts, here, ws, t.stage);
    } else if f is Choose {
        a_choice_asks_on_no(d.view, t.pick_title@, t.groups@, t.items@, daemons, here, ws);
        let (view, choice) = chose(
            d.view,
            t.pick_title@,
            t.groups@,
            t.items@,
            daemons,
            here,
            ws,
        );
        a_choice_taken_asks_on_no(choice, DeskModel { view, ..d }, daemons, here, ws);
    }
}

/// A checkout that a workspace is open on is gone to, and not opened a second
/// time: the tab that is then up is the one of that workspace on that machine,
/// and nothing is asked of the machine.
pub proof fn an_open_worktree_is_gone_to(
    d: DeskModel,
    daemons: Seq<Daemon>,
    here: usize,
    ws: Option<&Workspace>,
    workspace: SessionId,
    path: Seq<char>,
    at: int,
)
    requires
        all_tabs(daemons).len() <= usize::MAX,
        0 <= at < all_tabs(daemons).len(),
        is_tab_of(daemons, all_tabs(daemons)[at], here, workspace),
    ensures
        ({
            let (after, a) = worktree_wanted(d, daemons, here, ws, workspace, path);
            &&& a is Draw
            &&& after.view.tab < all_tabs(daemons).len()
            &&& is_tab_of(daemons, all_tabs(daemons)[after.view.tab as int], here, workspace)
        }),
{
    reveal(worktree_wanted);
    a_tab_that_is_there_is_found(daemons, all_tabs(daemons), here, workspace, at);
}

/// What is asked about files goes to the machine of the open tab: a directory
/// is listed, a file read, a search made, a file deleted, each by what it
/// names, and the answer is for just that.
#[verifier::spinoff_prover]
#[verifier::rlimit(60)]
pub proof fn a_flow_about_files_asks_for_its_file(
    d: DeskModel,
    s: SessionModel,
    daemons: Seq<Daemon>,
    hosts: Seq<Option<String>>,
    t: Tables,
    w: Workspace,
    path: Seq<char>,
    line: Option<u32>,
)
    requires
        workspace_of(daemons, d.view.tab) == Some(w),
    ensures
        ({
            let daemon = daemon_of(daemons, d.view.tab);
            let taken = |f: FlowModel| flow_taken(f, d, s, daemons, hosts, t);
            let reads = RequestModel {
                method: crate::request::Method::Get,
                route: file_route(w.id, path),
                body: crate::request::BodyOf::Nothing,
            };
            &&& taken(FlowOf::ListDir(path)) == (
                d,
                s,
                ActionModel::Ask {
                    daemon,
                    request: dir_request(Some(&w), d.view.page, path)->Ok_0,
                    then: ThenOf::Tree(path),
                },
            )
            &&& taken(FlowOf::Search(path)) == (
                d,
                s,
                ActionModel::Ask {
                    daemon,
                    request: search_request(Some(&w), path)->Ok_0,
                    then: ThenOf::Search(path),
                },
            )
            &&& taken(FlowOf::DeleteFile(path)) == (
                d,
                s,
                ActionModel::Ask {
                    daemon,
                    request: RequestModel {
                        method: crate::request::Method::Delete,
                        route: file_route(w.id, path),
                        body: crate::request::BodyOf::Nothing,
                    },
                    then: ThenOf::Deleted(path),
                },
            )
            &&& d.view.page is Files && d.files.open is None ==> taken(FlowOf::OpenFile(path)) == (
                d,
                s,
                ActionModel::Ask {
                    daemon,
                    request: reads,
                    then: ThenOf::File { path, line: None },
                },
            )
            &&& d.view.page is Docs && d.docs.open is None ==> taken(FlowOf::OpenFile(path)) == (
                d,
                s,
                ActionModel::Ask {
                    daemon,
                    request: reads,
                    then: ThenOf::File { path, line: None },
                },
            )
            &&& d.files.open is None ==> taken(FlowOf::OpenFileAt { path, line }) == (
                DeskModel { view: BenchOf { page: Page::Files, ..d.view }, ..d },
                s,
                ActionModel::Ask { daemon, request: reads, then: ThenOf::File { path, line } },
            )
        }),
{
}

/// Saving saves the file that is open in the tree that is showing, and nothing
/// where none is.
#[verifier::spinoff_prover]
#[verifier::rlimit(60)]
pub proof fn the_file_that_is_open_is_saved(
    d: DeskModel,
    s: SessionModel,
    daemons: Seq<Daemon>,
    hosts: Seq<Option<String>>,
    t: Tables,
)
    ensures
        ({
            let r = flow_taken(FlowOf::SaveFile, d, s, daemons, hosts, t);
            &&& r.0 == d && r.1 == s
            &&& d.view.page is Docs ==> r.2 == (match d.docs.open {
                Some(e) => ActionModel::SaveFile(e.path),
                None => ActionModel::Draw,
            })
            &&& d.view.page !is Docs ==> r.2 == (match d.files.open {
                Some(e) => ActionModel::SaveFile(e.path),
                None => ActionModel::Draw,
            })
        }),
{
}

/// Without a workspace what was wanted of it is not asked, and what is said
/// begins with what it was about.
#[verifier::spinoff_prover]
#[verifier::rlimit(60)]
pub proof fn without_a_workspace_a_flow_says_so(
    d: DeskModel,
    s: SessionModel,
    daemons: Seq<Daemon>,
    hosts: Seq<Option<String>>,
    t: Tables,
    path: Seq<char>,
    kind: DiffKindOf<Seq<char>>,
)
    requires
        workspace_of(daemons, d.view.tab) is None,
    ensures
        ({
            let says = |f: FlowModel, text: Seq<char>|
                flow_taken(f, d, s, daemons, hosts, t) == (
                    DeskModel { view: BenchOf { flash: Some(text), ..d.view }, ..d },
                    s,
                    ActionModel::Draw,
                );
            &&& says(FlowOf::ListDir(path), "tree: "@ + "no workspace open"@)
            &&& says(FlowOf::DeleteFile(path), "delete: "@ + "no workspace open"@)
            &&& says(
                FlowOf::OpenDiff { kind, keep_cursor: false },
                "diff: "@ + "no workspace open"@,
            )
            &&& says(FlowOf::PickBranch, "branches: "@ + "no workspace open"@)
            &&& says(FlowOf::RestartProcess, "no workspace open"@)
            &&& says(FlowOf::SpawnAgent(path), "no workspace to act in"@)
        }),
{
    reveal(restart_wanted);
    reveal(agent_wanted);
}

/// A diff is read of what it is of, for the page of its own or for the place
/// beside the history, and a commit or a stash by its name. The branches are
/// listed to check one out.
#[verifier::spinoff_prover]
#[verifier::rlimit(60)]
pub proof fn a_flow_about_diffs_reads_its_diff(
    d: DeskModel,
    s: SessionModel,
    daemons: Seq<Daemon>,
    hosts: Seq<Option<String>>,
    t: Tables,
    w: Workspace,
    kind: DiffKindOf<Seq<char>>,
    keep_cursor: bool,
    rev: Seq<char>,
    title: Seq<char>,
)
    requires
        workspace_of(daemons, d.view.tab) == Some(w),
    ensures
        ({
            let daemon = daemon_of(daemons, d.view.tab);
            let reads = |f: FlowModel, kind: DiffKindOf<Seq<char>>, then: ThenModel|
                flow_taken(f, d, s, daemons, hosts, t) == (
                    d,
                    s,
                    ActionModel::Ask {
                        daemon,
                        request: diff_request(Some(&w), kind)->Ok_0,
                        then,
                    },
                );
            let commit = DiffKindOf::Commit { id: rev, summary: title };
            &&& reads(FlowOf::OpenDiff { kind, keep_cursor }, kind, ThenOf::Diff { kind, keep_cursor })
            &&& reads(
                FlowOf::GitOpenDiff { kind, keep_cursor },
                kind,
                ThenOf::Change { kind, keep_cursor },
            )
            &&& reads(FlowOf::GitShowRev { rev, title }, commit, ThenOf::Shown(commit))
            &&& d.git.hist_sel < d.git.log.len() && d.git.log[d.git.hist_sel as int].id == rev
                && d.git.log[d.git.hist_sel as int].summary == title ==> reads(
                FlowOf::GitOpenCommit,
                commit,
                ThenOf::Shown(commit),
            )
            &&& diff_at(Some(&w), d.view.changes_sel) == Some(kind) ==> reads(
                FlowOf::OpenSelectedDiff,
                kind,
                ThenOf::Diff { kind, keep_cursor: false },
            )
            &&& flow_taken(FlowOf::PickBranch, d, s, daemons, hosts, t) == (
                d,
                s,
                ActionModel::Ask {
                    daemon,
                    request: listed(Some(&w), "branches"@)->Ok_0,
                    then: ThenOf::Branches { about: "branches: "@, again: false },
                },
            )
        }),
{
}

/// What is done to the repository is asked of the machine of the open tab as
/// it was meant, and the page of the repository is read again after it. A pick
/// that is to be confirmed only opens its question.
#[verifier::spinoff_prover]
#[verifier::rlimit(60)]
pub proof fn a_flow_about_the_repository_is_sent_as_it_is(
    d: DeskModel,
    s: SessionModel,
    daemons: Seq<Daemon>,
    hosts: Seq<Option<String>>,
    t: Tables,
    w: Workspace,
    action: GitActionModel,
    target: PickTarget,
    value: Seq<char>,
    discard: bool,
)
    requires
        workspace_of(daemons, d.view.tab) == Some(w),
    ensures
        ({
            let daemon = daemon_of(daemons, d.view.tab);
            let taken = |f: FlowModel| flow_taken(f, d, s, daemons, hosts, t);
            &&& taken(FlowOf::Git(action)) == (
                d,
                s,
                ActionModel::Ask {
                    daemon,
                    request: git_request(Some(&w), action)->Ok_0,
                    then: ThenOf::Repository,
                },
            )
            &&& taken(FlowOf::Pick { target, value }) == (
                d,
                s,
                ActionModel::Ask {
                    daemon,
                    request: pick_request(Some(&w), target, value)->Ok_0,
                    then: ThenOf::Repository,
                },
            )
            &&& taken(FlowOf::GitFetch(value)) == (
                d,
                s,
                ActionModel::Ask {
                    daemon,
                    request: RequestModel {
                        method: crate::request::Method::Post,
                        route: "/v1/workspaces/"@ + crate::text::decimal(w.id.0 as nat) + "/"@
                            + "git/fetch"@,
                        body: crate::request::BodyOf::Object(
                            seq![
                                ("remote"@, FieldOf::Text(value)),
                                ("prune"@, FieldOf::Flag(true)),
                            ],
                        ),
                    },
                    then: ThenOf::Fetched,
                },
            )
            &&& taken(FlowOf::ConfirmPick { target, value }) == (
                DeskModel {
                    view: BenchOf {
                        overlay: Some(
                            crate::types::OverlayModel::Confirm(
                                crate::types::ConfirmOverlayOf {
                                    title: t.pick_title@,
                                    header: value,
                                    yes: false,
                                    kind: ConfirmKindOf::Pick { target, value, label: value },
                                },
                            ),
                        ),
                        ..d.view
                    },
                    ..d
                },
                s,
                ActionModel::Draw,
            )
            &&& taken(FlowOf::ApplyDiff { discard }) == (d, s, ActionModel::ApplyDiff { discard })
        }),
{
    reveal(git_wanted);
    reveal(pick_wanted);
    reveal(fetch_wanted);
}

/// Reading for the git page again gives the reading the next number, and that
/// number is what is read for. What the history is of is changed before it is
/// read, with the cursor back on its first commit.
#[verifier::spinoff_prover]
#[verifier::rlimit(60)]
pub proof fn the_git_page_is_read_by_a_new_number(
    d: DeskModel,
    s: SessionModel,
    daemons: Seq<Daemon>,
    hosts: Seq<Option<String>>,
    t: Tables,
    w: Workspace,
    scope: crate::types::GitScopeOf<Seq<char>>,
)
    requires
        workspace_of(daemons, d.view.tab) == Some(w),
    ensures
        ({
            let again = flow_taken(FlowOf::GitRefresh, d, s, daemons, hosts, t);
            let scoped = flow_taken(FlowOf::GitScope(scope), d, s, daemons, hosts, t);
            &&& again.1.generation == next_generation(s.generation)
            &&& again.2 == ActionModel::ReadGit(next_generation(s.generation))
            &&& scoped.0.git.scope == scope
            &&& scoped.0.git.hist_sel == 0
            &&& scoped.2 == ActionModel::ReadGit(next_generation(s.generation))
        }),
{
}

/// A copied commit id is the whole id of the commit under the cursor.
#[verifier::spinoff_prover]
#[verifier::rlimit(60)]
pub proof fn the_whole_id_is_copied(
    d: DeskModel,
    s: SessionModel,
    daemons: Seq<Daemon>,
    hosts: Seq<Option<String>>,
    t: Tables,
)
    ensures
        ({
            let r = flow_taken(FlowOf::GitCopySha, d, s, daemons, hosts, t);
            &&& d.git.hist_sel < d.git.log.len() ==> {
                let id = d.git.log[d.git.hist_sel as int].id;
                r.2 == ActionModel::Copy(id) && r.0.view.flash == Some("copied "@ + short_id(id))
            }
            &&& d.git.hist_sel >= d.git.log.len() ==> r.2 is Draw && r.0.view.flash == Some(
                "no commit selected"@,
            )
        }),
{
    reveal(sha_copied);
}

/// The flows about the view alone ask for nothing: the help and the settings
/// remember the page they are opened from and go back to it, the git menu and
/// the spaces are offered, and closing a workspace is asked about.
#[verifier::spinoff_prover]
#[verifier::rlimit(60)]
pub proof fn a_flow_about_the_view_only_draws(
    d: DeskModel,
    s: SessionModel,
    daemons: Seq<Daemon>,
    hosts: Seq<Option<String>>,
    t: Tables,
    w: Workspace,
)
    requires
        workspace_of(daemons, d.view.tab) == Some(w),
    ensures
        ({
            let taken = |f: FlowModel| flow_taken(f, d, s, daemons, hosts, t);
            let view = |f: FlowModel| taken(f).0.view;
            &&& taken(FlowOf::OpenSettings).2 is Draw && view(FlowOf::OpenSettings) == (BenchOf {
                page: Page::Settings,
                ..d.view
            }) && taken(FlowOf::OpenSettings).0.settings.ret == d.view.page
            &&& taken(FlowOf::CloseSettings).2 is Draw && view(FlowOf::CloseSettings) == (BenchOf {
                page: d.settings.ret,
                ..d.view
            })
            &&& taken(FlowOf::AskCloseWorkspace).2 is Draw && view(FlowOf::AskCloseWorkspace) == (
            BenchOf { overlay: Some(close_question(w.id, w.name@)), ..d.view })
            &&& taken(FlowOf::GitMenu).2 is Draw && view(FlowOf::GitMenu) == (BenchOf {
                overlay: Some(git_menu(None, t.groups@)),
                ..d.view
            })
            &&& taken(FlowOf::PickSpace).2 is Draw && (view(FlowOf::PickSpace).overlay matches Some(
                crate::types::OverlayOf::List(l),
            ) && l.title == "VIEWS"@ && l.kind is Space && l.items == texts(t.spaces@) && l.sel
                == crate::bench::space_index(d.view.spaces, d.view.page) as usize)
        }),
{
}

/// Going to a tab goes to the one that is named, or the next or the one before
/// it around the bar; showing what is under the cursor shows its own pane; and
/// an agent of the fleet is gone to by its row.
#[verifier::spinoff_prover]
#[verifier::rlimit(60)]
pub proof fn a_flow_goes_where_it_says(
    d: DeskModel,
    s: SessionModel,
    daemons: Seq<Daemon>,
    hosts: Seq<Option<String>>,
    t: Tables,
    m: TabMove,
    sel: usize,
    pane: PaneId,
)
    ensures
        ({
            let go = flow_taken(FlowOf::GoTab(m), d, s, daemons, hosts, t);
            let show = flow_taken(FlowOf::StageSelected, d, s, daemons, hosts, t);
            let open = flow_taken(FlowOf::OpenFleetAgent(sel), d, s, daemons, hosts, t);
            let count = all_tabs(daemons).len() as int;
            &&& go.2 is Draw && show.2 is Draw && open.2 is Draw
            &&& m is To && 1 <= m->To_0 <= count ==> go.0.view.tab == m->To_0 - 1
                && go.0.view.staged is None
            &&& m is Next && d.view.tab + 1 < count <= usize::MAX ==> go.0.view.tab == d.view.tab
                + 1
            &&& m is Prev && 0 < d.view.tab < count <= usize::MAX ==> go.0.view.tab == d.view.tab
                - 1
            &&& count == 0 ==> go.0.view == d.view
            &&& pane_of(daemons, hosts, d.view) == Some(pane) ==> show.0 == (DeskModel {
                view: BenchOf {
                    staged: Some(pane),
                    focus: crate::types::Focus::Stage,
                    page: Page::Agents,
                    ..d.view
                },
                ..d
            })
            &&& pane_of(daemons, hosts, d.view) is None ==> show.0 == d
            &&& sel < fleet(daemons, hosts).len() ==> open.0.view.staged == Some(
                fleet(daemons, hosts)[sel as int].pane,
            )
            &&& sel >= fleet(daemons, hosts).len() ==> open.0.view.flash == Some(
                "that agent has gone"@,
            )
        }),
{
    reveal(tab_changed);
    reveal(selected_shown);
    reveal(agent_opened);
    let count = all_tabs(daemons).len() as int;
    if 0 <= d.view.tab < count {
        crate::bench::a_tab_move_leads_to_the_tab_it_names(1, d.view.tab as int, count);
    }
}

/// An agent that is wanted is started under its name; a new one is the pinned
/// one where there is one, and otherwise the agents are listed to pick from.
#[verifier::spinoff_prover]
#[verifier::rlimit(60)]
pub proof fn a_new_agent_is_the_pinned_one(
    d: DeskModel,
    s: SessionModel,
    daemons: Seq<Daemon>,
    hosts: Seq<Option<String>>,
    t: Tables,
    w: Workspace,
    name: Seq<char>,
)
    requires
        workspace_of(daemons, d.view.tab) == Some(w),
    ensures
        ({
            let daemon = daemon_of(daemons, d.view.tab);
            let taken = |f: FlowModel| flow_taken(f, d, s, daemons, hosts, t);
            let starts = ActionModel::StartAgent {
                daemon,
                name,
                start: agent_start(Some(&w), name)->Ok_0,
            };
            let lists = ActionModel::Ask {
                daemon,
                request: RequestModel {
                    method: crate::request::Method::Get,
                    route: "/v1/agents"@,
                    body: crate::request::BodyOf::Nothing,
                },
                then: ThenOf::Agents,
            };
            &&& taken(FlowOf::SpawnAgent(name)) == (d, s, starts)
            &&& d.view.pinned_agent == Some(name) ==> taken(FlowOf::NewAgent) == (d, s, starts)
            &&& d.view.pinned_agent is None ==> taken(FlowOf::NewAgent) == (d, s, lists)
            &&& taken(FlowOf::PickAgent) == (d, s, lists)
        }),
{
    reveal(agent_wanted);
}

/// Killing kills the pane under the cursor where it is, or the one on the
/// stage in the open workspace; restarting restarts the process under the
/// cursor. Where there is none, that is said.
#[verifier::spinoff_prover]
#[verifier::rlimit(60)]
pub proof fn the_pane_under_the_cursor_is_killed_or_restarted(
    d: DeskModel,
    s: SessionModel,
    daemons: Seq<Daemon>,
    hosts: Seq<Option<String>>,
    t: Tables,
    w: Workspace,
    to: Route,
    pane: PaneId,
)
    requires
        workspace_of(daemons, d.view.tab) == Some(w),
    ensures
        ({
            let here = daemon_of(daemons, d.view.tab);
            let machines = daemons.len() as int;
            let kill = flow_taken(FlowOf::KillSelected, d, s, daemons, hosts, t);
            let close = flow_taken(FlowOf::CloseStagePane, d, s, daemons, hosts, t);
            let restart = flow_taken(FlowOf::RestartProcess, d, s, daemons, hosts, t);
            &&& route_of(daemons, hosts, d.view) == Some(to) && to.daemon < machines ==> kill == (
                d,
                s,
                ActionModel::Ask {
                    daemon: to.daemon,
                    request: kill_request(machines, to)->Ok_0,
                    then: ThenOf::Done,
                },
            )
            &&& route_of(daemons, hosts, d.view) is None ==> kill.2 is Draw && kill.0.view.flash
                == Some("nothing selected"@)
            &&& t.stage == Some(pane) && here < machines ==> close == (
                d,
                s,
                ActionModel::Ask {
                    daemon: here,
                    request: kill_request(
                        machines,
                        Route { daemon: here, workspace: w.id, pane },
                    )->Ok_0,
                    then: ThenOf::Done,
                },
            )
            &&& t.stage is None ==> close.2 is Draw && close.0.view.flash == Some(
                "nothing on the stage"@,
            )
            &&& d.view.proc_sel < w.processes@.len() ==> restart == (
                d,
                s,
                ActionModel::Ask {
                    daemon: here,
                    request: restart_request(Some(&w), d.view.proc_sel)->Ok_0.0,
                    then: ThenOf::Restarted(w.processes@[d.view.proc_sel as int]),
                },
            )
            &&& d.view.proc_sel >= w.processes@.len() ==> restart.2 is Draw
                && restart.0.view.flash == Some("no process selected"@)
        }),
{
    reveal(selected_killed);
    reveal(killing);
    reveal(stage_closed);
    reveal(restart_wanted);
}

/// The other flows about what runs on a machine: a scroll of the stage, a
/// command to the machine, the usage, a workspace that is closed.
#[verifier::spinoff_prover]
#[verifier::rlimit(60)]
pub proof fn a_flow_about_panes_asks_the_machine_of_the_tab(
    d: DeskModel,
    s: SessionModel,
    daemons: Seq<Daemon>,
    hosts: Seq<Option<String>>,
    t: Tables,
    pages: i16,
    command: Command,
    id: SessionId,
    dir: Seq<char>,
    name: Seq<char>,
)
    ensures
        ({
            let daemon = daemon_of(daemons, d.view.tab);
            let taken = |f: FlowModel| flow_taken(f, d, s, daemons, hosts, t);
            &&& t.stage is Some ==> taken(FlowOf::Scroll(pages)) == (
                d,
                s,
                ActionModel::ScrollStage(pages),
            )
            &&& t.stage is None ==> taken(FlowOf::Scroll(pages)).2 is Draw && taken(
                FlowOf::Scroll(pages),
            ).0.view.flash == Some("nothing on the stage"@)
            &&& taken(FlowOf::Control(command)) == (
                d,
                s,
                ActionModel::Control { daemon, command },
            )
            &&& taken(FlowOf::RefreshUsage) == (
                d,
                s,
                ActionModel::Ask {
                    daemon,
                    request: RequestModel {
                        method: crate::request::Method::Get,
                        route: "/v1/usage"@,
                        body: crate::request::BodyOf::Nothing,
                    },
                    then: ThenOf::Usage,
                },
            )
            &&& taken(FlowOf::CloseWorkspace(id)) == (
                d,
                s,
                ActionModel::Ask {
                    daemon,
                    request: RequestModel {
                        method: crate::request::Method::Delete,
                        route: "/v1/workspaces/"@ + crate::text::decimal(id.0 as nat),
                        body: crate::request::BodyOf::Nothing,
                    },
                    then: ThenOf::Closed,
                },
            )
            &&& taken(FlowOf::MakeFolder { dir, name }) == (
                d,
                s,
                ActionModel::Ask {
                    daemon: browsed_daemon(daemons, d.view),
                    request: RequestModel {
                        method: crate::request::Method::Post,
                        route: "/v1/fs/mkdir"@,
                        body: crate::request::BodyOf::Object(
                            seq![("path"@, FieldOf::Text(dir)), ("name"@, FieldOf::Text(name))],
                        ),
                    },
                    then: ThenOf::MakeFolder(dir),
                },
            )
        }),
{
    reveal(folder_wanted);
}

/// Folders are browsed on the machine that was picked for it, from the one
/// that was named: from where the open workspace is, where none was. Which
/// machine is meant is asked first, where that is not settled.
#[verifier::spinoff_prover]
#[verifier::rlimit(60)]
pub proof fn folders_are_browsed_from_where_it_was_asked(
    d: DeskModel,
    s: SessionModel,
    daemons: Seq<Daemon>,
    hosts: Seq<Option<String>>,
    t: Tables,
    w: Workspace,
    dir: Seq<char>,
)
    requires
        workspace_of(daemons, d.view.tab) == Some(w),
    ensures
        ({
            let reads = |f: FlowModel, dir: Seq<char>|
                flow_taken(f, d, s, daemons, hosts, t) == (
                    d,
                    s,
                    ActionModel::Ask {
                        daemon: browsed_daemon(daemons, d.view),
                        request: browse_request(dir),
                        then: ThenOf::Browse("browse: "@),
                    },
                );
            &&& !asks_machine(daemons.len() as int, d.view, dir) ==> reads(
                FlowOf::Browse(dir),
                dir,
            )
            &&& !asks_machine(daemons.len() as int, d.view, w.cwd@) ==> reads(
                FlowOf::BrowseHere,
                w.cwd@,
            )
            &&& asks_machine(daemons.len() as int, d.view, dir) ==> flow_taken(
                FlowOf::Browse(dir),
                d,
                s,
                daemons,
                hosts,
                t,
            ) == (
                DeskModel {
                    view: BenchOf { overlay: Some(machine_list(daemons, hosts)), ..d.view },
                    ..d
                },
                s,
                ActionModel::Draw,
            )
        }),
{
    reveal(browsing);
}

/// A process is run on the machine of the open tab under its name, and goes
/// where it was to go. Only one that is followed takes the place of the log
/// that is followed.
#[verifier::spinoff_prover]
#[verifier::rlimit(60)]
pub proof fn a_process_is_run_and_goes_where_it_was_to_go(
    d: DeskModel,
    s: SessionModel,
    daemons: Seq<Daemon>,
    hosts: Seq<Option<String>>,
    t: Tables,
    w: Workspace,
    name: Seq<char>,
    command: Seq<char>,
    then: SpawnedModel,
)
    requires
        workspace_of(daemons, d.view.tab) == Some(w),
    ensures
        ({
            let r = flow_taken(
                FlowOf::RunProcess { name, command, then },
                d,
                s,
                daemons,
                hosts,
                t,
            );
            let runs = ActionModel::Run {
                daemon: daemon_of(daemons, d.view.tab),
                name,
                start: process_start(Some(&w), name, command)->Ok_0,
                then,
                kill: None,
                drop_stage: false,
            };
            &&& then !is Follow ==> r == (d, s, runs)
            &&& then is Follow && d.docker.logs is None ==> r.2 == runs && r.1.following is None
                && r.0 == d
        }),
{
    assert(d.docker.logs is None ==> (Docker { logs: None, ..d.docker }) == d.docker);
}

/// What the client does by itself is asked for as it is: to leave, to decline
/// a version, to pin an agent, to paste a picture, to offer machines.
#[verifier::spinoff_prover]
#[verifier::rlimit(60)]
pub proof fn a_flow_about_the_client_is_carried_out(
    d: DeskModel,
    s: SessionModel,
    daemons: Seq<Daemon>,
    hosts: Seq<Option<String>>,
    t: Tables,
    text: Seq<char>,
    name: Option<Seq<char>>,
)
    ensures
        ({
            let does = |f: FlowModel, a: ActionModel|
                flow_taken(f, d, s, daemons, hosts, t) == (d, s, a);
            &&& does(FlowOf::Continue, ActionOf::Draw)
            &&& does(FlowOf::Detach, ActionOf::Detach)
            &&& does(FlowOf::DeclineUpdate(text), ActionOf::SaveDeclined(text))
            &&& does(FlowOf::PinAgent(name), ActionOf::Pin(name))
            &&& does(FlowOf::PasteImage, ActionOf::PasteImage)
            &&& does(FlowOf::PickHost, ActionOf::PickHosts)
        }),
{
}

/// And so are to connect a machine, to offer the links, to copy what is
/// selected, to change the layout and to read a command.
#[verifier::spinoff_prover]
#[verifier::rlimit(60)]
pub proof fn a_flow_with_the_screen_is_carried_out(
    d: DeskModel,
    s: SessionModel,
    daemons: Seq<Daemon>,
    hosts: Seq<Option<String>>,
    t: Tables,
    text: Seq<char>,
    step: GeomStep,
)
    ensures
        ({
            let does = |f: FlowModel, a: ActionModel|
                flow_taken(f, d, s, daemons, hosts, t) == (d, s, a);
            &&& does(FlowOf::DialHost(text), ActionOf::Connect(text))
            &&& does(FlowOf::PickLinks, ActionOf::PickLinks)
            &&& does(FlowOf::CopySelection, ActionOf::CopySelection)
            &&& does(FlowOf::ToggleLayout, ActionOf::ToggleLayout)
            &&& does(FlowOf::Resize(step), ActionOf::Resize(step))
            &&& does(FlowOf::RunCommand(text), ActionOf::RunCommand(text))
        }),
{
}

/// A link is copied and said to be, and an update is made to the version that
/// is on offer.
#[verifier::spinoff_prover]
#[verifier::rlimit(60)]
pub proof fn a_link_is_copied_and_an_offer_taken(
    d: DeskModel,
    s: SessionModel,
    daemons: Seq<Daemon>,
    hosts: Seq<Option<String>>,
    t: Tables,
    text: Seq<char>,
)
    ensures
        flow_taken(FlowOf::CopyLink(text), d, s, daemons, hosts, t) == (
            DeskModel { view: BenchOf { flash: Some("copied "@ + text), ..d.view }, ..d },
            s,
            ActionModel::Copy(text),
        ),
        s.updates.offer == Some(text) ==> flow_taken(FlowOf::Update, d, s, daemons, hosts, t).2
            == ActionModel::Update(text),
        s.updates.offer is None ==> flow_taken(FlowOf::Update, d, s, daemons, hosts, t).2 is Draw,
{
}

/// An edit of the settings is written down, but for one that only moved the
/// cursor; the default agent is pinned.
#[verifier::spinoff_prover]
#[verifier::rlimit(60)]
pub proof fn an_edit_of_the_settings_is_written_down(
    d: DeskModel,
    s: SessionModel,
    daemons: Seq<Daemon>,
    hosts: Seq<Option<String>>,
    t: Tables,
    name: Option<Seq<char>>,
    theme: Seq<char>,
    on: bool,
    step: GeomStep,
)
    ensures
        ({
            let does = |e: EditOf<Seq<char>>, a: ActionModel|
                flow_taken(FlowOf::SettingsEdit(e), d, s, daemons, hosts, t) == (d, s, a);
            &&& does(EditOf::Moved, ActionOf::Draw)
            &&& does(EditOf::DefaultAgent(name), ActionOf::Pin(name))
            &&& does(EditOf::Theme(theme), ActionOf::SaveEdit(EditOf::Theme(theme)))
            &&& does(EditOf::AutoAttach(on), ActionOf::SaveEdit(EditOf::AutoAttach(on)))
            &&& does(EditOf::Links(on), ActionOf::SaveEdit(EditOf::Links(on)))
            &&& does(EditOf::UpdateCheck(on), ActionOf::SaveEdit(EditOf::UpdateCheck(on)))
            &&& does(EditOf::Geom(step), ActionOf::SaveEdit(EditOf::Geom(step)))
        }),
{
}

/// What was chosen is carried out: on the machine that is browsed where a
/// folder was chosen, on that of the open tab otherwise, and panes are killed
/// one after the other.
#[verifier::spinoff_prover]
#[verifier::rlimit(60)]
pub proof fn a_choice_is_carried_out_where_it_belongs(
    d: DeskModel,
    daemons: Seq<Daemon>,
    here: usize,
    ws: Option<&Workspace>,
    text: Seq<char>,
    about: Seq<char>,
    request: RequestModel,
    pane: PaneId,
    daemon: usize,
    start: StartOf<RequestModel>,
    routes: Seq<Route>,
)
    ensures
        ({
            let does = |c: ChoiceModel, a: ActionModel|
                choice_taken(c, d, daemons, here, ws) == (d, a);
            &&& does(ChoiceOf::Done, ActionOf::Draw)
            &&& does(
                ChoiceOf::Browse { dir: text, about },
                ActionOf::Ask {
                    daemon: browsed_daemon(daemons, d.view),
                    request: browse_request(text),
                    then: ThenOf::Browse(about),
                },
            )
            &&& does(
                ChoiceOf::OpenWorkspace(text),
                ActionOf::Ask {
                    daemon: browsed_daemon(daemons, d.view),
                    request: RequestModel {
                        method: crate::request::Method::Post,
                        route: "/v1/workspaces"@,
                        body: crate::request::BodyOf::Object(
                            seq![("path"@, FieldOf::Text(text))],
                        ),
                    },
                    then: ThenOf::Done,
                },
            )
            &&& does(
                ChoiceOf::Send(request),
                ActionOf::Ask { daemon: here, request, then: ThenOf::Repository },
            )
            &&& does(
                ChoiceOf::Deed(MenuDeedOf::Restart { pane, request }),
                ActionOf::Ask { daemon: here, request, then: ThenOf::Restarted(pane) },
            )
            &&& does(
                ChoiceOf::Deed(MenuDeedOf::Close { daemon, request }),
                ActionOf::Ask { daemon, request, then: ThenOf::Done },
            )
            &&& does(
                ChoiceOf::Deed(MenuDeedOf::Disconnect(daemon)),
                ActionOf::DropMachine(daemon),
            )
            &&& does(
                ChoiceOf::Spawn { name: text, start },
                ActionOf::StartAgent { daemon: here, name: text, start },
            )
            &&& does(ChoiceOf::Disconnect(text), ActionOf::Disconnect(text))
            &&& does(ChoiceOf::Connect(text), ActionOf::Connect(text))
            &&& does(ChoiceOf::OpenLink(text), ActionOf::OpenLink(text))
            &&& routes.len() == 0 ==> does(
                ChoiceOf::Deed(MenuDeedOf::Kill(routes)),
                ActionOf::Draw,
            )
            &&& routes.len() > 0 && routes[0].daemon < daemons.len() ==> does(
                ChoiceOf::Deed(MenuDeedOf::Kill(routes)),
                ActionOf::Ask {
                    daemon: routes[0].daemon,
                    request: kill_request(daemons.len() as int, routes[0])->Ok_0,
                    then: ThenOf::Killed(routes.skip(1)),
                },
            )
        }),
{
    reveal(choice_taken);
    reveal(kills_left);
    if routes.len() > 0 {
        assert(routes.drop_first() =~= routes.skip(1));
    }
}

/// A checkout that no workspace is open on is opened, by its path.
#[verifier::spinoff_prover]
#[verifier::rlimit(60)]
pub proof fn a_worktree_without_a_workspace_is_opened(
    d: DeskModel,
    daemons: Seq<Daemon>,
    here: usize,
    w: &Workspace,
    workspace: SessionId,
    path: Seq<char>,
)
    requires
        tab_with(daemons, all_tabs(daemons), here, workspace) is None,
    ensures
        worktree_wanted(d, daemons, here, Some(w), workspace, path) == (
            d,
            ActionModel::Ask {
                daemon: here,
                request: RequestModel {
                    method: crate::request::Method::Post,
                    route: "/v1/workspaces"@,
                    body: crate::request::BodyOf::Object(seq![("path"@, FieldOf::Text(path))]),
                },
                then: ThenOf::Repository,
            },
        ),
{
    reveal(worktree_wanted);
}

/// A row of the git menu that was taken goes on as the menu has it, with the
/// view that leaves; where it cannot, it is said.
#[verifier::spinoff_prover]
#[verifier::rlimit(60)]
pub proof fn a_row_of_the_git_menu_is_taken(
    d: DeskModel,
    s: SessionModel,
    daemons: Seq<Daemon>,
    hosts: Seq<Option<String>>,
    t: Tables,
    w: Workspace,
    action: MenuAction,
)
    requires
        workspace_of(daemons, d.view.tab) == Some(w),
    ensures
        ({
            let (view, step) = menu_taken(action, d.view, t.items@, Some(&w));
            let r = flow_taken(FlowOf::MenuAction(action), d, s, daemons, hosts, t);
            step matches Ok(step) ==> r == (
                DeskModel { view, ..d },
                s,
                ActionModel::Menu(step),
            )
        }),
{
    reveal(menu_wanted);
}

/// What is chosen from a list is carried out, on the screen that choosing it
/// left.
#[verifier::spinoff_prover]
#[verifier::rlimit(60)]
pub proof fn a_choice_is_carried_out(
    d: DeskModel,
    s: SessionModel,
    daemons: Seq<Daemon>,
    hosts: Seq<Option<String>>,
    t: Tables,
    w: Workspace,
)
    requires
        workspace_of(daemons, d.view.tab) == Some(w),
    ensures
        ({
            let here = daemon_of(daemons, d.view.tab);
            let (view, choice) = chose(
                d.view,
                t.pick_title@,
                t.groups@,
                t.items@,
                daemons,
                here,
                Some(&w),
            );
            let (after, a) = choice_taken(
                choice,
                DeskModel { view, ..d },
                daemons,
                here,
                Some(&w),
            );
            flow_taken(FlowOf::Choose, d, s, daemons, hosts, t) == (after, s, a)
        }),
{
}

/// Without a workspace nothing is run, fetched, picked, searched for or
/// closed: each is refused in its own words.
#[verifier::spinoff_prover]
#[verifier::rlimit(60)]
pub proof fn without_a_workspace_nothing_is_started(
    d: DeskModel,
    s: SessionModel,
    daemons: Seq<Daemon>,
    hosts: Seq<Option<String>>,
    t: Tables,
    text: Seq<char>,
    command: Seq<char>,
    action: GitActionModel,
    target: PickTarget,
)
    requires
        workspace_of(daemons, d.view.tab) is None,
        d.view.page is Files,
        d.files.open is None,
        t.stage is Some,
    ensures
        ({
            let says = |f: FlowModel, said: Seq<char>|
                flow_taken(f, d, s, daemons, hosts, t) == (
                    DeskModel { view: BenchOf { flash: Some(said), ..d.view }, ..d },
                    s,
                    ActionModel::Draw,
                );
            let fetch = flow_taken(FlowOf::GitFetch(text), d, s, daemons, hosts, t);
            &&& says(
                FlowOf::RunProcess { name: text, command, then: SpawnedOf::Stage },
                text + ": "@ + "no workspace open"@,
            )
            &&& says(FlowOf::OpenFile(text), "file: "@ + "no workspace open"@)
            &&& says(FlowOf::Git(action), "no workspace open"@)
            &&& says(FlowOf::Pick { target, value: text }, "no workspace open"@)
            &&& says(FlowOf::CloseStagePane, "no workspace open"@)
            &&& fetch.2 is Draw && fetch.0.view.flash == Some("fetch: "@ + "no workspace open"@)
            &&& flow_taken(FlowOf::Search(text), d, s, daemons, hosts, t).0.view.flash == Some(
                "search: "@ + "no workspace open"@,
            )
        }),
{
    reveal(git_wanted);
    reveal(pick_wanted);
    reveal(fetch_wanted);
    reveal(stage_closed);
}

} // verus!
