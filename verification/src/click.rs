//! What a click or a turn of the wheel does, given what lies under the
//! pointer.
use vstd::prelude::*;

use crate::bench::{
    move_sel, moved, on_tab, row_of, run_view, select_tab, selected_flow, selection, set_selection,
    stage_selected, stepped, step, viewed, with_row, ViewVerb,
};
use crate::git::{asked, DiffStep, DiffView, DiffViewModel, Git, GitModel, GitOf};
use crate::menu::{context_menu, menu_overlay, MenuTexts};
use crate::overlay::{close_question, close_workspace_confirm};
use crate::pages::{
    docker_key, editor_asked, files_key, handle_docker_key, handle_files_key, handle_rail_key,
    rail_flow, rows_fit, scroll_by, scrolled, Docker, DockerRow, EditorStep, EditorStepOf, Files,
    FilesModel, FilesOf, Help, RailVerbs, Stack,
};
use crate::project::{changes_key, handle_changes_key, Workspace};
use crate::roster::{
    all_tabs, fleet_model, fleet_route, route_in, tab_index, AgentRow, AgentRowModel, Daemon,
};
use crate::types::{
    Bench, BenchModel, BenchOf, Flow, FlowModel, FlowOf, Focus, KeyCode, KeyEvent, MenuTarget,
    Overlay, OverlayModel, Page,
};

verus! {

/// A button of the footer.
#[derive(Clone, Copy, Debug, PartialEq, Eq, Structural)]
pub enum FooterButton {
    Layout,
    Detach,
    Help,
    Settings,
    Other,
}

/// What lies under the pointer on the bars, the rails and the stage. A place
/// on the stage is counted from its corner.
#[derive(Clone, Copy, Debug, PartialEq, Eq, Structural)]
pub enum Target {
    Tab(usize),
    CloseTab,
    Space(Page),
    NewWorkspace,
    Machines,
    Spaces,
    Footer(FooterButton),
    AgentsVerb(char),
    ProcsVerb(char),
    ChangesVerb(char),
    Rail(Focus, usize),
    System { gpu: bool },
    Stage(u16, u16),
    Nothing,
}

/// What lies under the pointer in the list of all agents: a row, or the button
/// on it that opens the agent.
#[derive(Clone, Copy, Debug, PartialEq, Eq, Structural)]
pub enum FleetHit {
    Row(usize),
    Open(usize),
}

/// What lies under the pointer on a page of its own.
#[derive(Clone, Copy, Debug, PartialEq, Eq, Structural)]
pub enum PageTarget {
    Row(usize),
    Body,
    Find,
    Nothing,
}

/// What the wheel is turned over.
#[derive(Clone, Copy, Debug, PartialEq, Eq, Structural)]
pub enum WheelSpot {
    Fleet,
    Compute,
    Refs,
    History,
    Body,
    Row,
    Nothing,
}

/// What a click in the list of all agents does: the row is marked, and opened
/// where its button was hit.
pub open spec fn fleet_clicked(hit: FleetHit, v: BenchModel) -> (BenchModel, FlowModel) {
    let row = match hit {
        FleetHit::Open(row) => row,
        FleetHit::Row(row) => row,
    };
    (
        BenchOf { all_agents_sel: row, focus: Focus::AllAgents, ..v },
        if hit is Open {
            FlowOf::OpenFleetAgent(row)
        } else {
            FlowOf::Continue
        },
    )
}

/// A click in the list of all agents.
pub fn fleet_click(hit: FleetHit, view: &mut Bench) -> (f: Flow)
    ensures
        (final(view)@, f@) == fleet_clicked(hit, old(view)@),
{
    view.focus = Focus::AllAgents;
    match hit {
        FleetHit::Open(row) => {
            view.all_agents_sel = row;
            Flow::OpenFleetAgent(row)
        },
        FleetHit::Row(row) => {
            view.all_agents_sel = row;
            Flow::Continue
        },
    }
}

/// A plain press of a letter.
pub open spec fn letter(key: char) -> KeyEvent {
    KeyEvent { code: KeyCode::Char(key), ctrl: false, alt: false, shift: false }
}

/// Opens the settings, or closes them where they are open.
pub open spec fn settings_toggled(page: Page) -> FlowModel {
    if page is Settings {
        FlowOf::CloseSettings
    } else {
        FlowOf::OpenSettings
    }
}

/// What a click on a verb of a rail's footer does: what its key does there.
pub open spec fn rail_verb(
    key: char,
    focus: Focus,
    rows: usize,
    v: BenchModel,
    verbs: RailVerbs,
) -> (BenchModel, FlowModel) {
    (
        BenchOf { focus, ..v },
        match rail_flow(letter(key), focus, rows, v.pinned_agent is Some, verbs) {
            Some(f) => f,
            None => FlowOf::Continue,
        },
    )
}

/// What a click does. A first click on a row of a rail marks it; one on the
/// row that is marked shows it.
pub open spec fn clicked(
    target: Target,
    v: BenchModel,
    tab_count: usize,
    ws: Option<&Workspace>,
    verbs: RailVerbs,
) -> (BenchModel, FlowModel) {
    match target {
        Target::Tab(i) => (
            if i < tab_count {
                on_tab(v, i)
            } else {
                v
            },
            FlowOf::Continue,
        ),
        Target::CloseTab => (
            match ws {
                Some(w) => BenchOf { overlay: Some(close_question(w.id, w.name@)), ..v },
                None => v,
            },
            FlowOf::Continue,
        ),
        Target::Space(page) => if page is Settings {
            (v, settings_toggled(v.page))
        } else {
            viewed(ViewVerb::Space(page), v)
        },
        Target::NewWorkspace => (
            BenchOf { browse_daemon: None, ..v },
            FlowOf::Browse(Seq::empty()),
        ),
        Target::Machines => (v, FlowOf::PickHost),
        Target::Spaces => (v, FlowOf::PickSpace),
        Target::Footer(b) => match b {
            FooterButton::Layout => (v, FlowOf::ToggleLayout),
            FooterButton::Detach => (v, FlowOf::Detach),
            FooterButton::Help => viewed(ViewVerb::Help, v),
            FooterButton::Settings => (v, settings_toggled(v.page)),
            FooterButton::Other => (v, FlowOf::Continue),
        },
        Target::AgentsVerb(key) => rail_verb(
            key,
            Focus::Agents,
            match ws {
                Some(w) => w.agents@.len() as usize,
                None => 0,
            },
            v,
            verbs,
        ),
        Target::ProcsVerb(key) => rail_verb(
            key,
            Focus::Processes,
            match ws {
                Some(w) => w.processes@.len() as usize,
                None => 0,
            },
            v,
            verbs,
        ),
        Target::ChangesVerb(key) => {
            let after = changes_key(letter(key), BenchOf { focus: Focus::Changes, ..v }, ws);
            (
                after.0,
                match after.1 {
                    Some(f) => f,
                    None => FlowOf::Continue,
                },
            )
        },
        Target::Rail(focus, row) => (
            with_row(BenchOf { focus, ..v }, focus, row),
            if v.focus == focus && row_of(v, focus) == row {
                selected_flow(focus, v.page, row)
            } else {
                FlowOf::Continue
            },
        ),
        Target::System { gpu } => viewed(ViewVerb::Monitor { gpu }, v),
        Target::Stage(_, _) => (BenchOf { focus: Focus::Stage, ..v }, FlowOf::Continue),
        Target::Nothing => (v, FlowOf::Continue),
    }
}

/// A click on the bars, the rails or the stage.
pub fn run_click(
    target: Target,
    view: &mut Bench,
    tab_count: usize,
    ws: Option<&Workspace>,
    verbs: &RailVerbs,
) -> (f: Flow)
    ensures
        (final(view)@, f@) == clicked(target, old(view)@, tab_count, ws, *verbs),
{
    match target {
        Target::Tab(i) => {
            if i < tab_count {
                select_tab(view, i);
            }
            Flow::Continue
        },
        Target::CloseTab => {
            if let Some(w) = ws {
                view.overlay = Some(close_workspace_confirm(w.id, &w.name));
            }
            Flow::Continue
        },
        Target::Space(page) => {
            if page == Page::Settings {
                toggle_settings(view.page)
            } else {
                run_view(ViewVerb::Space(page), view)
            }
        },
        Target::NewWorkspace => {
            view.browse_daemon = None;
            Flow::Browse(String::new())
        },
        Target::Machines => Flow::PickHost,
        Target::Spaces => Flow::PickSpace,
        Target::Footer(b) => match b {
            FooterButton::Layout => Flow::ToggleLayout,
            FooterButton::Detach => Flow::Detach,
            FooterButton::Help => run_view(ViewVerb::Help, view),
            FooterButton::Settings => toggle_settings(view.page),
            FooterButton::Other => Flow::Continue,
        },
        Target::AgentsVerb(key) => {
            let rows: usize = match ws {
                Some(w) => w.agents.len(),
                None => 0,
            };
            click_rail_verb(key, Focus::Agents, rows, view, verbs)
        },
        Target::ProcsVerb(key) => {
            let rows: usize = match ws {
                Some(w) => w.processes.len(),
                None => 0,
            };
            click_rail_verb(key, Focus::Processes, rows, view, verbs)
        },
        Target::ChangesVerb(key) => {
            view.focus = Focus::Changes;
            match handle_changes_key(KeyEvent::plain(KeyCode::Char(key)), view, ws) {
                Some(f) => f,
                None => Flow::Continue,
            }
        },
        Target::Rail(focus, row) => {
            let again = view.focus == focus && selection(view, focus) == row;
            view.focus = focus;
            set_selection(view, focus, row);
            if again {
                stage_selected(focus, view.page, row)
            } else {
                Flow::Continue
            }
        },
        Target::System { gpu } => run_view(ViewVerb::Monitor { gpu }, view),
        Target::Stage(_, _) => {
            view.focus = Focus::Stage;
            Flow::Continue
        },
        Target::Nothing => Flow::Continue,
    }
}

fn toggle_settings(page: Page) -> (f: Flow)
    ensures
        f@ == settings_toggled(page),
{
    if page == Page::Settings {
        Flow::CloseSettings
    } else {
        Flow::OpenSettings
    }
}

fn click_rail_verb(key: char, focus: Focus, rows: usize, view: &mut Bench, verbs: &RailVerbs) -> (f:
    Flow)
    ensures
        (final(view)@, f@) == rail_verb(key, focus, rows, old(view)@, *verbs),
{
    view.focus = focus;
    let pinned = view.pinned_agent.is_some();
    match handle_rail_key(KeyEvent::plain(KeyCode::Char(key)), focus, rows, pinned, verbs) {
        Some(f) => f,
        None => Flow::Continue,
    }
}

/// A click on a row of a rail moves the keyboard to that rail and its cursor
/// to that row; nothing is opened unless both were there already.
pub proof fn a_first_click_only_marks(
    focus: Focus,
    row: usize,
    v: BenchModel,
    tab_count: usize,
    ws: Option<&Workspace>,
    verbs: RailVerbs,
)
    requires
        v.focus != focus || row_of(v, focus) != row,
    ensures
        ({
            let (after, flow) = clicked(Target::Rail(focus, row), v, tab_count, ws, verbs);
            flow is Continue && after.focus == focus && (crate::bench::has_cursor(focus) ==> row_of(
                after,
                focus,
            ) == row) && after.page == v.page && after.staged == v.staged
        }),
{
}

/// Whether a click on the bars of a page of its own goes back to where that
/// page was opened from.
pub open spec fn leaves_page(target: Target) -> bool {
    match target {
        Target::Tab(_) | Target::CloseTab | Target::NewWorkspace | Target::Machines => true,
        Target::Footer(b) => b is Layout || b is Detach,
        _ => false,
    }
}

/// What a click on the bars does while a page of its own is showing, which was
/// opened from `ret`.
pub open spec fn bar_clicked(
    target: Target,
    v: BenchModel,
    ret: Page,
    tab_count: usize,
    ws: Option<&Workspace>,
    verbs: RailVerbs,
) -> (BenchModel, FlowModel) {
    clicked(
        target,
        if leaves_page(target) {
            BenchOf { page: ret, ..v }
        } else {
            v
        },
        tab_count,
        ws,
        verbs,
    )
}

/// A click on the bars while a page of its own is showing.
pub fn page_bar_click(
    target: Target,
    view: &mut Bench,
    ret: Page,
    tab_count: usize,
    ws: Option<&Workspace>,
    verbs: &RailVerbs,
) -> (f: Flow)
    ensures
        (final(view)@, f@) == bar_clicked(target, old(view)@, ret, tab_count, ws, *verbs),
{
    let leaves = match target {
        Target::Tab(_) | Target::CloseTab | Target::NewWorkspace | Target::Machines => true,
        Target::Footer(b) => b == FooterButton::Layout || b == FooterButton::Detach,
        _ => false,
    };
    if leaves {
        view.page = ret;
    }
    run_click(target, view, tab_count, ws, verbs)
}

/// What the menu of a right click is on.
pub open spec fn menu_on(
    target: Target,
    ws: Option<&Workspace>,
    daemons: Seq<Daemon>,
    hosts: Seq<Option<String>>,
    here: usize,
) -> Option<MenuTarget> {
    match (ws, target) {
        (Some(w), Target::Rail(Focus::Agents, row)) => if row < w.agents@.len() {
            Some(
                MenuTarget::Agent {
                    daemon: here,
                    workspace: w.id,
                    pane: w.agents@[row as int],
                },
            )
        } else {
            None
        },
        (Some(w), Target::Rail(Focus::Processes, row)) => if row < w.processes@.len() {
            Some(MenuTarget::Process(w.processes@[row as int]))
        } else {
            None
        },
        (Some(_), Target::Tab(i)) => if i < all_tabs(daemons).len() {
            let d = all_tabs(daemons)[i as int].0;
            if d < hosts.len() && hosts[d as int] is Some {
                Some(MenuTarget::RemoteTab(i))
            } else {
                Some(MenuTarget::Tab(i))
            }
        } else {
            None
        },
        _ => None,
    }
}

/// The menu on something, if there is one.
pub open spec fn menu_of(kind: Option<MenuTarget>, names: MenuTexts) -> Option<OverlayModel> {
    match kind {
        Some(k) => Some(context_menu(k, names)),
        None => None,
    }
}

/// The menu of a right click.
pub fn menu_for(
    target: Target,
    ws: Option<&Workspace>,
    daemons: &Vec<Daemon>,
    hosts: &Vec<Option<String>>,
    here: usize,
    names: &MenuTexts,
) -> (r: Option<Overlay>)
    ensures
        crate::types::opt_overlay(r) == menu_of(
            menu_on(target, ws, daemons@, hosts@, here),
            *names,
        ),
{
    match ws {
        None => None,
        Some(w) => match target {
            Target::Rail(Focus::Agents, row) => if row < w.agents.len() {
                Some(
                    menu_overlay(
                        MenuTarget::Agent { daemon: here, workspace: w.id, pane: w.agents[row] },
                        names,
                    ),
                )
            } else {
                None
            },
            Target::Rail(Focus::Processes, row) => if row < w.processes.len() {
                Some(menu_overlay(MenuTarget::Process(w.processes[row]), names))
            } else {
                None
            },
            Target::Tab(i) => {
                let tabs = tab_index(daemons, hosts);
                if i < tabs.len() {
                    let d: usize = tabs[i].0;
                    if d < hosts.len() && hosts[d].is_some() {
                        Some(menu_overlay(MenuTarget::RemoteTab(i), names))
                    } else {
                        Some(menu_overlay(MenuTarget::Tab(i), names))
                    }
                } else {
                    None
                }
            },
            _ => None,
        },
    }
}

/// What the menu of a row of the list of all agents is on.
pub open spec fn fleet_menu_on(fleet: Seq<AgentRowModel>, sel: usize) -> Option<MenuTarget> {
    match route_in(fleet, sel) {
        Some(to) => Some(
            MenuTarget::Agent { daemon: to.daemon, workspace: to.workspace, pane: to.pane },
        ),
        None => None,
    }
}

/// The menu of a row of the list of all agents.
pub fn fleet_menu(fleet: &Vec<AgentRow>, sel: usize, names: &MenuTexts) -> (r: Option<Overlay>)
    ensures
        crate::types::opt_overlay(r) == menu_of(
            fleet_menu_on(fleet_model(fleet@), sel),
            *names,
        ),
{
    match fleet_route(fleet, sel) {
        Some(to) => Some(
            menu_overlay(
                MenuTarget::Agent { daemon: to.daemon, workspace: to.workspace, pane: to.pane },
                names,
            ),
        ),
        None => None,
    }
}

/// What the menu key opens its menu on: the row under the cursor of the agents
/// or the processes, and otherwise the open tab.
pub fn menu_target(view: &Bench) -> (t: Target)
    ensures
        t == (match view@.focus {
            Focus::Agents => Target::Rail(Focus::Agents, view@.agent_sel),
            Focus::Processes => Target::Rail(Focus::Processes, view@.proc_sel),
            _ => Target::Tab(view@.tab),
        }),
{
    match view.focus {
        Focus::Agents => Target::Rail(Focus::Agents, view.agent_sel),
        Focus::Processes => Target::Rail(Focus::Processes, view.proc_sel),
        _ => Target::Tab(view.tab),
    }
}

/// A plain press of enter.
pub open spec fn enter() -> KeyEvent {
    KeyEvent { code: KeyCode::Enter, ctrl: false, alt: false, shift: false }
}

/// What a click on a row of a tree does: a first click marks it, and one on
/// the row that is marked does what enter does.
pub open spec fn tree_clicked(v: BenchModel, f: FilesModel, row: usize) -> (
    BenchModel,
    FilesModel,
    FlowModel,
) {
    if row >= f.entries.len() {
        (v, f, FlowOf::Continue)
    } else {
        let marked = FilesOf { sel: row, ..f };
        let there = BenchOf { focus: Focus::Agents, ..v };
        if f.sel != row {
            (there, marked, FlowOf::Continue)
        } else {
            let after = files_key(enter(), there, marked);
            (
                after.0,
                after.1,
                match after.2 {
                    Some(flow) => flow,
                    None => FlowOf::Continue,
                },
            )
        }
    }
}

/// What a click on a row of the container page does.
pub open spec fn docker_clicked(
    v: BenchModel,
    d: Docker,
    stacks: Seq<Stack>,
    rows: Seq<DockerRow>,
    row: usize,
) -> (BenchModel, Docker, FlowModel) {
    let marked = Docker { sel: row, ..d };
    if d.sel != row {
        (v, marked, FlowOf::Continue)
    } else {
        let after = docker_key(enter(), v, marked, stacks, rows);
        (
            after.0,
            after.1,
            match after.2 {
                Some(flow) => flow,
                None => FlowOf::Continue,
            },
        )
    }
}

/// A click on a row of a page of its own. `files` is the tree that is showing.
pub fn page_click(
    view: &mut Bench,
    files: &mut Files,
    docker: &mut Docker,
    stacks: &Vec<Stack>,
    rows: &Vec<DockerRow>,
    row: usize,
) -> (f: Flow)
    requires
        rows_fit(rows@, stacks@),
    ensures
        if old(view)@.page.is_tree() {
            (final(view)@, final(files)@, f@) == tree_clicked(old(view)@, old(files)@, row)
                && *final(docker) == *old(docker)
        } else {
            (final(view)@, *final(docker), f@) == docker_clicked(
                old(view)@,
                *old(docker),
                stacks@,
                rows@,
                row,
            ) && final(files)@ == old(files)@
        },
{
    if view.page.is_tree() {
        if row >= files.entries.len() {
            return Flow::Continue;
        }
        let again = files.sel == row;
        files.sel = row;
        view.focus = Focus::Agents;
        if !again {
            return Flow::Continue;
        }
        match handle_files_key(KeyEvent::plain(KeyCode::Enter), view, files) {
            Some(f) => f,
            None => Flow::Continue,
        }
    } else {
        let again = docker.sel == row;
        docker.sel = row;
        if !again {
            return Flow::Continue;
        }
        match handle_docker_key(KeyEvent::plain(KeyCode::Enter), view, docker, stacks, rows) {
            Some(f) => f,
            None => Flow::Continue,
        }
    }
}

/// The pages that the wheel can turn.
#[verifier::ext_equal]
pub struct Turned {
    pub view: BenchModel,
    pub files: FilesModel,
    pub docs: FilesModel,
    pub diff: DiffViewModel,
    pub docker: Docker,
    pub git: GitModel,
    pub help: Help,
}

/// A tree whose cursor, or whose open file, the wheel moved.
pub open spec fn tree_turned(f: FilesModel, spot: WheelSpot, delta: isize) -> FilesModel {
    match spot {
        WheelSpot::Row => FilesOf {
            sel: stepped(f.sel as int, delta as int, f.entries.len() as int) as usize,
            ..f
        },
        WheelSpot::Body => FilesOf {
            open: match f.open {
                Some(e) => Some(editor_asked(e, EditorStepOf::Scroll(delta))),
                None => None,
            },
            ..f
        },
        _ => f,
    }
}

/// A cursor that the wheel moved in a list whose length is not known here.
pub open spec fn unbounded(sel: usize, delta: isize) -> usize {
    if sel + delta < 0 {
        0
    } else if sel + delta > usize::MAX {
        usize::MAX
    } else {
        (sel + delta) as usize
    }
}

fn turn_unbounded(sel: usize, delta: isize) -> (r: usize)
    ensures
        r == unbounded(sel, delta),
{
    if delta < 0 {
        let back: usize = (-(delta + 1)) as usize;
        if sel <= back {
            0
        } else {
            sel - back - 1
        }
    } else {
        let on: usize = delta as usize;
        if on > usize::MAX - sel {
            usize::MAX
        } else {
            sel + on
        }
    }
}

/// What a turn of the wheel does on the page that is showing, over a spot of
/// it: the list or the text under the pointer moves, and the keyboard stays
/// where it is. Nothing where the page has nothing to turn there.
pub open spec fn turned(
    t: Turned,
    spot: WheelSpot,
    delta: isize,
    counts: crate::bench::Counts,
    machines: usize,
    refs: usize,
    help_max: usize,
) -> (Turned, Option<FlowModel>) {
    let done = Some(FlowOf::<Seq<char>>::Continue);
    match t.view.page {
        Page::Booth => match spot {
            WheelSpot::Fleet => (
                Turned {
                    view: BenchOf {
                        focus: t.view.focus,
                        ..moved(
                            BenchOf { focus: Focus::AllAgents, ..t.view },
                            counts,
                            delta as int,
                        )
                    },
                    ..t
                },
                done,
            ),
            WheelSpot::Compute => (
                Turned {
                    view: BenchOf {
                        booth_compute_scroll: stepped(
                            t.view.booth_compute_scroll as int,
                            delta as int,
                            machines as int,
                        ) as usize,
                        ..t.view
                    },
                    ..t
                },
                done,
            ),
            _ => (t, None),
        },
        Page::Help => (
            Turned {
                help: Help {
                    scroll: scrolled(t.help.scroll as int, delta as int, help_max as int) as usize,
                    ..t.help
                },
                ..t
            },
            done,
        ),
        Page::Git => match spot {
            WheelSpot::Refs => (
                Turned {
                    git: GitOf {
                        refs_sel: stepped(
                            t.git.refs_sel as int,
                            delta as int,
                            refs as int,
                        ) as usize,
                        ..t.git
                    },
                    ..t
                },
                done,
            ),
            WheelSpot::History => (
                Turned {
                    git: GitOf {
                        hist_sel: stepped(
                            t.git.hist_sel as int,
                            delta as int,
                            t.git.log.len() as int,
                        ) as usize,
                        ..t.git
                    },
                    ..t
                },
                done,
            ),
            WheelSpot::Body => (
                Turned {
                    git: GitOf {
                        body: match t.git.body {
                            Some(d) => Some(asked(d, DiffStep::Scroll(delta))),
                            None => None,
                        },
                        ..t.git
                    },
                    ..t
                },
                done,
            ),
            _ => (t, None),
        },
        Page::Diff => match spot {
            WheelSpot::Body => (
                Turned { diff: asked(t.diff, DiffStep::Scroll(delta)), ..t },
                done,
            ),
            _ => (t, None),
        },
        Page::Files => if spot is Row || spot is Body {
            (Turned { files: tree_turned(t.files, spot, delta), ..t }, done)
        } else {
            (t, None)
        },
        Page::Docs => if spot is Row || spot is Body {
            (Turned { docs: tree_turned(t.docs, spot, delta), ..t }, done)
        } else {
            (t, None)
        },
        _ => if spot is Row {
            (
                Turned { docker: Docker { sel: unbounded(t.docker.sel, delta), ..t.docker }, ..t },
                done,
            )
        } else {
            (t, None)
        },
    }
}

fn turn_tree(f: &mut Files, spot: WheelSpot, delta: isize)
    ensures
        final(f)@ == tree_turned(old(f)@, spot, delta),
{
    match spot {
        WheelSpot::Row => {
            f.sel = step(f.sel, delta, f.entries.len());
        },
        WheelSpot::Body => {
            let open = f.open.take();
            if let Some(mut e) = open {
                e.ask(EditorStep::Scroll(delta));
                f.open = Some(e);
            }
        },
        _ => {},
    }
}

/// A turn of the wheel on the page that is showing. `counts` are the lengths
/// of the rails, `machines` and `refs` those of the lists of machines and of
/// refs, and `help_max` the furthest the help can be scrolled.
pub fn page_wheel(
    view: &mut Bench,
    files: &mut Files,
    docs: &mut Files,
    diff: &mut DiffView,
    docker: &mut Docker,
    git: &mut Git,
    help: &mut Help,
    spot: WheelSpot,
    delta: isize,
    counts: crate::bench::Counts,
    machines: usize,
    refs: usize,
    help_max: usize,
) -> (r: Option<Flow>)
    ensures
        ({
            let before = Turned {
                view: old(view)@,
                files: old(files)@,
                docs: old(docs)@,
                diff: old(diff)@,
                docker: *old(docker),
                git: old(git)@,
                help: *old(help),
            };
            let after = Turned {
                view: final(view)@,
                files: final(files)@,
                docs: final(docs)@,
                diff: final(diff)@,
                docker: *final(docker),
                git: final(git)@,
                help: *final(help),
            };
            (after, crate::types::opt_flow(r)) == turned(
                before,
                spot,
                delta,
                counts,
                machines,
                refs,
                help_max,
            )
        }),
{
    match view.page {
        Page::Booth => match spot {
            WheelSpot::Fleet => {
                let was = view.focus;
                view.focus = Focus::AllAgents;
                move_sel(view, counts, delta);
                view.focus = was;
                Some(Flow::Continue)
            },
            WheelSpot::Compute => {
                view.booth_compute_scroll = step(view.booth_compute_scroll, delta, machines);
                Some(Flow::Continue)
            },
            _ => None,
        },
        Page::Help => {
            help.scroll = scroll_by(help.scroll, delta, help_max);
            Some(Flow::Continue)
        },
        Page::Git => match spot {
            WheelSpot::Refs => {
                git.refs_sel = step(git.refs_sel, delta, refs);
                Some(Flow::Continue)
            },
            WheelSpot::History => {
                git.hist_sel = step(git.hist_sel, delta, git.log.len());
                Some(Flow::Continue)
            },
            WheelSpot::Body => {
                let body = git.body.take();
                if let Some(mut d) = body {
                    d.ask(DiffStep::Scroll(delta));
                    git.body = Some(d);
                }
                Some(Flow::Continue)
            },
            _ => None,
        },
        Page::Diff => match spot {
            WheelSpot::Body => {
                diff.ask(DiffStep::Scroll(delta));
                Some(Flow::Continue)
            },
            _ => None,
        },
        Page::Files => {
            if spot == WheelSpot::Row || spot == WheelSpot::Body {
                turn_tree(files, spot, delta);
                Some(Flow::Continue)
            } else {
                None
            }
        },
        Page::Docs => {
            if spot == WheelSpot::Row || spot == WheelSpot::Body {
                turn_tree(docs, spot, delta);
                Some(Flow::Continue)
            } else {
                None
            }
        },
        _ => {
            if spot == WheelSpot::Row {
                docker.sel = turn_unbounded(docker.sel, delta);
                Some(Flow::Continue)
            } else {
                None
            }
        },
    }
}

/// The wheel moves what is under the pointer and never the keyboard, the page,
/// or what is on the stage.
pub proof fn the_wheel_leaves_the_keyboard_where_it_is(
    t: Turned,
    spot: WheelSpot,
    delta: isize,
    counts: crate::bench::Counts,
    machines: usize,
    refs: usize,
    help_max: usize,
)
    ensures
        ({
            let after = turned(t, spot, delta, counts, machines, refs, help_max).0.view;
            after.focus == t.view.focus && after.page == t.view.page && after.staged
                == t.view.staged && after.overlay == t.view.overlay
        }),
{
}

/// A click in the list of all agents marks its row and takes the keyboard
/// there; on the button of a row it goes to that agent too.
pub proof fn a_click_in_the_fleet_marks_its_row(row: usize, v: BenchModel)
    ensures
        fleet_clicked(FleetHit::Row(row), v) == (
            BenchOf { all_agents_sel: row, focus: Focus::AllAgents, ..v },
            FlowOf::<Seq<char>>::Continue,
        ),
        fleet_clicked(FleetHit::Open(row), v) == (
            BenchOf { all_agents_sel: row, focus: Focus::AllAgents, ..v },
            FlowOf::<Seq<char>>::OpenFleetAgent(row),
        ),
{
}

/// A click on the row of a rail that is marked, where the keyboard is, opens
/// it: an agent or a process goes on the stage, a change shows its diff.
pub proof fn a_second_click_opens(
    row: usize,
    v: BenchModel,
    tab_count: usize,
    ws: Option<&Workspace>,
    verbs: RailVerbs,
)
    ensures
        v.focus is Agents && v.agent_sel == row ==> clicked(
            Target::Rail(Focus::Agents, row),
            v,
            tab_count,
            ws,
            verbs,
        ) == (v, FlowOf::<Seq<char>>::StageSelected),
        v.focus is Processes && v.proc_sel == row ==> clicked(
            Target::Rail(Focus::Processes, row),
            v,
            tab_count,
            ws,
            verbs,
        ) == (v, FlowOf::<Seq<char>>::StageSelected),
        v.focus is Changes && v.changes_sel == row ==> clicked(
            Target::Rail(Focus::Changes, row),
            v,
            tab_count,
            ws,
            verbs,
        ) == (v, FlowOf::<Seq<char>>::OpenSelectedDiff),
{
}

/// A click on a tab goes to it, with what belonged to the workspace before let
/// go of; a click where no tab is changes nothing.
pub proof fn a_click_on_a_tab_goes_to_it(
    i: usize,
    v: BenchModel,
    tab_count: usize,
    ws: Option<&Workspace>,
    verbs: RailVerbs,
)
    ensures
        ({
            let r = clicked(Target::Tab(i), v, tab_count, ws, verbs);
            &&& r.1 == FlowOf::<Seq<char>>::Continue
            &&& i < tab_count ==> r.0.tab == i && r.0.staged is None && r.0.agent_sel == 0
                && r.0.proc_sel == 0 && r.0.changes_sel == 0 && r.0.overlay == v.overlay
            &&& i < tab_count && v.page is Booth ==> r.0.page is Agents
            &&& i < tab_count && v.page !is Booth ==> r.0.page == v.page
            &&& i >= tab_count ==> r.0 == v
        }),
{
}

/// The buttons of the bars and of the footer: each asks for its own. Closing
/// a tab asks first, about the workspace that is open. The settings are opened
/// where they are not showing and closed where they are.
pub proof fn a_click_on_a_button_asks_for_its_own(
    page: Page,
    gpu: bool,
    x: u16,
    y: u16,
    v: BenchModel,
    tab_count: usize,
    ws: Option<&Workspace>,
    verbs: RailVerbs,
)
    ensures
        ({
            let on = |t: Target| clicked(t, v, tab_count, ws, verbs);
            &&& on(Target::NewWorkspace) == (
                BenchOf { browse_daemon: None, ..v },
                FlowOf::<Seq<char>>::Browse(Seq::empty()),
            )
            &&& on(Target::Machines) == (v, FlowOf::<Seq<char>>::PickHost)
            &&& on(Target::Spaces) == (v, FlowOf::<Seq<char>>::PickSpace)
            &&& on(Target::Footer(FooterButton::Layout)) == (
                v,
                FlowOf::<Seq<char>>::ToggleLayout,
            )
            &&& on(Target::Footer(FooterButton::Detach)) == (v, FlowOf::<Seq<char>>::Detach)
            &&& v.page !is Help ==> on(Target::Footer(FooterButton::Help)) == (
                BenchOf { overlay: None, ..v },
                FlowOf::<Seq<char>>::OpenHelp,
            )
            &&& v.page is Help ==> on(Target::Footer(FooterButton::Help)) == (
                v,
                FlowOf::<Seq<char>>::CloseHelp,
            )
            &&& v.page !is Settings ==> on(Target::Footer(FooterButton::Settings)) == (
                v,
                FlowOf::<Seq<char>>::OpenSettings,
            ) && on(Target::Space(Page::Settings)) == (v, FlowOf::<Seq<char>>::OpenSettings)
            &&& v.page is Settings ==> on(Target::Footer(FooterButton::Settings)) == (
                v,
                FlowOf::<Seq<char>>::CloseSettings,
            ) && on(Target::Space(Page::Settings)) == (v, FlowOf::<Seq<char>>::CloseSettings)
            &&& on(Target::Footer(FooterButton::Other)) == (v, FlowOf::<Seq<char>>::Continue)
            &&& page !is Settings && v.page != page ==> on(Target::Space(page)).0.page == page
            &&& page !is Settings && v.page == page ==> on(Target::Space(page)).0.page is Agents
            &&& on(Target::System { gpu }).0.page is Agents && (on(Target::System { gpu }).1
                matches FlowOf::RunProcess { name, command, then } && name == (if gpu {
                "gpu"@
            } else {
                "top"@
            }) && then is Stage)
            &&& on(Target::Stage(x, y)) == (
                BenchOf { focus: Focus::Stage, ..v },
                FlowOf::<Seq<char>>::Continue,
            )
            &&& on(Target::Nothing) == (v, FlowOf::<Seq<char>>::Continue)
            &&& on(Target::CloseTab).1 == FlowOf::<Seq<char>>::Continue && (match ws {
                Some(w) => on(Target::CloseTab).0.overlay matches Some(
                    crate::types::OverlayOf::Confirm(c),
                ) && !c.yes && c.kind == (crate::types::ConfirmKindOf::CloseWorkspace {
                    id: w.id,
                    name: w.name@,
                }),
                None => on(Target::CloseTab).0 == v,
            })
        }),
{
}

/// A verb of a rail's footer that is clicked takes the keyboard to that rail
/// and does what its key does there.
pub proof fn a_clicked_footer_verb_is_its_key(
    key: char,
    v: BenchModel,
    tab_count: usize,
    w: &Workspace,
    verbs: RailVerbs,
)
    requires
        w.agents@.len() <= usize::MAX,
        w.processes@.len() <= usize::MAX,
    ensures
        ({
            let press = KeyEvent { code: KeyCode::Char(key), ctrl: false, alt: false, shift: false };
            let pinned = v.pinned_agent is Some;
            let agents = clicked(Target::AgentsVerb(key), v, tab_count, Some(w), verbs);
            let procs = clicked(Target::ProcsVerb(key), v, tab_count, Some(w), verbs);
            let changes = clicked(Target::ChangesVerb(key), v, tab_count, Some(w), verbs);
            let does = changes_key(press, BenchOf { focus: Focus::Changes, ..v }, Some(w));
            &&& agents.0 == (BenchOf { focus: Focus::Agents, ..v })
            &&& rail_flow(press, Focus::Agents, w.agents@.len() as usize, pinned, verbs) matches
                Some(f) ==> agents.1 == f
            &&& rail_flow(press, Focus::Agents, w.agents@.len() as usize, pinned, verbs) is None
                ==> agents.1 is Continue
            &&& procs.0 == (BenchOf { focus: Focus::Processes, ..v })
            &&& rail_flow(
                press,
                Focus::Processes,
                w.processes@.len() as usize,
                pinned,
                verbs,
            ) matches Some(f) ==> procs.1 == f
            &&& changes.0 == does.0
            &&& does.1 matches Some(f) ==> changes.1 == f
            &&& does.1 is None ==> changes.1 is Continue
        }),
{
}

/// A click on the bars of a page of its own goes back to the page it was
/// opened from where it is about a workspace or leaves, and otherwise does
/// what it does anywhere.
pub proof fn a_bar_goes_back_to_where_its_page_was_opened(
    target: Target,
    v: BenchModel,
    ret: Page,
    tab_count: usize,
    ws: Option<&Workspace>,
    verbs: RailVerbs,
)
    ensures
        target is Tab || target is CloseTab || target is NewWorkspace || target is Machines || target
            == Target::Footer(FooterButton::Layout) || target == Target::Footer(FooterButton::Detach)
            ==> bar_clicked(target, v, ret, tab_count, ws, verbs) == clicked(
            target,
            BenchOf { page: ret, ..v },
            tab_count,
            ws,
            verbs,
        ),
        target is Space || target is Spaces || target is System || target is Stage || target is Rail
            || target is Nothing || target == Target::Footer(FooterButton::Help) || target
            == Target::Footer(FooterButton::Settings) ==> bar_clicked(
            target,
            v,
            ret,
            tab_count,
            ws,
            verbs,
        ) == clicked(target, v, tab_count, ws, verbs),
{
}

/// A menu is opened on what is under the pointer: the agent or the process of
/// that row of the open workspace, by its own pane; and a tab, which on
/// another machine is another kind of tab.
pub proof fn a_menu_is_on_what_was_pointed_at(
    row: usize,
    w: &Workspace,
    daemons: Seq<Daemon>,
    hosts: Seq<Option<String>>,
    here: usize,
)
    ensures
        ({
            let on = |t: Target| menu_on(t, Some(w), daemons, hosts, here);
            &&& row < w.agents@.len() ==> on(Target::Rail(Focus::Agents, row)) == Some(
                MenuTarget::Agent {
                    daemon: here,
                    workspace: w.id,
                    pane: w.agents@[row as int],
                },
            )
            &&& row >= w.agents@.len() ==> on(Target::Rail(Focus::Agents, row)) is None
            &&& row < w.processes@.len() ==> on(Target::Rail(Focus::Processes, row)) == Some(
                MenuTarget::Process(w.processes@[row as int]),
            )
            &&& row >= w.processes@.len() ==> on(Target::Rail(Focus::Processes, row)) is None
            &&& row < all_tabs(daemons).len() ==> {
                let d = all_tabs(daemons)[row as int].0;
                on(Target::Tab(row)) == Some(
                    if d < hosts.len() && hosts[d as int] is Some {
                        MenuTarget::RemoteTab(row)
                    } else {
                        MenuTarget::Tab(row)
                    },
                )
            }
            &&& row >= all_tabs(daemons).len() ==> on(Target::Tab(row)) is None
            &&& on(Target::Rail(Focus::Changes, row)) is None
            &&& on(Target::Nothing) is None
        }),
        menu_on(Target::Tab(row), None, daemons, hosts, here) is None,
{
}

/// The menu of a row of the fleet is on that row's agent, on its own machine
/// and in its own workspace.
pub proof fn a_fleet_menu_is_on_its_rows_agent(fleet: Seq<AgentRowModel>, sel: usize)
    ensures
        match route_in(fleet, sel) {
            Some(to) => fleet_menu_on(fleet, sel) == Some(
                MenuTarget::Agent { daemon: to.daemon, workspace: to.workspace, pane: to.pane },
            ),
            None => fleet_menu_on(fleet, sel) is None,
        },
{
}

/// A click on a row of a tree that is not marked marks it and no more. One on
/// the marked row goes into a directory and opens a file, while none is being
/// edited. The keyboard leaves the stage either way.
pub proof fn a_tree_is_opened_by_a_second_click(v: BenchModel, f: FilesModel, row: usize)
    requires
        f.open matches Some(e) ==> e.mode is Read,
        row < f.entries.len(),
    ensures
        ({
            let r = tree_clicked(v, f, row);
            &&& r.0 == (BenchOf { focus: Focus::Agents, ..v })
            &&& r.1 == (FilesOf { sel: row, ..f })
            &&& f.sel != row ==> r.2 is Continue
            &&& f.sel == row && f.entries[row as int].is_dir ==> r.2 == FlowOf::ListDir(
                f.entries[row as int].path,
            )
            &&& f.sel == row && !f.entries[row as int].is_dir ==> r.2 == FlowOf::OpenFile(
                f.entries[row as int].path,
            )
        }),
{
}

/// A click below the last row of a tree changes nothing.
pub proof fn a_click_below_a_tree_changes_nothing(v: BenchModel, f: FilesModel, row: usize)
    requires
        row >= f.entries.len(),
    ensures
        tree_clicked(v, f, row) == (v, f, FlowOf::<Seq<char>>::Continue),
{
}

/// A click on a row of the container page that is not marked marks it and no
/// more; one on the marked row follows its logs.
pub proof fn logs_are_followed_by_a_second_click(
    v: BenchModel,
    d: Docker,
    stacks: Seq<Stack>,
    rows: Seq<DockerRow>,
    row: usize,
    stack: usize,
    name: String,
)
    requires
        row < rows.len(),
        rows[row as int] == (DockerRow::Container { stack, name }),
    ensures
        d.sel != row ==> docker_clicked(v, d, stacks, rows, row) == (
            v,
            Docker { sel: row, ..d },
            FlowOf::<Seq<char>>::Continue,
        ),
        d.sel == row ==> docker_clicked(v, d, stacks, rows, row) == (
            v,
            d,
            FlowOf::RunProcess {
                name: "logs "@ + name@,
                command: "docker "@ + "logs -f --tail 200"@ + " "@ + crate::encode::quoted(name@),
                then: crate::types::SpawnedOf::Follow(name@),
            },
        ),
{
}

/// The wheel turned down moves a cursor or a text one row down and turned up
/// one row up, stopping at the ends: of the fleet and the machines in the
/// booth, of the refs and the history of the git page, and of the help.
pub proof fn the_wheel_moves_by_its_turn(
    t: Turned,
    delta: isize,
    counts: crate::bench::Counts,
    machines: usize,
    refs: usize,
    help_max: usize,
)
    requires
        delta == 1 || delta == -1,
    ensures
        ({
            let on = |spot: WheelSpot| turned(t, spot, delta, counts, machines, refs, help_max);
            let within = |at: int, len: int|
                if delta == 1 {
                    if at + 1 < len {
                        at + 1
                    } else {
                        len - 1
                    }
                } else {
                    if at > 0 {
                        at - 1
                    } else {
                        0
                    }
                };
            let done = Some(FlowOf::<Seq<char>>::Continue);
            &&& t.view.page is Booth && t.view.all_agents_sel < counts.all_agents ==> on(
                WheelSpot::Fleet,
            ).0.view == (BenchOf {
                all_agents_sel: within(
                    t.view.all_agents_sel as int,
                    counts.all_agents as int,
                ) as usize,
                ..t.view
            }) && on(WheelSpot::Fleet).1 == done
            &&& t.view.page is Booth && t.view.booth_compute_scroll < machines ==> on(
                WheelSpot::Compute,
            ).0.view == (BenchOf {
                booth_compute_scroll: within(
                    t.view.booth_compute_scroll as int,
                    machines as int,
                ) as usize,
                ..t.view
            }) && on(WheelSpot::Compute).1 == done
            &&& t.view.page is Git && t.git.refs_sel < refs ==> on(WheelSpot::Refs).0.git == (GitOf {
                refs_sel: within(t.git.refs_sel as int, refs as int) as usize,
                ..t.git
            }) && on(WheelSpot::Refs).1 == done
            &&& t.view.page is Git && t.git.hist_sel < t.git.log.len() ==> on(
                WheelSpot::History,
            ).0.git == (GitOf {
                hist_sel: within(t.git.hist_sel as int, t.git.log.len() as int) as usize,
                ..t.git
            }) && on(WheelSpot::History).1 == done
            &&& t.view.page is Help && t.help.scroll <= help_max ==> on(
                WheelSpot::Nothing,
            ).0.help == (Help {
                scroll: within(t.help.scroll as int, help_max + 1) as usize,
                ..t.help
            }) && on(WheelSpot::Nothing).1 == done
        }),
{
}

/// Over a tree the wheel moves the cursor of the tree that is showing, and
/// over the file beside it the text of that file. The other tree stays.
pub proof fn the_wheel_turns_the_tree_that_is_showing(
    t: Turned,
    delta: isize,
    counts: crate::bench::Counts,
    machines: usize,
    refs: usize,
    help_max: usize,
    e: crate::pages::EditorModel,
)
    requires
        delta == 1 || delta == -1,
    ensures
        ({
            let on = |spot: WheelSpot| turned(t, spot, delta, counts, machines, refs, help_max).0;
            let within = |f: FilesModel|
                if delta == 1 {
                    if f.sel + 1 < f.entries.len() {
                        f.sel + 1
                    } else {
                        f.entries.len() - 1
                    }
                } else {
                    if f.sel > 0 {
                        f.sel - 1
                    } else {
                        0
                    }
                };
            let scrolls = crate::pages::EditorOf { steps: e.steps.push(EditorStepOf::Scroll(delta)), ..e };
            &&& t.view.page is Files && t.files.sel < t.files.entries.len() ==> on(
                WheelSpot::Row,
            ).files == (FilesOf { sel: within(t.files) as usize, ..t.files }) && on(
                WheelSpot::Row,
            ).docs == t.docs
            &&& t.view.page is Docs && t.docs.sel < t.docs.entries.len() ==> on(
                WheelSpot::Row,
            ).docs == (FilesOf { sel: within(t.docs) as usize, ..t.docs }) && on(
                WheelSpot::Row,
            ).files == t.files
            &&& t.view.page is Files && t.files.open == Some(e) ==> on(WheelSpot::Body).files == (
            FilesOf { open: Some(scrolls), ..t.files }) && on(WheelSpot::Body).docs == t.docs
            &&& t.view.page is Docs && t.docs.open == Some(e) ==> on(WheelSpot::Body).docs == (
            FilesOf { open: Some(scrolls), ..t.docs }) && on(WheelSpot::Body).files == t.files
        }),
{
}

/// Over a diff the wheel scrolls it: the page of the diff, or the one beside
/// the history. Over the containers it moves their cursor.
pub proof fn the_wheel_scrolls_a_diff_and_the_containers(
    t: Turned,
    delta: isize,
    counts: crate::bench::Counts,
    machines: usize,
    refs: usize,
    help_max: usize,
    body: DiffViewModel,
)
    requires
        delta == 1 || delta == -1,
        0 < t.docker.sel < usize::MAX,
    ensures
        ({
            let on = |spot: WheelSpot| turned(t, spot, delta, counts, machines, refs, help_max).0;
            &&& t.view.page is Diff ==> on(WheelSpot::Body).diff == (crate::git::DiffViewOf {
                steps: t.diff.steps.push(DiffStep::Scroll(delta)),
                ..t.diff
            })
            &&& t.view.page is Git && t.git.body == Some(body) ==> on(WheelSpot::Body).git == (
            GitOf {
                body: Some(
                    crate::git::DiffViewOf {
                        steps: body.steps.push(DiffStep::Scroll(delta)),
                        ..body
                    },
                ),
                ..t.git
            })
            &&& t.view.page is Docker ==> on(WheelSpot::Row).docker == (Docker {
                sel: (t.docker.sel + delta) as usize,
                ..t.docker
            })
        }),
{
}

} // verus!
