//! What a key, a paste or the mouse does: to the screen, to the pane on the
//! stage, and to the selection that is being dragged.
use vstd::prelude::*;

use crate::bench::{
    alt_binding, alt_bound, bound_to, clone_bound, handle_layout_key, layout_flow, mac_option,
    move_sel, moved, row_of, run_bound, run_view, selected_flow, selection, stage_selected,
    uncomposed, viewed, Bound, BoundModel, Counts, ViewVerb,
};
use crate::click::{
    bar_clicked, clicked, docker_clicked, fleet_click, fleet_clicked, fleet_menu, fleet_menu_on,
    menu_for, menu_of, menu_on, menu_target, page_bar_click, page_click, page_wheel, run_click,
    tree_clicked, turned, FleetHit, PageTarget, Target, Turned, WheelSpot,
};
use crate::git::{
    diff_key, git_click, git_clicked, git_key, handle_diff_key, handle_git_key, refs_model, DiffView,
    DiffViewModel, Git, GitFooters, GitModel, GitTarget, RefRow, Verb,
};
use crate::menu::MenuTexts;
use crate::overlay::{
    close_question, close_workspace_confirm, handle_overlay_key, line_of, line_typed, on_no,
    overlay_clicked, overlay_key, overlay_mouse, prompt_line, search_line, typing_puts_the_text_at_the_cursor,
};
use crate::pages::{
    docker_key, editor_asked, files_key, fleet_flow, handle_docker_key, handle_files_key,
    handle_fleet_key, handle_help_key, handle_rail_key, handle_usage_key, help_click, help_key,
    rail_flow, rows_fit, usage_key, Docker, DockerRow, EditMode, EditorStep, EditorStepOf, Files,
    FilesModel, FilesOf, Help, RailVerbs, Stack, Usage,
};
use crate::project::{
    changes_key, diff_at, diff_under_cursor, handle_changes_key, Workspace,
};
use crate::roster::{
    active_daemon, active_workspace, all_agent_rows, all_tabs, counted, daemon_of, fleet,
    rail_counts, tab_index, workspace_of, Daemon,
};
use crate::settings::{
    handle_settings_key, settings_click, settings_clicked, settings_key, Settings, SettingsGroup,
    SettingsTarget,
};
use crate::text::{as_one_line, cat, chars_of, one_line};
use crate::types::{
    Bench, BenchModel, BenchOf, Flow, FlowModel, FlowOf, Focus, KeyCode,
    KeyEvent, MouseButton, MouseEvent, MouseKind, OverlayOf, Page, PromptOverlay, PromptOverlayModel,
    SearchHitModel, SearchOverlay, SearchOverlayModel, SearchOverlayOf,
};

verus! {

/// Something for the pane on the stage. Places are counted from its corner.
#[verifier::ext_equal]
#[derive(Clone, Debug, PartialEq, Eq)]
pub enum PaneInputOf<S> {
    Key(KeyEvent),
    Paste(S),
    MouseDown { x: u16, y: u16, alt: bool, right: bool },
    MouseDrag { x: u16, y: u16, alt: bool },
    MouseUp { x: u16, y: u16 },
    ScrollUp { x: u16, y: u16 },
    ScrollDown { x: u16, y: u16 },
}

pub type PaneInput = PaneInputOf<String>;

pub type PaneInputModel = PaneInputOf<Seq<char>>;

impl View for PaneInputOf<String> {
    type V = PaneInputOf<Seq<char>>;

    open spec fn view(&self) -> PaneInputOf<Seq<char>> {
        match *self {
            PaneInputOf::Key(k) => PaneInputOf::Key(k),
            PaneInputOf::Paste(t) => PaneInputOf::Paste(t@),
            PaneInputOf::MouseDown { x, y, alt, right } => PaneInputOf::MouseDown {
                x,
                y,
                alt,
                right,
            },
            PaneInputOf::MouseDrag { x, y, alt } => PaneInputOf::MouseDrag { x, y, alt },
            PaneInputOf::MouseUp { x, y } => PaneInputOf::MouseUp { x, y },
            PaneInputOf::ScrollUp { x, y } => PaneInputOf::ScrollUp { x, y },
            PaneInputOf::ScrollDown { x, y } => PaneInputOf::ScrollDown { x, y },
        }
    }
}

/// What an optional message to the pane is.
pub open spec fn opt_input(i: Option<PaneInput>) -> Option<PaneInputModel> {
    match i {
        Some(i) => Some(i@),
        None => None,
    }
}

/// What becomes of the selection that is being dragged.
#[derive(Clone, Copy, Debug, PartialEq, Eq, Structural)]
pub enum DragStep {
    Keep,
    Clear,
    Press { x: u16, y: u16 },
    To { x: u16, y: u16 },
}

/// What an input asks for: of the event loop, of the pane on the stage, and of
/// the selection.
#[verifier::ext_equal]
#[derive(Clone, Debug, PartialEq, Eq)]
pub struct OutcomeOf<S> {
    pub flow: FlowOf<S>,
    pub sent: Option<PaneInputOf<S>>,
    pub drag: DragStep,
}

pub type Outcome = OutcomeOf<String>;

pub type OutcomeModel = OutcomeOf<Seq<char>>;

impl View for OutcomeOf<String> {
    type V = OutcomeOf<Seq<char>>;

    open spec fn view(&self) -> OutcomeOf<Seq<char>> {
        OutcomeOf { flow: self.flow@, sent: opt_input(self.sent), drag: self.drag }
    }
}

/// An outcome that asks the event loop for something and nothing else.
pub open spec fn only(flow: FlowModel) -> OutcomeModel {
    OutcomeOf { flow, sent: None, drag: DragStep::Keep }
}

/// An outcome that asks the event loop for something, and does something to
/// the selection.
pub open spec fn with_drag(flow: FlowModel, drag: DragStep) -> OutcomeModel {
    OutcomeOf { flow, sent: None, drag }
}

fn just(flow: Flow) -> (o: Outcome)
    ensures
        o@ == only(flow@),
{
    OutcomeOf { flow, sent: None, drag: DragStep::Keep }
}

fn dragged(flow: Flow, drag: DragStep) -> (o: Outcome)
    ensures
        o@ == with_drag(flow@, drag),
{
    OutcomeOf { flow, sent: None, drag }
}

/// Something that came from the terminal.
#[verifier::ext_equal]
#[derive(Clone, Debug, PartialEq, Eq)]
pub enum InputOf<S> {
    Resize { cols: u16, rows: u16 },
    Paste(S),
    Mouse(MouseEvent),
    Key(KeyEvent),
    Other,
}

pub type Input = InputOf<String>;

pub type InputModel = InputOf<Seq<char>>;

impl View for InputOf<String> {
    type V = InputOf<Seq<char>>;

    open spec fn view(&self) -> InputOf<Seq<char>> {
        match *self {
            InputOf::Resize { cols, rows } => InputOf::Resize { cols, rows },
            InputOf::Paste(t) => InputOf::Paste(t@),
            InputOf::Mouse(m) => InputOf::Mouse(m),
            InputOf::Key(k) => InputOf::Key(k),
            InputOf::Other => InputOf::Other,
        }
    }
}

/// Everything on the screen that an input can change.
#[derive(Clone, Debug, PartialEq, Eq)]
pub struct Desk {
    pub view: Bench,
    pub files: Files,
    pub docs: Files,
    pub diff: DiffView,
    pub docker: Docker,
    pub git: Git,
    pub settings: Settings,
    pub help: Help,
    pub usage: Usage,
    pub cols: u16,
    pub rows: u16,
}

/// What is on the screen.
#[verifier::ext_equal]
pub struct DeskModel {
    pub view: BenchModel,
    pub files: FilesModel,
    pub docs: FilesModel,
    pub diff: DiffViewModel,
    pub docker: Docker,
    pub git: GitModel,
    pub settings: Settings,
    pub help: Help,
    pub usage: Usage,
    pub cols: u16,
    pub rows: u16,
}

impl View for Desk {
    type V = DeskModel;

    open spec fn view(&self) -> DeskModel {
        DeskModel {
            view: self.view@,
            files: self.files@,
            docs: self.docs@,
            diff: self.diff@,
            docker: self.docker,
            git: self.git@,
            settings: self.settings,
            help: self.help,
            usage: self.usage,
            cols: self.cols,
            rows: self.rows,
        }
    }
}

/// The key that arms a binding, and what the keys after it are bound to. The
/// first binding of a key is the one that holds.
#[derive(Clone, Debug, PartialEq, Eq)]
pub struct Keymap {
    pub prefix: KeyEvent,
    pub bindings: Vec<(KeyEvent, Bound)>,
}

/// What a key is bound to.
pub open spec fn binding_of(bindings: Seq<(KeyEvent, Bound)>, k: KeyEvent) -> Option<BoundModel>
    decreases bindings.len(),
{
    if bindings.len() == 0 {
        None
    } else if bindings[0].0 == k {
        Some(bindings[0].1@)
    } else {
        binding_of(bindings.skip(1), k)
    }
}

impl Keymap {
    /// What a key is bound to.
    pub fn resolve(&self, k: KeyEvent) -> (r: Option<Bound>)
        ensures
            match r {
                Some(b) => binding_of(self.bindings@, k) == Some(b@),
                None => binding_of(self.bindings@, k) is None,
            },
    {
        let mut i: usize = 0;
        assert(self.bindings@.skip(0) =~= self.bindings@);
        while i < self.bindings.len()
            invariant
                i <= self.bindings@.len(),
                binding_of(self.bindings@.skip(i as int), k) == binding_of(self.bindings@, k),
            decreases self.bindings@.len() - i,
        {
            assert(self.bindings@.skip(i as int)[0] == self.bindings@[i as int]);
            assert(self.bindings@.skip(i as int).skip(1) =~= self.bindings@.skip(i as int + 1));
            if self.bindings[i].0 == k {
                return Some(clone_bound(&self.bindings[i].1));
            }
            i = i + 1;
        }
        None
    }
}

/// What the handling of an input has to know besides the screen: whether there
/// is a pane on the stage and whether its program reads the mouse, the bindings
/// and how the key that was pressed is called, whether a composed character
/// stands for a key with the option key held and which, and what the pages
/// show.
#[derive(Clone, Debug, PartialEq, Eq)]
pub struct Around {
    pub stage: bool,
    pub wants_mouse: bool,
    pub keymap: Keymap,
    pub key_label: String,
    pub option_as_alt: bool,
    pub options: Vec<(char, char)>,
    pub verbs: RailVerbs,
    pub footers: GitFooters,
    pub row_verbs: Vec<Verb>,
    pub refs: Vec<RefRow>,
    pub list_rows: u16,
    pub stacks: Vec<Stack>,
    pub docker_rows: Vec<DockerRow>,
    pub groups: Vec<SettingsGroup>,
    pub topics: usize,
    pub help_max: usize,
    pub help_height: u16,
    pub menus: MenuTexts,
}

/// What lies under the pointer: of a box, of the list of all agents, whether
/// it is the tab bar or the footer, of the bars, rails and stage, the same for
/// the wheel, and of each page.
#[derive(Clone, Copy, Debug, PartialEq, Eq, Structural)]
pub struct Under {
    pub overlay_row: Option<usize>,
    pub fleet: Option<FleetHit>,
    pub bar: bool,
    pub target: Target,
    pub wheel_target: Target,
    pub spot: WheelSpot,
    pub settings: SettingsTarget,
    pub topic: Option<usize>,
    pub git: GitTarget,
    pub page: PageTarget,
}

/// Whether the handling of an input can go by what it is told: a machine has a
/// name where there are several, every row of the container page belongs to a
/// stack, and the help has topics, of which one is showing.
pub open spec fn fits(
    desk: DeskModel,
    around: Around,
    daemons: Seq<Daemon>,
    hosts: Seq<Option<String>>,
) -> bool {
    &&& daemons.len() > 1 ==> daemons.len() <= hosts.len()
    &&& rows_fit(around.docker_rows@, around.stacks@)
    &&& around.topics > 0
    &&& desk.help.topic + around.topics < usize::MAX
}

/// What becomes of the view, the flow and whether the key goes to the pane,
/// where a key is the prefix or comes after it. The prefix pressed twice goes
/// to the pane.
pub open spec fn prefixed(k: KeyEvent, v: BenchModel, keymap: Keymap, label: Seq<char>) -> Option<
    (BenchModel, FlowModel, bool),
> {
    if k.code is Other {
        None
    } else if !v.prefix_armed {
        if k != keymap.prefix {
            None
        } else {
            Some((BenchOf { prefix_armed: true, ..v }, FlowOf::Continue, false))
        }
    } else {
        let v = BenchOf { prefix_armed: false, ..v };
        if k == keymap.prefix {
            Some((v, FlowOf::Continue, true))
        } else {
            match binding_of(keymap.bindings@, k) {
                Some(b) => {
                    let after = bound_to(b, v);
                    Some((after.0, after.1, false))
                },
                None => Some(
                    (
                        BenchOf { flash: Some(label + " is not bound"@), ..v },
                        FlowOf::Continue,
                        false,
                    ),
                ),
            }
        }
    }
}

/// Handles a key where it is the prefix or comes after it: what it asks for,
/// and whether it goes to the pane.
pub fn handle_prefix(k: KeyEvent, view: &mut Bench, keymap: &Keymap, label: &str) -> (r: Option<
    (Flow, bool),
>)
    ensures
        match r {
            Some((f, sent)) => prefixed(k, old(view)@, *keymap, label@) == Some(
                (final(view)@, f@, sent),
            ),
            None => prefixed(k, old(view)@, *keymap, label@) is None && final(view)@ == old(view)@,
        },
{
    if k.code == KeyCode::Other {
        return None;
    }
    if !view.prefix_armed {
        if k != keymap.prefix {
            return None;
        }
        view.prefix_armed = true;
        return Some((Flow::Continue, false));
    }
    view.prefix_armed = false;
    if k == keymap.prefix {
        return Some((Flow::Continue, true));
    }
    match keymap.resolve(k) {
        Some(b) => Some((run_bound(b, view), false)),
        None => {
            view.flash = Some(cat(label, " is not bound"));
            Some((Flow::Continue, false))
        },
    }
}

/// The prefix and a key after it: the first press arms and does nothing else,
/// the second acts and disarms, whatever it is.
pub proof fn a_binding_is_armed_for_one_key(
    k: KeyEvent,
    v: BenchModel,
    keymap: Keymap,
    label: Seq<char>,
)
    requires
        keymap.prefix.code !is Other,
        k.code !is Other,
        !v.prefix_armed,
    ensures
        prefixed(keymap.prefix, v, keymap, label) == Some(
            (BenchOf { prefix_armed: true, ..v }, FlowOf::<Seq<char>>::Continue, false),
        ),
        ({
            let armed = BenchOf { prefix_armed: true, ..v };
            prefixed(k, armed, keymap, label) matches Some((after, _, sent)) && !after.prefix_armed
                && (sent <==> k == keymap.prefix)
        }),
{
}

/// What a key does on a page with a tree.
pub open spec fn tree_step(k: KeyEvent, d: DeskModel) -> (DeskModel, Option<FlowModel>) {
    if d.view.page is Docs {
        let after = files_key(k, d.view, d.docs);
        (DeskModel { view: after.0, docs: after.1, ..d }, after.2)
    } else if d.view.page is Files {
        let after = files_key(k, d.view, d.files);
        (DeskModel { view: after.0, files: after.1, ..d }, after.2)
    } else {
        (d, None)
    }
}

/// What a key does on the agents page: the changes take it before the rails.
pub open spec fn agents_step(
    k: KeyEvent,
    d: DeskModel,
    ws: Option<&Workspace>,
    counts: Counts,
    verbs: RailVerbs,
) -> (DeskModel, Option<FlowModel>) {
    if d.view.page is Agents {
        let (view, flow) = if d.view.focus is Changes {
            changes_key(k, d.view, ws)
        } else {
            (d.view, None)
        };
        let after = DeskModel { view, ..d };
        match flow {
            Some(f) => (after, Some(f)),
            None => (
                after,
                rail_flow(
                    k,
                    view.focus,
                    if view.focus is Agents {
                        counts.agents
                    } else {
                        counts.procs
                    },
                    view.pinned_agent is Some,
                    verbs,
                ),
            ),
        }
    } else {
        (d, None)
    }
}

/// What a key does on a page that is neither a tree nor the agents.
pub open spec fn own_step(k: KeyEvent, d: DeskModel, counts: Counts, around: Around) -> (
    DeskModel,
    Option<FlowModel>,
) {
    match d.view.page {
        Page::Booth => (d, fleet_flow(k, d.view.focus, counts.all_agents)),
        Page::Settings => {
            let after = settings_key(
                k,
                d.view,
                d.settings.place(),
                d.settings.ret,
                around.groups@,
            );
            (DeskModel { view: after.0, settings: d.settings.at(after.1), ..d }, after.2)
        },
        Page::Help => {
            let after = help_key(k, d.help, around.topics, around.help_max, around.help_height);
            (DeskModel { help: after.0, ..d }, after.1)
        },
        Page::Usage => {
            let after = usage_key(k, d.usage);
            (DeskModel { usage: after.0, ..d }, after.1)
        },
        Page::Docker => {
            let after = docker_key(k, d.view, d.docker, around.stacks@, around.docker_rows@);
            (DeskModel { view: after.0, docker: after.1, ..d }, after.2)
        },
        Page::Git => {
            let after = git_key(
                k,
                d.view,
                d.git,
                refs_model(around.refs@),
                around.list_rows,
                around.footers,
            );
            (DeskModel { view: after.0, git: after.1, ..d }, after.2)
        },
        Page::Diff => {
            let after = diff_key(k, d.view, d.diff);
            (DeskModel { view: after.0, diff: after.1, ..d }, after.2)
        },
        _ => (d, None),
    }
}

/// What a key does on the page that is showing.
pub open spec fn page_step(
    k: KeyEvent,
    d: DeskModel,
    ws: Option<&Workspace>,
    counts: Counts,
    around: Around,
) -> (DeskModel, Option<FlowModel>) {
    let (d, flow) = tree_step(k, d);
    if flow is Some {
        (d, flow)
    } else {
        let (d, flow) = agents_step(k, d, ws, counts, around.verbs);
        if flow is Some {
            (d, flow)
        } else {
            own_step(k, d, counts, around)
        }
    }
}

proof fn a_tree_stays(k: KeyEvent, v: BenchModel, f: FilesModel)
    requires
        files_key(k, v, f).2 is None,
    ensures
        files_key(k, v, f).0.page == v.page,
{
}

proof fn the_changes_stay(k: KeyEvent, v: BenchModel, ws: Option<&Workspace>)
    requires
        changes_key(k, v, ws).1 is None,
    ensures
        changes_key(k, v, ws).0.page == v.page,
{
}

proof fn the_settings_stay(
    k: KeyEvent,
    v: BenchModel,
    p: crate::settings::Place,
    ret: Page,
    groups: Seq<SettingsGroup>,
)
    requires
        settings_key(k, v, p, ret, groups).2 is None,
    ensures
        settings_key(k, v, p, ret, groups).0.page == v.page,
{
}

proof fn the_containers_stay(
    k: KeyEvent,
    v: BenchModel,
    d: Docker,
    stacks: Seq<Stack>,
    rows: Seq<DockerRow>,
)
    requires
        docker_key(k, v, d, stacks, rows).2 is None,
    ensures
        docker_key(k, v, d, stacks, rows).0.page == v.page,
{
}

proof fn the_git_page_stays(
    k: KeyEvent,
    v: BenchModel,
    g: GitModel,
    refs: Seq<crate::git::RefRowModel>,
    rows: u16,
    footers: GitFooters,
)
    requires
        git_key(k, v, g, refs, rows, footers).2 is None,
    ensures
        git_key(k, v, g, refs, rows, footers).0.page == v.page,
{
}

proof fn the_diff_stays(k: KeyEvent, v: BenchModel, d: DiffViewModel)
    requires
        diff_key(k, v, d).2 is None,
    ensures
        diff_key(k, v, d).0.page == v.page,
{
}

/// A key that a page does not take leaves that page showing.
pub proof fn a_key_that_is_not_taken_turns_no_page(
    k: KeyEvent,
    d: DeskModel,
    ws: Option<&Workspace>,
    counts: Counts,
    around: Around,
)
    requires
        page_step(k, d, ws, counts, around).1 is None,
    ensures
        page_step(k, d, ws, counts, around).0.view.page == d.view.page,
{
    if d.view.page is Docs {
        a_tree_stays(k, d.view, d.docs);
    } else if d.view.page is Files {
        a_tree_stays(k, d.view, d.files);
    }
    let (d1, _) = tree_step(k, d);
    if d1.view.page is Agents && d1.view.focus is Changes {
        the_changes_stay(k, d1.view, ws);
    }
    let (d2, _) = agents_step(k, d1, ws, counts, around.verbs);
    match d2.view.page {
        Page::Settings => the_settings_stay(
            k,
            d2.view,
            d2.settings.place(),
            d2.settings.ret,
            around.groups@,
        ),
        Page::Docker => the_containers_stay(
            k,
            d2.view,
            d2.docker,
            around.stacks@,
            around.docker_rows@,
        ),
        Page::Git => the_git_page_stays(
            k,
            d2.view,
            d2.git,
            refs_model(around.refs@),
            around.list_rows,
            around.footers,
        ),
        Page::Diff => the_diff_stays(k, d2.view, d2.diff),
        _ => {},
    }
}

proof fn a_tree_does_not_detach(k: KeyEvent, v: BenchModel, f: FilesModel)
    ensures
        files_key(k, v, f).2 != Some(FlowOf::<Seq<char>>::Detach),
{
}

proof fn the_agents_page_does_not_detach(
    k: KeyEvent,
    d: DeskModel,
    ws: Option<&Workspace>,
    counts: Counts,
    verbs: RailVerbs,
)
    ensures
        agents_step(k, d, ws, counts, verbs).1 != Some(FlowOf::<Seq<char>>::Detach),
{
}

proof fn the_git_page_does_not_detach(
    k: KeyEvent,
    v: BenchModel,
    g: GitModel,
    refs: Seq<crate::git::RefRowModel>,
    rows: u16,
    footers: GitFooters,
)
    ensures
        git_key(k, v, g, refs, rows, footers).2 != Some(FlowOf::<Seq<char>>::Detach),
{
}

proof fn a_page_of_its_own_does_not_detach(k: KeyEvent, d: DeskModel, counts: Counts, around: Around)
    ensures
        own_step(k, d, counts, around).1 != Some(FlowOf::<Seq<char>>::Detach),
{
    if d.view.page is Git {
        the_git_page_does_not_detach(
            k,
            d.view,
            d.git,
            refs_model(around.refs@),
            around.list_rows,
            around.footers,
        );
    }
}

/// No key of a page's own leaves the client: to close a page is never to
/// detach.
pub proof fn closing_a_page_never_detaches(
    k: KeyEvent,
    d: DeskModel,
    ws: Option<&Workspace>,
    counts: Counts,
    around: Around,
)
    ensures
        page_step(k, d, ws, counts, around).1 != Some(FlowOf::<Seq<char>>::Detach),
{
    a_tree_does_not_detach(k, d.view, d.docs);
    a_tree_does_not_detach(k, d.view, d.files);
    let (after, _) = tree_step(k, d);
    the_agents_page_does_not_detach(k, after, ws, counts, around.verbs);
    let (after, _) = agents_step(k, after, ws, counts, around.verbs);
    a_page_of_its_own_does_not_detach(k, after, counts, around);
}

/// Where the tab key takes the keyboard.
pub open spec fn next_focus(focus: Focus) -> Focus {
    match focus {
        Focus::Refs | Focus::History => Focus::Stage,
        Focus::Agents => Focus::Processes,
        Focus::Processes => Focus::Changes,
        Focus::Changes | Focus::AllAgents => Focus::Stage,
        Focus::Stage => Focus::Agents,
    }
}

/// What a key does that no page took, where the keyboard is not on the stage.
pub open spec fn common_key(
    k: KeyEvent,
    v: BenchModel,
    daemons: Seq<Daemon>,
    hosts: Seq<Option<String>>,
    counts: Counts,
    menus: MenuTexts,
) -> (BenchModel, FlowModel) {
    let ws = match workspace_of(daemons, v.tab) {
        Some(w) => Some(&w),
        None => None,
    };
    let go = FlowOf::<Seq<char>>::Continue;
    match k.code {
        KeyCode::Char('q') => (v, FlowOf::Detach),
        KeyCode::Char('?') => viewed(ViewVerb::Help, v),
        KeyCode::Char('a') => (v, FlowOf::NewAgent),
        KeyCode::Char('A') => (v, FlowOf::PickAgent),
        KeyCode::Char('b') => (v, FlowOf::PickBranch),
        KeyCode::Char('/') => viewed(ViewVerb::Search, v),
        KeyCode::Char('f') => (v, FlowOf::PickLinks),
        KeyCode::Char('g') => (v, FlowOf::GitMenu),
        KeyCode::Char('m') => (
            if v.page is Booth && v.focus is AllAgents {
                BenchOf {
                    overlay: menu_of(fleet_menu_on(fleet(daemons, hosts), v.all_agents_sel), menus),
                    ..v
                }
            } else {
                let on = menu_on(
                    match v.focus {
                        Focus::Agents => Target::Rail(Focus::Agents, v.agent_sel),
                        Focus::Processes => Target::Rail(Focus::Processes, v.proc_sel),
                        _ => Target::Tab(v.tab),
                    },
                    ws,
                    daemons,
                    hosts,
                    daemon_of(daemons, v.tab),
                );
                match menu_of(on, menus) {
                    Some(menu) => BenchOf { overlay: Some(menu), ..v },
                    None => v,
                }
            },
            go,
        ),
        KeyCode::Char('n') => (
            v,
            FlowOf::Browse(
                match ws {
                    Some(w) => w.cwd@,
                    None => Seq::empty(),
                },
            ),
        ),
        KeyCode::Char('X') => (
            match ws {
                Some(w) => BenchOf { overlay: Some(close_question(w.id, w.name@)), ..v },
                None => v,
            },
            go,
        ),
        KeyCode::Tab => (BenchOf { focus: next_focus(v.focus), ..v }, go),
        KeyCode::Enter => match v.focus {
            Focus::Changes => (
                v,
                match diff_at(ws, v.changes_sel) {
                    Some(kind) => FlowOf::OpenDiff { kind, keep_cursor: false },
                    None => go,
                },
            ),
            Focus::Agents | Focus::Processes | Focus::AllAgents => (
                v,
                selected_flow(v.focus, v.page, row_of(v, v.focus)),
            ),
            _ => (BenchOf { focus: Focus::Stage, ..v }, go),
        },
        KeyCode::Down => (moved(v, counts, 1), go),
        KeyCode::Char('j') => (moved(v, counts, 1), go),
        KeyCode::Up => (moved(v, counts, -1), go),
        KeyCode::Char('k') => (moved(v, counts, -1), go),
        _ => (v, go),
    }
}

/// Handles a key that no page took, where the keyboard is not on the stage.
pub fn handle_common_key(
    k: KeyEvent,
    view: &mut Bench,
    daemons: &Vec<Daemon>,
    hosts: &Vec<Option<String>>,
    counts: Counts,
    menus: &MenuTexts,
) -> (f: Flow)
    requires
        daemons@.len() > 1 ==> daemons@.len() <= hosts@.len(),
    ensures
        (final(view)@, f@) == common_key(k, old(view)@, daemons@, hosts@, counts, *menus),
{
    match k.code {
        KeyCode::Char('q') => Flow::Detach,
        KeyCode::Char('?') => run_view(ViewVerb::Help, view),
        KeyCode::Char('a') => Flow::NewAgent,
        KeyCode::Char('A') => Flow::PickAgent,
        KeyCode::Char('b') => Flow::PickBranch,
        KeyCode::Char('/') => run_view(ViewVerb::Search, view),
        KeyCode::Char('f') => Flow::PickLinks,
        KeyCode::Char('g') => Flow::GitMenu,
        KeyCode::Char('m') => {
            if view.page == Page::Booth && view.focus == Focus::AllAgents {
                let all = all_agent_rows(daemons, hosts);
                view.overlay = fleet_menu(&all, view.all_agents_sel, menus);
            } else {
                let ws = active_workspace(daemons, hosts, view);
                let here: usize = active_daemon(daemons, hosts, view);
                let menu = menu_for(menu_target(view), ws, daemons, hosts, here, menus);
                if menu.is_some() {
                    view.overlay = menu;
                }
            }
            Flow::Continue
        },
        KeyCode::Char('n') => match active_workspace(daemons, hosts, view) {
            Some(w) => Flow::Browse(w.cwd.clone()),
            None => Flow::Browse(String::new()),
        },
        KeyCode::Char('X') => {
            if let Some(w) = active_workspace(daemons, hosts, view) {
                view.overlay = Some(close_workspace_confirm(w.id, &w.name));
            }
            Flow::Continue
        },
        KeyCode::Tab => {
            view.focus = match view.focus {
                Focus::Refs | Focus::History => Focus::Stage,
                Focus::Agents => Focus::Processes,
                Focus::Processes => Focus::Changes,
                Focus::Changes | Focus::AllAgents => Focus::Stage,
                Focus::Stage => Focus::Agents,
            };
            Flow::Continue
        },
        KeyCode::Enter => match view.focus {
            Focus::Changes => {
                let ws = active_workspace(daemons, hosts, view);
                match diff_under_cursor(ws, view.changes_sel) {
                    Some(kind) => Flow::OpenDiff { kind, keep_cursor: false },
                    None => Flow::Continue,
                }
            },
            Focus::Agents | Focus::Processes | Focus::AllAgents => stage_selected(
                view.focus,
                view.page,
                selection(view, view.focus),
            ),
            _ => {
                view.focus = Focus::Stage;
                Flow::Continue
            },
        },
        KeyCode::Down | KeyCode::Char('j') => {
            move_sel(view, counts, 1);
            Flow::Continue
        },
        KeyCode::Up | KeyCode::Char('k') => {
            move_sel(view, counts, -1);
            Flow::Continue
        },
        _ => Flow::Continue,
    }
}

/// What a key does on the page that is showing, unless it is held with alt.
fn handle_page_key(
    k: KeyEvent,
    desk: &mut Desk,
    ws: Option<&Workspace>,
    counts: Counts,
    around: &Around,
) -> (r: Option<Flow>)
    requires
        rows_fit(around.docker_rows@, around.stacks@),
        around.topics > 0,
        old(desk)@.help.topic + around.topics < usize::MAX,
    ensures
        (final(desk)@, crate::types::opt_flow(r)) == page_step(
            k,
            old(desk)@,
            ws,
            counts,
            *around,
        ),
{
    let ghost start = desk@;
    if desk.view.page == Page::Docs {
        let flow = handle_files_key(k, &mut desk.view, &mut desk.docs);
        if flow.is_some() {
            return flow;
        }
    } else if desk.view.page == Page::Files {
        let flow = handle_files_key(k, &mut desk.view, &mut desk.files);
        if flow.is_some() {
            return flow;
        }
    }
    let ghost after_tree = desk@;
    assert(after_tree == tree_step(k, start).0);
    if desk.view.page == Page::Agents {
        if desk.view.focus == Focus::Changes {
            let flow = handle_changes_key(k, &mut desk.view, ws);
            if flow.is_some() {
                return flow;
            }
        }
        let rows: usize = if desk.view.focus == Focus::Agents {
            counts.agents
        } else {
            counts.procs
        };
        let pinned = desk.view.pinned_agent.is_some();
        let flow = handle_rail_key(k, desk.view.focus, rows, pinned, &around.verbs);
        if flow.is_some() {
            return flow;
        }
    }
    assert(desk@ == agents_step(k, after_tree, ws, counts, around.verbs).0);
    match desk.view.page {
        Page::Booth => handle_fleet_key(k, &desk.view, counts.all_agents),
        Page::Settings => handle_settings_key(
            k,
            &mut desk.view,
            &mut desk.settings,
            &around.groups,
        ),
        Page::Help => handle_help_key(
            k,
            &mut desk.help,
            around.topics,
            around.help_max,
            around.help_height,
        ),
        Page::Usage => handle_usage_key(k, &mut desk.usage),
        Page::Docker => handle_docker_key(
            k,
            &mut desk.view,
            &mut desk.docker,
            &around.stacks,
            &around.docker_rows,
        ),
        Page::Git => handle_git_key(
            k,
            &mut desk.view,
            &mut desk.git,
            &around.refs,
            around.list_rows,
            &around.footers,
        ),
        Page::Diff => handle_diff_key(k, &mut desk.view, &mut desk.diff),
        _ => None,
    }
}

/// What a key goes to the pane on the stage as.
pub open spec fn typed(k: KeyEvent, stage: bool) -> Option<PaneInputModel> {
    if stage && k.code !is Other {
        Some(PaneInputOf::Key(k))
    } else {
        None
    }
}

/// What a key does that is not the box's, the prefix's or the layout's: the
/// page hears it first, then the bindings with alt, then the pane where the
/// keyboard is on the stage, then everything else.
pub open spec fn open_key(
    k: KeyEvent,
    d: DeskModel,
    daemons: Seq<Daemon>,
    hosts: Seq<Option<String>>,
    counts: Counts,
    around: Around,
) -> (DeskModel, OutcomeModel) {
    let ws = match workspace_of(daemons, d.view.tab) {
        Some(w) => Some(&w),
        None => None,
    };
    let (d, flow) = if k.alt {
        let after = alt_bound(k.code, d.view);
        (DeskModel { view: after.0, ..d }, after.1)
    } else {
        page_step(k, d, ws, counts, around)
    };
    match flow {
        Some(f) => (d, only(f)),
        None => if d.view.focus is Stage && d.view.page.draws_stage() {
            (
                d,
                OutcomeOf {
                    flow: FlowOf::Continue,
                    sent: typed(k, around.stage),
                    drag: DragStep::Keep,
                },
            )
        } else if k.ctrl || k.alt {
            (d, only(FlowOf::Continue))
        } else {
            let after = common_key(k, d.view, daemons, hosts, counts, around.menus);
            (DeskModel { view: after.0, ..d }, only(after.1))
        },
    }
}

/// What a key does. A box that is open has it; then the prefix, then the
/// layout while it is being changed.
pub open spec fn keyed(
    k: KeyEvent,
    d: DeskModel,
    daemons: Seq<Daemon>,
    hosts: Seq<Option<String>>,
    around: Around,
) -> (DeskModel, OutcomeModel) {
    let k = if around.option_as_alt {
        uncomposed(k, around.options@)
    } else {
        k
    };
    let counts = counted(daemons, hosts, d.view.tab);
    if d.view.overlay is Some {
        let after = overlay_key(k, d.view);
        (DeskModel { view: after.0, ..d }, only(after.1))
    } else {
        match prefixed(k, d.view, around.keymap, around.key_label@) {
            Some((view, flow, sent)) => (
                DeskModel { view, ..d },
                OutcomeOf {
                    flow,
                    sent: if sent {
                        typed(k, around.stage)
                    } else {
                        None
                    },
                    drag: DragStep::Keep,
                },
            ),
            None => if d.view.layout && !k.alt {
                (d, only(layout_flow(k, d.view.focus)))
            } else {
                open_key(k, d, daemons, hosts, counts, around)
            },
        }
    }
}

fn handle_open_key(
    k: KeyEvent,
    desk: &mut Desk,
    daemons: &Vec<Daemon>,
    hosts: &Vec<Option<String>>,
    counts: Counts,
    around: &Around,
) -> (o: Outcome)
    requires
        fits(old(desk)@, *around, daemons@, hosts@),
    ensures
        (final(desk)@, o@) == open_key(k, old(desk)@, daemons@, hosts@, counts, *around),
{
    let flow = if k.alt {
        alt_binding(k.code, &mut desk.view)
    } else {
        let ws = active_workspace(daemons, hosts, &desk.view);
        handle_page_key(k, desk, ws, counts, around)
    };
    match flow {
        Some(f) => just(f),
        None => {
            if desk.view.focus == Focus::Stage && desk.view.page.draws_stage() {
                let sent = if around.stage && k.code != KeyCode::Other {
                    Some(PaneInput::Key(k))
                } else {
                    None
                };
                OutcomeOf { flow: Flow::Continue, sent, drag: DragStep::Keep }
            } else if k.ctrl || k.alt {
                just(Flow::Continue)
            } else {
                just(
                    handle_common_key(
                        k,
                        &mut desk.view,
                        daemons,
                        hosts,
                        counts,
                        &around.menus,
                    ),
                )
            }
        },
    }
}

/// Handles a key.
pub fn handle_key(
    k: KeyEvent,
    desk: &mut Desk,
    daemons: &Vec<Daemon>,
    hosts: &Vec<Option<String>>,
    around: &Around,
) -> (o: Outcome)
    requires
        fits(old(desk)@, *around, daemons@, hosts@),
    ensures
        (final(desk)@, o@) == keyed(k, old(desk)@, daemons@, hosts@, *around),
{
    let k = if around.option_as_alt {
        mac_option(k, &around.options)
    } else {
        k
    };
    let counts = rail_counts(daemons, hosts, &desk.view);
    if desk.view.overlay.is_some() {
        return just(handle_overlay_key(k, &mut desk.view));
    }
    match handle_prefix(k, &mut desk.view, &around.keymap, around.key_label.as_str()) {
        Some((flow, sent)) => {
            let sent = if sent && around.stage {
                Some(PaneInput::Key(k))
            } else {
                None
            };
            OutcomeOf { flow, sent, drag: DragStep::Keep }
        },
        None => {
            if desk.view.layout && !k.alt {
                just(handle_layout_key(k, &desk.view))
            } else {
                handle_open_key(k, desk, daemons, hosts, counts, around)
            }
        },
    }
}

/// What the mouse goes to the pane on the stage as, at a place of it.
pub open spec fn forwarded(stage: bool, x: u16, y: u16, m: MouseEvent) -> Option<PaneInputModel> {
    if !stage {
        None
    } else {
        match m.kind {
            MouseKind::Down(MouseButton::Left) => Some(
                PaneInputOf::MouseDown { x, y, alt: m.alt, right: false },
            ),
            MouseKind::Down(MouseButton::Right) => Some(
                PaneInputOf::MouseDown { x, y, alt: m.alt, right: true },
            ),
            MouseKind::Drag(MouseButton::Left) => Some(
                PaneInputOf::MouseDrag { x, y, alt: m.alt },
            ),
            MouseKind::Up(MouseButton::Left) => Some(PaneInputOf::MouseUp { x, y }),
            MouseKind::ScrollUp => Some(PaneInputOf::ScrollUp { x, y }),
            MouseKind::ScrollDown => Some(PaneInputOf::ScrollDown { x, y }),
            _ => None,
        }
    }
}

/// What the mouse goes to the pane on the stage as, at a place of it.
pub fn forward_mouse(stage: bool, x: u16, y: u16, m: &MouseEvent) -> (r: Option<PaneInput>)
    ensures
        opt_input(r) == forwarded(stage, x, y, *m),
{
    if !stage {
        return None;
    }
    match m.kind {
        MouseKind::Down(MouseButton::Left) => Some(
            PaneInput::MouseDown { x, y, alt: m.alt, right: false },
        ),
        MouseKind::Down(MouseButton::Right) => Some(
            PaneInput::MouseDown { x, y, alt: m.alt, right: true },
        ),
        MouseKind::Drag(MouseButton::Left) => Some(PaneInput::MouseDrag { x, y, alt: m.alt }),
        MouseKind::Up(MouseButton::Left) => Some(PaneInput::MouseUp { x, y }),
        MouseKind::ScrollUp => Some(PaneInput::ScrollUp { x, y }),
        MouseKind::ScrollDown => Some(PaneInput::ScrollDown { x, y }),
        _ => None,
    }
}

/// What the mouse goes to the pane on the stage as, where it is over it.
pub open spec fn over_stage(target: Target, stage: bool, m: MouseEvent) -> Option<PaneInputModel> {
    match target {
        Target::Stage(x, y) => forwarded(stage, x, y, m),
        _ => None,
    }
}

fn forward_over(target: Target, stage: bool, m: &MouseEvent) -> (r: Option<PaneInput>)
    ensures
        opt_input(r) == over_stage(target, stage, *m),
{
    match target {
        Target::Stage(x, y) => forward_mouse(stage, x, y, m),
        _ => None,
    }
}

/// What a click on a row of a page of its own does.
pub open spec fn row_clicked(d: DeskModel, row: usize, around: Around) -> (DeskModel, FlowModel) {
    if d.view.page is Docs {
        let after = tree_clicked(d.view, d.docs, row);
        (DeskModel { view: after.0, docs: after.1, ..d }, after.2)
    } else if d.view.page is Files {
        let after = tree_clicked(d.view, d.files, row);
        (DeskModel { view: after.0, files: after.1, ..d }, after.2)
    } else {
        let after = docker_clicked(
            d.view,
            d.docker,
            around.stacks@,
            around.docker_rows@,
            row,
        );
        (DeskModel { view: after.0, docker: after.1, ..d }, after.2)
    }
}

/// A flow, or going on where there is none.
pub open spec fn or_go_on(flow: Option<FlowModel>) -> FlowModel {
    match flow {
        Some(f) => f,
        None => FlowOf::Continue,
    }
}

fn go_on(flow: Option<Flow>) -> (f: Flow)
    ensures
        f@ == or_go_on(crate::types::opt_flow(flow)),
{
    match flow {
        Some(f) => f,
        None => Flow::Continue,
    }
}

/// What a click of the left button does where no box is open: in the list of
/// all agents, on a page of its own, or on the bars, the rails and the stage.
/// A click on the stage goes to the pane too.
pub open spec fn left_clicked(
    m: MouseEvent,
    d: DeskModel,
    ws: Option<&Workspace>,
    tab_count: usize,
    around: Around,
    under: Under,
) -> (DeskModel, OutcomeModel) {
    let press = DragStep::Press { x: m.column, y: m.row };
    match under.fleet {
        Some(hit) => {
            let after = fleet_clicked(hit, d.view);
            (DeskModel { view: after.0, ..d }, with_drag(after.1, press))
        },
        None => match d.view.page {
            Page::Settings => if under.bar {
                let after = bar_clicked(
                    under.target,
                    d.view,
                    d.settings.ret,
                    tab_count,
                    ws,
                    around.verbs,
                );
                (DeskModel { view: after.0, ..d }, with_drag(after.1, DragStep::Clear))
            } else {
                let after = settings_clicked(under.settings, d.settings.place(), around.groups@);
                (
                    DeskModel { settings: d.settings.at(after.0), ..d },
                    with_drag(or_go_on(after.1), DragStep::Clear),
                )
            },
            Page::Help => if under.bar {
                let after = bar_clicked(
                    under.target,
                    d.view,
                    d.help.ret,
                    tab_count,
                    ws,
                    around.verbs,
                );
                (DeskModel { view: after.0, ..d }, with_drag(after.1, DragStep::Clear))
            } else {
                (
                    DeskModel {
                        help: match under.topic {
                            Some(t) => Help { topic: t, scroll: 0, ..d.help },
                            None => d.help,
                        },
                        ..d
                    },
                    with_drag(FlowOf::Continue, DragStep::Clear),
                )
            },
            Page::Git => if under.bar {
                let after = clicked(under.target, d.view, tab_count, ws, around.verbs);
                (DeskModel { view: after.0, ..d }, with_drag(after.1, DragStep::Clear))
            } else {
                let after = git_clicked(
                    under.git,
                    d.view,
                    d.git,
                    refs_model(around.refs@),
                    around.row_verbs@,
                    around.footers,
                );
                (
                    DeskModel { view: after.0, git: after.1, ..d },
                    with_drag(or_go_on(after.2), press),
                )
            },
            _ => match under.page {
                PageTarget::Row(row) => {
                    let after = row_clicked(d, row, around);
                    (after.0, with_drag(after.1, press))
                },
                PageTarget::Body => (
                    DeskModel { view: BenchOf { focus: Focus::Stage, ..d.view }, ..d },
                    with_drag(FlowOf::Continue, press),
                ),
                PageTarget::Find => {
                    let after = viewed(ViewVerb::Search, d.view);
                    (DeskModel { view: after.0, ..d }, with_drag(after.1, DragStep::Clear))
                },
                PageTarget::Nothing => {
                    let after = clicked(under.target, d.view, tab_count, ws, around.verbs);
                    (
                        DeskModel { view: after.0, ..d },
                        OutcomeOf {
                            flow: after.1,
                            sent: over_stage(under.target, around.stage, m),
                            drag: press,
                        },
                    )
                },
            },
        },
    }
}

/// What a click of the right button does where no box is open: it opens a menu
/// on what is under the pointer, where there is one.
pub open spec fn right_clicked(
    v: BenchModel,
    daemons: Seq<Daemon>,
    hosts: Seq<Option<String>>,
    ws: Option<&Workspace>,
    menus: MenuTexts,
    under: Under,
) -> BenchModel {
    match under.fleet {
        Some(hit) => {
            let sel = match hit {
                FleetHit::Row(sel) => sel,
                FleetHit::Open(sel) => sel,
            };
            BenchOf { overlay: menu_of(fleet_menu_on(fleet(daemons, hosts), sel), menus), ..v }
        },
        None => match menu_of(
            menu_on(under.target, ws, daemons, hosts, daemon_of(daemons, v.tab)),
            menus,
        ) {
            Some(menu) => BenchOf { overlay: Some(menu), ..v },
            None => v,
        },
    }
}

/// What a turn of the wheel does where no box is open: the page that is showing
/// takes it, then the rail under the pointer, then the pane; and anywhere else
/// it scrolls the pane back.
pub open spec fn wheeled(
    m: MouseEvent,
    d: DeskModel,
    daemons: Seq<Daemon>,
    hosts: Seq<Option<String>>,
    around: Around,
    under: Under,
) -> (DeskModel, OutcomeModel) {
    let delta: isize = if m.kind is ScrollDown {
        1
    } else {
        (-1) as isize
    };
    let counts = counted(daemons, hosts, d.view.tab);
    let (t, flow) = turned(
        Turned {
            view: d.view,
            files: d.files,
            docs: d.docs,
            diff: d.diff,
            docker: d.docker,
            git: d.git,
            help: d.help,
        },
        under.spot,
        delta,
        counts,
        daemons.len() as usize,
        around.refs@.len() as usize,
        around.help_max,
    );
    let d = DeskModel {
        view: t.view,
        files: t.files,
        docs: t.docs,
        diff: t.diff,
        docker: t.docker,
        git: t.git,
        help: t.help,
        ..d
    };
    match flow {
        Some(f) => (d, only(f)),
        None => match under.wheel_target {
            Target::Rail(focus, _) => (
                DeskModel {
                    view: BenchOf {
                        focus: d.view.focus,
                        ..moved(BenchOf { focus, ..d.view }, counts, delta as int)
                    },
                    ..d
                },
                only(FlowOf::Continue),
            ),
            Target::Stage(x, y) => (
                d,
                OutcomeOf {
                    flow: FlowOf::Continue,
                    sent: forwarded(around.stage, x, y, m),
                    drag: DragStep::Keep,
                },
            ),
            _ => (d, only(FlowOf::Scroll(delta as i16))),
        },
    }
}

/// What the mouse does. With shift held it is the terminal's own. A box that is
/// open has it. A drag goes to the pane where its program reads the mouse and
/// alt is not held, and otherwise makes a selection.
pub open spec fn moused(
    m: MouseEvent,
    d: DeskModel,
    daemons: Seq<Daemon>,
    hosts: Seq<Option<String>>,
    around: Around,
    under: Under,
) -> (DeskModel, OutcomeModel) {
    let ws = match workspace_of(daemons, d.view.tab) {
        Some(w) => Some(&w),
        None => None,
    };
    if m.shift {
        (d, only(FlowOf::Continue))
    } else if d.view.overlay is Some {
        let after = overlay_clicked(m.kind, under.overlay_row, d.view);
        (DeskModel { view: after.0, ..d }, with_drag(after.1, DragStep::Clear))
    } else {
        match m.kind {
            MouseKind::Down(MouseButton::Right) => (
                DeskModel {
                    view: right_clicked(d.view, daemons, hosts, ws, around.menus, under),
                    ..d
                },
                only(FlowOf::Continue),
            ),
            MouseKind::Down(MouseButton::Left) => left_clicked(
                m,
                d,
                ws,
                all_tabs(daemons).len() as usize,
                around,
                under,
            ),
            MouseKind::Drag(MouseButton::Left) => if under.target is Stage && !m.alt
                && around.wants_mouse {
                (
                    d,
                    OutcomeOf {
                        flow: FlowOf::Continue,
                        sent: over_stage(under.target, around.stage, m),
                        drag: DragStep::Keep,
                    },
                )
            } else {
                (d, with_drag(FlowOf::Continue, DragStep::To { x: m.column, y: m.row }))
            },
            MouseKind::Up(MouseButton::Left) => (
                d,
                OutcomeOf {
                    flow: FlowOf::CopySelection,
                    sent: over_stage(under.target, around.stage, m),
                    drag: DragStep::Keep,
                },
            ),
            MouseKind::ScrollUp => wheeled(m, d, daemons, hosts, around, under),
            MouseKind::ScrollDown => wheeled(m, d, daemons, hosts, around, under),
            _ => (d, only(FlowOf::Continue)),
        }
    }
}

fn click_row(desk: &mut Desk, row: usize, around: &Around) -> (f: Flow)
    requires
        rows_fit(around.docker_rows@, around.stacks@),
    ensures
        (final(desk)@, f@) == row_clicked(old(desk)@, row, *around),
{
    if desk.view.page == Page::Docs {
        page_click(
            &mut desk.view,
            &mut desk.docs,
            &mut desk.docker,
            &around.stacks,
            &around.docker_rows,
            row,
        )
    } else {
        page_click(
            &mut desk.view,
            &mut desk.files,
            &mut desk.docker,
            &around.stacks,
            &around.docker_rows,
            row,
        )
    }
}

fn handle_left(
    m: &MouseEvent,
    desk: &mut Desk,
    ws: Option<&Workspace>,
    tab_count: usize,
    around: &Around,
    under: &Under,
) -> (o: Outcome)
    requires
        rows_fit(around.docker_rows@, around.stacks@),
    ensures
        (final(desk)@, o@) == left_clicked(*m, old(desk)@, ws, tab_count, *around, *under),
{
    let press = DragStep::Press { x: m.column, y: m.row };
    if let Some(hit) = under.fleet {
        return dragged(fleet_click(hit, &mut desk.view), press);
    }
    match desk.view.page {
        Page::Settings => {
            if under.bar {
                let ret = desk.settings.ret;
                dragged(
                    page_bar_click(
                        under.target,
                        &mut desk.view,
                        ret,
                        tab_count,
                        ws,
                        &around.verbs,
                    ),
                    DragStep::Clear,
                )
            } else {
                let flow = settings_click(under.settings, &mut desk.settings, &around.groups);
                dragged(go_on(flow), DragStep::Clear)
            }
        },
        Page::Help => {
            if under.bar {
                let ret = desk.help.ret;
                dragged(
                    page_bar_click(
                        under.target,
                        &mut desk.view,
                        ret,
                        tab_count,
                        ws,
                        &around.verbs,
                    ),
                    DragStep::Clear,
                )
            } else {
                let flow = help_click(&mut desk.help, under.topic);
                dragged(go_on(flow), DragStep::Clear)
            }
        },
        Page::Git => {
            if under.bar {
                dragged(
                    run_click(under.target, &mut desk.view, tab_count, ws, &around.verbs),
                    DragStep::Clear,
                )
            } else {
                let flow = git_click(
                    under.git,
                    &mut desk.view,
                    &mut desk.git,
                    &around.refs,
                    &around.row_verbs,
                    &around.footers,
                );
                dragged(go_on(flow), press)
            }
        },
        _ => match under.page {
            PageTarget::Row(row) => dragged(click_row(desk, row, around), press),
            PageTarget::Body => {
                desk.view.focus = Focus::Stage;
                dragged(Flow::Continue, press)
            },
            PageTarget::Find => dragged(
                run_view(ViewVerb::Search, &mut desk.view),
                DragStep::Clear,
            ),
            PageTarget::Nothing => {
                let sent = forward_over(under.target, around.stage, m);
                let flow = run_click(
                    under.target,
                    &mut desk.view,
                    tab_count,
                    ws,
                    &around.verbs,
                );
                OutcomeOf { flow, sent, drag: press }
            },
        },
    }
}

fn handle_right(
    view: &mut Bench,
    daemons: &Vec<Daemon>,
    hosts: &Vec<Option<String>>,
    ws: Option<&Workspace>,
    menus: &MenuTexts,
    under: &Under,
)
    requires
        daemons@.len() > 1 ==> daemons@.len() <= hosts@.len(),
    ensures
        final(view)@ == right_clicked(old(view)@, daemons@, hosts@, ws, *menus, *under),
{
    match under.fleet {
        Some(hit) => {
            let sel: usize = match hit {
                FleetHit::Row(sel) => sel,
                FleetHit::Open(sel) => sel,
            };
            let all = all_agent_rows(daemons, hosts);
            view.overlay = fleet_menu(&all, sel, menus);
        },
        None => {
            let here: usize = active_daemon(daemons, hosts, view);
            let menu = menu_for(under.target, ws, daemons, hosts, here, menus);
            if menu.is_some() {
                view.overlay = menu;
            }
        },
    }
}

fn handle_wheel(
    m: &MouseEvent,
    desk: &mut Desk,
    daemons: &Vec<Daemon>,
    hosts: &Vec<Option<String>>,
    around: &Around,
    under: &Under,
) -> (o: Outcome)
    requires
        daemons@.len() > 1 ==> daemons@.len() <= hosts@.len(),
    ensures
        (final(desk)@, o@) == wheeled(*m, old(desk)@, daemons@, hosts@, *around, *under),
{
    let down = m.kind == MouseKind::ScrollDown;
    let delta: isize = if down {
        1
    } else {
        -1
    };
    let counts = rail_counts(daemons, hosts, &desk.view);
    let flow = page_wheel(
        &mut desk.view,
        &mut desk.files,
        &mut desk.docs,
        &mut desk.diff,
        &mut desk.docker,
        &mut desk.git,
        &mut desk.help,
        under.spot,
        delta,
        counts,
        daemons.len(),
        around.refs.len(),
        around.help_max,
    );
    match flow {
        Some(f) => just(f),
        None => match under.wheel_target {
            Target::Rail(focus, _) => {
                let was = desk.view.focus;
                desk.view.focus = focus;
                move_sel(&mut desk.view, counts, delta);
                desk.view.focus = was;
                just(Flow::Continue)
            },
            Target::Stage(x, y) => OutcomeOf {
                flow: Flow::Continue,
                sent: forward_mouse(around.stage, x, y, m),
                drag: DragStep::Keep,
            },
            _ => just(Flow::Scroll(if down {
                1
            } else {
                -1
            })),
        },
    }
}

/// Handles the mouse.
pub fn handle_mouse(
    m: &MouseEvent,
    desk: &mut Desk,
    daemons: &Vec<Daemon>,
    hosts: &Vec<Option<String>>,
    around: &Around,
    under: &Under,
) -> (o: Outcome)
    requires
        fits(old(desk)@, *around, daemons@, hosts@),
    ensures
        (final(desk)@, o@) == moused(*m, old(desk)@, daemons@, hosts@, *around, *under),
{
    if m.shift {
        return just(Flow::Continue);
    }
    if desk.view.overlay.is_some() {
        return dragged(
            overlay_mouse(m, &mut desk.view, under.overlay_row),
            DragStep::Clear,
        );
    }
    match m.kind {
        MouseKind::Down(MouseButton::Right) => {
            let ws = active_workspace(daemons, hosts, &desk.view);
            handle_right(&mut desk.view, daemons, hosts, ws, &around.menus, under);
            just(Flow::Continue)
        },
        MouseKind::Down(MouseButton::Left) => {
            let ws = active_workspace(daemons, hosts, &desk.view);
            let tab_count: usize = tab_index(daemons, hosts).len();
            handle_left(m, desk, ws, tab_count, around, under)
        },
        MouseKind::Drag(MouseButton::Left) => {
            let on_stage = match under.target {
                Target::Stage(_, _) => true,
                _ => false,
            };
            if on_stage && !m.alt && around.wants_mouse {
                OutcomeOf {
                    flow: Flow::Continue,
                    sent: forward_over(under.target, around.stage, m),
                    drag: DragStep::Keep,
                }
            } else {
                dragged(Flow::Continue, DragStep::To { x: m.column, y: m.row })
            }
        },
        MouseKind::Up(MouseButton::Left) => OutcomeOf {
            flow: Flow::CopySelection,
            sent: forward_over(under.target, around.stage, m),
            drag: DragStep::Keep,
        },
        MouseKind::ScrollUp | MouseKind::ScrollDown => handle_wheel(
            m,
            desk,
            daemons,
            hosts,
            around,
            under,
        ),
        _ => just(Flow::Continue),
    }
}

/// A line of a prompt with a text typed into it.
pub open spec fn prompt_typed(p: PromptOverlayModel, s: Seq<char>) -> PromptOverlayModel {
    if s.len() == 0 {
        p
    } else {
        prompt_line(p, line_typed(line_of(p.text, p.cursor), s))
    }
}

/// A search with a text typed into its query.
pub open spec fn search_typed(f: SearchOverlayModel, s: Seq<char>) -> SearchOverlayModel {
    if s.len() == 0 {
        f
    } else {
        search_line(f, line_typed(line_of(f.query, f.cursor), s))
    }
}

fn type_into_prompt(p: &mut PromptOverlay, s: &str)
    ensures
        final(p)@ == prompt_typed(old(p)@, s@),
{
    let v = chars_of(s);
    let ghost start = p@;
    let ghost line = line_of(start.text, start.cursor);
    let mut i: usize = 0;
    assert(v@.take(0) =~= Seq::empty());
    while i < v.len()
        invariant
            i <= v@.len(),
            line == line_of(start.text, start.cursor),
            p@ == prompt_typed(start, v@.take(i as int)),
            line_of(p@.text, p@.cursor) == line_typed(line, v@.take(i as int)),
        decreases v@.len() - i,
    {
        proof {
            assert(v@.take(i as int + 1).drop_last() =~= v@.take(i as int));
            assert(v@.take(i as int + 1).last() == v@[i as int]);
            typing_puts_the_text_at_the_cursor(line, v@.take(i as int));
            typing_puts_the_text_at_the_cursor(line, v@.take(i as int + 1));
        }
        p.insert(v[i]);
        i = i + 1;
    }
    assert(v@.take(i as int) =~= v@);
}

fn type_into_search(f: &mut SearchOverlay, s: &str)
    ensures
        final(f)@ == search_typed(old(f)@, s@),
{
    let v = chars_of(s);
    let ghost start = f@;
    let ghost line = line_of(start.query, start.cursor);
    let mut i: usize = 0;
    assert(v@.take(0) =~= Seq::empty());
    while i < v.len()
        invariant
            i <= v@.len(),
            line == line_of(start.query, start.cursor),
            f@ == search_typed(start, v@.take(i as int)),
            line_of(f@.query, f@.cursor) == line_typed(line, v@.take(i as int)),
        decreases v@.len() - i,
    {
        proof {
            assert(v@.take(i as int + 1).drop_last() =~= v@.take(i as int));
            assert(v@.take(i as int + 1).last() == v@[i as int]);
            typing_puts_the_text_at_the_cursor(line, v@.take(i as int));
            typing_puts_the_text_at_the_cursor(line, v@.take(i as int + 1));
        }
        f.insert(v[i]);
        i = i + 1;
    }
    assert(v@.take(i as int) =~= v@);
}

/// A tree whose open file is being edited, with a text to be put into it.
pub open spec fn file_pasted(f: FilesModel, text: Seq<char>) -> Option<FilesModel> {
    match f.open {
        Some(e) => if e.mode is Edit {
            Some(FilesOf { open: Some(editor_asked(e, EditorStepOf::Insert(text))), ..f })
        } else {
            None
        },
        None => None,
    }
}

/// What a paste does: it is typed into a prompt or a search as one line, put
/// into the file that is being edited as it is, and otherwise goes to the pane.
pub open spec fn pasted(text: Seq<char>, d: DeskModel, stage: bool) -> (DeskModel, OutcomeModel) {
    let go = only(FlowOf::Continue);
    match d.view.overlay {
        Some(OverlayOf::Prompt(p)) => (
            DeskModel {
                view: BenchOf {
                    overlay: Some(OverlayOf::Prompt(prompt_typed(p, one_line(text)))),
                    ..d.view
                },
                ..d
            },
            go,
        ),
        Some(OverlayOf::Search(f)) => {
            let f = SearchOverlayOf { searching: true, ..search_typed(f, one_line(text)) };
            (
                DeskModel {
                    view: BenchOf { overlay: Some(OverlayOf::Search(f)), ..d.view },
                    ..d
                },
                only(FlowOf::Search(f.query)),
            )
        },
        Some(_) => (d, go),
        None => {
            let edited = if d.view.page is Docs {
                match file_pasted(d.docs, text) {
                    Some(docs) => Some(DeskModel { docs, ..d }),
                    None => None,
                }
            } else if d.view.page is Files {
                match file_pasted(d.files, text) {
                    Some(files) => Some(DeskModel { files, ..d }),
                    None => None,
                }
            } else {
                None
            };
            match edited {
                Some(after) => (after, go),
                None => if d.view.page is Booth && d.view.focus !is Stage {
                    (
                        DeskModel {
                            view: BenchOf {
                                flash: Some("click the preview or Tab to it to type there"@),
                                ..d.view
                            },
                            ..d
                        },
                        go,
                    )
                } else if stage {
                    (
                        d,
                        OutcomeOf {
                            flow: FlowOf::Continue,
                            sent: Some(PaneInputOf::Paste(text)),
                            drag: DragStep::Keep,
                        },
                    )
                } else {
                    (
                        DeskModel {
                            view: BenchOf { flash: Some("nothing on the stage"@), ..d.view },
                            ..d
                        },
                        go,
                    )
                },
            }
        },
    }
}

fn paste_into_file(f: &mut Files, text: &String) -> (r: bool)
    ensures
        r == (file_pasted(old(f)@, text@) is Some),
        final(f)@ == (match file_pasted(old(f)@, text@) {
            Some(after) => after,
            None => old(f)@,
        }),
{
    let open = f.open.take();
    match open {
        Some(mut e) => {
            let editing = e.mode == EditMode::Edit;
            if editing {
                e.ask(EditorStep::Insert(text.clone()));
            }
            f.open = Some(e);
            editing
        },
        None => false,
    }
}

/// Handles a paste.
pub fn paste_text(text: String, desk: &mut Desk, stage: bool) -> (o: Outcome)
    ensures
        (final(desk)@, o@) == pasted(text@, old(desk)@, stage),
{
    let open = desk.view.overlay.take();
    match open {
        Some(OverlayOf::Prompt(p)) => {
            let mut p = p;
            type_into_prompt(&mut p, as_one_line(text.as_str()).as_str());
            desk.view.overlay = Some(OverlayOf::Prompt(p));
            just(Flow::Continue)
        },
        Some(OverlayOf::Search(f)) => {
            let mut f = f;
            type_into_search(&mut f, as_one_line(text.as_str()).as_str());
            f.searching = true;
            let query = f.query.clone();
            desk.view.overlay = Some(OverlayOf::Search(f));
            just(Flow::Search(query))
        },
        Some(other) => {
            desk.view.overlay = Some(other);
            just(Flow::Continue)
        },
        None => {
            let edited = if desk.view.page == Page::Docs {
                paste_into_file(&mut desk.docs, &text)
            } else if desk.view.page == Page::Files {
                paste_into_file(&mut desk.files, &text)
            } else {
                false
            };
            if edited {
                just(Flow::Continue)
            } else if desk.view.page == Page::Booth && desk.view.focus != Focus::Stage {
                desk.view.flash = Some("click the preview or Tab to it to type there".to_owned());
                just(Flow::Continue)
            } else if stage {
                OutcomeOf {
                    flow: Flow::Continue,
                    sent: Some(PaneInput::Paste(text)),
                    drag: DragStep::Keep,
                }
            } else {
                desk.view.flash = Some("nothing on the stage".to_owned());
                just(Flow::Continue)
            }
        },
    }
}

/// What an input does.
pub open spec fn taken_in(
    ev: InputModel,
    d: DeskModel,
    daemons: Seq<Daemon>,
    hosts: Seq<Option<String>>,
    around: Around,
    under: Under,
) -> (DeskModel, OutcomeModel) {
    match ev {
        InputOf::Resize { cols, rows } => (
            DeskModel { cols, rows, ..d },
            only(FlowOf::Continue),
        ),
        InputOf::Paste(text) => pasted(text, d, around.stage),
        InputOf::Mouse(m) => moused(m, d, daemons, hosts, around, under),
        InputOf::Key(k) => keyed(k, d, daemons, hosts, around),
        InputOf::Other => (d, only(FlowOf::Continue)),
    }
}

/// Handles an input.
pub fn handle_input(
    ev: Input,
    desk: &mut Desk,
    daemons: &Vec<Daemon>,
    hosts: &Vec<Option<String>>,
    around: &Around,
    under: &Under,
) -> (o: Outcome)
    requires
        fits(old(desk)@, *around, daemons@, hosts@),
    ensures
        (final(desk)@, o@) == taken_in(ev@, old(desk)@, daemons@, hosts@, *around, *under),
{
    match ev {
        InputOf::Resize { cols, rows } => {
            desk.cols = cols;
            desk.rows = rows;
            just(Flow::Continue)
        },
        InputOf::Paste(text) => paste_text(text, desk, around.stage),
        InputOf::Mouse(m) => handle_mouse(&m, desk, daemons, hosts, around, under),
        InputOf::Key(k) => handle_key(k, desk, daemons, hosts, around),
        InputOf::Other => just(Flow::Continue),
    }
}

/// A key as it was pressed: a composed character is read as the key it was
/// composed with, where that is asked for.
pub open spec fn pressed(k: KeyEvent, around: Around) -> KeyEvent {
    if around.option_as_alt {
        uncomposed(k, around.options@)
    } else {
        k
    }
}

/// A box that is open has the keyboard: a key does to the screen what it does
/// to the box, and reaches no page and no pane.
pub proof fn a_box_has_the_keyboard(
    k: KeyEvent,
    d: DeskModel,
    daemons: Seq<Daemon>,
    hosts: Seq<Option<String>>,
    around: Around,
    under: Under,
)
    requires
        d.view.overlay is Some,
    ensures
        ({
            let (after, out) = taken_in(InputOf::Key(k), d, daemons, hosts, around, under);
            let (view, flow) = overlay_key(pressed(k, around), d.view);
            out == only(flow) && after == (DeskModel { view, ..d })
        }),
{
}

/// What is typed with the keyboard on the stage reaches the program there, and
/// changes nothing else: no letter is a command while a pane is being typed
/// into.
pub proof fn typing_reaches_the_program(
    k: KeyEvent,
    d: DeskModel,
    daemons: Seq<Daemon>,
    hosts: Seq<Option<String>>,
    around: Around,
    under: Under,
)
    requires
        d.view.overlay is None,
        !d.view.prefix_armed,
        !d.view.layout,
        d.view.focus is Stage,
        d.view.page.draws_stage(),
        around.stage,
        pressed(k, around) != around.keymap.prefix,
        k.code !is Other,
        !pressed(k, around).alt,
    ensures
        taken_in(InputOf::Key(k), d, daemons, hosts, around, under) == (
            d,
            (OutcomeOf {
                flow: FlowOf::<Seq<char>>::Continue,
                sent: Some(PaneInputOf::Key(k)),
                drag: DragStep::Keep,
            }),
        ),
{
}

/// The mouse with shift held is the terminal's own: nothing happens.
pub proof fn a_shifted_mouse_is_the_terminals(
    m: MouseEvent,
    d: DeskModel,
    daemons: Seq<Daemon>,
    hosts: Seq<Option<String>>,
    around: Around,
    under: Under,
)
    requires
        m.shift,
    ensures
        taken_in(InputOf::Mouse(m), d, daemons, hosts, around, under) == (
            d,
            only(FlowOf::Continue),
        ),
{
}

/// A paste into a prompt stands in it at the cursor, on one line.
pub proof fn a_paste_stands_at_the_cursor(text: Seq<char>, d: DeskModel, p: PromptOverlayModel, stage: bool)
    requires
        d.view.overlay == Some(
            OverlayOf::<Seq<char>, Seq<Seq<char>>, Seq<SearchHitModel>>::Prompt(p),
        ),
        p.cursor <= p.text.len(),
        one_line(text).len() > 0,
    ensures
        pasted(text, d, stage).0.view.overlay matches Some(OverlayOf::Prompt(after)) && after.text
            == p.text.take(p.cursor as int) + one_line(text) + p.text.skip(p.cursor as int),
{
    typing_puts_the_text_at_the_cursor(line_of(p.text, p.cursor), one_line(text));
}

/// How wide the margin of the text on a page is, which a selection leaves out:
/// that of the diff, of the diff beside the history, or of the open file.
pub fn text_gutter(page: Page, diff: u16, git: Option<u16>, plain: u16, file: Option<u16>) -> (w: u16)
    ensures
        w == (match page {
            Page::Diff => diff,
            Page::Git => match git {
                Some(w) => w,
                None => plain,
            },
            Page::Files | Page::Docs => match file {
                Some(w) => w,
                None => 0,
            },
            _ => 0,
        }),
{
    match page {
        Page::Diff => diff,
        Page::Git => match git {
            Some(w) => w,
            None => plain,
        },
        Page::Files | Page::Docs => match file {
            Some(w) => w,
            None => 0,
        },
        _ => 0,
    }
}

proof fn a_verb_asks_on_no(verb: ViewVerb, v: BenchModel)
    requires
        on_no(v),
    ensures
        on_no(viewed(verb, v).0),
{
}

proof fn a_binding_asks_on_no(b: BoundModel, v: BenchModel)
    requires
        on_no(v),
    ensures
        on_no(bound_to(b, v).0),
{
    if let crate::bench::BoundOf::View(verb) = b {
        a_verb_asks_on_no(verb, v);
    }
}

proof fn the_pages_ask_on_no(
    k: KeyEvent,
    d: DeskModel,
    ws: Option<&Workspace>,
    counts: Counts,
    around: Around,
)
    requires
        on_no(d.view),
    ensures
        on_no(tree_step(k, d).0.view),
        on_no(agents_step(k, d, ws, counts, around.verbs).0.view),
{
}

proof fn the_git_page_asks_on_no(
    k: KeyEvent,
    v: BenchModel,
    g: GitModel,
    refs: Seq<crate::git::RefRowModel>,
    rows: u16,
    footers: GitFooters,
)
    requires
        on_no(v),
    ensures
        on_no(git_key(k, v, g, refs, rows, footers).0),
{
}

proof fn the_settings_ask_on_no(
    k: KeyEvent,
    v: BenchModel,
    p: crate::settings::Place,
    ret: Page,
    groups: Seq<SettingsGroup>,
)
    requires
        on_no(v),
    ensures
        on_no(settings_key(k, v, p, ret, groups).0),
{
}

proof fn the_containers_ask_on_no(
    k: KeyEvent,
    v: BenchModel,
    d: Docker,
    stacks: Seq<Stack>,
    rows: Seq<DockerRow>,
)
    requires
        on_no(v),
    ensures
        on_no(docker_key(k, v, d, stacks, rows).0),
{
}

proof fn the_diff_asks_on_no(k: KeyEvent, v: BenchModel, d: DiffViewModel)
    requires
        on_no(v),
    ensures
        on_no(diff_key(k, v, d).0),
{
}

proof fn a_page_of_its_own_asks_on_no(k: KeyEvent, d: DeskModel, counts: Counts, around: Around)
    requires
        on_no(d.view),
    ensures
        on_no(own_step(k, d, counts, around).0.view),
{
    match d.view.page {
        Page::Settings => the_settings_ask_on_no(
            k,
            d.view,
            d.settings.place(),
            d.settings.ret,
            around.groups@,
        ),
        Page::Docker => the_containers_ask_on_no(
            k,
            d.view,
            d.docker,
            around.stacks@,
            around.docker_rows@,
        ),
        Page::Git => the_git_page_asks_on_no(
            k,
            d.view,
            d.git,
            refs_model(around.refs@),
            around.list_rows,
            around.footers,
        ),
        Page::Diff => the_diff_asks_on_no(k, d.view, d.diff),
        _ => {},
    }
}

proof fn a_page_asks_on_no(
    k: KeyEvent,
    d: DeskModel,
    ws: Option<&Workspace>,
    counts: Counts,
    around: Around,
)
    requires
        on_no(d.view),
    ensures
        on_no(page_step(k, d, ws, counts, around).0.view),
{
    the_pages_ask_on_no(k, d, ws, counts, around);
    let (after, _) = tree_step(k, d);
    the_pages_ask_on_no(k, after, ws, counts, around);
    let (after, _) = agents_step(k, after, ws, counts, around.verbs);
    a_page_of_its_own_asks_on_no(k, after, counts, around);
}

proof fn an_alt_key_asks_on_no(code: KeyCode, v: BenchModel)
    requires
        on_no(v),
    ensures
        on_no(alt_bound(code, v).0),
{
}

proof fn a_common_key_asks_on_no(
    k: KeyEvent,
    v: BenchModel,
    daemons: Seq<Daemon>,
    hosts: Seq<Option<String>>,
    counts: Counts,
    menus: MenuTexts,
)
    requires
        on_no(v),
    ensures
        on_no(common_key(k, v, daemons, hosts, counts, menus).0),
{
    a_verb_asks_on_no(ViewVerb::Help, v);
    a_verb_asks_on_no(ViewVerb::Search, v);
}

#[verifier::spinoff_prover]
#[verifier::rlimit(60)]
proof fn an_open_key_asks_on_no(
    k: KeyEvent,
    d: DeskModel,
    daemons: Seq<Daemon>,
    hosts: Seq<Option<String>>,
    counts: Counts,
    around: Around,
)
    requires
        on_no(d.view),
    ensures
        on_no(open_key(k, d, daemons, hosts, counts, around).0.view),
{
    let ws = match workspace_of(daemons, d.view.tab) {
        Some(w) => Some(&w),
        None => None,
    };
    if k.alt {
        an_alt_key_asks_on_no(k.code, d.view);
    } else {
        a_page_asks_on_no(k, d, ws, counts, around);
        let after = page_step(k, d, ws, counts, around).0;
        a_common_key_asks_on_no(k, after.view, daemons, hosts, counts, around.menus);
    }
}

#[verifier::spinoff_prover]
#[verifier::rlimit(60)]
proof fn a_key_asks_on_no(
    k: KeyEvent,
    d: DeskModel,
    daemons: Seq<Daemon>,
    hosts: Seq<Option<String>>,
    around: Around,
)
    requires
        d.view.overlay is None,
    ensures
        on_no(keyed(k, d, daemons, hosts, around).0.view),
{
    let k = if around.option_as_alt {
        uncomposed(k, around.options@)
    } else {
        k
    };
    if let Some(b) = binding_of(around.keymap.bindings@, k) {
        a_binding_asks_on_no(b, BenchOf { prefix_armed: false, ..d.view });
    }
    let counts = counted(daemons, hosts, d.view.tab);
    an_open_key_asks_on_no(k, d, daemons, hosts, counts, around);
}

proof fn a_click_on_a_bar_asks_on_no(
    target: Target,
    v: BenchModel,
    ret: Page,
    tab_count: usize,
    ws: Option<&Workspace>,
    verbs: RailVerbs,
)
    requires
        on_no(v),
    ensures
        on_no(clicked(target, v, tab_count, ws, verbs).0),
        on_no(bar_clicked(target, v, ret, tab_count, ws, verbs).0),
{
}

proof fn a_click_on_the_git_page_asks_on_no(v: BenchModel, g: GitModel, around: Around, under: Under)
    requires
        on_no(v),
    ensures
        on_no(
            git_clicked(
                under.git,
                v,
                g,
                refs_model(around.refs@),
                around.row_verbs@,
                around.footers,
            ).0,
        ),
{
}

proof fn a_click_on_a_row_asks_on_no(d: DeskModel, row: usize, around: Around)
    requires
        on_no(d.view),
    ensures
        on_no(row_clicked(d, row, around).0.view),
{
}

#[verifier::spinoff_prover]
#[verifier::rlimit(60)]
proof fn a_left_click_asks_on_no(
    m: MouseEvent,
    d: DeskModel,
    ws: Option<&Workspace>,
    tab_count: usize,
    around: Around,
    under: Under,
)
    requires
        on_no(d.view),
    ensures
        on_no(left_clicked(m, d, ws, tab_count, around, under).0.view),
{
    let (bars, v) = (around.verbs, d.view);
    match under.fleet {
        Some(hit) => {
            assert(on_no(fleet_clicked(hit, v).0));
        },
        None => match v.page {
            Page::Settings => {
                a_click_on_a_bar_asks_on_no(under.target, v, d.settings.ret, tab_count, ws, bars);
            },
            Page::Help => {
                a_click_on_a_bar_asks_on_no(under.target, v, d.help.ret, tab_count, ws, bars);
            },
            Page::Git => {
                a_click_on_a_bar_asks_on_no(under.target, v, v.page, tab_count, ws, bars);
                a_click_on_the_git_page_asks_on_no(v, d.git, around, under);
            },
            _ => match under.page {
                PageTarget::Row(row) => a_click_on_a_row_asks_on_no(d, row, around),
                PageTarget::Find => a_verb_asks_on_no(ViewVerb::Search, v),
                _ => a_click_on_a_bar_asks_on_no(under.target, v, v.page, tab_count, ws, bars),
            },
        },
    }
}

proof fn the_mouse_asks_on_no(
    m: MouseEvent,
    d: DeskModel,
    daemons: Seq<Daemon>,
    hosts: Seq<Option<String>>,
    around: Around,
    under: Under,
)
    requires
        d.view.overlay is None,
    ensures
        on_no(moused(m, d, daemons, hosts, around, under).0.view),
{
    let ws = match workspace_of(daemons, d.view.tab) {
        Some(w) => Some(&w),
        None => None,
    };
    a_left_click_asks_on_no(m, d, ws, all_tabs(daemons).len() as usize, around, under);
}

/// A question that comes up comes up with no picked, whatever key, click or
/// paste put it there.
pub proof fn a_question_comes_up_on_no(
    ev: InputModel,
    d: DeskModel,
    daemons: Seq<Daemon>,
    hosts: Seq<Option<String>>,
    around: Around,
    under: Under,
)
    requires
        d.view.overlay is None,
    ensures
        taken_in(ev, d, daemons, hosts, around, under).0.view.overlay matches Some(
            OverlayOf::Confirm(c),
        ) ==> !c.yes,
{
    match ev {
        InputOf::Mouse(m) => the_mouse_asks_on_no(m, d, daemons, hosts, around, under),
        InputOf::Key(k) => a_key_asks_on_no(k, d, daemons, hosts, around),
        _ => {},
    }
}

/// With the keyboard on a rail, `j` and the arrow move its cursor one row
/// down, `k` and the other arrow one up, and each stops at the end of the
/// rail. No other cursor moves and nothing is asked for.
#[verifier::spinoff_prover]
#[verifier::rlimit(60)]
pub proof fn a_rail_is_walked_one_row_at_a_time(
    k: KeyEvent,
    v: BenchModel,
    daemons: Seq<Daemon>,
    hosts: Seq<Option<String>>,
    counts: Counts,
    menus: MenuTexts,
    i: usize,
    n: usize,
)
    requires
        i < n,
        k.code is Down || k.code is Up || k.code == KeyCode::Char('j') || k.code == KeyCode::Char(
            'k',
        ),
    ensures
        ({
            let (after, flow) = common_key(k, v, daemons, hosts, counts, menus);
            let row: usize = if k.code is Down || k.code == KeyCode::Char('j') {
                if i + 1 <= n - 1 {
                    (i + 1) as usize
                } else {
                    (n - 1) as usize
                }
            } else if i == 0 {
                0
            } else {
                (i - 1) as usize
            };
            &&& flow == FlowOf::<Seq<char>>::Continue
            &&& v.focus is Agents && v.agent_sel == i && counts.agents == n ==> after == (BenchOf {
                agent_sel: row,
                ..v
            })
            &&& v.focus is Processes && v.proc_sel == i && counts.procs == n ==> after == (BenchOf {
                proc_sel: row,
                ..v
            })
            &&& v.focus is Changes && v.changes_sel == i && counts.changes == n ==> after == (
            BenchOf { changes_sel: row, ..v })
            &&& v.focus is AllAgents && v.all_agents_sel == i && counts.all_agents == n ==> after
                == (BenchOf { all_agents_sel: row, ..v })
        }),
{
}

/// The same from the keyboard itself: a plain key that no page takes, where no
/// box is open, no binding is armed and the layout is not being changed. The
/// rows are those of the workspace of the tab, and nothing reaches the pane.
#[verifier::spinoff_prover]
#[verifier::rlimit(60)]
pub proof fn a_rail_is_walked_from_the_keyboard(
    k: KeyEvent,
    d: DeskModel,
    daemons: Seq<Daemon>,
    hosts: Seq<Option<String>>,
    around: Around,
    under: Under,
    w: Workspace,
)
    requires
        k.code is Down || k.code is Up || k.code == KeyCode::Char('j') || k.code == KeyCode::Char(
            'k',
        ),
        !k.ctrl && !k.alt,
        !around.option_as_alt,
        k != around.keymap.prefix,
        d.view.overlay is None,
        !d.view.prefix_armed,
        !d.view.layout,
        workspace_of(daemons, d.view.tab) == Some(w),
        d.view.focus is Agents || d.view.focus is Processes,
        page_step(k, d, Some(&w), counted(daemons, hosts, d.view.tab), around) == (
            d,
            None::<FlowModel>,
        ),
    ensures
        ({
            let (after, out) = taken_in(InputOf::Key(k), d, daemons, hosts, around, under);
            let on = k.code is Down || k.code == KeyCode::Char('j');
            &&& out.flow == FlowOf::<Seq<char>>::Continue
            &&& out.sent is None
            &&& d.view.focus is Agents && d.view.agent_sel < w.agents@.len() && w.agents@.len()
                <= usize::MAX ==> after == (DeskModel {
                view: BenchOf { agent_sel: after.view.agent_sel, ..d.view },
                ..d
            }) && after.view.agent_sel == (if on {
                if d.view.agent_sel + 1 < w.agents@.len() {
                    d.view.agent_sel + 1
                } else {
                    w.agents@.len() - 1
                }
            } else if d.view.agent_sel > 0 {
                d.view.agent_sel - 1
            } else {
                0
            })
            &&& d.view.focus is Processes && d.view.proc_sel < w.processes@.len()
                && w.processes@.len() <= usize::MAX ==> after == (DeskModel {
                view: BenchOf { proc_sel: after.view.proc_sel, ..d.view },
                ..d
            }) && after.view.proc_sel == (if on {
                if d.view.proc_sel + 1 < w.processes@.len() {
                    d.view.proc_sel + 1
                } else {
                    w.processes@.len() - 1
                }
            } else if d.view.proc_sel > 0 {
                d.view.proc_sel - 1
            } else {
                0
            })
        }),
{
}

/// What the letters ask for that every page leaves alone: `q` leaves, `?`
/// opens the help or closes it, `/` searches, `a` and `A` make an agent, `b`
/// picks a branch, `f` a link, `g` opens the git menu, and `n` browses from
/// the workspace that is open.
#[verifier::spinoff_prover]
#[verifier::rlimit(60)]
pub proof fn a_letter_asks_for_its_own(
    k: KeyEvent,
    v: BenchModel,
    daemons: Seq<Daemon>,
    hosts: Seq<Option<String>>,
    counts: Counts,
    menus: MenuTexts,
)
    ensures
        ({
            let r = common_key(k, v, daemons, hosts, counts, menus);
            &&& k.code == KeyCode::Char('q') ==> r == (v, FlowOf::<Seq<char>>::Detach)
            &&& k.code == KeyCode::Char('?') && v.page is Help ==> r == (
                v,
                FlowOf::<Seq<char>>::CloseHelp,
            )
            &&& k.code == KeyCode::Char('?') && v.page !is Help ==> r == (
                BenchOf { overlay: None, ..v },
                FlowOf::<Seq<char>>::OpenHelp,
            )
            &&& k.code == KeyCode::Char('/') ==> r.1 == FlowOf::<Seq<char>>::Search(Seq::empty())
                && r.0.overlay is Some && r.0.overlay->0 is Search
            &&& k.code == KeyCode::Char('a') ==> r == (v, FlowOf::<Seq<char>>::NewAgent)
            &&& k.code == KeyCode::Char('A') ==> r == (v, FlowOf::<Seq<char>>::PickAgent)
            &&& k.code == KeyCode::Char('b') ==> r == (v, FlowOf::<Seq<char>>::PickBranch)
            &&& k.code == KeyCode::Char('f') ==> r == (v, FlowOf::<Seq<char>>::PickLinks)
            &&& k.code == KeyCode::Char('g') ==> r == (v, FlowOf::<Seq<char>>::GitMenu)
            &&& k.code == KeyCode::Char('n') ==> (match workspace_of(daemons, v.tab) {
                Some(w) => r == (v, FlowOf::Browse(w.cwd@)),
                None => r == (v, FlowOf::<Seq<char>>::Browse(Seq::empty())),
            })
            &&& k.code == KeyCode::Char('m') ==> r.1 == FlowOf::<Seq<char>>::Continue && r.0 == (
            BenchOf { overlay: r.0.overlay, ..v })
        }),
{
}

/// `X` asks whether the workspace that is open is to be closed, by its own
/// name, and asks nothing where none is.
#[verifier::spinoff_prover]
#[verifier::rlimit(60)]
pub proof fn closing_a_workspace_is_asked_about(
    k: KeyEvent,
    v: BenchModel,
    daemons: Seq<Daemon>,
    hosts: Seq<Option<String>>,
    counts: Counts,
    menus: MenuTexts,
)
    requires
        k.code == KeyCode::Char('X'),
    ensures
        ({
            let r = common_key(k, v, daemons, hosts, counts, menus);
            &&& r.1 == FlowOf::<Seq<char>>::Continue
            &&& workspace_of(daemons, v.tab) matches Some(w) ==> r.0 == (BenchOf {
                overlay: r.0.overlay,
                ..v
            }) && (r.0.overlay matches Some(OverlayOf::Confirm(c)) && !c.yes && c.kind
                == (crate::types::ConfirmKindOf::CloseWorkspace { id: w.id, name: w.name@ })
                && c.header == "close "@ + w.name@ + " and kill what is running in it"@)
            &&& workspace_of(daemons, v.tab) is None ==> r.0 == v
        }),
{
}

/// The tab key takes the keyboard from the agents to the processes, from there
/// to the changes and on to the stage, and from the stage to the agents again.
#[verifier::spinoff_prover]
#[verifier::rlimit(60)]
pub proof fn the_tab_key_goes_around(
    k: KeyEvent,
    v: BenchModel,
    daemons: Seq<Daemon>,
    hosts: Seq<Option<String>>,
    counts: Counts,
    menus: MenuTexts,
)
    requires
        k.code is Tab,
    ensures
        ({
            let r = common_key(k, v, daemons, hosts, counts, menus);
            &&& r.1 == FlowOf::<Seq<char>>::Continue
            &&& r.0 == (BenchOf { focus: r.0.focus, ..v })
            &&& v.focus is Agents ==> r.0.focus is Processes
            &&& v.focus is Processes ==> r.0.focus is Changes
            &&& v.focus is Changes ==> r.0.focus is Stage
            &&& v.focus is AllAgents ==> r.0.focus is Stage
            &&& v.focus is Refs ==> r.0.focus is Stage
            &&& v.focus is History ==> r.0.focus is Stage
            &&& v.focus is Stage ==> r.0.focus is Agents
        }),
{
}

/// Enter on an agent or a process stages its pane, on the fleet in the booth
/// it goes to the agent under the cursor, on a change it opens its diff, and
/// elsewhere it takes the keyboard to the stage.
#[verifier::spinoff_prover]
#[verifier::rlimit(60)]
pub proof fn enter_acts_on_what_has_the_keyboard(
    k: KeyEvent,
    v: BenchModel,
    daemons: Seq<Daemon>,
    hosts: Seq<Option<String>>,
    counts: Counts,
    menus: MenuTexts,
)
    requires
        k.code is Enter,
    ensures
        ({
            let r = common_key(k, v, daemons, hosts, counts, menus);
            &&& v.focus is Agents || v.focus is Processes ==> r == (
                v,
                FlowOf::<Seq<char>>::StageSelected,
            )
            &&& v.focus is AllAgents && v.page is Booth ==> r == (
                v,
                FlowOf::<Seq<char>>::OpenFleetAgent(v.all_agents_sel),
            )
            &&& v.focus is Changes ==> r.0 == v && (match workspace_of(daemons, v.tab) {
                Some(w) => match diff_at(Some(&w), v.changes_sel) {
                    Some(kind) => r.1 == FlowOf::OpenDiff { kind, keep_cursor: false },
                    None => r.1 == FlowOf::<Seq<char>>::Continue,
                },
                None => true,
            })
            &&& v.focus is Stage || v.focus is Refs || v.focus is History ==> r == (
                BenchOf { focus: Focus::Stage, ..v },
                FlowOf::<Seq<char>>::Continue,
            )
        }),
{
}

/// A key after the prefix does what the first binding for it says, and one
/// that is not bound is said not to be, by its name.
#[verifier::spinoff_prover]
#[verifier::rlimit(60)]
pub proof fn a_key_after_the_prefix_does_what_it_is_bound_to(
    k: KeyEvent,
    v: BenchModel,
    keymap: Keymap,
    label: Seq<char>,
    i: int,
)
    requires
        v.prefix_armed,
        k.code !is Other,
        k != keymap.prefix,
    ensures
        0 <= i < keymap.bindings@.len() && keymap.bindings@[i].0 == k && (forall|j: int|
            0 <= j < i ==> (#[trigger] keymap.bindings@[j]).0 != k) ==> prefixed(
            k,
            v,
            keymap,
            label,
        ) == Some(
            (
                bound_to(keymap.bindings@[i].1@, BenchOf { prefix_armed: false, ..v }).0,
                bound_to(keymap.bindings@[i].1@, BenchOf { prefix_armed: false, ..v }).1,
                false,
            ),
        ),
        (forall|j: int|
            0 <= j < keymap.bindings@.len() ==> (#[trigger] keymap.bindings@[j]).0 != k)
            ==> prefixed(k, v, keymap, label) == Some(
            (
                BenchOf { prefix_armed: false, flash: Some(label + " is not bound"@), ..v },
                FlowOf::<Seq<char>>::Continue,
                false,
            ),
        ),
{
    if 0 <= i < keymap.bindings@.len() && keymap.bindings@[i].0 == k && (forall|j: int|
        0 <= j < i ==> (#[trigger] keymap.bindings@[j]).0 != k) {
        the_first_binding_holds(keymap.bindings@, k, i);
    }
    if forall|j: int|
        0 <= j < keymap.bindings@.len() ==> (#[trigger] keymap.bindings@[j]).0 != k {
        no_binding_is_found(keymap.bindings@, k);
    }
}

proof fn the_first_binding_holds(bindings: Seq<(KeyEvent, Bound)>, k: KeyEvent, i: int)
    requires
        0 <= i < bindings.len(),
        bindings[i].0 == k,
        forall|j: int| 0 <= j < i ==> (#[trigger] bindings[j]).0 != k,
    ensures
        binding_of(bindings, k) == Some(bindings[i].1@),
    decreases i,
{
    if i > 0 {
        assert(bindings[0].0 != k);
        let rest = bindings.skip(1);
        assert forall|j: int| 0 <= j < i - 1 implies (#[trigger] rest[j]).0 != k by {
            assert(rest[j] == bindings[j + 1]);
        }
        assert(rest[i - 1] == bindings[i]);
        the_first_binding_holds(rest, k, i - 1);
    }
}

proof fn no_binding_is_found(bindings: Seq<(KeyEvent, Bound)>, k: KeyEvent)
    requires
        forall|j: int| 0 <= j < bindings.len() ==> (#[trigger] bindings[j]).0 != k,
    ensures
        binding_of(bindings, k) is None,
    decreases bindings.len(),
{
    if bindings.len() > 0 {
        assert(bindings[0].0 != k);
        let rest = bindings.skip(1);
        assert forall|j: int| 0 <= j < rest.len() implies (#[trigger] rest[j]).0 != k by {
            assert(rest[j] == bindings[j + 1]);
        }
        no_binding_is_found(rest, k);
    }
}

/// A key that is not held with alt is the page's first: on each page it does
/// what that page says, and the other pages do not hear it.
#[verifier::spinoff_prover]
#[verifier::rlimit(60)]
pub proof fn a_key_is_the_showing_pages_first(
    k: KeyEvent,
    d: DeskModel,
    ws: Option<&Workspace>,
    counts: Counts,
    around: Around,
)
    ensures
        ({
            let r = page_step(k, d, ws, counts, around);
            &&& d.view.page is Files && files_key(k, d.view, d.files).2 is Some ==> r == (
                DeskModel {
                    view: files_key(k, d.view, d.files).0,
                    files: files_key(k, d.view, d.files).1,
                    ..d
                },
                files_key(k, d.view, d.files).2,
            )
            &&& d.view.page is Docs && files_key(k, d.view, d.docs).2 is Some ==> r == (
                DeskModel {
                    view: files_key(k, d.view, d.docs).0,
                    docs: files_key(k, d.view, d.docs).1,
                    ..d
                },
                files_key(k, d.view, d.docs).2,
            )
            &&& d.view.page is Agents && d.view.focus is Changes && changes_key(k, d.view, ws).1
                is Some ==> r == (
                DeskModel { view: changes_key(k, d.view, ws).0, ..d },
                changes_key(k, d.view, ws).1,
            )
            &&& d.view.page is Agents && d.view.focus is Agents ==> r == (
                d,
                rail_flow(
                    k,
                    Focus::Agents,
                    counts.agents,
                    d.view.pinned_agent is Some,
                    around.verbs,
                ),
            )
            &&& d.view.page is Agents && d.view.focus is Processes ==> r == (
                d,
                rail_flow(
                    k,
                    Focus::Processes,
                    counts.procs,
                    d.view.pinned_agent is Some,
                    around.verbs,
                ),
            )
            &&& d.view.page is Booth ==> r == (
                d,
                fleet_flow(k, d.view.focus, counts.all_agents),
            )
            &&& d.view.page is Usage ==> r == (
                DeskModel { usage: usage_key(k, d.usage).0, ..d },
                usage_key(k, d.usage).1,
            )
        }),
{
}

/// The pages of the help, the containers, the diff, the repository and the
/// settings each hear a key by their own rules.
#[verifier::spinoff_prover]
#[verifier::rlimit(60)]
pub proof fn a_page_of_its_own_hears_its_keys(
    k: KeyEvent,
    d: DeskModel,
    ws: Option<&Workspace>,
    counts: Counts,
    around: Around,
)
    ensures
        ({
            let r = page_step(k, d, ws, counts, around);
            let help = help_key(k, d.help, around.topics, around.help_max, around.help_height);
            let docker = docker_key(k, d.view, d.docker, around.stacks@, around.docker_rows@);
            let diff = diff_key(k, d.view, d.diff);
            &&& d.view.page is Help ==> r == (DeskModel { help: help.0, ..d }, help.1)
            &&& d.view.page is Docker ==> r == (
                DeskModel { view: docker.0, docker: docker.1, ..d },
                docker.2,
            )
            &&& d.view.page is Diff ==> r == (
                DeskModel { view: diff.0, diff: diff.1, ..d },
                diff.2,
            )
            &&& d.view.page is Git ==> r.0.git == git_key(
                k,
                d.view,
                d.git,
                refs_model(around.refs@),
                around.list_rows,
                around.footers,
            ).1 && r.1 == git_key(
                k,
                d.view,
                d.git,
                refs_model(around.refs@),
                around.list_rows,
                around.footers,
            ).2
            &&& d.view.page is Settings ==> r.1 == settings_key(
                k,
                d.view,
                d.settings.place(),
                d.settings.ret,
                around.groups@,
            ).2
        }),
{
}

/// With alt held a key is never the page's: it does what it is bound to with
/// alt, and one that is bound to nothing is typed where the keyboard is on the
/// stage, and is dropped elsewhere.
#[verifier::spinoff_prover]
#[verifier::rlimit(60)]
pub proof fn an_alt_key_passes_the_page_by(
    k: KeyEvent,
    d: DeskModel,
    daemons: Seq<Daemon>,
    hosts: Seq<Option<String>>,
    around: Around,
    under: Under,
)
    requires
        k.alt,
        !around.option_as_alt,
        k != around.keymap.prefix,
        k.code !is Other,
        d.view.overlay is None,
        !d.view.prefix_armed,
    ensures
        ({
            let (after, out) = taken_in(InputOf::Key(k), d, daemons, hosts, around, under);
            let (view, flow) = alt_bound(k.code, d.view);
            &&& flow matches Some(f) ==> after == (DeskModel { view, ..d }) && out == (OutcomeOf {
                flow: f,
                sent: None,
                drag: DragStep::Keep,
            })
            &&& flow is None ==> after == d && out.flow is Continue && out.sent == (
            if d.view.focus is Stage && (d.view.page is Booth || d.view.page is Agents)
                && around.stage {
                Some(PaneInputOf::<Seq<char>>::Key(k))
            } else {
                None
            })
        }),
{
}

/// The prefix pressed twice is typed, and a key after it reaches no page.
#[verifier::spinoff_prover]
#[verifier::rlimit(60)]
pub proof fn the_prefix_twice_is_typed(
    d: DeskModel,
    daemons: Seq<Daemon>,
    hosts: Seq<Option<String>>,
    around: Around,
    under: Under,
)
    requires
        !around.option_as_alt,
        around.keymap.prefix.code !is Other,
        d.view.overlay is None,
        d.view.prefix_armed,
        around.stage,
    ensures
        taken_in(InputOf::Key(around.keymap.prefix), d, daemons, hosts, around, under) == (
            DeskModel { view: BenchOf { prefix_armed: false, ..d.view }, ..d },
            OutcomeOf {
                flow: FlowOf::<Seq<char>>::Continue,
                sent: Some(PaneInputOf::Key(around.keymap.prefix)),
                drag: DragStep::Keep,
            },
        ),
{
}

/// While the layout is being changed a key without alt resizes, leaves, or is
/// dropped, and changes nothing else.
#[verifier::spinoff_prover]
#[verifier::rlimit(60)]
pub proof fn the_layout_has_the_keys_while_it_is_changed(
    k: KeyEvent,
    d: DeskModel,
    daemons: Seq<Daemon>,
    hosts: Seq<Option<String>>,
    around: Around,
    under: Under,
)
    requires
        !k.alt,
        !around.option_as_alt,
        k != around.keymap.prefix,
        d.view.overlay is None,
        !d.view.prefix_armed,
        d.view.layout,
    ensures
        ({
            let (after, out) = taken_in(InputOf::Key(k), d, daemons, hosts, around, under);
            &&& after == d
            &&& out.sent is None
            &&& out.drag is Keep
            &&& out.flow == layout_flow(k, d.view.focus)
        }),
{
}

/// The mouse goes to the pane as it is: each button as its own, at its own
/// place, and each turn of the wheel in its own direction. Without a pane
/// nothing is sent.
#[verifier::spinoff_prover]
#[verifier::rlimit(60)]
pub proof fn the_mouse_is_forwarded_as_it_is(m: MouseEvent, x: u16, y: u16)
    ensures
        forwarded(false, x, y, m) is None,
        m.kind == MouseKind::Down(MouseButton::Left) ==> forwarded(true, x, y, m) == Some(
            PaneInputOf::<Seq<char>>::MouseDown { x, y, alt: m.alt, right: false },
        ),
        m.kind == MouseKind::Down(MouseButton::Right) ==> forwarded(true, x, y, m) == Some(
            PaneInputOf::<Seq<char>>::MouseDown { x, y, alt: m.alt, right: true },
        ),
        m.kind == MouseKind::Drag(MouseButton::Left) ==> forwarded(true, x, y, m) == Some(
            PaneInputOf::<Seq<char>>::MouseDrag { x, y, alt: m.alt },
        ),
        m.kind == MouseKind::Up(MouseButton::Left) ==> forwarded(true, x, y, m) == Some(
            PaneInputOf::<Seq<char>>::MouseUp { x, y },
        ),
        m.kind is ScrollUp ==> forwarded(true, x, y, m) == Some(
            PaneInputOf::<Seq<char>>::ScrollUp { x, y },
        ),
        m.kind is ScrollDown ==> forwarded(true, x, y, m) == Some(
            PaneInputOf::<Seq<char>>::ScrollDown { x, y },
        ),
        m.kind == MouseKind::Down(MouseButton::Middle) || m.kind is Other ==> forwarded(
            true,
            x,
            y,
            m,
        ) is None,
{
}

/// A drag over a program that reads the mouse is the program's, unless alt is
/// held; any other drag makes a selection to where the pointer is. Letting go
/// of the button copies what was selected.
#[verifier::spinoff_prover]
#[verifier::rlimit(60)]
pub proof fn a_drag_is_the_programs_or_a_selection(
    m: MouseEvent,
    d: DeskModel,
    daemons: Seq<Daemon>,
    hosts: Seq<Option<String>>,
    around: Around,
    under: Under,
    x: u16,
    y: u16,
)
    requires
        !m.shift,
        d.view.overlay is None,
        around.stage,
        under.target == Target::Stage(x, y),
    ensures
        ({
            let (after, out) = taken_in(InputOf::Mouse(m), d, daemons, hosts, around, under);
            &&& m.kind == MouseKind::Drag(MouseButton::Left) ==> after == d && out.flow is Continue
            &&& m.kind == MouseKind::Drag(MouseButton::Left) && around.wants_mouse && !m.alt
                ==> out.sent == Some(PaneInputOf::<Seq<char>>::MouseDrag { x, y, alt: false })
                && out.drag is Keep
            &&& m.kind == MouseKind::Drag(MouseButton::Left) && (!around.wants_mouse || m.alt)
                ==> out.sent is None && out.drag == (DragStep::To { x: m.column, y: m.row })
            &&& m.kind == MouseKind::Up(MouseButton::Left) ==> after == d && out == (OutcomeOf {
                flow: FlowOf::<Seq<char>>::CopySelection,
                sent: Some(PaneInputOf::MouseUp { x, y }),
                drag: DragStep::Keep,
            })
        }),
{
}

/// A click on the stage takes the keyboard there, begins a selection where the
/// pointer is, and goes to the program too.
#[verifier::spinoff_prover]
#[verifier::rlimit(60)]
pub proof fn a_click_on_the_stage_reaches_the_program(
    m: MouseEvent,
    d: DeskModel,
    daemons: Seq<Daemon>,
    hosts: Seq<Option<String>>,
    around: Around,
    under: Under,
    x: u16,
    y: u16,
)
    requires
        m.kind == MouseKind::Down(MouseButton::Left),
        !m.shift,
        d.view.overlay is None,
        d.view.page is Agents || d.view.page is Booth,
        around.stage,
        under.fleet is None,
        under.page is Nothing,
        under.target == Target::Stage(x, y),
    ensures
        taken_in(InputOf::Mouse(m), d, daemons, hosts, around, under) == (
            DeskModel { view: BenchOf { focus: Focus::Stage, ..d.view }, ..d },
            OutcomeOf {
                flow: FlowOf::<Seq<char>>::Continue,
                sent: Some(PaneInputOf::MouseDown { x, y, alt: m.alt, right: false }),
                drag: DragStep::Press { x: m.column, y: m.row },
            },
        ),
{
}

/// A click on a row of the fleet, of a tree or of the containers, on the text
/// beside them, and on the button that searches.
#[verifier::spinoff_prover]
#[verifier::rlimit(60)]
pub proof fn a_click_on_a_page_does_what_lies_there(
    m: MouseEvent,
    d: DeskModel,
    ws: Option<&Workspace>,
    tab_count: usize,
    around: Around,
    under: Under,
    row: usize,
)
    requires
        d.view.page is Files || d.view.page is Docs || d.view.page is Docker || d.view.page is Booth,
    ensures
        ({
            let (after, out) = left_clicked(m, d, ws, tab_count, around, under);
            let press = DragStep::Press { x: m.column, y: m.row };
            &&& under.fleet == Some(FleetHit::Row(row)) ==> after.view == (BenchOf {
                all_agents_sel: row,
                focus: Focus::AllAgents,
                ..d.view
            }) && out.flow is Continue && out.drag == press
            &&& under.fleet == Some(FleetHit::Open(row)) ==> out.flow == FlowOf::<
                Seq<char>,
            >::OpenFleetAgent(row)
            &&& under.fleet is None && under.page == PageTarget::Row(row) ==> {
                &&& out.drag == press
                &&& out.sent is None
                &&& d.view.page is Files ==> after.files == tree_clicked(d.view, d.files, row).1
                    && out.flow == tree_clicked(d.view, d.files, row).2 && after.docs == d.docs
                &&& d.view.page is Docs ==> after.docs == tree_clicked(d.view, d.docs, row).1
                    && out.flow == tree_clicked(d.view, d.docs, row).2 && after.files == d.files
                &&& d.view.page is Docker ==> after.docker == docker_clicked(
                    d.view,
                    d.docker,
                    around.stacks@,
                    around.docker_rows@,
                    row,
                ).1
            }
            &&& under.fleet is None && under.page is Body ==> after == (DeskModel {
                view: BenchOf { focus: Focus::Stage, ..d.view },
                ..d
            }) && out.flow is Continue && out.drag == press
            &&& under.fleet is None && under.page is Find ==> out.flow == FlowOf::<
                Seq<char>,
            >::Search(Seq::empty()) && out.drag is Clear
        }),
{
}

/// A click on a topic of the help shows it from its top.
#[verifier::spinoff_prover]
#[verifier::rlimit(60)]
pub proof fn a_click_on_a_topic_shows_it(
    m: MouseEvent,
    d: DeskModel,
    ws: Option<&Workspace>,
    tab_count: usize,
    around: Around,
    under: Under,
    topic: usize,
)
    requires
        d.view.page is Help,
        under.fleet is None,
        !under.bar,
        under.topic == Some(topic),
    ensures
        left_clicked(m, d, ws, tab_count, around, under).0 == (DeskModel {
            help: Help { topic, scroll: 0, ret: d.help.ret },
            ..d
        }),
{
}

/// The wheel turned over a rail moves the cursor of that rail, down for down
/// and up for up, and leaves the keyboard where it is; over the stage it goes
/// to the program; and elsewhere it scrolls the pane, a line for each turn.
#[verifier::spinoff_prover]
#[verifier::rlimit(60)]
pub proof fn the_wheel_turns_what_is_under_it(
    m: MouseEvent,
    d: DeskModel,
    daemons: Seq<Daemon>,
    hosts: Seq<Option<String>>,
    around: Around,
    under: Under,
    row: usize,
    x: u16,
    y: u16,
)
    requires
        m.kind is ScrollUp || m.kind is ScrollDown,
        !m.shift,
        d.view.overlay is None,
        d.view.page is Agents,
        under.spot is Nothing,
    ensures
        ({
            let (after, out) = taken_in(InputOf::Mouse(m), d, daemons, hosts, around, under);
            let counts = counted(daemons, hosts, d.view.tab);
            &&& under.wheel_target == Target::Rail(Focus::Agents, row) && d.view.agent_sel
                < counts.agents ==> after == (DeskModel {
                view: BenchOf { agent_sel: after.view.agent_sel, ..d.view },
                ..d
            }) && after.view.agent_sel == (if m.kind is ScrollDown {
                if d.view.agent_sel + 1 < counts.agents {
                    d.view.agent_sel + 1
                } else {
                    d.view.agent_sel as int
                }
            } else if d.view.agent_sel > 0 {
                d.view.agent_sel - 1
            } else {
                0
            }) && out.flow is Continue && out.sent is None
            &&& under.wheel_target == Target::Rail(Focus::Processes, row) && d.view.proc_sel
                < counts.procs ==> after == (DeskModel {
                view: BenchOf { proc_sel: after.view.proc_sel, ..d.view },
                ..d
            }) && after.view.proc_sel == (if m.kind is ScrollDown {
                if d.view.proc_sel + 1 < counts.procs {
                    d.view.proc_sel + 1
                } else {
                    d.view.proc_sel as int
                }
            } else if d.view.proc_sel > 0 {
                d.view.proc_sel - 1
            } else {
                0
            }) && out.flow is Continue && out.sent is None
            &&& under.wheel_target == Target::Stage(x, y) && around.stage ==> after == d && out.flow
                is Continue && out.sent == Some(
                if m.kind is ScrollDown {
                    PaneInputOf::<Seq<char>>::ScrollDown { x, y }
                } else {
                    PaneInputOf::<Seq<char>>::ScrollUp { x, y }
                },
            )
            &&& under.wheel_target is Nothing ==> after == d && out.sent is None && (out.flow
                matches FlowOf::Scroll(n) && n == (if m.kind is ScrollDown {
                1int
            } else {
                -1
            }))
        }),
{
}

/// A right click opens a menu on what is under the pointer and does nothing
/// else; where there is nothing to open one on, nothing happens.
#[verifier::spinoff_prover]
#[verifier::rlimit(60)]
pub proof fn a_right_click_opens_a_menu(
    m: MouseEvent,
    d: DeskModel,
    daemons: Seq<Daemon>,
    hosts: Seq<Option<String>>,
    around: Around,
    under: Under,
    w: Workspace,
    row: usize,
)
    requires
        m.kind == MouseKind::Down(MouseButton::Right),
        !m.shift,
        d.view.overlay is None,
        under.fleet is None,
        workspace_of(daemons, d.view.tab) == Some(w),
    ensures
        ({
            let (after, out) = taken_in(InputOf::Mouse(m), d, daemons, hosts, around, under);
            &&& out == (OutcomeOf {
                flow: FlowOf::<Seq<char>>::Continue,
                sent: None,
                drag: DragStep::Keep,
            })
            &&& after == (DeskModel {
                view: BenchOf { overlay: after.view.overlay, ..d.view },
                ..d
            })
            &&& under.target == Target::Rail(Focus::Processes, row) && row < w.processes@.len()
                ==> after.view.overlay == Some(
                crate::menu::context_menu(
                    crate::types::MenuTarget::Process(w.processes@[row as int]),
                    around.menus,
                ),
            )
            &&& under.target == Target::Rail(Focus::Agents, row) && row < w.agents@.len()
                ==> after.view.overlay == Some(
                crate::menu::context_menu(
                    crate::types::MenuTarget::Agent {
                        daemon: daemon_of(daemons, d.view.tab),
                        workspace: w.id,
                        pane: w.agents@[row as int],
                    },
                    around.menus,
                ),
            )
            &&& under.target is Nothing ==> after == d
        }),
{
}

/// The menu key opens the menu of the row under the cursor: of the agent, of
/// the process, or in the booth of the agent of the fleet.
#[verifier::spinoff_prover]
#[verifier::rlimit(60)]
pub proof fn the_menu_key_is_on_the_row_under_the_cursor(
    k: KeyEvent,
    v: BenchModel,
    daemons: Seq<Daemon>,
    hosts: Seq<Option<String>>,
    counts: Counts,
    menus: MenuTexts,
    w: Workspace,
)
    requires
        k.code == KeyCode::Char('m'),
        workspace_of(daemons, v.tab) == Some(w),
    ensures
        ({
            let after = common_key(k, v, daemons, hosts, counts, menus).0;
            &&& v.focus is Agents && v.agent_sel < w.agents@.len() ==> after.overlay == Some(
                crate::menu::context_menu(
                    crate::types::MenuTarget::Agent {
                        daemon: daemon_of(daemons, v.tab),
                        workspace: w.id,
                        pane: w.agents@[v.agent_sel as int],
                    },
                    menus,
                ),
            )
            &&& v.focus is Processes && v.proc_sel < w.processes@.len() ==> after.overlay == Some(
                crate::menu::context_menu(
                    crate::types::MenuTarget::Process(w.processes@[v.proc_sel as int]),
                    menus,
                ),
            )
            &&& v.page is Booth && v.focus is AllAgents ==> after.overlay == menu_of(
                fleet_menu_on(fleet(daemons, hosts), v.all_agents_sel),
                menus,
            )
        }),
{
}

/// A paste goes to the program on the stage as it is; where there is none, or
/// in the booth with the keyboard off the stage, it is said why it did not.
#[verifier::spinoff_prover]
#[verifier::rlimit(60)]
pub proof fn a_paste_reaches_the_program(text: Seq<char>, d: DeskModel, stage: bool)
    requires
        d.view.overlay is None,
        d.view.page is Agents || d.view.page is Booth,
    ensures
        ({
            let (after, out) = pasted(text, d, stage);
            let off = d.view.page is Booth && d.view.focus !is Stage;
            &&& out.flow is Continue
            &&& !off && stage ==> after == d && out.sent == Some(PaneInputOf::Paste(text))
            &&& !off && !stage ==> out.sent is None && after == (DeskModel {
                view: BenchOf { flash: Some("nothing on the stage"@), ..d.view },
                ..d
            })
            &&& off ==> out.sent is None && after == (DeskModel {
                view: BenchOf {
                    flash: Some("click the preview or Tab to it to type there"@),
                    ..d.view
                },
                ..d
            })
        }),
{
}

/// A paste into a search is searched for, and one into a file that is being
/// edited is put into that file and no other.
#[verifier::spinoff_prover]
#[verifier::rlimit(60)]
pub proof fn a_paste_is_searched_for_or_put_into_the_file(
    text: Seq<char>,
    d: DeskModel,
    stage: bool,
    s: SearchOverlayModel,
    e: crate::pages::EditorModel,
)
    requires
        s.cursor <= s.query.len(),
        e.mode is Edit,
    ensures
        d.view.overlay == Some(
            OverlayOf::<Seq<char>, Seq<Seq<char>>, Seq<SearchHitModel>>::Search(s),
        ) && one_line(text).len() > 0 ==> {
            let (after, out) = pasted(text, d, stage);
            let query = s.query.take(s.cursor as int) + one_line(text) + s.query.skip(
                s.cursor as int,
            );
            &&& out.flow == FlowOf::Search(query)
            &&& out.sent is None
            &&& after.view.overlay matches Some(OverlayOf::Search(now)) && now.query == query
                && now.searching
        },
        d.view.overlay is None && d.view.page is Files && d.files.open == Some(e) ==> pasted(
            text,
            d,
            stage,
        ) == (
            DeskModel {
                files: FilesOf {
                    open: Some(
                        crate::pages::EditorOf {
                            steps: e.steps.push(EditorStepOf::Insert(text)),
                            ..e
                        },
                    ),
                    ..d.files
                },
                ..d
            },
            OutcomeOf { flow: FlowOf::<Seq<char>>::Continue, sent: None, drag: DragStep::Keep },
        ),
        d.view.overlay is None && d.view.page is Docs && d.docs.open == Some(e) ==> pasted(
            text,
            d,
            stage,
        ) == (
            DeskModel {
                docs: FilesOf {
                    open: Some(
                        crate::pages::EditorOf {
                            steps: e.steps.push(EditorStepOf::Insert(text)),
                            ..e
                        },
                    ),
                    ..d.docs
                },
                ..d
            },
            OutcomeOf { flow: FlowOf::<Seq<char>>::Continue, sent: None, drag: DragStep::Keep },
        ),
{
    typing_puts_the_text_at_the_cursor(line_of(s.query, s.cursor), one_line(text));
}

/// A change of size is taken over as it is and changes nothing else.
#[verifier::spinoff_prover]
#[verifier::rlimit(60)]
pub proof fn a_new_size_is_taken_over(
    cols: u16,
    rows: u16,
    d: DeskModel,
    daemons: Seq<Daemon>,
    hosts: Seq<Option<String>>,
    around: Around,
    under: Under,
)
    ensures
        taken_in(InputOf::Resize { cols, rows }, d, daemons, hosts, around, under) == (
            DeskModel { cols, rows, ..d },
            OutcomeOf {
                flow: FlowOf::<Seq<char>>::Continue,
                sent: None::<PaneInputModel>,
                drag: DragStep::Keep,
            },
        ),
{
}

/// A click on the bars is the bars' on every page of its own: from the
/// settings and the help it goes by the page they were opened from. Below the
/// bars it is the page's.
#[verifier::spinoff_prover]
#[verifier::rlimit(60)]
pub proof fn a_click_on_the_bars_is_the_bars(
    m: MouseEvent,
    d: DeskModel,
    ws: Option<&Workspace>,
    tab_count: usize,
    around: Around,
    under: Under,
)
    requires
        under.fleet is None,
    ensures
        ({
            let (after, out) = left_clicked(m, d, ws, tab_count, around, under);
            let settings = bar_clicked(
                under.target,
                d.view,
                d.settings.ret,
                tab_count,
                ws,
                around.verbs,
            );
            let help = bar_clicked(under.target, d.view, d.help.ret, tab_count, ws, around.verbs);
            let git = clicked(under.target, d.view, tab_count, ws, around.verbs);
            let row = settings_clicked(under.settings, d.settings.place(), around.groups@);
            &&& d.view.page is Settings || d.view.page is Help || d.view.page is Git
                ==> out.sent is None
            &&& d.view.page is Settings && under.bar ==> after == (DeskModel {
                view: settings.0,
                ..d
            }) && out.flow == settings.1 && out.drag is Clear
            &&& d.view.page is Help && under.bar ==> after == (DeskModel { view: help.0, ..d })
                && out.flow == help.1 && out.drag is Clear
            &&& d.view.page is Git && under.bar ==> after == (DeskModel { view: git.0, ..d })
                && out.flow == git.1 && out.drag is Clear
            &&& d.view.page is Settings && !under.bar ==> after == (DeskModel {
                settings: Settings {
                    group: row.0.group,
                    row: row.0.row,
                    open: row.0.open,
                    ..d.settings
                },
                ..d
            }) && out.drag is Clear && (match row.1 {
                Some(f) => out.flow == f,
                None => out.flow is Continue,
            })
        }),
{
}

/// Below the bars of the git page a click is the page's, and begins a
/// selection.
#[verifier::spinoff_prover]
#[verifier::rlimit(60)]
pub proof fn a_click_on_the_git_page_is_its_own(
    m: MouseEvent,
    d: DeskModel,
    ws: Option<&Workspace>,
    tab_count: usize,
    around: Around,
    under: Under,
)
    requires
        under.fleet is None,
        d.view.page is Git,
        !under.bar,
    ensures
        ({
            let (after, out) = left_clicked(m, d, ws, tab_count, around, under);
            let page = git_clicked(
                under.git,
                d.view,
                d.git,
                refs_model(around.refs@),
                around.row_verbs@,
                around.footers,
            );
            &&& after == (DeskModel { view: page.0, git: page.1, ..d })
            &&& out.drag == (DragStep::Press { x: m.column, y: m.row })
            &&& out.sent is None
            &&& page.2 matches Some(f) ==> out.flow == f
            &&& page.2 is None ==> out.flow is Continue
        }),
{
}

/// A right click on a row of the fleet opens the menu of that row's agent.
#[verifier::spinoff_prover]
#[verifier::rlimit(60)]
pub proof fn a_right_click_in_the_fleet_is_on_its_row(
    m: MouseEvent,
    d: DeskModel,
    daemons: Seq<Daemon>,
    hosts: Seq<Option<String>>,
    around: Around,
    under: Under,
    row: usize,
)
    requires
        m.kind == MouseKind::Down(MouseButton::Right),
        !m.shift,
        d.view.overlay is None,
        under.fleet == Some(FleetHit::Row(row)) || under.fleet == Some(FleetHit::Open(row)),
    ensures
        taken_in(InputOf::Mouse(m), d, daemons, hosts, around, under).0 == (DeskModel {
            view: BenchOf {
                overlay: menu_of(fleet_menu_on(fleet(daemons, hosts), row), around.menus),
                ..d.view
            },
            ..d
        }),
{
}

/// A box that is open has the mouse: a press or a turn of the wheel does to it
/// what the box says, ends the selection, and reaches nothing below it.
#[verifier::spinoff_prover]
#[verifier::rlimit(60)]
pub proof fn a_box_has_the_mouse(
    m: MouseEvent,
    d: DeskModel,
    daemons: Seq<Daemon>,
    hosts: Seq<Option<String>>,
    around: Around,
    under: Under,
)
    requires
        !m.shift,
        d.view.overlay is Some,
    ensures
        ({
            let (after, out) = taken_in(InputOf::Mouse(m), d, daemons, hosts, around, under);
            let (view, flow) = overlay_clicked(m.kind, under.overlay_row, d.view);
            &&& after == (DeskModel { view, ..d })
            &&& out == (OutcomeOf { flow, sent: None, drag: DragStep::Clear })
        }),
{
}

} // verus!
