//! The moves that change only the client's own view: pages, cursors, tabs, and
//! the verbs that the keys of every layer resolve to.
use vstd::prelude::*;

use crate::text::{cat3, opt_text};
use crate::types::{
    empty_search, new_search, opt_flow, Bench, BenchModel, BenchOf, Command, Flow, FlowModel,
    FlowOf, Focus, GeomStep, KeyCode, KeyEvent, Overlay, OverlayModel, OverlayOf, Page, PaneId,
    PromptKindOf, PromptOverlayOf, Spawned, SpawnedOf, TabMove,
};

verus! {

/// How many rows each list has: agents, processes, changes, and the fleet.
#[derive(Clone, Copy, Debug, PartialEq, Eq, Structural)]
pub struct Counts {
    pub agents: usize,
    pub procs: usize,
    pub changes: usize,
    pub all_agents: usize,
}

/// The row a list's cursor is on. The lists without a cursor of the view's own
/// answer with their first row.
#[verifier::allow_in_spec]
pub fn selection(view: &Bench, focus: Focus) -> usize
    returns
        row_of(view@, focus),
{
    match focus {
        Focus::Agents => view.agent_sel,
        Focus::Processes => view.proc_sel,
        Focus::Changes => view.changes_sel,
        Focus::AllAgents => view.all_agents_sel,
        Focus::Refs | Focus::History | Focus::Stage => 0,
    }
}

/// The row a list's cursor is on.
pub open spec fn row_of(v: BenchModel, focus: Focus) -> usize {
    match focus {
        Focus::Agents => v.agent_sel,
        Focus::Processes => v.proc_sel,
        Focus::Changes => v.changes_sel,
        Focus::AllAgents => v.all_agents_sel,
        Focus::Refs | Focus::History | Focus::Stage => 0,
    }
}

/// A view with one list's cursor on another row.
pub open spec fn with_row(v: BenchModel, focus: Focus, row: usize) -> BenchModel {
    match focus {
        Focus::Agents => BenchOf { agent_sel: row, ..v },
        Focus::Processes => BenchOf { proc_sel: row, ..v },
        Focus::Changes => BenchOf { changes_sel: row, ..v },
        Focus::AllAgents => BenchOf { all_agents_sel: row, ..v },
        Focus::Refs | Focus::History | Focus::Stage => v,
    }
}

/// Puts a list's cursor on a row.
pub fn set_selection(view: &mut Bench, focus: Focus, row: usize)
    ensures
        final(view)@ == with_row(old(view)@, focus, row),
{
    match focus {
        Focus::Agents => {
            view.agent_sel = row;
        },
        Focus::Processes => {
            view.proc_sel = row;
        },
        Focus::Changes => {
            view.changes_sel = row;
        },
        Focus::AllAgents => {
            view.all_agents_sel = row;
        },
        Focus::Refs | Focus::History | Focus::Stage => {},
    }
}

/// Whether a list has a cursor of the view's own.
pub open spec fn has_cursor(focus: Focus) -> bool {
    focus is Agents || focus is Processes || focus is Changes || focus is AllAgents
}

/// A cursor that was put on a row is on that row, and no other list's cursor
/// moved.
pub proof fn a_cursor_is_where_it_was_put(v: BenchModel, focus: Focus, row: usize, other: Focus)
    ensures
        has_cursor(focus) ==> row_of(with_row(v, focus, row), focus) == row,
        other != focus ==> row_of(with_row(v, focus, row), other) == row_of(v, other),
        with_row(v, focus, row_of(v, focus)) == v,
{
}

/// What pressing enter on a row, or clicking it a second time, asks for.
pub open spec fn selected_flow(focus: Focus, page: Page, sel: usize) -> FlowModel {
    match focus {
        Focus::AllAgents => if page is Booth {
            FlowOf::OpenFleetAgent(sel)
        } else {
            FlowOf::StageSelected
        },
        Focus::Agents | Focus::Processes => FlowOf::StageSelected,
        Focus::Changes => FlowOf::OpenSelectedDiff,
        Focus::Refs | Focus::History | Focus::Stage => FlowOf::Continue,
    }
}

/// What pressing enter on a row asks for: on the fleet, to travel to the
/// agent; on a rail, to stage the pane; on the changes, to open the diff.
pub fn stage_selected(focus: Focus, page: Page, sel: usize) -> (f: Flow)
    ensures
        f@ == selected_flow(focus, page, sel),
{
    match focus {
        Focus::AllAgents if page == Page::Booth => Flow::OpenFleetAgent(sel),
        Focus::Agents | Focus::Processes | Focus::AllAgents => Flow::StageSelected,
        Focus::Changes => Flow::OpenSelectedDiff,
        Focus::Refs | Focus::History | Focus::Stage => Flow::Continue,
    }
}

/// Where a cursor stands after `delta` steps in a list of `len` rows: it stops
/// at the ends, and in an empty list it is on the first row.
pub open spec fn stepped(sel: int, delta: int, len: int) -> int {
    if len <= 0 || sel + delta < 0 {
        0
    } else if sel + delta >= len {
        len - 1
    } else {
        sel + delta
    }
}

/// Moves a cursor within a list, stopping at its ends.
pub fn step(sel: usize, delta: isize, len: usize) -> (r: usize)
    ensures
        r == stepped(sel as int, delta as int, len as int),
{
    if len == 0 {
        return 0;
    }
    if delta < 0 {
        let back: usize = (-(delta + 1)) as usize;
        if sel <= back {
            0
        } else {
            let next: usize = sel - back - 1;
            if next < len {
                next
            } else {
                len - 1
            }
        }
    } else {
        let on: usize = delta as usize;
        if sel >= len || on > len - 1 - sel {
            len - 1
        } else {
            sel + on
        }
    }
}

/// The length of the list that has the keyboard.
pub open spec fn count_of(c: Counts, focus: Focus) -> usize {
    match focus {
        Focus::Agents => c.agents,
        Focus::Processes => c.procs,
        Focus::Changes => c.changes,
        Focus::AllAgents => c.all_agents,
        Focus::Refs | Focus::History | Focus::Stage => 0,
    }
}

/// A view whose focused cursor moved by `delta` rows.
pub open spec fn moved(v: BenchModel, c: Counts, delta: int) -> BenchModel {
    with_row(
        v,
        v.focus,
        stepped(row_of(v, v.focus) as int, delta, count_of(c, v.focus) as int) as usize,
    )
}

/// Moves the cursor of the list that has the keyboard.
pub fn move_sel(view: &mut Bench, counts: Counts, delta: isize)
    ensures
        final(view)@ == moved(old(view)@, counts, delta as int),
{
    match view.focus {
        Focus::Agents => {
            view.agent_sel = step(view.agent_sel, delta, counts.agents);
        },
        Focus::Processes => {
            view.proc_sel = step(view.proc_sel, delta, counts.procs);
        },
        Focus::Changes => {
            view.changes_sel = step(view.changes_sel, delta, counts.changes);
        },
        Focus::AllAgents => {
            view.all_agents_sel = step(view.all_agents_sel, delta, counts.all_agents);
        },
        Focus::Refs | Focus::History | Focus::Stage => {},
    }
}

/// A cursor that moved is on a row of its list, or on the first where the
/// list is empty; and a step back undoes a step on that did not stop at the
/// end.
pub proof fn a_step_stays_in_the_list(sel: int, delta: int, len: int)
    ensures
        0 <= stepped(sel, delta, len),
        len > 0 ==> stepped(sel, delta, len) < len,
        len <= 0 ==> stepped(sel, delta, len) == 0,
        0 <= sel < len && 0 <= sel + delta < len ==> stepped(stepped(sel, delta, len), -delta, len)
            == sel,
{
}

/// A view that lets go of what belonged to one workspace: the rail cursors and
/// the pane this client chose.
pub open spec fn let_go(v: BenchModel) -> BenchModel {
    BenchOf { agent_sel: 0, proc_sel: 0, changes_sel: 0, staged: None, ..v }
}

/// Lets go of the rail cursors and of the pane this client chose.
pub fn reset_sel(view: &mut Bench)
    ensures
        final(view)@ == let_go(old(view)@),
{
    view.agent_sel = 0;
    view.proc_sel = 0;
    view.changes_sel = 0;
    view.staged = None;
}

/// A view on another tab. Choosing a workspace leaves the booth, which is the
/// one page that is not a view of a workspace, and takes the keyboard out of
/// its fleet.
pub open spec fn on_tab(v: BenchModel, tab: usize) -> BenchModel {
    if v.page is Booth {
        BenchOf {
            tab,
            page: Page::Agents,
            focus: arrival_focus(Page::Agents, v.focus),
            ..let_go(v)
        }
    } else {
        BenchOf { tab, ..let_go(v) }
    }
}

/// Goes to a tab.
pub fn select_tab(view: &mut Bench, tab: usize)
    ensures
        final(view)@ == on_tab(old(view)@, tab),
{
    view.tab = tab;
    reset_sel(view);
    if view.page == Page::Booth {
        view.page = Page::Agents;
        open_page(view);
    }
}

/// The tab that a move leads to, of `count` tabs. Tabs are numbered from one,
/// and a number that names none leads nowhere.
pub open spec fn tab_after(m: TabMove, tab: int, count: int) -> Option<int> {
    if count <= 0 {
        None
    } else {
        match m {
            TabMove::To(n) => if 1 <= n <= count {
                Some(n - 1)
            } else {
                None
            },
            TabMove::Next => Some((tab + 1) % count),
            TabMove::Prev => Some((tab + count - 1) % count),
        }
    }
}

/// The tab that a move leads to, if there is one.
pub fn tab_target(m: TabMove, tab: usize, count: usize) -> (r: Option<usize>)
    requires
        tab + count < usize::MAX,
    ensures
        match r {
            Some(t) => tab_after(m, tab as int, count as int) == Some(t as int),
            None => tab_after(m, tab as int, count as int) is None,
        },
{
    if count == 0 {
        return None;
    }
    match m {
        TabMove::To(n) => if n >= 1 && n <= count {
            Some(n - 1)
        } else {
            None
        },
        TabMove::Next => Some((tab + 1) % count),
        TabMove::Prev => Some((tab + count - 1) % count),
    }
}

/// Goes to the tab that a move leads to, and nowhere if it leads to none.
pub fn go_tab(view: &mut Bench, m: TabMove, count: usize)
    requires
        old(view)@.tab + count < usize::MAX,
    ensures
        final(view)@ == (match tab_after(m, old(view)@.tab as int, count as int) {
            Some(t) => on_tab(old(view)@, t as usize),
            None => old(view)@,
        }),
{
    if let Some(to) = tab_target(m, view.tab, count) {
        select_tab(view, to);
    }
}

/// A move leads to one of the tabs there are, and next and previous undo each
/// other.
pub proof fn a_tab_move_stays_among_the_tabs(m: TabMove, tab: int, count: int)
    requires
        0 <= tab < count,
    ensures
        tab_after(m, tab, count) is Some ==> 0 <= tab_after(m, tab, count)->0 < count,
        tab_after(TabMove::Prev, tab_after(TabMove::Next, tab, count)->0, count) == Some(tab),
        tab_after(TabMove::Next, tab_after(TabMove::Prev, tab, count)->0, count) == Some(tab),
{
    if tab + 1 < count {
        assert((tab + 1) % count == tab + 1) by (nonlinear_arith)
            requires
                0 <= tab,
                tab + 1 < count,
        ;
        assert((tab + 1 + count - 1) % count == tab) by (nonlinear_arith)
            requires
                0 <= tab,
                tab + 1 < count,
        ;
    } else {
        assert((tab + 1) % count == 0) by (nonlinear_arith)
            requires
                tab + 1 == count,
                count > 0,
        ;
        assert((0 + count - 1) % count == tab) by (nonlinear_arith)
            requires
                tab + 1 == count,
                count > 0,
        ;
    }
    if tab > 0 {
        assert((tab + count - 1) % count == tab - 1) by (nonlinear_arith)
            requires
                0 < tab < count,
        ;
        assert((tab - 1 + 1) % count == tab) by (nonlinear_arith)
            requires
                0 < tab < count,
        ;
    } else {
        assert((0 + count - 1) % count == count - 1) by (nonlinear_arith)
            requires
                count > 0,
        ;
        assert((count - 1 + 1) % count == 0) by (nonlinear_arith)
            requires
                count > 0,
        ;
    }
}

/// A view that shows a pane that was just made: on the stage, with the
/// keyboard, on the page that has a stage.
pub open spec fn showing_pane(v: BenchModel, pane: PaneId) -> BenchModel {
    BenchOf { staged: Some(pane), focus: Focus::Stage, page: Page::Agents, ..v }
}

/// Shows a pane that was just made.
pub fn stage_new_pane(view: &mut Bench, pane: PaneId)
    ensures
        final(view)@ == showing_pane(old(view)@, pane),
{
    view.staged = Some(pane);
    view.focus = Focus::Stage;
    view.page = Page::Agents;
}

/// Where the keyboard is once a page has been arrived at: on the fleet in the
/// booth, on the history of the git page, and never in a list that the page
/// does not draw.
pub open spec fn arrival_focus(page: Page, focus: Focus) -> Focus {
    if page is Booth {
        Focus::AllAgents
    } else if page is Git {
        Focus::History
    } else if focus is Refs || focus is History || focus is AllAgents {
        Focus::Stage
    } else {
        focus
    }
}

/// A view that has arrived at its page, and what that asks for: a page with a
/// tree asks for the top of it.
pub open spec fn arrived(v: BenchModel) -> (BenchModel, FlowModel) {
    (
        BenchOf { focus: arrival_focus(v.page, v.focus), ..v },
        if v.page.is_tree() {
            FlowOf::ListDir(Seq::empty())
        } else {
            FlowOf::Continue
        },
    )
}

/// Arrives at the view's page.
pub fn open_page(view: &mut Bench) -> (f: Flow)
    ensures
        (final(view)@, f@) == arrived(old(view)@),
{
    if view.page == Page::Booth {
        view.focus = Focus::AllAgents;
    } else if view.page == Page::Git {
        view.focus = Focus::History;
    } else if view.focus == Focus::Refs || view.focus == Focus::History || view.focus
        == Focus::AllAgents {
        view.focus = Focus::Stage;
    }
    if view.page.is_tree() {
        Flow::ListDir(String::new())
    } else {
        Flow::Continue
    }
}

/// Arriving at the booth puts the keyboard on the fleet, and arriving anywhere
/// else takes it out of the fleet again, as does choosing a workspace there.
pub proof fn arriving_puts_the_keyboard_in_a_list_that_is_drawn(v: BenchModel)
    ensures
        v.page is Booth ==> arrived(v).0.focus is AllAgents,
        v.page is Git ==> arrived(v).0.focus is History,
        v.page !is Booth ==> arrived(v).0.focus !is AllAgents,
        v.page !is Git ==> arrived(v).0.focus !is Refs && arrived(v).0.focus !is History,
        arrived(arrived(v).0).0 == arrived(v).0,
        forall|tab: usize|
            v.page is Booth ==> (#[trigger] on_tab(v, tab)).page is Agents && on_tab(
                v,
                tab,
            ).focus !is AllAgents,
{
}

/// A verb of the workbench, whichever layer of keys named it.
#[derive(Clone, Copy, Debug, PartialEq, Eq, Structural)]
pub enum ViewVerb {
    Space(Page),
    SpaceNext,
    SpacePrev,
    Focus(Focus),
    Tab(usize),
    TabNext,
    TabPrev,
    NewWorkspace,
    CloseWorkspace,
    Host,
    Spaces,
    Layout,
    NewTerminal,
    Monitor { gpu: bool },
    Search,
    Branch,
    Update,
    Links,
    Help,
}

/// Where a page stands among the spaces; one that is not among them counts as
/// the first.
pub open spec fn space_index(spaces: Seq<Page>, page: Page) -> int
    decreases spaces.len(),
{
    if spaces.len() == 0 {
        0
    } else if spaces.drop_last().contains(page) {
        space_index(spaces.drop_last(), page)
    } else if spaces.last() == page {
        spaces.len() - 1
    } else {
        0
    }
}

/// The space `by` places after a page, round the ring of spaces.
pub open spec fn space_after(spaces: Seq<Page>, page: Page, by: int) -> Page {
    if spaces.len() == 0 {
        page
    } else {
        spaces[(space_index(spaces, page) + by) % (spaces.len() as int)]
    }
}

proof fn space_index_found(spaces: Seq<Page>, page: Page, i: int)
    requires
        0 <= i < spaces.len(),
        spaces[i] == page,
        forall|j: int| 0 <= j < i ==> spaces[j] != page,
    ensures
        space_index(spaces, page) == i,
    decreases spaces.len(),
{
    if i == spaces.len() - 1 {
        assert(!spaces.drop_last().contains(page));
    } else {
        assert(spaces.drop_last()[i] == page);
        space_index_found(spaces.drop_last(), page, i);
    }
}

proof fn space_index_missing(spaces: Seq<Page>, page: Page)
    requires
        forall|j: int| 0 <= j < spaces.len() ==> spaces[j] != page,
    ensures
        space_index(spaces, page) == 0,
{
    if spaces.len() > 0 {
        assert(!spaces.drop_last().contains(page));
    }
}

/// Where a page stands among the spaces.
pub fn find_space(spaces: &Vec<Page>, page: Page) -> (r: usize)
    ensures
        r == space_index(spaces@, page),
        spaces@.len() > 0 ==> r < spaces@.len(),
{
    let mut i: usize = 0;
    while i < spaces.len()
        invariant
            i <= spaces@.len(),
            forall|j: int| 0 <= j < i ==> spaces@[j] != page,
        decreases spaces@.len() - i,
    {
        if spaces[i] == page {
            proof {
                space_index_found(spaces@, page, i as int);
            }
            return i;
        }
        i = i + 1;
    }
    proof {
        space_index_missing(spaces@, page);
    }
    0
}

fn walk_spaces(spaces: &Vec<Page>, page: Page, back: bool) -> (r: Page)
    ensures
        r == space_after(
            spaces@,
            page,
            if back {
                spaces@.len() - 1
            } else {
                1
            },
        ),
{
    if spaces.len() == 0 {
        return page;
    }
    let at: usize = find_space(spaces, page);
    let last: usize = spaces.len() - 1;
    proof {
        let n = spaces@.len() as int;
        if at < last {
            assert((at + 1) % n == at + 1) by (nonlinear_arith)
                requires
                    0 <= at,
                    at + 1 < n,
            ;
        } else {
            assert((at + 1) % n == 0) by (nonlinear_arith)
                requires
                    at + 1 == n,
                    n > 0,
            ;
        }
        if at > 0 {
            assert((at + (n - 1)) % n == at - 1) by (nonlinear_arith)
                requires
                    0 < at < n,
            ;
        } else {
            assert((at + (n - 1)) % n == n - 1) by (nonlinear_arith)
                requires
                    at == 0,
                    n > 0,
            ;
        }
    }
    if back {
        if at > 0 {
            spaces[at - 1]
        } else {
            spaces[last]
        }
    } else if at < last {
        spaces[at + 1]
    } else {
        spaces[0]
    }
}

/// The command that watches the graphics cards, with whichever of the tools
/// for it is installed.
pub open spec fn gpu_command() -> Seq<char> {
    "if command -v nvtop >/dev/null 2>&1; then exec nvtop; elif command -v nvidia-smi >/dev/null 2>&1; then exec watch -n1 nvidia-smi; elif command -v rocm-smi >/dev/null 2>&1; then exec watch -n1 rocm-smi; elif command -v radeontop >/dev/null 2>&1; then exec radeontop; else echo 'no GPU monitor (install nvtop / nvidia-smi / rocm-smi)'; sleep 5; fi"@
}

/// The command that watches the graphics cards.
pub fn gpu_monitor() -> (s: String)
    ensures
        s@ == gpu_command(),
{
    "if command -v nvtop >/dev/null 2>&1; then exec nvtop; elif command -v nvidia-smi >/dev/null 2>&1; then exec watch -n1 nvidia-smi; elif command -v rocm-smi >/dev/null 2>&1; then exec watch -n1 rocm-smi; elif command -v radeontop >/dev/null 2>&1; then exec radeontop; else echo 'no GPU monitor (install nvtop / nvidia-smi / rocm-smi)'; sleep 5; fi".to_owned()
}

/// A new shell on the stage.
pub open spec fn shell_flow() -> FlowModel {
    FlowOf::RunProcess { name: "shell"@, command: Seq::empty(), then: SpawnedOf::Stage }
}

/// A new shell on the stage.
pub fn new_shell() -> (f: Flow)
    ensures
        f@ == shell_flow(),
{
    Flow::RunProcess { name: "shell".to_owned(), command: String::new(), then: Spawned::Stage }
}

/// What a verb does to the view, and what it asks for.
pub open spec fn viewed(verb: ViewVerb, v: BenchModel) -> (BenchModel, FlowModel) {
    match verb {
        ViewVerb::Space(page) => arrived(
            BenchOf {
                page: if v.page == page {
                    Page::Agents
                } else {
                    page
                },
                ..v
            },
        ),
        ViewVerb::SpaceNext => arrived(BenchOf { page: space_after(v.spaces, v.page, 1), ..v }),
        ViewVerb::SpacePrev => arrived(
            BenchOf { page: space_after(v.spaces, v.page, v.spaces.len() - 1), ..v },
        ),
        ViewVerb::Focus(section) => (
            if section is AllAgents {
                BenchOf { page: Page::Booth, focus: Focus::AllAgents, ..v }
            } else if v.page is Booth && section !is Stage {
                BenchOf { focus: Focus::AllAgents, ..v }
            } else {
                BenchOf { focus: section, ..v }
            },
            FlowOf::Continue,
        ),
        ViewVerb::Tab(n) => (v, FlowOf::GoTab(TabMove::To(n))),
        ViewVerb::TabNext => (v, FlowOf::GoTab(TabMove::Next)),
        ViewVerb::TabPrev => (v, FlowOf::GoTab(TabMove::Prev)),
        ViewVerb::NewWorkspace => (v, FlowOf::BrowseHere),
        ViewVerb::CloseWorkspace => (v, FlowOf::AskCloseWorkspace),
        ViewVerb::Host => (v, FlowOf::PickHost),
        ViewVerb::Spaces => (v, FlowOf::PickSpace),
        ViewVerb::Layout => (v, FlowOf::ToggleLayout),
        ViewVerb::NewTerminal => (BenchOf { page: Page::Agents, ..v }, shell_flow()),
        ViewVerb::Monitor { gpu } => (
            BenchOf { page: Page::Agents, ..v },
            FlowOf::RunProcess {
                name: if gpu {
                    "gpu"@
                } else {
                    "top"@
                },
                command: if gpu {
                    gpu_command()
                } else {
                    "htop"@
                },
                then: SpawnedOf::Stage,
            },
        ),
        ViewVerb::Search => (
            BenchOf { overlay: Some(OverlayOf::Search(empty_search())), ..v },
            FlowOf::Search(Seq::empty()),
        ),
        ViewVerb::Branch => (v, FlowOf::PickBranch),
        ViewVerb::Update => (v, FlowOf::CheckUpdate),
        ViewVerb::Links => (v, FlowOf::PickLinks),
        ViewVerb::Help => if v.page is Help {
            (v, FlowOf::CloseHelp)
        } else {
            (BenchOf { overlay: None, ..v }, FlowOf::OpenHelp)
        },
    }
}

/// Carries out a verb of the workbench.
pub fn run_view(verb: ViewVerb, view: &mut Bench) -> (f: Flow)
    ensures
        (final(view)@, f@) == viewed(verb, old(view)@),
{
    match verb {
        ViewVerb::Space(page) => {
            view.page = if view.page == page {
                Page::Agents
            } else {
                page
            };
            open_page(view)
        },
        ViewVerb::SpaceNext => {
            view.page = walk_spaces(&view.spaces, view.page, false);
            open_page(view)
        },
        ViewVerb::SpacePrev => {
            view.page = walk_spaces(&view.spaces, view.page, true);
            open_page(view)
        },
        ViewVerb::Focus(section) => {
            if section == Focus::AllAgents {
                view.page = Page::Booth;
                view.focus = Focus::AllAgents;
            } else if view.page == Page::Booth && section != Focus::Stage {
                view.focus = Focus::AllAgents;
            } else {
                view.focus = section;
            }
            Flow::Continue
        },
        ViewVerb::Tab(n) => Flow::GoTab(TabMove::To(n)),
        ViewVerb::TabNext => Flow::GoTab(TabMove::Next),
        ViewVerb::TabPrev => Flow::GoTab(TabMove::Prev),
        ViewVerb::NewWorkspace => Flow::BrowseHere,
        ViewVerb::CloseWorkspace => Flow::AskCloseWorkspace,
        ViewVerb::Host => Flow::PickHost,
        ViewVerb::Spaces => Flow::PickSpace,
        ViewVerb::Layout => Flow::ToggleLayout,
        ViewVerb::NewTerminal => {
            view.page = Page::Agents;
            new_shell()
        },
        ViewVerb::Monitor { gpu } => {
            view.page = Page::Agents;
            Flow::RunProcess {
                name: if gpu {
                    "gpu".to_owned()
                } else {
                    "top".to_owned()
                },
                command: if gpu {
                    gpu_monitor()
                } else {
                    "htop".to_owned()
                },
                then: Spawned::Stage,
            }
        },
        ViewVerb::Search => {
            view.overlay = Some(Overlay::Search(new_search()));
            Flow::Search(String::new())
        },
        ViewVerb::Branch => Flow::PickBranch,
        ViewVerb::Update => Flow::CheckUpdate,
        ViewVerb::Links => Flow::PickLinks,
        ViewVerb::Help => {
            if view.page == Page::Help {
                Flow::CloseHelp
            } else {
                view.overlay = None;
                Flow::OpenHelp
            }
        },
    }
}

/// A space's verb pressed twice comes back to the agents, whichever page the
/// first press left.
pub proof fn a_space_toggles_back_to_the_agents(v: BenchModel, page: Page)
    requires
        v.page != page,
        page !is Agents,
    ensures
        viewed(ViewVerb::Space(page), v).0.page == page,
        viewed(ViewVerb::Space(page), viewed(ViewVerb::Space(page), v).0).0.page is Agents,
{
}

proof fn space_index_first(spaces: Seq<Page>, page: Page)
    requires
        spaces.contains(page),
    ensures
        0 <= space_index(spaces, page) < spaces.len(),
        spaces[space_index(spaces, page)] == page,
    decreases spaces.len(),
{
    if spaces.drop_last().contains(page) {
        space_index_first(spaces.drop_last(), page);
    } else {
        let i = choose|i: int| 0 <= i < spaces.len() && spaces[i] == page;
        if i < spaces.len() - 1 {
            assert(spaces.drop_last()[i] == page);
        }
    }
}

/// Among spaces that are all different, walking on and then back leads to the
/// page it started from.
pub proof fn walking_the_spaces_on_and_back(v: BenchModel)
    requires
        v.spaces.contains(v.page),
        v.spaces.no_duplicates(),
    ensures
        viewed(ViewVerb::SpacePrev, viewed(ViewVerb::SpaceNext, v).0).0.page == v.page,
{
    let n = v.spaces.len() as int;
    let at = space_index(v.spaces, v.page);
    space_index_first(v.spaces, v.page);
    let next = space_after(v.spaces, v.page, 1);
    let to = (at + 1) % n;
    assert(0 <= to < n) by (nonlinear_arith)
        requires
            n > 0,
            to == (at + 1) % n,
    ;
    assert(v.spaces[to] == next);
    assert(v.spaces.contains(next));
    space_index_first(v.spaces, next);
    assert(space_index(v.spaces, next) == to);
    assert((to + (n - 1)) % n == at) by (nonlinear_arith)
        requires
            0 <= at < n,
            to == (at + 1) % n,
    {
        if at + 1 < n {
            assert((at + 1) % n == at + 1) by (nonlinear_arith)
                requires
                    0 <= at,
                    at + 1 < n,
            ;
            assert((at + 1 + (n - 1)) % n == at) by (nonlinear_arith)
                requires
                    0 <= at < n,
            ;
        } else {
            assert((at + 1) % n == 0) by (nonlinear_arith)
                requires
                    at + 1 == n,
                    n > 0,
            ;
            assert((0 + (n - 1)) % n == n - 1) by (nonlinear_arith)
                requires
                    n > 0,
            ;
        }
    }
}

/// What a binding resolves to.
#[verifier::ext_equal]
#[derive(Clone, Debug, PartialEq, Eq)]
pub enum BoundOf<S> {
    Detach,
    Prompt,
    Zen,
    GitMenu,
    PickAgent,
    OpenFile(S),
    Theme(Option<S>),
    Scroll(i16),
    PinAgent(Option<S>),
    PasteImage,
    View(ViewVerb),
    SpawnAgent(S),
    NewProcess { name: S, command: S },
    ClosePane,
    KillServer { clear: bool },
    ReloadConfig,
    /// Something this client cannot do, and why, if there is something to say.
    Unsupported(Option<S>),
}

pub type Bound = BoundOf<String>;

pub type BoundModel = BoundOf<Seq<char>>;

impl View for BoundOf<String> {
    type V = BoundOf<Seq<char>>;

    open spec fn view(&self) -> BoundOf<Seq<char>> {
        match *self {
            BoundOf::Detach => BoundOf::Detach,
            BoundOf::Prompt => BoundOf::Prompt,
            BoundOf::Zen => BoundOf::Zen,
            BoundOf::GitMenu => BoundOf::GitMenu,
            BoundOf::PickAgent => BoundOf::PickAgent,
            BoundOf::OpenFile(p) => BoundOf::OpenFile(p@),
            BoundOf::Theme(n) => BoundOf::Theme(opt_text(n)),
            BoundOf::Scroll(n) => BoundOf::Scroll(n),
            BoundOf::PinAgent(n) => BoundOf::PinAgent(opt_text(n)),
            BoundOf::PasteImage => BoundOf::PasteImage,
            BoundOf::View(verb) => BoundOf::View(verb),
            BoundOf::SpawnAgent(n) => BoundOf::SpawnAgent(n@),
            BoundOf::NewProcess { name, command } => BoundOf::NewProcess {
                name: name@,
                command: command@,
            },
            BoundOf::ClosePane => BoundOf::ClosePane,
            BoundOf::KillServer { clear } => BoundOf::KillServer { clear },
            BoundOf::ReloadConfig => BoundOf::ReloadConfig,
            BoundOf::Unsupported(why) => BoundOf::Unsupported(opt_text(why)),
        }
    }
}

/// A copy of what a binding resolves to.
pub fn clone_bound(b: &Bound) -> (r: Bound)
    ensures
        r == *b,
{
    match b {
        Bound::Detach => Bound::Detach,
        Bound::Prompt => Bound::Prompt,
        Bound::Zen => Bound::Zen,
        Bound::GitMenu => Bound::GitMenu,
        Bound::PickAgent => Bound::PickAgent,
        Bound::OpenFile(p) => Bound::OpenFile(p.clone()),
        Bound::Theme(n) => Bound::Theme(crate::text::clone_opt(n)),
        Bound::Scroll(n) => Bound::Scroll(*n),
        Bound::PinAgent(n) => Bound::PinAgent(crate::text::clone_opt(n)),
        Bound::PasteImage => Bound::PasteImage,
        Bound::View(verb) => Bound::View(*verb),
        Bound::SpawnAgent(n) => Bound::SpawnAgent(n.clone()),
        Bound::NewProcess { name, command } => Bound::NewProcess {
            name: name.clone(),
            command: command.clone(),
        },
        Bound::ClosePane => Bound::ClosePane,
        Bound::KillServer { clear } => Bound::KillServer { clear: *clear },
        Bound::ReloadConfig => Bound::ReloadConfig,
        Bound::Unsupported(why) => Bound::Unsupported(crate::text::clone_opt(why)),
    }
}

/// The command line as it opens.
pub open spec fn command_line() -> OverlayModel {
    OverlayOf::Prompt(
        PromptOverlayOf {
            title: "COMMAND"@,
            text: Seq::empty(),
            cursor: 0,
            kind: PromptKindOf::Command,
            subtitle: Some("space · workspace · focus · agent · process · terminal · detach"@),
        },
    )
}

/// What a binding does to the view, and what it asks for.
pub open spec fn bound_to(b: BoundModel, v: BenchModel) -> (BenchModel, FlowModel) {
    match b {
        BoundOf::Detach => (v, FlowOf::Detach),
        BoundOf::Prompt => (BenchOf { overlay: Some(command_line()), ..v }, FlowOf::Continue),
        BoundOf::Zen => (BenchOf { zen: !v.zen, ..v }, FlowOf::Continue),
        BoundOf::GitMenu => (v, FlowOf::GitMenu),
        BoundOf::PickAgent => (v, FlowOf::PickAgent),
        BoundOf::OpenFile(path) => (
            BenchOf { page: Page::Files, ..v },
            if path.len() == 0 {
                FlowOf::ListDir(Seq::empty())
            } else {
                FlowOf::OpenFile(path)
            },
        ),
        BoundOf::Theme(name) => (
            BenchOf {
                flash: Some(
                    match name {
                        Some(n) => "themes are client-side now; set `theme = \""@ + n + "\"`"@,
                        None => "themes are client-side now; see [ui] theme in config.toml"@,
                    },
                ),
                ..v
            },
            FlowOf::Continue,
        ),
        BoundOf::Scroll(n) => (v, FlowOf::Scroll(n)),
        BoundOf::PinAgent(n) => (v, FlowOf::PinAgent(n)),
        BoundOf::PasteImage => (v, FlowOf::PasteImage),
        BoundOf::View(verb) => viewed(verb, v),
        BoundOf::SpawnAgent(n) => (v, FlowOf::SpawnAgent(n)),
        BoundOf::NewProcess { name, command } => (
            v,
            FlowOf::RunProcess { name, command, then: SpawnedOf::Stage },
        ),
        BoundOf::ClosePane => (v, FlowOf::CloseStagePane),
        BoundOf::KillServer { clear } => (
            v,
            FlowOf::Control(
                if clear {
                    Command::KillServerClear
                } else {
                    Command::KillServer
                },
            ),
        ),
        BoundOf::ReloadConfig => (v, FlowOf::Control(Command::ReloadConfig)),
        BoundOf::Unsupported(why) => (BenchOf { flash: why, ..v }, FlowOf::Continue),
    }
}

/// Carries out what a binding resolves to.
pub fn run_bound(bound: Bound, view: &mut Bench) -> (f: Flow)
    ensures
        (final(view)@, f@) == bound_to(bound@, old(view)@),
{
    match bound {
        Bound::Detach => Flow::Detach,
        Bound::Prompt => {
            view.overlay = Some(
                Overlay::Prompt(
                    PromptOverlayOf {
                        title: "COMMAND".to_owned(),
                        text: String::new(),
                        cursor: 0,
                        kind: PromptKindOf::Command,
                        subtitle: Some(
                            "space · workspace · focus · agent · process · terminal · detach".to_owned(),
                        ),
                    },
                ),
            );
            Flow::Continue
        },
        Bound::Zen => {
            view.zen = !view.zen;
            Flow::Continue
        },
        Bound::GitMenu => Flow::GitMenu,
        Bound::PickAgent => Flow::PickAgent,
        Bound::OpenFile(path) => {
            view.page = Page::Files;
            if path.as_str().is_empty() {
                Flow::ListDir(String::new())
            } else {
                Flow::OpenFile(path)
            }
        },
        Bound::Theme(name) => {
            view.flash = Some(
                match name {
                    Some(n) => cat3(
                        "themes are client-side now; set `theme = \"",
                        n.as_str(),
                        "\"`",
                    ),
                    None => "themes are client-side now; see [ui] theme in config.toml".to_owned(),
                },
            );
            Flow::Continue
        },
        Bound::Scroll(pages) => Flow::Scroll(pages),
        Bound::PinAgent(name) => Flow::PinAgent(name),
        Bound::PasteImage => Flow::PasteImage,
        Bound::View(verb) => run_view(verb, view),
        Bound::SpawnAgent(name) => Flow::SpawnAgent(name),
        Bound::NewProcess { name, command } => Flow::RunProcess {
            name,
            command,
            then: Spawned::Stage,
        },
        Bound::ClosePane => Flow::CloseStagePane,
        Bound::KillServer { clear } => Flow::Control(
            if clear {
                Command::KillServerClear
            } else {
                Command::KillServer
            },
        ),
        Bound::ReloadConfig => Flow::Control(Command::ReloadConfig),
        Bound::Unsupported(why) => {
            view.flash = why;
            Flow::Continue
        },
    }
}

/// What a typed command line does once it has been read: the command it names,
/// or why it names none.
pub fn run_command(parsed: Result<Bound, String>, view: &mut Bench) -> (f: Flow)
    ensures
        (final(view)@, f@) == (match parsed {
            Ok(b) => bound_to(b@, old(view)@),
            Err(e) => (BenchOf { flash: Some(e@), ..old(view)@ }, FlowOf::Continue),
        }),
{
    match parsed {
        Ok(bound) => run_bound(bound, view),
        Err(e) => {
            view.flash = Some(e);
            Flow::Continue
        },
    }
}

/// The verb that a key with Alt held names.
pub open spec fn alt_named(code: KeyCode) -> Option<ViewVerb> {
    match code {
        KeyCode::Esc => Some(ViewVerb::Focus(Focus::Agents)),
        KeyCode::Char(c) => if c == 'x' {
            Some(ViewVerb::CloseWorkspace)
        } else if c == 'o' {
            Some(ViewVerb::Space(Page::Files))
        } else if c == 'c' {
            Some(ViewVerb::Space(Page::Docker))
        } else if c == 'm' {
            Some(ViewVerb::Space(Page::Docs))
        } else if c == 'r' {
            Some(ViewVerb::Space(Page::Git))
        } else if c == 'u' {
            Some(ViewVerb::Space(Page::Usage))
        } else if c == ',' {
            Some(ViewVerb::SpacePrev)
        } else if c == '.' {
            Some(ViewVerb::SpaceNext)
        } else if c == ' ' {
            Some(ViewVerb::Spaces)
        } else if c == '<' {
            Some(ViewVerb::TabPrev)
        } else if c == '>' {
            Some(ViewVerb::TabNext)
        } else if '1' <= c && c <= '9' {
            Some(ViewVerb::Tab((c as int - '0' as int) as usize))
        } else if c == 'a' {
            Some(ViewVerb::Focus(Focus::Agents))
        } else if c == 'p' {
            Some(ViewVerb::Focus(Focus::Processes))
        } else if c == 'g' {
            Some(ViewVerb::Focus(Focus::Changes))
        } else if c == 'w' {
            Some(ViewVerb::Focus(Focus::AllAgents))
        } else if c == 'h' {
            Some(ViewVerb::Host)
        } else if c == 'l' {
            Some(ViewVerb::Layout)
        } else if c == 't' {
            Some(ViewVerb::NewTerminal)
        } else if c == 'n' {
            Some(ViewVerb::NewWorkspace)
        } else if c == '/' {
            Some(ViewVerb::Search)
        } else {
            None
        },
        _ => None,
    }
}

/// The verb that a key with Alt held names.
pub fn alt_verb(code: KeyCode) -> (r: Option<ViewVerb>)
    ensures
        r == alt_named(code),
{
    match code {
        KeyCode::Esc => Some(ViewVerb::Focus(Focus::Agents)),
        KeyCode::Char(c) => match c {
            'x' => Some(ViewVerb::CloseWorkspace),
            'o' => Some(ViewVerb::Space(Page::Files)),
            'c' => Some(ViewVerb::Space(Page::Docker)),
            'm' => Some(ViewVerb::Space(Page::Docs)),
            'r' => Some(ViewVerb::Space(Page::Git)),
            'u' => Some(ViewVerb::Space(Page::Usage)),
            ',' => Some(ViewVerb::SpacePrev),
            '.' => Some(ViewVerb::SpaceNext),
            ' ' => Some(ViewVerb::Spaces),
            '<' => Some(ViewVerb::TabPrev),
            '>' => Some(ViewVerb::TabNext),
            'a' => Some(ViewVerb::Focus(Focus::Agents)),
            'p' => Some(ViewVerb::Focus(Focus::Processes)),
            'g' => Some(ViewVerb::Focus(Focus::Changes)),
            'w' => Some(ViewVerb::Focus(Focus::AllAgents)),
            'h' => Some(ViewVerb::Host),
            'l' => Some(ViewVerb::Layout),
            't' => Some(ViewVerb::NewTerminal),
            'n' => Some(ViewVerb::NewWorkspace),
            '/' => Some(ViewVerb::Search),
            _ => if '1' <= c && c <= '9' {
                Some(ViewVerb::Tab((c as u32 - '0' as u32) as usize))
            } else {
                None
            },
        },
        _ => None,
    }
}

/// What a key with Alt held does, where the chrome binds it at all.
pub open spec fn alt_bound(code: KeyCode, v: BenchModel) -> (BenchModel, Option<FlowModel>) {
    match alt_named(code) {
        Some(verb) => (viewed(verb, v).0, Some(viewed(verb, v).1)),
        None => if code == KeyCode::Char('d') {
            (v, Some(FlowOf::Detach))
        } else if code == KeyCode::Char('z') {
            (BenchOf { zen: !v.zen, ..v }, Some(FlowOf::Continue))
        } else if code == KeyCode::Char('e') {
            let to = arrived(BenchOf { page: Page::Files, ..v });
            (to.0, Some(to.1))
        } else if code == KeyCode::Char('0') {
            let to = arrived(let_go(BenchOf { page: Page::Booth, ..v }));
            (to.0, Some(to.1))
        } else if code == KeyCode::Char('s') {
            (
                v,
                Some(
                    if v.page is Settings {
                        FlowOf::Continue
                    } else {
                        FlowOf::OpenSettings
                    },
                ),
            )
        } else if code == KeyCode::Char('v') {
            (v, Some(FlowOf::PasteImage))
        } else if code is Enter {
            (v, Some(FlowOf::PickAgent))
        } else {
            (v, None)
        },
    }
}

/// Carries out a key with Alt held, if the chrome binds it. One that it does
/// not bind is left to the pane.
pub fn alt_binding(code: KeyCode, view: &mut Bench) -> (r: Option<Flow>)
    ensures
        (final(view)@, opt_flow(r)) == alt_bound(code, old(view)@),
{
    if let Some(verb) = alt_verb(code) {
        return Some(run_view(verb, view));
    }
    match code {
        KeyCode::Char('d') => Some(Flow::Detach),
        KeyCode::Char('z') => {
            view.zen = !view.zen;
            Some(Flow::Continue)
        },
        KeyCode::Char('e') => {
            view.page = Page::Files;
            Some(open_page(view))
        },
        KeyCode::Char('0') => {
            view.page = Page::Booth;
            reset_sel(view);
            Some(open_page(view))
        },
        KeyCode::Char('s') => Some(
            if view.page == Page::Settings {
                Flow::Continue
            } else {
                Flow::OpenSettings
            },
        ),
        KeyCode::Char('v') => Some(Flow::PasteImage),
        KeyCode::Enter => Some(Flow::PickAgent),
        _ => None,
    }
}

/// A key that the Alt layer does not bind changes nothing.
pub proof fn an_unbound_alt_key_changes_nothing(code: KeyCode, v: BenchModel)
    ensures
        alt_bound(code, v).1 is None ==> alt_bound(code, v).0 == v,
{
}

/// The letter that a composed character stands for, by a table of composed
/// characters and their letters.
pub open spec fn composed_from(table: Seq<(char, char)>, c: char) -> Option<char>
    decreases table.len(),
{
    if table.len() == 0 {
        None
    } else if table[0].0 == c {
        Some(table[0].1)
    } else {
        composed_from(table.skip(1), c)
    }
}

/// A key as it is read where a composed character stands for Alt and a letter.
pub open spec fn uncomposed(k: KeyEvent, table: Seq<(char, char)>) -> KeyEvent {
    if k.alt || k.ctrl {
        k
    } else {
        match k.code {
            KeyCode::Char(c) => match composed_from(table, c) {
                Some(plain) => KeyEvent {
                    code: KeyCode::Char(plain),
                    ctrl: false,
                    alt: true,
                    shift: false,
                },
                None => k,
            },
            _ => k,
        }
    }
}

/// Reads a composed character as Alt and the letter it stands for. A key that
/// already has a modifier, and a character the table does not hold, stay as
/// they are.
pub fn mac_option(k: KeyEvent, table: &Vec<(char, char)>) -> (r: KeyEvent)
    ensures
        r == uncomposed(k, table@),
{
    if k.alt || k.ctrl {
        return k;
    }
    match k.code {
        KeyCode::Char(c) => {
            let mut i: usize = 0;
            assert(table@.skip(0) =~= table@);
            while i < table.len()
                invariant
                    i <= table@.len(),
                    composed_from(table@.skip(i as int), c) == composed_from(table@, c),
                    !k.alt && !k.ctrl,
                    k.code == KeyCode::Char(c),
                decreases table@.len() - i,
            {
                assert(table@.skip(i as int).skip(1) =~= table@.skip(i as int + 1));
                if table[i].0 == c {
                    return KeyEvent {
                        code: KeyCode::Char(table[i].1),
                        ctrl: false,
                        alt: true,
                        shift: false,
                    };
                }
                i = i + 1;
            }
            k
        },
        _ => k,
    }
}

/// A key that is held with a modifier is never read as another; and a key that
/// is read as another is then one that is held with alt, and stays what it is.
pub proof fn a_modified_key_is_what_it_is(k: KeyEvent, table: Seq<(char, char)>)
    ensures
        k.alt || k.ctrl ==> uncomposed(k, table) == k,
        uncomposed(k, table) != k ==> uncomposed(k, table).alt,
        uncomposed(uncomposed(k, table), table) == uncomposed(k, table),
{
}

/// Whether a section stands on the right rail.
pub open spec fn on_right_rail(focus: Focus) -> bool {
    focus is Changes
}

/// What a key does in layout mode: the arrows and their letters resize the
/// rail or the section the cursor is in, and escape or enter leaves.
pub open spec fn layout_flow(k: KeyEvent, focus: Focus) -> FlowModel {
    let left = !on_right_rail(focus);
    match k.code {
        KeyCode::Left => FlowOf::Resize(GeomStep::Rail { left, delta: (-2) as i16 }),
        KeyCode::Right => FlowOf::Resize(GeomStep::Rail { left, delta: 2 }),
        KeyCode::Up => FlowOf::Resize(GeomStep::Section { focus, delta: 2 }),
        KeyCode::Down => FlowOf::Resize(GeomStep::Section { focus, delta: (-2) as i16 }),
        KeyCode::Char(c) => if c == 'h' {
            FlowOf::Resize(GeomStep::Rail { left, delta: (-2) as i16 })
        } else if c == 'l' {
            FlowOf::Resize(GeomStep::Rail { left, delta: 2 })
        } else if c == 'k' {
            FlowOf::Resize(GeomStep::Section { focus, delta: 2 })
        } else if c == 'j' {
            FlowOf::Resize(GeomStep::Section { focus, delta: (-2) as i16 })
        } else {
            FlowOf::Continue
        },
        KeyCode::Esc | KeyCode::Enter => FlowOf::ToggleLayout,
        _ => FlowOf::Continue,
    }
}

/// Carries out a key in layout mode.
pub fn handle_layout_key(k: KeyEvent, view: &Bench) -> (f: Flow)
    ensures
        f@ == layout_flow(k, view@.focus),
{
    let left = view.focus != Focus::Changes;
    match k.code {
        KeyCode::Left | KeyCode::Char('h') => Flow::Resize(GeomStep::Rail { left, delta: -2 }),
        KeyCode::Right | KeyCode::Char('l') => Flow::Resize(GeomStep::Rail { left, delta: 2 }),
        KeyCode::Up | KeyCode::Char('k') => Flow::Resize(
            GeomStep::Section { focus: view.focus, delta: 2 },
        ),
        KeyCode::Down | KeyCode::Char('j') => Flow::Resize(
            GeomStep::Section { focus: view.focus, delta: -2 },
        ),
        KeyCode::Esc | KeyCode::Enter => Flow::ToggleLayout,
        _ => Flow::Continue,
    }
}

/// The cursor of the list that has the keyboard moves one row on or back and
/// stops at the ends of that list; no other cursor moves, and nothing else of
/// the view changes.
pub proof fn a_cursor_moves_one_row_in_its_own_list(v: BenchModel, c: Counts)
    ensures
        v.focus is Agents && v.agent_sel < c.agents ==> moved(v, c, 1) == (BenchOf {
            agent_sel: if v.agent_sel + 1 < c.agents {
                (v.agent_sel + 1) as usize
            } else {
                v.agent_sel
            },
            ..v
        }) && moved(v, c, -1) == (BenchOf {
            agent_sel: if v.agent_sel > 0 {
                (v.agent_sel - 1) as usize
            } else {
                0
            },
            ..v
        }),
        v.focus is Processes && v.proc_sel < c.procs ==> moved(v, c, 1) == (BenchOf {
            proc_sel: if v.proc_sel + 1 < c.procs {
                (v.proc_sel + 1) as usize
            } else {
                v.proc_sel
            },
            ..v
        }) && moved(v, c, -1) == (BenchOf {
            proc_sel: if v.proc_sel > 0 {
                (v.proc_sel - 1) as usize
            } else {
                0
            },
            ..v
        }),
        v.focus is Changes && v.changes_sel < c.changes ==> moved(v, c, 1) == (BenchOf {
            changes_sel: if v.changes_sel + 1 < c.changes {
                (v.changes_sel + 1) as usize
            } else {
                v.changes_sel
            },
            ..v
        }) && moved(v, c, -1) == (BenchOf {
            changes_sel: if v.changes_sel > 0 {
                (v.changes_sel - 1) as usize
            } else {
                0
            },
            ..v
        }),
        v.focus is AllAgents && v.all_agents_sel < c.all_agents ==> moved(v, c, 1) == (BenchOf {
            all_agents_sel: if v.all_agents_sel + 1 < c.all_agents {
                (v.all_agents_sel + 1) as usize
            } else {
                v.all_agents_sel
            },
            ..v
        }) && moved(v, c, -1) == (BenchOf {
            all_agents_sel: if v.all_agents_sel > 0 {
                (v.all_agents_sel - 1) as usize
            } else {
                0
            },
            ..v
        }),
        v.focus is Stage || v.focus is Refs || v.focus is History ==> moved(v, c, 1) == v && moved(
            v,
            c,
            -1,
        ) == v,
{
}

/// A step in a list of rows lands just as many rows away, short of the ends,
/// and on the end it would pass otherwise.
pub proof fn a_step_is_as_long_as_it_says(sel: int, delta: int, len: int)
    requires
        0 < len,
    ensures
        0 <= sel + delta < len ==> stepped(sel, delta, len) == sel + delta,
        sel + delta < 0 ==> stepped(sel, delta, len) == 0,
        sel + delta >= len ==> stepped(sel, delta, len) == len - 1,
{
}

/// Enter on an agent or a process puts its pane on the stage, on a change it
/// opens the diff, and on the fleet in the booth it goes to that agent.
pub proof fn enter_opens_the_row_it_is_on(page: Page, sel: usize)
    ensures
        selected_flow(Focus::Agents, page, sel) == FlowOf::<Seq<char>>::StageSelected,
        selected_flow(Focus::Processes, page, sel) == FlowOf::<Seq<char>>::StageSelected,
        selected_flow(Focus::Changes, page, sel) == FlowOf::<Seq<char>>::OpenSelectedDiff,
        selected_flow(Focus::AllAgents, Page::Booth, sel) == FlowOf::<Seq<char>>::OpenFleetAgent(
            sel,
        ),
        page !is Booth ==> selected_flow(Focus::AllAgents, page, sel) == FlowOf::<
            Seq<char>,
        >::StageSelected,
        selected_flow(Focus::Stage, page, sel) == FlowOf::<Seq<char>>::Continue,
        selected_flow(Focus::Refs, page, sel) == FlowOf::<Seq<char>>::Continue,
        selected_flow(Focus::History, page, sel) == FlowOf::<Seq<char>>::Continue,
{
}

/// Going to another tab lets go of what belonged to the workspace that is
/// left: its cursors and the pane that was put on the stage. The booth is left
/// for the agents, and every other page stays.
pub proof fn a_tab_is_gone_to_without_its_leftovers(v: BenchModel, tab: usize)
    ensures
        on_tab(v, tab).tab == tab,
        on_tab(v, tab).staged is None,
        on_tab(v, tab).agent_sel == 0,
        on_tab(v, tab).proc_sel == 0,
        on_tab(v, tab).changes_sel == 0,
        on_tab(v, tab).all_agents_sel == v.all_agents_sel,
        on_tab(v, tab).overlay == v.overlay,
        v.page is Booth ==> on_tab(v, tab).page is Agents,
        v.page !is Booth ==> on_tab(v, tab).page == v.page && on_tab(v, tab).focus == v.focus,
{
}

/// The tabs are named from one, and next and previous go around them.
pub proof fn a_tab_move_leads_to_the_tab_it_names(n: usize, tab: int, count: int)
    requires
        0 <= tab < count,
    ensures
        1 <= n <= count ==> tab_after(TabMove::To(n), tab, count) == Some(n - 1),
        n < 1 || n > count ==> tab_after(TabMove::To(n), tab, count) is None,
        tab_after(TabMove::Next, tab, count) == Some(
            if tab + 1 < count {
                tab + 1
            } else {
                0
            },
        ),
        tab_after(TabMove::Prev, tab, count) == Some(
            if tab > 0 {
                tab - 1
            } else {
                count - 1
            },
        ),
{
    if tab + 1 < count {
        vstd::arithmetic::div_mod::lemma_small_mod((tab + 1) as nat, count as nat);
    } else {
        vstd::arithmetic::div_mod::lemma_mod_self_0(count);
    }
    if tab > 0 {
        vstd::arithmetic::div_mod::lemma_small_mod((tab - 1) as nat, count as nat);
        vstd::arithmetic::div_mod::lemma_mod_add_multiples_vanish(tab - 1, count);
    } else {
        vstd::arithmetic::div_mod::lemma_small_mod((count - 1) as nat, count as nat);
    }
}

/// A pane that was just made is on the stage with the keyboard, on the page
/// that has a stage, and nothing else of the view changes.
pub proof fn a_new_pane_has_the_stage_and_the_keyboard(v: BenchModel, pane: PaneId)
    ensures
        showing_pane(v, pane).staged == Some(pane),
        showing_pane(v, pane).focus is Stage,
        showing_pane(v, pane).page is Agents,
        showing_pane(v, pane) == (BenchOf {
            staged: Some(pane),
            focus: Focus::Stage,
            page: Page::Agents,
            ..v
        }),
{
}

/// Arriving at a page with a tree asks for the top of it, and arriving
/// elsewhere asks for nothing. The page, the tab and the pane that was chosen
/// stay, and so does the keyboard where the page draws what it is on.
pub proof fn arriving_reads_the_top_of_a_tree(v: BenchModel)
    ensures
        v.page is Files || v.page is Docs ==> arrived(v).1 == FlowOf::<Seq<char>>::ListDir(
            Seq::empty(),
        ),
        v.page !is Files && v.page !is Docs ==> arrived(v).1 == FlowOf::<Seq<char>>::Continue,
        arrived(v).0 == (BenchOf { focus: arrived(v).0.focus, ..v }),
        v.page !is Booth && v.page !is Git && (v.focus is Agents || v.focus is Processes
            || v.focus is Changes || v.focus is Stage) ==> arrived(v).0.focus == v.focus,
        v.page !is Booth && v.page !is Git && (v.focus is Refs || v.focus is History
            || v.focus is AllAgents) ==> arrived(v).0.focus is Stage,
{
}

/// A space's verb shows its page, or the agents where it is showing already.
pub proof fn a_space_shows_its_page(v: BenchModel, page: Page)
    ensures
        v.page != page ==> viewed(ViewVerb::Space(page), v).0.page == page,
        v.page == page ==> viewed(ViewVerb::Space(page), v).0.page is Agents,
        v.page != page && (page is Files || page is Docs) ==> viewed(ViewVerb::Space(page), v).1
            == FlowOf::<Seq<char>>::ListDir(Seq::empty()),
        viewed(ViewVerb::Space(page), v).0.tab == v.tab,
        viewed(ViewVerb::Space(page), v).0.staged == v.staged,
        viewed(ViewVerb::Space(page), v).0.overlay == v.overlay,
{
}

/// Walking the spaces goes from the page at a place to the one after it, and
/// from the last to the first; walking back goes the other way around.
pub proof fn the_spaces_are_walked_in_their_order(v: BenchModel, i: int)
    requires
        v.spaces.no_duplicates(),
        0 <= i < v.spaces.len(),
        v.spaces[i] == v.page,
    ensures
        i + 1 < v.spaces.len() ==> viewed(ViewVerb::SpaceNext, v).0.page == v.spaces[i + 1],
        i + 1 == v.spaces.len() ==> viewed(ViewVerb::SpaceNext, v).0.page == v.spaces[0],
        i > 0 ==> viewed(ViewVerb::SpacePrev, v).0.page == v.spaces[i - 1],
        i == 0 ==> viewed(ViewVerb::SpacePrev, v).0.page == v.spaces[v.spaces.len() - 1],
{
    let n = v.spaces.len() as int;
    assert forall|j: int| 0 <= j < i implies v.spaces[j] != v.page by {}
    space_index_found(v.spaces, v.page, i);
    if i + 1 < n {
        vstd::arithmetic::div_mod::lemma_small_mod((i + 1) as nat, n as nat);
    } else {
        vstd::arithmetic::div_mod::lemma_mod_self_0(n);
    }
    if i > 0 {
        vstd::arithmetic::div_mod::lemma_small_mod((i - 1) as nat, n as nat);
        vstd::arithmetic::div_mod::lemma_mod_add_multiples_vanish(i - 1, n);
    } else {
        vstd::arithmetic::div_mod::lemma_small_mod((n - 1) as nat, n as nat);
    }
}

/// A section is put under the keyboard. The fleet is in the booth, which is
/// turned to for it; and in the booth the keyboard is on the fleet or on the
/// stage.
pub proof fn a_section_gets_the_keyboard(v: BenchModel, section: Focus)
    ensures
        viewed(ViewVerb::Focus(section), v).1 == FlowOf::<Seq<char>>::Continue,
        section is AllAgents ==> viewed(ViewVerb::Focus(section), v).0 == (BenchOf {
            page: Page::Booth,
            focus: Focus::AllAgents,
            ..v
        }),
        section !is AllAgents && v.page is Booth && section !is Stage ==> viewed(
            ViewVerb::Focus(section),
            v,
        ).0 == (BenchOf { focus: Focus::AllAgents, ..v }),
        section !is AllAgents && (v.page !is Booth || section is Stage) ==> viewed(
            ViewVerb::Focus(section),
            v,
        ).0 == (BenchOf { focus: section, ..v }),
{
}

/// The verbs that ask the event loop for something leave the view as it is,
/// and each asks for its own.
pub proof fn a_verb_asks_for_its_own(v: BenchModel, n: usize)
    ensures
        viewed(ViewVerb::Tab(n), v) == (v, FlowOf::<Seq<char>>::GoTab(TabMove::To(n))),
        viewed(ViewVerb::TabNext, v) == (v, FlowOf::<Seq<char>>::GoTab(TabMove::Next)),
        viewed(ViewVerb::TabPrev, v) == (v, FlowOf::<Seq<char>>::GoTab(TabMove::Prev)),
        viewed(ViewVerb::NewWorkspace, v) == (v, FlowOf::<Seq<char>>::BrowseHere),
        viewed(ViewVerb::CloseWorkspace, v) == (v, FlowOf::<Seq<char>>::AskCloseWorkspace),
        viewed(ViewVerb::Host, v) == (v, FlowOf::<Seq<char>>::PickHost),
        viewed(ViewVerb::Spaces, v) == (v, FlowOf::<Seq<char>>::PickSpace),
        viewed(ViewVerb::Layout, v) == (v, FlowOf::<Seq<char>>::ToggleLayout),
        viewed(ViewVerb::Branch, v) == (v, FlowOf::<Seq<char>>::PickBranch),
        viewed(ViewVerb::Update, v) == (v, FlowOf::<Seq<char>>::CheckUpdate),
        viewed(ViewVerb::Links, v) == (v, FlowOf::<Seq<char>>::PickLinks),
        v.page is Help ==> viewed(ViewVerb::Help, v) == (v, FlowOf::<Seq<char>>::CloseHelp),
        v.page !is Help ==> viewed(ViewVerb::Help, v) == (
            BenchOf { overlay: None, ..v },
            FlowOf::<Seq<char>>::OpenHelp,
        ),
{
}

/// A terminal or a monitor is run on the stage, on the page that has one; and
/// a search opens empty and finds everything at first.
pub proof fn a_terminal_and_a_monitor_go_on_the_stage(v: BenchModel)
    ensures
        viewed(ViewVerb::NewTerminal, v) == (
            BenchOf { page: Page::Agents, ..v },
            FlowOf::RunProcess { name: "shell"@, command: Seq::empty(), then: SpawnedOf::Stage },
        ),
        viewed(ViewVerb::Monitor { gpu: false }, v) == (
            BenchOf { page: Page::Agents, ..v },
            FlowOf::RunProcess { name: "top"@, command: "htop"@, then: SpawnedOf::Stage },
        ),
        viewed(ViewVerb::Monitor { gpu: true }, v) == (
            BenchOf { page: Page::Agents, ..v },
            FlowOf::RunProcess {
                name: "gpu"@,
                command:
                    "if command -v nvtop >/dev/null 2>&1; then exec nvtop; elif command -v nvidia-smi >/dev/null 2>&1; then exec watch -n1 nvidia-smi; elif command -v rocm-smi >/dev/null 2>&1; then exec watch -n1 rocm-smi; elif command -v radeontop >/dev/null 2>&1; then exec radeontop; else echo 'no GPU monitor (install nvtop / nvidia-smi / rocm-smi)'; sleep 5; fi"@,
                then: SpawnedOf::Stage,
            },
        ),
        viewed(ViewVerb::Search, v).1 == FlowOf::<Seq<char>>::Search(Seq::empty()),
        viewed(ViewVerb::Search, v).0.overlay matches Some(OverlayOf::Search(s)) && s.query.len()
            == 0 && s.hits.len() == 0,
        viewed(ViewVerb::Search, v).0 == (BenchOf {
            overlay: viewed(ViewVerb::Search, v).0.overlay,
            ..v
        }),
{
}

/// What a binding does that asks for something and leaves the view as it is.
pub proof fn a_binding_asks_for_its_own(
    v: BenchModel,
    n: i16,
    name: Seq<char>,
    command: Seq<char>,
    pin: Option<Seq<char>>,
)
    ensures
        bound_to(BoundOf::Detach, v) == (v, FlowOf::<Seq<char>>::Detach),
        bound_to(BoundOf::GitMenu, v) == (v, FlowOf::<Seq<char>>::GitMenu),
        bound_to(BoundOf::PickAgent, v) == (v, FlowOf::<Seq<char>>::PickAgent),
        bound_to(BoundOf::Scroll(n), v) == (v, FlowOf::<Seq<char>>::Scroll(n)),
        bound_to(BoundOf::PinAgent(pin), v) == (v, FlowOf::PinAgent(pin)),
        bound_to(BoundOf::PasteImage, v) == (v, FlowOf::<Seq<char>>::PasteImage),
        bound_to(BoundOf::SpawnAgent(name), v) == (v, FlowOf::SpawnAgent(name)),
        bound_to(BoundOf::NewProcess { name, command }, v) == (
            v,
            FlowOf::RunProcess { name, command, then: SpawnedOf::Stage },
        ),
        bound_to(BoundOf::ClosePane, v) == (v, FlowOf::<Seq<char>>::CloseStagePane),
        bound_to(BoundOf::KillServer { clear: false }, v) == (
            v,
            FlowOf::<Seq<char>>::Control(Command::KillServer),
        ),
        bound_to(BoundOf::KillServer { clear: true }, v) == (
            v,
            FlowOf::<Seq<char>>::Control(Command::KillServerClear),
        ),
        bound_to(BoundOf::ReloadConfig, v) == (
            v,
            FlowOf::<Seq<char>>::Control(Command::ReloadConfig),
        ),
{
}

/// What a binding does to the view: the command line opens empty, the bars are
/// shown or hidden, a file is opened on the page of files, and what cannot be
/// done is said.
pub proof fn a_binding_changes_the_view(
    v: BenchModel,
    path: Seq<char>,
    why: Option<Seq<char>>,
    verb: ViewVerb,
)
    ensures
        bound_to(BoundOf::Zen, v) == (
            BenchOf { zen: !v.zen, ..v },
            FlowOf::<Seq<char>>::Continue,
        ),
        bound_to(BoundOf::Prompt, v).1 == FlowOf::<Seq<char>>::Continue,
        bound_to(BoundOf::Prompt, v).0.overlay matches Some(OverlayOf::Prompt(p)) && p.kind
            is Command && p.text.len() == 0 && p.cursor == 0 && p.title == "COMMAND"@,
        path.len() > 0 ==> bound_to(BoundOf::OpenFile(path), v) == (
            BenchOf { page: Page::Files, ..v },
            FlowOf::OpenFile(path),
        ),
        bound_to(BoundOf::OpenFile(Seq::empty()), v) == (
            BenchOf { page: Page::Files, ..v },
            FlowOf::<Seq<char>>::ListDir(Seq::empty()),
        ),
        bound_to(BoundOf::Unsupported(why), v) == (
            BenchOf { flash: why, ..v },
            FlowOf::<Seq<char>>::Continue,
        ),
        bound_to(BoundOf::Theme(Some(path)), v) == (
            BenchOf {
                flash: Some("themes are client-side now; set `theme = \""@ + path + "\"`"@),
                ..v
            },
            FlowOf::<Seq<char>>::Continue,
        ),
        bound_to(BoundOf::Theme(None), v) == (
            BenchOf {
                flash: Some("themes are client-side now; see [ui] theme in config.toml"@),
                ..v
            },
            FlowOf::<Seq<char>>::Continue,
        ),
        bound_to(BoundOf::View(verb), v) == viewed(verb, v),
{
}

/// The pages, sections, tabs and other verbs that the keys with Alt held go
/// to.
pub proof fn an_alt_key_goes_where_it_is_bound(c: char)
    ensures
        alt_named(KeyCode::Char('o')) == Some(ViewVerb::Space(Page::Files)),
        alt_named(KeyCode::Char('c')) == Some(ViewVerb::Space(Page::Docker)),
        alt_named(KeyCode::Char('m')) == Some(ViewVerb::Space(Page::Docs)),
        alt_named(KeyCode::Char('r')) == Some(ViewVerb::Space(Page::Git)),
        alt_named(KeyCode::Char('u')) == Some(ViewVerb::Space(Page::Usage)),
        alt_named(KeyCode::Char(',')) == Some(ViewVerb::SpacePrev),
        alt_named(KeyCode::Char('.')) == Some(ViewVerb::SpaceNext),
        alt_named(KeyCode::Char(' ')) == Some(ViewVerb::Spaces),
        alt_named(KeyCode::Char('<')) == Some(ViewVerb::TabPrev),
        alt_named(KeyCode::Char('>')) == Some(ViewVerb::TabNext),
        '1' <= c && c <= '9' ==> alt_named(KeyCode::Char(c)) == Some(
            ViewVerb::Tab((c as int - 48) as usize),
        ),
        alt_named(KeyCode::Char('a')) == Some(ViewVerb::Focus(Focus::Agents)),
        alt_named(KeyCode::Esc) == Some(ViewVerb::Focus(Focus::Agents)),
        alt_named(KeyCode::Char('p')) == Some(ViewVerb::Focus(Focus::Processes)),
        alt_named(KeyCode::Char('g')) == Some(ViewVerb::Focus(Focus::Changes)),
        alt_named(KeyCode::Char('w')) == Some(ViewVerb::Focus(Focus::AllAgents)),
        alt_named(KeyCode::Char('h')) == Some(ViewVerb::Host),
        alt_named(KeyCode::Char('l')) == Some(ViewVerb::Layout),
        alt_named(KeyCode::Char('t')) == Some(ViewVerb::NewTerminal),
        alt_named(KeyCode::Char('n')) == Some(ViewVerb::NewWorkspace),
        alt_named(KeyCode::Char('x')) == Some(ViewVerb::CloseWorkspace),
        alt_named(KeyCode::Char('/')) == Some(ViewVerb::Search),
{
}

/// What the other keys with Alt held do: leave, show or hide the bars, go to
/// the files or the booth, open the settings, paste a picture, pick an agent.
pub proof fn an_alt_key_does_what_it_is_bound_to(v: BenchModel)
    ensures
        alt_bound(KeyCode::Char('d'), v) == (v, Some(FlowOf::<Seq<char>>::Detach)),
        alt_bound(KeyCode::Char('z'), v) == (
            BenchOf { zen: !v.zen, ..v },
            Some(FlowOf::<Seq<char>>::Continue),
        ),
        alt_bound(KeyCode::Char('e'), v).0.page is Files,
        alt_bound(KeyCode::Char('e'), v).1 == Some(FlowOf::<Seq<char>>::ListDir(Seq::empty())),
        alt_bound(KeyCode::Char('0'), v).0.page is Booth,
        alt_bound(KeyCode::Char('0'), v).0.focus is AllAgents,
        alt_bound(KeyCode::Char('0'), v).0.staged is None,
        alt_bound(KeyCode::Char('0'), v).0.tab == v.tab,
        alt_bound(KeyCode::Char('0'), v).1 == Some(FlowOf::<Seq<char>>::Continue),
        v.page !is Settings ==> alt_bound(KeyCode::Char('s'), v) == (
            v,
            Some(FlowOf::<Seq<char>>::OpenSettings),
        ),
        v.page is Settings ==> alt_bound(KeyCode::Char('s'), v) == (
            v,
            Some(FlowOf::<Seq<char>>::Continue),
        ),
        alt_bound(KeyCode::Char('v'), v) == (v, Some(FlowOf::<Seq<char>>::PasteImage)),
        alt_bound(KeyCode::Enter, v) == (v, Some(FlowOf::<Seq<char>>::PickAgent)),
        alt_bound(KeyCode::Char('>'), v) == (v, Some(FlowOf::<Seq<char>>::GoTab(TabMove::Next))),
        alt_bound(KeyCode::Char('<'), v) == (v, Some(FlowOf::<Seq<char>>::GoTab(TabMove::Prev))),
        alt_bound(KeyCode::Char('3'), v) == (
            v,
            Some(FlowOf::<Seq<char>>::GoTab(TabMove::To(3))),
        ),
{
}

/// A composed character is read as Alt and the first letter that the table
/// gives for it, and one that is not in the table as itself.
pub proof fn a_composed_character_is_its_letter(table: Seq<(char, char)>, k: KeyEvent, i: int)
    requires
        k.code is Char,
        !k.alt && !k.ctrl,
    ensures
        0 <= i < table.len() && k.code == KeyCode::Char(table[i].0) && (forall|j: int|
            0 <= j < i ==> (#[trigger] table[j]).0 != table[i].0) ==> uncomposed(k, table) == (
        KeyEvent { code: KeyCode::Char(table[i].1), ctrl: false, alt: true, shift: false }),
        (forall|j: int|
            0 <= j < table.len() ==> KeyCode::Char((#[trigger] table[j]).0) != k.code)
            ==> uncomposed(k, table) == k,
    decreases table.len(),
{
    if table.len() > 0 {
        let rest = table.skip(1);
        assert forall|j: int| 0 <= j < rest.len() implies rest[j] == #[trigger] table[j + 1] by {}
        if 0 <= i < table.len() && k.code == KeyCode::Char(table[i].0) && (forall|j: int|
            0 <= j < i ==> (#[trigger] table[j]).0 != table[i].0) && i > 0 {
            assert(table[0].0 != table[i].0);
            assert(rest[i - 1] == table[i]);
            assert forall|j: int| 0 <= j < i - 1 implies (#[trigger] rest[j]).0 != rest[i - 1].0 by {
                assert(rest[j] == table[j + 1]);
            }
            a_composed_character_is_its_letter(rest, k, i - 1);
        }
        if forall|j: int| 0 <= j < table.len() ==> KeyCode::Char((#[trigger] table[j]).0) != k.code {
            assert(KeyCode::Char(table[0].0) != k.code);
            assert forall|j: int| 0 <= j < rest.len() implies KeyCode::Char((#[trigger] rest[j]).0)
                != k.code by {
                assert(rest[j] == table[j + 1]);
            }
            a_composed_character_is_its_letter(rest, k, 0);
        }
    }
}

/// While the layout is being changed, left and right make the rail that has
/// the keyboard narrower and wider by two columns, up and down make its
/// section taller and shorter by two rows, and escape and enter leave. The
/// changes are on the right, and everything else is on the left.
pub proof fn the_layout_is_changed_by_two(k: KeyEvent, focus: Focus)
    ensures
        k.code is Left || k.code == KeyCode::Char('h') ==> (layout_flow(k, focus) matches
            FlowOf::Resize(GeomStep::Rail { left, delta }) && delta == -2 && (left <==> focus
            !is Changes)),
        k.code is Right || k.code == KeyCode::Char('l') ==> (layout_flow(k, focus) matches
            FlowOf::Resize(GeomStep::Rail { left, delta }) && delta == 2 && (left <==> focus
            !is Changes)),
        k.code is Up || k.code == KeyCode::Char('k') ==> (layout_flow(k, focus) matches
            FlowOf::Resize(GeomStep::Section { focus: on, delta }) && delta == 2 && on == focus),
        k.code is Down || k.code == KeyCode::Char('j') ==> (layout_flow(k, focus) matches
            FlowOf::Resize(GeomStep::Section { focus: on, delta }) && delta == -2 && on == focus),
        k.code is Esc || k.code is Enter ==> layout_flow(k, focus) == FlowOf::<
            Seq<char>,
        >::ToggleLayout,
{
}

} // verus!
