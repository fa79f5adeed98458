//! What choosing a row of a list does, whatever the list is of.
use vstd::prelude::*;

use crate::bench::{run_view, viewed, ViewVerb};
use crate::machines::{connecting_mark, disconnect_mark, keep_mark, type_destination};
use crate::menu::{
    action_of, find_group, git_menu, git_menu_overlay, group_named, menu_action, menu_deed,
    menu_taken, run_menu_action, run_menu_row, MenuDeedOf, MenuItem, MenuRows, MenuStepOf,
};
use crate::overlay::{
    ask, blank_prompt, chosen_of, destination_prompt, new_folder_prompt, on_no, question, row_text,
};
use crate::path::{browse_step, browse_up, browsed, BrowseStepOf};
use crate::project::Workspace;
use crate::request::{
    agent_start, pick_request, post_of, post_text, route_at, run_pick_confirmed, spawn_agent,
    FieldOf, Request, RequestModel, StartOf,
};
use crate::roster::{Daemon, Route};
use crate::text::{cat, chars_of, index_named, read_index, same, slice_text};
use crate::types::{
    Bench, BenchModel, BenchOf, ConfirmKindOf, Flow, FlowOf, ListKind, ListKindModel, ListKindOf,
    ListOverlay, ListOverlayModel, OverlayOf, PickTarget, PromptKindOf,
};

verus! {

/// What is left of a text behind a mark it begins with.
pub open spec fn behind(s: Seq<char>, mark: Seq<char>) -> Option<Seq<char>> {
    if s.len() >= mark.len() && s.take(mark.len() as int) == mark {
        Some(s.skip(mark.len() as int))
    } else {
        None
    }
}

/// What is left of a text behind a mark it begins with.
pub fn strip_mark(s: &str, mark: &str) -> (r: Option<String>)
    ensures
        crate::text::opt_text(r) == behind(s@, mark@),
{
    let v = chars_of(s);
    let m = chars_of(mark);
    if v.len() < m.len() {
        return None;
    }
    let mut i: usize = 0;
    while i < m.len()
        invariant
            i <= m@.len(),
            m@.len() <= v@.len(),
            v@ == s@,
            m@ == mark@,
            forall|j: int| 0 <= j < i ==> v@[j] == m@[j],
        decreases m@.len() - i,
    {
        if v[i] != m[i] {
            assert(s@.take(mark@.len() as int)[i as int] != mark@[i as int]);
            return None;
        }
        i = i + 1;
    }
    assert(s@.take(mark@.len() as int) =~= mark@);
    let rest = slice_text(&v, m.len(), v.len());
    assert(rest@ =~= s@.skip(mark@.len() as int));
    Some(rest)
}

/// A text without the dots at its end that say that more is to come.
pub open spec fn without_dots(s: Seq<char>) -> Seq<char>
    decreases s.len(),
{
    if s.len() > 0 && s.last() == '…' {
        without_dots(s.drop_last())
    } else {
        s
    }
}

/// A text without the dots at its end that say that more is to come.
pub fn trim_dots(s: &str) -> (r: String)
    ensures
        r@ == without_dots(s@),
{
    let v = chars_of(s);
    let mut n: usize = v.len();
    assert(v@.take(n as int) =~= s@);
    while n > 0 && v[n - 1] == '…'
        invariant
            n <= v@.len(),
            without_dots(v@.take(n as int)) == without_dots(s@),
        decreases n,
    {
        assert(v@.take(n as int).drop_last() =~= v@.take(n as int - 1));
        n = n - 1;
    }
    let r = slice_text(&v, 0, n);
    assert(r@ =~= v@.take(n as int));
    r
}

/// What is left to do once a row was chosen.
#[verifier::ext_equal]
#[derive(Clone, Debug, PartialEq, Eq)]
pub enum ChoiceOf<S, Q, R> {
    /// Nothing more.
    Done,
    /// Read a folder of the tree that is showing.
    LoadTree(S),
    /// List the folders below one. What goes wrong is said behind `about`.
    Browse { dir: S, about: S },
    /// Open a folder as a workspace.
    OpenWorkspace(S),
    /// Go on with a row of the git menu.
    Menu(MenuStepOf<Q>),
    /// Send something about the repository to the machine of the open workspace.
    Send(Q),
    /// Carry out a row of a menu.
    Deed(MenuDeedOf<R, Q>),
    /// Spawn an agent, and show it.
    Spawn { name: S, start: StartOf<Q> },
    /// Disconnect a machine, and forget it.
    Disconnect(S),
    /// Connect a machine.
    Connect(S),
    /// Open a link.
    OpenLink(S),
}

pub type Choice = ChoiceOf<String, Request, Vec<Route>>;

pub type ChoiceModel = ChoiceOf<Seq<char>, RequestModel, Seq<Route>>;

impl View for ChoiceOf<String, Request, Vec<Route>> {
    type V = ChoiceModel;

    open spec fn view(&self) -> ChoiceModel {
        match *self {
            ChoiceOf::Done => ChoiceOf::Done,
            ChoiceOf::LoadTree(s) => ChoiceOf::LoadTree(s@),
            ChoiceOf::Browse { dir, about } => ChoiceOf::Browse { dir: dir@, about: about@ },
            ChoiceOf::OpenWorkspace(s) => ChoiceOf::OpenWorkspace(s@),
            ChoiceOf::Menu(m) => ChoiceOf::Menu(
                match m {
                    MenuStepOf::Asked => MenuStepOf::Asked,
                    MenuStepOf::PickBranch => MenuStepOf::PickBranch,
                    MenuStepOf::Pick(t) => MenuStepOf::Pick(t),
                    MenuStepOf::Send(q) => MenuStepOf::Send(q@),
                },
            ),
            ChoiceOf::Send(q) => ChoiceOf::Send(q@),
            ChoiceOf::Deed(d) => ChoiceOf::Deed(d@),
            ChoiceOf::Spawn { name, start } => ChoiceOf::Spawn {
                name: name@,
                start: StartOf { list: start.list@, start: start.start@ },
            },
            ChoiceOf::Disconnect(s) => ChoiceOf::Disconnect(s@),
            ChoiceOf::Connect(s) => ChoiceOf::Connect(s@),
            ChoiceOf::OpenLink(s) => ChoiceOf::OpenLink(s@),
        }
    }
}

/// A view that says why something was not done.
pub open spec fn said(v: BenchModel, why: Seq<char>) -> BenchModel {
    BenchOf { flash: Some(why), ..v }
}

/// What choosing a space does: the view goes there, or back to the agents
/// where it is there already.
pub open spec fn space_chosen(v: BenchModel, sel: usize) -> (BenchModel, ChoiceModel) {
    if sel < v.spaces.len() {
        let (after, flow) = viewed(ViewVerb::Space(v.spaces[sel as int]), v);
        (
            after,
            match flow {
                FlowOf::ListDir(dir) => ChoiceOf::LoadTree(dir),
                _ => ChoiceOf::Done,
            },
        )
    } else {
        (v, ChoiceOf::Done)
    }
}

fn choose_space(view: &mut Bench, sel: usize) -> (c: Choice)
    ensures
        (final(view)@, c@) == space_chosen(old(view)@, sel),
{
    if sel < view.spaces.len() {
        let page = view.spaces[sel];
        match run_view(ViewVerb::Space(page), view) {
            Flow::ListDir(dir) => Choice::LoadTree(dir),
            _ => Choice::Done,
        }
    } else {
        Choice::Done
    }
}

/// What choosing a row of a group of the git menu does.
pub open spec fn group_chosen(
    group: crate::types::MenuGroup,
    choice: Seq<char>,
    v: BenchModel,
    groups: Seq<MenuRows>,
    items: Seq<MenuItem>,
    ws: Option<&Workspace>,
) -> (BenchModel, ChoiceModel) {
    if choice == browse_up() {
        (BenchOf { overlay: Some(git_menu(None, groups)), ..v }, ChoiceOf::Done)
    } else {
        match action_of(group, choice, groups) {
            Some(action) => {
                let (after, step) = menu_taken(action, v, items, ws);
                match step {
                    Ok(s) => (after, ChoiceOf::Menu(s)),
                    Err(e) => (said(after, e), ChoiceOf::Done),
                }
            },
            None => (said(v, choice + " is not wired yet"@), ChoiceOf::Done),
        }
    }
}

fn choose_in_group(
    group: crate::types::MenuGroup,
    choice: &str,
    view: &mut Bench,
    groups: &Vec<MenuRows>,
    items: &Vec<MenuItem>,
    ws: Option<&Workspace>,
) -> (c: Choice)
    ensures
        (final(view)@, c@) == group_chosen(group, choice@, old(view)@, groups@, items@, ws),
{
    let up = crate::path::browse_up_row();
    if same(choice, up.as_str()) {
        view.overlay = Some(git_menu_overlay(None, groups));
        return Choice::Done;
    }
    match menu_action(group, choice, groups) {
        Some(action) => match run_menu_action(action, view, items, ws) {
            Ok(step) => Choice::Menu(step),
            Err(e) => {
                view.flash = Some(e);
                Choice::Done
            },
        },
        None => {
            view.flash = Some(cat(choice, " is not wired yet"));
            Choice::Done
        },
    }
}

/// What choosing a row of a list to pick from does: what destroys something is
/// asked about, by how its row reads.
pub open spec fn pick_chosen(
    target: PickTarget,
    title: Seq<char>,
    label: Seq<char>,
    choice: Seq<char>,
    v: BenchModel,
    ws: Option<&Workspace>,
) -> (BenchModel, ChoiceModel) {
    if target.destroys() {
        (
            BenchOf {
                overlay: Some(
                    question(
                        title,
                        label,
                        ConfirmKindOf::Pick { target, value: choice, label },
                    ),
                ),
                ..v
            },
            ChoiceOf::Done,
        )
    } else {
        match pick_request(ws, target, choice) {
            Ok(q) => (v, ChoiceOf::Send(q)),
            Err(e) => (said(v, e), ChoiceOf::Done),
        }
    }
}

fn choose_pick(
    target: PickTarget,
    title: &str,
    label: String,
    choice: String,
    view: &mut Bench,
    ws: Option<&Workspace>,
) -> (c: Choice)
    ensures
        (final(view)@, c@) == pick_chosen(target, title@, label@, choice@, old(view)@, ws),
{
    if target.destroys() {
        let header = label.clone();
        view.overlay = Some(
            ask(title, header, ConfirmKindOf::Pick { target, value: choice, label }),
        );
        return Choice::Done;
    }
    match run_pick_confirmed(ws, target, choice.as_str()) {
        Ok(q) => Choice::Send(q),
        Err(e) => {
            view.flash = Some(e);
            Choice::Done
        },
    }
}

/// What choosing a row of the list of machines does, by the row's value: type
/// a destination, disconnect a machine, or connect one.
pub open spec fn host_chosen(choice: Seq<char>, v: BenchModel) -> (BenchModel, ChoiceModel) {
    if choice == type_destination() {
        (
            BenchOf {
                overlay: Some(
                    blank_prompt(
                        "CONNECT MACHINE"@,
                        PromptKindOf::SshDestination,
                        "user@host, or a Host from ~/.ssh/config"@,
                    ),
                ),
                ..v
            },
            ChoiceOf::Done,
        )
    } else {
        match behind(choice, disconnect_mark()) {
            Some(host) => (v, ChoiceOf::Disconnect(host)),
            None => match behind(choice, connecting_mark()) {
                Some(host) => (said(v, host + " is still connecting…"@), ChoiceOf::Done),
                None => match behind(choice, keep_mark()) {
                    Some(host) => (
                        said(
                            v,
                            host
                                + " is on a forward of its own — close that to disconnect it"@,
                        ),
                        ChoiceOf::Done,
                    ),
                    None => if choice.len() == 0 {
                        (v, ChoiceOf::Done)
                    } else {
                        (v, ChoiceOf::Connect(choice))
                    },
                },
            },
        }
    }
}

fn choose_host(choice: String, view: &mut Bench) -> (c: Choice)
    ensures
        (final(view)@, c@) == host_chosen(choice@, old(view)@),
{
    if same(choice.as_str(), ":type") {
        view.overlay = Some(destination_prompt());
        return Choice::Done;
    }
    if let Some(host) = strip_mark(choice.as_str(), ":disconnect ") {
        return Choice::Disconnect(host);
    }
    if let Some(host) = strip_mark(choice.as_str(), ":connecting ") {
        view.flash = Some(cat(host.as_str(), " is still connecting…"));
        return Choice::Done;
    }
    if let Some(host) = strip_mark(choice.as_str(), ":keep ") {
        view.flash = Some(
            cat(
                host.as_str(),
                " is on a forward of its own — close that to disconnect it",
            ),
        );
        return Choice::Done;
    }
    if choice.as_str().unicode_len() == 0 {
        Choice::Done
    } else {
        Choice::Connect(choice)
    }
}

/// What choosing an agent or a branch does; a list of anything else acts
/// elsewhere.
pub open spec fn acted_on(
    kind: ListKindModel,
    choice: Seq<char>,
    v: BenchModel,
    ws: Option<&Workspace>,
) -> (BenchModel, ChoiceModel) {
    match ws {
        None => (said(v, "no workspace to act in"@), ChoiceOf::Done),
        Some(w) => (
            v,
            match kind {
                ListKindOf::SpawnAgent => ChoiceOf::Spawn {
                    name: choice,
                    start: agent_start(ws, choice)->Ok_0,
                },
                ListKindOf::Branch => ChoiceOf::Send(
                    post_of(
                        route_at(w.id, "checkout"@),
                        seq![("branch"@, FieldOf::Text(choice))],
                    ),
                ),
                _ => ChoiceOf::Done,
            },
        ),
    }
}

/// What choosing an agent or a branch does.
pub fn act_on_choice(kind: &ListKind, choice: String, view: &mut Bench, ws: Option<&Workspace>) -> (c:
    Choice)
    ensures
        (final(view)@, c@) == acted_on(kind@, choice@, old(view)@, ws),
{
    match ws {
        None => {
            view.flash = Some("no workspace to act in".to_owned());
            Choice::Done
        },
        Some(w) => match kind {
            ListKindOf::SpawnAgent => match spawn_agent(ws, choice.as_str()) {
                Ok(start) => Choice::Spawn { name: choice, start },
                Err(_) => Choice::Done,
            },
            ListKindOf::Branch => Choice::Send(
                post_text(w.id, "checkout", "branch", choice.as_str()),
            ),
            _ => Choice::Done,
        },
    }
}

/// What choosing a row does: `l` is the list, which has been closed.
pub open spec fn row_chosen(
    l: ListOverlayModel,
    choice: Seq<char>,
    v: BenchModel,
    title: Seq<char>,
    groups: Seq<MenuRows>,
    items: Seq<MenuItem>,
    daemons: Seq<Daemon>,
    here: usize,
    ws: Option<&Workspace>,
) -> (BenchModel, ChoiceModel) {
    match l.kind {
        ListKindOf::Space => space_chosen(v, l.sel),
        ListKindOf::Machine => (
            BenchOf { browse_daemon: index_named(choice), ..v },
            ChoiceOf::Browse { dir: Seq::empty(), about: "browse: "@ },
        ),
        ListKindOf::GitGroups => match group_named(groups, without_dots(choice)) {
            Some(g) => (
                BenchOf {
                    overlay: Some(
                        git_menu(Some(crate::types::MenuGroup(g as usize)), groups),
                    ),
                    ..v
                },
                ChoiceOf::Done,
            ),
            None => (v, ChoiceOf::Done),
        },
        ListKindOf::GitGroup(group) => group_chosen(group, choice, v, groups, items, ws),
        ListKindOf::Pick(target) => pick_chosen(
            target,
            title,
            match row_text(l.items, l.sel) {
                Some(label) => label,
                None => choice,
            },
            choice,
            v,
            ws,
        ),
        ListKindOf::Menu(target) => match menu_deed(target, l.sel, daemons, here, ws) {
            Ok(d) => (v, ChoiceOf::Deed(d)),
            Err(e) => (said(v, e), ChoiceOf::Done),
        },
        ListKindOf::Host => host_chosen(choice, v),
        ListKindOf::Links => (v, ChoiceOf::OpenLink(choice)),
        ListKindOf::Browse { dir } => match browsed(dir, choice) {
            BrowseStepOf::Descend(next) => (
                v,
                ChoiceOf::Browse { dir: next, about: Seq::empty() },
            ),
            BrowseStepOf::OpenHere(path) => (v, ChoiceOf::OpenWorkspace(path)),
            BrowseStepOf::NewHere(here) => (
                BenchOf {
                    overlay: Some(
                        blank_prompt(
                            "NEW FOLDER"@,
                            PromptKindOf::NewFolder { dir: here },
                            "in "@ + here,
                        ),
                    ),
                    ..v
                },
                ChoiceOf::Done,
            ),
        },
        _ => acted_on(l.kind, choice, v, ws),
    }
}

/// What choosing does: the box closes, and where it was a list with a row
/// under its mark, that row acts.
pub open spec fn chose(
    v: BenchModel,
    title: Seq<char>,
    groups: Seq<MenuRows>,
    items: Seq<MenuItem>,
    daemons: Seq<Daemon>,
    here: usize,
    ws: Option<&Workspace>,
) -> (BenchModel, ChoiceModel) {
    let closed = BenchOf { overlay: None, ..v };
    match v.overlay {
        Some(OverlayOf::List(l)) => match chosen_of(l) {
            Some(choice) => row_chosen(
                l,
                choice,
                closed,
                title,
                groups,
                items,
                daemons,
                here,
                ws,
            ),
            None => (closed, ChoiceOf::Done),
        },
        _ => (closed, ChoiceOf::Done),
    }
}

fn choose_row(
    l: ListOverlay,
    choice: String,
    view: &mut Bench,
    title: &str,
    groups: &Vec<MenuRows>,
    items: &Vec<MenuItem>,
    daemons: &Vec<Daemon>,
    hosts: &Vec<Option<String>>,
    here: usize,
    ws: Option<&Workspace>,
) -> (c: Choice)
    ensures
        (final(view)@, c@) == row_chosen(
            l@,
            choice@,
            old(view)@,
            title@,
            groups@,
            items@,
            daemons@,
            here,
            ws,
        ),
{
    match &l.kind {
        ListKindOf::Space => choose_space(view, l.sel),
        ListKindOf::Machine => {
            view.browse_daemon = read_index(choice.as_str());
            Choice::Browse { dir: String::new(), about: "browse: ".to_owned() }
        },
        ListKindOf::GitGroups => {
            let name = trim_dots(choice.as_str());
            if let Some(g) = find_group(groups, name.as_str()) {
                view.overlay = Some(git_menu_overlay(Some(g), groups));
            }
            Choice::Done
        },
        ListKindOf::GitGroup(group) => choose_in_group(
            *group,
            choice.as_str(),
            view,
            groups,
            items,
            ws,
        ),
        ListKindOf::Pick(target) => {
            let label = match l.chosen_label() {
                Some(label) => label.to_owned(),
                None => choice.clone(),
            };
            choose_pick(*target, title, label, choice, view, ws)
        },
        ListKindOf::Menu(target) => match run_menu_row(*target, l.sel, daemons, hosts, here, ws) {
            Ok(d) => Choice::Deed(d),
            Err(e) => {
                view.flash = Some(e);
                Choice::Done
            },
        },
        ListKindOf::Host => choose_host(choice, view),
        ListKindOf::Links => Choice::OpenLink(choice),
        ListKindOf::Browse { dir } => match browse_step(dir.as_str(), choice.as_str()) {
            BrowseStepOf::Descend(next) => Choice::Browse { dir: next, about: String::new() },
            BrowseStepOf::OpenHere(path) => Choice::OpenWorkspace(path),
            BrowseStepOf::NewHere(here) => {
                view.overlay = Some(new_folder_prompt(here.as_str()));
                Choice::Done
            },
        },
        _ => act_on_choice(&l.kind, choice, view, ws),
    }
}

/// Chooses the row under the mark of the list that is open. `title` is what a
/// question about a pick is headed, where the list is one to pick from.
pub fn choose_from_list(
    view: &mut Bench,
    title: &str,
    groups: &Vec<MenuRows>,
    items: &Vec<MenuItem>,
    daemons: &Vec<Daemon>,
    hosts: &Vec<Option<String>>,
    here: usize,
    ws: Option<&Workspace>,
) -> (c: Choice)
    ensures
        (final(view)@, c@) == chose(
            old(view)@,
            title@,
            groups@,
            items@,
            daemons@,
            here,
            ws,
        ),
{
    let open = view.overlay.take();
    match open {
        Some(OverlayOf::List(l)) => {
            let choice = match l.chosen() {
                Some(c) => Some(c.to_owned()),
                None => None,
            };
            match choice {
                Some(c) => choose_row(l, c, view, title, groups, items, daemons, hosts, here, ws),
                None => Choice::Done,
            }
        },
        _ => Choice::Done,
    }
}

/// Choosing a row that destroys something sends nothing: it opens a question
/// whose mark is on no.
pub proof fn a_destroying_pick_is_asked_about(
    target: PickTarget,
    title: Seq<char>,
    label: Seq<char>,
    choice: Seq<char>,
    v: BenchModel,
    ws: Option<&Workspace>,
)
    requires
        target.destroys(),
    ensures
        pick_chosen(target, title, label, choice, v, ws).1 is Done,
        pick_chosen(target, title, label, choice, v, ws).0.overlay == Some(
            question(title, label, ConfirmKindOf::Pick { target, value: choice, label }),
        ),
{
}

/// A row's value is what acts: a row of the list of machines that names one
/// which is connected and ours disconnects it, whatever the row reads.
pub proof fn a_marked_machine_is_disconnected(host: Seq<char>, v: BenchModel)
    ensures
        host_chosen(disconnect_mark() + host, v) == (v, ChoiceModel::Disconnect(host)),
{
    let s = disconnect_mark() + host;
    reveal_strlit(":disconnect ");
    reveal_strlit(":type");
    assert(s.take(disconnect_mark().len() as int) =~= disconnect_mark());
    assert(s.skip(disconnect_mark().len() as int) =~= host);
    assert(s[1] == 'd');
    assert(type_destination()[1] == 't');
}

proof fn a_group_asks_on_no(
    group: crate::types::MenuGroup,
    choice: Seq<char>,
    v: BenchModel,
    groups: Seq<MenuRows>,
    items: Seq<MenuItem>,
    ws: Option<&Workspace>,
)
    requires
        on_no(v),
    ensures
        on_no(group_chosen(group, choice, v, groups, items, ws).0),
{
}

proof fn a_pick_asks_on_no(
    target: PickTarget,
    title: Seq<char>,
    label: Seq<char>,
    choice: Seq<char>,
    v: BenchModel,
    ws: Option<&Workspace>,
)
    requires
        on_no(v),
    ensures
        on_no(pick_chosen(target, title, label, choice, v, ws).0),
{
}

proof fn a_row_asks_on_no(v: BenchModel, sel: usize, choice: Seq<char>, l: ListOverlayModel, ws: Option<&Workspace>)
    requires
        on_no(v),
    ensures
        on_no(space_chosen(v, sel).0),
        on_no(host_chosen(choice, v).0),
        on_no(acted_on(l.kind, choice, v, ws).0),
{
}

/// A row that is chosen from a list leads to no question but one that comes up
/// with no picked.
pub proof fn a_choice_asks_on_no(
    v: BenchModel,
    title: Seq<char>,
    groups: Seq<MenuRows>,
    items: Seq<MenuItem>,
    daemons: Seq<Daemon>,
    here: usize,
    ws: Option<&Workspace>,
)
    ensures
        on_no(chose(v, title, groups, items, daemons, here, ws).0),
{
    let closed = BenchOf { overlay: None, ..v };
    if let Some(OverlayOf::List(l)) = v.overlay {
        if let Some(choice) = chosen_of(l) {
            a_row_asks_on_no(closed, l.sel, choice, l, ws);
            if let ListKindOf::GitGroup(group) = l.kind {
                a_group_asks_on_no(group, choice, closed, groups, items, ws);
            }
            if let ListKindOf::Pick(target) = l.kind {
                let label = match row_text(l.items, l.sel) {
                    Some(label) => label,
                    None => choice,
                };
                a_pick_asks_on_no(target, title, label, choice, closed, ws);
            }
        }
    }
}

/// Choosing closes the list, and a list with no row under its mark does no
/// more; a box that is no list is only closed.
pub proof fn choosing_closes_the_box(
    v: BenchModel,
    title: Seq<char>,
    groups: Seq<MenuRows>,
    items: Seq<MenuItem>,
    daemons: Seq<Daemon>,
    here: usize,
    ws: Option<&Workspace>,
)
    ensures
        v.overlay matches Some(OverlayOf::List(l)) && l.values is None && l.sel >= l.items.len()
            ==> chose(v, title, groups, items, daemons, here, ws) == (
            BenchOf { overlay: None, ..v },
            ChoiceModel::Done,
        ),
        !(v.overlay matches Some(OverlayOf::List(_))) ==> chose(
            v,
            title,
            groups,
            items,
            daemons,
            here,
            ws,
        ) == (BenchOf { overlay: None, ..v }, ChoiceModel::Done),
{
}

/// A space that is chosen is shown, or left for the agents where it is showing
/// already, and a page with a tree then reads its top.
pub proof fn a_chosen_space_is_shown(
    v: BenchModel,
    l: ListOverlayModel,
    choice: Seq<char>,
    title: Seq<char>,
    groups: Seq<MenuRows>,
    items: Seq<MenuItem>,
    daemons: Seq<Daemon>,
    here: usize,
    ws: Option<&Workspace>,
)
    requires
        v.overlay == Some(crate::types::OverlayModel::List(l)),
        l.kind is Space,
        chosen_of(l) == Some(choice),
        l.sel < v.spaces.len(),
    ensures
        ({
            let r = chose(v, title, groups, items, daemons, here, ws);
            let page = v.spaces[l.sel as int];
            &&& r.0.overlay is None
            &&& v.page != page ==> r.0.page == page
            &&& v.page == page ==> r.0.page is Agents
            &&& v.page != page && (page is Files || page is Docs) ==> r.1 == ChoiceModel::LoadTree(
                Seq::empty(),
            )
            &&& v.page != page && page !is Files && page !is Docs ==> r.1 is Done
        }),
{
}

/// A machine that is chosen is browsed from its own choice of folder; a link
/// is opened; an agent is spawned in the open workspace and a branch checked
/// out there, each by the text of its row.
pub proof fn a_chosen_row_is_acted_on_by_its_text(
    v: BenchModel,
    l: ListOverlayModel,
    choice: Seq<char>,
    title: Seq<char>,
    groups: Seq<MenuRows>,
    items: Seq<MenuItem>,
    daemons: Seq<Daemon>,
    here: usize,
    w: &Workspace,
)
    requires
        v.overlay == Some(crate::types::OverlayModel::List(l)),
        chosen_of(l) == Some(choice),
    ensures
        ({
            let r = chose(v, title, groups, items, daemons, here, Some(w));
            let closed = BenchOf { overlay: None, ..v };
            let at = "/v1/workspaces/"@ + crate::text::decimal(w.id.0 as nat) + "/"@;
            &&& l.kind is Machine ==> r == (
                BenchOf { browse_daemon: index_named(choice), ..closed },
                ChoiceModel::Browse { dir: Seq::empty(), about: "browse: "@ },
            )
            &&& l.kind is Links ==> r == (closed, ChoiceModel::OpenLink(choice))
            &&& l.kind is SpawnAgent ==> r.0 == closed && (r.1 matches ChoiceOf::Spawn { name, start }
                && name == choice && start.list.route == at + "agents"@ && start.list.method is Get
                && start.start.route == at + "agents"@ && start.start.method is Post
                && start.start.body == crate::request::BodyOf::<
                Seq<char>,
                crate::request::FieldsModel,
            >::Object(
                seq![("type"@, FieldOf::Text(choice))],
            ))
            &&& l.kind is Branch ==> r == (
                closed,
                ChoiceModel::Send(
                    crate::request::RequestOf {
                        method: crate::request::Method::Post,
                        route: at + "checkout"@,
                        body: crate::request::BodyOf::Object(
                            seq![("branch"@, FieldOf::Text(choice))],
                        ),
                    },
                ),
            )
        }),
{
}

/// An agent or a branch cannot be chosen where no workspace is open: that is
/// said.
pub proof fn without_a_workspace_a_choice_is_refused(
    v: BenchModel,
    l: ListOverlayModel,
    choice: Seq<char>,
    title: Seq<char>,
    groups: Seq<MenuRows>,
    items: Seq<MenuItem>,
    daemons: Seq<Daemon>,
    here: usize,
)
    requires
        v.overlay == Some(crate::types::OverlayModel::List(l)),
        chosen_of(l) == Some(choice),
        l.kind is SpawnAgent || l.kind is Branch,
    ensures
        chose(v, title, groups, items, daemons, here, None) == (
            BenchOf { overlay: None, flash: Some("no workspace to act in"@), ..v },
            ChoiceModel::Done,
        ),
{
}

/// In the list of machines the row to type one asks for its destination, a row
/// that is marked as connecting or as another's is only explained, an empty
/// one does nothing, and any other connects what it names.
pub proof fn a_chosen_machine_is_connected_or_explained(host: Seq<char>, v: BenchModel)
    ensures
        host_chosen(":type"@, v) == (
            BenchOf {
                overlay: Some(
                    crate::types::OverlayModel::Prompt(
                        crate::types::PromptOverlayOf {
                            title: "CONNECT MACHINE"@,
                            text: Seq::empty(),
                            cursor: 0,
                            kind: PromptKindOf::SshDestination,
                            subtitle: Some("user@host, or a Host from ~/.ssh/config"@),
                        },
                    ),
                ),
                ..v
            },
            ChoiceModel::Done,
        ),
        host_chosen(":disconnect "@ + host, v) == (v, ChoiceModel::Disconnect(host)),
        host_chosen(":connecting "@ + host, v) == (
            BenchOf { flash: Some(host + " is still connecting…"@), ..v },
            ChoiceModel::Done,
        ),
        host_chosen(":keep "@ + host, v) == (
            BenchOf {
                flash: Some(
                    host + " is on a forward of its own — close that to disconnect it"@,
                ),
                ..v
            },
            ChoiceModel::Done,
        ),
        host_chosen(Seq::empty(), v) == (v, ChoiceModel::Done),
        host.len() > 0 && host[0] != ':' ==> host_chosen(host, v) == (
            v,
            ChoiceModel::Connect(host),
        ),
{
    reveal_strlit(":type");
    reveal_strlit(":disconnect ");
    reveal_strlit(":connecting ");
    reveal_strlit(":keep ");
    a_mark_is_taken_off(":disconnect "@, host);
    a_mark_is_taken_off(":connecting "@, host);
    a_mark_is_taken_off(":keep "@, host);
    let d = ":disconnect "@ + host;
    let c = ":connecting "@ + host;
    let k = ":keep "@ + host;
    assert(d[1] == 'd' && c[1] == 'c' && k[1] == 'k');
    assert(":type"@[1] == 't');
    assert(behind(c, ":disconnect "@) is None) by {
        if c.len() >= ":disconnect "@.len() {
            assert(c.take(12)[1] == 'c');
            assert(":disconnect "@[1] == 'd');
        }
    }
    assert(behind(k, ":disconnect "@) is None) by {
        if k.len() >= ":disconnect "@.len() {
            assert(k.take(12)[1] == 'k');
            assert(":disconnect "@[1] == 'd');
        }
    }
    assert(behind(k, ":connecting "@) is None) by {
        if k.len() >= ":connecting "@.len() {
            assert(k.take(12)[1] == 'k');
            assert(":connecting "@[1] == 'c');
        }
    }
    if host.len() > 0 && host[0] != ':' {
        if host.len() >= 12 {
            assert(host.take(12)[0] != ':');
            assert(":disconnect "@[0] == ':');
            assert(":connecting "@[0] == ':');
        }
        if host.len() >= 6 {
            assert(host.take(6)[0] != ':');
            assert(":keep "@[0] == ':');
        }
        assert(":type"@[0] == ':');
    }
}

/// What stands behind a mark is what was put behind it, and a text that does
/// not begin with the mark has nothing behind it.
pub proof fn a_mark_is_taken_off(mark: Seq<char>, s: Seq<char>)
    ensures
        behind(mark + s, mark) == Some(s),
        s.len() < mark.len() ==> behind(s, mark) is None,
        s.len() >= mark.len() && s.take(mark.len() as int) != mark ==> behind(s, mark) is None,
{
    assert((mark + s).take(mark.len() as int) =~= mark);
    assert((mark + s).skip(mark.len() as int) =~= s);
}

/// Dots are taken off the end of a text, all of them, and nothing else is.
pub proof fn only_the_dots_at_the_end_go(s: Seq<char>)
    ensures
        s.len() == 0 || s.last() != '…' ==> without_dots(s) == s,
        without_dots(s.push('…')) == without_dots(s),
        without_dots(s).len() > 0 ==> without_dots(s).last() != '…',
        without_dots(s).is_prefix_of(s),
    decreases s.len(),
{
    assert(s.push('…').drop_last() =~= s);
    if s.len() > 0 && s.last() == '…' {
        only_the_dots_at_the_end_go(s.drop_last());
        assert(s.drop_last().is_prefix_of(s));
    }
}

/// In the git menu a group that is chosen opens, without the dots behind its
/// name; in a group the way back leads to the groups, a row is taken, and one
/// that is not wired is said not to be.
pub proof fn the_git_menu_is_walked(
    v: BenchModel,
    group: crate::types::MenuGroup,
    choice: Seq<char>,
    groups: Seq<MenuRows>,
    items: Seq<MenuItem>,
    ws: Option<&Workspace>,
    action: crate::types::MenuAction,
)
    ensures
        group_chosen(group, ".."@, v, groups, items, ws) == (
            BenchOf { overlay: Some(git_menu(None, groups)), ..v },
            ChoiceModel::Done,
        ),
        choice != ".."@ && action_of(group, choice, groups) is None ==> group_chosen(
            group,
            choice,
            v,
            groups,
            items,
            ws,
        ) == (BenchOf { flash: Some(choice + " is not wired yet"@), ..v }, ChoiceModel::Done),
        choice != ".."@ && action_of(group, choice, groups) == Some(action) ==> {
            let r = group_chosen(group, choice, v, groups, items, ws);
            let (after, step) = menu_taken(action, v, items, ws);
            match step {
                Ok(s) => r == (after, ChoiceModel::Menu(s)),
                Err(e) => r == (BenchOf { flash: Some(e), ..after }, ChoiceModel::Done),
            }
        },
{
}

/// A group of the git menu that is chosen from the list of groups opens.
pub proof fn a_chosen_group_opens(
    v: BenchModel,
    l: ListOverlayModel,
    choice: Seq<char>,
    title: Seq<char>,
    groups: Seq<MenuRows>,
    items: Seq<MenuItem>,
    daemons: Seq<Daemon>,
    here: usize,
    ws: Option<&Workspace>,
    g: int,
)
    requires
        v.overlay == Some(crate::types::OverlayModel::List(l)),
        l.kind is GitGroups,
        chosen_of(l) == Some(choice),
        group_named(groups, without_dots(choice)) == Some(g),
    ensures
        chose(v, title, groups, items, daemons, here, ws) == (
            BenchOf {
                overlay: Some(git_menu(Some(crate::types::MenuGroup(g as usize)), groups)),
                ..v
            },
            ChoiceModel::Done,
        ),
{
}

/// A pick that destroys nothing is sent as it was picked, and where no
/// workspace is open it is said instead.
pub proof fn a_harmless_pick_is_sent(
    target: PickTarget,
    title: Seq<char>,
    label: Seq<char>,
    choice: Seq<char>,
    v: BenchModel,
    w: &Workspace,
)
    requires
        !target.destroys(),
    ensures
        pick_request(Some(w), target, choice) matches Ok(q) && pick_chosen(
            target,
            title,
            label,
            choice,
            v,
            Some(w),
        ) == (v, ChoiceModel::Send(q)),
        pick_chosen(target, title, label, choice, v, None) == (
            BenchOf { flash: Some("no workspace open"@), ..v },
            ChoiceModel::Done,
        ),
{
}

/// A pick is made by the value of its row and asked about by how the row
/// reads.
pub proof fn a_pick_is_asked_about_as_it_reads(
    v: BenchModel,
    l: ListOverlayModel,
    target: PickTarget,
    values: Seq<Seq<char>>,
    title: Seq<char>,
    groups: Seq<MenuRows>,
    items: Seq<MenuItem>,
    daemons: Seq<Daemon>,
    here: usize,
    ws: Option<&Workspace>,
)
    requires
        v.overlay == Some(crate::types::OverlayModel::List(l)),
        l.kind == ListKindOf::<Seq<char>>::Pick(target),
        l.values == Some(values),
        l.sel < values.len(),
        l.sel < l.items.len(),
        target.destroys(),
    ensures
        ({
            let r = chose(v, title, groups, items, daemons, here, ws);
            let label = l.items[l.sel as int];
            &&& r.1 is Done
            &&& r.0.overlay == Some(
                crate::types::OverlayModel::Confirm(
                    crate::types::ConfirmOverlayOf {
                        title,
                        header: label,
                        yes: false,
                        kind: ConfirmKindOf::Pick { target, value: values[l.sel as int], label },
                    },
                ),
            )
        }),
{
}

/// In a folder picker a folder is gone into, the folder that is shown is
/// opened as a workspace, and a new one is asked for by name, to be made in the
/// folder that is shown.
pub proof fn a_chosen_folder_is_gone_into_or_opened(
    v: BenchModel,
    l: ListOverlayModel,
    choice: Seq<char>,
    dir: Seq<char>,
    title: Seq<char>,
    groups: Seq<MenuRows>,
    items: Seq<MenuItem>,
    daemons: Seq<Daemon>,
    here: usize,
    ws: Option<&Workspace>,
)
    requires
        v.overlay == Some(crate::types::OverlayModel::List(l)),
        l.kind == (ListKindOf::Browse { dir }),
        chosen_of(l) == Some(choice),
    ensures
        ({
            let r = chose(v, title, groups, items, daemons, here, ws);
            let closed = BenchOf { overlay: None, ..v };
            match browsed(dir, choice) {
                BrowseStepOf::Descend(next) => r == (
                    closed,
                    ChoiceModel::Browse { dir: next, about: Seq::empty() },
                ),
                BrowseStepOf::OpenHere(path) => r == (closed, ChoiceModel::OpenWorkspace(path)),
                BrowseStepOf::NewHere(at) => r.1 is Done && (r.0.overlay matches Some(
                    OverlayOf::Prompt(p),
                ) && p.title == "NEW FOLDER"@ && p.kind == (PromptKindOf::NewFolder { dir: at })
                    && p.text.len() == 0 && p.subtitle == Some("in "@ + at)),
            }
        }),
{
}

/// A row of a menu on something is carried out by its place in the menu, and
/// what keeps it from being is said.
pub proof fn a_chosen_menu_row_is_carried_out(
    v: BenchModel,
    l: ListOverlayModel,
    target: crate::types::MenuTarget,
    choice: Seq<char>,
    title: Seq<char>,
    groups: Seq<MenuRows>,
    items: Seq<MenuItem>,
    daemons: Seq<Daemon>,
    here: usize,
    ws: Option<&Workspace>,
)
    requires
        v.overlay == Some(crate::types::OverlayModel::List(l)),
        l.kind == ListKindOf::<Seq<char>>::Menu(target),
        chosen_of(l) == Some(choice),
    ensures
        ({
            let r = chose(v, title, groups, items, daemons, here, ws);
            let closed = BenchOf { overlay: None, ..v };
            match menu_deed(target, l.sel, daemons, here, ws) {
                Ok(deed) => r == (closed, ChoiceModel::Deed(deed)),
                Err(e) => r == (BenchOf { flash: Some(e), ..closed }, ChoiceModel::Done),
            }
        }),
{
}

} // verus!
