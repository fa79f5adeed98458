//! The menus and the lists to pick from: the git menu, what its rows do, the
//! lists of branches, stashes, tags, remotes and worktrees, the list of agents,
//! and the menus that are opened on a row or a tab.
use vstd::prelude::*;

use crate::bench::{find_space, space_index};
use crate::overlay::{ask, blank_prompt, prompt, question};
use crate::path::{browse_up, browse_up_row};
use crate::project::Workspace;
use crate::request::{
    close_workspace, delete_of, menu_request, menu_route, post_git, post_of, restart_pane, route_at,
    workspace_post,
    workspace_route, Request, RequestModel,
};
use crate::roster::{all_tabs, tab_index, Daemon, Route};
use crate::text::{
    cat, cat3, cat5, decimal, first_index, opt_text, position, same, texts, to_decimal,
};
use crate::types::{
    Bench, BenchModel, BenchOf, ConfirmKind, ConfirmKindOf, ListKind, ListKindModel, ListKindOf,
    ListOverlayOf, MenuAction, MenuGroup, MenuTarget, Overlay, OverlayModel, OverlayOf, PaneId,
    PickTarget, PromptKind, PromptKindOf, SessionId,
};

verus! {

/// A row of the git menu.
#[derive(Clone, Debug, PartialEq, Eq)]
pub struct MenuItem {
    pub action: MenuAction,
    pub label: String,
}

/// A group of the git menu: what it is called, whether it is on offer as
/// things stand, and its rows that are.
#[derive(Clone, Debug, PartialEq, Eq)]
pub struct MenuRows {
    pub label: String,
    pub offered: bool,
    pub items: Vec<MenuItem>,
}

/// Whether the repository is in the middle of a merge, a rebase or the like.
pub open spec fn mid_sequence(ws: Option<&Workspace>) -> bool {
    match ws {
        Some(w) => w.changes is Some && !w.changes->0.clean,
        None => false,
    }
}

/// Whether the repository is in the middle of a merge, a rebase or the like.
pub fn in_sequence(ws: Option<&Workspace>) -> (r: bool)
    ensures
        r == mid_sequence(ws),
{
    match ws {
        Some(w) => match &w.changes {
            Some(c) => !c.clean,
            None => false,
        },
        None => false,
    }
}

/// Whether a row has to be asked about, and which answer is left over: a row
/// that destroys nothing takes no answer; one that does takes it, whatever it
/// was for.
pub open spec fn asks(action: MenuAction, confirmed: Option<MenuAction>) -> (
    bool,
    Option<MenuAction>,
) {
    if !action.needs_confirm() {
        (false, confirmed)
    } else {
        (confirmed != Some(action), None)
    }
}

/// Whether a row has to be asked about before it runs. An answer is good for
/// one run of the row it was given for.
pub fn needs_asking(action: MenuAction, confirmed: &mut Option<MenuAction>) -> (r: bool)
    ensures
        (r, *final(confirmed)) == asks(action, *old(confirmed)),
{
    if !action.needs_confirm() {
        return false;
    }
    let given = confirmed.take();
    match given {
        Some(a) => !(a == action),
        None => true,
    }
}

/// A row that destroys something is asked about exactly once: the yes lets it
/// run, and is spent by that.
pub proof fn a_yes_is_good_for_one_run(action: MenuAction)
    requires
        action.needs_confirm(),
    ensures
        asks(action, None).0,
        asks(action, Some(action)) == (false, None::<MenuAction>),
{
}

/// A yes to one row is not a yes to another, and does not wait for its own.
pub proof fn a_yes_is_not_handed_on(action: MenuAction, other: MenuAction)
    requires
        action.needs_confirm(),
        other != action,
    ensures
        asks(action, Some(other)) == (true, None::<MenuAction>),
{
}

/// What a row of the git menu is called.
pub open spec fn label_in(items: Seq<MenuItem>, action: MenuAction) -> Seq<char>
    decreases items.len(),
{
    if items.len() == 0 {
        "this"@
    } else if items[0].action == action {
        items[0].label@
    } else {
        label_in(items.skip(1), action)
    }
}

/// What a row of the git menu is called.
pub fn label_of(items: &Vec<MenuItem>, action: MenuAction) -> (r: String)
    ensures
        r@ == label_in(items@, action),
{
    let mut i: usize = 0;
    assert(items@.skip(0) =~= items@);
    while i < items.len()
        invariant
            i <= items@.len(),
            label_in(items@.skip(i as int), action) == label_in(items@, action),
        decreases items@.len() - i,
    {
        assert(items@.skip(i as int)[0] == items@[i as int]);
        assert(items@.skip(i as int).skip(1) =~= items@.skip(i as int + 1));
        if items[i].action == action {
            return items[i].label.clone();
        }
        i = i + 1;
    }
    "this".to_owned()
}

/// A list whose rows act by their labels.
pub open spec fn plain_list(
    title: Seq<char>,
    items: Seq<Seq<char>>,
    sel: usize,
    kind: ListKindModel,
) -> OverlayModel {
    OverlayOf::List(ListOverlayOf { title, items, values: None, sel, kind })
}

/// A list whose rows act by values of their own.
pub open spec fn valued_list(
    title: Seq<char>,
    items: Seq<Seq<char>>,
    values: Seq<Seq<char>>,
    kind: ListKindModel,
) -> OverlayModel {
    OverlayOf::List(ListOverlayOf { title, items, values: Some(values), sel: 0, kind })
}

/// The groups that are on offer, as rows.
pub open spec fn group_rows(groups: Seq<MenuRows>) -> Seq<Seq<char>>
    decreases groups.len(),
{
    if groups.len() == 0 {
        Seq::empty()
    } else {
        let before = group_rows(groups.drop_last());
        if groups.last().offered {
            before.push(groups.last().label@ + "…"@)
        } else {
            before
        }
    }
}

/// What the rows of a group are called.
pub open spec fn item_labels(items: Seq<MenuItem>) -> Seq<Seq<char>> {
    Seq::new(items.len(), |i: int| items[i].label@)
}

/// The git menu: its groups, or the rows of one of them below a way back.
pub open spec fn git_menu(group: Option<MenuGroup>, groups: Seq<MenuRows>) -> OverlayModel {
    match group {
        None => plain_list("GIT"@, group_rows(groups), 0, ListKindOf::GitGroups),
        Some(g) => plain_list(
            "GIT · "@ + groups[g.0 as int].label@,
            seq![browse_up()] + item_labels(groups[g.0 as int].items@),
            0,
            ListKindOf::GitGroup(g),
        ),
    }
}

/// The git menu: its groups, or the rows of one of them.
pub fn git_menu_overlay(group: Option<MenuGroup>, groups: &Vec<MenuRows>) -> (o: Overlay)
    requires
        group matches Some(g) ==> g.0 < groups@.len(),
    ensures
        o@ == git_menu(group, groups@),
{
    let mut items: Vec<String> = Vec::new();
    match group {
        None => {
            let mut i: usize = 0;
            assert(groups@.take(0) =~= Seq::empty());
            assert(texts(items@) =~= Seq::empty());
            while i < groups.len()
                invariant
                    i <= groups@.len(),
                    texts(items@) == group_rows(groups@.take(i as int)),
                decreases groups@.len() - i,
            {
                assert(groups@.take(i as int + 1).drop_last() =~= groups@.take(i as int));
                assert(groups@.take(i as int + 1).last() == groups@[i as int]);
                if groups[i].offered {
                    let row = cat(groups[i].label.as_str(), "…");
                    let ghost before = items@;
                    items.push(row);
                    assert(texts(items@) =~= texts(before).push(row@));
                }
                i = i + 1;
            }
            assert(groups@.take(i as int) =~= groups@);
            OverlayOf::List(
                ListOverlayOf {
                    title: "GIT".to_owned(),
                    items,
                    values: None,
                    sel: 0,
                    kind: ListKindOf::GitGroups,
                },
            )
        },
        Some(g) => {
            let rows = &groups[g.0];
            items.push(browse_up_row());
            let mut i: usize = 0;
            while i < rows.items.len()
                invariant
                    i <= rows.items@.len(),
                    items@.len() == i + 1,
                    items@[0]@ == browse_up(),
                    forall|j: int| 0 <= j < i ==> (#[trigger] items@[j + 1])@ == rows.items@[j].label@,
                decreases rows.items@.len() - i,
            {
                items.push(rows.items[i].label.clone());
                i = i + 1;
            }
            assert forall|j: int| 1 <= j < items@.len() implies (#[trigger] items@[j])@
                == rows.items@[j - 1].label@ by {
                assert(items@[(j - 1) + 1] == items@[j]);
            }
            assert(texts(items@) =~= seq![browse_up()] + item_labels(rows.items@));
            OverlayOf::List(
                ListOverlayOf {
                    title: cat("GIT · ", rows.label.as_str()),
                    items,
                    values: None,
                    sel: 0,
                    kind: ListKindOf::GitGroup(g),
                },
            )
        },
    }
}

/// The row of a group that has a label.
pub open spec fn action_named(items: Seq<MenuItem>, label: Seq<char>) -> Option<MenuAction>
    decreases items.len(),
{
    if items.len() == 0 {
        None
    } else if items[0].label@ == label {
        Some(items[0].action)
    } else {
        action_named(items.skip(1), label)
    }
}

/// What a chosen row of a group does.
pub open spec fn action_of(group: MenuGroup, label: Seq<char>, groups: Seq<MenuRows>) -> Option<
    MenuAction,
> {
    if group.0 < groups.len() {
        action_named(groups[group.0 as int].items@, label)
    } else {
        None
    }
}

/// What a chosen row of a group does.
pub fn menu_action(group: MenuGroup, label: &str, groups: &Vec<MenuRows>) -> (r: Option<MenuAction>)
    ensures
        r == action_of(group, label@, groups@),
{
    if group.0 >= groups.len() {
        return None;
    }
    let items = &groups[group.0].items;
    let mut i: usize = 0;
    assert(items@.skip(0) =~= items@);
    while i < items.len()
        invariant
            i <= items@.len(),
            action_named(items@.skip(i as int), label@) == action_of(group, label@, groups@),
        decreases items@.len() - i,
    {
        assert(items@.skip(i as int)[0] == items@[i as int]);
        assert(items@.skip(i as int).skip(1) =~= items@.skip(i as int + 1));
        if same(items[i].label.as_str(), label) {
            return Some(items[i].action);
        }
        i = i + 1;
    }
    None
}

/// The group that a label names.
pub open spec fn group_named(groups: Seq<MenuRows>, label: Seq<char>) -> Option<int>
    decreases groups.len(),
{
    if groups.len() == 0 {
        None
    } else {
        match group_named(groups.drop_last(), label) {
            Some(i) => Some(i),
            None => if groups.last().label@ == label {
                Some(groups.len() - 1)
            } else {
                None
            },
        }
    }
}

/// The group that a label names.
pub fn find_group(groups: &Vec<MenuRows>, label: &str) -> (r: Option<MenuGroup>)
    ensures
        match r {
            Some(g) => group_named(groups@, label@) == Some(g.0 as int) && g.0 < groups@.len(),
            None => group_named(groups@, label@) is None,
        },
{
    let mut i: usize = 0;
    let mut found: Option<MenuGroup> = None;
    assert(groups@.take(0) =~= Seq::empty());
    while i < groups.len()
        invariant
            i <= groups@.len(),
            match found {
                Some(g) => group_named(groups@.take(i as int), label@) == Some(g.0 as int) && g.0
                    < i,
                None => group_named(groups@.take(i as int), label@) is None,
            },
        decreases groups@.len() - i,
    {
        assert(groups@.take(i as int + 1).drop_last() =~= groups@.take(i as int));
        assert(groups@.take(i as int + 1).last() == groups@[i as int]);
        if found.is_none() {
            if same(groups[i].label.as_str(), label) {
                found = Some(MenuGroup(i));
            }
        }
        i = i + 1;
    }
    assert(groups@.take(i as int) =~= groups@);
    found
}

/// What is left to do once a row of the git menu was taken.
#[verifier::ext_equal]
#[derive(Clone, Debug, PartialEq, Eq)]
pub enum MenuStepOf<Q> {
    /// A box is open that asks for more.
    Asked,
    /// A branch to check out is to be picked.
    PickBranch,
    /// Something else is to be picked.
    Pick(PickTarget),
    /// The row is carried out as it stands.
    Send(Q),
}

pub type MenuStep = MenuStepOf<Request>;

/// What is left to do, or what is said instead.
pub open spec fn stepped_to(r: Result<MenuStep, String>) -> Result<
    MenuStepOf<RequestModel>,
    Seq<char>,
> {
    match r {
        Ok(MenuStepOf::Asked) => Ok(MenuStepOf::Asked),
        Ok(MenuStepOf::PickBranch) => Ok(MenuStepOf::PickBranch),
        Ok(MenuStepOf::Pick(t)) => Ok(MenuStepOf::Pick(t)),
        Ok(MenuStepOf::Send(q)) => Ok(MenuStepOf::Send(q@)),
        Err(e) => Err(e@),
    }
}

/// What a row of the git menu does that need not be asked about: some open a
/// prompt, some a list, and the rest are sent to the machine.
pub open spec fn menu_ran(
    action: MenuAction,
    v: BenchModel,
    items: Seq<MenuItem>,
    ws: Option<&Workspace>,
) -> (BenchModel, Result<MenuStepOf<RequestModel>, Seq<char>>) {
    match action {
        MenuAction::Checkout => (v, Ok(MenuStepOf::PickBranch)),
        MenuAction::NewBranch => (
            BenchOf {
                overlay: Some(
                    blank_prompt(
                        "NEW BRANCH"@,
                        PromptKindOf::NewBranch,
                        "branches from where you are now"@,
                    ),
                ),
                ..v
            },
            Ok(MenuStepOf::Asked),
        ),
        MenuAction::TagCreate => (
            BenchOf {
                overlay: Some(
                    blank_prompt(
                        "NEW TAG"@,
                        PromptKindOf::NewTag,
                        "tags the commit you are on"@,
                    ),
                ),
                ..v
            },
            Ok(MenuStepOf::Asked),
        ),
        MenuAction::WorktreeAdd => (
            BenchOf {
                overlay: Some(
                    blank_prompt(
                        "NEW WORKTREE"@,
                        PromptKindOf::NewWorktree,
                        "a branch name; the checkout goes beside this one"@,
                    ),
                ),
                ..v
            },
            Ok(MenuStepOf::Asked),
        ),
        MenuAction::DeleteBranch => (v, Ok(MenuStepOf::Pick(PickTarget::DeleteBranch))),
        MenuAction::Merge => (v, Ok(MenuStepOf::Pick(PickTarget::Merge))),
        MenuAction::Rebase => (v, Ok(MenuStepOf::Pick(PickTarget::Rebase))),
        MenuAction::StashList => (v, Ok(MenuStepOf::Pick(PickTarget::StashPop))),
        MenuAction::StashDrop => (v, Ok(MenuStepOf::Pick(PickTarget::StashDrop))),
        MenuAction::TagDelete => (v, Ok(MenuStepOf::Pick(PickTarget::TagDelete))),
        MenuAction::RemoteRemove => (v, Ok(MenuStepOf::Pick(PickTarget::RemoteRemove))),
        MenuAction::WorktreeList => (v, Ok(MenuStepOf::Pick(PickTarget::OpenWorktree))),
        MenuAction::WorktreeRemove => (v, Ok(MenuStepOf::Pick(PickTarget::RemoveWorktree))),
        _ => (
            v,
            match menu_route(action) {
                None => Err(label_in(items, action) + " is not wired yet"@),
                Some((tail, fields)) => match workspace_post(ws, tail, fields) {
                    Ok(q) => Ok(MenuStepOf::Send(q)),
                    Err(e) => Err(e),
                },
            },
        ),
    }
}

/// What taking a row of the git menu does: a row that destroys something asks
/// first, and remembers what it asked about.
pub open spec fn menu_taken(
    action: MenuAction,
    v: BenchModel,
    items: Seq<MenuItem>,
    ws: Option<&Workspace>,
) -> (BenchModel, Result<MenuStepOf<RequestModel>, Seq<char>>) {
    let (asking, left) = asks(action, v.confirmed_menu_action);
    let v = BenchOf { confirmed_menu_action: left, ..v };
    if asking {
        (
            BenchOf {
                overlay: Some(
                    question(
                        "GIT"@,
                        label_in(items, action) + " — this cannot be undone"@,
                        ConfirmKindOf::MenuAction,
                    ),
                ),
                pending_menu_action: Some(action),
                ..v
            },
            Ok(MenuStepOf::Asked),
        )
    } else {
        menu_ran(action, v, items, ws)
    }
}

/// Takes a row of the git menu.
pub fn run_menu_action(
    action: MenuAction,
    view: &mut Bench,
    items: &Vec<MenuItem>,
    ws: Option<&Workspace>,
) -> (r: Result<MenuStep, String>)
    ensures
        (final(view)@, stepped_to(r)) == menu_taken(action, old(view)@, items@, ws),
{
    if needs_asking(action, &mut view.confirmed_menu_action) {
        let label = label_of(items, action);
        view.overlay = Some(
            ask(
                "GIT",
                cat(label.as_str(), " — this cannot be undone"),
                ConfirmKind::MenuAction,
            ),
        );
        view.pending_menu_action = Some(action);
        return Ok(MenuStep::Asked);
    }
    match action {
        MenuAction::Checkout => Ok(MenuStep::PickBranch),
        MenuAction::NewBranch => {
            view.overlay = Some(
                prompt(
                    "NEW BRANCH",
                    PromptKind::NewBranch,
                    "branches from where you are now".to_owned(),
                ),
            );
            Ok(MenuStep::Asked)
        },
        MenuAction::TagCreate => {
            view.overlay = Some(
                prompt("NEW TAG", PromptKind::NewTag, "tags the commit you are on".to_owned()),
            );
            Ok(MenuStep::Asked)
        },
        MenuAction::WorktreeAdd => {
            view.overlay = Some(
                prompt(
                    "NEW WORKTREE",
                    PromptKind::NewWorktree,
                    "a branch name; the checkout goes beside this one".to_owned(),
                ),
            );
            Ok(MenuStep::Asked)
        },
        MenuAction::DeleteBranch => Ok(MenuStep::Pick(PickTarget::DeleteBranch)),
        MenuAction::Merge => Ok(MenuStep::Pick(PickTarget::Merge)),
        MenuAction::Rebase => Ok(MenuStep::Pick(PickTarget::Rebase)),
        MenuAction::StashList => Ok(MenuStep::Pick(PickTarget::StashPop)),
        MenuAction::StashDrop => Ok(MenuStep::Pick(PickTarget::StashDrop)),
        MenuAction::TagDelete => Ok(MenuStep::Pick(PickTarget::TagDelete)),
        MenuAction::RemoteRemove => Ok(MenuStep::Pick(PickTarget::RemoteRemove)),
        MenuAction::WorktreeList => Ok(MenuStep::Pick(PickTarget::OpenWorktree)),
        MenuAction::WorktreeRemove => Ok(MenuStep::Pick(PickTarget::RemoveWorktree)),
        _ => match menu_request(action) {
            None => {
                let label = label_of(items, action);
                Err(cat(label.as_str(), " is not wired yet"))
            },
            Some((tail, fields)) => match post_git(ws, tail.as_str(), fields) {
                Ok(q) => Ok(MenuStep::Send(q)),
                Err(e) => Err(e),
            },
        },
    }
}

/// Every row of the git menu is wired: none is refused for want of a request.
pub proof fn every_menu_row_does_something(
    action: MenuAction,
    v: BenchModel,
    items: Seq<MenuItem>,
    ws: Option<&Workspace>,
)
    requires
        ws is Some,
    ensures
        menu_taken(action, v, items, ws).1 is Ok,
{
}

/// A row that destroys something sends nothing that was not answered yes to.
pub proof fn nothing_is_destroyed_unasked(
    action: MenuAction,
    v: BenchModel,
    items: Seq<MenuItem>,
    ws: Option<&Workspace>,
)
    requires
        action.needs_confirm(),
        v.confirmed_menu_action != Some(action),
    ensures
        menu_taken(action, v, items, ws).1 == Ok::<MenuStepOf<RequestModel>, Seq<char>>(
            MenuStepOf::Asked,
        ),
        menu_taken(action, v, items, ws).0.pending_menu_action == Some(action),
{
}

/// The branches of a repository as rows, the one that is checked out marked.
pub open spec fn branch_rows(branches: Seq<String>, current: Option<Seq<char>>) -> Seq<Seq<char>> {
    Seq::new(
        branches.len(),
        |i: int|
            (if current == Some(branches[i]@) {
                "* "@
            } else {
                "  "@
            }) + branches[i]@,
    )
}

/// The list of branches, or what is said where there are none.
pub open spec fn branch_list(
    branches: Seq<String>,
    current: Option<Seq<char>>,
    kind: ListKindModel,
    title: Seq<char>,
) -> Result<OverlayModel, Seq<char>> {
    if branches.len() == 0 {
        Err("no branches (is this a repository?)"@)
    } else {
        Ok(valued_list(title, branch_rows(branches, current), texts(branches), kind))
    }
}

/// A list to open, or what is said instead.
pub open spec fn offered_list(r: Result<Overlay, String>) -> Result<OverlayModel, Seq<char>> {
    match r {
        Ok(o) => Ok(o@),
        Err(e) => Err(e@),
    }
}

/// The list of branches.
pub fn branch_picker(
    branches: Vec<String>,
    current: Option<String>,
    kind: ListKind,
    title: &str,
) -> (r: Result<Overlay, String>)
    ensures
        offered_list(r) == branch_list(branches@, opt_text(current), kind@, title@),
{
    if branches.len() == 0 {
        return Err("no branches (is this a repository?)".to_owned());
    }
    let mut items: Vec<String> = Vec::new();
    let mut i: usize = 0;
    let ghost now = opt_text(current);
    while i < branches.len()
        invariant
            i <= branches@.len(),
            items@.len() == i,
            now == opt_text(current),
            forall|j: int|
                0 <= j < i ==> (#[trigger] items@[j])@ == branch_rows(branches@, now)[j],
        decreases branches@.len() - i,
    {
        let here = match &current {
            Some(c) => same(c.as_str(), branches[i].as_str()),
            None => false,
        };
        let mark = if here {
            "* "
        } else {
            "  "
        };
        items.push(cat(mark, branches[i].as_str()));
        i = i + 1;
    }
    assert(texts(items@) =~= branch_rows(branches@, now));
    Ok(
        OverlayOf::List(
            ListOverlayOf { title: title.to_owned(), items, values: Some(branches), sel: 0, kind },
        ),
    )
}

/// A stash.
#[derive(Clone, Debug, PartialEq, Eq)]
pub struct Stash {
    pub index: usize,
    pub branch: String,
    pub message: String,
}

/// A remote.
#[derive(Clone, Debug, PartialEq, Eq)]
pub struct Remote {
    pub name: String,
    pub url: String,
}

/// A checkout of the repository. The main one cannot be removed.
#[derive(Clone, Debug, PartialEq, Eq)]
pub struct Worktree {
    pub path: String,
    pub branch: Option<String>,
    pub is_main: bool,
}

/// Which list a pick is made from.
#[derive(Clone, Copy, Debug, PartialEq, Eq, Structural)]
pub enum PickSource {
    Branches,
    Stashes,
    Tags,
    Remotes,
    Worktrees,
}

impl PickSource {
    /// The route, below that of the workspace, that lists it.
    pub open spec fn route(self) -> Seq<char> {
        match self {
            PickSource::Branches => "branches"@,
            PickSource::Stashes => "git/stashes"@,
            PickSource::Tags => "git/tags"@,
            PickSource::Remotes => "git/remotes"@,
            PickSource::Worktrees => "git/worktrees"@,
        }
    }

    /// The route, below that of the workspace, that lists it.
    pub fn tail(self) -> (r: &'static str)
        ensures
            r@ == self.route(),
    {
        match self {
            PickSource::Branches => "branches",
            PickSource::Stashes => "git/stashes",
            PickSource::Tags => "git/tags",
            PickSource::Remotes => "git/remotes",
            PickSource::Worktrees => "git/worktrees",
        }
    }
}

/// Which list a pick is made from. Some are made on the git page alone.
pub open spec fn source_of(target: PickTarget, title: Seq<char>) -> Result<PickSource, Seq<char>> {
    match target {
        PickTarget::Checkout | PickTarget::Revert | PickTarget::CherryPick => Err(
            title + " is chosen from the GIT page, not from a list"@,
        ),
        PickTarget::DeleteBranch | PickTarget::Merge | PickTarget::Rebase => Ok(
            PickSource::Branches,
        ),
        PickTarget::StashPop | PickTarget::StashDrop => Ok(PickSource::Stashes),
        PickTarget::TagDelete => Ok(PickSource::Tags),
        PickTarget::RemoteRemove => Ok(PickSource::Remotes),
        PickTarget::OpenWorktree | PickTarget::RemoveWorktree => Ok(PickSource::Worktrees),
    }
}

/// Which list a pick is made from.
pub fn pick_source(target: PickTarget, title: &str) -> (r: Result<PickSource, String>)
    ensures
        (match r {
            Ok(s) => Ok(s),
            Err(e) => Err(e@),
        }) == source_of(target, title@),
{
    match target {
        PickTarget::Checkout | PickTarget::Revert | PickTarget::CherryPick => Err(
            cat(title, " is chosen from the GIT page, not from a list"),
        ),
        PickTarget::DeleteBranch | PickTarget::Merge | PickTarget::Rebase => Ok(
            PickSource::Branches,
        ),
        PickTarget::StashPop | PickTarget::StashDrop => Ok(PickSource::Stashes),
        PickTarget::TagDelete => Ok(PickSource::Tags),
        PickTarget::RemoteRemove => Ok(PickSource::Remotes),
        PickTarget::OpenWorktree | PickTarget::RemoveWorktree => Ok(PickSource::Worktrees),
    }
}

/// What a list of some things is like, or what is said where there are none.
pub open spec fn pick_list(
    target: PickTarget,
    title: Seq<char>,
    items: Seq<Seq<char>>,
    values: Seq<Seq<char>>,
    none: Seq<char>,
) -> Result<OverlayModel, Seq<char>> {
    if items.len() == 0 {
        Err(none)
    } else {
        Ok(valued_list(title, items, values, ListKindOf::Pick(target)))
    }
}

fn list_to_pick(target: PickTarget, title: &str, items: Vec<String>, values: Vec<String>, none: &str) -> (
    r: Result<Overlay, String>)
    ensures
        offered_list(r) == pick_list(target, title@, texts(items@), texts(values@), none@),
{
    if items.len() == 0 {
        Err(none.to_owned())
    } else {
        Ok(
            OverlayOf::List(
                ListOverlayOf {
                    title: title.to_owned(),
                    items,
                    values: Some(values),
                    sel: 0,
                    kind: ListKindOf::Pick(target),
                },
            ),
        )
    }
}

/// How a stash reads.
pub open spec fn stash_row(s: Stash) -> Seq<char> {
    "stash@{"@ + decimal(s.index as nat) + "} "@ + s.branch@ + " "@ + s.message@
}

/// The list of stashes.
pub fn stash_picker(target: PickTarget, title: &str, list: &Vec<Stash>) -> (r: Result<Overlay, String>)
    ensures
        offered_list(r) == pick_list(
            target,
            title@,
            Seq::new(list@.len(), |i: int| stash_row(list@[i])),
            Seq::new(list@.len(), |i: int| decimal(list@[i].index as nat)),
            "nothing stashed"@,
        ),
{
    let mut items: Vec<String> = Vec::new();
    let mut values: Vec<String> = Vec::new();
    let mut i: usize = 0;
    while i < list.len()
        invariant
            i <= list@.len(),
            items@.len() == i,
            values@.len() == i,
            forall|j: int| 0 <= j < i ==> (#[trigger] items@[j])@ == stash_row(list@[j]),
            forall|j: int|
                0 <= j < i ==> (#[trigger] values@[j])@ == decimal(list@[j].index as nat),
        decreases list@.len() - i,
    {
        let s = &list[i];
        let n = to_decimal(s.index as u128);
        let mut row = cat5("stash@{", n.as_str(), "} ", s.branch.as_str(), " ");
        row.append(s.message.as_str());
        items.push(row);
        values.push(n);
        i = i + 1;
    }
    assert(texts(items@) =~= Seq::new(list@.len(), |i: int| stash_row(list@[i])));
    assert(texts(values@) =~= Seq::new(list@.len(), |i: int| decimal(list@[i].index as nat)));
    list_to_pick(target, title, items, values, "nothing stashed")
}

/// The list of tags.
pub fn tag_picker(target: PickTarget, title: &str, list: &Vec<String>) -> (r: Result<Overlay, String>)
    ensures
        offered_list(r) == pick_list(target, title@, texts(list@), texts(list@), "no tags"@),
{
    let mut items: Vec<String> = Vec::new();
    let mut values: Vec<String> = Vec::new();
    let mut i: usize = 0;
    while i < list.len()
        invariant
            i <= list@.len(),
            items@.len() == i,
            values@.len() == i,
            forall|j: int| 0 <= j < i ==> #[trigger] items@[j] == list@[j],
            forall|j: int| 0 <= j < i ==> #[trigger] values@[j] == list@[j],
        decreases list@.len() - i,
    {
        items.push(list[i].clone());
        values.push(list[i].clone());
        i = i + 1;
    }
    assert(texts(items@) =~= texts(list@));
    assert(texts(values@) =~= texts(list@));
    list_to_pick(target, title, items, values, "no tags")
}

/// The list of remotes.
pub fn remote_picker(target: PickTarget, title: &str, list: &Vec<Remote>) -> (r: Result<Overlay, String>)
    ensures
        offered_list(r) == pick_list(
            target,
            title@,
            Seq::new(list@.len(), |i: int| list@[i].name@ + "  "@ + list@[i].url@),
            Seq::new(list@.len(), |i: int| list@[i].name@),
            "no remotes"@,
        ),
{
    let mut items: Vec<String> = Vec::new();
    let mut values: Vec<String> = Vec::new();
    let mut i: usize = 0;
    while i < list.len()
        invariant
            i <= list@.len(),
            items@.len() == i,
            values@.len() == i,
            forall|j: int|
                0 <= j < i ==> (#[trigger] items@[j])@ == list@[j].name@ + "  "@ + list@[j].url@,
            forall|j: int| 0 <= j < i ==> (#[trigger] values@[j])@ == list@[j].name@,
        decreases list@.len() - i,
    {
        items.push(cat3(list[i].name.as_str(), "  ", list[i].url.as_str()));
        values.push(list[i].name.clone());
        i = i + 1;
    }
    assert(texts(items@) =~= Seq::new(
        list@.len(),
        |i: int| list@[i].name@ + "  "@ + list@[i].url@,
    ));
    assert(texts(values@) =~= Seq::new(list@.len(), |i: int| list@[i].name@));
    list_to_pick(target, title, items, values, "no remotes")
}

/// The checkouts that can be picked: all of them to open one, and all but the
/// main one to remove one.
pub open spec fn pickable(list: Seq<Worktree>, target: PickTarget) -> Seq<Worktree>
    decreases list.len(),
{
    if list.len() == 0 {
        Seq::empty()
    } else {
        let before = pickable(list.drop_last(), target);
        if target is RemoveWorktree && list.last().is_main {
            before
        } else {
            before.push(list.last())
        }
    }
}

/// How a checkout reads.
pub open spec fn worktree_row(w: Worktree) -> Seq<char> {
    match w.branch {
        Some(b) => w.path@ + "  ["@ + b@ + "]"@,
        None => w.path@ + "  (detached)"@,
    }
}

/// How some checkouts read.
pub open spec fn worktree_rows(list: Seq<Worktree>) -> Seq<Seq<char>> {
    Seq::new(list.len(), |i: int| worktree_row(list[i]))
}

/// Where some checkouts are.
pub open spec fn worktree_paths(list: Seq<Worktree>) -> Seq<Seq<char>> {
    Seq::new(list.len(), |i: int| list[i].path@)
}

/// The list of checkouts.
pub fn worktree_picker(target: PickTarget, title: &str, list: &Vec<Worktree>) -> (r: Result<
    Overlay,
    String,
>)
    ensures
        offered_list(r) == pick_list(
            target,
            title@,
            worktree_rows(pickable(list@, target)),
            worktree_paths(pickable(list@, target)),
            "no other worktrees"@,
        ),
{
    let mut items: Vec<String> = Vec::new();
    let mut values: Vec<String> = Vec::new();
    let mut i: usize = 0;
    assert(list@.take(0) =~= Seq::empty());
    assert(texts(items@) =~= worktree_rows(pickable(list@.take(0), target)));
    assert(texts(values@) =~= worktree_paths(pickable(list@.take(0), target)));
    while i < list.len()
        invariant
            i <= list@.len(),
            texts(items@) == worktree_rows(pickable(list@.take(i as int), target)),
            texts(values@) == worktree_paths(pickable(list@.take(i as int), target)),
        decreases list@.len() - i,
    {
        let w = &list[i];
        let ghost before = pickable(list@.take(i as int), target);
        assert(list@.take(i as int + 1).drop_last() =~= list@.take(i as int));
        assert(list@.take(i as int + 1).last() == *w);
        if !(target == PickTarget::RemoveWorktree && w.is_main) {
            let row = match &w.branch {
                Some(b) => {
                    let mut row = cat3(w.path.as_str(), "  [", b.as_str());
                    row.append("]");
                    row
                },
                None => cat(w.path.as_str(), "  (detached)"),
            };
            let ghost shown = items@;
            let ghost held = values@;
            items.push(row);
            values.push(w.path.clone());
            proof {
                assert(texts(items@) =~= texts(shown).push(row@));
                assert(texts(values@) =~= texts(held).push(w.path@));
                assert(worktree_rows(before.push(*w)) =~= worktree_rows(before).push(
                    worktree_row(*w),
                ));
                assert(worktree_paths(before.push(*w)) =~= worktree_paths(before).push(w.path@));
            }
        }
        i = i + 1;
    }
    assert(list@.take(i as int) =~= list@);
    list_to_pick(target, title, items, values, "no other worktrees")
}

/// What there is to pick from.
#[derive(Clone, Debug, PartialEq, Eq)]
pub enum PickRows {
    Branches { branches: Vec<String>, current: Option<String> },
    Stashes(Vec<Stash>),
    Tags(Vec<String>),
    Remotes(Vec<Remote>),
    Worktrees(Vec<Worktree>),
}

/// The list that a pick is made from, or what is said where there is nothing to
/// pick.
pub open spec fn picked_from(target: PickTarget, title: Seq<char>, rows: PickRows) -> Result<
    OverlayModel,
    Seq<char>,
> {
    match rows {
        PickRows::Branches { branches, current } => branch_list(
            branches@,
            opt_text(current),
            ListKindOf::Pick(target),
            title,
        ),
        PickRows::Stashes(list) => pick_list(
            target,
            title,
            Seq::new(list@.len(), |i: int| stash_row(list@[i])),
            Seq::new(list@.len(), |i: int| decimal(list@[i].index as nat)),
            "nothing stashed"@,
        ),
        PickRows::Tags(list) => pick_list(
            target,
            title,
            texts(list@),
            texts(list@),
            "no tags"@,
        ),
        PickRows::Remotes(list) => pick_list(
            target,
            title,
            Seq::new(list@.len(), |i: int| list@[i].name@ + "  "@ + list@[i].url@),
            Seq::new(list@.len(), |i: int| list@[i].name@),
            "no remotes"@,
        ),
        PickRows::Worktrees(list) => pick_list(
            target,
            title,
            worktree_rows(pickable(list@, target)),
            worktree_paths(pickable(list@, target)),
            "no other worktrees"@,
        ),
    }
}

/// The list that a pick is made from. `rows` are those of the list it is made
/// from.
pub fn pick_overlay(target: PickTarget, title: &str, rows: PickRows) -> (r: Result<Overlay, String>)
    ensures
        offered_list(r) == picked_from(target, title@, rows),
{
    match rows {
        PickRows::Branches { branches, current } => branch_picker(
            branches,
            current,
            ListKindOf::Pick(target),
            title,
        ),
        PickRows::Stashes(list) => stash_picker(target, title, &list),
        PickRows::Tags(list) => tag_picker(target, title, &list),
        PickRows::Remotes(list) => remote_picker(target, title, &list),
        PickRows::Worktrees(list) => worktree_picker(target, title, &list),
    }
}

/// The main checkout cannot be picked to be removed.
pub proof fn the_main_checkout_is_not_removed(list: Seq<Worktree>, i: int)
    requires
        0 <= i < pickable(list, PickTarget::RemoveWorktree).len(),
    ensures
        !pickable(list, PickTarget::RemoveWorktree)[i].is_main,
    decreases list.len(),
{
    if list.len() > 0 {
        let before = pickable(list.drop_last(), PickTarget::RemoveWorktree);
        if i < before.len() {
            the_main_checkout_is_not_removed(list.drop_last(), i);
        }
    }
}

/// The row that an agent list opens on: the pinned agent's, else the first.
pub open spec fn row_of_pin(items: Seq<Seq<char>>, pinned: Option<Seq<char>>) -> int {
    match pinned {
        Some(p) => match first_index(items, p) {
            Some(i) => i,
            None => 0,
        },
        None => 0,
    }
}

/// The row that an agent list opens on.
pub fn pinned_row(items: &Vec<String>, pinned: Option<&str>) -> (r: usize)
    ensures
        r == row_of_pin(
            texts(items@),
            match pinned {
                Some(p) => Some(p@),
                None => None,
            },
        ),
{
    match pinned {
        Some(p) => match position(items, p) {
            Some(i) => i,
            None => 0,
        },
        None => 0,
    }
}

/// The title of the list of agents.
pub open spec fn agent_picker_title() -> Seq<char> {
    "SPAWN AGENT — d pins as default"@
}

/// The list of agents, or what is said where there are none.
pub open spec fn agent_list(items: Seq<Seq<char>>, pinned: Option<Seq<char>>) -> Result<
    OverlayModel,
    Seq<char>,
> {
    if items.len() == 0 {
        Err("no agents configured"@)
    } else {
        Ok(
            plain_list(
                agent_picker_title(),
                items,
                row_of_pin(items, pinned) as usize,
                ListKindOf::SpawnAgent,
            ),
        )
    }
}

/// The list of agents, opened on the pinned one.
pub fn agent_picker(items: Vec<String>, pinned: Option<&str>) -> (r: Result<Overlay, String>)
    ensures
        offered_list(r) == agent_list(
            texts(items@),
            match pinned {
                Some(p) => Some(p@),
                None => None,
            },
        ),
{
    if items.len() == 0 {
        return Err("no agents configured".to_owned());
    }
    let sel: usize = pinned_row(&items, pinned);
    Ok(
        OverlayOf::List(
            ListOverlayOf {
                title: "SPAWN AGENT — d pins as default".to_owned(),
                items,
                values: None,
                sel,
                kind: ListKindOf::SpawnAgent,
            },
        ),
    )
}

/// A text in quotes, as `Debug` writes it.
pub uninterp spec fn debug_text(s: Seq<char>) -> Seq<char>;

/// `Debug` of a `str`, which puts the text in quotes and escapes what does not
/// print. What it writes depends on the text alone; how it escapes a given
/// character is left to the standard library.
#[verifier::external_body]
fn in_quotes(s: &str) -> (r: String)
    ensures
        r@ == debug_text(s@),
{
    format!("{:?}", s)
}

/// What is said of an agent that a machine does not know, by its name in
/// quotes.
pub fn unknown_agent(name: &str) -> (r: String)
    ensures
        r@ == "no agent named "@ + name@ + " — `:agent` lists what is configured"@,
{
    cat3("no agent named ", name, " — `:agent` lists what is configured")
}

/// Whether an agent can be pinned: one that the machine knows, or none.
pub fn pin_agent(name: &Option<String>, known: &Vec<String>) -> (r: Result<(), String>)
    ensures
        match r {
            Ok(_) => name matches Some(n) ==> first_index(texts(known@), n@) is Some,
            Err(e) => name is Some && first_index(texts(known@), name->0@) is None && e@
                == "no agent named "@ + debug_text(name->0@)
                + " — `:agent` lists what is configured"@,
        },
{
    match name {
        Some(n) => match position(known, n.as_str()) {
            Some(_) => Ok(()),
            None => Err(unknown_agent(in_quotes(n.as_str()).as_str())),
        },
        None => Ok(()),
    }
}

/// The list of spaces, opened on the one that is showing.
pub fn space_picker(view: &Bench, rows: Vec<String>) -> (o: Overlay)
    ensures
        o@ == plain_list(
            "VIEWS"@,
            texts(rows@),
            space_index(view@.spaces, view@.page) as usize,
            ListKindOf::Space,
        ),
{
    let sel: usize = find_space(&view.spaces, view.page);
    OverlayOf::List(
        ListOverlayOf {
            title: "VIEWS".to_owned(),
            items: rows,
            values: None,
            sel,
            kind: ListKindOf::Space,
        },
    )
}

/// The title and the rows of a menu.
#[derive(Clone, Debug, PartialEq, Eq)]
pub struct MenuText {
    pub title: String,
    pub rows: Vec<String>,
}

/// The titles and the rows of the menus that are opened on something.
#[derive(Clone, Debug, PartialEq, Eq)]
pub struct MenuTexts {
    pub process: MenuText,
    pub agent: MenuText,
    pub tab: MenuText,
    pub remote_tab: MenuText,
}

/// The title and the rows of the menu on something.
pub open spec fn text_for(texts: MenuTexts, kind: MenuTarget) -> MenuText {
    match kind {
        MenuTarget::Process(_) => texts.process,
        MenuTarget::Agent { .. } => texts.agent,
        MenuTarget::Tab(_) => texts.tab,
        MenuTarget::RemoteTab(_) => texts.remote_tab,
    }
}

/// The menu on something.
pub open spec fn context_menu(kind: MenuTarget, names: MenuTexts) -> OverlayModel {
    plain_list(
        text_for(names, kind).title@,
        texts(text_for(names, kind).rows@),
        0,
        ListKindOf::Menu(kind),
    )
}

fn clone_rows(v: &Vec<String>) -> (r: Vec<String>)
    ensures
        r@ == v@,
{
    let mut r: Vec<String> = Vec::new();
    let mut i: usize = 0;
    while i < v.len()
        invariant
            i <= v@.len(),
            r@ == v@.take(i as int),
        decreases v@.len() - i,
    {
        r.push(v[i].clone());
        assert(v@.take(i as int + 1) =~= v@.take(i as int).push(v@[i as int]));
        i = i + 1;
    }
    assert(v@.take(i as int) =~= v@);
    r
}

/// The menu on something.
pub fn menu_overlay(kind: MenuTarget, names: &MenuTexts) -> (o: Overlay)
    ensures
        o@ == context_menu(kind, *names),
{
    let text = match kind {
        MenuTarget::Process(_) => &names.process,
        MenuTarget::Agent { .. } => &names.agent,
        MenuTarget::Tab(_) => &names.tab,
        MenuTarget::RemoteTab(_) => &names.remote_tab,
    };
    OverlayOf::List(
        ListOverlayOf {
            title: text.title.clone(),
            items: clone_rows(&text.rows),
            values: None,
            sel: 0,
            kind: ListKindOf::Menu(kind),
        },
    )
}

/// What a row of a menu does.
#[verifier::ext_equal]
#[derive(Clone, Debug, PartialEq, Eq)]
pub enum MenuDeedOf<R, Q> {
    /// Kills panes, one after the other.
    Kill(R),
    /// Restarts a process on the machine of the open workspace. If its pane is
    /// on the stage it is let go of.
    Restart { pane: PaneId, request: Q },
    /// Closes a workspace of a machine.
    Close { daemon: usize, request: Q },
    /// Disconnects a machine, and forgets it.
    Disconnect(usize),
}

pub type MenuDeed = MenuDeedOf<Vec<Route>, Request>;

pub type MenuDeedModel = MenuDeedOf<Seq<Route>, RequestModel>;

impl View for MenuDeedOf<Vec<Route>, Request> {
    type V = MenuDeedModel;

    open spec fn view(&self) -> MenuDeedModel {
        match *self {
            MenuDeedOf::Kill(routes) => MenuDeedOf::Kill(routes@),
            MenuDeedOf::Restart { pane, request } => MenuDeedOf::Restart {
                pane,
                request: request@,
            },
            MenuDeedOf::Close { daemon, request } => MenuDeedOf::Close {
                daemon,
                request: request@,
            },
            MenuDeedOf::Disconnect(d) => MenuDeedOf::Disconnect(d),
        }
    }
}

/// What a row of a menu does, or what is said instead.
pub open spec fn deed(r: Result<MenuDeed, String>) -> Result<MenuDeedModel, Seq<char>> {
    match r {
        Ok(d) => Ok(d@),
        Err(e) => Err(e@),
    }
}

/// Where some agents of a workspace are, all but one of them.
pub open spec fn routes_but(
    agents: Seq<PaneId>,
    keep: Option<PaneId>,
    daemon: usize,
    workspace: SessionId,
) -> Seq<Route>
    decreases agents.len(),
{
    if agents.len() == 0 {
        Seq::empty()
    } else {
        let before = routes_but(agents.drop_last(), keep, daemon, workspace);
        if Some(agents.last()) == keep {
            before
        } else {
            before.push(Route { daemon, workspace, pane: agents.last() })
        }
    }
}

/// The agents of a workspace of a machine.
pub open spec fn agents_of(daemons: Seq<Daemon>, daemon: usize, workspace: SessionId) -> Seq<PaneId> {
    if daemon < daemons.len() {
        match daemons[daemon as int].described(workspace) {
            Some(w) => w.agents@,
            None => Seq::empty(),
        }
    } else {
        Seq::empty()
    }
}

/// What a row of a menu does: on a process, the first kills it and any other
/// restarts it; on an agent, the first kills it, the second all but it, and any
/// other all of its workspace; on a tab, any closes its workspace, or lets go
/// of its machine where it is another's.
pub open spec fn menu_deed(
    target: MenuTarget,
    row: usize,
    daemons: Seq<Daemon>,
    here: usize,
    ws: Option<&Workspace>,
) -> Result<MenuDeedModel, Seq<char>> {
    match target {
        MenuTarget::Process(pane) => match ws {
            None => Err("no workspace open"@),
            Some(w) => Ok(
                if row == 0 {
                    MenuDeedOf::Kill(seq![Route { daemon: here, workspace: w.id, pane }])
                } else {
                    MenuDeedOf::Restart {
                        pane,
                        request: post_of(
                            route_at(
                                w.id,
                                "processes/"@ + decimal(pane.0 as nat) + "/restart"@,
                            ),
                            Seq::empty(),
                        ),
                    }
                },
            ),
        },
        MenuTarget::Agent { daemon, workspace, pane } => Ok(
            MenuDeedOf::Kill(
                if row == 0 {
                    seq![Route { daemon, workspace, pane }]
                } else {
                    routes_but(
                        agents_of(daemons, daemon, workspace),
                        if row == 1 {
                            Some(pane)
                        } else {
                            None
                        },
                        daemon,
                        workspace,
                    )
                },
            ),
        ),
        MenuTarget::Tab(i) => if i < all_tabs(daemons).len() {
            let (d, t) = all_tabs(daemons)[i as int];
            Ok(
                MenuDeedOf::Close {
                    daemon: d,
                    request: delete_of(
                        workspace_route(daemons[d as int].tabs@[t as int].id),
                    ),
                },
            )
        } else {
            Err("that tab has gone"@)
        },
        MenuTarget::RemoteTab(i) => if i < all_tabs(daemons).len() {
            Ok(MenuDeedOf::Disconnect(all_tabs(daemons)[i as int].0))
        } else {
            Err("that tab has gone"@)
        },
    }
}

fn routes_without(
    agents: &Vec<PaneId>,
    keep: Option<PaneId>,
    daemon: usize,
    workspace: SessionId,
) -> (r: Vec<Route>)
    ensures
        r@ == routes_but(agents@, keep, daemon, workspace),
{
    let mut r: Vec<Route> = Vec::new();
    let mut i: usize = 0;
    assert(agents@.take(0) =~= Seq::empty());
    while i < agents.len()
        invariant
            i <= agents@.len(),
            r@ == routes_but(agents@.take(i as int), keep, daemon, workspace),
        decreases agents@.len() - i,
    {
        assert(agents@.take(i as int + 1).drop_last() =~= agents@.take(i as int));
        assert(agents@.take(i as int + 1).last() == agents@[i as int]);
        let kept = match keep {
            Some(p) => p == agents[i],
            None => false,
        };
        if !kept {
            r.push(Route { daemon, workspace, pane: agents[i] });
        }
        i = i + 1;
    }
    assert(agents@.take(i as int) =~= agents@);
    r
}

/// What a row of a menu does.
pub fn run_menu_row(
    target: MenuTarget,
    row: usize,
    daemons: &Vec<Daemon>,
    hosts: &Vec<Option<String>>,
    here: usize,
    ws: Option<&Workspace>,
) -> (r: Result<MenuDeed, String>)
    ensures
        deed(r) == menu_deed(target, row, daemons@, here, ws),
{
    match target {
        MenuTarget::Process(pane) => match ws {
            None => Err("no workspace open".to_owned()),
            Some(w) => if row == 0 {
                let mut routes: Vec<Route> = Vec::new();
                routes.push(Route { daemon: here, workspace: w.id, pane });
                assert(routes@ =~= seq![Route { daemon: here, workspace: w.id, pane }]);
                Ok(MenuDeed::Kill(routes))
            } else {
                let request = restart_pane(w.id, pane);
                Ok(MenuDeed::Restart { pane, request })
            },
        },
        MenuTarget::Agent { daemon, workspace, pane } => if row == 0 {
            let mut routes: Vec<Route> = Vec::new();
            routes.push(Route { daemon, workspace, pane });
            assert(routes@ =~= seq![Route { daemon, workspace, pane }]);
            Ok(MenuDeed::Kill(routes))
        } else {
            let keep = if row == 1 {
                Some(pane)
            } else {
                None
            };
            let routes = if daemon < daemons.len() {
                match daemons[daemon].workspace(workspace) {
                    Some(w) => routes_without(&w.agents, keep, daemon, workspace),
                    None => Vec::new(),
                }
            } else {
                Vec::new()
            };
            Ok(MenuDeed::Kill(routes))
        },
        MenuTarget::Tab(i) => {
            let tabs = tab_index(daemons, hosts);
            if i < tabs.len() {
                let (d, t): (usize, usize) = tabs[i];
                Ok(
                    MenuDeed::Close {
                        daemon: d,
                        request: close_workspace(daemons[d].tabs[t].id),
                    },
                )
            } else {
                Err("that tab has gone".to_owned())
            }
        },
        MenuTarget::RemoteTab(i) => {
            let tabs = tab_index(daemons, hosts);
            if i < tabs.len() {
                Ok(MenuDeed::Disconnect(tabs[i].0))
            } else {
                Err("that tab has gone".to_owned())
            }
        },
    }
}

/// Closing the others leaves the one that the menu is on alone, and closes
/// every other agent of its workspace.
pub proof fn closing_the_others_keeps_this_one(
    agents: Seq<PaneId>,
    pane: PaneId,
    daemon: usize,
    workspace: SessionId,
    other: PaneId,
)
    ensures
        routes_but(agents, Some(pane), daemon, workspace).contains(
            Route { daemon, workspace, pane: other },
        ) <==> (agents.contains(other) && other != pane),
    decreases agents.len(),
{
    if agents.len() > 0 {
        let rest = agents.drop_last();
        let before = routes_but(rest, Some(pane), daemon, workspace);
        let want = Route { daemon, workspace, pane: other };
        closing_the_others_keeps_this_one(rest, pane, daemon, workspace, other);
        if agents.contains(other) && agents.last() != other {
            let i = choose|i: int| 0 <= i < agents.len() && agents[i] == other;
            assert(rest[i] == other);
        }
        if rest.contains(other) {
            let i = choose|i: int| 0 <= i < rest.len() && rest[i] == other;
            assert(agents[i] == other);
        }
        if agents.last() != pane {
            let last = Route { daemon, workspace, pane: agents.last() };
            let all = before.push(last);
            if before.contains(want) {
                let i = choose|i: int| 0 <= i < before.len() && before[i] == want;
                assert(all[i] == want);
            }
            if agents.last() == other {
                assert(all[before.len() as int] == want);
            }
            if all.contains(want) && agents.last() != other {
                let i = choose|i: int| 0 <= i < all.len() && all[i] == want;
                assert(before[i] == want);
            }
        }
    }
}

/// A repository is in a sequence where its workspace says that it is not
/// clean, and never where there is no repository.
pub proof fn a_sequence_is_what_the_workspace_says(w: &Workspace, c: crate::project::Changes)
    ensures
        w.changes == Some(c) ==> mid_sequence(Some(w)) == !c.clean,
        w.changes is None ==> !mid_sequence(Some(w)),
        !mid_sequence(None),
{
}

/// A row is called what the first row of its action is called.
pub proof fn a_row_goes_by_its_own_label(items: Seq<MenuItem>, action: MenuAction, i: int)
    ensures
        0 <= i < items.len() && items[i].action == action && (forall|j: int|
            0 <= j < i ==> (#[trigger] items[j]).action != action) ==> label_in(items, action)
            == items[i].label@,
        (forall|j: int| 0 <= j < items.len() ==> (#[trigger] items[j]).action != action)
            ==> label_in(items, action) == "this"@,
    decreases items.len(),
{
    if items.len() > 0 {
        let rest = items.skip(1);
        if 0 < i < items.len() && items[i].action == action && (forall|j: int|
            0 <= j < i ==> (#[trigger] items[j]).action != action) {
            assert(items[0].action != action);
            assert(rest[i - 1] == items[i]);
            assert forall|j: int| 0 <= j < i - 1 implies (#[trigger] rest[j]).action != action by {
                assert(rest[j] == items[j + 1]);
            }
            a_row_goes_by_its_own_label(rest, action, i - 1);
        }
        if forall|j: int| 0 <= j < items.len() ==> (#[trigger] items[j]).action != action {
            assert(items[0].action != action);
            assert forall|j: int| 0 <= j < rest.len() implies (#[trigger] rest[j]).action
                != action by {
                assert(rest[j] == items[j + 1]);
            }
            a_row_goes_by_its_own_label(rest, action, 0);
        }
    }
}

/// A label of a group does what the first row under it does, and one that the
/// group does not have does nothing.
pub proof fn a_label_does_what_its_row_does(items: Seq<MenuItem>, label: Seq<char>, i: int)
    ensures
        0 <= i < items.len() && items[i].label@ == label && (forall|j: int|
            0 <= j < i ==> (#[trigger] items[j]).label@ != label) ==> action_named(items, label)
            == Some(items[i].action),
        (forall|j: int| 0 <= j < items.len() ==> (#[trigger] items[j]).label@ != label)
            ==> action_named(items, label) is None,
    decreases items.len(),
{
    if items.len() > 0 {
        let rest = items.skip(1);
        if 0 < i < items.len() && items[i].label@ == label && (forall|j: int|
            0 <= j < i ==> (#[trigger] items[j]).label@ != label) {
            assert(items[0].label@ != label);
            assert(rest[i - 1] == items[i]);
            assert forall|j: int| 0 <= j < i - 1 implies (#[trigger] rest[j]).label@ != label by {
                assert(rest[j] == items[j + 1]);
            }
            a_label_does_what_its_row_does(rest, label, i - 1);
        }
        if forall|j: int| 0 <= j < items.len() ==> (#[trigger] items[j]).label@ != label {
            assert(items[0].label@ != label);
            assert forall|j: int| 0 <= j < rest.len() implies (#[trigger] rest[j]).label@
                != label by {
                assert(rest[j] == items[j + 1]);
            }
            a_label_does_what_its_row_does(rest, label, 0);
        }
    }
}

/// A label names the first group that goes by it, and none where none does.
pub proof fn a_group_is_found_by_its_label(groups: Seq<MenuRows>, label: Seq<char>)
    ensures
        match group_named(groups, label) {
            Some(g) => 0 <= g < groups.len() && groups[g].label@ == label && forall|j: int|
                0 <= j < g ==> (#[trigger] groups[j]).label@ != label,
            None => forall|j: int|
                0 <= j < groups.len() ==> (#[trigger] groups[j]).label@ != label,
        },
    decreases groups.len(),
{
    if groups.len() > 0 {
        let before = groups.drop_last();
        a_group_is_found_by_its_label(before, label);
        match group_named(before, label) {
            Some(g) => {
                assert(before[g] == groups[g]);
                assert forall|j: int| 0 <= j < g implies (#[trigger] groups[j]).label@ != label by {
                    assert(before[j] == groups[j]);
                }
            },
            None => {
                assert forall|j: int| 0 <= j < groups.len() - 1 implies (
                #[trigger] groups[j]).label@ != label by {
                    assert(before[j] == groups[j]);
                }
            },
        }
    }
}

/// The git menu lists the groups that are on offer, in order, each with dots
/// behind its name; and a group lists the way back and then its rows in order.
/// Either opens on its first row.
pub proof fn the_git_menu_lists_groups_and_their_rows(
    groups: Seq<MenuRows>,
    g: MenuRows,
    group: MenuGroup,
    i: int,
)
    ensures
        group_rows(Seq::empty()) == Seq::<Seq<char>>::empty(),
        g.offered ==> group_rows(groups.push(g)) == group_rows(groups).push(g.label@ + "…"@),
        !g.offered ==> group_rows(groups.push(g)) == group_rows(groups),
        git_menu(None, groups) matches OverlayOf::List(l) && l.title == "GIT"@ && l.items
            == group_rows(groups) && l.sel == 0 && l.values is None && l.kind is GitGroups,
        group.0 < groups.len() ==> (git_menu(Some(group), groups) matches OverlayOf::List(l)
            && l.title == "GIT · "@ + groups[group.0 as int].label@ && l.sel == 0 && l.values
            is None && l.kind == ListKindOf::<Seq<char>>::GitGroup(group) && l.items.len()
            == groups[group.0 as int].items@.len() + 1 && l.items[0] == ".."@ && (0 <= i
            < groups[group.0 as int].items@.len() ==> l.items[i + 1]
            == groups[group.0 as int].items@[i].label@)),
{
    assert(groups.push(g).drop_last() =~= groups);
}

/// A row of the git menu that need not be asked about opens the prompt it
/// needs or the list it picks from, or is sent to its own route of the open
/// workspace. The answer that is kept for another row stays.
pub proof fn a_row_of_the_git_menu_does_what_it_is_for(
    action: MenuAction,
    v: BenchModel,
    items: Seq<MenuItem>,
    w: &Workspace,
)
    requires
        !action.needs_confirm() || v.confirmed_menu_action == Some(action),
    ensures
        ({
            let r = menu_taken(action, v, items, Some(w));
            let picks = |target: PickTarget|
                r == (
                    v,
                    Ok::<MenuStepOf<RequestModel>, Seq<char>>(MenuStepOf::Pick(target)),
                );
            let prompts = |title: Seq<char>, kind: PromptKindOf<Seq<char>>, says: Seq<char>|
                r.1 == Ok::<MenuStepOf<RequestModel>, Seq<char>>(MenuStepOf::Asked)
                    && r.0.overlay == Some(
                    OverlayModel::Prompt(
                        crate::types::PromptOverlayOf {
                            title,
                            text: Seq::empty(),
                            cursor: 0,
                            kind,
                            subtitle: Some(says),
                        },
                    ),
                ) && r.0 == (BenchOf { overlay: r.0.overlay, ..v });
            &&& action is Checkout ==> r == (
                v,
                Ok::<MenuStepOf<RequestModel>, Seq<char>>(MenuStepOf::PickBranch),
            )
            &&& action is NewBranch ==> prompts(
                "NEW BRANCH"@,
                PromptKindOf::NewBranch,
                "branches from where you are now"@,
            )
            &&& action is TagCreate ==> prompts(
                "NEW TAG"@,
                PromptKindOf::NewTag,
                "tags the commit you are on"@,
            )
            &&& action is WorktreeAdd ==> prompts(
                "NEW WORKTREE"@,
                PromptKindOf::NewWorktree,
                "a branch name; the checkout goes beside this one"@,
            )
            &&& action is DeleteBranch ==> picks(PickTarget::DeleteBranch)
            &&& action is Merge ==> picks(PickTarget::Merge)
            &&& action is Rebase ==> picks(PickTarget::Rebase)
            &&& action is StashList ==> picks(PickTarget::StashPop)
            &&& action is StashDrop ==> picks(PickTarget::StashDrop)
            &&& action is TagDelete ==> picks(PickTarget::TagDelete)
            &&& action is RemoteRemove ==> picks(PickTarget::RemoteRemove)
            &&& action is WorktreeList ==> picks(PickTarget::OpenWorktree)
            &&& action is WorktreeRemove ==> picks(PickTarget::RemoveWorktree)
            &&& menu_route(action) matches Some((tail, fields)) ==> r.1 == Ok::<
                MenuStepOf<RequestModel>,
                Seq<char>,
            >(
                MenuStepOf::Send(
                    crate::request::RequestOf {
                        method: crate::request::Method::Post,
                        route: "/v1/workspaces/"@ + decimal(w.id.0 as nat) + "/"@ + tail,
                        body: crate::request::BodyOf::Object(fields),
                    },
                ),
            ) && r.0.overlay == v.overlay
        }),
{
}

/// A row that destroys something and has not been answered for is asked about
/// by what it is called, on no.
pub proof fn a_destroying_row_is_asked_about_by_its_name(
    action: MenuAction,
    v: BenchModel,
    items: Seq<MenuItem>,
    ws: Option<&Workspace>,
)
    requires
        action is PushForce || action is ResetHard || action is SequenceAbort,
        v.confirmed_menu_action != Some(action),
    ensures
        menu_taken(action, v, items, ws) == (
            BenchOf {
                overlay: Some(
                    OverlayModel::Confirm(
                        crate::types::ConfirmOverlayOf {
                            title: "GIT"@,
                            header: label_in(items, action) + " — this cannot be undone"@,
                            yes: false,
                            kind: ConfirmKindOf::MenuAction,
                        },
                    ),
                ),
                pending_menu_action: Some(action),
                confirmed_menu_action: None,
                ..v
            },
            Ok::<MenuStepOf<RequestModel>, Seq<char>>(MenuStepOf::Asked),
        ),
{
}

/// A list of branches has a row for each, by whose name it acts, with the one
/// that is checked out marked; where there are none it is said.
pub proof fn the_branches_are_listed_and_the_current_marked(
    branches: Seq<String>,
    current: Option<Seq<char>>,
    kind: ListKindModel,
    title: Seq<char>,
    i: int,
)
    ensures
        branches.len() == 0 ==> branch_list(branches, current, kind, title) == Err::<
            OverlayModel,
            _,
        >("no branches (is this a repository?)"@),
        0 <= i < branches.len() ==> (branch_list(branches, current, kind, title) matches Ok(
            OverlayOf::List(l),
        ) && l.title == title && l.kind == kind && l.sel == 0 && l.items.len() == branches.len()
            && (l.values matches Some(values) && values.len() == branches.len() && values[i]
            == branches[i]@) && l.items[i] == (if current == Some(branches[i]@) {
            "* "@ + branches[i]@
        } else {
            "  "@ + branches[i]@
        })),
{
}

/// Each pick is made from the list of what it picks: branches, stashes, tags,
/// remotes or checkouts, each read by its own route. What is picked on the git
/// page is picked there alone.
pub proof fn a_pick_is_made_from_its_own_list(target: PickTarget, title: Seq<char>)
    ensures
        ({
            let from = |source: PickSource|
                source_of(target, title) == Ok::<PickSource, Seq<char>>(source);
            &&& target is DeleteBranch || target is Merge || target is Rebase ==> from(
                PickSource::Branches,
            )
            &&& target is StashPop || target is StashDrop ==> from(PickSource::Stashes)
            &&& target is TagDelete ==> from(PickSource::Tags)
            &&& target is RemoteRemove ==> from(PickSource::Remotes)
            &&& target is OpenWorktree || target is RemoveWorktree ==> from(PickSource::Worktrees)
            &&& target is Checkout || target is Revert || target is CherryPick ==> source_of(
                target,
                title,
            ) == Err::<PickSource, _>(title + " is chosen from the GIT page, not from a list"@)
        }),
        PickSource::Branches.route() == "branches"@,
        PickSource::Stashes.route() == "git/stashes"@,
        PickSource::Tags.route() == "git/tags"@,
        PickSource::Remotes.route() == "git/remotes"@,
        PickSource::Worktrees.route() == "git/worktrees"@,
{
}

/// A list to pick from shows each thing by how it reads and acts by what it is
/// called: a stash by its number, a tag by its name, a remote by its name and
/// not its address. Where there is nothing to pick, that is said.
pub proof fn a_list_to_pick_from_acts_by_its_values(
    target: PickTarget,
    title: Seq<char>,
    stashes: Vec<Stash>,
    tags: Vec<String>,
    remotes: Vec<Remote>,
    i: int,
)
    ensures
        ({
            let shows = |rows: PickRows, n: nat, item: Seq<char>, value: Seq<char>|
                picked_from(target, title, rows) matches Ok(OverlayOf::List(l)) && l.title == title
                    && l.sel == 0 && l.kind == ListKindOf::<Seq<char>>::Pick(target)
                    && l.items.len() == n && l.items[i] == item && (l.values matches Some(values)
                    && values.len() == n && values[i] == value);
            let s = stashes@[i];
            &&& 0 <= i < stashes@.len() ==> shows(
                PickRows::Stashes(stashes),
                stashes@.len(),
                "stash@{"@ + decimal(s.index as nat) + "} "@ + s.branch@ + " "@ + s.message@,
                decimal(s.index as nat),
            )
            &&& stashes@.len() == 0 ==> picked_from(target, title, PickRows::Stashes(stashes))
                == Err::<OverlayModel, _>("nothing stashed"@)
            &&& 0 <= i < tags@.len() ==> shows(
                PickRows::Tags(tags),
                tags@.len(),
                tags@[i]@,
                tags@[i]@,
            )
            &&& tags@.len() == 0 ==> picked_from(target, title, PickRows::Tags(tags)) == Err::<
                OverlayModel,
                _,
            >("no tags"@)
            &&& 0 <= i < remotes@.len() ==> shows(
                PickRows::Remotes(remotes),
                remotes@.len(),
                remotes@[i].name@ + "  "@ + remotes@[i].url@,
                remotes@[i].name@,
            )
            &&& remotes@.len() == 0 ==> picked_from(target, title, PickRows::Remotes(remotes))
                == Err::<OverlayModel, _>("no remotes"@)
        }),
{
}

/// Checkouts are listed by their path and their branch, where they are on one,
/// and act by their path. Every one can be picked to be opened, in order; to
/// be removed, every one but the main.
pub proof fn the_checkouts_are_listed_by_their_path(
    target: PickTarget,
    title: Seq<char>,
    all: Vec<Worktree>,
    list: Seq<Worktree>,
    w: Worktree,
    i: int,
)
    ensures
        0 <= i < pickable(all@, target).len() ==> (picked_from(
            target,
            title,
            PickRows::Worktrees(all),
        ) matches Ok(OverlayOf::List(l)) && l.items.len() == pickable(all@, target).len()
            && l.items[i] == (match pickable(all@, target)[i].branch {
            Some(b) => pickable(all@, target)[i].path@ + "  ["@ + b@ + "]"@,
            None => pickable(all@, target)[i].path@ + "  (detached)"@,
        }) && (l.values matches Some(values) && values[i] == pickable(all@, target)[i].path@)),
        pickable(all@, target).len() == 0 ==> picked_from(target, title, PickRows::Worktrees(all))
            == Err::<OverlayModel, _>("no other worktrees"@),
        pickable(Seq::empty(), target) == Seq::<Worktree>::empty(),
        target is OpenWorktree ==> pickable(list.push(w), target) == pickable(list, target).push(w),
        target is RemoveWorktree && !w.is_main ==> pickable(list.push(w), target) == pickable(
            list,
            target,
        ).push(w),
        target is RemoveWorktree && w.is_main ==> pickable(list.push(w), target) == pickable(
            list,
            target,
        ),
{
    assert(list.push(w).drop_last() =~= list);
}

/// The list of agents opens on the one that is pinned, where it is in it, and
/// on the first otherwise.
pub proof fn the_agents_are_listed_from_the_pinned_one(
    items: Seq<Seq<char>>,
    pinned: Option<Seq<char>>,
    i: int,
)
    requires
        items.len() <= usize::MAX,
    ensures
        items.len() == 0 ==> agent_list(items, pinned) == Err::<OverlayModel, _>(
            "no agents configured"@,
        ),
        items.len() > 0 ==> (agent_list(items, pinned) matches Ok(OverlayOf::List(l)) && l.items
            == items && l.values is None && l.kind is SpawnAgent && l.title
            == "SPAWN AGENT — d pins as default"@ && l.sel < items.len() && (pinned is None
            ==> l.sel == 0)),
        items.len() > 0 && 0 <= i < items.len() && pinned == Some(items[i]) && (forall|j: int|
            0 <= j < i ==> #[trigger] items[j] != items[i]) ==> (agent_list(items, pinned) matches
            Ok(OverlayOf::List(l)) && l.sel == i),
        (forall|j: int| 0 <= j < items.len() ==> Some(#[trigger] items[j]) != pinned) && items.len()
            > 0 ==> (agent_list(items, pinned) matches Ok(OverlayOf::List(l)) && l.sel == 0),
{
    match pinned {
        Some(p) => {
            crate::text::first_index_is_first(items, p);
        },
        None => {},
    }
}

/// A menu on something is headed and filled for that kind of thing, opens on
/// its first row, and acts on that thing.
pub proof fn a_menu_is_filled_for_what_it_is_on(kind: MenuTarget, names: MenuTexts)
    ensures
        context_menu(kind, names) matches OverlayOf::List(l) && l.sel == 0 && l.values is None
            && l.kind == ListKindOf::<Seq<char>>::Menu(kind) && {
            let text = match kind {
                MenuTarget::Process(_) => names.process,
                MenuTarget::Agent { .. } => names.agent,
                MenuTarget::Tab(_) => names.tab,
                MenuTarget::RemoteTab(_) => names.remote_tab,
            };
            l.title == text.title@ && l.items == texts(text.rows@)
        },
{
}

/// The menu on a process kills it from its first row and restarts it from any
/// other: in the open workspace, by its own number.
pub proof fn a_process_is_killed_or_restarted_from_its_menu(
    pane: PaneId,
    row: usize,
    daemons: Seq<Daemon>,
    here: usize,
    w: &Workspace,
)
    ensures
        ({
            let r = menu_deed(MenuTarget::Process(pane), row, daemons, here, Some(w));
            &&& row == 0 ==> r == Ok::<MenuDeedModel, Seq<char>>(
                MenuDeedOf::Kill(seq![Route { daemon: here, workspace: w.id, pane }]),
            )
            &&& row > 0 ==> (r matches Ok(MenuDeedOf::Restart { pane: it, request }) && it == pane
                && request.method is Post && request.route == "/v1/workspaces/"@ + decimal(
                w.id.0 as nat,
            ) + "/"@ + ("processes/"@ + decimal(pane.0 as nat) + "/restart"@))
        }),
        menu_deed(MenuTarget::Process(pane), row, daemons, here, None) == Err::<MenuDeedModel, _>(
            "no workspace open"@,
        ),
{
}

/// The menu on an agent kills it from its first row, every other agent of its
/// workspace from the second, and every agent there from the third: on its own
/// machine, wherever the keyboard is.
pub proof fn an_agent_is_killed_from_its_menu(
    daemon: usize,
    workspace: SessionId,
    pane: PaneId,
    row: usize,
    daemons: Seq<Daemon>,
    here: usize,
    ws: Option<&Workspace>,
    w: Workspace,
    other: PaneId,
)
    requires
        daemon < daemons.len(),
        daemons[daemon as int].described(workspace) == Some(w),
    ensures
        ({
            let r = menu_deed(
                MenuTarget::Agent { daemon, workspace, pane },
                row,
                daemons,
                here,
                ws,
            );
            let at = Route { daemon, workspace, pane: other };
            &&& r is Ok && r->Ok_0 is Kill
            &&& row == 0 ==> (r->Ok_0->Kill_0.contains(at) <==> other == pane)
                && r->Ok_0->Kill_0.len() == 1
            &&& row == 1 ==> (r->Ok_0->Kill_0.contains(at) <==> w.agents@.contains(other) && other
                != pane)
            &&& row >= 2 ==> (r->Ok_0->Kill_0.contains(at) <==> w.agents@.contains(other))
        }),
{
    let one = seq![Route { daemon, workspace, pane }];
    assert(one[0] == (Route { daemon, workspace, pane }));
    closing_the_others_keeps_this_one(w.agents@, pane, daemon, workspace, other);
    every_agent_is_routed_to(w.agents@, daemon, workspace, other);
}

proof fn every_agent_is_routed_to(
    agents: Seq<PaneId>,
    daemon: usize,
    workspace: SessionId,
    other: PaneId,
)
    ensures
        routes_but(agents, None, daemon, workspace).contains(
            Route { daemon, workspace, pane: other },
        ) <==> agents.contains(other),
    decreases agents.len(),
{
    let at = Route { daemon, workspace, pane: other };
    if agents.len() > 0 {
        let rest = agents.drop_last();
        let before = routes_but(rest, None, daemon, workspace);
        let all = routes_but(agents, None, daemon, workspace);
        every_agent_is_routed_to(rest, daemon, workspace, other);
        if all.contains(at) {
            let i = choose|i: int| 0 <= i < all.len() && all[i] == at;
            if i < before.len() {
                assert(before[i] == at);
                assert(before.contains(at));
                let j = choose|j: int| 0 <= j < rest.len() && rest[j] == other;
                assert(agents[j] == other);
            } else {
                assert(agents[agents.len() - 1] == other);
            }
        }
        if agents.contains(other) {
            let j = choose|j: int| 0 <= j < agents.len() && agents[j] == other;
            if j < rest.len() {
                assert(rest[j] == other);
                assert(rest.contains(other));
                let i = choose|i: int| 0 <= i < before.len() && before[i] == at;
                assert(all[i] == at);
            } else {
                assert(all[before.len() as int] == at);
            }
        }
    }
}

/// The menu on a tab closes its workspace, on the machine it is on; on a tab
/// of another machine it disconnects that machine. A tab that has gone is said
/// to have.
pub proof fn a_tab_is_closed_or_its_machine_disconnected(
    i: usize,
    row: usize,
    daemons: Seq<Daemon>,
    here: usize,
    ws: Option<&Workspace>,
)
    ensures
        i < all_tabs(daemons).len() ==> {
            let (d, t) = all_tabs(daemons)[i as int];
            &&& menu_deed(MenuTarget::Tab(i), row, daemons, here, ws) matches Ok(
                MenuDeedOf::Close { daemon, request },
            ) && daemon == d && request.method is Delete && request.route == "/v1/workspaces/"@
                + decimal(daemons[d as int].tabs@[t as int].id.0 as nat)
            &&& menu_deed(MenuTarget::RemoteTab(i), row, daemons, here, ws) == Ok::<
                MenuDeedModel,
                Seq<char>,
            >(MenuDeedOf::Disconnect(d))
        },
        i >= all_tabs(daemons).len() ==> menu_deed(MenuTarget::Tab(i), row, daemons, here, ws)
            == Err::<MenuDeedModel, _>("that tab has gone"@) && menu_deed(
            MenuTarget::RemoteTab(i),
            row,
            daemons,
            here,
            ws,
        ) == Err::<MenuDeedModel, _>("that tab has gone"@),
{
}

} // verus!
